//! Incoming byte-stream framing and message classification.
//!
//! The channel delivers raw bytes with no framing of its own.  A
//! `LineBuffer` accumulates them and hands out complete newline-terminated
//! lines; each line is then classified as a response, a notification or
//! diagnostic noise.  Classification rules (the wire contract): a line is a
//! response when it carries an `id`, a notification when it carries a
//! `method` and no `id`; anything unparseable is non-fatal noise, because
//! the channel may interleave diagnostic output.
//!
//! What a line of JSON text holds is a function of the text alone, so the
//! envelope fields are carried as named results (`json_parses`, `json_id_of`
//! and friends) and the classification itself is verified against them.

use vstd::prelude::*;
use vstd::string::StringSliceAdditionalSpecFns;
use crate::rpc::{Notification, Request, Response, RpcError};
use crate::util::{lossy_string, spec_trim, trim_bytes, utf8_lossy_of};

verus! {

/// Growing buffer over the raw byte stream, from which complete lines are
/// extracted one at a time.
pub struct LineBuffer {
    buf: Vec<u8>,
}

impl LineBuffer {
    /// The bytes accumulated and not yet handed out.
    pub closed spec fn view_bytes(&self) -> Seq<u8> {
        self.buf@
    }

    /// An empty buffer.
    pub fn new() -> (r: Self)
        ensures
            r.view_bytes() =~= Seq::<u8>::empty(),
    {
        LineBuffer { buf: Vec::new() }
    }

    /// Number of buffered bytes.
    pub fn len(&self) -> (r: usize)
        ensures
            r == self.view_bytes().len(),
    {
        self.buf.len()
    }

    /// Append newly received bytes.
    pub fn feed(&mut self, data: &[u8])
        ensures
            final(self).view_bytes() == old(self).view_bytes() + data@,
    {
        self.buf.extend_from_slice(data);
        proof {
            assert(self.buf@ =~= old(self).buf@ + data@);
        }
    }

    /// Extract the next complete line, without its terminator: everything up
    /// to the first line feed leaves the buffer and is returned; with no
    /// line feed buffered, nothing changes and nothing is returned.
    pub fn next_line(&mut self) -> (r: Option<Vec<u8>>)
        ensures
            match r {
                Some(line) => {
                    let p = line@.len() as int;
                    &&& p < old(self).view_bytes().len()
                    &&& old(self).view_bytes()[p] == 10
                    &&& forall|j: int| 0 <= j < p ==> old(self).view_bytes()[j] != 10
                    &&& line@ == old(self).view_bytes().take(p)
                    &&& final(self).view_bytes() == old(self).view_bytes().skip(p + 1)
                },
                None => *final(self) == *old(self) && forall|j: int|
                    0 <= j < old(self).view_bytes().len() ==> old(self).view_bytes()[j] != 10,
            },
    {
        let n = self.buf.len();
        let pos = crate::util::find_byte(self.buf.as_slice(), 10);
        match pos {
            Some(p) => {
                proof {
                    assert(p < n);
                }
                let line = vstd::slice::slice_to_vec(
                    vstd::slice::slice_subrange(self.buf.as_slice(), 0, p),
                );
                let rest = vstd::slice::slice_to_vec(
                    vstd::slice::slice_subrange(self.buf.as_slice(), p + 1, n),
                );
                self.buf = rest;
                proof {
                    assert(line@ =~= old(self).buf@.take(p as int));
                    assert(self.buf@ =~= old(self).buf@.skip(p + 1));
                }
                Some(line)
            },
            None => None,
        }
    }
}

/// A classified incoming line.
pub enum WireMessage {
    /// A response: the line carried an `id`.
    ResponseMsg(Response),
    /// A notification: a `method` and no `id`.
    NotificationMsg(Notification),
    /// Unparseable or unclassifiable: logged and discarded, never fatal.
    Noise,
}

// What a line of JSON text holds is a function of the text alone.  The
// names below fix one reading each; the trusted accessors under them apply
// the names, and the classification is verified on top.  Where the text
// does not parse, every field reads as absent.

/// Whether the text is valid JSON.
pub uninterp spec fn json_parses(text: Seq<char>) -> bool;

/// Whether the parsed value has an `id` key.
pub uninterp spec fn json_has_id(text: Seq<char>) -> bool;

/// The `id` value as an unsigned 64-bit integer, where it is one.
pub uninterp spec fn json_id_of(text: Seq<char>) -> Option<u64>;

/// The `method` value as text, where it is a string.
pub uninterp spec fn json_method_of(text: Seq<char>) -> Option<Seq<char>>;

/// Whether the parsed value has an `error` key.
pub uninterp spec fn json_has_error(text: Seq<char>) -> bool;

/// The error object's code and message, where the object is well-formed:
/// its `code` an integer fitting `i32`, its `message` the string under that
/// key or empty when absent.
pub uninterp spec fn json_error_of(text: Seq<char>) -> Option<(i32, Seq<char>)>;

/// Whether the parsed value has a `result` key.
pub uninterp spec fn json_has_result(text: Seq<char>) -> bool;

/// Relies on `serde_json::from_str`: whether the text parses as JSON is a
/// function of the text alone.
#[verifier::external_body]
fn line_parses(text: &str) -> (r: bool)
    ensures
        r == json_parses(text@),
{
    serde_json::from_str::<serde_json::Value>(text).is_ok()
}

/// Relies on `serde_json::Value::get` and `as_u64` after one parse: the
/// `id` key's presence and its numeric reading.
#[verifier::external_body]
fn line_id(text: &str) -> (r: (bool, Option<u64>))
    ensures
        r.0 == json_has_id(text@),
        r.1 == json_id_of(text@),
{
    match serde_json::from_str::<serde_json::Value>(text) {
        Ok(v) => (v.get("id").is_some(), v.get("id").and_then(|x| x.as_u64())),
        Err(_) => (false, None),
    }
}

/// Relies on `serde_json::Value::get` and `as_str` after one parse: the
/// `method` value where it is a string.
#[verifier::external_body]
fn line_method(text: &str) -> (r: Option<String>)
    ensures
        match r {
            Some(m) => json_method_of(text@) == Some(m@),
            None => json_method_of(text@) is None,
        },
{
    match serde_json::from_str::<serde_json::Value>(text) {
        Ok(v) => v.get("method").and_then(|m| m.as_str()).map(|s| s.to_owned()),
        Err(_) => None,
    }
}

/// Relies on `serde_json::Value`'s accessors after one parse: the `error`
/// key's presence, and its code and message where the object is
/// well-formed.  An error value comes back only when the key is present.
#[verifier::external_body]
fn line_error(text: &str) -> (r: (bool, Option<RpcError>))
    ensures
        r.0 == json_has_error(text@),
        r.1 is Some ==> r.0,
        match r.1 {
            Some(e) => json_error_of(text@) == Some((e.code, e.message@)),
            None => json_error_of(text@) is None,
        },
{
    let v = match serde_json::from_str::<serde_json::Value>(text) {
        Ok(v) => v,
        Err(_) => return (false, None),
    };
    let e = v.get("error");
    let err = e.and_then(|x| x.get("code")).and_then(|c| c.as_i64()).and_then(
        |c| i32::try_from(c).ok(),
    ).map(|code| RpcError {
        code,
        message: e.and_then(|x| x.get("message")).and_then(|m| m.as_str()).unwrap_or(
            "",
        ).to_owned(),
    });
    (e.is_some(), err)
}

/// Relies on `serde_json::Value::get` after one parse: the `result` key's
/// presence and its value, carried opaquely.
#[verifier::external_body]
fn line_result(text: &str) -> (r: (bool, Option<serde_json::Value>))
    ensures
        r.0 == json_has_result(text@),
        r.1 is Some <==> json_has_result(text@),
{
    match serde_json::from_str::<serde_json::Value>(text) {
        Ok(v) => (v.get("result").is_some(), v.get("result").cloned()),
        Err(_) => (false, None),
    }
}

/// Relies on `serde_json::Value::get` after one parse: the `params` value,
/// carried opaquely; nothing is promised of it.
#[verifier::external_body]
fn line_params(text: &str) -> Option<serde_json::Value> {
    match serde_json::from_str::<serde_json::Value>(text) {
        Ok(v) => v.get("params").cloned(),
        Err(_) => None,
    }
}

/// Relies on `serde_json::Value::Null` being a plain constructor.
#[verifier::external_body]
pub(crate) fn json_null() -> serde_json::Value {
    serde_json::Value::Null
}

/// The text a raw channel line classifies by: trimmed, then decoded.
pub open spec fn line_text(line: Seq<u8>) -> Seq<char> {
    utf8_lossy_of(spec_trim(line))
}

/// Decode one raw line from the channel, per the wire contract: an empty or
/// unparseable line is noise; an `id` makes it a response, whose error
/// object must be well-formed if present; a `method` without an `id` makes
/// it a notification; anything else is noise.  Failure is never fatal: a
/// malformed line only classifies as noise.
pub fn decode_line(line: &[u8]) -> (r: WireMessage)
    ensures
        spec_trim(line@).len() == 0 ==> r is Noise,
        spec_trim(line@).len() > 0 ==> {
            let t = line_text(line@);
            &&& !json_parses(t) ==> r is Noise
            &&& (json_parses(t) && json_has_id(t) && json_id_of(t) is None) ==> r is Noise
            &&& (json_parses(t) && json_has_id(t) && json_id_of(t) is Some && json_has_error(t)
                && json_error_of(t) is None) ==> r is Noise
            &&& (json_parses(t) && json_has_id(t) && json_id_of(t) is Some && (!json_has_error(
                t,
            ) || json_error_of(t) is Some)) ==> (r matches WireMessage::ResponseMsg(resp)
                && resp.id == json_id_of(t)->Some_0 && (resp.result is Some <==> json_has_result(
                t,
            )) && (match resp.error {
                Some(e) => json_has_error(t) && json_error_of(t) == Some((e.code, e.message@)),
                None => !json_has_error(t),
            }))
            &&& (json_parses(t) && !json_has_id(t) && json_method_of(t) is Some) ==> (r matches
                WireMessage::NotificationMsg(n) && Some(n.method@) == json_method_of(t))
            &&& (json_parses(t) && !json_has_id(t) && json_method_of(t) is None) ==> r is Noise
        },
{
    let trimmed = trim_bytes(line);
    if trimmed.len() == 0 {
        return WireMessage::Noise;
    }
    let text = lossy_string(trimmed.as_slice());
    if !line_parses(text.as_str()) {
        return WireMessage::Noise;
    }
    let (has_id, id_opt) = line_id(text.as_str());
    if has_id {
        match id_opt {
            None => WireMessage::Noise,
            Some(id) => {
                let (has_err, err_opt) = line_error(text.as_str());
                if has_err && err_opt.is_none() {
                    return WireMessage::Noise;
                }
                let (_, result) = line_result(text.as_str());
                WireMessage::ResponseMsg(Response { id, result, error: err_opt })
            },
        }
    } else {
        match line_method(text.as_str()) {
            Some(method) => {
                let params = match line_params(text.as_str()) {
                    Some(p) => p,
                    None => json_null(),
                };
                WireMessage::NotificationMsg(Notification { method, params })
            },
            None => WireMessage::Noise,
        }
    }
}

/// Relies on `serde_json::Value`'s accessors: the `path` and `kind` fields
/// of a watch-event payload, as strings.  The payload value is opaque, so
/// nothing can be promised here; the shape rule is verified in
/// `watch_event_from_fields`.
#[verifier::external_body]
fn watch_fields(params: &serde_json::Value) -> (Option<String>, Option<String>) {
    (
        params.get("path").and_then(|p| p.as_str()).map(|s| s.to_owned()),
        params.get("kind").and_then(|k| k.as_str()).map(|s| s.to_owned()),
    )
}

/// The watch-event shape rule: a payload yields an event exactly when both
/// the path and the change kind are present as strings, carried through
/// unchanged.
pub fn watch_event_from_fields(path: Option<String>, kind: Option<String>) -> (r: Option<
    crate::rpc::WatchEvent,
>)
    ensures
        r is Some <==> (path is Some && kind is Some),
        r matches Some(ev) ==> path == Some(ev.path) && kind == Some(ev.kind),
{
    match (path, kind) {
        (Some(path), Some(kind)) => Some(crate::rpc::WatchEvent { path, kind }),
        _ => None,
    }
}

/// A watch event as carried in a `watch/event` notification.  The field
/// extraction reads an opaque value; the shape rule it feeds is verified in
/// `watch_event_from_fields`, for every value the extraction can return.
pub fn read_watch_event(params: &serde_json::Value) -> Option<crate::rpc::WatchEvent> {
    let (path, kind) = watch_fields(params);
    watch_event_from_fields(path, kind)
}

/// Relies on `serde_json::Value`'s accessors: the `version`, `arch`, `os`
/// and `pid` fields of a `sys/info` result.  The value is opaque, so
/// nothing can be promised here; the shape rule is verified in
/// `sys_info_from_fields`.
#[verifier::external_body]
fn sys_info_raw_fields(v: &serde_json::Value) -> (
    Option<String>,
    Option<String>,
    Option<String>,
    Option<u64>,
) {
    (
        v.get("version").and_then(|x| x.as_str()).map(|s| s.to_owned()),
        v.get("arch").and_then(|x| x.as_str()).map(|s| s.to_owned()),
        v.get("os").and_then(|x| x.as_str()).map(|s| s.to_owned()),
        v.get("pid").and_then(|x| x.as_u64()),
    )
}

/// The identity shape rule of the handshake: a `sys/info` result is
/// accepted exactly when version, architecture, OS and pid are all present
/// and the pid fits a process id; the fields are carried through unchanged.
pub fn sys_info_from_fields(
    version: Option<String>,
    arch: Option<String>,
    os: Option<String>,
    pid: Option<u64>,
) -> (r: Option<crate::rpc::SysInfoResult>)
    ensures
        r is Some <==> (version is Some && arch is Some && os is Some && (pid matches Some(p)
            && p <= u32::MAX)),
        r matches Some(info) ==> version == Some(info.version) && arch == Some(info.arch) && os
            == Some(info.os) && pid == Some(info.pid as u64),
{
    match (version, arch, os, pid) {
        (Some(version), Some(arch), Some(os), Some(pid)) => {
            if pid <= u32::MAX as u64 {
                Some(crate::rpc::SysInfoResult { version, arch, os, pid: pid as u32 })
            } else {
                None
            }
        },
        _ => None,
    }
}

/// Read the agent identity out of a `sys/info` result value.  The field
/// extraction reads an opaque value; the shape rule it feeds is verified in
/// `sys_info_from_fields`, for every value the extraction can return.
pub fn read_sys_info(v: &serde_json::Value) -> Option<crate::rpc::SysInfoResult> {
    let (version, arch, os, pid) = sys_info_raw_fields(v);
    sys_info_from_fields(version, arch, os, pid)
}

/// Relies on `serde_json::Value::to_string` through a built object, and on
/// parsing giving back the serialized object: one compact JSON line holding
/// `id`, `method` and `params`.  Compact serialization escapes control
/// characters inside strings, so the output bytes never contain a raw line
/// feed — which is what the newline framing of the wire format rests on —
/// and the line reads back with the id and method it was built from, and no
/// error key.
#[verifier::external_body]
pub(crate) fn encode_request(id: u64, method: &str, params: &serde_json::Value) -> (r: String)
    ensures
        vstd::utf8::encode_utf8(r@).len() > 0,
        forall|i: int|
            0 <= i < vstd::utf8::encode_utf8(r@).len() ==> vstd::utf8::encode_utf8(r@)[i] != 10,
        json_parses(r@),
        json_has_id(r@),
        json_id_of(r@) == Some(id),
        json_method_of(r@) == Some(method@),
        !json_has_error(r@),
{
    let mut obj = serde_json::Map::new();
    obj.insert("id".to_owned(), serde_json::Value::from(id));
    obj.insert("method".to_owned(), serde_json::Value::from(method));
    obj.insert("params".to_owned(), params.clone());
    serde_json::Value::Object(obj).to_string()
}

/// Build the owned request value for a call about to be issued.
pub fn make_request(id: u64, method: String, params: serde_json::Value) -> (r: Request)
    ensures
        r.id == id,
        r.method == method,
        r.params == params,
{
    Request { id, method, params }
}

/// One framed request, ready for the channel: the encoded request line with
/// its terminating line feed and no line feed anywhere before it — so the
/// line extractor at the far end hands the line back whole — and the line's
/// text carries the call's id and method.
pub fn request_line(id: u64, method: &str, params: &serde_json::Value) -> (r: Vec<u8>)
    ensures
        r@.len() > 1,
        r@.last() == 10,
        forall|i: int| 0 <= i < r@.len() - 1 ==> r@[i] != 10,
        exists|t: Seq<char>|
            r@.drop_last() == vstd::utf8::encode_utf8(t) && json_parses(t) && json_has_id(t)
                && json_id_of(t) == Some(id) && json_method_of(t) == Some(method@)
                && !json_has_error(t),
{
    let line = encode_request(id, method, params);
    let mut out: Vec<u8> = Vec::new();
    out.extend_from_slice(line.as_str().as_bytes());
    out.push(10);
    proof {
        assert(out@.drop_last() =~= vstd::utf8::encode_utf8(line@));
        assert(out@.drop_last() == vstd::utf8::encode_utf8(line@) && json_parses(line@)
            && json_has_id(line@) && json_id_of(line@) == Some(id) && json_method_of(line@)
            == Some(method@) && !json_has_error(line@));
    }
    out
}

/// The outcome a response hands to its caller: the error object when one is
/// present, otherwise the result, with an absent result standing for null.
pub fn response_outcome(resp: Response) -> (r: Result<serde_json::Value, RpcError>)
    ensures
        resp.error matches Some(e) ==> r == Err::<serde_json::Value, _>(e),
        resp.error is None ==> r is Ok,
        (resp.error is None && resp.result is Some) ==> r == Ok::<_, RpcError>(
            resp.result->Some_0,
        ),
{
    match resp.error {
        Some(e) => Err(e),
        None => match resp.result {
            Some(v) => Ok(v),
            None => Ok(json_null()),
        },
    }
}

} // verus!
