//! Listening-port detection: parsing the platform port-scan output.
//!
//! Each sampling cycle runs a platform-specific listing command (`ss` or
//! `netstat` on Linux, `lsof` on macOS, PowerShell on Windows, `sockstat` on
//! the BSDs, plus `docker ps` for container mappings) and the parsers here
//! turn its output into detected ports, deduplicated by port number.

use vstd::prelude::*;
use vstd::string::StringSliceAdditionalSpecFns;
use crate::util::{
    is_match_at, lossy_string, spec_contains, spec_find, spec_find_byte, spec_tokens, spec_trim,
    trim_bytes, utf8_lossy_of,
};

verus! {

/// A detected listening port on the remote host.
#[derive(Debug, Clone, PartialEq, Eq, Hash)]
pub struct DetectedPort {
    /// The port number.
    pub port: u16,
    /// Bind address, e.g. "0.0.0.0", "127.0.0.1", "::".
    pub bind_addr: String,
    /// Process name if available.
    pub process_name: Option<String>,
    /// Process id if available.
    pub pid: Option<u32>,
}

/// The semantic content of a detected port, with text as characters.
pub struct PortView {
    pub port: u16,
    pub bind_addr: Seq<char>,
    pub process_name: Option<Seq<char>>,
    pub pid: Option<u32>,
}

impl DetectedPort {
    /// This port's content.
    pub open spec fn view_port(&self) -> PortView {
        PortView {
            port: self.port,
            bind_addr: self.bind_addr@,
            process_name: match self.process_name {
                Some(ref s) => Some(s@),
                None => None,
            },
            pid: self.pid,
        }
    }
}

/// The contents of a port list.
pub open spec fn port_views(s: Seq<DetectedPort>) -> Seq<PortView> {
    s.map_values(|p: DetectedPort| p.view_port())
}

/// Event emitted when the set of listening ports changes.
#[derive(Debug, Clone)]
pub struct PortDetectionEvent {
    /// Connection this event belongs to.
    pub connection_id: String,
    /// Newly detected ports (not in the previous scan).
    pub new_ports: Vec<DetectedPort>,
    /// Ports closed since the last scan.
    pub closed_ports: Vec<DetectedPort>,
    /// Full current list.
    pub all_ports: Vec<DetectedPort>,
}

/// Position of the rightmost occurrence of `pat` in `s`, if any.
pub open spec fn spec_rfind(s: Seq<u8>, pat: Seq<u8>) -> Option<int>
    decreases s.len(),
{
    if s.len() < pat.len() || pat.len() == 0 {
        if pat.len() == 0 {
            Some(s.len() as int)
        } else {
            None
        }
    } else if is_match_at(s, pat, s.len() - pat.len()) {
        Some(s.len() - pat.len())
    } else {
        spec_rfind(s.drop_last(), pat)
    }
}

/// `spec_rfind` names the rightmost match.
pub proof fn lemma_spec_rfind_correct(s: Seq<u8>, pat: Seq<u8>)
    requires
        pat.len() > 0,
    ensures
        match spec_rfind(s, pat) {
            Some(i) => is_match_at(s, pat, i) && forall|j: int| i < j ==> !is_match_at(s, pat, j),
            None => !spec_contains(s, pat),
        },
    decreases s.len(),
{
    if s.len() < pat.len() {
        assert forall|j: int| !is_match_at(s, pat, j) by {}
    } else if is_match_at(s, pat, s.len() - pat.len()) {
        assert forall|j: int| s.len() - pat.len() < j implies !is_match_at(s, pat, j) by {}
    } else {
        let t = s.drop_last();
        lemma_spec_rfind_correct(t, pat);
        assert forall|j: int| 0 <= j && j + pat.len() <= t.len() implies (is_match_at(s, pat, j)
            <==> is_match_at(t, pat, j)) by {
            if is_match_at(s, pat, j) {
                assert(t.subrange(j, j + pat.len() as int) =~= s.subrange(
                    j,
                    j + pat.len() as int,
                ));
            }
            if is_match_at(t, pat, j) {
                assert(s.subrange(j, j + pat.len() as int) =~= t.subrange(
                    j,
                    j + pat.len() as int,
                ));
            }
        }
        match spec_rfind(t, pat) {
            Some(i) => {
                assert(is_match_at(s, pat, i));
                assert forall|j: int| i < j implies !is_match_at(s, pat, j) by {
                    if is_match_at(s, pat, j) {
                        assert(j + pat.len() <= s.len());
                        if j + pat.len() <= t.len() {
                            assert(is_match_at(t, pat, j));
                        } else {
                            assert(j == s.len() - pat.len());
                        }
                    }
                }
            },
            None => {
                assert forall|j: int| !is_match_at(s, pat, j) by {
                    if is_match_at(s, pat, j) {
                        if j + pat.len() <= t.len() {
                            assert(is_match_at(t, pat, j));
                            assert(spec_contains(t, pat));
                        } else {
                            assert(j == s.len() - pat.len());
                        }
                    }
                }
            },
        }
    }
}

/// `rfind_sub`, tied to the spec-level rightmost find.
pub fn rfind_spec(s: &[u8], pat: &[u8]) -> (r: Option<usize>)
    requires
        pat@.len() > 0,
    ensures
        match r {
            Some(i) => spec_rfind(s@, pat@) == Some(i as int),
            None => spec_rfind(s@, pat@) is None,
        },
{
    proof {
        lemma_spec_rfind_correct(s@, pat@);
    }
    let r = crate::util::rfind_sub(s, pat);
    proof {
        match r {
            Some(i) => {
                match spec_rfind(s@, pat@) {
                    Some(k) => {
                        assert(!(k < i) && !(i < k));
                    },
                    None => {
                        assert(spec_contains(s@, pat@));
                    },
                }
            },
            None => {
                if spec_rfind(s@, pat@) is Some {
                    let k = spec_rfind(s@, pat@)->Some_0;
                    assert(is_match_at(s@, pat@, k));
                    assert(spec_contains(s@, pat@));
                }
            },
        }
    }
    r
}

/// A decimal port number, if the text is one.
pub open spec fn spec_u16(s: Seq<u8>) -> Option<u16> {
    match crate::metrics::spec_u64(s) {
        Some(v) => if v <= u16::MAX {
            Some(v as u16)
        } else {
            None
        },
        None => None,
    }
}

/// Parse a decimal port number.
pub fn parse_u16(s: &[u8]) -> (r: Option<u16>)
    ensures
        r == spec_u16(s@),
{
    match crate::metrics::parse_u64_opt(s) {
        Some(v) => if v <= u16::MAX as u64 {
            Some(v as u16)
        } else {
            None
        },
        None => None,
    }
}

/// What `addr:port` text parses to: bracketed IPv6 first (the part after
/// the rightmost `]:`), otherwise the part after the rightmost `:`, with an
/// empty or `*` address standing for "0.0.0.0".  No process data yet.
pub open spec fn spec_addr_port(s: Seq<u8>) -> Option<PortView> {
    match spec_rfind(s, seq![93u8, 58u8]) {
        Some(i) => {
            let addr = s.take(i + 1);
            match spec_u16(s.skip(i + 2)) {
                Some(p) => Some(
                    PortView {
                        port: p,
                        bind_addr: utf8_lossy_of(addr),
                        process_name: None,
                        pid: None,
                    },
                ),
                None => None,
            }
        },
        None => {
            match spec_rfind(s, seq![58u8]) {
                Some(i) => {
                    let addr = s.take(i);
                    match spec_u16(s.skip(i + 1)) {
                        Some(p) => Some(
                            PortView {
                                port: p,
                                bind_addr: if addr.len() == 0 || addr == seq![42u8] {
                                    "0.0.0.0"@
                                } else {
                                    utf8_lossy_of(addr)
                                },
                                process_name: None,
                                pid: None,
                            },
                        ),
                        None => None,
                    }
                },
                None => None,
            }
        },
    }
}

/// Parse an `addr:port` token, handling IPv6 bracket notation.
pub fn parse_addr_port(s: &str) -> (r: Option<DetectedPort>)
    ensures
        r is Some <==> spec_addr_port(s.spec_bytes()) is Some,
        r matches Some(p) ==> Some(p.view_port()) == spec_addr_port(s.spec_bytes()),
{
    parse_addr_port_bytes(s.as_bytes())
}

/// Parse an `addr:port` token from raw bytes.
pub fn parse_addr_port_bytes(s: &[u8]) -> (r: Option<DetectedPort>)
    ensures
        r is Some <==> spec_addr_port(s@) is Some,
        r matches Some(p) ==> Some(p.view_port()) == spec_addr_port(s@),
{
    let mut pat: Vec<u8> = Vec::new();
    pat.push(93);
    pat.push(58);
    proof {
        assert(pat@ =~= seq![93u8, 58u8]);
    }
    match rfind_spec(s, pat.as_slice()) {
        Some(i) => {
            let sl = s.len();
            proof {
                lemma_spec_rfind_correct(s@, pat@);
                assert(is_match_at(s@, pat@, i as int));
                assert(i + 2 <= sl as int);
            }
            let addr = vstd::slice::slice_subrange(s, 0, i + 1);
            let port_str = vstd::slice::slice_subrange(s, i + 2, sl);
            proof {
                assert(addr@ =~= s@.take(i + 1));
                assert(port_str@ =~= s@.skip(i + 2));
            }
            match parse_u16(port_str) {
                Some(p) => Some(
                    DetectedPort {
                        port: p,
                        bind_addr: lossy_string(addr),
                        process_name: None,
                        pid: None,
                    },
                ),
                None => None,
            }
        },
        None => {
            let mut colon: Vec<u8> = Vec::new();
            colon.push(58);
            proof {
                assert(colon@ =~= seq![58u8]);
            }
            match rfind_spec(s, colon.as_slice()) {
                Some(i) => {
                    let sl = s.len();
                    proof {
                        lemma_spec_rfind_correct(s@, colon@);
                        assert(is_match_at(s@, colon@, i as int));
                        assert(i + 1 <= sl as int);
                    }
                    let addr = vstd::slice::slice_subrange(s, 0, i);
                    let port_str = vstd::slice::slice_subrange(s, i + 1, sl);
                    proof {
                        assert(addr@ =~= s@.take(i as int));
                        assert(port_str@ =~= s@.skip(i + 1));
                    }
                    match parse_u16(port_str) {
                        Some(p) => {
                            let mut star: Vec<u8> = Vec::new();
                            star.push(42);
                            let is_star = crate::util::bytes_eq(addr, star.as_slice());
                            proof {
                                assert(star@ =~= seq![42u8]);
                                if addr@ == seq![42u8] {
                                    assert(addr@ =~= seq![42u8]);
                                }
                            }
                            let bind_addr = if addr.len() == 0 || is_star {
                                "0.0.0.0".to_owned()
                            } else {
                                lossy_string(addr)
                            };
                            Some(
                                DetectedPort {
                                    port: p,
                                    bind_addr,
                                    process_name: None,
                                    pid: None,
                                },
                            )
                        },
                        None => None,
                    }
                },
                None => None,
            }
        },
    }
}

/// Parse an lsof TCP field such as `*:3000`, attaching process data.
pub fn parse_lsof_addr(s: &str, process_name: Option<String>, pid: Option<u32>) -> (r: Option<
    DetectedPort,
>)
    ensures
        r is Some <==> spec_addr_port(s.spec_bytes()) is Some,
        r matches Some(p) ==> {
            let base = spec_addr_port(s.spec_bytes())->Some_0;
            p.view_port() == (PortView {
                process_name: match process_name {
                    Some(n) => Some(n@),
                    None => None,
                },
                pid,
                ..base
            })
        },
{
    match parse_addr_port_bytes(s.as_bytes()) {
        Some(mut p) => {
            p.process_name = process_name;
            p.pid = pid;
            Some(p)
        },
        None => None,
    }
}

/// Length of the leading run of ASCII digits.
pub open spec fn digit_prefix_len(s: Seq<u8>) -> nat
    decreases s.len(),
{
    if s.len() == 0 || !(48 <= s[0] <= 57) {
        0
    } else {
        1 + digit_prefix_len(s.drop_first())
    }
}

/// What the ss `users:(("name",pid=N,fd=M))` field adds to a port: the
/// quoted name after `(("`, if the quotes close, and the digits after
/// `pid=` parsed as a pid — parse failure clears the pid.
pub open spec fn spec_extract_users(users: Seq<u8>, dp: PortView) -> PortView {
    let with_name = match spec_find(users, seq![40u8, 40u8, 34u8]) {
        Some(i) => {
            let rest = users.skip(i + 3);
            match spec_find_byte(rest, 34) {
                Some(e) => PortView { process_name: Some(utf8_lossy_of(rest.take(e))), ..dp },
                None => dp,
            }
        },
        None => dp,
    };
    match spec_find(users, seq![112u8, 105u8, 100u8, 61u8]) {
        Some(i) => {
            let rest = users.skip(i + 4);
            let digits = rest.take(digit_prefix_len(rest) as int);
            PortView {
                pid: match crate::metrics::spec_u32(digits) {
                    Some(v) => Some(v),
                    None => None,
                },
                ..with_name
            }
        },
        None => with_name,
    }
}

/// Whether `b` is an ASCII digit.
fn is_digit_byte(b: u8) -> (r: bool)
    ensures
        r == (48 <= b <= 57),
{
    b >= 48 && b <= 57
}

/// Take the leading digit run.
fn digit_prefix(s: &[u8]) -> (r: Vec<u8>)
    ensures
        r@ == s@.take(digit_prefix_len(s@) as int),
{
    let mut j: usize = 0;
    proof {
        assert(s@.skip(0) =~= s@);
    }
    while j < s.len() && is_digit_byte(*vstd::slice::slice_index_get(s, j))
        invariant
            0 <= j <= s@.len(),
            digit_prefix_len(s@) == j + digit_prefix_len(s@.skip(j as int)),
        decreases s@.len() - j,
    {
        proof {
            assert(s@.skip(j as int)[0] == s@[j as int]);
            assert(s@.skip(j as int).drop_first() =~= s@.skip(j + 1));
        }
        j = j + 1;
    }
    proof {
        if j < s@.len() {
            assert(s@.skip(j as int)[0] == s@[j as int]);
        }
        assert(digit_prefix_len(s@.skip(j as int)) == 0);
        assert(digit_prefix_len(s@) == j);
    }
    vstd::slice::slice_to_vec(vstd::slice::slice_subrange(s, 0, j))
}

/// Extract process name and pid from an ss `users:((...))` field.
pub fn extract_process_from_ss_users(users_field: &str, dp: DetectedPort) -> (r: DetectedPort)
    ensures
        r.view_port() == spec_extract_users(users_field.spec_bytes(), dp.view_port()),
{
    extract_users_bytes(users_field.as_bytes(), dp)
}

/// Extract process name and pid from an ss `users:((...))` field, on bytes.
pub fn extract_users_bytes(users: &[u8], dp: DetectedPort) -> (r: DetectedPort)
    ensures
        r.view_port() == spec_extract_users(users@, dp.view_port()),
{
    let mut out = dp;
    let mut pat: Vec<u8> = Vec::new();
    pat.push(40);
    pat.push(40);
    pat.push(34);
    proof {
        assert(pat@ =~= seq![40u8, 40u8, 34u8]);
        crate::util::lemma_spec_find_correct(users@, pat@);
    }
    match crate::util::find_sub_spec(users, pat.as_slice()) {
        Some(i) => {
            let ul = users.len();
            proof {
                assert(is_match_at(users@, pat@, i as int));
                assert(i + 3 <= ul as int);
            }
            let rest = vstd::slice::slice_subrange(users, i + 3, ul);
            proof {
                assert(rest@ =~= users@.skip(i + 3));
            }
            match crate::util::find_byte_spec(rest, 34) {
                Some(e) => {
                    proof {
                        crate::util::lemma_spec_find_byte_correct(rest@, 34);
                    }
                    let name = vstd::slice::slice_subrange(rest, 0, e);
                    proof {
                        assert(name@ =~= rest@.take(e as int));
                    }
                    out.process_name = Some(lossy_string(name));
                },
                None => {},
            }
        },
        None => {},
    }
    let mut pid_pat: Vec<u8> = Vec::new();
    pid_pat.push(112);
    pid_pat.push(105);
    pid_pat.push(100);
    pid_pat.push(61);
    proof {
        assert(pid_pat@ =~= seq![112u8, 105u8, 100u8, 61u8]);
        crate::util::lemma_spec_find_correct(users@, pid_pat@);
    }
    match crate::util::find_sub_spec(users, pid_pat.as_slice()) {
        Some(i) => {
            let ul = users.len();
            proof {
                assert(is_match_at(users@, pid_pat@, i as int));
                assert(i + 4 <= ul as int);
            }
            let rest = vstd::slice::slice_subrange(users, i + 4, ul);
            proof {
                assert(rest@ =~= users@.skip(i + 4));
            }
            let digits = digit_prefix(rest);
            out.pid = match crate::metrics::parse_u64_opt(digits.as_slice()) {
                Some(v) => if v <= u32::MAX as u64 {
                    Some(v as u32)
                } else {
                    None
                },
                None => None,
            };
        },
        None => {},
    }
    out
}

} // verus!

use crate::util::{spec_eq_icase, spec_ends_with, spec_lines};

verus! {

/// The first token starting with `users:`, if any, from index `k` on.
pub open spec fn first_users_token(ts: Seq<Seq<u8>>, k: int) -> Option<Seq<u8>>
    decreases ts.len() - k,
{
    if k < 0 || k >= ts.len() {
        None
    } else if crate::util::spec_starts_with(ts[k], "users:".spec_bytes()) {
        Some(ts[k])
    } else {
        first_users_token(ts, k + 1)
    }
}

/// Some token is `LISTEN` in any ASCII case.
pub open spec fn has_listen_token(ts: Seq<Seq<u8>>) -> bool {
    exists|k: int| 0 <= k < ts.len() && spec_eq_icase(ts[k], "listen".spec_bytes())
}

/// What the last netstat column (`pid/name`) adds to a port: the digits
/// before the first slash as the pid — parse failure clears it — and the
/// text after as the process name.
pub open spec fn spec_netstat_proc(last: Seq<u8>, dp: PortView) -> PortView {
    match spec_find_byte(last, 47) {
        Some(si) => PortView {
            pid: match crate::metrics::spec_u32(last.take(si)) {
                Some(v) => Some(v),
                None => None,
            },
            process_name: Some(utf8_lossy_of(last.skip(si + 1))),
            ..dp
        },
        None => dp,
    }
}

/// One pass over `ss -tlnp` / `netstat -tlnp` output: an `LISTEN`-leading
/// line is ss format with the address in column 3 and an optional `users:`
/// column; a line merely containing `LISTEN` with at least six columns is
/// netstat format with `pid/name` in the last column.  The first line
/// carrying a port number wins over later duplicates.
pub open spec fn ss_scan(ls: Seq<Seq<u8>>, i: int, seen: Set<u16>, acc: Seq<PortView>) -> Seq<
    PortView,
>
    decreases ls.len() - i,
{
    if i < 0 || i >= ls.len() {
        acc
    } else {
        let line = spec_trim(ls[i]);
        let ts = spec_tokens(line);
        if line.len() == 0 {
            ss_scan(ls, i + 1, seen, acc)
        } else if ts.len() >= 4 && spec_eq_icase(ts[0], "listen".spec_bytes()) {
            match spec_addr_port(ts[3]) {
                Some(dp0) => {
                    let dp = match first_users_token(ts, 0) {
                        Some(u) => spec_extract_users(u, dp0),
                        None => dp0,
                    };
                    if !seen.contains(dp.port) {
                        ss_scan(ls, i + 1, seen.insert(dp.port), acc.push(dp))
                    } else {
                        ss_scan(ls, i + 1, seen, acc)
                    }
                },
                None => ss_scan(ls, i + 1, seen, acc),
            }
        } else if ts.len() >= 6 && has_listen_token(ts) {
            match spec_addr_port(ts[3]) {
                Some(dp0) => {
                    let dp = spec_netstat_proc(ts[ts.len() - 1], dp0);
                    if !seen.contains(dp.port) {
                        ss_scan(ls, i + 1, seen.insert(dp.port), acc.push(dp))
                    } else {
                        ss_scan(ls, i + 1, seen, acc)
                    }
                },
                None => ss_scan(ls, i + 1, seen, acc),
            }
        } else {
            ss_scan(ls, i + 1, seen, acc)
        }
    }
}

/// The ports of an ss / netstat section.
pub open spec fn spec_ports_ss(section: Seq<u8>) -> Seq<PortView> {
    ss_scan(spec_lines(section), 0, Set::empty(), Seq::empty())
}

/// Whether `p` occurs in the list of already-seen ports.
fn seen_contains(seen: &Vec<u16>, p: u16) -> (r: bool)
    ensures
        r == seen_set(seen@).contains(p),
{
    let mut k: usize = 0;
    proof {
        lemma_seen_set(seen@, p);
    }
    while k < seen.len()
        invariant
            0 <= k <= seen@.len(),
            forall|j: int| 0 <= j < k ==> seen@[j] != p,
            seen_set(seen@).contains(p) <==> exists|j: int| 0 <= j < seen@.len() && seen@[j] == p,
        decreases seen@.len() - k,
    {
        if seen[k] == p {
            return true;
        }
        k = k + 1;
    }
    false
}

/// The set of ports a list holds.
pub open spec fn seen_set(s: Seq<u16>) -> Set<u16>
    decreases s.len(),
{
    if s.len() == 0 {
        Set::empty()
    } else {
        seen_set(s.drop_last()).insert(s.last())
    }
}

/// Membership in `seen_set` is occurrence in the list.
pub proof fn lemma_seen_set(s: Seq<u16>, p: u16)
    ensures
        seen_set(s).contains(p) <==> exists|j: int| 0 <= j < s.len() && s[j] == p,
    decreases s.len(),
{
    if s.len() > 0 {
        lemma_seen_set(s.drop_last(), p);
        if s.last() == p {
            assert(s[s.len() - 1] == p);
        } else {
            if seen_set(s).contains(p) {
                let j = choose|j: int| 0 <= j < s.drop_last().len() && s.drop_last()[j] == p;
                assert(s[j] == p);
            }
            if exists|j: int| 0 <= j < s.len() && s[j] == p {
                let j = choose|j: int| 0 <= j < s.len() && s[j] == p;
                assert(j < s.len() - 1);
                assert(s.drop_last()[j] == p);
            }
        }
    }
}

/// Record a port as seen.
fn seen_push(seen: &mut Vec<u16>, p: u16)
    ensures
        seen_set(final(seen)@) == seen_set(old(seen)@).insert(p),
{
    seen.push(p);
    proof {
        assert(seen@.drop_last() =~= old(seen)@);
    }
}

/// The first `users:` token of a token list, if any.
fn find_users_token<'a>(ts: &'a Vec<Vec<u8>>, from: usize) -> (r: Option<&'a Vec<u8>>)
    requires
        from <= ts@.len(),
    ensures
        match r {
            Some(u) => first_users_token(ts.deep_view(), from as int) == Some(u@),
            None => first_users_token(ts.deep_view(), from as int) is None,
        },
    decreases ts@.len() - from,
{
    if from >= ts.len() {
        return None;
    }
    let tok = &ts[from];
    proof {
        assert(ts.deep_view()[from as int] =~= ts@[from as int]@);
    }
    if crate::util::starts_with_bytes(tok.as_slice(), "users:".as_bytes()) {
        Some(tok)
    } else {
        find_users_token(ts, from + 1)
    }
}

/// Whether some token is `LISTEN` in any ASCII case.
fn any_listen_token(ts: &Vec<Vec<u8>>) -> (r: bool)
    ensures
        r == has_listen_token(ts.deep_view()),
{
    let mut k: usize = 0;
    while k < ts.len()
        invariant
            0 <= k <= ts@.len(),
            forall|j: int|
                0 <= j < k ==> !spec_eq_icase(
                    ts.deep_view()[j],
                    "listen".spec_bytes(),
                ),
        decreases ts@.len() - k,
    {
        proof {
            assert(ts.deep_view()[k as int] =~= ts@[k as int]@);
        }
        if crate::util::eq_icase(ts[k].as_slice(), "listen".as_bytes()) {
            return true;
        }
        k = k + 1;
    }
    false
}

/// Apply the netstat `pid/name` column.
fn apply_netstat_proc(last: &Vec<u8>, dp: DetectedPort) -> (r: DetectedPort)
    ensures
        r.view_port() == spec_netstat_proc(last@, dp.view_port()),
{
    let mut out = dp;
    match crate::util::find_byte_spec(last.as_slice(), 47) {
        Some(si) => {
            let ll = last.len();
            proof {
                crate::util::lemma_spec_find_byte_correct(last@, 47);
                assert(si < ll);
            }
            let pid_str = vstd::slice::slice_subrange(last.as_slice(), 0, si);
            let name = vstd::slice::slice_subrange(last.as_slice(), si + 1, ll);
            proof {
                assert(pid_str@ =~= last@.take(si as int));
                assert(name@ =~= last@.skip(si + 1));
            }
            out.pid = match crate::metrics::parse_u64_opt(pid_str) {
                Some(v) => if v <= u32::MAX as u64 {
                    Some(v as u32)
                } else {
                    None
                },
                None => None,
            };
            out.process_name = Some(lossy_string(name));
        },
        None => {},
    }
    out
}

/// Parse `ss -tlnp` or `netstat -tlnp` output.
pub fn parse_ports_ss(section: &str) -> (r: Vec<DetectedPort>)
    ensures
        port_views(r@) == spec_ports_ss(section.spec_bytes()),
{
    parse_ports_ss_bytes(section.as_bytes())
}

/// The same parse, from raw section bytes.
pub fn parse_ports_ss_bytes(section: &[u8]) -> (r: Vec<DetectedPort>)
    ensures
        port_views(r@) == spec_ports_ss(section@),
{
    let ls = crate::util::lines_of(section);
    let ghost lsv = ls.deep_view();
    let mut res: Vec<DetectedPort> = Vec::new();
    let mut seen: Vec<u16> = Vec::new();
    proof {
        assert(port_views(res@) =~= Seq::<PortView>::empty());
        assert(seen_set(seen@) =~= Set::<u16>::empty());
    }
    let mut i: usize = 0;
    while i < ls.len()
        invariant
            0 <= i <= lsv.len(),
            lsv == ls.deep_view(),
            ss_scan(lsv, 0, Set::empty(), Seq::empty()) == ss_scan(
                lsv,
                i as int,
                seen_set(seen@),
                port_views(res@),
            ),
        decreases lsv.len() - i,
    {
        let raw = &ls[i];
        proof {
            assert(lsv[i as int] =~= ls@[i as int]@);
        }
        let line = trim_bytes(raw.as_slice());
        let ts = crate::util::tokens(line.as_slice());
        let ghost tsv = ts.deep_view();
        if line.len() == 0 {
        } else if ts.len() >= 4 && crate::util::eq_icase(ts[0].as_slice(), "listen".as_bytes()) {
            proof {
                assert(tsv[0] =~= ts@[0]@);
                assert(tsv[3] =~= ts@[3]@);
            }
            match parse_addr_port_bytes(ts[3].as_slice()) {
                Some(dp0) => {
                    let dp = match find_users_token(&ts, 0) {
                        Some(u) => extract_users_bytes(u.as_slice(), dp0),
                        None => dp0,
                    };
                    if !seen_contains(&seen, dp.port) {
                        let ghost prev = port_views(res@);
                        let ghost dpv = dp.view_port();
                        seen_push(&mut seen, dp.port);
                        res.push(dp);
                        proof {
                            assert(port_views(res@) =~= prev.push(dpv));
                        }
                    }
                },
                None => {},
            }
        } else if ts.len() >= 6 && any_listen_token(&ts) {
            proof {
                assert(tsv[3] =~= ts@[3]@);
                assert(tsv[tsv.len() - 1] =~= ts@[ts@.len() - 1]@);
            }
            match parse_addr_port_bytes(ts[3].as_slice()) {
                Some(dp0) => {
                    let last = &ts[ts.len() - 1];
                    let dp = apply_netstat_proc(last, dp0);
                    if !seen_contains(&seen, dp.port) {
                        let ghost prev = port_views(res@);
                        let ghost dpv = dp.view_port();
                        seen_push(&mut seen, dp.port);
                        res.push(dp);
                        proof {
                            assert(port_views(res@) =~= prev.push(dpv));
                        }
                    }
                },
                None => {},
            }
        }
        i = i + 1;
    }
    res
}

} // verus!

verus! {

/// One pass over `lsof -iTCP -sTCP:LISTEN -nP` output: column 0 is the
/// process name, column 1 the pid, column 8 the TCP address.
pub open spec fn lsof_scan(ls: Seq<Seq<u8>>, i: int, seen: Set<u16>, acc: Seq<PortView>) -> Seq<
    PortView,
>
    decreases ls.len() - i,
{
    if i < 0 || i >= ls.len() {
        acc
    } else {
        let line = spec_trim(ls[i]);
        let ts = spec_tokens(line);
        if line.len() == 0 || ts.len() < 9 {
            lsof_scan(ls, i + 1, seen, acc)
        } else {
            match spec_addr_port(ts[8]) {
                Some(dp0) => {
                    let dp = PortView {
                        process_name: Some(utf8_lossy_of(ts[0])),
                        pid: match crate::metrics::spec_u32(ts[1]) {
                            Some(v) => Some(v),
                            None => None,
                        },
                        ..dp0
                    };
                    if !seen.contains(dp.port) {
                        lsof_scan(ls, i + 1, seen.insert(dp.port), acc.push(dp))
                    } else {
                        lsof_scan(ls, i + 1, seen, acc)
                    }
                },
                None => lsof_scan(ls, i + 1, seen, acc),
            }
        }
    }
}

/// The ports of an lsof section.
pub open spec fn spec_ports_lsof(section: Seq<u8>) -> Seq<PortView> {
    lsof_scan(spec_lines(section), 0, Set::empty(), Seq::empty())
}

/// Parse `lsof` output (macOS).
pub fn parse_ports_lsof(section: &str) -> (r: Vec<DetectedPort>)
    ensures
        port_views(r@) == spec_ports_lsof(section.spec_bytes()),
{
    parse_ports_lsof_bytes(section.as_bytes())
}

/// The same parse, from raw section bytes.
pub fn parse_ports_lsof_bytes(section: &[u8]) -> (r: Vec<DetectedPort>)
    ensures
        port_views(r@) == spec_ports_lsof(section@),
{
    let ls = crate::util::lines_of(section);
    let ghost lsv = ls.deep_view();
    let mut res: Vec<DetectedPort> = Vec::new();
    let mut seen: Vec<u16> = Vec::new();
    proof {
        assert(port_views(res@) =~= Seq::<PortView>::empty());
        assert(seen_set(seen@) =~= Set::<u16>::empty());
    }
    let mut i: usize = 0;
    while i < ls.len()
        invariant
            0 <= i <= lsv.len(),
            lsv == ls.deep_view(),
            lsof_scan(lsv, 0, Set::empty(), Seq::empty()) == lsof_scan(
                lsv,
                i as int,
                seen_set(seen@),
                port_views(res@),
            ),
        decreases lsv.len() - i,
    {
        let raw = &ls[i];
        proof {
            assert(lsv[i as int] =~= ls@[i as int]@);
        }
        let line = trim_bytes(raw.as_slice());
        let ts = crate::util::tokens(line.as_slice());
        let ghost tsv = ts.deep_view();
        if !(line.len() == 0 || ts.len() < 9) {
            proof {
                assert(tsv[0] =~= ts@[0]@);
                assert(tsv[1] =~= ts@[1]@);
                assert(tsv[8] =~= ts@[8]@);
            }
            match parse_addr_port_bytes(ts[8].as_slice()) {
                Some(dp0) => {
                    let mut dp = dp0;
                    dp.process_name = Some(lossy_string(ts[0].as_slice()));
                    dp.pid = match crate::metrics::parse_u64_opt(ts[1].as_slice()) {
                        Some(v) => if v <= u32::MAX as u64 {
                            Some(v as u32)
                        } else {
                            None
                        },
                        None => None,
                    };
                    if !seen_contains(&seen, dp.port) {
                        let ghost prev = port_views(res@);
                        let ghost dpv = dp.view_port();
                        seen_push(&mut seen, dp.port);
                        res.push(dp);
                        proof {
                            assert(port_views(res@) =~= prev.push(dpv));
                        }
                    }
                },
                None => {},
            }
        }
        i = i + 1;
    }
    res
}

/// One pass over PowerShell `Get-NetTCPConnection` output: column 0 is the
/// bind address, column 1 the port, an optional column 2 the owning pid.
pub open spec fn powershell_scan(ls: Seq<Seq<u8>>, i: int, seen: Set<u16>, acc: Seq<PortView>)
    -> Seq<PortView>
    decreases ls.len() - i,
{
    if i < 0 || i >= ls.len() {
        acc
    } else {
        let line = spec_trim(ls[i]);
        let ts = spec_tokens(line);
        if line.len() == 0 || ts.len() < 2 {
            powershell_scan(ls, i + 1, seen, acc)
        } else {
            match spec_u16(ts[1]) {
                Some(p) => {
                    let dp = PortView {
                        port: p,
                        bind_addr: utf8_lossy_of(ts[0]),
                        process_name: None,
                        pid: if ts.len() >= 3 {
                            match crate::metrics::spec_u32(ts[2]) {
                                Some(v) => Some(v),
                                None => None,
                            }
                        } else {
                            None
                        },
                    };
                    if !seen.contains(p) {
                        powershell_scan(ls, i + 1, seen.insert(p), acc.push(dp))
                    } else {
                        powershell_scan(ls, i + 1, seen, acc)
                    }
                },
                None => powershell_scan(ls, i + 1, seen, acc),
            }
        }
    }
}

/// The ports of a PowerShell section.
pub open spec fn spec_ports_powershell(section: Seq<u8>) -> Seq<PortView> {
    powershell_scan(spec_lines(section), 0, Set::empty(), Seq::empty())
}

/// Parse PowerShell `Get-NetTCPConnection` output (Windows).
pub fn parse_ports_powershell(section: &str) -> (r: Vec<DetectedPort>)
    ensures
        port_views(r@) == spec_ports_powershell(section.spec_bytes()),
{
    parse_ports_powershell_bytes(section.as_bytes())
}

/// The same parse, from raw section bytes.
pub fn parse_ports_powershell_bytes(section: &[u8]) -> (r: Vec<DetectedPort>)
    ensures
        port_views(r@) == spec_ports_powershell(section@),
{
    let ls = crate::util::lines_of(section);
    let ghost lsv = ls.deep_view();
    let mut res: Vec<DetectedPort> = Vec::new();
    let mut seen: Vec<u16> = Vec::new();
    proof {
        assert(port_views(res@) =~= Seq::<PortView>::empty());
        assert(seen_set(seen@) =~= Set::<u16>::empty());
    }
    let mut i: usize = 0;
    while i < ls.len()
        invariant
            0 <= i <= lsv.len(),
            lsv == ls.deep_view(),
            powershell_scan(lsv, 0, Set::empty(), Seq::empty()) == powershell_scan(
                lsv,
                i as int,
                seen_set(seen@),
                port_views(res@),
            ),
        decreases lsv.len() - i,
    {
        let raw = &ls[i];
        proof {
            assert(lsv[i as int] =~= ls@[i as int]@);
        }
        let line = trim_bytes(raw.as_slice());
        let ts = crate::util::tokens(line.as_slice());
        let ghost tsv = ts.deep_view();
        if !(line.len() == 0 || ts.len() < 2) {
            proof {
                assert(tsv[0] =~= ts@[0]@);
                assert(tsv[1] =~= ts@[1]@);
                if tsv.len() >= 3 {
                    assert(tsv[2] =~= ts@[2]@);
                }
            }
            match parse_u16(ts[1].as_slice()) {
                Some(p) => {
                    let pid: Option<u32> = if ts.len() >= 3 {
                        match crate::metrics::parse_u64_opt(ts[2].as_slice()) {
                            Some(v) => if v <= u32::MAX as u64 {
                                Some(v as u32)
                            } else {
                                None
                            },
                            None => None,
                        }
                    } else {
                        None
                    };
                    let dp = DetectedPort {
                        port: p,
                        bind_addr: lossy_string(ts[0].as_slice()),
                        process_name: None,
                        pid,
                    };
                    if !seen_contains(&seen, p) {
                        let ghost prev = port_views(res@);
                        let ghost dpv = dp.view_port();
                        seen_push(&mut seen, p);
                        res.push(dp);
                        proof {
                            assert(port_views(res@) =~= prev.push(dpv));
                        }
                    }
                },
                None => {},
            }
        }
        i = i + 1;
    }
    res
}

/// One pass over `sockstat` output (the BSDs): column 1 is the command,
/// column 2 the pid, column 5 the local address.
pub open spec fn sockstat_scan(ls: Seq<Seq<u8>>, i: int, seen: Set<u16>, acc: Seq<PortView>)
    -> Seq<PortView>
    decreases ls.len() - i,
{
    if i < 0 || i >= ls.len() {
        acc
    } else {
        let line = spec_trim(ls[i]);
        let ts = spec_tokens(line);
        if line.len() == 0 || ts.len() < 6 {
            sockstat_scan(ls, i + 1, seen, acc)
        } else {
            match spec_addr_port(ts[5]) {
                Some(dp0) => {
                    let dp = PortView {
                        process_name: Some(utf8_lossy_of(ts[1])),
                        pid: match crate::metrics::spec_u32(ts[2]) {
                            Some(v) => Some(v),
                            None => None,
                        },
                        ..dp0
                    };
                    if !seen.contains(dp.port) {
                        sockstat_scan(ls, i + 1, seen.insert(dp.port), acc.push(dp))
                    } else {
                        sockstat_scan(ls, i + 1, seen, acc)
                    }
                },
                None => sockstat_scan(ls, i + 1, seen, acc),
            }
        }
    }
}

/// The ports of a sockstat section.
pub open spec fn spec_ports_sockstat(section: Seq<u8>) -> Seq<PortView> {
    sockstat_scan(spec_lines(section), 0, Set::empty(), Seq::empty())
}

/// Parse `sockstat` output (FreeBSD and friends).
pub fn parse_ports_sockstat(section: &str) -> (r: Vec<DetectedPort>)
    ensures
        port_views(r@) == spec_ports_sockstat(section.spec_bytes()),
{
    parse_ports_sockstat_bytes(section.as_bytes())
}

/// The same parse, from raw section bytes.
pub fn parse_ports_sockstat_bytes(section: &[u8]) -> (r: Vec<DetectedPort>)
    ensures
        port_views(r@) == spec_ports_sockstat(section@),
{
    let ls = crate::util::lines_of(section);
    let ghost lsv = ls.deep_view();
    let mut res: Vec<DetectedPort> = Vec::new();
    let mut seen: Vec<u16> = Vec::new();
    proof {
        assert(port_views(res@) =~= Seq::<PortView>::empty());
        assert(seen_set(seen@) =~= Set::<u16>::empty());
    }
    let mut i: usize = 0;
    while i < ls.len()
        invariant
            0 <= i <= lsv.len(),
            lsv == ls.deep_view(),
            sockstat_scan(lsv, 0, Set::empty(), Seq::empty()) == sockstat_scan(
                lsv,
                i as int,
                seen_set(seen@),
                port_views(res@),
            ),
        decreases lsv.len() - i,
    {
        let raw = &ls[i];
        proof {
            assert(lsv[i as int] =~= ls@[i as int]@);
        }
        let line = trim_bytes(raw.as_slice());
        let ts = crate::util::tokens(line.as_slice());
        let ghost tsv = ts.deep_view();
        if !(line.len() == 0 || ts.len() < 6) {
            proof {
                assert(tsv[1] =~= ts@[1]@);
                assert(tsv[2] =~= ts@[2]@);
                assert(tsv[5] =~= ts@[5]@);
            }
            match parse_addr_port_bytes(ts[5].as_slice()) {
                Some(dp0) => {
                    let mut dp = dp0;
                    dp.process_name = Some(lossy_string(ts[1].as_slice()));
                    dp.pid = match crate::metrics::parse_u64_opt(ts[2].as_slice()) {
                        Some(v) => if v <= u32::MAX as u64 {
                            Some(v as u32)
                        } else {
                            None
                        },
                        None => None,
                    };
                    if !seen_contains(&seen, dp.port) {
                        let ghost prev = port_views(res@);
                        let ghost dpv = dp.view_port();
                        seen_push(&mut seen, dp.port);
                        res.push(dp);
                        proof {
                            assert(port_views(res@) =~= prev.push(dpv));
                        }
                    }
                },
                None => {},
            }
        }
        i = i + 1;
    }
    res
}

} // verus!

verus! {

/// One pass over the host-mapped segments of a docker `Ports` column.  A
/// segment such as `0.0.0.0:8080->80/tcp` contributes the host port before
/// `->`; an exposed-only segment without `->` contributes nothing.
pub open spec fn docker_segs(
    segs: Seq<Seq<u8>>,
    j: int,
    name: Seq<u8>,
    seen: Set<u16>,
    acc: Seq<PortView>,
) -> (Seq<PortView>, Set<u16>)
    decreases segs.len() - j,
{
    if j < 0 || j >= segs.len() {
        (acc, seen)
    } else {
        let seg = spec_trim(segs[j]);
        match spec_find(seg, seq![45u8, 62u8]) {
            None => docker_segs(segs, j + 1, name, seen, acc),
            Some(a) => {
                let host = seg.take(a);
                match spec_rfind(host, seq![58u8]) {
                    None => docker_segs(segs, j + 1, name, seen, acc),
                    Some(lc) => {
                        match spec_u16(host.skip(lc + 1)) {
                            None => docker_segs(segs, j + 1, name, seen, acc),
                            Some(p) => {
                                if !seen.contains(p) {
                                    let bind = host.take(lc);
                                    let dp = PortView {
                                        port: p,
                                        bind_addr: if bind.len() == 0 || bind == seq![42u8] {
                                            "0.0.0.0"@
                                        } else {
                                            utf8_lossy_of(bind)
                                        },
                                        process_name: Some(
                                            utf8_lossy_of("docker:".spec_bytes() + name),
                                        ),
                                        pid: None,
                                    };
                                    docker_segs(segs, j + 1, name, seen.insert(p), acc.push(dp))
                                } else {
                                    docker_segs(segs, j + 1, name, seen, acc)
                                }
                            },
                        }
                    },
                }
            },
        }
    }
}

/// One pass over the docker `ps` lines: `id<TAB>name<TAB>ports`; lines with
/// fewer than three tab-separated fields or an empty ports field are
/// skipped, the rest contribute their mapped segments.
pub open spec fn docker_scan(ls: Seq<Seq<u8>>, i: int, seen: Set<u16>, acc: Seq<PortView>) -> (
    Seq<PortView>,
    Set<u16>,
)
    decreases ls.len() - i,
{
    if i < 0 || i >= ls.len() {
        (acc, seen)
    } else {
        let line = spec_trim(ls[i]);
        if line.len() == 0 {
            docker_scan(ls, i + 1, seen, acc)
        } else {
            match spec_find_byte(line, 9) {
                None => docker_scan(ls, i + 1, seen, acc),
                Some(t1) => {
                    let after = line.skip(t1 + 1);
                    match spec_find_byte(after, 9) {
                        None => docker_scan(ls, i + 1, seen, acc),
                        Some(t2) => {
                            let name = spec_trim(after.take(t2));
                            let pf = spec_trim(after.skip(t2 + 1));
                            if pf.len() == 0 {
                                docker_scan(ls, i + 1, seen, acc)
                            } else {
                                let stepped = docker_segs(
                                    crate::util::spec_split_sub(pf, seq![44u8, 32u8]),
                                    0,
                                    name,
                                    seen,
                                    acc,
                                );
                                docker_scan(ls, i + 1, stepped.1, stepped.0)
                            }
                        },
                    }
                },
            }
        }
    }
}

/// The container-mapped ports of the DOCKER section of the sample output.
pub open spec fn spec_ports_docker(out: Seq<u8>) -> Seq<PortView> {
    match crate::metrics::spec_section(out, "DOCKER".spec_bytes()) {
        None => Seq::empty(),
        Some(sec0) => {
            let sec1 = if spec_ends_with(sec0, "===DOCKER_END===".spec_bytes()) {
                sec0.take(sec0.len() - "===DOCKER_END===".spec_bytes().len())
            } else {
                sec0
            };
            let sec = spec_trim(sec1);
            if sec.len() == 0 {
                Seq::empty()
            } else {
                docker_scan(spec_lines(sec), 0, Set::empty(), Seq::empty()).0
            }
        },
    }
}

/// Parse the docker `ps` section of the full sample output.
pub fn parse_ports_docker(output: &str) -> (r: Vec<DetectedPort>)
    ensures
        port_views(r@) == spec_ports_docker(output.spec_bytes()),
{
    let sec0 = match crate::metrics::section_bytes(output.as_bytes(), "DOCKER".as_bytes()) {
        Some(s) => s,
        None => {
            return Vec::new();
        },
    };
    let endmark = "===DOCKER_END===".as_bytes();
    let sec1 = if crate::util::ends_with_bytes(sec0.as_slice(), endmark) {
        proof {
            assert(endmark@.len() <= sec0@.len());
        }
        let cut = vstd::slice::slice_subrange(sec0.as_slice(), 0, sec0.len() - endmark.len());
        proof {
            assert(cut@ =~= sec0@.take(sec0@.len() - endmark@.len()));
        }
        vstd::slice::slice_to_vec(cut)
    } else {
        sec0
    };
    let sec = trim_bytes(sec1.as_slice());
    if sec.len() == 0 {
        return Vec::new();
    }
    let ls = crate::util::lines_of(sec.as_slice());
    let ghost lsv = ls.deep_view();
    let mut res: Vec<DetectedPort> = Vec::new();
    let mut seen: Vec<u16> = Vec::new();
    proof {
        assert(port_views(res@) =~= Seq::<PortView>::empty());
        assert(seen_set(seen@) =~= Set::<u16>::empty());
    }
    let mut i: usize = 0;
    while i < ls.len()
        invariant
            0 <= i <= lsv.len(),
            lsv == ls.deep_view(),
            docker_scan(lsv, 0, Set::empty(), Seq::empty()) == docker_scan(
                lsv,
                i as int,
                seen_set(seen@),
                port_views(res@),
            ),
        decreases lsv.len() - i,
    {
        let raw = &ls[i];
        proof {
            assert(lsv[i as int] =~= ls@[i as int]@);
        }
        let line = trim_bytes(raw.as_slice());
        if line.len() > 0 {
            match crate::util::find_byte_spec(line.as_slice(), 9) {
                None => {},
                Some(t1) => {
                    let ll = line.len();
                    proof {
                        crate::util::lemma_spec_find_byte_correct(line@, 9);
                        assert(t1 < ll);
                    }
                    let after = vstd::slice::slice_subrange(line.as_slice(), t1 + 1, ll);
                    proof {
                        assert(after@ =~= line@.skip(t1 + 1));
                    }
                    match crate::util::find_byte_spec(after, 9) {
                        None => {},
                        Some(t2) => {
                            let al = after.len();
                            proof {
                                crate::util::lemma_spec_find_byte_correct(after@, 9);
                                assert(t2 < al);
                            }
                            let name_raw = vstd::slice::slice_subrange(after, 0, t2);
                            let pf_raw = vstd::slice::slice_subrange(after, t2 + 1, al);
                            proof {
                                assert(name_raw@ =~= after@.take(t2 as int));
                                assert(pf_raw@ =~= after@.skip(t2 + 1));
                            }
                            let name = trim_bytes(name_raw);
                            let pf = trim_bytes(pf_raw);
                            if pf.len() > 0 {
                                let mut sep: Vec<u8> = Vec::new();
                                sep.push(44);
                                sep.push(32);
                                proof {
                                    assert(sep@ =~= seq![44u8, 32u8]);
                                }
                                let segs = crate::util::split_by(pf.as_slice(), sep.as_slice());
                                let ghost segsv = segs.deep_view();
                                let ghost seen0 = seen_set(seen@);
                                let ghost acc0 = port_views(res@);
                                let mut j: usize = 0;
                                while j < segs.len()
                                    invariant
                                        0 <= j <= segsv.len(),
                                        segsv == segs.deep_view(),
                                        docker_segs(segsv, 0, name@, seen0, acc0) == docker_segs(
                                            segsv,
                                            j as int,
                                            name@,
                                            seen_set(seen@),
                                            port_views(res@),
                                        ),
                                    decreases segsv.len() - j,
                                {
                                    let seg_raw = &segs[j];
                                    proof {
                                        assert(segsv[j as int] =~= segs@[j as int]@);
                                    }
                                    let seg = trim_bytes(seg_raw.as_slice());
                                    let mut arrow: Vec<u8> = Vec::new();
                                    arrow.push(45);
                                    arrow.push(62);
                                    proof {
                                        assert(arrow@ =~= seq![45u8, 62u8]);
                                        crate::util::lemma_spec_find_correct(seg@, arrow@);
                                    }
                                    match crate::util::find_sub_spec(
                                        seg.as_slice(),
                                        arrow.as_slice(),
                                    ) {
                                        None => {},
                                        Some(a) => {
                                            proof {
                                                assert(crate::util::is_match_at(
                                                    seg@,
                                                    arrow@,
                                                    a as int,
                                                ));
                                            }
                                            let host = vstd::slice::slice_subrange(
                                                seg.as_slice(),
                                                0,
                                                a,
                                            );
                                            proof {
                                                assert(host@ =~= seg@.take(a as int));
                                            }
                                            let mut colon: Vec<u8> = Vec::new();
                                            colon.push(58);
                                            proof {
                                                assert(colon@ =~= seq![58u8]);
                                            }
                                            match rfind_spec(host, colon.as_slice()) {
                                                None => {},
                                                Some(lc) => {
                                                    let hl = host.len();
                                                    proof {
                                                        lemma_spec_rfind_correct(host@, colon@);
                                                        assert(crate::util::is_match_at(
                                                            host@,
                                                            colon@,
                                                            lc as int,
                                                        ));
                                                        assert(lc < hl);
                                                    }
                                                    let port_str = vstd::slice::slice_subrange(
                                                        host,
                                                        lc + 1,
                                                        hl,
                                                    );
                                                    let bind_raw = vstd::slice::slice_subrange(
                                                        host,
                                                        0,
                                                        lc,
                                                    );
                                                    proof {
                                                        assert(port_str@ =~= host@.skip(lc + 1));
                                                        assert(bind_raw@ =~= host@.take(
                                                            lc as int,
                                                        ));
                                                    }
                                                    match parse_u16(port_str) {
                                                        None => {},
                                                        Some(p) => {
                                                            if !seen_contains(&seen, p) {
                                                                let mut star: Vec<u8> =
                                                                    Vec::new();
                                                                star.push(42);
                                                                let is_star =
                                                                    crate::util::bytes_eq(
                                                                    bind_raw,
                                                                    star.as_slice(),
                                                                );
                                                                proof {
                                                                    assert(star@ =~= seq![42u8]);
                                                                    if bind_raw@ == seq![42u8] {
                                                                        assert(bind_raw@
                                                                            =~= seq![42u8]);
                                                                    }
                                                                }
                                                                let bind_addr = if bind_raw.len()
                                                                    == 0 || is_star {
                                                                    "0.0.0.0".to_owned()
                                                                } else {
                                                                    lossy_string(bind_raw)
                                                                };
                                                                let mut nb: Vec<u8> = Vec::new();
                                                                nb.extend_from_slice(
                                                                    "docker:".as_bytes(),
                                                                );
                                                                nb.extend_from_slice(
                                                                    name.as_slice(),
                                                                );
                                                                proof {
                                                                    assert(nb@
                                                                        =~= "docker:".spec_bytes()
                                                                        + name@);
                                                                }
                                                                let dp = DetectedPort {
                                                                    port: p,
                                                                    bind_addr,
                                                                    process_name: Some(
                                                                        lossy_string(
                                                                            nb.as_slice(),
                                                                        ),
                                                                    ),
                                                                    pid: None,
                                                                };
                                                                let ghost prev = port_views(
                                                                    res@,
                                                                );
                                                                let ghost dpv = dp.view_port();
                                                                seen_push(&mut seen, p);
                                                                res.push(dp);
                                                                proof {
                                                                    assert(port_views(res@)
                                                                        =~= prev.push(dpv));
                                                                }
                                                            }
                                                        },
                                                    }
                                                },
                                            }
                                        },
                                    }
                                    j = j + 1;
                                }
                            }
                        },
                    }
                },
            }
        }
        i = i + 1;
    }
    res
}

} // verus!

verus! {

/// The set of port numbers a port list holds.
pub open spec fn view_port_set(s: Seq<PortView>) -> Set<u16>
    decreases s.len(),
{
    if s.len() == 0 {
        Set::empty()
    } else {
        view_port_set(s.drop_last()).insert(s.last().port)
    }
}

/// Membership in `view_port_set` is occurrence in the list.
pub proof fn lemma_view_port_set(s: Seq<PortView>, p: u16)
    ensures
        view_port_set(s).contains(p) <==> exists|j: int| 0 <= j < s.len() && s[j].port == p,
    decreases s.len(),
{
    if s.len() > 0 {
        lemma_view_port_set(s.drop_last(), p);
        if s.last().port == p {
            assert(s[s.len() - 1].port == p);
        } else {
            if view_port_set(s).contains(p) {
                let j = choose|j: int|
                    0 <= j < s.drop_last().len() && s.drop_last()[j].port == p;
                assert(s[j].port == p);
            }
            if exists|j: int| 0 <= j < s.len() && s[j].port == p {
                let j = choose|j: int| 0 <= j < s.len() && s[j].port == p;
                assert(j < s.len() - 1);
                assert(s.drop_last()[j].port == p);
            }
        }
    }
}

/// Merging container-mapped ports after the socket listing: each docker
/// port whose number is not taken yet is appended.
pub open spec fn merge_scan(docker: Seq<PortView>, j: int, seen: Set<u16>, acc: Seq<PortView>)
    -> Seq<PortView>
    decreases docker.len() - j,
{
    if j < 0 || j >= docker.len() {
        acc
    } else {
        let d = docker[j];
        if !seen.contains(d.port) {
            merge_scan(docker, j + 1, seen.insert(d.port), acc.push(d))
        } else {
            merge_scan(docker, j + 1, seen, acc)
        }
    }
}

/// Which platform listing the OS name selects.
pub open spec fn spec_os_parser(os: Seq<u8>) -> int {
    if os == "macOS".spec_bytes() || os == "macos".spec_bytes() || os == "Darwin".spec_bytes() {
        1
    } else if os == "Windows".spec_bytes() || os == "windows".spec_bytes() {
        2
    } else if os == "FreeBSD".spec_bytes() || os == "freebsd".spec_bytes() || os
        == "OpenBSD".spec_bytes() || os == "NetBSD".spec_bytes() {
        3
    } else {
        0
    }
}

/// The PORTS section of the sample, ready for parsing: marker residue
/// stripped, trimmed.
pub open spec fn spec_ports_section(out: Seq<u8>) -> Option<Seq<u8>> {
    match crate::metrics::spec_section(out, "PORTS".spec_bytes()) {
        None => None,
        Some(sec0) => {
            let sec1 = if spec_ends_with(sec0, "===PORTS_END===".spec_bytes()) {
                sec0.take(sec0.len() - "===PORTS_END===".spec_bytes().len())
            } else {
                sec0
            };
            Some(spec_trim(sec1))
        },
    }
}

/// The full port listing of one sample: the platform parser's ports, with
/// docker-mapped ports appended where their numbers are new.  A missing or
/// empty PORTS section yields no ports at all.
pub open spec fn spec_listening_ports(out: Seq<u8>, os: Seq<u8>) -> Seq<PortView> {
    match spec_ports_section(out) {
        None => Seq::empty(),
        Some(sec) => {
            if sec.len() == 0 {
                Seq::empty()
            } else {
                let base = if spec_os_parser(os) == 1 {
                    spec_ports_lsof(sec)
                } else if spec_os_parser(os) == 2 {
                    spec_ports_powershell(sec)
                } else if spec_os_parser(os) == 3 {
                    spec_ports_sockstat(sec)
                } else {
                    spec_ports_ss(sec)
                };
                let docker = spec_ports_docker(out);
                if docker.len() > 0 {
                    merge_scan(docker, 0, view_port_set(base), base)
                } else {
                    base
                }
            }
        },
    }
}

/// Parse the listening ports out of one full sample output, dispatching on
/// the remote OS and merging docker-mapped ports.
pub fn parse_listening_ports(output: &str, os_type: &str) -> (r: Vec<DetectedPort>)
    ensures
        port_views(r@) == spec_listening_ports(output.spec_bytes(), os_type.spec_bytes()),
{
    let sec0 = match crate::metrics::section_bytes(output.as_bytes(), "PORTS".as_bytes()) {
        Some(s) => s,
        None => {
            return Vec::new();
        },
    };
    let endmark = "===PORTS_END===".as_bytes();
    let sec1 = if crate::util::ends_with_bytes(sec0.as_slice(), endmark) {
        proof {
            assert(endmark@.len() <= sec0@.len());
        }
        let cut = vstd::slice::slice_subrange(sec0.as_slice(), 0, sec0.len() - endmark.len());
        proof {
            assert(cut@ =~= sec0@.take(sec0@.len() - endmark@.len()));
        }
        vstd::slice::slice_to_vec(cut)
    } else {
        sec0
    };
    let sec = trim_bytes(sec1.as_slice());
    if sec.len() == 0 {
        return Vec::new();
    }
    let os = os_type.as_bytes();
    let mac = crate::util::bytes_eq(os, "macOS".as_bytes()) || crate::util::bytes_eq(
        os,
        "macos".as_bytes(),
    ) || crate::util::bytes_eq(os, "Darwin".as_bytes());
    let win = crate::util::bytes_eq(os, "Windows".as_bytes()) || crate::util::bytes_eq(
        os,
        "windows".as_bytes(),
    );
    let bsd = crate::util::bytes_eq(os, "FreeBSD".as_bytes()) || crate::util::bytes_eq(
        os,
        "freebsd".as_bytes(),
    ) || crate::util::bytes_eq(os, "OpenBSD".as_bytes()) || crate::util::bytes_eq(
        os,
        "NetBSD".as_bytes(),
    );
    let mut base: Vec<DetectedPort> = if mac {
        parse_ports_lsof_bytes(sec.as_slice())
    } else if win {
        parse_ports_powershell_bytes(sec.as_slice())
    } else if bsd {
        parse_ports_sockstat_bytes(sec.as_slice())
    } else {
        parse_ports_ss_bytes(sec.as_slice())
    };
    let docker = parse_ports_docker(output);
    if docker.len() > 0 {
        let mut seen: Vec<u16> = Vec::new();
        let mut k: usize = 0;
        proof {
            assert(seen_set(seen@) =~= Set::<u16>::empty());
            assert(port_views(base@).take(0) =~= Seq::<PortView>::empty());
            assert(view_port_set(Seq::<PortView>::empty()) =~= Set::<u16>::empty());
        }
        while k < base.len()
            invariant
                0 <= k <= base@.len(),
                seen_set(seen@) == view_port_set(port_views(base@).take(k as int)),
            decreases base@.len() - k,
        {
            let p = base[k].port;
            proof {
                assert(port_views(base@).take(k + 1).drop_last() =~= port_views(base@).take(
                    k as int,
                ));
                assert(port_views(base@).take(k + 1).last() == base@[k as int].view_port());
            }
            seen_push(&mut seen, p);
            k = k + 1;
        }
        proof {
            assert(port_views(base@).take(base@.len() as int) =~= port_views(base@));
        }
        let ghost dv = port_views(docker@);
        let ghost base0 = port_views(base@);
        let mut j: usize = 0;
        while j < docker.len()
            invariant
                0 <= j <= dv.len(),
                dv == port_views(docker@),
                merge_scan(dv, 0, view_port_set(base0), base0) == merge_scan(
                    dv,
                    j as int,
                    seen_set(seen@),
                    port_views(base@),
                ),
            decreases dv.len() - j,
        {
            let d = &docker[j];
            proof {
                assert(dv[j as int] == docker@[j as int].view_port());
            }
            if !seen_contains(&seen, d.port) {
                let ghost prev = port_views(base@);
                let ghost dpv = d.view_port();
                let copy = DetectedPort {
                    port: d.port,
                    bind_addr: d.bind_addr.clone(),
                    process_name: match &d.process_name {
                        Some(s) => Some(s.clone()),
                        None => None,
                    },
                    pid: d.pid,
                };
                proof {
                    assert(copy.view_port() == dpv);
                }
                seen_push(&mut seen, d.port);
                base.push(copy);
                proof {
                    assert(port_views(base@) =~= prev.push(dpv));
                }
            }
            j = j + 1;
        }
        base
    } else {
        base
    }
}

} // verus!

verus! {

/// The newly visible ports of a scan: current ports whose number was not in
/// the previous scan, excluding the SSH port itself and ports the user has
/// dismissed.
pub open spec fn new_ports_scan(
    cur: Seq<PortView>,
    j: int,
    prevset: Set<u16>,
    ignoredset: Set<u16>,
    acc: Seq<PortView>,
) -> Seq<PortView>
    decreases cur.len() - j,
{
    if j < 0 || j >= cur.len() {
        acc
    } else {
        let d = cur[j];
        if !prevset.contains(d.port) && d.port != 22 && !ignoredset.contains(d.port) {
            new_ports_scan(cur, j + 1, prevset, ignoredset, acc.push(d))
        } else {
            new_ports_scan(cur, j + 1, prevset, ignoredset, acc)
        }
    }
}

/// The ports that went away: previous port numbers absent from the current
/// scan, carried as bare entries.
pub open spec fn closed_ports_scan(
    prev: Seq<u16>,
    j: int,
    curset: Set<u16>,
    acc: Seq<PortView>,
) -> Seq<PortView>
    decreases prev.len() - j,
{
    if j < 0 || j >= prev.len() {
        acc
    } else {
        let p = prev[j];
        if !curset.contains(p) {
            closed_ports_scan(
                prev,
                j + 1,
                curset,
                acc.push(PortView { port: p, bind_addr: ""@, process_name: None, pid: None }),
            )
        } else {
            closed_ports_scan(prev, j + 1, curset, acc)
        }
    }
}

/// Diff one port scan against the previous one: which ports are newly
/// interesting (not previously seen, not the SSH port, not dismissed) and
/// which previously seen ports are gone.
pub fn diff_ports(prev: &Vec<u16>, current: &Vec<DetectedPort>, ignored: &Vec<u16>) -> (r: (
    Vec<DetectedPort>,
    Vec<DetectedPort>,
))
    ensures
        port_views(r.0@) == new_ports_scan(
            port_views(current@),
            0,
            seen_set(prev@),
            seen_set(ignored@),
            Seq::empty(),
        ),
        port_views(r.1@) == closed_ports_scan(
            prev@,
            0,
            view_port_set(port_views(current@)),
            Seq::empty(),
        ),
{
    let ghost curv = port_views(current@);
    let mut new_ports: Vec<DetectedPort> = Vec::new();
    proof {
        assert(port_views(new_ports@) =~= Seq::<PortView>::empty());
    }
    let mut j: usize = 0;
    while j < current.len()
        invariant
            0 <= j <= curv.len(),
            curv == port_views(current@),
            new_ports_scan(curv, 0, seen_set(prev@), seen_set(ignored@), Seq::empty())
                == new_ports_scan(
                curv,
                j as int,
                seen_set(prev@),
                seen_set(ignored@),
                port_views(new_ports@),
            ),
        decreases curv.len() - j,
    {
        let d = &current[j];
        proof {
            assert(curv[j as int] == current@[j as int].view_port());
        }
        if !seen_contains(prev, d.port) && d.port != 22 && !seen_contains(ignored, d.port) {
            let ghost prevacc = port_views(new_ports@);
            let ghost dpv = d.view_port();
            let copy = DetectedPort {
                port: d.port,
                bind_addr: d.bind_addr.clone(),
                process_name: match &d.process_name {
                    Some(s) => Some(s.clone()),
                    None => None,
                },
                pid: d.pid,
            };
            proof {
                assert(copy.view_port() == dpv);
            }
            new_ports.push(copy);
            proof {
                assert(port_views(new_ports@) =~= prevacc.push(dpv));
            }
        }
        j = j + 1;
    }
    let mut curnums: Vec<u16> = Vec::new();
    let mut k: usize = 0;
    proof {
        assert(seen_set(curnums@) =~= Set::<u16>::empty());
        assert(curv.take(0) =~= Seq::<PortView>::empty());
        assert(view_port_set(Seq::<PortView>::empty()) =~= Set::<u16>::empty());
    }
    while k < current.len()
        invariant
            0 <= k <= curv.len(),
            curv == port_views(current@),
            seen_set(curnums@) == view_port_set(curv.take(k as int)),
        decreases curv.len() - k,
    {
        let p = current[k].port;
        proof {
            assert(curv.take(k + 1).drop_last() =~= curv.take(k as int));
            assert(curv.take(k + 1).last() == current@[k as int].view_port());
        }
        seen_push(&mut curnums, p);
        k = k + 1;
    }
    proof {
        assert(curv.take(curv.len() as int) =~= curv);
    }
    let mut closed: Vec<DetectedPort> = Vec::new();
    proof {
        assert(port_views(closed@) =~= Seq::<PortView>::empty());
    }
    let mut i: usize = 0;
    while i < prev.len()
        invariant
            0 <= i <= prev@.len(),
            curv == port_views(current@),
            seen_set(curnums@) == view_port_set(curv),
            closed_ports_scan(prev@, 0, view_port_set(curv), Seq::empty()) == closed_ports_scan(
                prev@,
                i as int,
                view_port_set(curv),
                port_views(closed@),
            ),
        decreases prev@.len() - i,
    {
        let p = prev[i];
        if !seen_contains(&curnums, p) {
            let ghost prevacc = port_views(closed@);
            let dp = DetectedPort {
                port: p,
                bind_addr: String::new(),
                process_name: None,
                pid: None,
            };
            let ghost dpv = dp.view_port();
            proof {
                reveal_strlit("");
                assert(dp.bind_addr@ =~= ""@);
                assert(dpv == (PortView {
                    port: p,
                    bind_addr: ""@,
                    process_name: None,
                    pid: None,
                }));
            }
            closed.push(dp);
            proof {
                assert(port_views(closed@) =~= prevacc.push(dpv));
            }
        }
        i = i + 1;
    }
    (new_ports, closed)
}

} // verus!
