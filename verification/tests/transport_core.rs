//! Transport correlation scenarios: id matching, timeouts, channel death,
//! the one-shot notification hand-over, and the wire line round trip.

use oxideterm::codec::{decode_line, request_line, sys_info_from_fields, watch_event_from_fields, LineBuffer, WireMessage};
use oxideterm::transport::{TransportCore, TransportError, DEFAULT_RPC_TIMEOUT_SECS};

#[test]
fn responses_complete_exactly_their_calls() {
    let mut core: TransportCore<&str> = TransportCore::new();
    let a = core.begin_call("slot-a").unwrap();
    let b = core.begin_call("slot-b").unwrap();
    let c = core.begin_call("slot-c").unwrap();
    assert!(a != b && b != c && a != c);

    // Interleaved arrival order: each response finds exactly its own slot.
    assert_eq!(core.on_response(b), Some("slot-b"));
    assert_eq!(core.on_response(a), Some("slot-a"));
    assert_eq!(core.on_response(c), Some("slot-c"));
    assert_eq!(core.pending_count(), 0);
}

#[test]
fn timeout_removes_id_and_late_response_is_dropped() {
    let mut core: TransportCore<u32> = TransportCore::new();
    let id = core.begin_call(7).unwrap();
    // The timeout fires first: the call's own entry goes away.
    assert_eq!(core.on_timeout(id), Some(7));
    assert_eq!(core.pending_count(), 0);
    // A response for that id arriving afterwards has no effect.
    assert_eq!(core.on_response(id), None);
    assert!(core.is_alive());
}

#[test]
fn channel_close_fails_all_pending_calls() {
    let mut core: TransportCore<u32> = TransportCore::new();
    let a = core.begin_call(1).unwrap();
    let b = core.begin_call(2).unwrap();
    let c = core.begin_call(3).unwrap();

    let drained = core.on_channel_closed();
    assert_eq!(drained, vec![(a, 1), (b, 2), (c, 3)]);
    assert_eq!(core.pending_count(), 0);
    assert!(!core.is_alive());

    // All future calls fail immediately.
    assert_eq!(core.begin_call(4), Err(TransportError::NotConnected));
}

#[test]
fn notifications_consumer_is_handed_out_once() {
    let mut core: TransportCore<u32> = TransportCore::new();
    assert!(core.take_notifications());
    assert!(!core.take_notifications());
    assert!(!core.take_notifications());
}

#[test]
fn ids_are_unique_across_resolutions() {
    let mut core: TransportCore<u32> = TransportCore::new();
    let mut seen = Vec::new();
    for i in 0..100u32 {
        let id = core.begin_call(i).unwrap();
        assert!(!seen.contains(&id));
        seen.push(id);
        if i % 2 == 0 {
            core.on_response(id);
        }
    }
}

#[test]
fn line_buffer_extracts_complete_lines() {
    let mut buf = LineBuffer::new();
    buf.feed(b"{\"id\":1}\n{\"id\"");
    let first = buf.next_line().unwrap();
    assert_eq!(first, b"{\"id\":1}".to_vec());
    assert!(buf.next_line().is_none());
    buf.feed(b":2}\nrest\n");
    assert_eq!(buf.next_line().unwrap(), b"{\"id\":2}".to_vec());
    assert_eq!(buf.next_line().unwrap(), b"rest".to_vec());
    assert!(buf.next_line().is_none());
    assert_eq!(buf.len(), 0);
}

#[test]
fn encoded_request_round_trips_through_the_line_codec() {
    let params: serde_json::Value =
        serde_json::from_str("{\"path\": \"/tmp/x\", \"max_size\": 42, \"nested\": {\"k\": [1, 2]}}")
            .unwrap();
    let framed = request_line(9, "fs/readFile", &params);
    // Exactly one line feed: the terminator.
    assert_eq!(framed.iter().filter(|b| **b == b'\n').count(), 1);
    assert_eq!(*framed.last().unwrap(), b'\n');

    // Extract it and classify it: the id and params survive whole.
    let mut buf = LineBuffer::new();
    buf.feed(&framed);
    let extracted = buf.next_line().unwrap();
    match decode_line(&extracted) {
        WireMessage::ResponseMsg(resp) => {
            // A request read back carries an id, so the classifier calls it
            // a response; the semantic fields are intact.
            assert_eq!(resp.id, 9);
            assert!(resp.error.is_none());
        }
        _ => panic!("expected an id-carrying message"),
    }
}

#[test]
fn response_lines_classify_with_result_or_error() {
    match decode_line(b"{\"id\": 3, \"result\": {\"ok\": true}}") {
        WireMessage::ResponseMsg(r) => {
            assert_eq!(r.id, 3);
            assert!(r.result.is_some());
            assert!(r.error.is_none());
        }
        _ => panic!("expected a response"),
    }
    // Key order does not matter.
    match decode_line(b"{\"error\": {\"message\": \"nope\", \"code\": -32601}, \"id\": 4}") {
        WireMessage::ResponseMsg(r) => {
            assert_eq!(r.id, 4);
            let e = r.error.unwrap();
            assert_eq!(e.code, -32601);
            assert_eq!(e.message, "nope");
        }
        _ => panic!("expected an error response"),
    }
}

#[test]
fn notification_lines_classify_without_id() {
    match decode_line(b"{\"method\": \"watch/event\", \"params\": {\"path\": \"/a\", \"kind\": \"modify\"}}") {
        WireMessage::NotificationMsg(n) => {
            assert_eq!(n.method, "watch/event");
            let ev = oxideterm::codec::read_watch_event(&n.params).unwrap();
            assert_eq!(ev.path, "/a");
            assert_eq!(ev.kind, "modify");
        }
        _ => panic!("expected a notification"),
    }
}

#[test]
fn diagnostic_noise_is_not_fatal() {
    assert!(matches!(decode_line(b""), WireMessage::Noise));
    assert!(matches!(decode_line(b"   "), WireMessage::Noise));
    assert!(matches!(decode_line(b"warning: something"), WireMessage::Noise));
    assert!(matches!(decode_line(b"{\"no_id_no_method\": 1}"), WireMessage::Noise));
}

#[test]
fn default_timeout_is_thirty_seconds() {
    assert_eq!(DEFAULT_RPC_TIMEOUT_SECS, 30);
}

#[test]
fn malformed_error_object_is_noise() {
    // An id with an ill-formed error object is unclassifiable.
    assert!(matches!(
        decode_line(b"{\"id\": 5, \"error\": {\"code\": \"oops\"}}"),
        WireMessage::Noise
    ));
    // A well-formed error object with no message string reads as empty text.
    match decode_line(b"{\"id\": 5, \"error\": {\"code\": -5}}") {
        WireMessage::ResponseMsg(r) => {
            let e = r.error.unwrap();
            assert_eq!(e.code, -5);
            assert_eq!(e.message, "");
        }
        _ => panic!("expected a response"),
    }
}

#[test]
fn shape_rules_accept_exactly_complete_fields() {
    let ev = watch_event_from_fields(Some("/a".to_string()), Some("modify".to_string())).unwrap();
    assert_eq!(ev.path, "/a");
    assert_eq!(ev.kind, "modify");
    assert!(watch_event_from_fields(Some("/a".to_string()), None).is_none());
    assert!(watch_event_from_fields(None, Some("modify".to_string())).is_none());

    let info = sys_info_from_fields(
        Some("1.4.0".to_string()),
        Some("x86_64-linux-musl".to_string()),
        Some("linux".to_string()),
        Some(4242),
    )
    .unwrap();
    assert_eq!(info.pid, 4242);
    assert!(sys_info_from_fields(None, None, None, Some(1)).is_none());
    assert!(sys_info_from_fields(
        Some("v".to_string()),
        Some("a".to_string()),
        Some("o".to_string()),
        Some(u64::MAX),
    )
    .is_none());
}
