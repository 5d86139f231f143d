//! Data-plane frame codec tests.

use oxideterm::frame::{
    data_frame, error_frame, heartbeat_frame, resize_frame, Frame, FrameCodec, MessageType,
};

#[test]
fn test_data_frame_roundtrip() {
    let original = data_frame(b"hello world".to_vec());
    let encoded = original.encode();

    let mut buf = encoded.clone();
    let decoded = Frame::decode(&mut buf).unwrap().unwrap();

    match decoded {
        Frame::Data(data) => assert_eq!(data, &b"hello world"[..]),
        _ => panic!("Expected Data frame"),
    }
}

#[test]
fn test_resize_frame_roundtrip() {
    let original = resize_frame(120, 40);
    let encoded = original.encode();

    let mut buf = encoded.clone();
    let decoded = Frame::decode(&mut buf).unwrap().unwrap();

    match decoded {
        Frame::Resize { cols, rows } => {
            assert_eq!(cols, 120);
            assert_eq!(rows, 40);
        }
        _ => panic!("Expected Resize frame"),
    }
}

#[test]
fn test_heartbeat_frame_roundtrip() {
    let original = heartbeat_frame(42);
    let encoded = original.encode();

    let mut buf = encoded.clone();
    let decoded = Frame::decode(&mut buf).unwrap().unwrap();

    match decoded {
        Frame::Heartbeat(seq) => assert_eq!(seq, 42),
        _ => panic!("Expected Heartbeat frame"),
    }
}

#[test]
fn test_error_frame_roundtrip() {
    let original = error_frame("Something went wrong");
    let encoded = original.encode();

    let mut buf = encoded.clone();
    let decoded = Frame::decode(&mut buf).unwrap().unwrap();

    match decoded {
        Frame::Error(msg) => assert_eq!(msg, "Something went wrong"),
        _ => panic!("Expected Error frame"),
    }
}

#[test]
fn test_partial_frame() {
    let frame = data_frame(b"hello".to_vec());
    let encoded = frame.encode();

    // Only provide partial data
    let mut buf = encoded[..3].to_vec();
    assert!(Frame::decode(&mut buf).unwrap().is_none());
}

#[test]
fn test_codec_multiple_frames() {
    let mut codec = FrameCodec::new();

    let f1 = data_frame(b"first".to_vec());
    let f2 = resize_frame(80, 24);
    let f3 = heartbeat_frame(1);

    // Feed all frames at once
    codec.feed(&f1.encode());
    codec.feed(&f2.encode());
    codec.feed(&f3.encode());

    // Decode them one by one
    match codec.decode_next().unwrap().unwrap() {
        Frame::Data(d) => assert_eq!(d, &b"first"[..]),
        _ => panic!(),
    }
    match codec.decode_next().unwrap().unwrap() {
        Frame::Resize { cols, rows } => {
            assert_eq!(cols, 80);
            assert_eq!(rows, 24);
        }
        _ => panic!(),
    }
    match codec.decode_next().unwrap().unwrap() {
        Frame::Heartbeat(seq) => assert_eq!(seq, 1),
        _ => panic!(),
    }

    // No more frames
    assert!(codec.decode_next().unwrap().is_none());
}

#[test]
fn message_type_bytes_roundtrip() {
    for (ty, b) in [
        (MessageType::Data, 0u8),
        (MessageType::Resize, 1),
        (MessageType::Heartbeat, 2),
        (MessageType::Error, 3),
    ] {
        assert_eq!(ty.as_byte(), b);
        assert_eq!(MessageType::from_byte(b), Some(ty));
    }
    assert_eq!(MessageType::from_byte(7), None);
}

#[test]
fn oversized_length_field_is_an_error() {
    // Type byte 0, length 0xFFFFFFFF: way past the payload cap.
    let mut buf = vec![0u8, 0xFF, 0xFF, 0xFF, 0xFF, 1, 2, 3];
    assert!(Frame::decode(&mut buf).is_err());
}

#[test]
fn unknown_type_byte_is_an_error() {
    let mut buf = vec![9u8, 0, 0, 0, 0];
    assert!(Frame::decode(&mut buf).is_err());
}

#[test]
fn bad_fixed_length_is_an_error() {
    // Resize frame with a 5-byte payload.
    let mut buf = vec![1u8, 0, 0, 0, 5, 1, 2, 3, 4, 5];
    assert!(Frame::decode(&mut buf).is_err());
}
