use anzen2::client_message::{
    ClientMessage, MessageKind, DEVICE_CONNECTION_TYPE, IMAGE_READY_TYPE, MONITOR_CONNECTION_TYPE,
};
use anzen2::message_types::{
    DataFrame, CONN_DEVICE_FRAME_TYPE, CONN_STREAM_FRAME_TYPE, VIDEO_FRAME_TYPE,
};

#[test]
fn envelope_kind_codes() {
    assert_eq!(IMAGE_READY_TYPE, 128);
    assert_eq!(MONITOR_CONNECTION_TYPE, 129);
    assert_eq!(DEVICE_CONNECTION_TYPE, 130);
    assert_eq!(MessageKind::VideoFrame.code(), 128);
    assert_eq!(MessageKind::AnnounceViewer.code(), 129);
    assert_eq!(MessageKind::AnnounceDevice.code(), 130);
}

#[test]
fn envelope_kind_of_every_code() {
    for code in 0..=255u8 {
        let expected = match code {
            128 => Some(MessageKind::VideoFrame),
            129 => Some(MessageKind::AnnounceViewer),
            130 => Some(MessageKind::AnnounceDevice),
            _ => None,
        };
        assert_eq!(MessageKind::from_code(code), expected);
        assert_eq!(ClientMessage::new(code, 1, String::new()).kind(), expected);
    }
}

#[test]
fn envelope_code_and_kind_agree() {
    for kind in [MessageKind::VideoFrame, MessageKind::AnnounceViewer, MessageKind::AnnounceDevice] {
        assert_eq!(MessageKind::from_code(kind.code()), Some(kind));
    }
}

#[test]
fn envelope_new_empty() {
    let msg = ClientMessage::new_empty();
    assert_eq!(msg.connection_type(), 0);
    assert_eq!(msg.sender_id(), 0);
    assert_eq!(msg.data, "");
    assert_eq!(msg.kind(), None);
}

#[test]
fn envelope_new_keeps_its_fields() {
    let msg = ClientMessage::new(129, 77, "hello".to_string());
    assert_eq!(msg.connection_type(), 129);
    assert_eq!(msg.sender_id(), 77);
    assert_eq!(msg.data, "hello");
    assert_eq!(msg.connection_type, 129);
    assert_eq!(msg.sender_id, 77);
    let large = ClientMessage::new(255, u64::MAX, String::new());
    assert_eq!(large.connection_type(), 255);
    assert_eq!(large.sender_id(), u64::MAX);
}

#[test]
fn data_frame_type_codes() {
    assert_eq!(VIDEO_FRAME_TYPE, 128);
    assert_eq!(CONN_STREAM_FRAME_TYPE, 129);
    assert_eq!(CONN_DEVICE_FRAME_TYPE, 130);
}

#[test]
fn data_frame_new_empty() {
    let frame = DataFrame::new_empty();
    assert_eq!(frame.stream_type(), 0);
    assert_eq!(frame.sender_id(), 0);
    assert_eq!(frame.data, "");
}

#[test]
fn data_frame_new_keeps_its_fields() {
    let frame = DataFrame::new(130, 5, "abc".to_string());
    assert_eq!(frame.stream_type(), 130);
    assert_eq!(frame.sender_id(), 5);
    assert_eq!(frame.data, "abc");
    assert_eq!(frame, DataFrame { stream_type: 130, sender_id: 5, data: "abc".to_string() });
}
