use anzen2::client_message::{
    ClientMessage, DEVICE_CONNECTION_TYPE, IMAGE_READY_TYPE, MONITOR_CONNECTION_TYPE,
};
use anzen2::images::{ExtractionError, Strategy};
use anzen2::stream_server::{AddMonitorClientEvent, ImageReadyEvent, VideoSessionEndedEvent};
use anzen2::stream_session::{Inbound, Note, Role, SessionAction, VideoSession};

fn envelope(kind: u8, id: u64) -> Inbound {
    Inbound::Text(Some(ClientMessage::new(kind, id, String::new())))
}

#[test]
fn session_starts_unannounced_and_idle() {
    let session = VideoSession::new(3);
    assert_eq!(session.sink(), 3);
    assert_eq!(session.role(), Role::Unannounced);
    assert!(!session.is_message_fragmented());
    assert!(!session.is_closed());
    assert_eq!(session.buffer(), &Vec::<u8>::new());
}

#[test]
fn session_viewer_announcement_registers_its_channel() {
    let mut session = VideoSession::new(77);
    let action = session.handle(envelope(MONITOR_CONNECTION_TYPE, 10));
    assert_eq!(action, SessionAction::Register(AddMonitorClientEvent(10, 77)));
    assert_eq!(session.role(), Role::Viewer);
    assert_eq!(session.add_monitor_client(11), AddMonitorClientEvent(11, 77));
}

#[test]
fn session_device_announcement_registers_nothing() {
    let mut session = VideoSession::new(1);
    let action = session.handle(envelope(DEVICE_CONNECTION_TYPE, 7));
    assert_eq!(action, SessionAction::Nothing(Note::DeviceAnnounced(7)));
    assert_eq!(session.role(), Role::Device);
}

#[test]
fn session_other_kinds_are_not_taken() {
    let mut session = VideoSession::new(1);
    assert_eq!(
        session.handle(envelope(IMAGE_READY_TYPE, 7)),
        SessionAction::Nothing(Note::UnknownKind(128))
    );
    assert_eq!(session.handle(envelope(0, 7)), SessionAction::Nothing(Note::UnknownKind(0)));
    assert_eq!(session.handle(envelope(131, 7)), SessionAction::Nothing(Note::UnknownKind(131)));
    assert_eq!(session.role(), Role::Unannounced);
    let msg = ClientMessage::new(255, 1, "x".to_string());
    assert_eq!(
        session.handle_text_message(&msg),
        SessionAction::Nothing(Note::UnknownKind(255))
    );
}

#[test]
fn session_malformed_text_is_ignored() {
    let mut session = VideoSession::new(1);
    assert_eq!(
        session.handle(Inbound::Text(None)),
        SessionAction::Nothing(Note::MalformedEnvelope)
    );
    assert!(!session.is_closed());
}

#[test]
fn session_messages_outside_the_protocol() {
    let mut session = VideoSession::new(1);
    assert_eq!(
        session.handle(Inbound::Binary(vec![1, 2, 3])),
        SessionAction::Nothing(Note::UnsupportedBinary)
    );
    assert_eq!(
        session.handle(Inbound::Pong(vec![1])),
        SessionAction::Nothing(Note::UnknownMessage)
    );
    assert_eq!(session.handle(Inbound::Nop), SessionAction::Nothing(Note::UnknownMessage));
    assert_eq!(
        session.handle(Inbound::ProtocolError),
        SessionAction::Nothing(Note::ProtocolError)
    );
    assert!(!session.is_closed());
    assert!(!session.is_message_fragmented());
}

#[test]
fn session_answers_ping_with_the_same_bytes() {
    let mut session = VideoSession::new(1);
    assert_eq!(session.handle(Inbound::Ping(vec![4, 5, 6])), SessionAction::Pong(vec![4, 5, 6]));
    assert_eq!(session.handle(Inbound::Ping(vec![])), SessionAction::Pong(vec![]));
}

#[test]
fn session_reassembles_fragments_in_order() {
    let mut session = VideoSession::new(1);
    assert_eq!(
        session.handle(Inbound::First(vec![1, 2, 3])),
        SessionAction::Nothing(Note::Buffered)
    );
    assert!(session.is_message_fragmented());
    assert_eq!(session.buffer(), &vec![1, 2, 3]);
    assert_eq!(
        session.handle(Inbound::Continue(vec![4, 5, 6, 0, 0])),
        SessionAction::Nothing(Note::Buffered)
    );
    assert_eq!(session.buffer(), &vec![1, 2, 3, 4, 5, 6, 0, 0]);
    let action = session.handle(Inbound::Last(vec![0, 0, 0, 4, 2]));
    assert_eq!(action, SessionAction::Publish(ImageReadyEvent(42, vec![1, 2, 3, 4, 5, 6])));
    assert!(!session.is_message_fragmented());
    assert_eq!(session.buffer(), &Vec::<u8>::new());
}

#[test]
fn session_bare_continue_is_ignored() {
    let mut session = VideoSession::new(1);
    assert_eq!(
        session.handle(Inbound::Continue(vec![1, 2, 3])),
        SessionAction::Nothing(Note::StrayContinue)
    );
    assert!(!session.is_message_fragmented());
    assert_eq!(session.buffer(), &Vec::<u8>::new());
    assert_eq!(
        session.continue_continuation(&[9, 9]),
        SessionAction::Nothing(Note::StrayContinue)
    );
    assert_eq!(session.buffer(), &Vec::<u8>::new());
}

#[test]
fn session_bare_last_is_ignored() {
    let mut session = VideoSession::new(1);
    assert_eq!(
        session.handle(Inbound::Last(vec![0, 0, 0, 0, 0, 4, 2])),
        SessionAction::Nothing(Note::StrayLast)
    );
    assert!(!session.is_message_fragmented());
    assert_eq!(session.buffer(), &Vec::<u8>::new());
}

#[test]
fn session_stray_first_does_not_overwrite() {
    let mut session = VideoSession::new(1);
    session.handle(Inbound::First(vec![1, 2]));
    assert_eq!(
        session.handle(Inbound::First(vec![9, 9, 9])),
        SessionAction::Nothing(Note::StrayFirst)
    );
    assert_eq!(session.buffer(), &vec![1, 2]);
    let action = session.handle(Inbound::Last(vec![0, 0, 0, 0, 0, 0, 5]));
    assert_eq!(action, SessionAction::Publish(ImageReadyEvent(5, vec![1, 2])));
}

#[test]
fn session_empty_fragments_are_fragments() {
    let mut session = VideoSession::new(1);
    assert_eq!(session.handle(Inbound::First(vec![])), SessionAction::Nothing(Note::Buffered));
    assert!(session.is_message_fragmented());
    assert_eq!(session.buffer(), &Vec::<u8>::new());
    assert_eq!(session.handle(Inbound::Continue(vec![])), SessionAction::Nothing(Note::Buffered));
    assert_eq!(
        session.handle(Inbound::Continue(vec![8, 0, 0, 0, 0, 0, 0, 1])),
        SessionAction::Nothing(Note::Buffered)
    );
    let action = session.handle(Inbound::Last(vec![]));
    assert_eq!(action, SessionAction::Publish(ImageReadyEvent(1, vec![8])));
}

#[test]
fn session_drops_a_frame_without_identifier() {
    let mut session = VideoSession::new(1);
    session.handle(Inbound::First(vec![1, 2]));
    assert_eq!(
        session.handle(Inbound::Last(vec![3])),
        SessionAction::Nothing(Note::FrameDropped(ExtractionError::Incomplete))
    );
    assert!(!session.is_message_fragmented());
    assert_eq!(session.buffer(), &Vec::<u8>::new());
    session.handle(Inbound::First(vec![1, 2, 3, 4]));
    assert_eq!(
        session.handle(Inbound::Last(vec![0, 0, 0, 200])),
        SessionAction::Nothing(Note::FrameDropped(ExtractionError::Malformed))
    );
    session.handle(Inbound::First(vec![0x55]));
    assert_eq!(
        session.handle(Inbound::Last(vec![0, 0, 0, 0, 0, 0, 9])),
        SessionAction::Publish(ImageReadyEvent(9, vec![0x55]))
    );
}

#[test]
fn session_with_metadata_strategy_keeps_the_payload() {
    let mut session = VideoSession::with_strategy(1, Strategy::JpegMetadata);
    session.handle(Inbound::First(vec![0xFF, 0xD8, 0xFF, 0xE1, 0x00, 0x09]));
    session.handle(Inbound::Continue(vec![0x07, 0x0C, 0, 0, 0, 0]));
    let action = session.handle(Inbound::Last(vec![0, 4, 2, 0xFF, 0xD9]));
    let whole = vec![0xFF, 0xD8, 0xFF, 0xE1, 0x00, 0x09, 0x07, 0x0C, 0, 0, 0, 0, 0, 4, 2, 0xFF, 0xD9];
    assert_eq!(action, SessionAction::Publish(ImageReadyEvent(42, whole)));
    session.handle(Inbound::First(vec![1, 2, 3]));
    assert_eq!(
        session.handle(Inbound::Last(vec![0, 0, 0, 0, 0, 4, 2])),
        SessionAction::Nothing(Note::FrameDropped(ExtractionError::UnsupportedFormat))
    );
}

#[test]
fn session_close_ends_the_session_once() {
    let mut session = VideoSession::new(1);
    session.handle(envelope(MONITOR_CONNECTION_TYPE, 10));
    session.handle(Inbound::First(vec![1, 2, 3]));
    assert_eq!(
        session.handle(Inbound::Close),
        SessionAction::Ended(VideoSessionEndedEvent())
    );
    assert!(session.is_closed());
    assert!(!session.is_message_fragmented());
    assert_eq!(session.buffer(), &Vec::<u8>::new());
    assert_eq!(session.handle(Inbound::Close), SessionAction::Nothing(Note::SessionClosed));
    assert_eq!(session.stopped(), None);
}

#[test]
fn session_stopped_tells_the_broker_once() {
    let mut session = VideoSession::new(1);
    session.handle(Inbound::First(vec![1]));
    assert_eq!(session.stopped(), Some(VideoSessionEndedEvent()));
    assert!(session.is_closed());
    assert_eq!(session.buffer(), &Vec::<u8>::new());
    assert_eq!(session.stopped(), None);
}

#[test]
fn session_that_has_ended_takes_nothing() {
    let mut session = VideoSession::new(1);
    session.stopped();
    let closed = SessionAction::Nothing(Note::SessionClosed);
    assert_eq!(session.handle(envelope(MONITOR_CONNECTION_TYPE, 10)), closed);
    assert_eq!(session.handle(Inbound::Text(None)), closed);
    assert_eq!(session.handle(Inbound::Binary(vec![1])), closed);
    assert_eq!(session.handle(Inbound::Ping(vec![1])), closed);
    assert_eq!(session.handle(Inbound::First(vec![1])), closed);
    assert_eq!(session.handle(Inbound::Continue(vec![1])), closed);
    assert_eq!(session.handle(Inbound::Last(vec![0, 0, 0, 0, 0, 4, 2])), closed);
    assert_eq!(session.handle(Inbound::ProtocolError), closed);
    assert_eq!(session.begin_continuation(&[1]), closed);
    assert_eq!(session.continue_continuation(&[1]), closed);
    assert_eq!(session.end_continuation(&[0, 0, 0, 0, 0, 4, 2]), closed);
    assert_eq!(session.role(), Role::Unannounced);
    assert!(!session.is_message_fragmented());
    assert_eq!(session.image_ready(&ImageReadyEvent(1, vec![1, 2, 3])), None);
}

#[test]
fn session_push_becomes_an_envelope_with_base64() {
    let session = VideoSession::new(1);
    let frame = ImageReadyEvent(42, vec![1, 2, 3, 4, 5, 6, 7, 8, 9]);
    let outbound = session.image_ready(&frame).unwrap();
    assert_eq!(outbound.connection_type(), IMAGE_READY_TYPE);
    assert_eq!(outbound.sender_id(), 42);
    assert_eq!(outbound.data, "AQIDBAUGBwgJ");
    assert_eq!(outbound, ClientMessage::new(128, 42, "AQIDBAUGBwgJ".to_string()));
}

#[test]
fn session_push_pads_the_base64_text() {
    let session = VideoSession::new(1);
    assert_eq!(session.image_ready(&ImageReadyEvent(1, vec![0xFB])).unwrap().data, "+w==");
    assert_eq!(session.image_ready(&ImageReadyEvent(1, vec![0xFB, 0xFF])).unwrap().data, "+/8=");
    assert_eq!(session.image_ready(&ImageReadyEvent(1, vec![])).unwrap().data, "");
    let bytes = vec![0xFF, 0xD8, 0x10, 0x20, 0x30, 0x40, 0x50, 0xFF, 0xD9];
    assert_eq!(
        session.image_ready(&ImageReadyEvent(1, bytes.clone())).unwrap().data,
        base64::encode(&bytes)
    );
    assert_eq!(base64::encode(&bytes), "/9gQIDBAUP/Z");
}
