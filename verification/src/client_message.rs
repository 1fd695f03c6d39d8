//! The envelope that a client and the relay exchange as text: a kind code,
//! an identifier and a text body.

use vstd::prelude::*;

verus! {

/// Kind code of an envelope that carries one video frame to a viewer.
pub const IMAGE_READY_TYPE: u8 = 128;

/// Kind code of the envelope by which a viewer announces itself.
pub const MONITOR_CONNECTION_TYPE: u8 = 129;

/// Kind code of the envelope by which a producer device announces itself.
pub const DEVICE_CONNECTION_TYPE: u8 = 130;

/// What an envelope is for.
#[derive(Debug, Clone, Copy, PartialEq, Eq, Structural)]
pub enum MessageKind {
    /// One video frame on its way to a viewer.
    VideoFrame,
    /// A viewer announces itself and asks for frames.
    AnnounceViewer,
    /// A producer device announces itself.
    AnnounceDevice,
}

/// One envelope. `data` holds the base64 text of the image in a video frame
/// and free text in every other kind.
#[derive(Debug, Clone, PartialEq, Eq)]
pub struct ClientMessage {
    pub connection_type: u8,
    pub sender_id: u64,
    pub data: String,
}

/// The code that stands for `kind` on the wire.
pub open spec fn code_of_kind(kind: MessageKind) -> u8 {
    match kind {
        MessageKind::VideoFrame => IMAGE_READY_TYPE,
        MessageKind::AnnounceViewer => MONITOR_CONNECTION_TYPE,
        MessageKind::AnnounceDevice => DEVICE_CONNECTION_TYPE,
    }
}

/// The kind that `code` stands for, if it stands for one.
pub open spec fn kind_of_code(code: u8) -> Option<MessageKind> {
    if code == IMAGE_READY_TYPE {
        Some(MessageKind::VideoFrame)
    } else if code == MONITOR_CONNECTION_TYPE {
        Some(MessageKind::AnnounceViewer)
    } else if code == DEVICE_CONNECTION_TYPE {
        Some(MessageKind::AnnounceDevice)
    } else {
        None
    }
}

impl MessageKind {
    /// The code that stands for this kind on the wire.
    pub fn code(self) -> (code: u8)
        ensures
            code == code_of_kind(self),
            kind_of_code(code) == Some(self),
    {
        match self {
            MessageKind::VideoFrame => IMAGE_READY_TYPE,
            MessageKind::AnnounceViewer => MONITOR_CONNECTION_TYPE,
            MessageKind::AnnounceDevice => DEVICE_CONNECTION_TYPE,
        }
    }

    /// The kind that `code` stands for; none for a code that is not in use.
    pub fn from_code(code: u8) -> (kind: Option<MessageKind>)
        ensures
            kind == kind_of_code(code),
    {
        if code == IMAGE_READY_TYPE {
            Some(MessageKind::VideoFrame)
        } else if code == MONITOR_CONNECTION_TYPE {
            Some(MessageKind::AnnounceViewer)
        } else if code == DEVICE_CONNECTION_TYPE {
            Some(MessageKind::AnnounceDevice)
        } else {
            None
        }
    }
}

impl ClientMessage {
    /// An envelope of kind code 0 from sender 0 with an empty body.
    pub fn new_empty() -> (message: Self)
        ensures
            message.connection_type == 0,
            message.sender_id == 0,
            message.data@ == Seq::<char>::empty(),
    {
        Self { connection_type: 0, sender_id: 0, data: String::new() }
    }

    /// An envelope of the given kind code, sender and body.
    pub fn new(connection_type: u8, sender_id: u64, data: String) -> (message: Self)
        ensures
            message.connection_type == connection_type,
            message.sender_id == sender_id,
            message.data == data,
    {
        Self { connection_type, sender_id, data }
    }

    /// The kind code of this envelope.
    pub fn connection_type(&self) -> (code: u8)
        ensures
            code == self.connection_type,
    {
        self.connection_type
    }

    /// The identifier that this envelope carries.
    pub fn sender_id(&self) -> (id: u64)
        ensures
            id == self.sender_id,
    {
        self.sender_id
    }

    /// What this envelope is for; nothing where its kind code is not in use.
    pub fn kind(&self) -> (kind: Option<MessageKind>)
        ensures
            kind == kind_of_code(self.connection_type),
    {
        MessageKind::from_code(self.connection_type)
    }
}

} // verus!
