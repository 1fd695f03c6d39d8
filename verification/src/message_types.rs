//! The data frame: the envelope under the names that the streaming side of
//! the protocol gives its fields.

use vstd::prelude::*;

verus! {

/// Type code of a frame that carries one video image.
pub const VIDEO_FRAME_TYPE: u8 = 128;

/// Type code of the frame by which a viewer opens its stream.
pub const CONN_STREAM_FRAME_TYPE: u8 = 129;

/// Type code of the frame by which a producer device connects.
pub const CONN_DEVICE_FRAME_TYPE: u8 = 130;

/// One data frame: a type code, the sender's identifier and a text body.
#[derive(Debug, Clone, PartialEq, Eq)]
pub struct DataFrame {
    pub stream_type: u8,
    pub sender_id: u64,
    pub data: String,
}

impl DataFrame {
    /// A frame of type code 0 from sender 0 with an empty body.
    pub fn new_empty() -> (frame: Self)
        ensures
            frame.stream_type == 0,
            frame.sender_id == 0,
            frame.data@ == Seq::<char>::empty(),
    {
        Self { stream_type: 0, sender_id: 0, data: String::new() }
    }

    /// A frame of the given type code, sender and body.
    pub fn new(stream_type: u8, sender_id: u64, data: String) -> (frame: Self)
        ensures
            frame.stream_type == stream_type,
            frame.sender_id == sender_id,
            frame.data == data,
    {
        Self { stream_type, sender_id, data }
    }

    /// The type code of this frame.
    pub fn stream_type(&self) -> (code: u8)
        ensures
            code == self.stream_type,
    {
        self.stream_type
    }

    /// The identifier of the sender of this frame.
    pub fn sender_id(&self) -> (id: u64)
        ensures
            id == self.sender_id,
    {
        self.sender_id
    }
}

} // verus!
