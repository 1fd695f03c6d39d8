//! JPEG framing: recognising a JPEG payload and cutting out its APP1 section.

use vstd::prelude::*;
use vstd::slice::{slice_subrange, slice_to_vec};
use crate::images::marker::{find_marker, first_marker};

verus! {

/// First byte of every JPEG marker.
pub const MARKER_PREFIX: u8 = 0xFF;

/// Second byte of the start-of-image marker.
pub const START_OF_IMAGE: u8 = 0xD8;

/// Second byte of the end-of-image marker.
pub const END_OF_IMAGE: u8 = 0xD9;

/// Second byte of the APP1 marker, which opens the metadata section.
pub const APP1: u8 = 0xE1;

/// Why no APP1 section could be cut out of a payload.
#[derive(Debug, Clone, Copy, PartialEq, Eq, Structural)]
pub enum JpegErr {
    /// The payload holds no APP1 marker, or ends before the section that the
    /// marker announces.
    InvalidAppSection,
}

impl JpegErr {
    /// The error in words, for a log line.
    pub fn message(&self) -> (text: String)
        ensures
            text@ == "APP section is missing or is invalid"@,
    {
        "APP section is missing or is invalid".to_owned()
    }
}

/// A payload looks like a JPEG when it has room for both framing markers,
/// opens with the start-of-image marker and closes with the end-of-image
/// marker.
pub open spec fn looks_like_jpeg(data: Seq<u8>) -> bool {
    &&& data.len() >= 4
    &&& data[0] == MARKER_PREFIX
    &&& data[1] == START_OF_IMAGE
    &&& data[data.len() - 2] == MARKER_PREFIX
    &&& data[data.len() - 1] == END_OF_IMAGE
}

/// The length that the two bytes behind the marker at `at` announce, most
/// significant byte first.
pub open spec fn announced_length(data: Seq<u8>, at: int) -> int {
    data[at + 2] as int * 256 + data[at + 3] as int
}

/// The body of the first APP1 section of `data`: the bytes behind the first
/// APP1 marker and its two length bytes, as many as those announce. There is
/// none where `data` holds no APP1 marker, or ends before the length bytes or
/// before the announced end of the body.
pub open spec fn app_section(data: Seq<u8>) -> Option<Seq<u8>> {
    match first_marker(data, MARKER_PREFIX, APP1) {
        Some(at) => {
            if at + 4 <= data.len() && at + 4 + announced_length(data, at) <= data.len() {
                Some(data.subrange(at + 4, at + 4 + announced_length(data, at)))
            } else {
                None
            }
        },
        None => None,
    }
}

/// Tells whether `image_data` is framed as a JPEG.
pub fn is_jpeg(image_data: &[u8]) -> (jpeg: bool)
    ensures
        jpeg == looks_like_jpeg(image_data@),
{
    if image_data.len() < 4 {
        return false;
    }
    image_data[0] == MARKER_PREFIX && image_data[1] == START_OF_IMAGE && image_data[image_data.len()
        - 2] == MARKER_PREFIX && image_data[image_data.len() - 1] == END_OF_IMAGE
}

/// Cuts the body of the first APP1 section out of `jpeg_data`.
pub fn extract_app_section(jpeg_data: &[u8]) -> (section: Result<Vec<u8>, JpegErr>)
    ensures
        match section {
            Ok(body) => app_section(jpeg_data@) == Some(body@),
            Err(_) => app_section(jpeg_data@) is None,
        },
{
    let at: usize = match find_marker(jpeg_data, MARKER_PREFIX, APP1) {
        Some(at) => at,
        None => {
            return Err(JpegErr::InvalidAppSection);
        },
    };
    let behind_marker: usize = jpeg_data.len() - at - 2;
    if behind_marker < 2 {
        return Err(JpegErr::InvalidAppSection);
    }
    let length: usize = (jpeg_data[at + 2] as usize) * 256 + (jpeg_data[at + 3] as usize);
    if behind_marker - 2 < length {
        return Err(JpegErr::InvalidAppSection);
    }
    let body = slice_subrange(jpeg_data, at + 4, at + 4 + length);
    Ok(slice_to_vec(body))
}

} // verus!
