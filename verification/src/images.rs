//! Finding the producer's identifier inside an image payload.
//!
//! A producer embeds its identifier in every frame in one of two ways: as
//! seven digit bytes behind the image ([`app`]), or as seven digit bytes
//! behind a tag inside the APP1 section of a JPEG ([`jpeg`] and
//! [`get_sender_id`]). [`extract`] runs either and hands back the identifier
//! together with the payload to broadcast.

use vstd::prelude::*;
use vstd::slice::slice_subrange;
use crate::images::app::{
    all_digits,
    decimal_value,
    decode_sender_id,
    lemma_decimal_digits_value,
    lemma_sender_id_width,
    remove_sender_id,
    sender_id_digits,
    sender_id_from_digits,
    trailing_sender_id,
    without_sender_id,
    SENDER_ID_LENGTH,
    SENDER_ID_LIMIT,
};
use crate::images::jpeg::{
    announced_length,
    app_section,
    extract_app_section,
    is_jpeg,
    looks_like_jpeg,
    APP1,
    MARKER_PREFIX,
};
use crate::images::marker::{find_marker, first_marker, first_marker_at, lemma_first_marker_is};

pub mod app;
pub mod jpeg;
pub mod marker;

verus! {

/// First byte of the tag that stands before an identifier in the metadata.
pub const SENDER_ID_TAG_FIRST: u8 = 0x07;

/// Second byte of the tag that stands before an identifier in the metadata.
pub const SENDER_ID_TAG_SECOND: u8 = 0x0C;

/// Why no identifier came out of a payload.
#[derive(Debug, Clone, Copy, PartialEq, Eq, Structural)]
pub enum ExtractionError {
    /// The payload is shorter than the identifier it should end with.
    Incomplete,
    /// A byte that should be a decimal digit is not one.
    Malformed,
    /// The metadata section holds no complete tagged identifier.
    NotFound,
    /// The payload holds no APP1 section, or ends inside it.
    InvalidSection,
    /// The payload is not framed as an image that carries metadata.
    UnsupportedFormat,
}

/// The image formats whose metadata can carry an identifier.
#[derive(Debug, Clone, Copy, PartialEq, Eq, Structural)]
pub enum ImageType {
    JPEG,
}

/// How a producer embeds its identifier in a frame.
#[derive(Debug, Clone, Copy, PartialEq, Eq, Structural)]
pub enum Strategy {
    /// Seven digit bytes behind the image; they are cut off before the
    /// broadcast.
    TrailingDigits,
    /// Seven digit bytes behind a tag in the APP1 section of a JPEG; the
    /// payload is broadcast as it came.
    JpegMetadata,
}

/// The format that a payload is framed as, if it is a known one.
pub open spec fn image_type_of(data: Seq<u8>) -> Option<ImageType> {
    if looks_like_jpeg(data) {
        Some(ImageType::JPEG)
    } else {
        None
    }
}

/// The identifier that a metadata section carries: the number that the seven
/// bytes behind the first tag spell. There is none to be found where the
/// section holds no tag or ends less than seven bytes behind it; the section
/// is malformed where those seven bytes are not all digits.
pub open spec fn tagged_sender_id(section: Seq<u8>) -> Result<u64, ExtractionError> {
    match first_marker(section, SENDER_ID_TAG_FIRST, SENDER_ID_TAG_SECOND) {
        Some(at) => {
            let digits = section.subrange(at + 2, at + 2 + SENDER_ID_LENGTH);
            if at + 2 + SENDER_ID_LENGTH > section.len() {
                Err(ExtractionError::NotFound)
            } else if !all_digits(digits) {
                Err(ExtractionError::Malformed)
            } else {
                Ok(decimal_value(digits) as u64)
            }
        },
        None => Err(ExtractionError::NotFound),
    }
}

/// The identifier that the metadata of a JPEG carries. A payload that is not
/// framed as a JPEG is unsupported; one without a complete APP1 section has
/// an invalid section; the rest is as `tagged_sender_id` says of the section.
pub open spec fn metadata_sender_id(data: Seq<u8>) -> Result<u64, ExtractionError> {
    if !looks_like_jpeg(data) {
        Err(ExtractionError::UnsupportedFormat)
    } else {
        match app_section(data) {
            Some(section) => tagged_sender_id(section),
            None => Err(ExtractionError::InvalidSection),
        }
    }
}

/// What comes out of a reassembled frame under `strategy`: the producer's
/// identifier and the payload to broadcast.
pub open spec fn extraction(strategy: Strategy, raw: Seq<u8>) -> Result<
    (u64, Seq<u8>),
    ExtractionError,
> {
    match strategy {
        Strategy::TrailingDigits => match trailing_sender_id(raw) {
            Ok(id) => Ok((id, without_sender_id(raw))),
            Err(e) => Err(e),
        },
        Strategy::JpegMetadata => match metadata_sender_id(raw) {
            Ok(id) => Ok((id, raw)),
            Err(e) => Err(e),
        },
    }
}

/// Tells which known format `image_data` is framed as.
pub fn image_type(image_data: &[u8]) -> (found: Option<ImageType>)
    ensures
        found == image_type_of(image_data@),
{
    if is_jpeg(image_data) {
        Some(ImageType::JPEG)
    } else {
        None
    }
}

/// Reads the identifier behind the first tag of a metadata section, and says
/// why where there is none.
pub fn find_tagged_sender_id(section: &[u8]) -> (id: Result<u64, ExtractionError>)
    ensures
        id == tagged_sender_id(section@),
{
    let at: usize = match find_marker(section, SENDER_ID_TAG_FIRST, SENDER_ID_TAG_SECOND) {
        Some(at) => at,
        None => {
            return Err(ExtractionError::NotFound);
        },
    };
    let behind_tag: usize = section.len() - at - 2;
    if behind_tag < SENDER_ID_LENGTH {
        return Err(ExtractionError::NotFound);
    }
    let digits = slice_subrange(section, at + 2, at + 2 + SENDER_ID_LENGTH);
    match sender_id_from_digits(digits) {
        Some(value) => Ok(value),
        None => Err(ExtractionError::Malformed),
    }
}

/// Reads the identifier that the metadata of the JPEG `image_data` carries,
/// and says why where there is none.
pub fn locate_sender_id(image_data: &[u8]) -> (id: Result<u64, ExtractionError>)
    ensures
        id == metadata_sender_id(image_data@),
{
    match image_type(image_data) {
        Some(ImageType::JPEG) => match extract_app_section(image_data) {
            Ok(section) => find_tagged_sender_id(section.as_slice()),
            Err(_) => Err(ExtractionError::InvalidSection),
        },
        None => Err(ExtractionError::UnsupportedFormat),
    }
}

/// Reads the identifier that the metadata of the JPEG `image_data` carries,
/// if it carries one.
pub fn get_sender_id(image_data: &[u8]) -> (id: Option<u64>)
    ensures
        id == match metadata_sender_id(image_data@) {
            Ok(value) => Some(value),
            Err(_) => None::<u64>,
        },
{
    match locate_sender_id(image_data) {
        Ok(value) => Some(value),
        Err(_) => None,
    }
}

/// Takes the producer's identifier out of the reassembled frame `raw` and
/// hands it back with the payload to broadcast.
pub fn extract(strategy: Strategy, raw: Vec<u8>) -> (frame: Result<(u64, Vec<u8>), ExtractionError>)
    ensures
        match frame {
            Ok((id, payload)) => extraction(strategy, raw@) == Ok::<
                (u64, Seq<u8>),
                ExtractionError,
            >((id, payload@)),
            Err(e) => extraction(strategy, raw@) == Err::<(u64, Seq<u8>), ExtractionError>(e),
        },
{
    let mut payload = raw;
    match strategy {
        Strategy::TrailingDigits => match decode_sender_id(payload.as_slice()) {
            Ok(id) => {
                remove_sender_id(&mut payload);
                Ok((id, payload))
            },
            Err(e) => Err(e),
        },
        Strategy::JpegMetadata => match locate_sender_id(payload.as_slice()) {
            Ok(id) => Ok((id, payload)),
            Err(e) => Err(e),
        },
    }
}

/// A metadata section whose first tag is followed by the seven digits of an
/// identifier below ten million carries that identifier.
pub proof fn lemma_tagged_sender_id_found(section: Seq<u8>, tag_at: int, sender_id: nat)
    requires
        first_marker_at(section, SENDER_ID_TAG_FIRST, SENDER_ID_TAG_SECOND, tag_at),
        tag_at + 2 + SENDER_ID_LENGTH <= section.len(),
        section.subrange(tag_at + 2, tag_at + 2 + SENDER_ID_LENGTH) == sender_id_digits(sender_id),
        sender_id < SENDER_ID_LIMIT,
    ensures
        tagged_sender_id(section) == Ok::<u64, ExtractionError>(sender_id as u64),
{
    lemma_first_marker_is(section, SENDER_ID_TAG_FIRST, SENDER_ID_TAG_SECOND, tag_at);
    lemma_sender_id_width();
    lemma_decimal_digits_value(sender_id, SENDER_ID_LENGTH as nat);
}

/// A metadata section that ends less than seven bytes behind its first tag
/// carries no identifier to be found.
pub proof fn lemma_tagged_sender_id_cut_short(section: Seq<u8>, tag_at: int)
    requires
        first_marker_at(section, SENDER_ID_TAG_FIRST, SENDER_ID_TAG_SECOND, tag_at),
        tag_at + 2 + SENDER_ID_LENGTH > section.len(),
    ensures
        tagged_sender_id(section) == Err::<u64, ExtractionError>(ExtractionError::NotFound),
{
    lemma_first_marker_is(section, SENDER_ID_TAG_FIRST, SENDER_ID_TAG_SECOND, tag_at);
}

/// What the metadata of a JPEG carries is what the body of its first APP1
/// section carries, where the payload holds all of that body.
pub proof fn lemma_metadata_sender_id_is_tagged(data: Seq<u8>, section_at: int)
    requires
        looks_like_jpeg(data),
        first_marker_at(data, MARKER_PREFIX, APP1, section_at),
        section_at + 4 + announced_length(data, section_at) <= data.len(),
    ensures
        metadata_sender_id(data) == tagged_sender_id(
            data.subrange(section_at + 4, section_at + 4 + announced_length(data, section_at)),
        ),
{
    lemma_first_marker_is(data, MARKER_PREFIX, APP1, section_at);
}

} // verus!
