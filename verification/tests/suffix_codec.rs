use anzen2::images::app::{
    append_sender_id, bytes_to_integer, decode_sender_id, extract_sender_id, remove_sender_id,
    ParseDigitsError, SENDER_ID_LENGTH, SENDER_ID_LIMIT,
};
use anzen2::images::{extract, ExtractionError, Strategy};

fn framed(image: &[u8], digits: [u8; 7]) -> Vec<u8> {
    let mut data = image.to_vec();
    data.extend_from_slice(&digits);
    data
}

#[test]
fn suffix_constants() {
    assert_eq!(SENDER_ID_LENGTH, 7);
    assert_eq!(SENDER_ID_LIMIT, 10_000_000);
}

#[test]
fn suffix_reads_forty_two() {
    let data = framed(&[9, 8, 7, 6, 5, 4, 3, 2, 1], [0, 0, 0, 0, 0, 4, 2]);
    assert_eq!(decode_sender_id(&data), Ok(42));
    assert_eq!(extract_sender_id(&data), Some(42));
}

#[test]
fn suffix_digits_are_read_left_to_right() {
    let data = framed(&[0xAA], [1, 2, 3, 4, 5, 6, 7]);
    assert_eq!(decode_sender_id(&data), Ok(1_234_567));
    let data = framed(&[], [7, 0, 0, 0, 0, 0, 0]);
    assert_eq!(decode_sender_id(&data), Ok(7_000_000));
}

#[test]
fn suffix_largest_and_smallest_identifier() {
    assert_eq!(decode_sender_id(&[9, 9, 9, 9, 9, 9, 9]), Ok(9_999_999));
    assert_eq!(decode_sender_id(&[0, 0, 0, 0, 0, 0, 0]), Ok(0));
}

#[test]
fn suffix_short_payload_is_incomplete() {
    for len in 0..7usize {
        let data = vec![1u8; len];
        assert_eq!(decode_sender_id(&data), Err(ExtractionError::Incomplete));
        assert_eq!(extract_sender_id(&data), None);
    }
}

#[test]
fn suffix_non_digit_is_malformed() {
    let data = framed(&[1, 2, 3], [0, 0, 0, 10, 0, 4, 2]);
    assert_eq!(decode_sender_id(&data), Err(ExtractionError::Malformed));
    assert_eq!(extract_sender_id(&data), None);
    let ascii = framed(&[1, 2, 3], [b'0', b'0', b'0', b'0', b'0', b'4', b'2']);
    assert_eq!(decode_sender_id(&ascii), Err(ExtractionError::Malformed));
    let wraps_to_plus = framed(&[], [251, 0, 0, 0, 0, 4, 2]);
    assert_eq!(decode_sender_id(&wraps_to_plus), Err(ExtractionError::Malformed));
    let high = framed(&[], [0, 0, 0, 0, 0, 0, 255]);
    assert_eq!(decode_sender_id(&high), Err(ExtractionError::Malformed));
}

#[test]
fn suffix_only_the_last_seven_bytes_count() {
    let data = framed(&[200, 201, 202], [0, 0, 0, 0, 0, 0, 5]);
    assert_eq!(decode_sender_id(&data), Ok(5));
}

#[test]
fn remove_cuts_seven_bytes() {
    let mut data = framed(&[9, 8, 7, 6, 5, 4, 3, 2, 1], [0, 0, 0, 0, 0, 4, 2]);
    remove_sender_id(&mut data);
    assert_eq!(data, vec![9, 8, 7, 6, 5, 4, 3, 2, 1]);
}

#[test]
fn remove_leaves_nothing_of_a_bare_identifier() {
    let mut data = vec![0, 0, 0, 0, 0, 4, 2];
    remove_sender_id(&mut data);
    assert_eq!(data, Vec::<u8>::new());
}

#[test]
fn remove_keeps_a_short_payload() {
    let mut data = vec![1, 2, 3];
    remove_sender_id(&mut data);
    assert_eq!(data, vec![1, 2, 3]);
    let mut empty: Vec<u8> = Vec::new();
    remove_sender_id(&mut empty);
    assert_eq!(empty, Vec::<u8>::new());
}

#[test]
fn append_writes_seven_digits() {
    let mut data = vec![0xAB, 0xCD];
    assert!(append_sender_id(&mut data, 42));
    assert_eq!(data, vec![0xAB, 0xCD, 0, 0, 0, 0, 0, 4, 2]);
    let mut data = Vec::new();
    assert!(append_sender_id(&mut data, 9_876_543));
    assert_eq!(data, vec![9, 8, 7, 6, 5, 4, 3]);
}

#[test]
fn append_refuses_what_seven_digits_cannot_spell() {
    let mut data = vec![1, 2, 3];
    assert!(!append_sender_id(&mut data, 10_000_000));
    assert_eq!(data, vec![1, 2, 3]);
    assert!(!append_sender_id(&mut data, u64::MAX));
    assert_eq!(data, vec![1, 2, 3]);
}

#[test]
fn round_trip_returns_identifier_and_payload() {
    let payloads: Vec<Vec<u8>> = vec![
        vec![],
        vec![0],
        vec![1, 2, 3, 4, 5, 6, 7],
        vec![0xFF, 0xD8, 0x00, 0x07, 0x0C, 0xFF, 0xD9],
        (0..=255u8).collect(),
    ];
    let ids: Vec<u64> = vec![0, 1, 7, 42, 100, 65_535, 1_234_567, 9_999_999];
    for payload in &payloads {
        for id in &ids {
            let mut data = payload.clone();
            assert!(append_sender_id(&mut data, *id));
            assert_eq!(data.len(), payload.len() + 7);
            assert_eq!(decode_sender_id(&data), Ok(*id));
            assert_eq!(extract_sender_id(&data), Some(*id));
            let frame = extract(Strategy::TrailingDigits, data.clone());
            assert_eq!(frame, Ok((*id, payload.clone())));
            remove_sender_id(&mut data);
            assert_eq!(&data, payload);
        }
    }
}

#[test]
fn extract_trailing_digits_reports_errors() {
    assert_eq!(
        extract(Strategy::TrailingDigits, vec![1, 2, 3]),
        Err(ExtractionError::Incomplete)
    );
    assert_eq!(
        extract(Strategy::TrailingDigits, vec![1, 2, 3, 4, 5, 6, 77]),
        Err(ExtractionError::Malformed)
    );
}

#[test]
fn digits_parse_to_their_value() {
    assert_eq!(bytes_to_integer(&[1, 2, 3]), Ok(123));
    assert_eq!(bytes_to_integer(&[0, 0, 7]), Ok(7));
    assert_eq!(bytes_to_integer(&[0]), Ok(0));
    assert_eq!(bytes_to_integer(&[9]), Ok(9));
}

#[test]
fn digits_empty_input() {
    assert_eq!(bytes_to_integer(&[]), Err(ParseDigitsError::Empty));
}

#[test]
fn digits_invalid_digit() {
    assert_eq!(bytes_to_integer(&[1, 10]), Err(ParseDigitsError::InvalidDigit));
    assert_eq!(bytes_to_integer(&[b'7']), Err(ParseDigitsError::InvalidDigit));
}

#[test]
fn digits_up_to_u64_max() {
    let max = [1, 8, 4, 4, 6, 7, 4, 4, 0, 7, 3, 7, 0, 9, 5, 5, 1, 6, 1, 5];
    assert_eq!(bytes_to_integer(&max), Ok(u64::MAX));
    let padded = [0, 0, 1, 8, 4, 4, 6, 7, 4, 4, 0, 7, 3, 7, 0, 9, 5, 5, 1, 6, 1, 5];
    assert_eq!(bytes_to_integer(&padded), Ok(u64::MAX));
}

#[test]
fn digits_overflow() {
    let over = [1, 8, 4, 4, 6, 7, 4, 4, 0, 7, 3, 7, 0, 9, 5, 5, 1, 6, 1, 6];
    assert_eq!(bytes_to_integer(&over), Err(ParseDigitsError::Overflow));
    let long = [9u8; 40];
    assert_eq!(bytes_to_integer(&long), Err(ParseDigitsError::Overflow));
}

#[test]
fn digits_invalid_digit_behind_an_overflow() {
    let mut bytes = vec![9u8; 30];
    bytes.push(11);
    assert_eq!(bytes_to_integer(&bytes), Err(ParseDigitsError::InvalidDigit));
}
