//! The identifier as a suffix: seven bytes behind the image, one decimal
//! digit each, in reading order.

use vstd::prelude::*;
use vstd::slice::slice_subrange;
use crate::images::ExtractionError;

verus! {

/// Number of digit bytes that spell an identifier.
pub const SENDER_ID_LENGTH: usize = 7;

/// One more than the largest identifier that seven digits can spell.
pub const SENDER_ID_LIMIT: u64 = 10_000_000;

/// Why a run of bytes spells no number.
#[derive(Debug, Clone, Copy, PartialEq, Eq, Structural)]
pub enum ParseDigitsError {
    /// There are no bytes at all.
    Empty,
    /// Some byte is larger than 9.
    InvalidDigit,
    /// All bytes are digits, and the number they spell exceeds `u64::MAX`.
    Overflow,
}

/// Every byte of `bytes` is a decimal digit, that is at most 9.
pub open spec fn all_digits(bytes: Seq<u8>) -> bool {
    forall|i: int| 0 <= i < bytes.len() ==> bytes[i] <= 9
}

/// The number that `digits` spell in decimal, read from left to right.
pub open spec fn decimal_value(digits: Seq<u8>) -> nat
    decreases digits.len(),
{
    if digits.len() == 0 {
        0
    } else {
        decimal_value(digits.drop_last()) * 10 + digits.last() as nat
    }
}

/// The last `width` decimal digits of `value`, most significant first.
pub open spec fn decimal_digits(value: nat, width: nat) -> Seq<u8>
    decreases width,
{
    if width == 0 {
        Seq::empty()
    } else {
        decimal_digits(value / 10, (width - 1) as nat).push((value % 10) as u8)
    }
}

/// Ten to the power of `exponent`.
pub open spec fn pow10(exponent: nat) -> nat
    decreases exponent,
{
    if exponent == 0 {
        1
    } else {
        10 * pow10((exponent - 1) as nat)
    }
}

/// The seven digit bytes that spell `sender_id`.
pub open spec fn sender_id_digits(sender_id: nat) -> Seq<u8> {
    decimal_digits(sender_id, SENDER_ID_LENGTH as nat)
}

/// The last seven bytes of a payload that has that many.
pub open spec fn trailing_digits(data: Seq<u8>) -> Seq<u8> {
    data.subrange(data.len() - SENDER_ID_LENGTH, data.len() as int)
}

/// The identifier that a payload ends with: the number that its last seven
/// bytes spell. A payload of fewer than seven bytes is incomplete; one whose
/// last seven bytes are not all digits is malformed.
pub open spec fn trailing_sender_id(data: Seq<u8>) -> Result<u64, ExtractionError> {
    if data.len() < SENDER_ID_LENGTH {
        Err(ExtractionError::Incomplete)
    } else if !all_digits(trailing_digits(data)) {
        Err(ExtractionError::Malformed)
    } else {
        Ok(decimal_value(trailing_digits(data)) as u64)
    }
}

/// A payload without the seven bytes of its identifier. A payload too short
/// to end with an identifier is kept as it is.
pub open spec fn without_sender_id(data: Seq<u8>) -> Seq<u8> {
    if data.len() < SENDER_ID_LENGTH {
        data
    } else {
        data.subrange(0, data.len() - SENDER_ID_LENGTH)
    }
}

/// One more digit on the right multiplies the value by ten and adds the digit.
pub proof fn lemma_decimal_value_step(digits: Seq<u8>, upto: int)
    requires
        0 <= upto < digits.len(),
    ensures
        decimal_value(digits.take(upto + 1)) == decimal_value(digits.take(upto)) * 10
            + digits[upto] as nat,
{
    assert(digits.take(upto + 1).drop_last() =~= digits.take(upto));
}

/// Digits spell a number below ten to the power of their count.
pub proof fn lemma_decimal_value_bound(digits: Seq<u8>)
    requires
        all_digits(digits),
    ensures
        decimal_value(digits) < pow10(digits.len()),
    decreases digits.len(),
{
    if digits.len() > 0 {
        lemma_decimal_value_bound(digits.drop_last());
    }
}

/// The digits of a number that fits in `width` digits spell that number.
pub proof fn lemma_decimal_digits_value(value: nat, width: nat)
    requires
        value < pow10(width),
    ensures
        decimal_digits(value, width).len() == width,
        all_digits(decimal_digits(value, width)),
        decimal_value(decimal_digits(value, width)) == value,
    decreases width,
{
    if width > 0 {
        let shorter = decimal_digits(value / 10, (width - 1) as nat);
        lemma_decimal_digits_value(value / 10, (width - 1) as nat);
        assert(decimal_digits(value, width).drop_last() =~= shorter);
    }
}

/// Seven digits can spell every number below ten million, and no other.
pub proof fn lemma_sender_id_width()
    ensures
        pow10(SENDER_ID_LENGTH as nat) == SENDER_ID_LIMIT,
{
    reveal_with_fuel(pow10, 8);
}

/// Reads `bytes` as a decimal number, one digit per byte, most significant
/// first.
pub fn bytes_to_integer(bytes: &[u8]) -> (parsed: Result<u64, ParseDigitsError>)
    ensures
        match parsed {
            Ok(value) => bytes@.len() > 0 && all_digits(bytes@) && decimal_value(bytes@) == value,
            Err(ParseDigitsError::Empty) => bytes@.len() == 0,
            Err(ParseDigitsError::InvalidDigit) => !all_digits(bytes@),
            Err(ParseDigitsError::Overflow) => all_digits(bytes@) && decimal_value(bytes@)
                > u64::MAX,
        },
{
    if bytes.len() == 0 {
        return Err(ParseDigitsError::Empty);
    }
    let mut value: u64 = 0;
    let mut overflowed = false;
    let mut i: usize = 0;
    while i < bytes.len()
        invariant
            i <= bytes.len(),
            all_digits(bytes@.take(i as int)),
            !overflowed ==> decimal_value(bytes@.take(i as int)) == value,
            overflowed ==> decimal_value(bytes@.take(i as int)) > u64::MAX,
        decreases bytes.len() - i,
    {
        let digit: u8 = bytes[i];
        if digit > 9 {
            return Err(ParseDigitsError::InvalidDigit);
        }
        proof {
            lemma_decimal_value_step(bytes@, i as int);
            let seen = bytes@.take(i as int);
            let grown = bytes@.take(i + 1);
            assert forall|j: int| 0 <= j < grown.len() implies #[trigger] grown[j] <= 9 by {
                if j < i {
                    assert(seen[j] <= 9);
                }
            }
        }
        if !overflowed {
            match value.checked_mul(10) {
                Some(shifted) => match shifted.checked_add(digit as u64) {
                    Some(next) => {
                        value = next;
                    },
                    None => {
                        overflowed = true;
                    },
                },
                None => {
                    overflowed = true;
                },
            }
        }
        i += 1;
    }
    assert(bytes@.take(i as int) =~= bytes@);
    if overflowed {
        Err(ParseDigitsError::Overflow)
    } else {
        Ok(value)
    }
}

/// Reads the identifier that the seven bytes `digits` spell.
pub(crate) fn sender_id_from_digits(digits: &[u8]) -> (id: Option<u64>)
    requires
        digits@.len() == SENDER_ID_LENGTH,
    ensures
        id == if all_digits(digits@) {
            Some(decimal_value(digits@) as u64)
        } else {
            None
        },
{
    match bytes_to_integer(digits) {
        Ok(value) => Some(value),
        Err(_) => {
            proof {
                if all_digits(digits@) {
                    lemma_decimal_value_bound(digits@);
                    lemma_sender_id_width();
                }
            }
            None
        },
    }
}

/// Reads the identifier that `image_data` ends with, and says why where
/// there is none.
pub fn decode_sender_id(image_data: &[u8]) -> (id: Result<u64, ExtractionError>)
    ensures
        id == trailing_sender_id(image_data@),
        image_data@.len() < SENDER_ID_LENGTH ==> id == Err::<u64, ExtractionError>(
            ExtractionError::Incomplete,
        ),
{
    let len: usize = image_data.len();
    if len < SENDER_ID_LENGTH {
        return Err(ExtractionError::Incomplete);
    }
    let digits = slice_subrange(image_data, len - SENDER_ID_LENGTH, len);
    match sender_id_from_digits(digits) {
        Some(value) => Ok(value),
        None => Err(ExtractionError::Malformed),
    }
}

/// Reads the identifier that `image_data` ends with, if it ends with one.
pub fn extract_sender_id(image_data: &Vec<u8>) -> (id: Option<u64>)
    ensures
        id == match trailing_sender_id(image_data@) {
            Ok(value) => Some(value),
            Err(_) => None::<u64>,
        },
{
    match decode_sender_id(image_data.as_slice()) {
        Ok(value) => Some(value),
        Err(_) => None,
    }
}

/// Cuts the seven bytes of the identifier off the end of `image_data`.
pub fn remove_sender_id(image_data: &mut Vec<u8>)
    ensures
        final(image_data)@ == without_sender_id(old(image_data)@),
{
    let len: usize = image_data.len();
    if len >= SENDER_ID_LENGTH {
        image_data.truncate(len - SENDER_ID_LENGTH);
    }
}

/// Appends the last `width` decimal digits of `value` to `out`, most
/// significant first.
fn push_decimal_digits(out: &mut Vec<u8>, value: u64, width: usize)
    ensures
        final(out)@ == old(out)@ + decimal_digits(value as nat, width as nat),
    decreases width,
{
    if width > 0 {
        push_decimal_digits(out, value / 10, width - 1);
        out.push((value % 10) as u8);
    }
}

/// Appends `sender_id` to `image_data` as seven digit bytes, where seven
/// digits can spell it, and tells whether it did.
pub fn append_sender_id(image_data: &mut Vec<u8>, sender_id: u64) -> (appended: bool)
    ensures
        appended == (sender_id < SENDER_ID_LIMIT),
        final(image_data)@ == if appended {
            old(image_data)@ + sender_id_digits(sender_id as nat)
        } else {
            old(image_data)@
        },
{
    if sender_id >= SENDER_ID_LIMIT {
        return false;
    }
    push_decimal_digits(image_data, sender_id, SENDER_ID_LENGTH);
    true
}

/// An identifier below ten million that is appended to a payload comes back
/// out of it, and cutting it off leaves the payload as it was.
pub proof fn lemma_sender_id_round_trip(payload: Seq<u8>, sender_id: nat)
    requires
        sender_id < SENDER_ID_LIMIT,
    ensures
        trailing_sender_id(payload + sender_id_digits(sender_id)) == Ok::<u64, ExtractionError>(
            sender_id as u64,
        ),
        without_sender_id(payload + sender_id_digits(sender_id)) == payload,
{
    lemma_sender_id_width();
    lemma_decimal_digits_value(sender_id, SENDER_ID_LENGTH as nat);
    let framed = payload + sender_id_digits(sender_id);
    assert(trailing_digits(framed) =~= sender_id_digits(sender_id));
    assert(without_sender_id(framed) =~= payload);
}

} // verus!
