//! Text encoding of binary payloads.

use vstd::prelude::*;

verus! {

/// The base64 text of `bytes`: standard alphabet, padded with `=`.
pub uninterp spec fn base64_text(bytes: Seq<u8>) -> Seq<char>;

/// The number of characters in the padded base64 text of `len` bytes: four
/// for every three bytes or part of three.
pub open spec fn base64_len(len: nat) -> nat {
    (len + 2) / 3 * 4
}

/// Calls `base64::encode`, which encodes with the standard alphabet and
/// padding and depends on nothing but the bytes it is given. The contract
/// gives its result the name `base64_text` and claims no more of it. The
/// encoder panics where the length of the text does not fit in `usize`;
/// `requires` leaves those inputs out.
#[verifier::external_body]
pub(crate) fn base64_encode(bytes: &[u8]) -> (text: String)
    requires
        base64_len(bytes@.len()) <= usize::MAX,
    ensures
        text@ == base64_text(bytes@),
{
    base64::encode(bytes)
}

} // verus!
