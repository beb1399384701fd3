//! Lossy UTF-8 decoding of serial bytes for display.
//!
//! Serial links are binary: a read may end in the middle of a multi-byte
//! character or carry bytes that are not UTF-8 at all. The screen text is
//! therefore the lossy decoding of the bytes, with every invalid sequence
//! replaced by the replacement character, and never a decode failure.

use vstd::prelude::*;
use vstd::utf8::{decode_utf8, valid_utf8};

verus! {

/// What `String::from_utf8_lossy` returns for the given bytes: their decoding
/// as UTF-8 with every invalid sequence replaced by the replacement character.
pub uninterp spec fn lossy_utf8_of(b: Seq<u8>) -> Seq<char>;

/// Relies on `String::from_utf8_lossy`: the result is a function of the bytes
/// alone, and its documentation states that valid UTF-8 input is returned
/// verbatim, so on valid input the result is exactly the UTF-8 decoding.
#[verifier::external_body]
pub(crate) fn decode_lossy(b: &Vec<u8>) -> (r: String)
    ensures
        r@ == lossy_utf8_of(b@),
        valid_utf8(b@) ==> r@ == decode_utf8(b@),
{
    String::from_utf8_lossy(b).into_owned()
}

} // verus!
