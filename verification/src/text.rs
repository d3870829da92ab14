//! Decoding captured bytes as text.

use vstd::prelude::*;
use vstd::utf8::{decode_utf8, valid_utf8};

verus! {

/// `core::str::Utf8Error`, which is carried along and never looked into.
#[verifier::external_type_specification]
#[verifier::external_body]
pub struct ExUtf8Error(core::str::Utf8Error);

/// The error with which `core::str::from_utf8` refuses `bytes`, where they
/// are not UTF-8.
pub uninterp spec fn utf8_failure(bytes: Seq<u8>) -> core::str::Utf8Error;

/// `core::str::from_utf8`. Trusted: it accepts exactly the byte sequences that
/// are valid UTF-8 and then yields the text they encode; what it refuses, it
/// refuses with an error that depends on the bytes alone.
#[verifier::external_body]
pub(crate) fn from_utf8(bytes: &[u8]) -> (decoded: Result<&str, core::str::Utf8Error>)
    ensures
        decoded is Ok <==> valid_utf8(bytes@),
        decoded matches Ok(text) ==> text@ == decode_utf8(bytes@),
        decoded matches Err(error) ==> error == utf8_failure(bytes@),
{
    core::str::from_utf8(bytes)
}

} // verus!
