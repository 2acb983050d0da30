//! Paths cross the boundary between bytes and text here.
//!
//! A path arrives as the bytes of an atom and leaves as a `String`; the
//! standard library decides whether the bytes are UTF-8.

use std::string::FromUtf8Error;
use vstd::prelude::*;
use vstd::slice::slice_to_vec;
use vstd::utf8::*;

verus! {

/// Trusted: `std::string::FromUtf8Error`, the error of `String::from_utf8`.
/// Nothing is said of what it holds.
#[verifier::external_type_specification]
#[verifier::external_body]
pub struct ExFromUtf8Error(FromUtf8Error);

/// Trusted: `String::from_utf8`. It succeeds exactly on the byte strings that
/// are well-formed UTF-8, and the string it then returns is made of the very
/// bytes it was given.
pub assume_specification[ String::from_utf8 ](vec: Vec<u8>) -> (r: Result<String, FromUtf8Error>)
    ensures
        r is Ok <==> valid_utf8(vec@),
        r matches Ok(text) ==> encode_utf8(text@) == vec@,
;

/// Reads `bytes` as UTF-8 text; `None` where they are not well-formed.
pub fn text_of(bytes: &[u8]) -> (r: Option<String>)
    ensures
        r is Some <==> valid_utf8(bytes@),
        r matches Some(text) ==> text@ == decode_utf8(bytes@) && encode_utf8(text@) == bytes@,
{
    match String::from_utf8(slice_to_vec(bytes)) {
        Ok(text) => {
            proof {
                encode_utf8_decode_utf8(text@);
            }
            Some(text)
        },
        Err(_) => None,
    }
}

/// The UTF-8 bytes of `text`.
pub fn bytes_of(text: &str) -> (r: Vec<u8>)
    ensures
        r@ == encode_utf8(text@),
        valid_utf8(r@),
        decode_utf8(r@) == text@,
{
    proof {
        encode_utf8_valid_utf8(text@);
        encode_utf8_decode_utf8(text@);
    }
    slice_to_vec(text.as_bytes())
}

} // verus!
