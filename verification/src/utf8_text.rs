//! Decoding bytes as UTF-8 text.

use vstd::prelude::*;
use vstd::utf8::{decode_utf8, valid_utf8};
use crate::counting::char_count;

verus! {

/// `core::str::Utf8Error`, why bytes are no UTF-8. Nothing inside it is
/// visible to the verifier.
#[verifier::external_type_specification]
#[verifier::external_body]
pub struct ExUtf8Error(core::str::Utf8Error);

/// Assumed of `core::str::from_utf8`: it succeeds exactly on well-formed
/// UTF-8, and the text it then returns is the sequence of characters that the
/// bytes encode.
pub assume_specification[ core::str::from_utf8 ](v: &[u8]) -> (res: Result<
    &str,
    core::str::Utf8Error,
>)
    ensures
        res is Ok <==> valid_utf8(v@),
        res matches Ok(text) ==> text@ == decode_utf8(v@),
;

/// The number of characters that `bytes` encodes as UTF-8, or the number of
/// bytes where they are not well-formed UTF-8.
pub fn count_chars(bytes: &Vec<u8>) -> (n: u64)
    ensures
        n == char_count(bytes@),
{
    match core::str::from_utf8(bytes.as_slice()) {
        Ok(text) => text.unicode_len() as u64,
        Err(_) => bytes.len() as u64,
    }
}

} // verus!
