//! Decoding the protocol's terminal bytes as text.

use vstd::prelude::*;

use crate::outcome::FormatError;

verus! {

/// The characters the crate's decoding policy assigns to a byte sequence,
/// when the bytes are valid under it.
pub uninterp spec fn utf8_chars(bytes: Seq<u8>) -> Option<Seq<char>>;

/// Relies on String::from_utf8: it succeeds exactly on bytes that are valid
/// UTF-8, and the characters it yields depend on the bytes alone.
#[verifier::external_body]
fn utf8_to_string(bytes: Vec<u8>) -> (r: Option<String>)
    ensures
        r matches Some(s) ==> utf8_chars(bytes@) matches Some(chars) && s@ == chars,
        r is None ==> utf8_chars(bytes@) is None,
{
    String::from_utf8(bytes).ok()
}

/// Decode a terminal byte sequence as text.  A failure here is the decode
/// kind, never a formatter failure: the two are distinct error categories.
pub fn decode_text(bytes: Vec<u8>) -> (r: Result<String, FormatError>)
    ensures
        r is Ok <==> utf8_chars(bytes@) is Some,
        r matches Ok(s) ==> utf8_chars(bytes@) matches Some(chars) && s@ == chars,
        r matches Err(e) ==> e == FormatError::Decode,
{
    match utf8_to_string(bytes) {
        Some(s) => Ok(s),
        None => Err(FormatError::Decode),
    }
}

} // verus!
