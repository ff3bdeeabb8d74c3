//! Decoding of encoded text: base64 to bytes, bytes to text.

use std::string::FromUtf8Error;
use vstd::prelude::*;
use vstd::utf8::{decode_utf8, encode_utf8, encode_utf8_decode_utf8, encode_utf8_valid_utf8, valid_utf8};

verus! {

/// `std::string::FromUtf8Error`, of which the library reads nothing.
#[verifier::external_type_specification]
#[verifier::external_body]
pub struct ExFromUtf8Error(FromUtf8Error);

/// The bytes that `base64::decode` reads from a text in the standard
/// alphabet, if the text is base64.
pub uninterp spec fn base64_decoded(text: Seq<char>) -> Option<Seq<u8>>;

/// The text that a byte sequence stands for, if it is UTF-8.
pub open spec fn utf8_text(bytes: Seq<u8>) -> Option<Seq<char>> {
    if valid_utf8(bytes) {
        Some(decode_utf8(bytes))
    } else {
        None
    }
}

/// The text behind a base64 string: the decoded bytes read as UTF-8.
pub open spec fn base64_text(encoded: Seq<char>) -> Option<Seq<char>> {
    match base64_decoded(encoded) {
        Some(bytes) => utf8_text(bytes),
        None => None,
    }
}

/// `base64::decode`: the bytes that `base64_decoded` names for the text,
/// `None` where the crate reports a decoding error.
#[verifier::external_body]
pub(crate) fn decode_base64(text: &str) -> (bytes: Option<Vec<u8>>)
    ensures
        match bytes {
            Some(decoded) => base64_decoded(text@) == Some(decoded@),
            None => base64_decoded(text@) is None,
        },
{
    match base64::decode(text) {
        Ok(decoded) => Some(decoded),
        Err(_) => None,
    }
}

/// `String::from_utf8`: succeeds exactly on valid UTF-8, with the text that
/// the bytes encode.
pub assume_specification[ std::string::String::from_utf8 ](bytes: Vec<u8>) -> (text: Result<
    String,
    FromUtf8Error,
>)
    ensures
        match text {
            Ok(s) => utf8_text(bytes@) == Some(s@),
            Err(_) => utf8_text(bytes@) is None,
        },
;

/// Decodes a base64 string into the text that its bytes encode.
pub fn decode_text(encoded: &str) -> (text: Option<String>)
    ensures
        text.deep_view() == base64_text(encoded@),
{
    match decode_base64(encoded) {
        Some(bytes) => match String::from_utf8(bytes) {
            Ok(s) => Some(s),
            Err(_) => None,
        },
        None => None,
    }
}

/// Every text comes back from its own UTF-8 bytes.
pub proof fn lemma_utf8_text_of_encoding(text: Seq<char>)
    ensures
        utf8_text(encode_utf8(text)) == Some(text),
{
    encode_utf8_valid_utf8(text);
    encode_utf8_decode_utf8(text);
}

} // verus!
