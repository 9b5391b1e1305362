//! The bytes of a file, taken as UTF-8 text.
use vstd::prelude::*;
use vstd::utf8::{decode_utf8, encode_utf8, valid_utf8};
use vstd::utf8::{encode_utf8_decode_utf8, encode_utf8_valid_utf8};

verus! {

/// Why bytes that are not UTF-8 cannot be reported as text.
pub open spec fn invalid_text_reason() -> Seq<char> {
    "stream did not contain valid UTF-8"@
}

/// What `bytes` are as text: the characters they encode where they are valid
/// UTF-8, and otherwise the reason why they are not text.
pub open spec fn text_of(bytes: Seq<u8>) -> Result<Seq<char>, Seq<char>> {
    if valid_utf8(bytes) {
        Ok(decode_utf8(bytes))
    } else {
        Err(invalid_text_reason())
    }
}

/// The views of a decoded text or of the reason given in its place.
pub open spec fn text_view(text: Result<String, String>) -> Result<Seq<char>, Seq<char>> {
    match text {
        Ok(contents) => Ok(contents@),
        Err(reason) => Err(reason@),
    }
}

/// Calls `String::from_utf8` of the standard library. Trusted, not proved:
/// the call succeeds exactly on valid UTF-8, and the string it then returns
/// is made of the very bytes that were passed in.
#[verifier::external_body]
fn string_from_utf8(bytes: Vec<u8>) -> (text: Option<String>)
    ensures
        text is Some <==> valid_utf8(bytes@),
        text matches Some(contents) ==> encode_utf8(contents@) == bytes@,
{
    match String::from_utf8(bytes) {
        Ok(contents) => Some(contents),
        Err(_) => None,
    }
}

/// Takes the bytes of a file as text. Nothing is repaired or skipped: bytes
/// that are not valid UTF-8 give an error that holds the reason, never a
/// partly decoded text.
pub fn decode_text(bytes: Vec<u8>) -> (text: Result<String, String>)
    ensures
        text_view(text) == text_of(bytes@),
        text is Ok <==> valid_utf8(bytes@),
{
    match string_from_utf8(bytes) {
        Some(contents) => {
            proof {
                encode_utf8_decode_utf8(contents@);
            }
            Ok(contents)
        },
        None => Err("stream did not contain valid UTF-8".to_owned()),
    }
}

/// A file that holds the UTF-8 encoding of some characters is read back as
/// exactly those characters.
pub proof fn lemma_encoded_text_decodes(contents: Seq<char>)
    ensures
        text_of(encode_utf8(contents)) == Ok::<Seq<char>, Seq<char>>(contents),
{
    encode_utf8_valid_utf8(contents);
    encode_utf8_decode_utf8(contents);
}

} // verus!
