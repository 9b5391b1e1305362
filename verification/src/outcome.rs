//! From what a read gave to the outcome that is reported.
use vstd::prelude::*;
use vstd::utf8::{decode_utf8, encode_utf8, valid_utf8};
use crate::message::{failure_message, failure_prefix, failure_text, lemma_failure_text_parts};
use crate::text::{decode_text, invalid_text_reason, lemma_encoded_text_decodes, text_of, text_view};

verus! {

/// The outcome reported for a read whose text is `attempt`: the contents as
/// they are on success, and on failure a message that embeds the reason.
pub open spec fn outcome_of(attempt: Result<Seq<char>, Seq<char>>) -> Result<
    Seq<char>,
    Seq<char>,
> {
    match attempt {
        Ok(contents) => Ok(contents),
        Err(reason) => Err(failure_text(reason)),
    }
}

/// The outcome reported for a read that gave `read`: the file's bytes, or
/// the description of the error that stopped the read.
pub open spec fn read_outcome_of(read: Result<Seq<u8>, Seq<char>>) -> Result<
    Seq<char>,
    Seq<char>,
> {
    match read {
        Ok(bytes) => outcome_of(text_of(bytes)),
        Err(reason) => outcome_of(Err(reason)),
    }
}

/// The views of what a read gave.
pub open spec fn read_view(read: Result<Vec<u8>, String>) -> Result<Seq<u8>, Seq<char>> {
    match read {
        Ok(bytes) => Ok(bytes@),
        Err(reason) => Err(reason@),
    }
}

/// Reports a read whose contents are already text. Contents pass through
/// untouched; every failure becomes a failure message around its reason.
pub fn outcome(attempt: Result<String, String>) -> (reported: Result<String, String>)
    ensures
        text_view(reported) == outcome_of(text_view(attempt)),
        reported is Ok <==> attempt is Ok,
{
    match attempt {
        Ok(contents) => Ok(contents),
        Err(reason) => Err(failure_message(reason.as_str())),
    }
}

/// Reports a read: the whole contents as text where the read succeeded and
/// the bytes are valid UTF-8, a failure message in every other case.
pub fn read_outcome(read: Result<Vec<u8>, String>) -> (reported: Result<String, String>)
    ensures
        text_view(reported) == read_outcome_of(read_view(read)),
        reported is Ok <==> (read matches Ok(bytes) && valid_utf8(bytes@)),
{
    match read {
        Ok(bytes) => outcome(decode_text(bytes)),
        Err(reason) => outcome(Err(reason)),
    }
}

/// A read that gave valid UTF-8 is reported as a success whose contents are
/// exactly those bytes, decoded.
pub proof fn lemma_valid_text_is_reported(bytes: Seq<u8>)
    requires
        valid_utf8(bytes),
    ensures
        read_outcome_of(Ok(bytes)) == Ok::<Seq<char>, Seq<char>>(decode_utf8(bytes)),
{
}

/// A file that holds the UTF-8 encoding of some characters is reported as a
/// success with exactly those characters.
pub proof fn lemma_encoded_text_is_reported(contents: Seq<char>)
    ensures
        read_outcome_of(Ok(encode_utf8(contents))) == Ok::<Seq<char>, Seq<char>>(contents),
{
    lemma_encoded_text_decodes(contents);
}

/// A read that the file system refused, for whatever reason, is never
/// reported as a success: the outcome is the failure message for that
/// reason, which starts with the opening words.
pub proof fn lemma_failed_read_is_failure(reason: Seq<char>)
    ensures
        read_outcome_of(Err(reason)) == Err::<Seq<char>, Seq<char>>(failure_text(reason)),
        failure_prefix().is_prefix_of(failure_text(reason)),
{
    lemma_failure_text_parts(reason);
}

/// Bytes that are not valid UTF-8 are reported as a failure, never as
/// contents.
pub proof fn lemma_invalid_text_is_failure(bytes: Seq<u8>)
    requires
        !valid_utf8(bytes),
    ensures
        read_outcome_of(Ok(bytes)) == Err::<Seq<char>, Seq<char>>(
            failure_text(invalid_text_reason()),
        ),
{
}

/// Whatever a read gave, a failure that is reported starts with the opening
/// words.
pub proof fn lemma_failure_starts_with_prefix(read: Result<Seq<u8>, Seq<char>>)
    ensures
        read_outcome_of(read) matches Err(message) ==> failure_prefix().is_prefix_of(message),
{
    match read {
        Ok(bytes) => lemma_failure_text_parts(invalid_text_reason()),
        Err(reason) => lemma_failure_text_parts(reason),
    }
}

/// Reading twice what has not changed reports the same outcome twice: the
/// outcome depends on nothing but the bytes or the error description that
/// the read gave.
pub proof fn lemma_same_read_same_outcome(
    first: Result<Vec<u8>, String>,
    second: Result<Vec<u8>, String>,
)
    requires
        read_view(first) == read_view(second),
    ensures
        read_outcome_of(read_view(first)) == read_outcome_of(read_view(second)),
{
}

} // verus!
