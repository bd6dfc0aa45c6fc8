//! Turning captured bytes into text.

use vstd::prelude::*;
use vstd::utf8::{decode_utf8, valid_utf8};

verus! {

/// `std::string::FromUtf8Error`, the reason bytes were not accepted as UTF-8.
/// Opaque to the verifier.
#[verifier::external_type_specification]
#[verifier::external_body]
pub struct ExFromUtf8Error(std::string::FromUtf8Error);

/// The error `String::from_utf8` returns for bytes that are not UTF-8.
pub uninterp spec fn utf8_failure(bytes: Seq<u8>) -> std::string::FromUtf8Error;

/// What a `FromUtf8Error` prints as.
pub uninterp spec fn utf8_failure_text(failure: std::string::FromUtf8Error) -> Seq<char>;

/// Calls `String::from_utf8`.
///
/// Assumed, not proved: the call succeeds exactly on well-formed UTF-8 and
/// then yields the characters the bytes encode; otherwise the error depends on
/// the bytes alone, so that it can be called [`utf8_failure`] of the bytes.
#[verifier::external_body]
pub(crate) fn text_of_bytes(bytes: Vec<u8>) -> (text: Result<String, std::string::FromUtf8Error>)
    ensures
        match text {
            Ok(string) => valid_utf8(bytes@) && string@ == decode_utf8(bytes@),
            Err(failure) => !valid_utf8(bytes@) && failure == utf8_failure(bytes@),
        },
{
    String::from_utf8(bytes)
}

/// Formats a `FromUtf8Error` with its `Display` impl.
///
/// Assumed, not proved: the text depends on the error alone, so that it can
/// be called [`utf8_failure_text`] of the error.
#[verifier::external_body]
pub(crate) fn describe_utf8_failure(failure: &std::string::FromUtf8Error) -> (text: String)
    ensures
        text@ == utf8_failure_text(*failure),
{
    format!("{}", failure)
}

} // verus!
