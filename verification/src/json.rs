//! JSON text and JSON values.
//!
//! Values are `serde_json::Value`s, and `serde_json` does all the writing and
//! reading of JSON text.  Nothing here is proved about how it does so: the two
//! conversions are given names, [`json_text`] and [`json_value`], and the rest
//! of the crate is specified in terms of them.

use vstd::prelude::*;

verus! {

/// `serde_json::Value`, any JSON value. Opaque to the verifier.
#[verifier::external_type_specification]
#[verifier::external_body]
pub struct ExJsonValue(serde_json::Value);

/// `serde_json::Error`, the reason a conversion failed. Opaque to the verifier.
#[verifier::external_type_specification]
#[verifier::external_body]
pub struct ExJsonError(serde_json::Error);

/// What `serde_json::to_string` makes of a value: its compact JSON text, or
/// the error the serializer stopped with.
pub uninterp spec fn json_text(value: serde_json::Value) -> Result<Seq<char>, serde_json::Error>;

/// What `serde_json::from_str` makes of a text when asked for a
/// `serde_json::Value`: the value the text denotes, or the error the parser
/// stopped with.
pub uninterp spec fn json_value(text: Seq<char>) -> Result<serde_json::Value, serde_json::Error>;

/// Calls `serde_json::to_string` on a `serde_json::Value`.
///
/// Assumed, not proved: the outcome depends on the value alone, so that it
/// can be called [`json_text`] of the value.
#[verifier::external_body]
pub(crate) fn write_json(value: &serde_json::Value) -> (written: Result<
    String,
    serde_json::Error,
>)
    ensures
        match written {
            Ok(text) => json_text(*value) == Ok::<Seq<char>, serde_json::Error>(text@),
            Err(error) => json_text(*value) == Err::<Seq<char>, serde_json::Error>(error),
        },
{
    serde_json::to_string(value)
}

/// Calls `serde_json::from_str` for a `serde_json::Value`.
///
/// Assumed, not proved: the outcome depends on the text alone, so that it can
/// be called [`json_value`] of the text.
#[verifier::external_body]
pub(crate) fn read_json(text: &str) -> (read: Result<serde_json::Value, serde_json::Error>)
    ensures
        read == json_value(text@),
{
    serde_json::from_str(text)
}

} // verus!
