//! The one error type of the crate, and how lower-level failures turn into it.

use vstd::prelude::*;
use vstd::std_specs::convert::FromSpecImpl;

use crate::text::{describe_utf8_failure, utf8_failure_text};

verus! {

/// `std::io::Error`, the reason the interpreter could not be run. Opaque to
/// the verifier.
#[verifier::external_type_specification]
#[verifier::external_body]
pub struct ExIoError(std::io::Error);

/// The error from the script system.
#[derive(Debug)]
pub enum ScriptError {
    /// The interpreter could not be started, or its streams could not be
    /// read.
    Io(std::io::Error),
    /// Parameters could not be written as JSON, or the output could not be
    /// read as JSON.
    Json(serde_json::Error),
    /// The script itself failed. The message is what the interpreter wrote to
    /// its standard error, or says that a stream was not UTF-8.
    Script(String),
}

/// What a [`ScriptError`] is to a specification: the same three cases, with the
/// message of a script error as a sequence of characters.
pub enum ScriptErrorView {
    Io(std::io::Error),
    Json(serde_json::Error),
    Script(Seq<char>),
}

impl View for ScriptError {
    type V = ScriptErrorView;

    open spec fn view(&self) -> ScriptErrorView {
        match self {
            ScriptError::Io(error) => ScriptErrorView::Io(*error),
            ScriptError::Json(error) => ScriptErrorView::Json(*error),
            ScriptError::Script(message) => ScriptErrorView::Script(message@),
        }
    }
}

/// A result as a specification sees it: the value and the error by their
/// views.
pub open spec fn result_view<T: View, E: View>(result: Result<T, E>) -> Result<T::V, E::V> {
    match result {
        Ok(value) => Ok(value@),
        Err(error) => Err(error@),
    }
}

/// A result as a specification sees it, where only the error has a view.
pub open spec fn error_view<T>(result: Result<T, ScriptError>) -> Result<T, ScriptErrorView> {
    match result {
        Ok(value) => Ok(value),
        Err(error) => Err(error@),
    }
}

/// The message of the script error that stands for a stream that was not
/// UTF-8.
pub open spec fn utf8_error_message(failure: std::string::FromUtf8Error) -> Seq<char> {
    "UTF-8 Error: "@ + utf8_failure_text(failure)
}

impl From<std::io::Error> for ScriptError {
    fn from(err: std::io::Error) -> (error: ScriptError) {
        ScriptError::Io(err)
    }
}

impl FromSpecImpl<std::io::Error> for ScriptError {
    open spec fn obeys_from_spec() -> bool {
        true
    }

    open spec fn from_spec(err: std::io::Error) -> ScriptError {
        ScriptError::Io(err)
    }
}

impl From<serde_json::Error> for ScriptError {
    fn from(err: serde_json::Error) -> (error: ScriptError) {
        ScriptError::Json(err)
    }
}

impl FromSpecImpl<serde_json::Error> for ScriptError {
    open spec fn obeys_from_spec() -> bool {
        true
    }

    open spec fn from_spec(err: serde_json::Error) -> ScriptError {
        ScriptError::Json(err)
    }
}

impl From<std::string::FromUtf8Error> for ScriptError {
    fn from(err: std::string::FromUtf8Error) -> (error: ScriptError)
        ensures
            error@ == ScriptErrorView::Script(utf8_error_message(err)),
    {
        let mut message = String::from_str("UTF-8 Error: ");
        let detail = describe_utf8_failure(&err);
        message.append(detail.as_str());
        ScriptError::Script(message)
    }
}

/// A specification cannot write down a `String`, so this conversion is
/// specified on `from` itself, through the view of what it returns.
impl FromSpecImpl<std::string::FromUtf8Error> for ScriptError {
    open spec fn obeys_from_spec() -> bool {
        false
    }

    open spec fn from_spec(err: std::string::FromUtf8Error) -> ScriptError {
        arbitrary()
    }
}

impl ScriptErrorView {
    /// What the text of an error starts with: it tells the three cases apart.
    pub open spec fn label(self) -> Seq<char> {
        match self {
            ScriptErrorView::Io(_) => "script io error: "@,
            ScriptErrorView::Json(_) => "script json error: "@,
            ScriptErrorView::Script(_) => "script error: "@,
        }
    }
}

/// Formats a `std::io::Error` with its `Display` impl. Nothing is assumed of
/// the text: for an error of the operating system it depends on the machine.
#[verifier::external_body]
fn describe_io_error(error: &std::io::Error) -> String {
    format!("{}", error)
}

/// Formats a `serde_json::Error` with its `Display` impl. Nothing is assumed
/// of the text.
#[verifier::external_body]
fn describe_json_error(error: &serde_json::Error) -> String {
    format!("{}", error)
}

/// Calls `std::error::Error::description` on a `std::io::Error`. Nothing is
/// assumed of the text.
#[verifier::external_body]
#[allow(deprecated)]
fn io_error_description(error: &std::io::Error) -> &str {
    std::error::Error::description(error)
}

/// Calls `std::error::Error::description` on a `serde_json::Error`. Nothing
/// is assumed of the text.
#[verifier::external_body]
#[allow(deprecated)]
fn json_error_description(error: &serde_json::Error) -> &str {
    std::error::Error::description(error)
}

/// A label followed by a detail.
fn labelled(label: &str, detail: &str) -> (text: String)
    ensures
        text@ == label@ + detail@,
        label@.is_prefix_of(text@),
{
    let mut text = String::from_str(label);
    text.append(detail);
    assert(text@.subrange(0, label@.len() as int) =~= label@);
    text
}

impl ScriptError {
    /// A short description of the error: that of the underlying error where
    /// there is one, `script error` for a failure of the script itself.
    pub fn description(&self) -> (text: &str)
        ensures
            self is Script ==> text@ == "script error"@,
    {
        match self {
            ScriptError::Io(err) => io_error_description(err),
            ScriptError::Json(err) => json_error_description(err),
            ScriptError::Script(_) => "script error",
        }
    }

    /// The error as a line of text: a label that names the case, then the
    /// underlying error as it prints itself, or the message of the script
    /// error as it is.
    pub fn to_string(&self) -> (text: String)
        ensures
            self@.label().is_prefix_of(text@),
            self@ matches ScriptErrorView::Script(message) ==> text@ == self@.label() + message,
    {
        match self {
            ScriptError::Io(err) => {
                let detail = describe_io_error(err);
                labelled("script io error: ", detail.as_str())
            },
            ScriptError::Json(err) => {
                let detail = describe_json_error(err);
                labelled("script json error: ", detail.as_str())
            },
            ScriptError::Script(message) => labelled("script error: ", message.as_str()),
        }
    }
}

} // verus!
