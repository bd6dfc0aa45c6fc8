//! What a run of the interpreter left behind, and what it means.
//!
//! A run that ended well has its result on standard output; a run that ended
//! badly has its complaint on standard error, and that complaint is the
//! message of the script error, word for word.  A stream that has to be read
//! and is not UTF-8 is a script error too: it is the script that wrote it.
//! Output that is UTF-8 but not JSON is a JSON error.

use vstd::prelude::*;
use vstd::utf8::{decode_utf8, decode_utf8_encode_utf8, encode_utf8, valid_utf8};

use crate::error::{error_view, result_view, utf8_error_message, ScriptError, ScriptErrorView};
use crate::json::{json_value, read_json};
use crate::text::{text_of_bytes, utf8_failure};

verus! {

/// The captured streams of one run of the interpreter, and whether the run
/// ended with exit status zero.
#[derive(Debug)]
pub struct Outcome {
    pub success: bool,
    pub stdout: Vec<u8>,
    pub stderr: Vec<u8>,
}

/// What an [`Outcome`] is to a specification.
pub struct OutcomeView {
    pub success: bool,
    pub stdout: Seq<u8>,
    pub stderr: Seq<u8>,
}

impl View for Outcome {
    type V = OutcomeView;

    open spec fn view(&self) -> OutcomeView {
        OutcomeView { success: self.success, stdout: self.stdout@, stderr: self.stderr@ }
    }
}

/// The text a stream holds, or the script error for a stream that is not
/// UTF-8.
pub open spec fn stream_text(bytes: Seq<u8>) -> Result<Seq<char>, ScriptErrorView> {
    if valid_utf8(bytes) {
        Ok(decode_utf8(bytes))
    } else {
        Err(ScriptErrorView::Script(utf8_error_message(utf8_failure(bytes))))
    }
}

/// What reading the output as JSON amounts to: the value that was read, or a
/// JSON error with the error of the parser.
pub open spec fn parsed_view<T>(read: Result<T, serde_json::Error>) -> Result<T, ScriptErrorView> {
    match read {
        Ok(value) => Ok(value),
        Err(error) => Err(ScriptErrorView::Json(error)),
    }
}

impl OutcomeView {
    /// The text the script printed, if the run ended well; if not, the script
    /// error that carries what the interpreter wrote to standard error.
    pub open spec fn text(self) -> Result<Seq<char>, ScriptErrorView> {
        if self.success {
            stream_text(self.stdout)
        } else {
            match stream_text(self.stderr) {
                Ok(complaint) => Err(ScriptErrorView::Script(complaint)),
                Err(error) => Err(error),
            }
        }
    }

    /// The JSON value the script printed, or the error the run amounts to.
    pub open spec fn value(self) -> Result<serde_json::Value, ScriptErrorView> {
        match self.text() {
            Ok(text) => parsed_view(json_value(text)),
            Err(error) => Err(error),
        }
    }
}

/// Reads a captured stream as UTF-8 text.
fn read_stream(bytes: Vec<u8>) -> (text: Result<String, ScriptError>)
    ensures
        result_view(text) == stream_text(bytes@),
{
    match text_of_bytes(bytes) {
        Ok(text) => Ok(text),
        Err(failure) => Err(ScriptError::from(failure)),
    }
}

/// Turns what a JSON parser made of the output of a run into the result of
/// the run: a failure to parse is a JSON error.
pub fn parsed<T>(read: Result<T, serde_json::Error>) -> (result: Result<T, ScriptError>)
    ensures
        error_view(result) == parsed_view(read),
{
    match read {
        Ok(value) => Ok(value),
        Err(error) => Err(ScriptError::from(error)),
    }
}

impl Outcome {
    /// The text the script printed, if the run ended well and the output is
    /// UTF-8. Every other run is a script error: with what the interpreter
    /// wrote to standard error as its message, or with a message that says
    /// that the stream to read was not UTF-8.
    pub fn text(self) -> (text: Result<String, ScriptError>)
        ensures
            result_view(text) == self@.text(),
    {
        if self.success {
            read_stream(self.stdout)
        } else {
            match read_stream(self.stderr) {
                Ok(complaint) => Err(ScriptError::Script(complaint)),
                Err(error) => Err(error),
            }
        }
    }

    /// The JSON value the script printed, if the run ended well and the
    /// output is a JSON document. Output that is not JSON is a JSON error,
    /// with the error of the parser; every other run is a script error, as
    /// for [`Outcome::text`].
    pub fn decode(self) -> (value: Result<serde_json::Value, ScriptError>)
        ensures
            error_view(value) == self@.value(),
    {
        match self.text() {
            Ok(text) => parsed(read_json(text.as_str())),
            Err(error) => Err(error),
        }
    }
}

/// A run that did not end well is a script error, and its message is what
/// the interpreter wrote to standard error, byte for byte: it is empty only
/// if the interpreter wrote nothing.
pub proof fn lemma_failed_run_is_script_error(outcome: OutcomeView)
    requires
        !outcome.success,
        valid_utf8(outcome.stderr),
    ensures
        outcome.text() == Err::<Seq<char>, ScriptErrorView>(
            ScriptErrorView::Script(decode_utf8(outcome.stderr)),
        ),
        outcome.value() == Err::<serde_json::Value, ScriptErrorView>(
            ScriptErrorView::Script(decode_utf8(outcome.stderr)),
        ),
        encode_utf8(decode_utf8(outcome.stderr)) == outcome.stderr,
        outcome.stderr.len() > 0 ==> decode_utf8(outcome.stderr).len() > 0,
{
    decode_utf8_encode_utf8(outcome.stderr);
}

} // verus!
