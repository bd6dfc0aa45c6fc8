//! The two kinds of script, and how a script becomes an interpreter call.
//!
//! AppleScript is handed to the interpreter as it is.  JavaScript is wrapped
//! first: the wrapped program binds the parameters, as JSON, to the variable
//! `$params`, runs the code as the body of a function, and prints what the
//! function returns as JSON, so that the output of a run is one JSON
//! document.

use vstd::prelude::*;

use crate::error::{result_view, ScriptError, ScriptErrorView};
use crate::invocation::{Dialect, Invocation, InvocationView};
use crate::json::{json_text, write_json};

verus! {

/// The program that is run for a piece of JavaScript and its parameters, the
/// parameters given as JSON text.
///
/// Code that returns nothing of its own makes the function return `null`.
pub open spec fn wrapped_source(code: Seq<char>, params: Seq<char>) -> Seq<char> {
    "var $params = "@ + params + ";JSON.stringify((function() {"@ + code
        + ";return null;})());"@
}

/// The program that is run for a piece of JavaScript, given what became of
/// writing its parameters as JSON: a failure to write them is the failure to
/// wrap.
pub open spec fn wrapped_serialized(
    code: Seq<char>,
    params: Result<Seq<char>, serde_json::Error>,
) -> Result<Seq<char>, ScriptErrorView> {
    match params {
        Ok(text) => Ok(wrapped_source(code, text)),
        Err(error) => Err(ScriptErrorView::Json(error)),
    }
}

/// The program that is run for a piece of JavaScript and its parameters.
pub open spec fn wrapped_code(code: Seq<char>, params: serde_json::Value) -> Result<
    Seq<char>,
    ScriptErrorView,
> {
    wrapped_serialized(code, json_text(params))
}

/// The interpreter call that evaluates a wrapped JavaScript program, if
/// there is one.
pub open spec fn javascript_call(source: Result<Seq<char>, ScriptErrorView>) -> Result<
    InvocationView,
    ScriptErrorView,
> {
    match source {
        Ok(source) => Ok(InvocationView { dialect: Dialect::JavaScript, source }),
        Err(error) => Err(error),
    }
}

/// The interpreter call for a piece of JavaScript that is run without
/// parameters: `$params` is the empty object.
pub open spec fn plain_javascript_call(code: Seq<char>) -> InvocationView {
    InvocationView { dialect: Dialect::JavaScript, source: wrapped_source(code, "{}"@) }
}

/// The interpreter call for a piece of AppleScript: the code goes out
/// unchanged.
pub open spec fn applescript_call(code: Seq<char>) -> InvocationView {
    InvocationView { dialect: Dialect::AppleScript, source: code }
}

/// Serialized parameters as a specification sees them.
pub open spec fn serialized_view(params: Result<String, serde_json::Error>) -> Result<
    Seq<char>,
    serde_json::Error,
> {
    match params {
        Ok(text) => Ok(text@),
        Err(error) => Err(error),
    }
}

/// Wraps JavaScript code around parameters that are already JSON text.
pub fn wrap_source(code: &str, params: &str) -> (source: String)
    ensures
        source@ == wrapped_source(code@, params@),
{
    let mut source = String::from_str("var $params = ");
    source.append(params);
    source.append(";JSON.stringify((function() {");
    source.append(code);
    source.append(";return null;})());");
    source
}

/// Wraps JavaScript code around what became of writing its parameters as
/// JSON.
///
/// Where they were written, the code is wrapped around the text. Where they
/// were not, the error of the serializer comes back as a JSON error, and
/// there is nothing to run.
pub fn wrap_serialized(code: &str, params: Result<String, serde_json::Error>) -> (wrapped: Result<
    String,
    ScriptError,
>)
    ensures
        result_view(wrapped) == wrapped_serialized(code@, serialized_view(params)),
{
    match params {
        Ok(text) => Ok(wrap_source(code, text.as_str())),
        Err(error) => Err(ScriptError::from(error)),
    }
}

/// Writes the parameters as JSON and wraps the code around them.
///
/// Fails, with the error of the serializer, exactly when the parameters
/// cannot be written as JSON.
pub fn wrap_code(code: &str, params: &serde_json::Value) -> (wrapped: Result<String, ScriptError>)
    ensures
        result_view(wrapped) == wrapped_code(code@, *params),
{
    wrap_serialized(code, write_json(params))
}

/// A fragment of JavaScript for Automation.
#[derive(Debug)]
pub struct JavaScript {
    code: String,
}

impl View for JavaScript {
    type V = Seq<char>;

    /// The code the script was made from.
    closed spec fn view(&self) -> Seq<char> {
        self.code@
    }
}

impl JavaScript {
    /// Creates a new script from the given code, which is kept as it is.
    pub fn new(code: &str) -> (script: JavaScript)
        ensures
            script@ == code@,
    {
        JavaScript { code: code.to_owned() }
    }

    /// The interpreter call that runs the script without parameters:
    /// `$params` is the empty object.
    pub fn invocation(&self) -> (call: Invocation)
        ensures
            call@ == plain_javascript_call(self@),
    {
        Invocation { dialect: Dialect::JavaScript, source: wrap_source(self.code.as_str(), "{}") }
    }

    /// The interpreter call that runs the script with the given parameters.
    ///
    /// Fails, with the error of the serializer and without a call to make,
    /// exactly when the parameters cannot be written as JSON.
    pub fn invocation_with_params(&self, params: &serde_json::Value) -> (call: Result<
        Invocation,
        ScriptError,
    >)
        ensures
            result_view(call) == javascript_call(wrapped_code(self@, *params)),
    {
        self.invocation_with_serialized(write_json(params))
    }

    /// The interpreter call that runs the script with parameters of any
    /// kind, given what became of writing them as JSON.
    ///
    /// Where they were not written, the error of the serializer comes back
    /// as a JSON error, and there is no call to make.
    pub fn invocation_with_serialized(&self, params: Result<String, serde_json::Error>) -> (call:
        Result<Invocation, ScriptError>)
        ensures
            result_view(call) == javascript_call(
                wrapped_serialized(self@, serialized_view(params)),
            ),
    {
        match wrap_serialized(self.code.as_str(), params) {
            Ok(source) => Ok(Invocation { dialect: Dialect::JavaScript, source }),
            Err(error) => Err(error),
        }
    }
}

/// A fragment of AppleScript.
#[derive(Debug)]
pub struct AppleScript {
    code: String,
}

impl View for AppleScript {
    type V = Seq<char>;

    /// The code the script was made from.
    closed spec fn view(&self) -> Seq<char> {
        self.code@
    }
}

impl AppleScript {
    /// Creates a new script from the given code, which is kept as it is.
    pub fn new(code: &str) -> (script: AppleScript)
        ensures
            script@ == code@,
    {
        AppleScript { code: code.to_owned() }
    }

    /// The interpreter call that runs the script. AppleScript takes no
    /// parameters, and the code is not wrapped.
    pub fn invocation(&self) -> (call: Invocation)
        ensures
            call@ == applescript_call(self@),
    {
        Invocation { dialect: Dialect::AppleScript, source: self.code.clone() }
    }
}

/// Running a script without parameters is running it with parameters that
/// are written as the empty object: both lead to the same interpreter call,
/// in which `$params` is bound to `{}`.
pub proof fn lemma_no_params_is_empty_object(code: Seq<char>, params: serde_json::Value)
    requires
        json_text(params) == Ok::<Seq<char>, serde_json::Error>("{}"@),
    ensures
        javascript_call(wrapped_code(code, params)) == Ok::<InvocationView, ScriptErrorView>(
            plain_javascript_call(code),
        ),
{
}

/// Parameters that cannot be written as JSON lead to a JSON error with the
/// error of the serializer, and to no interpreter call.
pub proof fn lemma_unwritable_params_make_no_call(code: Seq<char>, params: serde_json::Value)
    requires
        json_text(params) is Err,
    ensures
        javascript_call(wrapped_code(code, params)) == Err::<InvocationView, ScriptErrorView>(
            ScriptErrorView::Json(json_text(params)->Err_0),
        ),
{
}

} // verus!
