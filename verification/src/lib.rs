//! Building blocks for running JavaScript for Automation and AppleScript
//! snippets through the `osascript` interpreter.
//!
//! The crate does not start processes itself.  A script value describes the
//! interpreter call to make as an [`Invocation`]; whatever ran the call hands
//! the captured streams back as an [`Outcome`], which is then read as text or
//! decoded into a JSON value, or turns out to be a [`ScriptError`].

pub mod error;
pub mod invocation;
pub mod json;
pub mod outcome;
pub mod script;
pub mod text;

pub use crate::error::ScriptError;
pub use crate::invocation::{Dialect, Invocation};
pub use crate::outcome::{parsed, Outcome};
pub use crate::script::{wrap_code, wrap_serialized, wrap_source, AppleScript, JavaScript};
