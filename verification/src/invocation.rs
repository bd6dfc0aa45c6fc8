//! The interpreter call a script stands for.

use vstd::prelude::*;

verus! {

/// The two languages the interpreter is asked to run.
#[derive(Clone, Copy, Debug, PartialEq, Eq, Structural)]
pub enum Dialect {
    /// JavaScript for Automation.
    JavaScript,
    /// AppleScript.
    AppleScript,
}

impl Dialect {
    /// The name by which the interpreter knows the language.
    pub open spec fn name_spec(self) -> Seq<char> {
        match self {
            Dialect::JavaScript => "JavaScript"@,
            Dialect::AppleScript => "AppleScript"@,
        }
    }

    /// The name by which the interpreter knows the language.
    pub fn name(self) -> (name: &'static str)
        ensures
            name@ == self.name_spec(),
    {
        match self {
            Dialect::JavaScript => "JavaScript",
            Dialect::AppleScript => "AppleScript",
        }
    }
}

/// One call of the interpreter: a language, and the source text that is
/// handed over on the command line for the interpreter to evaluate.
#[derive(Debug)]
pub struct Invocation {
    pub dialect: Dialect,
    pub source: String,
}

/// What an [`Invocation`] is to a specification.
pub struct InvocationView {
    pub dialect: Dialect,
    pub source: Seq<char>,
}

impl InvocationView {
    /// The program to start.
    pub open spec fn program(self) -> Seq<char> {
        "osascript"@
    }

    /// The arguments to start it with: the language is selected with `-l`,
    /// the source text is passed inline with `-e`.
    pub open spec fn arguments(self) -> Seq<Seq<char>> {
        seq!["-l"@, self.dialect.name_spec(), "-e"@, self.source]
    }
}

impl View for Invocation {
    type V = InvocationView;

    open spec fn view(&self) -> InvocationView {
        InvocationView { dialect: self.dialect, source: self.source@ }
    }
}

impl Invocation {
    /// The program to start.
    pub fn program(&self) -> (program: &'static str)
        ensures
            program@ == self@.program(),
    {
        "osascript"
    }

    /// The arguments to start the program with, in order.
    pub fn arguments(&self) -> (arguments: Vec<&str>)
        ensures
            arguments.deep_view() == self@.arguments(),
    {
        let mut arguments: Vec<&str> = Vec::new();
        arguments.push("-l");
        arguments.push(self.dialect.name());
        arguments.push("-e");
        arguments.push(self.source.as_str());
        assert(arguments.deep_view() =~= self@.arguments());
        arguments
    }
}

} // verus!
