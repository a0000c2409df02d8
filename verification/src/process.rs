//! External commands as data: what to run, in which mode, and how it ended.

use vstd::prelude::*;
use vstd::string::*;

verus! {

/// One external command: the program, its arguments in order, and the directory it
/// is started in (`None`: the caller's own).
#[derive(Debug, Clone, PartialEq, Eq)]
pub struct Invocation {
    pub program: String,
    pub arguments: Vec<String>,
    pub directory: Option<String>,
}

/// An [`Invocation`] with its texts as character sequences.
pub struct InvocationView {
    pub program: Seq<char>,
    pub arguments: Seq<Seq<char>>,
    pub directory: Option<Seq<char>>,
}

impl View for Invocation {
    type V = InvocationView;

    open spec fn view(&self) -> InvocationView {
        InvocationView {
            program: self.program@,
            arguments: self.arguments.deep_view(),
            directory: self.directory.deep_view(),
        }
    }
}

impl Invocation {
    /// A command without arguments, started in the caller's directory.
    pub fn new(program: &str) -> (invocation: Invocation)
        ensures
            invocation@ == (InvocationView {
                program: program@,
                arguments: Seq::empty(),
                directory: None,
            }),
    {
        let invocation = Invocation {
            program: String::from_str(program),
            arguments: Vec::new(),
            directory: None,
        };
        assert(invocation.arguments.deep_view() =~= Seq::empty());
        invocation
    }

    /// The same command, started in `directory`.
    pub fn current_dir(self, directory: &str) -> (invocation: Invocation)
        ensures
            invocation@ == (InvocationView { directory: Some(directory@), ..self@ }),
    {
        Invocation {
            program: self.program,
            arguments: self.arguments,
            directory: Some(String::from_str(directory)),
        }
    }

    /// The same command with `argument` added after the arguments it has.
    pub fn arg(self, argument: &str) -> (invocation: Invocation)
        ensures
            invocation@ == (InvocationView {
                arguments: self@.arguments.push(argument@),
                ..self@
            }),
    {
        let mut arguments = self.arguments;
        let ghost before = arguments.deep_view();
        arguments.push(String::from_str(argument));
        assert(arguments.deep_view() =~= before.push(argument@));
        Invocation { program: self.program, arguments, directory: self.directory }
    }

    /// The same command with every item of `more` added, in order, after the
    /// arguments it has.
    pub fn args(self, more: Vec<String>) -> (invocation: Invocation)
        ensures
            invocation@ == (InvocationView {
                arguments: self@.arguments + more.deep_view(),
                ..self@
            }),
    {
        let mut arguments = self.arguments;
        let ghost before = arguments.deep_view();
        let mut more = more;
        let ghost added = more.deep_view();
        arguments.append(&mut more);
        assert(arguments.deep_view() =~= before + added);
        Invocation { program: self.program, arguments, directory: self.directory }
    }
}

/// The two switches that the operator sets for a whole run.
#[derive(Debug, Clone, Copy, PartialEq, Eq)]
pub struct RunMode {
    /// Announce every command before it runs.
    pub verbose: bool,
    /// Run nothing; only show what would run.
    pub dry_run: bool,
}

/// What the runner does with one command.
#[derive(Debug, Clone, Copy, PartialEq, Eq)]
pub struct RunPlan {
    /// Print the description and the command first.
    pub announce: bool,
    /// Start the subprocess and wait for it.
    pub execute: bool,
}

/// How an attempt to run a subprocess ended.
#[derive(Debug, Clone, PartialEq, Eq)]
pub enum ProcessOutcome {
    /// The executable could not be started.
    SpawnFailed { reason: String },
    /// The process ran to its end; `success` tells whether its exit status was zero.
    Exited { success: bool },
}

/// A [`ProcessOutcome`] with its text as a character sequence.
pub enum ProcessOutcomeView {
    SpawnFailed { reason: Seq<char> },
    Exited { success: bool },
}

impl View for ProcessOutcome {
    type V = ProcessOutcomeView;

    open spec fn view(&self) -> ProcessOutcomeView {
        match self {
            ProcessOutcome::SpawnFailed { reason } => ProcessOutcomeView::SpawnFailed {
                reason: reason@,
            },
            ProcessOutcome::Exited { success } => ProcessOutcomeView::Exited { success: *success },
        }
    }
}

impl DeepView for ProcessOutcome {
    type V = ProcessOutcomeView;

    open spec fn deep_view(&self) -> ProcessOutcomeView {
        self@
    }
}

} // verus!
