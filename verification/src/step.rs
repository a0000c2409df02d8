//! The protocol between a builder and the program that drives it: the builder asks
//! for one action at a time and is told how that action ended.

use vstd::prelude::*;
use vstd::string::*;

use crate::error::{BuildError, BuildErrorView};
use crate::fetch::{
    DownloadTask, DownloadTaskView, FetchOutcome, FetchOutcomeView, FetchPolicy, UnpackOutcome,
    UnpackOutcomeView,
};
use crate::llvm_path::{WorkingDirectory, WorkingDirectoryView};
use crate::process::{Invocation, InvocationView, ProcessOutcome, ProcessOutcomeView};
use crate::utils::{XcodeProbe, XcodeProbeView};

verus! {

/// What a builder asks its driver to do next.
#[derive(Debug, Clone, PartialEq, Eq)]
pub enum Action {
    /// Start the command directly and wait for its exit status.
    Spawn { invocation: Invocation },
    /// Hand the command to the process runner under `description`.
    Run { invocation: Invocation, description: String },
    /// Determine the current working directory.
    WorkingDirectory,
    /// Query the version of the installed command-line tools.
    ProbeXcode,
    /// Create the directory and its missing parents.
    CreateDirectory { path: String },
    /// Copy the directory `from` into `to`, overwriting what is there; with
    /// `content_only` what `from` holds is copied, not `from` itself.
    CopyDirectory { from: String, to: String, content_only: bool },
    /// Fetch the URL into the directory, trying as hard as `policy` says.
    Download { task: DownloadTask, policy: FetchPolicy },
    /// Extract the gzip-compressed tar `archive` into `directory`.
    Unpack { archive: String, directory: String },
    /// Nothing is left to do: the build succeeded.
    Done,
    /// Nothing more is done: the build failed.
    Fail { error: BuildError },
}

/// An [`Action`] over sequences.
pub enum ActionView {
    Spawn { invocation: InvocationView },
    Run { invocation: InvocationView, description: Seq<char> },
    WorkingDirectory,
    ProbeXcode,
    CreateDirectory { path: Seq<char> },
    CopyDirectory { from: Seq<char>, to: Seq<char>, content_only: bool },
    Download { task: DownloadTaskView, policy: FetchPolicy },
    Unpack { archive: Seq<char>, directory: Seq<char> },
    Done,
    Fail { error: BuildErrorView },
}

impl View for Action {
    type V = ActionView;

    open spec fn view(&self) -> ActionView {
        match self {
            Action::Spawn { invocation } => ActionView::Spawn { invocation: invocation@ },
            Action::Run { invocation, description } => ActionView::Run {
                invocation: invocation@,
                description: description@,
            },
            Action::WorkingDirectory => ActionView::WorkingDirectory,
            Action::ProbeXcode => ActionView::ProbeXcode,
            Action::CreateDirectory { path } => ActionView::CreateDirectory { path: path@ },
            Action::CopyDirectory { from, to, content_only } => ActionView::CopyDirectory {
                from: from@,
                to: to@,
                content_only: *content_only,
            },
            Action::Download { task, policy } => ActionView::Download {
                task: task@,
                policy: *policy,
            },
            Action::Unpack { archive, directory } => ActionView::Unpack {
                archive: archive@,
                directory: directory@,
            },
            Action::Done => ActionView::Done,
            Action::Fail { error } => ActionView::Fail { error: error@ },
        }
    }
}

/// How a file-system operation ended.
#[derive(Debug, Clone, PartialEq, Eq)]
pub enum FileOutcome {
    Completed,
    Failed { reason: String },
}

/// A [`FileOutcome`] with its text as a character sequence.
pub enum FileOutcomeView {
    Completed,
    Failed { reason: Seq<char> },
}

impl View for FileOutcome {
    type V = FileOutcomeView;

    open spec fn view(&self) -> FileOutcomeView {
        match self {
            FileOutcome::Completed => FileOutcomeView::Completed,
            FileOutcome::Failed { reason } => FileOutcomeView::Failed { reason: reason@ },
        }
    }
}

/// How the action that a builder asked for ended.
#[derive(Debug, Clone, PartialEq, Eq)]
#[allow(inconsistent_fields)]
pub enum Reply {
    /// Answers [`Action::Spawn`].
    Process { outcome: ProcessOutcome },
    /// Answers [`Action::Run`]; `outcome` is `None` where the runner did not execute.
    Command { outcome: Option<ProcessOutcome> },
    /// Answers [`Action::WorkingDirectory`].
    WorkingDirectory { directory: WorkingDirectory },
    /// Answers [`Action::ProbeXcode`].
    Xcode { probe: XcodeProbe },
    /// Answers [`Action::CreateDirectory`] and [`Action::CopyDirectory`].
    Files { outcome: FileOutcome },
    /// Answers [`Action::Download`].
    Transfer { outcome: FetchOutcome },
    /// Answers [`Action::Unpack`].
    Archive { outcome: UnpackOutcome },
}

/// A [`Reply`] over sequences.
#[allow(inconsistent_fields)]
pub enum ReplyView {
    Process { outcome: ProcessOutcomeView },
    Command { outcome: Option<ProcessOutcomeView> },
    WorkingDirectory { directory: WorkingDirectoryView },
    Xcode { probe: XcodeProbeView },
    Files { outcome: FileOutcomeView },
    Transfer { outcome: FetchOutcomeView },
    Archive { outcome: UnpackOutcomeView },
}

impl View for Reply {
    type V = ReplyView;

    open spec fn view(&self) -> ReplyView {
        match self {
            Reply::Process { outcome } => ReplyView::Process { outcome: outcome@ },
            Reply::Command { outcome } => ReplyView::Command { outcome: outcome.deep_view() },
            Reply::WorkingDirectory { directory } => ReplyView::WorkingDirectory {
                directory: directory@,
            },
            Reply::Xcode { probe } => ReplyView::Xcode { probe: probe@ },
            Reply::Files { outcome } => ReplyView::Files { outcome: outcome@ },
            Reply::Transfer { outcome } => ReplyView::Transfer { outcome: outcome@ },
            Reply::Archive { outcome } => ReplyView::Archive { outcome: outcome@ },
        }
    }
}

impl DeepView for Reply {
    type V = ReplyView;

    open spec fn deep_view(&self) -> ReplyView {
        self@
    }
}

/// The verdict on a file-system operation.
pub open spec fn files_verdict(outcome: FileOutcomeView) -> Result<(), BuildErrorView> {
    match outcome {
        FileOutcomeView::Completed => Ok(()),
        FileOutcomeView::Failed { reason } => Err(BuildErrorView::Io { reason }),
    }
}

/// Turns the end of a file-system operation into success or an I/O failure.
pub fn files_result(outcome: FileOutcome) -> (result: Result<(), BuildError>)
    ensures
        crate::error::unit_result(result) == files_verdict(outcome@),
{
    match outcome {
        FileOutcome::Completed => Ok(()),
        FileOutcome::Failed { reason } => Err(BuildError::Io { reason }),
    }
}

} // verus!
