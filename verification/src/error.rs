//! The failures that a build can end with.

use vstd::prelude::*;
use vstd::string::*;

use crate::text::{decimal_text, push_decimal};

verus! {

/// Why a build stopped. Every failure is fatal: nothing is retried and nothing is
/// rolled back.
#[derive(Debug, Clone, PartialEq, Eq)]
pub enum BuildError {
    /// A required executable is not installed.
    MissingTool { tool_name: String },
    /// A subprocess could not be started at all.
    ProcessSpawn { description: String, reason: String },
    /// A subprocess started and exited with a non-zero status.
    ProcessExit { description: String },
    /// A transfer ended with a status other than 200 for `url`.
    FetchStatus { url: String, status: u16 },
    /// A transfer could not be set up or did not complete.
    FetchTransfer { reason: String },
    /// An archive could not be opened or extracted.
    Unpack { reason: String },
    /// A document or a probe's output does not have the expected form.
    Parse { reason: String },
    /// The file system refused an operation.
    Io { reason: String },
    /// The current working directory cannot be determined.
    PathResolution { reason: String },
    /// A path has no representation with forward slashes.
    PathConversion,
}

/// A [`BuildError`] with its texts as character sequences.
pub enum BuildErrorView {
    MissingTool { tool_name: Seq<char> },
    ProcessSpawn { description: Seq<char>, reason: Seq<char> },
    ProcessExit { description: Seq<char> },
    FetchStatus { url: Seq<char>, status: u16 },
    FetchTransfer { reason: Seq<char> },
    Unpack { reason: Seq<char> },
    Parse { reason: Seq<char> },
    Io { reason: Seq<char> },
    PathResolution { reason: Seq<char> },
    PathConversion,
}

impl View for BuildError {
    type V = BuildErrorView;

    open spec fn view(&self) -> BuildErrorView {
        match self {
            BuildError::MissingTool { tool_name } => BuildErrorView::MissingTool {
                tool_name: tool_name@,
            },
            BuildError::ProcessSpawn { description, reason } => BuildErrorView::ProcessSpawn {
                description: description@,
                reason: reason@,
            },
            BuildError::ProcessExit { description } => BuildErrorView::ProcessExit {
                description: description@,
            },
            BuildError::FetchStatus { url, status } => BuildErrorView::FetchStatus {
                url: url@,
                status: *status,
            },
            BuildError::FetchTransfer { reason } => BuildErrorView::FetchTransfer {
                reason: reason@,
            },
            BuildError::Unpack { reason } => BuildErrorView::Unpack { reason: reason@ },
            BuildError::Parse { reason } => BuildErrorView::Parse { reason: reason@ },
            BuildError::Io { reason } => BuildErrorView::Io { reason: reason@ },
            BuildError::PathResolution { reason } => BuildErrorView::PathResolution {
                reason: reason@,
            },
            BuildError::PathConversion => BuildErrorView::PathConversion,
        }
    }
}

impl BuildErrorView {
    /// The line shown to the operator for this failure.
    pub open spec fn message(self) -> Seq<char> {
        match self {
            BuildErrorView::MissingTool { tool_name } => "Tool `"@ + tool_name
                + "` is missing. Please install"@,
            BuildErrorView::ProcessSpawn { description, reason } => description + " process: "@
                + reason,
            BuildErrorView::ProcessExit { description } => description + " failed"@,
            BuildErrorView::FetchStatus { url, status } => url + " failed with HTTP code: "@
                + decimal_text(status as nat),
            BuildErrorView::FetchTransfer { reason } => reason,
            BuildErrorView::Unpack { reason } => reason,
            BuildErrorView::Parse { reason } => reason,
            BuildErrorView::Io { reason } => reason,
            BuildErrorView::PathResolution { reason } => reason,
            BuildErrorView::PathConversion => "Windows-to-Unix path conversion error"@,
        }
    }
}

impl DeepView for BuildError {
    type V = BuildErrorView;

    open spec fn deep_view(&self) -> BuildErrorView {
        self@
    }
}

/// A text result with both sides as character sequences.
pub open spec fn text_result(result: Result<String, BuildError>) -> Result<
    Seq<char>,
    BuildErrorView,
> {
    match result {
        Ok(text) => Ok(text@),
        Err(error) => Err(error@),
    }
}

/// A numeric result, its error by view.
pub open spec fn number_result(result: Result<u32, BuildError>) -> Result<u32, BuildErrorView> {
    match result {
        Ok(number) => Ok(number),
        Err(error) => Err(error@),
    }
}

/// A result without a value, its error by view.
pub open spec fn unit_result(result: Result<(), BuildError>) -> Result<(), BuildErrorView> {
    match result {
        Ok(_) => Ok(()),
        Err(error) => Err(error@),
    }
}

impl BuildError {
    /// The line shown to the operator for this failure.
    pub fn message(&self) -> (line: String)
        ensures
            line@ == self@.message(),
    {
        match self {
            BuildError::MissingTool { tool_name } => {
                let mut line = String::from_str("Tool `");
                line.append(tool_name.as_str());
                line.append("` is missing. Please install");
                line
            },
            BuildError::ProcessSpawn { description, reason } => {
                let mut line = description.clone();
                line.append(" process: ");
                line.append(reason.as_str());
                line
            },
            BuildError::ProcessExit { description } => {
                let mut line = description.clone();
                line.append(" failed");
                line
            },
            BuildError::FetchStatus { url, status } => {
                let mut line = url.clone();
                line.append(" failed with HTTP code: ");
                push_decimal(&mut line, *status as u64);
                line
            },
            BuildError::FetchTransfer { reason } => reason.clone(),
            BuildError::Unpack { reason } => reason.clone(),
            BuildError::Parse { reason } => reason.clone(),
            BuildError::Io { reason } => reason.clone(),
            BuildError::PathResolution { reason } => reason.clone(),
            BuildError::PathConversion => String::from_str("Windows-to-Unix path conversion error"),
        }
    }

    /// A second value with the same content.
    pub fn duplicate(&self) -> (copy: BuildError)
        ensures
            copy@ == self@,
    {
        match self {
            BuildError::MissingTool { tool_name } => BuildError::MissingTool {
                tool_name: tool_name.clone(),
            },
            BuildError::ProcessSpawn { description, reason } => BuildError::ProcessSpawn {
                description: description.clone(),
                reason: reason.clone(),
            },
            BuildError::ProcessExit { description } => BuildError::ProcessExit {
                description: description.clone(),
            },
            BuildError::FetchStatus { url, status } => BuildError::FetchStatus {
                url: url.clone(),
                status: *status,
            },
            BuildError::FetchTransfer { reason } => BuildError::FetchTransfer {
                reason: reason.clone(),
            },
            BuildError::Unpack { reason } => BuildError::Unpack { reason: reason.clone() },
            BuildError::Parse { reason } => BuildError::Parse { reason: reason.clone() },
            BuildError::Io { reason } => BuildError::Io { reason: reason.clone() },
            BuildError::PathResolution { reason } => BuildError::PathResolution {
                reason: reason.clone(),
            },
            BuildError::PathConversion => BuildError::PathConversion,
        }
    }
}

} // verus!
