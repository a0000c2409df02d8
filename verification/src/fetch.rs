//! What a transfer or an extraction reports back, as plain data.

use vstd::prelude::*;
use vstd::string::*;

verus! {

/// One fetch: a URL and the directory that the file is stored in.
#[derive(Debug, Clone, PartialEq, Eq)]
pub struct DownloadTask {
    pub url: String,
    pub destination_directory: String,
}

/// A [`DownloadTask`] with its texts as character sequences.
pub struct DownloadTaskView {
    pub url: Seq<char>,
    pub destination_directory: Seq<char>,
}

impl View for DownloadTask {
    type V = DownloadTaskView;

    open spec fn view(&self) -> DownloadTaskView {
        DownloadTaskView {
            url: self.url@,
            destination_directory: self.destination_directory@,
        }
    }
}

/// How hard the transport tries: the number of attempts per transfer, the number
/// of requests in flight at once, and the time allowed for one transfer.
#[derive(Debug, Clone, Copy, PartialEq, Eq)]
pub struct FetchPolicy {
    pub retries: u16,
    pub parallel_requests: u16,
    pub timeout_seconds: u64,
}

/// One attempted request: the URL asked and the HTTP status that came back.
#[derive(Debug, Clone, PartialEq, Eq)]
pub struct Attempt {
    pub url: String,
    pub status: u16,
}

/// An [`Attempt`] with its URL as a character sequence.
pub struct AttemptView {
    pub url: Seq<char>,
    pub status: u16,
}

impl DeepView for Attempt {
    type V = AttemptView;

    open spec fn deep_view(&self) -> AttemptView {
        AttemptView { url: self.url@, status: self.status }
    }
}

/// What the transport reports of one download.
#[derive(Debug, Clone, PartialEq, Eq)]
pub enum TransferReport {
    /// The download did not complete.
    Failed { reason: String },
    /// The download completed after these attempts.
    Summary { attempts: Vec<Attempt> },
}

/// A [`TransferReport`] over sequences.
pub enum TransferReportView {
    Failed { reason: Seq<char> },
    Summary { attempts: Seq<AttemptView> },
}

impl DeepView for TransferReport {
    type V = TransferReportView;

    open spec fn deep_view(&self) -> TransferReportView {
        match self {
            TransferReport::Failed { reason } => TransferReportView::Failed { reason: reason@ },
            TransferReport::Summary { attempts } => TransferReportView::Summary {
                attempts: attempts.deep_view(),
            },
        }
    }
}

/// How a fetch ended.
#[derive(Debug, Clone, PartialEq, Eq)]
pub enum FetchOutcome {
    /// The transport could not be set up.
    SetupFailed { reason: String },
    /// The transport gave up on the fetch as a whole.
    TransferFailed { reason: String },
    /// The transfer ran to its end: one report per download.
    Completed { reports: Vec<TransferReport> },
}

/// A [`FetchOutcome`] over sequences.
pub enum FetchOutcomeView {
    SetupFailed { reason: Seq<char> },
    TransferFailed { reason: Seq<char> },
    Completed { reports: Seq<TransferReportView> },
}

impl View for FetchOutcome {
    type V = FetchOutcomeView;

    open spec fn view(&self) -> FetchOutcomeView {
        match self {
            FetchOutcome::SetupFailed { reason } => FetchOutcomeView::SetupFailed {
                reason: reason@,
            },
            FetchOutcome::TransferFailed { reason } => FetchOutcomeView::TransferFailed {
                reason: reason@,
            },
            FetchOutcome::Completed { reports } => FetchOutcomeView::Completed {
                reports: reports.deep_view(),
            },
        }
    }
}

/// How the extraction of an archive ended.
#[derive(Debug, Clone, PartialEq, Eq)]
pub enum UnpackOutcome {
    /// The archive file could not be opened.
    OpenFailed { reason: String },
    /// The archive is corrupt or truncated, or the destination could not be written.
    ExtractFailed { reason: String },
    /// Every entry was written below the destination.
    Extracted,
}

/// An [`UnpackOutcome`] with its texts as character sequences.
pub enum UnpackOutcomeView {
    OpenFailed { reason: Seq<char> },
    ExtractFailed { reason: Seq<char> },
    Extracted,
}

impl View for UnpackOutcome {
    type V = UnpackOutcomeView;

    open spec fn view(&self) -> UnpackOutcomeView {
        match self {
            UnpackOutcome::OpenFailed { reason } => UnpackOutcomeView::OpenFailed {
                reason: reason@,
            },
            UnpackOutcome::ExtractFailed { reason } => UnpackOutcomeView::ExtractFailed {
                reason: reason@,
            },
            UnpackOutcome::Extracted => UnpackOutcomeView::Extracted,
        }
    }
}

} // verus!
