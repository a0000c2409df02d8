//! The builder's utilities: the process runner, the tool check, the fetcher's
//! verdicts, path helpers and the Xcode probe.

use vstd::prelude::*;
use vstd::string::*;
use vstd::utf8::{decode_utf8, encode_utf8, encode_utf8_decode_utf8, valid_utf8};

use crate::error::{number_result, text_result, unit_result, BuildError, BuildErrorView};
use crate::fetch::{
    Attempt, AttemptView, DownloadTask, DownloadTaskView, FetchOutcome, FetchOutcomeView,
    FetchPolicy,
    TransferReport, TransferReportView, UnpackOutcome, UnpackOutcomeView,
};
use crate::llvm_path::{
    joined_path, join_path, LLVMPath, WorkingDirectory, WorkingDirectoryView,
    DIRECTORY_LLVM_TARGET,
};
use crate::process::{
    Invocation, InvocationView, ProcessOutcome, ProcessOutcomeView, RunMode, RunPlan,
};
use crate::step::{files_result, files_verdict, Action, ActionView, Reply, ReplyView};
use crate::text::{decimal, decimal_text, parse_u32, parsed_u32};

verus! {

/// The LLVM host repository URL.
pub const LLVM_HOST_SOURCE_URL: &'static str = "https://github.com/llvm/llvm-project";

/// The LLVM host repository tag.
pub const LLVM_HOST_SOURCE_TAG: &'static str = "llvmorg-17.0.6";

/// The minimum required XCode version.
pub const XCODE_MIN_VERSION: u32 = 11;

/// The XCode version 15.
pub const XCODE_VERSION_15: u32 = 15;

/// The number of download retries if failed.
pub const DOWNLOAD_RETRIES: u16 = 3;

/// The number of parallel download requests.
pub const DOWNLOAD_PARALLEL_REQUESTS: u16 = 1;

/// The download timeout in seconds.
pub const DOWNLOAD_TIMEOUT_SECONDS: u64 = 300;

/// The musl snapshots URL.
pub const MUSL_SNAPSHOTS_URL: &'static str = "https://git.musl-libc.org/cgit/musl/snapshot";

/// What the runner does with a command in `mode`: it announces in verbose mode, and
/// executes unless this is a dry run.
pub open spec fn planned(mode: RunMode) -> RunPlan {
    RunPlan { announce: mode.verbose, execute: !mode.dry_run }
}

/// Decides what the runner does with a command in `mode`.
pub fn command_plan(mode: RunMode) -> (plan: RunPlan)
    ensures
        plan == planned(mode),
{
    RunPlan { announce: mode.verbose, execute: !mode.dry_run }
}

/// The runner's verdict on one command: in a dry run always success; otherwise
/// success exactly for a process that exited with status zero.
pub open spec fn command_verdict(
    mode: RunMode,
    description: Seq<char>,
    outcome: Option<ProcessOutcomeView>,
) -> Result<(), BuildErrorView> {
    if mode.dry_run {
        Ok(())
    } else {
        match outcome {
            Some(ProcessOutcomeView::SpawnFailed { reason }) => Err(
                BuildErrorView::ProcessSpawn { description, reason },
            ),
            Some(ProcessOutcomeView::Exited { success }) => if success {
                Ok(())
            } else {
                Err(BuildErrorView::ProcessExit { description })
            },
            None => Ok(()),
        }
    }
}

/// The subprocess runner's verdict.
///
/// `outcome` is how the subprocess ended, or `None` where [`command_plan`] said not
/// to execute it. The exit status is the only signal of success.
pub fn command(mode: RunMode, description: &str, outcome: Option<ProcessOutcome>) -> (result:
    Result<(), BuildError>)
    requires
        planned(mode).execute ==> outcome is Some,
    ensures
        unit_result(result) == command_verdict(mode, description@, outcome.deep_view()),
{
    if mode.dry_run {
        return Ok(());
    }
    match outcome {
        Some(ProcessOutcome::SpawnFailed { reason }) => Err(
            BuildError::ProcessSpawn { description: String::from_str(description), reason },
        ),
        Some(ProcessOutcome::Exited { success }) => {
            if success {
                Ok(())
            } else {
                Err(BuildError::ProcessExit { description: String::from_str(description) })
            }
        },
        None => Ok(()),
    }
}

/// With dry-run enabled the runner never executes the subprocess and always reports
/// success, whatever the command, its description and the outcome handed in.
pub proof fn law_dry_run_never_executes(
    mode: RunMode,
    description: Seq<char>,
    outcome: Option<ProcessOutcomeView>,
)
    requires
        mode.dry_run,
    ensures
        !planned(mode).execute,
        command_verdict(mode, description, outcome) == Ok::<(), BuildErrorView>(()),
{
}

/// The command that looks `name` up on the search path.
pub open spec fn presence_query(name: Seq<char>) -> InvocationView {
    InvocationView { program: "which"@, arguments: seq![name], directory: None }
}

/// The command that looks the tool `name` up on the search path.
pub fn check_presence_invocation(name: &str) -> (invocation: Invocation)
    ensures
        invocation@ == presence_query(name@),
{
    let invocation = Invocation::new("which").arg(name);
    assert(invocation@.arguments =~= seq![name@]);
    invocation
}

/// The verdict on the tool `name`, from how its lookup ended.
pub open spec fn presence_verdict(name: Seq<char>, outcome: ProcessOutcomeView) -> Result<
    (),
    BuildErrorView,
> {
    match outcome {
        ProcessOutcomeView::SpawnFailed { reason } => Err(
            BuildErrorView::ProcessSpawn {
                description: "`which "@ + name + "`"@,
                reason,
            },
        ),
        ProcessOutcomeView::Exited { success } => if success {
            Ok(())
        } else {
            Err(BuildErrorView::MissingTool { tool_name: name })
        },
    }
}

/// Checks if the tool exists in the system, from how the lookup of
/// [`check_presence_invocation`] ended.
pub fn check_presence(name: &str, outcome: ProcessOutcome) -> (result: Result<(), BuildError>)
    ensures
        unit_result(result) == presence_verdict(name@, outcome@),
{
    match outcome {
        ProcessOutcome::SpawnFailed { reason } => {
            let mut description = String::from_str("`which ");
            description.append(name);
            description.append("`");
            Err(BuildError::ProcessSpawn { description, reason })
        },
        ProcessOutcome::Exited { success } => {
            if success {
                Ok(())
            } else {
                Err(BuildError::MissingTool { tool_name: String::from_str(name) })
            }
        },
    }
}

/// `path` below the working directory, or the failure to determine that directory.
pub open spec fn resolved(directory: WorkingDirectoryView, path: Seq<char>) -> Result<
    Seq<char>,
    BuildErrorView,
> {
    match directory {
        WorkingDirectoryView::Known { path: root } => Ok(joined_path(root, path)),
        WorkingDirectoryView::Unknown { reason } => Err(
            BuildErrorView::PathResolution { reason },
        ),
    }
}

/// Create an absolute path, appending it to the current working directory.
pub fn absolute_path(directory: &WorkingDirectory, path: &str) -> (full: Result<
    String,
    BuildError,
>)
    ensures
        text_result(full) == resolved(directory@, path@),
{
    match directory {
        WorkingDirectory::Known { path: root } => Ok(join_path(root.as_str(), path)),
        WorkingDirectory::Unknown { reason } => Err(
            BuildError::PathResolution { reason: reason.clone() },
        ),
    }
}

/// Writes `path` with forward slashes, if it has such a form.
///
/// Trusted: `path_slash::PathBufExt::to_slash` on a `PathBuf` made of `path`. What it
/// returns depends on the platform that the crate was compiled for, so nothing is
/// claimed of it.
#[verifier::external_body]
fn to_slash(path: &str) -> (converted: Option<String>) {
    let buffer = std::path::PathBuf::from(path);
    path_slash::PathBufExt::to_slash(&buffer).map(|text| text.into_owned())
}

/// The verdict on a conversion to forward slashes.
pub open spec fn conversion_verdict(converted: Option<Seq<char>>) -> Result<
    Seq<char>,
    BuildErrorView,
> {
    match converted {
        Some(path) => Ok(path),
        None => Err(BuildErrorView::PathConversion),
    }
}

/// Turns the result of a conversion to forward slashes into the path or the failure.
pub fn converted_path(converted: Option<String>) -> (path: Result<String, BuildError>)
    ensures
        text_result(path) == conversion_verdict(converted.deep_view()),
{
    match converted {
        Some(path) => Ok(path),
        None => Err(BuildError::PathConversion),
    }
}

/// Converts a Windows path into a Unix path.
///
/// The conversion itself is the platform's; a path without a forward-slash form is
/// the only failure.
pub fn path_windows_to_unix(path: &str) -> (unix: Result<String, BuildError>)
    ensures
        unix matches Err(error) ==> error@ == BuildErrorView::PathConversion,
{
    converted_path(to_slash(path))
}

/// The command that builds and installs the tree in `build_directory`; in a dry run
/// the driver is asked to preview only.
pub open spec fn ninja_install(build_directory: Seq<char>, mode: RunMode) -> InvocationView {
    InvocationView {
        program: "ninja"@,
        arguments: if mode.dry_run {
            seq!["-C"@, build_directory, "-n"@, "install"@]
        } else {
            seq!["-C"@, build_directory, "install"@]
        },
        directory: None,
    }
}

/// Call ninja to build the LLVM.
pub fn ninja(build_directory: &str, mode: RunMode) -> (invocation: Invocation)
    ensures
        invocation@ == ninja_install(build_directory@, mode),
{
    let mut invocation = Invocation::new("ninja").arg("-C").arg(build_directory);
    if mode.dry_run {
        invocation = invocation.arg("-n");
    }
    let invocation = invocation.arg("install");
    assert(invocation@.arguments =~= ninja_install(build_directory@, mode).arguments);
    invocation
}

/// The description under which [`ninja`]'s command runs.
pub const NINJA_DESCRIPTION: &'static str = "Running ninja install";

/// The fetch of `url` into the directory `path`.
pub fn download_task(url: &str, path: &str) -> (task: DownloadTask)
    ensures
        task@ == (DownloadTaskView { url: url@, destination_directory: path@ }),
{
    DownloadTask { url: String::from_str(url), destination_directory: String::from_str(path) }
}

/// The policy of every download: three attempts, one request at a time, and five
/// minutes for a transfer.
pub open spec fn fixed_policy() -> FetchPolicy {
    FetchPolicy {
        retries: DOWNLOAD_RETRIES,
        parallel_requests: DOWNLOAD_PARALLEL_REQUESTS,
        timeout_seconds: DOWNLOAD_TIMEOUT_SECONDS,
    }
}

/// The policy of every download.
pub fn download_policy() -> (policy: FetchPolicy)
    ensures
        policy == fixed_policy(),
        policy.retries == 3,
        policy.parallel_requests == 1,
        policy.timeout_seconds == 300,
{
    FetchPolicy {
        retries: DOWNLOAD_RETRIES,
        parallel_requests: DOWNLOAD_PARALLEL_REQUESTS,
        timeout_seconds: DOWNLOAD_TIMEOUT_SECONDS,
    }
}

/// `status` is the HTTP status "200 OK".
///
/// Trusted: the comparison of a `u16` with `http::StatusCode::OK`, which the `http`
/// crate defines as equality with the number 200.
#[verifier::external_body]
fn status_is_ok(status: u16) -> (ok: bool)
    ensures
        ok == (status == 200),
{
    status == http::StatusCode::OK
}

/// The first attempt of `attempts` that was answered with another status than 200.
pub open spec fn first_rejected(attempts: Seq<AttemptView>) -> Option<AttemptView>
    decreases attempts.len(),
{
    if attempts.len() == 0 {
        None
    } else if attempts[0].status != 200 {
        Some(attempts[0])
    } else {
        first_rejected(attempts.drop_first())
    }
}

/// The failure that one report holds, if any.
pub open spec fn report_failure(report: TransferReportView) -> Option<BuildErrorView> {
    match report {
        TransferReportView::Failed { reason } => Some(BuildErrorView::FetchTransfer { reason }),
        TransferReportView::Summary { attempts } => match first_rejected(attempts) {
            Some(attempt) => Some(
                BuildErrorView::FetchStatus { url: attempt.url, status: attempt.status },
            ),
            None => None,
        },
    }
}

/// The failure of the first report that holds one.
pub open spec fn first_failure(reports: Seq<TransferReportView>) -> Option<BuildErrorView>
    decreases reports.len(),
{
    if reports.len() == 0 {
        None
    } else if report_failure(reports[0]) is Some {
        report_failure(reports[0])
    } else {
        first_failure(reports.drop_first())
    }
}

/// What the fetcher makes of a transfer. It succeeds only if the transfer ran to
/// its end, no download failed and every attempt was answered with 200.
pub open spec fn fetch_verdict(outcome: FetchOutcomeView) -> Result<(), BuildErrorView> {
    match outcome {
        FetchOutcomeView::SetupFailed { reason } => Err(BuildErrorView::FetchTransfer { reason }),
        FetchOutcomeView::TransferFailed { reason } => Err(
            BuildErrorView::FetchTransfer { reason },
        ),
        FetchOutcomeView::Completed { reports } => match first_failure(reports) {
            Some(error) => Err(error),
            None => Ok(()),
        },
    }
}

fn rejected_attempt(attempts: &Vec<Attempt>) -> (found: Option<BuildError>)
    ensures
        found.is_some() == first_rejected(attempts.deep_view()).is_some(),
        found matches Some(error) ==> Some(error@) == report_failure(
            TransferReportView::Summary { attempts: attempts.deep_view() },
        ),
{
    let mut i: usize = 0;
    assert(attempts.deep_view().skip(0) == attempts.deep_view());
    while i < attempts.len()
        invariant
            0 <= i <= attempts.len(),
            first_rejected(attempts.deep_view()) == first_rejected(
                attempts.deep_view().skip(i as int),
            ),
        decreases attempts.len() - i,
    {
        let ghost rest = attempts.deep_view().skip(i as int);
        assert(rest[0] == attempts[i as int].deep_view());
        assert(rest.drop_first() == attempts.deep_view().skip(i + 1));
        if !status_is_ok(attempts[i].status) {
            return Some(
                BuildError::FetchStatus {
                    url: attempts[i].url.clone(),
                    status: attempts[i].status,
                },
            );
        }
        i += 1;
    }
    None
}

fn failed_report(reports: &Vec<TransferReport>) -> (found: Option<BuildError>)
    ensures
        found.deep_view() == first_failure(reports.deep_view()),
{
    let mut i: usize = 0;
    assert(reports.deep_view().skip(0) == reports.deep_view());
    while i < reports.len()
        invariant
            0 <= i <= reports.len(),
            first_failure(reports.deep_view()) == first_failure(
                reports.deep_view().skip(i as int),
            ),
        decreases reports.len() - i,
    {
        let ghost rest = reports.deep_view().skip(i as int);
        assert(rest[0] == reports[i as int].deep_view());
        assert(rest.drop_first() == reports.deep_view().skip(i + 1));
        match &reports[i] {
            TransferReport::Failed { reason } => {
                return Some(BuildError::FetchTransfer { reason: reason.clone() });
            },
            TransferReport::Summary { attempts } => {
                match rejected_attempt(attempts) {
                    Some(error) => {
                        return Some(error);
                    },
                    None => {},
                }
            },
        }
        i += 1;
    }
    None
}

/// Download a file from the URL to the path: the verdict on how the transfer ended.
///
/// Any status other than 200, on any attempt of any download, fails the whole fetch.
pub fn download(outcome: &FetchOutcome) -> (result: Result<(), BuildError>)
    ensures
        unit_result(result) == fetch_verdict(outcome@),
{
    match outcome {
        FetchOutcome::SetupFailed { reason } => Err(
            BuildError::FetchTransfer { reason: reason.clone() },
        ),
        FetchOutcome::TransferFailed { reason } => Err(
            BuildError::FetchTransfer { reason: reason.clone() },
        ),
        FetchOutcome::Completed { reports } => match failed_report(reports) {
            Some(error) => Err(error),
            None => Ok(()),
        },
    }
}

/// Every attempt of `attempts` was answered with 200.
pub open spec fn all_accepted(attempts: Seq<AttemptView>) -> bool {
    forall|j: int| 0 <= j < attempts.len() ==> (#[trigger] attempts[j]).status == 200
}

/// Every report of `reports` is a summary whose attempts were all answered with 200.
pub open spec fn all_clean(reports: Seq<TransferReportView>) -> bool {
    forall|i: int|
        0 <= i < reports.len() ==> match #[trigger] reports[i] {
            TransferReportView::Failed { .. } => false,
            TransferReportView::Summary { attempts } => all_accepted(attempts),
        }
}

/// No attempt is rejected exactly when all are accepted.
pub proof fn lemma_first_rejected(attempts: Seq<AttemptView>)
    ensures
        first_rejected(attempts) is None <==> all_accepted(attempts),
        first_rejected(attempts) matches Some(attempt) ==> attempt.status != 200
            && attempts.contains(attempt),
    decreases attempts.len(),
{
    if attempts.len() > 0 {
        let rest = attempts.drop_first();
        lemma_first_rejected(rest);
        if attempts[0].status == 200 {
            if all_accepted(rest) {
                assert forall|j: int| 0 <= j < attempts.len() implies (
                #[trigger] attempts[j]).status == 200 by {
                    if j > 0 {
                        assert(attempts[j] == rest[j - 1]);
                    }
                }
            } else {
                let j = choose|j: int| 0 <= j < rest.len() && (#[trigger] rest[j]).status != 200;
                assert(attempts[j + 1] == rest[j]);
            }
            if first_rejected(rest) is Some {
                let found = first_rejected(rest)->0;
                let k = choose|k: int| 0 <= k < rest.len() && rest[k] == found;
                assert(attempts[k + 1] == found);
            }
        } else {
            assert(attempts[0] == attempts[0]);
        }
    }
}

/// All or nothing: the fetcher reports success exactly when the transfer ran to its
/// end, no download failed, and every attempt of every download was answered with
/// 200. One other status anywhere fails the whole fetch.
pub proof fn law_fetch_all_or_nothing(outcome: FetchOutcomeView)
    ensures
        fetch_verdict(outcome) is Ok <==> (outcome matches FetchOutcomeView::Completed {
            reports,
        } && all_clean(reports)),
{
    if let FetchOutcomeView::Completed { reports } = outcome {
        lemma_first_failure(reports);
    }
}

/// No report holds a failure exactly when all are clean.
pub proof fn lemma_first_failure(reports: Seq<TransferReportView>)
    ensures
        first_failure(reports) is None <==> all_clean(reports),
    decreases reports.len(),
{
    if reports.len() > 0 {
        let rest = reports.drop_first();
        lemma_first_failure(rest);
        if let TransferReportView::Summary { attempts } = reports[0] {
            lemma_first_rejected(attempts);
        }
        if report_failure(reports[0]) is None {
            if all_clean(rest) {
                assert forall|i: int| 0 <= i < reports.len() implies match #[trigger] reports[i] {
                    TransferReportView::Failed { .. } => false,
                    TransferReportView::Summary { attempts } => all_accepted(attempts),
                } by {
                    if i > 0 {
                        assert(reports[i] == rest[i - 1]);
                    }
                }
            } else {
                let i = choose|i: int|
                    0 <= i < rest.len() && !(match #[trigger] rest[i] {
                        TransferReportView::Failed { .. } => false,
                        TransferReportView::Summary { attempts } => all_accepted(attempts),
                    });
                assert(reports[i + 1] == rest[i]);
            }
        } else {
            assert(reports[0] == reports[0]);
        }
    }
}

/// The verdict on an extraction.
pub open spec fn unpack_verdict(outcome: UnpackOutcomeView) -> Result<(), BuildErrorView> {
    match outcome {
        UnpackOutcomeView::OpenFailed { reason } => Err(BuildErrorView::Unpack { reason }),
        UnpackOutcomeView::ExtractFailed { reason } => Err(BuildErrorView::Unpack { reason }),
        UnpackOutcomeView::Extracted => Ok(()),
    }
}

/// Unpack a tarball: the verdict on how the extraction ended.
pub fn unpack_tar(outcome: UnpackOutcome) -> (result: Result<(), BuildError>)
    ensures
        unit_result(result) == unpack_verdict(outcome@),
{
    match outcome {
        UnpackOutcome::OpenFailed { reason } => Err(BuildError::Unpack { reason }),
        UnpackOutcome::ExtractFailed { reason } => Err(BuildError::Unpack { reason }),
        UnpackOutcome::Extracted => Ok(()),
    }
}

/// How the query for the version of the installed command-line tools ended.
#[derive(Debug, Clone, PartialEq, Eq)]
pub enum XcodeProbe {
    /// `pkgutil` could not be started.
    PkgutilFailed { reason: String },
    /// `grep` could not be started or waited for.
    GrepFailed { reason: String },
    /// Both ran; `stdout` is what `grep` printed.
    Output { stdout: Vec<u8> },
}

/// An [`XcodeProbe`] over sequences.
pub enum XcodeProbeView {
    PkgutilFailed { reason: Seq<char> },
    GrepFailed { reason: Seq<char> },
    Output { stdout: Seq<u8> },
}

impl View for XcodeProbe {
    type V = XcodeProbeView;

    open spec fn view(&self) -> XcodeProbeView {
        match self {
            XcodeProbe::PkgutilFailed { reason } => XcodeProbeView::PkgutilFailed {
                reason: reason@,
            },
            XcodeProbe::GrepFailed { reason } => XcodeProbeView::GrepFailed { reason: reason@ },
            XcodeProbe::Output { stdout } => XcodeProbeView::Output { stdout: stdout@ },
        }
    }
}

/// The pattern that finds the major version in the probe's output.
pub const XCODE_VERSION_PATTERN: &'static str = "version: (\\d+)\\..*";

/// What a search of `haystack` for `pattern` finds for one capture group: `Err` for
/// a pattern that does not compile; else `None` where nothing matches, `Some(None)`
/// where the leftmost match has no such group or the group took no part in it, and
/// the group's text otherwise.
pub uninterp spec fn regex_search(pattern: Seq<char>, haystack: Seq<char>, group: nat) -> Result<
    Option<Option<Seq<char>>>,
    (),
>;

#[verifier::external_type_specification]
#[verifier::external_body]
pub struct ExRegexError(regex::Error);

/// Searches `haystack` for `pattern` and hands out the text of one capture group.
///
/// Trusted: `regex::Regex::new` followed by `Regex::captures`, `Captures::get` and
/// `Match::as_str`. Whether the pattern compiles, and what the search of the
/// leftmost match finds, depend on the two texts and the group's number alone.
#[verifier::external_body]
fn regex_capture(pattern: &str, haystack: &str, group: usize) -> (found: Result<
    Option<Option<String>>,
    regex::Error,
>)
    ensures
        match found {
            Ok(capture) => regex_search(pattern@, haystack@, group as nat) == Ok::<
                Option<Option<Seq<char>>>,
                (),
            >(capture.deep_view()),
            Err(_) => regex_search(pattern@, haystack@, group as nat) is Err,
        },
{
    let compiled = regex::Regex::new(pattern)?;
    Ok(
        compiled.captures(haystack).map(
            |captures| captures.get(group).map(|found| found.as_str().to_string()),
        ),
    )
}

/// Decodes `bytes` as UTF-8.
///
/// Trusted: `String::from_utf8`, which fails exactly on bytes that are no valid
/// UTF-8 and otherwise gives the string that is made of these bytes.
#[verifier::external_body]
fn text_from_utf8(bytes: Vec<u8>) -> (text: Option<String>)
    ensures
        text is Some <==> valid_utf8(bytes@),
        text matches Some(decoded) ==> encode_utf8(decoded@) == bytes@,
{
    match String::from_utf8(bytes) {
        Ok(text) => Some(text),
        Err(_) => None,
    }
}

/// The failure to read a version out of `text`.
pub open spec fn version_failure(text: Seq<char>) -> BuildErrorView {
    BuildErrorView::Parse { reason: "Failed to parse XCode version: "@ + text }
}

/// The major version that a search of the probe's output `version_text` found:
/// the number that the first group writes; a failure where nothing matched, where
/// the group is missing, or where its text is no number of 32 bits.
pub open spec fn xcode_major(version_text: Seq<char>, capture: Option<Option<Seq<char>>>) -> Result<
    u32,
    BuildErrorView,
> {
    match capture {
        None => Err(version_failure(version_text)),
        Some(None) => Err(BuildErrorView::Parse { reason: "Always has a major version"@ }),
        Some(Some(digits)) => match parsed_u32(digits) {
            Some(version) => Ok(version),
            None => Err(version_failure(digits)),
        },
    }
}

fn failed_version(text: &str) -> (error: BuildError)
    ensures
        error@ == version_failure(text@),
{
    let mut reason = String::from_str("Failed to parse XCode version: ");
    reason.append(text);
    BuildError::Parse { reason }
}

/// Reads the major version out of what a search of the probe's output found.
pub fn xcode_major_version(version_text: &str, capture: Option<Option<String>>) -> (version:
    Result<u32, BuildError>)
    ensures
        number_result(version) == xcode_major(version_text@, capture.deep_view()),
{
    match capture {
        None => Err(failed_version(version_text)),
        Some(None) => Err(
            BuildError::Parse { reason: String::from_str("Always has a major version") },
        ),
        Some(Some(digits)) => match parse_u32(digits.as_str()) {
            Some(version) => Ok(version),
            None => Err(failed_version(digits.as_str())),
        },
    }
}

/// The failure of a probe whose process `program` could not be run.
pub open spec fn probe_spawn_failure(program: Seq<char>, reason: Seq<char>) -> BuildErrorView {
    BuildErrorView::ProcessSpawn { description: program, reason }
}

/// The failure of a version pattern that the search engine rejects.
pub open spec fn pattern_failure() -> BuildErrorView {
    BuildErrorView::Parse { reason: "The XCode version pattern was rejected"@ }
}

/// The failure of probe output that is no UTF-8 text.
pub open spec fn encoding_failure() -> BuildErrorView {
    BuildErrorView::Parse { reason: "The XCode version is not valid UTF-8"@ }
}

/// The text that a probe printed: its output decoded, or nothing where there is
/// no output or it is no UTF-8.
pub open spec fn probe_text(probe: XcodeProbeView) -> Seq<char> {
    match probe {
        XcodeProbeView::Output { stdout } => if valid_utf8(stdout) {
            decode_utf8(stdout)
        } else {
            Seq::empty()
        },
        _ => Seq::empty(),
    }
}

/// The verdict on a probe, given what the search of its text found: a probe that
/// could not run fails, and so do output that is no UTF-8 and a pattern that does
/// not compile; otherwise the verdict is [`xcode_major`]'s.
pub open spec fn xcode_verdict(
    probe: XcodeProbeView,
    search: Result<Option<Option<Seq<char>>>, ()>,
) -> Result<u32, BuildErrorView> {
    match probe {
        XcodeProbeView::PkgutilFailed { reason } => Err(
            probe_spawn_failure("`pkgutil`"@, reason),
        ),
        XcodeProbeView::GrepFailed { reason } => Err(probe_spawn_failure("`grep`"@, reason)),
        XcodeProbeView::Output { stdout } => if !valid_utf8(stdout) {
            Err(encoding_failure())
        } else {
            match search {
                Ok(capture) => xcode_major(decode_utf8(stdout), capture),
                Err(_) => Err(pattern_failure()),
            }
        },
    }
}

/// The version that a probe reports, given what the search of its text found.
pub open spec fn xcode_version_of(probe: XcodeProbeView) -> Result<u32, BuildErrorView> {
    xcode_verdict(probe, regex_search(XCODE_VERSION_PATTERN@, probe_text(probe), 1))
}

fn decoded_output(stdout: Vec<u8>) -> (text: Option<String>)
    ensures
        text is Some <==> valid_utf8(stdout@),
        text matches Some(decoded) ==> decoded@ == decode_utf8(stdout@),
{
    let text = text_from_utf8(stdout);
    proof {
        if text is Some {
            encode_utf8_decode_utf8(text->0@);
        }
    }
    text
}

/// Identify XCode version using `pkgutil`: the verdict on how the probe ended.
///
/// The probe's output is searched for [`XCODE_VERSION_PATTERN`], and the version is
/// what [`xcode_major_version`] reads out of the first group.
pub fn get_xcode_version(probe: XcodeProbe) -> (version: Result<u32, BuildError>)
    ensures
        number_result(version) == xcode_version_of(probe@),
{
    match probe {
        XcodeProbe::PkgutilFailed { reason } => Err(
            BuildError::ProcessSpawn { description: String::from_str("`pkgutil`"), reason },
        ),
        XcodeProbe::GrepFailed { reason } => Err(
            BuildError::ProcessSpawn { description: String::from_str("`grep`"), reason },
        ),
        XcodeProbe::Output { stdout } => match decoded_output(stdout) {
            None => Err(
                BuildError::Parse {
                    reason: String::from_str("The XCode version is not valid UTF-8"),
                },
            ),
            Some(version_text) => match regex_capture(
                XCODE_VERSION_PATTERN,
                version_text.as_str(),
                1,
            ) {
                Ok(capture) => xcode_major_version(version_text.as_str(), capture),
                Err(_) => Err(
                    BuildError::Parse {
                        reason: String::from_str("The XCode version pattern was rejected"),
                    },
                ),
            },
        },
    }
}

/// The number of processors that a build may use.
///
/// Trusted: `num_cpus::get`. The number is the machine's, so nothing is claimed of
/// it.
#[verifier::external_body]
pub(crate) fn cpu_count() -> (count: usize) {
    num_cpus::get()
}

/// How far the download of a musl snapshot has come.
#[derive(Debug, Clone, PartialEq, Eq)]
pub enum MuslDownloadStage {
    /// Waiting for the transfer of the archive.
    Downloading,
    /// Waiting for the working directory, to locate the archive.
    Locating,
    /// Waiting for the extraction of the archive.
    Unpacking { archive: String },
    /// The sources are in place.
    Finished,
    /// The download failed.
    Failed { error: BuildError },
}

/// A [`MuslDownloadStage`] over sequences.
pub enum MuslDownloadStageView {
    Downloading,
    Locating,
    Unpacking { archive: Seq<char> },
    Finished,
    Failed { error: BuildErrorView },
}

impl View for MuslDownloadStage {
    type V = MuslDownloadStageView;

    open spec fn view(&self) -> MuslDownloadStageView {
        match self {
            MuslDownloadStage::Downloading => MuslDownloadStageView::Downloading,
            MuslDownloadStage::Locating => MuslDownloadStageView::Locating,
            MuslDownloadStage::Unpacking { archive } => MuslDownloadStageView::Unpacking {
                archive: archive@,
            },
            MuslDownloadStage::Finished => MuslDownloadStageView::Finished,
            MuslDownloadStage::Failed { error } => MuslDownloadStageView::Failed {
                error: error@,
            },
        }
    }
}

/// The file name of the archive of the snapshot `name`.
pub open spec fn musl_archive_name(name: Seq<char>) -> Seq<char> {
    name + ".tar.gz"@
}

/// The URL of the archive of the snapshot `name`.
pub open spec fn musl_archive_url(name: Seq<char>) -> Seq<char> {
    MUSL_SNAPSHOTS_URL@ + "/"@ + musl_archive_name(name)
}

/// The action that the download of the snapshot `name` asks for in `stage`.
pub open spec fn musl_download_pending(
    name: Seq<char>,
    stage: MuslDownloadStageView,
) -> ActionView {
    match stage {
        MuslDownloadStageView::Downloading => ActionView::Download {
            task: DownloadTaskView {
                url: musl_archive_url(name),
                destination_directory: DIRECTORY_LLVM_TARGET@,
            },
            policy: fixed_policy(),
        },
        MuslDownloadStageView::Locating => ActionView::WorkingDirectory,
        MuslDownloadStageView::Unpacking { archive } => ActionView::Unpack {
            archive,
            directory: DIRECTORY_LLVM_TARGET@,
        },
        MuslDownloadStageView::Finished => ActionView::Done,
        MuslDownloadStageView::Failed { error } => ActionView::Fail { error },
    }
}

/// The stage after a step that ended with `verdict`.
pub open spec fn musl_download_onward(
    verdict: Result<(), BuildErrorView>,
    onward: MuslDownloadStageView,
) -> MuslDownloadStageView {
    match verdict {
        Ok(_) => onward,
        Err(error) => MuslDownloadStageView::Failed { error },
    }
}

/// The stage that follows `stage` when `reply` comes in: the transfer, then the
/// location of the archive, then its extraction; a failure ends the sequence, and
/// a reply that does not answer the stage's action changes nothing.
pub open spec fn musl_download_advanced(
    name: Seq<char>,
    stage: MuslDownloadStageView,
    reply: ReplyView,
) -> MuslDownloadStageView {
    match (stage, reply) {
        (MuslDownloadStageView::Downloading, ReplyView::Transfer { outcome }) => {
            musl_download_onward(fetch_verdict(outcome), MuslDownloadStageView::Locating)
        },
        (MuslDownloadStageView::Locating, ReplyView::WorkingDirectory { directory }) => {
            match LLVMPath::source_of_musl(directory, musl_archive_name(name)) {
                Ok(archive) => MuslDownloadStageView::Unpacking { archive },
                Err(error) => MuslDownloadStageView::Failed { error },
            }
        },
        (MuslDownloadStageView::Unpacking { .. }, ReplyView::Archive { outcome }) => {
            musl_download_onward(unpack_verdict(outcome), MuslDownloadStageView::Finished)
        },
        _ => stage,
    }
}

fn musl_download_next(verdict: Result<(), BuildError>, onward: MuslDownloadStage) -> (stage:
    MuslDownloadStage)
    ensures
        stage@ == musl_download_onward(unit_result(verdict), onward@),
{
    match verdict {
        Ok(_) => onward,
        Err(error) => MuslDownloadStage::Failed { error },
    }
}

fn musl_archive(name: &str) -> (file: String)
    ensures
        file@ == musl_archive_name(name@),
{
    let mut file = String::from_str(name);
    file.append(".tar.gz");
    file
}

/// The `musl` downloading sequence, one step at a time.
///
/// `stage` is how far the sequence has come and `reply` is how the action that it
/// asked for ended (`None` to be told that action again). The result is the stage
/// that follows and the action that it asks for.
pub fn download_musl(name: &str, stage: MuslDownloadStage, reply: Option<Reply>) -> (next: (
    MuslDownloadStage,
    Action,
))
    ensures
        next.0@ == match reply {
            Some(reply) => musl_download_advanced(name@, stage@, reply@),
            None => stage@,
        },
        next.1@ == musl_download_pending(name@, next.0@),
{
    let stage = match reply {
        None => stage,
        Some(reply) => match (stage, reply) {
            (MuslDownloadStage::Downloading, Reply::Transfer { outcome }) => musl_download_next(
                download(&outcome),
                MuslDownloadStage::Locating,
            ),
            (MuslDownloadStage::Locating, Reply::WorkingDirectory { directory }) => {
                match LLVMPath::musl_source(&directory, musl_archive(name).as_str()) {
                    Ok(archive) => MuslDownloadStage::Unpacking { archive },
                    Err(error) => MuslDownloadStage::Failed { error },
                }
            },
            (MuslDownloadStage::Unpacking { .. }, Reply::Archive { outcome }) => musl_download_next(
                unpack_tar(outcome),
                MuslDownloadStage::Finished,
            ),
            (stage, _) => stage,
        },
    };
    let action = match &stage {
        MuslDownloadStage::Downloading => {
            let mut url = String::from_str(MUSL_SNAPSHOTS_URL);
            url.append("/");
            url.append(musl_archive(name).as_str());
            assert(url@ =~= musl_archive_url(name@));
            Action::Download {
                task: download_task(url.as_str(), DIRECTORY_LLVM_TARGET),
                policy: download_policy(),
            }
        },
        MuslDownloadStage::Locating => Action::WorkingDirectory,
        MuslDownloadStage::Unpacking { archive } => Action::Unpack {
            archive: archive.clone(),
            directory: String::from_str(DIRECTORY_LLVM_TARGET),
        },
        MuslDownloadStage::Finished => Action::Done,
        MuslDownloadStage::Failed { error } => Action::Fail { error: error.duplicate() },
    };
    (stage, action)
}

/// How far the build of musl has come.
#[derive(Debug, Clone, PartialEq, Eq)]
pub enum MuslBuildStage {
    CreatingBuildDirectory,
    CreatingTargetDirectory,
    Configuring,
    /// Waiting for `make`, which was given `jobs` parallel jobs.
    Building { jobs: usize },
    Installing,
    CreatingAsmDirectory,
    CopyingLinuxHeaders,
    CopyingAsmHeaders,
    RewritingTypesHeader,
    /// musl is built and installed, with the system headers beside it.
    Finished,
    /// The build failed; what was done so far is left as it is.
    Failed { error: BuildError },
}

/// A [`MuslBuildStage`] over sequences.
pub enum MuslBuildStageView {
    CreatingBuildDirectory,
    CreatingTargetDirectory,
    Configuring,
    Building { jobs: usize },
    Installing,
    CreatingAsmDirectory,
    CopyingLinuxHeaders,
    CopyingAsmHeaders,
    RewritingTypesHeader,
    Finished,
    Failed { error: BuildErrorView },
}

impl View for MuslBuildStage {
    type V = MuslBuildStageView;

    open spec fn view(&self) -> MuslBuildStageView {
        match self {
            MuslBuildStage::CreatingBuildDirectory => MuslBuildStageView::CreatingBuildDirectory,
            MuslBuildStage::CreatingTargetDirectory => MuslBuildStageView::CreatingTargetDirectory,
            MuslBuildStage::Configuring => MuslBuildStageView::Configuring,
            MuslBuildStage::Building { jobs } => MuslBuildStageView::Building { jobs: *jobs },
            MuslBuildStage::Installing => MuslBuildStageView::Installing,
            MuslBuildStage::CreatingAsmDirectory => MuslBuildStageView::CreatingAsmDirectory,
            MuslBuildStage::CopyingLinuxHeaders => MuslBuildStageView::CopyingLinuxHeaders,
            MuslBuildStage::CopyingAsmHeaders => MuslBuildStageView::CopyingAsmHeaders,
            MuslBuildStage::RewritingTypesHeader => MuslBuildStageView::RewritingTypesHeader,
            MuslBuildStage::Finished => MuslBuildStageView::Finished,
            MuslBuildStage::Failed { error } => MuslBuildStageView::Failed { error: error@ },
        }
    }
}

/// The directory of the installed headers.
pub open spec fn musl_include_directory(target_directory: Seq<char>) -> Seq<char> {
    joined_path(target_directory, "include/"@)
}

/// The directory of the architecture's headers.
pub open spec fn musl_asm_directory(target_directory: Seq<char>) -> Seq<char> {
    joined_path(musl_include_directory(target_directory), "asm/"@)
}

/// The header whose reference to the generic headers is rewritten.
pub open spec fn musl_types_header(target_directory: Seq<char>) -> Seq<char> {
    joined_path(musl_asm_directory(target_directory), "types.h"@)
}

/// The command that configures musl for installation below `target_directory`.
pub open spec fn musl_configure_command(
    build_directory: Seq<char>,
    target_directory: Seq<char>,
) -> InvocationView {
    InvocationView {
        program: "../configure"@,
        arguments: seq![
            "--prefix="@ + target_directory,
            "--syslibdir="@ + target_directory + "/lib/"@,
            "--enable-wrapper='clang'"@,
        ],
        directory: Some(build_directory),
    }
}

/// The command that builds musl with `jobs` parallel jobs.
pub open spec fn musl_make_command(build_directory: Seq<char>, jobs: usize) -> InvocationView {
    InvocationView {
        program: "make"@,
        arguments: seq!["-j"@, decimal_text(jobs as nat)],
        directory: Some(build_directory),
    }
}

/// The command that installs musl.
pub open spec fn musl_install_command(build_directory: Seq<char>) -> InvocationView {
    InvocationView {
        program: "make"@,
        arguments: seq!["install"@],
        directory: Some(build_directory),
    }
}

/// The command that points the types header at the architecture's headers.
pub open spec fn musl_rewrite_command(target_directory: Seq<char>) -> InvocationView {
    InvocationView {
        program: "sed"@,
        arguments: seq!["-i"@, "s/asm-generic/asm/"@, musl_types_header(target_directory)],
        directory: None,
    }
}

/// The action that the build of musl asks for in `stage`.
pub open spec fn musl_build_pending(
    build_directory: Seq<char>,
    target_directory: Seq<char>,
    stage: MuslBuildStageView,
) -> ActionView {
    match stage {
        MuslBuildStageView::CreatingBuildDirectory => ActionView::CreateDirectory {
            path: build_directory,
        },
        MuslBuildStageView::CreatingTargetDirectory => ActionView::CreateDirectory {
            path: target_directory,
        },
        MuslBuildStageView::Configuring => ActionView::Run {
            invocation: musl_configure_command(build_directory, target_directory),
            description: "MUSL configuring"@,
        },
        MuslBuildStageView::Building { jobs } => ActionView::Run {
            invocation: musl_make_command(build_directory, jobs),
            description: "MUSL building"@,
        },
        MuslBuildStageView::Installing => ActionView::Run {
            invocation: musl_install_command(build_directory),
            description: "MUSL installing"@,
        },
        MuslBuildStageView::CreatingAsmDirectory => ActionView::CreateDirectory {
            path: musl_asm_directory(target_directory),
        },
        MuslBuildStageView::CopyingLinuxHeaders => ActionView::CopyDirectory {
            from: "/usr/include/linux"@,
            to: musl_include_directory(target_directory),
            content_only: false,
        },
        MuslBuildStageView::CopyingAsmHeaders => ActionView::CopyDirectory {
            from: "/usr/include/asm-generic"@,
            to: musl_asm_directory(target_directory),
            content_only: true,
        },
        MuslBuildStageView::RewritingTypesHeader => ActionView::Run {
            invocation: musl_rewrite_command(target_directory),
            description: "types_header asm signature replacement"@,
        },
        MuslBuildStageView::Finished => ActionView::Done,
        MuslBuildStageView::Failed { error } => ActionView::Fail { error },
    }
}

/// The stage after a step that ended with `verdict`.
pub open spec fn musl_build_onward(
    verdict: Result<(), BuildErrorView>,
    onward: MuslBuildStageView,
) -> MuslBuildStageView {
    match verdict {
        Ok(_) => onward,
        Err(error) => MuslBuildStageView::Failed { error },
    }
}

/// The description under which the command of `stage` runs, for the stages that
/// run one.
pub open spec fn musl_description(stage: MuslBuildStageView) -> Seq<char> {
    match stage {
        MuslBuildStageView::Configuring => "MUSL configuring"@,
        MuslBuildStageView::Building { .. } => "MUSL building"@,
        MuslBuildStageView::Installing => "MUSL installing"@,
        _ => "types_header asm signature replacement"@,
    }
}

/// The stage that comes after `stage` when its action succeeded; `jobs` is the
/// number of parallel jobs that `make` is given.
pub open spec fn musl_build_successor(
    stage: MuslBuildStageView,
    jobs: usize,
) -> MuslBuildStageView {
    match stage {
        MuslBuildStageView::CreatingBuildDirectory => MuslBuildStageView::CreatingTargetDirectory,
        MuslBuildStageView::CreatingTargetDirectory => MuslBuildStageView::Configuring,
        MuslBuildStageView::Configuring => MuslBuildStageView::Building { jobs },
        MuslBuildStageView::Building { .. } => MuslBuildStageView::Installing,
        MuslBuildStageView::Installing => MuslBuildStageView::CreatingAsmDirectory,
        MuslBuildStageView::CreatingAsmDirectory => MuslBuildStageView::CopyingLinuxHeaders,
        MuslBuildStageView::CopyingLinuxHeaders => MuslBuildStageView::CopyingAsmHeaders,
        MuslBuildStageView::CopyingAsmHeaders => MuslBuildStageView::RewritingTypesHeader,
        MuslBuildStageView::RewritingTypesHeader => MuslBuildStageView::Finished,
        other => other,
    }
}

/// Whether `stage` waits for a command of the process runner.
pub open spec fn musl_runs_command(stage: MuslBuildStageView) -> bool {
    stage is Configuring || stage is Building || stage is Installing
        || stage is RewritingTypesHeader
}

/// Whether `stage` waits for a file-system operation.
pub open spec fn musl_touches_files(stage: MuslBuildStageView) -> bool {
    stage is CreatingBuildDirectory || stage is CreatingTargetDirectory
        || stage is CreatingAsmDirectory || stage is CopyingLinuxHeaders
        || stage is CopyingAsmHeaders
}

/// The stage that follows `stage` when `reply` comes in: on success the next stage
/// of the sequence, on failure the end of it; a reply that does not answer the
/// stage's action changes nothing.
pub open spec fn musl_build_advanced(
    stage: MuslBuildStageView,
    mode: RunMode,
    reply: ReplyView,
    jobs: usize,
) -> MuslBuildStageView {
    match reply {
        ReplyView::Files { outcome } => if musl_touches_files(stage) {
            musl_build_onward(files_verdict(outcome), musl_build_successor(stage, jobs))
        } else {
            stage
        },
        ReplyView::Command { outcome } => if musl_runs_command(stage) && !(planned(mode).execute
            && outcome is None) {
            musl_build_onward(
                command_verdict(mode, musl_description(stage), outcome),
                musl_build_successor(stage, jobs),
            )
        } else {
            stage
        },
        _ => stage,
    }
}

fn musl_successor(stage: MuslBuildStage, jobs: usize) -> (next: MuslBuildStage)
    ensures
        next@ == musl_build_successor(stage@, jobs),
{
    match stage {
        MuslBuildStage::CreatingBuildDirectory => MuslBuildStage::CreatingTargetDirectory,
        MuslBuildStage::CreatingTargetDirectory => MuslBuildStage::Configuring,
        MuslBuildStage::Configuring => MuslBuildStage::Building { jobs },
        MuslBuildStage::Building { .. } => MuslBuildStage::Installing,
        MuslBuildStage::Installing => MuslBuildStage::CreatingAsmDirectory,
        MuslBuildStage::CreatingAsmDirectory => MuslBuildStage::CopyingLinuxHeaders,
        MuslBuildStage::CopyingLinuxHeaders => MuslBuildStage::CopyingAsmHeaders,
        MuslBuildStage::CopyingAsmHeaders => MuslBuildStage::RewritingTypesHeader,
        MuslBuildStage::RewritingTypesHeader => MuslBuildStage::Finished,
        other => other,
    }
}

fn musl_next(verdict: Result<(), BuildError>, stage: MuslBuildStage, jobs: usize) -> (next:
    MuslBuildStage)
    ensures
        next@ == musl_build_onward(unit_result(verdict), musl_build_successor(stage@, jobs)),
{
    match verdict {
        Ok(_) => musl_successor(stage, jobs),
        Err(error) => MuslBuildStage::Failed { error },
    }
}

fn musl_stage_description(stage: &MuslBuildStage) -> (description: &'static str)
    ensures
        description@ == musl_description(stage@),
{
    match stage {
        MuslBuildStage::Configuring => "MUSL configuring",
        MuslBuildStage::Building { .. } => "MUSL building",
        MuslBuildStage::Installing => "MUSL installing",
        _ => "types_header asm signature replacement",
    }
}

fn musl_waits_for_command(stage: &MuslBuildStage) -> (waits: bool)
    ensures
        waits == musl_runs_command(stage@),
{
    match stage {
        MuslBuildStage::Configuring => true,
        MuslBuildStage::Building { .. } => true,
        MuslBuildStage::Installing => true,
        MuslBuildStage::RewritingTypesHeader => true,
        _ => false,
    }
}

fn musl_waits_for_files(stage: &MuslBuildStage) -> (waits: bool)
    ensures
        waits == musl_touches_files(stage@),
{
    match stage {
        MuslBuildStage::CreatingBuildDirectory => true,
        MuslBuildStage::CreatingTargetDirectory => true,
        MuslBuildStage::CreatingAsmDirectory => true,
        MuslBuildStage::CopyingLinuxHeaders => true,
        MuslBuildStage::CopyingAsmHeaders => true,
        _ => false,
    }
}

fn musl_pending_action(
    build_directory: &str,
    target_directory: &str,
    stage: &MuslBuildStage,
) -> (action: Action)
    ensures
        action@ == musl_build_pending(build_directory@, target_directory@, stage@),
{
    match stage {
        MuslBuildStage::CreatingBuildDirectory => Action::CreateDirectory {
            path: String::from_str(build_directory),
        },
        MuslBuildStage::CreatingTargetDirectory => Action::CreateDirectory {
            path: String::from_str(target_directory),
        },
        MuslBuildStage::Configuring => {
            let mut prefix = String::from_str("--prefix=");
            prefix.append(target_directory);
            let mut syslibdir = String::from_str("--syslibdir=");
            syslibdir.append(target_directory);
            syslibdir.append("/lib/");
            let invocation = Invocation::new("../configure").current_dir(build_directory).arg(
                prefix.as_str(),
            ).arg(syslibdir.as_str()).arg("--enable-wrapper='clang'");
            assert(invocation@.arguments =~= musl_configure_command(
                build_directory@,
                target_directory@,
            ).arguments);
            Action::Run { invocation, description: String::from_str("MUSL configuring") }
        },
        MuslBuildStage::Building { jobs } => {
            let count = decimal(*jobs as u64);
            let invocation = Invocation::new("make").current_dir(build_directory).arg("-j").arg(
                count.as_str(),
            );
            assert(invocation@.arguments =~= musl_make_command(build_directory@, *jobs).arguments);
            Action::Run { invocation, description: String::from_str("MUSL building") }
        },
        MuslBuildStage::Installing => {
            let invocation = Invocation::new("make").current_dir(build_directory).arg("install");
            assert(invocation@.arguments =~= musl_install_command(build_directory@).arguments);
            Action::Run { invocation, description: String::from_str("MUSL installing") }
        },
        MuslBuildStage::CreatingAsmDirectory => {
            let headers = join_path(target_directory, "include/");
            Action::CreateDirectory { path: join_path(headers.as_str(), "asm/") }
        },
        MuslBuildStage::CopyingLinuxHeaders => Action::CopyDirectory {
            from: String::from_str("/usr/include/linux"),
            to: join_path(target_directory, "include/"),
            content_only: false,
        },
        MuslBuildStage::CopyingAsmHeaders => {
            let headers = join_path(target_directory, "include/");
            Action::CopyDirectory {
                from: String::from_str("/usr/include/asm-generic"),
                to: join_path(headers.as_str(), "asm/"),
                content_only: true,
            }
        },
        MuslBuildStage::RewritingTypesHeader => {
            let headers = join_path(target_directory, "include/");
            let machine = join_path(headers.as_str(), "asm/");
            let header = join_path(machine.as_str(), "types.h");
            let invocation = Invocation::new("sed").arg("-i").arg("s/asm-generic/asm/").arg(
                header.as_str(),
            );
            assert(invocation@.arguments =~= musl_rewrite_command(target_directory@).arguments);
            Action::Run {
                invocation,
                description: String::from_str("types_header asm signature replacement"),
            }
        },
        MuslBuildStage::Finished => Action::Done,
        MuslBuildStage::Failed { error } => Action::Fail { error: error.duplicate() },
    }
}

/// One step of the `musl` building sequence, with the number of parallel jobs that
/// `make` is given where the step starts it.
pub fn build_musl_with_jobs(
    build_directory: &str,
    target_directory: &str,
    mode: RunMode,
    jobs: usize,
    stage: MuslBuildStage,
    reply: Option<Reply>,
) -> (next: (MuslBuildStage, Action))
    ensures
        next.0@ == match reply {
            Some(reply) => musl_build_advanced(stage@, mode, reply@, jobs),
            None => stage@,
        },
        next.1@ == musl_build_pending(build_directory@, target_directory@, next.0@),
{
    let stage = match reply {
        None => stage,
        Some(Reply::Files { outcome }) => {
            if musl_waits_for_files(&stage) {
                musl_next(files_result(outcome), stage, jobs)
            } else {
                stage
            }
        },
        Some(Reply::Command { outcome }) => {
            if musl_waits_for_command(&stage) && !(!mode.dry_run && outcome.is_none()) {
                let description = musl_stage_description(&stage);
                musl_next(command(mode, description, outcome), stage, jobs)
            } else {
                stage
            }
        },
        Some(_) => stage,
    };
    let action = musl_pending_action(build_directory, target_directory, &stage);
    (stage, action)
}

/// The `musl` building sequence, one step at a time: the two directories, then
/// configure, make and make install, then the system headers are copied beside the
/// installed ones and the types header is pointed at the architecture's.
///
/// `stage` is how far the sequence has come and `reply` is how the action that it
/// asked for ended (`None` to be told that action again). `make` is given as many
/// parallel jobs as the machine has processors.
pub fn build_musl(
    build_directory: &str,
    target_directory: &str,
    mode: RunMode,
    stage: MuslBuildStage,
    reply: Option<Reply>,
) -> (next: (MuslBuildStage, Action))
    ensures
        exists|jobs: usize|
            next.0@ == #[trigger] musl_build_advanced_or_same(
                stage@,
                mode,
                reply.deep_view(),
                jobs,
            ),
        next.1@ == musl_build_pending(build_directory@, target_directory@, next.0@),
{
    let jobs = cpu_count();
    let next = build_musl_with_jobs(build_directory, target_directory, mode, jobs, stage, reply);
    assert(next.0@ == musl_build_advanced_or_same(stage@, mode, reply.deep_view(), jobs));
    next
}

/// The stage after `reply`, or `stage` itself where there is none.
pub open spec fn musl_build_advanced_or_same(
    stage: MuslBuildStageView,
    mode: RunMode,
    reply: Option<ReplyView>,
    jobs: usize,
) -> MuslBuildStageView {
    match reply {
        Some(reply) => musl_build_advanced(stage, mode, reply, jobs),
        None => stage,
    }
}

/// A failure ends both musl sequences, and so does their completion: once a
/// sequence has failed or finished, no reply moves it, so no later step is asked
/// for and nothing that was done is undone.
pub proof fn law_musl_sequences_end(
    name: Seq<char>,
    mode: RunMode,
    reply: ReplyView,
    jobs: usize,
    error: BuildErrorView,
)
    ensures
        musl_download_advanced(name, MuslDownloadStageView::Failed { error }, reply) == (
        MuslDownloadStageView::Failed { error }),
        musl_download_advanced(name, MuslDownloadStageView::Finished, reply)
            == MuslDownloadStageView::Finished,
        musl_build_advanced(MuslBuildStageView::Failed { error }, mode, reply, jobs) == (
        MuslBuildStageView::Failed { error }),
        musl_build_advanced(MuslBuildStageView::Finished, mode, reply, jobs)
            == MuslBuildStageView::Finished,
{
}

} // verus!
