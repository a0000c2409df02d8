//! The composed operation that fetches the musl sources and installs musl from
//! them.

use vstd::prelude::*;
use vstd::string::*;

use crate::error::{BuildError, BuildErrorView};
use crate::llvm_path::{joined_path, LLVMPath, WorkingDirectory, WorkingDirectoryView};
use crate::process::RunMode;
use crate::step::{Action, ActionView, Reply, ReplyView};
use crate::utils::{
    build_musl_with_jobs, cpu_count, download_musl, musl_build_advanced, musl_build_pending,
    musl_download_advanced, musl_download_pending, MuslBuildStage, MuslBuildStageView,
    MuslDownloadStage, MuslDownloadStageView,
};

verus! {

/// How far the installation of musl has come.
#[derive(Debug, Clone, PartialEq, Eq)]
#[allow(inconsistent_fields)]
pub enum DependencyStage {
    /// The sources are being fetched and unpacked.
    Fetching { stage: MuslDownloadStage },
    /// Waiting for the working directory, to locate the sources and the trees.
    Locating,
    /// musl is being built in `build_directory` and installed into
    /// `target_directory`.
    Building { build_directory: String, target_directory: String, stage: MuslBuildStage },
    /// musl is installed.
    Finished,
    /// The installation failed; what was done so far is left as it is.
    Failed { error: BuildError },
}

/// A [`DependencyStage`] over sequences.
#[allow(inconsistent_fields)]
pub enum DependencyStageView {
    Fetching { stage: MuslDownloadStageView },
    Locating,
    Building { build_directory: Seq<char>, target_directory: Seq<char>, stage: MuslBuildStageView },
    Finished,
    Failed { error: BuildErrorView },
}

impl View for DependencyStage {
    type V = DependencyStageView;

    open spec fn view(&self) -> DependencyStageView {
        match self {
            DependencyStage::Fetching { stage } => DependencyStageView::Fetching { stage: stage@ },
            DependencyStage::Locating => DependencyStageView::Locating,
            DependencyStage::Building {
                build_directory,
                target_directory,
                stage,
            } => DependencyStageView::Building {
                build_directory: build_directory@,
                target_directory: target_directory@,
                stage: stage@,
            },
            DependencyStage::Finished => DependencyStageView::Finished,
            DependencyStage::Failed { error } => DependencyStageView::Failed { error: error@ },
        }
    }
}

/// The action that the installation of the snapshot `name` asks for in `stage`.
pub open spec fn dependency_pending(name: Seq<char>, stage: DependencyStageView) -> ActionView {
    match stage {
        DependencyStageView::Fetching { stage } => musl_download_pending(name, stage),
        DependencyStageView::Locating => ActionView::WorkingDirectory,
        DependencyStageView::Building {
            build_directory,
            target_directory,
            stage,
        } => musl_build_pending(build_directory, target_directory, stage),
        DependencyStageView::Finished => ActionView::Done,
        DependencyStageView::Failed { error } => ActionView::Fail { error },
    }
}

/// Where the installation stands once the download stands at `stage`: a finished
/// download leads on, a failed one fails the installation.
pub open spec fn after_fetch(stage: MuslDownloadStageView) -> DependencyStageView {
    match stage {
        MuslDownloadStageView::Finished => DependencyStageView::Locating,
        MuslDownloadStageView::Failed { error } => DependencyStageView::Failed { error },
        other => DependencyStageView::Fetching { stage: other },
    }
}

/// Where the installation stands once the build stands at `stage`: a finished
/// build finishes the installation, a failed one fails it.
pub open spec fn after_build(
    build_directory: Seq<char>,
    target_directory: Seq<char>,
    stage: MuslBuildStageView,
) -> DependencyStageView {
    match stage {
        MuslBuildStageView::Finished => DependencyStageView::Finished,
        MuslBuildStageView::Failed { error } => DependencyStageView::Failed { error },
        other => DependencyStageView::Building { build_directory, target_directory, stage: other },
    }
}

/// Where the build starts once the working directory is known: in the `build`
/// directory inside the unpacked sources, installing into the musl target.
pub open spec fn located_build(
    name: Seq<char>,
    directory: WorkingDirectoryView,
) -> DependencyStageView {
    match directory {
        WorkingDirectoryView::Known { .. } => DependencyStageView::Building {
            build_directory: joined_path(
                LLVMPath::source_of_musl(directory, name)->Ok_0,
                "build"@,
            ),
            target_directory: LLVMPath::target_of_musl(directory)->Ok_0,
            stage: MuslBuildStageView::CreatingBuildDirectory,
        },
        WorkingDirectoryView::Unknown { reason } => DependencyStageView::Failed {
            error: BuildErrorView::PathResolution { reason },
        },
    }
}

/// The stage that follows `stage` when `reply` comes in: the download's steps, then
/// the location of the sources, then the build's steps with `jobs` parallel jobs
/// for `make`. The first failure of any step ends the installation.
pub open spec fn dependency_advanced(
    name: Seq<char>,
    mode: RunMode,
    stage: DependencyStageView,
    reply: ReplyView,
    jobs: usize,
) -> DependencyStageView {
    match stage {
        DependencyStageView::Fetching { stage: fetch } => after_fetch(
            musl_download_advanced(name, fetch, reply),
        ),
        DependencyStageView::Locating => match reply {
            ReplyView::WorkingDirectory { directory } => located_build(name, directory),
            _ => stage,
        },
        DependencyStageView::Building {
            build_directory,
            target_directory,
            stage: build,
        } => after_build(
            build_directory,
            target_directory,
            musl_build_advanced(build, mode, reply, jobs),
        ),
        _ => stage,
    }
}

/// The stage after `reply`, or `stage` itself where there is none.
pub open spec fn dependency_advanced_or_same(
    name: Seq<char>,
    mode: RunMode,
    stage: DependencyStageView,
    reply: Option<ReplyView>,
    jobs: usize,
) -> DependencyStageView {
    match reply {
        Some(reply) => dependency_advanced(name, mode, stage, reply, jobs),
        None => stage,
    }
}

/// The stage in which every installation starts.
pub fn start() -> (stage: DependencyStage)
    ensures
        stage@ == (DependencyStageView::Fetching { stage: MuslDownloadStageView::Downloading }),
{
    DependencyStage::Fetching { stage: MuslDownloadStage::Downloading }
}

fn locate_build(name: &str, directory: &WorkingDirectory) -> (stage: DependencyStage)
    ensures
        stage@ == located_build(name@, directory@),
{
    let source = match LLVMPath::musl_source(directory, name) {
        Ok(path) => path,
        Err(error) => {
            return DependencyStage::Failed { error };
        },
    };
    let target_directory = match LLVMPath::musl_target(directory) {
        Ok(path) => path,
        Err(error) => {
            return DependencyStage::Failed { error };
        },
    };
    DependencyStage::Building {
        build_directory: LLVMPath::musl_build(source.as_str()),
        target_directory,
        stage: MuslBuildStage::CreatingBuildDirectory,
    }
}

/// One step of the installation, with the number of parallel jobs that `make` is
/// given where the step starts it.
pub fn fetch_and_install_dependency_with_jobs(
    name: &str,
    mode: RunMode,
    jobs: usize,
    stage: DependencyStage,
    reply: Option<Reply>,
) -> (next: (DependencyStage, Action))
    ensures
        next.0@ == dependency_advanced_or_same(name@, mode, stage@, reply.deep_view(), jobs),
        next.1@ == dependency_pending(name@, next.0@),
{
    let replied = reply.is_some();
    match stage {
        DependencyStage::Fetching { stage: fetch } => {
            let (fetch, action) = download_musl(name, fetch, reply);
            match fetch {
                MuslDownloadStage::Finished => if replied {
                    (DependencyStage::Locating, Action::WorkingDirectory)
                } else {
                    (DependencyStage::Fetching { stage: MuslDownloadStage::Finished }, action)
                },
                MuslDownloadStage::Failed { error } => if replied {
                    (DependencyStage::Failed { error }, action)
                } else {
                    (
                        DependencyStage::Fetching { stage: MuslDownloadStage::Failed { error } },
                        action,
                    )
                },
                other => (DependencyStage::Fetching { stage: other }, action),
            }
        },
        DependencyStage::Locating => match reply {
            Some(Reply::WorkingDirectory { directory }) => {
                match locate_build(name, &directory) {
                    DependencyStage::Building { build_directory, target_directory, stage } => {
                        let (stage, action) = build_musl_with_jobs(
                            build_directory.as_str(),
                            target_directory.as_str(),
                            mode,
                            jobs,
                            stage,
                            None,
                        );
                        (
                            DependencyStage::Building { build_directory, target_directory, stage },
                            action,
                        )
                    },
                    DependencyStage::Failed { error } => {
                        let action = Action::Fail { error: error.duplicate() };
                        (DependencyStage::Failed { error }, action)
                    },
                    _ => (DependencyStage::Locating, Action::WorkingDirectory),
                }
            },
            _ => (DependencyStage::Locating, Action::WorkingDirectory),
        },
        DependencyStage::Building { build_directory, target_directory, stage: build } => {
            let (build, action) = build_musl_with_jobs(
                build_directory.as_str(),
                target_directory.as_str(),
                mode,
                jobs,
                build,
                reply,
            );
            match build {
                MuslBuildStage::Finished => if replied {
                    (DependencyStage::Finished, action)
                } else {
                    (
                        DependencyStage::Building {
                            build_directory,
                            target_directory,
                            stage: MuslBuildStage::Finished,
                        },
                        action,
                    )
                },
                MuslBuildStage::Failed { error } => if replied {
                    (DependencyStage::Failed { error }, action)
                } else {
                    (
                        DependencyStage::Building {
                            build_directory,
                            target_directory,
                            stage: MuslBuildStage::Failed { error },
                        },
                        action,
                    )
                },
                other => (
                    DependencyStage::Building { build_directory, target_directory, stage: other },
                    action,
                ),
            }
        },
        DependencyStage::Finished => (DependencyStage::Finished, Action::Done),
        DependencyStage::Failed { error } => {
            let action = Action::Fail { error: error.duplicate() };
            (DependencyStage::Failed { error }, action)
        },
    }
}

/// Fetches the musl snapshot `name`, unpacks it, builds and installs musl and puts
/// the system headers beside the installed ones, one step at a time.
///
/// `stage` is how far the installation has come and `reply` is how the action that
/// it asked for ended (`None` to be told that action again). `make` is given as
/// many parallel jobs as the machine has processors.
pub fn fetch_and_install_dependency(
    name: &str,
    mode: RunMode,
    stage: DependencyStage,
    reply: Option<Reply>,
) -> (next: (DependencyStage, Action))
    ensures
        exists|jobs: usize|
            next.0@ == #[trigger] dependency_advanced_or_same(
                name@,
                mode,
                stage@,
                reply.deep_view(),
                jobs,
            ),
        next.1@ == dependency_pending(name@, next.0@),
{
    let jobs = cpu_count();
    let next = fetch_and_install_dependency_with_jobs(name, mode, jobs, stage, reply);
    assert(next.0@ == dependency_advanced_or_same(name@, mode, stage@, reply.deep_view(), jobs));
    next
}

/// The first failure ends the installation: the failure of a step of the download
/// or of the build fails the installation with that step's error, and a failed
/// installation stays failed whatever it is told.
pub proof fn law_first_failure_ends_installation(
    name: Seq<char>,
    mode: RunMode,
    stage: DependencyStageView,
    reply: ReplyView,
    jobs: usize,
    error: BuildErrorView,
)
    ensures
        stage matches DependencyStageView::Fetching { stage: fetch } && musl_download_advanced(
            name,
            fetch,
            reply,
        ) == (MuslDownloadStageView::Failed { error }) ==> dependency_advanced(
            name,
            mode,
            stage,
            reply,
            jobs,
        ) == (DependencyStageView::Failed { error }),
        stage matches DependencyStageView::Building { stage: build, .. } && musl_build_advanced(
            build,
            mode,
            reply,
            jobs,
        ) == (MuslBuildStageView::Failed { error }) ==> dependency_advanced(
            name,
            mode,
            stage,
            reply,
            jobs,
        ) == (DependencyStageView::Failed { error }),
        dependency_advanced(name, mode, DependencyStageView::Failed { error }, reply, jobs) == (
        DependencyStageView::Failed { error }),
{
}

} // verus!
