//! The builder for `macos-aarch64` hosts.

use vstd::prelude::*;
use vstd::string::*;

use crate::error::{BuildError, BuildErrorView};
use crate::options::{
    compose, composed, located, BuildOptions, BuildOptionsView, BuildPaths, BuildPathsView,
};
use crate::platforms::shared::{
    duplicate_libs_opts, gated, macos_build_opts_ignore_duplicate_libs_warnings, push_all,
    push_text,
};
use crate::process::{Invocation, InvocationView, ProcessOutcomeView, RunMode};
use crate::step::{Action, ActionView, Reply, ReplyView};
use crate::utils::{
    check_presence, check_presence_invocation, command, command_verdict, get_xcode_version,
    ninja, ninja_install, planned, presence_query, presence_verdict, xcode_version_of,
    NINJA_DESCRIPTION, XCODE_MIN_VERSION, XCODE_VERSION_15,
};

verus! {

/// The description under which the generator runs.
pub const CMAKE_DESCRIPTION: &'static str = "LLVM building cmake";

/// How far a build has come: what it is waiting for, and what it has learnt.
#[derive(Debug, Clone, PartialEq, Eq)]
pub enum BuildState {
    /// Waiting for the lookup of the generator.
    CheckingCmake,
    /// Waiting for the lookup of the build driver.
    CheckingNinja,
    /// Waiting for the working directory.
    ResolvingPaths,
    /// Waiting for the version of the command-line tools.
    ProbingXcode { paths: BuildPaths },
    /// Waiting for the generator.
    Generating { paths: BuildPaths, xcode_version: u32 },
    /// Waiting for the build driver.
    Installing { build: String },
    /// The build succeeded.
    Finished,
    /// The build failed.
    Failed { error: BuildError },
}

/// A [`BuildState`] over sequences.
pub enum BuildStateView {
    CheckingCmake,
    CheckingNinja,
    ResolvingPaths,
    ProbingXcode { paths: BuildPathsView },
    Generating { paths: BuildPathsView, xcode_version: u32 },
    Installing { build: Seq<char> },
    Finished,
    Failed { error: BuildErrorView },
}

impl View for BuildState {
    type V = BuildStateView;

    open spec fn view(&self) -> BuildStateView {
        match self {
            BuildState::CheckingCmake => BuildStateView::CheckingCmake,
            BuildState::CheckingNinja => BuildStateView::CheckingNinja,
            BuildState::ResolvingPaths => BuildStateView::ResolvingPaths,
            BuildState::ProbingXcode { paths } => BuildStateView::ProbingXcode { paths: paths@ },
            BuildState::Generating { paths, xcode_version } => BuildStateView::Generating {
                paths: paths@,
                xcode_version: *xcode_version,
            },
            BuildState::Installing { build } => BuildStateView::Installing { build: build@ },
            BuildState::Finished => BuildStateView::Finished,
            BuildState::Failed { error } => BuildStateView::Failed { error: error@ },
        }
    }
}

/// The flags that only this platform adds: the linker project, the deployment
/// target, and for Xcode 15 and later the flags against the duplicate-library
/// warning.
pub open spec fn platform_flags(xcode_version: u32) -> Seq<Seq<char>> {
    seq!["-DLLVM_ENABLE_PROJECTS='lld'"@, "-DCMAKE_OSX_DEPLOYMENT_TARGET='11.0'"@] + gated(
        xcode_version >= XCODE_VERSION_15,
        duplicate_libs_opts(),
    )
}

/// The flags that only this platform adds.
pub fn platform_build_opts(xcode_version: u32) -> (flags: Vec<String>)
    ensures
        flags.deep_view() == platform_flags(xcode_version),
{
    let mut flags: Vec<String> = Vec::new();
    assert(flags.deep_view() =~= Seq::empty());
    push_text(&mut flags, "-DLLVM_ENABLE_PROJECTS='lld'");
    push_text(&mut flags, "-DCMAKE_OSX_DEPLOYMENT_TARGET='11.0'");
    push_all(&mut flags, &macos_build_opts_ignore_duplicate_libs_warnings(xcode_version));
    flags
}

/// The command that generates the build files.
pub open spec fn generate_command(
    options: BuildOptionsView,
    paths: BuildPathsView,
    xcode_version: u32,
) -> InvocationView {
    InvocationView {
        program: "cmake"@,
        arguments: composed(options, paths, false, platform_flags(xcode_version)),
        directory: None,
    }
}

/// The version to build for: the probed one, or the minimum that is supported
/// where the probe failed.
pub open spec fn version_or_minimum(probed: Result<u32, BuildErrorView>) -> u32 {
    match probed {
        Ok(version) => version,
        Err(_) => XCODE_MIN_VERSION,
    }
}

/// The tool whose lookup `state` waits for, if it waits for one.
pub open spec fn awaited_tool(state: BuildStateView) -> Option<Seq<char>> {
    match state {
        BuildStateView::CheckingCmake => Some("cmake"@),
        BuildStateView::CheckingNinja => Some("ninja"@),
        _ => None,
    }
}

/// The action that a build in `state` asks for.
pub open spec fn pending(
    options: BuildOptionsView,
    mode: RunMode,
    state: BuildStateView,
) -> ActionView {
    match state {
        BuildStateView::CheckingCmake => ActionView::Spawn {
            invocation: presence_query("cmake"@),
        },
        BuildStateView::CheckingNinja => ActionView::Spawn {
            invocation: presence_query("ninja"@),
        },
        BuildStateView::ResolvingPaths => ActionView::WorkingDirectory,
        BuildStateView::ProbingXcode { .. } => ActionView::ProbeXcode,
        BuildStateView::Generating { paths, xcode_version } => ActionView::Run {
            invocation: generate_command(options, paths, xcode_version),
            description: CMAKE_DESCRIPTION@,
        },
        BuildStateView::Installing { build } => ActionView::Run {
            invocation: ninja_install(build, mode),
            description: NINJA_DESCRIPTION@,
        },
        BuildStateView::Finished => ActionView::Done,
        BuildStateView::Failed { error } => ActionView::Fail { error },
    }
}

/// The state after a step that ended with `verdict`: `onward` on success, failed
/// with the step's error otherwise.
pub open spec fn onward_or_failed(
    verdict: Result<(), BuildErrorView>,
    onward: BuildStateView,
) -> BuildStateView {
    match verdict {
        Ok(_) => onward,
        Err(error) => BuildStateView::Failed { error },
    }
}

/// The state that follows `state` when `reply` comes in. A reply that does not
/// answer the action that `state` asks for changes nothing; a finished or failed
/// build stays as it is.
pub open spec fn advanced(
    state: BuildStateView,
    mode: RunMode,
    reply: ReplyView,
) -> BuildStateView {
    match (state, reply) {
        (BuildStateView::CheckingCmake, ReplyView::Process { outcome }) => onward_or_failed(
            presence_verdict("cmake"@, outcome),
            BuildStateView::CheckingNinja,
        ),
        (BuildStateView::CheckingNinja, ReplyView::Process { outcome }) => onward_or_failed(
            presence_verdict("ninja"@, outcome),
            BuildStateView::ResolvingPaths,
        ),
        (BuildStateView::ResolvingPaths, ReplyView::WorkingDirectory { directory }) => {
            match located(directory) {
                Ok(paths) => BuildStateView::ProbingXcode { paths },
                Err(error) => BuildStateView::Failed { error },
            }
        },
        (BuildStateView::ProbingXcode { paths }, ReplyView::Xcode { probe }) => {
            BuildStateView::Generating {
                paths,
                xcode_version: version_or_minimum(xcode_version_of(probe)),
            }
        },
        (BuildStateView::Generating { paths, .. }, ReplyView::Command { outcome }) => {
            if planned(mode).execute && outcome is None {
                state
            } else {
                onward_or_failed(
                    command_verdict(mode, CMAKE_DESCRIPTION@, outcome),
                    BuildStateView::Installing { build: paths.build },
                )
            }
        },
        (BuildStateView::Installing { .. }, ReplyView::Command { outcome }) => {
            if planned(mode).execute && outcome is None {
                state
            } else {
                onward_or_failed(
                    command_verdict(mode, NINJA_DESCRIPTION@, outcome),
                    BuildStateView::Finished,
                )
            }
        },
        _ => state,
    }
}

/// The state in which every build starts.
pub fn start() -> (state: BuildState)
    ensures
        state@ == BuildStateView::CheckingCmake,
{
    BuildState::CheckingCmake
}

fn onward(verdict: Result<(), BuildError>, next: BuildState) -> (state: BuildState)
    ensures
        state@ == onward_or_failed(crate::error::unit_result(verdict), next@),
{
    match verdict {
        Ok(_) => next,
        Err(error) => BuildState::Failed { error },
    }
}

fn advance(state: BuildState, mode: RunMode, reply: Reply) -> (next: BuildState)
    ensures
        next@ == advanced(state@, mode, reply@),
{
    match (state, reply) {
        (BuildState::CheckingCmake, Reply::Process { outcome }) => onward(
            check_presence("cmake", outcome),
            BuildState::CheckingNinja,
        ),
        (BuildState::CheckingNinja, Reply::Process { outcome }) => onward(
            check_presence("ninja", outcome),
            BuildState::ResolvingPaths,
        ),
        (BuildState::ResolvingPaths, Reply::WorkingDirectory { directory }) => {
            match BuildPaths::resolve(&directory) {
                Ok(paths) => BuildState::ProbingXcode { paths },
                Err(error) => BuildState::Failed { error },
            }
        },
        (BuildState::ProbingXcode { paths }, Reply::Xcode { probe }) => {
            let xcode_version = match get_xcode_version(probe) {
                Ok(version) => version,
                Err(_) => XCODE_MIN_VERSION,
            };
            BuildState::Generating { paths, xcode_version }
        },
        (BuildState::Generating { paths, xcode_version }, Reply::Command { outcome }) => {
            if !mode.dry_run && outcome.is_none() {
                BuildState::Generating { paths, xcode_version }
            } else {
                onward(
                    command(mode, CMAKE_DESCRIPTION, outcome),
                    BuildState::Installing { build: paths.build },
                )
            }
        },
        (BuildState::Installing { build }, Reply::Command { outcome }) => {
            if !mode.dry_run && outcome.is_none() {
                BuildState::Installing { build }
            } else {
                onward(command(mode, NINJA_DESCRIPTION, outcome), BuildState::Finished)
            }
        },
        (state, _) => state,
    }
}

fn pending_action(options: &BuildOptions, mode: RunMode, state: &BuildState) -> (action: Action)
    ensures
        action@ == pending(options@, mode, state@),
{
    match state {
        BuildState::CheckingCmake => Action::Spawn {
            invocation: check_presence_invocation("cmake"),
        },
        BuildState::CheckingNinja => Action::Spawn {
            invocation: check_presence_invocation("ninja"),
        },
        BuildState::ResolvingPaths => Action::WorkingDirectory,
        BuildState::ProbingXcode { .. } => Action::ProbeXcode,
        BuildState::Generating { paths, xcode_version } => {
            let flags = platform_build_opts(*xcode_version);
            let arguments = compose(options, paths, false, &flags);
            let invocation = Invocation::new("cmake").args(arguments);
            assert(invocation@.arguments =~= composed(
                options@,
                paths@,
                false,
                platform_flags(*xcode_version),
            ));
            Action::Run { invocation, description: String::from_str(CMAKE_DESCRIPTION) }
        },
        BuildState::Installing { build } => Action::Run {
            invocation: ninja(build.as_str(), mode),
            description: String::from_str(NINJA_DESCRIPTION),
        },
        BuildState::Finished => Action::Done,
        BuildState::Failed { error } => Action::Fail { error: error.duplicate() },
    }
}

/// The building sequence, one step at a time.
///
/// `state` is how far the build has come and `reply` is how the action that it
/// asked for ended (`None` to be told that action again). The result is the state
/// that follows and the action that the build asks for next: the two tool lookups,
/// the working directory, the Xcode probe, the generator, the build driver.
pub fn build(
    options: &BuildOptions,
    mode: RunMode,
    state: BuildState,
    reply: Option<Reply>,
) -> (next: (BuildState, Action))
    ensures
        next.0@ == match reply {
            Some(reply) => advanced(state@, mode, reply@),
            None => state@,
        },
        next.1@ == pending(options@, mode, next.0@),
{
    let state = match reply {
        Some(reply) => advance(state, mode, reply),
        None => state,
    };
    let action = pending_action(options, mode, &state);
    (state, action)
}

/// The state of a build that started and was given `replies`, one after another.
pub open spec fn after(mode: RunMode, replies: Seq<ReplyView>) -> BuildStateView
    decreases replies.len(),
{
    if replies.len() == 0 {
        BuildStateView::CheckingCmake
    } else {
        advanced(after(mode, replies.drop_last()), mode, replies.last())
    }
}

/// A build that waits for a tool's lookup has done nothing but wait for lookups.
proof fn lemma_lookups_come_first(mode: RunMode, replies: Seq<ReplyView>, upto: int, j: int)
    requires
        0 <= j <= upto <= replies.len(),
        awaited_tool(after(mode, replies.take(upto))) is Some,
    ensures
        awaited_tool(after(mode, replies.take(j))) is Some,
    decreases upto - j,
{
    if j < upto {
        let longer = replies.take(upto);
        assert(longer.drop_last() == replies.take(upto - 1));
        lemma_lookups_come_first(mode, replies, upto - 1, j);
    }
}

/// A failed build stays failed with the same error.
proof fn lemma_failure_is_final(
    mode: RunMode,
    replies: Seq<ReplyView>,
    from: int,
    j: int,
    error: BuildErrorView,
)
    requires
        0 <= from <= j <= replies.len(),
        after(mode, replies.take(from)) == (BuildStateView::Failed { error }),
    ensures
        after(mode, replies.take(j)) == (BuildStateView::Failed { error }),
    decreases j - from,
{
    if from < j {
        lemma_failure_is_final(mode, replies, from, j - 1, error);
        let longer = replies.take(j);
        assert(longer.drop_last() == replies.take(j - 1));
    }
}

/// Missing tools fail fast: when the lookup of a required tool reports that the
/// tool is absent, the build fails with `MissingTool` for that tool and stays
/// failed whatever it is told afterwards; and at no point of such a build, before
/// or after, is anything asked for but tool lookups and the final failure: no
/// working directory is resolved, no probe and no command is run.
pub proof fn law_missing_tool_fails_fast(
    options: BuildOptionsView,
    mode: RunMode,
    replies: Seq<ReplyView>,
    k: int,
)
    requires
        0 <= k < replies.len(),
        awaited_tool(after(mode, replies.take(k))) is Some,
        replies[k] == (ReplyView::Process {
            outcome: ProcessOutcomeView::Exited { success: false },
        }),
    ensures
        after(mode, replies) == (BuildStateView::Failed {
            error: BuildErrorView::MissingTool {
                tool_name: awaited_tool(after(mode, replies.take(k)))->0,
            },
        }),
        forall|j: int|
            0 <= j <= replies.len() ==> {
                let asked = pending(options, mode, #[trigger] after(mode, replies.take(j)));
                if j <= k {
                    asked matches ActionView::Spawn { invocation } && invocation.program
                        == "which"@
                } else {
                    asked == (ActionView::Fail {
                        error: BuildErrorView::MissingTool {
                            tool_name: awaited_tool(after(mode, replies.take(k)))->0,
                        },
                    })
                }
            },
{
    let tool = awaited_tool(after(mode, replies.take(k)))->0;
    let error = BuildErrorView::MissingTool { tool_name: tool };
    let failed = replies.take(k + 1);
    assert(failed.drop_last() == replies.take(k));
    assert(failed.last() == replies[k]);
    assert(after(mode, failed) == (BuildStateView::Failed { error }));
    assert(replies.take(replies.len() as int) == replies);
    lemma_failure_is_final(mode, replies, k + 1, replies.len() as int, error);
    assert forall|j: int| 0 <= j <= replies.len() implies {
        let asked = pending(options, mode, #[trigger] after(mode, replies.take(j)));
        if j <= k {
            asked matches ActionView::Spawn { invocation } && invocation.program == "which"@
        } else {
            asked == (ActionView::Fail { error })
        }
    } by {
        if j <= k {
            lemma_lookups_come_first(mode, replies, k, j);
        } else {
            lemma_failure_is_final(mode, replies, k + 1, j, error);
        }
    }
}

/// A dry run cannot reveal the failure of a command: whatever is reported of the
/// generator or of the build driver, a build in a dry run goes on to the next step.
pub proof fn law_dry_run_commands_never_fail(
    mode: RunMode,
    state: BuildStateView,
    outcome: Option<ProcessOutcomeView>,
)
    requires
        mode.dry_run,
    ensures
        state matches BuildStateView::Generating { paths, .. } ==> advanced(
            state,
            mode,
            ReplyView::Command { outcome },
        ) == (BuildStateView::Installing { build: paths.build }),
        state is Installing ==> advanced(state, mode, ReplyView::Command { outcome })
            == BuildStateView::Finished,
{
}

} // verus!
