use compiler_llvm_builder::build_type::BuildType;
use compiler_llvm_builder::error::BuildError;
use compiler_llvm_builder::dependency::{
    fetch_and_install_dependency, fetch_and_install_dependency_with_jobs, DependencyStage,
};
use compiler_llvm_builder::fetch::{
    Attempt, DownloadTask, FetchOutcome, FetchPolicy, TransferReport, UnpackOutcome,
};
use compiler_llvm_builder::llvm_path::WorkingDirectory;
use compiler_llvm_builder::options::BuildOptions;
use compiler_llvm_builder::platforms::aarch64_macos::{build, start, BuildState};
use compiler_llvm_builder::platforms::{Platform, TargetSet};
use compiler_llvm_builder::process::{Invocation, ProcessOutcome, RunMode};
use compiler_llvm_builder::step::{Action, FileOutcome, Reply};
use compiler_llvm_builder::utils::{
    build_musl, build_musl_with_jobs, download_musl, MuslBuildStage, MuslDownloadStage, XcodeProbe,
};

const REAL: RunMode = RunMode { verbose: false, dry_run: false };
const DRY: RunMode = RunMode { verbose: false, dry_run: true };

fn chosen_options() -> BuildOptions {
    BuildOptions {
        build_type: BuildType::Release,
        targets: TargetSet::from_platforms(&vec![Platform::X86, Platform::AArch64]),
        enable_tests: true,
        enable_coverage: false,
        extra_args: vec!["-DFOO=1".to_string()],
        use_ccache: false,
        enable_assertions: true,
    }
}

fn which(tool: &str) -> Action {
    Action::Spawn {
        invocation: Invocation {
            program: "which".to_string(),
            arguments: vec![tool.to_string()],
            directory: None,
        },
    }
}

fn exited(success: bool) -> Reply {
    Reply::Process { outcome: ProcessOutcome::Exited { success } }
}

fn ran(success: bool) -> Reply {
    Reply::Command { outcome: Some(ProcessOutcome::Exited { success }) }
}

fn files_done() -> Reply {
    Reply::Files { outcome: FileOutcome::Completed }
}

fn directory(path: &str) -> Reply {
    Reply::WorkingDirectory { directory: WorkingDirectory::Known { path: path.to_string() } }
}

fn probe(stdout: &str) -> Reply {
    Reply::Xcode { probe: XcodeProbe::Output { stdout: stdout.as_bytes().to_vec() } }
}

#[test]
fn build_starts_with_the_lookup_of_cmake() {
    let (state, action) = build(&chosen_options(), REAL, start(), None);
    assert_eq!(state, BuildState::CheckingCmake);
    assert_eq!(action, which("cmake"));
}

#[test]
fn build_fails_fast_when_cmake_is_missing() {
    let (state, action) = build(&chosen_options(), REAL, start(), Some(exited(false)));
    let error = BuildError::MissingTool { tool_name: "cmake".to_string() };
    assert_eq!(state, BuildState::Failed { error: error.clone() });
    assert_eq!(action, Action::Fail { error: error.clone() });
    let (state, action) = build(&chosen_options(), REAL, state, Some(directory("/work")));
    assert_eq!(state, BuildState::Failed { error: error.clone() });
    assert_eq!(action, Action::Fail { error });
}

#[test]
fn build_fails_fast_when_ninja_is_missing() {
    let (state, action) = build(&chosen_options(), REAL, start(), Some(exited(true)));
    assert_eq!(state, BuildState::CheckingNinja);
    assert_eq!(action, which("ninja"));
    let (state, action) = build(&chosen_options(), REAL, state, Some(exited(false)));
    let error = BuildError::MissingTool { tool_name: "ninja".to_string() };
    assert_eq!(state, BuildState::Failed { error: error.clone() });
    assert_eq!(action, Action::Fail { error });
}

#[test]
fn build_checks_tools_even_in_a_dry_run() {
    let (_, action) = build(&chosen_options(), DRY, start(), Some(exited(false)));
    assert_eq!(
        action,
        Action::Fail { error: BuildError::MissingTool { tool_name: "cmake".to_string() } }
    );
}

#[test]
fn build_runs_through_generate_and_install() {
    let chosen = chosen_options();
    let (state, _) = build(&chosen, REAL, start(), Some(exited(true)));
    let (state, action) = build(&chosen, REAL, state, Some(exited(true)));
    assert_eq!(state, BuildState::ResolvingPaths);
    assert_eq!(action, Action::WorkingDirectory);
    let (state, action) = build(&chosen, REAL, state, Some(directory("/work")));
    assert_eq!(action, Action::ProbeXcode);
    let (state, action) = build(
        &chosen,
        REAL,
        state,
        Some(probe("version: 15.3.0.0.1.1708646388\n")),
    );
    match &action {
        Action::Run { invocation, description } => {
            assert_eq!(description, "LLVM building cmake");
            assert_eq!(invocation.program, "cmake");
            assert_eq!(invocation.directory, None);
            let flags = &invocation.arguments;
            assert_eq!(flags.len(), 8 + 1 + 19 + 4 + 1 + 4 + 1 + 4);
            assert_eq!(flags[0], "-S");
            assert_eq!(flags[1], "/work/./llvm/llvm");
            assert_eq!(flags[3], "/work/./target-llvm/build-final");
            assert_eq!(flags[6], "-DCMAKE_INSTALL_PREFIX='/work/./target-llvm/target-final'");
            assert_eq!(flags[7], "-DCMAKE_BUILD_TYPE='Release'");
            assert_eq!(flags[8], "-DLLVM_TARGETS_TO_BUILD='X86;AArch64'");
            assert_eq!(flags[32], "-DFOO=1");
            assert_eq!(flags[38], "-DLLVM_ENABLE_PROJECTS='lld'");
            assert_eq!(flags[39], "-DCMAKE_OSX_DEPLOYMENT_TARGET='11.0'");
            assert_eq!(
                flags[41],
                "-DCMAKE_SHARED_LINKER_FLAGS='-Wl,-no_warn_duplicate_libraries'"
            );
        }
        other => panic!("unexpected action {:?}", other),
    }
    let (state, action) = build(&chosen, REAL, state, Some(ran(true)));
    assert_eq!(state, BuildState::Installing { build: "/work/./target-llvm/build-final".to_string() });
    assert_eq!(
        action,
        Action::Run {
            invocation: Invocation {
                program: "ninja".to_string(),
                arguments: vec![
                    "-C".to_string(),
                    "/work/./target-llvm/build-final".to_string(),
                    "install".to_string(),
                ],
                directory: None,
            },
            description: "Running ninja install".to_string(),
        }
    );
    let (state, action) = build(&chosen, REAL, state, Some(ran(true)));
    assert_eq!(state, BuildState::Finished);
    assert_eq!(action, Action::Done);
    let (state, action) = build(&chosen, REAL, state, Some(ran(false)));
    assert_eq!(state, BuildState::Finished);
    assert_eq!(action, Action::Done);
}

#[test]
fn build_falls_back_to_the_minimum_xcode_version() {
    let chosen = chosen_options();
    for reply in [
        probe("no version here"),
        probe("version: 99999999999.1"),
        Reply::Xcode { probe: XcodeProbe::PkgutilFailed { reason: "not found".to_string() } },
        Reply::Xcode { probe: XcodeProbe::Output { stdout: vec![0xff, 0xfe] } },
    ] {
        let (state, _) = build(&chosen, REAL, BuildState::ResolvingPaths, Some(directory("/work")));
        let (state, action) = build(&chosen, REAL, state, Some(reply));
        match state {
            BuildState::Generating { xcode_version, .. } => assert_eq!(xcode_version, 11),
            other => panic!("unexpected state {:?}", other),
        }
        match action {
            Action::Run { invocation, .. } => {
                assert_eq!(invocation.arguments.len(), 8 + 1 + 19 + 4 + 1 + 4 + 1 + 2)
            }
            other => panic!("unexpected action {:?}", other),
        }
    }
}

#[test]
fn build_fails_when_the_working_directory_is_unknown() {
    let reply = Reply::WorkingDirectory {
        directory: WorkingDirectory::Unknown { reason: "Permission denied".to_string() },
    };
    let (state, action) = build(&chosen_options(), REAL, BuildState::ResolvingPaths, Some(reply));
    let error = BuildError::PathResolution { reason: "Permission denied".to_string() };
    assert_eq!(state, BuildState::Failed { error: error.clone() });
    assert_eq!(action, Action::Fail { error });
}

#[test]
fn build_stops_when_the_generator_fails() {
    let chosen = chosen_options();
    let (state, _) = build(&chosen, REAL, BuildState::ResolvingPaths, Some(directory("/work")));
    let (state, _) = build(&chosen, REAL, state, Some(probe("version: 14.2\n")));
    let (state, action) = build(&chosen, REAL, state, Some(ran(false)));
    let error = BuildError::ProcessExit { description: "LLVM building cmake".to_string() };
    assert_eq!(state, BuildState::Failed { error: error.clone() });
    assert_eq!(action, Action::Fail { error });
}

#[test]
fn build_in_a_dry_run_previews_the_driver() {
    let chosen = chosen_options();
    let (state, _) = build(&chosen, DRY, BuildState::ResolvingPaths, Some(directory("/work")));
    let (state, _) = build(&chosen, DRY, state, Some(probe("version: 14.2\n")));
    let (state, action) = build(&chosen, DRY, state, Some(Reply::Command { outcome: None }));
    match action {
        Action::Run { invocation, .. } => assert_eq!(
            invocation.arguments,
            vec!["-C", "/work/./target-llvm/build-final", "-n", "install"]
        ),
        other => panic!("unexpected action {:?}", other),
    }
    let (state, action) = build(&chosen, DRY, state, Some(ran(false)));
    assert_eq!(state, BuildState::Finished);
    assert_eq!(action, Action::Done);
}

#[test]
fn build_ignores_a_reply_that_answers_another_action() {
    let chosen = chosen_options();
    let (state, action) = build(&chosen, REAL, start(), Some(directory("/work")));
    assert_eq!(state, BuildState::CheckingCmake);
    assert_eq!(action, which("cmake"));
    let (state, _) = build(&chosen, REAL, BuildState::ResolvingPaths, Some(directory("/work")));
    let (state, _) = build(&chosen, REAL, state, Some(probe("version: 14.2\n")));
    let before = state.clone();
    let (state, _) = build(&chosen, REAL, state, Some(Reply::Command { outcome: None }));
    assert_eq!(state, before);
    let (state, _) = build(&chosen, REAL, state, Some(exited(true)));
    assert_eq!(state, before);
}

#[test]
fn musl_download_fetches_locates_and_unpacks() {
    let (stage, action) = download_musl("musl-1.2.3", MuslDownloadStage::Downloading, None);
    assert_eq!(stage, MuslDownloadStage::Downloading);
    assert_eq!(
        action,
        Action::Download {
            task: DownloadTask {
                url: "https://git.musl-libc.org/cgit/musl/snapshot/musl-1.2.3.tar.gz".to_string(),
                destination_directory: "./target-llvm/".to_string(),
            },
            policy: FetchPolicy { retries: 3, parallel_requests: 1, timeout_seconds: 300 },
        }
    );
    let fetched = Reply::Transfer {
        outcome: FetchOutcome::Completed {
            reports: vec![TransferReport::Summary {
                attempts: vec![Attempt {
                    url: "https://git.musl-libc.org/cgit/musl/snapshot/musl-1.2.3.tar.gz".to_string(),
                    status: 200,
                }],
            }],
        },
    };
    let (stage, action) = download_musl("musl-1.2.3", stage, Some(fetched));
    assert_eq!(stage, MuslDownloadStage::Locating);
    assert_eq!(action, Action::WorkingDirectory);
    let (stage, action) = download_musl("musl-1.2.3", stage, Some(directory("/work")));
    assert_eq!(
        action,
        Action::Unpack {
            archive: "/work/./target-llvm/musl-1.2.3.tar.gz".to_string(),
            directory: "./target-llvm/".to_string(),
        }
    );
    let (stage, action) =
        download_musl("musl-1.2.3", stage, Some(Reply::Archive { outcome: UnpackOutcome::Extracted }));
    assert_eq!(stage, MuslDownloadStage::Finished);
    assert_eq!(action, Action::Done);
}

#[test]
fn musl_download_stops_at_a_rejected_transfer() {
    let rejected = Reply::Transfer {
        outcome: FetchOutcome::Completed {
            reports: vec![TransferReport::Summary {
                attempts: vec![Attempt { url: "u".to_string(), status: 404 }],
            }],
        },
    };
    let (stage, action) = download_musl("musl-1.2.3", MuslDownloadStage::Downloading, Some(rejected));
    let error = BuildError::FetchStatus { url: "u".to_string(), status: 404 };
    assert_eq!(stage, MuslDownloadStage::Failed { error: error.clone() });
    assert_eq!(action, Action::Fail { error });
}

#[test]
fn musl_download_stops_at_a_corrupt_archive() {
    let (stage, action) = download_musl(
        "musl-1.2.3",
        MuslDownloadStage::Unpacking { archive: "/a.tar.gz".to_string() },
        Some(Reply::Archive { outcome: UnpackOutcome::ExtractFailed { reason: "corrupt".to_string() } }),
    );
    let error = BuildError::Unpack { reason: "corrupt".to_string() };
    assert_eq!(stage, MuslDownloadStage::Failed { error: error.clone() });
    assert_eq!(action, Action::Fail { error });
}

fn run(program: &str, arguments: &[&str], directory: Option<&str>, description: &str) -> Action {
    Action::Run {
        invocation: Invocation {
            program: program.to_string(),
            arguments: arguments.iter().map(|argument| argument.to_string()).collect(),
            directory: directory.map(|path| path.to_string()),
        },
        description: description.to_string(),
    }
}

#[test]
fn musl_build_runs_its_nine_steps_in_order() {
    let build = "/src/musl/build";
    let target = "/work/target-musl";
    let mut stage = MuslBuildStage::CreatingBuildDirectory;
    let mut actions = Vec::new();
    let (_, first) = build_musl_with_jobs(build, target, REAL, 8, stage.clone(), None);
    actions.push(first);
    loop {
        let reply = match actions.last().unwrap() {
            Action::Run { .. } => ran(true),
            Action::CreateDirectory { .. } | Action::CopyDirectory { .. } => files_done(),
            _ => break,
        };
        let (next, action) = build_musl_with_jobs(build, target, REAL, 8, stage, Some(reply));
        stage = next;
        actions.push(action);
    }
    assert_eq!(stage, MuslBuildStage::Finished);
    assert_eq!(
        actions,
        vec![
            Action::CreateDirectory { path: "/src/musl/build".to_string() },
            Action::CreateDirectory { path: "/work/target-musl".to_string() },
            run(
                "../configure",
                &[
                    "--prefix=/work/target-musl",
                    "--syslibdir=/work/target-musl/lib/",
                    "--enable-wrapper='clang'",
                ],
                Some(build),
                "MUSL configuring",
            ),
            run("make", &["-j", "8"], Some(build), "MUSL building"),
            run("make", &["install"], Some(build), "MUSL installing"),
            Action::CreateDirectory { path: "/work/target-musl/include/asm/".to_string() },
            Action::CopyDirectory {
                from: "/usr/include/linux".to_string(),
                to: "/work/target-musl/include/".to_string(),
                content_only: false,
            },
            Action::CopyDirectory {
                from: "/usr/include/asm-generic".to_string(),
                to: "/work/target-musl/include/asm/".to_string(),
                content_only: true,
            },
            run(
                "sed",
                &["-i", "s/asm-generic/asm/", "/work/target-musl/include/asm/types.h"],
                None,
                "types_header asm signature replacement",
            ),
            Action::Done,
        ]
    );
}

#[test]
fn musl_build_stops_at_the_first_failure() {
    let (stage, action) = build_musl_with_jobs(
        "/b",
        "/t",
        REAL,
        4,
        MuslBuildStage::CreatingTargetDirectory,
        Some(Reply::Files { outcome: FileOutcome::Failed { reason: "read-only".to_string() } }),
    );
    let error = BuildError::Io { reason: "read-only".to_string() };
    assert_eq!(stage, MuslBuildStage::Failed { error: error.clone() });
    assert_eq!(action, Action::Fail { error: error.clone() });
    let (stage, action) = build_musl_with_jobs("/b", "/t", REAL, 4, stage, Some(files_done()));
    assert_eq!(stage, MuslBuildStage::Failed { error: error.clone() });
    assert_eq!(action, Action::Fail { error });

    let (stage, _) =
        build_musl_with_jobs("/b", "/t", REAL, 4, MuslBuildStage::Building { jobs: 4 }, Some(ran(false)));
    assert_eq!(
        stage,
        MuslBuildStage::Failed { error: BuildError::ProcessExit { description: "MUSL building".to_string() } }
    );
    let (stage, _) =
        build_musl_with_jobs("/b", "/t", REAL, 4, MuslBuildStage::RewritingTypesHeader, Some(ran(false)));
    assert_eq!(
        stage,
        MuslBuildStage::Failed {
            error: BuildError::ProcessExit {
                description: "types_header asm signature replacement".to_string()
            }
        }
    );
}

#[test]
fn musl_build_ignores_a_reply_that_answers_another_action() {
    let (stage, _) =
        build_musl_with_jobs("/b", "/t", REAL, 4, MuslBuildStage::Configuring, Some(files_done()));
    assert_eq!(stage, MuslBuildStage::Configuring);
    let (stage, _) =
        build_musl_with_jobs("/b", "/t", REAL, 4, stage, Some(Reply::Command { outcome: None }));
    assert_eq!(stage, MuslBuildStage::Configuring);
    let (stage, _) =
        build_musl_with_jobs("/b", "/t", REAL, 4, MuslBuildStage::CopyingAsmHeaders, Some(ran(true)));
    assert_eq!(stage, MuslBuildStage::CopyingAsmHeaders);
}

#[test]
fn musl_build_gives_make_the_processors_of_the_machine() {
    let (stage, action) = build_musl("/b", "/t", REAL, MuslBuildStage::Configuring, Some(ran(true)));
    let jobs = match stage {
        MuslBuildStage::Building { jobs } => jobs,
        other => panic!("unexpected stage {:?}", other),
    };
    assert!(jobs >= 1);
    assert_eq!(action, run("make", &["-j", &jobs.to_string()], Some("/b"), "MUSL building"));
}

fn fetched() -> Reply {
    Reply::Transfer {
        outcome: FetchOutcome::Completed {
            reports: vec![TransferReport::Summary {
                attempts: vec![Attempt { url: "u".to_string(), status: 200 }],
            }],
        },
    }
}

#[test]
fn dependency_is_fetched_then_built_in_its_own_source_tree() {
    let name = "musl-1.2.3";
    let start = compiler_llvm_builder::dependency::start();
    assert_eq!(start, DependencyStage::Fetching { stage: MuslDownloadStage::Downloading });
    let (stage, action) = fetch_and_install_dependency_with_jobs(name, REAL, 2, start, None);
    assert!(matches!(action, Action::Download { .. }));
    let (stage, action) = fetch_and_install_dependency_with_jobs(name, REAL, 2, stage, Some(fetched()));
    assert_eq!(action, Action::WorkingDirectory);
    let (stage, action) =
        fetch_and_install_dependency_with_jobs(name, REAL, 2, stage, Some(directory("/work")));
    assert!(matches!(action, Action::Unpack { .. }));
    let (stage, action) = fetch_and_install_dependency_with_jobs(
        name,
        REAL,
        2,
        stage,
        Some(Reply::Archive { outcome: UnpackOutcome::Extracted }),
    );
    assert_eq!(stage, DependencyStage::Locating);
    assert_eq!(action, Action::WorkingDirectory);
    let (mut stage, mut action) =
        fetch_and_install_dependency_with_jobs(name, REAL, 2, stage, Some(directory("/work")));
    assert_eq!(
        stage,
        DependencyStage::Building {
            build_directory: "/work/./target-llvm/musl-1.2.3/build".to_string(),
            target_directory: "/work/./target-llvm/target-musl".to_string(),
            stage: MuslBuildStage::CreatingBuildDirectory,
        }
    );
    assert_eq!(
        action,
        Action::CreateDirectory { path: "/work/./target-llvm/musl-1.2.3/build".to_string() }
    );
    let mut steps = 0;
    loop {
        let reply = match &action {
            Action::Run { .. } => ran(true),
            Action::CreateDirectory { .. } | Action::CopyDirectory { .. } => files_done(),
            _ => break,
        };
        let next = fetch_and_install_dependency_with_jobs(name, REAL, 2, stage, Some(reply));
        stage = next.0;
        action = next.1;
        steps += 1;
    }
    assert_eq!(steps, 9);
    assert_eq!(stage, DependencyStage::Finished);
    assert_eq!(action, Action::Done);
}

#[test]
fn dependency_fails_with_the_first_step_that_fails() {
    let rejected = Reply::Transfer {
        outcome: FetchOutcome::TransferFailed { reason: "no network".to_string() },
    };
    let (stage, action) = fetch_and_install_dependency(
        "musl-1.2.3",
        REAL,
        compiler_llvm_builder::dependency::start(),
        Some(rejected),
    );
    let error = BuildError::FetchTransfer { reason: "no network".to_string() };
    assert_eq!(stage, DependencyStage::Failed { error: error.clone() });
    assert_eq!(action, Action::Fail { error: error.clone() });
    let (stage, action) = fetch_and_install_dependency("musl-1.2.3", REAL, stage, Some(fetched()));
    assert_eq!(stage, DependencyStage::Failed { error: error.clone() });
    assert_eq!(action, Action::Fail { error });

    let building = DependencyStage::Building {
        build_directory: "/b".to_string(),
        target_directory: "/t".to_string(),
        stage: MuslBuildStage::Installing,
    };
    let (stage, _) = fetch_and_install_dependency("musl-1.2.3", REAL, building, Some(ran(false)));
    assert_eq!(
        stage,
        DependencyStage::Failed {
            error: BuildError::ProcessExit { description: "MUSL installing".to_string() }
        }
    );
    let lost = Reply::WorkingDirectory {
        directory: WorkingDirectory::Unknown { reason: "gone".to_string() },
    };
    let (stage, _) =
        fetch_and_install_dependency("musl-1.2.3", REAL, DependencyStage::Locating, Some(lost));
    assert_eq!(
        stage,
        DependencyStage::Failed { error: BuildError::PathResolution { reason: "gone".to_string() } }
    );
}
