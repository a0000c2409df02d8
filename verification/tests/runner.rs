use compiler_llvm_builder::error::BuildError;
use compiler_llvm_builder::process::{Invocation, ProcessOutcome, RunMode, RunPlan};
use compiler_llvm_builder::utils::{
    check_presence, check_presence_invocation, command, command_plan, ninja,
};

fn mode(verbose: bool, dry_run: bool) -> RunMode {
    RunMode { verbose, dry_run }
}

#[test]
fn dry_run_never_executes_and_always_succeeds() {
    for verbose in [false, true] {
        let dry = mode(verbose, true);
        assert_eq!(command_plan(dry), RunPlan { announce: verbose, execute: false });
        assert_eq!(command(dry, "anything", None), Ok(()));
        assert_eq!(command(dry, "anything", Some(ProcessOutcome::Exited { success: false })), Ok(()));
        assert_eq!(
            command(dry, "anything", Some(ProcessOutcome::SpawnFailed { reason: "gone".to_string() })),
            Ok(())
        );
    }
}

#[test]
fn runner_announces_only_in_verbose_mode() {
    assert_eq!(command_plan(mode(false, false)), RunPlan { announce: false, execute: true });
    assert_eq!(command_plan(mode(true, false)), RunPlan { announce: true, execute: true });
}

#[test]
fn runner_goes_by_the_exit_status_alone() {
    let real = mode(false, false);
    assert_eq!(command(real, "LLVM building cmake", Some(ProcessOutcome::Exited { success: true })), Ok(()));
    let failed = command(real, "LLVM building cmake", Some(ProcessOutcome::Exited { success: false }));
    assert_eq!(failed, Err(BuildError::ProcessExit { description: "LLVM building cmake".to_string() }));
    assert_eq!(failed.unwrap_err().message(), "LLVM building cmake failed");
    let unstarted = command(
        real,
        "MUSL building",
        Some(ProcessOutcome::SpawnFailed { reason: "No such file or directory".to_string() }),
    );
    assert_eq!(
        unstarted,
        Err(BuildError::ProcessSpawn {
            description: "MUSL building".to_string(),
            reason: "No such file or directory".to_string(),
        })
    );
    assert_eq!(unstarted.unwrap_err().message(), "MUSL building process: No such file or directory");
}

#[test]
fn tool_lookup_asks_which() {
    let invocation = check_presence_invocation("cmake");
    assert_eq!(
        invocation,
        Invocation { program: "which".to_string(), arguments: vec!["cmake".to_string()], directory: None }
    );
}

#[test]
fn absent_tool_is_reported_as_missing() {
    assert_eq!(check_presence("ninja", ProcessOutcome::Exited { success: true }), Ok(()));
    let missing = check_presence("ninja", ProcessOutcome::Exited { success: false });
    assert_eq!(missing, Err(BuildError::MissingTool { tool_name: "ninja".to_string() }));
    assert_eq!(missing.unwrap_err().message(), "Tool `ninja` is missing. Please install");
    let unstarted = check_presence("ninja", ProcessOutcome::SpawnFailed { reason: "denied".to_string() });
    assert_eq!(
        unstarted,
        Err(BuildError::ProcessSpawn { description: "`which ninja`".to_string(), reason: "denied".to_string() })
    );
    assert_eq!(unstarted.unwrap_err().message(), "`which ninja` process: denied");
}

#[test]
fn ninja_previews_in_a_dry_run() {
    assert_eq!(
        ninja("/work/build", mode(false, false)),
        Invocation {
            program: "ninja".to_string(),
            arguments: vec!["-C".to_string(), "/work/build".to_string(), "install".to_string()],
            directory: None,
        }
    );
    assert_eq!(
        ninja("/work/build", mode(true, true)).arguments,
        vec!["-C".to_string(), "/work/build".to_string(), "-n".to_string(), "install".to_string()]
    );
}

#[test]
fn invocations_are_built_argument_by_argument() {
    let invocation = Invocation::new("make")
        .current_dir("/tmp/build")
        .arg("-j")
        .args(vec!["8".to_string(), "all".to_string()]);
    assert_eq!(invocation.program, "make");
    assert_eq!(invocation.arguments, vec!["-j", "8", "all"]);
    assert_eq!(invocation.directory, Some("/tmp/build".to_string()));
}
