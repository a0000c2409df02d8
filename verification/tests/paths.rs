use compiler_llvm_builder::error::BuildError;
use compiler_llvm_builder::llvm_path::{
    join_path, LLVMPath, WorkingDirectory, DIRECTORY_LLVM_SOURCE, DIRECTORY_LLVM_TARGET,
};
use compiler_llvm_builder::options::BuildPaths;
use compiler_llvm_builder::utils::{absolute_path, converted_path, path_windows_to_unix};

fn known(path: &str) -> WorkingDirectory {
    WorkingDirectory::Known { path: path.to_string() }
}

#[test]
fn join_path_puts_one_separator_between() {
    assert_eq!(join_path("/work", "llvm"), "/work/llvm");
    assert_eq!(join_path("/work/", "llvm"), "/work/llvm");
    assert_eq!(join_path("", "llvm"), "llvm");
    assert_eq!(join_path("/work", ""), "/work/");
    assert_eq!(join_path("/work", "./llvm/"), "/work/./llvm/");
    assert_eq!(join_path("./llvm/", "llvm"), "./llvm/llvm");
}

#[test]
fn join_path_lets_an_absolute_path_replace_the_base() {
    assert_eq!(join_path("/work", "/usr/include"), "/usr/include");
    assert_eq!(join_path("", "/"), "/");
}

#[test]
fn absolute_path_appends_to_the_working_directory() {
    assert_eq!(absolute_path(&known("/home/user"), "LLVM.lock"), Ok("/home/user/LLVM.lock".to_string()));
    assert_eq!(
        absolute_path(&WorkingDirectory::Unknown { reason: "gone".to_string() }, "LLVM.lock"),
        Err(BuildError::PathResolution { reason: "gone".to_string() })
    );
}

#[test]
fn llvm_paths_follow_the_fixed_layout() {
    let root = known("/work");
    assert_eq!(DIRECTORY_LLVM_SOURCE, "./llvm/");
    assert_eq!(DIRECTORY_LLVM_TARGET, "./target-llvm/");
    assert_eq!(LLVMPath::llvm_module_llvm(&root), Ok("/work/./llvm/llvm".to_string()));
    assert_eq!(LLVMPath::llvm_build_final(&root), Ok("/work/./target-llvm/build-final".to_string()));
    assert_eq!(LLVMPath::llvm_target_final(&root), Ok("/work/./target-llvm/target-final".to_string()));
    assert_eq!(LLVMPath::musl_source(&root, "musl-1.2.3"), Ok("/work/./target-llvm/musl-1.2.3".to_string()));
    assert_eq!(LLVMPath::musl_target(&root), Ok("/work/./target-llvm/target-musl".to_string()));
    assert_eq!(LLVMPath::musl_build("/work/./target-llvm/musl-1.2.3"), "/work/./target-llvm/musl-1.2.3/build");
}

#[test]
fn llvm_paths_are_the_same_on_every_call() {
    let root = known("/somewhere/else/");
    assert_eq!(LLVMPath::llvm_build_final(&root), LLVMPath::llvm_build_final(&root));
    assert_eq!(BuildPaths::resolve(&root), BuildPaths::resolve(&root));
    let paths = BuildPaths::resolve(&root).unwrap();
    assert_eq!(paths.module, "/somewhere/else/./llvm/llvm");
    assert_ne!(paths.module, paths.build);
    assert_ne!(paths.build, paths.install);
    assert_ne!(paths.module, paths.install);
}

#[test]
fn llvm_paths_fail_without_a_working_directory() {
    let lost = WorkingDirectory::Unknown { reason: "No such file or directory".to_string() };
    let error = BuildError::PathResolution { reason: "No such file or directory".to_string() };
    assert_eq!(LLVMPath::llvm_module_llvm(&lost), Err(error.clone()));
    assert_eq!(LLVMPath::musl_target(&lost), Err(error.clone()));
    assert_eq!(BuildPaths::resolve(&lost), Err(error.clone()));
    assert_eq!(error.message(), "No such file or directory");
}

#[test]
fn path_with_forward_slashes_is_kept() {
    assert_eq!(path_windows_to_unix("foo/bar/piyo.txt"), Ok("foo/bar/piyo.txt".to_string()));
}

#[test]
fn path_without_a_conversion_is_an_error() {
    assert_eq!(converted_path(Some("a/b".to_string())), Ok("a/b".to_string()));
    assert_eq!(converted_path(None), Err(BuildError::PathConversion));
    assert_eq!(BuildError::PathConversion.message(), "Windows-to-Unix path conversion error");
}
