use compiler_llvm_builder::build_type::BuildType;
use compiler_llvm_builder::llvm_path::WorkingDirectory;
use compiler_llvm_builder::options::{compose, BuildOptions, BuildPaths};
use compiler_llvm_builder::platforms::aarch64_macos::platform_build_opts;
use compiler_llvm_builder::platforms::shared::{
    macos_build_opts_ignore_duplicate_libs_warnings, shared_build_opts,
    shared_build_opts_assertions, shared_build_opts_ccache, shared_build_opts_coverage,
    shared_build_opts_not_musl, shared_build_opts_tests,
};
use compiler_llvm_builder::platforms::{Platform, TargetSet};

fn paths() -> BuildPaths {
    BuildPaths::resolve(&WorkingDirectory::Known { path: "/work".to_string() }).unwrap()
}

fn options(tests: bool, coverage: bool, ccache: bool, assertions: bool) -> BuildOptions {
    BuildOptions {
        build_type: BuildType::Release,
        targets: TargetSet::from_platforms(&vec![Platform::X86, Platform::AArch64]),
        enable_tests: tests,
        enable_coverage: coverage,
        extra_args: vec!["-DFOO=1".to_string()],
        use_ccache: ccache,
        enable_assertions: assertions,
    }
}

fn count(flags: &[String], wanted: &str) -> usize {
    flags.iter().filter(|flag| flag.as_str() == wanted).count()
}

fn count_prefixed(flags: &[String], prefix: &str) -> usize {
    flags.iter().filter(|flag| flag.starts_with(prefix)).count()
}

#[test]
fn compose_release_for_two_targets_with_tests_and_assertions() {
    let flags = compose(&options(true, false, false, true), &paths(), false, &Vec::new());
    let expected: Vec<String> = vec![
        "-S",
        "/work/./llvm/llvm",
        "-B",
        "/work/./target-llvm/build-final",
        "-G",
        "Ninja",
        "-DCMAKE_INSTALL_PREFIX='/work/./target-llvm/target-final'",
        "-DCMAKE_BUILD_TYPE='Release'",
        "-DLLVM_TARGETS_TO_BUILD='X86;AArch64'",
        "-DPACKAGE_VENDOR='Matter Labs'",
        "-DCMAKE_BUILD_WITH_INSTALL_RPATH=1",
        "-DLLVM_BUILD_DOCS='Off'",
        "-DLLVM_INCLUDE_DOCS='Off'",
        "-DLLVM_INCLUDE_BENCHMARKS='Off'",
        "-DLLVM_INCLUDE_EXAMPLES='Off'",
        "-DLLVM_ENABLE_DOXYGEN='Off'",
        "-DLLVM_ENABLE_SPHINX='Off'",
        "-DLLVM_ENABLE_OCAMLDOC='Off'",
        "-DLLVM_ENABLE_ZLIB='Off'",
        "-DLLVM_ENABLE_ZSTD='Off'",
        "-DLLVM_ENABLE_LIBXML2='Off'",
        "-DLLVM_ENABLE_BINDINGS='Off'",
        "-DLLVM_ENABLE_TERMINFO='Off'",
        "-DLLVM_ENABLE_LIBEDIT='Off'",
        "-DLLVM_ENABLE_LIBPFM='Off'",
        "-DCMAKE_EXPORT_COMPILE_COMMANDS='On'",
        "-DPython3_FIND_REGISTRY='LAST'",
        "-DBUG_REPORT_URL='https://github.com/matter-labs/era-compiler-llvm/issues/'",
        "-DLLVM_OPTIMIZED_TABLEGEN='On'",
        "-DLLVM_BUILD_RUNTIME='Off'",
        "-DLLVM_BUILD_RUNTIMES='Off'",
        "-DLLVM_INCLUDE_RUNTIMES='Off'",
        "-DFOO=1",
        "-DLLVM_BUILD_UTILS='On'",
        "-DLLVM_BUILD_TESTS='On'",
        "-DLLVM_INCLUDE_UTILS='On'",
        "-DLLVM_INCLUDE_TESTS='On'",
        "-DLLVM_ENABLE_ASSERTIONS='On'",
    ]
    .into_iter()
    .map(|flag| flag.to_string())
    .collect();
    assert_eq!(flags, expected);
}

#[test]
fn compose_holds_no_coverage_flag_when_coverage_is_off() {
    let flags = compose(&options(true, false, false, true), &paths(), false, &Vec::new());
    assert_eq!(count(&flags, "-DLLVM_BUILD_INSTRUMENTED_COVERAGE='On'"), 0);
    assert_eq!(count_prefixed(&flags, "-DCMAKE_C_COMPILER_LAUNCHER"), 0);
    assert_eq!(count_prefixed(&flags, "-DCMAKE_CXX_COMPILER_LAUNCHER"), 0);
}

#[test]
fn compose_holds_build_type_and_target_list_once_for_every_toggle_combination() {
    for bits in 0..16u32 {
        let chosen = options(bits & 1 != 0, bits & 2 != 0, bits & 4 != 0, bits & 8 != 0);
        for musl in [false, true] {
            let flags = compose(&chosen, &paths(), musl, &platform_build_opts(15));
            assert_eq!(count_prefixed(&flags, "-DCMAKE_BUILD_TYPE="), 1);
            assert_eq!(flags[7], "-DCMAKE_BUILD_TYPE='Release'");
            assert_eq!(count_prefixed(&flags, "-DLLVM_TARGETS_TO_BUILD="), 1);
            assert_eq!(flags[8], "-DLLVM_TARGETS_TO_BUILD='X86;AArch64'");
            for flag in shared_build_opts_tests(true) {
                assert_eq!(count(&flags, &flag), usize::from(bits & 1 != 0));
            }
            for flag in shared_build_opts_coverage(true) {
                assert_eq!(count(&flags, &flag), usize::from(bits & 2 != 0));
            }
            for flag in shared_build_opts_ccache(true) {
                assert_eq!(count(&flags, &flag), usize::from(bits & 4 != 0));
            }
            for flag in shared_build_opts_assertions(true) {
                assert_eq!(count(&flags, &flag), usize::from(bits & 8 != 0));
            }
            for flag in shared_build_opts_not_musl(false) {
                assert_eq!(count(&flags, &flag), usize::from(!musl));
            }
        }
    }
}

#[test]
fn compose_keeps_the_toggles_in_their_fixed_order() {
    let flags = compose(&options(true, true, true, true), &paths(), false, &Vec::new());
    let tail: Vec<&str> = flags[33..].iter().map(|flag| flag.as_str()).collect();
    assert_eq!(
        tail,
        vec![
            "-DLLVM_BUILD_UTILS='On'",
            "-DLLVM_BUILD_TESTS='On'",
            "-DLLVM_INCLUDE_UTILS='On'",
            "-DLLVM_INCLUDE_TESTS='On'",
            "-DLLVM_BUILD_INSTRUMENTED_COVERAGE='On'",
            "-DCMAKE_C_COMPILER_LAUNCHER='ccache'",
            "-DCMAKE_CXX_COMPILER_LAUNCHER='ccache'",
            "-DLLVM_ENABLE_ASSERTIONS='On'",
        ]
    );
}

#[test]
fn compose_twice_gives_the_same_list() {
    let chosen = options(true, true, false, true);
    let first = compose(&chosen, &paths(), false, &platform_build_opts(15));
    let second = compose(&chosen, &paths(), false, &platform_build_opts(15));
    assert_eq!(first, second);
}

#[test]
fn compose_passes_extra_arguments_through_without_deduplication() {
    let mut chosen = options(false, false, false, false);
    chosen.extra_args = vec![
        "-DCMAKE_BUILD_TYPE='Debug'".to_string(),
        "-DFOO=1".to_string(),
        "-DFOO=1".to_string(),
    ];
    let flags = compose(&chosen, &paths(), false, &Vec::new());
    assert_eq!(count(&flags, "-DFOO=1"), 2);
    assert_eq!(count_prefixed(&flags, "-DCMAKE_BUILD_TYPE="), 2);
    assert_eq!(&flags[32..], &chosen.extra_args[..]);
}

#[test]
fn compose_for_musl_leaves_the_excluded_flags_out() {
    let flags = compose(&options(false, false, false, false), &paths(), true, &Vec::new());
    assert_eq!(flags.len(), 8 + 1 + 19 + 1);
    assert_eq!(flags[28], "-DFOO=1");
    assert_eq!(count(&flags, "-DLLVM_OPTIMIZED_TABLEGEN='On'"), 0);
}

#[test]
fn compose_puts_the_platform_flags_last() {
    let flags = compose(&options(false, false, false, true), &paths(), false, &platform_build_opts(15));
    let tail: Vec<&str> = flags[33..].iter().map(|flag| flag.as_str()).collect();
    assert_eq!(
        tail,
        vec![
            "-DLLVM_ENABLE_ASSERTIONS='On'",
            "-DLLVM_ENABLE_PROJECTS='lld'",
            "-DCMAKE_OSX_DEPLOYMENT_TARGET='11.0'",
            "-DCMAKE_EXE_LINKER_FLAGS='-Wl,-no_warn_duplicate_libraries'",
            "-DCMAKE_SHARED_LINKER_FLAGS='-Wl,-no_warn_duplicate_libraries'",
        ]
    );
}

#[test]
fn target_list_follows_the_order_of_the_set() {
    let mut chosen = options(false, false, false, false);
    chosen.targets = TargetSet::from_platforms(&vec![Platform::AArch64, Platform::X86]);
    let flags = compose(&chosen, &paths(), false, &Vec::new());
    assert_eq!(flags[8], "-DLLVM_TARGETS_TO_BUILD='AArch64;X86'");
    chosen.targets = TargetSet::from_platforms(&vec![Platform::X86]);
    let flags = compose(&chosen, &paths(), false, &Vec::new());
    assert_eq!(flags[8], "-DLLVM_TARGETS_TO_BUILD='X86'");
}

#[test]
fn target_set_keeps_each_platform_once() {
    let set = TargetSet::from_platforms(&vec![
        Platform::AArch64,
        Platform::X86,
        Platform::AArch64,
        Platform::X86,
    ]);
    assert_eq!(set.len(), 2);
    assert!(set.contains(Platform::X86));
    assert!(set.contains(Platform::AArch64));
    assert_eq!(set.names(), vec!["AArch64".to_string(), "X86".to_string()]);

    let mut grown = TargetSet::new();
    assert!(grown.is_empty());
    assert!(!grown.contains(Platform::X86));
    assert!(grown.insert(Platform::X86));
    assert!(!grown.insert(Platform::X86));
    assert_eq!(grown.len(), 1);
}

#[test]
fn build_types_and_platforms_have_their_names() {
    assert_eq!(BuildType::Debug.name(), "Debug");
    assert_eq!(BuildType::Release.name(), "Release");
    assert_eq!(BuildType::RelWithDebInfo.name(), "RelWithDebInfo");
    assert_eq!(BuildType::MinSizeRel.name(), "MinSizeRel");
    assert_eq!(BuildType::from_name("MinSizeRel"), Some(BuildType::MinSizeRel));
    assert_eq!(BuildType::from_name("release"), None);
    assert_eq!(Platform::X86.name(), "X86");
    assert_eq!(Platform::AArch64.name(), "AArch64");
    assert_eq!(Platform::from_name("AArch64"), Some(Platform::AArch64));
    assert_eq!(Platform::from_name("x86"), None);
}

#[test]
fn shared_option_sets_have_their_sizes() {
    assert_eq!(shared_build_opts().len(), 19);
    assert_eq!(shared_build_opts_not_musl(false).len(), 4);
    assert!(shared_build_opts_not_musl(true).is_empty());
    assert!(shared_build_opts_tests(false).is_empty());
    assert!(shared_build_opts_coverage(false).is_empty());
    assert!(shared_build_opts_ccache(false).is_empty());
    assert!(shared_build_opts_assertions(false).is_empty());
    assert_eq!(shared_build_opts_tests(true).len(), 4);
    assert_eq!(shared_build_opts_coverage(true), vec!["-DLLVM_BUILD_INSTRUMENTED_COVERAGE='On'"]);
    assert_eq!(shared_build_opts_ccache(true).len(), 2);
    assert_eq!(shared_build_opts_assertions(true), vec!["-DLLVM_ENABLE_ASSERTIONS='On'"]);
}

#[test]
fn duplicate_library_warnings_are_silenced_from_xcode_15_on() {
    assert!(macos_build_opts_ignore_duplicate_libs_warnings(11).is_empty());
    assert!(macos_build_opts_ignore_duplicate_libs_warnings(14).is_empty());
    assert_eq!(macos_build_opts_ignore_duplicate_libs_warnings(15).len(), 2);
    assert_eq!(macos_build_opts_ignore_duplicate_libs_warnings(16).len(), 2);
    assert_eq!(platform_build_opts(14).len(), 2);
    assert_eq!(platform_build_opts(15).len(), 4);
}
