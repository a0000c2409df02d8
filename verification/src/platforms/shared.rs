//! The option sets that every platform's builder draws from.

use vstd::prelude::*;
use vstd::string::*;

use crate::utils::XCODE_VERSION_15;

verus! {

/// Adds the string `text` to the end of `list`.
pub fn push_text(list: &mut Vec<String>, text: &str)
    ensures
        final(list).deep_view() == old(list).deep_view().push(text@),
{
    let ghost before = list.deep_view();
    list.push(String::from_str(text));
    assert(list.deep_view() =~= before.push(text@));
}

/// Adds every item of `more` to the end of `list`, in order.
pub fn push_all(list: &mut Vec<String>, more: &Vec<String>)
    ensures
        final(list).deep_view() == old(list).deep_view() + more.deep_view(),
{
    let mut i: usize = 0;
    while i < more.len()
        invariant
            0 <= i <= more.len(),
            list.deep_view() == old(list).deep_view() + more.deep_view().take(i as int),
        decreases more.len() - i,
    {
        push_text(list, more[i].as_str());
        i += 1;
        assert(more.deep_view().take(i as int) =~= more.deep_view().take(i - 1).push(
            more[i - 1]@,
        ));
    }
    assert(more.deep_view().take(i as int) == more.deep_view());
}

/// The flags of a toggle: `flags` where it is enabled, none where it is not.
pub open spec fn gated(enabled: bool, flags: Seq<Seq<char>>) -> Seq<Seq<char>> {
    if enabled {
        flags
    } else {
        Seq::empty()
    }
}

/// The flags common to the builds of every platform.
pub open spec fn shared_opts() -> Seq<Seq<char>> {
    seq![
        "-DPACKAGE_VENDOR='Matter Labs'"@,
        "-DCMAKE_BUILD_WITH_INSTALL_RPATH=1"@,
        "-DLLVM_BUILD_DOCS='Off'"@,
        "-DLLVM_INCLUDE_DOCS='Off'"@,
        "-DLLVM_INCLUDE_BENCHMARKS='Off'"@,
        "-DLLVM_INCLUDE_EXAMPLES='Off'"@,
        "-DLLVM_ENABLE_DOXYGEN='Off'"@,
        "-DLLVM_ENABLE_SPHINX='Off'"@,
        "-DLLVM_ENABLE_OCAMLDOC='Off'"@,
        "-DLLVM_ENABLE_ZLIB='Off'"@,
        "-DLLVM_ENABLE_ZSTD='Off'"@,
        "-DLLVM_ENABLE_LIBXML2='Off'"@,
        "-DLLVM_ENABLE_BINDINGS='Off'"@,
        "-DLLVM_ENABLE_TERMINFO='Off'"@,
        "-DLLVM_ENABLE_LIBEDIT='Off'"@,
        "-DLLVM_ENABLE_LIBPFM='Off'"@,
        "-DCMAKE_EXPORT_COMPILE_COMMANDS='On'"@,
        "-DPython3_FIND_REGISTRY='LAST'"@,
        "-DBUG_REPORT_URL='https://github.com/matter-labs/era-compiler-llvm/issues/'"@,
    ]
}

/// The shared flags that a build for musl leaves out.
pub open spec fn not_musl_opts() -> Seq<Seq<char>> {
    seq![
        "-DLLVM_OPTIMIZED_TABLEGEN='On'"@,
        "-DLLVM_BUILD_RUNTIME='Off'"@,
        "-DLLVM_BUILD_RUNTIMES='Off'"@,
        "-DLLVM_INCLUDE_RUNTIMES='Off'"@,
    ]
}

/// The flags that build the tests and their utilities.
pub open spec fn tests_opts() -> Seq<Seq<char>> {
    seq![
        "-DLLVM_BUILD_UTILS='On'"@,
        "-DLLVM_BUILD_TESTS='On'"@,
        "-DLLVM_INCLUDE_UTILS='On'"@,
        "-DLLVM_INCLUDE_TESTS='On'"@,
    ]
}

/// The flag that instruments the build for coverage.
pub open spec fn coverage_opts() -> Seq<Seq<char>> {
    seq!["-DLLVM_BUILD_INSTRUMENTED_COVERAGE='On'"@]
}

/// The flags that route both compilers through the compiler cache.
pub open spec fn ccache_opts() -> Seq<Seq<char>> {
    seq!["-DCMAKE_C_COMPILER_LAUNCHER='ccache'"@, "-DCMAKE_CXX_COMPILER_LAUNCHER='ccache'"@]
}

/// The flag that enables assertions.
pub open spec fn assertions_opts() -> Seq<Seq<char>> {
    seq!["-DLLVM_ENABLE_ASSERTIONS='On'"@]
}

/// The linker flags that silence the warning about duplicate libraries.
pub open spec fn duplicate_libs_opts() -> Seq<Seq<char>> {
    seq![
        "-DCMAKE_EXE_LINKER_FLAGS='-Wl,-no_warn_duplicate_libraries'"@,
        "-DCMAKE_SHARED_LINKER_FLAGS='-Wl,-no_warn_duplicate_libraries'"@,
    ]
}

/// The flags common to the builds of every platform.
pub fn shared_build_opts() -> (flags: Vec<String>)
    ensures
        flags.deep_view() == shared_opts(),
{
    let mut flags: Vec<String> = Vec::new();
    assert(flags.deep_view() =~= Seq::empty());
    push_text(&mut flags, "-DPACKAGE_VENDOR='Matter Labs'");
    push_text(&mut flags, "-DCMAKE_BUILD_WITH_INSTALL_RPATH=1");
    push_text(&mut flags, "-DLLVM_BUILD_DOCS='Off'");
    push_text(&mut flags, "-DLLVM_INCLUDE_DOCS='Off'");
    push_text(&mut flags, "-DLLVM_INCLUDE_BENCHMARKS='Off'");
    push_text(&mut flags, "-DLLVM_INCLUDE_EXAMPLES='Off'");
    push_text(&mut flags, "-DLLVM_ENABLE_DOXYGEN='Off'");
    push_text(&mut flags, "-DLLVM_ENABLE_SPHINX='Off'");
    push_text(&mut flags, "-DLLVM_ENABLE_OCAMLDOC='Off'");
    push_text(&mut flags, "-DLLVM_ENABLE_ZLIB='Off'");
    push_text(&mut flags, "-DLLVM_ENABLE_ZSTD='Off'");
    push_text(&mut flags, "-DLLVM_ENABLE_LIBXML2='Off'");
    push_text(&mut flags, "-DLLVM_ENABLE_BINDINGS='Off'");
    push_text(&mut flags, "-DLLVM_ENABLE_TERMINFO='Off'");
    push_text(&mut flags, "-DLLVM_ENABLE_LIBEDIT='Off'");
    push_text(&mut flags, "-DLLVM_ENABLE_LIBPFM='Off'");
    push_text(&mut flags, "-DCMAKE_EXPORT_COMPILE_COMMANDS='On'");
    push_text(&mut flags, "-DPython3_FIND_REGISTRY='LAST'");
    push_text(
        &mut flags,
        "-DBUG_REPORT_URL='https://github.com/matter-labs/era-compiler-llvm/issues/'",
    );
    flags
}

/// The shared flags that a build for musl leaves out: all of them where `musl` is
/// false, none where it is true.
pub fn shared_build_opts_not_musl(musl: bool) -> (flags: Vec<String>)
    ensures
        flags.deep_view() == gated(!musl, not_musl_opts()),
{
    let mut flags: Vec<String> = Vec::new();
    assert(flags.deep_view() =~= Seq::empty());
    if !musl {
        push_text(&mut flags, "-DLLVM_OPTIMIZED_TABLEGEN='On'");
        push_text(&mut flags, "-DLLVM_BUILD_RUNTIME='Off'");
        push_text(&mut flags, "-DLLVM_BUILD_RUNTIMES='Off'");
        push_text(&mut flags, "-DLLVM_INCLUDE_RUNTIMES='Off'");
    }
    flags
}

/// The flags that build the tests, where `enabled`.
pub fn shared_build_opts_tests(enabled: bool) -> (flags: Vec<String>)
    ensures
        flags.deep_view() == gated(enabled, tests_opts()),
{
    let mut flags: Vec<String> = Vec::new();
    assert(flags.deep_view() =~= Seq::empty());
    if enabled {
        push_text(&mut flags, "-DLLVM_BUILD_UTILS='On'");
        push_text(&mut flags, "-DLLVM_BUILD_TESTS='On'");
        push_text(&mut flags, "-DLLVM_INCLUDE_UTILS='On'");
        push_text(&mut flags, "-DLLVM_INCLUDE_TESTS='On'");
    }
    flags
}

/// The flag that instruments the build for coverage, where `enabled`.
pub fn shared_build_opts_coverage(enabled: bool) -> (flags: Vec<String>)
    ensures
        flags.deep_view() == gated(enabled, coverage_opts()),
{
    let mut flags: Vec<String> = Vec::new();
    assert(flags.deep_view() =~= Seq::empty());
    if enabled {
        push_text(&mut flags, "-DLLVM_BUILD_INSTRUMENTED_COVERAGE='On'");
    }
    flags
}

/// The flags that route the compilers through the compiler cache, where `enabled`.
pub fn shared_build_opts_ccache(enabled: bool) -> (flags: Vec<String>)
    ensures
        flags.deep_view() == gated(enabled, ccache_opts()),
{
    let mut flags: Vec<String> = Vec::new();
    assert(flags.deep_view() =~= Seq::empty());
    if enabled {
        push_text(&mut flags, "-DCMAKE_C_COMPILER_LAUNCHER='ccache'");
        push_text(&mut flags, "-DCMAKE_CXX_COMPILER_LAUNCHER='ccache'");
    }
    flags
}

/// The flag that enables assertions, where `enabled`.
pub fn shared_build_opts_assertions(enabled: bool) -> (flags: Vec<String>)
    ensures
        flags.deep_view() == gated(enabled, assertions_opts()),
{
    let mut flags: Vec<String> = Vec::new();
    assert(flags.deep_view() =~= Seq::empty());
    if enabled {
        push_text(&mut flags, "-DLLVM_ENABLE_ASSERTIONS='On'");
    }
    flags
}

/// The linker flags that silence the warning about duplicate libraries, which the
/// linker of Xcode 15 and later prints.
pub fn macos_build_opts_ignore_duplicate_libs_warnings(xcode_version: u32) -> (flags: Vec<String>)
    ensures
        flags.deep_view() == gated(xcode_version >= XCODE_VERSION_15, duplicate_libs_opts()),
{
    let mut flags: Vec<String> = Vec::new();
    assert(flags.deep_view() =~= Seq::empty());
    if xcode_version >= XCODE_VERSION_15 {
        push_text(&mut flags, "-DCMAKE_EXE_LINKER_FLAGS='-Wl,-no_warn_duplicate_libraries'");
        push_text(&mut flags, "-DCMAKE_SHARED_LINKER_FLAGS='-Wl,-no_warn_duplicate_libraries'");
    }
    flags
}

} // verus!
