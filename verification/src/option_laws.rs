//! What holds of every argument list that the option composer produces.

use vstd::prelude::*;
use vstd::string::*;

use crate::build_type::BuildType;
use crate::llvm_path::{joined_path, DIRECTORY_LLVM_SOURCE, DIRECTORY_LLVM_TARGET};
use crate::options::{
    base_flags, build_paths, build_type_flag, composed, install_prefix_flag, targets_flag,
    toggle_flags, BuildOptionsView, BuildPathsView,
};
use crate::platforms::shared::{
    assertions_opts, ccache_opts, coverage_opts, duplicate_libs_opts, gated, not_musl_opts,
    shared_opts, tests_opts,
};
use crate::platforms::aarch64_macos::{generate_command, platform_flags};
use crate::platforms::{names_of, Platform};
use crate::text::joined;

verus! {

/// `flag` sets the build type.
pub open spec fn is_build_type_flag(flag: Seq<char>) -> bool {
    exists|build_type: BuildType| flag == #[trigger] build_type_flag(build_type)
}

/// `flag` lists targets to enable.
pub open spec fn is_targets_flag(flag: Seq<char>) -> bool {
    exists|targets: Seq<Platform>| flag == #[trigger] targets_flag(targets)
}

/// The position of the build-type flag in every composed list.
pub open spec fn build_type_position() -> int {
    7
}

/// The position of the target list in every composed list.
pub open spec fn targets_position() -> int {
    8
}

/// The four switches of a build that each add a fixed run of flags.
pub enum Toggle {
    Tests,
    Coverage,
    Ccache,
    Assertions,
}

/// The flags that `toggle` adds where it is enabled.
pub open spec fn toggle_opts(toggle: Toggle) -> Seq<Seq<char>> {
    match toggle {
        Toggle::Tests => tests_opts(),
        Toggle::Coverage => coverage_opts(),
        Toggle::Ccache => ccache_opts(),
        Toggle::Assertions => assertions_opts(),
    }
}

/// Whether `options` enable `toggle`.
pub open spec fn toggle_enabled(options: BuildOptionsView, toggle: Toggle) -> bool {
    match toggle {
        Toggle::Tests => options.enable_tests,
        Toggle::Coverage => options.enable_coverage,
        Toggle::Ccache => options.use_ccache,
        Toggle::Assertions => options.enable_assertions,
    }
}

/// Where the caller's extra arguments start in a composed list: after the eight
/// base flags, the target list and the shared flags.
pub open spec fn extras_start(musl: bool) -> int {
    9 + shared_opts().len() as int + gated(!musl, not_musl_opts()).len() as int
}

/// Where the flags of `toggle` start in a composed list, if it is enabled.
pub open spec fn toggle_start(options: BuildOptionsView, musl: bool, toggle: Toggle) -> int {
    let tests = extras_start(musl) + options.extra_args.len() as int;
    let coverage = tests + gated(options.enable_tests, tests_opts()).len() as int;
    let ccache = coverage + gated(options.enable_coverage, coverage_opts()).len() as int;
    let assertions = ccache + gated(options.use_ccache, ccache_opts()).len() as int;
    match toggle {
        Toggle::Tests => tests,
        Toggle::Coverage => coverage,
        Toggle::Ccache => ccache,
        Toggle::Assertions => assertions,
    }
}

/// `item` stands in `list` as one whole entry: at the start or right after a
/// separator, and at the end or right before one.
pub open spec fn is_entry(list: Seq<char>, separator: Seq<char>, item: Seq<char>) -> bool {
    exists|start: int| #[trigger] entry_at(list, separator, item, start)
}

/// `item` stands in `list` as one whole entry that begins at `start`.
pub open spec fn entry_at(
    list: Seq<char>,
    separator: Seq<char>,
    item: Seq<char>,
    start: int,
) -> bool {
    let end = start + item.len();
    &&& 0 <= start
    &&& end <= list.len()
    &&& list.subrange(start, end) == item
    &&& start == 0 || (separator.len() <= start && list.subrange(start - separator.len(), start)
        == separator)
    &&& end == list.len() || (end + separator.len() <= list.len() && list.subrange(
        end,
        end + separator.len(),
    ) == separator)
}

/// The family that a flag belongs to, told by its length, two of its characters
/// and its last one.
enum Kind {
    Tests,
    Coverage,
    Ccache,
    Assertions,
    BuildType,
    Targets,
    Other,
}

/// The character of `text` at `at`, or a blank where the text is shorter.
spec fn char_at(text: Seq<char>, at: int) -> char {
    if 0 <= at < text.len() {
        text[at]
    } else {
        ' '
    }
}

/// The family of `text`. Only a text that ends in a quote belongs to one: a
/// build-type flag and a target list are told by their ninth and sixteenth
/// characters, the flag of a toggle by these two and its length.
#[verifier::opaque]
spec fn kind(text: Seq<char>) -> Kind {
    let len = text.len();
    let a = char_at(text, 8);
    let b = char_at(text, 15);
    if len == 0 || text.last() != '\'' {
        Kind::Other
    } else if a == 'B' && b == 'Y' {
        Kind::BuildType
    } else if a == 'A' && b == 'T' {
        Kind::Targets
    } else if len == 23 && a == 'U' && (b == 'I' || b == 'S') {
        Kind::Tests
    } else if len == 25 && a == 'N' && (b == 'U' || b == 'T') {
        Kind::Tests
    } else if len == 39 && a == 'U' && b == 'S' {
        Kind::Coverage
    } else if len == 36 && a == 'C' && b == 'L' {
        Kind::Ccache
    } else if len == 38 && a == 'C' && b == 'P' {
        Kind::Ccache
    } else if len == 29 && a == 'N' && b == 'S' {
        Kind::Assertions
    } else {
        Kind::Other
    }
}

/// The family that the flags of `toggle` form.
spec fn toggle_kind(toggle: Toggle) -> Kind {
    match toggle {
        Toggle::Tests => Kind::Tests,
        Toggle::Coverage => Kind::Coverage,
        Toggle::Ccache => Kind::Ccache,
        Toggle::Assertions => Kind::Assertions,
    }
}

/// No shared flag belongs to a family.
proof fn lemma_kind_shared()
    ensures
        forall|j: int|
            0 <= j < shared_opts().len() ==> kind(#[trigger] shared_opts()[j]) == Kind::Other,
{
    reveal(kind);
    reveal_strlit("-DPACKAGE_VENDOR='Matter Labs'");
    reveal_strlit("-DCMAKE_BUILD_WITH_INSTALL_RPATH=1");
    reveal_strlit("-DLLVM_BUILD_DOCS='Off'");
    reveal_strlit("-DLLVM_INCLUDE_DOCS='Off'");
    reveal_strlit("-DLLVM_INCLUDE_BENCHMARKS='Off'");
    reveal_strlit("-DLLVM_INCLUDE_EXAMPLES='Off'");
    reveal_strlit("-DLLVM_ENABLE_DOXYGEN='Off'");
    reveal_strlit("-DLLVM_ENABLE_SPHINX='Off'");
    reveal_strlit("-DLLVM_ENABLE_OCAMLDOC='Off'");
    reveal_strlit("-DLLVM_ENABLE_ZLIB='Off'");
    reveal_strlit("-DLLVM_ENABLE_ZSTD='Off'");
    reveal_strlit("-DLLVM_ENABLE_LIBXML2='Off'");
    reveal_strlit("-DLLVM_ENABLE_BINDINGS='Off'");
    reveal_strlit("-DLLVM_ENABLE_TERMINFO='Off'");
    reveal_strlit("-DLLVM_ENABLE_LIBEDIT='Off'");
    reveal_strlit("-DLLVM_ENABLE_LIBPFM='Off'");
    reveal_strlit("-DCMAKE_EXPORT_COMPILE_COMMANDS='On'");
    reveal_strlit("-DPython3_FIND_REGISTRY='LAST'");
    reveal_strlit("-DBUG_REPORT_URL='https://github.com/matter-labs/era-compiler-llvm/issues/'");
}

/// No flag that musl leaves out belongs to a family.
proof fn lemma_kind_not_musl()
    ensures
        forall|j: int|
            0 <= j < not_musl_opts().len() ==> kind(#[trigger] not_musl_opts()[j]) == Kind::Other,
{
    reveal(kind);
    reveal_strlit("-DLLVM_OPTIMIZED_TABLEGEN='On'");
    reveal_strlit("-DLLVM_BUILD_RUNTIME='Off'");
    reveal_strlit("-DLLVM_BUILD_RUNTIMES='Off'");
    reveal_strlit("-DLLVM_INCLUDE_RUNTIMES='Off'");
}

/// The flags of the tests toggle form its family.
proof fn lemma_kind_tests()
    ensures
        forall|j: int|
            0 <= j < tests_opts().len() ==> kind(#[trigger] tests_opts()[j]) == Kind::Tests,
{
    reveal(kind);
    reveal_strlit("-DLLVM_BUILD_UTILS='On'");
    reveal_strlit("-DLLVM_BUILD_TESTS='On'");
    reveal_strlit("-DLLVM_INCLUDE_UTILS='On'");
    reveal_strlit("-DLLVM_INCLUDE_TESTS='On'");
}

/// The flag of the coverage toggle forms its family.
proof fn lemma_kind_coverage()
    ensures
        forall|j: int|
            0 <= j < coverage_opts().len() ==> kind(#[trigger] coverage_opts()[j])
                == Kind::Coverage,
{
    reveal(kind);
    reveal_strlit("-DLLVM_BUILD_INSTRUMENTED_COVERAGE='On'");
}

/// The flags of the compiler cache toggle form its family.
proof fn lemma_kind_ccache()
    ensures
        forall|j: int|
            0 <= j < ccache_opts().len() ==> kind(#[trigger] ccache_opts()[j]) == Kind::Ccache,
{
    reveal(kind);
    reveal_strlit("-DCMAKE_C_COMPILER_LAUNCHER='ccache'");
    reveal_strlit("-DCMAKE_CXX_COMPILER_LAUNCHER='ccache'");
}

/// The flag of the assertions toggle forms its family.
proof fn lemma_kind_assertions()
    ensures
        forall|j: int|
            0 <= j < assertions_opts().len() ==> kind(#[trigger] assertions_opts()[j])
                == Kind::Assertions,
{
    reveal(kind);
    reveal_strlit("-DLLVM_ENABLE_ASSERTIONS='On'");
}

/// No flag against the duplicate-library warning belongs to a family.
proof fn lemma_kind_duplicate_libs()
    ensures
        forall|j: int|
            0 <= j < duplicate_libs_opts().len() ==> kind(#[trigger] duplicate_libs_opts()[j])
                == Kind::Other,
{
    reveal(kind);
    reveal_strlit("-DCMAKE_EXE_LINKER_FLAGS='-Wl,-no_warn_duplicate_libraries'");
    reveal_strlit("-DCMAKE_SHARED_LINKER_FLAGS='-Wl,-no_warn_duplicate_libraries'");
}

/// Every build-type flag is of the build-type family.
proof fn lemma_kind_build_type(build_type: BuildType)
    ensures
        kind(build_type_flag(build_type)) == Kind::BuildType,
{
    reveal(kind);
    reveal_strlit("-DCMAKE_BUILD_TYPE='");
    reveal_strlit("'");
    let flag = build_type_flag(build_type);
    assert(flag[8] == 'B');
    assert(flag[15] == 'Y');
    assert(flag.last() == '\'');
}

/// Every target list is of the target-list family.
proof fn lemma_kind_targets(targets: Seq<Platform>)
    ensures
        kind(targets_flag(targets)) == Kind::Targets,
{
    reveal(kind);
    reveal_strlit("-DLLVM_TARGETS_TO_BUILD='");
    reveal_strlit("'");
    let flag = targets_flag(targets);
    assert(flag[8] == 'A');
    assert(flag[15] == 'T');
    assert(flag.last() == '\'');
}

/// No install prefix belongs to a family.
proof fn lemma_kind_install_prefix(install: Seq<char>)
    ensures
        kind(install_prefix_flag(install)) == Kind::Other,
{
    reveal(kind);
    reveal_strlit("-DCMAKE_INSTALL_PREFIX='");
    reveal_strlit("'");
    let flag = install_prefix_flag(install);
    assert(flag[8] == 'I');
    assert(flag[15] == '_');
}

/// A relative path keeps its last character when it is appended to a directory.
proof fn lemma_joined_path_last(base: Seq<char>, path: Seq<char>)
    requires
        path.len() > 0,
        path[0] != '/',
    ensures
        joined_path(base, path).len() > 0,
        joined_path(base, path).last() == path.last(),
{
}

/// No location of a build ends in a quote, so none belongs to a family.
proof fn lemma_kind_paths(root: Seq<char>)
    ensures
        kind(build_paths(root).module) == Kind::Other,
        kind(build_paths(root).build) == Kind::Other,
        kind(build_paths(root).install) == Kind::Other,
{
    reveal(kind);
    reveal_strlit("./llvm/");
    reveal_strlit("./target-llvm/");
    reveal_strlit("llvm");
    reveal_strlit("build-final");
    reveal_strlit("target-final");
    let module = joined_path(DIRECTORY_LLVM_SOURCE@, "llvm"@);
    let build = joined_path(DIRECTORY_LLVM_TARGET@, "build-final"@);
    let install = joined_path(DIRECTORY_LLVM_TARGET@, "target-final"@);
    assert(module == DIRECTORY_LLVM_SOURCE@ + "llvm"@);
    assert(build == DIRECTORY_LLVM_TARGET@ + "build-final"@);
    assert(install == DIRECTORY_LLVM_TARGET@ + "target-final"@);
    assert(module[0] == '.' && module.last() == 'm');
    assert(build[0] == '.' && build.last() == 'l');
    assert(install[0] == '.' && install.last() == 'l');
    lemma_joined_path_last(root, module);
    lemma_joined_path_last(root, build);
    lemma_joined_path_last(root, install);
}

/// Of the base flags only the last, the build type, belongs to a family.
proof fn lemma_kind_base(build_type: BuildType, root: Seq<char>)
    ensures
        base_flags(build_type, build_paths(root)).len() == 8,
        forall|j: int|
            0 <= j < 7 ==> kind(#[trigger] base_flags(build_type, build_paths(root))[j])
                == Kind::Other,
        kind(base_flags(build_type, build_paths(root))[7]) == Kind::BuildType,
{
    lemma_kind_paths(root);
    lemma_kind_install_prefix(build_paths(root).install);
    lemma_kind_build_type(build_type);
    assert(kind("-S"@) == Kind::Other && kind("-B"@) == Kind::Other && kind("-G"@) == Kind::Other
        && kind("Ninja"@) == Kind::Other) by {
        reveal(kind);
        reveal_strlit("-S");
        reveal_strlit("-B");
        reveal_strlit("-G");
        reveal_strlit("Ninja");
    }
}

/// The flags of every toggle form its family.
proof fn lemma_kind_toggle(toggle: Toggle)
    ensures
        forall|j: int|
            0 <= j < toggle_opts(toggle).len() ==> kind(#[trigger] toggle_opts(toggle)[j])
                == toggle_kind(toggle),
{
    lemma_kind_tests();
    lemma_kind_coverage();
    lemma_kind_ccache();
    lemma_kind_assertions();
}

#[verifier::rlimit(40)]
/// The family of the flag at `at`, for every position that is neither among the
/// caller's extra arguments nor among the platform's flags; for those two, the
/// flag itself.
proof fn lemma_composed_at(
    options: BuildOptionsView,
    root: Seq<char>,
    musl: bool,
    platform_only: Seq<Seq<char>>,
    at: int,
)
    requires
        0 <= at < composed(options, build_paths(root), musl, platform_only).len(),
    ensures
        ({
            let flags = composed(options, build_paths(root), musl, platform_only);
            let extras = extras_start(musl);
            let toggles = extras + options.extra_args.len();
            let platform = toggles + toggle_flags(options).len();
            &&& extras == 28 + if musl { 0int } else { 4int }
            &&& flags.len() == platform + platform_only.len()
            &&& at < 7 ==> kind(flags[at]) == Kind::Other
            &&& at == 7 ==> flags[at] == build_type_flag(options.build_type)
            &&& at == 8 ==> flags[at] == targets_flag(options.targets)
            &&& 9 <= at < extras ==> kind(flags[at]) == Kind::Other
            &&& extras <= at < toggles ==> flags[at] == options.extra_args[at - extras]
            &&& platform <= at ==> flags[at] == platform_only[at - platform]
            &&& forall|toggle: Toggle|
                #![trigger toggle_start(options, musl, toggle)]
                toggle_enabled(options, toggle) && toggle_start(options, musl, toggle) <= at
                    < toggle_start(options, musl, toggle) + toggle_opts(toggle).len()
                    ==> flags[at] == toggle_opts(toggle)[at - toggle_start(
                    options,
                    musl,
                    toggle,
                )]
            &&& toggles <= at < platform ==> exists|toggle: Toggle|
                #![trigger toggle_start(options, musl, toggle)]
                toggle_enabled(options, toggle) && toggle_start(options, musl, toggle) <= at
                    < toggle_start(options, musl, toggle) + toggle_opts(toggle).len()
        }),
{
    let paths = build_paths(root);
    let base = base_flags(options.build_type, paths);
    lemma_kind_base(options.build_type, root);
    lemma_kind_shared();
    lemma_kind_not_musl();
    let extras = extras_start(musl);
    let toggles = extras + options.extra_args.len();
    let flags = composed(options, paths, musl, platform_only);
    let head = base + seq![targets_flag(options.targets)] + shared_opts() + gated(
        !musl,
        not_musl_opts(),
    );
    assert(head.len() == extras);
    if at < 8 {
        assert(flags[at] == base[at]);
    } else if at == 8 {
    } else if at < 28 {
        assert(flags[at] == shared_opts()[at - 9]);
    } else if at < extras {
        assert(flags[at] == not_musl_opts()[at - 28]);
    } else if at < toggles {
    } else if at < toggles + toggle_flags(options).len() {
        let k = at - toggles;
        assert(flags[at] == toggle_flags(options)[k]);
        let tests = gated(options.enable_tests, tests_opts());
        let coverage = gated(options.enable_coverage, coverage_opts());
        let ccache = gated(options.use_ccache, ccache_opts());
        let assertions = gated(options.enable_assertions, assertions_opts());
        if k < tests.len() {
            assert(toggle_start(options, musl, Toggle::Tests) == toggles);
            assert(toggle_enabled(options, Toggle::Tests));
        } else if k < tests.len() + coverage.len() {
            assert(toggle_start(options, musl, Toggle::Coverage) == toggles + tests.len());
            assert(toggle_enabled(options, Toggle::Coverage));
        } else if k < tests.len() + coverage.len() + ccache.len() {
            assert(toggle_start(options, musl, Toggle::Ccache) == toggles + tests.len()
                + coverage.len());
            assert(toggle_enabled(options, Toggle::Ccache));
        } else {
            assert(toggle_start(options, musl, Toggle::Assertions) == toggles + tests.len()
                + coverage.len() + ccache.len());
            assert(toggle_enabled(options, Toggle::Assertions));
        }
    } else {
    }
    assert forall|toggle: Toggle|
        #![trigger toggle_start(options, musl, toggle)]
        toggle_enabled(options, toggle) && toggle_start(options, musl, toggle) <= at
            < toggle_start(options, musl, toggle) + toggle_opts(toggle).len() implies flags[at]
        == toggle_opts(toggle)[at - toggle_start(options, musl, toggle)] by {
        let k = at - toggles;
        assert(flags[at] == toggle_flags(options)[k]);
    }
}

/// The build-type flag occurs exactly once in every composed list, at its fixed
/// position and set to the requested build type, provided that neither the caller's
/// extra arguments nor the platform's flags bring a build-type flag of their own:
/// such a flag would be passed through as it is.
pub proof fn law_build_type_flag_once(
    options: BuildOptionsView,
    root: Seq<char>,
    musl: bool,
    platform_only: Seq<Seq<char>>,
)
    requires
        forall|i: int|
            0 <= i < options.extra_args.len() ==> !is_build_type_flag(
                #[trigger] options.extra_args[i],
            ),
        forall|i: int|
            0 <= i < platform_only.len() ==> !is_build_type_flag(#[trigger] platform_only[i]),
    ensures
        ({
            let flags = composed(options, build_paths(root), musl, platform_only);
            &&& build_type_position() < flags.len()
            &&& flags[build_type_position()] == build_type_flag(options.build_type)
            &&& forall|at: int|
                0 <= at < flags.len() && at != build_type_position() ==> !is_build_type_flag(
                    #[trigger] flags[at],
                )
        }),
{
    let flags = composed(options, build_paths(root), musl, platform_only);
    lemma_kind_base(options.build_type, root);
    lemma_composed_at(options, root, musl, platform_only, 7);
    assert forall|at: int| 0 <= at < flags.len() && at != 7 implies !is_build_type_flag(
        #[trigger] flags[at],
    ) by {
        lemma_composed_at(options, root, musl, platform_only, at);
        if is_build_type_flag(flags[at]) {
            let build_type = choose|build_type: BuildType|
                flags[at] == #[trigger] build_type_flag(build_type);
            lemma_kind_build_type(build_type);
            lemma_kind_targets(options.targets);
            let toggles = extras_start(musl) + options.extra_args.len();
            if toggles <= at < toggles + toggle_flags(options).len() {
                let toggle = choose|toggle: Toggle|
                    #![trigger toggle_start(options, musl, toggle)]
                    toggle_enabled(options, toggle) && toggle_start(options, musl, toggle) <= at
                        < toggle_start(options, musl, toggle) + toggle_opts(toggle).len();
                lemma_kind_toggle(toggle);
                assert(kind(toggle_opts(toggle)[at - toggle_start(options, musl, toggle)])
                    == toggle_kind(toggle));
            }
        }
    }
}

/// In a list of items joined by a separator, every item stands as a whole entry.
pub proof fn lemma_joined_entries(parts: Seq<Seq<char>>, separator: Seq<char>, index: int)
    requires
        0 <= index < parts.len(),
    ensures
        is_entry(joined(parts, separator), separator, parts[index]),
    decreases parts.len(),
{
    let list = joined(parts, separator);
    if parts.len() == 1 {
        assert(list.subrange(0, list.len() as int) == list);
        assert(entry_at(list, separator, parts[index], 0));
    } else {
        let init = parts.drop_last();
        let shorter = joined(init, separator);
        assert(list == shorter + separator + parts.last());
        if index == parts.len() - 1 {
            let start = (shorter.len() + separator.len()) as int;
            assert(list.subrange(start, list.len() as int) == parts.last());
            assert(list.subrange(start - separator.len(), start) == separator);
            assert(entry_at(list, separator, parts[index], start));
        } else {
            lemma_joined_entries(init, separator, index);
            let item = init[index];
            let start = choose|start: int| #[trigger] entry_at(shorter, separator, item, start);
            let end = start + item.len();
            assert(list.subrange(start, end) == shorter.subrange(start, end));
            if start != 0 {
                assert(list.subrange(start - separator.len(), start) == shorter.subrange(
                    start - separator.len(),
                    start,
                ));
            }
            if end == shorter.len() {
                assert(list.subrange(end, end + separator.len()) == separator);
            } else {
                assert(list.subrange(end, end + separator.len()) == shorter.subrange(
                    end,
                    end + separator.len(),
                ));
            }
            assert(entry_at(list, separator, parts[index], start));
        }
    }
}

/// The target list occurs exactly once in every composed list, at its fixed
/// position, and holds the backend name of every requested target as a whole entry
/// between the separators, whatever the order in which the set is walked. This is
/// provided that neither the caller's extra arguments nor the platform's flags
/// bring a target list of their own.
pub proof fn law_target_list_once(
    options: BuildOptionsView,
    root: Seq<char>,
    musl: bool,
    platform_only: Seq<Seq<char>>,
)
    requires
        options.valid(),
        forall|i: int|
            0 <= i < options.extra_args.len() ==> !is_targets_flag(
                #[trigger] options.extra_args[i],
            ),
        forall|i: int|
            0 <= i < platform_only.len() ==> !is_targets_flag(#[trigger] platform_only[i]),
    ensures
        ({
            let flags = composed(options, build_paths(root), musl, platform_only);
            &&& targets_position() < flags.len()
            &&& flags[targets_position()] == targets_flag(options.targets)
            &&& forall|at: int|
                0 <= at < flags.len() && at != targets_position() ==> !is_targets_flag(
                    #[trigger] flags[at],
                )
        }),
        forall|k: int|
            0 <= k < options.targets.len() ==> is_entry(
                joined(names_of(options.targets), ";"@),
                ";"@,
                (#[trigger] options.targets[k]).name_text(),
            ),
{
    let flags = composed(options, build_paths(root), musl, platform_only);
    lemma_kind_base(options.build_type, root);
    lemma_composed_at(options, root, musl, platform_only, 8);
    assert forall|at: int| 0 <= at < flags.len() && at != 8 implies !is_targets_flag(
        #[trigger] flags[at],
    ) by {
        lemma_composed_at(options, root, musl, platform_only, at);
        if is_targets_flag(flags[at]) {
            let targets = choose|targets: Seq<Platform>|
                flags[at] == #[trigger] targets_flag(targets);
            lemma_kind_targets(targets);
            lemma_kind_build_type(options.build_type);
            let toggles = extras_start(musl) + options.extra_args.len();
            if toggles <= at < toggles + toggle_flags(options).len() {
                let toggle = choose|toggle: Toggle|
                    #![trigger toggle_start(options, musl, toggle)]
                    toggle_enabled(options, toggle) && toggle_start(options, musl, toggle) <= at
                        < toggle_start(options, musl, toggle) + toggle_opts(toggle).len();
                lemma_kind_toggle(toggle);
                assert(kind(toggle_opts(toggle)[at - toggle_start(options, musl, toggle)])
                    == toggle_kind(toggle));
            }
        }
    }
    assert forall|k: int| 0 <= k < options.targets.len() implies is_entry(
        joined(names_of(options.targets), ";"@),
        ";"@,
        (#[trigger] options.targets[k]).name_text(),
    ) by {
        lemma_joined_entries(names_of(options.targets), ";"@, k);
    }
}

/// The middle one of three lists written one after another can be cut out again.
proof fn lemma_middle_run(before: Seq<Seq<char>>, run: Seq<Seq<char>>, behind: Seq<Seq<char>>)
    ensures
        (before + run + behind).len() == before.len() + run.len() + behind.len(),
        (before + run + behind).subrange(
            before.len() as int,
            (before.len() + run.len()) as int,
        ) == run,
{
    assert((before + run + behind).subrange(
        before.len() as int,
        (before.len() + run.len()) as int,
    ) =~= run);
}

/// Where a toggle is enabled, its flags stand as one run at the toggle's place.
proof fn lemma_toggle_run(
    options: BuildOptionsView,
    root: Seq<char>,
    musl: bool,
    platform_only: Seq<Seq<char>>,
    toggle: Toggle,
)
    requires
        toggle_enabled(options, toggle),
    ensures
        ({
            let flags = composed(options, build_paths(root), musl, platform_only);
            let own = toggle_opts(toggle);
            let start = toggle_start(options, musl, toggle);
            0 <= start && start + own.len() <= flags.len() && flags.subrange(
                start,
                start + own.len(),
            ) == own
        }),
{
    let flags = composed(options, build_paths(root), musl, platform_only);
    let own = toggle_opts(toggle);
    let head = base_flags(options.build_type, build_paths(root)) + seq![
        targets_flag(options.targets),
    ] + shared_opts() + gated(!musl, not_musl_opts()) + options.extra_args;
    let tests = gated(options.enable_tests, tests_opts());
    let coverage = gated(options.enable_coverage, coverage_opts());
    let ccache = gated(options.use_ccache, ccache_opts());
    let assertions = gated(options.enable_assertions, assertions_opts());
    assert(head.len() == extras_start(musl) + options.extra_args.len());
    let (before, behind) = match toggle {
        Toggle::Tests => (head, coverage + ccache + assertions + platform_only),
        Toggle::Coverage => (head + tests, ccache + assertions + platform_only),
        Toggle::Ccache => (head + tests + coverage, assertions + platform_only),
        Toggle::Assertions => (head + tests + coverage + ccache, platform_only),
    };
    assert(flags =~= before + own + behind);
    lemma_middle_run(before, own, behind);
}

#[verifier::rlimit(40)]
/// Outside the run of an enabled toggle, no flag of the list is one of the
/// toggle's.
proof fn lemma_toggle_absent_at(
    options: BuildOptionsView,
    root: Seq<char>,
    musl: bool,
    platform_only: Seq<Seq<char>>,
    toggle: Toggle,
    at: int,
)
    requires
        forall|i: int|
            0 <= i < options.extra_args.len() ==> !toggle_opts(toggle).contains(
                #[trigger] options.extra_args[i],
            ),
        forall|i: int|
            0 <= i < platform_only.len() ==> !toggle_opts(toggle).contains(
                #[trigger] platform_only[i],
            ),
        0 <= at < composed(options, build_paths(root), musl, platform_only).len(),
        !(toggle_enabled(options, toggle) && toggle_start(options, musl, toggle) <= at
            < toggle_start(options, musl, toggle) + toggle_opts(toggle).len()),
    ensures
        !toggle_opts(toggle).contains(
            composed(options, build_paths(root), musl, platform_only)[at],
        ),
{
    let flags = composed(options, build_paths(root), musl, platform_only);
    let own = toggle_opts(toggle);
    let extras = extras_start(musl);
    let toggles = extras + options.extra_args.len();
    let platform = toggles + toggle_flags(options).len();
    lemma_composed_at(options, root, musl, platform_only, at);
    if own.contains(flags[at]) {
        let j = choose|j: int| 0 <= j < own.len() && own[j] == flags[at];
        lemma_kind_toggle(toggle);
        assert(kind(own[j]) == toggle_kind(toggle));
        if at == 7 {
            lemma_kind_build_type(options.build_type);
        } else if at == 8 {
            lemma_kind_targets(options.targets);
        } else if at < extras {
        } else if at < toggles {
            assert(flags[at] == options.extra_args[at - extras]);
        } else if at < platform {
            let other = choose|other: Toggle|
                #![trigger toggle_start(options, musl, other)]
                toggle_enabled(options, other) && toggle_start(options, musl, other) <= at
                    < toggle_start(options, musl, other) + toggle_opts(other).len();
            lemma_kind_toggle(other);
            assert(kind(toggle_opts(other)[at - toggle_start(options, musl, other)])
                == toggle_kind(other));
            assert(other == toggle);
        } else {
            assert(flags[at] == platform_only[at - platform]);
        }
    }
}

/// The flags of a toggle stand in a composed list, as one run at the toggle's place,
/// exactly when the toggle is enabled; outside that run, and everywhere when the
/// toggle is disabled, none of them occurs. This is provided that neither the
/// caller's extra arguments nor the platform's flags bring one of them.
pub proof fn law_toggle_flags(
    options: BuildOptionsView,
    root: Seq<char>,
    musl: bool,
    platform_only: Seq<Seq<char>>,
    toggle: Toggle,
)
    requires
        forall|i: int|
            0 <= i < options.extra_args.len() ==> !toggle_opts(toggle).contains(
                #[trigger] options.extra_args[i],
            ),
        forall|i: int|
            0 <= i < platform_only.len() ==> !toggle_opts(toggle).contains(
                #[trigger] platform_only[i],
            ),
    ensures
        ({
            let flags = composed(options, build_paths(root), musl, platform_only);
            let own = toggle_opts(toggle);
            let start = toggle_start(options, musl, toggle);
            &&& toggle_enabled(options, toggle) ==> 0 <= start && start + own.len() <= flags.len()
                && flags.subrange(start, start + own.len()) == own
            &&& forall|at: int|
                0 <= at < flags.len() && !(toggle_enabled(options, toggle) && start <= at < start
                    + own.len()) ==> !own.contains(#[trigger] flags[at])
        }),
{
    let flags = composed(options, build_paths(root), musl, platform_only);
    let own = toggle_opts(toggle);
    let start = toggle_start(options, musl, toggle);
    if toggle_enabled(options, toggle) {
        lemma_toggle_run(options, root, musl, platform_only, toggle);
    }
    assert forall|at: int|
        0 <= at < flags.len() && !(toggle_enabled(options, toggle) && start <= at < start
            + own.len()) implies !own.contains(#[trigger] flags[at]) by {
        lemma_toggle_absent_at(options, root, musl, platform_only, toggle, at);
    }
}

/// Composition is a function of its inputs: the same options, locations and
/// platform flags give the same list, however often it is composed.
pub proof fn law_composition_is_deterministic(
    first: BuildOptionsView,
    second: BuildOptionsView,
    paths: BuildPathsView,
    musl: bool,
    platform_only: Seq<Seq<char>>,
)
    requires
        first.build_type == second.build_type,
        first.targets =~= second.targets,
        first.enable_tests == second.enable_tests,
        first.enable_coverage == second.enable_coverage,
        first.extra_args =~= second.extra_args,
        first.use_ccache == second.use_ccache,
        first.enable_assertions == second.enable_assertions,
    ensures
        composed(first, paths, musl, platform_only) == composed(
            second,
            paths,
            musl,
            platform_only,
        ),
{
}

/// None of the flags that the macOS builder adds is a build-type flag, a target
/// list or the flag of a toggle.
pub proof fn lemma_macos_flags_stand_apart(xcode_version: u32)
    ensures
        forall|i: int|
            0 <= i < platform_flags(xcode_version).len() ==> {
                let flag = #[trigger] platform_flags(xcode_version)[i];
                &&& !is_build_type_flag(flag)
                &&& !is_targets_flag(flag)
                &&& forall|toggle: Toggle| !(#[trigger] toggle_opts(toggle)).contains(flag)
            },
{
    let flags = platform_flags(xcode_version);
    lemma_kind_duplicate_libs();
    assert(kind("-DLLVM_ENABLE_PROJECTS='lld'"@) == Kind::Other && kind(
        "-DCMAKE_OSX_DEPLOYMENT_TARGET='11.0'"@,
    ) == Kind::Other) by {
        reveal(kind);
        reveal_strlit("-DLLVM_ENABLE_PROJECTS='lld'");
        reveal_strlit("-DCMAKE_OSX_DEPLOYMENT_TARGET='11.0'");
    }
    assert forall|i: int| 0 <= i < flags.len() implies {
        let flag = #[trigger] flags[i];
        &&& !is_build_type_flag(flag)
        &&& !is_targets_flag(flag)
        &&& forall|toggle: Toggle| !(#[trigger] toggle_opts(toggle)).contains(flag)
    } by {
        let flag = flags[i];
        if i >= 2 {
            assert(flag == duplicate_libs_opts()[i - 2]);
        }
        assert(kind(flag) == Kind::Other);
        if is_build_type_flag(flag) {
            let build_type = choose|build_type: BuildType|
                flag == #[trigger] build_type_flag(build_type);
            lemma_kind_build_type(build_type);
        }
        if is_targets_flag(flag) {
            let targets = choose|targets: Seq<Platform>| flag == #[trigger] targets_flag(targets);
            lemma_kind_targets(targets);
        }
        assert forall|toggle: Toggle| !(#[trigger] toggle_opts(toggle)).contains(flag) by {
            lemma_kind_toggle(toggle);
            if toggle_opts(toggle).contains(flag) {
                let j = choose|j: int|
                    0 <= j < toggle_opts(toggle).len() && toggle_opts(toggle)[j] == flag;
                assert(kind(toggle_opts(toggle)[j]) == toggle_kind(toggle));
            }
        }
    }
}

/// What the generator is started with on macOS: for every valid choice of build
/// type, targets and toggles, and extra arguments that bring no build-type flag, no
/// target list and no flag of a toggle, the arguments hold the build-type flag
/// exactly once, the target list exactly once with every requested target as an
/// entry, and the flags of each toggle as one run exactly when the toggle is
/// enabled and nowhere otherwise.
pub proof fn law_macos_generator_arguments(
    options: BuildOptionsView,
    root: Seq<char>,
    xcode_version: u32,
    toggle: Toggle,
)
    requires
        options.valid(),
        forall|i: int|
            0 <= i < options.extra_args.len() ==> {
                let extra = #[trigger] options.extra_args[i];
                &&& !is_build_type_flag(extra)
                &&& !is_targets_flag(extra)
                &&& !toggle_opts(toggle).contains(extra)
            },
    ensures
        ({
            let flags = generate_command(options, build_paths(root), xcode_version).arguments;
            let own = toggle_opts(toggle);
            let start = toggle_start(options, false, toggle);
            &&& flags[build_type_position()] == build_type_flag(options.build_type)
            &&& flags[targets_position()] == targets_flag(options.targets)
            &&& forall|at: int|
                0 <= at < flags.len() && at != build_type_position() ==> !is_build_type_flag(
                    #[trigger] flags[at],
                )
            &&& forall|at: int|
                0 <= at < flags.len() && at != targets_position() ==> !is_targets_flag(
                    #[trigger] flags[at],
                )
            &&& toggle_enabled(options, toggle) ==> 0 <= start && start + own.len() <= flags.len()
                && flags.subrange(start, start + own.len()) == own
            &&& forall|at: int|
                0 <= at < flags.len() && !(toggle_enabled(options, toggle) && start <= at < start
                    + own.len()) ==> !own.contains(#[trigger] flags[at])
        }),
        forall|k: int|
            0 <= k < options.targets.len() ==> is_entry(
                joined(names_of(options.targets), ";"@),
                ";"@,
                (#[trigger] options.targets[k]).name_text(),
            ),
{
    let platform_only = platform_flags(xcode_version);
    lemma_macos_flags_stand_apart(xcode_version);
    assert forall|i: int| 0 <= i < platform_only.len() implies !toggle_opts(toggle).contains(
        #[trigger] platform_only[i],
    ) by {
        let flag = platform_only[i];
        assert(forall|other: Toggle| !(#[trigger] toggle_opts(other)).contains(flag));
    }
    law_build_type_flag_once(options, root, false, platform_only);
    law_target_list_once(options, root, false, platform_only);
    law_toggle_flags(options, root, false, platform_only, toggle);
}

} // verus!
