//! The option composer: from the options of one build to the arguments that the
//! build-file generator is started with.

use vstd::prelude::*;
use vstd::string::*;

use crate::build_type::BuildType;
use crate::error::{BuildError, BuildErrorView};
use crate::llvm_path::{
    joined_path, LLVMPath, WorkingDirectory, WorkingDirectoryView, DIRECTORY_LLVM_SOURCE,
    DIRECTORY_LLVM_TARGET,
};
use crate::platforms::shared::{
    assertions_opts, ccache_opts, coverage_opts, gated, not_musl_opts, push_all, push_text,
    shared_build_opts, shared_build_opts_assertions, shared_build_opts_ccache,
    shared_build_opts_coverage, shared_build_opts_not_musl, shared_build_opts_tests, shared_opts,
    tests_opts,
};
use crate::platforms::{names_of, Platform, TargetSet};
use crate::text::{join, joined};

verus! {

/// The configuration of one build. It is made anew for every invocation and never
/// stored.
#[derive(Debug, Clone, PartialEq, Eq)]
pub struct BuildOptions {
    pub build_type: BuildType,
    pub targets: TargetSet,
    pub enable_tests: bool,
    pub enable_coverage: bool,
    pub extra_args: Vec<String>,
    pub use_ccache: bool,
    pub enable_assertions: bool,
}

/// A [`BuildOptions`] over sequences.
pub struct BuildOptionsView {
    pub build_type: BuildType,
    pub targets: Seq<Platform>,
    pub enable_tests: bool,
    pub enable_coverage: bool,
    pub extra_args: Seq<Seq<char>>,
    pub use_ccache: bool,
    pub enable_assertions: bool,
}

impl View for BuildOptions {
    type V = BuildOptionsView;

    open spec fn view(&self) -> BuildOptionsView {
        BuildOptionsView {
            build_type: self.build_type,
            targets: self.targets@,
            enable_tests: self.enable_tests,
            enable_coverage: self.enable_coverage,
            extra_args: self.extra_args.deep_view(),
            use_ccache: self.use_ccache,
            enable_assertions: self.enable_assertions,
        }
    }
}

impl BuildOptionsView {
    /// The options name at least one target, and none twice.
    pub open spec fn valid(self) -> bool {
        self.targets.len() > 0 && self.targets.no_duplicates()
    }
}

/// The three locations that the generator is told about.
#[derive(Debug, Clone, PartialEq, Eq)]
pub struct BuildPaths {
    /// The module that holds the sources.
    pub module: String,
    /// The build tree.
    pub build: String,
    /// The tree that the result is installed into.
    pub install: String,
}

/// A [`BuildPaths`] with its paths as character sequences.
pub struct BuildPathsView {
    pub module: Seq<char>,
    pub build: Seq<char>,
    pub install: Seq<char>,
}

impl View for BuildPaths {
    type V = BuildPathsView;

    open spec fn view(&self) -> BuildPathsView {
        BuildPathsView { module: self.module@, build: self.build@, install: self.install@ }
    }
}

/// The locations of the final LLVM build below the directory `root`.
pub open spec fn build_paths(root: Seq<char>) -> BuildPathsView {
    BuildPathsView {
        module: joined_path(root, joined_path(DIRECTORY_LLVM_SOURCE@, "llvm"@)),
        build: joined_path(root, joined_path(DIRECTORY_LLVM_TARGET@, "build-final"@)),
        install: joined_path(root, joined_path(DIRECTORY_LLVM_TARGET@, "target-final"@)),
    }
}

/// The locations of the final LLVM build below the working directory.
pub open spec fn located(directory: WorkingDirectoryView) -> Result<
    BuildPathsView,
    BuildErrorView,
> {
    match directory {
        WorkingDirectoryView::Known { path: root } => Ok(build_paths(root)),
        WorkingDirectoryView::Unknown { reason } => Err(
            BuildErrorView::PathResolution { reason },
        ),
    }
}

impl BuildPaths {
    /// Resolves the locations of the final LLVM build below the working directory.
    pub fn resolve(directory: &WorkingDirectory) -> (paths: Result<BuildPaths, BuildError>)
        ensures
            match paths {
                Ok(found) => located(directory@) == Ok::<BuildPathsView, BuildErrorView>(found@),
                Err(error) => located(directory@) == Err::<BuildPathsView, BuildErrorView>(
                    error@,
                ),
            },
    {
        let module = match LLVMPath::llvm_module_llvm(directory) {
            Ok(path) => path,
            Err(error) => {
                return Err(error);
            },
        };
        let build = match LLVMPath::llvm_build_final(directory) {
            Ok(path) => path,
            Err(error) => {
                return Err(error);
            },
        };
        let install = match LLVMPath::llvm_target_final(directory) {
            Ok(path) => path,
            Err(error) => {
                return Err(error);
            },
        };
        Ok(BuildPaths { module, build, install })
    }
}

/// The flag that tells the generator where to install.
pub open spec fn install_prefix_flag(install: Seq<char>) -> Seq<char> {
    "-DCMAKE_INSTALL_PREFIX='"@ + install + "'"@
}

/// The flag that sets the build type.
pub open spec fn build_type_flag(build_type: BuildType) -> Seq<char> {
    "-DCMAKE_BUILD_TYPE='"@ + build_type.name_text() + "'"@
}

/// The flag that lists the targets to enable: their backend names, in the order in
/// which the set is walked, with `;` between them.
pub open spec fn targets_flag(targets: Seq<Platform>) -> Seq<char> {
    "-DLLVM_TARGETS_TO_BUILD='"@ + joined(names_of(targets), ";"@) + "'"@
}

/// The arguments that every generator run starts with: the sources, the build tree,
/// the generator, where to install, and the build type.
pub open spec fn base_flags(build_type: BuildType, paths: BuildPathsView) -> Seq<Seq<char>> {
    seq![
        "-S"@,
        paths.module,
        "-B"@,
        paths.build,
        "-G"@,
        "Ninja"@,
        install_prefix_flag(paths.install),
        build_type_flag(build_type),
    ]
}

/// The flags of the four toggles, in their fixed order: tests, coverage, compiler
/// cache, assertions.
pub open spec fn toggle_flags(options: BuildOptionsView) -> Seq<Seq<char>> {
    gated(options.enable_tests, tests_opts()) + gated(options.enable_coverage, coverage_opts())
        + gated(options.use_ccache, ccache_opts()) + gated(
        options.enable_assertions,
        assertions_opts(),
    )
}

/// The arguments of the generator for one build, in their fixed order: the base
/// flags, the target list, the shared flags, the shared flags that musl leaves out,
/// the caller's extra arguments as they are, the flags of the toggles, and the
/// flags of the platform.
pub open spec fn composed(
    options: BuildOptionsView,
    paths: BuildPathsView,
    musl: bool,
    platform_only: Seq<Seq<char>>,
) -> Seq<Seq<char>> {
    base_flags(options.build_type, paths) + seq![targets_flag(options.targets)] + shared_opts()
        + gated(!musl, not_musl_opts()) + options.extra_args + toggle_flags(options)
        + platform_only
}

/// Composes the arguments of the generator for one build.
///
/// Nothing is validated and nothing is removed: an extra argument that repeats or
/// contradicts a flag is passed through.
pub fn compose(
    options: &BuildOptions,
    paths: &BuildPaths,
    musl: bool,
    platform_only: &Vec<String>,
) -> (arguments: Vec<String>)
    ensures
        arguments.deep_view() == composed(options@, paths@, musl, platform_only.deep_view()),
{
    let mut arguments: Vec<String> = Vec::new();
    assert(arguments.deep_view() =~= Seq::empty());
    push_text(&mut arguments, "-S");
    push_text(&mut arguments, paths.module.as_str());
    push_text(&mut arguments, "-B");
    push_text(&mut arguments, paths.build.as_str());
    push_text(&mut arguments, "-G");
    push_text(&mut arguments, "Ninja");

    let mut install = String::from_str("-DCMAKE_INSTALL_PREFIX='");
    install.append(paths.install.as_str());
    install.append("'");
    push_text(&mut arguments, install.as_str());

    let mut build_type = String::from_str("-DCMAKE_BUILD_TYPE='");
    build_type.append(options.build_type.name());
    build_type.append("'");
    push_text(&mut arguments, build_type.as_str());
    assert(arguments.deep_view() =~= base_flags(options.build_type, paths@));

    let names = options.targets.names();
    let mut targets = String::from_str("-DLLVM_TARGETS_TO_BUILD='");
    targets.append(join(&names, ";").as_str());
    targets.append("'");
    push_text(&mut arguments, targets.as_str());

    push_all(&mut arguments, &shared_build_opts());
    push_all(&mut arguments, &shared_build_opts_not_musl(musl));
    push_all(&mut arguments, &options.extra_args);
    let ghost before_toggles = arguments.deep_view();
    push_all(&mut arguments, &shared_build_opts_tests(options.enable_tests));
    push_all(&mut arguments, &shared_build_opts_coverage(options.enable_coverage));
    push_all(&mut arguments, &shared_build_opts_ccache(options.use_ccache));
    push_all(&mut arguments, &shared_build_opts_assertions(options.enable_assertions));
    assert(arguments.deep_view() =~= before_toggles + toggle_flags(options@));
    push_all(&mut arguments, platform_only);
    assert(arguments.deep_view() =~= composed(options@, paths@, musl, platform_only.deep_view()));
    arguments
}

} // verus!
