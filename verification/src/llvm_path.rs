//! Where the sources, the build trees and the installed files of each component
//! live, relative to the directory that the build is started in.

use vstd::prelude::*;
use vstd::string::*;

use crate::error::{text_result, BuildError, BuildErrorView};
use crate::utils::{absolute_path, resolved};
use crate::text::chars_of;

verus! {

/// The directory that the build was started in, as far as it could be determined.
#[derive(Debug, Clone, PartialEq, Eq)]
pub enum WorkingDirectory {
    Known { path: String },
    Unknown { reason: String },
}

/// A [`WorkingDirectory`] with its texts as character sequences.
pub enum WorkingDirectoryView {
    Known { path: Seq<char> },
    Unknown { reason: Seq<char> },
}

impl View for WorkingDirectory {
    type V = WorkingDirectoryView;

    open spec fn view(&self) -> WorkingDirectoryView {
        match self {
            WorkingDirectory::Known { path } => WorkingDirectoryView::Known { path: path@ },
            WorkingDirectory::Unknown { reason } => WorkingDirectoryView::Unknown {
                reason: reason@,
            },
        }
    }
}

/// `path` appended to `base`: an absolute `path` replaces `base`; otherwise one `/`
/// stands between the two unless `base` is empty or already ends in one.
pub open spec fn joined_path(base: Seq<char>, path: Seq<char>) -> Seq<char> {
    if path.len() > 0 && path[0] == '/' {
        path
    } else if base.len() == 0 || base.last() == '/' {
        base + path
    } else {
        base + seq!['/'] + path
    }
}

/// Appends `path` to `base`.
pub fn join_path(base: &str, path: &str) -> (full: String)
    ensures
        full@ == joined_path(base@, path@),
{
    let base_chars = chars_of(base);
    let path_chars = chars_of(path);
    if path_chars.len() > 0 && path_chars[0] == '/' {
        String::from_str(path)
    } else if base_chars.len() == 0 || base_chars[base_chars.len() - 1] == '/' {
        let mut full = String::from_str(base);
        full.append(path);
        full
    } else {
        let mut full = String::from_str(base);
        full.append("/");
        full.append(path);
        proof {
            reveal_strlit("/");
            assert("/"@ =~= seq!['/']);
        }
        full
    }
}

/// The directory of the LLVM sources, relative to the working directory.
pub const DIRECTORY_LLVM_SOURCE: &'static str = "./llvm/";

/// The directory that holds every build tree and install tree.
pub const DIRECTORY_LLVM_TARGET: &'static str = "./target-llvm/";

/// The locations of one build, each a function of the working directory alone.
pub struct LLVMPath {}

impl LLVMPath {
    /// The `llvm` module inside the LLVM sources.
    pub open spec fn module_llvm(directory: WorkingDirectoryView) -> Result<
        Seq<char>,
        BuildErrorView,
    > {
        resolved(directory, joined_path(DIRECTORY_LLVM_SOURCE@, "llvm"@))
    }

    /// The build tree of the final LLVM.
    pub open spec fn build_final(directory: WorkingDirectoryView) -> Result<
        Seq<char>,
        BuildErrorView,
    > {
        resolved(directory, joined_path(DIRECTORY_LLVM_TARGET@, "build-final"@))
    }

    /// The install tree of the final LLVM.
    pub open spec fn target_final(directory: WorkingDirectoryView) -> Result<
        Seq<char>,
        BuildErrorView,
    > {
        resolved(directory, joined_path(DIRECTORY_LLVM_TARGET@, "target-final"@))
    }

    /// The sources of the musl snapshot `name`.
    pub open spec fn source_of_musl(directory: WorkingDirectoryView, name: Seq<char>) -> Result<
        Seq<char>,
        BuildErrorView,
    > {
        resolved(directory, joined_path(DIRECTORY_LLVM_TARGET@, name))
    }

    /// The install tree of musl.
    pub open spec fn target_of_musl(directory: WorkingDirectoryView) -> Result<
        Seq<char>,
        BuildErrorView,
    > {
        resolved(directory, joined_path(DIRECTORY_LLVM_TARGET@, "target-musl"@))
    }

    /// The `llvm` module inside the LLVM sources.
    pub fn llvm_module_llvm(directory: &WorkingDirectory) -> (path: Result<String, BuildError>)
        ensures
            text_result(path) == Self::module_llvm(directory@),
    {
        let relative = join_path(DIRECTORY_LLVM_SOURCE, "llvm");
        absolute_path(directory, relative.as_str())
    }

    /// The build tree of the final LLVM.
    pub fn llvm_build_final(directory: &WorkingDirectory) -> (path: Result<String, BuildError>)
        ensures
            text_result(path) == Self::build_final(directory@),
    {
        let relative = join_path(DIRECTORY_LLVM_TARGET, "build-final");
        absolute_path(directory, relative.as_str())
    }

    /// The install tree of the final LLVM.
    pub fn llvm_target_final(directory: &WorkingDirectory) -> (path: Result<String, BuildError>)
        ensures
            text_result(path) == Self::target_final(directory@),
    {
        let relative = join_path(DIRECTORY_LLVM_TARGET, "target-final");
        absolute_path(directory, relative.as_str())
    }

    /// The sources of the musl snapshot `name`.
    pub fn musl_source(directory: &WorkingDirectory, name: &str) -> (path: Result<
        String,
        BuildError,
    >)
        ensures
            text_result(path) == Self::source_of_musl(directory@, name@),
    {
        let relative = join_path(DIRECTORY_LLVM_TARGET, name);
        absolute_path(directory, relative.as_str())
    }

    /// The build tree of musl, inside its sources.
    pub fn musl_build(source_directory: &str) -> (path: String)
        ensures
            path@ == joined_path(source_directory@, "build"@),
    {
        join_path(source_directory, "build")
    }

    /// The install tree of musl.
    pub fn musl_target(directory: &WorkingDirectory) -> (path: Result<String, BuildError>)
        ensures
            text_result(path) == Self::target_of_musl(directory@),
    {
        let relative = join_path(DIRECTORY_LLVM_TARGET, "target-musl");
        absolute_path(directory, relative.as_str())
    }
}

/// A relative path below `root`: what stands before it depends on `root` alone.
proof fn lemma_relative_below(root: Seq<char>, path: Seq<char>)
    requires
        path.len() > 0,
        path[0] != '/',
    ensures
        joined_path(root, path) == joined_path(root, seq!['.']).drop_last() + path,
{
    let dot = seq!['.'];
    if root.len() == 0 || root.last() == '/' {
        assert((root + dot).drop_last() == root);
    } else {
        assert((root + seq!['/'] + dot).drop_last() == root + seq!['/']);
    }
}

/// No two locations of a build are the same path: the sources, the build tree, the
/// install tree and the install tree of musl differ from each other below every
/// working directory.
pub proof fn law_locations_are_distinct(root: Seq<char>)
    ensures
        ({
            let directory = WorkingDirectoryView::Known { path: root };
            let module = LLVMPath::module_llvm(directory);
            let build = LLVMPath::build_final(directory);
            let install = LLVMPath::target_final(directory);
            let musl = LLVMPath::target_of_musl(directory);
            &&& module is Ok && build is Ok && install is Ok && musl is Ok
            &&& module != build
            &&& module != install
            &&& module != musl
            &&& build != install
            &&& build != musl
            &&& install != musl
        }),
{
    reveal_strlit("./llvm/");
    reveal_strlit("./target-llvm/");
    reveal_strlit("llvm");
    reveal_strlit("build-final");
    reveal_strlit("target-final");
    reveal_strlit("target-musl");
    let module = DIRECTORY_LLVM_SOURCE@ + "llvm"@;
    let build = DIRECTORY_LLVM_TARGET@ + "build-final"@;
    let install = DIRECTORY_LLVM_TARGET@ + "target-final"@;
    let musl = DIRECTORY_LLVM_TARGET@ + "target-musl"@;
    assert(joined_path(DIRECTORY_LLVM_SOURCE@, "llvm"@) == module);
    assert(joined_path(DIRECTORY_LLVM_TARGET@, "build-final"@) == build);
    assert(joined_path(DIRECTORY_LLVM_TARGET@, "target-final"@) == install);
    assert(joined_path(DIRECTORY_LLVM_TARGET@, "target-musl"@) == musl);
    assert(module.len() == 11 && build.len() == 25 && install.len() == 26 && musl.len() == 25);
    assert(module[0] == '.' && build[0] == '.' && install[0] == '.' && musl[0] == '.');
    lemma_relative_below(root, module);
    lemma_relative_below(root, build);
    lemma_relative_below(root, install);
    lemma_relative_below(root, musl);
    let before = joined_path(root, seq!['.']).drop_last();
    let directory = WorkingDirectoryView::Known { path: root };
    assert(LLVMPath::module_llvm(directory) == Ok::<Seq<char>, BuildErrorView>(before + module));
    assert(LLVMPath::build_final(directory) == Ok::<Seq<char>, BuildErrorView>(before + build));
    assert(LLVMPath::target_final(directory) == Ok::<Seq<char>, BuildErrorView>(
        before + install,
    ));
    assert(LLVMPath::target_of_musl(directory) == Ok::<Seq<char>, BuildErrorView>(before + musl));
    assert((before + module).len() == before.len() + 11);
    assert((before + build).len() == before.len() + 25);
    assert((before + install).len() == before.len() + 26);
    assert((before + musl).len() == before.len() + 25);
    let at = before.len() as int + 14;
    assert((before + build)[at] == 'b');
    assert((before + musl)[at] == 't');
}

} // verus!
