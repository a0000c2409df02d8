//! The build configuration handed to the build-file generator.

use vstd::prelude::*;
use vstd::string::*;

verus! {

/// The kind of build that the generator configures.
#[derive(Debug, Clone, Copy, PartialEq, Eq, Structural)]
pub enum BuildType {
    Debug,
    Release,
    RelWithDebInfo,
    MinSizeRel,
}

impl BuildType {
    /// The name by which the generator knows this build type.
    pub open spec fn name_text(self) -> Seq<char> {
        match self {
            BuildType::Debug => "Debug"@,
            BuildType::Release => "Release"@,
            BuildType::RelWithDebInfo => "RelWithDebInfo"@,
            BuildType::MinSizeRel => "MinSizeRel"@,
        }
    }

    /// The name by which the generator knows this build type.
    pub fn name(&self) -> (name: &'static str)
        ensures
            name@ == self.name_text(),
    {
        match self {
            BuildType::Debug => "Debug",
            BuildType::Release => "Release",
            BuildType::RelWithDebInfo => "RelWithDebInfo",
            BuildType::MinSizeRel => "MinSizeRel",
        }
    }

    /// The build type with the given name, if there is one.
    pub fn from_name(name: &str) -> (found: Option<BuildType>)
        ensures
            match found {
                Some(build_type) => build_type.name_text() == name@,
                None => forall|build_type: BuildType| build_type.name_text() != name@,
            },
    {
        let wanted = String::from_str(name);
        if wanted == String::from_str("Debug") {
            Some(BuildType::Debug)
        } else if wanted == String::from_str("Release") {
            Some(BuildType::Release)
        } else if wanted == String::from_str("RelWithDebInfo") {
            Some(BuildType::RelWithDebInfo)
        } else if wanted == String::from_str("MinSizeRel") {
            Some(BuildType::MinSizeRel)
        } else {
            None
        }
    }
}

} // verus!
