//! Build-configuration and invocation engine for reproducible LLVM toolchain builds.

pub mod build_type;
pub mod dependency;
pub mod error;
pub mod fetch;
pub mod llvm_path;
pub mod lock;
pub mod option_laws;
pub mod options;
pub mod platforms;
pub mod process;
pub mod step;
pub mod text;
pub mod utils;
