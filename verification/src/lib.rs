//! Build-info generation: detects the build environment, the source-control
//! state and the project manifest of a target directory, and assembles the
//! three records into one combined artifact.

pub mod env;
pub mod errors;
pub mod digits;
pub mod buildenv;
pub mod git;
pub mod project;
pub mod v1;
