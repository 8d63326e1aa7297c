//! The failures a detector can report. Every detector failure aborts the
//! generation for the current target.

use vstd::prelude::*;

verus! {

/// Why a detector could not produce its record.
#[derive(Debug, Clone, Copy, PartialEq, Eq, Structural)]
pub enum DetectError {
    /// A classified CI provider's required variable is absent.
    MissingEnvironmentData,
    /// The build-number variable is not a valid unsigned integer.
    MalformedBuildNumber,
    /// Local detection found no enclosing version-controlled working copy.
    RepositoryNotFound,
    /// A recognized manifest file exists but cannot be parsed.
    ManifestParseError,
    /// A read of repository state failed below the detector.
    IoError,
}

impl DetectError {
    /// One human-readable line for the error stream.
    pub fn describe(&self) -> (r: &'static str)
        ensures
            *self == DetectError::MissingEnvironmentData ==> r@ == "missing required environment variable"@,
            *self == DetectError::MalformedBuildNumber ==> r@ == "build number is not a valid unsigned integer"@,
            *self == DetectError::RepositoryNotFound ==> r@ == "no version-controlled working copy found"@,
            *self == DetectError::ManifestParseError ==> r@ == "project manifest could not be parsed"@,
            *self == DetectError::IoError ==> r@ == "repository state could not be read"@,
    {
        match self {
            DetectError::MissingEnvironmentData => "missing required environment variable",
            DetectError::MalformedBuildNumber => "build number is not a valid unsigned integer",
            DetectError::RepositoryNotFound => "no version-controlled working copy found",
            DetectError::ManifestParseError => "project manifest could not be parsed",
            DetectError::IoError => "repository state could not be read",
        }
    }
}

} // verus!
