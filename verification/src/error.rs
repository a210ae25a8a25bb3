//! The failures that the pipeline reports.

use vstd::prelude::*;

verus! {

/// Wraps the common failures that might happen in this project.
///
/// Each variant that carries a `String` holds the detail message of the
/// underlying failure; `message` renders any variant as text.
#[derive(Clone, Debug)]
pub enum KnownFailures {
    /// The isolated build exited with a non-zero status.
    FailedToCompile,
    /// An I/O operation on the host failed; the payload is its description.
    IOError(String),
    /// The archive writer refused the packaging step.
    ZipCompressionError(String),
    /// Captured text could not be interpreted; kept for callers that decode
    /// strictly, never produced by the permissive pipeline itself.
    Utf8Error(String),
    /// The project metadata file is missing a required part or is malformed.
    TomlError(String),
}

impl KnownFailures {
    /// The human-readable description of the failure.
    pub fn message(&self) -> (r: String)
        ensures
            match self {
                KnownFailures::FailedToCompile => r@
                    == "Failed to build or compile your software"@,
                KnownFailures::IOError(m) => r@ == m@,
                KnownFailures::ZipCompressionError(m) => r@ == m@,
                KnownFailures::Utf8Error(m) => r@ == m@,
                KnownFailures::TomlError(m) => r@ == m@,
            },
    {
        match self {
            KnownFailures::FailedToCompile => "Failed to build or compile your software".to_owned(),
            KnownFailures::IOError(m) => m.clone(),
            KnownFailures::ZipCompressionError(m) => m.clone(),
            KnownFailures::Utf8Error(m) => m.clone(),
            KnownFailures::TomlError(m) => m.clone(),
        }
    }
}

} // verus!
