//! The fatal side of the error taxonomy. Transient server errors and
//! per-item errors never appear here: they are absorbed inside the engines
//! and reported through events. A fatal error aborts the current phase and
//! is returned to the caller unchanged, identified by kind.

use vstd::prelude::*;

verus! {

/// A non-recoverable failure that aborts the current phase.
#[derive(Debug, PartialEq, Eq)]
pub enum FatalError {
    /// The credentials were rejected or the session is no longer valid.
    AuthFailure,
    /// A server response fell outside the expected structure.
    MalformedResponse,
    /// The output location cannot be used at all.
    StorageUnavailable,
    /// A required input file is absent at this path.
    JsonFileNotFound { path: String },
    /// Some other local I/O failure; `not_found` records whether the
    /// underlying failure was a missing file.
    IoError { not_found: bool },
}

impl Clone for FatalError {
    fn clone(&self) -> (r: Self)
        ensures
            r == *self,
    {
        match self {
            FatalError::AuthFailure => FatalError::AuthFailure,
            FatalError::MalformedResponse => FatalError::MalformedResponse,
            FatalError::StorageUnavailable => FatalError::StorageUnavailable,
            FatalError::JsonFileNotFound { path } => FatalError::JsonFileNotFound {
                path: path.clone(),
            },
            FatalError::IoError { not_found } => FatalError::IoError { not_found: *not_found },
        }
    }
}

/// If the given generic error is a missing-file I/O error, turn it into a
/// `JsonFileNotFound` carrying the path that was read, so the caller can
/// present a specific remediation message; any other error passes through
/// unchanged.
pub fn specific_json_err(generic_err: FatalError, filepath: String) -> (r: FatalError)
    ensures
        generic_err matches FatalError::IoError { not_found: true } ==> r == (
        FatalError::JsonFileNotFound { path: filepath }),
        !(generic_err matches FatalError::IoError { not_found: true }) ==> r == generic_err,
{
    match generic_err {
        FatalError::IoError { not_found: true } => FatalError::JsonFileNotFound { path: filepath },
        other => other,
    }
}

} // verus!
