//! Error types shared across the library.

use vstd::prelude::*;

verus! {

/// The category of an I/O failure, mirroring the kinds a native platform reports.
#[derive(Clone, Copy, Debug, PartialEq, Eq, Structural)]
pub enum ErrorKind {
    /// The named entity does not exist.
    NotFound,
    /// The operation was not permitted.
    PermissionDenied,
    /// Any other failure.
    Other,
}

/// An I/O error, carrying only its kind.
#[derive(Clone, Copy, Debug, PartialEq, Eq, Structural)]
pub struct IoError {
    kind: ErrorKind,
}

impl IoError {
    /// The kind of this error, for use in specifications.
    pub closed spec fn spec_kind(&self) -> ErrorKind {
        self.kind
    }

    /// Creates an error of the given kind.
    pub fn new(kind: ErrorKind) -> (r: IoError)
        ensures
            r.spec_kind() == kind,
    {
        IoError { kind }
    }

    /// Returns the kind of this error.
    pub fn kind(&self) -> (r: ErrorKind)
        ensures
            r == self.spec_kind(),
    {
        self.kind
    }
}

/// Why the confiner refused a path.
///
/// Both variants surface to callers as an "invalid path" condition, kept
/// distinct from native filesystem failures so that a sandbox rejection is
/// never mistaken for, say, a missing file.
#[derive(Clone, Copy, Debug, PartialEq, Eq, Structural)]
pub enum PathError {
    /// The path resolves, or would resolve, outside the sandbox root.
    ConfinementViolation,
    /// Resolving an ancestor of the path against the filesystem failed.
    CanonicalizationFailure,
}

} // verus!
