//! What went wrong with a file operation.
use vstd::prelude::*;

verus! {

/// The category of a failed file operation.
#[derive(Clone, Copy, Debug, PartialEq, Eq, Structural)]
pub enum FailureKind {
    /// The file does not exist.
    NotFound,
    /// The caller may not open the file.
    PermissionDenied,
    /// Any other I/O failure.
    Other,
}

/// A failed file operation: its category, and the underlying cause as text
/// for diagnostics.
#[derive(Debug, PartialEq, Eq)]
pub struct Failure {
    pub kind: FailureKind,
    pub cause: String,
}

impl Failure {
    pub fn new(kind: FailureKind, cause: String) -> (r: Failure)
        ensures
            r.kind == kind,
            r.cause@ == cause@,
    {
        Failure { kind, cause }
    }

    /// Whether the failure says that the file is absent.
    pub fn is_not_found(&self) -> (r: bool)
        ensures
            r == (self.kind == FailureKind::NotFound),
    {
        match self.kind {
            FailureKind::NotFound => true,
            _ => false,
        }
    }
}

} // verus!
