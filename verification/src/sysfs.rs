//! The outcomes of file system accesses, as the caller hands them to the library.
//!
//! The library never touches the file system. Where a sensor or the parser reads, writes or
//! inspects a file, the caller does so at the path the library names and hands the
//! outcome back in one of the forms below.

use crate::units::UnitError;
use vstd::prelude::*;

verus! {

/// The kinds of I/O failure that the library tells apart.
#[derive(Debug, Clone, Copy, PartialEq, Eq, Structural)]
pub enum IoErrorKind {
    /// The file or directory does not exist.
    NotFound,
    /// The caller lacks the rights for the access.
    PermissionDenied,
    /// Any other failure.
    Other,
}

/// A failed file system access: its kind and the system's description of it.
#[derive(Debug, Clone)]
pub struct IoFailure {
    /// The kind of failure.
    pub kind: IoErrorKind,
    /// The system's description of the failure.
    pub description: String,
}

impl IoFailure {
    /// Creates a failure of the given kind.
    pub fn new(kind: IoErrorKind, description: &str) -> (f: IoFailure)
        ensures
            f.kind == kind,
            f.description@ == description@,
    {
        IoFailure { kind, description: String::from_str(description) }
    }
}

/// A write that the library asks the caller to perform: put `contents` into the file at
/// `path`, replacing what it held.
#[derive(Debug, Clone)]
pub struct WriteRequest {
    /// The file to write.
    pub path: String,
    /// The text to write into it.
    pub contents: String,
}

/// The lower-level error that caused an error of this library.
#[derive(Debug)]
pub enum Cause<'a> {
    /// A failed file system access.
    Io(&'a IoFailure),
    /// A failed conversion of raw text into a value.
    Unit(&'a UnitError),
}

} // verus!
