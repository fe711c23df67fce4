//! The outcome of a failed file-system operation, as the storage logic sees it.

use vstd::prelude::*;

verus! {

/// The kinds of file-system failure that the storage logic tells apart.
#[derive(Clone, Copy, Debug, PartialEq, Eq, Structural)]
pub enum IoErrorKind {
    NotFound,
    PermissionDenied,
    AlreadyExists,
    InvalidFilename,
    NotADirectory,
    InvalidData,
    Other,
}

/// A failed file-system operation: its kind and the text that describes it.
#[derive(Debug)]
pub struct IoError {
    pub kind: IoErrorKind,
    pub message: String,
}

impl IoError {
    /// The error of a path that names nothing the storage can serve.
    pub fn not_found(message: &str) -> (res: IoError)
        ensures
            res.kind == IoErrorKind::NotFound,
            res.message@ == message@,
    {
        IoError { kind: IoErrorKind::NotFound, message: String::from_str(message) }
    }
}

} // verus!
