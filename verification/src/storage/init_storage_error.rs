//! Why the cloud storage could not be set up.

use vstd::prelude::*;
use crate::storage::io_error::IoError;

verus! {

#[derive(Debug)]
pub enum InitStorageError {
    InvalidRootDirectory(String),
    Io(IoError),
}

/// The text that describes an initialisation failure.
pub open spec fn init_error_text(e: InitStorageError) -> Seq<char> {
    match e {
        InitStorageError::InvalidRootDirectory(msg) => "invalid root directory: "@ + msg@,
        InitStorageError::Io(err) => "error: "@ + err.message@,
    }
}

impl InitStorageError {
    /// The text that describes the failure, as the server reports it.
    pub fn message(&self) -> (res: String)
        ensures
            res@ == init_error_text(*self),
    {
        match self {
            InitStorageError::InvalidRootDirectory(msg) => {
                let res = String::from_str("invalid root directory: ");
                res.concat(msg.as_str())
            },
            InitStorageError::Io(err) => {
                let res = String::from_str("error: ");
                res.concat(err.message.as_str())
            },
        }
    }
}

} // verus!
