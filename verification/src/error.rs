use vstd::prelude::*;
use crate::resource::ResourceId;

verus! {

/// An operating-system error as plain values: the raw error code where the
/// system gave one, and the error's message.
#[derive(Debug, Clone, PartialEq, Eq)]
pub struct IoError {
    pub code: Option<i32>,
    pub message: String,
}

/// Errors of the file-system API. Each names the operation that failed, the
/// path or handle id it was given, and the underlying system error.
#[derive(Debug, Clone, PartialEq, Eq)]
pub enum TheErr {
    OpenFileFailed(String, IoError),
    ReadFileByPathFailed(String, IoError),
    ReadFileByRidFailed(ResourceId, IoError),
    WriteFileByRidFailed(ResourceId, IoError),
    ReadDirectoryByPathFailed(String, IoError),
    ReadDirectoryByRidFailed(ResourceId, IoError),
    CreateDirectoryFailed(String, IoError),
    CreateLinkFailed(String, String, IoError),
    CreateSymlinkFailed(String, String, IoError),
}

/// The result type of the file-system API.
pub type TheResult<T> = Result<T, TheErr>;

} // verus!
