//! Creating a directory.
use vstd::prelude::*;
use crate::error::{IoError, TheErr, TheResult};

verus! {

/// How a directory is to be created: whether missing parents are created
/// too (off unless set), and the permission bits it gets on Unix (0o777
/// unless set).
#[derive(Debug, Copy, Clone, PartialEq, Eq, Structural)]
pub struct FsMkdirOptions {
    pub recursive: bool,
    pub mode: u32,
}

impl Default for FsMkdirOptions {
    fn default() -> (o: Self)
        ensures
            o == (FsMkdirOptions { recursive: false, mode: 0o777 }),
    {
        FsMkdirOptions { recursive: false, mode: 0o777 }
    }
}

/// Finishes creating the directory `path`, given what the system answered:
/// success is passed on, a failure is reported with the path.
pub fn fs_mkdir_s(path: &str, outcome: Result<(), IoError>) -> (r: TheResult<()>)
    ensures
        match outcome {
            Ok(()) => r is Ok,
            Err(e) => r matches Err(TheErr::CreateDirectoryFailed(p, e2)) && p@ == path@ && e2 == e,
        },
{
    match outcome {
        Ok(()) => Ok(()),
        Err(e) => Err(TheErr::CreateDirectoryFailed(path.to_owned(), e)),
    }
}

} // verus!
