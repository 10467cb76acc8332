//! Creating a hard link.
use vstd::prelude::*;
use crate::error::{IoError, TheErr, TheResult};

verus! {

/// Finishes creating a hard link `newpath` to `oldpath`, given what the
/// system answered: success is passed on, a failure is reported with both
/// paths.
pub fn fs_link_s(oldpath: &str, newpath: &str, outcome: Result<(), IoError>) -> (r: TheResult<()>)
    ensures
        match outcome {
            Ok(()) => r is Ok,
            Err(e) => r matches Err(TheErr::CreateLinkFailed(o, n, e2))
                && o@ == oldpath@ && n@ == newpath@ && e2 == e,
        },
{
    match outcome {
        Ok(()) => Ok(()),
        Err(e) => Err(TheErr::CreateLinkFailed(oldpath.to_owned(), newpath.to_owned(), e)),
    }
}

} // verus!
