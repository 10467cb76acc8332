//! Reading a whole file as bytes.
use vstd::prelude::*;
use crate::error::{IoError, TheErr, TheResult};
use crate::fs::Settlement;

verus! {

/// Finishes reading the whole file at `path`, given what the system
/// answered: the bytes read are passed on unchanged, a failure is reported
/// with the path.
pub fn fs_read_file_s(path: &str, outcome: Result<Vec<u8>, IoError>) -> (r: TheResult<Vec<u8>>)
    ensures
        match outcome {
            Ok(data) => r == Ok::<Vec<u8>, TheErr>(data),
            Err(e) => r matches Err(TheErr::ReadFileByPathFailed(p, e2)) && p@ == path@ && e2 == e,
        },
{
    match outcome {
        Ok(data) => Ok(data),
        Err(e) => Err(TheErr::ReadFileByPathFailed(path.to_owned(), e)),
    }
}

/// How a task that reads a whole file settles: the bytes resolve the promise
/// (as a new buffer), a failure rejects it with its error.
pub fn settle_read_file(result: TheResult<Vec<u8>>) -> (s: Settlement<Vec<u8>>)
    ensures
        match result {
            Ok(data) => s == Settlement::<Vec<u8>>::Resolve(data),
            Err(e) => s == Settlement::<Vec<u8>>::Reject(e),
        },
{
    match result {
        Ok(data) => Settlement::Resolve(data),
        Err(e) => Settlement::Reject(e),
    }
}

} // verus!
