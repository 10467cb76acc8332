//! Reading file metadata.
use vstd::prelude::*;
use crate::error::{IoError, TheErr, TheResult};
use crate::fs::Settlement;
use crate::fs::metadata::{convert, metadata_of, MetadataReading, FsMetadata};

verus! {

/// Finishes reading the metadata of the file at `path` without following a
/// final symbolic link, given what the system answered: a reading becomes
/// the API's metadata record, a failure is reported with the path.
pub fn fs_lstat_s(path: &str, outcome: Result<MetadataReading, IoError>) -> (r: TheResult<FsMetadata>)
    ensures
        match outcome {
            Ok(meta) => r == Ok::<FsMetadata, TheErr>(metadata_of(meta)),
            Err(e) => r matches Err(TheErr::ReadFileByPathFailed(p, e2)) && p@ == path@ && e2 == e,
        },
{
    match outcome {
        Ok(meta) => Ok(convert(meta)),
        Err(e) => Err(TheErr::ReadFileByPathFailed(path.to_owned(), e)),
    }
}

/// Finishes reading the metadata of the file at `path`, following symbolic
/// links, given what the system answered: a reading becomes the API's
/// metadata record, a failure is reported with the path.
pub fn fs_stat_s(path: &str, outcome: Result<MetadataReading, IoError>) -> (r: TheResult<FsMetadata>)
    ensures
        match outcome {
            Ok(meta) => r == Ok::<FsMetadata, TheErr>(metadata_of(meta)),
            Err(e) => r matches Err(TheErr::ReadFileByPathFailed(p, e2)) && p@ == path@ && e2 == e,
        },
{
    match outcome {
        Ok(meta) => Ok(convert(meta)),
        Err(e) => Err(TheErr::ReadFileByPathFailed(path.to_owned(), e)),
    }
}

/// How a metadata task settles, once its payload is decoded: the record
/// resolves the promise, a failure rejects it with its error.
pub fn settle_stat(result: TheResult<FsMetadata>) -> (s: Settlement<FsMetadata>)
    ensures
        match result {
            Ok(meta) => s == Settlement::<FsMetadata>::Resolve(meta),
            Err(e) => s == Settlement::<FsMetadata>::Reject(e),
        },
{
    match result {
        Ok(meta) => Settlement::Resolve(meta),
        Err(e) => Settlement::Reject(e),
    }
}

} // verus!
