//! The `Rsvim.fs` operations, one module for each.
use vstd::prelude::*;
use crate::error::{TheErr, TheResult};
use crate::codec::{decode_i32, decode_u32, postcard_i32, postcard_u32};
use crate::resource::ResourceId;

pub mod close;
pub mod link;
pub mod metadata;
pub mod mkdir;
pub mod open;
pub mod read;
pub mod read_dir;
pub mod read_file;
pub mod read_text_file;
pub mod stat;
pub mod symlink;
pub mod write;

verus! {

/// How a script-side promise for a file-system task is settled: resolved
/// with a value, or rejected with the task's error.
#[derive(Debug, PartialEq, Eq)]
pub enum Settlement<T> {
    Resolve(T),
    Reject(TheErr),
}

/// How a task whose success carries no value (creating a link, a symbolic
/// link or a directory) settles, once its payload is decoded: a failed task
/// is rejected with its error; a success must carry the number 0 and
/// resolves the promise; any other payload, or one that did not decode,
/// marks a broken task and gives `None`.
pub fn settle_unit_decoded(result: TheResult<Option<u32>>) -> (s: Option<Settlement<()>>)
    ensures
        match result {
            Err(e) => s == Some(Settlement::<()>::Reject(e)),
            Ok(Some(n)) => s == (if n == 0 {
                Some(Settlement::Resolve(()))
            } else {
                None::<Settlement<()>>
            }),
            Ok(None) => s is None,
        },
{
    match result {
        Err(e) => Some(Settlement::Reject(e)),
        Ok(Some(0)) => Some(Settlement::Resolve(())),
        Ok(_) => None,
    }
}

/// The settlement of a task whose success carries no value, from its
/// encoded payload: the payload is decoded as a `u32`, then settled as
/// [`settle_unit_decoded`] says.
pub fn settle_unit(result: TheResult<Vec<u8>>) -> (s: Option<Settlement<()>>)
    ensures
        match result {
            Err(e) => s == Some(Settlement::<()>::Reject(e)),
            Ok(bytes) => s == (if postcard_u32(bytes@) == Some(0u32) {
                Some(Settlement::Resolve(()))
            } else {
                None::<Settlement<()>>
            }),
        },
{
    let decoded = match result {
        Err(e) => Err(e),
        Ok(bytes) => Ok(decode_u32(bytes.as_slice())),
    };
    settle_unit_decoded(decoded)
}

/// How a task that opens a file or a directory listing settles, once its
/// payload is decoded: a failed task is rejected with its error; a success
/// carries the id of the new resource, which resolves the promise as a
/// number; a payload that did not decode marks a broken task and gives
/// `None`.
pub fn settle_rid_decoded(result: TheResult<Option<i32>>) -> (s: Option<Settlement<i32>>)
    ensures
        match result {
            Err(e) => s == Some(Settlement::<i32>::Reject(e)),
            Ok(Some(rid)) => s == Some(Settlement::<i32>::Resolve(rid)),
            Ok(None) => s is None,
        },
{
    match result {
        Err(e) => Some(Settlement::Reject(e)),
        Ok(Some(n)) => Some(Settlement::Resolve(ResourceId::from_i32(n).to_i32())),
        Ok(None) => None,
    }
}

/// The settlement of a task that opens a file or a directory listing, from
/// its encoded payload: the payload is decoded as a resource id (an `i32`),
/// then settled as [`settle_rid_decoded`] says.
pub fn settle_rid(result: TheResult<Vec<u8>>) -> (s: Option<Settlement<i32>>)
    ensures
        match result {
            Err(e) => s == Some(Settlement::<i32>::Reject(e)),
            Ok(bytes) => s == match postcard_i32(bytes@) {
                Some(rid) => Some(Settlement::Resolve(rid)),
                None => None::<Settlement<i32>>,
            },
        },
{
    let decoded = match result {
        Err(e) => Err(e),
        Ok(bytes) => Ok(decode_i32(bytes.as_slice())),
    };
    settle_rid_decoded(decoded)
}

} // verus!
