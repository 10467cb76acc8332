//! Writing to an open file.
use vstd::prelude::*;
use crate::error::{IoError, TheErr, TheResult};
use crate::resource::ResourceId;
use crate::codec::{decode_usize, postcard_usize, varint_u64};
use crate::fs::Settlement;

verus! {

/// Finishes one write of `buf` to the file with id `rid`, given what the
/// system answered: the number of bytes written, which never exceeds the
/// buffer's length, is passed on; a failure is reported with the id.
pub fn fs_write_s(rid: ResourceId, buf: &[u8], outcome: Result<usize, IoError>) -> (r: TheResult<usize>)
    requires
        outcome matches Ok(n) ==> n <= buf@.len(),
    ensures
        match outcome {
            Ok(n) => r == Ok::<usize, TheErr>(n),
            Err(e) => r == Err::<usize, TheErr>(TheErr::WriteFileByRidFailed(rid, e)),
        },
{
    match outcome {
        Ok(n) => Ok(n),
        Err(e) => Err(TheErr::WriteFileByRidFailed(rid, e)),
    }
}

/// How a writing task settles, once its payload is decoded: a failed task
/// is rejected with its error; a success carries the number of bytes
/// written, which resolves the promise as a 32-bit number (wrapping as a
/// cast does); a payload that did not decode marks a broken task and gives
/// `None`.
pub fn settle_write_decoded(result: TheResult<Option<usize>>) -> (s: Option<Settlement<i32>>)
    ensures
        match result {
            Err(e) => s == Some(Settlement::<i32>::Reject(e)),
            Ok(Some(n)) => s == Some(Settlement::<i32>::Resolve(n as i32)),
            Ok(None) => s is None,
        },
{
    match result {
        Err(e) => Some(Settlement::Reject(e)),
        Ok(Some(n)) => Some(Settlement::Resolve(n as i32)),
        Ok(None) => None,
    }
}

/// The settlement of a writing task, from its encoded payload: the payload
/// is decoded as a `usize`, then settled as [`settle_write_decoded`] says.
pub fn settle_write(result: TheResult<Vec<u8>>) -> (s: Option<Settlement<i32>>)
    ensures
        match result {
            Err(e) => s == Some(Settlement::<i32>::Reject(e)),
            Ok(bytes) => s == match postcard_usize(bytes@) {
                Some(n) => Some(Settlement::Resolve(n as i32)),
                None => None::<Settlement<i32>>,
            },
        },
{
    let decoded = match result {
        Err(e) => Err(e),
        Ok(bytes) => Ok(decode_usize(bytes.as_slice())),
    };
    settle_write_decoded(decoded)
}

/// A payload holding the varint of a count that fits in 32 bits decodes to
/// that count on every target, so the write settles with it.
pub proof fn law_write_count_decodes(bytes: Seq<u8>, count: nat, len: nat)
    requires
        varint_u64(bytes) == Some((count, len)),
        count <= u32::MAX,
    ensures
        postcard_usize(bytes) == Some(count as usize),
{
}

} // verus!
