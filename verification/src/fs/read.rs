//! Reading from an open file.
use vstd::prelude::*;
use crate::error::{IoError, TheErr, TheResult};
use crate::resource::ResourceId;
use crate::fs::Settlement;

verus! {

/// A zeroed buffer of `bufsize` bytes for one read.
pub fn read_buffer(bufsize: usize) -> (buf: Vec<u8>)
    ensures
        buf@ == Seq::new(bufsize as nat, |_i: int| 0u8),
{
    let mut buf: Vec<u8> = Vec::with_capacity(bufsize);
    let mut i: usize = 0;
    while i < bufsize
        invariant
            i <= bufsize,
            buf@ == Seq::new(i as nat, |_i: int| 0u8),
        decreases bufsize - i,
    {
        buf.push(0u8);
        i = i + 1;
    }
    buf
}

/// Finishes one read from the file with id `rid` into `buf`, given what the
/// system answered: on success the buffer is cut to the number of bytes
/// read, which never exceeds its length; a failure is reported with the id.
pub fn fs_read_s(rid: ResourceId, buf: Vec<u8>, outcome: Result<usize, IoError>) -> (r: TheResult<Vec<u8>>)
    requires
        outcome matches Ok(n) ==> n <= buf@.len(),
    ensures
        match outcome {
            Ok(n) => r matches Ok(data) && data@ == buf@.take(n as int),
            Err(e) => r == Err::<Vec<u8>, TheErr>(TheErr::ReadFileByRidFailed(rid, e)),
        },
{
    match outcome {
        Ok(n) => {
            let mut data = buf;
            data.truncate(n);
            Ok(data)
        },
        Err(e) => Err(TheErr::ReadFileByRidFailed(rid, e)),
    }
}

/// How a reading task settles: the bytes read go into the script's buffer
/// and the promise resolves with their number as a 32-bit number (wrapping
/// as a cast does); a failure rejects it with its error.
pub fn settle_read(result: TheResult<Vec<u8>>) -> (s: Settlement<(Vec<u8>, i32)>)
    ensures
        match result {
            Ok(data) => s == Settlement::<(Vec<u8>, i32)>::Resolve((data, data@.len() as i32)),
            Err(e) => s == Settlement::<(Vec<u8>, i32)>::Reject(e),
        },
{
    match result {
        Ok(data) => {
            let n = data.len() as i32;
            Settlement::Resolve((data, n))
        },
        Err(e) => Settlement::Reject(e),
    }
}

} // verus!
