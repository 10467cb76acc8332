//! Reading a whole file as text.
use vstd::prelude::*;
use crate::error::{IoError, TheErr, TheResult};
use crate::codec::{decode_string, postcard_string};
use crate::fs::Settlement;

verus! {

/// Finishes reading the whole file at `path` as text, given what the system
/// answered: the text is passed on unchanged, a failure is reported with the
/// path.
pub fn fs_read_text_file_s(path: &str, outcome: Result<String, IoError>) -> (r: TheResult<String>)
    ensures
        match outcome {
            Ok(text) => r == Ok::<String, TheErr>(text),
            Err(e) => r matches Err(TheErr::ReadFileByPathFailed(p, e2)) && p@ == path@ && e2 == e,
        },
{
    match outcome {
        Ok(text) => Ok(text),
        Err(e) => Err(TheErr::ReadFileByPathFailed(path.to_owned(), e)),
    }
}

/// How a task that reads a file as text settles, once its payload is
/// decoded: a failed task is rejected with its error; a success carries the
/// text, which resolves the promise; a payload that did not decode marks a
/// broken task and gives `None`.
pub fn settle_read_text_file_decoded(result: TheResult<Option<String>>) -> (s: Option<Settlement<String>>)
    ensures
        match result {
            Err(e) => s == Some(Settlement::<String>::Reject(e)),
            Ok(Some(text)) => s == Some(Settlement::<String>::Resolve(text)),
            Ok(None) => s is None,
        },
{
    match result {
        Err(e) => Some(Settlement::Reject(e)),
        Ok(Some(text)) => Some(Settlement::Resolve(text)),
        Ok(None) => None,
    }
}

/// The settlement of a task that reads a file as text, from its encoded
/// payload: the payload is decoded as a string, then settled as
/// [`settle_read_text_file_decoded`] says.
pub fn settle_read_text_file(result: TheResult<Vec<u8>>) -> (s: Option<Settlement<String>>)
    ensures
        match result {
            Err(e) => s == Some(Settlement::<String>::Reject(e)),
            Ok(bytes) => match postcard_string(bytes@) {
                Some(text) => s matches Some(Settlement::Resolve(t)) && t@ == text,
                None => s is None,
            },
        },
{
    let decoded = match result {
        Err(e) => Err(e),
        Ok(bytes) => Ok(decode_string(bytes.as_slice())),
    };
    settle_read_text_file_decoded(decoded)
}

} // verus!
