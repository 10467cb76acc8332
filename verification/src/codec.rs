//! Decoding of the postcard-encoded results that a pending file-system task
//! hands back. Postcard writes unsigned integers as little-endian base-128
//! varints: each byte carries seven bits of the value, and a set high bit
//! means another byte follows. A varint for a type of `b` bits has at most
//! `ceil(b / 7)` bytes, and its last possible byte may only carry the bits
//! that remain. Bytes after the decoded value are ignored.
use vstd::prelude::*;
use vstd::utf8::{decode_utf8, valid_utf8};

verus! {

/// The varint at the start of `bytes`, at most `max_len` bytes long, whose
/// byte at position `max_len - 1` (if it gets that far) is at most
/// `max_last`: its value and the number of bytes it takes, or `None` where
/// the bytes end too early, the varint is too long, or its last byte is too
/// large.
pub open spec fn varint(bytes: Seq<u8>, max_len: nat, max_last: u8) -> Option<(nat, nat)>
    decreases max_len,
{
    if max_len == 0 || bytes.len() == 0 {
        None
    } else if bytes[0] < 0x80 {
        if max_len == 1 && bytes[0] > max_last {
            None
        } else {
            Some((bytes[0] as nat, 1nat))
        }
    } else {
        match varint(bytes.drop_first(), (max_len - 1) as nat, max_last) {
            Some((v, n)) => Some(((bytes[0] - 0x80) as nat + 0x80 * v, n + 1)),
            None => None,
        }
    }
}

/// A 32-bit varint: at most 5 bytes, the fifth at most 0x0F.
pub open spec fn varint_u32(bytes: Seq<u8>) -> Option<(nat, nat)> {
    varint(bytes, 5, 0x0F)
}

/// A 64-bit varint: at most 10 bytes, the tenth at most 0x01.
pub open spec fn varint_u64(bytes: Seq<u8>) -> Option<(nat, nat)> {
    varint(bytes, 10, 0x01)
}

/// A varint as wide as the target's `usize`.
pub open spec fn varint_usize(bytes: Seq<u8>) -> Option<(nat, nat)> {
    if usize::BITS == 64 {
        varint_u64(bytes)
    } else {
        varint_u32(bytes)
    }
}

/// What `postcard::from_bytes::<u32>` gives for `bytes`.
pub open spec fn postcard_u32(bytes: Seq<u8>) -> Option<u32> {
    match varint_u32(bytes) {
        Some((v, _)) => Some(v as u32),
        None => None,
    }
}

/// The zigzag mapping of postcard's signed integers: even numbers are the
/// non-negative values, odd numbers the negative ones.
pub open spec fn zigzag(n: nat) -> int {
    if n % 2 == 0 {
        (n / 2) as int
    } else {
        -((n + 1) / 2)
    }
}

/// What `postcard::from_bytes::<i32>` gives for `bytes`: a zigzagged 32-bit
/// varint.
pub open spec fn postcard_i32(bytes: Seq<u8>) -> Option<i32> {
    match varint_u32(bytes) {
        Some((v, _)) => Some(zigzag(v) as i32),
        None => None,
    }
}

/// What `postcard::from_bytes::<usize>` gives for `bytes`: a 64-bit varint,
/// refused where its value exceeds the target's `usize`.
pub open spec fn postcard_usize(bytes: Seq<u8>) -> Option<usize> {
    match varint_u64(bytes) {
        Some((v, _)) => if v <= usize::MAX {
            Some(v as usize)
        } else {
            None
        },
        None => None,
    }
}

/// The characters of what `postcard::from_bytes::<String>` gives for
/// `bytes`: a length as a `usize` varint, then that many bytes, which must
/// be valid UTF-8.
pub open spec fn postcard_string(bytes: Seq<u8>) -> Option<Seq<char>> {
    match varint_usize(bytes) {
        Some((len, n)) => if n + len <= bytes.len() && valid_utf8(
            bytes.subrange(n as int, (n + len) as int),
        ) {
            Some(decode_utf8(bytes.subrange(n as int, (n + len) as int)))
        } else {
            None
        },
        None => None,
    }
}

/// Calls `postcard::from_bytes::<u32>`, which reads a 32-bit varint; the
/// decoder's error is dropped.
#[verifier::external_body]
pub(crate) fn decode_u32(bytes: &[u8]) -> (r: Option<u32>)
    ensures
        r == postcard_u32(bytes@),
{
    postcard::from_bytes::<u32>(bytes).ok()
}

/// Calls `postcard::from_bytes::<i32>`, which reads a zigzagged 32-bit
/// varint; the decoder's error is dropped.
#[verifier::external_body]
pub(crate) fn decode_i32(bytes: &[u8]) -> (r: Option<i32>)
    ensures
        r == postcard_i32(bytes@),
{
    postcard::from_bytes::<i32>(bytes).ok()
}

/// Calls `postcard::from_bytes::<usize>`, which reads a 64-bit varint and
/// refuses a value that does not fit the target's `usize`; the decoder's
/// error is dropped.
#[verifier::external_body]
pub(crate) fn decode_usize(bytes: &[u8]) -> (r: Option<usize>)
    ensures
        r == postcard_usize(bytes@),
{
    postcard::from_bytes::<usize>(bytes).ok()
}

/// Calls `postcard::from_bytes::<String>`, which reads a length prefix and
/// checks that the bytes it covers are UTF-8; the decoder's error is
/// dropped.
#[verifier::external_body]
pub(crate) fn decode_string(bytes: &[u8]) -> (r: Option<String>)
    ensures
        match r {
            Some(s) => postcard_string(bytes@) == Some(s@),
            None => postcard_string(bytes@) is None,
        },
{
    postcard::from_bytes::<String>(bytes).ok()
}

} // verus!
