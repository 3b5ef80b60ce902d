//! Sizes that the gateway derives from its settings, which give them in
//! mebibytes.

use vstd::prelude::*;

verus! {

/// Number of bytes in one mebibyte.
pub const MEBIBYTE: usize = 1048576;

/// The number of bytes in `count` mebibytes, where it fits a `usize`.
pub fn mebibytes(count: usize) -> (bytes: Option<usize>)
    ensures
        match bytes {
            Some(b) => b == count * MEBIBYTE,
            None => count * MEBIBYTE > usize::MAX,
        },
{
    if count > usize::MAX / MEBIBYTE {
        None
    } else {
        Some(count * MEBIBYTE)
    }
}

/// The chunk size in bytes for a setting of `file_chunk_size` mebibytes.
/// A chunk size must be positive, so a setting of 0 gives none, as does
/// one too large for a `usize`.
pub fn chunk_size_bytes(file_chunk_size: usize) -> (bytes: Option<usize>)
    ensures
        match bytes {
            Some(b) => b == file_chunk_size * MEBIBYTE && b >= 1,
            None => file_chunk_size == 0 || file_chunk_size * MEBIBYTE > usize::MAX,
        },
{
    if file_chunk_size == 0 {
        None
    } else {
        mebibytes(file_chunk_size)
    }
}

/// The largest request body accepted, in bytes, for a setting of
/// `req_body_limit` mebibytes.
pub fn request_body_limit_bytes(req_body_limit: usize) -> (bytes: Option<usize>)
    ensures
        match bytes {
            Some(b) => b == req_body_limit * MEBIBYTE,
            None => req_body_limit * MEBIBYTE > usize::MAX,
        },
{
    mebibytes(req_body_limit)
}

/// The largest message accepted from the files backend, in bytes: one
/// mebibyte more than a chunk of `max_chunk_size` mebibytes, so that a full
/// chunk fits together with its framing.
pub fn max_decoding_message_size(max_chunk_size: usize) -> (bytes: Option<usize>)
    ensures
        match bytes {
            Some(b) => b == (max_chunk_size + 1) * MEBIBYTE,
            None => (max_chunk_size + 1) * MEBIBYTE > usize::MAX,
        },
{
    if max_chunk_size == usize::MAX {
        None
    } else {
        mebibytes(max_chunk_size + 1)
    }
}

} // verus!
