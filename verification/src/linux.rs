//! The Linux-style family: block size and total size are asked for
//! separately, both in bytes; discard and zero-fill are native calls on a
//! byte range; so are the re-scan of the partition table and the query
//! whether a discard zeroes.
//!
//! The native calls themselves are made by the caller. What stands here is
//! what goes into them and what becomes of their answers.

use vstd::prelude::*;
use crate::error::{from_native, spec_to_io, Error, NativeError};
use crate::geometry::{block_count, spec_block_count};

verus! {

/// Whether a handle is a block device, from what its metadata said:
/// `Some(true)` for a block-special file, `Some(false)` for any other file,
/// `None` where the metadata could not be read.
pub fn is_block_device(probe: Option<bool>) -> (b: bool)
    ensures
        b <==> probe == Some(true),
{
    match probe {
        Some(block_special) => block_special,
        None => false,
    }
}

/// The total size in bytes, from the answer to the size query.
pub fn get_block_device_size(raw: Result<u64, NativeError>) -> (res: Result<u64, Error>)
    ensures
        match raw {
            Ok(size) => res == Ok::<u64, Error>(size),
            Err(err) => res is Err && res->Err_0@ == spec_to_io(err),
        },
{
    from_native(raw)
}

/// A signed native number read as an unsigned one of 64 bits, as a cast
/// does it: a negative number wraps around.
pub open spec fn spec_widen(raw: i32) -> u64 {
    if raw >= 0 {
        raw as u64
    } else {
        (raw + 0x1_0000_0000_0000_0000) as u64
    }
}

/// The logical block size in bytes, from the answer to the sector-size
/// query, which is a signed native number.
pub fn get_size_of_block(raw: Result<i32, NativeError>) -> (res: Result<u64, Error>)
    ensures
        match raw {
            Ok(size) => res == Ok::<u64, Error>(spec_widen(size)),
            Err(err) => res is Err && res->Err_0@ == spec_to_io(err),
        },
{
    match from_native(raw) {
        Ok(size) => {
            if size >= 0 {
                Ok(size as u64)
            } else {
                Ok(u64::MAX - ((-(size as i64)) as u64 - 1))
            }
        },
        Err(err) => Err(err),
    }
}

/// The number of blocks, derived from the total size and the block size.
pub fn get_block_count(device_size: u64, block_size: u64) -> (count: u64)
    requires
        block_size > 0,
    ensures
        count == spec_block_count(device_size as nat, block_size as nat),
{
    block_count(device_size, block_size)
}

/// The outcome of the request to read the partition table again.
pub fn block_reread_paritions(raw: Result<(), NativeError>) -> (res: Result<(), Error>)
    ensures
        match raw {
            Ok(_) => res is Ok,
            Err(err) => res is Err && res->Err_0@ == spec_to_io(err),
        },
{
    from_native(raw)
}

/// Whether a discard zeroes, from the answer to the query, which is a
/// native number: zero for no, anything else for yes.
pub fn block_discard_zeros(raw: Result<u32, NativeError>) -> (res: Result<bool, Error>)
    ensures
        match raw {
            Ok(flag) => res == Ok::<bool, Error>(flag != 0),
            Err(err) => res is Err && res->Err_0@ == spec_to_io(err),
        },
{
    match from_native(raw) {
        Ok(flag) => Ok(flag != 0),
        Err(err) => Err(err),
    }
}

/// The argument of the native discard and zero-fill calls: the byte offset,
/// then the byte length.
pub fn byte_range(offset: u64, len: u64) -> (range: [u64; 2])
    ensures
        range@ == seq![offset, len],
{
    [offset, len]
}

/// The outcome of a native discard.
pub fn block_discard(raw: Result<(), NativeError>) -> (res: Result<(), Error>)
    ensures
        match raw {
            Ok(_) => res is Ok,
            Err(err) => res is Err && res->Err_0@ == spec_to_io(err),
        },
{
    from_native(raw)
}

/// The outcome of a native zero-fill.
pub fn block_zero_out(raw: Result<(), NativeError>) -> (res: Result<(), Error>)
    ensures
        match raw {
            Ok(_) => res is Ok,
            Err(err) => res is Err && res->Err_0@ == spec_to_io(err),
        },
{
    from_native(raw)
}

} // verus!
