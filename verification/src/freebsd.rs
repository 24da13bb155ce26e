//! The BSD-style family: the block size comes from a sector-size query and
//! the total size from a media-size query, both in bytes. There is no
//! discard, no re-scan of the partition table and no knowledge of whether a
//! discard would zero.
//!
//! The native calls themselves are made by the caller. What stands here is
//! what becomes of their answers.

use vstd::prelude::*;
use crate::error::{from_native, spec_to_io, Error, NativeError};
use crate::geometry::{block_count, spec_block_count};

verus! {

/// Whether a handle is a disk: this family has no block-special files, so a
/// handle counts as one exactly if it answers the query for its block size.
pub fn is_block_device(size_of_block: &Result<u64, Error>) -> (b: bool)
    ensures
        b <==> size_of_block is Ok,
{
    match size_of_block {
        Ok(_) => true,
        Err(_) => false,
    }
}

/// A signed native offset read as an unsigned number of 64 bits, as a cast
/// does it: a negative number wraps around.
pub open spec fn spec_unsigned(raw: i64) -> u64 {
    if raw >= 0 {
        raw as u64
    } else {
        (raw + 0x1_0000_0000_0000_0000) as u64
    }
}

/// The total size in bytes, from the answer to the media-size query, which
/// is a signed native offset.
pub fn get_block_device_size(raw: Result<i64, NativeError>) -> (res: Result<u64, Error>)
    ensures
        match raw {
            Ok(size) => res == Ok::<u64, Error>(spec_unsigned(size)),
            Err(err) => res is Err && res->Err_0@ == spec_to_io(err),
        },
{
    match from_native(raw) {
        Ok(size) => {
            if size >= 0 {
                Ok(size as u64)
            } else {
                Ok(u64::MAX - ((-(size + 1)) as u64))
            }
        },
        Err(err) => Err(err),
    }
}

/// The logical block size in bytes, from the answer to the sector-size
/// query.
pub fn get_size_of_block(raw: Result<u32, NativeError>) -> (res: Result<u64, Error>)
    ensures
        match raw {
            Ok(size) => res == Ok::<u64, Error>(size as u64),
            Err(err) => res is Err && res->Err_0@ == spec_to_io(err),
        },
{
    match from_native(raw) {
        Ok(size) => Ok(size as u64),
        Err(err) => Err(err),
    }
}

/// The number of blocks, derived from the total size and the block size.
pub fn get_block_count(device_size: u64, block_size: u64) -> (count: u64)
    requires
        block_size > 0,
    ensures
        count == spec_block_count(device_size as nat, block_size as nat),
{
    block_count(device_size, block_size)
}

/// There is no way to have the partition table read again.
pub fn block_reread_paritions() -> (res: Result<(), Error>)
    ensures
        res == Err::<(), Error>(Error::UnsupportedOperation),
{
    Err(Error::UnsupportedOperation)
}

/// Nothing is known of what a discard would leave behind.
pub fn block_discard_zeros() -> (res: Result<bool, Error>)
    ensures
        res == Ok::<bool, Error>(false),
{
    Ok(false)
}

/// There is no discard, whatever the range.
pub fn block_discard(offset: u64, len: u64) -> (res: Result<(), Error>)
    ensures
        res == Err::<(), Error>(Error::UnsupportedOperation),
{
    Err(Error::UnsupportedOperation)
}

} // verus!
