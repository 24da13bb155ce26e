//! The Darwin-style family: block size and block count are asked for
//! separately and the total size is their product; a discard is a native
//! unmap call on a list of extents. There is no re-scan of the partition
//! table and no knowledge of whether a discard would zero.
//!
//! The native calls themselves are made by the caller. What stands here is
//! what goes into them and what becomes of their answers.

use vstd::prelude::*;
use vstd::slice::slice_subrange;
use crate::error::{from_native, spec_to_io, Error, NativeError};
use crate::geometry::{device_size, spec_device_size};

verus! {

/// A range of bytes on a device.
#[allow(non_camel_case_types)]
#[derive(Copy, Clone, Debug, PartialEq, Eq)]
pub struct dk_extent {
    pub offset: u64,
    pub length: u64,
}

impl Default for dk_extent {
    fn default() -> (extent: dk_extent)
        ensures
            extent.offset == 0,
            extent.length == 0,
    {
        dk_extent { offset: 0, length: 0 }
    }
}

/// The argument of the native unmap call: a list of extents and a word of
/// options. The call takes the number of extents as a number of 32 bits, so
/// the list holds no more extents than such a number can count.
#[allow(non_camel_case_types)]
#[derive(Copy, Clone, Debug)]
pub struct dk_unmap<'a> {
    extents: &'a [dk_extent],
    pub options: u32,
}

/// The mathematical value of a [`dk_unmap`].
pub struct UnmapView {
    pub extents: Seq<dk_extent>,
    pub options: u32,
}

impl<'a> View for dk_unmap<'a> {
    type V = UnmapView;

    closed spec fn view(&self) -> UnmapView {
        UnmapView { extents: self.extents@, options: self.options }
    }
}

/// The number of extents that the native call is told of when it is handed
/// `len` of them: the low 32 bits of `len`.
pub open spec fn spec_extents_count(len: nat) -> nat {
    len % 0x1_0000_0000
}

impl<'a> dk_unmap<'a> {
    /// An unmap request for `extents` with `options`. Where there are more
    /// extents than 32 bits can count, the count wraps around and the request
    /// holds only as many of the first extents as the wrapped count says.
    pub fn new(extents: &'a [dk_extent], options: u32) -> (unmap: dk_unmap<'a>)
        ensures
            unmap@.extents == extents@.take(spec_extents_count(extents@.len()) as int),
            unmap@.options == options,
    {
        let len = extents.len();
        let count = if len as u64 > 0xFFFF_FFFF {
            (len as u64 % 0x1_0000_0000) as usize
        } else {
            len
        };
        dk_unmap { extents: slice_subrange(extents, 0, count), options }
    }

    /// The extents of the request.
    pub fn extents(&'a self) -> (extents: &'a [dk_extent])
        ensures
            extents@ == self@.extents,
    {
        self.extents
    }

    /// The options of the request.
    pub fn options(&self) -> (options: u32)
        ensures
            options == self@.options,
    {
        self.options
    }

    /// The number of extents that the native call is told of.
    pub fn extents_count(&self) -> (count: u32)
        ensures
            count == spec_extents_count(self@.extents.len()),
    {
        (self.extents.len() as u64 % 0x1_0000_0000) as u32
    }
}

impl Default for dk_unmap<'static> {
    /// A request without extents and without options.
    fn default() -> (unmap: dk_unmap<'static>)
        ensures
            unmap@.extents.len() == 0,
            unmap@.options == 0,
    {
        let none: &'static [dk_extent] = &[];
        dk_unmap { extents: none, options: 0 }
    }
}

/// Whether a handle is a block device, from what its metadata said:
/// `Some(true)` for a block-special file, `Some(false)` for any other file,
/// `None` where the metadata could not be read.
pub fn is_block_device(probe: Option<bool>) -> (b: bool)
    ensures
        b <==> probe == Some(true),
{
    match probe {
        Some(block_special) => block_special,
        None => false,
    }
}

/// The logical block size in bytes, from the answer to the block-size
/// query.
pub fn get_size_of_block(raw: Result<u32, NativeError>) -> (res: Result<u64, Error>)
    ensures
        match raw {
            Ok(size) => res == Ok::<u64, Error>(size as u64),
            Err(err) => res is Err && res->Err_0@ == spec_to_io(err),
        },
{
    match from_native(raw) {
        Ok(size) => Ok(size as u64),
        Err(err) => Err(err),
    }
}

/// The number of blocks, from the answer to the block-count query.
pub fn get_block_count(raw: Result<u64, NativeError>) -> (res: Result<u64, Error>)
    ensures
        match raw {
            Ok(count) => res == Ok::<u64, Error>(count),
            Err(err) => res is Err && res->Err_0@ == spec_to_io(err),
        },
{
    from_native(raw)
}

/// The total size in bytes, derived from the block size and the block
/// count.
pub fn get_block_device_size(block_size: u64, block_count: u64) -> (size: u64)
    requires
        block_size * block_count <= u64::MAX,
    ensures
        size == spec_device_size(block_size as nat, block_count as nat),
{
    device_size(block_size, block_count)
}

/// There is no way to have the partition table read again.
pub fn block_reread_paritions() -> (res: Result<(), Error>)
    ensures
        res == Err::<(), Error>(Error::UnsupportedOperation),
{
    Err(Error::UnsupportedOperation)
}

/// Nothing is known of what a discard would leave behind.
pub fn block_discard_zeros() -> (res: Result<bool, Error>)
    ensures
        res == Ok::<bool, Error>(false),
{
    Ok(false)
}

/// The one extent that a discard of `length` bytes from `offset` unmaps.
pub fn discard_extent(offset: u64, length: u64) -> (extents: [dk_extent; 1])
    ensures
        extents@ == seq![dk_extent { offset, length }],
{
    [dk_extent { offset, length }]
}

/// The outcome of a native unmap.
pub fn block_discard(raw: Result<(), NativeError>) -> (res: Result<(), Error>)
    ensures
        match raw {
            Ok(_) => res is Ok,
            Err(err) => res is Err && res->Err_0@ == spec_to_io(err),
        },
{
    from_native(raw)
}

} // verus!
