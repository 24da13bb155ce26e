//! Device geometry: the logical block size, the number of blocks and the
//! total size in bytes, and how the third follows from two of them.

use vstd::prelude::*;

verus! {

/// The number of whole blocks of `block_size` bytes in `device_size` bytes.
pub open spec fn spec_block_count(device_size: nat, block_size: nat) -> nat
    recommends
        block_size > 0,
{
    device_size / block_size
}

/// The size in bytes of `block_count` blocks of `block_size` bytes.
pub open spec fn spec_device_size(block_size: nat, block_count: nat) -> nat {
    block_size * block_count
}

/// The three values describe one device: the size is the block size times
/// the block count.
pub open spec fn consistent(block_size: nat, block_count: nat, device_size: nat) -> bool {
    device_size == block_size * block_count
}

/// Derives the block count from the total size and the block size. A partial
/// block at the end is not counted.
pub fn block_count(device_size: u64, block_size: u64) -> (count: u64)
    requires
        block_size > 0,
    ensures
        count == spec_block_count(device_size as nat, block_size as nat),
        block_size * count <= device_size < block_size * count + block_size,
{
    let count = device_size / block_size;
    proof {
        lemma_whole_blocks(device_size as nat, block_size as nat);
    }
    count
}

/// Derives the total size from the block size and the block count.
pub fn device_size(block_size: u64, block_count: u64) -> (size: u64)
    requires
        block_size * block_count <= u64::MAX,
    ensures
        size == spec_device_size(block_size as nat, block_count as nat),
{
    block_size * block_count
}

/// The whole blocks of a device cover it up to less than one block.
pub proof fn lemma_whole_blocks(device_size: nat, block_size: nat)
    requires
        block_size > 0,
    ensures
        block_size * spec_block_count(device_size, block_size) <= device_size,
        device_size < block_size * spec_block_count(device_size, block_size) + block_size,
{
    vstd::arithmetic::div_mod::lemma_fundamental_div_mod(device_size as int, block_size as int);
    vstd::arithmetic::div_mod::lemma_mod_bound(device_size as int, block_size as int);
}

/// A size derived from a block size and a block count is consistent with
/// them, and the block count derived from that size is the count it came
/// from.
pub proof fn lemma_derived_size_is_consistent(block_size: nat, block_count: nat)
    requires
        block_size > 0,
    ensures
        consistent(block_size, block_count, spec_device_size(block_size, block_count)),
        spec_block_count(spec_device_size(block_size, block_count), block_size) == block_count,
{
    vstd::arithmetic::div_mod::lemma_div_multiples_vanish(block_count as int, block_size as int);
    assert(block_size * block_count == block_count * block_size) by (nonlinear_arith);
}

/// A block count derived from a size that is a whole number of blocks is
/// consistent with the size and the block size.
pub proof fn lemma_derived_count_is_consistent(device_size: nat, block_size: nat)
    requires
        block_size > 0,
        device_size % block_size == 0,
    ensures
        consistent(block_size, spec_block_count(device_size, block_size), device_size),
{
    vstd::arithmetic::div_mod::lemma_fundamental_div_mod(device_size as int, block_size as int);
}

} // verus!
