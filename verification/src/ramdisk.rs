//! A block device held in memory.
//!
//! It answers every call of the capability contract from a vector of bytes,
//! and it can be made to have no discard, a discard that zeroes, or a discard
//! that leaves the bytes as they are.

use vstd::prelude::*;
use crate::device::BlckExt;
use crate::error::Error;
use crate::model::{discarded, overwrite, zeros, Call, Capabilities, DeviceView, Op, Reply};

verus! {

/// Error number for a write that does not fit on the device.
pub const ENOSPC: i32 = 28;

/// Error number for a discard that reaches beyond the device.
pub const EINVAL: i32 = 22;

/// What a discard does on a [`RamDisk`].
#[derive(Debug, Clone, Copy, PartialEq, Eq, Structural)]
pub enum DiscardMode {
    /// The device has no discard.
    Unsupported,
    /// A discard sets the range to zero.
    Zeroes,
    /// A discard succeeds and leaves the bytes as they are.
    Keeps,
}

/// A block size: a number of bytes that is not zero.
struct BlockSize {
    bytes: u64,
}

impl BlockSize {
    #[verifier::type_invariant]
    spec fn positive(self) -> bool {
        self.bytes > 0
    }

    fn get(&self) -> (bytes: u64)
        ensures
            bytes == self.bytes,
            bytes > 0,
    {
        proof {
            use_type_invariant(self);
        }
        self.bytes
    }
}

/// A block device held in memory.
pub struct RamDisk {
    data: Vec<u8>,
    pos: u64,
    block_size: BlockSize,
    discard: DiscardMode,
    log: Ghost<Seq<Call>>,
}

impl RamDisk {
    /// What a device with this discard has a mechanism for: never a re-scan
    /// of the partition table; a discard unless it is unsupported; and an
    /// answer to whether a discard zeroes where it does.
    pub open spec fn capabilities(discard: DiscardMode) -> Capabilities {
        Capabilities {
            reread_partitions: false,
            discard: discard != DiscardMode::Unsupported,
            discard_zeros: discard == DiscardMode::Zeroes,
        }
    }

    /// What a discard that succeeds does on a device with this discard.
    pub open spec fn zeroing(discard: DiscardMode) -> Option<bool> {
        match discard {
            DiscardMode::Unsupported => None,
            DiscardMode::Zeroes => Some(true),
            DiscardMode::Keeps => Some(false),
        }
    }

    /// A device of `block_count` blocks of `block_size` bytes, every byte
    /// `fill`, positioned at its start. There is none with blocks of no bytes,
    /// nor one whose size is no `usize`.
    pub fn new(block_size: u64, block_count: u64, fill: u8, discard: DiscardMode) -> (disk: Option<
        RamDisk,
    >)
        ensures
            disk is Some <==> block_size > 0 && block_size * block_count <= usize::MAX,
            disk matches Some(d) ==> d@.block_special && d@.block_size == block_size
                && d@.capabilities == RamDisk::capabilities(discard) && d@.dependable && d@.zeroing
                == RamDisk::zeroing(discard) && d@.bytes
                == Seq::new((block_size * block_count) as nat, |i: int| fill) && d@.cursor == 0
                && d@.log.len() == 0,
    {
        if block_size == 0 {
            return None;
        }
        let size = match block_size.checked_mul(block_count) {
            Some(size) => size,
            None => {
                return None;
            },
        };
        if size > usize::MAX as u64 {
            return None;
        }
        let data = vec![fill; size as usize];
        Some(
            RamDisk {
                data,
                pos: 0,
                block_size: BlockSize { bytes: block_size },
                discard,
                log: Ghost(Seq::empty()),
            },
        )
    }

    /// The bytes of the device.
    pub fn as_bytes(&self) -> (bytes: &[u8])
        ensures
            bytes@ == self@.bytes,
    {
        self.data.as_slice()
    }
}

impl BlckExt for RamDisk {
    closed spec fn view(&self) -> DeviceView {
        DeviceView {
            block_special: true,
            block_size: self.block_size.bytes as nat,
            capabilities: RamDisk::capabilities(self.discard),
            dependable: true,
            zeroing: RamDisk::zeroing(self.discard),
            bytes: self.data@,
            cursor: self.pos as nat,
            log: self.log@,
        }
    }

    fn is_block_device(&self) -> (b: bool) {
        true
    }

    fn get_block_device_size(&self) -> (res: Result<u64, Error>) {
        Ok(self.data.len() as u64)
    }

    fn get_size_of_block(&self) -> (res: Result<u64, Error>) {
        Ok(self.block_size.get())
    }

    fn get_block_count(&self) -> (res: Result<u64, Error>) {
        Ok(self.data.len() as u64 / self.block_size.get())
    }

    fn block_reread_paritions(&self) -> (res: Result<(), Error>)
        ensures
            res == Err::<(), Error>(Error::UnsupportedOperation),
    {
        Err(Error::UnsupportedOperation)
    }

    fn block_discard_zeros(&self) -> (res: Result<bool, Error>)
        ensures
            res == Ok::<bool, Error>(self@.capabilities.discard_zeros),
    {
        Ok(self.discard == DiscardMode::Zeroes)
    }

    fn block_discard(&mut self, offset: u64, len: u64) -> (res: Result<(), Error>)
        ensures
            old(self)@.capabilities.discard ==> (res is Ok <==> old(self)@.holds(offset, len)),
            old(self)@.capabilities.discard && !old(self)@.holds(offset, len) ==> res == Err::<
                (),
                Error,
            >(Error::DeviceError(EINVAL)),
            res is Err ==> final(self)@.same_medium(old(self)@),
    {
        let res = self.discard_bytes(offset, len);
        proof {
            self.log@ = self.log@.push(
                Call { op: Op::Discard(offset, len), reply: Reply::of_unit(res) },
            );
        }
        res
    }

    fn sync_data(&mut self) -> (res: Result<(), Error>) {
        proof {
            self.log@ = self.log@.push(Call { op: Op::Sync, reply: Reply::Done });
        }
        Ok(())
    }

    fn stream_position(&mut self) -> (res: Result<u64, Error>) {
        proof {
            self.log@ = self.log@.push(Call { op: Op::Position, reply: Reply::Position(self.pos) });
        }
        Ok(self.pos)
    }

    fn seek(&mut self, pos: u64) -> (res: Result<u64, Error>) {
        self.pos = pos;
        proof {
            self.log@ = self.log@.push(Call { op: Op::Seek(pos), reply: Reply::Position(pos) });
        }
        Ok(pos)
    }

    fn read(&mut self, max: usize) -> (res: Result<Vec<u8>, Error>) {
        let size = self.data.len();
        let mut data: Vec<u8> = Vec::new();
        if self.pos < size as u64 {
            let start = self.pos as usize;
            let count = if size - start < max {
                size - start
            } else {
                max
            };
            let mut i: usize = 0;
            while i < count
                invariant
                    i <= count,
                    start + count <= size,
                    size == self.data@.len(),
                    data@.len() == i,
                    forall|j: int| 0 <= j < i ==> data@[j] == self.data@[start + j],
                decreases count - i,
            {
                data.push(self.data[start + i]);
                i += 1;
            }
            self.pos = self.pos + count as u64;
        }
        proof {
            self.log@ = self.log@.push(Call { op: Op::Read(max), reply: Reply::Data(data@) });
        }
        Ok(data)
    }

    fn write_all(&mut self, buf: &[u8]) -> (res: Result<(), Error>)
        ensures
            res is Ok <==> buf@.len() == 0 || old(self)@.cursor + buf@.len() <= old(self)@.bytes.len(),
            res is Err ==> res == Err::<(), Error>(Error::DeviceError(ENOSPC)) && final(self)@.same_medium(old(self)@),
    {
        let res = self.write_bytes(buf);
        proof {
            self.log@ = self.log@.push(Call { op: Op::Write(buf@), reply: Reply::of_unit(res) });
        }
        res
    }
}

impl RamDisk {
    /// Applies a discard to the bytes. Nothing is logged.
    fn discard_bytes(&mut self, offset: u64, len: u64) -> (res: Result<(), Error>)
        ensures
            final(self).log@ == old(self).log@,
            final(self).pos == old(self).pos,
            final(self).block_size == old(self).block_size,
            final(self).discard == old(self).discard,
            old(self).discard == DiscardMode::Unsupported ==> res == Err::<(), Error>(
                Error::UnsupportedOperation,
            ),
            old(self).discard != DiscardMode::Unsupported ==> (res is Ok <==> offset + len <= old(self).data@.len()),
            old(self).discard != DiscardMode::Unsupported && offset + len > old(self).data@.len()
                ==> res == Err::<(), Error>(Error::DeviceError(EINVAL)),
            res is Err ==> final(self).data@ == old(self).data@,
            res is Ok ==> discarded(old(self).data@, final(self).data@, offset as int, len as int),
            res is Ok && old(self).discard == DiscardMode::Zeroes ==> final(self).data@
                == overwrite(old(self).data@, offset as int, zeros(len as nat)),
            res is Ok && old(self).discard == DiscardMode::Keeps ==> final(self).data@ == old(self).data@,
    {
        match self.discard {
            DiscardMode::Unsupported => {
                return Err(Error::UnsupportedOperation);
            },
            _ => {},
        }
        let size = self.data.len() as u64;
        if offset > size || len > size - offset {
            return Err(Error::DeviceError(EINVAL));
        }
        match self.discard {
            DiscardMode::Zeroes => {
                let start = offset as usize;
                let count = len as usize;
                let mut i: usize = 0;
                while i < count
                    invariant
                        i <= count,
                        start + count <= self.data@.len() <= usize::MAX,
                        self.data@.len() == old(self).data@.len(),
                        self.log@ == old(self).log@,
                        self.pos == old(self).pos,
                        self.block_size == old(self).block_size,
                        self.discard == old(self).discard,
                        forall|j: int|
                            0 <= j < self.data@.len() ==> self.data@[j] == (if start <= j < start
                                + i {
                                0u8
                            } else {
                                old(self).data@[j]
                            }),
                    decreases count - i,
                {
                    self.data.set(start + i, 0);
                    i += 1;
                }
                assert(self.data@ =~= overwrite(
                    old(self).data@,
                    offset as int,
                    zeros(len as nat),
                ));
            },
            _ => {},
        }
        Ok(())
    }

    /// Copies `buf` to the bytes at the position. Nothing is logged.
    fn write_bytes(&mut self, buf: &[u8]) -> (res: Result<(), Error>)
        ensures
            final(self).log@ == old(self).log@,
            final(self).block_size == old(self).block_size,
            final(self).discard == old(self).discard,
            res is Ok <==> buf@.len() == 0 || old(self).pos + buf@.len() <= old(self).data@.len(),
            res is Err ==> res == Err::<(), Error>(Error::DeviceError(ENOSPC)) && final(self).data@
                == old(self).data@ && final(self).pos == old(self).pos,
            res is Ok ==> final(self).pos == old(self).pos + buf@.len() && final(self).data@
                == overwrite(old(self).data@, old(self).pos as int, buf@),
    {
        let count = buf.len();
        if count == 0 {
            return Ok(());
        }
        let size = self.data.len();
        if self.pos > size as u64 || count > size - self.pos as usize {
            return Err(Error::DeviceError(ENOSPC));
        }
        let start = self.pos as usize;
        let mut i: usize = 0;
        while i < count
            invariant
                i <= count,
                count == buf@.len(),
                start + count <= self.data@.len() <= usize::MAX,
                self.data@.len() == old(self).data@.len(),
                self.log@ == old(self).log@,
                self.pos == old(self).pos,
                self.block_size == old(self).block_size,
                self.discard == old(self).discard,
                forall|j: int|
                    0 <= j < self.data@.len() ==> self.data@[j] == (if start <= j < start + i {
                        buf@[j - start]
                    } else {
                        old(self).data@[j]
                    }),
            decreases count - i,
        {
            self.data.set(start + i, buf[i]);
            i += 1;
        }
        self.pos = self.pos + count as u64;
        assert(self.data@ =~= overwrite(old(self).data@, old(self).pos as int, buf@));
        Ok(())
    }
}

} // verus!
