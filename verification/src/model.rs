//! The abstract state of a device handle.
//!
//! A handle is modelled by a [`DeviceView`]: the bytes a read returns, the
//! read/write position, what is fixed of the device and its platform, and the
//! log of every primitive call made on the handle together with what the
//! device answered.
//! The log is what lets a contract say which error a composed operation
//! returns and which calls it did not make.

use vstd::prelude::*;
use crate::error::Error;

verus! {

/// A primitive call on a handle.
pub enum Op {
    /// Ask for the current position.
    Position,
    /// Move the position to this absolute byte offset.
    Seek(u64),
    /// Write these bytes at the current position.
    Write(Seq<u8>),
    /// Read at most this many bytes at the current position.
    Read(usize),
    /// Flush data to stable storage.
    Sync,
    /// Discard this many bytes (second) from this byte offset (first).
    Discard(u64, u64),
}

/// What the device answered to a primitive call.
pub enum Reply {
    /// The call succeeded and returned nothing.
    Done,
    /// The call succeeded and returned this position.
    Position(u64),
    /// The call succeeded and returned these bytes.
    Data(Seq<u8>),
    /// The call failed with this error.
    Failed(Error),
}

impl Reply {
    /// The reply that a call without a value gave.
    pub open spec fn of_unit(res: Result<(), Error>) -> Reply {
        match res {
            Ok(_) => Reply::Done,
            Err(e) => Reply::Failed(e),
        }
    }

    /// The reply that a call for a position gave.
    pub open spec fn of_position(res: Result<u64, Error>) -> Reply {
        match res {
            Ok(p) => Reply::Position(p),
            Err(e) => Reply::Failed(e),
        }
    }

    /// The reply that a read gave.
    pub open spec fn of_data(res: Result<Vec<u8>, Error>) -> Reply {
        match res {
            Ok(data) => Reply::Data(data@),
            Err(e) => Reply::Failed(e),
        }
    }
}

/// One entry of a handle's log.
pub struct Call {
    pub op: Op,
    pub reply: Reply,
}

/// What the platform behind a handle has a mechanism for.
pub struct Capabilities {
    /// The partition table can be read again.
    pub reread_partitions: bool,
    /// Ranges can be discarded.
    pub discard: bool,
    /// It can be asked whether a discard zeroes.
    pub discard_zeros: bool,
}

/// The abstract state of a device handle.
pub struct DeviceView {
    /// Whether the handle refers to a block-special file.
    pub block_special: bool,
    /// The logical block size in bytes.
    pub block_size: nat,
    /// What the platform has a mechanism for.
    pub capabilities: Capabilities,
    /// Whether the device can be depended on: every call that can be
    /// answered is answered, and a read returns all the bytes that are there.
    pub dependable: bool,
    /// What a discard that succeeds does to the range: `Some(true)` where it
    /// zeroes it, `Some(false)` where it leaves it as it is, `None` where
    /// that is not known.
    pub zeroing: Option<bool>,
    /// The addressable bytes, as a read returns them.
    pub bytes: Seq<u8>,
    /// The read/write position, an absolute byte offset.
    pub cursor: nat,
    /// Every primitive call made so far, oldest first.
    pub log: Seq<Call>,
}

/// `n` zero bytes.
pub open spec fn zeros(n: nat) -> Seq<u8> {
    Seq::new(n, |i: int| 0u8)
}

/// `s` after `buf` was written at offset `at`. A write that ends beyond the
/// end lengthens the sequence; bytes between the old end and `at` are zero.
/// An empty write changes nothing.
pub open spec fn overwrite(s: Seq<u8>, at: int, buf: Seq<u8>) -> Seq<u8> {
    if buf.len() == 0 {
        s
    } else {
        Seq::new(
            if s.len() >= at + buf.len() { s.len() } else { (at + buf.len()) as nat },
            |i: int|
                if at <= i < at + buf.len() {
                    buf[i - at]
                } else if i < s.len() {
                    s[i]
                } else {
                    0u8
                },
        )
    }
}

/// `s` with the `len` bytes from `offset` set to zero.
pub open spec fn zeroed(s: Seq<u8>, offset: int, len: nat) -> Seq<u8> {
    overwrite(s, offset, zeros(len))
}

/// `data` is what a read at `cursor` may return from `bytes`.
pub open spec fn read_from(bytes: Seq<u8>, cursor: int, data: Seq<u8>) -> bool {
    &&& data.len() > 0 ==> cursor + data.len() <= bytes.len()
    &&& forall|i: int| 0 <= i < data.len() ==> data[i] == bytes[cursor + i]
}

/// The number of bytes that a read of at most `max` bytes at `cursor`
/// returns from a device of `size` bytes that can be depended on: all that
/// are there, up to `max`.
pub open spec fn read_len(size: nat, cursor: nat, max: nat) -> nat {
    if cursor >= size {
        0
    } else if size - cursor < max {
        (size - cursor) as nat
    } else {
        max
    }
}

/// The number of bytes that a call hands to the device: the length of a
/// write, nothing for any other call.
pub open spec fn bytes_written(op: Op) -> nat {
    match op {
        Op::Write(buf) => buf.len(),
        _ => 0,
    }
}

/// The number of bytes that the calls of `log` from index `from` up to, but
/// not including, index `to` hand to the device.
pub open spec fn written(log: Seq<Call>, from: int, to: int) -> nat
    decreases to - from,
{
    if to <= from {
        0
    } else {
        written(log, from, to - 1) + bytes_written(log[to - 1].op)
    }
}

/// Logs that hold the same calls from `from` up to `to` hand the same number
/// of bytes to the device there.
pub proof fn lemma_written_same(a: Seq<Call>, b: Seq<Call>, from: int, to: int)
    requires
        forall|i: int| from <= i < to ==> a[i] == b[i],
    ensures
        written(a, from, to) == written(b, from, to),
    decreases to - from,
{
    if to > from {
        lemma_written_same(a, b, from, to - 1);
    }
}

/// One more call adds what it hands to the device.
pub proof fn lemma_written_push(log: Seq<Call>, call: Call, from: int)
    requires
        0 <= from <= log.len(),
    ensures
        written(log.push(call), from, log.len() as int + 1) == written(log, from, log.len() as int)
            + bytes_written(call.op),
{
    lemma_written_same(log.push(call), log, from, log.len() as int);
}

/// `post` differs from `pre` at most inside the `len` bytes from `offset`:
/// every old byte outside them is kept, and every byte that is new and
/// outside them is zero.
pub open spec fn same_outside(pre: Seq<u8>, post: Seq<u8>, offset: int, len: int) -> bool {
    &&& pre.len() <= post.len()
    &&& forall|i: int|
        0 <= i < post.len() && !(offset <= i < offset + len) ==> #[trigger] post[i] == (if i
            < pre.len() {
            pre[i]
        } else {
            0u8
        })
}

/// The `len` bytes of `bytes` from `offset` exist and are zero.
pub open spec fn zero_at(bytes: Seq<u8>, offset: int, len: nat) -> bool {
    &&& len > 0 ==> offset + len <= bytes.len()
    &&& forall|i: int| offset <= i < offset + len ==> #[trigger] bytes[i] == 0u8
}

/// `post` is `pre` after a discard of the `len` bytes from `offset`: the
/// length is kept and so is every byte outside the range. Nothing is said of
/// the bytes inside it.
pub open spec fn discarded(pre: Seq<u8>, post: Seq<u8>, offset: int, len: int) -> bool {
    &&& post.len() == pre.len()
    &&& forall|i: int|
        0 <= i < pre.len() && !(offset <= i < offset + len) ==> #[trigger] post[i] == pre[i]
}

impl DeviceView {
    /// `self` and `pre` are states of one device: what kind of file it is,
    /// its block size, what its platform can do, whether it can be depended
    /// on and what its discard does are the same.
    pub open spec fn same_device(self, pre: DeviceView) -> bool {
        &&& self.block_special == pre.block_special
        &&& self.block_size == pre.block_size
        &&& self.capabilities == pre.capabilities
        &&& self.dependable == pre.dependable
        &&& self.zeroing == pre.zeroing
    }

    /// The `len` bytes from `offset` lie within the device.
    pub open spec fn holds(self, offset: u64, len: u64) -> bool {
        offset + len <= self.bytes.len()
    }

    /// `self` is a later state of the handle that was in state `pre`: the log
    /// has only grown, and the device is the same.
    pub open spec fn extends(self, pre: DeviceView) -> bool {
        &&& pre.log.len() <= self.log.len()
        &&& forall|i: int| 0 <= i < pre.log.len() ==> #[trigger] self.log[i] == pre.log[i]
        &&& self.same_device(pre)
    }

    /// `self` is `pre` after exactly one more call was logged.
    pub open spec fn logged(self, pre: DeviceView, op: Op, reply: Reply) -> bool {
        &&& self.log == pre.log.push(Call { op, reply })
        &&& self.same_device(pre)
    }

    /// The bytes and the position of `self` are those of `pre`.
    pub open spec fn same_medium(self, pre: DeviceView) -> bool {
        &&& self.bytes == pre.bytes
        &&& self.cursor == pre.cursor
    }

    /// `self` is `pre` after the `len` bytes from `offset` were zeroed and
    /// the position was put back.
    pub open spec fn zeroed_from(self, pre: DeviceView, offset: u64, len: u64) -> bool {
        &&& self.cursor == pre.cursor
        &&& self.bytes == zeroed(pre.bytes, offset as int, len as nat)
    }
}

/// Zeroing a range leaves every byte outside it as it was and makes the
/// range exist and be zero.
pub proof fn lemma_zeroed_range(s: Seq<u8>, offset: nat, len: nat)
    ensures
        zero_at(zeroed(s, offset as int, len), offset as int, len),
        same_outside(s, zeroed(s, offset as int, len), offset as int, len as int),
{
}

/// After a zeroing of `len > 0` bytes from `offset`, the position is what it
/// was, the device holds all `len` bytes, and whatever a read of at most
/// `len` bytes at `offset` returns is all zero.
pub proof fn lemma_zero_out_reads_zero(
    pre: DeviceView,
    post: DeviceView,
    offset: u64,
    len: u64,
    data: Seq<u8>,
)
    requires
        len > 0,
        post.zeroed_from(pre, offset, len),
        data.len() <= len,
        read_from(post.bytes, offset as int, data),
    ensures
        post.cursor == pre.cursor,
        offset + len <= post.bytes.len(),
        read_from(post.bytes, offset as int, zeros(len as nat)),
        data == zeros(data.len()),
{
    assert(data =~= zeros(data.len()));
}

/// Zeroing the same range twice in a row gives the bytes and the position
/// that zeroing it once gives.
pub proof fn lemma_zero_out_twice(
    pre: DeviceView,
    once: DeviceView,
    twice: DeviceView,
    offset: u64,
    len: u64,
)
    requires
        once.zeroed_from(pre, offset, len),
        twice.zeroed_from(once, offset, len),
    ensures
        twice.bytes == once.bytes,
        twice.cursor == once.cursor,
{
    assert(twice.bytes =~= once.bytes);
}

} // verus!
