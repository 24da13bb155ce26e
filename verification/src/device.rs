//! The capability contract of a device handle and the two zeroing algorithms
//! that every handle gets from it.

use vstd::prelude::*;
use vstd::slice::slice_subrange;
use crate::error::Error;
use crate::geometry::{consistent, lemma_derived_count_is_consistent};
use crate::model::{
    discarded, lemma_written_push, lemma_written_same, overwrite, read_from, read_len,
    same_outside, written, zero_at, zeroed, zeros, DeviceView, Op, Reply,
};

verus! {

/// Chunk size, in bytes, of the write buffer of `block_zero_out`.
pub const ZERO_CHUNK: usize = 1024;

/// Largest number of bytes that `block_fast_zero_out` poisons and reads back.
pub const PROBE_SIZE: usize = 1024;

/// The byte that `block_fast_zero_out` writes before it discards.
pub const SENTINEL: u8 = 255;

/// A write of zero bytes and nothing else.
pub open spec fn zero_write(op: Op) -> bool {
    match op {
        Op::Write(buf) => buf == zeros(buf.len()),
        _ => false,
    }
}

/// A seek to the position that the handle had in state `pre`.
pub open spec fn seek_back(op: Op, pre: DeviceView) -> bool {
    match op {
        Op::Seek(pos) => pos == pre.cursor,
        _ => false,
    }
}

/// What the log shows of a write-based zeroing from `offset` that has made
/// its first two calls and some of its writes, none of which failed: `done`
/// bytes are written so far.
pub open spec fn zeroing_so_far(pre: DeviceView, now: DeviceView, offset: u64, done: nat) -> bool {
    let n = pre.log.len() as int;
    &&& now.extends(pre)
    &&& now.log.len() >= n + 2
    &&& now.log[n].op is Position
    &&& now.log[n + 1].op == Op::Seek(offset)
    &&& forall|i: int| n + 1 < i < now.log.len() ==> zero_write(#[trigger] now.log[i].op)
    &&& forall|i: int| n <= i < now.log.len() ==> !(#[trigger] now.log[i].reply is Failed)
    &&& written(now.log, n, now.log.len() as int) == done
}

/// What the log shows of a write-based zeroing of `len` bytes from `offset`
/// that took the handle from `pre` to `post` and returned `res`.
///
/// It asked for the position, sought to `offset`, wrote zero bytes and
/// nothing else, and sought back to the position it had found. It stopped at
/// the first call that failed and returned that call's error. Until it has
/// written, the bytes are what they were. If no call failed it made all of
/// these calls, and its writes hold `len` bytes in all.
pub open spec fn zero_out_run(
    pre: DeviceView,
    post: DeviceView,
    offset: u64,
    len: u64,
    res: Result<(), Error>,
) -> bool {
    let n = pre.log.len() as int;
    let last = post.log.len() - 1;
    &&& post.extends(pre)
    &&& post.log.len() > n
    &&& post.log[n].op is Position
    &&& post.log.len() > n + 1 ==> post.log[n + 1].op == Op::Seek(offset)
    &&& post.log.len() <= n + 2 ==> post.bytes == pre.bytes
    &&& forall|i: int|
        n + 1 < i < post.log.len() ==> zero_write(#[trigger] post.log[i].op) || (i == last
            && seek_back(post.log[i].op, pre))
    &&& forall|i: int| n <= i < last ==> !(#[trigger] post.log[i].reply is Failed)
    &&& match post.log.last().reply {
        Reply::Failed(e) => res == Err::<(), Error>(e),
        _ => {
            &&& res is Ok
            &&& last >= n + 2
            &&& seek_back(post.log[last].op, pre)
            &&& written(post.log, n, last) == len
        },
    }
}

/// The number of bytes that a fast zeroing of `len` bytes poisons and reads
/// back.
pub open spec fn probe_len(len: u64) -> nat {
    if len < PROBE_SIZE {
        len as nat
    } else {
        PROBE_SIZE as nat
    }
}

/// `n` sentinel bytes.
pub open spec fn sentinels(n: nat) -> Seq<u8> {
    Seq::new(n, |i: int| SENTINEL)
}

/// The calls of a fast zeroing of `len` bytes from `offset`, in order.
pub open spec fn fast_zero_script(offset: u64, len: u64) -> Seq<Op> {
    seq![
        Op::Seek(offset),
        Op::Write(sentinels(probe_len(len))),
        Op::Seek(offset),
        Op::Sync,
        Op::Discard(offset, len),
        Op::Sync,
        Op::Read(probe_len(len) as usize),
        Op::Seek(offset),
    ]
}

/// The verdict on the bytes read back after a discard: they are accepted if
/// there are at least `probe` of them and the first `probe` are all zero.
pub open spec fn spec_check_read_back(data: Seq<u8>, probe: nat) -> Result<(), Error> {
    if data.len() >= probe && forall|i: int| 0 <= i < probe ==> data[i] == 0u8 {
        Ok(())
    } else {
        Err(Error::VerificationFailed)
    }
}

/// What the log shows of a fast zeroing of `len` bytes from `offset` that took
/// the handle from `pre` to `post` and returned `res`. Its calls are a
/// beginning of the script; it stopped at the first call that failed and
/// returned that call's error; until it has written, the bytes are what
/// they were; if no call failed it made all of them and returned the
/// verdict on the bytes read back.
pub open spec fn fast_zero_run(
    pre: DeviceView,
    post: DeviceView,
    offset: u64,
    len: u64,
    res: Result<(), Error>,
) -> bool {
    let n = pre.log.len() as int;
    let script = fast_zero_script(offset, len);
    &&& post.extends(pre)
    &&& n < post.log.len() <= n + script.len()
    &&& post.log.len() <= n + 1 ==> post.bytes == pre.bytes
    &&& forall|i: int| n <= i < post.log.len() ==> (#[trigger] post.log[i]).op == script[i - n]
    &&& forall|i: int| n <= i < post.log.len() - 1 ==> !(#[trigger] post.log[i].reply is Failed)
    &&& match post.log.last().reply {
        Reply::Failed(e) => res == Err::<(), Error>(e),
        _ => post.log.len() == n + script.len() && match post.log[n + 6].reply {
            Reply::Data(data) => res == spec_check_read_back(data, probe_len(len)),
            _ => false,
        },
    }
}

/// What a fast zeroing of `len` bytes from `offset` comes to on a device
/// that can be depended on, has a discard and holds the range. It makes all
/// its calls, none fails, and the position is `offset` afterwards. Where it
/// is known what the discard does, the result is known too: where it zeroes,
/// success and a zeroed range; where it leaves the bytes as they are,
/// `VerificationFailed`, unless the range is empty.
pub open spec fn with_discard(
    pre: DeviceView,
    post: DeviceView,
    offset: u64,
    len: u64,
    res: Result<(), Error>,
) -> bool {
    &&& post.log.len() == pre.log.len() + 8
    &&& forall|i: int| pre.log.len() <= i < post.log.len() ==> !(#[trigger] post.log[i].reply
        is Failed)
    &&& post.cursor == offset
    &&& pre.zeroing == Some(true) ==> res is Ok && post.bytes == zeroed(
        pre.bytes,
        offset as int,
        len as nat,
    )
    &&& pre.zeroing == Some(false) && len > 0 ==> res == Err::<(), Error>(
        Error::VerificationFailed,
    )
}

/// What a fast zeroing of `len` bytes from `offset` comes to on a platform
/// without discard: it fails, it stops at the discard at the latest, and if
/// it got as far as the discard its error is `UnsupportedOperation`. On a
/// device that can be depended on and that holds the probe it does get that
/// far, and it leaves the sentinel where the probe is and the position at
/// `offset`.
pub open spec fn without_discard(
    pre: DeviceView,
    post: DeviceView,
    offset: u64,
    len: u64,
    res: Result<(), Error>,
) -> bool {
    &&& res is Err
    &&& post.log.len() <= pre.log.len() + 5
    &&& post.log.len() == pre.log.len() + 5 ==> res == Err::<(), Error>(
        Error::UnsupportedOperation,
    )
    &&& pre.dependable && (len == 0 || offset + probe_len(len) <= pre.bytes.len()) ==> {
        &&& post.log.len() == pre.log.len() + 5
        &&& post.cursor == offset
        &&& post.bytes == overwrite(pre.bytes, offset as int, sentinels(probe_len(len)))
    }
}

/// A fast zeroing whose discard failed returns the error of the discard,
/// whatever that error is, and the discard is the last call it made: it
/// read nothing back.
pub proof fn lemma_failed_discard_ends_fast_zero(
    pre: DeviceView,
    post: DeviceView,
    offset: u64,
    len: u64,
    res: Result<(), Error>,
    i: int,
    e: Error,
)
    requires
        fast_zero_run(pre, post, offset, len, res),
        pre.log.len() <= i < post.log.len(),
        post.log[i].op is Discard,
        post.log[i].reply == Reply::Failed(e),
    ensures
        res == Err::<(), Error>(e),
        i == post.log.len() - 1,
        forall|j: int| pre.log.len() <= j < post.log.len() ==> !((#[trigger] post.log[j]).op is Read),
{
    let n = pre.log.len() as int;
    assert(post.log[i].op == fast_zero_script(offset, len)[i - n]);
    assert(i == n + 4);
    assert forall|j: int| n <= j < post.log.len() implies !((#[trigger] post.log[j]).op is Read) by {
        assert(post.log[j].op == fast_zero_script(offset, len)[j - n]);
    }
}

/// A fast zeroing none of whose calls failed made every call of the script
/// and returns the verdict on what it read back: `VerificationFailed` if
/// that is shorter than the probe or holds a byte that is not zero within
/// the probe, and success otherwise.
pub proof fn lemma_read_back_decides_fast_zero(
    pre: DeviceView,
    post: DeviceView,
    offset: u64,
    len: u64,
    res: Result<(), Error>,
)
    requires
        fast_zero_run(pre, post, offset, len, res),
        !(post.log.last().reply is Failed),
    ensures
        post.log.len() == pre.log.len() + 8,
        post.log[pre.log.len() as int + 6].op == Op::Read(probe_len(len) as usize),
        post.log[pre.log.len() as int + 6].reply matches Reply::Data(data) && (if data.len()
            < probe_len(len) || exists|k: int| 0 <= k < probe_len(len) && data[k] != 0u8 {
            res == Err::<(), Error>(Error::VerificationFailed)
        } else {
            res == Ok::<(), Error>(())
        }),
{
    let n = pre.log.len() as int;
    assert(post.log[n + 6].op == fast_zero_script(offset, len)[6]);
}

/// What the three geometry queries return of one device agrees wherever the
/// device is a whole number of blocks: its size is its block size times its
/// block count.
pub proof fn lemma_geometry_of_a_device(device: DeviceView, size: u64, block: u64, count: u64)
    requires
        device.block_size > 0,
        device.bytes.len() % device.block_size == 0,
        size == device.bytes.len(),
        block == device.block_size,
        count == device.bytes.len() / device.block_size,
    ensures
        consistent(block as nat, count as nat, size as nat),
{
    lemma_derived_count_is_consistent(device.bytes.len(), device.block_size);
}

/// A buffer of `len` bytes, each of them `byte`.
fn filled(byte: u8, len: usize) -> (buf: Vec<u8>)
    ensures
        buf@ == Seq::new(len as nat, |i: int| byte),
{
    vec![byte; len]
}

/// Decides whether the bytes read back after a discard prove that the probed
/// region is zero.
pub fn check_read_back(data: &[u8], probe: usize) -> (res: Result<(), Error>)
    ensures
        res == spec_check_read_back(data@, probe as nat),
{
    if data.len() < probe {
        return Err(Error::VerificationFailed);
    }
    let mut i: usize = 0;
    while i < probe
        invariant
            i <= probe <= data@.len(),
            forall|j: int| 0 <= j < i ==> data@[j] == 0u8,
        decreases probe - i,
    {
        if data[i] != 0 {
            return Err(Error::VerificationFailed);
        }
        i += 1;
    }
    Ok(())
}

/// Block device specific extensions of a seekable, readable and writable
/// handle.
///
/// Every method says what it leaves untouched whatever it returns. What it
/// does on success it says under `res is Ok`. That it succeeds it says only
/// of a device that can be depended on.
pub trait BlckExt {
    /// The abstract state of the handle. It exists for contracts only: an
    /// implementation that is not verified gives it a body that never runs.
    spec fn view(&self) -> DeviceView;

    /// Tests whether the handle is a block device. Never fails: a handle
    /// that cannot be probed is no block device.
    fn is_block_device(&self) -> (b: bool)
        ensures
            b == self@.block_special,
    ;

    /// The total size of the block device in bytes.
    fn get_block_device_size(&self) -> (res: Result<u64, Error>)
        ensures
            self@.dependable && self@.block_special ==> res is Ok,
            res matches Ok(size) ==> self@.block_special && size == self@.bytes.len(),
    ;

    /// The size of one logical block in bytes.
    fn get_size_of_block(&self) -> (res: Result<u64, Error>)
        ensures
            self@.dependable && self@.block_special ==> res is Ok,
            res matches Ok(size) ==> self@.block_special && size == self@.block_size,
    ;

    /// The number of logical blocks on the device, partial blocks not
    /// counted.
    fn get_block_count(&self) -> (res: Result<u64, Error>)
        ensures
            self@.dependable && self@.block_special && self@.block_size > 0 ==> res is Ok,
            res matches Ok(count) ==> self@.block_special && self@.block_size > 0 && count
                == self@.bytes.len() / self@.block_size,
    ;

    /// Asks the system to read the partition table of the device again.
    /// Where the platform has no way to do that, the answer is
    /// `UnsupportedOperation`, never a success.
    fn block_reread_paritions(&self) -> (res: Result<(), Error>)
        ensures
            !self@.capabilities.reread_partitions ==> res == Err::<(), Error>(
                Error::UnsupportedOperation,
            ),
            self@.dependable && self@.capabilities.reread_partitions ==> res is Ok,
    ;

    /// Whether a discard is guaranteed to zero the discarded range. Where the
    /// platform cannot tell, the answer is `Ok(false)`, never an error.
    fn block_discard_zeros(&self) -> (res: Result<bool, Error>)
        ensures
            !self@.capabilities.discard_zeros ==> res == Ok::<bool, Error>(false),
            self@.dependable ==> res is Ok,
    ;

    /// Marks the `len` bytes from `offset` as unused. Where the platform has
    /// no discard, the answer is `UnsupportedOperation`, never a success, and
    /// nothing has changed.
    fn block_discard(&mut self, offset: u64, len: u64) -> (res: Result<(), Error>)
        ensures
            final(self)@.logged(old(self)@, Op::Discard(offset, len), Reply::of_unit(res)),
            same_outside(old(self)@.bytes, final(self)@.bytes, offset as int, len as int),
            !old(self)@.capabilities.discard ==> res == Err::<(), Error>(
                Error::UnsupportedOperation,
            ) && final(self)@.same_medium(old(self)@),
            old(self)@.dependable && old(self)@.capabilities.discard && old(self)@.holds(
                offset,
                len,
            ) ==> res is Ok,
            res is Ok ==> final(self)@.cursor == old(self)@.cursor && discarded(
                old(self)@.bytes,
                final(self)@.bytes,
                offset as int,
                len as int,
            ),
            res is Ok && old(self)@.zeroing == Some(true) ==> final(self)@.bytes == zeroed(
                old(self)@.bytes,
                offset as int,
                len as nat,
            ),
            res is Ok && old(self)@.zeroing == Some(false) ==> final(self)@.bytes == old(self)@.bytes,
    ;

    /// Flushes written and discarded data to stable storage.
    fn sync_data(&mut self) -> (res: Result<(), Error>)
        ensures
            final(self)@.logged(old(self)@, Op::Sync, Reply::of_unit(res)),
            final(self)@.bytes == old(self)@.bytes,
            old(self)@.dependable ==> res is Ok,
            res is Ok ==> final(self)@.same_medium(old(self)@),
    ;

    /// The current position.
    fn stream_position(&mut self) -> (res: Result<u64, Error>)
        ensures
            final(self)@.logged(old(self)@, Op::Position, Reply::of_position(res)),
            final(self)@.bytes == old(self)@.bytes,
            old(self)@.dependable ==> res is Ok,
            res matches Ok(pos) ==> pos == old(self)@.cursor && final(self)@.same_medium(
                old(self)@,
            ),
    ;

    /// Moves the position to the absolute byte offset `pos`.
    fn seek(&mut self, pos: u64) -> (res: Result<u64, Error>)
        ensures
            final(self)@.logged(old(self)@, Op::Seek(pos), Reply::of_position(res)),
            final(self)@.bytes == old(self)@.bytes,
            old(self)@.dependable ==> res is Ok,
            res matches Ok(now) ==> now == pos && final(self)@.cursor == pos,
    ;

    /// Reads at most `max` bytes at the current position and moves the
    /// position behind them.
    fn read(&mut self, max: usize) -> (res: Result<Vec<u8>, Error>)
        ensures
            final(self)@.logged(old(self)@, Op::Read(max), Reply::of_data(res)),
            final(self)@.bytes == old(self)@.bytes,
            old(self)@.dependable ==> (res matches Ok(data) && data@.len() == read_len(
                old(self)@.bytes.len(),
                old(self)@.cursor,
                max as nat,
            )),
            res matches Ok(data) ==> data@.len() <= max && read_from(
                old(self)@.bytes,
                old(self)@.cursor as int,
                data@,
            ) && final(self)@.cursor == old(self)@.cursor + data@.len(),
    ;

    /// Writes all of `buf` at the current position and moves the position
    /// behind it.
    fn write_all(&mut self, buf: &[u8]) -> (res: Result<(), Error>)
        ensures
            final(self)@.logged(old(self)@, Op::Write(buf@), Reply::of_unit(res)),
            same_outside(
                old(self)@.bytes,
                final(self)@.bytes,
                old(self)@.cursor as int,
                buf@.len() as int,
            ),
            old(self)@.dependable && (buf@.len() == 0 || old(self)@.cursor + buf@.len() <= old(self)@.bytes.len()) ==> res is Ok,
            res is Ok ==> final(self)@.cursor == old(self)@.cursor + buf@.len()
                && final(self)@.bytes == overwrite(old(self)@.bytes, old(self)@.cursor as int, buf@),
    ;

    /// Zeros out the `len` bytes from `offset`.
    ///
    /// On success those bytes read back as zero and the position is what it
    /// was before the call. There is no atomicity: after a failure the range
    /// may be zeroed in part, and the position may have moved. Whatever
    /// happens, no byte outside the range is touched.
    ///
    /// The provided body writes zeros in the ordinary way. On a device that
    /// can be depended on it succeeds wherever the range lies within the
    /// device or is empty.
    fn block_zero_out(&mut self, offset: u64, len: u64) -> (res: Result<(), Error>)
        ensures
            final(self)@.extends(old(self)@),
            same_outside(old(self)@.bytes, final(self)@.bytes, offset as int, len as int),
            res is Ok ==> final(self)@.zeroed_from(old(self)@, offset, len),
        default_ensures
            zero_out_run(old(self)@, final(self)@, offset, len, res),
            old(self)@.dependable && (len == 0 || old(self)@.holds(offset, len)) ==> res is Ok,
    {
        let chunk = filled(0, ZERO_CHUNK);
        let ghost pre = self@;
        let ghost n = pre.log.len() as int;
        let oldpos = self.stream_position()?;
        proof {
            lemma_written_push(pre.log, self@.log[n], n);
        }
        let ghost asked = self@;
        self.seek(offset)?;
        proof {
            lemma_written_push(asked.log, self@.log[n + 1], n);
        }
        let mut remaining = len;
        while remaining > ZERO_CHUNK as u64
            invariant
                remaining <= len,
                chunk@ == zeros(ZERO_CHUNK as nat),
                pre == old(self)@,
                n == pre.log.len(),
                oldpos == pre.cursor,
                self@.cursor == offset + (len - remaining),
                self@.bytes == overwrite(
                    pre.bytes,
                    offset as int,
                    zeros((len - remaining) as nat),
                ),
                zeroing_so_far(pre, self@, offset, (len - remaining) as nat),
            decreases remaining,
        {
            let ghost before = self@;
            self.write_all(chunk.as_slice())?;
            proof {
                lemma_written_push(before.log, self@.log[before.log.len() as int], n);
            }
            remaining -= ZERO_CHUNK as u64;
        }
        let rest = slice_subrange(chunk.as_slice(), 0, remaining as usize);
        assert(rest@ =~= zeros(remaining as nat));
        let ghost before = self@;
        self.write_all(rest)?;
        proof {
            lemma_written_push(before.log, self@.log[before.log.len() as int], n);
        }
        let ghost wrote = self@;
        self.seek(oldpos)?;
        proof {
            lemma_written_same(self@.log, wrote.log, n, wrote.log.len() as int);
            assert(self@.bytes =~= overwrite(pre.bytes, offset as int, zeros(len as nat)));
        }
        Ok(())
    }

    /// Tries to zero the `len` bytes from `offset` by a discard, and fails
    /// unless the start of the range then reads back as zero.
    ///
    /// It poisons the first bytes of the range with a sentinel, syncs,
    /// discards the range, syncs again and reads the poisoned bytes back. Every
    /// failure is returned at once. After the read the position is `offset`,
    /// whatever the verdict. Whatever happens, no byte outside the range is
    /// touched; of the bytes inside it nothing is said after a failure.
    ///
    /// On a device that can be depended on, that has a discard and that holds
    /// the range, the outcome is known wherever it is known what the discard
    /// does: success with a zeroed range where it zeroes, and
    /// `VerificationFailed` where it leaves the bytes as they are.
    #[verifier::rlimit(30)]
    fn block_fast_zero_out(&mut self, offset: u64, len: u64) -> (res: Result<(), Error>)
        ensures
            fast_zero_run(old(self)@, final(self)@, offset, len, res),
            same_outside(old(self)@.bytes, final(self)@.bytes, offset as int, len as int),
            !old(self)@.capabilities.discard ==> without_discard(
                old(self)@,
                final(self)@,
                offset,
                len,
                res,
            ),
            final(self)@.log.len() == old(self)@.log.len() + 8 && !(final(self)@.log.last().reply
                is Failed) ==> final(self)@.cursor == offset,
            res is Ok ==> final(self)@.cursor == offset && zero_at(
                final(self)@.bytes,
                offset as int,
                probe_len(len),
            ),
            old(self)@.dependable && old(self)@.capabilities.discard && old(self)@.holds(
                offset,
                len,
            ) ==> with_discard(old(self)@, final(self)@, offset, len, res),
    {
        let probe: usize = if len < PROBE_SIZE as u64 {
            len as usize
        } else {
            PROBE_SIZE
        };
        let ones = filled(SENTINEL, PROBE_SIZE);
        let poison = slice_subrange(ones.as_slice(), 0, probe);
        assert(poison@ =~= sentinels(probe_len(len)));
        let ghost pre = self@;
        self.seek(offset)?;
        self.write_all(poison)?;
        assert(same_outside(pre.bytes, self@.bytes, offset as int, len as int));
        let ghost poisoned = self@.bytes;
        self.seek(offset)?;
        self.sync_data()?;
        self.block_discard(offset, len)?;
        assert(same_outside(pre.bytes, self@.bytes, offset as int, len as int));
        proof {
            if pre.holds(offset, len) && pre.zeroing == Some(true) {
                assert(self@.bytes =~= zeroed(pre.bytes, offset as int, len as nat));
            }
        }
        self.sync_data()?;
        let data = self.read(probe)?;
        self.seek(offset)?;
        let verdict = check_read_back(data.as_slice(), probe);
        proof {
            if verdict is Ok {
                assert forall|i: int| offset <= i < offset + probe implies #[trigger] self@.bytes[i]
                    == 0u8 by {
                    assert(data@[i - offset] == 0u8);
                }
            }
            if pre.dependable && pre.capabilities.discard && pre.holds(offset, len) {
                if pre.zeroing == Some(true) {
                    assert forall|i: int| 0 <= i < probe implies data@[i] == 0u8 by {
                        assert(self@.bytes[offset + i] == 0u8);
                    }
                }
                if pre.zeroing == Some(false) && len > 0 {
                    assert(poisoned[offset as int] == SENTINEL);
                    assert(data@[0] == SENTINEL);
                }
            }
        }
        verdict
    }
}

} // verus!
