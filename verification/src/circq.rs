//! A circular byte queue on borrowed memory.

use crate::ring::{
    law_read_after_write, law_read_splits, law_write_keeps_preceding, ring_read, ring_write, wrap,
};
use vstd::prelude::*;

verus! {

/// `<[T]>::copy_from_slice` copies all of `src` into `dst`, which must be of the
/// same length.
pub assume_specification<T>[ <[T]>::copy_from_slice ](dst: &mut [T], src: &[T]) where T: Copy
    requires
        old(dst)@.len() == src@.len(),
    ensures
        final(dst)@ == src@,
;

/// A simple circular byte queue, backed by borrowed memory.
///
/// When given an `n`-byte slice of backing memory, a `CircQ` can store up to
/// `n` bytes in FIFO order. Bytes can be enqueued or dequeued in chunks; the
/// size of these chunks is not recorded in the queue, so the enqueue and
/// dequeue sizes don't have to match.
#[derive(Debug)]
pub struct CircQ<'s> {
    backing: &'s mut [u8],
    head: usize,
    tail: usize,
    available: usize,
}

/// Error returned when the queue is too full to accommodate a block.
#[derive(Copy, Clone, Debug)]
pub struct QueueFull;

/// Error returned when the queue doesn't have enough data to read out a certain
/// number of bytes.
#[derive(Copy, Clone, Debug)]
pub struct QueueNotFullEnough;

/// What a queue of `capacity` bytes that holds `contents` holds once `data` has
/// been enqueued; `None` where `data` does not fit.
pub open spec fn enqueued(contents: Seq<u8>, capacity: nat, data: Seq<u8>) -> Option<Seq<u8>> {
    if contents.len() + data.len() <= capacity {
        Some(contents + data)
    } else {
        None
    }
}

/// The `n` bytes that leave a queue that holds `contents`, and what it holds
/// afterwards; `None` where it holds fewer than `n`.
pub open spec fn dequeued(contents: Seq<u8>, n: nat) -> Option<(Seq<u8>, Seq<u8>)> {
    if n <= contents.len() {
        Some((contents.take(n as int), contents.skip(n as int)))
    } else {
        None
    }
}

/// The length of the part of `n` bytes from position `at` that lies before the
/// end of a memory of `len` bytes.
pub open spec fn leading_part(n: int, at: int, len: int) -> int {
    if n <= len - at {
        n
    } else {
        len - at
    }
}

impl<'s> View for CircQ<'s> {
    type V = Seq<u8>;

    /// The bytes that have been enqueued but not yet dequeued, oldest first.
    closed spec fn view(&self) -> Seq<u8> {
        ring_read(self.backing@, self.tail as int, self.available as nat)
    }
}

impl<'s> CircQ<'s> {
    /// The memory the queue was created with.
    pub closed spec fn memory(self) -> &'s mut [u8] {
        self.backing
    }

    /// How many bytes the queue can store.
    pub open spec fn capacity(self) -> nat {
        self.memory()@.len()
    }

    /// The position in memory of the next byte to dequeue.
    pub closed spec fn read_offset(self) -> int {
        self.tail as int
    }

    /// The position in memory of the next byte to enqueue.
    pub open spec fn write_offset(self) -> int {
        wrap(self.read_offset() + self@.len(), self.capacity() as int)
    }

    /// The queue's invariant.
    pub closed spec fn wf(self) -> bool {
        &&& self.available <= self.backing@.len()
        &&& self.backing@.len() == 0 ==> self.tail == 0 && self.head == 0
        &&& self.backing@.len() > 0 ==> {
            &&& self.tail < self.backing@.len()
            &&& self.head == wrap(self.tail + self.available, self.backing@.len() as int)
        }
    }
}

impl<'s> CircQ<'s> {
    /// Creates a queue structure with the given backing memory. The queue is
    /// initially empty.
    pub fn new(backing: &'s mut [u8]) -> (q: Self)
        ensures
            q.wf(),
            q@ == Seq::<u8>::empty(),
            q.read_offset() == 0,
            q.memory()@ == old(backing)@,
            final(q.memory())@ == final(backing)@,
    {
        Self { backing, head: 0, tail: 0, available: 0 }
    }

    /// Checks whether the queue is empty.
    pub fn is_empty(&self) -> (empty: bool)
        requires
            self.wf(),
        ensures
            empty == (self@.len() == 0),
    {
        self.available == 0
    }

    /// Returns the number of bytes that have been enqueued but not yet
    /// dequeued.
    pub fn available(&self) -> (n: usize)
        requires
            self.wf(),
        ensures
            n == self@.len(),
    {
        self.available
    }

    /// Returns the number of bytes that can be enqueued without needing to
    /// dequeue more data.
    pub fn free(&self) -> (n: usize)
        requires
            self.wf(),
        ensures
            n == self.capacity() - self@.len(),
    {
        self.backing.len() - self.available
    }

    /// Enqueues a single byte (convenience function).
    pub fn enqueue1(&mut self, byte: u8) -> (r: Result<(), QueueFull>)
        requires
            old(self).wf(),
        ensures
            final(self).wf(),
            final(final(self).memory())@ == final(old(self).memory())@,
            match r {
                Ok(()) => {
                    &&& enqueued(old(self)@, old(self).capacity(), seq![byte]) == Some(final(self)@)
                    &&& final(self).read_offset() == old(self).read_offset()
                    &&& final(self).memory()@ == ring_write(
                        old(self).memory()@,
                        old(self).write_offset(),
                        seq![byte],
                    )
                },
                Err(QueueFull) => {
                    &&& enqueued(old(self)@, old(self).capacity(), seq![byte]) is None
                    &&& *final(self) == *old(self)
                },
            },
    {
        match self.enqueue_space(1) {
            Ok((first, second)) => {
                first[0] = byte;
                assert(first@ + second@ =~= seq![byte]);
                Ok(())
            },
            Err(e) => Err(e),
        }
    }

    /// Enqueues a block of bytes using slice copies.
    ///
    /// This is a convenience wrapper around `enqueue_space` that keeps you from
    /// having to think about discontiguous slices.
    pub fn enqueue(&mut self, data: &[u8]) -> (r: Result<(), QueueFull>)
        requires
            old(self).wf(),
        ensures
            final(self).wf(),
            final(final(self).memory())@ == final(old(self).memory())@,
            match r {
                Ok(()) => {
                    &&& enqueued(old(self)@, old(self).capacity(), data@) == Some(final(self)@)
                    &&& final(self).read_offset() == old(self).read_offset()
                    &&& final(self).memory()@ == ring_write(
                        old(self).memory()@,
                        old(self).write_offset(),
                        data@,
                    )
                },
                Err(QueueFull) => {
                    &&& enqueued(old(self)@, old(self).capacity(), data@) is None
                    &&& *final(self) == *old(self)
                },
            },
    {
        match self.enqueue_space(data.len()) {
            Ok((first, second)) => {
                let (d1, d2) = data.split_at(first.len());
                first.copy_from_slice(d1);
                second.copy_from_slice(d2);
                assert(first@ + second@ =~= data@);
                Ok(())
            },
            Err(e) => Err(e),
        }
    }

    /// Enqueue a new block of `n` bytes but _do not write it yet._
    ///
    /// If space is available, returns two mutable slice references, whose
    /// lengths will _sum_ to `n`; the second one may be empty. You are expected
    /// to initialize the contents of these slices. If you fail to do that, the
    /// queue will contain `n` bytes of some arbitrary data (likely earlier
    /// messages).
    ///
    /// Once `enqueue_space` has returned, the queue head pointer has been
    /// bumped to contain `n` more bytes; there is no way to "undo" this.
    pub fn enqueue_space(&mut self, n: usize) -> (r: Result<(&mut [u8], &mut [u8]), QueueFull>)
        requires
            old(self).wf(),
        ensures
            final(final(self).memory())@ == final(old(self).memory())@,
            match r {
                Ok((first, second)) => {
                    &&& n <= old(self).capacity() - old(self)@.len()
                    &&& first@.len() == leading_part(
                        n as int,
                        old(self).write_offset(),
                        old(self).capacity() as int,
                    )
                    &&& second@.len() == n - first@.len()
                    &&& first@ + second@ == ring_read(
                        old(self).memory()@,
                        old(self).write_offset(),
                        n as nat,
                    )
                    // A slice keeps its length, whatever is written to it.
                    &&& final(first)@.len() == first@.len() && final(second)@.len() == second@.len()
                        ==> {
                        let block = final(first)@ + final(second)@;
                        &&& final(self).wf()
                        &&& enqueued(old(self)@, old(self).capacity(), block) == Some(final(self)@)
                        &&& final(self).read_offset() == old(self).read_offset()
                        &&& final(self).memory()@ == ring_write(
                            old(self).memory()@,
                            old(self).write_offset(),
                            block,
                        )
                    }
                },
                Err(QueueFull) => {
                    &&& n > old(self).capacity() - old(self)@.len()
                    &&& *final(self) == *old(self)
                },
            },
    {
        if n > self.free() {
            return Err(QueueFull);
        }
        let backlen: usize = self.backing.len();
        let room: usize = backlen - self.head;
        let from: usize = self.head;

        self.head = if n < room { self.head + n } else { n - room };
        self.available = self.available + n;

        proof {
            let mem = self.backing@;
            assert forall|block: Seq<u8>| block.len() == n implies ring_read(
                #[trigger] ring_write(mem, from as int, block),
                self.tail as int,
                self.available as nat,
            ) == old(self)@ + block by {
                if mem.len() > 0 {
                    lemma_append(mem, self.tail as int, old(self).available as nat, block);
                }
            }
        }
        Ok(region_mut(self.backing, n, from, self.tail))
    }

    /// Dequeue one byte from the queue (convenience function).
    pub fn dequeue1(&mut self) -> (r: Result<u8, QueueNotFullEnough>)
        requires
            old(self).wf(),
        ensures
            final(self).wf(),
            final(final(self).memory())@ == final(old(self).memory())@,
            match r {
                Ok(byte) => {
                    &&& dequeued(old(self)@, 1) == Some((seq![byte], final(self)@))
                    &&& byte == old(self)@[0]
                    &&& final(self).read_offset() == wrap(
                        old(self).read_offset() + 1,
                        old(self).capacity() as int,
                    )
                    &&& final(self).memory()@ == old(self).memory()@
                },
                Err(QueueNotFullEnough) => {
                    &&& dequeued(old(self)@, 1) is None
                    &&& *final(self) == *old(self)
                },
            },
    {
        match self.dequeue_space(1) {
            Ok((first, second)) => {
                assert(first@ + second@ =~= seq![first@[0]]);
                Ok(first[0])
            },
            Err(e) => Err(e),
        }
    }

    /// Dequeue `dest.len()` bytes and copy them into `dest` using slice copies.
    ///
    /// This is a convenience wrapper around `dequeue_space` that keeps you from
    /// having to think about discontiguous slices.
    pub fn dequeue_into(&mut self, dest: &mut [u8]) -> (r: Result<(), QueueNotFullEnough>)
        requires
            old(self).wf(),
        ensures
            final(self).wf(),
            final(final(self).memory())@ == final(old(self).memory())@,
            match r {
                Ok(()) => {
                    &&& dequeued(old(self)@, old(dest)@.len()) == Some((final(dest)@, final(self)@))
                    &&& final(self).read_offset() == wrap(
                        old(self).read_offset() + old(dest)@.len(),
                        old(self).capacity() as int,
                    )
                    &&& final(self).memory()@ == old(self).memory()@
                },
                Err(QueueNotFullEnough) => {
                    &&& dequeued(old(self)@, old(dest)@.len()) is None
                    &&& *final(self) == *old(self)
                    &&& final(dest)@ == old(dest)@
                },
            },
    {
        match self.dequeue_space(dest.len()) {
            Ok((first, second)) => {
                let (d1, d2) = dest.split_at_mut(first.len());
                d1.copy_from_slice(first);
                d2.copy_from_slice(second);
                Ok(())
            },
            Err(e) => Err(e),
        }
    }

    /// Takes `n` bytes from the queue and returns a reference to them.
    ///
    /// Specifically, if `n` bytes are available, `dequeue_space` will return a
    /// _pair_ of slice references, whose lengths sum to `n`. The second slice
    /// may be empty. Copy or interpret the data referenced by the slices and
    /// then drop them -- you must drop them before doing anything else to the
    /// queue.
    pub fn dequeue_space(&mut self, n: usize) -> (r: Result<
        (&mut [u8], &mut [u8]),
        QueueNotFullEnough,
    >)
        requires
            old(self).wf(),
        ensures
            final(final(self).memory())@ == final(old(self).memory())@,
            match r {
                Ok((first, second)) => {
                    &&& n <= old(self)@.len()
                    &&& first@.len() == leading_part(
                        n as int,
                        old(self).read_offset(),
                        old(self).capacity() as int,
                    )
                    &&& second@.len() == n - first@.len()
                    &&& first@ + second@ == old(self)@.take(n as int)
                    // A slice keeps its length, whatever is written to it.
                    &&& final(first)@.len() == first@.len() && final(second)@.len() == second@.len()
                        ==> {
                        &&& final(self).wf()
                        &&& dequeued(old(self)@, n as nat) == Some(
                            (first@ + second@, final(self)@),
                        )
                        &&& final(self).read_offset() == wrap(
                            old(self).read_offset() + n,
                            old(self).capacity() as int,
                        )
                        &&& final(self).memory()@ == ring_write(
                            old(self).memory()@,
                            old(self).read_offset(),
                            final(first)@ + final(second)@,
                        )
                    }
                },
                Err(QueueNotFullEnough) => {
                    &&& n > old(self)@.len()
                    &&& *final(self) == *old(self)
                },
            },
    {
        if n > self.available() {
            return Err(QueueNotFullEnough);
        }
        let backlen: usize = self.backing.len();
        let room: usize = backlen - self.tail;
        let from: usize = self.tail;

        self.tail = if n < room { self.tail + n } else { n - room };
        self.available = self.available - n;

        proof {
            let mem = self.backing@;
            assert forall|block: Seq<u8>| block.len() == n implies ring_read(
                #[trigger] ring_write(mem, from as int, block),
                self.tail as int,
                self.available as nat,
            ) == old(self)@.skip(n as int) by {
                if mem.len() > 0 {
                    lemma_remove(mem, from as int, old(self).available as nat, block);
                }
            }
        }
        Ok(region_mut(self.backing, n, from, self.head))
    }
}

/// Writing `block` right behind the `n` bytes at `at` appends it to them.
proof fn lemma_append(mem: Seq<u8>, at: int, n: nat, block: Seq<u8>)
    requires
        0 <= at < mem.len(),
        n + block.len() <= mem.len(),
    ensures
        ring_read(
            ring_write(mem, wrap(at + n, mem.len() as int), block),
            at,
            n + block.len(),
        ) == ring_read(mem, at, n) + block,
{
    let end = wrap(at + n, mem.len() as int);
    let after = ring_write(mem, end, block);
    law_read_splits(after, at, n, block.len());
    law_write_keeps_preceding(mem, at, n, block);
    law_read_after_write(mem, end, block);
}

/// Overwriting the first of the `n` bytes at `at` leaves the others as they were.
proof fn lemma_remove(mem: Seq<u8>, at: int, n: nat, block: Seq<u8>)
    requires
        0 <= at < mem.len(),
        block.len() <= n <= mem.len(),
    ensures
        ring_read(
            ring_write(mem, at, block),
            wrap(at + block.len(), mem.len() as int),
            (n - block.len()) as nat,
        ) == ring_read(mem, at, n).skip(block.len() as int),
{
}

/// Implementation factor of enqueue/dequeue.
///
/// Given `backing` memory, find a possibly discontiguous section of `n` bytes
/// starting at `from` and _not crossing_ `to`. There must be `n` bytes between
/// `from` and `to` (modulo `backing.len()`).
fn region_mut(backing: &mut [u8], n: usize, from: usize, to: usize) -> (r: (&mut [u8], &mut [u8]))
    requires
        from <= old(backing)@.len(),
        from < to ==> to <= old(backing)@.len() && n <= to - from,
        from >= to ==> n <= old(backing)@.len() - from + to,
    ensures
        r.0@.len() == leading_part(n as int, from as int, old(backing)@.len() as int),
        r.1@.len() == n - r.0@.len(),
        r.0@ + r.1@ == ring_read(old(backing)@, from as int, n as nat),
        final(r.0)@.len() == r.0@.len() && final(r.1)@.len() == r.1@.len() ==> final(backing)@
            == ring_write(old(backing)@, from as int, final(r.0)@ + final(r.1)@),
{
    if from < to {
        // Our entire region can be contiguous.
        let (before, first_plus) = backing.split_at_mut(from);
        let (first, _after) = first_plus.split_at_mut(n);
        let (second, _rest) = before.split_at_mut(0);
        (first, second)
    } else {
        // We may need two contiguous regions.
        // Compute the size of contiguous region available starting at
        // 'from'.
        let room: usize = backing.len() - from;
        let first_len: usize = if n < room { n } else { room };
        let second_len: usize = n - first_len;

        // Split the backing reference.
        let (second_plus, first_plus) = backing.split_at_mut(from);
        // Truncate both regions as necessary.
        let (first, _after) = first_plus.split_at_mut(first_len);
        let (second, _between) = second_plus.split_at_mut(second_len);
        (first, second)
    }
}

/// A request to a queue.
pub enum QueueOp {
    /// Enqueue these bytes.
    Enqueue(Seq<u8>),
    /// Dequeue this many bytes.
    Dequeue(nat),
}

/// What has become of a queue under a series of requests.
pub struct QueueHistory {
    /// The bytes that the queue holds.
    pub contents: Seq<u8>,
    /// The bytes of all requests to enqueue that were granted, in order.
    pub accepted: Seq<u8>,
    /// The bytes that all requests to dequeue returned, in order.
    pub delivered: Seq<u8>,
}

/// The history of a queue of `capacity` bytes that holds `start` at first and then
/// gets the requests `ops`. A request that fails changes nothing.
pub open spec fn history(start: Seq<u8>, capacity: nat, ops: Seq<QueueOp>) -> QueueHistory
    decreases ops.len(),
{
    if ops.len() == 0 {
        QueueHistory { contents: start, accepted: Seq::empty(), delivered: Seq::empty() }
    } else {
        let h = history(start, capacity, ops.drop_last());
        match ops.last() {
            QueueOp::Enqueue(data) => match enqueued(h.contents, capacity, data) {
                Some(contents) => QueueHistory { contents, accepted: h.accepted + data, ..h },
                None => h,
            },
            QueueOp::Dequeue(n) => match dequeued(h.contents, n) {
                Some((out, contents)) => QueueHistory {
                    contents,
                    delivered: h.delivered + out,
                    ..h
                },
                None => h,
            },
        }
    }
}

/// First in, first out: under any series of requests, of any sizes, the bytes
/// delivered so far followed by those still in the queue are the bytes that it
/// held at first followed by those accepted so far. And it never holds more than
/// its capacity.
pub proof fn law_fifo(start: Seq<u8>, capacity: nat, ops: Seq<QueueOp>)
    requires
        start.len() <= capacity,
    ensures
        ({
            let h = history(start, capacity, ops);
            &&& h.delivered + h.contents == start + h.accepted
            &&& h.contents.len() <= capacity
        }),
    decreases ops.len(),
{
    if ops.len() > 0 {
        law_fifo(start, capacity, ops.drop_last());
        let h = history(start, capacity, ops.drop_last());
        match ops.last() {
            QueueOp::Enqueue(data) => {
                assert(h.delivered + (h.contents + data) =~= (h.delivered + h.contents) + data);
                assert(start + (h.accepted + data) =~= (start + h.accepted) + data);
            },
            QueueOp::Dequeue(n) => {
                if n <= h.contents.len() {
                    let out = h.contents.take(n as int);
                    let rest = h.contents.skip(n as int);
                    assert((h.delivered + out) + rest =~= h.delivered + h.contents);
                }
            },
        }
    }
}

/// The sizes of the chunks do not matter: to enqueue `a` and then `b` is to enqueue
/// both at once.
pub proof fn law_enqueue_in_chunks(contents: Seq<u8>, capacity: nat, a: Seq<u8>, b: Seq<u8>)
    ensures
        enqueued(contents, capacity, a + b) == match enqueued(contents, capacity, a) {
            Some(between) => enqueued(between, capacity, b),
            None => None,
        },
{
    assert(contents + (a + b) =~= (contents + a) + b);
}

/// The sizes of the chunks do not matter: to dequeue `n` and then `m` bytes is to
/// dequeue `n + m` bytes.
pub proof fn law_dequeue_in_chunks(contents: Seq<u8>, n: nat, m: nat)
    ensures
        dequeued(contents, n + m) == match dequeued(contents, n) {
            Some((first, between)) => match dequeued(between, m) {
                Some((second, rest)) => Some((first + second, rest)),
                None => None,
            },
            None => None,
        },
{
    if n + m <= contents.len() {
        let between = contents.skip(n as int);
        assert(contents.take(n as int) + between.take(m as int) =~= contents.take((n + m) as int));
        assert(between.skip(m as int) =~= contents.skip((n + m) as int));
    }
}

/// The free bytes are those that can be enqueued without dequeueing any, and the
/// available ones those that can be dequeued without enqueueing any.
pub proof fn law_free_and_available(q: CircQ, data: Seq<u8>, n: nat)
    requires
        q.wf(),
    ensures
        enqueued(q@, q.capacity(), data) is Some <==> data.len() <= q.capacity() - q@.len(),
        dequeued(q@, n) is Some <==> n <= q@.len(),
{
}

/// Zero bytes can be enqueued at any time, even when the queue is full or has no
/// memory at all, and that changes nothing.
pub proof fn law_enqueue_nothing(contents: Seq<u8>, capacity: nat)
    requires
        contents.len() <= capacity,
    ensures
        enqueued(contents, capacity, Seq::empty()) == Some(contents),
{
    assert(contents + Seq::<u8>::empty() =~= contents);
}

/// Zero bytes can be dequeued at any time, even when the queue is empty, and that
/// changes nothing.
pub proof fn law_dequeue_nothing(contents: Seq<u8>)
    ensures
        dequeued(contents, 0) == Some((Seq::<u8>::empty(), contents)),
{
    assert(contents.take(0) =~= Seq::empty());
    assert(contents.skip(0) =~= contents);
}

/// A queue's contents never exceed its capacity, and lie in its memory from the
/// read offset onwards, going round at the end.
pub proof fn law_contents_in_memory(q: CircQ)
    requires
        q.wf(),
    ensures
        q@.len() <= q.capacity(),
        q@ == ring_read(q.memory()@, q.read_offset(), q@.len()),
        q.capacity() > 0 ==> 0 <= q.read_offset() < q.capacity(),
        q.capacity() > 0 ==> 0 <= q.write_offset() < q.capacity(),
        q.write_offset() == q.read_offset() + q@.len() || q.write_offset() == q.read_offset()
            + q@.len() - q.capacity(),
{
}

/// Once a queue is no longer used, the memory that it was created with is back with
/// its owner, just as the queue left it.
pub proof fn law_memory_returned(q: CircQ)
    requires
        has_resolved(q),
    ensures
        final(q.memory())@ == q.memory()@,
{
}

/// What is enqueued goes behind what is there, and stays there unchanged.
pub proof fn law_enqueue_appends(contents: Seq<u8>, capacity: nat, data: Seq<u8>, i: int)
    requires
        contents.len() + data.len() <= capacity,
    ensures
        enqueued(contents, capacity, data) matches Some(after) && {
            &&& after.len() == contents.len() + data.len()
            &&& 0 <= i < contents.len() ==> after[i] == contents[i]
            &&& 0 <= i < data.len() ==> after[contents.len() + i] == data[i]
        },
{
}

/// A request for `n` bytes takes the `n` oldest ones, in order, and leaves the others
/// as they were.
pub proof fn law_dequeue_takes_oldest(contents: Seq<u8>, n: nat)
    requires
        n <= contents.len(),
    ensures
        dequeued(contents, n) matches Some((out, rest)) && out.len() == n && out + rest
            == contents,
{
    assert(contents.take(n as int) + contents.skip(n as int) =~= contents);
}

/// Of a block that may go round the end of the memory, the first part is as long as it
/// can be: it ends with the block or with the memory, whichever comes first.
pub proof fn law_leading_part_is_longest(n: int, at: int, len: int)
    requires
        0 <= n <= len,
        0 <= at <= len,
    ensures
        0 <= leading_part(n, at, len) <= n,
        at + leading_part(n, at, len) <= len,
        leading_part(n, at, len) == n || at + leading_part(n, at, len) == len,
{
}

} // verus!
