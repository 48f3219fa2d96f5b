//! Circular memory: a block of bytes whose last position is followed by its
//! first one.

use vstd::prelude::*;

verus! {

/// The position that `x` names in a circular memory of `len` bytes, for an `x`
/// that has gone round at most once.
pub open spec fn wrap(x: int, len: int) -> int {
    if x < len {
        x
    } else {
        x - len
    }
}

/// How many positions forward from `at` the position `j` lies.
pub open spec fn distance(at: int, j: int, len: int) -> int {
    if j >= at {
        j - at
    } else {
        j - at + len
    }
}

/// The `n` bytes that start at position `at` of the circular memory `mem`.
pub open spec fn ring_read(mem: Seq<u8>, at: int, n: nat) -> Seq<u8> {
    Seq::new(n, |i: int| mem[wrap(at + i, mem.len() as int)])
}

/// The circular memory `mem` after `bytes` have been written from position `at`
/// onwards.
pub open spec fn ring_write(mem: Seq<u8>, at: int, bytes: Seq<u8>) -> Seq<u8> {
    Seq::new(
        mem.len(),
        |j: int|
            {
                let d = distance(at, j, mem.len() as int);
                if d < bytes.len() {
                    bytes[d]
                } else {
                    mem[j]
                }
            },
    )
}

/// What a read gives back of a write: the bytes written, provided they fit.
pub proof fn law_read_after_write(mem: Seq<u8>, at: int, bytes: Seq<u8>)
    requires
        0 <= at < mem.len(),
        bytes.len() <= mem.len(),
    ensures
        ring_read(ring_write(mem, at, bytes), at, bytes.len()) == bytes,
{
}

/// A write leaves alone what a read takes from the `n` positions just before it,
/// provided the two together fit into the memory.
pub proof fn law_write_keeps_preceding(mem: Seq<u8>, at: int, n: nat, bytes: Seq<u8>)
    requires
        0 <= at < mem.len(),
        n + bytes.len() <= mem.len(),
    ensures
        ring_read(ring_write(mem, wrap(at + n, mem.len() as int), bytes), at, n)
            == ring_read(mem, at, n),
{
}

/// A read of `a + b` bytes is a read of `a` bytes followed by a read of `b` bytes
/// from where the first one ended.
pub proof fn law_read_splits(mem: Seq<u8>, at: int, a: nat, b: nat)
    requires
        0 <= at < mem.len(),
        a + b <= mem.len(),
    ensures
        ring_read(mem, at, a + b) == ring_read(mem, at, a) + ring_read(
            mem,
            wrap(at + a, mem.len() as int),
            b,
        ),
{
}

/// Circular memory is ordinary memory, read on from its beginning where its end is
/// reached.
pub proof fn law_read_goes_round(mem: Seq<u8>, at: int, n: nat)
    requires
        0 <= at < mem.len(),
        n <= mem.len(),
    ensures
        at + n <= mem.len() ==> ring_read(mem, at, n) == mem.subrange(at, at + n),
        at + n > mem.len() ==> ring_read(mem, at, n) == mem.subrange(at, mem.len() as int)
            + mem.subrange(0, at + n - mem.len()),
{
    if at + n <= mem.len() {
        assert(ring_read(mem, at, n) =~= mem.subrange(at, at + n));
    } else {
        assert(ring_read(mem, at, n) =~= mem.subrange(at, mem.len() as int) + mem.subrange(
            0,
            at + n - mem.len(),
        ));
    }
}

/// A write replaces as many bytes from `at` on as it has, going on at the beginning of
/// the memory where its end is reached, and no others.
pub proof fn law_write_goes_round(mem: Seq<u8>, at: int, bytes: Seq<u8>)
    requires
        0 <= at < mem.len(),
        bytes.len() <= mem.len(),
    ensures
        ({
            let len = mem.len() as int;
            let n = bytes.len() as int;
            &&& at + n <= len ==> ring_write(mem, at, bytes) == mem.subrange(0, at) + bytes
                + mem.subrange(at + n, len)
            &&& at + n > len ==> ring_write(mem, at, bytes) == bytes.subrange(len - at, n)
                + mem.subrange(at + n - len, at) + bytes.subrange(0, len - at)
        }),
{
    let len = mem.len() as int;
    let n = bytes.len() as int;
    if at + n <= len {
        assert(ring_write(mem, at, bytes) =~= mem.subrange(0, at) + bytes + mem.subrange(
            at + n,
            len,
        ));
    } else {
        assert(ring_write(mem, at, bytes) =~= bytes.subrange(len - at, n) + mem.subrange(
            at + n - len,
            at,
        ) + bytes.subrange(0, len - at));
    }
}

} // verus!
