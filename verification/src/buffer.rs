//! The window of recent samples that the display reads.
//!
//! The producer writes one sample at a time into a ring of fixed size; once the
//! ring is full each write replaces the oldest sample. A write takes constant
//! time and never fails, so the producer is never held up.

use vstd::arithmetic::div_mod::lemma_fundamental_div_mod_converse;
use vstd::prelude::*;
use vstd::slice::slice_subrange;
use crate::resample::{resample_into, tap_at, Tap};

verus! {

/// Largest window a buffer can hold.
pub const MAX_BUF_SIZE: usize = 2048;

/// A ring of sample bit patterns with a write cursor.
#[derive(Debug)]
pub struct WriteBuffer {
    pointer: usize,
    buf_size: usize,
    buffer: [u32; MAX_BUF_SIZE],
}

/// The slots of a ring read from the cursor on and then from the start up to
/// the cursor: oldest sample first, where the silence that a new ring holds
/// counts as its oldest samples.
pub open spec fn unrolled(slots: Seq<u32>, cursor: int) -> Seq<u32> {
    slots.subrange(cursor, slots.len() as int) + slots.subrange(0, cursor)
}

/// Replacing the slot at the cursor and moving the cursor on drops the first
/// sample of the unrolled ring and appends the new one.
pub proof fn lemma_unrolled_write(slots: Seq<u32>, cursor: int, value: u32)
    requires
        0 <= cursor < slots.len(),
    ensures
        unrolled(slots.update(cursor, value), (cursor + 1) % (slots.len() as int)) == unrolled(
            slots,
            cursor,
        ).drop_first().push(value),
{
    let n = slots.len() as int;
    let next = (cursor + 1) % n;
    let after = unrolled(slots.update(cursor, value), next);
    let expected = unrolled(slots, cursor).drop_first().push(value);
    if cursor + 1 == n {
        assert(n % n == 0) by (nonlinear_arith)
            requires
                n > 0,
        ;
    } else {
        assert((cursor + 1) % n == cursor + 1) by (nonlinear_arith)
            requires
                0 <= cursor + 1 < n,
        ;
    }
    assert(after =~= expected);
}

/// The ring after `values` have been written one after another: its slots and
/// its cursor. Each write fills the slot at the cursor and moves the cursor on,
/// back to the start after the last slot.
pub open spec fn after_writes(slots: Seq<u32>, cursor: int, values: Seq<u32>) -> (Seq<u32>, int)
    decreases values.len(),
{
    if values.len() == 0 {
        (slots, cursor)
    } else {
        let before = after_writes(slots, cursor, values.drop_last());
        (before.0.update(before.1, values.last()), (before.1 + 1) % (slots.len() as int))
    }
}

/// A ring keeps the latest samples, in the order they came: after any run of
/// writes the ring has its size, the cursor has moved on by the number of
/// writes, and the unrolled ring is the tail, as long as the ring, of what it
/// held before followed by what was written. Older samples are the ones that go.
pub proof fn lemma_ring_keeps_latest(slots: Seq<u32>, cursor: int, values: Seq<u32>)
    requires
        0 <= cursor < slots.len(),
    ensures
        after_writes(slots, cursor, values).0.len() == slots.len(),
        0 <= after_writes(slots, cursor, values).1 < slots.len(),
        after_writes(slots, cursor, values).1 == (cursor + values.len()) % (slots.len() as int),
        unrolled(after_writes(slots, cursor, values).0, after_writes(slots, cursor, values).1) == (
        unrolled(slots, cursor) + values).subrange(
            values.len() as int,
            (values.len() + slots.len()) as int,
        ),
    decreases values.len(),
{
    let n = slots.len() as int;
    let k = values.len() as int;
    let held = unrolled(slots, cursor);
    if values.len() == 0 {
        assert((held + values).subrange(0, n) =~= held);
        assert(cursor % n == cursor) by (nonlinear_arith)
            requires
                0 <= cursor < n,
        ;
    } else {
        let earlier = values.drop_last();
        lemma_ring_keeps_latest(slots, cursor, earlier);
        let before = after_writes(slots, cursor, earlier);
        lemma_unrolled_write(before.0, before.1, values.last());
        let after = after_writes(slots, cursor, values);
        assert(after.1 == (cursor + k) % n) by (nonlinear_arith)
            requires
                n > 0,
                before.1 == (cursor + k - 1) % n,
                after.1 == (before.1 + 1) % n,
        ;
        assert(0 <= after.1 < n) by (nonlinear_arith)
            requires
                n > 0,
                after.1 == (cursor + k) % n,
        ;
        assert(unrolled(before.0, before.1).drop_first().push(values.last()) =~= (held
            + values).subrange(k, k + n));
    }
}

/// Where the latest samples stand: after a run of writes, each of the last
/// values written, as many as the ring holds, stands in the slot that its own
/// write filled, the cursor's slot counted on by the number of writes before it.
/// Every earlier value has been overwritten.
pub proof fn lemma_slot_after_writes(slots: Seq<u32>, cursor: int, values: Seq<u32>, i: int)
    requires
        0 <= cursor < slots.len(),
        0 <= i < values.len(),
        values.len() - slots.len() <= i,
    ensures
        after_writes(slots, cursor, values).0[(cursor + i) % (slots.len() as int)] == values[i],
{
    let n = slots.len() as int;
    let k = values.len() as int;
    let after = after_writes(slots, cursor, values);
    lemma_ring_keeps_latest(slots, cursor, values);
    let c = after.1;
    let m = i - k + n;
    let latest = unrolled(after.0, c);
    assert(latest[m] == (unrolled(slots, cursor) + values)[k + m]);
    assert(latest[m] == values[i]);
    let q = (cursor + k) / n;
    assert(cursor + k == q * n + c) by (nonlinear_arith)
        requires
            n > 0,
            q == (cursor + k) / n,
            c == (cursor + k) % n,
    ;
    if c + m < n {
        assert(latest[m] == after.0[c + m]);
        assert(cursor + i == (q - 1) * n + (c + m)) by (nonlinear_arith)
            requires
                cursor + k == q * n + c,
                m == i - k + n,
        ;
        lemma_fundamental_div_mod_converse(cursor + i, n, q - 1, c + m);
    } else {
        assert(latest[m] == after.0[c + m - n]);
        assert(cursor + i == q * n + (c + m - n)) by (nonlinear_arith)
            requires
                cursor + k == q * n + c,
                m == i - k + n,
        ;
        lemma_fundamental_div_mod_converse(cursor + i, n, q, c + m - n);
    }
}

impl View for WriteBuffer {
    type V = Seq<u32>;

    /// The window in storage order.
    closed spec fn view(&self) -> Seq<u32> {
        self.buffer@.subrange(0, self.buf_size as int)
    }
}

impl WriteBuffer {
    /// The window is not empty and fits the storage, and the cursor lies in it.
    #[verifier::type_invariant]
    pub closed spec fn well_formed(self) -> bool {
        0 < self.buf_size <= MAX_BUF_SIZE && self.pointer < self.buf_size
    }

    /// Index of the slot that the next write fills.
    pub closed spec fn cursor(self) -> int {
        self.pointer as int
    }

    /// The window read from the cursor round: oldest sample first.
    pub open spec fn in_time_order(self) -> Seq<u32> {
        unrolled(self@, self.cursor())
    }

    /// A window of `buf_size` samples, all `+0.0`, with the cursor at its
    /// start; nothing where the size is zero or more than the storage holds.
    pub fn try_from_size(buf_size: usize) -> (ring: Option<Self>)
        ensures
            ring is Some <==> 0 < buf_size <= MAX_BUF_SIZE,
            ring is Some ==> ring->Some_0@ == Seq::new(buf_size as nat, |i: int| 0u32)
                && ring->Some_0.cursor() == 0,
    {
        if 0 < buf_size && buf_size <= MAX_BUF_SIZE {
            Some(WriteBuffer::from_size(buf_size))
        } else {
            None
        }
    }

    /// A window of `buf_size` samples, all `+0.0`, with the cursor at its start.
    pub fn from_size(buf_size: usize) -> (ring: Self)
        requires
            0 < buf_size <= MAX_BUF_SIZE,
        ensures
            ring@ == Seq::new(buf_size as nat, |i: int| 0u32),
            ring.cursor() == 0,
    {
        let ring = WriteBuffer { pointer: 0, buf_size, buffer: [0u32; MAX_BUF_SIZE] };
        assert(ring@ =~= Seq::new(buf_size as nat, |i: int| 0u32));
        ring
    }

    /// Number of samples in the window.
    pub fn len(&self) -> (n: usize)
        ensures
            n == self@.len(),
            0 < n <= MAX_BUF_SIZE,
            0 <= self.cursor() < n,
    {
        proof {
            use_type_invariant(self);
        }
        self.buf_size
    }

    /// The window in storage order.
    pub fn as_slice(&self) -> (samples: &[u32])
        ensures
            samples@ == self@,
    {
        proof {
            use_type_invariant(self);
        }
        slice_subrange(self.buffer.as_slice(), 0, self.buf_size)
    }

    /// The window in time order, oldest sample first.
    pub fn snapshot(&self) -> (samples: Vec<u32>)
        ensures
            samples@ == self.in_time_order(),
    {
        proof {
            use_type_invariant(self);
        }
        let mut samples: Vec<u32> = Vec::new();
        let mut i: usize = self.pointer;
        while i < self.buf_size
            invariant
                self.pointer <= i <= self.buf_size <= MAX_BUF_SIZE,
                samples@ == self@.subrange(self.pointer as int, i as int),
            decreases self.buf_size - i,
        {
            samples.push(self.buffer[i]);
            i = i + 1;
            assert(samples@ =~= self@.subrange(self.pointer as int, i as int));
        }
        let mut j: usize = 0;
        while j < self.pointer
            invariant
                j <= self.pointer < self.buf_size <= MAX_BUF_SIZE,
                samples@ == self@.subrange(self.pointer as int, self.buf_size as int)
                    + self@.subrange(0, j as int),
            decreases self.pointer - j,
        {
            samples.push(self.buffer[j]);
            j = j + 1;
            assert(samples@ =~= self@.subrange(self.pointer as int, self.buf_size as int)
                + self@.subrange(0, j as int));
        }
        samples
    }

    /// Resamples the window, in time order, to `N` points: the first point is
    /// the oldest sample of the window and, with two points or more, the last
    /// point is the newest.
    pub fn resample_into<const N: usize>(&self) -> (out: [Tap; N])
        ensures
            forall|i: int|
                0 <= i < N ==> #[trigger] out[i] == tap_at(self.in_time_order(), N as int, i),
    {
        let samples = self.snapshot();
        resample_into::<N>(samples.as_slice())
    }

    /// Stores a sample at the cursor and moves the cursor on, back to the start
    /// after the last slot. The window keeps its size; read in time order, it
    /// loses its oldest sample and gains `value` as its newest.
    pub fn write(&mut self, value: u32)
        ensures
            final(self)@.len() == old(self)@.len(),
            final(self)@ == old(self)@.update(old(self).cursor(), value),
            final(self).cursor() == (old(self).cursor() + 1) % (old(self)@.len() as int),
            final(self).in_time_order() == old(self).in_time_order().drop_first().push(value),
    {
        proof {
            use_type_invariant(&*self);
            lemma_unrolled_write(self@, self.cursor(), value);
        }
        self.buffer[self.pointer] = value;
        self.pointer = (self.pointer + 1) % self.buf_size;
        assert(self@ =~= old(self)@.update(old(self).cursor(), value));
    }
}

impl WriteBuffer {
    /// Writes a run of samples, first to last. The window keeps its size; it
    /// ends up as the single writes leave it, so that, read in time order, it
    /// holds the tail of what it held before followed by the run.
    pub fn write_all(&mut self, values: &[u32])
        ensures
            final(self)@.len() == old(self)@.len(),
            (final(self)@, final(self).cursor()) == after_writes(
                old(self)@,
                old(self).cursor(),
                values@,
            ),
            final(self).in_time_order() == (old(self).in_time_order() + values@).subrange(
                values@.len() as int,
                (values@.len() + old(self)@.len()) as int,
            ),
    {
        proof {
            use_type_invariant(&*self);
            lemma_ring_keeps_latest(self@, self.cursor(), values@);
        }
        let mut i: usize = 0;
        assert(values@.subrange(0, 0) =~= Seq::<u32>::empty());
        while i < values.len()
            invariant
                i <= values@.len(),
                self@.len() == old(self)@.len(),
                (self@, self.cursor()) == after_writes(
                    old(self)@,
                    old(self).cursor(),
                    values@.subrange(0, i as int),
                ),
            decreases values@.len() - i,
        {
            let ghost done = values@.subrange(0, i as int);
            let ghost next = values@.subrange(0, i + 1);
            assert(next.drop_last() =~= done);
            assert(next.last() == values@[i as int]);
            self.write(values[i]);
            i = i + 1;
        }
        assert(values@.subrange(0, i as int) =~= values@);
    }
}

impl Clone for WriteBuffer {
    /// A copy with the same window and cursor.
    fn clone(&self) -> (copy: Self)
        ensures
            copy == *self,
    {
        proof {
            use_type_invariant(self);
        }
        WriteBuffer { pointer: self.pointer, buf_size: self.buf_size, buffer: self.buffer }
    }
}

impl Default for WriteBuffer {
    /// A window of 512 samples.
    fn default() -> (ring: Self)
        ensures
            ring@ == Seq::new(512, |i: int| 0u32),
            ring.cursor() == 0,
    {
        WriteBuffer::from_size(512)
    }
}

} // verus!
