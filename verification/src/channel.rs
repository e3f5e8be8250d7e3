//! The producer's end of the path from the audio thread to the display.
//!
//! The channel is idle while no display is open and active while one is. A push
//! into an idle channel is dropped; a push into an active channel goes into the
//! ring, where it replaces the oldest sample. Neither waits for anything.

use vstd::prelude::*;
use crate::buffer::{after_writes, WriteBuffer, MAX_BUF_SIZE};
use crate::resample::{tap_at, Tap};

verus! {

/// A ring of recent samples together with the state of the display.
#[derive(Debug)]
pub struct VisualizationChannel {
    active: bool,
    ring: WriteBuffer,
}

impl Clone for VisualizationChannel {
    /// A copy in the same state with the same window.
    fn clone(&self) -> (copy: Self)
        ensures
            copy == *self,
    {
        VisualizationChannel { active: self.active, ring: self.ring.clone() }
    }
}

impl VisualizationChannel {
    /// Whether a display is open.
    pub closed spec fn is_active(self) -> bool {
        self.active
    }

    /// The ring that the display reads.
    pub closed spec fn window(self) -> WriteBuffer {
        self.ring
    }

    /// An idle channel with a window of `size` samples, all `+0.0`; nothing
    /// where the size is zero or more than a window can hold.
    pub fn try_new(size: usize) -> (channel: Option<Self>)
        ensures
            channel is Some <==> 0 < size <= MAX_BUF_SIZE,
            channel is Some ==> !channel->Some_0.is_active() && channel->Some_0.window()@
                == Seq::new(size as nat, |i: int| 0u32) && channel->Some_0.window().cursor() == 0,
    {
        match WriteBuffer::try_from_size(size) {
            Some(ring) => Some(VisualizationChannel { active: false, ring }),
            None => None,
        }
    }

    /// An idle channel with a window of `size` samples, all `+0.0`.
    pub fn new(size: usize) -> (channel: Self)
        requires
            0 < size <= MAX_BUF_SIZE,
        ensures
            !channel.is_active(),
            channel.window()@ == Seq::new(size as nat, |i: int| 0u32),
            channel.window().cursor() == 0,
    {
        VisualizationChannel { active: false, ring: WriteBuffer::from_size(size) }
    }

    /// Whether a display is open.
    pub fn active(&self) -> (active: bool)
        ensures
            active == self.is_active(),
    {
        self.active
    }

    /// The ring that the display reads.
    pub fn ring(&self) -> (ring: &WriteBuffer)
        ensures
            *ring == self.window(),
    {
        &self.ring
    }

    /// A display has opened: the channel becomes active. The window stays as it is.
    pub fn open(&mut self)
        ensures
            final(self).is_active(),
            final(self).window() == old(self).window(),
    {
        self.active = true;
    }

    /// The display has closed: the channel becomes idle. The window stays as it
    /// is, so whoever still holds a view of it sees what was last written.
    pub fn close(&mut self)
        ensures
            !final(self).is_active(),
            final(self).window() == old(self).window(),
    {
        self.active = false;
    }

    /// Hands a sample to the display. An idle channel drops it and stays as it
    /// was; an active one writes it into the ring.
    pub fn push(&mut self, value: u32)
        ensures
            final(self).is_active() == old(self).is_active(),
            final(self).window()@.len() == old(self).window()@.len(),
            !old(self).is_active() ==> final(self).window() == old(self).window(),
            old(self).is_active() ==> final(self).window()@ == old(self).window()@.update(
                old(self).window().cursor(),
                value,
            ),
            old(self).is_active() ==> final(self).window().cursor() == (old(self).window().cursor()
                + 1) % (old(self).window()@.len() as int),
            old(self).is_active() ==> final(self).window().in_time_order() == old(
                self,
            ).window().in_time_order().drop_first().push(value),
    {
        if self.active {
            self.ring.write(value);
        }
    }

    /// Hands a run of samples to the display, first to last. An idle channel
    /// drops them all and stays as it was; an active one ends up as the single
    /// pushes leave it, so that its window, read in time order, holds the tail
    /// of what it held before followed by the run.
    pub fn push_all(&mut self, values: &[u32])
        ensures
            final(self).is_active() == old(self).is_active(),
            final(self).window()@.len() == old(self).window()@.len(),
            !old(self).is_active() ==> final(self).window() == old(self).window(),
            old(self).is_active() ==> (final(self).window()@, final(self).window().cursor())
                == after_writes(old(self).window()@, old(self).window().cursor(), values@),
            old(self).is_active() ==> final(self).window().in_time_order() == (old(
                self,
            ).window().in_time_order() + values@).subrange(
                values@.len() as int,
                (values@.len() + old(self).window()@.len()) as int,
            ),
    {
        if self.active {
            self.ring.write_all(values);
        }
    }

    /// The window in time order, oldest sample first.
    pub fn snapshot(&self) -> (samples: Vec<u32>)
        ensures
            samples@ == self.window().in_time_order(),
    {
        self.ring.snapshot()
    }

    /// Resamples the window, in time order, to `N` points.
    pub fn resample_into<const N: usize>(&self) -> (out: [Tap; N])
        ensures
            forall|i: int|
                0 <= i < N ==> #[trigger] out[i] == tap_at(
                    self.window().in_time_order(),
                    N as int,
                    i,
                ),
    {
        self.ring.resample_into::<N>()
    }
}

} // verus!
