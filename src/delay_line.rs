//! A fixed-capacity circular buffer of past samples.
use vstd::prelude::*;

verus! {

/// Seconds of audio that a delay line holds.
pub const DELAY_LINE_SECONDS: usize = 10;

/// The number of slots of a delay line for a sample rate: ten seconds of audio,
/// and at least one slot.
pub open spec fn capacity_for(sample_rate: usize) -> nat {
    if sample_rate == 0 {
        1
    } else {
        (sample_rate * DELAY_LINE_SECONDS) as nat
    }
}

/// An offset brought into the readable range `1..=capacity`.
pub open spec fn clamp_offset(offset: nat, capacity: nat) -> nat {
    if offset < 1 {
        1
    } else if offset > capacity {
        capacity
    } else {
        offset
    }
}

/// The buffer slot that holds the `j`-th oldest sample.
pub open spec fn slot(write_pointer: nat, capacity: nat, j: nat) -> nat {
    if write_pointer + j < capacity {
        write_pointer + j
    } else {
        (write_pointer + j - capacity) as nat
    }
}

/// A ring buffer that one writer fills one sample at a time. Its view is the
/// content ordered from the oldest sample to the most recent one.
pub struct DelayLine<T> {
    buffer: Vec<T>,
    write_pointer: usize,
}

impl<T> View for DelayLine<T> {
    type V = Seq<T>;

    closed spec fn view(&self) -> Seq<T> {
        Seq::new(
            self.buffer@.len(),
            |j: int| self.buffer@[slot(self.write_pointer as nat, self.buffer@.len(), j as nat) as int],
        )
    }
}

impl<T: Copy> DelayLine<T> {
    pub closed spec fn wf(&self) -> bool {
        self.buffer@.len() > 0 && self.write_pointer < self.buffer@.len()
    }

    /// A delay line holding ten seconds at `sample_rate`, every slot set to `silence`.
    pub fn new(sample_rate: usize, silence: T) -> (r: DelayLine<T>)
        requires
            sample_rate <= usize::MAX / DELAY_LINE_SECONDS,
        ensures
            r.wf(),
            r@ == Seq::new(capacity_for(sample_rate), |_j: int| silence),
    {
        let capacity: usize = if sample_rate == 0 {
            1
        } else {
            sample_rate * DELAY_LINE_SECONDS
        };
        let mut buffer: Vec<T> = Vec::with_capacity(capacity);
        let mut i: usize = 0;
        while i < capacity
            invariant
                i <= capacity,
                buffer@ == Seq::new(i as nat, |_j: int| silence),
            decreases capacity - i,
        {
            buffer.push(silence);
            i = i + 1;
            assert(buffer@ =~= Seq::new(i as nat, |_j: int| silence));
        }
        let r = DelayLine { buffer, write_pointer: 0 };
        assert(r@ =~= Seq::new(capacity_for(sample_rate), |_j: int| silence));
        r
    }

    pub fn capacity(&self) -> (r: usize)
        ensures
            r == self@.len(),
    {
        self.buffer.len()
    }

    /// Stores `sample` as the most recent one, dropping the oldest.
    pub fn write(&mut self, sample: T)
        requires
            old(self).wf(),
        ensures
            final(self).wf(),
            final(self)@ == old(self)@.drop_first().push(sample),
    {
        let ghost before = self@;
        let capacity = self.buffer.len();
        let wp = self.write_pointer;
        self.buffer.set(wp, sample);
        self.write_pointer = if wp + 1 == capacity {
            0
        } else {
            wp + 1
        };
        assert(self@ =~= before.drop_first().push(sample));
    }

    /// The sample written `offset` writes ago: an offset of one gives the most
    /// recent sample. Offsets below one read the most recent sample, offsets
    /// above the capacity read the oldest one.
    pub fn read(&self, offset: usize) -> (r: T)
        requires
            self.wf(),
        ensures
            r == self@[self@.len() - clamp_offset(offset as nat, self@.len() as nat)],
    {
        let capacity = self.buffer.len();
        let back: usize = if offset < 1 {
            1
        } else if offset > capacity {
            capacity
        } else {
            offset
        };
        let index: usize = if self.write_pointer >= back {
            self.write_pointer - back
        } else {
            capacity - (back - self.write_pointer)
        };
        self.buffer[index]
    }
}

} // verus!
