//! Progress over a fixed window, counted in samples.
use vstd::prelude::*;

verus! {

/// The length of the crossfade window in milliseconds.
pub const FADE_MS: usize = 5;

/// The number of samples in a window of `duration_ms` at `sample_rate`: the
/// duration rounded up to whole samples, and at least one.
pub open spec fn steps_for(sample_rate: usize, duration_ms: usize) -> nat {
    let n = sample_rate * duration_ms;
    if n == 0 {
        1
    } else {
        ((n + 999) / 1000) as nat
    }
}

/// What a ramp is: how many samples of its window have passed, out of how many.
/// Its value is `position / steps`, from 0 to 1.
pub struct RampView {
    pub position: nat,
    pub steps: nat,
}

impl RampView {
    pub open spec fn wf(self) -> bool {
        1 <= self.steps && self.position <= self.steps && self.steps <= usize::MAX
    }

    pub open spec fn finished(self) -> bool {
        self.position == self.steps
    }

    /// One sample later: the position moves by one and stops at the end.
    pub open spec fn advanced(self) -> RampView {
        RampView {
            position: if self.position < self.steps {
                self.position + 1
            } else {
                self.steps
            },
            steps: self.steps,
        }
    }
}

pub struct Ramp {
    position: usize,
    steps: usize,
}

impl View for Ramp {
    type V = RampView;

    closed spec fn view(&self) -> RampView {
        RampView { position: self.position as nat, steps: self.steps as nat }
    }
}

impl Ramp {
    /// A ramp over `duration_ms` at `sample_rate`, already finished, so that the
    /// first configuration is heard without a fade.
    pub fn new(sample_rate: usize, duration_ms: usize) -> (r: Ramp)
        requires
            sample_rate * duration_ms + 999 <= usize::MAX,
        ensures
            r@.wf(),
            r@.steps == steps_for(sample_rate, duration_ms),
            r@.finished(),
    {
        let n: usize = sample_rate * duration_ms;
        let steps: usize = if n == 0 {
            1
        } else {
            (n + 999) / 1000
        };
        Ramp { position: steps, steps }
    }

    /// Starts the window over from zero.
    pub fn start(&mut self)
        requires
            old(self)@.wf(),
        ensures
            final(self)@ == (RampView { position: 0, steps: old(self)@.steps }),
            final(self)@.wf(),
    {
        self.position = 0;
    }

    /// Moves one sample forward and returns the new position.
    pub fn process(&mut self) -> (r: usize)
        requires
            old(self)@.wf(),
        ensures
            final(self)@ == old(self)@.advanced(),
            final(self)@.wf(),
            r == final(self)@.position,
    {
        if self.position < self.steps {
            self.position = self.position + 1;
        }
        self.position
    }

    pub fn is_finished(&self) -> (r: bool)
        ensures
            r == self@.finished(),
    {
        self.position == self.steps
    }

    pub fn position(&self) -> (r: usize)
        ensures
            r == self@.position,
    {
        self.position
    }

    pub fn steps(&self) -> (r: usize)
        ensures
            r == self@.steps,
    {
        self.steps
    }
}

} // verus!
