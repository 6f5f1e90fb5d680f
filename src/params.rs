//! One repeat configuration, compared as the engine compares it to detect a change.
use vstd::prelude::*;
use crate::float_bits::{float_eq, spec_float_eq};
use crate::MAX_REPEATS;

verus! {

/// A configuration: tap count, and delay time, feedback and skew held as the
/// bit patterns of their `f32` values, so that comparing two configurations
/// follows `f32` equality exactly.
#[derive(Clone, Copy, Debug)]
pub struct Params {
    pub repeats: usize,
    pub time: u32,
    pub feedback: u32,
    pub skew: u32,
}

impl Params {
    /// Field-by-field equality, each float field compared as `f32 ==` compares.
    pub open spec fn same(self, o: Params) -> bool {
        self.repeats == o.repeats && spec_float_eq(self.time, o.time) && spec_float_eq(
            self.feedback,
            o.feedback,
        ) && spec_float_eq(self.skew, o.skew)
    }

    /// The number of taps built for this configuration: `repeats`, at most `MAX_REPEATS`.
    pub open spec fn spec_tap_count(self) -> nat {
        if self.repeats <= MAX_REPEATS {
            self.repeats as nat
        } else {
            MAX_REPEATS as nat
        }
    }

    pub fn new(repeats: usize, time: u32, feedback: u32, skew: u32) -> (r: Params)
        ensures
            r == (Params { repeats, time, feedback, skew }),
    {
        Params { repeats, time, feedback, skew }
    }

    /// The configuration a fresh tap set reports before it is first initialized:
    /// four taps, 200 ms apart, no feedback, no skew.
    pub open spec fn initial_spec() -> Params {
        Params { repeats: 4, time: 0x4348_0000, feedback: 0, skew: 0 }
    }

    pub fn initial() -> (r: Params)
        ensures
            r == Params::initial_spec(),
    {
        Params { repeats: 4, time: 0x4348_0000, feedback: 0, skew: 0 }
    }

    pub fn tap_count(&self) -> (r: usize)
        ensures
            r == self.spec_tap_count(),
    {
        if self.repeats <= MAX_REPEATS {
            self.repeats
        } else {
            MAX_REPEATS
        }
    }
}

impl PartialEq for Params {
    fn eq(&self, o: &Params) -> (r: bool) {
        self.repeats == o.repeats && float_eq(self.time, o.time) && float_eq(self.feedback, o.feedback)
            && float_eq(self.skew, o.skew)
    }
}

impl vstd::std_specs::cmp::PartialEqSpecImpl for Params {
    open spec fn obeys_eq_spec() -> bool {
        true
    }

    open spec fn eq_spec(&self, o: &Params) -> bool {
        self.same(*o)
    }
}

} // verus!
