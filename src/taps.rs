//! The layout of a tap set: which gain exponent each tap takes, how the taps are
//! spaced, and where each tap reads its sample.
use vstd::prelude::*;
use crate::delay_line::{DelayLine, clamp_offset};
use crate::float_bits::{
    abs_is_one, is_non_negative, is_negative, is_zero, spec_abs_is_one, spec_is_zero,
    spec_negative, spec_non_negative,
};
use crate::params::Params;

verus! {

/// How the delay times of the taps after the first are spaced.
#[derive(Clone, Copy, PartialEq, Eq, Structural, Debug)]
pub enum Spacing {
    /// Zero skew: every tap one delay time after the previous one.
    Even,
    /// Negative skew: each gap shorter than the one before.
    Compressing,
    /// Positive skew: each gap longer than the one before.
    Expanding,
}

/// The gain of one tap: one, or the magnitude of the feedback raised to `exponent`.
#[derive(Clone, Copy, PartialEq, Eq, Structural, Debug)]
pub struct TapPlan {
    pub index: usize,
    pub exponent: usize,
    pub unity: bool,
}

pub open spec fn spec_spacing(skew: u32) -> Spacing {
    if spec_is_zero(skew) {
        Spacing::Even
    } else if spec_negative(skew) {
        Spacing::Compressing
    } else {
        Spacing::Expanding
    }
}

/// The exponent of tap `index` out of `count`: the index itself for a feedback at
/// or above zero, the index counted from the other end for a negative one, so that
/// negative feedback mirrors the gain curve.
pub open spec fn spec_gain_exponent(index: nat, count: nat, feedback: u32) -> nat {
    if spec_non_negative(feedback) {
        index
    } else {
        (count - 1 - index) as nat
    }
}

pub open spec fn spec_plan_entry(p: Params, index: nat) -> TapPlan {
    TapPlan {
        index: index as usize,
        exponent: spec_gain_exponent(index, p.spec_tap_count(), p.feedback) as usize,
        unity: spec_abs_is_one(p.feedback),
    }
}

pub fn spacing(skew: u32) -> (r: Spacing)
    ensures
        r == spec_spacing(skew),
{
    if is_zero(skew) {
        Spacing::Even
    } else if is_negative(skew) {
        Spacing::Compressing
    } else {
        Spacing::Expanding
    }
}

pub fn gain_exponent(index: usize, count: usize, feedback: u32) -> (r: usize)
    requires
        index < count,
    ensures
        r == spec_gain_exponent(index as nat, count as nat, feedback),
{
    if is_non_negative(feedback) {
        index
    } else {
        count - 1 - index
    }
}

/// The gain layout of every tap of `p`, tap 0 first.
pub fn plan(p: &Params) -> (r: Vec<TapPlan>)
    ensures
        r@.len() == p.spec_tap_count(),
        forall|i: int| 0 <= i < r@.len() ==> #[trigger] r@[i] == spec_plan_entry(*p, i as nat),
{
    let count = p.tap_count();
    let unity = abs_is_one(p.feedback);
    let mut taps: Vec<TapPlan> = Vec::with_capacity(count);
    let mut i: usize = 0;
    while i < count
        invariant
            i <= count,
            count == p.spec_tap_count(),
            unity == spec_abs_is_one(p.feedback),
            taps@.len() == i,
            forall|j: int| 0 <= j < i ==> #[trigger] taps@[j] == spec_plan_entry(*p, j as nat),
        decreases count - i,
    {
        let exponent = gain_exponent(i, count, p.feedback);
        taps.push(TapPlan { index: i, exponent, unity });
        i = i + 1;
    }
    taps
}

/// The sample that tap `index` hears: the input itself for tap 0, otherwise the
/// sample written `offset` writes ago.
pub fn tap_sample<T: Copy>(index: usize, offset: usize, input: T, line: &DelayLine<T>) -> (r: T)
    requires
        line.wf(),
    ensures
        r == if index == 0 {
            input
        } else {
            line@[line@.len() - clamp_offset(offset as nat, line@.len() as nat)]
        },
{
    if index == 0 {
        input
    } else {
        line.read(offset)
    }
}

} // verus!
