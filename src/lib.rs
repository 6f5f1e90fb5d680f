//! The decision core of a multi-tap repeat (rhythmic delay) effect.
//!
//! Per sample, the engine compares the incoming configuration with the active
//! one, decides whether to render one tap set or blend two over a fixed 5 ms
//! window, and reads its taps from a circular delay line. This crate holds those
//! decisions, the delay line (generic over the sample type), the tap layout and
//! the editor's window state; the floating-point signal arithmetic lives with the
//! host integration.
use vstd::prelude::*;

pub mod float_bits;
pub mod params;
pub mod delay_line;
pub mod ramp;
pub mod crossfade;
pub mod taps;
pub mod editor;

verus! {

/// The largest number of taps one configuration can hold.
pub const MAX_REPEATS: usize = 32;

} // verus!
