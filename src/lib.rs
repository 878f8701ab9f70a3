//! A scrolling random-color animation for an addressable LED strip: colors
//! are drawn, dampened, and pushed into a fixed-length history that is
//! mirrored onto the strip.
use vstd::prelude::*;

pub mod garland;
pub mod generator;

verus! {

/// Pause between two frames, in milliseconds: the animation's cadence.
pub const FRAME_PERIOD_MS: u32 = 80;

/// Period of the liveness indicator's toggle, in milliseconds.
pub const HEARTBEAT_PERIOD_MS: u32 = 1000;

} // verus!
