//! Timing constants of the fixed-step simulation.

use vstd::prelude::*;

verus! {

/// Simulation ticks per second of combat time.
pub const TICKS_PER_SECOND: i64 = 30;

/// Defensive cap on simulated ticks, one hour of combat time, so that a
/// zero-damage configuration cannot loop forever.
pub const MAX_TICKS: i64 = 108_000;

} // verus!
