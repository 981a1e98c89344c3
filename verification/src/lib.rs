//! Heart-rate monitoring engine: classification of readings into risk tiers,
//! a bounded rolling history with status and trend queries, and the run-flag
//! transitions of the monitoring loop and its intervention coordinator.
//!
//! Heart rates are carried as whole tenths of a BPM, so that a reading such
//! as 80.5 BPM is stored as the integer 805.

use vstd::prelude::*;

pub mod classify;
pub mod fetch;
pub mod history;
pub mod monitor;
pub mod text;
mod time;
pub mod types;

verus! {

/// Heart rates below this bound (in tenths of a BPM, so 50.0 BPM) are always
/// treated as an emergency, independent of the configured thresholds.
pub const LOW_HEART_RATE_TENTHS: u32 = 500;

} // verus!
