//! Wall-clock access for timestamping readings.
//!
//! The clock is outside the logic: nothing is assumed of the values it
//! returns, and every function that consumes them is verified for all of
//! them (the history explicitly tolerates non-monotone arrival timestamps).

use vstd::prelude::*;

verus! {

/// Relies on chrono's `Utc::now` and `DateTime::timestamp`: the current
/// wall-clock time as whole seconds since the Unix epoch. `Utc::now` panics
/// if the system clock reads earlier than the epoch.
#[verifier::external_body]
fn now_epoch_secs_raw() -> i64 {
    chrono::Utc::now().timestamp()
}

/// Relies on chrono's `Utc::now` and `DateTime::to_rfc3339`: the current
/// wall-clock time rendered as an RFC 3339 / ISO 8601 string. `Utc::now`
/// panics if the system clock reads earlier than the epoch.
#[verifier::external_body]
pub(crate) fn now_rfc3339() -> String {
    chrono::Utc::now().to_rfc3339()
}

/// The current wall-clock time as seconds since the Unix epoch, clamped to
/// zero should the clock report an instant before it.
pub(crate) fn now_epoch_secs() -> u64 {
    let t = now_epoch_secs_raw();
    if t < 0 {
        0
    } else {
        t as u64
    }
}

} // verus!
