//! The decidable half of the fetcher: judging the endpoint's response status
//! and stamping a parsed body into a reading.
//!
//! The transport itself (the HTTP request and the JSON decode) is outside
//! the logic; it hands this module the status code and the parsed fields.

use vstd::prelude::*;
use crate::time::{now_epoch_secs, now_rfc3339};
use crate::types::{FetchError, HeartRateData};

verus! {

/// Whether an HTTP status code counts as success (the 2xx range).
pub open spec fn is_success_status(code: u16) -> bool {
    200 <= code < 300
}

/// Judges the endpoint's response status: succeeds exactly on the 2xx range
/// and reports every other code as an `ApiError` carrying that code.
pub fn check_status(code: u16) -> (r: Result<(), FetchError>)
    ensures
        r is Ok <==> is_success_status(code),
        !is_success_status(code) ==> r == Result::<(), FetchError>::Err(FetchError::ApiError(code)),
{
    if 200 <= code && code < 300 {
        Ok(())
    } else {
        Err(FetchError::ApiError(code))
    }
}

/// Builds a reading from the parsed body fields, stamping it with the
/// current wall-clock epoch seconds and local ISO 8601 time. The timestamps
/// come from the clock and are unconstrained.
pub fn build_reading(heart_rate_tenths: u32, status: String) -> (r: HeartRateData)
    ensures
        r.current_heart_rate_tenths == heart_rate_tenths,
        r.status@ == status@,
{
    HeartRateData {
        current_heart_rate_tenths: heart_rate_tenths,
        status,
        received_timestamp: now_epoch_secs(),
        local_timestamp: now_rfc3339(),
    }
}

} // verus!
