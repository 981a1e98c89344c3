//! Mathematical model of the bounded rolling history: FIFO insertion with
//! eviction at capacity, and the windowed aggregates behind trend queries.

use vstd::prelude::*;
use crate::types::{HeartRateAnalysisV, HeartRateDataV, MonitoringRecordV};

verus! {

/// The record stored for a reading and its assessment: stamped with the
/// reading's local arrival time.
pub open spec fn record_of(data: HeartRateDataV, analysis: HeartRateAnalysisV) -> MonitoringRecordV {
    MonitoringRecordV { timestamp: data.local_timestamp, raw_data: data, analysis: analysis }
}

/// One insertion at the tail; when the length would exceed the capacity,
/// the oldest record (at the head) is evicted.
pub open spec fn push_evict(
    h: Seq<MonitoringRecordV>,
    r: MonitoringRecordV,
    capacity: nat,
) -> Seq<MonitoringRecordV> {
    let grown = h.push(r);
    if grown.len() > capacity {
        grown.subrange(1, grown.len() as int)
    } else {
        grown
    }
}

/// The history that remains after recording the arrivals `rs`, oldest first,
/// into an initially empty store of the given capacity.
pub open spec fn stored_after(capacity: nat, rs: Seq<MonitoringRecordV>) -> Seq<MonitoringRecordV>
    decreases rs.len(),
{
    if rs.len() == 0 {
        Seq::empty()
    } else {
        push_evict(stored_after(capacity, rs.drop_last()), rs.last(), capacity)
    }
}

/// Law: the history never exceeds its capacity, and after recording any
/// sequence of arrivals into an empty store it holds exactly the most recent
/// `capacity` of them (all of them, while they still fit), in arrival order.
pub proof fn lemma_history_holds_last_records(capacity: nat, rs: Seq<MonitoringRecordV>)
    requires
        capacity >= 1,
    ensures
        stored_after(capacity, rs).len() <= capacity,
        rs.len() <= capacity ==> stored_after(capacity, rs) == rs,
        rs.len() > capacity ==> stored_after(capacity, rs) == rs.subrange(
            rs.len() - capacity,
            rs.len() as int,
        ),
    decreases rs.len(),
{
    if rs.len() == 0 {
        assert(stored_after(capacity, rs) =~= rs);
    } else {
        lemma_history_holds_last_records(capacity, rs.drop_last());
        if rs.len() <= capacity {
            assert(stored_after(capacity, rs) =~= rs);
        } else if rs.len() == capacity + 1 {
            assert(stored_after(capacity, rs) =~= rs.subrange(
                rs.len() - capacity,
                rs.len() as int,
            ));
        } else {
            assert(stored_after(capacity, rs) =~= rs.subrange(
                rs.len() - capacity,
                rs.len() as int,
            ));
        }
    }
}

/// Whether a record falls inside a query window: it arrived at or after the
/// cutoff instant.
pub open spec fn in_window(r: MonitoringRecordV, cutoff: u64) -> bool {
    r.raw_data.received_timestamp >= cutoff
}

/// The instant a window of `hours` hours before `now` starts, clamped to the
/// epoch where the window reaches past it.
pub open spec fn window_cutoff(now: u64, hours: u64) -> u64 {
    if now >= hours * 3600 {
        (now - hours * 3600) as u64
    } else {
        0
    }
}

/// How many records of `h` fall inside the window.
pub open spec fn window_count(h: Seq<MonitoringRecordV>, cutoff: u64) -> nat
    decreases h.len(),
{
    if h.len() == 0 {
        0
    } else {
        window_count(h.drop_last(), cutoff) + if in_window(h.last(), cutoff) {
            1nat
        } else {
            0nat
        }
    }
}

/// The sum of the heart rates (in tenths of a BPM) of the records inside the
/// window.
pub open spec fn window_sum(h: Seq<MonitoringRecordV>, cutoff: u64) -> nat
    decreases h.len(),
{
    if h.len() == 0 {
        0
    } else {
        window_sum(h.drop_last(), cutoff) + if in_window(h.last(), cutoff) {
            h.last().raw_data.current_heart_rate_tenths as nat
        } else {
            0nat
        }
    }
}

/// The largest heart rate inside the window; 0 over an empty window.
pub open spec fn window_max(h: Seq<MonitoringRecordV>, cutoff: u64) -> nat
    decreases h.len(),
{
    if h.len() == 0 {
        0
    } else {
        let rest = window_max(h.drop_last(), cutoff);
        let hr = h.last().raw_data.current_heart_rate_tenths as nat;
        if in_window(h.last(), cutoff) && hr > rest {
            hr
        } else {
            rest
        }
    }
}

/// The smallest heart rate inside the window; the largest representable rate
/// over an empty window, so that every record inside the window lowers it.
pub open spec fn window_min(h: Seq<MonitoringRecordV>, cutoff: u64) -> nat
    decreases h.len(),
{
    if h.len() == 0 {
        0xffff_ffff
    } else {
        let rest = window_min(h.drop_last(), cutoff);
        let hr = h.last().raw_data.current_heart_rate_tenths as nat;
        if in_window(h.last(), cutoff) && hr < rest {
            hr
        } else {
            rest
        }
    }
}

/// No more records fall inside a window than the history holds.
pub proof fn lemma_window_count_bound(h: Seq<MonitoringRecordV>, cutoff: u64)
    ensures
        window_count(h, cutoff) <= h.len(),
    decreases h.len(),
{
    if h.len() == 0 {
    } else {
        lemma_window_count_bound(h.drop_last(), cutoff);
    }
}

/// The windowed sum is bounded by the record count times the largest
/// representable rate.
pub proof fn lemma_window_sum_bound(h: Seq<MonitoringRecordV>, cutoff: u64)
    ensures
        window_sum(h, cutoff) <= h.len() * 0xffff_ffff,
    decreases h.len(),
{
    if h.len() == 0 {
    } else {
        lemma_window_sum_bound(h.drop_last(), cutoff);
    }
}

/// An empty window sums to zero.
pub proof fn lemma_empty_window_sums_zero(h: Seq<MonitoringRecordV>, cutoff: u64)
    requires
        window_count(h, cutoff) == 0,
    ensures
        window_sum(h, cutoff) == 0,
    decreases h.len(),
{
    if h.len() == 0 {
    } else {
        lemma_empty_window_sums_zero(h.drop_last(), cutoff);
    }
}

} // verus!
