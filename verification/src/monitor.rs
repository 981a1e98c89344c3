//! The heart-rate monitor: configuration, the bounded history and latest
//! slot, the run flag driving the monitoring loop, and the state transitions
//! of the alert/intervention coordinator.
//!
//! The monitor is a sequential state machine. The surrounding process owns
//! the transport, the interval sleeps and the intervention workflow; it
//! checks `monitoring_active`, polls, and hands each poll's outcome to
//! `process_fetch`, pausing and resuming around interventions.

use std::collections::VecDeque;
use vstd::prelude::*;
use vstd::string::StringExecFns;
use crate::classify::{analysis_of, classify};
use crate::history::{
    lemma_empty_window_sums_zero, lemma_window_count_bound, lemma_window_sum_bound, push_evict,
    record_of, window_count, window_cutoff, window_max, window_min, window_sum,
};
use crate::time::{now_epoch_secs, now_rfc3339};
use crate::types::{
    AlertData, FetchError, HeartRateAnalysis, HeartRateData, HeartRateDataV, MonitoringRecord,
    MonitoringRecordV, RiskLevel, StatusSummary, TrendAnalysis,
};

verus! {

broadcast use vstd::std_specs::vecdeque::group_vec_dequeue_axioms;

/// The intervention workflow's handle. The workflow itself is an external
/// collaborator: the surrounding process drives it with an `AlertData`.
pub struct LLMInterventionManager;

impl LLMInterventionManager {
    pub fn new() -> LLMInterventionManager {
        LLMInterventionManager
    }
}

/// The run flag's transition when an intervention begins: the flag is
/// cleared, and its prior value is saved for the resume.
pub open spec fn pause_transition(active: bool) -> (bool, bool) {
    (false, active)
}

/// The run flag's transition when an intervention ends: the saved prior
/// value is restored, not unconditionally `true`.
pub open spec fn resume_transition(saved: bool) -> bool {
    saved
}

/// Law: an intervention leaves the run flag as it found it. Pausing clears
/// the flag and saves its prior value; resuming with that saved value
/// restores exactly the pre-intervention state.
pub proof fn lemma_intervention_restores_run_flag(active_before: bool)
    ensures
        pause_transition(active_before).0 == false,
        resume_transition(pause_transition(active_before).1) == active_before,
{
}

pub struct HeartRateMonitor {
    /// Configured base URL of the sensor endpoint.
    pub base_url: String,
    /// Full URL polled for readings: the base URL plus `/heart-rate`.
    pub heart_rate_endpoint: String,
    /// Seconds the loop sleeps between iterations.
    pub monitoring_interval: u64,
    /// Rates at or above this (tenths of a BPM) are an emergency.
    pub emergency_threshold: u32,
    /// Rates at or above this (tenths of a BPM) are at least a warning.
    pub warning_threshold: u32,
    /// The most recent record, if any reading has been stored yet.
    pub current_data: Option<MonitoringRecord>,
    /// Rolling history of records, oldest first.
    pub history: VecDeque<MonitoringRecord>,
    /// Capacity of the rolling history.
    pub max_history_size: usize,
    /// The shared run flag: the loop continues only while it holds.
    pub is_monitoring: bool,
}

impl HeartRateMonitor {
    /// Deep view of the stored history, oldest first.
    pub open spec fn hist(&self) -> Seq<MonitoringRecordV> {
        self.history@.map_values(|r: MonitoringRecord| r@)
    }

    /// Deep view of the latest-record slot.
    pub open spec fn current_v(&self) -> Option<MonitoringRecordV> {
        match self.current_data {
            Some(r) => Some(r@),
            None => None,
        }
    }

    /// Structural invariant: the history fits its capacity, and the capacity
    /// admits at least one record.
    pub open spec fn wf(&self) -> bool {
        &&& self.history@.len() <= self.max_history_size
        &&& self.max_history_size >= 1
    }

    /// The configuration fields of `self` and `other` agree.
    pub open spec fn same_config(&self, other: &Self) -> bool {
        &&& self.base_url == other.base_url
        &&& self.heart_rate_endpoint == other.heart_rate_endpoint
        &&& self.monitoring_interval == other.monitoring_interval
        &&& self.emergency_threshold == other.emergency_threshold
        &&& self.warning_threshold == other.warning_threshold
        &&& self.max_history_size == other.max_history_size
    }

    /// The stored data (history and latest slot) of `self` and `other` agree.
    pub open spec fn same_store(&self, other: &Self) -> bool {
        &&& self.history@ == other.history@
        &&& self.current_data == other.current_data
    }

    /// A monitor for the given endpoint base URL, with the default
    /// configuration: a 5-second interval, thresholds of 120.0 and 100.0
    /// BPM, a history capacity of 1000, and monitoring not yet running.
    pub fn new(base_url: String) -> (m: HeartRateMonitor)
        ensures
            m.wf(),
            m.base_url@ == base_url@,
            m.heart_rate_endpoint@ == base_url@ + "/heart-rate"@,
            m.monitoring_interval == 5,
            m.emergency_threshold == 1200,
            m.warning_threshold == 1000,
            m.max_history_size == 1000,
            m.hist() == Seq::<MonitoringRecordV>::empty(),
            m.current_v() is None,
            !m.is_monitoring,
    {
        let heart_rate_endpoint = base_url.clone().concat("/heart-rate");
        let m = HeartRateMonitor {
            base_url,
            heart_rate_endpoint,
            monitoring_interval: 5,
            emergency_threshold: 1200,
            warning_threshold: 1000,
            current_data: None,
            history: VecDeque::with_capacity(1000),
            max_history_size: 1000,
            is_monitoring: false,
        };
        proof {
            assert(m.hist() =~= Seq::<MonitoringRecordV>::empty());
        }
        m
    }

    /// The same monitor with the two high thresholds (tenths of a BPM)
    /// replaced.
    pub fn with_thresholds(self, emergency: u32, warning: u32) -> (m: HeartRateMonitor)
        ensures
            m.emergency_threshold == emergency,
            m.warning_threshold == warning,
            m.base_url == self.base_url,
            m.heart_rate_endpoint == self.heart_rate_endpoint,
            m.monitoring_interval == self.monitoring_interval,
            m.max_history_size == self.max_history_size,
            m.history@ == self.history@,
            m.current_data == self.current_data,
            m.is_monitoring == self.is_monitoring,
    {
        HeartRateMonitor { emergency_threshold: emergency, warning_threshold: warning, ..self }
    }

    /// The same monitor with the polling interval (seconds) replaced.
    pub fn with_interval(self, interval: u64) -> (m: HeartRateMonitor)
        ensures
            m.monitoring_interval == interval,
            m.base_url == self.base_url,
            m.heart_rate_endpoint == self.heart_rate_endpoint,
            m.emergency_threshold == self.emergency_threshold,
            m.warning_threshold == self.warning_threshold,
            m.max_history_size == self.max_history_size,
            m.history@ == self.history@,
            m.current_data == self.current_data,
            m.is_monitoring == self.is_monitoring,
    {
        HeartRateMonitor { monitoring_interval: interval, ..self }
    }

    /// Classifies one reading against the configured thresholds. Pure: the
    /// monitor is not changed, and the result is exactly `analysis_of`.
    pub fn analyze_heart_rate(&self, data: &HeartRateData) -> (a: HeartRateAnalysis)
        ensures
            a@ == analysis_of(data@, self.emergency_threshold, self.warning_threshold),
    {
        classify(data, self.emergency_threshold, self.warning_threshold)
    }

    /// Appends the record for a reading and its assessment at the history's
    /// tail, evicting the oldest record when the capacity would be exceeded,
    /// and overwrites the latest-record slot with the same record.
    pub fn store_data(&mut self, data: HeartRateData, analysis: HeartRateAnalysis)
        requires
            old(self).wf(),
        ensures
            final(self).wf(),
            final(self).hist() == push_evict(
                old(self).hist(),
                record_of(data@, analysis@),
                old(self).max_history_size as nat,
            ),
            final(self).current_v() == Some(record_of(data@, analysis@)),
            final(self).same_config(old(self)),
            final(self).is_monitoring == old(self).is_monitoring,
    {
        let record = MonitoringRecord {
            timestamp: data.local_timestamp.clone(),
            raw_data: data,
            analysis,
        };
        self.current_data = Some(record.duplicate());
        self.history.push_back(record);
        proof {
            assert(self.hist() =~= old(self).hist().push(record_of(data@, analysis@)));
        }
        if self.history.len() > self.max_history_size {
            let _evicted = self.history.pop_front();
            proof {
                assert(self.hist() =~= old(self).hist().push(
                    record_of(data@, analysis@),
                ).subrange(1, old(self).hist().len() as int + 1));
            }
        }
    }

    /// Raises the run flag; the surrounding process then enters the loop.
    pub fn start_monitoring(&mut self)
        ensures
            final(self).is_monitoring,
            final(self).same_config(old(self)),
            final(self).same_store(old(self)),
    {
        self.is_monitoring = true;
    }

    /// Clears the run flag; the loop exits at its next iteration check.
    /// Idempotent.
    pub fn stop_monitoring(&mut self)
        ensures
            !final(self).is_monitoring,
            final(self).same_config(old(self)),
            final(self).same_store(old(self)),
    {
        self.is_monitoring = false;
    }

    /// Whether the loop should run another iteration: the run flag as the
    /// loop reads it at the top of each iteration.
    pub fn monitoring_active(&self) -> (active: bool)
        ensures
            active == self.is_monitoring,
    {
        self.is_monitoring
    }

    /// Begins an intervention: saves the run flag's prior value and clears
    /// it, per `pause_transition`, so that the loop does not poll
    /// mid-intervention.
    pub fn pause_for_intervention(&mut self) -> (prior: bool)
        ensures
            final(self).is_monitoring == pause_transition(old(self).is_monitoring).0,
            prior == pause_transition(old(self).is_monitoring).1,
            final(self).same_config(old(self)),
            final(self).same_store(old(self)),
    {
        let prior = self.is_monitoring;
        self.is_monitoring = false;
        prior
    }

    /// Ends an intervention: restores the run flag to the saved prior value,
    /// per `resume_transition` — not unconditionally `true`, so monitoring
    /// that was already stopped stays stopped.
    pub fn resume_after_intervention(&mut self, prior: bool)
        ensures
            final(self).is_monitoring == resume_transition(prior),
            final(self).same_config(old(self)),
            final(self).same_store(old(self)),
    {
        self.is_monitoring = prior;
    }

    /// The alert event handed to the intervention workflow for a dangerous
    /// reading; its timestamp comes from the clock and is unconstrained.
    pub fn build_alert(analysis: &HeartRateAnalysis, raw_data: &HeartRateData) -> (a: AlertData)
        ensures
            a.alert_type@ == "heart_rate_emergency"@,
            a.heart_rate_tenths == raw_data.current_heart_rate_tenths,
            a.risk_level == analysis.risk_level,
            a.message@ == analysis.message@,
            a.raw_data@ == raw_data@,
    {
        AlertData {
            alert_type: "heart_rate_emergency".to_owned(),
            timestamp: now_rfc3339(),
            heart_rate_tenths: raw_data.current_heart_rate_tenths,
            risk_level: analysis.risk_level,
            message: analysis.message.clone(),
            raw_data: raw_data.duplicate(),
        }
    }

    /// `process_fetch` on a successful poll records exactly the reading's
    /// classification.
    pub open spec fn records_reading(pre: Self, post: Self, d: HeartRateDataV) -> bool {
        let a = analysis_of(d, pre.emergency_threshold, pre.warning_threshold);
        &&& post.hist() == push_evict(pre.hist(), record_of(d, a), pre.max_history_size as nat)
        &&& post.current_v() == Some(record_of(d, a))
    }

    /// `process_fetch` on a successful poll raises an alert exactly when the
    /// classification is not normal, and the alert mirrors the reading and
    /// its assessment.
    pub open spec fn alert_matches(pre: Self, d: HeartRateDataV, alert: Option<AlertData>) -> bool {
        let a = analysis_of(d, pre.emergency_threshold, pre.warning_threshold);
        if a.risk_level == RiskLevel::Normal {
            alert is None
        } else {
            &&& alert matches Some(al)
            &&& al.alert_type@ == "heart_rate_emergency"@
            &&& al.heart_rate_tenths == d.current_heart_rate_tenths
            &&& al.risk_level == a.risk_level
            &&& al.message@ == a.message
            &&& al.raw_data@ == d
        }
    }

    /// One loop iteration's decisions after a poll. On a successful fetch
    /// the reading is classified and recorded, and a dangerous classification
    /// yields the alert event for the intervention coordinator. A failed
    /// fetch changes nothing: fetch errors are never fatal to the loop.
    pub fn process_fetch(&mut self, fetched: Result<HeartRateData, FetchError>) -> (alert: Option<
        AlertData,
    >)
        requires
            old(self).wf(),
        ensures
            final(self).wf(),
            final(self).same_config(old(self)),
            final(self).is_monitoring == old(self).is_monitoring,
            fetched is Err ==> *final(self) == *old(self) && alert is None,
            fetched matches Ok(d) ==> Self::records_reading(*old(self), *final(self), d@),
            fetched matches Ok(d) ==> Self::alert_matches(*old(self), d@, alert),
    {
        match fetched {
            Ok(data) => {
                let analysis = self.analyze_heart_rate(&data);
                let dangerous = match analysis.risk_level {
                    RiskLevel::Normal => false,
                    RiskLevel::Warning => true,
                    RiskLevel::Emergency => true,
                };
                let alert = if dangerous {
                    Some(Self::build_alert(&analysis, &data))
                } else {
                    None
                };
                self.store_data(data, analysis);
                alert
            },
            Err(_) => None,
        }
    }

    /// The status summary of the latest record: `"no_data"` with every
    /// optional field empty while nothing has been stored, otherwise
    /// `"active"` mirroring the latest record's fields exactly.
    pub fn get_current_status(&self) -> (s: StatusSummary)
        ensures
            self.current_v() is None ==> {
                &&& s.status@ == "no_data"@
                &&& s.last_update is None
                &&& s.current_heart_rate_tenths is None
                &&& s.risk_level is None
                &&& s.message is None
            },
            self.current_v() matches Some(rec) ==> {
                &&& s.status@ == "active"@
                &&& s.last_update matches Some(u) && u@ == rec.timestamp
                &&& s.current_heart_rate_tenths == Some(rec.raw_data.current_heart_rate_tenths)
                &&& s.risk_level == Some(rec.analysis.risk_level)
                &&& s.message matches Some(m) && m@ == rec.analysis.message
            },
    {
        match &self.current_data {
            Some(rec) => StatusSummary {
                status: "active".to_owned(),
                last_update: Some(rec.timestamp.clone()),
                current_heart_rate_tenths: Some(rec.raw_data.current_heart_rate_tenths),
                risk_level: Some(rec.analysis.risk_level),
                message: Some(rec.analysis.message.clone()),
            },
            None => StatusSummary {
                status: "no_data".to_owned(),
                last_update: None,
                current_heart_rate_tenths: None,
                risk_level: None,
                message: None,
            },
        }
    }

    /// What a trend query must return: the exact count, rate sum, maximum
    /// and minimum over the records whose arrival timestamp falls within
    /// `hours` hours before `now`, with the `"insufficient_data"` label over
    /// an empty window and the (deliberately constant) `"stable"` label
    /// otherwise.
    pub open spec fn trend_result_ok(
        h: Seq<MonitoringRecordV>,
        now: u64,
        hours: u64,
        t: TrendAnalysis,
    ) -> bool {
        let cutoff = window_cutoff(now, hours);
        &&& t.data_points == window_count(h, cutoff)
        &&& t.hr_tenths_sum == window_sum(h, cutoff)
        &&& window_count(h, cutoff) == 0 ==> {
            &&& t.trend@ == "insufficient_data"@
            &&& t.max_hr_tenths == 0
            &&& t.min_hr_tenths == 0
        }
        &&& window_count(h, cutoff) > 0 ==> {
            &&& t.trend@ == "stable"@
            &&& t.max_hr_tenths == window_max(h, cutoff)
            &&& t.min_hr_tenths == window_min(h, cutoff)
        }
    }

    /// The trend over the window of `hours` hours before the instant `now`.
    pub fn trend_analysis_at(&self, now: u64, hours: u64) -> (t: TrendAnalysis)
        ensures
            Self::trend_result_ok(self.hist(), now, hours, t),
    {
        let cutoff: u64 = match hours.checked_mul(3600) {
            Some(span) => if now >= span {
                now - span
            } else {
                0
            },
            None => 0,
        };
        let ghost h = self.hist();
        let n = self.history.len();
        let mut i: usize = 0;
        let mut count: usize = 0;
        let mut sum: u128 = 0;
        let mut max_seen: u32 = 0;
        let mut min_seen: u32 = 0xffff_ffff;
        while i < n
            invariant
                n == self.history@.len(),
                h == self.hist(),
                i <= n,
                cutoff == window_cutoff(now, hours),
                count == window_count(h.take(i as int), cutoff),
                sum == window_sum(h.take(i as int), cutoff),
                max_seen == window_max(h.take(i as int), cutoff),
                min_seen == window_min(h.take(i as int), cutoff),
            decreases n - i,
        {
            let r = &self.history[i];
            proof {
                assert(h.take(i + 1).drop_last() =~= h.take(i as int));
                assert(h.take(i + 1).last() == h[i as int]);
                lemma_window_sum_bound(h.take(i as int), cutoff);
                lemma_window_count_bound(h.take(i as int), cutoff);
            }
            if r.raw_data.received_timestamp >= cutoff {
                let hr = r.raw_data.current_heart_rate_tenths;
                count = count + 1;
                sum = sum + hr as u128;
                if hr > max_seen {
                    max_seen = hr;
                }
                if hr < min_seen {
                    min_seen = hr;
                }
            }
            i = i + 1;
        }
        proof {
            assert(h.take(n as int) =~= h);
        }
        if count == 0 {
            proof {
                lemma_empty_window_sums_zero(h, cutoff);
            }
            TrendAnalysis {
                trend: "insufficient_data".to_owned(),
                hr_tenths_sum: 0,
                max_hr_tenths: 0,
                min_hr_tenths: 0,
                data_points: 0,
            }
        } else {
            TrendAnalysis {
                trend: "stable".to_owned(),
                hr_tenths_sum: sum,
                max_hr_tenths: max_seen,
                min_hr_tenths: min_seen,
                data_points: count,
            }
        }
    }

    /// The trend over the window of `hours` hours before the present
    /// instant. The instant comes from the clock, so the result is pinned
    /// only relative to some `now`.
    pub fn get_trend_analysis(&self, hours: u64) -> (t: TrendAnalysis)
        ensures
            exists|now: u64| Self::trend_result_ok(self.hist(), now, hours, t),
    {
        let now = now_epoch_secs();
        let t = self.trend_analysis_at(now, hours);
        proof {
            assert(Self::trend_result_ok(self.hist(), now, hours, t));
        }
        t
    }
}

} // verus!
