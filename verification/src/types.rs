//! The data carried through the monitor: readings, assessments, stored
//! records, alert events, and the summaries handed to status queries.
//!
//! Heart rates and thresholds are whole tenths of a BPM.

use vstd::prelude::*;

verus! {

/// Risk tier of a single reading.
#[derive(Clone, Copy, Debug, PartialEq, Eq, Structural)]
pub enum RiskLevel {
    Normal,
    Warning,
    Emergency,
}

/// What the monitor should do about a reading.
#[derive(Clone, Copy, Debug, PartialEq, Eq, Structural)]
pub enum SuggestedAction {
    ContinueMonitoring,
    GentleIntervention,
    ImmediateIntervention,
}

/// Why a poll of the sensor endpoint yielded no reading.
#[derive(Clone, Copy, Debug, PartialEq, Eq, Structural)]
pub enum FetchError {
    /// The endpoint could not be reached (connect, DNS or timeout failure).
    TransportError,
    /// The endpoint answered with the given non-success status code.
    ApiError(u16),
    /// The endpoint answered, but the body could not be parsed.
    DecodeError,
}

/// One raw sensor sample plus the timestamps stamped on arrival.
pub struct HeartRateData {
    /// The sampled rate, in tenths of a BPM.
    pub current_heart_rate_tenths: u32,
    /// The device status string reported alongside the rate.
    pub status: String,
    /// Local wall-clock seconds since the Unix epoch when the sample arrived.
    pub received_timestamp: u64,
    /// Local arrival time rendered as an ISO 8601 string.
    pub local_timestamp: String,
}

/// Mathematical image of a `HeartRateData`.
pub ghost struct HeartRateDataV {
    pub current_heart_rate_tenths: u32,
    pub status: Seq<char>,
    pub received_timestamp: u64,
    pub local_timestamp: Seq<char>,
}

impl View for HeartRateData {
    type V = HeartRateDataV;

    open spec fn view(&self) -> HeartRateDataV {
        HeartRateDataV {
            current_heart_rate_tenths: self.current_heart_rate_tenths,
            status: self.status@,
            received_timestamp: self.received_timestamp,
            local_timestamp: self.local_timestamp@,
        }
    }
}

impl HeartRateData {
    /// A second reading with exactly the same contents.
    pub fn duplicate(&self) -> (r: HeartRateData)
        ensures
            r@ == self@,
    {
        HeartRateData {
            current_heart_rate_tenths: self.current_heart_rate_tenths,
            status: self.status.clone(),
            received_timestamp: self.received_timestamp,
            local_timestamp: self.local_timestamp.clone(),
        }
    }
}

/// The classification derived from one reading.
pub struct HeartRateAnalysis {
    /// The classified rate, in tenths of a BPM.
    pub heart_rate_tenths: u32,
    /// The device status string, carried over from the reading.
    pub status: String,
    pub risk_level: RiskLevel,
    /// Human-readable account of the classification.
    pub message: String,
    pub suggested_action: SuggestedAction,
}

/// Mathematical image of a `HeartRateAnalysis`.
pub ghost struct HeartRateAnalysisV {
    pub heart_rate_tenths: u32,
    pub status: Seq<char>,
    pub risk_level: RiskLevel,
    pub message: Seq<char>,
    pub suggested_action: SuggestedAction,
}

impl View for HeartRateAnalysis {
    type V = HeartRateAnalysisV;

    open spec fn view(&self) -> HeartRateAnalysisV {
        HeartRateAnalysisV {
            heart_rate_tenths: self.heart_rate_tenths,
            status: self.status@,
            risk_level: self.risk_level,
            message: self.message@,
            suggested_action: self.suggested_action,
        }
    }
}

/// A reading and its assessment, as stored in the rolling history.
pub struct MonitoringRecord {
    /// The reading's local arrival time (mirrors `raw_data.local_timestamp`).
    pub timestamp: String,
    pub raw_data: HeartRateData,
    pub analysis: HeartRateAnalysis,
}

/// Mathematical image of a `MonitoringRecord`.
pub ghost struct MonitoringRecordV {
    pub timestamp: Seq<char>,
    pub raw_data: HeartRateDataV,
    pub analysis: HeartRateAnalysisV,
}

impl View for MonitoringRecord {
    type V = MonitoringRecordV;

    open spec fn view(&self) -> MonitoringRecordV {
        MonitoringRecordV {
            timestamp: self.timestamp@,
            raw_data: self.raw_data@,
            analysis: self.analysis@,
        }
    }
}

impl MonitoringRecord {
    /// A second record with exactly the same contents.
    pub fn duplicate(&self) -> (r: MonitoringRecord)
        ensures
            r@ == self@,
    {
        MonitoringRecord {
            timestamp: self.timestamp.clone(),
            raw_data: HeartRateData {
                current_heart_rate_tenths: self.raw_data.current_heart_rate_tenths,
                status: self.raw_data.status.clone(),
                received_timestamp: self.raw_data.received_timestamp,
                local_timestamp: self.raw_data.local_timestamp.clone(),
            },
            analysis: HeartRateAnalysis {
                heart_rate_tenths: self.analysis.heart_rate_tenths,
                status: self.analysis.status.clone(),
                risk_level: self.analysis.risk_level,
                message: self.analysis.message.clone(),
                suggested_action: self.analysis.suggested_action,
            },
        }
    }
}

/// The value handed to the intervention workflow on a dangerous reading.
/// Ephemeral: never stored.
pub struct AlertData {
    pub alert_type: String,
    /// Wall-clock time at which the alert was raised, as an ISO 8601 string.
    pub timestamp: String,
    /// The alerting rate, in tenths of a BPM.
    pub heart_rate_tenths: u32,
    pub risk_level: RiskLevel,
    pub message: String,
    pub raw_data: HeartRateData,
}

/// Answer of a point-in-time status query.
pub struct StatusSummary {
    /// `"active"` when a record has been stored, `"no_data"` before that.
    pub status: String,
    pub last_update: Option<String>,
    pub current_heart_rate_tenths: Option<u32>,
    pub risk_level: Option<RiskLevel>,
    pub message: Option<String>,
}

/// Answer of a windowed trend query. The mean rate over the window is
/// `hr_tenths_sum / data_points` tenths of a BPM (exact, so that callers can
/// divide in whatever precision they need).
pub struct TrendAnalysis {
    /// `"stable"` over a non-empty window, `"insufficient_data"` otherwise.
    pub trend: String,
    /// Sum of the rates in the window, in tenths of a BPM.
    pub hr_tenths_sum: u128,
    /// Largest rate in the window, in tenths of a BPM; 0 if the window is empty.
    pub max_hr_tenths: u32,
    /// Smallest rate in the window, in tenths of a BPM; 0 if the window is empty.
    pub min_hr_tenths: u32,
    /// Number of records in the window.
    pub data_points: usize,
}

} // verus!
