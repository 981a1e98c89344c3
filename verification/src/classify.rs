//! Pure classification of a reading into a risk tier.
//!
//! Decision order, first match wins: at or above the emergency threshold it
//! is an emergency; else at or above the warning threshold a warning; else
//! below the fixed low bound of 50.0 BPM an emergency again (the low bound
//! is deliberately not configurable, unlike the two high thresholds); else
//! normal.

use vstd::prelude::*;
use crate::LOW_HEART_RATE_TENTHS;
use crate::text::{bpm_text, render_bpm_message};
use crate::types::{HeartRateAnalysis, HeartRateAnalysisV, HeartRateData, HeartRateDataV, RiskLevel, SuggestedAction};

verus! {

/// The risk tier of a rate (in tenths of a BPM) under the two configured
/// thresholds, in the decision order stated above.
pub open spec fn risk_of(tenths: u32, emergency_threshold: u32, warning_threshold: u32) -> RiskLevel {
    if tenths >= emergency_threshold {
        RiskLevel::Emergency
    } else if tenths >= warning_threshold {
        RiskLevel::Warning
    } else if tenths < LOW_HEART_RATE_TENTHS {
        RiskLevel::Emergency
    } else {
        RiskLevel::Normal
    }
}

/// The action suggested for each risk tier.
pub open spec fn action_for(risk: RiskLevel) -> SuggestedAction {
    match risk {
        RiskLevel::Normal => SuggestedAction::ContinueMonitoring,
        RiskLevel::Warning => SuggestedAction::GentleIntervention,
        RiskLevel::Emergency => SuggestedAction::ImmediateIntervention,
    }
}

/// The message accompanying the classification of a rate.
pub open spec fn message_of(tenths: u32, emergency_threshold: u32, warning_threshold: u32) -> Seq<char> {
    if tenths >= emergency_threshold {
        "heart rate too high: "@ + bpm_text(tenths as nat)
    } else if tenths >= warning_threshold {
        "heart rate elevated: "@ + bpm_text(tenths as nat)
    } else if tenths < LOW_HEART_RATE_TENTHS {
        "heart rate too low: "@ + bpm_text(tenths as nat)
    } else {
        "heart rate normal: "@ + bpm_text(tenths as nat)
    }
}

/// The full assessment derived from a reading: rate and device status are
/// carried over, the rest is determined by the rate and the thresholds.
pub open spec fn analysis_of(data: HeartRateDataV, emergency_threshold: u32, warning_threshold: u32) -> HeartRateAnalysisV {
    HeartRateAnalysisV {
        heart_rate_tenths: data.current_heart_rate_tenths,
        status: data.status,
        risk_level: risk_of(data.current_heart_rate_tenths, emergency_threshold, warning_threshold),
        message: message_of(data.current_heart_rate_tenths, emergency_threshold, warning_threshold),
        suggested_action: action_for(
            risk_of(data.current_heart_rate_tenths, emergency_threshold, warning_threshold),
        ),
    }
}

/// Classifies one reading. Pure and total: the result is exactly
/// `analysis_of` the reading and the thresholds.
pub fn classify(data: &HeartRateData, emergency_threshold: u32, warning_threshold: u32) -> (a: HeartRateAnalysis)
    ensures
        a@ == analysis_of(data@, emergency_threshold, warning_threshold),
{
    let tenths = data.current_heart_rate_tenths;
    let (risk_level, message, suggested_action) = if tenths >= emergency_threshold {
        (
            RiskLevel::Emergency,
            render_bpm_message("heart rate too high: ", tenths),
            SuggestedAction::ImmediateIntervention,
        )
    } else if tenths >= warning_threshold {
        (
            RiskLevel::Warning,
            render_bpm_message("heart rate elevated: ", tenths),
            SuggestedAction::GentleIntervention,
        )
    } else if tenths < LOW_HEART_RATE_TENTHS {
        (
            RiskLevel::Emergency,
            render_bpm_message("heart rate too low: ", tenths),
            SuggestedAction::ImmediateIntervention,
        )
    } else {
        (
            RiskLevel::Normal,
            render_bpm_message("heart rate normal: ", tenths),
            SuggestedAction::ContinueMonitoring,
        )
    };
    HeartRateAnalysis {
        heart_rate_tenths: tenths,
        status: data.status.clone(),
        risk_level,
        message,
        suggested_action,
    }
}

/// Law: any rate at or above the emergency threshold classifies as an
/// emergency calling for immediate intervention.
pub proof fn lemma_high_rate_is_emergency(tenths: u32, emergency_threshold: u32, warning_threshold: u32)
    requires
        tenths >= emergency_threshold,
    ensures
        risk_of(tenths, emergency_threshold, warning_threshold) == RiskLevel::Emergency,
        action_for(risk_of(tenths, emergency_threshold, warning_threshold))
            == SuggestedAction::ImmediateIntervention,
{
}

/// Law: any rate at or above the warning threshold but below the emergency
/// threshold classifies as a warning calling for gentle intervention.
pub proof fn lemma_elevated_rate_is_warning(tenths: u32, emergency_threshold: u32, warning_threshold: u32)
    requires
        warning_threshold <= tenths < emergency_threshold,
    ensures
        risk_of(tenths, emergency_threshold, warning_threshold) == RiskLevel::Warning,
        action_for(risk_of(tenths, emergency_threshold, warning_threshold))
            == SuggestedAction::GentleIntervention,
{
}

/// Law: a rate below the fixed low bound of 50.0 BPM classifies as an
/// emergency calling for immediate intervention — except where one of the
/// two configured high thresholds captures it first (decision order): a rate
/// in `warning_threshold ..< emergency_threshold` is a warning even below
/// the low bound, so such rates are excluded here.
pub proof fn lemma_low_rate_is_emergency(tenths: u32, emergency_threshold: u32, warning_threshold: u32)
    requires
        tenths < LOW_HEART_RATE_TENTHS,
        !(warning_threshold <= tenths < emergency_threshold),
    ensures
        risk_of(tenths, emergency_threshold, warning_threshold) == RiskLevel::Emergency,
        action_for(risk_of(tenths, emergency_threshold, warning_threshold))
            == SuggestedAction::ImmediateIntervention,
{
}

/// Law: every other rate — at or above the low bound and below both captures
/// above — classifies as normal, with monitoring simply continuing.
pub proof fn lemma_other_rate_is_normal(tenths: u32, emergency_threshold: u32, warning_threshold: u32)
    requires
        tenths < emergency_threshold,
        tenths < warning_threshold,
        tenths >= LOW_HEART_RATE_TENTHS,
    ensures
        risk_of(tenths, emergency_threshold, warning_threshold) == RiskLevel::Normal,
        action_for(risk_of(tenths, emergency_threshold, warning_threshold))
            == SuggestedAction::ContinueMonitoring,
{
}

} // verus!
