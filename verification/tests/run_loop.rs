use motion_guard::fetch::{build_reading, check_status};
use motion_guard::monitor::{HeartRateMonitor, LLMInterventionManager};
use motion_guard::types::{FetchError, HeartRateData, RiskLevel};

fn reading(tenths: u32, status: &str) -> HeartRateData {
    HeartRateData {
        current_heart_rate_tenths: tenths,
        status: status.to_string(),
        received_timestamp: 7,
        local_timestamp: "2024-01-01T00:00:07+00:00".to_string(),
    }
}

#[test]
fn run_flag_restored_after_intervention() {
    let mut monitor = HeartRateMonitor::new("http://test.com".to_string());
    assert!(!monitor.monitoring_active());
    monitor.start_monitoring();
    assert!(monitor.monitoring_active());

    // An emergency pauses monitoring for the whole intervention, then
    // restores the flag to its pre-intervention value.
    let prior = monitor.pause_for_intervention();
    assert!(prior);
    assert!(!monitor.monitoring_active());
    let _manager = LLMInterventionManager::new();
    monitor.resume_after_intervention(prior);
    assert!(monitor.monitoring_active());
}

#[test]
fn run_flag_stays_down_when_it_was_down_before() {
    let mut monitor = HeartRateMonitor::new("http://test.com".to_string());
    monitor.start_monitoring();
    monitor.stop_monitoring();
    assert!(!monitor.monitoring_active());
    let prior = monitor.pause_for_intervention();
    assert!(!prior);
    monitor.resume_after_intervention(prior);
    assert!(!monitor.monitoring_active());
}

#[test]
fn stop_monitoring_is_idempotent() {
    let mut monitor = HeartRateMonitor::new("http://test.com".to_string());
    monitor.start_monitoring();
    monitor.stop_monitoring();
    monitor.stop_monitoring();
    assert!(!monitor.monitoring_active());
}

#[test]
fn successful_fetch_is_recorded_and_normal_raises_no_alert() {
    let mut monitor = HeartRateMonitor::new("http://test.com".to_string());
    let alert = monitor.process_fetch(Ok(reading(800, "normal")));
    assert!(alert.is_none());
    assert_eq!(monitor.history.len(), 1);
    let status = monitor.get_current_status();
    assert_eq!(status.status, "active");
    assert_eq!(status.current_heart_rate_tenths, Some(800));
}

#[test]
fn dangerous_fetch_raises_a_matching_alert() {
    let mut monitor = HeartRateMonitor::new("http://test.com".to_string());
    let alert = monitor.process_fetch(Ok(reading(1300, "high"))).unwrap();
    assert_eq!(alert.alert_type, "heart_rate_emergency");
    assert_eq!(alert.heart_rate_tenths, 1300);
    assert_eq!(alert.risk_level, RiskLevel::Emergency);
    assert_eq!(alert.message, "heart rate too high: 130.0 BPM");
    assert_eq!(alert.raw_data.status, "high");

    let alert = monitor.process_fetch(Ok(reading(1100, "elevated"))).unwrap();
    assert_eq!(alert.risk_level, RiskLevel::Warning);
    assert_eq!(monitor.history.len(), 2);
}

#[test]
fn failed_fetch_changes_nothing() {
    let mut monitor = HeartRateMonitor::new("http://test.com".to_string());
    monitor.process_fetch(Ok(reading(800, "normal")));

    assert!(monitor.process_fetch(Err(FetchError::TransportError)).is_none());
    assert!(monitor.process_fetch(Err(FetchError::DecodeError)).is_none());
    assert!(monitor.process_fetch(Err(FetchError::ApiError(503))).is_none());

    assert_eq!(monitor.history.len(), 1);
    assert_eq!(monitor.get_current_status().current_heart_rate_tenths, Some(800));
}

#[test]
fn check_status_accepts_exactly_the_success_range() {
    assert!(check_status(200).is_ok());
    assert!(check_status(204).is_ok());
    assert!(check_status(299).is_ok());
    assert_eq!(check_status(199), Err(FetchError::ApiError(199)));
    assert_eq!(check_status(301), Err(FetchError::ApiError(301)));
    assert_eq!(check_status(404), Err(FetchError::ApiError(404)));
    assert_eq!(check_status(500), Err(FetchError::ApiError(500)));
}

#[test]
fn build_reading_carries_rate_and_status() {
    let data = build_reading(955, "steady".to_string());
    assert_eq!(data.current_heart_rate_tenths, 955);
    assert_eq!(data.status, "steady");
    // The ISO 8601 stamp comes from the clock; its shape at least has a date.
    assert!(data.local_timestamp.contains('T'));
}

#[test]
fn builders_replace_thresholds_and_interval() {
    let monitor = HeartRateMonitor::new("http://example.org".to_string());
    assert_eq!(monitor.emergency_threshold, 1200);
    assert_eq!(monitor.warning_threshold, 1000);
    assert_eq!(monitor.monitoring_interval, 5);
    assert_eq!(monitor.max_history_size, 1000);
    assert_eq!(monitor.heart_rate_endpoint, "http://example.org/heart-rate");

    let monitor = monitor.with_thresholds(1500, 1300).with_interval(30);
    assert_eq!(monitor.emergency_threshold, 1500);
    assert_eq!(monitor.warning_threshold, 1300);
    assert_eq!(monitor.monitoring_interval, 30);
}
