use motion_guard::monitor::HeartRateMonitor;
use motion_guard::types::{HeartRateData, RiskLevel};

fn reading_at(tenths: u32, received: u64) -> HeartRateData {
    HeartRateData {
        current_heart_rate_tenths: tenths,
        status: "ok".to_string(),
        received_timestamp: received,
        local_timestamp: format!("t{}", received),
    }
}

fn store(monitor: &mut HeartRateMonitor, data: HeartRateData) {
    let analysis = monitor.analyze_heart_rate(&data);
    monitor.store_data(data, analysis);
}

#[test]
fn history_keeps_only_the_last_capacity_records() {
    let mut monitor = HeartRateMonitor::new("http://test.com".to_string());
    // Capacity defaults to 1000; insert 1003 records with distinct stamps.
    for i in 0..1003u64 {
        store(&mut monitor, reading_at(600 + (i % 100) as u32, i));
    }
    assert_eq!(monitor.history.len(), 1000);
    // The three oldest were evicted: the head is the 4th arrival, the tail
    // the newest, and order is arrival order throughout.
    assert_eq!(monitor.history.front().unwrap().raw_data.received_timestamp, 3);
    assert_eq!(monitor.history.back().unwrap().raw_data.received_timestamp, 1002);
    for (k, record) in monitor.history.iter().enumerate() {
        assert_eq!(record.raw_data.received_timestamp, 3 + k as u64);
    }
}

#[test]
fn current_status_empty_then_mirrors_latest_record() {
    let mut monitor = HeartRateMonitor::new("http://test.com".to_string());

    let empty = monitor.get_current_status();
    assert_eq!(empty.status, "no_data");
    assert!(empty.last_update.is_none());
    assert!(empty.current_heart_rate_tenths.is_none());
    assert!(empty.risk_level.is_none());
    assert!(empty.message.is_none());

    let data = HeartRateData {
        current_heart_rate_tenths: 1100,
        status: "elevated".to_string(),
        received_timestamp: 42,
        local_timestamp: "2024-01-01T00:00:42+00:00".to_string(),
    };
    store(&mut monitor, data);

    let active = monitor.get_current_status();
    assert_eq!(active.status, "active");
    assert_eq!(active.last_update.as_deref(), Some("2024-01-01T00:00:42+00:00"));
    assert_eq!(active.current_heart_rate_tenths, Some(1100));
    assert_eq!(active.risk_level, Some(RiskLevel::Warning));
    assert_eq!(active.message.as_deref(), Some("heart rate elevated: 110.0 BPM"));
}

#[test]
fn trend_over_empty_window_reports_insufficient_data() {
    let mut monitor = HeartRateMonitor::new("http://test.com".to_string());

    // No records at all.
    let trend = monitor.trend_analysis_at(1_000_000, 1);
    assert_eq!(trend.trend, "insufficient_data");
    assert_eq!(trend.data_points, 0);
    assert_eq!(trend.hr_tenths_sum, 0);
    assert_eq!(trend.max_hr_tenths, 0);
    assert_eq!(trend.min_hr_tenths, 0);

    // Records exist, but all arrived before the window starts.
    store(&mut monitor, reading_at(800, 100));
    store(&mut monitor, reading_at(900, 200));
    let trend = monitor.trend_analysis_at(1_000_000, 1);
    assert_eq!(trend.trend, "insufficient_data");
    assert_eq!(trend.data_points, 0);
}

#[test]
fn trend_reports_exact_mean_max_and_min() {
    let mut monitor = HeartRateMonitor::new("http://test.com".to_string());
    store(&mut monitor, reading_at(600, 1000));
    store(&mut monitor, reading_at(800, 2000));
    store(&mut monitor, reading_at(700, 3000));

    // A one-hour window from now == 3600 reaches back to the epoch.
    let trend = monitor.trend_analysis_at(3600, 1);
    assert_eq!(trend.trend, "stable");
    assert_eq!(trend.data_points, 3);
    assert_eq!(trend.hr_tenths_sum, 2100);
    assert_eq!(trend.max_hr_tenths, 800);
    assert_eq!(trend.min_hr_tenths, 600);
    // The arithmetic mean of 60.0, 80.0 and 70.0 BPM, recovered from the
    // exact sum of tenths.
    let mean_bpm = trend.hr_tenths_sum as f64 / 10.0 / trend.data_points as f64;
    assert_eq!(mean_bpm, 70.0);

    // A narrower window: cutoff 10000 - 2 * 3600 = 2800 keeps only the
    // record that arrived at 3000.
    let trend = monitor.trend_analysis_at(10_000, 2);
    assert_eq!(trend.data_points, 1);
    assert_eq!(trend.hr_tenths_sum, 700);
    assert_eq!(trend.max_hr_tenths, 700);
    assert_eq!(trend.min_hr_tenths, 700);
}

#[test]
fn trend_window_saturates_at_the_epoch() {
    let mut monitor = HeartRateMonitor::new("http://test.com".to_string());
    store(&mut monitor, reading_at(650, 5));
    // The window is far longer than the time since the epoch: everything is
    // included, with no underflow.
    let trend = monitor.trend_analysis_at(100, u64::MAX);
    assert_eq!(trend.data_points, 1);
    assert_eq!(trend.hr_tenths_sum, 650);
}

#[test]
fn get_trend_analysis_on_fresh_monitor_has_no_data() {
    let monitor = HeartRateMonitor::new("http://test.com".to_string());
    let trend = monitor.get_trend_analysis(24);
    assert_eq!(trend.trend, "insufficient_data");
    assert_eq!(trend.data_points, 0);
}
