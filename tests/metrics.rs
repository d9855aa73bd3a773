use github_agent_core::metrics::{MetricsLog, OperationMetric, METRICS_CAPACITY};

fn metric(name: &str, nanos: u64, stamp: i64, success: bool) -> OperationMetric {
    OperationMetric {
        operation: name.to_string(),
        duration_nanos: nanos,
        timestamp: stamp,
        success,
        session_id: 9,
    }
}

#[test]
fn empty_log_statistics_are_zero() {
    let log = MetricsLog::new();
    let st = log.statistics(0);
    assert_eq!(st.total_operations, 0);
    assert_eq!(st.successful_operations, 0);
    assert_eq!(st.average_duration_nanos, 0);
    assert_eq!(st.active_sessions, 0);
}

#[test]
fn statistics_count_and_average() {
    let mut log = MetricsLog::new();
    log.record(metric("a", 100, 1, true));
    log.record(metric("b", 200, 2, false));
    log.record(metric("a", 301, 3, true));
    let st = log.statistics(4);
    assert_eq!(st.total_operations, 3);
    assert_eq!(st.successful_operations, 2);
    assert_eq!(st.average_duration_nanos, 200);
    assert_eq!(st.active_sessions, 4);
}

#[test]
fn average_of_large_durations_does_not_overflow() {
    let mut log = MetricsLog::new();
    log.record(metric("a", u64::MAX, 1, true));
    log.record(metric("a", u64::MAX - 1, 2, true));
    assert_eq!(log.statistics(0).average_duration_nanos, u64::MAX - 1);
}

#[test]
fn average_duration_per_operation() {
    let mut log = MetricsLog::new();
    log.record(metric("commit", 10, 1, true));
    log.record(metric("analyze", 1000, 2, true));
    log.record(metric("commit", 25, 3, false));
    assert_eq!(log.average_duration("commit"), Some(17));
    assert_eq!(log.average_duration("analyze"), Some(1000));
    assert_eq!(log.average_duration("sync"), None);
}

#[test]
fn log_compacts_after_capacity() {
    let mut log = MetricsLog::new();
    for i in 0..10_001i64 {
        log.record(metric("op", 1, i, true));
    }
    assert!(log.len() <= 9_001);
    assert_eq!(log.len(), 9_001);
    assert_eq!(log.entry(0).timestamp, 1000);
    assert!(log.entry(0).timestamp > 999);
    assert_eq!(log.entry(log.len() - 1).timestamp, 10_000);
}

#[test]
fn log_at_capacity_is_not_compacted() {
    let mut log = MetricsLog::new();
    for i in 0..(METRICS_CAPACITY as i64) {
        log.record(metric("op", 1, i, true));
    }
    assert_eq!(log.len(), 10_000);
    assert_eq!(log.entry(0).timestamp, 0);
}
