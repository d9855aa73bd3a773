use github_agent_core::error::AccessDenied;
use github_agent_core::policy::{AccessLevel, QuotaViolation};
use github_agent_core::session::SessionInfo;

const T0: i64 = 1_700_000_000_000;

#[test]
fn new_session_window() {
    let s = SessionInfo::new_at(7, AccessLevel::Showcase, T0);
    assert_eq!(s.id, 7);
    assert_eq!(s.started_at, T0);
    assert_eq!(s.expires_at, T0 + 7_200_000);
    assert_eq!(s.operations_count, 0);
    assert!(s.repos_accessed.is_empty());
}

#[test]
fn liveness_is_decided_by_expiry_alone() {
    let s = SessionInfo::new_at(1, AccessLevel::Demo, T0);
    let expiry = T0 + 1_800_000;
    assert!(s.is_active_at(T0));
    assert!(s.is_active_at(expiry - 1));
    assert!(!s.is_active_at(expiry));
    assert!(!s.is_active_at(expiry + 1));
    assert!(!s.is_active_at(i64::MAX));
    assert!(s.is_active_at(i64::MIN));
}

#[test]
fn remaining_seconds_rounds_down_and_stops_at_zero() {
    let s = SessionInfo::new_at(1, AccessLevel::Demo, T0);
    assert_eq!(s.remaining_seconds_at(T0), 1800);
    assert_eq!(s.remaining_seconds_at(T0 + 1), 1799);
    assert_eq!(s.remaining_seconds_at(T0 + 1_800_000 - 1), 0);
    assert_eq!(s.remaining_seconds_at(T0 + 1_800_000), 0);
    assert_eq!(s.remaining_seconds_at(T0 + 5_000_000), 0);
    let from_min = ((T0 as i128 + 1_800_000 - i64::MIN as i128) / 1000) as i64;
    assert_eq!(s.remaining_seconds_at(i64::MIN), from_min);
}

#[test]
fn demo_sixth_operation_denied() {
    let mut s = SessionInfo::new_at(1, AccessLevel::Demo, T0);
    for _ in 0..5 {
        assert_eq!(s.record_operation_at("owner/repo", T0 + 10), Ok(()));
    }
    assert_eq!(
        s.record_operation_at("owner/repo", T0 + 10),
        Err(AccessDenied::Quota(AccessLevel::Demo, QuotaViolation::OperationLimit))
    );
    assert_eq!(s.operations_count, 5);
}

#[test]
fn demo_second_repository_denied_same_repository_allowed() {
    let mut s = SessionInfo::new_at(1, AccessLevel::Demo, T0);
    assert_eq!(s.record_operation_at("a/one", T0), Ok(()));
    assert_eq!(
        s.record_operation_at("b/two", T0),
        Err(AccessDenied::Quota(AccessLevel::Demo, QuotaViolation::RepositoryLimit))
    );
    for _ in 0..4 {
        assert_eq!(s.record_operation_at("a/one", T0), Ok(()));
    }
    assert_eq!(s.operations_count, 5);
    assert_eq!(s.repos_accessed, vec!["a/one".to_string()]);
}

#[test]
fn expired_session_refuses_operations() {
    let mut s = SessionInfo::new_at(1, AccessLevel::Full, T0);
    let expiry = s.expires_at;
    assert_eq!(s.record_operation_at("r", expiry), Err(AccessDenied::Expired));
    assert_eq!(s.operations_count, 0);
    assert_eq!(s.record_operation_at("r", expiry - 1), Ok(()));
}

#[test]
fn repositories_are_recorded_once() {
    let mut s = SessionInfo::new_at(1, AccessLevel::Showcase, T0);
    assert_eq!(s.record_operation_at("x", T0), Ok(()));
    assert_eq!(s.record_operation_at("y", T0), Ok(()));
    assert_eq!(s.record_operation_at("x", T0), Ok(()));
    assert_eq!(s.repos_accessed, vec!["x".to_string(), "y".to_string()]);
    assert!(s.has_accessed(&"y".to_string()));
    assert!(!s.has_accessed(&"z".to_string()));
}

#[test]
fn exhausted_counter_is_refused() {
    let mut s = SessionInfo::new_at(1, AccessLevel::Full, T0);
    s.operations_count = u64::MAX;
    assert_eq!(s.record_operation_at("r", T0), Err(AccessDenied::CounterExhausted));
    assert_eq!(s.operations_count, u64::MAX);
}

#[test]
fn sequential_increments_are_all_counted() {
    let mut s = SessionInfo::new_at(1, AccessLevel::Full, T0);
    for _ in 0..250 {
        assert_eq!(s.record_operation_at("r", T0), Ok(()));
    }
    assert_eq!(s.operations_count, 250);
}

#[test]
fn duplicate_is_an_equal_copy() {
    let mut s = SessionInfo::new_at(3, AccessLevel::Showcase, T0);
    s.record_operation_at("r", T0).unwrap();
    assert_eq!(s.duplicate(), s);
}
