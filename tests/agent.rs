use github_agent_core::agent::GitHubAgent;
use github_agent_core::config::AgentConfig;
use github_agent_core::error::{AgentError, SessionError};
use github_agent_core::policy::AccessLevel;
use github_agent_core::queue::{Operation, QueueError};

const T0: i64 = 1_700_000_000_000;

fn agent() -> GitHubAgent {
    GitHubAgent::new(AgentConfig::default())
}

#[test]
fn showcase_twenty_operations_on_three_repositories() {
    let mut a = agent();
    let s = a.create_session_at(AccessLevel::Showcase, 11, T0).unwrap();
    let repos = ["o/a", "o/b", "o/c"];
    for i in 0..20 {
        assert_eq!(a.record_operation_at(s.id, repos[i % 3], T0 + 1), Ok(()));
    }
    match a.record_operation_at(s.id, "o/a", T0 + 1) {
        Err(AgentError::PermissionError(msg)) => assert_eq!(msg, "Showcase limit reached"),
        other => panic!("unexpected {:?}", other),
    }
    let info = a.get_session_info(s.id).unwrap();
    assert_eq!(info.operations_count, 20);
    assert_eq!(info.repos_accessed.len(), 3);
}

#[test]
fn unknown_session_is_not_found() {
    let mut a = agent();
    assert_eq!(
        a.record_operation_at(99, "r", T0),
        Err(AgentError::SessionError(SessionError::NotFound))
    );
    assert_eq!(
        a.validate_session_at(99, "r", T0),
        Err(AgentError::SessionError(SessionError::NotFound))
    );
    assert_eq!(
        a.validate_session(99, "r"),
        Err(AgentError::SessionError(SessionError::NotFound))
    );
    assert!(a.get_session_info(99).is_none());
}

#[test]
fn expired_session_is_refused_and_evicted() {
    let mut a = agent();
    let s = a.create_session_at(AccessLevel::Demo, 5, T0).unwrap();
    let expiry = s.expires_at;
    assert_eq!(a.validate_session_at(5, "r", expiry - 1), Ok(()));
    assert_eq!(
        a.validate_session_at(5, "r", expiry),
        Err(AgentError::SessionError(SessionError::Expired))
    );
    assert!(a.get_session_info(5).is_some());
    assert_eq!(
        a.record_operation_at(5, "r", expiry),
        Err(AgentError::SessionError(SessionError::Expired))
    );
    assert!(a.get_session_info(5).is_none());
}

#[test]
fn validation_does_not_count() {
    let mut a = agent();
    a.create_session_at(AccessLevel::Demo, 5, T0).unwrap();
    for _ in 0..10 {
        assert_eq!(a.validate_session_at(5, "r", T0), Ok(()));
    }
    assert_eq!(a.get_session_info(5).unwrap().operations_count, 0);
}

#[test]
fn demo_quota_through_agent() {
    let mut a = agent();
    a.create_session_at(AccessLevel::Demo, 5, T0).unwrap();
    assert_eq!(a.record_operation_at(5, "a", T0), Ok(()));
    assert_eq!(
        a.record_operation_at(5, "b", T0),
        Err(AgentError::PermissionError("Demo repo limit reached".to_string()))
    );
    for _ in 0..4 {
        assert_eq!(a.record_operation_at(5, "a", T0), Ok(()));
    }
    assert_eq!(
        a.record_operation_at(5, "a", T0),
        Err(AgentError::PermissionError("Demo limit reached".to_string()))
    );
}

#[test]
fn sessions_count_independently() {
    let mut a = agent();
    a.create_session_at(AccessLevel::Full, 1, T0).unwrap();
    a.create_session_at(AccessLevel::Full, 2, T0).unwrap();
    for _ in 0..40 {
        a.record_operation_at(1, "r", T0).unwrap();
        a.record_operation_at(2, "r", T0).unwrap();
        a.record_operation_at(2, "s", T0).unwrap();
    }
    assert_eq!(a.get_session_info(1).unwrap().operations_count, 40);
    assert_eq!(a.get_session_info(2).unwrap().operations_count, 80);
}

#[test]
fn late_start_is_an_internal_error() {
    let mut a = agent();
    match a.create_session_at(AccessLevel::Demo, 1, i64::MAX) {
        Err(AgentError::InternalError(_)) => {}
        other => panic!("unexpected {:?}", other),
    }
    assert!(a.get_session_info(1).is_none());
}

#[test]
fn created_sessions_are_stored_with_fresh_ids() {
    let mut a = agent();
    let s1 = a.create_demo_session(AccessLevel::Demo).unwrap();
    let s2 = a.create_demo_session(AccessLevel::EnterpriseTrial).unwrap();
    assert_ne!(s1.id, s2.id);
    assert_eq!(s1.expires_at - s1.started_at, 1_800_000);
    assert_eq!(s2.expires_at - s2.started_at, 604_800_000);
    assert!(s1.is_active());
    assert!(s1.remaining_seconds() > 1700);
    assert_eq!(a.get_statistics().active_sessions, 2);
    assert_eq!(a.record_operation(s1.id, "o/r"), Ok(()));
    assert_eq!(a.get_session_info(s1.id).unwrap().operations_count, 1);
    a.remove_session(s1.id);
    a.remove_session(s1.id);
    assert_eq!(a.get_statistics().active_sessions, 1);
}

#[test]
fn statistics_of_new_agent_are_zero() {
    let a = agent();
    let st = a.get_statistics();
    assert_eq!(st.total_operations, 0);
    assert_eq!(st.successful_operations, 0);
    assert_eq!(st.average_duration_nanos, 0);
    assert_eq!(st.active_sessions, 0);
}

#[test]
fn background_operations_flow_through_queue_into_metrics() {
    let mut a = agent();
    let op1 = Operation::HealthCheck { repo: "r".to_string(), session_id: 3 };
    let op2 = Operation::SyncRepo { repo: "r".to_string(), session_id: 3 };
    assert_eq!(a.submit(op1.clone()), Ok(()));
    assert_eq!(a.submit(op2.clone()), Ok(()));
    let first = a.next_operation().unwrap();
    assert_eq!(first, op1);
    a.complete_operation_at(&first, true, 100, T0);
    let second = a.next_operation().unwrap();
    assert_eq!(second, op2);
    a.complete_operation(&second, false, 300);
    assert_eq!(a.next_operation(), None);
    let st = a.get_statistics();
    assert_eq!(st.total_operations, 2);
    assert_eq!(st.successful_operations, 1);
    assert_eq!(st.average_duration_nanos, 200);
}

#[test]
fn agent_queue_refuses_past_capacity() {
    let mut a = agent();
    let mut refused = 0;
    for i in 0..1001 {
        let op = Operation::AnalyzeRepo { repo: format!("r{}", i), session_id: 1 };
        if a.submit(op) == Err(QueueError::Full) {
            refused += 1;
        }
    }
    assert_eq!(refused, 1);
}

#[test]
fn statistics_count_only_live_sessions() {
    let mut a = agent();
    a.create_session_at(AccessLevel::Demo, 1, T0).unwrap();
    a.create_session_at(AccessLevel::Showcase, 2, T0).unwrap();
    assert_eq!(a.get_statistics_at(T0).active_sessions, 2);
    assert_eq!(a.get_statistics_at(T0 + 1_800_000).active_sessions, 1);
    assert_eq!(a.get_statistics_at(T0 + 7_200_000).active_sessions, 0);
    assert!(a.get_session_info(1).is_some());
}

#[test]
fn identifier_in_use_is_refused() {
    let mut a = agent();
    a.create_session_at(AccessLevel::Demo, 1, T0).unwrap();
    a.record_operation_at(1, "r", T0).unwrap();
    match a.create_session_at(AccessLevel::Full, 1, T0) {
        Err(AgentError::InternalError(msg)) => assert_eq!(msg, "session id in use"),
        other => panic!("unexpected {:?}", other),
    }
    assert_eq!(a.get_session_info(1).unwrap().operations_count, 1);
}

#[test]
fn contribution_is_recorded_as_successful_metric() {
    let mut a = agent();
    a.record_contribution_at(42, 500, T0);
    a.record_contribution(42, 700);
    let st = a.get_statistics_at(T0);
    assert_eq!(st.total_operations, 2);
    assert_eq!(st.successful_operations, 2);
    assert_eq!(st.average_duration_nanos, 600);
}
