use github_agent_core::clock::saturate_to_u64;
use github_agent_core::config::AgentConfig;
use github_agent_core::github::RepoInfo;
use github_agent_core::metrics::OperationMetric;
use github_agent_core::store::SessionStore;
use github_agent_core::session::SessionInfo;
use github_agent_core::policy::AccessLevel;
use github_agent_core::performance::{mean_nanos, PerformanceMetrics, PerformanceMonitor};

#[test]
fn default_config() {
    let c = AgentConfig::default();
    assert_eq!(c.max_concurrent_operations, 100);
    assert_eq!(c.rate_limit_buffer, 10);
    assert_eq!(c.cache_size_mb, 256);
    assert_eq!(c.ai_model_path, "models/github-agent-v2");
    assert_eq!(c.session_timeout, 1800);
    assert!(c.telemetry_enabled);
}

#[test]
fn repo_info_defaults_missing_fields() {
    let r = RepoInfo::from_remote("n".to_string(), None, None, None, Some(3));
    assert_eq!(r.full_name, "");
    assert_eq!(r.stars, 0);
    assert_eq!(r.forks, 3);
    let r = RepoInfo::from_remote(
        "n".to_string(),
        Some("o/n".to_string()),
        Some("Rust".to_string()),
        Some(12),
        None,
    );
    assert_eq!(r.full_name, "o/n");
    assert_eq!(r.language, Some("Rust".to_string()));
    assert_eq!(r.stars, 12);
    assert_eq!(r.forks, 0);
}

#[test]
fn performance_average_per_operation() {
    let mut p = PerformanceMonitor::new(&AgentConfig::default()).unwrap();
    assert_eq!(p.get_average_duration("clone"), None);
    p.record_metric(PerformanceMetrics { operation: "clone".to_string(), duration_nanos: 3, memory_used: 0 });
    p.record_metric(PerformanceMetrics { operation: "push".to_string(), duration_nanos: 100, memory_used: 0 });
    p.record_metric(PerformanceMetrics { operation: "clone".to_string(), duration_nanos: 6, memory_used: 0 });
    assert_eq!(p.get_average_duration("clone"), Some(4));
    assert_eq!(p.get_average_duration("push"), Some(100));
}

#[test]
fn timer_names_its_operation() {
    let p = PerformanceMonitor::new(&AgentConfig::default()).unwrap();
    let t = p.start_timing("analyze");
    let m = t.finish();
    assert_eq!(m.operation, "analyze");
    assert_eq!(m.memory_used, 0);
}

#[test]
fn mean_and_saturation() {
    assert_eq!(mean_nanos(&vec![1, 2, 4]), 2);
    assert_eq!(mean_nanos(&vec![u64::MAX, u64::MAX]), u64::MAX);
    assert_eq!(saturate_to_u64(5), 5);
    assert_eq!(saturate_to_u64(u64::MAX as u128 + 1), u64::MAX);
}

#[test]
fn contribution_metric_fields() {
    let m = OperationMetric::contribution(7, 11, 13);
    assert_eq!(m.operation, "smart_contribution");
    assert!(m.success);
    assert_eq!((m.session_id, m.duration_nanos, m.timestamp), (7, 11, 13));
}

#[test]
fn unused_id_skips_stored_ids() {
    let mut st = SessionStore::new();
    assert_eq!(st.unused_id(), 0);
    st.insert(SessionInfo::new_at(0, AccessLevel::Demo, 0));
    st.insert(SessionInfo::new_at(1, AccessLevel::Demo, 0));
    st.insert(SessionInfo::new_at(3, AccessLevel::Demo, 0));
    assert_eq!(st.unused_id(), 2);
    assert_eq!(st.count_live_at(0), 3);
    assert_eq!(st.count_live_at(1_800_000), 0);
}
