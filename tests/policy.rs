use github_agent_core::error::{quota_message, AccessDenied, AgentError, SessionError};
use github_agent_core::policy::{check_access, AccessLevel, QuotaViolation};

#[test]
fn quota_table() {
    assert_eq!(AccessLevel::Demo.max_operations(), Some(5));
    assert_eq!(AccessLevel::Demo.max_repositories(), Some(1));
    assert_eq!(AccessLevel::Showcase.max_operations(), Some(20));
    assert_eq!(AccessLevel::Showcase.max_repositories(), Some(3));
    assert_eq!(AccessLevel::EnterpriseTrial.max_operations(), Some(100));
    assert_eq!(AccessLevel::EnterpriseTrial.max_repositories(), Some(10));
    assert_eq!(AccessLevel::Full.max_operations(), None);
    assert_eq!(AccessLevel::Full.max_repositories(), None);
}

#[test]
fn session_durations() {
    assert_eq!(AccessLevel::Demo.session_duration_secs(), 1800);
    assert_eq!(AccessLevel::Showcase.session_duration_secs(), 7200);
    assert_eq!(AccessLevel::EnterpriseTrial.session_duration_secs(), 604800);
    assert_eq!(AccessLevel::Full.session_duration_secs(), 31536000);
}

#[test]
fn operation_ceiling_checked_before_repository_ceiling() {
    assert_eq!(
        check_access(AccessLevel::Demo, 5, 1, true),
        Err(QuotaViolation::OperationLimit)
    );
    assert_eq!(
        check_access(AccessLevel::Demo, 4, 1, true),
        Err(QuotaViolation::RepositoryLimit)
    );
    assert_eq!(check_access(AccessLevel::Demo, 4, 1, false), Ok(()));
    assert_eq!(check_access(AccessLevel::Demo, 0, 0, true), Ok(()));
}

#[test]
fn showcase_and_trial_ceilings() {
    assert_eq!(check_access(AccessLevel::Showcase, 19, 3, false), Ok(()));
    assert_eq!(
        check_access(AccessLevel::Showcase, 20, 0, true),
        Err(QuotaViolation::OperationLimit)
    );
    assert_eq!(
        check_access(AccessLevel::Showcase, 3, 3, true),
        Err(QuotaViolation::RepositoryLimit)
    );
    assert_eq!(check_access(AccessLevel::EnterpriseTrial, 99, 9, true), Ok(()));
    assert_eq!(
        check_access(AccessLevel::EnterpriseTrial, 100, 0, false),
        Err(QuotaViolation::OperationLimit)
    );
    assert_eq!(
        check_access(AccessLevel::EnterpriseTrial, 50, 10, true),
        Err(QuotaViolation::RepositoryLimit)
    );
}

#[test]
fn full_tier_is_never_denied() {
    assert_eq!(check_access(AccessLevel::Full, u64::MAX, usize::MAX, true), Ok(()));
    assert_eq!(check_access(AccessLevel::Full, 1_000_000, 1_000, true), Ok(()));
}

#[test]
fn quota_messages_name_the_ceiling() {
    assert_eq!(
        quota_message(AccessLevel::Demo, QuotaViolation::OperationLimit),
        "Demo limit reached"
    );
    assert_eq!(
        quota_message(AccessLevel::Showcase, QuotaViolation::RepositoryLimit),
        "Showcase repo limit reached"
    );
    assert_eq!(
        quota_message(AccessLevel::EnterpriseTrial, QuotaViolation::OperationLimit),
        "Trial limit reached"
    );
}

#[test]
fn denials_map_to_agent_errors() {
    assert_eq!(
        AccessDenied::NotFound.to_agent_error(),
        AgentError::SessionError(SessionError::NotFound)
    );
    assert_eq!(
        AccessDenied::Expired.to_agent_error(),
        AgentError::SessionError(SessionError::Expired)
    );
    assert_eq!(
        AccessDenied::Quota(AccessLevel::Demo, QuotaViolation::RepositoryLimit).to_agent_error(),
        AgentError::PermissionError("Demo repo limit reached".to_string())
    );
    assert_eq!(
        AccessDenied::CounterExhausted.to_agent_error(),
        AgentError::InternalError("operation counter exhausted".to_string())
    );
}
