//! Error types of the agent.

use vstd::prelude::*;
use crate::policy::{AccessLevel, QuotaViolation};

verus! {

/// Why a session cannot be used.
#[derive(Debug, Clone, Copy, PartialEq, Eq, Structural)]
pub enum SessionError {
    NotFound,
    Expired,
}

/// Why an operation was refused before any work began.
#[derive(Debug, Clone, Copy, PartialEq, Eq, Structural)]
pub enum AccessDenied {
    /// No session has this identifier.
    NotFound,
    /// The session's expiry has passed.
    Expired,
    /// The tier's quota does not allow the operation.
    Quota(AccessLevel, QuotaViolation),
    /// The operation counter cannot count one more operation.
    CounterExhausted,
}

/// Errors that can occur in the agent.
#[derive(Debug, Clone, PartialEq, Eq)]
pub enum AgentError {
    AuthError(String),
    GitError(String),
    GitHubError(String),
    SessionError(SessionError),
    RateLimitError,
    PermissionError(String),
    InternalError(String),
}

/// The text of a quota denial: it names the tier and the ceiling, and no
/// counter.
pub open spec fn quota_message_spec(level: AccessLevel, violation: QuotaViolation) -> Seq<char> {
    match (level, violation) {
        (AccessLevel::Demo, QuotaViolation::OperationLimit) => "Demo limit reached"@,
        (AccessLevel::Demo, QuotaViolation::RepositoryLimit) => "Demo repo limit reached"@,
        (AccessLevel::Showcase, QuotaViolation::OperationLimit) => "Showcase limit reached"@,
        (AccessLevel::Showcase, QuotaViolation::RepositoryLimit) => "Showcase repo limit reached"@,
        (AccessLevel::EnterpriseTrial, QuotaViolation::OperationLimit) => "Trial limit reached"@,
        (AccessLevel::EnterpriseTrial, QuotaViolation::RepositoryLimit) => "Trial repo limit reached"@,
        (AccessLevel::Full, QuotaViolation::OperationLimit) => "Full limit reached"@,
        (AccessLevel::Full, QuotaViolation::RepositoryLimit) => "Full repo limit reached"@,
    }
}

/// The text of the error for an exhausted operation counter.
pub open spec fn counter_exhausted_message_spec() -> Seq<char> {
    "operation counter exhausted"@
}

/// The agent error that reports a refusal.
pub open spec fn denial_error_spec(d: AccessDenied, e: AgentError) -> bool {
    match d {
        AccessDenied::NotFound => e == AgentError::SessionError(SessionError::NotFound),
        AccessDenied::Expired => e == AgentError::SessionError(SessionError::Expired),
        AccessDenied::Quota(level, v) => e is PermissionError && e->PermissionError_0@
            == quota_message_spec(level, v),
        AccessDenied::CounterExhausted => e is InternalError && e->InternalError_0@
            == counter_exhausted_message_spec(),
    }
}

/// The text of a quota denial.
pub fn quota_message(level: AccessLevel, violation: QuotaViolation) -> (r: String)
    ensures
        r@ == quota_message_spec(level, violation),
{
    let s: &str = match (level, violation) {
        (AccessLevel::Demo, QuotaViolation::OperationLimit) => "Demo limit reached",
        (AccessLevel::Demo, QuotaViolation::RepositoryLimit) => "Demo repo limit reached",
        (AccessLevel::Showcase, QuotaViolation::OperationLimit) => "Showcase limit reached",
        (AccessLevel::Showcase, QuotaViolation::RepositoryLimit) => "Showcase repo limit reached",
        (AccessLevel::EnterpriseTrial, QuotaViolation::OperationLimit) => "Trial limit reached",
        (AccessLevel::EnterpriseTrial, QuotaViolation::RepositoryLimit) => "Trial repo limit reached",
        (AccessLevel::Full, QuotaViolation::OperationLimit) => "Full limit reached",
        (AccessLevel::Full, QuotaViolation::RepositoryLimit) => "Full repo limit reached",
    };
    s.to_owned()
}

impl AccessDenied {
    /// The agent error that reports this refusal.
    pub fn to_agent_error(&self) -> (r: AgentError)
        ensures
            denial_error_spec(*self, r),
    {
        match self {
            AccessDenied::NotFound => AgentError::SessionError(SessionError::NotFound),
            AccessDenied::Expired => AgentError::SessionError(SessionError::Expired),
            AccessDenied::Quota(level, v) => AgentError::PermissionError(quota_message(*level, *v)),
            AccessDenied::CounterExhausted => AgentError::InternalError(
                "operation counter exhausted".to_owned(),
            ),
        }
    }
}

} // verus!
