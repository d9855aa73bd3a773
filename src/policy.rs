//! Access tiers and the quota rule that decides whether one more operation
//! may run in a session.

use vstd::prelude::*;

verus! {

/// Milliseconds in one second.
pub const MS_PER_SECOND: i64 = 1000;

/// The longest lifetime of any session, in milliseconds.
pub const MAX_SESSION_LIFETIME_MS: i64 = 31536000000;

/// Access tier of a session.
#[derive(Debug, Clone, Copy, PartialEq, Eq, Structural)]
pub enum AccessLevel {
    Demo,
    Showcase,
    EnterpriseTrial,
    Full,
}

/// Which ceiling of a tier an operation would cross.
#[derive(Debug, Clone, Copy, PartialEq, Eq, Structural)]
pub enum QuotaViolation {
    OperationLimit,
    RepositoryLimit,
}

/// Maximum number of operations of a tier; `None` is unbounded.
pub open spec fn max_operations_spec(level: AccessLevel) -> Option<u64> {
    match level {
        AccessLevel::Demo => Some(5),
        AccessLevel::Showcase => Some(20),
        AccessLevel::EnterpriseTrial => Some(100),
        AccessLevel::Full => None,
    }
}

/// Maximum number of distinct repositories of a tier; `None` is unbounded.
pub open spec fn max_repositories_spec(level: AccessLevel) -> Option<u64> {
    match level {
        AccessLevel::Demo => Some(1),
        AccessLevel::Showcase => Some(3),
        AccessLevel::EnterpriseTrial => Some(10),
        AccessLevel::Full => None,
    }
}

/// Lifetime of a session of a tier, in seconds.
pub open spec fn session_duration_secs_spec(level: AccessLevel) -> i64 {
    match level {
        AccessLevel::Demo => 1800,
        AccessLevel::Showcase => 7200,
        AccessLevel::EnterpriseTrial => 604800,
        AccessLevel::Full => 31536000,
    }
}

/// The quota rule: the operation ceiling is checked first, then the
/// repository ceiling, which only a repository not yet touched can cross.
pub open spec fn check_spec(
    level: AccessLevel,
    operations_so_far: u64,
    repos_so_far: nat,
    repo_is_new: bool,
) -> Result<(), QuotaViolation> {
    match (max_operations_spec(level), max_repositories_spec(level)) {
        (Some(max_ops), Some(max_repos)) => {
            if operations_so_far >= max_ops {
                Err(QuotaViolation::OperationLimit)
            } else if repo_is_new && repos_so_far >= max_repos {
                Err(QuotaViolation::RepositoryLimit)
            } else {
                Ok(())
            }
        },
        _ => Ok(()),
    }
}

impl AccessLevel {
    /// Maximum number of operations of this tier; `None` is unbounded.
    pub fn max_operations(&self) -> (r: Option<u64>)
        ensures
            r == max_operations_spec(*self),
    {
        match self {
            AccessLevel::Demo => Some(5),
            AccessLevel::Showcase => Some(20),
            AccessLevel::EnterpriseTrial => Some(100),
            AccessLevel::Full => None,
        }
    }

    /// Maximum number of distinct repositories of this tier; `None` is unbounded.
    pub fn max_repositories(&self) -> (r: Option<u64>)
        ensures
            r == max_repositories_spec(*self),
    {
        match self {
            AccessLevel::Demo => Some(1),
            AccessLevel::Showcase => Some(3),
            AccessLevel::EnterpriseTrial => Some(10),
            AccessLevel::Full => None,
        }
    }

    /// Lifetime of a session of this tier, in seconds.
    pub fn session_duration_secs(&self) -> (r: i64)
        ensures
            r == session_duration_secs_spec(*self),
            r > 0,
            r * MS_PER_SECOND <= MAX_SESSION_LIFETIME_MS,
    {
        match self {
            AccessLevel::Demo => 30 * 60,
            AccessLevel::Showcase => 2 * 60 * 60,
            AccessLevel::EnterpriseTrial => 7 * 24 * 60 * 60,
            AccessLevel::Full => 365 * 24 * 60 * 60,
        }
    }
}

/// Decides whether one more operation may run in a session of `level` that
/// has run `operations_so_far` operations on `repos_so_far` distinct
/// repositories; `repo_is_new` tells whether the operation's repository is
/// outside that set.
pub fn check_access(
    level: AccessLevel,
    operations_so_far: u64,
    repos_so_far: usize,
    repo_is_new: bool,
) -> (r: Result<(), QuotaViolation>)
    ensures
        r == check_spec(level, operations_so_far, repos_so_far as nat, repo_is_new),
{
    match (level.max_operations(), level.max_repositories()) {
        (Some(max_ops), Some(max_repos)) => {
            if operations_so_far >= max_ops {
                Err(QuotaViolation::OperationLimit)
            } else if repo_is_new && repos_so_far as u64 >= max_repos {
                Err(QuotaViolation::RepositoryLimit)
            } else {
                Ok(())
            }
        },
        _ => Ok(()),
    }
}

/// The full tier is never denied.
pub proof fn lemma_full_always_allowed(ops: u64, repos: nat, repo_is_new: bool)
    ensures
        check_spec(AccessLevel::Full, ops, repos, repo_is_new) == Ok::<(), QuotaViolation>(()),
{
}

} // verus!
