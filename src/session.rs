//! A session record: its tier, its time window and what it has done.

use vstd::prelude::*;
use crate::clock::now_millis;
use crate::error::AccessDenied;
use crate::policy::{check_access, check_spec, AccessLevel, QuotaViolation, MAX_SESSION_LIFETIME_MS, MS_PER_SECOND};

verus! {

/// One session.  Timestamps are milliseconds since the Unix epoch.
#[derive(Debug, Clone, PartialEq, Eq)]
pub struct SessionInfo {
    pub id: u128,
    pub access_level: AccessLevel,
    pub started_at: i64,
    pub expires_at: i64,
    pub operations_count: u64,
    pub repos_accessed: Vec<String>,
}

/// The mathematical model of a session.
pub struct SessionView {
    pub id: u128,
    pub access_level: AccessLevel,
    pub started_at: i64,
    pub expires_at: i64,
    pub operations_count: u64,
    /// The distinct repositories touched, as character sequences.
    pub repos: Seq<Seq<char>>,
}

impl View for SessionInfo {
    type V = SessionView;

    open spec fn view(&self) -> SessionView {
        SessionView {
            id: self.id,
            access_level: self.access_level,
            started_at: self.started_at,
            expires_at: self.expires_at,
            operations_count: self.operations_count,
            repos: self.repos_accessed@.map_values(|r: String| r@),
        }
    }
}

/// Liveness of a session at `now`: the expiry is the single source of truth.
pub open spec fn is_active_spec(s: SessionView, now: i64) -> bool {
    now < s.expires_at
}

/// Whole seconds left before expiry at `now`, never negative.
pub open spec fn remaining_seconds_spec(s: SessionView, now: i64) -> int {
    if now < s.expires_at {
        (s.expires_at - now) / (MS_PER_SECOND as int)
    } else {
        0
    }
}

/// What an attempt to run one more operation on `repo` at `now` yields.
pub open spec fn record_outcome_spec(s: SessionView, repo: Seq<char>, now: i64) -> Result<
    (),
    AccessDenied,
> {
    if !is_active_spec(s, now) {
        Err(AccessDenied::Expired)
    } else {
        match check_spec(
            s.access_level,
            s.operations_count,
            s.repos.len(),
            !s.repos.contains(repo),
        ) {
            Err(v) => Err(AccessDenied::Quota(s.access_level, v)),
            Ok(()) => if s.operations_count == u64::MAX {
                Err(AccessDenied::CounterExhausted)
            } else {
                Ok(())
            },
        }
    }
}

/// The repositories after an accepted operation on `repo`.
pub open spec fn repos_after_spec(repos: Seq<Seq<char>>, repo: Seq<char>) -> Seq<Seq<char>> {
    if repos.contains(repo) {
        repos
    } else {
        repos.push(repo)
    }
}

/// The model of a session after one more accepted operation on `repo`.
pub open spec fn after_operation_spec(s: SessionView, repo: Seq<char>) -> SessionView {
    SessionView {
        operations_count: (s.operations_count + 1) as u64,
        repos: repos_after_spec(s.repos, repo),
        ..s
    }
}

/// A session after attempting an operation on each of `repos` in turn at
/// `now`, with the number of attempts accepted.
pub open spec fn attempt_all_spec(s: SessionView, repos: Seq<Seq<char>>, now: i64) -> (
    SessionView,
    nat,
)
    decreases repos.len(),
{
    if repos.len() == 0 {
        (s, 0)
    } else {
        let (s1, n) = attempt_all_spec(s, repos.drop_last(), now);
        match record_outcome_spec(s1, repos.last(), now) {
            Ok(()) => (after_operation_spec(s1, repos.last()), n + 1),
            Err(_) => (s1, n),
        }
    }
}

/// No accepted operation is lost: after any series of attempts, the
/// counter has grown by exactly the number accepted, and the session's
/// identity, tier and time window are unchanged.
pub proof fn lemma_counter_counts_accepted(s: SessionView, repos: Seq<Seq<char>>, now: i64)
    ensures
        attempt_all_spec(s, repos, now).0.operations_count == s.operations_count
            + attempt_all_spec(s, repos, now).1,
        attempt_all_spec(s, repos, now).0.id == s.id,
        attempt_all_spec(s, repos, now).0.access_level == s.access_level,
        attempt_all_spec(s, repos, now).0.expires_at == s.expires_at,
    decreases repos.len(),
{
    if repos.len() > 0 {
        lemma_counter_counts_accepted(s, repos.drop_last(), now);
    }
}

/// A demo session that is live and has run five operations refuses the
/// next one on its operation ceiling, whatever the repository.
pub proof fn lemma_demo_sixth_operation_denied(s: SessionView, repo: Seq<char>, now: i64)
    requires
        s.wf(),
        s.access_level == AccessLevel::Demo,
        s.operations_count == 5,
        is_active_spec(s, now),
    ensures
        record_outcome_spec(s, repo, now) == Err::<(), AccessDenied>(
            AccessDenied::Quota(AccessLevel::Demo, QuotaViolation::OperationLimit),
        ),
{
}

/// A live demo session that has touched one repository and is under its
/// operation ceiling refuses a second repository on its repository ceiling,
/// and accepts another operation on the same repository.
pub proof fn lemma_demo_single_repository(
    s: SessionView,
    touched: Seq<char>,
    other: Seq<char>,
    now: i64,
)
    requires
        s.wf(),
        s.access_level == AccessLevel::Demo,
        s.operations_count < 5,
        s.repos == seq![touched],
        other != touched,
        is_active_spec(s, now),
    ensures
        record_outcome_spec(s, other, now) == Err::<(), AccessDenied>(
            AccessDenied::Quota(AccessLevel::Demo, QuotaViolation::RepositoryLimit),
        ),
        record_outcome_spec(s, touched, now) == Ok::<(), AccessDenied>(()),
{
    assert(s.repos[0] == touched);
    assert(!s.repos.contains(other)) by {
        if s.repos.contains(other) {
            let k = choose|k: int| 0 <= k < s.repos.len() && s.repos[k] == other;
            assert(k == 0);
        }
    }
}

impl SessionView {
    /// Well formed: the expiry follows the start, and no repository is
    /// listed twice.
    pub open spec fn wf(&self) -> bool {
        &&& self.expires_at > self.started_at
        &&& self.repos.no_duplicates()
    }
}

impl SessionInfo {
    /// Well formed: see [`SessionView::wf`].
    pub open spec fn wf(&self) -> bool {
        self@.wf()
    }

    /// A fresh session of `level` that starts at `now`.
    pub fn new_at(id: u128, access_level: AccessLevel, now: i64) -> (r: SessionInfo)
        requires
            now <= i64::MAX - MAX_SESSION_LIFETIME_MS,
        ensures
            r.wf(),
            r.id == id,
            r.access_level == access_level,
            r.started_at == now,
            r.expires_at == now + crate::policy::session_duration_secs_spec(access_level)
                * MS_PER_SECOND,
            r.operations_count == 0,
            r.repos_accessed@.len() == 0,
    {
        let secs = access_level.session_duration_secs();
        SessionInfo {
            id,
            access_level,
            started_at: now,
            expires_at: now + secs * MS_PER_SECOND,
            operations_count: 0,
            repos_accessed: Vec::new(),
        }
    }

    /// A copy of this record.
    pub fn duplicate(&self) -> (r: SessionInfo)
        ensures
            r@ == self@,
    {
        let mut repos: Vec<String> = Vec::new();
        let mut i: usize = 0;
        while i < self.repos_accessed.len()
            invariant
                i <= self.repos_accessed@.len(),
                repos@ == self.repos_accessed@.subrange(0, i as int),
            decreases self.repos_accessed@.len() - i,
        {
            repos.push(self.repos_accessed[i].clone());
            i = i + 1;
            proof {
                assert(repos@ =~= self.repos_accessed@.subrange(0, i as int));
            }
        }
        assert(repos@ =~= self.repos_accessed@);
        assert(repos@.map_values(|r: String| r@) =~= self@.repos);
        SessionInfo {
            id: self.id,
            access_level: self.access_level,
            started_at: self.started_at,
            expires_at: self.expires_at,
            operations_count: self.operations_count,
            repos_accessed: repos,
        }
    }

    /// Whether the session is live at `now`.
    pub fn is_active_at(&self, now: i64) -> (r: bool)
        ensures
            r == is_active_spec(self@, now),
    {
        now < self.expires_at
    }

    /// Whether the session is live now, by the wall clock.
    pub fn is_active(&self) -> (r: bool)
        ensures
            r ==> self.expires_at > i64::MIN,
    {
        self.is_active_at(now_millis())
    }

    /// Whole seconds left before expiry now, by the wall clock; never
    /// negative.
    pub fn remaining_seconds(&self) -> (r: i64)
        ensures
            r >= 0,
    {
        self.remaining_seconds_at(now_millis())
    }

    /// Whole seconds left before expiry at `now`, never negative.
    pub fn remaining_seconds_at(&self, now: i64) -> (r: i64)
        ensures
            r == remaining_seconds_spec(self@, now),
    {
        if now < self.expires_at {
            let diff: i128 = self.expires_at as i128 - now as i128;
            (diff / (MS_PER_SECOND as i128)) as i64
        } else {
            0
        }
    }

    /// Whether the session has already touched `repo`.
    pub fn has_accessed(&self, repo: &String) -> (r: bool)
        ensures
            r == self@.repos.contains(repo@),
    {
        let mut i: usize = 0;
        while i < self.repos_accessed.len()
            invariant
                i <= self.repos_accessed@.len(),
                forall|j: int| 0 <= j < i ==> self@.repos[j] != repo@,
            decreases self.repos_accessed@.len() - i,
        {
            if self.repos_accessed[i] == *repo {
                assert(self@.repos[i as int] == repo@);
                return true;
            }
            i = i + 1;
        }
        proof {
            assert forall|j: int| 0 <= j < self@.repos.len() implies self@.repos[j]
                != repo@ by {}
        }
        false
    }

    /// Runs the liveness and quota checks for one more operation on `repo`
    /// at `now` and, if they pass, counts it: the counter grows by one and
    /// `repo` joins the set if new.  Check and update form one step.
    pub fn record_operation_at(&mut self, repo: &str, now: i64) -> (r: Result<(), AccessDenied>)
        requires
            old(self).wf(),
        ensures
            final(self).wf(),
            r == record_outcome_spec(old(self)@, repo@, now),
            r is Err ==> final(self)@ == old(self)@,
            r is Ok ==> final(self)@ == after_operation_spec(old(self)@, repo@),
    {
        if !self.is_active_at(now) {
            return Err(AccessDenied::Expired);
        }
        let repo_owned: String = repo.to_owned();
        let known = self.has_accessed(&repo_owned);
        match check_access(
            self.access_level,
            self.operations_count,
            self.repos_accessed.len(),
            !known,
        ) {
            Err(v) => {
                return Err(AccessDenied::Quota(self.access_level, v));
            },
            Ok(()) => {},
        }
        if self.operations_count == u64::MAX {
            return Err(AccessDenied::CounterExhausted);
        }
        self.operations_count = self.operations_count + 1;
        if !known {
            let ghost before = self@.repos;
            self.repos_accessed.push(repo_owned);
            proof {
                assert(self@.repos =~= before.push(repo@));
                assert forall|i: int, j: int|
                    0 <= i < self@.repos.len() && 0 <= j < self@.repos.len() && i
                        != j implies self@.repos[i] != self@.repos[j] by {
                    if i < before.len() && j < before.len() {
                    } else if i == before.len() {
                        assert(before[j] == self@.repos[j]);
                    } else {
                        assert(before[i] == self@.repos[i]);
                    }
                }
            }
        }
        Ok(())
    }
}

} // verus!
