//! The agent: sessions, quota checks, the operation queue and the metric
//! log behind one entry point.

use vstd::prelude::*;
use crate::clock::{fresh_id, now_millis, CLOCK_MAX_MS};
use crate::config::AgentConfig;
use crate::error::{denial_error_spec, AgentError, SessionError};
use crate::metrics::{
    average_duration_spec, contribution_name_spec, metric_fields_spec, record_spec,
    success_count_spec, AgentStatistics, MetricsLog, OperationMetric,
};
use crate::policy::{session_duration_secs_spec, AccessLevel, MAX_SESSION_LIFETIME_MS, MS_PER_SECOND};
use crate::queue::{operation_name_spec, session_of_spec, submit_spec, Operation, OperationQueue, QueueError};
use crate::session::{after_operation_spec, record_outcome_spec, SessionInfo, SessionView};
use crate::store::{live_ids_spec, SessionStore};

verus! {

/// The latest start time at which a session of any tier can be created.
pub open spec fn latest_start_spec() -> int {
    i64::MAX - MAX_SESSION_LIFETIME_MS
}

/// The model of a session of `level` created with `id` at `now`.
pub open spec fn new_session_spec(id: u128, level: AccessLevel, now: i64) -> SessionView {
    SessionView {
        id,
        access_level: level,
        started_at: now,
        expires_at: (now + session_duration_secs_spec(level) * MS_PER_SECOND) as i64,
        operations_count: 0,
        repos: Seq::empty(),
    }
}


/// The error that reports what the quota rule and the store say of one more
/// operation on `repo` in session `id` at `now`, if they refuse it.
pub open spec fn access_error_spec(
    sessions: Map<u128, SessionView>,
    id: u128,
    repo: Seq<char>,
    now: i64,
    r: Result<(), AgentError>,
) -> bool {
    if !sessions.contains_key(id) {
        r == Err::<(), AgentError>(AgentError::SessionError(SessionError::NotFound))
    } else {
        match record_outcome_spec(sessions[id], repo, now) {
            Ok(()) => r is Ok,
            Err(d) => r is Err && denial_error_spec(d, r->Err_0),
        }
    }
}

/// What checking and counting one more operation on `repo` in session `id`
/// at `now` does: the result `r`, and the store going from `before` to
/// `after`.  An expired session is removed; any other refusal changes
/// nothing.
pub open spec fn record_effect_spec(
    before: Map<u128, SessionView>,
    after: Map<u128, SessionView>,
    id: u128,
    repo: Seq<char>,
    now: i64,
    r: Result<(), AgentError>,
) -> bool {
    &&& access_error_spec(before, id, repo, now, r)
    &&& r is Ok ==> after == before.insert(id, after_operation_spec(before[id], repo))
    &&& r == Err::<(), AgentError>(AgentError::SessionError(SessionError::Expired)) ==> after
        == before.remove(id)
    &&& r is Err && r != Err::<(), AgentError>(AgentError::SessionError(SessionError::Expired))
        ==> after == before
}

/// The statistics over `log` and the sessions live at `now`.
pub open spec fn statistics_spec(
    log: Seq<OperationMetric>,
    sessions: Map<u128, SessionView>,
    now: i64,
    r: AgentStatistics,
) -> bool {
    &&& r.total_operations == log.len()
    &&& r.successful_operations == success_count_spec(log)
    &&& r.average_duration_nanos == average_duration_spec(log)
    &&& r.active_sessions == live_ids_spec(sessions, now).len()
}

/// Sessions, their quotas, the background queue and the metric log.
pub struct GitHubAgent {
    config: AgentConfig,
    sessions: SessionStore,
    metrics: MetricsLog,
    queue: OperationQueue,
}

impl GitHubAgent {
    /// The parts are well formed.
    pub closed spec fn wf(&self) -> bool {
        &&& self.sessions.wf()
        &&& self.metrics.wf()
        &&& self.queue.wf()
    }

    /// The stored sessions, keyed by identifier.
    pub closed spec fn sessions_view(&self) -> Map<u128, SessionView> {
        self.sessions@
    }

    /// The metric log, oldest first.
    pub closed spec fn metrics_view(&self) -> Seq<OperationMetric> {
        self.metrics@
    }

    /// The pending background operations, oldest first.
    pub closed spec fn queue_view(&self) -> Seq<Operation> {
        self.queue@
    }

    /// An agent with no sessions, no metrics and no pending operations.
    pub fn new(config: AgentConfig) -> (r: GitHubAgent)
        ensures
            r.wf(),
            r.sessions_view() == Map::<u128, SessionView>::empty(),
            r.metrics_view() == Seq::<OperationMetric>::empty(),
            r.queue_view() == Seq::<Operation>::empty(),
            r.config_view() == config,
    {
        GitHubAgent {
            config,
            sessions: SessionStore::new(),
            metrics: MetricsLog::new(),
            queue: OperationQueue::new(),
        }
    }

    /// The configuration given at creation.
    pub closed spec fn config_view(&self) -> AgentConfig {
        self.config
    }

    /// The configuration.
    pub fn config(&self) -> (r: &AgentConfig)
        ensures
            *r == self.config_view(),
    {
        &self.config
    }

    /// Creates and stores a session of `level` with identifier `id`,
    /// started at `now`.  An identifier already in use, or a start so late
    /// that the expiry would not be representable, is an internal error.
    pub fn create_session_at(&mut self, access_level: AccessLevel, id: u128, now: i64) -> (r:
        Result<SessionInfo, AgentError>)
        requires
            old(self).wf(),
        ensures
            final(self).wf(),
            r is Ok == (now <= latest_start_spec() && !old(self).sessions_view().contains_key(id)),
            r is Ok ==> r->Ok_0@ == new_session_spec(id, access_level, now) && r->Ok_0.wf()
                && final(self).sessions_view() == old(self).sessions_view().insert(id, r->Ok_0@),
            r is Err ==> r->Err_0 is InternalError && final(self).sessions_view() == old(
                self,
            ).sessions_view(),
            final(self).metrics_view() == old(self).metrics_view(),
            final(self).queue_view() == old(self).queue_view(),
    {
        if now > i64::MAX - MAX_SESSION_LIFETIME_MS {
            return Err(AgentError::InternalError("session start out of range".to_owned()));
        }
        if self.sessions.get(id).is_some() {
            return Err(AgentError::InternalError("session id in use".to_owned()));
        }
        let session = SessionInfo::new_at(id, access_level, now);
        assert(session@.repos =~= Seq::<Seq<char>>::empty());
        let copy = session.duplicate();
        self.sessions.insert(session);
        Ok(copy)
    }

    /// Creates and stores a session of `level` under an identifier not in
    /// use, starting now; never fails.  The identifier is random; should it
    /// be taken, the smallest free one is used instead.
    pub fn create_demo_session(&mut self, access_level: AccessLevel) -> (r: Result<
        SessionInfo,
        AgentError,
    >)
        requires
            old(self).wf(),
        ensures
            final(self).wf(),
            r is Ok,
            r->Ok_0@ == new_session_spec(r->Ok_0.id, access_level, r->Ok_0.started_at),
            r->Ok_0.wf(),
            0 <= r->Ok_0.started_at <= CLOCK_MAX_MS,
            !old(self).sessions_view().contains_key(r->Ok_0.id),
            final(self).sessions_view() == old(self).sessions_view().insert(
                r->Ok_0.id,
                r->Ok_0@,
            ),
            final(self).metrics_view() == old(self).metrics_view(),
            final(self).queue_view() == old(self).queue_view(),
    {
        let drawn = fresh_id();
        let id = if self.sessions.get(drawn).is_some() {
            self.sessions.unused_id()
        } else {
            drawn
        };
        let now = now_millis();
        self.create_session_at(access_level, id, now)
    }

    /// A copy of session `id`, if it is stored.
    pub fn get_session_info(&self, session_id: u128) -> (r: Option<SessionInfo>)
        requires
            self.wf(),
        ensures
            r is Some == self.sessions_view().contains_key(session_id),
            r is Some ==> r->0@ == self.sessions_view()[session_id],
    {
        self.sessions.get(session_id)
    }

    /// Removes session `id`; does nothing if it is absent.
    pub fn remove_session(&mut self, session_id: u128)
        requires
            old(self).wf(),
        ensures
            final(self).wf(),
            final(self).sessions_view() == old(self).sessions_view().remove(session_id),
            final(self).metrics_view() == old(self).metrics_view(),
            final(self).queue_view() == old(self).queue_view(),
    {
        self.sessions.remove(session_id);
    }

    /// Checks, without counting it, whether one more operation on `repo`
    /// may run in session `id` at `now`.
    pub fn validate_session_at(&self, session_id: u128, repo: &str, now: i64) -> (r: Result<
        (),
        AgentError,
    >)
        requires
            self.wf(),
        ensures
            access_error_spec(self.sessions_view(), session_id, repo@, now, r),
    {
        match self.sessions.get(session_id) {
            None => Err(AgentError::SessionError(SessionError::NotFound)),
            Some(mut session) => {
                match session.record_operation_at(repo, now) {
                    Ok(()) => Ok(()),
                    Err(d) => Err(d.to_agent_error()),
                }
            },
        }
    }

    /// Checks, without counting it, whether one more operation on `repo`
    /// may run in session `id` now.
    pub fn validate_session(&self, session_id: u128, repo: &str) -> (r: Result<(), AgentError>)
        requires
            self.wf(),
        ensures
            exists|now: i64| #[trigger]
                access_error_spec(self.sessions_view(), session_id, repo@, now, r),
    {
        let now = now_millis();
        let r = self.validate_session_at(session_id, repo, now);
        assert(access_error_spec(self.sessions_view(), session_id, repo@, now, r));
        r
    }

    /// Checks and counts one more operation on `repo` in session `id` at
    /// `now`, as one step.  A session found expired is removed.
    pub fn record_operation_at(&mut self, session_id: u128, repo: &str, now: i64) -> (r: Result<
        (),
        AgentError,
    >)
        requires
            old(self).wf(),
        ensures
            final(self).wf(),
            record_effect_spec(
                old(self).sessions_view(),
                final(self).sessions_view(),
                session_id,
                repo@,
                now,
                r,
            ),
            final(self).metrics_view() == old(self).metrics_view(),
            final(self).queue_view() == old(self).queue_view(),
    {
        match self.sessions.record_operation_at(session_id, repo, now) {
            Ok(()) => Ok(()),
            Err(d) => Err(d.to_agent_error()),
        }
    }

    /// Checks and counts one more operation on `repo` in session `id` now.
    pub fn record_operation(&mut self, session_id: u128, repo: &str) -> (r: Result<(), AgentError>)
        requires
            old(self).wf(),
        ensures
            final(self).wf(),
            exists|now: i64| #[trigger]
                record_effect_spec(
                    old(self).sessions_view(),
                    final(self).sessions_view(),
                    session_id,
                    repo@,
                    now,
                    r,
                ),
            final(self).metrics_view() == old(self).metrics_view(),
            final(self).queue_view() == old(self).queue_view(),
    {
        let now = now_millis();
        let r = self.record_operation_at(session_id, repo, now);
        assert(record_effect_spec(
            old(self).sessions_view(),
            self.sessions_view(),
            session_id,
            repo@,
            now,
            r,
        ));
        r
    }

    /// Appends a metric to the bounded log.
    pub fn record_metric(&mut self, metric: OperationMetric)
        requires
            old(self).wf(),
        ensures
            final(self).wf(),
            final(self).metrics_view() == record_spec(old(self).metrics_view(), metric),
            final(self).sessions_view() == old(self).sessions_view(),
            final(self).queue_view() == old(self).queue_view(),
    {
        self.metrics.record(metric);
    }

    /// Counts and mean duration over the metric log, with the number of
    /// sessions live at `now`.
    pub fn get_statistics_at(&self, now: i64) -> (r: AgentStatistics)
        requires
            self.wf(),
        ensures
            statistics_spec(self.metrics_view(), self.sessions_view(), now, r),
    {
        let n = self.sessions.count_live_at(now);
        self.metrics.statistics(n)
    }

    /// Counts and mean duration over the metric log, with the number of
    /// sessions live now.
    pub fn get_statistics(&self) -> (r: AgentStatistics)
        requires
            self.wf(),
        ensures
            exists|now: i64| #[trigger]
                statistics_spec(self.metrics_view(), self.sessions_view(), now, r),
    {
        let now = now_millis();
        let r = self.get_statistics_at(now);
        assert(statistics_spec(self.metrics_view(), self.sessions_view(), now, r));
        r
    }

    /// Queues a background operation, or refuses it when the queue is full.
    pub fn submit(&mut self, operation: Operation) -> (r: Result<(), QueueError>)
        requires
            old(self).wf(),
        ensures
            final(self).wf(),
            r is Ok == submit_spec(old(self).queue_view(), operation).1,
            r is Err ==> r == Err::<(), QueueError>(QueueError::Full),
            final(self).queue_view() == submit_spec(old(self).queue_view(), operation).0,
            final(self).sessions_view() == old(self).sessions_view(),
            final(self).metrics_view() == old(self).metrics_view(),
    {
        self.queue.submit(operation)
    }

    /// Takes the oldest pending background operation, if any.
    pub fn next_operation(&mut self) -> (r: Option<Operation>)
        requires
            old(self).wf(),
        ensures
            final(self).wf(),
            old(self).queue_view().len() == 0 ==> r is None && final(self).queue_view() == old(
                self,
            ).queue_view(),
            old(self).queue_view().len() > 0 ==> r == Some(old(self).queue_view()[0])
                && final(self).queue_view() == old(self).queue_view().drop_first(),
            final(self).sessions_view() == old(self).sessions_view(),
            final(self).metrics_view() == old(self).metrics_view(),
    {
        self.queue.next()
    }

    /// Records the outcome of a background operation, finished at `now`,
    /// as one metric; a failed collaborator call becomes a failed entry.
    pub fn complete_operation_at(
        &mut self,
        operation: &Operation,
        success: bool,
        duration_nanos: u64,
        now: i64,
    )
        requires
            old(self).wf(),
        ensures
            final(self).wf(),
            exists|m: OperationMetric| #[trigger]
                metric_fields_spec(
                    m,
                    operation_name_spec(*operation),
                    success,
                    duration_nanos,
                    now,
                    session_of_spec(*operation),
                ) && final(self).metrics_view() == record_spec(old(self).metrics_view(), m),
            final(self).sessions_view() == old(self).sessions_view(),
            final(self).queue_view() == old(self).queue_view(),
    {
        let metric = operation.outcome_metric(success, duration_nanos, now);
        let ghost m = metric;
        self.metrics.record(metric);
        assert(metric_fields_spec(
            m,
            operation_name_spec(*operation),
            success,
            duration_nanos,
            now,
            session_of_spec(*operation),
        ));
    }

    /// Records the outcome of a background operation, finished now.
    pub fn complete_operation(&mut self, operation: &Operation, success: bool, duration_nanos: u64)
        requires
            old(self).wf(),
        ensures
            final(self).wf(),
            exists|m: OperationMetric| #[trigger]
                metric_fields_spec(
                    m,
                    operation_name_spec(*operation),
                    success,
                    duration_nanos,
                    m.timestamp,
                    session_of_spec(*operation),
                ) && final(self).metrics_view() == record_spec(old(self).metrics_view(), m),
            final(self).sessions_view() == old(self).sessions_view(),
            final(self).queue_view() == old(self).queue_view(),
    {
        let now = now_millis();
        self.complete_operation_at(operation, success, duration_nanos, now);
    }

    /// Records a successful contribution in `session_id`, finished at `now`.
    pub fn record_contribution_at(&mut self, session_id: u128, duration_nanos: u64, now: i64)
        requires
            old(self).wf(),
        ensures
            final(self).wf(),
            exists|m: OperationMetric| #[trigger]
                metric_fields_spec(
                    m,
                    contribution_name_spec(),
                    true,
                    duration_nanos,
                    now,
                    session_id,
                ) && final(self).metrics_view() == record_spec(old(self).metrics_view(), m),
            final(self).sessions_view() == old(self).sessions_view(),
            final(self).queue_view() == old(self).queue_view(),
    {
        let metric = OperationMetric::contribution(session_id, duration_nanos, now);
        let ghost m = metric;
        self.metrics.record(metric);
        assert(metric_fields_spec(m, contribution_name_spec(), true, duration_nanos, now, session_id));
    }

    /// Records a successful contribution in `session_id`, finished now.
    pub fn record_contribution(&mut self, session_id: u128, duration_nanos: u64)
        requires
            old(self).wf(),
        ensures
            final(self).wf(),
            exists|m: OperationMetric| #[trigger]
                metric_fields_spec(
                    m,
                    contribution_name_spec(),
                    true,
                    duration_nanos,
                    m.timestamp,
                    session_id,
                ) && final(self).metrics_view() == record_spec(old(self).metrics_view(), m),
            final(self).sessions_view() == old(self).sessions_view(),
            final(self).queue_view() == old(self).queue_view(),
    {
        let now = now_millis();
        self.record_contribution_at(session_id, duration_nanos, now);
    }
}

} // verus!
