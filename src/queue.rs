//! Operations, the bounded FIFO that holds them until the consumer takes
//! them, and the consumer's per-operation decisions.

use vstd::prelude::*;
use std::collections::VecDeque;
use crate::metrics::OperationMetric;

verus! {

/// Number of operations the queue holds before it refuses more.
pub const QUEUE_CAPACITY: usize = 1000;

/// A background operation on one repository, owned by one session.
#[derive(Debug, Clone, PartialEq, Eq)]
pub enum Operation {
    SmartCommit { repo: String, message: Option<String>, session_id: u128 },
    AnalyzeRepo { repo: String, session_id: u128 },
    SyncRepo { repo: String, session_id: u128 },
    HealthCheck { repo: String, session_id: u128 },
}

/// Why an operation was not queued.
#[derive(Debug, Clone, Copy, PartialEq, Eq, Structural)]
pub enum QueueError {
    /// The queue holds `QUEUE_CAPACITY` operations.
    Full,
}

/// The outside service that carries out an operation.
#[derive(Debug, Clone, Copy, PartialEq, Eq, Structural)]
pub enum Collaborator {
    Analyzer,
    Automation,
    Git,
}

/// The name under which an operation's outcome is recorded.
pub open spec fn operation_name_spec(op: Operation) -> Seq<char> {
    match op {
        Operation::SmartCommit { .. } => "smart_commit"@,
        Operation::AnalyzeRepo { .. } => "analyze_repo"@,
        Operation::SyncRepo { .. } => "sync_repo"@,
        Operation::HealthCheck { .. } => "health_check"@,
    }
}

/// The session that owns an operation.
pub open spec fn session_of_spec(op: Operation) -> u128 {
    match op {
        Operation::SmartCommit { session_id, .. } => session_id,
        Operation::AnalyzeRepo { session_id, .. } => session_id,
        Operation::SyncRepo { session_id, .. } => session_id,
        Operation::HealthCheck { session_id, .. } => session_id,
    }
}

/// The repository an operation works on.
pub open spec fn repo_of_spec(op: Operation) -> String {
    match op {
        Operation::SmartCommit { repo, .. } => repo,
        Operation::AnalyzeRepo { repo, .. } => repo,
        Operation::SyncRepo { repo, .. } => repo,
        Operation::HealthCheck { repo, .. } => repo,
    }
}

/// The collaborator that carries out an operation.
pub open spec fn collaborator_spec(op: Operation) -> Collaborator {
    match op {
        Operation::SmartCommit { .. } => Collaborator::Automation,
        Operation::AnalyzeRepo { .. } => Collaborator::Analyzer,
        Operation::SyncRepo { .. } => Collaborator::Git,
        Operation::HealthCheck { .. } => Collaborator::Analyzer,
    }
}

impl Operation {
    /// The name under which this operation's outcome is recorded.
    pub fn name(&self) -> (r: &'static str)
        ensures
            r@ == operation_name_spec(*self),
    {
        match self {
            Operation::SmartCommit { .. } => "smart_commit",
            Operation::AnalyzeRepo { .. } => "analyze_repo",
            Operation::SyncRepo { .. } => "sync_repo",
            Operation::HealthCheck { .. } => "health_check",
        }
    }

    /// The session that owns this operation.
    pub fn session_id(&self) -> (r: u128)
        ensures
            r == session_of_spec(*self),
    {
        match self {
            Operation::SmartCommit { session_id, .. } => *session_id,
            Operation::AnalyzeRepo { session_id, .. } => *session_id,
            Operation::SyncRepo { session_id, .. } => *session_id,
            Operation::HealthCheck { session_id, .. } => *session_id,
        }
    }

    /// The repository this operation works on.
    pub fn repo(&self) -> (r: &String)
        ensures
            *r == repo_of_spec(*self),
    {
        match self {
            Operation::SmartCommit { repo, .. } => repo,
            Operation::AnalyzeRepo { repo, .. } => repo,
            Operation::SyncRepo { repo, .. } => repo,
            Operation::HealthCheck { repo, .. } => repo,
        }
    }

    /// The collaborator that carries out this operation.
    pub fn collaborator(&self) -> (r: Collaborator)
        ensures
            r == collaborator_spec(*self),
    {
        match self {
            Operation::SmartCommit { .. } => Collaborator::Automation,
            Operation::AnalyzeRepo { .. } => Collaborator::Analyzer,
            Operation::SyncRepo { .. } => Collaborator::Git,
            Operation::HealthCheck { .. } => Collaborator::Analyzer,
        }
    }

    /// The metric that records this operation's outcome: a failure inside
    /// the collaborator becomes a failed entry, never an error.
    pub fn outcome_metric(&self, success: bool, duration_nanos: u64, now: i64) -> (r:
        OperationMetric)
        ensures
            r.operation@ == operation_name_spec(*self),
            r.duration_nanos == duration_nanos,
            r.timestamp == now,
            r.success == success,
            r.session_id == session_of_spec(*self),
    {
        OperationMetric {
            operation: self.name().to_owned(),
            duration_nanos,
            timestamp: now,
            success,
            session_id: self.session_id(),
        }
    }
}

/// The queue after offering `op`, and whether it was taken.
pub open spec fn submit_spec(q: Seq<Operation>, op: Operation) -> (Seq<Operation>, bool) {
    if q.len() < QUEUE_CAPACITY {
        (q.push(op), true)
    } else {
        (q, false)
    }
}

/// The queue after offering each of `ops` in turn, with no operation
/// taken out in between, and which offers were accepted.
pub open spec fn submit_all_spec(q: Seq<Operation>, ops: Seq<Operation>) -> (Seq<Operation>, Seq<
    bool,
>)
    decreases ops.len(),
{
    if ops.len() == 0 {
        (q, Seq::empty())
    } else {
        let (q1, acc) = submit_all_spec(q, ops.drop_last());
        let (q2, ok) = submit_spec(q1, ops.last());
        (q2, acc.push(ok))
    }
}

/// The bounded FIFO of pending operations.
pub struct OperationQueue {
    items: VecDeque<Operation>,
}

impl View for OperationQueue {
    type V = Seq<Operation>;

    closed spec fn view(&self) -> Seq<Operation> {
        self.items@
    }
}

impl OperationQueue {
    /// The queue never holds more than `QUEUE_CAPACITY` operations.
    pub open spec fn wf(&self) -> bool {
        self@.len() <= QUEUE_CAPACITY
    }

    /// An empty queue.
    pub fn new() -> (r: OperationQueue)
        ensures
            r.wf(),
            r@ == Seq::<Operation>::empty(),
    {
        OperationQueue { items: VecDeque::new() }
    }

    /// Number of pending operations.
    pub fn len(&self) -> (r: usize)
        ensures
            r == self@.len(),
    {
        self.items.len()
    }

    /// Enqueues `op` at the back, or refuses it with `QueueError::Full`
    /// when the queue is at capacity; nothing is dropped silently.
    pub fn submit(&mut self, op: Operation) -> (r: Result<(), QueueError>)
        requires
            old(self).wf(),
        ensures
            final(self).wf(),
            r is Ok == submit_spec(old(self)@, op).1,
            r is Err ==> r == Err::<(), QueueError>(QueueError::Full),
            final(self)@ == submit_spec(old(self)@, op).0,
    {
        if self.items.len() >= QUEUE_CAPACITY {
            Err(QueueError::Full)
        } else {
            self.items.push_back(op);
            Ok(())
        }
    }

    /// Takes the oldest pending operation, if any.
    pub fn next(&mut self) -> (r: Option<Operation>)
        requires
            old(self).wf(),
        ensures
            final(self).wf(),
            old(self)@.len() == 0 ==> r is None && final(self)@ == old(self)@,
            old(self)@.len() > 0 ==> r == Some(old(self)@[0]) && final(self)@ == old(
                self,
            )@.drop_first(),
    {
        self.items.pop_front()
    }
}

proof fn lemma_submit_all_under_capacity(ops: Seq<Operation>)
    requires
        ops.len() <= QUEUE_CAPACITY,
    ensures
        submit_all_spec(Seq::empty(), ops).0 == ops,
        submit_all_spec(Seq::empty(), ops).1 == Seq::new(ops.len(), |i: int| true),
    decreases ops.len(),
{
    if ops.len() > 0 {
        lemma_submit_all_under_capacity(ops.drop_last());
        assert(ops.drop_last().push(ops.last()) =~= ops);
        assert(Seq::new(ops.drop_last().len(), |i: int| true).push(true) =~= Seq::new(
            ops.len(),
            |i: int| true,
        ));
    }
}

/// Offered to an empty queue with no consumer, up to `QUEUE_CAPACITY`
/// operations are all accepted, in order; one more is refused.
pub proof fn lemma_queue_backpressure(ops: Seq<Operation>)
    ensures
        ops.len() <= QUEUE_CAPACITY ==> forall|i: int|
            0 <= i < ops.len() ==> #[trigger] submit_all_spec(Seq::empty(), ops).1[i],
        ops.len() <= QUEUE_CAPACITY ==> submit_all_spec(Seq::empty(), ops).0 == ops,
        ops.len() == QUEUE_CAPACITY + 1 ==> !submit_all_spec(Seq::empty(), ops).1[QUEUE_CAPACITY as int],
{
    if ops.len() <= QUEUE_CAPACITY {
        lemma_submit_all_under_capacity(ops);
    }
    if ops.len() == QUEUE_CAPACITY + 1 {
        lemma_submit_all_under_capacity(ops.drop_last());
    }
}

} // verus!
