//! The bounded log of operation outcomes and the statistics derived from it.

use vstd::prelude::*;

verus! {

/// Length above which the log is compacted.
pub const METRICS_CAPACITY: usize = 10000;

/// Number of oldest entries dropped by one compaction.
pub const METRICS_EVICTION: usize = 1000;

/// The outcome of one operation.  `timestamp` is in milliseconds since the
/// Unix epoch, `duration_nanos` in nanoseconds.
#[derive(Debug, Clone, PartialEq, Eq)]
pub struct OperationMetric {
    pub operation: String,
    pub duration_nanos: u64,
    pub timestamp: i64,
    pub success: bool,
    pub session_id: u128,
}

/// `m` is the metric named `name` with these fields.
pub open spec fn metric_fields_spec(
    m: OperationMetric,
    name: Seq<char>,
    success: bool,
    duration_nanos: u64,
    now: i64,
    session_id: u128,
) -> bool {
    &&& m.operation@ == name
    &&& m.success == success
    &&& m.duration_nanos == duration_nanos
    &&& m.timestamp == now
    &&& m.session_id == session_id
}

/// Name under which a successful contribution is recorded.
pub open spec fn contribution_name_spec() -> Seq<char> {
    "smart_contribution"@
}

impl OperationMetric {
    /// The metric of a successful contribution in `session_id`.
    pub fn contribution(session_id: u128, duration_nanos: u64, now: i64) -> (r: OperationMetric)
        ensures
            metric_fields_spec(r, contribution_name_spec(), true, duration_nanos, now, session_id),
    {
        OperationMetric {
            operation: "smart_contribution".to_owned(),
            duration_nanos,
            timestamp: now,
            success: true,
            session_id,
        }
    }
}

/// Aggregate figures over the metric log and the session store.
#[derive(Debug, Clone, Copy, PartialEq, Eq, Structural)]
pub struct AgentStatistics {
    pub total_operations: usize,
    pub successful_operations: usize,
    pub average_duration_nanos: u64,
    pub active_sessions: usize,
}

/// The log after appending `m`: when it then holds more than
/// `METRICS_CAPACITY` entries, the oldest `METRICS_EVICTION` go.
pub open spec fn record_spec(log: Seq<OperationMetric>, m: OperationMetric) -> Seq<OperationMetric> {
    let l = log.push(m);
    if l.len() > METRICS_CAPACITY {
        l.subrange(METRICS_EVICTION as int, l.len() as int)
    } else {
        l
    }
}

/// The log after recording each of `ms` in turn.
pub open spec fn record_all_spec(log: Seq<OperationMetric>, ms: Seq<OperationMetric>) -> Seq<
    OperationMetric,
>
    decreases ms.len(),
{
    if ms.len() == 0 {
        log
    } else {
        record_spec(record_all_spec(log, ms.drop_last()), ms.last())
    }
}

/// Number of successful entries.
pub open spec fn success_count_spec(s: Seq<OperationMetric>) -> nat
    decreases s.len(),
{
    if s.len() == 0 {
        0
    } else {
        success_count_spec(s.drop_last()) + if s.last().success {
            1nat
        } else {
            0nat
        }
    }
}

/// Sum of the durations, in nanoseconds.
pub open spec fn total_duration_spec(s: Seq<OperationMetric>) -> nat
    decreases s.len(),
{
    if s.len() == 0 {
        0
    } else {
        total_duration_spec(s.drop_last()) + (s.last().duration_nanos as nat)
    }
}

/// Mean duration, rounded down; zero for no entries.
pub open spec fn average_duration_spec(s: Seq<OperationMetric>) -> nat {
    if s.len() == 0 {
        0
    } else {
        total_duration_spec(s) / s.len()
    }
}

/// The entries of one operation kind, in log order.
pub open spec fn entries_of_spec(s: Seq<OperationMetric>, operation: Seq<char>) -> Seq<
    OperationMetric,
>
    decreases s.len(),
{
    if s.len() == 0 {
        Seq::empty()
    } else if s.last().operation@ == operation {
        entries_of_spec(s.drop_last(), operation).push(s.last())
    } else {
        entries_of_spec(s.drop_last(), operation)
    }
}

proof fn lemma_success_count_bound(s: Seq<OperationMetric>)
    ensures
        success_count_spec(s) <= s.len(),
    decreases s.len(),
{
    if s.len() > 0 {
        lemma_success_count_bound(s.drop_last());
    }
}

proof fn lemma_total_duration_bound(s: Seq<OperationMetric>)
    ensures
        total_duration_spec(s) <= s.len() * (u64::MAX as nat),
    decreases s.len(),
{
    if s.len() > 0 {
        lemma_total_duration_bound(s.drop_last());
        assert(total_duration_spec(s) <= s.drop_last().len() * (u64::MAX as nat) + u64::MAX) by (
        nonlinear_arith)
            requires
                total_duration_spec(s) == total_duration_spec(s.drop_last())
                    + s.last().duration_nanos,
                total_duration_spec(s.drop_last()) <= s.drop_last().len() * (u64::MAX as nat),
                s.last().duration_nanos <= u64::MAX,
        ;
        assert(s.drop_last().len() * (u64::MAX as nat) + u64::MAX == s.len() * (u64::MAX as nat))
            by (nonlinear_arith)
            requires
                s.drop_last().len() + 1 == s.len(),
        ;
    }
}

proof fn lemma_average_fits(total: nat, n: nat)
    requires
        n > 0,
        total <= n * (u64::MAX as nat),
    ensures
        total / n <= u64::MAX,
{
    assert(total / n <= u64::MAX) by (nonlinear_arith)
        requires
            n > 0,
            total <= n * (u64::MAX as nat),
    ;
}

/// Sum of the durations of `s`, in nanoseconds, with the mean.
fn duration_totals(s: &Vec<OperationMetric>) -> (r: (u128, u64))
    requires
        s@.len() > 0,
    ensures
        r.0 == total_duration_spec(s@),
        r.1 == average_duration_spec(s@),
{
    let mut total: u128 = 0;
    let mut i: usize = 0;
    while i < s.len()
        invariant
            i <= s@.len(),
            total == total_duration_spec(s@.subrange(0, i as int)),
        decreases s@.len() - i,
    {
        proof {
            let p = s@.subrange(0, i as int + 1);
            assert(p.drop_last() =~= s@.subrange(0, i as int));
            lemma_total_duration_bound(p);
            assert(p.len() * (u64::MAX as nat) <= u128::MAX) by (nonlinear_arith)
                requires
                    p.len() <= usize::MAX,
            ;
        }
        total = total + s[i].duration_nanos as u128;
        i = i + 1;
    }
    assert(s@.subrange(0, s@.len() as int) =~= s@);
    proof {
        lemma_total_duration_bound(s@);
        lemma_average_fits(total_duration_spec(s@), s@.len());
    }
    let avg = (total / (s.len() as u128)) as u64;
    (total, avg)
}

/// Number of successful entries of `s`.
fn count_successes(s: &Vec<OperationMetric>) -> (r: usize)
    ensures
        r == success_count_spec(s@),
{
    let mut count: usize = 0;
    let mut i: usize = 0;
    while i < s.len()
        invariant
            i <= s@.len(),
            count == success_count_spec(s@.subrange(0, i as int)),
        decreases s@.len() - i,
    {
        proof {
            let p = s@.subrange(0, i as int + 1);
            assert(p.drop_last() =~= s@.subrange(0, i as int));
            lemma_success_count_bound(p);
        }
        if s[i].success {
            count = count + 1;
        }
        i = i + 1;
    }
    assert(s@.subrange(0, s@.len() as int) =~= s@);
    count
}

/// The bounded, append-only log of operation outcomes.
pub struct MetricsLog {
    entries: Vec<OperationMetric>,
}

impl View for MetricsLog {
    type V = Seq<OperationMetric>;

    closed spec fn view(&self) -> Seq<OperationMetric> {
        self.entries@
    }
}

impl MetricsLog {
    /// The log never holds more than `METRICS_CAPACITY` entries.
    pub open spec fn wf(&self) -> bool {
        self@.len() <= METRICS_CAPACITY
    }

    /// An empty log.
    pub fn new() -> (r: MetricsLog)
        ensures
            r.wf(),
            r@ == Seq::<OperationMetric>::empty(),
    {
        MetricsLog { entries: Vec::new() }
    }

    /// Number of entries.
    pub fn len(&self) -> (r: usize)
        ensures
            r == self@.len(),
    {
        self.entries.len()
    }

    /// The entry at `index`, oldest first.
    pub fn entry(&self, index: usize) -> (r: &OperationMetric)
        requires
            index < self@.len(),
        ensures
            *r == self@[index as int],
    {
        &self.entries[index]
    }

    /// Appends `metric`; past `METRICS_CAPACITY` entries the oldest
    /// `METRICS_EVICTION` are dropped in one pass.
    pub fn record(&mut self, metric: OperationMetric)
        requires
            old(self).wf(),
        ensures
            final(self).wf(),
            final(self)@ == record_spec(old(self)@, metric),
    {
        self.entries.push(metric);
        if self.entries.len() > METRICS_CAPACITY {
            let tail = self.entries.split_off(METRICS_EVICTION);
            self.entries = tail;
        }
    }

    /// Counts and mean duration over the log; `active_sessions` is passed
    /// through.  An empty log gives zero counts and a zero mean.
    pub fn statistics(&self, active_sessions: usize) -> (r: AgentStatistics)
        ensures
            r.total_operations == self@.len(),
            r.successful_operations == success_count_spec(self@),
            r.average_duration_nanos == average_duration_spec(self@),
            r.active_sessions == active_sessions,
            self@.len() == 0 ==> r.total_operations == 0 && r.successful_operations == 0
                && r.average_duration_nanos == 0,
    {
        let total_operations = self.entries.len();
        let successful_operations = count_successes(&self.entries);
        let average_duration_nanos = if total_operations == 0 {
            0
        } else {
            duration_totals(&self.entries).1
        };
        AgentStatistics {
            total_operations,
            successful_operations,
            average_duration_nanos,
            active_sessions,
        }
    }

    /// Mean duration of the entries of one operation kind, rounded down;
    /// `None` when the log holds none of that kind.
    pub fn average_duration(&self, operation: &str) -> (r: Option<u64>)
        ensures
            r is None == (entries_of_spec(self@, operation@).len() == 0),
            r is Some ==> r->0 == average_duration_spec(entries_of_spec(self@, operation@)),
    {
        let name: String = operation.to_owned();
        let mut matching: Vec<OperationMetric> = Vec::new();
        let mut i: usize = 0;
        while i < self.entries.len()
            invariant
                i <= self@.len(),
                name@ == operation@,
                matching@ == entries_of_spec(self@.subrange(0, i as int), operation@),
            decreases self@.len() - i,
        {
            let m = &self.entries[i];
            proof {
                let p = self@.subrange(0, i as int + 1);
                assert(p.drop_last() =~= self@.subrange(0, i as int));
            }
            if m.operation == name {
                matching.push(copy_metric(m));
            }
            i = i + 1;
        }
        assert(self@.subrange(0, self@.len() as int) =~= self@);
        if matching.len() == 0 {
            None
        } else {
            Some(duration_totals(&matching).1)
        }
    }
}

/// A copy of `m`.
fn copy_metric(m: &OperationMetric) -> (r: OperationMetric)
    ensures
        r == *m,
{
    OperationMetric {
        operation: m.operation.clone(),
        duration_nanos: m.duration_nanos,
        timestamp: m.timestamp,
        success: m.success,
        session_id: m.session_id,
    }
}

proof fn lemma_record_all_below_capacity(ms: Seq<OperationMetric>)
    requires
        ms.len() <= METRICS_CAPACITY,
    ensures
        record_all_spec(Seq::empty(), ms) == ms,
    decreases ms.len(),
{
    if ms.len() > 0 {
        lemma_record_all_below_capacity(ms.drop_last());
        assert(ms.drop_last().push(ms.last()) =~= ms);
    }
}

/// Recording `METRICS_CAPACITY + 1` entries into an empty log triggers one
/// compaction: at most `METRICS_CAPACITY - METRICS_EVICTION + 1` entries
/// remain, and the oldest of them is the one recorded right after the first
/// `METRICS_EVICTION`.
pub proof fn lemma_compaction_after_overflow(ms: Seq<OperationMetric>)
    requires
        ms.len() == METRICS_CAPACITY + 1,
    ensures
        record_all_spec(Seq::empty(), ms).len() <= METRICS_CAPACITY - METRICS_EVICTION + 1,
        record_all_spec(Seq::empty(), ms)[0] == ms[METRICS_EVICTION as int],
        record_all_spec(Seq::empty(), ms) == ms.subrange(METRICS_EVICTION as int, ms.len() as int),
{
    lemma_record_all_below_capacity(ms.drop_last());
    assert(ms.drop_last().push(ms.last()) =~= ms);
}

/// Whatever is recorded, the log stays within `METRICS_CAPACITY` entries.
pub proof fn lemma_log_stays_bounded(log: Seq<OperationMetric>, ms: Seq<OperationMetric>)
    requires
        log.len() <= METRICS_CAPACITY,
    ensures
        record_all_spec(log, ms).len() <= METRICS_CAPACITY,
    decreases ms.len(),
{
    if ms.len() > 0 {
        lemma_log_stays_bounded(log, ms.drop_last());
    }
}

} // verus!
