//! Per-operation timing.

use vstd::prelude::*;
use std::time::Instant;
use crate::clock::{elapsed_nanos, instant_now};
use crate::config::AgentConfig;
use crate::error::AgentError;

verus! {

/// One timed run of an operation.
#[derive(Debug, Clone, PartialEq, Eq)]
pub struct PerformanceMetrics {
    pub operation: String,
    pub duration_nanos: u64,
    pub memory_used: u64,
}

/// Sum of a sequence of durations.
pub open spec fn sum_spec(s: Seq<u64>) -> nat
    decreases s.len(),
{
    if s.len() == 0 {
        0
    } else {
        sum_spec(s.drop_last()) + (s.last() as nat)
    }
}

/// The durations of the runs of one operation, in recording order.
pub open spec fn durations_of_spec(s: Seq<PerformanceMetrics>, operation: Seq<char>) -> Seq<u64>
    decreases s.len(),
{
    if s.len() == 0 {
        Seq::empty()
    } else if s.last().operation@ == operation {
        durations_of_spec(s.drop_last(), operation).push(s.last().duration_nanos)
    } else {
        durations_of_spec(s.drop_last(), operation)
    }
}

proof fn lemma_sum_bound(s: Seq<u64>)
    ensures
        sum_spec(s) <= s.len() * (u64::MAX as nat),
    decreases s.len(),
{
    if s.len() > 0 {
        lemma_sum_bound(s.drop_last());
        assert(sum_spec(s.drop_last()) + (s.last() as nat) <= s.len() * (u64::MAX as nat)) by (
        nonlinear_arith)
            requires
                sum_spec(s.drop_last()) <= s.drop_last().len() * (u64::MAX as nat),
                s.last() <= u64::MAX,
                s.drop_last().len() + 1 == s.len(),
        ;
    }
}

/// The mean of `s`, rounded down.
pub fn mean_nanos(s: &Vec<u64>) -> (r: u64)
    requires
        s@.len() > 0,
    ensures
        r == sum_spec(s@) / s@.len(),
{
    let mut total: u128 = 0;
    let mut i: usize = 0;
    while i < s.len()
        invariant
            i <= s@.len(),
            total == sum_spec(s@.subrange(0, i as int)),
        decreases s@.len() - i,
    {
        proof {
            let p = s@.subrange(0, i as int + 1);
            assert(p.drop_last() =~= s@.subrange(0, i as int));
            lemma_sum_bound(p);
            assert(p.len() * (u64::MAX as nat) <= u128::MAX) by (nonlinear_arith)
                requires
                    p.len() <= usize::MAX,
            ;
        }
        total = total + s[i] as u128;
        i = i + 1;
    }
    assert(s@.subrange(0, s@.len() as int) =~= s@);
    proof {
        lemma_sum_bound(s@);
        let n = s@.len();
        let t = sum_spec(s@);
        assert(t / n <= u64::MAX) by (nonlinear_arith)
            requires
                n > 0,
                t <= n * (u64::MAX as nat),
        ;
    }
    (total / (s.len() as u128)) as u64
}

/// Timings kept per operation name.
pub struct PerformanceMonitor {
    config: AgentConfig,
    metrics: Vec<PerformanceMetrics>,
}

impl View for PerformanceMonitor {
    type V = Seq<PerformanceMetrics>;

    closed spec fn view(&self) -> Seq<PerformanceMetrics> {
        self.metrics@
    }
}

impl PerformanceMonitor {
    /// A monitor with no timings; never fails.
    pub fn new(config: &AgentConfig) -> (r: Result<PerformanceMonitor, AgentError>)
        ensures
            r is Ok,
            r is Ok ==> r->Ok_0@ == Seq::<PerformanceMetrics>::empty(),
    {
        Ok(PerformanceMonitor { config: config.clone(), metrics: Vec::new() })
    }

    /// A timer for `operation`, started now.
    pub fn start_timing(&self, operation: &str) -> (r: PerformanceTimer)
        ensures
            r.operation()@ == operation@,
    {
        PerformanceTimer { operation: operation.to_owned(), start_time: instant_now() }
    }

    /// Keeps `metric` under its operation name.
    pub fn record_metric(&mut self, metric: PerformanceMetrics)
        ensures
            final(self)@ == old(self)@.push(metric),
    {
        self.metrics.push(metric);
    }

    /// Mean duration of the runs of `operation`, rounded down; `None` when
    /// none was recorded.
    pub fn get_average_duration(&self, operation: &str) -> (r: Option<u64>)
        ensures
            r is None == (durations_of_spec(self@, operation@).len() == 0),
            r is Some ==> r->0 == sum_spec(durations_of_spec(self@, operation@)) / durations_of_spec(
                self@,
                operation@,
            ).len(),
    {
        let name: String = operation.to_owned();
        let mut durations: Vec<u64> = Vec::new();
        let mut i: usize = 0;
        while i < self.metrics.len()
            invariant
                i <= self@.len(),
                name@ == operation@,
                durations@ == durations_of_spec(self@.subrange(0, i as int), operation@),
            decreases self@.len() - i,
        {
            proof {
                let p = self@.subrange(0, i as int + 1);
                assert(p.drop_last() =~= self@.subrange(0, i as int));
            }
            if self.metrics[i].operation == name {
                durations.push(self.metrics[i].duration_nanos);
            }
            i = i + 1;
        }
        assert(self@.subrange(0, self@.len() as int) =~= self@);
        if durations.len() == 0 {
            None
        } else {
            Some(mean_nanos(&durations))
        }
    }
}

/// A running timing of one operation.
pub struct PerformanceTimer {
    operation: String,
    start_time: Instant,
}

impl PerformanceTimer {
    /// The operation being timed.
    pub closed spec fn operation(&self) -> String {
        self.operation
    }

    /// Stops the timer: the metric names the operation and holds the
    /// elapsed time; no memory figure is measured.
    pub fn finish(self) -> (r: PerformanceMetrics)
        ensures
            r.operation == self.operation(),
            r.memory_used == 0,
    {
        let duration_nanos = elapsed_nanos(&self.start_time);
        PerformanceMetrics { operation: self.operation, duration_nanos, memory_used: 0 }
    }
}

} // verus!
