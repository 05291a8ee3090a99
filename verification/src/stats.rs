//! Session statistics: what a worker has done since its counters were last
//! harvested.

use vstd::prelude::*;

verus! {

/// One finished operation, as the statistics see it.
pub struct Sample {
    /// The attempts that the operation took, retries included.
    pub attempts: u64,
    /// Whether the operation succeeded in the end.
    pub succeeded: bool,
    /// The time that the operation's attempts took together, in
    /// nanoseconds. The waits between attempts are not part of it.
    pub latency_nanos: u64,
}

/// Counters of a worker's operations. Every counter stops at the largest
/// 64-bit number instead of wrapping round.
#[derive(Clone, Copy, Debug, PartialEq, Eq, Structural)]
pub struct SessionStats {
    /// Operations recorded, whatever their outcome.
    pub operations: u64,
    /// Operations that succeeded.
    pub succeeded: u64,
    /// Operations that failed.
    pub failed: u64,
    /// Attempts made, over all operations.
    pub attempts: u64,
    /// The sum of the operations' latencies, in nanoseconds.
    pub latency_nanos: u64,
}

/// The sum of `a` and `b`, or the largest 64-bit number if the sum is larger.
pub open spec fn capped_sum(a: u64, b: u64) -> u64 {
    if a + b > u64::MAX {
        u64::MAX
    } else {
        (a + b) as u64
    }
}

/// The sum of `durations`.
pub open spec fn total(durations: Seq<u64>) -> nat
    decreases durations.len(),
{
    if durations.len() == 0 {
        0
    } else {
        total(durations.drop_last()) + durations.last() as nat
    }
}

/// What a counter that starts at zero holds after `durations` were added to
/// it one by one.
pub open spec fn capped_total(durations: Seq<u64>) -> u64
    decreases durations.len(),
{
    if durations.len() == 0 {
        0
    } else {
        capped_sum(capped_total(durations.drop_last()), durations.last())
    }
}

/// A counter that starts at zero holds the sum of what was added to it, or
/// the largest 64-bit number if the sum is larger: the latency of an
/// operation is the sum of the durations of its attempts.
pub proof fn lemma_capped_total(durations: Seq<u64>)
    ensures
        total(durations) <= u64::MAX ==> capped_total(durations) == total(durations),
        total(durations) > u64::MAX ==> capped_total(durations) == u64::MAX,
    decreases durations.len(),
{
    if durations.len() > 0 {
        lemma_capped_total(durations.drop_last());
    }
}

impl SessionStats {
    /// The statistics of a worker that has done nothing.
    pub open spec fn zero() -> SessionStats {
        SessionStats { operations: 0, succeeded: 0, failed: 0, attempts: 0, latency_nanos: 0 }
    }

    /// The statistics after one more operation.
    pub open spec fn with(self, sample: Sample) -> SessionStats {
        SessionStats {
            operations: capped_sum(self.operations, 1),
            succeeded: if sample.succeeded {
                capped_sum(self.succeeded, 1)
            } else {
                self.succeeded
            },
            failed: if sample.succeeded {
                self.failed
            } else {
                capped_sum(self.failed, 1)
            },
            attempts: capped_sum(self.attempts, sample.attempts),
            latency_nanos: capped_sum(self.latency_nanos, sample.latency_nanos),
        }
    }

    /// The statistics after the operations of `samples`, in their order.
    pub open spec fn with_all(self, samples: Seq<Sample>) -> SessionStats
        decreases samples.len(),
    {
        if samples.len() == 0 {
            self
        } else {
            self.with_all(samples.drop_last()).with(samples.last())
        }
    }

    /// What a harvest of these statistics hands out, and what it leaves
    /// behind: the counters as they are, and counters at zero.
    pub open spec fn harvested(self) -> (SessionStats, SessionStats) {
        (self, SessionStats::zero())
    }

    /// Statistics with every counter at zero.
    pub fn new() -> (s: SessionStats)
        ensures
            s == SessionStats::zero(),
    {
        SessionStats { operations: 0, succeeded: 0, failed: 0, attempts: 0, latency_nanos: 0 }
    }

    /// Sets every counter to zero.
    pub fn reset(&mut self)
        ensures
            *final(self) == SessionStats::zero(),
    {
        *self = SessionStats::new();
    }

    /// Counts one finished operation: once as an operation, whatever the
    /// number of its attempts, and its latency once.
    pub fn record(&mut self, sample: Sample)
        ensures
            *final(self) == old(self).with(sample),
    {
        self.operations = self.operations.saturating_add(1);
        if sample.succeeded {
            self.succeeded = self.succeeded.saturating_add(1);
        } else {
            self.failed = self.failed.saturating_add(1);
        }
        self.attempts = self.attempts.saturating_add(sample.attempts);
        self.latency_nanos = self.latency_nanos.saturating_add(sample.latency_nanos);
    }

    /// Hands out the counters and sets them to zero.
    pub fn take(&mut self) -> (snapshot: SessionStats)
        ensures
            (snapshot, *final(self)) == old(self).harvested(),
    {
        let snapshot = *self;
        self.reset();
        snapshot
    }
}

impl Default for SessionStats {
    fn default() -> (s: SessionStats)
        ensures
            s == SessionStats::zero(),
    {
        SessionStats::new()
    }
}

/// After `n` operations have been recorded on fresh statistics, the
/// statistics count `n` operations, each of them either as a success or as a
/// failure (as long as `n` fits in 64 bits; beyond that the counters stay at
/// their largest value).
pub proof fn lemma_operations_counted(samples: Seq<Sample>)
    ensures
        samples.len() <= u64::MAX ==> SessionStats::zero().with_all(samples).operations
            == samples.len(),
        samples.len() <= u64::MAX ==> SessionStats::zero().with_all(samples).succeeded
            + SessionStats::zero().with_all(samples).failed == samples.len(),
        samples.len() > u64::MAX ==> SessionStats::zero().with_all(samples).operations
            == u64::MAX,
    decreases samples.len(),
{
    if samples.len() > 0 {
        lemma_operations_counted(samples.drop_last());
    }
}

/// A harvest after `n` recorded operations hands out statistics that count
/// `n` operations (as long as `n` fits in 64 bits), and a second harvest
/// right after it hands out statistics at zero.
pub proof fn lemma_harvest(samples: Seq<Sample>)
    requires
        samples.len() <= u64::MAX,
    ensures
        SessionStats::zero().with_all(samples).harvested().0.operations == samples.len(),
        SessionStats::zero().with_all(samples).harvested().1.harvested().0 == SessionStats::zero(),
{
    lemma_operations_counted(samples);
}

} // verus!
