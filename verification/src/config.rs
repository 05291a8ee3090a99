//! The settings that a run hands to every worker.

use vstd::prelude::*;

verus! {

/// How long to wait before a retry.
#[derive(Clone, Copy, Debug, PartialEq, Eq)]
pub enum RetryInterval {
    /// The same delay before every retry, in milliseconds.
    Fixed(u64),
    /// A delay that starts at `min_ms` milliseconds, doubles with every
    /// further retry and never exceeds `max_ms`.
    Backoff { min_ms: u64, max_ms: u64 },
}

/// What the coordinator does with an iteration whose result failed its
/// row-count validation.
#[derive(Clone, Copy, Debug, PartialEq, Eq)]
pub enum ValidationStrategy {
    /// The run ends.
    FailFast,
    /// The failure is counted and the run goes on.
    Ignore,
}

/// Two to the power of `n`.
pub open spec fn pow2(n: nat) -> nat
    decreases n,
{
    if n == 0 {
        1
    } else {
        2 * pow2((n - 1) as nat)
    }
}

/// The smaller of two numbers.
pub open spec fn least(a: nat, b: nat) -> nat {
    if a <= b {
        a
    } else {
        b
    }
}

proof fn lemma_pow2_grows(a: nat, b: nat)
    requires
        a <= b,
    ensures
        pow2(a) <= pow2(b),
        pow2(a) >= 1,
    decreases b,
{
    if a < b {
        lemma_pow2_grows(a, (b - 1) as nat);
    } else if a > 0 {
        lemma_pow2_grows((a - 1) as nat, (a - 1) as nat);
    }
}

/// How often the first delay has doubled by retry number `retry`.
pub open spec fn doublings(retry: nat) -> nat {
    if retry >= 1 {
        (retry - 1) as nat
    } else {
        0
    }
}

impl RetryInterval {
    /// The delay in milliseconds before retry number `retry`, the first retry
    /// being number 1. Number 0 is read as number 1.
    pub open spec fn delay(self, retry: nat) -> nat {
        match self {
            RetryInterval::Fixed(ms) => ms as nat,
            RetryInterval::Backoff { min_ms, max_ms } => least(
                min_ms as nat * pow2(doublings(retry)),
                max_ms as nat,
            ),
        }
    }

    /// Computes [`RetryInterval::delay`].
    pub fn delay_ms(&self, retry: u64) -> (ms: u64)
        ensures
            ms == self.delay(retry as nat),
    {
        match *self {
            RetryInterval::Fixed(ms) => ms,
            RetryInterval::Backoff { min_ms, max_ms } => {
                if min_ms == 0 {
                    assert(0 * pow2(doublings(retry as nat)) == 0) by (nonlinear_arith);
                    return 0;
                }
                let mut d: u64 = min_ms;
                let mut k: u64 = 0;
                assert(min_ms as nat * pow2(0) == min_ms as nat) by (nonlinear_arith)
                    requires
                        pow2(0) == 1,
                ;
                let times: u64 = if retry >= 1 {
                    retry - 1
                } else {
                    0
                };
                while k < times && d < max_ms
                    invariant
                        k <= times == doublings(retry as nat),
                        min_ms >= 1,
                        least(d as nat, max_ms as nat) == least(
                            min_ms as nat * pow2(k as nat),
                            max_ms as nat,
                        ),
                    decreases times - k,
                {
                    proof {
                        let m = min_ms as nat;
                        let p = pow2(k as nat);
                        assert(m * (2 * p) == 2 * (m * p)) by (nonlinear_arith);
                    }
                    d = d.saturating_add(d);
                    k += 1;
                }
                proof {
                    let m = min_ms as nat;
                    let p = pow2(k as nat);
                    let q = pow2(times as nat);
                    lemma_pow2_grows(k as nat, times as nat);
                    assert(m * p <= m * q) by (nonlinear_arith)
                        requires
                            p <= q,
                    ;
                }
                if d < max_ms {
                    d
                } else {
                    max_ms
                }
            },
        }
    }
}

/// A later retry never waits less than an earlier one.
pub proof fn lemma_delay_grows(interval: RetryInterval, earlier: nat, later: nat)
    requires
        earlier <= later,
    ensures
        interval.delay(earlier) <= interval.delay(later),
{
    if let RetryInterval::Backoff { min_ms, max_ms } = interval {
        let m = min_ms as nat;
        let p = pow2(doublings(earlier));
        let q = pow2(doublings(later));
        lemma_pow2_grows(doublings(earlier), doublings(later));
        assert(m * p <= m * q) by (nonlinear_arith)
            requires
                p <= q,
        ;
    }
}

/// A backoff never waits longer than its upper bound, and its first retry
/// waits the lower bound where that is the smaller of the two.
pub proof fn lemma_backoff_bounds(min_ms: u64, max_ms: u64, retry: nat)
    ensures
        (RetryInterval::Backoff { min_ms, max_ms }).delay(retry) <= max_ms,
        (RetryInterval::Backoff { min_ms, max_ms }).delay(1) == least(min_ms as nat, max_ms as nat),
{
    assert(min_ms as nat * pow2(0) == min_ms as nat) by (nonlinear_arith)
        requires
            pow2(0) == 1,
    ;
}

} // verus!
