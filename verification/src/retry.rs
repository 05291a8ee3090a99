//! The retry controller: whether a failed attempt is followed by another,
//! and after how long.
//!
//! The controller never makes an attempt itself. Whoever drives it makes the
//! attempt, reports a failure to [`RetryState::on_failure`], and sleeps and
//! tries again, or gives up, as it is told. An operation is attempted at most
//! once more than its retry budget.

use crate::config::RetryInterval;
use crate::error::{retries_exceeded_text, Error, ErrorKind};
use vstd::prelude::*;

verus! {

/// How one attempt ended, as far as the retry rules can tell.
pub enum Attempt {
    /// The backend did what was asked.
    Success,
    /// The backend failed in a way that may pass: it was overloaded or did
    /// not answer in time.
    Transient,
    /// The backend failed in a way that another attempt will not mend.
    Fatal,
}

/// How an operation ended.
pub enum Ending {
    Succeeded,
    /// The last attempt that the budget allows failed transiently.
    RetriesExceeded,
    /// An attempt failed for good.
    Failed,
}

/// What a sequence of attempts came to.
pub struct Run {
    /// The number of attempts that were made.
    pub attempts: nat,
    /// How the operation ended, or `None` if it is still under way.
    pub ending: Option<Ending>,
}

/// The controller's state as plain numbers.
pub struct RetryView {
    /// The number of retries allowed.
    pub budget: nat,
    /// The number of retries asked for so far.
    pub retries: nat,
    pub interval: RetryInterval,
}

impl ErrorKind {
    /// The attempt that ended in this error.
    pub open spec fn attempt(self) -> Attempt {
        if self.transient() {
            Attempt::Transient
        } else {
            Attempt::Fatal
        }
    }
}

impl RetryView {
    /// Whether an attempt that ended as `attempt` is followed by another.
    pub open spec fn retries_after(self, attempt: Attempt) -> bool {
        attempt is Transient && self.retries < self.budget
    }

    /// The state after one more retry was asked for.
    pub open spec fn next(self) -> RetryView {
        RetryView { retries: self.retries + 1, ..self }
    }

    /// How an operation in this state ends with an attempt that is not
    /// followed by another.
    pub open spec fn ending(self, attempt: Attempt) -> Ending {
        match attempt {
            Attempt::Success => Ending::Succeeded,
            Attempt::Transient => Ending::RetriesExceeded,
            Attempt::Fatal => Ending::Failed,
        }
    }

    /// What becomes of an operation in this state when its attempts end as
    /// `outcomes` say, one after the other. Outcomes after the operation's
    /// end are never reached.
    pub open spec fn run(self, outcomes: Seq<Attempt>) -> Run
        decreases outcomes.len(),
    {
        if outcomes.len() == 0 {
            Run { attempts: 0, ending: None }
        } else if self.retries_after(outcomes[0]) {
            let rest = self.next().run(outcomes.skip(1));
            Run { attempts: rest.attempts + 1, ending: rest.ending }
        } else {
            Run { attempts: 1, ending: Some(self.ending(outcomes[0])) }
        }
    }
}

/// What to do after a failed attempt.
#[derive(Debug)]
pub enum RetryDecision {
    /// Wait for so many milliseconds, then make another attempt.
    Retry { delay_ms: u64 },
    /// Make no further attempt; the operation ends with this error.
    GiveUp(Error),
}

/// The retry controller of one operation.
#[derive(Clone, Copy, Debug)]
pub struct RetryState {
    budget: u64,
    interval: RetryInterval,
    retries: u64,
}

impl View for RetryState {
    type V = RetryView;

    closed spec fn view(&self) -> RetryView {
        RetryView {
            budget: self.budget as nat,
            retries: self.retries as nat,
            interval: self.interval,
        }
    }
}

impl RetryState {
    #[verifier::type_invariant]
    spec fn within_budget(&self) -> bool {
        self.retries <= self.budget
    }

    /// The controller of an operation that has not been attempted yet and
    /// may be retried `budget` times.
    pub fn new(budget: u64, interval: RetryInterval) -> (s: RetryState)
        ensures
            s@ == (RetryView { budget: budget as nat, retries: 0, interval }),
    {
        RetryState { budget, interval, retries: 0 }
    }

    /// The number of retries asked for so far. The attempts made are one
    /// more, once the first is under way.
    pub fn retries(&self) -> (n: u64)
        ensures
            n == self@.retries,
            n <= self@.budget,
    {
        proof {
            use_type_invariant(self);
        }
        self.retries
    }

    /// Takes note of an attempt that failed with `error` and decides what
    /// follows. A transient error within the budget is followed by a retry
    /// after the interval's delay. A transient error beyond the budget ends
    /// the operation with `QueryRetriesExceeded`, any other error ends it
    /// with that error.
    pub fn on_failure(&mut self, error: Error) -> (d: RetryDecision)
        ensures
            old(self)@.retries_after(error.0.attempt()) ==> final(self)@ == old(self)@.next() && d
                == (RetryDecision::Retry {
                delay_ms: old(self)@.interval.delay(final(self)@.retries) as u64,
            }),
            !old(self)@.retries_after(error.0.attempt()) ==> final(self)@ == old(self)@ && d
                is GiveUp,
            d matches RetryDecision::GiveUp(e) ==> if error.0.transient() {
                e.0 is QueryRetriesExceeded && e.0.text() == retries_exceeded_text(
                    old(self)@.budget as u64,
                )
            } else {
                e == error
            },
    {
        proof {
            use_type_invariant(&*self);
        }
        if !error.is_transient() {
            return RetryDecision::GiveUp(error);
        }
        if self.retries >= self.budget {
            return RetryDecision::GiveUp(Error::query_retries_exceeded(self.budget));
        }
        let retry: u64 = self.retries + 1;
        let delay_ms: u64 = self.interval.delay_ms(retry);
        self.retries = retry;
        RetryDecision::Retry { delay_ms }
    }
}

/// The outcomes of `n` attempts that all failed transiently.
pub open spec fn transient_failures(n: nat) -> Seq<Attempt> {
    Seq::new(n, |i: int| Attempt::Transient)
}

/// An operation that fails transiently no more often than it may still be
/// retried, and then succeeds, is attempted once more than it failed, and
/// succeeds. With a fresh controller and as many failures as the budget, the
/// attempts are one more than the budget.
pub proof fn lemma_success_within_budget(state: RetryView, failures: nat)
    requires
        state.retries + failures <= state.budget,
    ensures
        state.run(transient_failures(failures).push(Attempt::Success)) == (Run {
            attempts: failures + 1,
            ending: Some(Ending::Succeeded),
        }),
    decreases failures,
{
    let outcomes = transient_failures(failures).push(Attempt::Success);
    if failures > 0 {
        lemma_success_within_budget(state.next(), (failures - 1) as nat);
        assert(outcomes.skip(1) =~= transient_failures((failures - 1) as nat).push(
            Attempt::Success,
        ));
    }
}

/// An operation that fails transiently once more than it may still be
/// retried ends there with `RetriesExceeded`: with a fresh controller, after
/// exactly one attempt more than the budget.
pub proof fn lemma_budget_exhausted(state: RetryView)
    requires
        state.retries <= state.budget,
    ensures
        state.run(transient_failures((state.budget - state.retries + 1) as nat)) == (Run {
            attempts: (state.budget - state.retries + 1) as nat,
            ending: Some(Ending::RetriesExceeded),
        }),
    decreases state.budget - state.retries,
{
    let n = (state.budget - state.retries + 1) as nat;
    if state.retries < state.budget {
        lemma_budget_exhausted(state.next());
        assert(transient_failures(n).skip(1) =~= transient_failures((n - 1) as nat));
    }
}

/// Whatever the attempts come to, no operation is attempted more often than
/// once and once for each retry that is left.
pub proof fn lemma_attempts_bounded(state: RetryView, outcomes: Seq<Attempt>)
    requires
        state.retries <= state.budget,
    ensures
        state.run(outcomes).attempts <= state.budget - state.retries + 1,
        state.run(outcomes).attempts <= outcomes.len(),
    decreases outcomes.len(),
{
    if outcomes.len() > 0 && state.retries_after(outcomes[0]) {
        lemma_attempts_bounded(state.next(), outcomes.skip(1));
    }
}

} // verus!
