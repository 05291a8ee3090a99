//! One operation of a workload on its way through the execution core: what
//! is to be sent, how its result is checked, and how often it may be tried
//! again.
//!
//! The driver of an operation sends its request, and reports each attempt's
//! end and duration: a failure to [`Operation::on_failure`], which says
//! whether to try again, and a success to [`Operation::on_success`], which
//! checks the number of rows. A failed check is final: it is never retried.
//! When the operation is over, [`Operation::sample`] is what the statistics
//! record: one operation, however many attempts it took.

use crate::config::RetryInterval;
use crate::error::{retries_exceeded_text, Error};
use crate::retry::{RetryDecision, RetryState, RetryView};
use crate::stats::{capped_sum, Sample};
use crate::validation::{ValidationSpec, ValidationView};
use crate::value::Value;
use vstd::prelude::*;

verus! {

/// What an operation sends to the backend.
#[derive(Debug)]
pub enum Request {
    /// A statement in the backend's query language, as text.
    Query { cql: String },
    /// The prepared statement entered under `key`, with the values to bind.
    Prepared { key: String, params: Value },
    /// The prepared statements entered under `keys`, each with the values at
    /// the same position of `params`, as one batch.
    Batch { keys: Vec<String>, params: Vec<Value> },
}

/// An operation that is ready to be sent.
#[derive(Debug)]
pub struct Operation {
    /// What to send.
    pub request: Request,
    /// The bounds on the number of rows of the result, if the call gave any.
    pub validation: Option<ValidationSpec>,
    /// Whether the caller wants the rows of the result, not only its end.
    pub with_result: bool,
    /// The retry controller of the operation.
    pub retry: RetryState,
    /// The time that the attempts made so far have taken together, in
    /// nanoseconds. The waits between attempts are not part of it.
    pub latency_nanos: u64,
}

/// The bounds that an operation checks its result against, as plain values.
pub open spec fn bounds(validation: Option<ValidationSpec>) -> Option<ValidationView> {
    match validation {
        Some(spec) => Some(spec@),
        None => None,
    }
}

impl Operation {
    /// The operation that sends `request` and may be retried `retry_number`
    /// times.
    pub fn new(
        request: Request,
        validation: Option<ValidationSpec>,
        with_result: bool,
        retry_number: u64,
        retry_interval: RetryInterval,
    ) -> (op: Operation)
        ensures
            op.request == request,
            op.validation == validation,
            op.with_result == with_result,
            op.retry@ == (RetryView {
                budget: retry_number as nat,
                retries: 0,
                interval: retry_interval,
            }),
            op.latency_nanos == 0,
    {
        Operation {
            request,
            validation,
            with_result,
            retry: RetryState::new(retry_number, retry_interval),
            latency_nanos: 0,
        }
    }

    /// Takes note of an attempt that took `attempt_nanos` nanoseconds and
    /// failed with `error`, and decides what follows, as
    /// [`RetryState::on_failure`] does. Only the retry controller and the
    /// latency change.
    pub fn on_failure(&mut self, error: Error, attempt_nanos: u64) -> (d: RetryDecision)
        ensures
            final(self).request == old(self).request,
            final(self).validation == old(self).validation,
            final(self).with_result == old(self).with_result,
            final(self).latency_nanos == capped_sum(old(self).latency_nanos, attempt_nanos),
            old(self).retry@.retries_after(error.0.attempt()) ==> final(self).retry@ == old(
                self,
            ).retry@.next() && d == (RetryDecision::Retry {
                delay_ms: old(self).retry@.interval.delay(final(self).retry@.retries) as u64,
            }),
            !old(self).retry@.retries_after(error.0.attempt()) ==> final(self).retry@ == old(
                self,
            ).retry@ && d is GiveUp,
            d matches RetryDecision::GiveUp(e) ==> if error.0.transient() {
                e.0 is QueryRetriesExceeded && e.0.text() == retries_exceeded_text(
                    old(self).retry@.budget as u64,
                )
            } else {
                e == error
            },
    {
        self.latency_nanos = self.latency_nanos.saturating_add(attempt_nanos);
        self.retry.on_failure(error)
    }

    /// Takes note of an attempt that took `attempt_nanos` nanoseconds and
    /// succeeded, and checks its result, which has `rows` rows, against the
    /// operation's bounds. An operation without bounds accepts every result.
    /// Fails with a validation error otherwise. Only the latency changes.
    pub fn on_success(&mut self, rows: u64, attempt_nanos: u64) -> (r: Result<(), Error>)
        ensures
            *final(self) == (Operation {
                latency_nanos: capped_sum(old(self).latency_nanos, attempt_nanos),
                ..*old(self)
            }),
            match r {
                Ok(_) => bounds(old(self).validation) matches Some(b) ==> b.accepts(rows as nat),
                Err(e) => {
                    &&& bounds(old(self).validation) matches Some(b) && !b.accepts(rows as nat)
                    &&& e.0 is ValidationError
                    &&& e.0.text() == bounds(old(self).validation)->0.mismatch_text(rows as nat)
                },
            },
    {
        self.latency_nanos = self.latency_nanos.saturating_add(attempt_nanos);
        match &self.validation {
            Some(spec) => spec.check(rows),
            None => Ok(()),
        }
    }

    /// The number of attempts made once the attempt under way has ended:
    /// one, and one for each retry.
    pub fn attempts(&self) -> (n: u64)
        ensures
            n == capped_sum(self.retry@.retries as u64, 1),
    {
        self.retry.retries().saturating_add(1)
    }

    /// The operation as the statistics count it, once it has ended: one
    /// operation, with all of its attempts and the time they took together.
    pub fn sample(&self, succeeded: bool) -> (s: Sample)
        ensures
            s == (Sample {
                attempts: capped_sum(self.retry@.retries as u64, 1),
                succeeded,
                latency_nanos: self.latency_nanos,
            }),
    {
        Sample { attempts: self.attempts(), succeeded, latency_nanos: self.latency_nanos }
    }
}

} // verus!
