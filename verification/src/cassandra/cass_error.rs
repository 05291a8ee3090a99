//! The driver's failures in the terms of the execution core.

use crate::error::{Error, ErrorKind};
use scylla::errors::{DbError, ExecutionError, RequestAttemptError};
use vstd::prelude::*;

verus! {

#[verifier::external_type_specification]
#[verifier::external_body]
pub struct ExExecutionError(scylla::errors::ExecutionError);

/// Why a request to the cluster failed, as far as the execution core tells
/// failures apart.
#[derive(Clone, Copy, Debug, PartialEq, Eq, Structural)]
pub enum DriverFailure {
    /// The driver gave up waiting for the cluster.
    RequestTimeout,
    /// The cluster said that it is overloaded.
    Overloaded,
    /// The cluster said that the rate limit of a partition was reached.
    RateLimitReached,
    /// The cluster said that its replicas did not answer a read in time.
    ReadTimeout,
    /// The cluster said that its replicas did not answer a write in time.
    WriteTimeout,
    /// Anything else.
    Other,
}

/// The failure that the driver's error stands for.
pub uninterp spec fn failure_kind(error: scylla::errors::ExecutionError) -> DriverFailure;

/// The driver's error in the driver's words.
pub uninterp spec fn failure_text(error: scylla::errors::ExecutionError) -> Seq<char>;

/// Tells the variants of the driver's `ExecutionError` apart: its own
/// `RequestTimeout`, and, of the database errors of the last attempt,
/// `Overloaded`, `RateLimitReached`, `ReadTimeout` and `WriteTimeout`.
/// Which one comes depends on the error alone.
#[verifier::external_body]
fn failure_of(error: &scylla::errors::ExecutionError) -> (failure: DriverFailure)
    ensures
        failure == failure_kind(*error),
{
    match error {
        ExecutionError::RequestTimeout(_) => DriverFailure::RequestTimeout,
        ExecutionError::LastAttemptError(RequestAttemptError::DbError(kind, _)) => match kind {
            DbError::Overloaded => DriverFailure::Overloaded,
            DbError::RateLimitReached { .. } => DriverFailure::RateLimitReached,
            DbError::ReadTimeout { .. } => DriverFailure::ReadTimeout,
            DbError::WriteTimeout { .. } => DriverFailure::WriteTimeout,
            _ => DriverFailure::Other,
        },
        _ => DriverFailure::Other,
    }
}

/// Calls the driver's `Display` for `ExecutionError`: the failure in words.
/// The words depend on the error alone.
#[verifier::external_body]
fn text_of(error: &scylla::errors::ExecutionError) -> (text: String)
    ensures
        text@ == failure_text(*error),
{
    error.to_string()
}

impl DriverFailure {
    /// Whether the failure may pass, so that the request is worth another
    /// attempt.
    pub open spec fn transient(self) -> bool {
        !(self is Other)
    }

    /// Whether the failure is one of waiting in vain.
    pub open spec fn timed_out(self) -> bool {
        self is RequestTimeout || self is ReadTimeout || self is WriteTimeout
    }
}

/// The error that stands for a failure of the driver, with the driver's
/// words: a timeout for a request, a read or a write that was not answered
/// in time, an overload for a cluster that is overloaded or limits the
/// rate, and for every other failure an error that is not retried.
pub fn classify(failure: DriverFailure, text: String) -> (e: Error)
    ensures
        e.0.text() == text@,
        e.0.transient() == failure.transient(),
        failure.timed_out() ==> e.0 is Timeout,
        failure.transient() && !failure.timed_out() ==> e.0 is Overloaded,
        !failure.transient() ==> e.0 is Other,
{
    match failure {
        DriverFailure::RequestTimeout => Error(ErrorKind::Timeout(text)),
        DriverFailure::ReadTimeout => Error(ErrorKind::Timeout(text)),
        DriverFailure::WriteTimeout => Error(ErrorKind::Timeout(text)),
        DriverFailure::Overloaded => Error(ErrorKind::Overloaded(text)),
        DriverFailure::RateLimitReached => Error(ErrorKind::Overloaded(text)),
        DriverFailure::Other => Error(ErrorKind::Other(text)),
    }
}

/// The error that stands for the driver's, with the driver's words: what
/// [`classify`] makes of the failure that the driver's error stands for.
pub fn translate(error: &scylla::errors::ExecutionError) -> (e: Error)
    ensures
        e.0.text() == failure_text(*error),
        e.0.transient() == failure_kind(*error).transient(),
        failure_kind(*error).timed_out() ==> e.0 is Timeout,
        failure_kind(*error).transient() && !failure_kind(*error).timed_out() ==> e.0
            is Overloaded,
        !failure_kind(*error).transient() ==> e.0 is Other,
{
    classify(failure_of(error), text_of(error))
}

} // verus!
