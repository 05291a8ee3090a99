//! The backend-agnostic error vocabulary. Every backend translates its own
//! failures into these kinds, so that the retry and validation rules never
//! look at a driver's native error.

use crate::text::{decimal, push_decimal};
use vstd::prelude::*;

verus! {

/// What went wrong, with the text that describes it.
#[derive(Debug, Clone, PartialEq, Eq)]
pub enum ErrorKind {
    /// The first connection to the backend at the given address failed, for
    /// the given reason. Fatal to setup.
    ConnectionError(String, String),
    /// Every attempt the retry budget allows has failed transiently.
    QueryRetriesExceeded(String),
    /// The backend asked the caller to slow down. Transient.
    Overloaded(String),
    /// The backend did not answer in time. Transient.
    Timeout(String),
    /// The number of rows returned lies outside the bounds asked for.
    ValidationError(String),
    /// A call was made with arguments of the wrong shape.
    ArgumentError(String),
    /// The workload itself signalled a failure.
    CustomError(String),
    /// A prepared statement, a preset or a row ordinal does not exist.
    LookupError(String),
    /// The data bag holds a value that cannot be copied.
    SerializationError(String),
    /// Any other failure of the backend. Not transient.
    Other(String),
}

/// An error as handed to the workload.
#[derive(Debug, Clone, PartialEq, Eq)]
pub struct Error(pub ErrorKind);

impl ErrorKind {
    /// Whether another attempt may succeed where this one failed. Only an
    /// overloaded backend and a timeout are transient.
    pub open spec fn transient(self) -> bool {
        self is Overloaded || self is Timeout
    }

    /// The text that the error carries; for a failed connection, the reason.
    pub open spec fn text(self) -> Seq<char> {
        match self {
            ErrorKind::ConnectionError(_, cause) => cause@,
            ErrorKind::QueryRetriesExceeded(s) => s@,
            ErrorKind::Overloaded(s) => s@,
            ErrorKind::Timeout(s) => s@,
            ErrorKind::ValidationError(s) => s@,
            ErrorKind::ArgumentError(s) => s@,
            ErrorKind::CustomError(s) => s@,
            ErrorKind::LookupError(s) => s@,
            ErrorKind::SerializationError(s) => s@,
            ErrorKind::Other(s) => s@,
        }
    }

    /// The text shown for this kind of error.
    pub open spec fn display(self) -> Seq<char> {
        match self {
            ErrorKind::ConnectionError(addr, cause) => "Failed to connect to "@ + addr@ + ": "@
                + cause@,
            ErrorKind::QueryRetriesExceeded(s) => "QueryRetriesExceeded: "@ + s@,
            ErrorKind::Overloaded(s) => "Overloaded: "@ + s@,
            ErrorKind::Timeout(s) => "Timeout: "@ + s@,
            ErrorKind::ValidationError(s) => "ValidationError: "@ + s@,
            ErrorKind::ArgumentError(s) => s@,
            ErrorKind::CustomError(s) => s@,
            ErrorKind::LookupError(s) => s@,
            ErrorKind::SerializationError(s) => "SerializationError: "@ + s@,
            ErrorKind::Other(s) => s@,
        }
    }
}

/// The text of the error raised when `retry_number` retries were not enough.
pub open spec fn retries_exceeded_text(retry_number: u64) -> Seq<char> {
    "Max retry attempts ("@ + decimal(retry_number as nat) + ") reached"@
}

/// Builds the text of [`retries_exceeded_text`].
pub fn retries_exceeded_message(retry_number: u64) -> (s: String)
    ensures
        s@ == retries_exceeded_text(retry_number),
{
    let mut s = String::from_str("Max retry attempts (");
    push_decimal(&mut s, retry_number);
    s.append(") reached");
    s
}

fn labelled(label: &str, text: &String) -> (s: String)
    ensures
        s@ == label@ + text@,
{
    let mut s = String::from_str(label);
    s.append(text.as_str());
    s
}

impl Error {
    /// The error raised when the retry budget of `retry_number` retries is
    /// used up.
    pub fn query_retries_exceeded(retry_number: u64) -> (e: Error)
        ensures
            e.0 is QueryRetriesExceeded,
            e.0.text() == retries_exceeded_text(retry_number),
    {
        Error(ErrorKind::QueryRetriesExceeded(retries_exceeded_message(retry_number)))
    }

    /// Whether the retry controller may try again after this error.
    pub fn is_transient(&self) -> (b: bool)
        ensures
            b == self.0.transient(),
    {
        match &self.0 {
            ErrorKind::Overloaded(_) => true,
            ErrorKind::Timeout(_) => true,
            _ => false,
        }
    }

    /// The error as text, for display to the workload's author.
    pub fn to_string(&self) -> (s: String)
        ensures
            s@ == self.0.display(),
    {
        match &self.0 {
            ErrorKind::ConnectionError(addr, cause) => {
                let mut s = String::from_str("Failed to connect to ");
                s.append(addr.as_str());
                s.append(": ");
                s.append(cause.as_str());
                s
            },
            ErrorKind::QueryRetriesExceeded(t) => labelled("QueryRetriesExceeded: ", t),
            ErrorKind::Overloaded(t) => labelled("Overloaded: ", t),
            ErrorKind::Timeout(t) => labelled("Timeout: ", t),
            ErrorKind::ValidationError(t) => labelled("ValidationError: ", t),
            ErrorKind::ArgumentError(t) => t.clone(),
            ErrorKind::CustomError(t) => t.clone(),
            ErrorKind::LookupError(t) => t.clone(),
            ErrorKind::SerializationError(t) => labelled("SerializationError: ", t),
            ErrorKind::Other(t) => t.clone(),
        }
    }
}

} // verus!
