//! The errors of the managed key-value backend, and their translation into
//! the shared vocabulary.

use crate::error::{retries_exceeded_message, retries_exceeded_text, Error, ErrorKind};
use vstd::prelude::*;

verus! {

/// An error of the key-value backend as handed to the workload.
#[derive(Debug)]
pub struct DynamoDBError(pub DynamoDBErrorKind);

#[derive(Debug)]
pub enum DynamoDBErrorKind {
    /// The service at the given address could not be reached, for the given
    /// reason.
    FailedToConnect(String, String),
    QueryRetriesExceeded(String),
    Overloaded(String),
    CustomError(String),
    Error(String),
}

pub type DbError = DynamoDBError;

pub type DbErrorKind = DynamoDBErrorKind;

impl DynamoDBErrorKind {
    /// The text shown for this kind of error.
    pub open spec fn display(self) -> Seq<char> {
        match self {
            DynamoDBErrorKind::FailedToConnect(addr, e) => "Failed to connect to DynamoDB at "@
                + addr@ + ": "@ + e@,
            DynamoDBErrorKind::QueryRetriesExceeded(s) => "QueryRetriesExceeded: "@ + s@,
            DynamoDBErrorKind::Overloaded(s) => "Overloaded: "@ + s@,
            DynamoDBErrorKind::CustomError(s) => s@,
            DynamoDBErrorKind::Error(s) => s@,
        }
    }

    /// The kind of the shared vocabulary that this kind translates to.
    pub open spec fn shared(self) -> ErrorKind {
        match self {
            DynamoDBErrorKind::FailedToConnect(addr, e) => ErrorKind::ConnectionError(addr, e),
            DynamoDBErrorKind::QueryRetriesExceeded(s) => ErrorKind::QueryRetriesExceeded(s),
            DynamoDBErrorKind::Overloaded(s) => ErrorKind::Overloaded(s),
            DynamoDBErrorKind::CustomError(s) => ErrorKind::CustomError(s),
            DynamoDBErrorKind::Error(s) => ErrorKind::Other(s),
        }
    }
}

impl DynamoDBError {
    /// The error raised when `retry_number` retries were not enough.
    pub fn query_retries_exceeded(retry_number: u64) -> (e: DynamoDBError)
        ensures
            e.0 matches DynamoDBErrorKind::QueryRetriesExceeded(s) && s@ == retries_exceeded_text(
                retry_number,
            ),
    {
        DynamoDBError(DynamoDBErrorKind::QueryRetriesExceeded(retries_exceeded_message(retry_number)))
    }

    /// The error as text, for display to the workload's author.
    pub fn to_string(&self) -> (s: String)
        ensures
            s@ == self.0.display(),
    {
        match &self.0 {
            DynamoDBErrorKind::FailedToConnect(addr, e) => {
                let mut s = String::from_str("Failed to connect to DynamoDB at ");
                s.append(addr.as_str());
                s.append(": ");
                s.append(e.as_str());
                s
            },
            DynamoDBErrorKind::QueryRetriesExceeded(t) => {
                let mut s = String::from_str("QueryRetriesExceeded: ");
                s.append(t.as_str());
                s
            },
            DynamoDBErrorKind::Overloaded(t) => {
                let mut s = String::from_str("Overloaded: ");
                s.append(t.as_str());
                s
            },
            DynamoDBErrorKind::CustomError(t) => t.clone(),
            DynamoDBErrorKind::Error(t) => t.clone(),
        }
    }

    /// Translates the error into the shared vocabulary.
    pub fn into_error(self) -> (e: Error)
        ensures
            e.0 == self.0.shared(),
    {
        match self.0 {
            DynamoDBErrorKind::FailedToConnect(addr, e) => Error(ErrorKind::ConnectionError(addr, e)),
            DynamoDBErrorKind::QueryRetriesExceeded(s) => Error(ErrorKind::QueryRetriesExceeded(s)),
            DynamoDBErrorKind::Overloaded(s) => Error(ErrorKind::Overloaded(s)),
            DynamoDBErrorKind::CustomError(s) => Error(ErrorKind::CustomError(s)),
            DynamoDBErrorKind::Error(s) => Error(ErrorKind::Other(s)),
        }
    }
}

} // verus!
