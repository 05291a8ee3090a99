//! The managed key-value backend.

pub mod context;
pub mod dynamodb_error;
pub mod functions;
