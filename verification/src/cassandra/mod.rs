//! The wide-column backend: the execution context of a worker, and the
//! calls that a workload makes on it.

pub mod cass_error;
pub mod context;
pub mod functions;
