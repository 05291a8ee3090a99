//! Execution core of a database load generator: the per-worker context that
//! stands between workload calls and a backend. It holds the retry policy,
//! the row-count validation rules, the partition size presets used to skew
//! synthetic data, the session statistics and the worker's private data bag.
//!
//! The core decides and counts; it sends nothing. Sending a request and
//! sleeping between attempts are the caller's business: the caller reports
//! how each attempt ended and is told what to do next.
//!
//! The backends have a module each: [`cassandra`] for the wide-column
//! backend, [`dynamodb`] for the managed key-value service, [`alternator`]
//! for the key-value protocol on a wide-column cluster. What they share
//! lies beside them: [`error`], [`retry`], [`validation`], [`operation`],
//! [`row_distribution`], [`stats`] and [`value`].

pub mod alternator;
pub mod cassandra;
pub mod client;
pub mod clock;
pub mod cluster_info;
pub mod config;
pub mod cql;
pub mod dynamodb;
pub mod error;
pub mod named_table;
pub mod operation;
pub mod retry;
pub mod row_distribution;
pub mod stats;
pub mod text;
pub mod validation;
pub mod value;
