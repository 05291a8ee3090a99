//! The execution context of one worker of the managed key-value service.

use super::dynamodb_error::{DynamoDBError, DynamoDBErrorKind};
use crate::clock::{now, span, span_between};
use crate::cluster_info::ClusterInfo;
use crate::config::{RetryInterval, ValidationStrategy};
use crate::stats::SessionStats;
use vstd::prelude::*;

verus! {

/// The execution context of a worker.
pub struct Context {
    /// The driver's client, which all workers share.
    pub client: Option<aws_sdk_dynamodb::Client>,
    /// What the worker has done since the statistics were last taken.
    pub stats: SessionStats,
    /// When the worker's clock was last restarted.
    pub start_time: std::time::Instant,
    /// How often an operation may be retried.
    pub retry_number: u64,
    pub retry_interval: RetryInterval,
    pub validation_strategy: ValidationStrategy,
    /// The number of the load cycle that the worker is in.
    pub load_cycle_count: u64,
}

impl Context {
    /// The template context: statistics at zero, load cycle 0 and a clock
    /// that starts at the reading `at`.
    pub fn new_at(
        client: Option<aws_sdk_dynamodb::Client>,
        retry_number: u64,
        retry_interval: RetryInterval,
        validation_strategy: ValidationStrategy,
        at: std::time::Instant,
    ) -> (ctx: Context)
        ensures
            ctx.client == client,
            ctx.stats == SessionStats::zero(),
            ctx.start_time == at,
            ctx.retry_number == retry_number,
            ctx.retry_interval == retry_interval,
            ctx.validation_strategy == validation_strategy,
            ctx.load_cycle_count == 0,
    {
        Context {
            client,
            stats: SessionStats::new(),
            start_time: at,
            retry_number,
            retry_interval,
            validation_strategy,
            load_cycle_count: 0,
        }
    }

    /// The template context: statistics at zero, load cycle 0 and a clock
    /// that starts now.
    pub fn new(
        client: Option<aws_sdk_dynamodb::Client>,
        retry_number: u64,
        retry_interval: RetryInterval,
        validation_strategy: ValidationStrategy,
    ) -> (ctx: Context)
        ensures
            ctx.client == client,
            ctx.stats == SessionStats::zero(),
            ctx.retry_number == retry_number,
            ctx.retry_interval == retry_interval,
            ctx.validation_strategy == validation_strategy,
            ctx.load_cycle_count == 0,
    {
        Context::new_at(client, retry_number, retry_interval, validation_strategy, now())
    }

    /// A context for another worker: the same client, settings and load
    /// cycle, statistics at zero and a clock that starts at the reading
    /// `at`. A context of this backend has no data bag, so its clone never
    /// fails.
    pub fn clone_at(&self, at: std::time::Instant) -> (r: Result<Context, crate::error::Error>)
        ensures
            r matches Ok(copy) && copy.client == self.client && copy.stats == SessionStats::zero()
                && copy.start_time == at && copy.retry_number == self.retry_number && copy.retry_interval
                == self.retry_interval && copy.validation_strategy == self.validation_strategy
                && copy.load_cycle_count == self.load_cycle_count,
    {
        let client = match &self.client {
            Some(client) => Some(client.clone()),
            None => None,
        };
        Ok(
            Context {
                client,
                stats: SessionStats::new(),
                start_time: at,
                retry_number: self.retry_number,
                retry_interval: self.retry_interval,
                validation_strategy: self.validation_strategy,
                load_cycle_count: self.load_cycle_count,
            },
        )
    }

    /// A context for another worker: the same client, settings and load
    /// cycle, statistics at zero and a clock that starts now. A context of
    /// this backend has no data bag, so its clone never fails.
    pub fn clone(&self) -> (r: Result<Context, crate::error::Error>)
        ensures
            r matches Ok(copy) && copy.client == self.client && copy.stats == SessionStats::zero()
                && copy.retry_number == self.retry_number && copy.retry_interval
                == self.retry_interval && copy.validation_strategy == self.validation_strategy
                && copy.load_cycle_count == self.load_cycle_count,
    {
        self.clone_at(now())
    }

    /// The description of the service, which is the same for every
    /// context.
    pub fn cluster_info(&self) -> (r: Result<Option<ClusterInfo>, DynamoDBError>)
        ensures
            r matches Ok(Some(info)) && info.name@ == "DynamoDB"@ && info.db_version@
                == "DynamoDB"@,
    {
        Ok(Some(ClusterInfo::of_dynamodb()))
    }

    /// Ends the current call with the workload's own message: always fails,
    /// with a custom error that carries `message`.
    pub fn signal_failure(&self, message: &str) -> (r: Result<(), DynamoDBError>)
        ensures
            r matches Err(e) && e.0 matches DynamoDBErrorKind::CustomError(text) && text@
                == message@,
    {
        let err = DynamoDBError(DynamoDBErrorKind::CustomError(String::from_str(message)));
        Err(err)
    }

    /// The time from the last restart of the clock to the reading `at`, or
    /// no time if `at` was taken before the restart.
    pub fn elapsed_at(&self, at: &std::time::Instant) -> (d: std::time::Duration)
        ensures
            d == span(self.start_time, *at),
    {
        span_between(&self.start_time, at)
    }

    /// The time that has passed since the clock was last restarted: the
    /// time from the restart to a reading that is taken now.
    pub fn elapsed(&self) -> (d: std::time::Duration)
        ensures
            exists|at: std::time::Instant| d == #[trigger] span(self.start_time, at),
    {
        let at = now();
        self.elapsed_at(&at)
    }

    /// Hands out the statistics and sets them to zero. Nothing else
    /// changes.
    pub fn take_session_stats(&mut self) -> (snapshot: SessionStats)
        ensures
            (snapshot, final(self).stats) == old(self).stats.harvested(),
            *final(self) == (Context { stats: final(self).stats, ..*old(self) }),
    {
        self.stats.take()
    }

    /// Sets the statistics to zero and restarts the clock at the reading
    /// `at`. Nothing else changes.
    pub fn reset_at(&mut self, at: std::time::Instant)
        ensures
            *final(self) == (Context {
                stats: SessionStats::zero(),
                start_time: at,
                ..*old(self)
            }),
    {
        self.stats.reset();
        self.start_time = at;
    }

    /// Sets the statistics to zero and restarts the clock. Nothing else
    /// changes.
    pub fn reset(&mut self)
        ensures
            *final(self) == (Context {
                stats: SessionStats::zero(),
                start_time: final(self).start_time,
                ..*old(self)
            }),
    {
        self.reset_at(now());
    }
}

} // verus!
