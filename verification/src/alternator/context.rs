//! The execution context of one worker of the key-value backend on a
//! wide-column cluster.

use crate::clock::{now, span, span_between};
use crate::cluster_info::{scylla_version_text, ClusterInfo, VersionsItem};
use crate::config::{RetryInterval, ValidationStrategy};
use crate::error::{Error, ErrorKind};
use crate::named_table::NamedTable;
use crate::row_distribution::{copy_presets, preset_views, RowDistributionPreset};
use crate::stats::SessionStats;
use crate::value::{lemma_value_view, Value, ValueView};
use vstd::prelude::*;

verus! {

/// The text of the error for a context that was made without a client.
pub open spec fn no_client_text() -> Seq<char> {
    "DynamoDB client is not initialized"@
}

/// The execution context of a worker.
pub struct Context {
    /// The driver's client, which all workers share.
    pub client: Option<aws_sdk_dynamodb::Client>,
    /// What the worker has done since the statistics were last taken.
    pub stats: SessionStats,
    /// When the worker's clock was last restarted.
    pub start_time: std::time::Instant,
    /// How often an operation may be retried.
    pub retry_number: u64,
    pub retry_interval: RetryInterval,
    pub validation_strategy: ValidationStrategy,
    pub partition_row_presets: NamedTable<RowDistributionPreset>,
    /// The number of the load cycle that the worker is in.
    pub load_cycle_count: u64,
    /// The worker's data bag, which the workload reads and writes.
    pub data: Value,
}

impl Context {
    /// The template context: no presets, an empty map as data bag,
    /// statistics at zero, load cycle 0 and a clock that starts at the
    /// reading `at`.
    pub fn new_at(
        client: Option<aws_sdk_dynamodb::Client>,
        retry_number: u64,
        retry_interval: RetryInterval,
        validation_strategy: ValidationStrategy,
        at: std::time::Instant,
    ) -> (ctx: Context)
        ensures
            ctx.client == client,
            ctx.stats == SessionStats::zero(),
            ctx.start_time == at,
            ctx.retry_number == retry_number,
            ctx.retry_interval == retry_interval,
            ctx.validation_strategy == validation_strategy,
            ctx.partition_row_presets@ == Map::<Seq<char>, RowDistributionPreset>::empty(),
            ctx.load_cycle_count == 0,
            ctx.data@ == ValueView::Object(Seq::empty()),
    {
        let data = Value::Object(Vec::new());
        proof {
            lemma_value_view(data);
        }
        Context {
            client,
            stats: SessionStats::new(),
            start_time: at,
            retry_number,
            retry_interval,
            validation_strategy,
            partition_row_presets: NamedTable::new(),
            load_cycle_count: 0,
            data,
        }
    }

    /// The template context: no presets, an empty map as data bag,
    /// statistics at zero, load cycle 0 and a clock that starts now.
    pub fn new(
        client: Option<aws_sdk_dynamodb::Client>,
        retry_number: u64,
        retry_interval: RetryInterval,
        validation_strategy: ValidationStrategy,
    ) -> (ctx: Context)
        ensures
            ctx.client == client,
            ctx.stats == SessionStats::zero(),
            ctx.retry_number == retry_number,
            ctx.retry_interval == retry_interval,
            ctx.validation_strategy == validation_strategy,
            ctx.partition_row_presets@ == Map::<Seq<char>, RowDistributionPreset>::empty(),
            ctx.load_cycle_count == 0,
            ctx.data@ == ValueView::Object(Seq::empty()),
    {
        Context::new_at(client, retry_number, retry_interval, validation_strategy, now())
    }

    /// A context for another worker. It shares the client. It has a copy of
    /// the data bag and of the presets, the same settings and load cycle,
    /// statistics at zero and a clock that starts at the reading `at`. Fails
    /// with a serialization error if the data bag holds a handle.
    pub fn clone_at(&self, at: std::time::Instant) -> (r: Result<Context, Error>)
        ensures
            match r {
                Ok(copy) => {
                    &&& self.data@.copyable()
                    &&& copy.data@ == self.data@
                    &&& copy.client == self.client
                    &&& copy.stats == SessionStats::zero()
                    &&& copy.start_time == at
                    &&& copy.retry_number == self.retry_number
                    &&& copy.retry_interval == self.retry_interval
                    &&& copy.validation_strategy == self.validation_strategy
                    &&& preset_views(copy.partition_row_presets@) == preset_views(
                        self.partition_row_presets@,
                    )
                    &&& copy.load_cycle_count == self.load_cycle_count
                },
                Err(e) => {
                    &&& !self.data@.copyable()
                    &&& e.0 is SerializationError
                    &&& e.0.text() == crate::value::uncopyable_text()
                },
            },
    {
        let data = self.data.deep_copy()?;
        let client = match &self.client {
            Some(client) => Some(client.clone()),
            None => None,
        };
        Ok(
            Context {
                client,
                stats: SessionStats::new(),
                start_time: at,
                retry_number: self.retry_number,
                retry_interval: self.retry_interval,
                validation_strategy: self.validation_strategy,
                partition_row_presets: copy_presets(&self.partition_row_presets),
                load_cycle_count: self.load_cycle_count,
                data,
            },
        )
    }

    /// A context for another worker. It shares the client. It has a copy of
    /// the data bag and of the presets, the same settings and load cycle,
    /// statistics at zero and a clock that starts now. Fails with a
    /// serialization error if the data bag holds a handle.
    pub fn clone(&self) -> (r: Result<Context, Error>)
        ensures
            match r {
                Ok(copy) => {
                    &&& self.data@.copyable()
                    &&& copy.data@ == self.data@
                    &&& copy.client == self.client
                    &&& copy.stats == SessionStats::zero()
                    &&& copy.retry_number == self.retry_number
                    &&& copy.retry_interval == self.retry_interval
                    &&& copy.validation_strategy == self.validation_strategy
                    &&& preset_views(copy.partition_row_presets@) == preset_views(
                        self.partition_row_presets@,
                    )
                    &&& copy.load_cycle_count == self.load_cycle_count
                },
                Err(e) => {
                    &&& !self.data@.copyable()
                    &&& e.0 is SerializationError
                    &&& e.0.text() == crate::value::uncopyable_text()
                },
            },
    {
        self.clone_at(now())
    }

    /// The description of the cluster, after a look at its versions table
    /// that found `item`, or nothing. A cluster without such a table is
    /// reported as unavailable. Fails if the context was made without a
    /// client.
    pub fn cluster_info(&self, item: &Option<VersionsItem>) -> (r: Result<ClusterInfo, Error>)
        ensures
            match r {
                Ok(info) => {
                    &&& self.client is Some
                    &&& info.name@ == Seq::<char>::empty()
                    &&& info.db_version@ == match *item {
                        Some(found) => scylla_version_text(found),
                        None => "unavailable"@,
                    }
                },
                Err(e) => self.client is None && e.0 is Other && e.0.text() == no_client_text(),
            },
    {
        let _client = self.get_client()?;
        Ok(ClusterInfo::of_versions(item))
    }

    /// Hands out the statistics and sets them to zero. Nothing else
    /// changes.
    pub fn take_session_stats(&mut self) -> (snapshot: SessionStats)
        ensures
            (snapshot, final(self).stats) == old(self).stats.harvested(),
            *final(self) == (Context { stats: final(self).stats, ..*old(self) }),
    {
        self.stats.take()
    }

    /// Sets the statistics to zero and restarts the clock at the reading
    /// `at`. Nothing else changes.
    pub fn reset_at(&mut self, at: std::time::Instant)
        ensures
            *final(self) == (Context {
                stats: SessionStats::zero(),
                start_time: at,
                ..*old(self)
            }),
    {
        self.stats.reset();
        self.start_time = at;
    }

    /// Sets the statistics to zero and restarts the clock. Nothing else
    /// changes.
    pub fn reset(&mut self)
        ensures
            *final(self) == (Context {
                stats: SessionStats::zero(),
                start_time: final(self).start_time,
                ..*old(self)
            }),
    {
        self.reset_at(now());
    }

    /// The driver's client. Fails if the context was made without one.
    pub fn get_client(&self) -> (r: Result<&aws_sdk_dynamodb::Client, Error>)
        ensures
            match r {
                Ok(client) => self.client == Some(*client),
                Err(e) => self.client is None && e.0 is Other && e.0.text() == no_client_text(),
            },
    {
        match &self.client {
            Some(client) => Ok(client),
            None => Err(
                Error(ErrorKind::Other(String::from_str("DynamoDB client is not initialized"))),
            ),
        }
    }

    /// The time from the last restart of the clock to the reading `at`, or
    /// no time if `at` was taken before the restart.
    pub fn elapsed_at(&self, at: &std::time::Instant) -> (d: std::time::Duration)
        ensures
            d == span(self.start_time, *at),
    {
        span_between(&self.start_time, at)
    }

    /// The time that has passed since the clock was last restarted: the
    /// time from the restart to a reading that is taken now.
    pub fn elapsed(&self) -> (d: std::time::Duration)
        ensures
            exists|at: std::time::Instant| d == #[trigger] span(self.start_time, at),
    {
        let at = now();
        self.elapsed_at(&at)
    }
}

} // verus!
