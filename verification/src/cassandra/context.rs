//! The execution context of one worker of the wide-column backend.
//!
//! A template context is made once, after the session with the cluster is
//! open. Every worker gets a clone of it. The clones share the session and
//! nothing else: each has its own data bag, statistics, clock, statements
//! and presets, and each is used by one worker at a time.

use crate::clock::{now, span, span_between};
use crate::cluster_info::ClusterInfo;
use crate::config::{RetryInterval, ValidationStrategy};
use crate::error::{Error, ErrorKind};
use crate::named_table::NamedTable;
use crate::operation::Operation;
use crate::row_distribution::{copy_presets, preset_views, RowDistributionPreset};
use crate::stats::{capped_sum, Sample, SessionStats};
use crate::value::{lemma_value_view, Value, ValueView};
use std::sync::Arc;
use vstd::prelude::*;

verus! {

#[verifier::external_type_specification]
#[verifier::external_body]
pub struct ExSession(scylla::client::session::Session);

/// Calls `Arc::clone` of the standard library, which makes another pointer
/// to the same session: the result is the session that `session` points to.
#[verifier::external_body]
fn share_session(session: &Arc<scylla::client::session::Session>) -> (shared: Arc<
    scylla::client::session::Session,
>)
    ensures
        shared == *session,
{
    Arc::clone(session)
}

/// The text of the error for a context that was made without a session.
pub open spec fn no_session_text() -> Seq<char> {
    "The session with the cluster is not initialized"@
}

/// The execution context of a worker.
pub struct Context {
    /// The session with the cluster, which all workers share. A context
    /// without a session can plan and count operations, but send none.
    pub session: Option<Arc<scylla::client::session::Session>>,
    /// What the worker has done since the statistics were last taken.
    pub stats: SessionStats,
    /// When the worker's clock was last restarted.
    pub start_time: std::time::Instant,
    /// How often an operation may be retried.
    pub retry_number: u64,
    pub retry_interval: RetryInterval,
    pub validation_strategy: ValidationStrategy,
    /// The text of every prepared statement, under the key it was prepared
    /// with.
    pub statements: NamedTable<String>,
    pub partition_row_presets: NamedTable<RowDistributionPreset>,
    /// The number of the load cycle that the worker is in.
    pub load_cycle_count: u64,
    /// The worker's data bag, which the workload reads and writes.
    pub data: Value,
}

impl Context {
    /// The template context: no statements, no presets, an empty map as
    /// data bag, statistics at zero, load cycle 0 and a clock that starts
    /// at the reading `at`.
    pub fn new_at(
        session: Option<Arc<scylla::client::session::Session>>,
        retry_number: u64,
        retry_interval: RetryInterval,
        validation_strategy: ValidationStrategy,
        at: std::time::Instant,
    ) -> (ctx: Context)
        ensures
            ctx.session == session,
            ctx.stats == SessionStats::zero(),
            ctx.start_time == at,
            ctx.retry_number == retry_number,
            ctx.retry_interval == retry_interval,
            ctx.validation_strategy == validation_strategy,
            ctx.statements@ == Map::<Seq<char>, String>::empty(),
            ctx.partition_row_presets@ == Map::<Seq<char>, RowDistributionPreset>::empty(),
            ctx.load_cycle_count == 0,
            ctx.data@ == ValueView::Object(Seq::empty()),
    {
        let data = Value::Object(Vec::new());
        proof {
            lemma_value_view(data);
        }
        Context {
            session,
            stats: SessionStats::new(),
            start_time: at,
            retry_number,
            retry_interval,
            validation_strategy,
            statements: NamedTable::new(),
            partition_row_presets: NamedTable::new(),
            load_cycle_count: 0,
            data,
        }
    }

    /// The template context: no statements, no presets, an empty map as
    /// data bag, statistics at zero, load cycle 0 and a clock that starts
    /// now.
    pub fn new(
        session: Option<Arc<scylla::client::session::Session>>,
        retry_number: u64,
        retry_interval: RetryInterval,
        validation_strategy: ValidationStrategy,
    ) -> (ctx: Context)
        ensures
            ctx.session == session,
            ctx.stats == SessionStats::zero(),
            ctx.retry_number == retry_number,
            ctx.retry_interval == retry_interval,
            ctx.validation_strategy == validation_strategy,
            ctx.statements@ == Map::<Seq<char>, String>::empty(),
            ctx.partition_row_presets@ == Map::<Seq<char>, RowDistributionPreset>::empty(),
            ctx.load_cycle_count == 0,
            ctx.data@ == ValueView::Object(Seq::empty()),
    {
        Context::new_at(session, retry_number, retry_interval, validation_strategy, now())
    }

    /// A context for another worker. It shares the session. It has a copy
    /// of the data bag, of the statements and of the presets, the same
    /// settings and load cycle, statistics at zero and a clock that starts
    /// at the reading `at`. Fails with a serialization error if the data bag
    /// holds a handle.
    pub fn clone_at(&self, at: std::time::Instant) -> (r: Result<Context, Error>)
        ensures
            match r {
                Ok(copy) => {
                    &&& self.data@.copyable()
                    &&& copy.data@ == self.data@
                    &&& copy.session == self.session
                    &&& copy.stats == SessionStats::zero()
                    &&& copy.start_time == at
                    &&& copy.retry_number == self.retry_number
                    &&& copy.retry_interval == self.retry_interval
                    &&& copy.validation_strategy == self.validation_strategy
                    &&& copy.statements@ == self.statements@
                    &&& preset_views(copy.partition_row_presets@) == preset_views(
                        self.partition_row_presets@,
                    )
                    &&& copy.load_cycle_count == self.load_cycle_count
                },
                Err(e) => {
                    &&& !self.data@.copyable()
                    &&& e.0 is SerializationError
                    &&& e.0.text() == crate::value::uncopyable_text()
                },
            },
    {
        let data = self.data.deep_copy()?;
        let session = match &self.session {
            Some(session) => Some(share_session(session)),
            None => None,
        };
        let statements = self.statements.clone();
        assert(statements@ =~= self.statements@) by {
            assert forall|key: Seq<char>| #[trigger]
                self.statements@.contains_key(key) implies statements@[key]
                == self.statements@[key] by {
                assert(cloned(self.statements@[key], statements@[key]));
            }
        }
        Ok(
            Context {
                session,
                stats: SessionStats::new(),
                start_time: at,
                retry_number: self.retry_number,
                retry_interval: self.retry_interval,
                validation_strategy: self.validation_strategy,
                statements,
                partition_row_presets: copy_presets(&self.partition_row_presets),
                load_cycle_count: self.load_cycle_count,
                data,
            },
        )
    }

    /// A context for another worker. It shares the session. It has a copy
    /// of the data bag, of the statements and of the presets, the same
    /// settings and load cycle, statistics at zero and a clock that starts
    /// now. Fails with a serialization error if the data bag holds a handle.
    pub fn clone(&self) -> (r: Result<Context, Error>)
        ensures
            match r {
                Ok(copy) => {
                    &&& self.data@.copyable()
                    &&& copy.data@ == self.data@
                    &&& copy.session == self.session
                    &&& copy.stats == SessionStats::zero()
                    &&& copy.retry_number == self.retry_number
                    &&& copy.retry_interval == self.retry_interval
                    &&& copy.validation_strategy == self.validation_strategy
                    &&& copy.statements@ == self.statements@
                    &&& preset_views(copy.partition_row_presets@) == preset_views(
                        self.partition_row_presets@,
                    )
                    &&& copy.load_cycle_count == self.load_cycle_count
                },
                Err(e) => {
                    &&& !self.data@.copyable()
                    &&& e.0 is SerializationError
                    &&& e.0.text() == crate::value::uncopyable_text()
                },
            },
    {
        self.clone_at(now())
    }

    /// The session with the cluster. Fails if the context was made without
    /// one.
    pub fn get_session(&self) -> (r: Result<&Arc<scylla::client::session::Session>, Error>)
        ensures
            match r {
                Ok(session) => self.session == Some(*session),
                Err(e) => self.session is None && e.0 is Other && e.0.text()
                    == no_session_text(),
            },
    {
        match &self.session {
            Some(session) => Ok(session),
            None => Err(
                Error(
                    ErrorKind::Other(
                        String::from_str("The session with the cluster is not initialized"),
                    ),
                ),
            ),
        }
    }

    /// The description of the cluster to report, after the cluster was asked
    /// for its name and version and answered with `found`, or not at all. A
    /// cluster that does not answer is reported as unavailable, and the run
    /// goes on.
    pub fn cluster_info(&self, found: Option<ClusterInfo>) -> (info: ClusterInfo)
        ensures
            found matches Some(told) ==> info == told,
            found is None ==> info.name@ == Seq::<char>::empty() && info.db_version@
                == "unavailable"@,
    {
        match found {
            Some(told) => told,
            None => ClusterInfo::unavailable(),
        }
    }

    /// Counts an operation that has ended, with success or without: one
    /// operation, with all of its attempts and the time they took together.
    /// Nothing but the statistics changes.
    pub fn record(&mut self, op: &Operation, succeeded: bool)
        ensures
            final(self).stats == old(self).stats.with(
                Sample {
                    attempts: capped_sum(op.retry@.retries as u64, 1),
                    succeeded,
                    latency_nanos: op.latency_nanos,
                },
            ),
            *final(self) == (Context { stats: final(self).stats, ..*old(self) }),
    {
        self.stats.record(op.sample(succeeded));
    }

    /// Hands out the statistics and sets them to zero. Nothing else
    /// changes.
    pub fn take_session_stats(&mut self) -> (snapshot: SessionStats)
        ensures
            (snapshot, final(self).stats) == old(self).stats.harvested(),
            *final(self) == (Context { stats: final(self).stats, ..*old(self) }),
    {
        self.stats.take()
    }

    /// Sets the statistics to zero and restarts the clock at the reading
    /// `at`. Nothing else changes.
    pub fn reset_at(&mut self, at: std::time::Instant)
        ensures
            *final(self) == (Context {
                stats: SessionStats::zero(),
                start_time: at,
                ..*old(self)
            }),
    {
        self.stats.reset();
        self.start_time = at;
    }

    /// Sets the statistics to zero and restarts the clock. Nothing else
    /// changes.
    pub fn reset(&mut self)
        ensures
            *final(self) == (Context {
                stats: SessionStats::zero(),
                start_time: final(self).start_time,
                ..*old(self)
            }),
    {
        self.reset_at(now());
    }

    /// The time from the last restart of the clock to the reading `at`, or
    /// no time if `at` was taken before the restart.
    pub fn elapsed_at(&self, at: &std::time::Instant) -> (d: std::time::Duration)
        ensures
            d == span(self.start_time, *at),
    {
        span_between(&self.start_time, at)
    }

    /// The time that has passed since the clock was last restarted: the
    /// time from the restart to a reading that is taken now.
    pub fn elapsed(&self) -> (d: std::time::Duration)
        ensures
            exists|at: std::time::Instant| d == #[trigger] span(self.start_time, at),
    {
        let at = now();
        self.elapsed_at(&at)
    }
}

} // verus!
