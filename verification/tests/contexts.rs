use latte_scripting::alternator;
use latte_scripting::cassandra::cass_error::{classify, translate, DriverFailure};
use latte_scripting::cassandra::context::Context;
use latte_scripting::cassandra::functions::{
    batch_prepared, execute, get_datacenters, execute_prepared, execute_prepared_with_result,
    execute_prepared_with_validation, execute_with_result, execute_with_validation,
    get_partition_idx, get_partition_info, init_partition_row_distribution_preset, prepare,
    signal_failure, Partition,
};
use latte_scripting::cluster_info::{ClusterInfo, VersionsItem};
use latte_scripting::config::{RetryInterval, ValidationStrategy};
use latte_scripting::dynamodb;
use latte_scripting::dynamodb::dynamodb_error::DynamoDBErrorKind;
use latte_scripting::error::{Error, ErrorKind};
use latte_scripting::operation::{Operation, Request};
use latte_scripting::retry::RetryDecision;
use latte_scripting::stats::SessionStats;
use latte_scripting::validation::ValidationSpec;
use latte_scripting::value::Value;
use scylla::errors::{DbError, ExecutionError, RequestAttemptError};
use std::time::{Duration, Instant};

fn template() -> Context {
    Context::new(None, 2, RetryInterval::Fixed(5), ValidationStrategy::FailFast)
}

fn overloaded() -> Error {
    Error(ErrorKind::Overloaded("busy".to_string()))
}

/// Runs an operation as a worker would, against a backend whose attempts
/// end as `outcomes` say: the rows of a success, or the error of a failure.
/// Records the operation in the context and gives its result and the
/// number of attempts.
fn run(
    ctx: &mut Context,
    mut op: Operation,
    outcomes: Vec<Result<u64, Error>>,
) -> (Result<u64, Error>, usize) {
    let mut attempts = 0;
    let mut result = Err(Error(ErrorKind::Other("the backend was never asked".to_string())));
    for outcome in outcomes {
        attempts += 1;
        match outcome {
            Ok(rows) => {
                result = op.on_success(rows, 400).map(|_| rows);
                break;
            }
            Err(error) => match op.on_failure(error, 300) {
                RetryDecision::Retry { .. } => {}
                RetryDecision::GiveUp(e) => {
                    result = Err(e);
                    break;
                }
            },
        }
    }
    assert_eq!(op.attempts(), attempts as u64);
    ctx.record(&op, result.is_ok());
    (result, attempts)
}

#[test]
fn new_context_is_empty() {
    let ctx = template();
    assert!(ctx.session.is_none());
    assert_eq!(ctx.stats, SessionStats::new());
    assert_eq!(ctx.retry_number, 2);
    assert_eq!(ctx.retry_interval, RetryInterval::Fixed(5));
    assert_eq!(ctx.validation_strategy, ValidationStrategy::FailFast);
    assert_eq!(ctx.statements.len(), 0);
    assert_eq!(ctx.partition_row_presets.len(), 0);
    assert_eq!(ctx.load_cycle_count, 0);
    assert_eq!(ctx.data, Value::Object(vec![]));
}

#[test]
fn context_without_session_has_none_to_give() {
    let ctx = template();
    assert_eq!(
        ctx.get_session().err(),
        Some(Error(ErrorKind::Other(
            "The session with the cluster is not initialized".to_string()
        )))
    );
}

#[test]
fn clone_copies_the_template() {
    let mut ctx = template();
    ctx.load_cycle_count = 7;
    ctx.data = Value::Object(vec![("k".to_string(), Value::Int(1))]);
    prepare(&mut ctx, "ins", "INSERT INTO t (a) VALUES (?)");
    init_partition_row_distribution_preset(&mut ctx, "main", 1000, 10, "5:2").unwrap();
    ctx.stats.record(Operation::new(
        Request::Query { cql: "q".to_string() },
        None,
        false,
        0,
        RetryInterval::Fixed(0),
    ).sample(true));
    let copy = ctx.clone().unwrap();
    assert_eq!(copy.data, ctx.data);
    assert_eq!(copy.load_cycle_count, 7);
    assert_eq!(copy.retry_number, 2);
    assert_eq!(copy.retry_interval, RetryInterval::Fixed(5));
    assert_eq!(copy.validation_strategy, ValidationStrategy::FailFast);
    assert_eq!(copy.stats, SessionStats::new());
    assert_eq!(ctx.stats.operations, 1);
    assert_eq!(copy.statements.get("ins"), Some(&"INSERT INTO t (a) VALUES (?)".to_string()));
    assert_eq!(
        get_partition_info(&copy, "main", 50),
        Ok(Partition { idx: 1, rows_num: 50 })
    );
}

#[test]
fn clones_do_not_share_their_data_bags() {
    let mut ctx = template();
    ctx.data = Value::Object(vec![("k".to_string(), Value::List(vec![Value::Int(1)]))]);
    let mut first = ctx.clone().unwrap();
    let mut second = ctx.clone().unwrap();
    first.data = Value::Object(vec![("k".to_string(), Value::Int(2))]);
    if let Value::Object(entries) = &mut second.data {
        if let Value::List(items) = &mut entries[0].1 {
            items.push(Value::Int(3));
        }
    }
    assert_eq!(
        ctx.data,
        Value::Object(vec![("k".to_string(), Value::List(vec![Value::Int(1)]))])
    );
    assert_eq!(first.data, Value::Object(vec![("k".to_string(), Value::Int(2))]));
    assert_eq!(
        second.data,
        Value::Object(vec![(
            "k".to_string(),
            Value::List(vec![Value::Int(1), Value::Int(3)])
        )])
    );
}

#[test]
fn clones_do_not_share_statements_or_presets() {
    let mut ctx = template();
    prepare(&mut ctx, "ins", "first");
    let mut copy = ctx.clone().unwrap();
    prepare(&mut copy, "ins", "second");
    prepare(&mut copy, "sel", "third");
    init_partition_row_distribution_preset(&mut copy, "main", 10, 1, "").unwrap();
    assert_eq!(ctx.statements.get("ins"), Some(&"first".to_string()));
    assert_eq!(ctx.statements.len(), 1);
    assert!(!ctx.partition_row_presets.contains("main"));
}

#[test]
fn clone_fails_on_a_handle_every_time() {
    let mut ctx = template();
    ctx.data = Value::Object(vec![("h".to_string(), Value::Handle(4))]);
    for _ in 0..3 {
        assert_eq!(
            ctx.clone().err(),
            Some(Error(ErrorKind::SerializationError(
                "The value holds a handle, which cannot be copied".to_string()
            )))
        );
    }
}

#[test]
fn reset_zeroes_the_statistics_and_keeps_the_rest() {
    let mut ctx = template();
    prepare(&mut ctx, "ins", "q");
    ctx.load_cycle_count = 3;
    let op = execute(&ctx, "q");
    run(&mut ctx, op, vec![Ok(0)]);
    ctx.reset();
    assert_eq!(ctx.stats, SessionStats::new());
    assert_eq!(ctx.load_cycle_count, 3);
    assert!(ctx.statements.contains("ins"));
    assert!(ctx.elapsed().as_secs() < 3600);
}

#[test]
fn harvest_after_mixed_operations() {
    let mut ctx = template();
    let n = 10;
    for i in 0..n {
        let op = execute(&ctx, "q");
        if i % 3 == 0 {
            run(&mut ctx, op, vec![Err(Error(ErrorKind::Other("no".to_string())))]);
        } else {
            run(&mut ctx, op, vec![Err(overloaded()), Ok(1)]);
        }
    }
    let snapshot = ctx.take_session_stats();
    assert_eq!(snapshot.operations, n);
    assert_eq!(snapshot.failed, 4);
    assert_eq!(snapshot.succeeded, 6);
    assert_eq!(snapshot.attempts, 4 + 12);
    assert_eq!(snapshot.latency_nanos, 4 * 300 + 6 * 700);
    assert_eq!(ctx.take_session_stats(), SessionStats::new());
}

#[test]
fn prepared_statements_and_a_batch_count_as_three_operations() {
    let mut ctx = template();
    prepare(&mut ctx, "ins", "INSERT INTO t (a) VALUES (?)");
    let first_values = || Value::List(vec![Value::Int(1)]);
    let second_values = || Value::List(vec![Value::Int(2)]);
    let op = execute_prepared(&ctx, "ins", first_values()).unwrap();
    assert_eq!(run(&mut ctx, op, vec![Ok(0)]).0, Ok(0));
    let op = execute_prepared(&ctx, "ins", second_values()).unwrap();
    assert_eq!(run(&mut ctx, op, vec![Ok(0)]).0, Ok(0));
    let op = batch_prepared(&ctx, vec!["ins".to_string(), "ins".to_string()], vec![first_values(), second_values()])
        .unwrap();
    assert!(matches!(
        &op.request,
        Request::Batch { keys, params } if keys.len() == 2 && params == &vec![first_values(), second_values()]
    ));
    assert_eq!(run(&mut ctx, op, vec![Ok(0)]).0, Ok(0));
    assert_eq!(ctx.stats.operations, 3);
    assert_eq!(ctx.stats.succeeded, 3);
    assert_eq!(ctx.stats.attempts, 3);
}

#[test]
fn retried_batch_counts_once() {
    let mut ctx = template();
    prepare(&mut ctx, "ins", "q");
    let op = batch_prepared(
        &ctx,
        vec!["ins".to_string(), "ins".to_string()],
        vec![Value::Null, Value::Null],
    )
    .unwrap();
    let (result, attempts) = run(&mut ctx, op, vec![Err(overloaded()), Err(overloaded()), Ok(0)]);
    assert_eq!(result, Ok(0));
    assert_eq!(attempts, 3);
    assert_eq!(ctx.stats.operations, 1);
    assert_eq!(ctx.stats.attempts, 3);
    assert_eq!(ctx.stats.latency_nanos, 300 + 300 + 400);
}

#[test]
fn prepare_replaces_what_was_prepared() {
    let mut ctx = template();
    prepare(&mut ctx, "ins", "first");
    prepare(&mut ctx, "ins", "second");
    assert_eq!(ctx.statements.len(), 1);
    assert_eq!(ctx.statements.get("ins"), Some(&"second".to_string()));
}

#[test]
fn execute_plans_a_query() {
    let ctx = template();
    let op = execute(&ctx, "SELECT 1");
    assert!(matches!(&op.request, Request::Query { cql } if cql == "SELECT 1"));
    assert_eq!(op.validation, None);
    assert!(!op.with_result);
    assert_eq!(op.attempts(), 1);
    let op = execute_with_result(&ctx, "SELECT 2");
    assert!(matches!(&op.request, Request::Query { cql } if cql == "SELECT 2"));
    assert!(op.with_result);
}

#[test]
fn execute_with_validation_checks_the_rows_of_the_last_attempt() {
    let mut ctx = template();
    let op = execute_with_validation(&ctx, "q", &vec![Value::Int(1), Value::Int(2)]).unwrap();
    assert_eq!(
        op.validation,
        Some(ValidationSpec { min_rows: 1, max_rows: 2, message: String::new() })
    );
    assert_eq!(run(&mut ctx, op, vec![Err(overloaded()), Ok(2)]), (Ok(2), 2));
    let op = execute_with_validation(&ctx, "q", &vec![Value::Int(1), Value::Int(2)]).unwrap();
    let (result, attempts) = run(&mut ctx, op, vec![Ok(3), Ok(2)]);
    assert_eq!(
        result,
        Err(Error(ErrorKind::ValidationError(
            "Expected between 1 and 2 rows, but got 3".to_string()
        )))
    );
    assert_eq!(attempts, 1);
    let op =
        execute_with_validation(&ctx, "q", &vec![Value::Int(1), Value::Str("one!".to_string())])
            .unwrap();
    assert_eq!(
        run(&mut ctx, op, vec![Ok(0)]).0,
        Err(Error(ErrorKind::ValidationError("one!".to_string())))
    );
    assert_eq!(ctx.stats.operations, 3);
    assert_eq!(ctx.stats.failed, 2);
}

#[test]
fn out_of_shape_arguments_cause_no_operation() {
    let mut ctx = template();
    prepare(&mut ctx, "ins", "q");
    assert_eq!(
        execute_with_validation(&ctx, "q", &vec![]).err(),
        Some(Error(ErrorKind::ArgumentError(
            "Invalid arguments for execute_with_validation".to_string()
        )))
    );
    assert_eq!(
        execute_with_validation(&ctx, "q", &vec![Value::Str("m".to_string()), Value::Int(1)])
            .err(),
        Some(Error(ErrorKind::ArgumentError(
            "Invalid arguments for execute_with_validation".to_string()
        )))
    );
    assert_eq!(
        execute_prepared_with_validation(&ctx, "ins", Value::Null, &vec![]).err(),
        Some(Error(ErrorKind::ArgumentError(
            "Invalid arguments for execute_prepared_with_validation".to_string()
        )))
    );
    assert_eq!(
        execute_prepared_with_validation(&ctx, "missing", Value::Null, &vec![]).err(),
        Some(Error(ErrorKind::ArgumentError(
            "Invalid arguments for execute_prepared_with_validation".to_string()
        )))
    );
    assert_eq!(ctx.stats, SessionStats::new());
}

#[test]
fn unknown_key_is_a_lookup_error() {
    let mut ctx = template();
    prepare(&mut ctx, "ins", "q");
    let missing = Error(ErrorKind::LookupError(
        "No statement was prepared under the key sel".to_string(),
    ));
    assert_eq!(execute_prepared(&ctx, "sel", Value::Null).err(), Some(missing.clone()));
    assert_eq!(execute_prepared_with_result(&ctx, "sel", Value::Null).err(), Some(missing.clone()));
    assert_eq!(
        execute_prepared_with_validation(&ctx, "sel", Value::Null, &vec![Value::Int(1)]).err(),
        Some(missing.clone())
    );
    assert_eq!(
        batch_prepared(
            &ctx,
            vec!["ins".to_string(), "sel".to_string(), "upd".to_string()],
            vec![Value::Null, Value::Null, Value::Null]
        )
        .err(),
        Some(missing)
    );
    assert!(!missing_is_transient());
}

fn missing_is_transient() -> bool {
    Error(ErrorKind::LookupError(String::new())).is_transient()
}

#[test]
fn prepared_operations_carry_key_and_values() {
    let mut ctx = template();
    prepare(&mut ctx, "ins", "q");
    let params = Value::List(vec![Value::Int(1), Value::Str("x".to_string())]);
    let op = execute_prepared(&ctx, "ins", Value::List(vec![Value::Int(1), Value::Str("x".to_string())])).unwrap();
    assert!(matches!(&op.request, Request::Prepared { key, params: p } if key == "ins" && p == &params));
    assert!(!op.with_result);
    let op = execute_prepared_with_result(&ctx, "ins", Value::Null).unwrap();
    assert!(op.with_result);
    let op = execute_prepared_with_validation(&ctx, "ins", Value::Null, &vec![Value::Int(4)])
        .unwrap();
    assert_eq!(
        op.validation,
        Some(ValidationSpec { min_rows: 4, max_rows: 4, message: String::new() })
    );
}

#[test]
fn batch_needs_as_many_values_as_keys() {
    let mut ctx = template();
    prepare(&mut ctx, "ins", "q");
    let mismatch = Error(ErrorKind::ArgumentError(
        "A batch needs as many values as it has keys".to_string(),
    ));
    assert_eq!(
        batch_prepared(&ctx, vec!["ins".to_string()], vec![]).err(),
        Some(mismatch.clone())
    );
    assert_eq!(
        batch_prepared(&ctx, vec!["missing".to_string()], vec![Value::Null, Value::Null]).err(),
        Some(mismatch)
    );
    assert!(batch_prepared(&ctx, vec![], vec![]).is_ok());
}

#[test]
fn operation_is_attempted_once_more_than_its_budget() {
    let mut ctx = template();
    let op = execute(&ctx, "q");
    let (result, attempts) = run(&mut ctx, op, vec![Err(overloaded()), Err(overloaded()), Ok(5)]);
    assert_eq!((result, attempts), (Ok(5), 3));
    let op = execute(&ctx, "q");
    let (result, attempts) = run(
        &mut ctx,
        op,
        vec![Err(overloaded()), Err(overloaded()), Err(overloaded()), Ok(5)],
    );
    assert_eq!(result, Err(Error::query_retries_exceeded(2)));
    assert_eq!(attempts, 3);
    assert_eq!(ctx.stats.operations, 2);
    assert_eq!(ctx.stats.attempts, 6);
}

#[test]
fn signal_failure_always_fails_with_the_message() {
    let ctx = template();
    assert_eq!(
        signal_failure(&ctx, "row 5 is missing"),
        Err(Error(ErrorKind::CustomError("row 5 is missing".to_string())))
    );
    assert_eq!(signal_failure(&ctx, ""), Err(Error(ErrorKind::CustomError(String::new()))));
}

#[test]
fn presets_of_a_context() {
    let mut ctx = template();
    assert_eq!(
        init_partition_row_distribution_preset(&mut ctx, "main", 1000, 10, "5:2"),
        Ok(())
    );
    assert_eq!(get_partition_info(&ctx, "main", 0), Ok(Partition { idx: 0, rows_num: 50 }));
    assert_eq!(get_partition_idx(&ctx, "main", 0), Ok(0));
    assert_eq!(get_partition_idx(&ctx, "main", 100), Ok(2));
    assert_eq!(get_partition_info(&ctx, "main", 999), Ok(Partition { idx: 91, rows_num: 10 }));
    assert_eq!(
        get_partition_info(&ctx, "main", 1000),
        Err(Error(ErrorKind::LookupError("Row 1000 lies outside the preset".to_string())))
    );
    assert_eq!(
        get_partition_idx(&ctx, "other", 0),
        Err(Error(ErrorKind::LookupError(
            "Unknown partition row distribution preset: other".to_string()
        )))
    );
    assert_eq!(
        init_partition_row_distribution_preset(&mut ctx, "bad", 1000, 10, "5-2"),
        Err(Error(ErrorKind::ArgumentError(
            "The partition groups must be written as multiplier:partitions pairs separated by commas"
                .to_string()
        )))
    );
    assert!(!ctx.partition_row_presets.contains("bad"));
}

#[test]
fn alternator_context_without_client() {
    let mut ctx = alternator::context::Context::new(
        None,
        3,
        RetryInterval::Backoff { min_ms: 1, max_ms: 8 },
        ValidationStrategy::Ignore,
    );
    assert_eq!(ctx.retry_number, 3);
    assert_eq!(ctx.data, Value::Object(vec![]));
    let missing = Error(ErrorKind::Other("DynamoDB client is not initialized".to_string()));
    assert_eq!(ctx.get_client().err(), Some(missing.clone()));
    assert_eq!(ctx.cluster_info(&None), Err(missing));
    ctx.load_cycle_count = 2;
    ctx.data = Value::Object(vec![("k".to_string(), Value::Bool(true))]);
    let copy = ctx.clone().unwrap();
    assert_eq!(copy.data, ctx.data);
    assert_eq!(copy.load_cycle_count, 2);
    assert_eq!(copy.validation_strategy, ValidationStrategy::Ignore);
    assert!(copy.client.is_none());
    ctx.data = Value::Handle(1);
    assert!(matches!(ctx.clone(), Err(Error(ErrorKind::SerializationError(_)))));
    ctx.stats.operations = 4;
    assert_eq!(ctx.take_session_stats().operations, 4);
    assert_eq!(ctx.take_session_stats(), SessionStats::new());
    ctx.stats.failed = 1;
    ctx.reset();
    assert_eq!(ctx.stats, SessionStats::new());
    assert!(ctx.elapsed().as_secs() < 3600);
}

#[test]
fn dynamodb_context_without_client() {
    let mut ctx = dynamodb::context::Context::new(
        None,
        1,
        RetryInterval::Fixed(0),
        ValidationStrategy::FailFast,
    );
    assert_eq!(ctx.load_cycle_count, 0);
    let info = ctx.cluster_info().unwrap().unwrap();
    assert_eq!(info.name, "DynamoDB");
    assert_eq!(info.db_version, "DynamoDB");
    let failure = ctx.signal_failure("gave up").unwrap_err();
    assert!(matches!(&failure.0, DynamoDBErrorKind::CustomError(m) if m == "gave up"));
    assert_eq!(failure.to_string(), "gave up");
    let failure = dynamodb::functions::signal_failure(&ctx, "again").unwrap_err();
    assert!(matches!(&failure.0, DynamoDBErrorKind::CustomError(m) if m == "again"));
    ctx.load_cycle_count = 9;
    ctx.stats.succeeded = 2;
    let copy = ctx.clone().unwrap();
    assert_eq!(copy.load_cycle_count, 9);
    assert_eq!(copy.stats, SessionStats::new());
    assert_eq!(ctx.take_session_stats().succeeded, 2);
    assert_eq!(ctx.take_session_stats(), SessionStats::new());
    ctx.reset();
    assert!(ctx.elapsed().as_secs() < 3600);
}

#[test]
fn cluster_descriptions() {
    let item = |v: Option<&str>, b: Option<&str>| VersionsItem {
        version: v.map(|s| s.to_string()),
        build_id: b.map(|s| s.to_string()),
    };
    let info = ClusterInfo::of_scylla(&item(Some("2025.1.0"), Some("abc123")));
    assert_eq!(info.name, "");
    assert_eq!(info.db_version, "ScyllaDB 2025.1.0 with build-id abc123");
    assert_eq!(
        ClusterInfo::of_scylla(&item(None, Some("abc"))).db_version,
        "ScyllaDB unknown with build-id abc"
    );
    assert_eq!(
        ClusterInfo::of_scylla(&item(Some("6.2"), None)).db_version,
        "ScyllaDB 6.2 with build-id unknown"
    );
    assert_eq!(
        ClusterInfo::of_versions(&Some(item(None, None))).db_version,
        "ScyllaDB unknown with build-id unknown"
    );
    assert_eq!(
        ClusterInfo::of_versions(&None),
        ClusterInfo { name: String::new(), db_version: "unavailable".to_string() }
    );
    assert_eq!(ClusterInfo::unavailable().db_version, "unavailable");
    assert_eq!(ClusterInfo::of_dynamodb().name, "DynamoDB");
}

#[test]
fn datacenters_once_each_in_the_order_first_named() {
    let node = |name: &str| Some(name.to_string());
    assert_eq!(get_datacenters(&vec![]), Vec::<String>::new());
    assert_eq!(get_datacenters(&vec![None, None]), Vec::<String>::new());
    assert_eq!(
        get_datacenters(&vec![node("dc2"), node("dc1"), None, node("dc2"), node("dc3"), node("dc1")]),
        vec!["dc2".to_string(), "dc1".to_string(), "dc3".to_string()]
    );
    assert_eq!(get_datacenters(&vec![node(""), node("")]), vec![String::new()]);
}

#[test]
fn driver_failures_in_the_terms_of_the_core() {
    let text = || "the driver's words".to_string();
    for failure in
        [DriverFailure::RequestTimeout, DriverFailure::ReadTimeout, DriverFailure::WriteTimeout]
    {
        assert_eq!(classify(failure, text()), Error(ErrorKind::Timeout(text())));
    }
    for failure in [DriverFailure::Overloaded, DriverFailure::RateLimitReached] {
        assert_eq!(classify(failure, text()), Error(ErrorKind::Overloaded(text())));
    }
    assert_eq!(classify(DriverFailure::Other, text()), Error(ErrorKind::Other(text())));
    assert!(!classify(DriverFailure::Other, text()).is_transient());
    assert!(classify(DriverFailure::RateLimitReached, text()).is_transient());
}

#[test]
fn driver_errors_are_told_apart() {
    let timeout = ExecutionError::RequestTimeout(std::time::Duration::from_millis(30));
    assert_eq!(
        translate(&timeout),
        Error(ErrorKind::Timeout("Request execution exceeded a client timeout of 30ms".to_string()))
    );
    let overloaded = ExecutionError::LastAttemptError(RequestAttemptError::DbError(
        DbError::Overloaded,
        "too busy".to_string(),
    ));
    assert!(matches!(translate(&overloaded), Error(ErrorKind::Overloaded(m)) if m.contains("too busy")));
    let syntax = ExecutionError::LastAttemptError(RequestAttemptError::DbError(
        DbError::SyntaxError,
        "no viable alternative".to_string(),
    ));
    assert!(matches!(translate(&syntax), Error(ErrorKind::Other(m)) if m.contains("no viable alternative")));
    assert!(matches!(translate(&ExecutionError::EmptyPlan), Error(ErrorKind::Other(_))));
}

#[test]
fn clock_starts_at_the_reading_given() {
    let at = Instant::now();
    let later = at + Duration::from_millis(1500);
    let mut ctx =
        Context::new_at(None, 1, RetryInterval::Fixed(0), ValidationStrategy::FailFast, at);
    assert_eq!(ctx.start_time, at);
    assert_eq!(ctx.elapsed_at(&later), Duration::from_millis(1500));
    assert_eq!(ctx.elapsed_at(&at), Duration::ZERO);
    let copy = ctx.clone_at(later).unwrap();
    assert_eq!(copy.start_time, later);
    assert_eq!(ctx.start_time, at);
    assert_eq!(copy.elapsed_at(&(later + Duration::from_secs(2))), Duration::from_secs(2));
    assert_eq!(copy.elapsed_at(&at), Duration::ZERO);
    ctx.stats.operations = 5;
    ctx.load_cycle_count = 4;
    ctx.reset_at(later);
    assert_eq!(ctx.start_time, later);
    assert_eq!(ctx.stats, SessionStats::new());
    assert_eq!(ctx.load_cycle_count, 4);
    assert_eq!(ctx.elapsed_at(&(later + Duration::from_nanos(7))), Duration::from_nanos(7));
}

#[test]
fn clocks_of_the_key_value_contexts() {
    let at = Instant::now();
    let later = at + Duration::from_secs(3);
    let mut first = alternator::context::Context::new_at(
        None,
        1,
        RetryInterval::Fixed(0),
        ValidationStrategy::FailFast,
        at,
    );
    assert_eq!(first.elapsed_at(&later), Duration::from_secs(3));
    assert_eq!(first.clone_at(later).unwrap().start_time, later);
    first.reset_at(later);
    assert_eq!(first.elapsed_at(&later), Duration::ZERO);
    assert_eq!(first.elapsed_at(&at), Duration::ZERO);
    let mut second = dynamodb::context::Context::new_at(
        None,
        1,
        RetryInterval::Fixed(0),
        ValidationStrategy::FailFast,
        at,
    );
    assert_eq!(second.elapsed_at(&later), Duration::from_secs(3));
    assert_eq!(second.clone_at(later).unwrap().start_time, later);
    second.reset_at(later);
    assert_eq!(second.start_time, later);
}

#[test]
fn clone_and_reset_restart_the_clock() {
    let at = Instant::now();
    let mut ctx =
        Context::new_at(None, 1, RetryInterval::Fixed(0), ValidationStrategy::FailFast, at);
    while Instant::now() == at {}
    let copy = ctx.clone().unwrap();
    assert!(copy.start_time > at);
    assert_eq!(ctx.start_time, at);
    assert!(ctx.elapsed() > Duration::ZERO);
    ctx.reset();
    assert!(ctx.start_time > at);
}

#[test]
fn operations_start_without_latency() {
    let mut ctx = template();
    prepare(&mut ctx, "ins", "q");
    assert_eq!(execute(&ctx, "q").latency_nanos, 0);
    assert_eq!(execute_with_result(&ctx, "q").latency_nanos, 0);
    assert_eq!(
        execute_with_validation(&ctx, "q", &vec![Value::Int(1)]).unwrap().latency_nanos,
        0
    );
    assert_eq!(execute_prepared(&ctx, "ins", Value::Null).unwrap().latency_nanos, 0);
    assert_eq!(execute_prepared_with_result(&ctx, "ins", Value::Null).unwrap().latency_nanos, 0);
    assert_eq!(
        execute_prepared_with_validation(&ctx, "ins", Value::Null, &vec![Value::Int(1)])
            .unwrap()
            .latency_nanos,
        0
    );
    assert_eq!(batch_prepared(&ctx, vec![], vec![]).unwrap().latency_nanos, 0);
    let mut op = execute(&ctx, "q");
    op.on_failure(overloaded(), 250);
    op.on_failure(overloaded(), u64::MAX - 100);
    assert_eq!(op.latency_nanos, u64::MAX);
    assert_eq!(op.on_success(0, 5), Ok(()));
    assert_eq!(op.latency_nanos, u64::MAX);
    assert_eq!(op.attempts(), 3);
}
