use latte_scripting::dynamodb::dynamodb_error::{DynamoDBError, DynamoDBErrorKind};
use latte_scripting::error::{retries_exceeded_message, Error, ErrorKind};
use latte_scripting::text::{decimal_string, push_decimal, str_eq};

#[test]
fn decimal_of_zero_is_one_digit() {
    assert_eq!(decimal_string(0), "0");
}

#[test]
fn decimal_of_small_and_large_numbers() {
    assert_eq!(decimal_string(7), "7");
    assert_eq!(decimal_string(10), "10");
    assert_eq!(decimal_string(1000), "1000");
    assert_eq!(decimal_string(90210), "90210");
    assert_eq!(decimal_string(u64::MAX), "18446744073709551615");
}

#[test]
fn push_decimal_appends() {
    let mut s = String::from("n=");
    push_decimal(&mut s, 42);
    push_decimal(&mut s, 0);
    assert_eq!(s, "n=420");
}

#[test]
fn str_eq_compares_characters() {
    assert!(str_eq("", ""));
    assert!(str_eq("quorum", "quorum"));
    assert!(!str_eq("quorum", "quorun"));
    assert!(!str_eq("quorum", "quoru"));
    assert!(!str_eq("", "a"));
    assert!(str_eq("zażółć", "zażółć"));
    assert!(!str_eq("zażółć", "zazolc"));
}

#[test]
fn retries_exceeded_message_names_the_budget() {
    assert_eq!(retries_exceeded_message(0), "Max retry attempts (0) reached");
    assert_eq!(retries_exceeded_message(10), "Max retry attempts (10) reached");
}

#[test]
fn shared_error_query_retries_exceeded() {
    let e = Error::query_retries_exceeded(3);
    assert_eq!(
        e,
        Error(ErrorKind::QueryRetriesExceeded("Max retry attempts (3) reached".to_string()))
    );
    assert_eq!(e.to_string(), "QueryRetriesExceeded: Max retry attempts (3) reached");
}

#[test]
fn shared_error_display_of_every_kind() {
    let s = |t: &str| t.to_string();
    assert_eq!(
        Error(ErrorKind::ConnectionError(s("10.0.0.1"), s("refused"))).to_string(),
        "Failed to connect to 10.0.0.1: refused"
    );
    assert_eq!(Error(ErrorKind::Overloaded(s("busy"))).to_string(), "Overloaded: busy");
    assert_eq!(Error(ErrorKind::Timeout(s("late"))).to_string(), "Timeout: late");
    assert_eq!(
        Error(ErrorKind::ValidationError(s("2 rows"))).to_string(),
        "ValidationError: 2 rows"
    );
    assert_eq!(Error(ErrorKind::ArgumentError(s("bad"))).to_string(), "bad");
    assert_eq!(Error(ErrorKind::CustomError(s("mine"))).to_string(), "mine");
    assert_eq!(Error(ErrorKind::LookupError(s("where"))).to_string(), "where");
    assert_eq!(
        Error(ErrorKind::SerializationError(s("handle"))).to_string(),
        "SerializationError: handle"
    );
    assert_eq!(Error(ErrorKind::Other(s("else"))).to_string(), "else");
}

#[test]
fn only_overload_and_timeout_are_transient() {
    let s = |t: &str| t.to_string();
    assert!(Error(ErrorKind::Overloaded(s("x"))).is_transient());
    assert!(Error(ErrorKind::Timeout(s("x"))).is_transient());
    assert!(!Error(ErrorKind::ConnectionError(s("a"), s("x"))).is_transient());
    assert!(!Error(ErrorKind::QueryRetriesExceeded(s("x"))).is_transient());
    assert!(!Error(ErrorKind::ValidationError(s("x"))).is_transient());
    assert!(!Error(ErrorKind::ArgumentError(s("x"))).is_transient());
    assert!(!Error(ErrorKind::CustomError(s("x"))).is_transient());
    assert!(!Error(ErrorKind::LookupError(s("x"))).is_transient());
    assert!(!Error(ErrorKind::SerializationError(s("x"))).is_transient());
    assert!(!Error(ErrorKind::Other(s("x"))).is_transient());
}

#[test]
fn dynamodb_query_retries_exceeded() {
    let e = DynamoDBError::query_retries_exceeded(5);
    assert!(matches!(
        &e.0,
        DynamoDBErrorKind::QueryRetriesExceeded(s) if s == "Max retry attempts (5) reached"
    ));
    assert_eq!(e.to_string(), "QueryRetriesExceeded: Max retry attempts (5) reached");
    let big = DynamoDBError::query_retries_exceeded(u64::MAX);
    assert_eq!(
        big.to_string(),
        "QueryRetriesExceeded: Max retry attempts (18446744073709551615) reached"
    );
}

#[test]
fn dynamodb_error_display_of_every_kind() {
    let s = |t: &str| t.to_string();
    assert_eq!(
        DynamoDBError(DynamoDBErrorKind::FailedToConnect(s("host:8000"), s("no route")))
            .to_string(),
        "Failed to connect to DynamoDB at host:8000: no route"
    );
    assert_eq!(
        DynamoDBError(DynamoDBErrorKind::Overloaded(s("throttled"))).to_string(),
        "Overloaded: throttled"
    );
    assert_eq!(DynamoDBError(DynamoDBErrorKind::CustomError(s("stop"))).to_string(), "stop");
    assert_eq!(DynamoDBError(DynamoDBErrorKind::Error(s("oops"))).to_string(), "oops");
}

#[test]
fn dynamodb_error_translates_into_the_shared_kinds() {
    let s = |t: &str| t.to_string();
    assert_eq!(
        DynamoDBError(DynamoDBErrorKind::FailedToConnect(s("h"), s("c"))).into_error(),
        Error(ErrorKind::ConnectionError(s("h"), s("c")))
    );
    assert_eq!(
        DynamoDBError(DynamoDBErrorKind::QueryRetriesExceeded(s("q"))).into_error(),
        Error(ErrorKind::QueryRetriesExceeded(s("q")))
    );
    assert_eq!(
        DynamoDBError(DynamoDBErrorKind::Overloaded(s("o"))).into_error(),
        Error(ErrorKind::Overloaded(s("o")))
    );
    assert_eq!(
        DynamoDBError(DynamoDBErrorKind::CustomError(s("c"))).into_error(),
        Error(ErrorKind::CustomError(s("c")))
    );
    assert_eq!(
        DynamoDBError(DynamoDBErrorKind::Error(s("e"))).into_error(),
        Error(ErrorKind::Other(s("e")))
    );
    assert!(DynamoDBError(DynamoDBErrorKind::Overloaded(s("o"))).into_error().is_transient());
}
