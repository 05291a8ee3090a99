use latte_scripting::error::{Error, ErrorKind};
use latte_scripting::validation::ValidationSpec;
use latte_scripting::value::Value;

fn integer(i: i64) -> Value {
    Value::Int(i)
}

fn text(s: &str) -> Value {
    Value::Str(s.to_string())
}

fn spec(min_rows: u64, max_rows: u64, message: &str) -> ValidationSpec {
    ValidationSpec { min_rows, max_rows, message: message.to_string() }
}

fn normalize(args: Vec<Value>) -> Result<ValidationSpec, Error> {
    ValidationSpec::normalize(&args, "execute_with_validation")
}

fn invalid() -> Error {
    Error(ErrorKind::ArgumentError("Invalid arguments for execute_with_validation".to_string()))
}

#[test]
fn one_number_is_both_bounds() {
    assert_eq!(normalize(vec![integer(5)]), Ok(spec(5, 5, "")));
    assert_eq!(normalize(vec![integer(5)]), normalize(vec![integer(5), integer(5), text("")]));
}

#[test]
fn number_and_message_is_both_bounds_and_the_message() {
    assert_eq!(normalize(vec![integer(3), text("custom")]), Ok(spec(3, 3, "custom")));
    assert_eq!(
        normalize(vec![integer(3), text("custom")]),
        normalize(vec![integer(3), integer(3), text("custom")])
    );
}

#[test]
fn two_numbers_are_the_bounds() {
    assert_eq!(normalize(vec![integer(1), integer(9)]), Ok(spec(1, 9, "")));
    assert_eq!(normalize(vec![integer(1), integer(9)]), normalize(vec![integer(1), integer(9), text("")]));
    assert_eq!(normalize(vec![integer(9), integer(1)]), Ok(spec(9, 1, "")));
}

#[test]
fn two_numbers_and_message() {
    assert_eq!(normalize(vec![integer(0), integer(2), text("few")]), Ok(spec(0, 2, "few")));
}

#[test]
fn normalization_gives_the_same_every_time() {
    for _ in 0..3 {
        assert_eq!(normalize(vec![integer(7), text("m")]), Ok(spec(7, 7, "m")));
    }
}

#[test]
fn negative_numbers_keep_their_bits() {
    assert_eq!(normalize(vec![integer(-1)]), Ok(spec(u64::MAX, u64::MAX, "")));
    assert_eq!(normalize(vec![integer(i64::MIN), integer(i64::MAX)]), Ok(spec(1 << 63, (1 << 63) - 1, "")));
    assert_eq!(normalize(vec![integer(-2), text("x")]), Ok(spec(u64::MAX - 1, u64::MAX - 1, "x")));
}

#[test]
fn no_arguments_are_refused() {
    assert_eq!(normalize(vec![]), Err(invalid()));
}

#[test]
fn message_before_number_is_refused() {
    assert_eq!(normalize(vec![text("custom"), integer(3)]), Err(invalid()));
}

#[test]
fn other_shapes_are_refused() {
    let cases: Vec<Vec<Value>> = vec![
        vec![text("5")],
        vec![Value::Null],
        vec![Value::Bool(true)],
        vec![Value::Float(5)],
        vec![Value::List(vec![integer(5)])],
        vec![integer(1), Value::Null],
        vec![integer(1), Value::Float(0)],
        vec![text("a"), text("b")],
        vec![integer(1), integer(2), integer(3)],
        vec![integer(1), text("a"), text("b")],
        vec![integer(1), text("a"), integer(2)],
        vec![text("a"), integer(1), integer(2)],
        vec![integer(1), integer(2), Value::Bytes(vec![1])],
        vec![integer(1), integer(2), text("m"), integer(3)],
        vec![integer(1), integer(2), text("m"), text("n")],
    ];
    for args in cases {
        assert_eq!(ValidationSpec::normalize(&args, "execute_with_validation"), Err(invalid()));
    }
}

#[test]
fn refusal_names_the_called_function() {
    assert_eq!(
        ValidationSpec::normalize(&vec![], "execute_prepared_with_validation"),
        Err(Error(ErrorKind::ArgumentError(
            "Invalid arguments for execute_prepared_with_validation".to_string()
        )))
    );
}

#[test]
fn check_accepts_the_bounds_and_what_lies_between() {
    let bounds = spec(2, 4, "");
    assert_eq!(bounds.check(2), Ok(()));
    assert_eq!(bounds.check(3), Ok(()));
    assert_eq!(bounds.check(4), Ok(()));
    assert_eq!(spec(0, 0, "").check(0), Ok(()));
    assert_eq!(spec(0, u64::MAX, "").check(u64::MAX), Ok(()));
}

#[test]
fn check_describes_a_mismatch() {
    assert_eq!(
        spec(2, 4, "").check(1),
        Err(Error(ErrorKind::ValidationError(
            "Expected between 2 and 4 rows, but got 1".to_string()
        )))
    );
    assert_eq!(
        spec(2, 4, "").check(5),
        Err(Error(ErrorKind::ValidationError(
            "Expected between 2 and 4 rows, but got 5".to_string()
        )))
    );
    assert_eq!(
        spec(5, 5, "").check(0),
        Err(Error(ErrorKind::ValidationError("Expected 5 rows, but got 0".to_string())))
    );
}

#[test]
fn check_fails_with_the_given_message() {
    assert_eq!(
        spec(5, 5, "custom").check(6),
        Err(Error(ErrorKind::ValidationError("custom".to_string())))
    );
    assert_eq!(spec(5, 5, "custom").check(5), Ok(()));
}

#[test]
fn check_of_reversed_bounds_accepts_nothing() {
    let bounds = spec(9, 1, "");
    for rows in [0, 1, 5, 9, 10] {
        assert!(bounds.check(rows).is_err());
    }
}

#[test]
fn validation_errors_are_not_transient() {
    assert!(!spec(1, 1, "").check(2).unwrap_err().is_transient());
}

fn sample_bag() -> Value {
    Value::Object(vec![
        ("name".to_string(), text("worker")),
        ("count".to_string(), integer(-3)),
        ("ratio".to_string(), Value::Float(0x3FF8_0000_0000_0000)),
        ("flag".to_string(), Value::Bool(false)),
        ("blob".to_string(), Value::Bytes(vec![0, 255, 7])),
        ("none".to_string(), Value::Null),
        (
            "list".to_string(),
            Value::List(vec![integer(1), Value::List(vec![]), Value::Object(vec![])]),
        ),
    ])
}

#[test]
fn deep_copy_equals_its_source() {
    let bag = sample_bag();
    assert_eq!(bag.deep_copy().as_ref(), Ok(&bag));
    assert_eq!(Value::Null.deep_copy(), Ok(Value::Null));
    assert_eq!(integer(i64::MIN).deep_copy(), Ok(integer(i64::MIN)));
    assert_eq!(Value::List(vec![]).deep_copy(), Ok(Value::List(vec![])));
}

#[test]
fn changing_a_copy_leaves_the_source_alone() {
    let bag = sample_bag();
    let mut copy = bag.deep_copy().unwrap();
    if let Value::Object(entries) = &mut copy {
        entries[0].1 = text("changed");
        entries.push(("extra".to_string(), integer(1)));
        if let Value::List(items) = &mut entries[6].1 {
            items.clear();
        }
    }
    assert_ne!(copy, bag);
    assert_eq!(bag, sample_bag());
}

#[test]
fn handle_cannot_be_copied() {
    let failure = Error(ErrorKind::SerializationError(
        "The value holds a handle, which cannot be copied".to_string(),
    ));
    assert_eq!(Value::Handle(1).deep_copy(), Err(failure.clone()));
    let nested = Value::Object(vec![
        ("fine".to_string(), integer(1)),
        ("deep".to_string(), Value::List(vec![integer(2), Value::List(vec![Value::Handle(9)])])),
    ]);
    for _ in 0..3 {
        assert_eq!(nested.deep_copy(), Err(failure.clone()));
    }
    let in_map = Value::List(vec![Value::Object(vec![("h".to_string(), Value::Handle(0))])]);
    assert_eq!(in_map.deep_copy(), Err(failure));
}

#[test]
fn values_to_bind_in_the_order_of_the_markers() {
    assert_eq!(Value::Null.bound_values(), Vec::<&Value>::new());
    assert_eq!(integer(7).bound_values(), vec![&integer(7)]);
    assert_eq!(text("x").bound_values(), vec![&text("x")]);
    assert_eq!(Value::Handle(3).bound_values(), vec![&Value::Handle(3)]);
    let list = Value::List(vec![integer(1), Value::Null, Value::List(vec![integer(2)])]);
    assert_eq!(
        list.bound_values(),
        vec![&integer(1), &Value::Null, &Value::List(vec![integer(2)])]
    );
    assert_eq!(Value::List(vec![]).bound_values(), Vec::<&Value>::new());
    let map = Value::Object(vec![
        ("b".to_string(), integer(2)),
        ("a".to_string(), text("one")),
    ]);
    assert_eq!(map.bound_values(), vec![&integer(2), &text("one")]);
}
