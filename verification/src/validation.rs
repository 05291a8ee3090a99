//! Row-count validation: the bounds that a call puts on the number of rows
//! of its result, and the check of a result against them.
//!
//! A call states its bounds in one of four shapes: `(expected)`,
//! `(min, max)`, `(expected, message)` or `(min, max, message)`. The numbers
//! are integers and the message is a string. Nothing else is accepted.

use crate::error::{Error, ErrorKind};
use crate::text::{decimal, push_decimal};
use crate::value::{lemma_list_view, lemma_value_view, list_view, Value, ValueView};
use vstd::prelude::*;

verus! {

/// The bounds on a result's number of rows, both inclusive, and the message
/// to fail with. An empty message stands for none.
#[derive(Debug, Clone, PartialEq, Eq)]
pub struct ValidationSpec {
    pub min_rows: u64,
    pub max_rows: u64,
    pub message: String,
}

/// What a [`ValidationSpec`] holds.
pub struct ValidationView {
    pub min_rows: nat,
    pub max_rows: nat,
    pub message: Seq<char>,
}

impl View for ValidationSpec {
    type V = ValidationView;

    open spec fn view(&self) -> ValidationView {
        ValidationView {
            min_rows: self.min_rows as nat,
            max_rows: self.max_rows as nat,
            message: self.message@,
        }
    }
}

/// The row count that the integer `i` states. A negative integer is read as
/// the unsigned number with the same 64 bits.
pub open spec fn row_count(i: int) -> nat {
    if i >= 0 {
        i as nat
    } else {
        (i + 0x1_0000_0000_0000_0000) as nat
    }
}

/// The bounds that `args` state, or `None` if `args` has none of the four
/// accepted shapes.
pub open spec fn normalized(args: Seq<ValueView>) -> Option<ValidationView> {
    if args.len() == 1 {
        match args[0] {
            ValueView::Int(expected) => Some(
                ValidationView {
                    min_rows: row_count(expected),
                    max_rows: row_count(expected),
                    message: Seq::empty(),
                },
            ),
            _ => None,
        }
    } else if args.len() == 2 {
        match (args[0], args[1]) {
            (ValueView::Int(min), ValueView::Int(max)) => Some(
                ValidationView {
                    min_rows: row_count(min),
                    max_rows: row_count(max),
                    message: Seq::empty(),
                },
            ),
            (ValueView::Int(expected), ValueView::Str(message)) => Some(
                ValidationView {
                    min_rows: row_count(expected),
                    max_rows: row_count(expected),
                    message,
                },
            ),
            _ => None,
        }
    } else if args.len() == 3 {
        match (args[0], args[1], args[2]) {
            (ValueView::Int(min), ValueView::Int(max), ValueView::Str(message)) => Some(
                ValidationView { min_rows: row_count(min), max_rows: row_count(max), message },
            ),
            _ => None,
        }
    } else {
        None
    }
}

/// The text of the error for arguments of no accepted shape, in a call of
/// the function of the given name.
pub open spec fn invalid_arguments_text(function: Seq<char>) -> Seq<char> {
    "Invalid arguments for "@ + function
}

impl ValidationView {
    /// Whether a result of `rows` rows lies within the bounds.
    pub open spec fn accepts(self, rows: nat) -> bool {
        self.min_rows <= rows <= self.max_rows
    }

    /// The text of the error for a result of `rows` rows that lies outside
    /// the bounds: the message given with the bounds, or, where none was
    /// given, a description of what was expected and what came.
    pub open spec fn mismatch_text(self, rows: nat) -> Seq<char> {
        if self.message.len() > 0 {
            self.message
        } else if self.min_rows == self.max_rows {
            "Expected "@ + decimal(self.min_rows) + " rows, but got "@ + decimal(rows)
        } else {
            "Expected between "@ + decimal(self.min_rows) + " and "@ + decimal(self.max_rows)
                + " rows, but got "@ + decimal(rows)
        }
    }
}

fn as_row_count(i: i64) -> (n: u64)
    ensures
        n == row_count(i as int),
{
    if i >= 0 {
        i as u64
    } else {
        u64::MAX - ((-(i + 1)) as u64)
    }
}

impl ValidationSpec {
    /// Reads the bounds out of a call's validation arguments. Fails with an
    /// argument error, which names the called function, if the arguments
    /// have none of the four accepted shapes.
    pub fn normalize(args: &Vec<Value>, function: &str) -> (r: Result<ValidationSpec, Error>)
        ensures
            match r {
                Ok(spec) => normalized(list_view(args@)) == Some(spec@),
                Err(e) => {
                    &&& normalized(list_view(args@)) is None
                    &&& e.0 is ArgumentError
                    &&& e.0.text() == invalid_arguments_text(function@)
                },
            },
    {
        proof {
            lemma_list_view(args@);
            if args@.len() >= 1 {
                lemma_value_view(args@[0]);
            }
            if args@.len() >= 2 {
                lemma_value_view(args@[1]);
            }
            if args@.len() >= 3 {
                lemma_value_view(args@[2]);
            }
        }
        let n: usize = args.len();
        if n == 1 {
            if let Value::Int(expected) = &args[0] {
                let rows: u64 = as_row_count(*expected);
                return Ok(ValidationSpec { min_rows: rows, max_rows: rows, message: String::new() });
            }
        } else if n == 2 {
            if let Value::Int(first) = &args[0] {
                match &args[1] {
                    Value::Int(max) => {
                        return Ok(
                            ValidationSpec {
                                min_rows: as_row_count(*first),
                                max_rows: as_row_count(*max),
                                message: String::new(),
                            },
                        );
                    },
                    Value::Str(message) => {
                        let rows: u64 = as_row_count(*first);
                        return Ok(
                            ValidationSpec {
                                min_rows: rows,
                                max_rows: rows,
                                message: message.clone(),
                            },
                        );
                    },
                    _ => {},
                }
            }
        } else if n == 3 {
            if let Value::Int(min) = &args[0] {
                if let Value::Int(max) = &args[1] {
                    if let Value::Str(message) = &args[2] {
                        return Ok(
                            ValidationSpec {
                                min_rows: as_row_count(*min),
                                max_rows: as_row_count(*max),
                                message: message.clone(),
                            },
                        );
                    }
                }
            }
        }
        let mut text = String::from_str("Invalid arguments for ");
        text.append(function);
        Err(Error(ErrorKind::ArgumentError(text)))
    }

    /// Checks a result of `rows` rows against the bounds. Fails with a
    /// validation error if `rows` lies outside them.
    pub fn check(&self, rows: u64) -> (r: Result<(), Error>)
        ensures
            match r {
                Ok(_) => self@.accepts(rows as nat),
                Err(e) => {
                    &&& !self@.accepts(rows as nat)
                    &&& e.0 is ValidationError
                    &&& e.0.text() == self@.mismatch_text(rows as nat)
                },
            },
    {
        if self.min_rows <= rows && rows <= self.max_rows {
            return Ok(());
        }
        let text = if self.message.as_str().unicode_len() > 0 {
            self.message.clone()
        } else if self.min_rows == self.max_rows {
            let mut t = String::from_str("Expected ");
            push_decimal(&mut t, self.min_rows);
            t.append(" rows, but got ");
            push_decimal(&mut t, rows);
            t
        } else {
            let mut t = String::from_str("Expected between ");
            push_decimal(&mut t, self.min_rows);
            t.append(" and ");
            push_decimal(&mut t, self.max_rows);
            t.append(" rows, but got ");
            push_decimal(&mut t, rows);
            t
        };
        Err(Error(ErrorKind::ValidationError(text)))
    }
}

/// One expected number stands for a lower and an upper bound that are both
/// that number, and no message stands for the empty message: `(n)` states
/// what `(n, n, "")` states, `(n, message)` what `(n, n, message)` states,
/// and `(min, max)` what `(min, max, "")` states.
pub proof fn lemma_shapes_agree(n: int, max: int, message: Seq<char>)
    ensures
        normalized(seq![ValueView::Int(n)]) == normalized(
            seq![ValueView::Int(n), ValueView::Int(n), ValueView::Str(Seq::empty())],
        ),
        normalized(seq![ValueView::Int(n), ValueView::Str(message)]) == normalized(
            seq![ValueView::Int(n), ValueView::Int(n), ValueView::Str(message)],
        ),
        normalized(seq![ValueView::Int(n), ValueView::Int(max)]) == normalized(
            seq![ValueView::Int(n), ValueView::Int(max), ValueView::Str(Seq::empty())],
        ),
        normalized(seq![ValueView::Int(n), ValueView::Int(max), ValueView::Str(message)]) == Some(
            ValidationView { min_rows: row_count(n), max_rows: row_count(max), message },
        ),
{
}

/// Arguments are accepted only in the four shapes: there are one, two or
/// three of them, the first is an integer, and the last is an integer or a
/// string.
pub proof fn lemma_accepted_shapes(args: Seq<ValueView>)
    requires
        normalized(args) is Some,
    ensures
        1 <= args.len() <= 3,
        args[0] is Int,
        args.last() is Int || args.last() is Str,
        args.len() == 3 ==> args[1] is Int && args[2] is Str,
{
}

} // verus!
