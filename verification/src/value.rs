//! Dynamic values: what crosses the border between a workload script and
//! the execution core, and what a worker keeps in its data bag.

use crate::error::{Error, ErrorKind};
use vstd::prelude::*;

verus! {

/// A dynamically typed value.
#[derive(Debug, PartialEq, Eq)]
pub enum Value {
    Null,
    Bool(bool),
    Int(i64),
    /// A floating-point number, held as the 64 bits of its IEEE 754 binary64
    /// form.
    Float(u64),
    Str(String),
    Bytes(Vec<u8>),
    List(Vec<Value>),
    /// A map from names to values, as its entries in the order of insertion.
    Object(Vec<(String, Value)>),
    /// A reference to something that lives in the script runtime, known by
    /// its number only. It stands for what it refers to and cannot be copied.
    Handle(u64),
}

/// What a [`Value`] holds.
pub enum ValueView {
    Null,
    Bool(bool),
    Int(int),
    Float(u64),
    Str(Seq<char>),
    Bytes(Seq<u8>),
    List(Seq<ValueView>),
    Object(Seq<(Seq<char>, ValueView)>),
    Handle(u64),
}

impl ValueView {
    /// Whether the value is made of scalars, lists and maps only, with no
    /// handle anywhere inside it.
    pub open spec fn copyable(self) -> bool
        decreases self,
    {
        match self {
            ValueView::List(items) => forall|i: int|
                0 <= i < items.len() ==> (#[trigger] items[i]).copyable(),
            ValueView::Object(entries) => forall|i: int|
                0 <= i < entries.len() ==> (#[trigger] entries[i]).1.copyable(),
            ValueView::Handle(_) => false,
            _ => true,
        }
    }
}

/// What `value` holds.
pub open spec fn value_view(value: Value) -> ValueView
    decreases value,
{
    match value {
        Value::Null => ValueView::Null,
        Value::Bool(b) => ValueView::Bool(b),
        Value::Int(i) => ValueView::Int(i as int),
        Value::Float(bits) => ValueView::Float(bits),
        Value::Str(s) => ValueView::Str(s@),
        Value::Bytes(b) => ValueView::Bytes(b@),
        Value::List(items) => ValueView::List(list_view(items@)),
        Value::Object(entries) => ValueView::Object(object_view(entries@)),
        Value::Handle(h) => ValueView::Handle(h),
    }
}

/// What the values of `items` hold, in their order.
pub open spec fn list_view(items: Seq<Value>) -> Seq<ValueView>
    decreases items,
{
    if items.len() == 0 {
        Seq::empty()
    } else {
        list_view(items.drop_last()).push(value_view(items.last()))
    }
}

/// The names of `entries`, each with what its value holds, in their order.
pub open spec fn object_view(entries: Seq<(String, Value)>) -> Seq<(Seq<char>, ValueView)>
    decreases entries,
{
    if entries.len() == 0 {
        Seq::empty()
    } else {
        object_view(entries.drop_last()).push((entries.last().0@, value_view(entries.last().1)))
    }
}

impl View for Value {
    type V = ValueView;

    open spec fn view(&self) -> ValueView {
        value_view(*self)
    }
}

/// The view of a list has one item for each item of the list.
pub proof fn lemma_list_view(items: Seq<Value>)
    ensures
        list_view(items).len() == items.len(),
        forall|i: int| 0 <= i < items.len() ==> #[trigger] list_view(items)[i] == items[i]@,
    decreases items.len(),
{
    reveal_with_fuel(list_view, 2);
    if items.len() > 0 {
        lemma_list_view(items.drop_last());
    }
}

/// The view of a map has one entry for each entry of the map.
pub proof fn lemma_object_view(entries: Seq<(String, Value)>)
    ensures
        object_view(entries).len() == entries.len(),
        forall|i: int|
            0 <= i < entries.len() ==> #[trigger] object_view(entries)[i] == (
                entries[i].0@,
                entries[i].1@,
            ),
    decreases entries.len(),
{
    reveal_with_fuel(object_view, 2);
    if entries.len() > 0 {
        lemma_object_view(entries.drop_last());
    }
}

/// What a list and a map hold, item by item.
pub proof fn lemma_value_view(value: Value)
    ensures
        value matches Value::List(items) ==> value@ == ValueView::List(list_view(items@)),
        value matches Value::Object(entries) ==> value@ == ValueView::Object(
            object_view(entries@),
        ),
        value is Handle ==> value@ is Handle,
        value is Null ==> value@ is Null,
        value matches Value::Bool(b) ==> value@ == ValueView::Bool(b),
        value matches Value::Int(i) ==> value@ == ValueView::Int(i as int),
        value matches Value::Float(bits) ==> value@ == ValueView::Float(bits),
        value matches Value::Str(s) ==> value@ == ValueView::Str(s@),
        value matches Value::Bytes(b) ==> value@ == ValueView::Bytes(b@),
{
    reveal_with_fuel(value_view, 2);
}

/// A list can be copied if and only if each of its items can, and a map if
/// and only if each of its values can.
pub proof fn lemma_copyable(v: ValueView)
    ensures
        v matches ValueView::List(items) ==> (v.copyable() <==> forall|i: int|
            0 <= i < items.len() ==> (#[trigger] items[i]).copyable()),
        v matches ValueView::Object(entries) ==> (v.copyable() <==> forall|i: int|
            0 <= i < entries.len() ==> (#[trigger] entries[i]).1.copyable()),
        v is Handle ==> !v.copyable(),
        !(v is List || v is Object || v is Handle) ==> v.copyable(),
{
}

/// The text of the error for a value that cannot be copied.
pub open spec fn uncopyable_text() -> Seq<char> {
    "The value holds a handle, which cannot be copied"@
}

fn uncopyable() -> (e: Error)
    ensures
        e.0 is SerializationError,
        e.0.text() == uncopyable_text(),
{
    Error(
        ErrorKind::SerializationError(
            String::from_str("The value holds a handle, which cannot be copied"),
        ),
    )
}

/// The values that `params` give to the markers of a statement, in the
/// order of the markers: the items of a list, the values of a map in the
/// order of its entries, nothing for null, and any other value alone.
pub open spec fn bound(params: Value) -> Seq<Value> {
    match params {
        Value::Null => Seq::empty(),
        Value::List(items) => items@,
        Value::Object(entries) => entries@.map_values(|entry: (String, Value)| entry.1),
        _ => seq![params],
    }
}

impl Value {
    /// The values to bind to the markers of a statement when the workload
    /// gives `self` as the statement's values.
    pub fn bound_values(&self) -> (values: Vec<&Value>)
        ensures
            values@.len() == bound(*self).len(),
            forall|i: int| 0 <= i < values@.len() ==> *values@[i] == bound(*self)[i],
    {
        let mut values: Vec<&Value> = Vec::new();
        match self {
            Value::Null => {},
            Value::List(items) => {
                let mut i: usize = 0;
                while i < items.len()
                    invariant
                        i <= items@.len(),
                        values@.len() == i,
                        forall|j: int| 0 <= j < i ==> *values@[j] == items@[j],
                    decreases items@.len() - i,
                {
                    values.push(&items[i]);
                    i += 1;
                }
            },
            Value::Object(entries) => {
                let mut i: usize = 0;
                while i < entries.len()
                    invariant
                        i <= entries@.len(),
                        values@.len() == i,
                        forall|j: int| 0 <= j < i ==> *values@[j] == entries@[j].1,
                    decreases entries@.len() - i,
                {
                    values.push(&entries[i].1);
                    i += 1;
                }
            },
            _ => {
                values.push(self);
            },
        }
        values
    }

    /// A copy of the value that shares nothing with it. Fails with a
    /// serialization error if a handle occurs anywhere in the value.
    pub fn deep_copy(&self) -> (r: Result<Value, Error>)
        ensures
            match r {
                Ok(copy) => self@.copyable() && copy@ == self@,
                Err(e) => {
                    &&& !self@.copyable()
                    &&& e.0 is SerializationError
                    &&& e.0.text() == uncopyable_text()
                },
            },
        decreases self,
    {
        proof {
            lemma_value_view(*self);
        }
        match self {
            Value::Null => Ok(Value::Null),
            Value::Bool(b) => Ok(Value::Bool(*b)),
            Value::Int(i) => Ok(Value::Int(*i)),
            Value::Float(bits) => Ok(Value::Float(*bits)),
            Value::Str(s) => Ok(Value::Str(s.clone())),
            Value::Bytes(b) => Ok(Value::Bytes(b.clone())),
            Value::Handle(_) => Err(uncopyable()),
            Value::List(items) => {
                let mut out: Vec<Value> = Vec::new();
                let mut i: usize = 0;
                while i < items.len()
                    invariant
                        i <= items.len(),
                        *self == Value::List(*items),
                        decreases_to!(*self => *items),
                        out@.len() == i,
                        forall|j: int|
                            0 <= j < i ==> (#[trigger] out@[j])@ == items@[j]@ && items@[j]@.copyable(),
                    decreases items.len() - i,
                {
                    assert(decreases_to!(*items => items[i as int]));
                    match items[i].deep_copy() {
                        Ok(copy) => {
                            out.push(copy);
                        },
                        Err(e) => {
                            proof {
                                lemma_value_view(*self);
                                lemma_list_view(items@);
                                assert(list_view(items@)[i as int] == items@[i as int]@);
                                assert(!list_view(items@)[i as int].copyable());
                                lemma_copyable(self@);
                            }
                            return Err(e);
                        },
                    }
                    i += 1;
                }
                let copy = Value::List(out);
                proof {
                    lemma_value_view(*self);
                    lemma_value_view(copy);
                    lemma_list_view(items@);
                    lemma_list_view(out@);
                    assert forall|j: int| 0 <= j < items@.len() implies list_view(out@)[j]
                        == list_view(items@)[j] && (#[trigger] list_view(items@)[j]).copyable() by {
                        assert(out@[j]@ == items@[j]@);
                    }
                    assert(list_view(out@) =~= list_view(items@));
                }
                Ok(copy)
            },
            Value::Object(entries) => {
                let mut out: Vec<(String, Value)> = Vec::new();
                let mut i: usize = 0;
                while i < entries.len()
                    invariant
                        i <= entries.len(),
                        *self == Value::Object(*entries),
                        decreases_to!(*self => *entries),
                        out@.len() == i,
                        forall|j: int|
                            0 <= j < i ==> (#[trigger] out@[j]).0@ == entries@[j].0@ && out@[j].1@
                                == entries@[j].1@ && entries@[j].1@.copyable(),
                    decreases entries.len() - i,
                {
                    assert(decreases_to!(*entries => entries[i as int]));
                    match entries[i].1.deep_copy() {
                        Ok(copy) => {
                            out.push((entries[i].0.clone(), copy));
                        },
                        Err(e) => {
                            proof {
                                lemma_value_view(*self);
                                lemma_object_view(entries@);
                                assert(object_view(entries@)[i as int].1 == entries@[i as int].1@);
                                assert(!object_view(entries@)[i as int].1.copyable());
                                lemma_copyable(self@);
                            }
                            return Err(e);
                        },
                    }
                    i += 1;
                }
                let copy = Value::Object(out);
                proof {
                    lemma_value_view(*self);
                    lemma_value_view(copy);
                    lemma_object_view(entries@);
                    lemma_object_view(out@);
                    assert forall|j: int| 0 <= j < entries@.len() implies object_view(out@)[j]
                        == object_view(entries@)[j] && (#[trigger] object_view(
                        entries@,
                    )[j]).1.copyable() by {
                        assert(out@[j].1@ == entries@[j].1@);
                    }
                    assert(object_view(out@) =~= object_view(entries@));
                }
                Ok(copy)
            },
        }
    }
}

} // verus!
