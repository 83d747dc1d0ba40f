//! The document model: a read-only, semi-structured tree of objects with
//! string keys, sequences, and scalars, together with the structural
//! (deep, type-sensitive) equality that rule evaluation uses.

use vstd::prelude::*;

verus! {

/// A semi-structured metadata value. Objects keep their entries in the
/// order they were supplied; keys are expected to be distinct, as they are
/// in any document parsed from a map-shaped source.
pub enum Value {
    Null,
    Bool(bool),
    Int(i64),
    Text(String),
    Array(Vec<Value>),
    Object(Vec<(String, Value)>),
}

/// Structural equality on documents: scalars compare by value (text by its
/// characters), sequences element by element in order, objects entry by
/// entry in order. Type-sensitive: values of different shapes are unequal.
pub open spec fn val_eq(a: Value, b: Value) -> bool
    decreases a, 0int,
{
    match a {
        Value::Null => b is Null,
        Value::Bool(x) => b matches Value::Bool(y) && x == y,
        Value::Int(x) => b matches Value::Int(y) && x == y,
        Value::Text(x) => b matches Value::Text(y) && x@ == y@,
        Value::Array(x) => match b {
            Value::Array(y) => x@.len() == y@.len() && arr_eq_from(x@, y@, 0),
            _ => false,
        },
        Value::Object(x) => match b {
            Value::Object(y) => x@.len() == y@.len() && obj_eq_from(x@, y@, 0),
            _ => false,
        },
    }
}

/// The elements of `x` and `y` from position `i` on are pairwise equal.
pub open spec fn arr_eq_from(x: Seq<Value>, y: Seq<Value>, i: int) -> bool
    decreases x, x.len() - i,
{
    if 0 <= i < x.len() && i < y.len() {
        val_eq(x[i], y[i]) && arr_eq_from(x, y, i + 1)
    } else {
        true
    }
}

/// The entries of `x` and `y` from position `i` on agree on key and value.
pub open spec fn obj_eq_from(x: Seq<(String, Value)>, y: Seq<(String, Value)>, i: int) -> bool
    decreases x, x.len() - i,
{
    if 0 <= i < x.len() && i < y.len() {
        x[i].0@ == y[i].0@ && val_eq(x[i].1, y[i].1) && obj_eq_from(x, y, i + 1)
    } else {
        true
    }
}

/// Decides structural equality of two documents.
pub fn value_eq(a: &Value, b: &Value) -> (r: bool)
    ensures
        r == val_eq(*a, *b),
    decreases *a, 0int,
{
    match a {
        Value::Null => matches!(b, Value::Null),
        Value::Bool(x) => match b {
            Value::Bool(y) => *x == *y,
            _ => false,
        },
        Value::Int(x) => match b {
            Value::Int(y) => *x == *y,
            _ => false,
        },
        Value::Text(x) => match b {
            Value::Text(y) => x.eq(y),
            _ => false,
        },
        Value::Array(x) => match b {
            Value::Array(y) => {
                if x.len() != y.len() {
                    false
                } else {
                    arrays_eq_from(x, y, 0)
                }
            },
            _ => false,
        },
        Value::Object(x) => match b {
            Value::Object(y) => {
                if x.len() != y.len() {
                    false
                } else {
                    entries_eq_from(x, y, 0)
                }
            },
            _ => false,
        },
    }
}

fn arrays_eq_from(x: &Vec<Value>, y: &Vec<Value>, i: usize) -> (r: bool)
    requires
        i <= x@.len(),
        x@.len() == y@.len(),
    ensures
        r == arr_eq_from(x@, y@, i as int),
    decreases *x, x@.len() - i,
{
    if i == x.len() {
        true
    } else if !value_eq(&x[i], &y[i]) {
        false
    } else {
        arrays_eq_from(x, y, i + 1)
    }
}

fn entries_eq_from(x: &Vec<(String, Value)>, y: &Vec<(String, Value)>, i: usize) -> (r: bool)
    requires
        i <= x@.len(),
        x@.len() == y@.len(),
    ensures
        r == obj_eq_from(x@, y@, i as int),
    decreases *x, x@.len() - i,
{
    if i == x.len() {
        true
    } else if !x[i].0.eq(&y[i].0) {
        false
    } else if !value_eq(&x[i].1, &y[i].1) {
        false
    } else {
        entries_eq_from(x, y, i + 1)
    }
}

} // verus!
