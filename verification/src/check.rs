//! The rule model and its recursive evaluation: a closed tagged union of
//! check kinds over field paths, literal values and nested sub-checks,
//! and the boolean semantics of each kind against a document. Every
//! ambiguous or absent lookup degrades to `false` (fail closed), never to
//! an error.

use vstd::prelude::*;
use crate::pointer::{resolve, resolve_path};
use crate::value::{val_eq, value_eq, Value};

verus! {

/// A boolean rule over a document. Compound variants exclusively own
/// their sub-checks; the structure is a finite tree.
pub enum Check {
    /// The field resolves to a non-empty text scalar.
    ExistsAndNotEmpty { field: String },
    /// The field resolves to a value structurally equal to `value`.
    Equals { field: String, value: Value },
    /// The field resolves to a sequence with an element equal to `value`.
    Contains { field: String, value: Value },
    /// The field resolves to some value other than null.
    IsSome { field: String },
    /// Every sub-rule holds; vacuously true of no rules.
    AllOf { rules: Vec<Check> },
    /// At least one sub-rule holds; false of no rules.
    AnyOf { rules: Vec<Check> },
    /// The sub-rule does not hold.
    Not { rule: Box<Check> },
    /// If `cond` holds, `then_branch` decides; otherwise `else_branch`
    /// decides, or the check holds vacuously when there is none.
    If { cond: Box<Check>, then_branch: Box<Check>, else_branch: Option<Box<Check>> },
}

/// Some element of `items` from position `i` on equals `target`.
pub open spec fn contains_from(items: Seq<Value>, target: Value, i: int) -> bool
    decreases items.len() - i,
{
    if 0 <= i < items.len() {
        val_eq(items[i], target) || contains_from(items, target, i + 1)
    } else {
        false
    }
}

/// The meaning of a check against a document, by variant.
pub open spec fn eval(c: Check, doc: Value) -> bool
    decreases c, 0int,
{
    match c {
        Check::ExistsAndNotEmpty { field } => match resolve_path(doc, field@) {
            Some(v) => v matches Value::Text(s) && s@.len() > 0,
            None => false,
        },
        Check::Equals { field, value } => match resolve_path(doc, field@) {
            Some(v) => val_eq(v, value),
            None => false,
        },
        Check::Contains { field, value } => match resolve_path(doc, field@) {
            Some(v) => match v {
                Value::Array(items) => contains_from(items@, value, 0),
                _ => false,
            },
            None => false,
        },
        Check::IsSome { field } => match resolve_path(doc, field@) {
            Some(v) => !(v is Null),
            None => false,
        },
        Check::AllOf { rules } => all_from(rules@, doc, 0),
        Check::AnyOf { rules } => any_from(rules@, doc, 0),
        Check::Not { rule } => !eval(*rule, doc),
        Check::If { cond, then_branch, else_branch } => if eval(*cond, doc) {
            eval(*then_branch, doc)
        } else {
            match else_branch {
                Some(e) => eval(*e, doc),
                None => true,
            }
        },
    }
}

/// Every rule from position `i` on holds of `doc`.
pub open spec fn all_from(rules: Seq<Check>, doc: Value, i: int) -> bool
    decreases rules, rules.len() - i,
{
    if 0 <= i < rules.len() {
        eval(rules[i], doc) && all_from(rules, doc, i + 1)
    } else {
        true
    }
}

/// Some rule from position `i` on holds of `doc`.
pub open spec fn any_from(rules: Seq<Check>, doc: Value, i: int) -> bool
    decreases rules, rules.len() - i,
{
    if 0 <= i < rules.len() {
        eval(rules[i], doc) || any_from(rules, doc, i + 1)
    } else {
        false
    }
}

/// Evaluates a check against a document.
pub fn run_check(check: &Check, doc: &Value) -> (r: bool)
    ensures
        r == eval(*check, *doc),
    decreases *check, 0int,
{
    match check {
        Check::ExistsAndNotEmpty { field } => match resolve(doc, field.as_str()) {
            Some(v) => match v {
                Value::Text(s) => !s.as_str().is_empty(),
                _ => false,
            },
            None => false,
        },
        Check::Equals { field, value } => match resolve(doc, field.as_str()) {
            Some(v) => value_eq(v, value),
            None => false,
        },
        Check::Contains { field, value } => match resolve(doc, field.as_str()) {
            Some(v) => match v {
                Value::Array(items) => contains_exec(items, value, 0),
                _ => false,
            },
            None => false,
        },
        Check::IsSome { field } => match resolve(doc, field.as_str()) {
            Some(v) => !matches!(v, Value::Null),
            None => false,
        },
        Check::AllOf { rules } => all_exec(rules, doc, 0),
        Check::AnyOf { rules } => any_exec(rules, doc, 0),
        Check::Not { rule } => !run_check(&**rule, doc),
        Check::If { cond, then_branch, else_branch } => {
            if run_check(&**cond, doc) {
                run_check(&**then_branch, doc)
            } else {
                match else_branch {
                    Some(e) => run_check(&**e, doc),
                    None => true,
                }
            }
        },
    }
}

fn contains_exec(items: &Vec<Value>, target: &Value, i: usize) -> (r: bool)
    requires
        i <= items@.len(),
    ensures
        r == contains_from(items@, *target, i as int),
    decreases items@.len() - i,
{
    if i == items.len() {
        false
    } else if value_eq(&items[i], target) {
        true
    } else {
        contains_exec(items, target, i + 1)
    }
}

fn all_exec(rules: &Vec<Check>, doc: &Value, i: usize) -> (r: bool)
    requires
        i <= rules@.len(),
    ensures
        r == all_from(rules@, *doc, i as int),
    decreases *rules, rules@.len() - i,
{
    if i == rules.len() {
        true
    } else if !run_check(&rules[i], doc) {
        false
    } else {
        all_exec(rules, doc, i + 1)
    }
}

fn any_exec(rules: &Vec<Check>, doc: &Value, i: usize) -> (r: bool)
    requires
        i <= rules@.len(),
    ensures
        r == any_from(rules@, *doc, i as int),
    decreases *rules, rules@.len() - i,
{
    if i == rules.len() {
        false
    } else if run_check(&rules[i], doc) {
        true
    } else {
        any_exec(rules, doc, i + 1)
    }
}

} // verus!
