//! General properties of the rule algebra and the engine, stated once and
//! proved for every document.

use vstd::prelude::*;
use crate::check::{eval, Check};
use crate::engine::{failures_from, Control};
use crate::value::Value;

verus! {

/// An engine with no controls collects no failures, so validating any
/// document against it passes.
pub proof fn lemma_empty_controls_pass(controls: Seq<Control>, doc: Value)
    requires
        controls.len() == 0,
    ensures
        failures_from(controls, doc, 0).len() == 0,
{
}

/// A conjunction of no rules holds vacuously; a disjunction of no rules
/// does not hold, whatever the document.
pub proof fn lemma_empty_combinators(rules: Vec<Check>, doc: Value)
    requires
        rules@.len() == 0,
    ensures
        eval((Check::AllOf { rules }), doc),
        !eval((Check::AnyOf { rules }), doc),
{
    reveal_with_fuel(eval, 2);
    reveal_with_fuel(crate::check::all_from, 2);
    reveal_with_fuel(crate::check::any_from, 2);
}

/// Double negation: `Not(Not(c))` evaluates exactly as `c` does, for every
/// check and document.
pub proof fn lemma_double_negation(inner: Box<Check>, outer: Box<Check>, doc: Value)
    requires
        *outer == (Check::Not { rule: inner }),
    ensures
        eval((Check::Not { rule: outer }), doc) == eval(*inner, doc),
{
    reveal_with_fuel(eval, 3);
}

/// A conditional without an else-branch is the disjunction of the negated
/// condition and the then-branch.
pub proof fn lemma_if_without_else(
    cond: Box<Check>,
    then_branch: Box<Check>,
    rules: Vec<Check>,
    doc: Value,
)
    requires
        rules@.len() == 2,
        rules@[0] == (Check::Not { rule: cond }),
        rules@[1] == *then_branch,
    ensures
        eval((Check::If { cond, then_branch, else_branch: None }), doc) == eval((Check::AnyOf { rules }), doc),
{
    reveal_with_fuel(eval, 4);
    reveal_with_fuel(crate::check::any_from, 4);
    assert(eval((Check::AnyOf { rules }), doc) == (eval(rules@[0], doc) || eval(rules@[1], doc)));
}

/// A field that resolves to non-empty text in particular resolves to some
/// non-null value: `ExistsAndNotEmpty` implies `IsSome`. (The converse
/// fails, e.g. on a field holding the empty string.)
pub proof fn lemma_exists_implies_some(field: String, doc: Value)
    ensures
        eval((Check::ExistsAndNotEmpty { field }), doc) ==> eval((Check::IsSome { field }), doc),
{
}

} // verus!
