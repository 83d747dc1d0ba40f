//! The policy evaluation engine: an ordered collection of named controls,
//! validated as a whole against one document. The verdict is `Pass` exactly
//! when every control's check holds; otherwise it lists the failing
//! controls, in declaration order, with their descriptions.

use vstd::prelude::*;
use crate::check::{eval, run_check, Check};
use crate::value::Value;

verus! {

/// A failing control, reported by its identifier and the description of
/// what it required.
#[derive(Debug)]
pub struct Requirements {
    pub control: String,
    pub required: String,
}

impl View for Requirements {
    type V = (Seq<char>, Seq<char>);

    open spec fn view(&self) -> (Seq<char>, Seq<char>) {
        (self.control@, self.required@)
    }
}

/// The verdict of validating a document: pass, or fail with the ordered,
/// never-empty list of failing requirements.
#[derive(Debug)]
pub enum Validation {
    True,
    False(Vec<Requirements>),
}

/// A single named compliance requirement: an opaque identifier, a
/// human-readable description, and the check that decides it.
pub struct Control {
    pub id: String,
    pub description: String,
    pub check: Check,
}

/// The identifier/description views of a requirement list.
pub open spec fn reqs_view(s: Seq<Requirements>) -> Seq<(Seq<char>, Seq<char>)> {
    Seq::new(s.len(), |i: int| s[i]@)
}

/// The (identifier, description) pairs of the controls from position `i`
/// on whose check fails against `doc`, in order.
pub open spec fn failures_from(cs: Seq<Control>, doc: Value, i: int) -> Seq<(Seq<char>, Seq<char>)>
    decreases cs.len() - i,
{
    if 0 <= i < cs.len() {
        if eval(cs[i].check, doc) {
            failures_from(cs, doc, i + 1)
        } else {
            seq![(cs[i].id@, cs[i].description@)] + failures_from(cs, doc, i + 1)
        }
    } else {
        Seq::empty()
    }
}

/// Holds the loaded controls; loading is a distinct phase, after which
/// validation reads the control list only.
pub struct PolicyEngine {
    controls: Vec<Control>,
}

impl View for PolicyEngine {
    type V = Seq<Control>;

    closed spec fn view(&self) -> Seq<Control> {
        self.controls@
    }
}

impl PolicyEngine {
    /// An engine with no controls loaded.
    pub fn new() -> (r: PolicyEngine)
        ensures
            r@ == Seq::<Control>::empty(),
    {
        let r = PolicyEngine { controls: Vec::new() };
        proof {
            assert(r@ =~= Seq::<Control>::empty());
        }
        r
    }

    /// Appends one control to the list the engine validates against.
    pub fn add_control(&mut self, control: Control)
        ensures
            final(self)@ == old(self)@.push(control),
    {
        self.controls.push(control);
    }

    /// Evaluates every control against `metadata`, in declaration order:
    /// `True` when none fails, otherwise `False` with one requirement per
    /// failing control.
    pub fn validate(&self, metadata: &Value) -> (r: Validation)
        ensures
            ({
                let fails = failures_from(self@, *metadata, 0);
                match r {
                    Validation::True => fails.len() == 0,
                    Validation::False(reqs) => reqs_view(reqs@) == fails && reqs@.len() > 0,
                }
            }),
    {
        let mut failed: Vec<Requirements> = Vec::new();
        let n = self.controls.len();
        let mut i: usize = 0;
        proof {
            assert(reqs_view(failed@) + failures_from(self@, *metadata, 0) =~= failures_from(
                self@,
                *metadata,
                0,
            ));
        }
        while i < n
            invariant
                i <= n,
                n == self@.len(),
                reqs_view(failed@) + failures_from(self@, *metadata, i as int) == failures_from(
                    self@,
                    *metadata,
                    0,
                ),
            decreases n - i,
        {
            let ghost failed0 = failed@;
            let control = &self.controls[i];
            if !run_check(&control.check, metadata) {
                failed.push(
                    Requirements {
                        control: control.id.clone(),
                        required: control.description.clone(),
                    },
                );
                proof {
                    assert(reqs_view(failed@) =~= reqs_view(failed0) + seq![
                        (self@[i as int].id@, self@[i as int].description@),
                    ]);
                    assert(reqs_view(failed0) + (seq![
                        (self@[i as int].id@, self@[i as int].description@),
                    ] + failures_from(self@, *metadata, i as int + 1)) =~= (reqs_view(failed0)
                        + seq![(self@[i as int].id@, self@[i as int].description@)])
                        + failures_from(self@, *metadata, i as int + 1));
                }
            }
            i = i + 1;
        }
        if failed.len() == 0 {
            proof {
                assert(reqs_view(failed@) =~= Seq::<(Seq<char>, Seq<char>)>::empty());
                assert(reqs_view(failed@) + failures_from(self@, *metadata, n as int)
                    =~= failures_from(self@, *metadata, n as int));
            }
            Validation::True
        } else {
            proof {
                assert(reqs_view(failed@) + failures_from(self@, *metadata, n as int)
                    =~= reqs_view(failed@));
            }
            Validation::False(failed)
        }
    }
}

} // verus!
