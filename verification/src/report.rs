//! The two outputs of a validation result. One is a report value, an
//! object with a `valid` flag and, only when invalid, the ordered list of
//! failing requirements; the other is a human-readable summary.

use vstd::prelude::*;
use vstd::string::StringExecFns;
use crate::engine::{failures_from, reqs_view, Control, Requirements, Validation};
use crate::value::Value;

verus! {

/// One reported requirement: an object with the control identifier under
/// `control` and its description under `required`.
pub open spec fn req_item_matches(q: (Seq<char>, Seq<char>), v: Value) -> bool {
    v matches Value::Object(entries) && {
        &&& entries@.len() == 2
        &&& entries@[0].0@ == "control"@
        &&& entries@[0].1 matches Value::Text(s) && s@ == q.0
        &&& entries@[1].0@ == "required"@
        &&& entries@[1].1 matches Value::Text(s) && s@ == q.1
    }
}

pub open spec fn req_items_match(qs: Seq<(Seq<char>, Seq<char>)>, items: Seq<Value>) -> bool {
    &&& items.len() == qs.len()
    &&& forall|i: int| 0 <= i < qs.len() ==> req_item_matches(qs[i], #[trigger] items[i])
}

/// The report value of a validation result. Either `valid` is true and
/// nothing else is reported, or `valid` is false and `requirements` lists
/// every failing control in order.
pub open spec fn report_matches(v: Validation, r: Value) -> bool {
    match v {
        Validation::True => r matches Value::Object(entries) && {
            &&& entries@.len() == 1
            &&& entries@[0].0@ == "valid"@
            &&& entries@[0].1 == Value::Bool(true)
        },
        Validation::False(reqs) => r matches Value::Object(entries) && {
            &&& entries@.len() == 2
            &&& entries@[0].0@ == "valid"@
            &&& entries@[0].1 == Value::Bool(false)
            &&& entries@[1].0@ == "requirements"@
            &&& entries@[1].1 matches Value::Array(items) && req_items_match(
                reqs_view(reqs@),
                items@,
            )
        },
    }
}

pub open spec fn digit_char(d: int) -> char {
    if d == 1 {
        '1'
    } else if d == 2 {
        '2'
    } else if d == 3 {
        '3'
    } else if d == 4 {
        '4'
    } else if d == 5 {
        '5'
    } else if d == 6 {
        '6'
    } else if d == 7 {
        '7'
    } else if d == 8 {
        '8'
    } else if d == 9 {
        '9'
    } else {
        '0'
    }
}

/// The decimal rendering of a non-negative number.
pub open spec fn dec_str(n: int) -> Seq<char>
    decreases n,
{
    if n < 10 {
        seq![digit_char(n)]
    } else {
        dec_str(n / 10).push(digit_char(n % 10))
    }
}

/// The summary line of the `i`-th failing requirement (counted from one).
pub open spec fn req_line(i: int, q: (Seq<char>, Seq<char>)) -> Seq<char> {
    "  - "@ + dec_str(i) + ": RULE \""@ + q.0 + "\" => "@ + q.1 + "\n"@
}

/// One summary line per failing requirement, numbered from one.
pub open spec fn req_lines(qs: Seq<(Seq<char>, Seq<char>)>) -> Seq<char>
    decreases qs.len(),
{
    if qs.len() == 0 {
        Seq::empty()
    } else {
        req_lines(qs.drop_last()) + req_line(qs.len() as int, qs.last())
    }
}

/// The human-readable summary of a verdict.
pub open spec fn summary_view(v: Validation) -> Seq<char> {
    match v {
        Validation::True => "Validation PASSED\n"@,
        Validation::False(reqs) => "Validation FAILED with "@ + dec_str(reqs@.len() as int) + (
        if reqs@.len() == 1 {
            " requirement:\n"@
        } else {
            " requirements:\n"@
        }) + req_lines(reqs_view(reqs@)),
    }
}

fn push_digit(s: &mut String, d: usize)
    requires
        d < 10,
    ensures
        final(s)@ == old(s)@ + seq![digit_char(d as int)],
{
    let ghost s0 = old(s)@;
    if d == 0 {
        s.append("0");
        proof {
            reveal_strlit("0");
            assert(s@ =~= s0 + seq![digit_char(0)]);
        }
    } else if d == 1 {
        s.append("1");
        proof {
            reveal_strlit("1");
            assert(s@ =~= s0 + seq![digit_char(1)]);
        }
    } else if d == 2 {
        s.append("2");
        proof {
            reveal_strlit("2");
            assert(s@ =~= s0 + seq![digit_char(2)]);
        }
    } else if d == 3 {
        s.append("3");
        proof {
            reveal_strlit("3");
            assert(s@ =~= s0 + seq![digit_char(3)]);
        }
    } else if d == 4 {
        s.append("4");
        proof {
            reveal_strlit("4");
            assert(s@ =~= s0 + seq![digit_char(4)]);
        }
    } else if d == 5 {
        s.append("5");
        proof {
            reveal_strlit("5");
            assert(s@ =~= s0 + seq![digit_char(5)]);
        }
    } else if d == 6 {
        s.append("6");
        proof {
            reveal_strlit("6");
            assert(s@ =~= s0 + seq![digit_char(6)]);
        }
    } else if d == 7 {
        s.append("7");
        proof {
            reveal_strlit("7");
            assert(s@ =~= s0 + seq![digit_char(7)]);
        }
    } else if d == 8 {
        s.append("8");
        proof {
            reveal_strlit("8");
            assert(s@ =~= s0 + seq![digit_char(8)]);
        }
    } else {
        s.append("9");
        proof {
            reveal_strlit("9");
            assert(s@ =~= s0 + seq![digit_char(9)]);
        }
    }
}

fn push_dec(s: &mut String, n: usize)
    ensures
        final(s)@ == old(s)@ + dec_str(n as int),
    decreases n,
{
    let ghost s0 = old(s)@;
    if n >= 10 {
        push_dec(s, n / 10);
        push_digit(s, n % 10);
        proof {
            assert(dec_str(n as int) == dec_str(n as int / 10).push(digit_char(n as int % 10)));
            assert(s@ =~= s0 + dec_str(n as int));
        }
    } else {
        push_digit(s, n);
    }
}

fn push_req_line(s: &mut String, num: usize, q: &Requirements)
    ensures
        final(s)@ == old(s)@ + req_line(num as int, q@),
{
    let ghost s0 = old(s)@;
    s.append("  - ");
    push_dec(s, num);
    s.append(": RULE \"");
    s.append(q.control.as_str());
    s.append("\" => ");
    s.append(q.required.as_str());
    s.append("\n");
    proof {
        assert(s@ =~= s0 + req_line(num as int, q@));
    }
}

impl Validation {
    /// Builds the report value of this verdict.
    pub fn to_report(&self) -> (r: Value)
        ensures
            report_matches(*self, r),
    {
        match self {
            Validation::True => {
                let mut entries: Vec<(String, Value)> = Vec::new();
                entries.push((String::from_str("valid"), Value::Bool(true)));
                Value::Object(entries)
            },
            Validation::False(reqs) => {
                let n = reqs.len();
                let mut items: Vec<Value> = Vec::new();
                let mut i: usize = 0;
                while i < n
                    invariant
                        i <= n,
                        n == reqs@.len(),
                        items@.len() == i,
                        forall|j: int|
                            0 <= j < i ==> req_item_matches(
                                reqs_view(reqs@)[j],
                                #[trigger] items@[j],
                            ),
                    decreases n - i,
                {
                    let mut e: Vec<(String, Value)> = Vec::new();
                    e.push((String::from_str("control"), Value::Text(reqs[i].control.clone())));
                    e.push((String::from_str("required"), Value::Text(reqs[i].required.clone())));
                    items.push(Value::Object(e));
                    i = i + 1;
                }
                let mut entries: Vec<(String, Value)> = Vec::new();
                entries.push((String::from_str("valid"), Value::Bool(false)));
                entries.push((String::from_str("requirements"), Value::Array(items)));
                Value::Object(entries)
            },
        }
    }

    /// Builds the human-readable summary, a pass line or a fail line
    /// counting the requirements followed by one line each.
    pub fn to_summary(&self) -> (r: String)
        ensures
            r@ == summary_view(*self),
    {
        match self {
            Validation::True => String::from_str("Validation PASSED\n"),
            Validation::False(reqs) => {
                let n = reqs.len();
                let mut s = String::from_str("Validation FAILED with ");
                push_dec(&mut s, n);
                if n == 1 {
                    s.append(" requirement:\n");
                } else {
                    s.append(" requirements:\n");
                }
                let ghost head = s@;
                proof {
                    assert(reqs_view(reqs@).take(0) =~= Seq::<(Seq<char>, Seq<char>)>::empty());
                    assert(head + req_lines(reqs_view(reqs@).take(0)) =~= head);
                }
                let mut i: usize = 0;
                while i < n
                    invariant
                        i <= n,
                        n == reqs@.len(),
                        s@ == head + req_lines(reqs_view(reqs@).take(i as int)),
                    decreases n - i,
                {
                    let ghost sv = reqs_view(reqs@);
                    push_req_line(&mut s, i + 1, &reqs[i]);
                    proof {
                        assert(sv.take(i as int + 1).drop_last() =~= sv.take(i as int));
                        assert(sv.take(i as int + 1).last() == sv[i as int]);
                        assert(req_lines(sv.take(i as int + 1)) == req_lines(sv.take(i as int))
                            + req_line(i as int + 1, sv[i as int]));
                        assert(s@ =~= head + req_lines(sv.take(i as int + 1)));
                    }
                    i = i + 1;
                }
                proof {
                    assert(reqs_view(reqs@).take(n as int) =~= reqs_view(reqs@));
                }
                s
            },
        }
    }
}

/// Verdict round-trip: against any control list and document, a verdict
/// meeting `validate`'s contract reports `valid == true` and nothing more
/// when it passes, and `valid == false` with one reported requirement per
/// failing control when it fails — never an empty requirement list.
pub proof fn lemma_report_round_trip(v: Validation, r: Value, cs: Seq<Control>, doc: Value)
    requires
        match v {
            Validation::True => failures_from(cs, doc, 0).len() == 0,
            Validation::False(reqs) => reqs_view(reqs@) == failures_from(cs, doc, 0)
                && reqs@.len() > 0,
        },
        report_matches(v, r),
    ensures
        v is True ==> (r matches Value::Object(entries) && entries@.len() == 1 && entries@[0].1
            == Value::Bool(true)),
        v is False ==> (r matches Value::Object(entries) && entries@[0].1 == Value::Bool(false)
            && (entries@[1].1 matches Value::Array(items) && items@.len() == failures_from(
            cs,
            doc,
            0,
        ).len() && items@.len() > 0)),
{
}

} // verus!
