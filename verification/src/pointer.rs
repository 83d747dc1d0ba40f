//! The document accessor: resolves a slash-delimited hierarchical path
//! expression against a document tree. The empty path denotes the whole
//! document; each `/`-separated segment is an object-key or sequence-index
//! lookup; `~1` and `~0` stand for a literal `/` and `~` inside a key.
//! Absence (missing key, out-of-range index, traversal through a scalar)
//! is a silent outcome, never an error.

use vstd::prelude::*;
use vstd::string::StrSliceExecFns;
use crate::value::Value;

verus! {

/// Replaces the escape pairs `~1` and `~0` by `/` and `~`, left to right.
pub open spec fn unescape(s: Seq<char>) -> Seq<char>
    decreases s.len(),
{
    if s.len() == 0 {
        Seq::empty()
    } else if s.len() >= 2 && s[0] == '~' && s[1] == '1' {
        seq!['/'] + unescape(s.skip(2))
    } else if s.len() >= 2 && s[0] == '~' && s[1] == '0' {
        seq!['~'] + unescape(s.skip(2))
    } else {
        seq![s[0]] + unescape(s.skip(1))
    }
}

/// Splits `p` at every `/`; `cur` is the segment read so far. A trailing
/// `/` therefore yields a final empty segment, as does an empty `p`.
pub open spec fn split_segments(p: Seq<char>, cur: Seq<char>) -> Seq<Seq<char>>
    decreases p.len(),
{
    if p.len() == 0 {
        seq![cur]
    } else if p[0] == '/' {
        seq![cur] + split_segments(p.skip(1), Seq::empty())
    } else {
        split_segments(p.skip(1), cur.push(p[0]))
    }
}

pub open spec fn is_digit(c: char) -> bool {
    '0' as u32 <= c as u32 && c as u32 <= '9' as u32
}

pub open spec fn digit_val(c: char) -> int {
    c as u32 - '0' as u32
}

pub open spec fn all_digits(s: Seq<char>) -> bool {
    forall|k: int| 0 <= k < s.len() ==> is_digit(#[trigger] s[k])
}

/// The number written in decimal by `s`, read left to right.
pub open spec fn digits_val(s: Seq<char>) -> int
    decreases s.len(),
{
    if s.len() == 0 {
        0
    } else {
        digits_val(s.drop_last()) * 10 + digit_val(s.last())
    }
}

/// A segment denotes a sequence index when it is all digits with no
/// superfluous leading zero; anything else (empty, signs, other text) does
/// not.
pub open spec fn seg_index(s: Seq<char>) -> Option<int> {
    if s.len() == 0 {
        None
    } else if !all_digits(s) {
        None
    } else if s.len() > 1 && s[0] == '0' {
        None
    } else {
        Some(digits_val(s))
    }
}

/// First entry of `entries` (from position `i` on) whose key is `key`.
pub open spec fn key_find_from(entries: Seq<(String, Value)>, key: Seq<char>, i: int) -> Option<
    Value,
>
    decreases entries.len() - i,
{
    if 0 <= i < entries.len() {
        if entries[i].0@ == key {
            Some(entries[i].1)
        } else {
            key_find_from(entries, key, i + 1)
        }
    } else {
        None
    }
}

/// The element of `items` selected by segment `seg`, if `seg` denotes an
/// in-range index.
pub open spec fn index_sel(items: Seq<Value>, seg: Seq<char>) -> Option<Value> {
    match seg_index(seg) {
        Some(ix) => if 0 <= ix < items.len() {
            Some(items[ix])
        } else {
            None
        },
        None => None,
    }
}

/// Walks the document along the unescaped segments `toks[k..]`.
pub open spec fn lookup_from(doc: Value, toks: Seq<Seq<char>>, k: int) -> Option<Value>
    decreases toks.len() - k,
{
    if 0 <= k < toks.len() {
        let t = unescape(toks[k]);
        match doc {
            Value::Object(entries) => match key_find_from(entries@, t, 0) {
                Some(v) => lookup_from(v, toks, k + 1),
                None => None,
            },
            Value::Array(items) => match index_sel(items@, t) {
                Some(v) => lookup_from(v, toks, k + 1),
                None => None,
            },
            _ => None,
        }
    } else {
        Some(doc)
    }
}

/// The node of `doc` at path `p`: the whole document for the empty path;
/// absent unless `p` starts with `/`; otherwise the walk along the
/// segments of `p`.
pub open spec fn resolve_path(doc: Value, p: Seq<char>) -> Option<Value> {
    if p.len() == 0 {
        Some(doc)
    } else if p[0] != '/' {
        None
    } else {
        lookup_from(doc, split_segments(p.skip(1), Seq::empty()), 0)
    }
}

/// The character views of a list of segments.
pub open spec fn toks_view(toks: Seq<Vec<char>>) -> Seq<Seq<char>> {
    Seq::new(toks.len(), |i: int| toks[i]@)
}

fn unescape_exec(t: &Vec<char>) -> (r: Vec<char>)
    ensures
        r@ == unescape(t@),
{
    let n = t.len();
    let mut out: Vec<char> = Vec::new();
    let mut i: usize = 0;
    proof {
        assert(t@.skip(0) =~= t@);
        assert(out@ + unescape(t@.skip(0)) =~= unescape(t@));
    }
    while i < n
        invariant
            i <= n,
            n == t@.len(),
            unescape(t@) == out@ + unescape(t@.skip(i as int)),
        decreases n - i,
    {
        proof {
            assert(t@.skip(i as int)[0] == t@[i as int]);
            assert(t@.skip(i as int).skip(1) =~= t@.skip(i as int + 1));
        }
        let ghost out0 = out@;
        let c = t[i];
        if c == '~' && i + 1 < n {
            proof {
                assert(t@.skip(i as int)[1] == t@[i as int + 1]);
                assert(t@.skip(i as int).skip(2) =~= t@.skip(i as int + 2));
            }
            let c2 = t[i + 1];
            if c2 == '1' {
                out.push('/');
                proof {
                    assert(out@ =~= out0 + seq!['/']);
                    assert(out0 + (seq!['/'] + unescape(t@.skip(i as int + 2))) =~= (out0
                        + seq!['/']) + unescape(t@.skip(i as int + 2)));
                }
                i = i + 2;
            } else if c2 == '0' {
                out.push('~');
                proof {
                    assert(out@ =~= out0 + seq!['~']);
                    assert(out0 + (seq!['~'] + unescape(t@.skip(i as int + 2))) =~= (out0
                        + seq!['~']) + unescape(t@.skip(i as int + 2)));
                }
                i = i + 2;
            } else {
                out.push(c);
                proof {
                    assert(out@ =~= out0 + seq![t@[i as int]]);
                    assert(out0 + (seq![t@[i as int]] + unescape(t@.skip(i as int + 1))) =~= (out0
                        + seq![t@[i as int]]) + unescape(t@.skip(i as int + 1)));
                }
                i = i + 1;
            }
        } else {
            out.push(c);
            proof {
                assert(out@ =~= out0 + seq![t@[i as int]]);
                assert(out0 + (seq![t@[i as int]] + unescape(t@.skip(i as int + 1))) =~= (out0
                    + seq![t@[i as int]]) + unescape(t@.skip(i as int + 1)));
            }
            i = i + 1;
        }
    }
    proof {
        assert(t@.skip(n as int) =~= Seq::<char>::empty());
        assert(out@ + unescape(t@.skip(n as int)) =~= out@);
    }
    out
}

fn str_eq_chars(s: &str, key: &Vec<char>) -> (r: bool)
    ensures
        r == (s@ == key@),
{
    let n = s.unicode_len();
    if n != key.len() {
        return false;
    }
    let mut i: usize = 0;
    while i < n
        invariant
            i <= n,
            n == s@.len(),
            n == key@.len(),
            forall|j: int| 0 <= j < i ==> s@[j] == key@[j],
        decreases n - i,
    {
        if s.get_char(i) != key[i] {
            return false;
        }
        i = i + 1;
    }
    proof {
        assert(s@ =~= key@);
    }
    true
}

fn find_key<'a>(entries: &'a Vec<(String, Value)>, key: &Vec<char>) -> (r: Option<&'a Value>)
    ensures
        match r {
            Some(v) => key_find_from(entries@, key@, 0) == Some(*v),
            None => key_find_from(entries@, key@, 0) is None,
        },
{
    let n = entries.len();
    let mut j: usize = 0;
    while j < n
        invariant
            j <= n,
            n == entries@.len(),
            key_find_from(entries@, key@, 0) == key_find_from(entries@, key@, j as int),
        decreases n - j,
    {
        if str_eq_chars(entries[j].0.as_str(), key) {
            return Some(&entries[j].1);
        }
        j = j + 1;
    }
    None
}

proof fn lemma_digits_val_nonneg(s: Seq<char>)
    requires
        all_digits(s),
    ensures
        digits_val(s) >= 0,
    decreases s.len(),
{
    if s.len() > 0 {
        assert(all_digits(s.drop_last())) by {
            assert(forall|k: int|
                0 <= k < s.len() - 1 ==> s.drop_last()[k] == #[trigger] s[k]);
        }
        lemma_digits_val_nonneg(s.drop_last());
        assert(is_digit(s[s.len() - 1]));
    }
}

proof fn lemma_digits_val_monotone(s: Seq<char>, m: int)
    requires
        all_digits(s),
        0 <= m <= s.len(),
    ensures
        digits_val(s.take(m)) <= digits_val(s),
    decreases s.len() - m,
{
    if m < s.len() {
        lemma_digits_val_monotone(s, m + 1);
        assert(all_digits(s.take(m))) by {
            assert(forall|k: int| 0 <= k < m ==> s.take(m)[k] == #[trigger] s[k]);
        }
        lemma_digits_val_nonneg(s.take(m));
        assert(s.take(m + 1).drop_last() =~= s.take(m));
        assert(s.take(m + 1).last() == s[m]);
        assert(is_digit(s[m]));
        assert(digits_val(s.take(m + 1)) == digits_val(s.take(m)) * 10 + digit_val(s[m]));
    } else {
        assert(s.take(m) =~= s);
    }
}

fn index_lookup<'a>(items: &'a Vec<Value>, seg: &Vec<char>) -> (r: Option<&'a Value>)
    ensures
        match r {
            Some(v) => index_sel(items@, seg@) == Some(*v),
            None => index_sel(items@, seg@) is None,
        },
{
    let n = seg.len();
    if n == 0 {
        return None;
    }
    if n > 1 && seg[0] == '0' {
        return None;
    }
    let len_u: usize = items.len();
    let mut i: usize = 0;
    let mut val: u128 = 0;
    while i < n
        invariant
            i <= n,
            n == seg@.len(),
            len_u == items@.len(),
            forall|j: int| 0 <= j < i ==> is_digit(#[trigger] seg@[j]),
            val == digits_val(seg@.take(i as int)),
            val <= len_u as u128,
        decreases n - i,
    {
        let c = seg[i];
        let cu = c as u32;
        if cu < 48 || cu > 57 {
            proof {
                assert(!is_digit(seg@[i as int]));
            }
            return None;
        }
        let d: u128 = (cu - 48) as u128;
        proof {
            assert(seg@.take(i as int + 1).drop_last() =~= seg@.take(i as int));
            assert(seg@.take(i as int + 1).last() == seg@[i as int]);
        }
        let nv: u128 = val * 10 + d;
        if nv > len_u as u128 {
            proof {
                if all_digits(seg@) {
                    lemma_digits_val_monotone(seg@, i as int + 1);
                }
            }
            return None;
        }
        val = nv;
        i = i + 1;
    }
    proof {
        assert(seg@.take(n as int) =~= seg@);
    }
    let ix = val as usize;
    if ix < len_u {
        Some(&items[ix])
    } else {
        None
    }
}

fn walk<'a>(doc: &'a Value, toks: &Vec<Vec<char>>, k: usize) -> (r: Option<&'a Value>)
    requires
        k <= toks@.len(),
    ensures
        match r {
            Some(v) => lookup_from(*doc, toks_view(toks@), k as int) == Some(*v),
            None => lookup_from(*doc, toks_view(toks@), k as int) is None,
        },
    decreases toks@.len() - k,
{
    if k == toks.len() {
        return Some(doc);
    }
    let t = unescape_exec(&toks[k]);
    proof {
        assert(toks_view(toks@)[k as int] == toks@[k as int]@);
    }
    match doc {
        Value::Object(entries) => match find_key(entries, &t) {
            Some(v) => walk(v, toks, k + 1),
            None => None,
        },
        Value::Array(items) => match index_lookup(items, &t) {
            Some(v) => walk(v, toks, k + 1),
            None => None,
        },
        _ => None,
    }
}

fn tokenize(path: &str) -> (r: Vec<Vec<char>>)
    requires
        path@.len() >= 1,
        path@[0] == '/',
    ensures
        toks_view(r@) == split_segments(path@.skip(1), Seq::<char>::empty()),
{
    let n = path.unicode_len();
    let mut done: Vec<Vec<char>> = Vec::new();
    let mut tok: Vec<char> = Vec::new();
    let mut i: usize = 1;
    proof {
        assert(toks_view(done@) =~= Seq::<Seq<char>>::empty());
        assert(toks_view(done@) + split_segments(path@.skip(1), Seq::<char>::empty())
            =~= split_segments(path@.skip(1), Seq::<char>::empty()));
    }
    while i < n
        invariant
            1 <= i <= n,
            n == path@.len(),
            split_segments(path@.skip(1), Seq::<char>::empty()) == toks_view(done@)
                + split_segments(path@.skip(i as int), tok@),
        decreases n - i,
    {
        proof {
            assert(path@.skip(i as int)[0] == path@[i as int]);
            assert(path@.skip(i as int).skip(1) =~= path@.skip(i as int + 1));
        }
        let ghost done0 = done@;
        let ghost tok0 = tok@;
        let c = path.get_char(i);
        if c == '/' {
            done.push(tok);
            tok = Vec::new();
            proof {
                assert(toks_view(done@) =~= toks_view(done0) + seq![tok0]);
                assert(toks_view(done0) + (seq![tok0] + split_segments(
                    path@.skip(i as int + 1),
                    Seq::<char>::empty(),
                )) =~= (toks_view(done0) + seq![tok0]) + split_segments(
                    path@.skip(i as int + 1),
                    Seq::<char>::empty(),
                ));
            }
        } else {
            tok.push(c);
        }
        i = i + 1;
    }
    proof {
        assert(path@.skip(n as int) =~= Seq::<char>::empty());
    }
    let ghost done1 = done@;
    let ghost tok1 = tok@;
    done.push(tok);
    proof {
        assert(toks_view(done@) =~= toks_view(done1) + seq![tok1]);
        assert(split_segments(path@.skip(n as int), tok1) =~= seq![tok1]);
    }
    done
}

/// Resolves `path` against `doc`, returning the node it denotes or `None`
/// when any step along the way is absent.
pub fn resolve<'a>(doc: &'a Value, path: &str) -> (r: Option<&'a Value>)
    ensures
        match r {
            Some(v) => resolve_path(*doc, path@) == Some(*v),
            None => resolve_path(*doc, path@) is None,
        },
{
    let n = path.unicode_len();
    if n == 0 {
        return Some(doc);
    }
    if path.get_char(0) != '/' {
        return None;
    }
    let toks = tokenize(path);
    walk(doc, &toks, 0)
}

} // verus!
