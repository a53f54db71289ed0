//! The order the sorting tools put values in, and a stable sort by it.
//!
//! Integers compare by value, floats (held by their bits) by value unless one
//! is a NaN, strings by character order; every other pair compares equal.
//! Such an order is a strict weak order only on some lists (a list of one
//! kind of value, say); the sort is stable on every list, and sorted on those.
use vstd::prelude::*;

use crate::text::{lemma_seq_less_asymmetric, lemma_seq_less_irreflexive, lemma_seq_less_total, lemma_seq_less_transitive, seq_less, str_less};
use crate::float_bits::{float_is_nan, float_is_nan_exec, float_rank, float_rank_exec};
use crate::value::{models, Val, Value};

verus! {

broadcast use crate::seq_models::group_value_models;

/// `a` sorts strictly before `b`: integers by value, non-NaN floats by value,
/// strings by character order (which is the byte order of their UTF-8
/// encodings). Any other pair, a NaN included, compares equal.
pub open spec fn sorts_before(a: Val, b: Val) -> bool {
    match (a, b) {
        (Val::Int(x), Val::Int(y)) => x < y,
        (Val::Float(x), Val::Float(y)) => !float_is_nan(x) && !float_is_nan(y) && float_rank(x) < float_rank(y),
        (Val::Str(x), Val::Str(y)) => seq_less(x, y),
        _ => false,
    }
}

/// Neither of `a` and `b` sorts before the other.
pub open spec fn sorts_equal(a: Val, b: Val) -> bool {
    !sorts_before(a, b) && !sorts_before(b, a)
}

/// On the elements of `s` the order is a strict weak order: not sorting
/// before is transitive among them. Mixing kinds of values, or a NaN, can
/// break this, since such pairs compare equal.
pub open spec fn order_consistent(s: Seq<Val>) -> bool {
    forall|a: Val, b: Val, c: Val|
        #![trigger sorts_before(a, b), sorts_before(b, c)]
        s.contains(a) && s.contains(b) && s.contains(c) && !sorts_before(a, b) && !sorts_before(b, c)
            ==> !sorts_before(a, c)
}

/// All elements of `s` are integers, or all are strings, or all are floats
/// and none a NaN.
pub open spec fn one_kind(s: Seq<Val>) -> bool {
    ||| forall|i: int| 0 <= i < s.len() ==> #[trigger] s[i] is Int
    ||| forall|i: int| 0 <= i < s.len() ==> #[trigger] s[i] is Str
    ||| forall|i: int| 0 <= i < s.len() ==> (#[trigger] s[i] matches Val::Float(b) && !float_is_nan(b))
}

/// No element of `s` sorts before an element ahead of it.
pub open spec fn in_order(s: Seq<Val>) -> bool {
    forall|i: int, j: int| 0 <= i < j < s.len() ==> !sorts_before(#[trigger] s[j], #[trigger] s[i])
}

/// `x` put into `t` behind every element that it does not sort before,
/// looking from the end: the step of insertion sort.
pub open spec fn insert_sorted(t: Seq<Val>, x: Val) -> Seq<Val>
    decreases t.len(),
{
    if t.len() == 0 {
        seq![x]
    } else if sorts_before(x, t.last()) {
        insert_sorted(t.drop_last(), x).push(t.last())
    } else {
        t.push(x)
    }
}

/// `s` sorted stably: each element in turn put into the sorted list of the
/// elements before it.
pub open spec fn stable_sorted(s: Seq<Val>) -> Seq<Val>
    decreases s.len(),
{
    if s.len() == 0 {
        Seq::empty()
    } else {
        insert_sorted(stable_sorted(s.drop_last()), s.last())
    }
}

/// Nothing sorts before itself, and of two values at most one sorts before the other.
pub proof fn lemma_sorts_before_strict(a: Val, b: Val)
    ensures
        !sorts_before(a, a),
        sorts_before(a, b) ==> !sorts_before(b, a),
{
    match (a, b) {
        (Val::Str(x), Val::Str(y)) => {
            lemma_seq_less_irreflexive(x);
            lemma_seq_less_asymmetric(x, y);
        },
        (Val::Str(x), _) => {
            lemma_seq_less_irreflexive(x);
        },
        _ => {},
    }
}

proof fn lemma_insert_all(t: Seq<Val>, x: Val, p: spec_fn(Val) -> bool)
    requires
        forall|i: int| 0 <= i < t.len() ==> p(#[trigger] t[i]),
        p(x),
    ensures
        insert_sorted(t, x).len() == t.len() + 1,
        forall|i: int| 0 <= i < insert_sorted(t, x).len() ==> p(#[trigger] insert_sorted(t, x)[i]),
    decreases t.len(),
{
    if t.len() > 0 && sorts_before(x, t.last()) {
        lemma_insert_all(t.drop_last(), x, p);
    }
}

proof fn lemma_sorted_all(s: Seq<Val>, p: spec_fn(Val) -> bool)
    requires
        forall|i: int| 0 <= i < s.len() ==> p(#[trigger] s[i]),
    ensures
        stable_sorted(s).len() == s.len(),
        forall|i: int| 0 <= i < stable_sorted(s).len() ==> p(#[trigger] stable_sorted(s)[i]),
    decreases s.len(),
{
    if s.len() > 0 {
        lemma_sorted_all(s.drop_last(), p);
        lemma_insert_all(stable_sorted(s.drop_last()), s.last(), p);
    }
}

proof fn lemma_insert_multiset(t: Seq<Val>, x: Val)
    ensures
        insert_sorted(t, x).to_multiset() =~= t.to_multiset().insert(x),
    decreases t.len(),
{
    broadcast use vstd::seq_lib::group_to_multiset_ensures;

    if t.len() == 0 {
        assert(seq![x] =~= Seq::<Val>::empty().push(x));
        assert(t =~= Seq::<Val>::empty());
    } else if sorts_before(x, t.last()) {
        lemma_insert_multiset(t.drop_last(), x);
        assert(t =~= t.drop_last().push(t.last()));
    }
}

/// Sorting keeps every element, as often as it occurs.
pub proof fn law_stable_sort_permutes(s: Seq<Val>)
    ensures
        stable_sorted(s).to_multiset() =~= s.to_multiset(),
    decreases s.len(),
{
    broadcast use vstd::seq_lib::group_to_multiset_ensures;

    if s.len() > 0 {
        law_stable_sort_permutes(s.drop_last());
        lemma_insert_multiset(stable_sorted(s.drop_last()), s.last());
        assert(s =~= s.drop_last().push(s.last()));
    }
}

proof fn lemma_insert_in_order(t: Seq<Val>, x: Val, u: Seq<Val>)
    requires
        in_order(t),
        order_consistent(u),
        forall|i: int| 0 <= i < t.len() ==> u.contains(#[trigger] t[i]),
        u.contains(x),
    ensures
        in_order(insert_sorted(t, x)),
    decreases t.len(),
{
    if t.len() == 0 {
    } else if sorts_before(x, t.last()) {
        let last = t.last();
        let t0 = t.drop_last();
        lemma_insert_in_order(t0, x, u);
        let r0 = insert_sorted(t0, x);
        lemma_sorts_before_strict(x, last);
        let p = |y: Val| !sorts_before(last, y);
        assert forall|i: int| 0 <= i < t0.len() implies p(#[trigger] t0[i]) by {
            assert(t0[i] == t[i]);
        }
        lemma_insert_all(t0, x, p);
        let r = r0.push(last);
        assert forall|i: int, j: int| 0 <= i < j < r.len() implies !sorts_before(#[trigger] r[j], #[trigger] r[i]) by {
            if j < r0.len() {
                assert(r[i] == r0[i] && r[j] == r0[j]);
            } else {
                assert(r[j] == last && r[i] == r0[i]);
                assert(p(r0[i]));
            }
        }
    } else {
        let n = t.len() - 1;
        let r = t.push(x);
        assert forall|i: int, j: int| 0 <= i < j < r.len() implies !sorts_before(#[trigger] r[j], #[trigger] r[i]) by {
            if j < t.len() {
                assert(r[i] == t[i] && r[j] == t[j]);
            } else {
                assert(r[j] == x && r[i] == t[i]);
                if i < n {
                    assert(!sorts_before(t[n], t[i]));
                    assert(u.contains(t[n]) && u.contains(t[i]));
                    assert(!sorts_before(x, t[n]));
                }
            }
        }
    }
}

/// On a list whose elements the order ranks consistently, the sort puts
/// no element behind one that sorts after it.
pub proof fn law_stable_sort_in_order(s: Seq<Val>)
    requires
        order_consistent(s),
    ensures
        in_order(stable_sorted(s)),
    decreases s.len(),
{
    if s.len() > 0 {
        let s0 = s.drop_last();
        assert(order_consistent(s0)) by {
            assert forall|a: Val, b: Val, c: Val|
                #![trigger sorts_before(a, b), sorts_before(b, c)]
                s0.contains(a) && s0.contains(b) && s0.contains(c) && !sorts_before(a, b) && !sorts_before(b, c)
                implies !sorts_before(a, c) by {
                lemma_sub_contains(s, s0.len() as int, a);
                lemma_sub_contains(s, s0.len() as int, b);
                lemma_sub_contains(s, s0.len() as int, c);
            }
        }
        law_stable_sort_in_order(s0);
        let q = |y: Val| s.contains(y);
        assert forall|i: int| 0 <= i < s0.len() implies q(#[trigger] s0[i]) by {
            assert(s[i] == s0[i]);
        }
        lemma_sorted_all(s0, q);
        assert(s.contains(s[s.len() - 1]));
        lemma_insert_in_order(stable_sorted(s0), s.last(), s);
    }
}

proof fn lemma_sub_contains(s: Seq<Val>, k: int, a: Val)
    requires
        0 <= k <= s.len(),
        s.take(k).contains(a),
    ensures
        s.contains(a),
{
    let i = choose|i: int| 0 <= i < s.take(k).len() && s.take(k)[i] == a;
    assert(s[i] == a);
}

proof fn lemma_insert_filter(t: Seq<Val>, x: Val, e: Val, u: Seq<Val>)
    requires
        order_consistent(u),
        forall|i: int| 0 <= i < t.len() ==> u.contains(#[trigger] t[i]),
        u.contains(x),
        u.contains(e),
    ensures
        insert_sorted(t, x).filter(|y: Val| sorts_equal(y, e)) =~= t.push(x).filter(|y: Val| sorts_equal(y, e)),
    decreases t.len(),
{
    broadcast use Seq::lemma_filter_push;

    let p = |y: Val| sorts_equal(y, e);
    if t.len() > 0 && sorts_before(x, t.last()) {
        let t0 = t.drop_last();
        let last = t.last();
        assert(u.contains(last));
        lemma_insert_filter(t0, x, e, u);
        assert(t =~= t0.push(last));
        if p(x) && p(last) {
            assert(!sorts_before(x, e) && !sorts_before(e, last));
            assert(!sorts_before(x, last));
        }
        assert(insert_sorted(t, x) == insert_sorted(t0, x).push(last));
        if p(x) && !p(last) {
            assert(t0.push(x).filter(p) == t0.filter(p).push(x));
            assert(t.filter(p) == t0.filter(p));
        } else if !p(x) && p(last) {
            assert(t0.push(x).filter(p) == t0.filter(p));
        } else if !p(x) && !p(last) {
            assert(t0.push(x).filter(p) == t0.filter(p));
            assert(t.filter(p) == t0.filter(p));
        }
    }
}

/// Sorting keeps the order of equal elements: on a list whose elements the
/// order ranks consistently, the elements that sort equal to any one of them
/// come out in the order they went in.
pub proof fn law_stable_sort_keeps_equal_order(s: Seq<Val>, e: Val)
    requires
        order_consistent(s),
        s.contains(e),
    ensures
        stable_sorted(s).filter(|y: Val| sorts_equal(y, e)) =~= s.filter(|y: Val| sorts_equal(y, e)),
    decreases s.len(),
{
    broadcast use Seq::lemma_filter_push;

    if s.len() > 0 {
        let s0 = s.drop_last();
        let q = |y: Val| s.contains(y);
        assert forall|i: int| 0 <= i < s0.len() implies q(#[trigger] s0[i]) by {
            assert(s[i] == s0[i]);
        }
        lemma_sorted_all(s0, q);
        assert(s.contains(s[s.len() - 1]));
        lemma_insert_filter(stable_sorted(s0), s.last(), e, s);
        lemma_sorted_filter(s0, e, s);
        assert(s =~= s0.push(s.last()));
    }
}

proof fn lemma_sorted_filter(s: Seq<Val>, e: Val, u: Seq<Val>)
    requires
        order_consistent(u),
        forall|i: int| 0 <= i < s.len() ==> u.contains(#[trigger] s[i]),
        u.contains(e),
    ensures
        stable_sorted(s).filter(|y: Val| sorts_equal(y, e)) =~= s.filter(|y: Val| sorts_equal(y, e)),
    decreases s.len(),
{
    broadcast use Seq::lemma_filter_push;

    if s.len() > 0 {
        let s0 = s.drop_last();
        assert forall|i: int| 0 <= i < s0.len() implies u.contains(#[trigger] s0[i]) by {
            assert(s0[i] == s[i]);
        }
        lemma_sorted_filter(s0, e, u);
        let q = |y: Val| u.contains(y);
        assert forall|i: int| 0 <= i < s0.len() implies q(#[trigger] s0[i]) by {
            assert(s0[i] == s[i]);
        }
        lemma_sorted_all(s0, q);
        assert(u.contains(s[s.len() - 1]));
        lemma_insert_filter(stable_sorted(s0), s.last(), e, u);
        assert(s =~= s0.push(s.last()));
    }
}

/// A list of integers only, of strings only, or of non-NaN floats only is
/// ranked consistently.
pub proof fn law_one_kind_consistent(s: Seq<Val>)
    requires
        one_kind(s),
    ensures
        order_consistent(s),
{
    assert forall|a: Val, b: Val, c: Val|
        #![trigger sorts_before(a, b), sorts_before(b, c)]
        s.contains(a) && s.contains(b) && s.contains(c) && !sorts_before(a, b) && !sorts_before(b, c)
        implies !sorts_before(a, c) by {
        let i = choose|i: int| 0 <= i < s.len() && s[i] == a;
        let j = choose|j: int| 0 <= j < s.len() && s[j] == b;
        let k = choose|k: int| 0 <= k < s.len() && s[k] == c;
        assert(s[i] == a && s[j] == b && s[k] == c);
        match (a, b, c) {
            (Val::Str(x), Val::Str(y), Val::Str(z)) => {
                lemma_seq_less_total(x, y);
                lemma_seq_less_total(y, z);
                if seq_less(x, z) {
                    if seq_less(y, x) {
                        lemma_seq_less_transitive(y, x, z);
                    }
                    if seq_less(z, y) {
                        lemma_seq_less_transitive(x, z, y);
                        lemma_seq_less_asymmetric(x, y);
                    }
                }
            },
            _ => {},
        }
    }
}

/// Whether `a` sorts strictly before `b`.
pub fn sorts_before_exec(a: &Value, b: &Value) -> (r: bool)
    ensures
        r == sorts_before(a.model(), b.model()),
{
    match a {
        Value::Int(x) => match b {
            Value::Int(y) => *x < *y,
            _ => false,
        },
        Value::Float(x) => match b {
            Value::Float(y) => !float_is_nan_exec(*x) && !float_is_nan_exec(*y) && float_rank_exec(*x) < float_rank_exec(*y),
            _ => false,
        },
        Value::String(x) => match b {
            Value::String(y) => str_less(x.as_str(), y.as_str()),
            _ => false,
        },
        _ => false,
    }
}

proof fn lemma_insert_at(t: Seq<Val>, x: Val, p: int)
    requires
        0 <= p <= t.len(),
        forall|k: int| p <= k < t.len() ==> sorts_before(x, #[trigger] t[k]),
        p == 0 || !sorts_before(x, t[p - 1]),
    ensures
        insert_sorted(t, x) =~= t.insert(p, x),
    decreases t.len(),
{
    if t.len() > 0 {
        if p < t.len() {
            assert(sorts_before(x, t[t.len() - 1]));
            let t0 = t.drop_last();
            assert forall|k: int| p <= k < t0.len() implies sorts_before(x, #[trigger] t0[k]) by {
                assert(t0[k] == t[k]);
            }
            if p > 0 {
                assert(t0[p - 1] == t[p - 1]);
            }
            lemma_insert_at(t0, x, p);
            assert(t0.insert(p, x).push(t.last()) =~= t.insert(p, x));
        } else {
            assert(!sorts_before(x, t.last()));
        }
    }
}

fn insert_sorted_exec(v: &mut Vec<Value>, x: Value)
    ensures
        models(final(v)@) =~= insert_sorted(models(old(v)@), x.model()),
{
    let mut p: usize = v.len();
    while p > 0 && sorts_before_exec(&x, &v[p - 1])
        invariant
            p <= v.len(),
            forall|k: int| p <= k < v.len() ==> sorts_before(x.model(), #[trigger] models(v@)[k]),
        decreases p,
    {
        p = p - 1;
    }
    proof {
        lemma_insert_at(models(v@), x.model(), p as int);
    }
    let ghost before = v@;
    v.insert(p, x);
    assert(models(v@) =~= models(before).insert(p as int, x.model())) by {
        assert forall|k: int| 0 <= k < v@.len() implies #[trigger] models(v@)[k] == models(before).insert(p as int, x.model())[k] by {
            if k < p {
                assert(v@[k] == before[k]);
            } else if k > p {
                assert(v@[k] == before[k - 1]);
            }
        }
    }
}

/// A stably sorted copy of `vals`.
pub fn stable_sort_values(vals: &[Value]) -> (r: Vec<Value>)
    ensures
        models(r@) == stable_sorted(models(vals@)),
{
    let mut out: Vec<Value> = Vec::new();
    let mut i: usize = 0;
    while i < vals.len()
        invariant
            i <= vals.len(),
            models(out@) == stable_sorted(models(vals@).take(i as int)),
        decreases vals.len() - i,
    {
        assert(models(vals@).take(i as int + 1).drop_last() =~= models(vals@).take(i as int));
        insert_sorted_exec(&mut out, vals[i].deep_copy());
        i = i + 1;
    }
    assert(models(vals@).take(vals.len() as int) =~= models(vals@));
    out
}

} // verus!
