//! Stable sorting of numbers.

use vstd::prelude::*;
use vstd::seq_lib::*;
use crate::double::Double;

verus! {

/// A number put into a sequence, behind the last item that it is not below.
pub open spec fn inserted(r: Seq<Double>, x: Double) -> Seq<Double>
    decreases r.len(),
{
    if r.len() == 0 || !x.below(r.last()) {
        r.push(x)
    } else {
        inserted(r.drop_last(), x).push(r.last())
    }
}

/// The numbers put into order one after the other.
pub open spec fn sorted(s: Seq<Double>) -> Seq<Double>
    decreases s.len(),
{
    if s.len() == 0 {
        s
    } else {
        inserted(sorted(s.drop_last()), s.last())
    }
}

/// No item is a NaN.
pub open spec fn no_nan(s: Seq<Double>) -> bool {
    forall|i: int| 0 <= i < s.len() ==> !(#[trigger] s[i]).nan()
}

/// The items are numbers in ascending order.
pub open spec fn ordered(s: Seq<Double>) -> bool {
    forall|i: int, j: int| 0 <= i <= j < s.len() ==> (#[trigger] s[i]).at_most(#[trigger] s[j])
}

/// The zeros, of either sign: the only equal numbers that can be told apart.
pub open spec fn zeros(s: Seq<Double>) -> Seq<Double>
    decreases s.len(),
{
    if s.len() == 0 {
        s
    } else if s.last().zero() {
        zeros(s.drop_last()).push(s.last())
    } else {
        zeros(s.drop_last())
    }
}

proof fn lemma_last(s: Seq<Double>)
    requires
        s.len() > 0,
    ensures
        s == s.drop_last().push(s.last()),
        s.to_multiset() == s.drop_last().to_multiset().insert(s.last()),
{
    broadcast use group_to_multiset_ensures;

    assert(s == s.drop_last().push(s.last()));
}

proof fn lemma_push(s: Seq<Double>, x: Double)
    ensures
        s.push(x).drop_last() == s,
        s.push(x).last() == x,
        s.push(x).to_multiset() == s.to_multiset().insert(x),
{
    broadcast use group_to_multiset_ensures;

    assert(s.push(x).drop_last() == s);
}

proof fn lemma_inserted_items(r: Seq<Double>, x: Double)
    ensures
        inserted(r, x).len() == r.len() + 1,
        inserted(r, x).to_multiset() == r.to_multiset().insert(x),
        forall|i: int|
            0 <= i < inserted(r, x).len() ==> #[trigger] inserted(r, x)[i] == x || r.contains(
                inserted(r, x)[i],
            ),
    decreases r.len(),
{
    if r.len() == 0 || !x.below(r.last()) {
        lemma_push(r, x);
        assert forall|i: int| 0 <= i < r.len() implies #[trigger] r.push(x)[i] == x || r.contains(
            r.push(x)[i],
        ) by {
            assert(r[i] == r.push(x)[i]);
        }
    } else {
        let rest = inserted(r.drop_last(), x);
        lemma_inserted_items(r.drop_last(), x);
        lemma_last(r);
        lemma_push(rest, r.last());
        assert(r.to_multiset().insert(x) =~= rest.to_multiset().insert(r.last()));
        assert forall|i: int|
            0 <= i < rest.push(r.last()).len() implies #[trigger] rest.push(r.last())[i] == x
            || r.contains(rest.push(r.last())[i]) by {
            if i < rest.len() {
                if rest[i] != x {
                    let k = choose|k: int|
                        0 <= k < r.drop_last().len() && r.drop_last()[k] == rest[i];
                    assert(r[k] == rest[i]);
                }
            } else {
                assert(r[r.len() - 1] == r.last());
            }
        }
    }
}

proof fn lemma_inserted_ordered(r: Seq<Double>, x: Double)
    requires
        ordered(r),
        !x.nan(),
    ensures
        ordered(inserted(r, x)),
        zeros(inserted(r, x)) == if x.zero() {
            zeros(r).push(x)
        } else {
            zeros(r)
        },
    decreases r.len(),
{
    if r.len() == 0 || !x.below(r.last()) {
        lemma_push(r, x);
        if r.len() > 0 {
            assert(r[r.len() - 1].at_most(r[r.len() - 1]));
        }
        assert forall|i: int, j: int| 0 <= i <= j < r.push(x).len() implies (#[trigger] r.push(
            x,
        )[i]).at_most(#[trigger] r.push(x)[j]) by {
            if i < r.len() {
                assert(r[i].at_most(r[r.len() - 1]));
                if j < r.len() {
                    assert(r[i].at_most(r[j]));
                }
            }
        }
    } else {
        let last = r.last();
        let rest = inserted(r.drop_last(), x);
        assert forall|i: int, j: int| 0 <= i <= j < r.drop_last().len() implies (
        #[trigger] r.drop_last()[i]).at_most(#[trigger] r.drop_last()[j]) by {
            assert(r[i].at_most(r[j]));
        }
        lemma_inserted_ordered(r.drop_last(), x);
        lemma_inserted_items(r.drop_last(), x);
        lemma_push(rest, last);
        lemma_last(r);
        assert(last.at_most(last)) by {
            assert(r[r.len() - 1].at_most(r[r.len() - 1]));
        }
        assert forall|i: int, j: int| 0 <= i <= j < rest.push(last).len() implies (
        #[trigger] rest.push(last)[i]).at_most(#[trigger] rest.push(last)[j]) by {
            if j < rest.len() {
                assert(rest[i].at_most(rest[j]));
            } else if i < rest.len() {
                if rest[i] != x {
                    let k = choose|k: int|
                        0 <= k < r.drop_last().len() && r.drop_last()[k] == rest[i];
                    assert(r[k].at_most(r[r.len() - 1]));
                }
            }
        }
        if x.zero() {
            assert(x.units() == 0) by {
                lemma_zero_units(x);
            }
            if last.zero() {
                lemma_zero_units(last);
            }
        }
    }
}

proof fn lemma_zero_units(x: Double)
    requires
        !x.nan(),
    ensures
        x.zero() <==> x.units() == 0,
{
    if x.pattern() > 0 {
        crate::double::lemma_magnitude_increases(0, x.pattern());
    }
}

/// Sorting keeps the items.
pub proof fn law_sorting_keeps_items(s: Seq<Double>)
    ensures
        sorted(s).len() == s.len(),
        sorted(s).to_multiset() == s.to_multiset(),
    decreases s.len(),
{
    if s.len() > 0 {
        law_sorting_keeps_items(s.drop_last());
        lemma_inserted_items(sorted(s.drop_last()), s.last());
        lemma_last(s);
    }
}

/// Sorting puts numbers into ascending order, equal ones as they were.
pub proof fn law_sorting_orders(s: Seq<Double>)
    requires
        no_nan(s),
    ensures
        ordered(sorted(s)),
        zeros(sorted(s)) == zeros(s),
    decreases s.len(),
{
    if s.len() > 0 {
        assert forall|i: int| 0 <= i < s.drop_last().len() implies !(
        #[trigger] s.drop_last()[i]).nan() by {
            assert(!s[i].nan());
        }
        law_sorting_orders(s.drop_last());
        assert(!s[s.len() - 1].nan());
        lemma_inserted_ordered(sorted(s.drop_last()), s.last());
    }
}

/// Numbers that are equal are the same unless they are zeros.
proof fn lemma_same_units(a: Double, b: Double)
    requires
        a.same_number(b),
        !a.zero(),
    ensures
        a == b,
{
    lemma_zero_units(a);
    lemma_zero_units(b);
    if a.pattern() < b.pattern() {
        crate::double::lemma_magnitude_increases(a.pattern(), b.pattern());
    } else if b.pattern() < a.pattern() {
        crate::double::lemma_magnitude_increases(b.pattern(), a.pattern());
    }
}

/// Items, order and the order of the zeros leave one sequence.
pub proof fn law_order_is_unique(a: Seq<Double>, b: Seq<Double>)
    requires
        ordered(a),
        ordered(b),
        a.to_multiset() == b.to_multiset(),
        zeros(a) == zeros(b),
    ensures
        a == b,
    decreases a.len(),
{
    broadcast use group_to_multiset_ensures;

    assert(a.len() == a.to_multiset().len());
    assert(b.len() == b.to_multiset().len());
    if a.len() > 0 {
        let (x, y) = (a.last(), b.last());
        lemma_last(a);
        lemma_last(b);
        assert(a[a.len() - 1].at_most(a[a.len() - 1]));
        assert(b[b.len() - 1].at_most(b[b.len() - 1]));
        assert(a.to_multiset().contains(x));
        assert(b.to_multiset().contains(y));
        assert(b.contains(x));
        assert(a.contains(y));
        let i = choose|i: int| 0 <= i < b.len() && b[i] == x;
        let j = choose|j: int| 0 <= j < a.len() && a[j] == y;
        assert(b[i].at_most(b[b.len() - 1]));
        assert(a[j].at_most(a[a.len() - 1]));
        assert(x.same_number(y));
        if x.zero() {
            lemma_zero_units(x);
            lemma_zero_units(y);
            assert(zeros(a).last() == x);
            assert(zeros(b).last() == y);
        } else {
            lemma_same_units(x, y);
        }
        assert(x == y);
        assert(a.drop_last().to_multiset() =~= a.to_multiset().remove(x));
        assert(b.drop_last().to_multiset() =~= b.to_multiset().remove(x));
        assert forall|i: int, j: int| 0 <= i <= j < a.drop_last().len() implies (
        #[trigger] a.drop_last()[i]).at_most(#[trigger] a.drop_last()[j]) by {
            assert(a[i].at_most(a[j]));
        }
        assert forall|i: int, j: int| 0 <= i <= j < b.drop_last().len() implies (
        #[trigger] b.drop_last()[i]).at_most(#[trigger] b.drop_last()[j]) by {
            assert(b[i].at_most(b[j]));
        }
        if x.zero() {
            assert(zeros(a.drop_last()) == zeros(a).drop_last());
            assert(zeros(b.drop_last()) == zeros(b).drop_last());
        }
        law_order_is_unique(a.drop_last(), b.drop_last());
    } else {
        assert(a == b);
    }
}

/// Two ordered sequences merged, an item of the first before its equals of the
/// second.
spec fn merged(a: Seq<Double>, b: Seq<Double>) -> Seq<Double>
    decreases a.len() + b.len(),
{
    if a.len() == 0 {
        b
    } else if b.len() == 0 {
        a
    } else if b.last().below(a.last()) {
        merged(a.drop_last(), b).push(a.last())
    } else {
        merged(a, b.drop_last()).push(b.last())
    }
}

/// Items that end below zero hold no zero.
proof fn lemma_no_zeros(b: Seq<Double>)
    requires
        ordered(b),
        b.len() > 0 ==> b.last().units() < 0,
    ensures
        zeros(b) == Seq::<Double>::empty(),
    decreases b.len(),
{
    if b.len() > 0 {
        assert(b[b.len() - 1].at_most(b[b.len() - 1]));
        lemma_zero_units(b.last());
        assert forall|i: int, j: int| 0 <= i <= j < b.drop_last().len() implies (
        #[trigger] b.drop_last()[i]).at_most(#[trigger] b.drop_last()[j]) by {
            assert(b[i].at_most(b[j]));
        }
        if b.len() > 1 {
            assert(b[b.len() - 2].at_most(b[b.len() - 1]));
        }
        lemma_no_zeros(b.drop_last());
    }
}

proof fn lemma_merged(a: Seq<Double>, b: Seq<Double>)
    requires
        ordered(a),
        ordered(b),
    ensures
        merged(a, b).len() == a.len() + b.len(),
        merged(a, b).to_multiset() == a.to_multiset().add(b.to_multiset()),
        ordered(merged(a, b)),
        zeros(merged(a, b)) == zeros(a) + zeros(b),
        forall|i: int|
            0 <= i < merged(a, b).len() ==> a.contains(#[trigger] merged(a, b)[i]) || b.contains(
                merged(a, b)[i],
            ),
    decreases a.len() + b.len(),
{
    broadcast use group_to_multiset_ensures;

    if a.len() == 0 {
        assert(a.to_multiset().add(b.to_multiset()) =~= b.to_multiset());
        assert(zeros(a) + zeros(b) == zeros(b));
        assert forall|i: int| 0 <= i < b.len() implies b.contains(#[trigger] merged(a, b)[i]) by {
            assert(b[i] == merged(a, b)[i]);
        }
    } else if b.len() == 0 {
        assert(a.to_multiset().add(b.to_multiset()) =~= a.to_multiset());
        assert(zeros(a) + zeros(b) == zeros(a));
        assert forall|i: int| 0 <= i < a.len() implies a.contains(#[trigger] merged(a, b)[i]) by {
            assert(a[i] == merged(a, b)[i]);
        }
    } else {
        let first = b.last().below(a.last());
        let (a1, b1, last) = if first {
            (a.drop_last(), b, a.last())
        } else {
            (a, b.drop_last(), b.last())
        };
        let rest = merged(a1, b1);
        assert forall|i: int, j: int| 0 <= i <= j < a1.len() implies (#[trigger] a1[i]).at_most(
            #[trigger] a1[j],
        ) by {
            assert(a[i].at_most(a[j]));
        }
        assert forall|i: int, j: int| 0 <= i <= j < b1.len() implies (#[trigger] b1[i]).at_most(
            #[trigger] b1[j],
        ) by {
            assert(b[i].at_most(b[j]));
        }
        lemma_merged(a1, b1);
        lemma_last(a);
        lemma_last(b);
        lemma_push(rest, last);
        assert(merged(a, b) == rest.push(last));
        assert(a.to_multiset().add(b.to_multiset()) =~= a1.to_multiset().add(
            b1.to_multiset(),
        ).insert(last));
        assert(a[a.len() - 1].at_most(a[a.len() - 1]));
        assert(b[b.len() - 1].at_most(b[b.len() - 1]));
        assert forall|i: int| 0 <= i < rest.len() implies (#[trigger] rest[i]).at_most(last)
            && (a.contains(rest[i]) || b.contains(rest[i])) by {
            if a1.contains(rest[i]) {
                let k = choose|k: int| 0 <= k < a1.len() && a1[k] == rest[i];
                assert(a[k] == rest[i]);
                assert(a[k].at_most(a[a.len() - 1]));
            } else {
                let k = choose|k: int| 0 <= k < b1.len() && b1[k] == rest[i];
                assert(b[k] == rest[i]);
                assert(b[k].at_most(b[b.len() - 1]));
            }
        }
        assert forall|i: int, j: int| 0 <= i <= j < rest.push(last).len() implies (
        #[trigger] rest.push(last)[i]).at_most(#[trigger] rest.push(last)[j]) by {
            if j < rest.len() {
                assert(rest[i].at_most(rest[j]));
            } else if i < rest.len() {
                assert(rest[i].at_most(last));
            }
        }
        assert forall|i: int| 0 <= i < rest.push(last).len() implies a.contains(
            #[trigger] rest.push(last)[i],
        ) || b.contains(rest.push(last)[i]) by {
            if i < rest.len() {
                assert(a.contains(rest[i]) || b.contains(rest[i]));
            } else if first {
                assert(a[a.len() - 1] == last);
            } else {
                assert(b[b.len() - 1] == last);
            }
        }
        if first && last.zero() {
            lemma_zero_units(last);
            lemma_no_zeros(b);
            assert(zeros(a) + zeros(b) == (zeros(a1) + zeros(b)).push(last));
        } else if last.zero() {
            assert(zeros(a) + zeros(b) == (zeros(a) + zeros(b1)).push(last));
        }
    }
}

/// Merges two ordered vectors.
fn merge(a: &Vec<Double>, b: &Vec<Double>) -> (r: Vec<Double>)
    requires
        a.len() + b.len() <= usize::MAX,
    ensures
        r@ == merged(a@, b@),
{
    let mut i: usize = a.len();
    let mut j: usize = b.len();
    let mut back: Vec<Double> = Vec::new();
    assert(a@.take(i as int) == a@);
    assert(b@.take(j as int) == b@);
    assert(merged(a@, b@) == merged(a@, b@) + back@.reverse());
    while i > 0 || j > 0
        invariant
            i <= a.len(),
            j <= b.len(),
            merged(a@, b@) == merged(a@.take(i as int), b@.take(j as int)) + back@.reverse(),
        decreases i + j,
    {
        let ghost (left, right) = (a@.take(i as int), b@.take(j as int));
        let ghost before = back@;
        if i > 0 && (j == 0 || b[j - 1].lt(a[i - 1])) {
            proof {
                assert(left.drop_last() == a@.take(i - 1));
                if j == 0 {
                    assert(merged(left, right) == merged(left.drop_last(), right).push(left.last()));
                }
            }
            back.push(a[i - 1]);
            i = i - 1;
        } else {
            proof {
                assert(right.drop_last() == b@.take(j - 1));
                if i == 0 {
                    assert(merged(left, right) == merged(left, right.drop_last()).push(
                        right.last(),
                    ));
                }
            }
            back.push(b[j - 1]);
            j = j - 1;
        }
        assert(merged(left, right) == merged(a@.take(i as int), b@.take(j as int)).push(
            back@.last(),
        ));
        assert(merged(a@, b@) == merged(a@.take(i as int), b@.take(j as int)) + back@.reverse()) by {
            assert(back@.reverse() == seq![back@.last()] + before.reverse());
        }
    }
    assert(merged(a@, b@) == back@.reverse());
    let mut out: Vec<Double> = Vec::new();
    let mut k: usize = back.len();
    while k > 0
        invariant
            k <= back.len(),
            out@ == back@.reverse().take(back.len() - k),
        decreases k,
    {
        k = k - 1;
        out.push(back[k]);
    }
    assert(out@ == back@.reverse());
    out
}

/// Sorts the numbers from `from` up to `to`.
fn merge_sort(v: &Vec<Double>, from: usize, to: usize) -> (r: Vec<Double>)
    requires
        from <= to <= v.len(),
        no_nan(v@),
    ensures
        ordered(r@),
        r@.to_multiset() == v@.subrange(from as int, to as int).to_multiset(),
        zeros(r@) == zeros(v@.subrange(from as int, to as int)),
        r.len() == to - from,
    decreases to - from,
{
    if to - from <= 1 {
        let mut out: Vec<Double> = Vec::new();
        if from < to {
            assert(!v@[from as int].nan());
            out.push(v[from]);
        }
        assert(out@ == v@.subrange(from as int, to as int));
        return out;
    }
    let middle: usize = from + (to - from) / 2;
    let a: Vec<Double> = merge_sort(v, from, middle);
    let b: Vec<Double> = merge_sort(v, middle, to);
    proof {
        broadcast use group_to_multiset_ensures;

        let (left, right) = (
            v@.subrange(from as int, middle as int),
            v@.subrange(middle as int, to as int),
        );
        assert(v@.subrange(from as int, to as int) == left + right);
        lemma_multiset_commutative(left, right);
        lemma_zeros_add(left, right);
        lemma_merged(a@, b@);
    }
    merge(&a, &b)
}

proof fn lemma_zeros_add(a: Seq<Double>, b: Seq<Double>)
    ensures
        zeros(a + b) == zeros(a) + zeros(b),
    decreases b.len(),
{
    if b.len() == 0 {
        assert(a + b == a);
        assert(zeros(a) + zeros(b) == zeros(a));
    } else {
        assert((a + b).drop_last() == a + b.drop_last());
        lemma_zeros_add(a, b.drop_last());
        if b.last().zero() {
            assert(zeros(a) + zeros(b) == (zeros(a) + zeros(b.drop_last())).push(b.last()));
        }
    }
}

/// Puts a number into a vector, behind the last item that it is not below.
fn insert_sorted(r: &mut Vec<Double>, x: Double)
    ensures
        final(r)@ == inserted(old(r)@, x),
{
    let mut k: usize = r.len();
    let ghost start = r@;
    assert(start.take(k as int) == start);
    assert(inserted(start, x) == inserted(start, x) + start.skip(k as int));
    while k > 0 && x.lt(r[k - 1])
        invariant
            k <= r.len(),
            r@ == start,
            inserted(start, x) == inserted(start.take(k as int), x) + start.skip(k as int),
        decreases k,
    {
        proof {
            let left = start.take(k as int);
            assert(left.drop_last() == start.take(k - 1));
            assert(inserted(left, x) == inserted(left.drop_last(), x).push(left.last()));
            assert(inserted(start, x) == inserted(start.take(k - 1), x) + start.skip(k - 1)) by {
                assert(start.skip(k - 1) == seq![left.last()] + start.skip(k as int));
            }
        }
        k = k - 1;
    }
    proof {
        let left = start.take(k as int);
        assert(inserted(left, x) == left.push(x));
    }
    r.insert(k, x);
    assert(r@ == start.take(k as int).push(x) + start.skip(k as int));
}

/// Whether some item is a NaN.
fn has_nan(v: &Vec<Double>) -> (r: bool)
    ensures
        r == !no_nan(v@),
{
    let mut i: usize = 0;
    while i < v.len()
        invariant
            i <= v.len(),
            forall|j: int| 0 <= j < i ==> !(#[trigger] v@[j]).nan(),
        decreases v.len() - i,
    {
        if v[i].is_nan() {
            assert(v@[i as int].nan());
            return true;
        }
        i = i + 1;
    }
    false
}

/// The numbers in ascending order, equal ones as they were.
pub fn sort_numbers(v: &Vec<Double>) -> (r: Vec<Double>)
    ensures
        r@ == sorted(v@),
{
    if has_nan(v) {
        let mut out: Vec<Double> = Vec::new();
        let mut i: usize = 0;
        while i < v.len()
            invariant
                i <= v.len(),
                out@ == sorted(v@.take(i as int)),
            decreases v.len() - i,
        {
            assert(v@.take(i + 1).drop_last() == v@.take(i as int));
            insert_sorted(&mut out, v[i]);
            i = i + 1;
        }
        assert(v@.take(i as int) == v@);
        out
    } else {
        let r: Vec<Double> = merge_sort(v, 0, v.len());
        proof {
            assert(v@.subrange(0, v.len() as int) == v@);
            law_sorting_keeps_items(v@);
            law_sorting_orders(v@);
            law_order_is_unique(r@, sorted(v@));
        }
        r
    }
}

} // verus!
