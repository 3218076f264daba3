//! The laws on the order of the runs: the summary does not depend on it.

use vstd::prelude::*;
use vstd::arithmetic::power2::*;
use vstd::seq_lib::*;
use crate::double::{lemma_magnitude_increases, lemma_round_zero, Double};
use crate::montecarlo::{field_statistics, field_values, hits, mean, output_field, radial_miss};
use crate::montecarlo::{radial_misses, share, sorted_field, squared_deviation};
use crate::montecarlo::{squared_deviations, standard_deviation, statistics, total, valid};
use crate::montecarlo::{FieldPercentiles, FieldStatistics, PerField, Percentiles};
use crate::rounding::magnitude;
use crate::sampling::TrajectoryOutput;
use crate::sorting::{law_sorting_keeps_items, law_sorting_orders, no_nan, ordered, sorted};
use crate::units::{constant, ONE, ZERO};

verus! {

/// What a function makes of the items, in their order; it may pass items over.
spec fn images<A, B>(s: Seq<A>, g: spec_fn(A) -> Option<B>) -> Seq<B>
    decreases s.len(),
{
    if s.len() == 0 {
        Seq::empty()
    } else {
        match g(s.last()) {
            Some(y) => images(s.drop_last(), g).push(y),
            None => images(s.drop_last(), g),
        }
    }
}

proof fn lemma_images_without<A, B>(s: Seq<A>, g: spec_fn(A) -> Option<B>, i: int)
    requires
        0 <= i < s.len(),
    ensures
        images(s, g).to_multiset() == match g(s[i]) {
            Some(y) => images(s.remove(i), g).to_multiset().insert(y),
            None => images(s.remove(i), g).to_multiset(),
        },
    decreases s.len(),
{
    broadcast use group_to_multiset_ensures;

    if i == s.len() - 1 {
        assert(s.remove(i) == s.drop_last());
    } else {
        let t = s.remove(i);
        assert(t.last() == s.last());
        assert(t.drop_last() == s.drop_last().remove(i));
        lemma_images_without(s.drop_last(), g, i);
        assert(images(s, g).to_multiset() =~= match g(s[i]) {
            Some(y) => images(t, g).to_multiset().insert(y),
            None => images(t, g).to_multiset(),
        });
    }
}

proof fn lemma_images_of_same<A, B>(a: Seq<A>, b: Seq<A>, g: spec_fn(A) -> Option<B>)
    requires
        a.to_multiset() == b.to_multiset(),
    ensures
        images(a, g).to_multiset() == images(b, g).to_multiset(),
    decreases a.len(),
{
    broadcast use group_to_multiset_ensures;

    assert(a.len() == a.to_multiset().len());
    assert(b.len() == b.to_multiset().len());
    if a.len() > 0 {
        let x = a.last();
        assert(a.to_multiset().contains(x));
        assert(b.contains(x));
        let i = choose|i: int| 0 <= i < b.len() && b[i] == x;
        let n = a.len() - 1;
        assert(a.remove(n).to_multiset() =~= a.to_multiset().remove(x));
        assert(b.remove(i).to_multiset() =~= b.to_multiset().remove(x));
        lemma_images_of_same(a.remove(n), b.remove(i), g);
        lemma_images_without(a, g, n);
        lemma_images_without(b, g, i);
    } else {
        assert(a == b);
    }
}

proof fn lemma_mapped<A, B>(s: Seq<A>, h: spec_fn(A) -> B)
    ensures
        images(s, |x: A| Some(h(x))) == s.map_values(h),
    decreases s.len(),
{
    let g = |x: A| Some(h(x));
    if s.len() > 0 {
        lemma_mapped(s.drop_last(), h);
        assert(images(s, g) == images(s.drop_last(), g).push(h(s.last())));
        assert(s.map_values(h) == s.drop_last().map_values(h).push(h(s.last())));
    } else {
        assert(images(s, g) == s.map_values(h));
    }
}

proof fn lemma_map_of_same<A, B>(a: Seq<A>, b: Seq<A>, h: spec_fn(A) -> B)
    requires
        a.to_multiset() == b.to_multiset(),
    ensures
        a.map_values(h).to_multiset() == b.map_values(h).to_multiset(),
{
    lemma_images_of_same(a, b, |x: A| Some(h(x)));
    lemma_mapped(a, h);
    lemma_mapped(b, h);
}

proof fn lemma_valid(results: Seq<Option<TrajectoryOutput>>)
    ensures
        valid(results) == images(results, |o: Option<TrajectoryOutput>| o),
    decreases results.len(),
{
    if results.len() > 0 {
        lemma_valid(results.drop_last());
    }
}

proof fn lemma_valid_of_same(
    a: Seq<Option<TrajectoryOutput>>,
    b: Seq<Option<TrajectoryOutput>>,
)
    requires
        a.to_multiset() == b.to_multiset(),
    ensures
        valid(a).to_multiset() == valid(b).to_multiset(),
        valid(a).len() == valid(b).len(),
        a.len() == b.len(),
{
    broadcast use group_to_multiset_ensures;

    lemma_images_of_same(a, b, |o: Option<TrajectoryOutput>| o);
    lemma_valid(a);
    lemma_valid(b);
    assert(valid(a).len() == valid(a).to_multiset().len());
    assert(valid(b).len() == valid(b).to_multiset().len());
    assert(a.len() == a.to_multiset().len());
    assert(b.len() == b.to_multiset().len());
}

proof fn lemma_hits(misses: Seq<Double>, radius: Double)
    ensures
        hits(misses, radius) == images(
            misses,
            |x: Double|
                if x.at_most(radius) {
                    Some(x)
                } else {
                    None
                },
        ).len(),
    decreases misses.len(),
{
    if misses.len() > 0 {
        lemma_hits(misses.drop_last(), radius);
    }
}

proof fn lemma_hits_of_same(a: Seq<Double>, b: Seq<Double>, radius: Double)
    requires
        a.to_multiset() == b.to_multiset(),
    ensures
        hits(a, radius) == hits(b, radius),
{
    broadcast use group_to_multiset_ensures;

    let g = |x: Double|
        if x.at_most(radius) {
            Some(x)
        } else {
            None
        };
    lemma_images_of_same(a, b, g);
    lemma_hits(a, radius);
    lemma_hits(b, radius);
    assert(images(a, g).len() == images(a, g).to_multiset().len());
    assert(images(b, g).len() == images(b, g).to_multiset().len());
}

/// The same number, bit for bit but for the sign of a zero.
pub open spec fn agree(a: Double, b: Double) -> bool {
    a == b || (a.zero() && b.zero())
}

/// The same numbers in the same places.
pub open spec fn agree_throughout(a: Seq<Double>, b: Seq<Double>) -> bool {
    &&& a.len() == b.len()
    &&& forall|i: int| 0 <= i < a.len() ==> agree(#[trigger] a[i], #[trigger] b[i])
}

/// No item is a negative zero.
pub open spec fn zeros_are_plain(s: Seq<Double>) -> bool {
    forall|i: int| 0 <= i < s.len() ==> ((#[trigger] s[i]).zero() ==> s[i] == constant(ZERO))
}

/// The number, a zero without its sign.
spec fn plain(x: Double) -> Double {
    if x.zero() {
        constant(ZERO)
    } else {
        x
    }
}

spec fn plain_items(s: Seq<Double>) -> Seq<Double> {
    s.map_values(|x: Double| plain(x))
}

pub proof fn lemma_same_number(a: Double, b: Double)
    requires
        a.same_number(b),
    ensures
        agree(a, b),
{
    if a.pattern() < b.pattern() {
        lemma_magnitude_increases(a.pattern(), b.pattern());
        assert(magnitude(0) == 0);
        if a.pattern() > 0 {
            lemma_magnitude_increases(0, a.pattern());
        }
    } else if b.pattern() < a.pattern() {
        lemma_magnitude_increases(b.pattern(), a.pattern());
        assert(magnitude(0) == 0);
        if b.pattern() > 0 {
            lemma_magnitude_increases(0, b.pattern());
        }
    } else if a.is_negative() != b.is_negative() && a.pattern() > 0 {
        assert(magnitude(0) == 0);
        lemma_magnitude_increases(0, a.pattern());
    }
}

proof fn lemma_plain(a: Double, b: Double)
    requires
        !a.nan(),
        plain(a) == plain(b),
    ensures
        a.same_number(b),
{
    assert(magnitude(0) == 0);
}

proof fn lemma_order_leaves_one(a: Seq<Double>, b: Seq<Double>)
    requires
        ordered(a),
        ordered(b),
        plain_items(a).to_multiset() == plain_items(b).to_multiset(),
    ensures
        agree_throughout(a, b),
    decreases a.len(),
{
    broadcast use group_to_multiset_ensures;

    let (p, q) = (plain_items(a), plain_items(b));
    assert(p.len() == p.to_multiset().len());
    assert(q.len() == q.to_multiset().len());
    if a.len() > 0 {
        let n = a.len() - 1;
        let (x, y) = (a[n], b[n]);
        assert(a[n].at_most(a[n]) && b[n].at_most(b[n]));
        assert(p[n] == plain(x) && q[n] == plain(y));
        assert(p.to_multiset().contains(plain(x)));
        assert(q.to_multiset().contains(plain(y)));
        assert(q.contains(plain(x)));
        assert(p.contains(plain(y)));
        let i = choose|i: int| 0 <= i < q.len() && q[i] == plain(x);
        let j = choose|j: int| 0 <= j < p.len() && p[j] == plain(y);
        lemma_plain(x, b[i]);
        lemma_plain(y, a[j]);
        assert(b[i].at_most(b[n]));
        assert(a[j].at_most(a[n]));
        assert(x.same_number(y));
        lemma_same_number(x, y);
        assert(plain_items(a.drop_last()) == p.drop_last());
        assert(plain_items(b.drop_last()) == q.drop_last());
        assert(p.drop_last() == p.remove(n));
        assert(q.drop_last() == q.remove(n));
        assert(p.remove(n).to_multiset() =~= p.to_multiset().remove(plain(x)));
        assert(q.remove(n).to_multiset() =~= q.to_multiset().remove(plain(x)));
        assert forall|i: int, j: int| 0 <= i <= j < a.drop_last().len() implies (
        #[trigger] a.drop_last()[i]).at_most(#[trigger] a.drop_last()[j]) by {
            assert(a[i].at_most(a[j]));
        }
        assert forall|i: int, j: int| 0 <= i <= j < b.drop_last().len() implies (
        #[trigger] b.drop_last()[i]).at_most(#[trigger] b.drop_last()[j]) by {
            assert(b[i].at_most(b[j]));
        }
        lemma_order_leaves_one(a.drop_last(), b.drop_last());
        assert forall|i: int| 0 <= i < a.len() implies agree(#[trigger] a[i], #[trigger] b[i]) by {
            if i < n {
                assert(agree(a.drop_last()[i], b.drop_last()[i]));
            }
        }
    }
}

/// Sorted, the same numbers stand in the same places, whatever order they came
/// in; bit for bit so if no negative zero is among them.
pub proof fn law_sorting_forgets_the_order(a: Seq<Double>, b: Seq<Double>)
    requires
        a.to_multiset() == b.to_multiset(),
        no_nan(a),
    ensures
        agree_throughout(sorted(a), sorted(b)),
        zeros_are_plain(a) ==> sorted(a) == sorted(b),
{
    broadcast use group_to_multiset_ensures;

    let (s, t) = (sorted(a), sorted(b));
    assert forall|i: int| 0 <= i < b.len() implies !(#[trigger] b[i]).nan() by {
        assert(b.to_multiset().contains(b[i]));
        assert(a.contains(b[i]));
    }
    law_sorting_keeps_items(a);
    law_sorting_keeps_items(b);
    law_sorting_orders(a);
    law_sorting_orders(b);
    lemma_map_of_same(s, t, |x: Double| plain(x));
    lemma_order_leaves_one(s, t);
    if zeros_are_plain(a) {
        assert forall|i: int| 0 <= i < s.len() implies s[i] == t[i] by {
            assert(s.to_multiset().contains(s[i]));
            assert(a.contains(s[i]));
            assert(t.to_multiset().contains(t[i]));
            assert(a.to_multiset().contains(t[i]));
            assert(a.contains(t[i]));
            assert(agree(s[i], t[i]));
        }
        assert(s == t);
    }
}

pub proof fn lemma_agreeing_sum(a: Double, b: Double, x: Double, y: Double)
    requires
        agree(a, b),
        agree(x, y),
    ensures
        agree(a.sum(x), b.sum(y)),
{
    reveal(Double::sum);
    assert(magnitude(0) == 0);
}

pub proof fn lemma_agreeing_product(a: Double, b: Double, x: Double, y: Double)
    requires
        agree(a, b),
        agree(x, y),
    ensures
        agree(a.product(x), b.product(y)),
{
    reveal(Double::product);
    assert(magnitude(0) == 0);
    lemma_pow2_pos(1074);
    lemma_round_zero(pow2(1074));
    if !(a == b && x == y) {
        assert(magnitude(a.pattern()) * magnitude(x.pattern()) == 0) by (nonlinear_arith)
            requires
                magnitude(a.pattern()) == 0 || magnitude(x.pattern()) == 0,
        ;
        assert(magnitude(b.pattern()) * magnitude(y.pattern()) == 0) by (nonlinear_arith)
            requires
                magnitude(b.pattern()) == 0 || magnitude(y.pattern()) == 0,
        ;
    }
}

pub proof fn lemma_agreeing_quotient(a: Double, b: Double, n: Double)
    requires
        agree(a, b),
    ensures
        agree(a.quotient(n), b.quotient(n)),
{
    reveal(Double::quotient);
    assert(magnitude(0) == 0);
    if a != b && n.pattern() > 0 {
        lemma_magnitude_increases(0, n.pattern());
        lemma_round_zero(magnitude(n.pattern()));
        assert(0 * pow2(1074) == 0) by (nonlinear_arith);
    }
}

pub proof fn lemma_agreeing_root(a: Double, b: Double)
    requires
        agree(a, b),
    ensures
        agree(a.root(), b.root()),
{
    reveal(Double::root);
}

pub proof fn lemma_agreeing_total(a: Seq<Double>, b: Seq<Double>)
    requires
        agree_throughout(a, b),
    ensures
        agree(total(a), total(b)),
    decreases a.len(),
{
    if a.len() > 0 {
        assert forall|i: int| 0 <= i < a.drop_last().len() implies agree(
            #[trigger] a.drop_last()[i],
            #[trigger] b.drop_last()[i],
        ) by {
            assert(agree(a[i], b[i]));
        }
        lemma_agreeing_total(a.drop_last(), b.drop_last());
        assert(agree(a[a.len() - 1], b[b.len() - 1]));
        lemma_agreeing_sum(total(a.drop_last()), total(b.drop_last()), a.last(), b.last());
    }
}

pub proof fn lemma_agreeing_statistics(a: Seq<Double>, b: Seq<Double>)
    requires
        agree_throughout(a, b),
    ensures
        agree(mean(a), mean(b)),
        agree(standard_deviation(a), standard_deviation(b)),
{
    let n = Double::nearest(a.len());
    lemma_agreeing_total(a, b);
    lemma_agreeing_quotient(total(a), total(b), n);
    let (m, k) = (mean(a), mean(b));
    let (s, t) = (squared_deviations(a, m), squared_deviations(b, k));
    assert(agree(m.negated(), k.negated()));
    assert forall|i: int| 0 <= i < s.len() implies agree(#[trigger] s[i], #[trigger] t[i]) by {
        assert(agree(a[i], b[i]));
        assert(s[i] == squared_deviation(a[i], m) && t[i] == squared_deviation(b[i], k));
        let (x, y) = (a[i].difference(m), b[i].difference(k));
        lemma_agreeing_sum(a[i], b[i], m.negated(), k.negated());
        lemma_agreeing_product(x, y, x, y);
    }
    lemma_agreeing_total(s, t);
    let rest = n.difference(constant(ONE));
    lemma_agreeing_quotient(total(s), total(t), rest);
    lemma_agreeing_root(total(s).quotient(rest), total(t).quotient(rest));
}

/// The statistics are the same numbers.
pub open spec fn statistics_agree(a: FieldStatistics, b: FieldStatistics) -> bool {
    &&& agree(a.mean, b.mean)
    &&& agree(a.std, b.std)
    &&& agree(a.min, b.min)
    &&& agree(a.max, b.max)
    &&& match (a.percentiles, b.percentiles) {
        (Percentiles::Single { p50: p }, Percentiles::Single { p50: q }) => agree(p, q),
        (Percentiles::Full(p), Percentiles::Full(q)) => p == q,
        _ => false,
    }
}

/// The order of the runs does not change the sorted values of a field nor their
/// statistics; bit for bit so if no negative zero is among the values.
pub proof fn law_order_leaves_statistics(
    a: Seq<Option<TrajectoryOutput>>,
    b: Seq<Option<TrajectoryOutput>>,
    f: Seq<char>,
    percentiles: FieldPercentiles,
)
    requires
        a.to_multiset() == b.to_multiset(),
        valid(a).len() > 0,
        no_nan(field_values(valid(a), f)),
    ensures
        agree_throughout(sorted_field(a, f), sorted_field(b, f)),
        statistics_agree(
            field_statistics(sorted_field(a, f), percentiles),
            field_statistics(sorted_field(b, f), percentiles),
        ),
        zeros_are_plain(field_values(valid(a), f)) ==> sorted_field(a, f) == sorted_field(b, f)
            && field_statistics(sorted_field(a, f), percentiles) == field_statistics(
            sorted_field(b, f),
            percentiles,
        ),
{
    lemma_valid_of_same(a, b);
    lemma_map_of_same(valid(a), valid(b), |o: TrajectoryOutput| output_field(o, f));
    law_sorting_forgets_the_order(field_values(valid(a), f), field_values(valid(b), f));
    law_sorting_keeps_items(field_values(valid(a), f));
    let (s, t) = (sorted_field(a, f), sorted_field(b, f));
    lemma_agreeing_statistics(s, t);
    assert(agree(s[0], t[0]));
    assert(agree(s[s.len() - 1], t[t.len() - 1]));
}

/// The order of the runs does not change how many there are and how many
/// succeeded.
pub proof fn law_order_leaves_metadata(
    a: Seq<Option<TrajectoryOutput>>,
    b: Seq<Option<TrajectoryOutput>>,
)
    requires
        a.to_multiset() == b.to_multiset(),
    ensures
        a.len() == b.len(),
        valid(a).len() == valid(b).len(),
        share(valid(a).len(), a.len()) == share(valid(b).len(), b.len()),
{
    lemma_valid_of_same(a, b);
}

proof fn lemma_miss(o: TrajectoryOutput)
    requires
        !o.wind_drift.nan(),
        !o.drop.nan(),
    ensures
        !radial_miss(o).nan(),
        !radial_miss(o).is_negative(),
{
    let (x, y) = (o.wind_drift.product(o.wind_drift), o.drop.product(o.drop));
    assert(!x.nan() && !x.is_negative() && !y.nan() && !y.is_negative()) by {
        reveal(Double::product);
        assert(magnitude(0) == 0);
    }
    assert(!x.sum(y).nan() && !x.sum(y).is_negative()) by {
        reveal(Double::sum);
    }
    assert(!x.sum(y).root().nan() && !x.sum(y).root().is_negative()) by {
        reveal(Double::root);
    }
}

/// The order of the runs does not change how many of them hit, nor the sorted
/// distances from the point of aim, whose median is the target-plane CEP.
pub proof fn law_order_leaves_target_plane(
    a: Seq<Option<TrajectoryOutput>>,
    b: Seq<Option<TrajectoryOutput>>,
    radius: Double,
)
    requires
        a.to_multiset() == b.to_multiset(),
        forall|i: int|
            0 <= i < valid(a).len() ==> !(#[trigger] valid(a)[i]).wind_drift.nan() && !valid(
                a,
            )[i].drop.nan(),
    ensures
        share(hits(radial_misses(valid(a)), radius), a.len()) == share(
            hits(radial_misses(valid(b)), radius),
            b.len(),
        ),
        sorted(radial_misses(valid(a))) == sorted(radial_misses(valid(b))),
{
    let (s, t) = (radial_misses(valid(a)), radial_misses(valid(b)));
    lemma_valid_of_same(a, b);
    lemma_map_of_same(valid(a), valid(b), |o: TrajectoryOutput| radial_miss(o));
    lemma_hits_of_same(s, t, radius);
    assert forall|i: int| 0 <= i < s.len() implies !(#[trigger] s[i]).nan() && (s[i].zero()
        ==> s[i] == constant(ZERO)) by {
        lemma_miss(valid(a)[i]);
    }
    law_sorting_forgets_the_order(s, t);
}

/// The statistics of all fields are the same numbers.
pub open spec fn all_statistics_agree(
    a: Option<PerField<FieldStatistics>>,
    b: Option<PerField<FieldStatistics>>,
) -> bool {
    match (a, b) {
        (Some(x), Some(y)) => {
            &&& statistics_agree(x.drop_m, y.drop_m)
            &&& statistics_agree(x.wind_drift_m, y.wind_drift_m)
            &&& statistics_agree(x.time_of_flight_s, y.time_of_flight_s)
            &&& statistics_agree(x.final_vel_fps, y.final_vel_fps)
            &&& statistics_agree(x.energy_ft_lbs, y.energy_ft_lbs)
            &&& statistics_agree(x.mach, y.mach)
        },
        (None, None) => true,
        _ => false,
    }
}

/// No field of a run that succeeded is a NaN.
pub open spec fn fields_are_numbers(results: Seq<Option<TrajectoryOutput>>) -> bool {
    forall|f: Seq<char>| no_nan(#[trigger] field_values(valid(results), f))
}

/// The order of the rows does not matter.  Where each run depends on its row
/// alone and no field of a run is a NaN, the statistics, the counts of the
/// metadata and the figures of the target plane come out the same.
pub proof fn law_row_order_does_not_matter(
    rows: Seq<Seq<Double>>,
    others: Seq<Seq<Double>>,
    run: spec_fn(Seq<Double>) -> Option<TrajectoryOutput>,
    percentiles: PerField<FieldPercentiles>,
    radius: Double,
)
    requires
        rows.to_multiset() == others.to_multiset(),
        fields_are_numbers(rows.map_values(run)),
    ensures
        ({
            let (a, b) = (rows.map_values(run), others.map_values(run));
            &&& all_statistics_agree(statistics(a, percentiles), statistics(b, percentiles))
            &&& a.len() == b.len()
            &&& valid(a).len() == valid(b).len()
            &&& share(valid(a).len(), a.len()) == share(valid(b).len(), b.len())
            &&& share(hits(radial_misses(valid(a)), radius), a.len()) == share(
                hits(radial_misses(valid(b)), radius),
                b.len(),
            )
            &&& sorted(radial_misses(valid(a))) == sorted(radial_misses(valid(b)))
        }),
{
    let (a, b) = (rows.map_values(run), others.map_values(run));
    lemma_map_of_same(rows, others, run);
    law_order_leaves_metadata(a, b);
    if valid(a).len() > 0 {
        law_order_leaves_statistics(a, b, "drop_m"@, percentiles.drop_m);
        law_order_leaves_statistics(a, b, "wind_drift_m"@, percentiles.wind_drift_m);
        law_order_leaves_statistics(a, b, "time_of_flight_s"@, percentiles.time_of_flight_s);
        law_order_leaves_statistics(a, b, "final_vel_fps"@, percentiles.final_vel_fps);
        law_order_leaves_statistics(a, b, "energy_ft_lbs"@, percentiles.energy_ft_lbs);
        law_order_leaves_statistics(a, b, "mach"@, percentiles.mach);
    }
    assert forall|i: int| 0 <= i < valid(a).len() implies !(
    #[trigger] valid(a)[i]).wind_drift.nan() && !valid(a)[i].drop.nan() by {
        reveal_strlit("drop_m");
        reveal_strlit("wind_drift_m");
        assert("drop_m"@.len() != "wind_drift_m"@.len());
        let (x, y) = (
            field_values(valid(a), "drop_m"@),
            field_values(valid(a), "wind_drift_m"@),
        );
        assert(no_nan(x) && no_nan(y));
        assert(x[i] == output_field(valid(a)[i], "drop_m"@));
        assert(y[i] == output_field(valid(a)[i], "wind_drift_m"@));
        assert(!x[i].nan() && !y[i].nan());
    }
    law_order_leaves_target_plane(a, b, radius);
}

} // verus!
