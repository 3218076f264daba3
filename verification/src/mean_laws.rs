//! What means, deviations and roots are, up to rounding.

use vstd::prelude::*;
use vstd::arithmetic::power2::*;
use crate::double::{floor_sqrt, lemma_floor_sqrt_exists, lemma_magnitude_increases, Double};
use crate::montecarlo::{mean, radial_miss, squared_deviation, squared_deviations};
use crate::montecarlo::{standard_deviation, total};
use crate::nearest::{law_exact_ratio_is_kept, law_rounding_keeps_order, law_rounds_to_nearest};
use crate::nearest::{lemma_built_magnitude, lemma_nearest_count, lemma_one, lemma_relative_error};
use crate::nearest::CLOSENESS;
use crate::order_laws::{agree, lemma_agreeing_product, lemma_agreeing_quotient};
use crate::order_laws::{lemma_agreeing_root, lemma_agreeing_sum, lemma_agreeing_total};
use crate::outcome_laws::lemma_zero_product;
use crate::report_laws::{lemma_nearly_chain, lemma_nearly_product, lemma_nearly_times, nearly};
use crate::rounding::{lemma_word_powers, magnitude, round_ratio, HIDDEN, INFINITE};
use crate::rounding::SIGNIFICAND_END;
use crate::sampling::TrajectoryOutput;
use crate::sum_laws::{law_product_commutes, law_product_mirrors, law_products_keep_order};
use crate::sum_laws::{law_sum_commutes, law_sum_mirrors, law_sums_keep_order};
use crate::sum_laws::{law_zero_adds_nothing, lemma_sum_units, rounded};
use crate::summary_laws::lemma_count;
use crate::unit_laws::{law_scaled_measures, law_scaling_mirrors, law_unscaled_is_divided};
use crate::unit_laws::{lemma_not_tiny, lemma_ordinary_ratio, measures, ordinary, times};
use crate::units::{constant, unscaled, ONE, ZERO};

verus! {

/// The sum of the numbers, exactly, in units.
pub open spec fn exact_total(s: Seq<Double>) -> int
    decreases s.len(),
{
    if s.len() == 0 {
        0
    } else {
        exact_total(s.drop_last()) + s.last().units()
    }
}

/// The sum of the sizes of the numbers, exactly, in units.
pub open spec fn exact_size(s: Seq<Double>) -> nat
    decreases s.len(),
{
    if s.len() == 0 {
        0
    } else {
        exact_size(s.drop_last()) + magnitude(s.last().pattern())
    }
}

/// How far apart two integers are.
pub open spec fn apart(x: int, y: int) -> int {
    if x >= y {
        x - y
    } else {
        y - x
    }
}

/// The greatest finite pattern.
pub open spec fn greatest() -> nat {
    (INFINITE - 1) as nat
}

proof fn lemma_small_magnitude(n: nat)
    requires
        n < HIDDEN,
    ensures
        magnitude(n) == n,
{
    assert(n / (HIDDEN as nat) == 0 && n % (HIDDEN as nat) == n);
}

/// Rounding moves an integer by little.
proof fn lemma_rounded_is_close(v: int)
    requires
        -magnitude(greatest()) <= v <= magnitude(greatest()),
    ensures
        apart(rounded(v), v) * SIGNIFICAND_END <= (if v >= 0 { v } else { -v }),
        round_ratio((if v >= 0 { v } else { -v }) as nat, 1) < INFINITE,
{
    let n = (if v >= 0 { v } else { -v }) as nat;
    let r = round_ratio(n, 1);
    assert(magnitude(0) == 0);
    crate::double::lemma_round_zero(1);
    assert(r < INFINITE) by {
        law_rounding_keeps_order(n, magnitude(greatest()), 1);
        law_exact_ratio_is_kept(greatest(), 1);
        assert(magnitude(greatest()) * 1 == magnitude(greatest()));
    }
    if n < HIDDEN {
        lemma_small_magnitude(n);
        law_exact_ratio_is_kept(n, 1);
        assert(magnitude(n) * 1 == n);
        assert(magnitude(r) == n);
        assert(0 * SIGNIFICAND_END == 0) by (nonlinear_arith);
    } else {
        lemma_relative_error(n, 1);
        assert(magnitude(r) * 1 == magnitude(r));
    }
}

/// A sum is the sum, to within one part in `2^53`, unless it is infinite.
pub proof fn law_sums_are_close(a: Double, b: Double)
    requires
        a.finite(),
        b.finite(),
        a.sum(b).finite(),
    ensures
        apart(a.sum(b).units(), a.units() + b.units()) * SIGNIFICAND_END <= apart(
            a.units() + b.units(),
            0,
        ),
        a.difference(b.negated()) == a.sum(b),
{
    lemma_sum_units(a, b);
    let v = a.units() + b.units();
    let n = apart(v, 0) as nat;
    let r = round_ratio(n, 1);
    assert(magnitude(0) == 0);
    crate::double::lemma_round_zero(1);
    assert(r < INFINITE) by {
        reveal(Double::sum);
    }
    if n < HIDDEN {
        lemma_small_magnitude(n);
        law_exact_ratio_is_kept(n, 1);
        assert(magnitude(n) * 1 == n);
        assert(magnitude(r) == n);
        assert(0 * SIGNIFICAND_END == 0) by (nonlinear_arith);
    } else {
        lemma_relative_error(n, 1);
        assert(magnitude(r) * 1 == magnitude(r));
    }
    assert(b.negated().negated() == b);
}

/// Numbers added up from left to right come to their sum, to within one part in
/// `2^52` of their sizes for each of them, unless their sizes come near the greatest
/// number.
pub proof fn law_totals_are_sums(s: Seq<Double>)
    requires
        forall|i: int| 0 <= i < s.len() ==> (#[trigger] s[i]).finite(),
        s.len() <= HIDDEN,
        4 * exact_size(s) <= magnitude(greatest()),
    ensures
        total(s).finite(),
        apart(total(s).units(), exact_total(s)) * HIDDEN <= s.len() * exact_size(s),
        -exact_size(s) <= exact_total(s) <= exact_size(s),
    decreases s.len(),
{
    assert(magnitude(0) == 0);
    if s.len() > 0 {
        let t = s.drop_last();
        assert forall|i: int| 0 <= i < t.len() implies (#[trigger] t[i]).finite() by {
            assert(s[i].finite());
        }
        law_totals_are_sums(t);
        let x = s.last();
        assert(x.finite());
        let (a, e, z, k) = (total(t).units(), exact_total(t), exact_size(t), t.len());
        let m = magnitude(x.pattern());
        let size = exact_size(s);
        assert(size == z + m);
        let v = a + x.units();
        let off = apart(a, e);
        assert(off <= z) by (nonlinear_arith)
            requires
                off * HIDDEN <= k * z,
                k <= HIDDEN,
                off >= 0,
                z >= 0,
                HIDDEN > 0,
        ;
        assert(-2 * size <= v <= 2 * size);
        lemma_sum_units(total(t), x);
        lemma_rounded_is_close(v);
        let w = rounded(v);
        let step = apart(w, v);
        assert(step * HIDDEN <= size) by (nonlinear_arith)
            requires
                step * SIGNIFICAND_END <= 2 * size,
                SIGNIFICAND_END == 2 * HIDDEN,
        ;
        assert(apart(w, exact_total(s)) <= step + off);
        assert(apart(w, exact_total(s)) * HIDDEN <= (k + 1) * size) by (nonlinear_arith)
            requires
                apart(w, exact_total(s)) <= step + off,
                step * HIDDEN <= size,
                off * HIDDEN <= k * z,
                z <= size,
                k >= 0,
                HIDDEN > 0,
        ;
        reveal(Double::sum);
    }
}

/// The mean is the total over the number of the numbers.
pub proof fn law_means_are_totals_shared(s: Seq<Double>)
    requires
        0 < s.len() <= u64::MAX,
    ensures
        measures(mean(s), total(s), 1, s.len()),
{
    lemma_count(s.len());
    let n = Double::nearest(s.len());
    assert(n == constant(n.bits));
    law_scaled_measures(total(s), n.bits, s.len(), 1);
}

/// The same numbers on the other side of zero have the opposite mean and the same
/// deviation.
pub proof fn law_deviation_is_alike_on_both_sides(s: Seq<Double>, t: Seq<Double>)
    requires
        s.len() == t.len(),
        forall|i: int| 0 <= i < s.len() ==> (#[trigger] s[i]).negated() == t[i],
        !mean(s).nan(),
        forall|i: int|
            0 <= i < s.len() ==> !(#[trigger] s[i]).nan() && !squared_deviation(
                s[i],
                mean(s),
            ).nan(),
        forall|i: int| 0 <= i <= s.len() ==> !total(#[trigger] s.take(i)).nan(),
    ensures
        agree(mean(t), mean(s).negated()),
        agree(standard_deviation(t), standard_deviation(s)),
{
    assert(s.take(s.len() as int) == s);
    assert(t.take(t.len() as int) == t);
    let n = Double::nearest(s.len());
    lemma_total_mirrors(s, t, s.len() as int);
    lemma_agreeing_quotient(total(t), total(s).negated(), n);
    assert(total(s).negated().quotient(n) == mean(s).negated()) by {
        reveal(Double::quotient);
    }
    let (a, b) = (squared_deviations(s, mean(s)), squared_deviations(t, mean(t)));
    assert forall|i: int| 0 <= i < a.len() implies agree(#[trigger] b[i], #[trigger] a[i]) by {
        assert(s[i].negated() == t[i]);
        let (d, e) = (s[i].difference(mean(s)), t[i].difference(mean(t)));
        assert(!d.nan()) by {
            reveal(Double::product);
            assert(!squared_deviation(s[i], mean(s)).nan());
        }
        law_sum_mirrors(s[i], mean(s).negated());
        assert(agree(mean(t).negated(), mean(s))) by {
            assert(mean(s).negated().negated() == mean(s));
        }
        lemma_agreeing_sum(t[i], t[i], mean(t).negated(), mean(s).negated().negated());
        assert(agree(e, d.negated()));
        lemma_agreeing_product(e, d.negated(), e, d.negated());
        law_product_mirrors(d, d);
    }
    lemma_agreeing_total(b, a);
    let k = n.difference(constant(ONE));
    lemma_agreeing_quotient(total(b), total(a), k);
    lemma_agreeing_root(total(b).quotient(k), total(a).quotient(k));
}

proof fn lemma_total_mirrors(s: Seq<Double>, t: Seq<Double>, n: int)
    requires
        s.len() == t.len(),
        0 <= n <= s.len(),
        forall|i: int| 0 <= i < s.len() ==> (#[trigger] s[i]).negated() == t[i],
        forall|i: int| 0 <= i < s.len() ==> !(#[trigger] s[i]).nan(),
        forall|i: int| 0 <= i <= s.len() ==> !total(#[trigger] s.take(i)).nan(),
    ensures
        agree(total(t.take(n)), total(s.take(n)).negated()),
    decreases n,
{
    if n > 0 {
        lemma_total_mirrors(s, t, n - 1);
        assert(s.take(n).drop_last() == s.take(n - 1));
        assert(t.take(n).drop_last() == t.take(n - 1));
        assert(s[n - 1].negated() == t[n - 1]);
        assert(!total(s.take(n)).nan() && !total(s.take(n - 1)).nan());
        law_sum_mirrors(total(s.take(n - 1)), s[n - 1]);
        lemma_agreeing_sum(
            total(t.take(n - 1)),
            total(s.take(n - 1)).negated(),
            t[n - 1],
            s[n - 1].negated(),
        );
    } else {
        assert(s.take(0) == Seq::<Double>::empty());
        assert(t.take(0) == Seq::<Double>::empty());
    }
}

/// The root of a greater number is no smaller.
pub proof fn law_roots_keep_order(a: Double, b: Double)
    requires
        !a.is_negative(),
        !b.is_negative(),
        a.at_most(b),
    ensures
        a.root().at_most(b.root()),
        !a.root().is_negative(),
{
    reveal(Double::root);
    assert(magnitude(0) == 0);
    let (m, n, p) = (magnitude(a.pattern()), magnitude(b.pattern()), pow2(1074));
    if b.pattern() < a.pattern() {
        lemma_magnitude_increases(b.pattern(), a.pattern());
    }
    if a.pattern() > 0 && b.pattern() < INFINITE {
        let (s, t) = (16 * (m * p), 16 * (n * p));
        assert(s <= t) by (nonlinear_arith)
            requires
                m <= n,
                s == 16 * (m * p),
                t == 16 * (n * p),
                p >= 0,
        ;
        lemma_floor_sqrt_exists(s);
        lemma_floor_sqrt_exists(t);
        let (x, y) = (floor_sqrt(s), floor_sqrt(t));
        assert(x <= y) by (nonlinear_arith)
            requires
                x * x <= s,
                s <= t,
                t < (y + 1) * (y + 1),
                x >= 0,
                y >= 0,
        ;
        let f: nat = 2 * x + if x * x == s {
            0nat
        } else {
            1nat
        };
        let g: nat = 2 * y + if y * y == t {
            0nat
        } else {
            1nat
        };
        assert(f <= g);
        law_rounding_keeps_order(f, g, 8);
        law_rounds_to_nearest(f, 8, 0);
        law_rounds_to_nearest(g, 8, 0);
        assert(a.root().pattern() == round_ratio(f, 8));
        assert(b.root().pattern() == round_ratio(g, 8));
        if a.root().pattern() < b.root().pattern() {
            lemma_magnitude_increases(a.root().pattern(), b.root().pattern());
        }
    } else if b.infinite() {
        if a.root().pattern() < INFINITE {
            lemma_magnitude_increases(a.root().pattern(), INFINITE as nat);
        }
    }
}

/// The root of a positive number is neither tiny nor infinite: `2^537` units at least and
/// fewer than `2^1587`.
proof fn lemma_root_is_ordinary(m: nat, s: nat, q: nat)
    requires
        1 <= m < magnitude(INFINITE as nat),
        s == 16 * (m * pow2(1074)),
        q * q <= s < (q + 1) * (q + 1),
    ensures
        HIDDEN < round_ratio(2 * q, 8) < INFINITE,
        HIDDEN < round_ratio(2 * q + 1, 8) < INFINITE,
{
    lemma_word_powers();
    let p = pow2(1074);
    lemma_pow2_pos(1074);
    let (low, high) = (pow2(539), pow2(1588));
    lemma_pow2_adds(539, 539);
    lemma_pow2_adds(1588, 1588);
    lemma_pow2_adds(1074, 4);
    lemma_pow2_adds(52, 2046);
    lemma_pow2_adds(2098, 1078);
    lemma2_to64();
    assert(pow2(4) == 16);
    assert(magnitude(INFINITE as nat) == pow2(2098)) by {
        let h = HIDDEN as nat;
        assert(INFINITE as nat / h == 2047 && INFINITE as nat % h == 0);
        assert(h * pow2(2046) == pow2(2098));
    }
    assert(s >= pow2(1078)) by (nonlinear_arith)
        requires
            s == 16 * (m * p),
            m >= 1,
            pow2(1078) == p * 16,
            p > 0,
    ;
    assert(s < pow2(3176)) by (nonlinear_arith)
        requires
            s == 16 * (m * p),
            m < pow2(2098),
            pow2(1078) == p * 16,
            pow2(3176) == pow2(2098) * pow2(1078),
            p > 0,
    ;
    assert(q + 1 > low) by (nonlinear_arith)
        requires
            low * low <= s,
            s < (q + 1) * (q + 1),
            low >= 0,
            q >= 0,
    ;
    assert(q < high) by (nonlinear_arith)
        requires
            q * q <= s,
            s < high * high,
            q >= 0,
            high >= 0,
    ;
    let h = HIDDEN as nat;
    lemma_pow2_strictly_increases(56, 539);
    lemma_pow2_adds(52, 4);
    assert(2 * h * 8 == pow2(56));
    let g = magnitude(greatest());
    assert(g >= pow2(2045)) by {
        let gp = greatest();
        assert(gp / h == 2046 && gp % h == h - 1);
        assert((h + (h - 1) as nat) * pow2(2045) >= pow2(2045)) by (nonlinear_arith)
            requires
                h >= 1,
                pow2(2045) >= 0,
        ;
    }
    lemma_pow2_strictly_increases(1588, 2045);
    assert(2 * q + 1 <= g * 8);
    lemma_ordinary_ratio(2 * q, 8);
    lemma_ordinary_ratio(2 * q + 1, 8);
}

/// The root times itself is the number, to within a few parts in `2^48`.
pub proof fn law_roots_square_back(a: Double)
    requires
        a.finite(),
        !a.is_negative(),
        a.pattern() > 0,
    ensures
        !a.root().is_negative(),
        nearly(
            magnitude(a.root().pattern()) * magnitude(a.root().pattern()),
            magnitude(a.pattern()) * pow2(1074),
            3,
        ),
{
    reveal(Double::root);
    let (m, p) = (magnitude(a.pattern()), pow2(1074));
    let s = 16 * (m * p);
    lemma_floor_sqrt_exists(s);
    let q = floor_sqrt(s);
    let e: nat = 2 * q + if q * q == s {
        0nat
    } else {
        1nat
    };
    let pattern = round_ratio(e, 8);
    assert(magnitude(0) == 0);
    lemma_magnitude_increases(0, a.pattern());
    lemma_magnitude_increases(a.pattern(), INFINITE as nat);
    lemma_root_is_ordinary(m, s, q);
    assert(HIDDEN < pattern < INFINITE) by {
        let other: nat = if q * q == s {
            2 * q
        } else {
            2 * q + 1
        };
        assert(e == other);
    }
    assert(a.root().pattern() == pattern);
    lemma_not_tiny(e, 8);
    lemma_relative_error(e, 8);
    let r = magnitude(pattern);
    lemma_square_is_close(8 * r, e);
    lemma_cut_square_is_close(s, q, e);
    lemma_nearly_chain((8 * r) * (8 * r), e * e, 4 * s, 1, 1);
    assert((8 * r) * (8 * r) == 64 * (r * r)) by (nonlinear_arith);
    assert(4 * s == 64 * (m * p));
}

proof fn lemma_square_is_close(x: nat, e: nat)
    requires
        apart(x as int, e as int) * SIGNIFICAND_END <= e,
    ensures
        nearly(x * x, e * e, 1),
{
    let d = apart(x as int, e as int);
    let off = apart((x * x) as int, (e * e) as int);
    assert(d <= e) by (nonlinear_arith)
        requires
            d * SIGNIFICAND_END <= e,
            d >= 0,
            SIGNIFICAND_END >= 1,
    ;
    assert(off == d * (x + e)) by (nonlinear_arith)
        requires
            d == (if x >= e { x - e } else { e - x }),
            off == (if x * x >= e * e { x * x - e * e } else { e * e - x * x }),
    ;
    assert(off <= d * (3 * e)) by (nonlinear_arith)
        requires
            off == d * (x + e),
            x <= 2 * e,
            d >= 0,
    ;
    assert(d * (3 * e) * 0x1_0000_0000_0000 <= e * e) by (nonlinear_arith)
        requires
            d * SIGNIFICAND_END <= e,
            SIGNIFICAND_END == 32 * 0x1_0000_0000_0000,
            d >= 0,
            e >= 0,
    ;
}

proof fn lemma_cut_square_is_close(s: nat, q: nat, e: nat)
    requires
        q * q <= s < (q + 1) * (q + 1),
        e == 2 * q + if q * q == s {
            0nat
        } else {
            1nat
        },
        e >= HIDDEN * 8,
    ensures
        nearly(e * e, 4 * s, 1),
{
    let off = apart((e * e) as int, (4 * s) as int);
    assert(off <= 8 * q) by (nonlinear_arith)
        requires
            q * q <= s,
            s < (q + 1) * (q + 1),
            q >= 1,
            e == 2 * q && q * q == s || e == 2 * q + 1,
            off == (if e * e >= 4 * s { e * e - 4 * s } else { 4 * s - e * e }),
    ;
    assert(8 * q * 0x1_0000_0000_0000 <= 4 * s) by (nonlinear_arith)
        requires
            q * q <= s,
            q >= 0x2_0000_0000_0000,
    ;
}

/// Powers of two bring a count into the range of the significands.
proof fn lemma_normalised(n: nat) -> (k: nat)
    requires
        0 < n < SIGNIFICAND_END,
    ensures
        k <= 52,
        HIDDEN <= n * pow2(k) < SIGNIFICAND_END,
        n * pow2(k) >= pow2(k),
{
    lemma_word_powers();
    let k = lemma_normalised_from(n, 52);
    lemma_pow2_pos(k);
    assert(n * pow2(k) >= pow2(k)) by (nonlinear_arith)
        requires
            n >= 1,
            pow2(k) > 0,
    ;
    k
}

proof fn lemma_normalised_from(n: nat, room: nat) -> (k: nat)
    requires
        n < SIGNIFICAND_END,
        room <= 52,
        n * pow2(room) >= HIDDEN,
    ensures
        k <= room,
        HIDDEN <= n * pow2(k) < SIGNIFICAND_END,
    decreases room,
{
    lemma_word_powers();
    if n * pow2(room) < SIGNIFICAND_END {
        room
    } else {
        assert(room > 0) by {
            assert(n * 1 == n);
        }
        lemma_pow2_unfold(room);
        assert(n * pow2(room) == 2 * (n * pow2((room - 1) as nat))) by (nonlinear_arith)
            requires
                pow2(room) == 2 * pow2((room - 1) as nat),
        ;
        lemma_normalised_from(n, (room - 1) as nat)
    }
}

/// A count below `2^53` is a number.
pub proof fn law_small_counts_are_exact(n: nat)
    requires
        n < SIGNIFICAND_END,
    ensures
        Double::nearest(n).units() == n * pow2(1074),
        Double::nearest(n).finite(),
        !Double::nearest(n).is_negative(),
{
    lemma_count(n);
    assert(magnitude(0) == 0);
    if n == 0 {
        assert(0 * pow2(1074) == 0) by (nonlinear_arith);
    } else {
        lemma_nearest_count(n);
        let k = lemma_normalised(n);
        let e = (1074 - k) as nat;
        lemma_pow2_adds(k, e);
        lemma_built_magnitude(e, n * pow2(k));
        let pattern = e * (HIDDEN as nat) + n * pow2(k);
        assert(n * pow2(k) * pow2(e) == n * pow2(1074)) by (nonlinear_arith)
            requires
                pow2(1074) == pow2(k) * pow2(e),
        ;
        assert(pattern <= INFINITE) by (nonlinear_arith)
            requires
                pattern == e * (HIDDEN as nat) + n * pow2(k),
                e <= 1074,
                n * pow2(k) < SIGNIFICAND_END,
                SIGNIFICAND_END == 2 * HIDDEN,
                INFINITE == 2047 * HIDDEN,
        ;
        law_exact_ratio_is_kept(pattern, 1);
        assert(magnitude(pattern) * 1 == n * pow2(1074));
    }
}

/// One less than a count is the count before it.
proof fn lemma_count_less_one(n: nat)
    requires
        2 <= n < SIGNIFICAND_END,
    ensures
        Double::nearest(n).difference(constant(ONE)) == Double::nearest((n - 1) as nat),
{
    law_small_counts_are_exact(n);
    law_small_counts_are_exact((n - 1) as nat);
    lemma_nearest_count((n - 1) as nat);
    lemma_one();
    let p = pow2(1074);
    lemma_pow2_pos(1074);
    let k = (n - 1) as nat;
    assert(n * p - p == k * p && k * p > 0) by (nonlinear_arith)
        requires
            k == n - 1,
            k >= 1,
            p > 0,
    ;
    reveal(Double::sum);
    reveal(Double::nearest);
}

/// The square of the deviation times one less than the number of the numbers is the
/// sum of the squares of their distances from the mean, to within a few parts in
/// `2^48`.
pub proof fn law_deviation_is_over_one_less(s: Seq<Double>)
    requires
        2 <= s.len() < SIGNIFICAND_END,
        total(squared_deviations(s, mean(s))).finite(),
        !total(squared_deviations(s, mean(s))).is_negative(),
        ordinary(
            total(squared_deviations(s, mean(s))).quotient(
                Double::nearest((s.len() - 1) as nat),
            ),
        ),
    ensures
        ({
            let d = magnitude(standard_deviation(s).pattern());
            let q = magnitude(total(squared_deviations(s, mean(s))).pattern());
            nearly(d * d * ((s.len() - 1) as nat), q * pow2(1074), 5)
        }),
{
    let k = (s.len() - 1) as nat;
    let n = Double::nearest(k);
    let t = total(squared_deviations(s, mean(s)));
    let v = t.quotient(n);
    lemma_count_less_one(s.len());
    lemma_count(k);
    assert(n == constant(n.bits));
    assert(standard_deviation(s) == v.root());
    law_unscaled_is_divided(t, n.bits, k, 1);
    assert(times(v, t, 1, k));
    law_roots_square_back(v);
    let (d, w, q, p) = (
        magnitude(v.root().pattern()),
        magnitude(v.pattern()),
        magnitude(t.pattern()),
        pow2(1074),
    );
    assert(nearly(w * k, q, 1)) by {
        assert(q * 1 == q);
        let off = w * k - q;
        assert((if off >= 0 { off } else { -off }) * 0x1_0000_0000_0000 <= (if off >= 0 {
            off
        } else {
            -off
        }) * CLOSENESS) by (nonlinear_arith)
            requires
                CLOSENESS >= 0x1_0000_0000_0000,
        ;
    }
    lemma_nearly_times(d * d, w * p, 3, k);
    lemma_nearly_times(w * k, q, 1, p);
    assert(w * p * k == w * k * p) by (nonlinear_arith);
    lemma_nearly_chain(d * d * k, w * k * p, q * p, 3, 1);
}

/// The square of the distance from another number is the same the other way round,
/// zero from the number itself, and the square of the exact distance to within a few
/// parts in `2^48`.
pub proof fn law_squared_deviations_are_squares(x: Double, m: Double)
    requires
        x.finite(),
        m.finite(),
        x.difference(m).finite(),
    ensures
        squared_deviation(x, m) == squared_deviation(m, x),
        squared_deviation(x, x) == constant(ZERO),
        ordinary(x.difference(m).product(x.difference(m))) ==> ({
            let far = apart(x.units(), m.units()) as nat;
            nearly(magnitude(squared_deviation(x, m).pattern()) * pow2(1074), far * far, 3)
        }),
        !squared_deviation(x, m).is_negative(),
{
    let (d, e) = (x.difference(m), m.difference(x));
    assert(magnitude(0) == 0);
    reveal(Double::product);
    assert(d.pattern() == e.pattern()) by {
        reveal(Double::sum);
    }
    crate::sum_laws::law_difference_of_equals(x);
    lemma_pow2_pos(1074);
    crate::double::lemma_round_zero(pow2(1074));
    assert(0 * magnitude(0) == 0) by (nonlinear_arith);
    if ordinary(squared_deviation(x, m)) {
        lemma_sum_units(x, m.negated());
        let v = x.units() - m.units();
        let n = (if v >= 0 { v } else { -v }) as nat;
        let size = magnitude(d.pattern());
        assert(size == magnitude(round_ratio(n, 1)) && round_ratio(n, 1) < INFINITE) by {
            reveal(Double::sum);
            crate::double::lemma_round_zero(1);
        }
        assert(apart(size as int, n as int) * SIGNIFICAND_END <= n) by {
            if n < HIDDEN {
                lemma_small_magnitude(n);
                law_exact_ratio_is_kept(n, 1);
                assert(magnitude(n) * 1 == n);
                assert(0 * SIGNIFICAND_END == 0) by (nonlinear_arith);
            } else {
                lemma_relative_error(n, 1);
                assert(size * 1 == size);
            }
        }
        lemma_square_is_close(size, n);
        lemma_nearly_product(d, d);
        lemma_nearly_chain(
            magnitude(squared_deviation(x, m).pattern()) * pow2(1074),
            size * size,
            n * n,
            1,
            1,
        );
    }
}

/// The square of a miss is the sum of the squares of its offsets, to within a few
/// parts in `2^48`.
pub proof fn law_misses_are_diagonals(o: TrajectoryOutput)
    requires
        o.wind_drift.finite(),
        o.drop.finite(),
        ordinary(o.wind_drift.product(o.wind_drift)),
        ordinary(o.drop.product(o.drop)),
        ordinary(o.wind_drift.product(o.wind_drift).sum(o.drop.product(o.drop))),
    ensures
        ({
            let (x, y) = (magnitude(o.wind_drift.pattern()), magnitude(o.drop.pattern()));
            let r = magnitude(radial_miss(o).pattern());
            nearly(r * r, x * x + y * y, 7)
        }),
{
    let (a, b) = (o.wind_drift.product(o.wind_drift), o.drop.product(o.drop));
    let c = a.sum(b);
    let (x, y, p) = (
        magnitude(o.wind_drift.pattern()),
        magnitude(o.drop.pattern()),
        pow2(1074),
    );
    let (m, n, k) = (magnitude(a.pattern()), magnitude(b.pattern()), magnitude(c.pattern()));
    let r = magnitude(c.root().pattern());
    lemma_nearly_product(o.wind_drift, o.wind_drift);
    lemma_nearly_product(o.drop, o.drop);
    assert(c.pattern() == round_ratio(m + n, 1) && !c.is_negative()) by {
        reveal(Double::sum);
        assert(magnitude(0) == 0);
    }
    lemma_not_tiny(m + n, 1);
    lemma_relative_error(m + n, 1);
    assert(k * 1 == k);
    assert(nearly(k, m + n, 1));
    law_roots_square_back(c);
    lemma_nearly_times(k, m + n, 1, p);
    lemma_nearly_chain(r * r, k * p, (m + n) * p, 3, 1);
    assert((m + n) * p == m * p + n * p) by (nonlinear_arith);
    lemma_nearly_chain(r * r, (m + n) * p, x * x + y * y, 5, 1);
}

/// A greater offset to the side is no smaller a miss.
pub proof fn law_greater_offsets_miss_by_more(o: TrajectoryOutput, far: TrajectoryOutput)
    requires
        o.wind_drift.finite(),
        far.wind_drift.finite(),
        o.drop.finite(),
        !o.wind_drift.is_negative(),
        !far.wind_drift.is_negative(),
        o.wind_drift.at_most(far.wind_drift),
        far.drop == o.drop,
    ensures
        radial_miss(o).at_most(radial_miss(far)),
{
    let (x, y, d) = (o.wind_drift, far.wind_drift, o.drop);
    let (a, b, c) = (x.product(x), y.product(y), d.product(d));
    assert(!a.nan() && !b.nan() && !c.nan() && !c.is_negative()) by {
        reveal(Double::product);
    }
    assert(!x.product(y).nan() && !y.product(x).nan()) by {
        reveal(Double::product);
    }
    law_products_keep_order(x, y, x);
    law_product_commutes(x, y);
    law_products_keep_order(x, y, y);
    assert(!b.is_negative()) by {
        reveal(Double::product);
    }
    assert(!a.sum(c).nan() && !b.sum(c).nan()) by {
        reveal(Double::sum);
    }
    law_sums_keep_order(a, b, c);
    assert(!a.sum(c).is_negative() && !b.sum(c).is_negative()) by {
        reveal(Double::sum);
    }
    law_roots_keep_order(a.sum(c), b.sum(c));
}

/// Without any distance from the mean there is no deviation.
pub proof fn law_no_distance_is_no_deviation(s: Seq<Double>)
    requires
        2 <= s.len() < SIGNIFICAND_END,
        total(squared_deviations(s, mean(s))).zero(),
    ensures
        standard_deviation(s).zero(),
{
    let k = (s.len() - 1) as nat;
    let n = Double::nearest(k);
    let t = total(squared_deviations(s, mean(s)));
    lemma_count_less_one(s.len());
    lemma_count(k);
    assert(n == constant(n.bits));
    law_scaling_mirrors(t, n.bits);
    assert(t.quotient(n) == unscaled(t, n.bits));
    reveal(Double::root);
}

/// An impact off the point of aim in one direction alone misses by that offset: the squares
/// agree to within a few parts in `2^48`.  One without any offset does not miss.
pub proof fn law_misses_in_one_direction_are_the_offset(o: TrajectoryOutput, t: TrajectoryOutput)
    requires
        o.drop.zero(),
        o.wind_drift.finite(),
        t.wind_drift == o.drop,
        t.drop == o.wind_drift,
    ensures
        o.wind_drift.zero() ==> radial_miss(o).zero(),
        ordinary(o.wind_drift.product(o.wind_drift)) ==> ({
            let (x, r) = (
                magnitude(o.wind_drift.pattern()),
                magnitude(radial_miss(o).pattern()),
            );
            nearly(r * r, x * x, 5)
        }),
        radial_miss(t) == radial_miss(o),
{
    let (a, b) = (o.wind_drift.product(o.wind_drift), o.drop.product(o.drop));
    lemma_zero_product(o.drop, o.drop);
    law_sum_commutes(a, b);
    assert(!a.nan() && !a.is_negative() && !b.is_negative()) by {
        reveal(Double::product);
    }
    if o.wind_drift.zero() {
        lemma_zero_product(o.wind_drift, o.wind_drift);
        law_zero_adds_nothing(a, b);
        reveal(Double::root);
    }
    if ordinary(a) {
        law_zero_adds_nothing(a, b);
        assert(a.sum(b) == a);
        lemma_nearly_product(o.wind_drift, o.wind_drift);
        law_roots_square_back(a);
        let (x, r) = (magnitude(o.wind_drift.pattern()), magnitude(a.root().pattern()));
        lemma_nearly_chain(r * r, magnitude(a.pattern()) * pow2(1074), x * x, 3, 1);
    }
}

} // verus!
