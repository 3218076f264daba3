//! What sums, differences, products and quotients keep.

use vstd::prelude::*;
use vstd::arithmetic::power2::*;
use vstd::arithmetic::mul::*;
use crate::double::{lemma_magnitude_increases, lemma_round_zero, Double};
use crate::nearest::{law_exact_ratio_is_kept, law_rounding_keeps_order};
use crate::order_laws::agree;
use crate::rounding::{magnitude, round_ratio, INFINITE};
use crate::units::{constant, ZERO};

verus! {

/// A whole number of the smallest units, rounded.
pub open spec fn rounded(exact: int) -> int {
    if exact < 0 {
        -(magnitude(round_ratio((-exact) as nat, 1)) as int)
    } else {
        magnitude(round_ratio(exact as nat, 1)) as int
    }
}

proof fn lemma_rounded_order(a: int, b: int)
    requires
        a <= b,
    ensures
        rounded(a) <= rounded(b),
        rounded(-a) == -rounded(a),
{
    assert(magnitude(0) == 0);
    lemma_round_zero(1);
    if 0 <= a {
        law_rounding_keeps_order(a as nat, b as nat, 1);
        lemma_magnitudes(round_ratio(a as nat, 1), round_ratio(b as nat, 1));
    } else if b <= 0 {
        law_rounding_keeps_order((-b) as nat, (-a) as nat, 1);
        lemma_magnitudes(round_ratio((-b) as nat, 1), round_ratio((-a) as nat, 1));
    }
}

proof fn lemma_magnitudes(a: nat, b: nat)
    requires
        a <= b,
    ensures
        magnitude(a) <= magnitude(b),
{
    if a < b {
        lemma_magnitude_increases(a, b);
    }
}

/// The sum of finite numbers in units.
pub proof fn lemma_sum_units(a: Double, b: Double)
    requires
        a.finite(),
        b.finite(),
    ensures
        !a.sum(b).nan(),
        a.sum(b).units() == rounded(a.units() + b.units()),
{
    reveal(Double::sum);
    assert(magnitude(0) == 0);
    lemma_round_zero(1);
}

proof fn lemma_beyond(a: Double, b: Double)
    requires
        !a.nan(),
        b.infinite(),
    ensures
        b.is_negative() ==> b.units() <= a.units(),
        !b.is_negative() ==> a.units() <= b.units(),
{
    lemma_magnitudes(a.pattern(), INFINITE as nat);
}

/// Adding the same to two numbers keeps their order.
pub proof fn law_sums_keep_order(a: Double, b: Double, c: Double)
    requires
        a.at_most(b),
        !a.sum(c).nan(),
        !b.sum(c).nan(),
    ensures
        a.sum(c).at_most(b.sum(c)),
{
    if a.finite() && b.finite() && c.finite() {
        lemma_sum_units(a, c);
        lemma_sum_units(b, c);
        lemma_rounded_order(a.units() + c.units(), b.units() + c.units());
    } else {
        reveal(Double::sum);
        lemma_infinities(a, b);
        if a.sum(c).infinite() {
            lemma_beyond(b.sum(c), a.sum(c));
        }
        if b.sum(c).infinite() {
            lemma_beyond(a.sum(c), b.sum(c));
        }
    }
}

/// Nothing lies beyond an infinity.
proof fn lemma_infinities(a: Double, b: Double)
    requires
        a.at_most(b),
    ensures
        a.infinite() && !a.is_negative() ==> b == a,
        b.infinite() && b.is_negative() ==> a == b,
{
    assert(magnitude(0) == 0);
    if b.pattern() < INFINITE {
        lemma_magnitude_increases(b.pattern(), INFINITE as nat);
    }
    if a.pattern() < INFINITE {
        lemma_magnitude_increases(a.pattern(), INFINITE as nat);
    }
    lemma_magnitude_increases(0, INFINITE as nat);
}

/// Subtracting two numbers from the same reverses their order.
pub proof fn law_differences_reverse_order(a: Double, b: Double, c: Double)
    requires
        a.at_most(b),
        !c.difference(a).nan(),
        !c.difference(b).nan(),
    ensures
        c.difference(b).at_most(c.difference(a)),
{
    law_sum_commutes(c, a.negated());
    law_sum_commutes(c, b.negated());
    law_sums_keep_order(b.negated(), a.negated(), c);
}

/// Subtracting the same from two numbers keeps their order.
pub proof fn law_differences_keep_order(a: Double, b: Double, c: Double)
    requires
        a.at_most(b),
        !a.difference(c).nan(),
        !b.difference(c).nan(),
    ensures
        a.difference(c).at_most(b.difference(c)),
{
    law_sums_keep_order(a, b, c.negated());
}

/// The order of two numbers does not matter for their sum.
pub proof fn law_sum_commutes(a: Double, b: Double)
    ensures
        a.sum(b) == b.sum(a),
{
    reveal(Double::sum);
}

/// The order of two numbers does not matter for their product.
pub proof fn law_product_commutes(a: Double, b: Double)
    ensures
        a.product(b) == b.product(a),
{
    reveal(Double::product);
    lemma_mul_is_commutative(magnitude(a.pattern()) as int, magnitude(b.pattern()) as int);
}

/// Zero added to a number, or taken from it, leaves the number.
pub proof fn law_zero_adds_nothing(a: Double, z: Double)
    requires
        z.zero(),
        !a.nan(),
    ensures
        agree(a.sum(z), a),
        agree(a.difference(z), a),
        agree(z.sum(a), a),
{
    reveal(Double::sum);
    assert(magnitude(0) == 0);
    if a.finite() && a.pattern() > 0 {
        lemma_magnitude_increases(0, a.pattern());
        law_exact_ratio_is_kept(a.pattern(), 1);
        assert(magnitude(a.pattern()) * 1 == magnitude(a.pattern()));
    }
}

/// A number less itself is zero.
pub proof fn law_difference_of_equals(a: Double)
    requires
        a.finite(),
    ensures
        a.difference(a) == constant(ZERO),
{
    reveal(Double::sum);
}

/// With both signs changed a sum changes its sign.
pub proof fn law_sum_mirrors(a: Double, b: Double)
    requires
        !a.nan(),
        !b.nan(),
        !a.sum(b).nan(),
    ensures
        agree(a.negated().sum(b.negated()), a.sum(b).negated()),
{
    reveal(Double::sum);
    assert(magnitude(0) == 0);
    lemma_round_zero(1);
}

/// With one sign changed a product changes its sign, with both it stays.
pub proof fn law_product_mirrors(a: Double, b: Double)
    requires
        !a.nan(),
        !b.nan(),
        !a.product(b).nan(),
    ensures
        a.negated().product(b) == a.product(b).negated(),
        a.product(b.negated()) == a.product(b).negated(),
        a.negated().product(b.negated()) == a.product(b),
{
    reveal(Double::product);
}

/// A positive number divided by itself is one.
pub proof fn law_quotient_of_equals(a: Double)
    requires
        a.finite(),
        !a.zero(),
    ensures
        a.quotient(a) == constant(crate::units::ONE),
{
    reveal(Double::quotient);
    assert(magnitude(0) == 0);
    lemma_magnitude_increases(0, a.pattern());
    let m = magnitude(a.pattern());
    crate::nearest::lemma_one();
    lemma_mul_is_commutative(m as int, pow2(1074) as int);
    law_exact_ratio_is_kept(crate::units::ONE as nat, m);
}

/// Numbers that do not fall have products with a positive number that do not fall.
pub proof fn law_products_keep_order(a: Double, b: Double, c: Double)
    requires
        !a.is_negative(),
        !b.is_negative(),
        a.at_most(b),
        !c.is_negative(),
        !c.nan(),
        !a.product(c).nan(),
        !b.product(c).nan(),
    ensures
        a.product(c).at_most(b.product(c)),
        !a.product(c).is_negative(),
{
    reveal(Double::product);
    lemma_patterns(a, b);
    lemma_pow2_pos(1074);
    let (m, n, k) = (magnitude(a.pattern()), magnitude(b.pattern()), magnitude(c.pattern()));
    lemma_magnitudes(a.pattern(), b.pattern());
    lemma_mul_inequality(m as int, n as int, k as int);
    law_rounding_keeps_order(m * k, n * k, pow2(1074));
    let (p, q) = (round_ratio(m * k, pow2(1074)), round_ratio(n * k, pow2(1074)));
    lemma_magnitudes(p, q);
    lemma_magnitudes(p, INFINITE as nat);
}

proof fn lemma_patterns(a: Double, b: Double)
    requires
        !a.is_negative(),
        !b.is_negative(),
        a.at_most(b),
    ensures
        a.pattern() <= b.pattern(),
{
    if b.pattern() < a.pattern() {
        lemma_magnitude_increases(b.pattern(), a.pattern());
    }
}

} // verus!
