//! What rounding guarantees.

use vstd::prelude::*;
use vstd::arithmetic::power2::*;
use vstd::arithmetic::div_mod::*;
use vstd::arithmetic::mul::*;
use crate::double::{lemma_magnitude_increases, signed, Double};
use crate::rounding::{excess_bits, lemma_word_powers, magnitude, round_ratio};
use crate::rounding::{HIDDEN, INFINITE, SIGNIFICAND_END};
use crate::units::{constant, scaled, unscaled, ONE, ZERO};

verus! {

/// How far a pattern's magnitude is from a ratio, times the denominator.
pub open spec fn distance(pattern: nat, num: nat, den: nat) -> nat {
    let m = magnitude(pattern) * den;
    (if m >= num {
        m - num
    } else {
        num - m
    }) as nat
}

proof fn lemma_excess(whole: nat)
    ensures
        whole < SIGNIFICAND_END * pow2(excess_bits(whole)),
        excess_bits(whole) > 0 ==> whole >= HIDDEN * pow2(excess_bits(whole)),
    decreases whole,
{
    lemma_word_powers();
    if whole >= SIGNIFICAND_END as nat {
        let half = whole / 2;
        let e = excess_bits(half);
        lemma_excess(half);
        lemma_pow2_unfold(e + 1);
        assert(pow2(e + 1) == 2 * pow2(e));
        assert(SIGNIFICAND_END * pow2(e + 1) == 2 * (SIGNIFICAND_END * pow2(e))) by (nonlinear_arith)
            requires
                pow2(e + 1) == 2 * pow2(e),
        ;
        assert(HIDDEN * pow2(e + 1) == 2 * (HIDDEN * pow2(e))) by (nonlinear_arith)
            requires
                pow2(e + 1) == 2 * pow2(e),
        ;
        if e == 0 {
            assert(HIDDEN * pow2(0) == HIDDEN);
        }
    } else {
        assert(SIGNIFICAND_END * pow2(0) == SIGNIFICAND_END);
    }
}

/// The magnitude of a pattern built from an exponent and a significand.
pub proof fn lemma_built_magnitude(e: nat, kept: nat)
    requires
        kept <= SIGNIFICAND_END,
        e > 0 ==> kept >= HIDDEN,
    ensures
        magnitude(e * (HIDDEN as nat) + kept) == kept * pow2(e),
{
    let h = HIDDEN as nat;
    let p = e * h + kept;
    lemma_word_powers();
    if kept < h {
        assert(e == 0);
        lemma_small_mod(kept, h);
        lemma_basic_div(kept as int, h as int);
        assert(kept * pow2(0) == kept);
    } else if kept < 2 * h {
        assert(p / h == e + 1 && p % h == kept - h) by {
            assert((e + 1) * h + (kept - h) == p) by (nonlinear_arith)
                requires
                    p == e * h + kept,
                    kept >= h,
            ;
            lemma_fundamental_div_mod_converse(
                p as int,
                h as int,
                (e + 1) as int,
                (kept - h) as int,
            );
        }
    } else {
        assert(kept == 2 * h);
        assert(p / h == e + 2 && p % h == 0) by {
            assert((e + 2) * h + 0 == p) by (nonlinear_arith)
                requires
                    p == e * h + kept,
                    kept == 2 * h,
            ;
            lemma_fundamental_div_mod_converse(p as int, h as int, (e + 2) as int, 0);
        }
        lemma_pow2_unfold(e + 1);
        assert(h * pow2(e + 1) == kept * pow2(e)) by (nonlinear_arith)
            requires
                pow2(e + 1) == 2 * pow2(e),
                kept == 2 * h,
        ;
    }
}

/// A ratio lies between the magnitudes of two neighbouring patterns, and rounds
/// to one of the two.
proof fn lemma_neighbours(num: nat, den: nat) -> (low: nat)
    requires
        den > 0,
    ensures
        magnitude(low) * den <= num,
        num < magnitude(low + 1) * den,
        low < INFINITE ==> {
            let r = round_ratio(num, den);
            let below = num - magnitude(low) * den;
            let above = magnitude(low + 1) * den - num;
            &&& below < above ==> r == low
            &&& below > above ==> r == low + 1
            &&& below == above ==> r % 2 == 0 && (r == low || r == low + 1)
        },
        low >= INFINITE ==> round_ratio(num, den) == INFINITE,
{
    let e = excess_bits(num / den);
    let unit = den * pow2(e);
    let kept = num / unit;
    let rest = num % unit;
    let h = HIDDEN as nat;
    lemma_pow2_pos(e);
    lemma_excess(num / den);
    assert(unit > 0) by (nonlinear_arith)
        requires
            unit == den * pow2(e),
            den > 0,
            pow2(e) > 0,
    ;
    lemma_fundamental_div_mod(num as int, unit as int);
    lemma_mod_bound(num as int, unit as int);
    assert(kept == (num / den) / pow2(e)) by {
        lemma_div_denominator(num as int, den as int, pow2(e) as int);
    }
    assert(kept < SIGNIFICAND_END) by {
        lemma_multiply_divide_lt(
            (num / den) as int,
            pow2(e) as int,
            SIGNIFICAND_END as int,
        );
    }
    if e > 0 {
        lemma_div_is_ordered((h * pow2(e)) as int, (num / den) as int, pow2(e) as int);
        lemma_div_by_multiple(h as int, pow2(e) as int);
        assert(kept >= h);
    }
    let low = e * h + kept;
    lemma_built_magnitude(e, kept);
    lemma_built_magnitude(e, kept + 1);
    assert(e * h + (kept + 1) == low + 1);
    assert(magnitude(low) * den == unit * kept) by (nonlinear_arith)
        requires
            magnitude(low) == kept * pow2(e),
            unit == den * pow2(e),
    ;
    assert(magnitude(low + 1) * den == unit * kept + unit) by (nonlinear_arith)
        requires
            magnitude(low + 1) == (kept + 1) * pow2(e),
            unit == den * pow2(e),
    ;
    assert((e * h) % 2 == 0) by {
        assert(e * h == 2 * (e * (h / 2))) by (nonlinear_arith)
            requires
                h == 2 * (h / 2),
        ;
    }
    low
}

/// Rounding gives a pattern whose magnitude is nearest to the ratio, and of two
/// that are equally near the even one.  The infinite pattern counts as the
/// next magnitude after the largest finite one.
pub proof fn law_rounds_to_nearest(num: nat, den: nat, pattern: nat)
    requires
        den > 0,
        pattern <= INFINITE,
    ensures
        round_ratio(num, den) <= INFINITE,
        distance(round_ratio(num, den), num, den) <= distance(pattern, num, den),
        distance(round_ratio(num, den), num, den) == distance(pattern, num, den) && pattern
            != round_ratio(num, den) ==> round_ratio(num, den) % 2 == 0,
{
    let low = lemma_neighbours(num, den);
    let r = round_ratio(num, den);
    lemma_scaled_order(pattern, low, den);
    lemma_scaled_order(low + 1, pattern, den);
    lemma_scaled_order(INFINITE as nat, low, den);
    lemma_scaled_order(pattern, INFINITE as nat, den);
    lemma_magnitude_increases(low, low + 1);
    lemma_mul_strict_inequality(
        magnitude(low) as int,
        magnitude(low + 1) as int,
        den as int,
    );
}

/// A pattern that is not larger has a magnitude that is not larger.
proof fn lemma_scaled_order(a: nat, b: nat, den: nat)
    requires
        den > 0,
    ensures
        a < b ==> magnitude(a) * den < magnitude(b) * den,
        a == b ==> magnitude(a) * den == magnitude(b) * den,
{
    if a < b {
        lemma_magnitude_increases(a, b);
        lemma_mul_strict_inequality(magnitude(a) as int, magnitude(b) as int, den as int);
    }
}

/// A ratio that is not larger rounds to a pattern that is not larger.
pub proof fn law_rounding_keeps_order(a: nat, b: nat, den: nat)
    requires
        den > 0,
        a <= b,
    ensures
        round_ratio(a, den) <= round_ratio(b, den),
{
    let (r, s) = (round_ratio(a, den), round_ratio(b, den));
    law_rounds_to_nearest(a, den, 0);
    law_rounds_to_nearest(b, den, 0);
    law_rounds_to_nearest(a, den, s);
    law_rounds_to_nearest(b, den, r);
    if s < r {
        lemma_scaled_order(s, r, den);
    }
}

/// A ratio that is the magnitude of a pattern rounds to that pattern.
pub proof fn law_exact_ratio_is_kept(pattern: nat, den: nat)
    requires
        den > 0,
        pattern <= INFINITE,
    ensures
        round_ratio(magnitude(pattern) * den, den) == pattern,
{
    let num = magnitude(pattern) * den;
    let r = round_ratio(num, den);
    law_rounds_to_nearest(num, den, pattern);
    lemma_scaled_order(r, pattern, den);
    lemma_scaled_order(pattern, r, den);
}

/// The magnitude of one.
pub proof fn lemma_one()
    ensures
        magnitude(ONE as nat) == pow2(1074),
        ONE < INFINITE,
{
    lemma_word_powers();
    let h = HIDDEN as nat;
    assert(ONE as nat / h == 1023 && ONE as nat % h == 0);
    lemma_pow2_adds(52, 1022);
    assert(magnitude(ONE as nat) == h * pow2(1022));
}

/// The pattern of `2^64`.
pub const BEYOND_WORD: u64 = 0x43f0_0000_0000_0000;

proof fn lemma_beyond_word()
    ensures
        magnitude(BEYOND_WORD as nat) == pow2(64) * pow2(1074),
        BEYOND_WORD < INFINITE,
{
    lemma_word_powers();
    let h = HIDDEN as nat;
    assert(BEYOND_WORD as nat / h == 1087 && BEYOND_WORD as nat % h == 0);
    lemma_pow2_adds(52, 1086);
    lemma_pow2_adds(64, 1074);
    assert(magnitude(BEYOND_WORD as nat) == h * pow2(1086));
}

/// The number nearest to a count is finite, and at least one if the count is.
pub proof fn lemma_nearest_count(n: nat)
    requires
        n <= u64::MAX,
    ensures
        Double::nearest(n).finite(),
        !Double::nearest(n).is_negative(),
        Double::nearest(n).pattern() == round_ratio(n * pow2(1074), 1),
        n > 0 ==> Double::nearest(n).pattern() >= ONE,
{
    reveal(Double::nearest);
    lemma_word_powers();
    lemma_pow2_pos(1074);
    lemma_beyond_word();
    lemma_one();
    let p = pow2(1074);
    assert(n * p <= pow2(64) * p) by (nonlinear_arith)
        requires
            n <= pow2(64),
    ;
    law_rounding_keeps_order(n * p, pow2(64) * p, 1);
    assert(magnitude(BEYOND_WORD as nat) * 1 == pow2(64) * p);
    law_exact_ratio_is_kept(BEYOND_WORD as nat, 1);
    if n > 0 {
        assert(p <= n * p) by (nonlinear_arith)
            requires
                n >= 1,
                p > 0,
        ;
        law_rounding_keeps_order(p, n * p, 1);
        assert(magnitude(ONE as nat) * 1 == p);
        law_exact_ratio_is_kept(ONE as nat, 1);
    }
}

/// A part of a whole is a share between zero and one.
pub proof fn law_share_is_between_zero_and_one(part: nat, whole: nat)
    requires
        part <= whole,
        0 < whole <= u64::MAX,
    ensures
        constant(ZERO).at_most(Double::nearest(part).quotient(Double::nearest(whole))),
        Double::nearest(part).quotient(Double::nearest(whole)).at_most(constant(ONE)),
{
    let (a, b) = (Double::nearest(part), Double::nearest(whole));
    let p = pow2(1074);
    lemma_nearest_count(part);
    lemma_nearest_count(whole);
    lemma_pow2_pos(1074);
    lemma_one();
    assert(part * p <= whole * p) by (nonlinear_arith)
        requires
            part <= whole,
    ;
    law_rounding_keeps_order(part * p, whole * p, 1);
    let (ma, mb) = (magnitude(a.pattern()), magnitude(b.pattern()));
    if a.pattern() < b.pattern() {
        lemma_magnitude_increases(a.pattern(), b.pattern());
    }
    lemma_magnitude_increases(0, b.pattern());
    assert(ma <= mb && mb > 0);
    assert(ma * p <= p * mb) by (nonlinear_arith)
        requires
            ma <= mb,
    ;
    let r = round_ratio(ma * p, mb);
    law_rounding_keeps_order(ma * p, p * mb, mb);
    assert(magnitude(ONE as nat) * mb == p * mb);
    law_exact_ratio_is_kept(ONE as nat, mb);
    assert(r <= ONE);
    reveal(Double::quotient);
    let q = a.quotient(b);
    assert(q == signed(false, r));
    assert(q.bits == r);
    assert(constant(ZERO).units() == 0) by {
        assert(magnitude(0) == 0);
    }
    if r < ONE as nat {
        lemma_magnitude_increases(r, ONE as nat);
    }
}

/// A ratio that is not tiny and does not overflow rounds to within one part in
/// `2^53` of itself.
pub proof fn lemma_relative_error(num: nat, den: nat)
    requires
        den > 0,
        num >= HIDDEN * den,
        round_ratio(num, den) < INFINITE,
    ensures
        distance(round_ratio(num, den), num, den) * SIGNIFICAND_END <= num,
{
    let low = lemma_neighbours(num, den);
    let h = HIDDEN as nat;
    let r = round_ratio(num, den);
    let (a, b) = (magnitude(low) * den, magnitude(low + 1) * den);
    let gap = (b - a) as nat;
    lemma_word_powers();
    assert(low >= h) by {
        if low < h {
            lemma_small_mod(low, h);
            lemma_basic_div(low as int, h as int);
            assert(magnitude(low + 1) <= h) by {
                if low + 1 < h {
                    lemma_small_mod(low + 1, h);
                    lemma_basic_div((low + 1) as int, h as int);
                } else {
                    lemma_built_magnitude(0, h);
                    assert(h * pow2(0) == h);
                }
            }
            lemma_mul_inequality(magnitude(low + 1) as int, h as int, den as int);
        }
    }
    let e = (low / h - 1) as nat;
    let kept = h + low % h;
    lemma_fundamental_div_mod(low as int, h as int);
    lemma_div_is_ordered(h as int, low as int, h as int);
    lemma_div_by_self(h as int);
    assert(e * h + kept == low) by (nonlinear_arith)
        requires
            low == h * (low / h) + low % h,
            e == low / h - 1,
            kept == h + low % h,
    ;
    lemma_built_magnitude(e, kept);
    lemma_built_magnitude(e, kept + 1);
    assert(e * h + (kept + 1) == low + 1);
    let p = pow2(e);
    lemma_pow2_pos(e);
    assert(gap == p * den) by (nonlinear_arith)
        requires
            a == kept * p * den,
            b == (kept + 1) * p * den,
            gap == b - a,
    ;
    assert(a >= h * gap) by (nonlinear_arith)
        requires
            a == kept * p * den,
            gap == p * den,
            kept >= h,
    ;
    let error = distance(r, num, den);
    assert(2 * error <= gap);
    assert(error * SIGNIFICAND_END == (2 * error) * h) by (nonlinear_arith)
        requires
            SIGNIFICAND_END == 2 * h,
    ;
    assert((2 * error) * h <= gap * h) by (nonlinear_arith)
        requires
            2 * error <= gap,
    ;
    assert(gap * h == h * gap) by (nonlinear_arith);
}

/// `2^51`.
pub const CLOSENESS: u64 = 0x0008_0000_0000_0000;

/// The exact result of scaling up and back differs little from its start.
proof fn lemma_back_is_close(a: nat, m: nat, p: nat, x: nat, y: nat)
    requires
        m > 0,
        (if x * p >= a * m { x * p - a * m } else { a * m - x * p }) * SIGNIFICAND_END <= a * m,
        (if y * m >= x * p { y * m - x * p } else { x * p - y * m }) * SIGNIFICAND_END <= x * p,
    ensures
        (if y >= a { y - a } else { a - y }) * CLOSENESS <= a,
{
    let (am, xp, ym) = (a * m, x * p, y * m);
    let s = SIGNIFICAND_END as int;
    let off = if ym >= am { ym - am } else { am - ym };
    let first = if xp >= am { xp - am } else { am - xp };
    let second = if ym >= xp { ym - xp } else { xp - ym };
    assert(off <= first + second);
    assert(xp <= 2 * am) by (nonlinear_arith)
        requires
            first * s <= am,
            xp <= am + first,
            s >= 1,
            first >= 0,
            am >= 0,
    ;
    assert(off * s <= am + xp) by (nonlinear_arith)
        requires
            off <= first + second,
            first * s <= am,
            second * s <= xp,
            s >= 0,
    ;
    let apart = if y >= a { y - a } else { a - y };
    assert(off == apart * m) by (nonlinear_arith)
        requires
            am == a * m,
            ym == y * m,
            m > 0,
            apart == (if y >= a { y - a } else { a - y }),
            off == (if ym >= am { ym - am } else { am - ym }),
    ;
    assert(apart * CLOSENESS <= a) by (nonlinear_arith)
        requires
            (apart * m) * s <= 3 * (a * m),
            s == 4 * CLOSENESS,
            m > 0,
    ;
}

/// A value that is scaled and scaled back reads as what it was, to within one
/// part in `2^51`, unless it is tiny or overflows on the way.
pub proof fn law_scaled_values_read_back_closely(v: Double, factor: u64)
    requires
        v.finite(),
        v.pattern() >= 2 * HIDDEN,
        0 < factor < INFINITE,
        scaled(v, factor).finite(),
        scaled(v, factor).pattern() > HIDDEN,
        unscaled(scaled(v, factor), factor).finite(),
    ensures
        ({
            let back = unscaled(scaled(v, factor), factor);
            let off = back.units() - v.units();
            let size = if v.units() >= 0 { v.units() } else { -v.units() };
            back.is_negative() == v.is_negative() && (if off >= 0 { off } else { -off }) * CLOSENESS
                <= size
        }),
{
    reveal(Double::product);
    reveal(Double::quotient);
    lemma_word_powers();
    lemma_pow2_pos(1074);
    let h = HIDDEN as nat;
    let (a, m, p) = (magnitude(v.pattern()), magnitude(factor as nat), pow2(1074));
    lemma_magnitude_increases(0, factor as nat);
    let xp = round_ratio(a * m, p);
    let x = magnitude(xp);
    assert(scaled(v, factor) == signed(v.is_negative(), xp));
    assert(scaled(v, factor).pattern() == xp);
    lemma_built_magnitude(0, h);
    assert(h * pow2(0) == h);
    assert(a * m >= h * p) by {
        if a * m < h * p {
            law_rounding_keeps_order(a * m, h * p, p);
            law_exact_ratio_is_kept(h, p);
        }
    }
    lemma_relative_error(a * m, p);
    assert(a >= 2 * h) by {
        lemma_built_magnitude(1, h);
        lemma_pow2_unfold(1);
        assert(h * pow2(1) == 2 * h);
        assert(1 * h + h == 2 * h);
        if v.pattern() > 2 * h {
            lemma_magnitude_increases(2 * h, v.pattern());
        }
    }
    let yp = round_ratio(x * p, m);
    let y = magnitude(yp);
    let back = unscaled(scaled(v, factor), factor);
    assert(xp > 0);
    assert(back == signed(v.is_negative(), yp));
    assert(back.pattern() == yp);
    let first = distance(xp, a * m, p);
    assert(x * p >= h * m) by (nonlinear_arith)
        requires
            first * SIGNIFICAND_END <= a * m,
            x * p + first >= a * m,
            a >= 2 * h,
            SIGNIFICAND_END >= 2,
            first >= 0,
    ;
    lemma_relative_error(x * p, m);
    lemma_back_is_close(a, m, p, x, y);
}

} // verus!
