//! The law that ties the two conversions to SI units.

use vstd::prelude::*;
use vstd::arithmetic::power2::*;
use vstd::arithmetic::div_mod::*;
use crate::double::{lemma_magnitude_increases, lemma_round_zero, signed, Double};
use crate::inputs::{si, BallisticInputs};
use crate::nearest::{distance, law_exact_ratio_is_kept, law_rounding_keeps_order};
use crate::nearest::{law_rounds_to_nearest, lemma_relative_error};
use crate::rounding::{lemma_word_powers, magnitude, round_ratio, HIDDEN, SIGNIFICAND_END};
use crate::sampling::{sample_si, SAMPLE_KMH_TO_MPS};
use crate::units::{constant, scaled, KMH_TO_MPS, ZERO};

verus! {

/// How far two finite numbers are apart, in units of `2^-1074`.
pub open spec fn apart(a: Double, b: Double) -> int {
    if a.units() >= b.units() {
        a.units() - b.units()
    } else {
        b.units() - a.units()
    }
}

/// The size of a finite number, in units of `2^-1074`.
pub open spec fn size(a: Double) -> int {
    magnitude(a.pattern()) as int
}

/// A significand of a factor.
const SAMPLE_SIGNIFICAND: u64 = 0x0011_c71c_89a3_8251;

/// A significand of a factor.
const SIGNIFICAND: u64 = 0x0011_c71c_71c7_1c72;

proof fn lemma_factors()
    ensures
        magnitude(SAMPLE_KMH_TO_MPS as nat) == SAMPLE_SIGNIFICAND * pow2(1020),
        magnitude(KMH_TO_MPS as nat) == SIGNIFICAND * pow2(1020),
        pow2(1074) == pow2(1020) * 0x40_0000_0000_0000,
        pow2(1020) > 0,
{
    lemma_word_powers();
    let h = HIDDEN as nat;
    assert(SAMPLE_KMH_TO_MPS as nat / h == 1021);
    assert(SAMPLE_KMH_TO_MPS as nat % h == SAMPLE_SIGNIFICAND - h);
    assert(KMH_TO_MPS as nat / h == 1021);
    assert(KMH_TO_MPS as nat % h == SIGNIFICAND - h);
    lemma_pow2_adds(1020, 54);
    lemma_pow2_adds(1, 53);
    lemma_pow2_pos(1020);
}

/// The finest numbers are one unit apart.
proof fn lemma_finest(pattern: nat)
    requires
        pattern < SIGNIFICAND_END,
    ensures
        magnitude(pattern) == pattern,
{
    lemma_word_powers();
    let h = HIDDEN as nat;
    if pattern >= h {
        assert(pattern / h == 1);
        assert(pattern % h == pattern - h);
        let one = pow2((pattern / h - 1) as nat);
        assert(one == 1);
        assert((h + pattern % h) * one == pattern) by (nonlinear_arith)
            requires
                one == 1,
                pattern % h == pattern - h,
        ;
    }
}

/// Within the finest numbers a ratio rounds to within half a unit.
proof fn lemma_half_a_unit(num: nat, den: nat)
    requires
        den > 0,
        num < (SIGNIFICAND_END - 1) * den,
    ensures
        2 * distance(round_ratio(num, den), num, den) <= den,
{
    let whole = num / den;
    let rest = num % den;
    lemma_fundamental_div_mod(num as int, den as int);
    lemma_mod_bound(num as int, den as int);
    assert(whole * den == den * whole) by (nonlinear_arith);
    assert((whole + 1) * den == whole * den + den) by (nonlinear_arith);
    assert(whole < SIGNIFICAND_END - 1) by (nonlinear_arith)
        requires
            whole * den <= num,
            num < (SIGNIFICAND_END - 1) * den,
            den > 0,
    ;
    lemma_finest(whole);
    lemma_finest(whole + 1);
    law_rounds_to_nearest(num, den, whole);
    law_rounds_to_nearest(num, den, whole + 1);
}

/// Two ratios that differ by less than a ten-millionth round to patterns whose
/// magnitudes differ by less than a millionth, or by one unit.
proof fn lemma_close(x: nat, y: nat, m: nat, n: nat, den: nat, u: nat, v: nat)
    requires
        den > 0,
        n <= m,
        (m - n) * 10_000_000 <= n,
        x == u * den,
        y == v * den,
        ({
            let (e, f) = (
                if x >= m { x - m } else { m - x },
                if y >= n { y - n } else { n - y },
            );
            (e * SIGNIFICAND_END <= m && f * SIGNIFICAND_END <= n) || (2 * e <= den && 2 * f
                <= den)
        }),
        v < 1_000_000 ==> 2 * (if x >= m { x - m } else { m - x }) <= den && 2 * (if y >= n {
            y - n
        } else {
            n - y
        }) <= den,
    ensures
        v >= 1_000_000 ==> (if u >= v { u - v } else { v - u }) * 1_000_000 <= v,
        v < 1_000_000 ==> (if u >= v { u - v } else { v - u }) <= 1,
{
    let off = if u >= v { u - v } else { v - u };
    let far = if x >= y { x - y } else { y - x };
    assert(far == off * den) by (nonlinear_arith)
        requires
            x == u * den,
            y == v * den,
            den > 0,
            far == (if x >= y { x - y } else { y - x }),
            off == (if u >= v { u - v } else { v - u }),
    ;
    if v >= 1_200_000 {
        assert(1_200_000 * den <= y) by (nonlinear_arith)
            requires
                y == v * den,
                v >= 1_200_000,
        ;
        assert(far * 1_000_000 <= y);
        assert(off * 1_000_000 <= v) by (nonlinear_arith)
            requires
                (off * den) * 1_000_000 <= v * den,
                den > 0,
        ;
    } else {
        assert(y <= 1_200_000 * den) by (nonlinear_arith)
            requires
                y == v * den,
                v < 1_200_000,
                den > 0,
        ;
        assert(far < 2 * den);
        assert(off <= 1) by (nonlinear_arith)
            requires
                off * den < 2 * den,
                den > 0,
        ;
    }
}

proof fn lemma_scaled_wind(w: Double)
    requires
        w.finite(),
        !w.zero(),
    ensures
        ({
            let (s, t) = (scaled(w, SAMPLE_KMH_TO_MPS), scaled(w, KMH_TO_MPS));
            &&& s.is_negative() == w.is_negative() && t.is_negative() == w.is_negative()
            &&& s.finite() && t.finite()
            &&& size(t) >= 1_000_000 ==> apart(s, t) * 1_000_000 <= size(t)
            &&& size(t) < 1_000_000 ==> apart(s, t) <= 1
        }),
{
    reveal(Double::product);
    lemma_factors();
    lemma_word_powers();
    lemma_pow2_pos(1074);
    let (a, p, den) = (magnitude(w.pattern()), pow2(1020), pow2(1074));
    let (k, l) = (SAMPLE_SIGNIFICAND as nat, SIGNIFICAND as nat);
    let (m, n) = (a * (k * p), a * (l * p));
    let (s, t) = (scaled(w, SAMPLE_KMH_TO_MPS), scaled(w, KMH_TO_MPS));
    let (q, r) = (round_ratio(m, den), round_ratio(n, den));
    assert(magnitude(0) == 0);
    lemma_magnitude_increases(0, w.pattern());
    let ap = a * p;
    assert(m == k * ap && n == l * ap && a * den == 0x40_0000_0000_0000 * ap) by (nonlinear_arith)
        requires
            m == a * (k * p),
            n == a * (l * p),
            ap == a * p,
            den == p * 0x40_0000_0000_0000,
    ;
    assert(ap >= 0);
    assert(n <= m <= a * den);
    assert((m - n) * 10_000_000 <= n);
    law_rounding_keeps_order(m, a * den, den);
    law_rounding_keeps_order(n, a * den, den);
    law_exact_ratio_is_kept(w.pattern(), den);
    assert(s == signed(w.is_negative(), q));
    assert(t == signed(w.is_negative(), r));
    assert(s.pattern() == q && t.pattern() == r);
    let (u, v) = (magnitude(q), magnitude(r));
    let h = HIDDEN as nat;
    if n >= h * den {
        lemma_relative_error(m, den);
        lemma_relative_error(n, den);
        law_rounding_keeps_order(h * den, n, den);
        lemma_finest(h);
        law_exact_ratio_is_kept(h, den);
        if r > h {
            lemma_magnitude_increases(h, r);
        }
    } else {
        assert(m < (SIGNIFICAND_END - 1) * den) by (nonlinear_arith)
            requires
                (m - n) * 10_000_000 <= n,
                n < h * den,
                h == HIDDEN,
                den > 0,
        ;
        lemma_half_a_unit(m, den);
        lemma_half_a_unit(n, den);
    }
    lemma_close(u * den, v * den, m, n, den, u, v);
}

/// The conversion for a sample agrees with the full one: the heights are zero,
/// every other quantity is the same, and the wind speeds differ by at most one
/// part in a million, or by one unit if they are below a million units.
pub proof fn law_sample_and_full_conversion_agree(b: BallisticInputs)
    ensures
        sample_si(b).sight_height == constant(ZERO),
        sample_si(b).muzzle_height == constant(ZERO),
        sample_si(b).target_height == constant(ZERO),
        sample_si(b).target_distance == si(b).target_distance,
        sample_si(b).muzzle_velocity == si(b).muzzle_velocity,
        sample_si(b).altitude == si(b).altitude,
        sample_si(b).wind_angle == si(b).wind_angle,
        sample_si(b).muzzle_angle == si(b).muzzle_angle,
        sample_si(b).humidity == si(b).humidity,
        sample_si(b).bullet_mass == si(b).bullet_mass,
        sample_si(b).bullet_diameter == si(b).bullet_diameter,
        sample_si(b).bullet_length == si(b).bullet_length,
        sample_si(b).caliber_inches == si(b).caliber_inches,
        sample_si(b).weight_grains == si(b).weight_grains,
        sample_si(b).shooting_angle == si(b).shooting_angle,
        sample_si(b).temperature == si(b).temperature,
        sample_si(b).pressure == si(b).pressure,
        sample_si(b).twist_rate == si(b).twist_rate,
        !b.wind_speed.finite() || b.wind_speed.zero() ==> sample_si(b).wind_speed == si(
            b,
        ).wind_speed,
        b.wind_speed.finite() && size(si(b).wind_speed) >= 1_000_000 ==> apart(
            sample_si(b).wind_speed,
            si(b).wind_speed,
        ) * 1_000_000 <= size(si(b).wind_speed),
        b.wind_speed.finite() && size(si(b).wind_speed) < 1_000_000 ==> apart(
            sample_si(b).wind_speed,
            si(b).wind_speed,
        ) <= 1,
{
    let w = b.wind_speed;
    let (s, t) = (scaled(w, SAMPLE_KMH_TO_MPS), scaled(w, KMH_TO_MPS));
    if w.finite() && !w.zero() {
        lemma_scaled_wind(w);
    } else {
        assert(s == t) by {
            reveal(Double::product);
            lemma_pow2_pos(1074);
            lemma_round_zero(pow2(1074));
            assert(magnitude(0) == 0);
            assert(0 * magnitude(SAMPLE_KMH_TO_MPS as nat) == 0) by (nonlinear_arith);
            assert(0 * magnitude(KMH_TO_MPS as nat) == 0) by (nonlinear_arith);
        }
    }
}

} // verus!
