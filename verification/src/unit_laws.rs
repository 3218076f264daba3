//! What the unit conversions mean: a converted number is the number times the
//! ratio of the units, up to rounding, with its sign and in its order.

use vstd::prelude::*;
use vstd::arithmetic::power2::*;
use vstd::arithmetic::mul::*;
use crate::conditions::{STANDARD_PRESSURE_INHG, STANDARD_TEMPERATURE_F};
use crate::double::{lemma_magnitude_increases, lemma_round_zero, signed, Double};
use crate::effects::{FREEZING_POINT, INCHES_PER_METER, PI, SEA_LEVEL_DENSITY, TYPICAL_CALIBER};
use crate::effects::{TYPICAL_MASS, TYPICAL_MUZZLE_VELOCITY, TYPICAL_VELOCITY};
use crate::montecarlo::{HUNDREDTH, J_TO_FTLBS, M_TO_FEET, M_TO_INCHES, RANK_10, RANK_25, RANK_5};
use crate::montecarlo::{RANK_75, RANK_90, RANK_95, THOUSANDTH};
use crate::nearest::{law_exact_ratio_is_kept, law_rounding_keeps_order, lemma_built_magnitude};
use crate::nearest::{lemma_relative_error, CLOSENESS};
use crate::rounding::{lemma_word_powers, magnitude, round_ratio, HIDDEN, INFINITE};
use crate::rounding::SIGNIFICAND_END;
use crate::sampling::{REACH, SAMPLE_KMH_TO_MPS, TINY};
use crate::units::{scaled, unscaled, DEGREES_TO_RADIANS, FEET_TO_METERS, FIFTY, FIVE, FPS_TO_MPS};
use crate::units::{FTLBS_TO_JOULES, GRAINS_TO_KG, HALF, HUNDRED, INCHES_TO_METERS, INHG_TO_HPA};
use crate::units::{KMH_TO_MPS, MPH_TO_MPS, NINE, ONE, THIRTY_TWO, THOUSAND, TWO, YARDS_TO_METERS};

verus! {

/// The number with the given bits is the ratio, to within one part in `2^52`.
pub open spec fn stands_for(bits: u64, num: nat, den: nat) -> bool {
    let off = magnitude(bits as nat) * den - num * pow2(1074);
    (if off >= 0 { off } else { -off }) * HIDDEN <= num * pow2(1074)
}

/// The result is the value times the ratio, to within one part in `2^51`, and on
/// the same side of zero.
pub open spec fn times(r: Double, v: Double, num: nat, den: nat) -> bool {
    let off = magnitude(r.pattern()) * den - magnitude(v.pattern()) * num;
    &&& r.is_negative() == v.is_negative()
    &&& (if off >= 0 { off } else { -off }) * CLOSENESS <= magnitude(v.pattern()) * num
}

/// A number that is neither tiny nor infinite.
pub open spec fn ordinary(r: Double) -> bool {
    HIDDEN < r.pattern() < INFINITE
}

pub proof fn lemma_stands_for(bits: u64, e: nat, s: nat, t: nat, num: nat, den: nat)
    requires
        1 <= e <= 1074,
        bits as nat / (HIDDEN as nat) == e,
        bits as nat % (HIDDEN as nat) == s - HIDDEN,
        s >= HIDDEN,
        t == pow2((1075 - e) as nat),
        ({
            let off = s * den - num * t;
            (if off >= 0 { off } else { -off }) * HIDDEN <= num * t
        }),
    ensures
        stands_for(bits, num, den),
{
    let p = pow2((e - 1) as nat);
    lemma_pow2_adds((e - 1) as nat, (1075 - e) as nat);
    lemma_pow2_pos((e - 1) as nat);
    let off = s * den - num * t;
    let size = if off >= 0 { off } else { -off };
    let far = magnitude(bits as nat) * den - num * pow2(1074);
    assert(magnitude(bits as nat) == s * p);
    assert(far == off * p) by (nonlinear_arith)
        requires
            far == (s * p) * den - num * (p * t),
            off == s * den - num * t,
    ;
    assert((if far >= 0 { far } else { -far }) == size * p) by (nonlinear_arith)
        requires
            far == off * p,
            p > 0,
            size == (if off >= 0 { off } else { -off }),
    ;
    assert((size * p) * HIDDEN <= num * (p * t)) by (nonlinear_arith)
        requires
            size * HIDDEN <= num * t,
            p > 0,
    ;
}

/// The ranks and the small shares stand for what they are named after.
pub proof fn law_ranks_stand_for_their_shares()
    ensures
        stands_for(RANK_5, 5, 100),
        stands_for(RANK_10, 10, 100),
        stands_for(RANK_25, 25, 100),
        stands_for(HALF, 50, 100),
        stands_for(RANK_75, 75, 100),
        stands_for(RANK_90, 90, 100),
        stands_for(RANK_95, 95, 100),
        stands_for(THOUSANDTH, 1, 1000),
        stands_for(HUNDREDTH, 1, 100),
{
    lemma2_to64();
    lemma2_to64_rest();
    lemma_stands_for(RANK_5, 1018, 0x1999999999999a, 0x200000000000000, 5, 100);
    lemma_stands_for(RANK_10, 1019, 0x1999999999999a, 0x100000000000000, 10, 100);
    lemma_stands_for(RANK_25, 1021, 0x10000000000000, 0x40000000000000, 25, 100);
    lemma_stands_for(HALF, 1022, 0x10000000000000, 0x20000000000000, 50, 100);
    lemma_stands_for(RANK_75, 1022, 0x18000000000000, 0x20000000000000, 75, 100);
    lemma_stands_for(RANK_90, 1022, 0x1ccccccccccccd, 0x20000000000000, 90, 100);
    lemma_stands_for(RANK_95, 1022, 0x1e666666666666, 0x20000000000000, 95, 100);
    lemma_stands_for(THOUSANDTH, 1013, 0x10624dd2f1a9fc, 0x4000000000000000, 1, 1000);
    lemma_stands_for(HUNDREDTH, 1016, 0x147ae147ae147b, 0x800000000000000, 1, 100);
}

/// The typical and standard values, and the factors of their own that some modules
/// convert by, are the decimals that they are given as.
pub proof fn law_typical_values_stand_for_themselves()
    ensures
        stands_for(SAMPLE_KMH_TO_MPS, 2777778, 10000000),
        stands_for(TYPICAL_VELOCITY, 600, 1),
        stands_for(TYPICAL_MUZZLE_VELOCITY, 850, 1),
        stands_for(INCHES_PER_METER, 3937, 100),
        stands_for(PI, 31415926535897932, 10000000000000000),
        stands_for(TYPICAL_CALIBER, 78232, 10000000),
        stands_for(TYPICAL_MASS, 108, 10000),
        stands_for(SEA_LEVEL_DENSITY, 1225, 1000),
        stands_for(FREEZING_POINT, 27315, 100),
        stands_for(STANDARD_TEMPERATURE_F, 59, 1),
        stands_for(STANDARD_PRESSURE_INHG, 2992, 100),
        stands_for(TINY, 1, 10000000000),
{
    lemma2_to64();
    lemma2_to64_rest();
    lemma_stands_for(
        SAMPLE_KMH_TO_MPS,
        1021,
        0x11c71c89a38251,
        0x40000000000000,
        2777778,
        10000000,
    );
    lemma_stands_for(TYPICAL_VELOCITY, 1032, 0x12c00000000000, 0x80000000000, 600, 1);
    lemma_stands_for(TYPICAL_MUZZLE_VELOCITY, 1032, 0x1a900000000000, 0x80000000000, 850, 1);
    lemma_stands_for(INCHES_PER_METER, 1028, 0x13af5c28f5c28f, 0x800000000000, 3937, 100);
    lemma_stands_for(
        PI,
        1024,
        0x1921fb54442d18,
        0x8000000000000,
        31415926535897932,
        10000000000000000,
    );
    lemma_stands_for(TYPICAL_CALIBER, 1016, 0x10059c2133566f, 0x800000000000000, 78232, 10000000);
    lemma_stands_for(TYPICAL_MASS, 1016, 0x161e4f765fd8ae, 0x800000000000000, 108, 10000);
    lemma_stands_for(SEA_LEVEL_DENSITY, 1023, 0x1399999999999a, 0x10000000000000, 1225, 1000);
    lemma_stands_for(FREEZING_POINT, 1031, 0x11126666666666, 0x100000000000, 27315, 100);
    lemma_stands_for(STANDARD_TEMPERATURE_F, 1028, 0x1d800000000000, 0x800000000000, 59, 1);
    lemma_stands_for(STANDARD_PRESSURE_INHG, 1027, 0x1deb851eb851ec, 0x1000000000000, 2992, 100);
    lemma_pow2_adds(43, 43);
    assert(0x80000000000nat * 0x80000000000nat == 0x4000000000000000000000) by (nonlinear_arith);
    lemma_stands_for(TINY, 989, 0x1b7cdfd9d7bdbb, 0x4000000000000000000000, 1, 10000000000);
}

/// The conversion factors stand for the units they are named after.
pub proof fn law_factors_stand_for_their_units()
    ensures
        stands_for(GRAINS_TO_KG, 6479891, 100000000000),
        stands_for(FPS_TO_MPS, 3048, 10000),
        stands_for(FEET_TO_METERS, 3048, 10000),
        stands_for(YARDS_TO_METERS, 9144, 10000),
        stands_for(INCHES_TO_METERS, 254, 10000),
        stands_for(MPH_TO_MPS, 44704, 100000),
        stands_for(KMH_TO_MPS, 1000, 3600),
        stands_for(DEGREES_TO_RADIANS, 31415926535897932, 1800000000000000000),
        stands_for(INHG_TO_HPA, 338639, 10000),
        stands_for(FTLBS_TO_JOULES, 135582, 100000),
        stands_for(HUNDRED, 100, 1),
        stands_for(M_TO_INCHES, 393701, 10000),
        stands_for(M_TO_FEET, 328084, 100000),
        stands_for(J_TO_FTLBS, 737562, 1000000),
        stands_for(REACH, 999, 1000),
{
    lemma2_to64();
    lemma2_to64_rest();
    lemma_pow2_adds(64, 2);
    lemma_stands_for(
        GRAINS_TO_KG,
        1009,
        0x10fc94cc0c80ea,
        0x40000000000000000,
        6479891,
        100000000000,
    );
    lemma_stands_for(FPS_TO_MPS, 1021, 0x1381d7dbf487fd, 0x40000000000000, 3048, 10000);
    lemma_stands_for(FEET_TO_METERS, 1021, 0x1381d7dbf487fd, 0x40000000000000, 3048, 10000);
    lemma_stands_for(YARDS_TO_METERS, 1022, 0x1d42c3c9eecbfb, 0x20000000000000, 9144, 10000);
    lemma_stands_for(INCHES_TO_METERS, 1017, 0x1a027525460aa6, 0x400000000000000, 254, 10000);
    lemma_stands_for(MPH_TO_MPS, 1021, 0x1c9c4da9003eea, 0x40000000000000, 44704, 100000);
    lemma_stands_for(KMH_TO_MPS, 1021, 0x11c71c71c71c72, 0x40000000000000, 1000, 3600);
    lemma_stands_for(
        DEGREES_TO_RADIANS,
        1017,
        0x11df46a2529d39,
        0x400000000000000,
        31415926535897932,
        1800000000000000000,
    );
    lemma_stands_for(INHG_TO_HPA, 1028, 0x10ee94467381d8, 0x800000000000, 338639, 10000);
    lemma_stands_for(FTLBS_TO_JOULES, 1023, 0x15b1704ff4341a, 0x10000000000000, 135582, 100000);
    lemma_stands_for(HUNDRED, 1029, 0x19000000000000, 0x400000000000, 100, 1);
    lemma_stands_for(M_TO_INCHES, 1028, 0x13af5f6fd21ff3, 0x800000000000, 393701, 10000);
    lemma_stands_for(M_TO_FEET, 1024, 0x1a3f290abb44e5, 0x8000000000000, 328084, 100000);
    lemma_stands_for(J_TO_FTLBS, 1022, 0x179a1b9f98b71c, 0x20000000000000, 737562, 1000000);
    lemma_stands_for(REACH, 1022, 0x1ff7ced916872b, 0x20000000000000, 999, 1000);
}

/// The numbers that are written out stand for themselves.
pub proof fn law_small_numbers_stand_for_themselves()
    ensures
        stands_for(HALF, 1, 2),
        stands_for(ONE, 1, 1),
        stands_for(TWO, 2, 1),
        stands_for(FIVE, 5, 1),
        stands_for(NINE, 9, 1),
        stands_for(THIRTY_TWO, 32, 1),
        stands_for(FIFTY, 50, 1),
        stands_for(THOUSAND, 1000, 1),
{
    lemma2_to64();
    lemma2_to64_rest();
    lemma_stands_for(HALF, 1022, 0x10000000000000, 0x20000000000000, 1, 2);
    lemma_stands_for(ONE, 1023, 0x10000000000000, 0x10000000000000, 1, 1);
    lemma_stands_for(TWO, 1024, 0x10000000000000, 0x8000000000000, 2, 1);
    lemma_stands_for(FIVE, 1025, 0x14000000000000, 0x4000000000000, 5, 1);
    lemma_stands_for(NINE, 1026, 0x12000000000000, 0x2000000000000, 9, 1);
    lemma_stands_for(THIRTY_TWO, 1028, 0x10000000000000, 0x800000000000, 32, 1);
    lemma_stands_for(FIFTY, 1028, 0x19000000000000, 0x800000000000, 50, 1);
    lemma_stands_for(THOUSAND, 1032, 0x1f400000000000, 0x80000000000, 1000, 1);
}

/// The exact value of a product of approximations.
proof fn lemma_multiplied(a: nat, f: nat, p: nat, num: nat, den: nat, r: nat)
    requires
        p > 0,
        den > 0,
        ({
            let off = r * p - a * f;
            (if off >= 0 { off } else { -off }) * SIGNIFICAND_END <= a * f
        }),
        ({
            let off = f * den - num * p;
            (if off >= 0 { off } else { -off }) * HIDDEN <= num * p
        }),
    ensures
        ({
            let off = r * den - a * num;
            (if off >= 0 { off } else { -off }) * CLOSENESS <= a * num
        }),
{
    let (x, y) = (r * p - a * f, f * den - num * p);
    let (ax, ay) = (if x >= 0 { x } else { -x }, if y >= 0 { y } else { -y });
    let off = r * den - a * num;
    let size = if off >= 0 { off } else { -off };
    let anp = a * num * p;
    assert(off * p == x * den + a * y) by (nonlinear_arith)
        requires
            off == r * den - a * num,
            x == r * p - a * f,
            y == f * den - num * p,
    ;
    assert(size * p == (if off * p >= 0 { off * p } else { -(off * p) })) by (nonlinear_arith)
        requires
            size == (if off >= 0 { off } else { -off }),
            p > 0,
    ;
    assert((if x * den >= 0 { x * den } else { -(x * den) }) == ax * den) by (nonlinear_arith)
        requires
            ax == (if x >= 0 { x } else { -x }),
            den > 0,
    ;
    assert((if a * y >= 0 { a * y } else { -(a * y) }) == a * ay) by (nonlinear_arith)
        requires
            ay == (if y >= 0 { y } else { -y }),
            a >= 0,
    ;
    assert(size * p <= ax * den + a * ay);
    assert((a * ay) * HIDDEN <= anp) by (nonlinear_arith)
        requires
            ay * HIDDEN <= num * p,
            anp == a * num * p,
            a >= 0,
    ;
    let afd = a * f * den;
    assert(afd <= anp + a * ay) by (nonlinear_arith)
        requires
            afd == a * f * den,
            anp == a * num * p,
            f * den - num * p <= ay,
            a >= 0,
    ;
    assert((ax * den) * SIGNIFICAND_END <= afd) by (nonlinear_arith)
        requires
            ax * SIGNIFICAND_END <= a * f,
            afd == a * f * den,
            den > 0,
    ;
    assert((size * p) * CLOSENESS <= anp);
    assert(size * CLOSENESS <= a * num) by (nonlinear_arith)
        requires
            (size * p) * CLOSENESS <= anp,
            anp == a * num * p,
            p > 0,
    ;
}

/// The exact value of a quotient of approximations.
proof fn lemma_divided(a: nat, f: nat, p: nat, num: nat, den: nat, r: nat)
    requires
        p > 0,
        f > 0,
        num > 0,
        den > 0,
        ({
            let off = r * f - a * p;
            (if off >= 0 { off } else { -off }) * SIGNIFICAND_END <= a * p
        }),
        ({
            let off = f * den - num * p;
            (if off >= 0 { off } else { -off }) * HIDDEN <= num * p
        }),
    ensures
        ({
            let off = r * num - a * den;
            (if off >= 0 { off } else { -off }) * CLOSENESS <= a * den
        }),
{
    let (x, y) = (r * f - a * p, f * den - num * p);
    let (ax, ay) = (if x >= 0 { x } else { -x }, if y >= 0 { y } else { -y });
    let off = r * num - a * den;
    let size = if off >= 0 { off } else { -off };
    let (anp, adf) = (a * num * p, a * den * f);
    assert(off * f == x * num - a * y) by (nonlinear_arith)
        requires
            off == r * num - a * den,
            x == r * f - a * p,
            y == f * den - num * p,
    ;
    assert(size * f == (if off * f >= 0 { off * f } else { -(off * f) })) by (nonlinear_arith)
        requires
            size == (if off >= 0 { off } else { -off }),
            f > 0,
    ;
    assert((if x * num >= 0 { x * num } else { -(x * num) }) == ax * num) by (nonlinear_arith)
        requires
            ax == (if x >= 0 { x } else { -x }),
            num > 0,
    ;
    assert((if a * y >= 0 { a * y } else { -(a * y) }) == a * ay) by (nonlinear_arith)
        requires
            ay == (if y >= 0 { y } else { -y }),
            a >= 0,
    ;
    assert(size * f <= ax * num + a * ay);
    assert((a * ay) * HIDDEN <= anp) by (nonlinear_arith)
        requires
            ay * HIDDEN <= num * p,
            anp == a * num * p,
            a >= 0,
    ;
    assert(anp <= adf + a * ay) by (nonlinear_arith)
        requires
            adf == a * den * f,
            anp == a * num * p,
            num * p - f * den <= ay,
            a >= 0,
    ;
    assert((ax * num) * SIGNIFICAND_END <= anp) by (nonlinear_arith)
        requires
            ax * SIGNIFICAND_END <= a * p,
            anp == a * num * p,
            num > 0,
    ;
    assert((size * f) * CLOSENESS <= adf);
    assert(size * CLOSENESS <= a * den) by (nonlinear_arith)
        requires
            (size * f) * CLOSENESS <= adf,
            adf == a * den * f,
            f > 0,
    ;
}

/// A pattern beyond the tiny ones comes of a ratio that is not tiny.
pub proof fn lemma_not_tiny(num: nat, den: nat)
    requires
        den > 0,
        round_ratio(num, den) > HIDDEN,
    ensures
        num >= HIDDEN * den,
{
    let h = HIDDEN as nat;
    lemma_word_powers();
    assert(magnitude(h) == h) by {
        assert(h / h == 1 && h % h == 0);
        let one = pow2((h / h - 1) as nat);
        assert(one == 1);
        assert((h + h % h) * one == h) by (nonlinear_arith)
            requires
                one == 1,
                h % h == 0,
        ;
    }
    if num < h * den {
        law_rounding_keeps_order(num, h * den, den);
        law_exact_ratio_is_kept(h, den);
    }
}

/// A scaled value is the value times the ratio that the factor stands for.
pub proof fn law_scaled_is_multiplied(v: Double, factor: u64, num: nat, den: nat)
    requires
        v.finite(),
        factor < INFINITE,
        den > 0,
        stands_for(factor, num, den),
        ordinary(scaled(v, factor)),
    ensures
        times(scaled(v, factor), v, num, den),
{
    reveal(Double::product);
    lemma_pow2_pos(1074);
    let (a, f, p) = (magnitude(v.pattern()), magnitude(factor as nat), pow2(1074));
    let pattern = round_ratio(a * f, p);
    assert(scaled(v, factor) == signed(v.is_negative(), pattern));
    assert(scaled(v, factor).pattern() == pattern);
    lemma_not_tiny(a * f, p);
    lemma_relative_error(a * f, p);
    lemma_multiplied(a, f, p, num, den, magnitude(pattern));
}

/// A value scaled back is the value times the inverse of the ratio that the factor
/// stands for.
pub proof fn law_unscaled_is_divided(v: Double, factor: u64, num: nat, den: nat)
    requires
        v.finite(),
        0 < factor < INFINITE,
        num > 0,
        den > 0,
        stands_for(factor, num, den),
        ordinary(unscaled(v, factor)),
    ensures
        times(unscaled(v, factor), v, den, num),
{
    reveal(Double::quotient);
    lemma_pow2_pos(1074);
    let (a, f, p) = (magnitude(v.pattern()), magnitude(factor as nat), pow2(1074));
    assert(magnitude(0) == 0);
    lemma_magnitude_increases(0, factor as nat);
    let pattern = round_ratio(a * p, f);
    assert(unscaled(v, factor) == signed(v.is_negative(), pattern));
    assert(unscaled(v, factor).pattern() == pattern);
    lemma_not_tiny(a * p, f);
    lemma_relative_error(a * p, f);
    lemma_divided(a, f, p, num, den, magnitude(pattern));
}

/// A value of the other sign is scaled, and scaled back, to the same with the other
/// sign; a zero stays one.
pub proof fn law_scaling_mirrors(v: Double, factor: u64)
    requires
        !v.nan(),
        0 < factor < INFINITE,
    ensures
        scaled(v.negated(), factor) == scaled(v, factor).negated(),
        unscaled(v.negated(), factor) == unscaled(v, factor).negated(),
        v.zero() ==> scaled(v, factor) == v && unscaled(v, factor) == v,
        !scaled(v, factor).nan() && !unscaled(v, factor).nan(),
{
    reveal(Double::product);
    reveal(Double::quotient);
    if v.zero() {
        assert(magnitude(0) == 0);
        lemma_pow2_pos(1074);
        lemma_magnitude_increases(0, factor as nat);
        lemma_round_zero(pow2(1074));
        lemma_round_zero(magnitude(factor as nat));
        assert(0 * magnitude(factor as nat) == 0) by (nonlinear_arith);
        assert(0 * pow2(1074) == 0) by (nonlinear_arith);
    }
}

proof fn lemma_signed_order(a: nat, b: nat)
    requires
        a <= b <= INFINITE,
    ensures
        signed(false, a).at_most(signed(false, b)),
        signed(true, b).at_most(signed(true, a)),
        signed(true, a).at_most(signed(false, b)),
        signed(true, b).at_most(signed(false, a)),
{
    assert(magnitude(0) == 0);
    if a < b {
        lemma_magnitude_increases(a, b);
    }
}

/// The order of the patterns is that of the sizes.
proof fn lemma_pattern_order(v: Double, w: Double)
    requires
        v.at_most(w),
    ensures
        !v.is_negative() && !w.is_negative() ==> v.pattern() <= w.pattern(),
        v.is_negative() && w.is_negative() ==> w.pattern() <= v.pattern(),
        !v.is_negative() && w.is_negative() ==> v.pattern() == 0 && w.pattern() == 0,
{
    assert(magnitude(0) == 0);
    if v.pattern() < w.pattern() {
        lemma_magnitude_increases(v.pattern(), w.pattern());
    } else if w.pattern() < v.pattern() {
        lemma_magnitude_increases(w.pattern(), v.pattern());
    }
    if v.pattern() > 0 {
        lemma_magnitude_increases(0, v.pattern());
    }
    if w.pattern() > 0 {
        lemma_magnitude_increases(0, w.pattern());
    }
}

/// The pattern that a size is scaled to.
spec fn scaled_pattern(pattern: nat, factor: u64) -> nat {
    if pattern == INFINITE {
        INFINITE as nat
    } else {
        round_ratio(magnitude(pattern) * magnitude(factor as nat), pow2(1074))
    }
}

spec fn unscaled_pattern(pattern: nat, factor: u64) -> nat {
    if pattern == INFINITE {
        INFINITE as nat
    } else {
        round_ratio(magnitude(pattern) * pow2(1074), magnitude(factor as nat))
    }
}

proof fn lemma_pattern_scaling(a: nat, b: nat, factor: u64)
    requires
        a <= b <= INFINITE,
        0 < factor < INFINITE,
    ensures
        scaled_pattern(a, factor) <= scaled_pattern(b, factor) <= INFINITE,
        unscaled_pattern(a, factor) <= unscaled_pattern(b, factor) <= INFINITE,
{
    lemma_pow2_pos(1074);
    assert(magnitude(0) == 0);
    lemma_magnitude_increases(0, factor as nat);
    let (f, p) = (magnitude(factor as nat), pow2(1074));
    if a < b {
        lemma_magnitude_increases(a, b);
    }
    if b < INFINITE {
        lemma_mul_inequality(magnitude(a) as int, magnitude(b) as int, f as int);
        lemma_mul_inequality(magnitude(a) as int, magnitude(b) as int, p as int);
        law_rounding_keeps_order(magnitude(a) * f, magnitude(b) * f, p);
        law_rounding_keeps_order(magnitude(a) * p, magnitude(b) * p, f);
    }
}

proof fn lemma_scaled_pattern(v: Double, factor: u64)
    requires
        !v.nan(),
        0 < factor < INFINITE,
    ensures
        scaled(v, factor) == signed(v.is_negative(), scaled_pattern(v.pattern(), factor)),
        unscaled(v, factor) == signed(v.is_negative(), unscaled_pattern(v.pattern(), factor)),
{
    reveal(Double::product);
    reveal(Double::quotient);
}

/// Scaling, and scaling back, keep the order of the values.
pub proof fn law_scaling_keeps_order(v: Double, w: Double, factor: u64)
    requires
        v.at_most(w),
        0 < factor < INFINITE,
    ensures
        scaled(v, factor).at_most(scaled(w, factor)),
        unscaled(v, factor).at_most(unscaled(w, factor)),
{
    lemma_pattern_order(v, w);
    lemma_scaled_pattern(v, factor);
    lemma_scaled_pattern(w, factor);
    let (a, b) = (v.pattern(), w.pattern());
    if a <= b {
        lemma_pattern_scaling(a, b, factor);
        lemma_signed_order(scaled_pattern(a, factor), scaled_pattern(b, factor));
        lemma_signed_order(unscaled_pattern(a, factor), unscaled_pattern(b, factor));
    }
    if b <= a {
        lemma_pattern_scaling(b, a, factor);
        lemma_signed_order(scaled_pattern(b, factor), scaled_pattern(a, factor));
        lemma_signed_order(unscaled_pattern(b, factor), unscaled_pattern(a, factor));
    }
    if !v.is_negative() && w.is_negative() {
        law_scaling_mirrors(v, factor);
        law_scaling_mirrors(w, factor);
        assert(magnitude(0) == 0);
    }
}

/// The value times the ratio is not near the tiny numbers, nor near the greatest.
pub open spec fn in_range(v: Double, num: nat, den: nat) -> bool {
    let exact = magnitude(v.pattern()) * num;
    &&& 4 * (HIDDEN * den) <= exact
    &&& 2 * exact <= magnitude((INFINITE - 1) as nat) * den
}

/// The result measures the value in other units: it is the value times the ratio of
/// the units wherever it is neither tiny nor infinite, which it is not if that is in
/// range, it is on the same side of zero, and zeros, infinities and NaNs stay what they
/// are.
pub open spec fn measures(r: Double, v: Double, num: nat, den: nat) -> bool {
    &&& v.finite() && ordinary(r) ==> times(r, v, num, den)
    &&& v.finite() && in_range(v, num, den) ==> ordinary(r)
    &&& !v.nan() ==> !r.nan() && r.is_negative() == v.is_negative()
    &&& v.zero() ==> r == v
    &&& v.infinite() ==> r == v
    &&& v.nan() ==> r.nan()
}

/// A ratio that is neither tiny nor too great is rounded to an ordinary number.
pub proof fn lemma_ordinary_ratio(x: nat, y: nat)
    requires
        y > 0,
        2 * HIDDEN * y <= x,
        x <= magnitude((INFINITE - 1) as nat) * y,
    ensures
        HIDDEN < round_ratio(x, y) < INFINITE,
{
    let (h, g) = (HIDDEN as nat, (INFINITE - 1) as nat);
    lemma_word_powers();
    lemma_built_magnitude(1, h);
    assert(1 * h + h == 2 * h);
    assert(magnitude(2 * h) == 2 * h);
    law_exact_ratio_is_kept(2 * h, y);
    law_exact_ratio_is_kept(g, y);
    law_rounding_keeps_order(2 * h * y, x, y);
    law_rounding_keeps_order(x, magnitude(g) * y, y);
}

/// What a factor stands for is within twice of it.
proof fn lemma_within_twice(f: nat, num: nat, den: nat, p: nat)
    requires
        ({
            let off = f * den - num * p;
            (if off >= 0 { off } else { -off }) * HIDDEN <= num * p
        }),
    ensures
        f * den <= 2 * (num * p),
        num * p <= 2 * (f * den),
{
    let off = f * den - num * p;
    let size = if off >= 0 { off } else { -off };
    assert(2 * size <= num * p) by (nonlinear_arith)
        requires
            size * HIDDEN <= num * p,
            HIDDEN >= 2,
            size >= 0,
    ;
}

proof fn lemma_scaled_in_range(v: Double, factor: u64, num: nat, den: nat)
    requires
        v.finite(),
        factor < INFINITE,
        den > 0,
        stands_for(factor, num, den),
        in_range(v, num, den),
    ensures
        ordinary(scaled(v, factor)),
{
    reveal(Double::product);
    lemma_pow2_pos(1074);
    let (a, f, p) = (magnitude(v.pattern()), magnitude(factor as nat), pow2(1074));
    let g = magnitude((INFINITE - 1) as nat);
    let h = HIDDEN as nat;
    lemma_within_twice(f, num, den, p);
    assert(2 * h * p <= a * f) by (nonlinear_arith)
        requires
            4 * (h * den) <= a * num,
            num * p <= 2 * (f * den),
            den > 0,
            p > 0,
    {
        assert(4 * (h * den) * p <= a * num * p);
        assert(a * (num * p) <= a * (2 * (f * den)));
        assert(a * num * p == a * (num * p));
        assert(4 * (h * den) * p == 2 * (2 * h * p) * den);
        assert(a * (2 * (f * den)) == 2 * (a * f) * den);
        assert((2 * h * p) * den <= (a * f) * den);
    }
    assert(a * f <= g * p) by (nonlinear_arith)
        requires
            2 * (a * num) <= g * den,
            f * den <= 2 * (num * p),
            den > 0,
            p > 0,
    {
        assert(a * (f * den) <= a * (2 * (num * p)));
        assert(a * (2 * (num * p)) == 2 * (a * num) * p);
        assert(2 * (a * num) * p <= g * den * p);
        assert(g * den * p == (g * p) * den);
        assert(a * (f * den) == (a * f) * den);
    }
    lemma_ordinary_ratio(a * f, p);
    assert(scaled(v, factor) == signed(v.is_negative(), round_ratio(a * f, p)));
}

proof fn lemma_unscaled_in_range(v: Double, factor: u64, num: nat, den: nat)
    requires
        v.finite(),
        0 < factor < INFINITE,
        num > 0,
        den > 0,
        stands_for(factor, num, den),
        in_range(v, den, num),
    ensures
        ordinary(unscaled(v, factor)),
{
    reveal(Double::quotient);
    lemma_pow2_pos(1074);
    let (a, f, p) = (magnitude(v.pattern()), magnitude(factor as nat), pow2(1074));
    let g = magnitude((INFINITE - 1) as nat);
    let h = HIDDEN as nat;
    assert(magnitude(0) == 0);
    lemma_magnitude_increases(0, factor as nat);
    lemma_within_twice(f, num, den, p);
    assert(2 * h * f <= a * p) by (nonlinear_arith)
        requires
            4 * (h * num) <= a * den,
            f * den <= 2 * (num * p),
            den > 0,
            p > 0,
    {
        assert(2 * h * (f * den) <= 2 * h * (2 * (num * p)));
        assert(2 * h * (2 * (num * p)) == 4 * (h * num) * p);
        assert(4 * (h * num) * p <= a * den * p);
        assert(a * den * p == (a * p) * den);
        assert(2 * h * (f * den) == (2 * h * f) * den);
    }
    assert(a * p <= g * f) by (nonlinear_arith)
        requires
            2 * (a * den) <= g * num,
            num * p <= 2 * (f * den),
            den > 0,
            p > 0,
    {
        assert(2 * (a * den) * p <= g * num * p);
        assert(g * num * p == g * (num * p));
        assert(g * (num * p) <= g * (2 * (f * den)));
        assert(g * (2 * (f * den)) == 2 * (g * f) * den);
        assert(2 * (a * den) * p == 2 * (a * p) * den);
        assert((a * p) * den <= (g * f) * den);
    }
    lemma_ordinary_ratio(a * p, f);
    assert(unscaled(v, factor) == signed(v.is_negative(), round_ratio(a * p, f)));
}

/// A scaled value measures the value in the units that the factor stands for.
pub proof fn law_scaled_measures(v: Double, factor: u64, num: nat, den: nat)
    requires
        0 < factor < INFINITE,
        num > 0,
        den > 0,
        stands_for(factor, num, den),
    ensures
        measures(scaled(v, factor), v, num, den),
        measures(unscaled(v, factor), v, den, num),
{
    if v.nan() {
        reveal(Double::product);
        reveal(Double::quotient);
    } else {
        law_scaling_mirrors(v, factor);
        lemma_scaled_pattern(v, factor);
        lemma_pattern_scaling(v.pattern(), v.pattern(), factor);
        if v.finite() && in_range(v, num, den) {
            lemma_scaled_in_range(v, factor, num, den);
        }
        if v.finite() && in_range(v, den, num) {
            lemma_unscaled_in_range(v, factor, num, den);
        }
        if v.finite() && ordinary(scaled(v, factor)) {
            law_scaled_is_multiplied(v, factor, num, den);
        }
        if v.finite() && ordinary(unscaled(v, factor)) {
            law_unscaled_is_divided(v, factor, num, den);
        }
    }
}

} // verus!
