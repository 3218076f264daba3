//! Rounding of exact magnitudes to binary64.
//!
//! Every finite binary64 magnitude is a whole multiple of `2^-1074`, so exact
//! values are natural numbers counted in that unit, and the result of an
//! operation is a ratio of two of them.  The pattern of a magnitude is its bit
//! pattern without the sign bit.

use vstd::prelude::*;
use vstd::arithmetic::power2::*;
use vstd::arithmetic::div_mod::*;
use vstd::arithmetic::mul::*;

verus! {

/// `2^52`, the weight of the hidden bit.
pub const HIDDEN: u64 = 0x0010_0000_0000_0000;

/// `2^53`, the first integer that a 53-bit significand cannot hold.
pub const SIGNIFICAND_END: u64 = 0x0020_0000_0000_0000;

/// The pattern of an infinite magnitude.
pub const INFINITE: u64 = 0x7ff0_0000_0000_0000;

/// The exact magnitude of a pattern, in units of `2^-1074`.  An infinite
/// pattern is given the value `2^1024`, just above every finite one.
pub open spec fn magnitude(pattern: nat) -> nat {
    let exponent = pattern / (HIDDEN as nat);
    let fraction = pattern % (HIDDEN as nat);
    if exponent == 0 {
        fraction
    } else {
        (HIDDEN as nat + fraction) * pow2((exponent - 1) as nat)
    }
}

/// How many low bits of the integer part `whole` lie below a 53-bit significand.
pub open spec fn excess_bits(whole: nat) -> nat
    decreases whole,
{
    if whole < SIGNIFICAND_END as nat {
        0
    } else {
        1 + excess_bits(whole / 2)
    }
}

/// The pattern nearest to the ratio `num / den`, a tie going to the even
/// significand and whatever lies beyond the largest finite magnitude to the
/// infinite pattern.
pub open spec fn round_ratio(num: nat, den: nat) -> nat {
    let excess = excess_bits(num / den);
    let unit = den * pow2(excess);
    let kept = num / unit;
    let rest = num % unit;
    let up = 2 * rest > unit || (2 * rest == unit && kept % 2 == 1);
    let pattern = excess * (HIDDEN as nat) + kept + if up { 1nat } else { 0nat };
    if pattern < INFINITE as nat {
        pattern
    } else {
        INFINITE as nat
    }
}

/// The powers of two that fit a machine word have the literals' values.
pub proof fn lemma_word_powers()
    ensures
        pow2(0) == 1,
        pow2(1) == 2,
        pow2(52) == HIDDEN,
        pow2(53) == SIGNIFICAND_END,
        pow2(64) == 0x1_0000_0000_0000_0000,
        pow2(127) == 0x8000_0000_0000_0000_0000_0000_0000_0000u128,
{
    lemma2_to64();
    lemma2_to64_rest();
    lemma_pow2_adds(63, 64);
    assert(0x8000_0000_0000_0000int * 0x1_0000_0000_0000_0000int
        == 0x8000_0000_0000_0000_0000_0000_0000_0000int) by (nonlinear_arith);
}

/// A larger exponent gives a power at least as large.
pub proof fn lemma_pow2_monotone(a: nat, b: nat)
    requires
        a <= b,
    ensures
        pow2(a) <= pow2(b),
{
    if a < b {
        lemma_pow2_strictly_increases(a, b);
    }
}

/// `excess_bits` of a number of `length` bits.
pub proof fn lemma_excess_bits(whole: nat, length: nat)
    requires
        whole < pow2(length),
        length > 53 ==> whole >= pow2((length - 1) as nat),
    ensures
        excess_bits(whole) == if length > 53 { (length - 53) as nat } else { 0 },
    decreases length,
{
    lemma_word_powers();
    if length <= 53 {
        lemma_pow2_monotone(length, 53);
    } else {
        lemma_pow2_monotone(53, (length - 1) as nat);
        lemma_pow2_unfold(length);
        if length - 1 > 53 {
            lemma_pow2_unfold((length - 1) as nat);
        }
        lemma_excess_bits(whole / 2, (length - 1) as nat);
    }
}

/// `2^d` for `d` below 128.
pub fn power_of_two(d: u32) -> (p: u128)
    requires
        d <= 127,
    ensures
        p == pow2(d as nat),
{
    let top: u128 = 0x8000_0000_0000_0000_0000_0000_0000_0000;
    let by: u128 = (127 - d) as u128;
    proof {
        lemma_word_powers();
        vstd::bits::lemma_u128_shr_is_div(top, by);
        lemma_pow2_adds(d as nat, by as nat);
        lemma_pow2_pos(by as nat);
        lemma_div_multiples_vanish(pow2(d as nat) as int, pow2(by as nat) as int);
        lemma_mul_is_commutative(pow2(d as nat) as int, pow2(by as nat) as int);
    }
    top >> by
}

/// The number of significant bits of `m`.
pub fn bit_length(m: u128) -> (n: u32)
    requires
        m > 0,
    ensures
        1 <= n <= 128,
        m < pow2(n as nat),
        m >= pow2((n - 1) as nat),
{
    let mut rest: u128 = m;
    let mut n: u32 = 0;
    proof {
        lemma_word_powers();
    }
    while rest > 0
        invariant
            n <= 128,
            rest == m as nat / pow2(n as nat),
            n > 0 ==> m >= pow2((n - 1) as nat),
            n == 0 ==> rest > 0,
            n < 128 || rest == 0,
        decreases rest,
    {
        proof {
            let p = pow2(n as nat);
            lemma_pow2_pos(n as nat);
            lemma_pow2_unfold((n + 1) as nat);
            lemma_div_denominator(m as int, p as int, 2);
            lemma_fundamental_div_mod(m as int, p as int);
            assert(m >= p) by (nonlinear_arith)
                requires
                    m as int == p * rest + (m as int) % (p as int),
                    rest >= 1,
                    (m as int) % (p as int) >= 0,
                    p > 0,
            ;
            lemma_mul_is_commutative(p as int, 2);
            if n == 127 {
                lemma_word_powers();
                lemma_pow2_unfold(128);
                lemma_basic_div(m as int, pow2(128) as int);
            }
        }
        rest = rest / 2;
        n = n + 1;
    }
    proof {
        lemma_pow2_pos(n as nat);
        lemma_fundamental_div_mod(m as int, pow2(n as nat) as int);
        lemma_mul_basics(pow2(n as nat) as int);
    }
    n
}

/// Dividing by a grain `g` first loses nothing for a later division by `g * q`.
proof fn lemma_grain(num: nat, m: nat, g: nat, q: nat)
    requires
        g > 0,
        q > 0,
        m * g <= num < (m + 1) * g,
    ensures
        num / (g * q) == m / q,
        num % (g * q) == (m % q) * g + (num - m * g),
{
    let f = (num - m * g) as nat;
    lemma_mul_is_distributive_add_other_way(g as int, m as int, 1);
    assert(f < g);
    let k = m / q;
    let h = m % q;
    lemma_fundamental_div_mod(m as int, q as int);
    assert(m == q * k + h);
    assert(num == k * (g * q) + (h * g + f)) by (nonlinear_arith)
        requires
            m == q * k + h,
            num == m * g + f,
    ;
    assert(h * g + f < g * q) by (nonlinear_arith)
        requires
            h + 1 <= q,
            f < g,
    ;
    lemma_mul_nonnegative(h as int, g as int);
    lemma_mul_strictly_positive(g as int, q as int);
    lemma_fundamental_div_mod_converse(num as int, (g * q) as int, k as int, (h * g + f) as int);
}

/// What a rounding step of `drop >= 1` bits finds out about the exact ratio.
proof fn lemma_round_step(num: nat, m: nat, g: nat, drop: nat)
    requires
        g > 0,
        drop >= 1,
        m * g <= num < (m + 1) * g,
    ensures
        ({
            let q = pow2(drop);
            let unit = g * q;
            let h = m % q;
            let rest = num % unit;
            &&& q > 0
            &&& q % 2 == 0
            &&& unit > 0
            &&& num / unit == m / q
            &&& (2 * rest > unit <==> 2 * h > q || (2 * h == q && num != m * g))
            &&& (2 * rest == unit <==> 2 * h == q && num == m * g)
        }),
{
    let q = pow2(drop);
    let unit = g * q;
    let h = m % q;
    let f = (num - m * g) as nat;
    lemma_pow2_pos(drop);
    lemma_pow2_unfold(drop);
    lemma_mul_strictly_positive(g as int, q as int);
    lemma_grain(num, m, g, q);
    lemma_mul_is_distributive_add_other_way(g as int, m as int, 1);
    let rest = h * g + f;
    if 2 * h > q {
        assert(2 * rest > unit) by (nonlinear_arith)
            requires
                2 * h >= q + 1,
                rest == h * g + f,
                unit == g * q,
                g > 0,
                f >= 0,
        ;
    } else if 2 * h == q {
        assert(2 * rest == unit + 2 * f) by (nonlinear_arith)
            requires
                2 * h == q,
                rest == h * g + f,
                unit == g * q,
        ;
    } else {
        assert(2 * h + 2 <= q);
        assert(2 * rest < unit) by (nonlinear_arith)
            requires
                2 * h + 2 <= q,
                rest == h * g + f,
                unit == g * q,
                f < g,
        ;
    }
}

/// The excess of a ratio that lies in the grain number `m`, a grain being
/// `2^x` units.
proof fn lemma_excess_of_grain(num: nat, den: nat, m: nat, g: nat, x: int, length: nat)
    requires
        g > 0,
        den > 0,
        m > 0,
        length >= 1,
        m * g <= num < (m + 1) * g,
        m < pow2(length),
        m >= pow2((length - 1) as nat),
        x >= 0 ==> g == den * pow2(x as nat),
        x < 0 ==> den == g * pow2((-x) as nat),
    ensures
        excess_bits(num / den) == if length + x > 53 { (length + x - 53) as nat } else { 0 },
{
    let whole = num / den;
    if x >= 0 {
        let q = pow2(x as nat);
        lemma_pow2_pos(x as nat);
        let low = (num - m * g) as nat;
        lemma_mul_is_distributive_add_other_way(g as int, m as int, 1);
        assert(m * g == (m * q) * den && (m + 1) * g == ((m + 1) * q) * den) by (nonlinear_arith)
            requires
                g == den * q,
        ;
        lemma_fundamental_div_mod(num as int, den as int);
        assert(whole >= m * q) by (nonlinear_arith)
            requires
                num == den * whole + num % den,
                num % den < den,
                num >= (m * q) * den,
                den > 0,
        ;
        assert(whole < (m + 1) * q) by (nonlinear_arith)
            requires
                num == den * whole + num % den,
                num % den >= 0,
                num < ((m + 1) * q) * den,
                den > 0,
        ;
        lemma_pow2_adds(length, x as nat);
        lemma_pow2_adds((length - 1) as nat, x as nat);
        assert((m + 1) * q <= pow2(length) * q) by (nonlinear_arith)
            requires
                m + 1 <= pow2(length),
        ;
        assert(m * q >= pow2((length - 1) as nat) * q) by (nonlinear_arith)
            requires
                m >= pow2((length - 1) as nat),
        ;
        assert((length + x) as nat == length + x as nat);
        assert((length - 1) as nat + x as nat == (length + x - 1) as nat);
        lemma_excess_bits(whole, (length + x) as nat);
    } else {
        let y = (-x) as nat;
        let q = pow2(y);
        lemma_pow2_pos(y);
        lemma_grain(num, m, g, q);
        assert(whole == m / q);
        if length >= y {
            lemma_pow2_adds((length - y) as nat, y);
            lemma_div_is_strictly_smaller_than(m, pow2((length - y) as nat), q);
            if length - y > 53 {
                lemma_pow2_adds((length - y - 1) as nat, y);
                assert((length - y - 1) as nat + y == (length - 1) as nat);
                lemma_div_is_at_least(m, pow2((length - y - 1) as nat), q);
            }
            lemma_excess_bits(whole, (length - y) as nat);
        } else {
            lemma_pow2_monotone(length, y);
            lemma_basic_div(m as int, q as int);
            lemma_word_powers();
            lemma_excess_bits(whole, 0);
        }
    }
}

proof fn lemma_div_is_strictly_smaller_than(m: nat, bound: nat, q: nat)
    requires
        q > 0,
        m < bound * q,
    ensures
        m / q < bound,
{
    lemma_fundamental_div_mod(m as int, q as int);
    assert(m / q < bound) by (nonlinear_arith)
        requires
            m == q * (m / q) + m % q,
            m % q >= 0,
            m < bound * q,
            q > 0,
    ;
}

proof fn lemma_div_is_at_least(m: nat, bound: nat, q: nat)
    requires
        q > 0,
        m >= bound * q,
    ensures
        m / q >= bound,
{
    lemma_fundamental_div_mod(m as int, q as int);
    assert(m / q >= bound) by (nonlinear_arith)
        requires
            m == q * (m / q) + m % q,
            m % q < q,
            m >= bound * q,
            q > 0,
    ;
}

/// Rounds a ratio that lies in grain number `m`, a grain being `2^x` units;
/// `inexact` tells whether it lies above the grain's lower end.
pub(crate) fn round_grain(
    m: u128,
    x: i32,
    inexact: bool,
    Ghost(num): Ghost<nat>,
    Ghost(den): Ghost<nat>,
    Ghost(g): Ghost<nat>,
) -> (pattern: u64)
    requires
        0 < m < pow2(127),
        -8000 <= x <= 8000,
        inexact ==> m >= SIGNIFICAND_END,
        g > 0,
        den > 0,
        m * g <= num < (m + 1) * g,
        inexact <==> num != m * g,
        x >= 0 ==> g == den * pow2(x as nat),
        x < 0 ==> den == g * pow2((-x) as nat),
    ensures
        pattern == round_ratio(num, den),
        pattern <= INFINITE,
{
    let length: u32 = bit_length(m);
    let top: i32 = length as i32 + x;
    let excess: i32 = if top > 53 { top - 53 } else { 0 };
    let drop: i32 = excess - x;
    let ghost unit = den * pow2(excess as nat);
    proof {
        lemma_word_powers();
        lemma_excess_of_grain(num, den, m as nat, g, x as int, length as nat);
        assert(excess_bits(num / den) == excess as nat);
        lemma_pow2_pos(excess as nat);
        lemma_mul_strictly_positive(den as int, pow2(excess as nat) as int);
        if inexact && length < 54 {
            lemma_pow2_monotone(length as nat, 53);
        }
    }
    if drop <= 0 {
        let lift: u32 = (-drop) as u32;
        proof {
            // Here the grain is a whole number of units, so nothing is lost.
            let q = pow2(lift as nat);
            lemma_pow2_pos(lift as nat);
            assert(x >= 0 && excess as nat + lift as nat == x as nat);
            lemma_pow2_adds(excess as nat, lift as nat);
            assert(g == unit * q) by (nonlinear_arith)
                requires
                    g == den * pow2(x as nat),
                    pow2(x as nat) == pow2(excess as nat) * q,
                    unit == den * pow2(excess as nat),
            ;
            assert(num == (m * q) * unit) by (nonlinear_arith)
                requires
                    num == m * g,
                    g == unit * q,
            ;
            lemma_fundamental_div_mod_converse(num as int, unit as int, (m * q) as int, 0);
            lemma_pow2_adds(length as nat, lift as nat);
            assert(m * q < pow2((length + lift) as nat)) by (nonlinear_arith)
                requires
                    m < pow2(length as nat),
                    q > 0,
                    pow2((length + lift) as nat) == pow2(length as nat) * q,
            ;
            assert(length + lift <= 53);
            lemma_pow2_monotone((length + lift) as nat, 53);
        }
        let weight: u128 = power_of_two(lift);
        let kept: u64 = (m * weight) as u64;
        if excess >= 2046 {
            proof {
                // A positive excess goes with a full significand.
                lemma_pow2_adds((length - 1) as nat, lift as nat);
                assert((length - 1) as nat + lift as nat == 52);
                assert(m * weight >= pow2(52)) by (nonlinear_arith)
                    requires
                        m >= pow2((length - 1) as nat),
                        pow2(52) == pow2((length - 1) as nat) * weight,
                        weight > 0,
                ;
            }
            return INFINITE;
        }
        (excess as u64) * HIDDEN + kept
    } else {
        proof {
            lemma_round_step(num, m as nat, g, drop as nat);
            let q = pow2(drop as nat);
            assert(unit == g * q) by {
                if x >= 0 {
                    lemma_pow2_adds(x as nat, drop as nat);
                    assert(x as nat + drop as nat == excess as nat);
                    lemma_mul_is_associative(den as int, pow2(x as nat) as int, q as int);
                } else {
                    lemma_pow2_adds((-x) as nat, excess as nat);
                    assert((-x) as nat + excess as nat == drop as nat);
                    lemma_mul_is_associative(
                        g as int,
                        pow2((-x) as nat) as int,
                        pow2(excess as nat) as int,
                    );
                }
            }
        }
        if drop > 127 {
            proof {
                // The whole ratio lies below half a unit.
                lemma_pow2_monotone(128, drop as nat);
                lemma_pow2_unfold(128);
                lemma_small_mod(m as nat, pow2(drop as nat));
                lemma_basic_div(m as int, pow2(drop as nat) as int);
                assert(excess == 0);
            }
            return 0;
        }
        let weight: u128 = power_of_two(drop as u32);
        let kept128: u128 = m / weight;
        let lost: u128 = m % weight;
        let half: u128 = weight / 2;
        proof {
            // What is kept fits the significand, and fills it when bits were in excess.
            let q = weight as nat;
            if length >= drop {
                lemma_pow2_adds((length - drop) as nat, drop as nat);
                lemma_div_is_strictly_smaller_than(m as nat, pow2((length - drop) as nat), q);
                lemma_pow2_monotone((length - drop) as nat, 53);
                if excess > 0 {
                    assert(length - drop == 53);
                    lemma_pow2_adds(52, drop as nat);
                    assert(52 + drop as nat == (length - 1) as nat);
                    lemma_div_is_at_least(m as nat, pow2(52), q);
                }
            } else {
                lemma_pow2_monotone(length as nat, drop as nat);
                lemma_basic_div(m as int, q as int);
                assert(excess == 0);
            }
        }
        let kept: u64 = kept128 as u64;
        let up: bool = lost > half || (lost == half && (inexact || kept % 2 == 1));
        if excess >= 2046 {
            return INFINITE;
        }
        let base: u64 = (excess as u64) * HIDDEN + kept;
        let pattern: u64 = if up {
            base + 1
        } else {
            base
        };
        if pattern < INFINITE {
            pattern
        } else {
            INFINITE
        }
    }
}

} // verus!
