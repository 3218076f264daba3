//! IEEE 754 binary64 numbers, held as their bit patterns.
//!
//! A number crosses the library's boundary bit for bit, and every operation
//! gives the correctly rounded result: the binary64 number nearest to the exact
//! one, ties to even.  A NaN result is always the canonical quiet NaN.

use vstd::prelude::*;
use vstd::arithmetic::power2::*;
use vstd::arithmetic::div_mod::*;
use vstd::arithmetic::mul::*;
use crate::rounding::{bit_length, power_of_two, round_grain, HIDDEN, INFINITE, SIGNIFICAND_END};
use crate::rounding::{magnitude, round_ratio, lemma_pow2_monotone, lemma_word_powers};

verus! {

/// The sign bit.
pub const SIGN: u64 = 0x8000_0000_0000_0000;

/// The bits of the canonical quiet NaN.
pub const QUIET_NAN: u64 = 0x7ff8_0000_0000_0000;

/// A binary64 number.
#[derive(Clone, Copy, Debug, PartialEq, Eq, Structural)]
pub struct Double {
    pub bits: u64,
}

/// The number with the given sign and magnitude pattern.
pub open spec fn signed(negative: bool, pattern: nat) -> Double {
    Double {
        bits: (if negative {
            SIGN + pattern
        } else {
            pattern as int
        }) as u64,
    }
}

/// The canonical quiet NaN.
pub open spec fn quiet_nan() -> Double {
    Double { bits: QUIET_NAN }
}

/// The largest natural number whose square is at most `n`.
pub open spec fn floor_sqrt(n: nat) -> nat {
    choose|r: nat| #![trigger r * r] r * r <= n && n < (r + 1) * (r + 1)
}

impl Double {
    pub open spec fn is_negative(self) -> bool {
        self.bits >= SIGN
    }

    /// The bits without the sign.
    pub open spec fn pattern(self) -> nat {
        (if self.bits >= SIGN {
            self.bits - SIGN
        } else {
            self.bits as int
        }) as nat
    }

    pub open spec fn nan(self) -> bool {
        self.pattern() > INFINITE
    }

    pub open spec fn infinite(self) -> bool {
        self.pattern() == INFINITE
    }

    pub open spec fn finite(self) -> bool {
        self.pattern() < INFINITE
    }

    /// A zero of either sign.
    pub open spec fn zero(self) -> bool {
        self.pattern() == 0
    }

    /// The exact value in units of `2^-1074`, an infinity standing beyond every
    /// finite number; meaningless for a NaN.
    pub open spec fn units(self) -> int {
        if self.is_negative() {
            -(magnitude(self.pattern()) as int)
        } else {
            magnitude(self.pattern()) as int
        }
    }

    pub open spec fn negated(self) -> Double {
        signed(!self.is_negative(), self.pattern())
    }

    pub open spec fn absolute(self) -> Double {
        signed(false, self.pattern())
    }

    /// The rounded sum.
    #[verifier::opaque]
    pub open spec fn sum(self, other: Double) -> Double {
        let exact = self.units() + other.units();
        if self.nan() || other.nan() {
            quiet_nan()
        } else if self.infinite() {
            if other.infinite() && self.is_negative() != other.is_negative() {
                quiet_nan()
            } else {
                self
            }
        } else if other.infinite() {
            other
        } else if exact == 0 {
            signed(self.is_negative() && other.is_negative(), 0)
        } else if exact < 0 {
            signed(true, round_ratio((-exact) as nat, 1))
        } else {
            signed(false, round_ratio(exact as nat, 1))
        }
    }

    /// The rounded difference.
    pub open spec fn difference(self, other: Double) -> Double {
        self.sum(other.negated())
    }

    /// The rounded product.
    #[verifier::opaque]
    pub open spec fn product(self, other: Double) -> Double {
        let negative = self.is_negative() != other.is_negative();
        if self.nan() || other.nan() {
            quiet_nan()
        } else if self.infinite() || other.infinite() {
            if self.zero() || other.zero() {
                quiet_nan()
            } else {
                signed(negative, INFINITE as nat)
            }
        } else {
            signed(
                negative,
                round_ratio(magnitude(self.pattern()) * magnitude(other.pattern()), pow2(1074)),
            )
        }
    }

    /// The rounded quotient.
    #[verifier::opaque]
    pub open spec fn quotient(self, other: Double) -> Double {
        let negative = self.is_negative() != other.is_negative();
        if self.nan() || other.nan() {
            quiet_nan()
        } else if self.infinite() {
            if other.infinite() {
                quiet_nan()
            } else {
                signed(negative, INFINITE as nat)
            }
        } else if other.infinite() {
            signed(negative, 0)
        } else if other.zero() {
            if self.zero() {
                quiet_nan()
            } else {
                signed(negative, INFINITE as nat)
            }
        } else {
            signed(
                negative,
                round_ratio(magnitude(self.pattern()) * pow2(1074), magnitude(other.pattern())),
            )
        }
    }

    /// The rounded square root.  The exact root is irrational as a rule; it is
    /// cut down to an eighth of a unit, the last bit recording whether anything
    /// was cut off, which leaves its rounding unchanged.
    #[verifier::opaque]
    pub open spec fn root(self) -> Double {
        let square = 16 * (magnitude(self.pattern()) * pow2(1074));
        let quarters = floor_sqrt(square);
        let eighths = 2 * quarters + if quarters * quarters == square {
            0nat
        } else {
            1nat
        };
        if self.nan() {
            quiet_nan()
        } else if self.zero() {
            self
        } else if self.is_negative() {
            quiet_nan()
        } else if self.infinite() {
            self
        } else {
            signed(false, round_ratio(eighths, 8))
        }
    }

    /// `self < other` as numbers.
    pub open spec fn below(self, other: Double) -> bool {
        !self.nan() && !other.nan() && self.units() < other.units()
    }

    /// `self <= other` as numbers.
    pub open spec fn at_most(self, other: Double) -> bool {
        !self.nan() && !other.nan() && self.units() <= other.units()
    }

    /// `self == other` as numbers.
    pub open spec fn same_number(self, other: Double) -> bool {
        !self.nan() && !other.nan() && self.units() == other.units()
    }

    /// The binary64 number nearest to a count.
    #[verifier::opaque]
    pub open spec fn nearest(n: nat) -> Double {
        signed(false, round_ratio(n * pow2(1074), 1))
    }
}

/// A larger pattern is a larger magnitude.
pub proof fn lemma_magnitude_increases(a: nat, b: nat)
    requires
        a < b,
    ensures
        magnitude(a) < magnitude(b),
{
    let h = HIDDEN as nat;
    lemma_fundamental_div_mod(a as int, h as int);
    lemma_fundamental_div_mod(b as int, h as int);
    let (ea, fa) = (a / h, a % h);
    let (eb, fb) = (b / h, b % h);
    lemma_word_powers();
    if ea == eb {
        assert(fa < fb);
        if ea > 0 {
            lemma_pow2_pos((ea - 1) as nat);
            lemma_mul_strict_inequality(
                (h + fa) as int,
                (h + fb) as int,
                pow2((ea - 1) as nat) as int,
            );
        }
    } else {
        assert(ea < eb);
        let p = pow2((eb - 1) as nat);
        lemma_pow2_pos((eb - 1) as nat);
        assert((h + fb) * p >= h * p) by (nonlinear_arith)
            requires
                fb >= 0,
                p > 0,
        ;
        if ea == 0 {
            assert(h * p >= h) by (nonlinear_arith)
                requires
                    p >= 1,
            ;
        } else {
            let q = pow2((ea - 1) as nat);
            lemma_pow2_pos((ea - 1) as nat);
            lemma_pow2_unfold(ea);
            lemma_pow2_monotone(ea, (eb - 1) as nat);
            assert(p >= 2 * q);
            assert((h + fa) * q < h * p) by (nonlinear_arith)
                requires
                    fa < h,
                    p >= 2 * q,
                    q > 0,
            ;
        }
    }
}

/// Nothing rounds to nothing.
pub proof fn lemma_round_zero(den: nat)
    requires
        den > 0,
    ensures
        round_ratio(0, den) == 0,
{
    lemma_word_powers();
    lemma_basic_div(0, den as int);
    assert(0nat / den == 0);
    assert(crate::rounding::excess_bits(0) == 0);
    assert(den * pow2(0) == den);
    lemma_small_mod(0, den);
}

/// The significand and the exponent of a finite magnitude.
fn parts(pattern: u64) -> (r: (u64, i32))
    requires
        pattern < INFINITE,
    ensures
        magnitude(pattern as nat) == r.0 * pow2(r.1 as nat),
        r.0 < SIGNIFICAND_END,
        0 <= r.1 <= 2045,
        r.0 == 0 <==> pattern == 0,
        r.1 > 0 ==> r.0 >= HIDDEN,
        r.1 == if pattern < HIDDEN { 0int } else { pattern as int / HIDDEN as int - 1 },
{
    let exponent: u64 = pattern / HIDDEN;
    let fraction: u64 = pattern % HIDDEN;
    proof {
        lemma_word_powers();
        assert(pattern as nat / HIDDEN as nat == exponent as nat);
        assert(pattern as nat % HIDDEN as nat == fraction as nat);
    }
    if exponent == 0 {
        proof {
            lemma_mul_basics(fraction as int);
        }
        (fraction, 0)
    } else {
        let place: i32 = (exponent - 1) as i32;
        assert(place as nat == (exponent as nat - 1) as nat);
        assert(magnitude(pattern as nat) == (HIDDEN as nat + fraction as nat) * pow2(
            place as nat,
        ));
        (HIDDEN + fraction, place)
    }
}

/// The rounded sum of two magnitudes, the first with the larger exponent.
fn add_parts(ma: u64, ea: i32, mb: u64, eb: i32) -> (pattern: u64)
    requires
        0 < ma < SIGNIFICAND_END,
        mb < SIGNIFICAND_END,
        0 <= eb <= ea <= 2045,
        ea > 0 ==> ma >= HIDDEN,
    ensures
        pattern == round_ratio(
            (ma * pow2(ea as nat) + mb * pow2(eb as nat)) as nat,
            1,
        ),
        pattern <= INFINITE,
{
    let gap: i32 = ea - eb;
    let ghost num = (ma * pow2(ea as nat) + mb * pow2(eb as nat)) as nat;
    proof {
        lemma_word_powers();
    }
    if gap <= 64 {
        let weight: u128 = power_of_two(gap as u32);
        let ghost g = pow2(eb as nat);
        proof {
            lemma_pow2_pos(eb as nat);
            lemma_pow2_monotone(gap as nat, 64);
            lemma_pow2_adds(eb as nat, gap as nat);
            assert(eb as nat + gap as nat == ea as nat);
            lemma_pow2_pos(gap as nat);
            assert(0 < ma * weight < 0x20_0000_0000_0000_0000_0000_0000_0000) by (nonlinear_arith)
                requires
                    0 < ma < 0x20_0000_0000_0000,
                    0 < weight <= 0x1_0000_0000_0000_0000,
            ;
            assert(num == (ma * weight + mb) * g) by (nonlinear_arith)
                requires
                    num == ma * pow2(ea as nat) + mb * g,
                    pow2(ea as nat) == g * weight,
            ;
            lemma_mul_is_distributive_add_other_way(g as int, (ma * weight + mb) as int, 1);
            lemma_mul_basics(g as int);
        }
        let m: u128 = (ma as u128) * weight + (mb as u128);
        round_grain(m, eb, false, Ghost(num), Ghost(1), Ghost(g))
    } else {
        let m: u128 = (ma as u128) * 1024;
        let ghost g = pow2((ea - 10) as nat);
        proof {
            lemma_far_operand(mb as nat, ea as nat, eb as nat);
            assert(ma * pow2(ea as nat) == m * g) by (nonlinear_arith)
                requires
                    pow2(ea as nat) == 1024 * g,
                    m == ma * 1024,
            ;
            lemma_mul_is_distributive_add_other_way(g as int, m as int, 1);
            lemma_mul_basics(g as int);
            lemma_mul_nonnegative(mb as int, pow2(eb as nat) as int);
            lemma_pow2_pos(eb as nat);
            if mb > 0 {
                lemma_mul_strictly_positive(mb as int, pow2(eb as nat) as int);
            }
        }
        round_grain(m, ea - 10, mb != 0, Ghost(num), Ghost(1), Ghost(g))
    }
}

/// An operand more than 64 binary places down is less than a thousandth of the
/// other one's last place.
proof fn lemma_far_operand(mb: nat, ea: nat, eb: nat)
    requires
        mb < SIGNIFICAND_END,
        ea >= eb + 65,
    ensures
        pow2(ea) == 1024 * pow2((ea - 10) as nat),
        mb * pow2(eb) < pow2((ea - 10) as nat),
        pow2((ea - 10) as nat) > 0,
{
    lemma_word_powers();
    lemma2_to64();
    lemma_pow2_adds(10, (ea - 10) as nat);
    lemma_pow2_pos((ea - 10) as nat);
    lemma_pow2_adds(53, eb);
    lemma_pow2_pos(eb);
    lemma_pow2_monotone(53 + eb, (ea - 10) as nat);
    lemma_mul_strict_inequality(mb as int, SIGNIFICAND_END as int, pow2(eb) as int);
}

/// The rounded difference of two magnitudes, the first the larger.
fn subtract_parts(ma: u64, ea: i32, mb: u64, eb: i32) -> (pattern: u64)
    requires
        0 < ma < SIGNIFICAND_END,
        mb < SIGNIFICAND_END,
        0 <= eb <= ea <= 2045,
        ea > 0 ==> ma >= HIDDEN,
        ma * pow2(ea as nat) > mb * pow2(eb as nat),
    ensures
        pattern == round_ratio(
            (ma * pow2(ea as nat) - mb * pow2(eb as nat)) as nat,
            1,
        ),
        pattern <= INFINITE,
{
    let gap: i32 = ea - eb;
    let ghost num = (ma * pow2(ea as nat) - mb * pow2(eb as nat)) as nat;
    proof {
        lemma_word_powers();
    }
    if gap <= 64 {
        let weight: u128 = power_of_two(gap as u32);
        let ghost g = pow2(eb as nat);
        proof {
            lemma_pow2_pos(eb as nat);
            lemma_pow2_monotone(gap as nat, 64);
            lemma_pow2_adds(eb as nat, gap as nat);
            assert(eb as nat + gap as nat == ea as nat);
            lemma_pow2_pos(gap as nat);
            assert(0 < ma * weight < 0x20_0000_0000_0000_0000_0000_0000_0000) by (nonlinear_arith)
                requires
                    0 < ma < 0x20_0000_0000_0000,
                    0 < weight <= 0x1_0000_0000_0000_0000,
            ;
            assert(num == (ma * weight - mb) * g) by (nonlinear_arith)
                requires
                    num == ma * pow2(ea as nat) - mb * g,
                    pow2(ea as nat) == g * weight,
            ;
            assert(ma * weight - mb > 0) by (nonlinear_arith)
                requires
                    (ma * weight - mb) * g > 0,
                    g > 0,
            ;
            lemma_mul_is_distributive_add_other_way(g as int, (ma * weight - mb) as int, 1);
            lemma_mul_basics(g as int);
        }
        let m: u128 = (ma as u128) * weight - (mb as u128);
        round_grain(m, eb, false, Ghost(num), Ghost(1), Ghost(g))
    } else {
        let whole: u128 = (ma as u128) * 1024;
        let ghost g = pow2((ea - 10) as nat);
        proof {
            lemma_far_operand(mb as nat, ea as nat, eb as nat);
            assert(ma * pow2(ea as nat) == whole * g) by (nonlinear_arith)
                requires
                    pow2(ea as nat) == 1024 * g,
                    whole == ma * 1024,
            ;
            lemma_mul_is_distributive_add_other_way(g as int, whole as int, 1);
            lemma_mul_is_distributive_sub_other_way(g as int, whole as int, 1);
            lemma_mul_basics(g as int);
            lemma_mul_nonnegative(mb as int, pow2(eb as nat) as int);
            lemma_pow2_pos(eb as nat);
            lemma_mul_basics(pow2(eb as nat) as int);
            if mb > 0 {
                lemma_mul_strictly_positive(mb as int, pow2(eb as nat) as int);
            }
        }
        if mb == 0 {
            round_grain(whole, ea - 10, false, Ghost(num), Ghost(1), Ghost(g))
        } else {
            round_grain(whole - 1, ea - 10, true, Ghost(num), Ghost(1), Ghost(g))
        }
    }
}

/// A significand shifted up to fill its 53 bits, and by how much.
fn normalise(m: u64) -> (r: (u64, u32))
    requires
        0 < m < SIGNIFICAND_END,
    ensures
        r.0 == m * pow2(r.1 as nat),
        HIDDEN <= r.0 < SIGNIFICAND_END,
        r.1 <= 52,
{
    let length: u32 = bit_length(m as u128);
    proof {
        lemma_word_powers();
        if length > 53 {
            lemma_pow2_monotone(53, (length - 1) as nat);
        }
    }
    let lift: u32 = 53 - length;
    let weight: u128 = power_of_two(lift);
    proof {
        lemma_pow2_adds(length as nat, lift as nat);
        lemma_pow2_adds((length - 1) as nat, lift as nat);
        assert((length - 1) as nat + lift as nat == 52);
        lemma_pow2_pos(lift as nat);
        assert(HIDDEN <= m * weight < SIGNIFICAND_END) by (nonlinear_arith)
            requires
                m < pow2(length as nat),
                m >= pow2((length - 1) as nat),
                HIDDEN == pow2((length - 1) as nat) * weight,
                SIGNIFICAND_END == pow2(length as nat) * weight,
                weight > 0,
        ;
    }
    (((m as u128) * weight) as u64, lift)
}

/// The rounded quotient of two magnitudes.
fn divide_parts(ma: u64, ea: i32, mb: u64, eb: i32) -> (pattern: u64)
    requires
        0 < ma < SIGNIFICAND_END,
        0 < mb < SIGNIFICAND_END,
        0 <= ea <= 2045,
        0 <= eb <= 2045,
    ensures
        pattern == round_ratio(
            (ma * pow2(ea as nat)) as nat * pow2(1074),
            (mb * pow2(eb as nat)) as nat,
        ),
        pattern <= INFINITE,
{
    let (full, lift) = normalise(ma);
    let total: u128 = (full as u128) * 0x1_0000_0000_0000_0000;
    let m: u128 = total / (mb as u128);
    let left: u128 = total % (mb as u128);
    let x: i32 = ea + 1010 - (lift as i32) - eb;
    let ghost num = (ma * pow2(ea as nat)) as nat * pow2(1074);
    let ghost den = (mb * pow2(eb as nat)) as nat;
    let ghost place = (ea + 1010 - lift) as nat;
    let ghost p = pow2(place);
    let ghost g = (mb * p) as nat;
    proof {
        lemma_word_powers();
        lemma_pow2_pos(eb as nat);
        lemma_mul_strictly_positive(mb as int, pow2(eb as nat) as int);
        lemma_pow2_pos(place);
        lemma_mul_strictly_positive(mb as int, p as int);
        // The scaled dividend is the exact one.
        lemma_pow2_adds(ea as nat, 1074);
        lemma_pow2_adds(lift as nat, 64);
        lemma_pow2_adds(lift as nat + 64, place);
        assert(lift as nat + 64 + place == ea as nat + 1074);
        assert(num == total * p) by (nonlinear_arith)
            requires
                num == (ma * pow2(ea as nat)) * pow2(1074),
                pow2(ea as nat) * pow2(1074) == (pow2(lift as nat) * 0x1_0000_0000_0000_0000) * p,
                total == (ma * pow2(lift as nat)) * 0x1_0000_0000_0000_0000,
        ;
        lemma_fundamental_div_mod(total as int, mb as int);
        assert(m * g <= num < (m + 1) * g && (num == m * g <==> left == 0)) by (nonlinear_arith)
            requires
                num == total * p,
                g == mb * p,
                total == mb * m + left,
                0 <= left < mb,
                p > 0,
        ;
        assert(m >= SIGNIFICAND_END) by (nonlinear_arith)
            requires
                total == mb * m + left,
                0 <= left < mb,
                mb < 0x20_0000_0000_0000,
                total >= 0x10_0000_0000_0000 * 0x1_0000_0000_0000_0000,
                SIGNIFICAND_END == 0x20_0000_0000_0000,
        ;
        assert(m <= total) by (nonlinear_arith)
            requires
                total == mb * m + left,
                0 <= left,
                mb >= 1,
        ;
        if x >= 0 {
            lemma_pow2_adds(eb as nat, x as nat);
            assert(eb as nat + x as nat == place);
            lemma_mul_is_associative(mb as int, pow2(eb as nat) as int, pow2(x as nat) as int);
        } else {
            lemma_pow2_adds(place, (-x) as nat);
            assert(place + (-x) as nat == eb as nat);
            lemma_mul_is_associative(mb as int, p as int, pow2((-x) as nat) as int);
        }
    }
    round_grain(m, x, left != 0, Ghost(num), Ghost(den), Ghost(g))
}

/// `floor_sqrt` is what lies between the two squares.
pub proof fn lemma_floor_sqrt(n: nat, r: nat)
    requires
        r * r <= n < (r + 1) * (r + 1),
    ensures
        floor_sqrt(n) == r,
{
    let s = floor_sqrt(n);
    assert(s * s <= n && n < (s + 1) * (s + 1));
    if s < r {
        assert((s + 1) * (s + 1) <= r * r) by (nonlinear_arith)
            requires
                s + 1 <= r,
        ;
    }
    if r < s {
        assert((r + 1) * (r + 1) <= s * s) by (nonlinear_arith)
            requires
                r + 1 <= s,
        ;
    }
}

/// The integer square root of a number below `2^112`.
fn integer_sqrt(n: u128) -> (r: u64)
    requires
        n < 0x1_0000_0000_0000_0000_0000_0000_0000,
    ensures
        r * r <= n < (r + 1) * (r + 1),
{
    let mut r: u64 = 0;
    let mut gap: u64 = 0x0100_0000_0000_0000;
    let ghost mut j: nat = 56;
    proof {
        lemma2_to64();
        lemma2_to64_rest();
        assert(0x0100_0000_0000_0000int * 0x0100_0000_0000_0000int
            == 0x1_0000_0000_0000_0000_0000_0000_0000int) by (nonlinear_arith);
    }
    while gap > 1
        invariant
            gap == pow2(j),
            j <= 56,
            gap <= 0x0100_0000_0000_0000,
            r + gap <= 0x0100_0000_0000_0000,
            r * r <= n < (r + gap) * (r + gap),
        decreases gap,
    {
        proof {
            if j == 0 {
                lemma2_to64();
            }
            lemma_pow2_unfold(j);
            j = (j - 1) as nat;
        }
        gap = gap / 2;
        let t: u64 = r + gap;
        proof {
            assert(t * t <= 0x1_0000_0000_0000_0000_0000_0000_0000) by (nonlinear_arith)
                requires
                    0 <= t <= 0x0100_0000_0000_0000,
            ;
        }
        if (t as u128) * (t as u128) <= n {
            r = t;
        }
    }
    proof {
        lemma_pow2_pos(j);
    }
    r
}

/// A root known to lie in grain number `r` of `2^h` units, seen in eighths.
proof fn lemma_root_eighths(scaled: nat, r: nat, h: nat, n: nat)
    requires
        r * r <= scaled < (r + 1) * (r + 1),
        n == scaled * (pow2(h) * pow2(h)),
    ensures
        ({
            let quarters = floor_sqrt(16 * n);
            let eighths = 2 * quarters + if quarters * quarters == 16 * n {
                0nat
            } else {
                1nat
            };
            let g = pow2(h + 3);
            &&& g == 8 * pow2(h)
            &&& g > 0
            &&& r * g <= eighths < (r + 1) * g
            &&& (eighths == r * g <==> r * r == scaled)
        }),
{
    lemma2_to64();
    lemma_pow2_pos(h);
    lemma_pow2_adds(h, 3);
    let p = 4 * pow2(h);
    let square = 16 * n;
    assert(square == scaled * (p * p)) by (nonlinear_arith)
        requires
            square == 16 * n,
            n == scaled * (pow2(h) * pow2(h)),
            p == 4 * pow2(h),
    ;
    lemma_floor_sqrt_exists(square);
    let s = floor_sqrt(square);
    assert(s * s <= square < (s + 1) * (s + 1));
    lemma_mul_strictly_positive(p as int, p as int);
    let lower = r * p;
    let upper = (r + 1) * p;
    assert(lower * lower == (r * r) * (p * p)) by (nonlinear_arith)
        requires
            lower == r * p,
    ;
    assert(upper * upper == ((r + 1) * (r + 1)) * (p * p)) by (nonlinear_arith)
        requires
            upper == (r + 1) * p,
    ;
    lemma_mul_inequality((r * r) as int, scaled as int, (p * p) as int);
    lemma_mul_strict_inequality(scaled as int, ((r + 1) * (r + 1)) as int, (p * p) as int);
    if s < lower {
        assert((s + 1) * (s + 1) <= lower * lower) by (nonlinear_arith)
            requires
                s + 1 <= lower,
                s >= 0,
        ;
    }
    if s >= upper {
        assert(s * s >= upper * upper) by (nonlinear_arith)
            requires
                s >= upper,
                upper >= 0,
        ;
    }
    let g = pow2(h + 3);
    assert(r * g == 2 * (r * p) && (r + 1) * g == 2 * ((r + 1) * p)) by (nonlinear_arith)
        requires
            g == 2 * p,
    ;
    if r * r == scaled {
        assert((r * p) * (r * p) == square) by (nonlinear_arith)
            requires
                square == (r * r) * (p * p),
        ;
        let rp = r * p;
        assert((rp + 1) * (rp + 1) > rp * rp) by (nonlinear_arith)
            requires
                rp >= 0,
        ;
        lemma_floor_sqrt(square, rp);
    } else if s == r * p {
        assert(s * s < square) by (nonlinear_arith)
            requires
                s == r * p,
                r * r < scaled,
                square == scaled * (p * p),
                p > 0,
        ;
    }
}

/// Every natural number has an integer square root.
pub proof fn lemma_floor_sqrt_exists(n: nat)
    ensures
        floor_sqrt(n) * floor_sqrt(n) <= n < (floor_sqrt(n) + 1) * (floor_sqrt(n) + 1),
    decreases n,
{
    if n == 0 {
        let z: nat = 0;
        assert(z * z <= n && n < (z + 1) * (z + 1)) by (nonlinear_arith)
            requires
                z == 0,
                n == 0,
        ;
    } else {
        lemma_floor_sqrt_exists((n - 1) as nat);
        let r = floor_sqrt((n - 1) as nat);
        if n < (r + 1) * (r + 1) {
            assert(r * r <= n && n < (r + 1) * (r + 1));
        } else {
            let t = r + 1;
            assert((t + 1) * (t + 1) > t * t) by (nonlinear_arith)
                requires
                    t >= 0,
            ;
            assert(t * t <= n && n < (t + 1) * (t + 1));
        }
    }
}

/// The rounded square root of a magnitude.
fn root_parts(m: u64, e: i32) -> (pattern: u64)
    requires
        0 < m < SIGNIFICAND_END,
        0 <= e <= 2045,
    ensures
        ({
            let square = 16 * ((m * pow2(e as nat)) as nat * pow2(1074));
            let quarters = floor_sqrt(square);
            let eighths = 2 * quarters + if quarters * quarters == square {
                0nat
            } else {
                1nat
            };
            pattern == round_ratio(eighths, 8)
        }),
        pattern <= INFINITE,
{
    let (full, lift) = normalise(m);
    // The exponent of the radicand counted from the normalised significand.
    let place: i32 = e + 1074 - (lift as i32);
    let (weight, h): (u128, i32) = if place % 2 == 0 {
        (0x0100_0000_0000_0000, (place - 56) / 2)
    } else {
        (0x0200_0000_0000_0000, (place - 57) / 2)
    };
    let scaled: u128 = (full as u128) * weight;
    let r: u64 = integer_sqrt(scaled);
    let exact: bool = (r as u128) * (r as u128) == scaled;
    let ghost n = (m * pow2(e as nat)) as nat * pow2(1074);
    let ghost square = 16 * n;
    let ghost quarters = floor_sqrt(square);
    let ghost eighths = 2 * quarters + if quarters * quarters == square {
        0nat
    } else {
        1nat
    };
    let ghost g = pow2((h + 3) as nat);
    proof {
        lemma_word_powers();
        lemma2_to64();
        lemma2_to64_rest();
        let up: nat = if place % 2 == 0 { 56 } else { 57 };
        assert(weight == pow2(up));
        assert(place == 2 * h + up);
        lemma_pow2_adds(e as nat, 1074);
        lemma_pow2_adds(h as nat, h as nat);
        lemma_pow2_adds(lift as nat, up);
        lemma_pow2_adds(lift as nat + up, h as nat + h as nat);
        assert(lift as nat + up + (h as nat + h as nat) == e as nat + 1074);
        assert(n == scaled * (pow2(h as nat) * pow2(h as nat))) by (nonlinear_arith)
            requires
                n == (m * pow2(e as nat)) * pow2(1074),
                pow2(e as nat) * pow2(1074) == (pow2(lift as nat) * weight) * (pow2(h as nat) * pow2(
                    h as nat,
                )),
                scaled == (m * pow2(lift as nat)) * weight,
        ;
        lemma_root_eighths(scaled as nat, r as nat, h as nat, n);
        assert(r >= SIGNIFICAND_END) by (nonlinear_arith)
            requires
                scaled < (r + 1) * (r + 1),
                scaled >= 0x10_0000_0000_0000 * 0x0100_0000_0000_0000,
                r >= 0,
                SIGNIFICAND_END == 0x20_0000_0000_0000,
        ;
        lemma_pow2_monotone(64, 127);
        lemma_mul_is_commutative(8, pow2(h as nat) as int);
    }
    round_grain(r as u128, h, !exact, Ghost(eighths), Ghost(8), Ghost(g))
}

/// Builds a number from its sign and pattern.
fn compose(negative: bool, pattern: u64) -> (r: Double)
    requires
        pattern < SIGN,
    ensures
        r == signed(negative, pattern as nat),
        r.pattern() == pattern,
        r.is_negative() == negative,
{
    if negative {
        Double { bits: SIGN + pattern }
    } else {
        Double { bits: pattern }
    }
}

impl Double {
    /// The number with the given bits.
    pub fn from_bits(bits: u64) -> (r: Double)
        ensures
            r.bits == bits,
    {
        Double { bits }
    }

    /// The number's bits.
    pub fn to_bits(self) -> (r: u64)
        ensures
            r == self.bits,
    {
        self.bits
    }

    fn split(self) -> (r: (bool, u64))
        ensures
            r.0 == self.is_negative(),
            r.1 == self.pattern(),
            r.1 < SIGN,
    {
        if self.bits >= SIGN {
            (true, self.bits - SIGN)
        } else {
            (false, self.bits)
        }
    }

    /// Whether the number is a NaN.
    pub fn is_nan(self) -> (r: bool)
        ensures
            r == self.nan(),
    {
        self.split().1 > INFINITE
    }

    /// Whether the number is neither infinite nor a NaN.
    pub fn is_finite(self) -> (r: bool)
        ensures
            r == self.finite(),
    {
        self.split().1 < INFINITE
    }

    /// The number with the opposite sign.
    pub fn neg(self) -> (r: Double)
        ensures
            r == self.negated(),
    {
        let (negative, pattern) = self.split();
        compose(!negative, pattern)
    }

    /// The number without its sign.
    pub fn abs(self) -> (r: Double)
        ensures
            r == self.absolute(),
    {
        compose(false, self.split().1)
    }

    /// `self < other`.
    pub fn lt(self, other: Double) -> (r: bool)
        ensures
            r == self.below(other),
    {
        let (na, pa) = self.split();
        let (nb, pb) = other.split();
        proof {
            lemma_units_order(self, other);
        }
        if pa > INFINITE || pb > INFINITE {
            false
        } else if na {
            if nb {
                pa > pb
            } else {
                pa != 0 || pb != 0
            }
        } else {
            !nb && pa < pb
        }
    }

    /// `self <= other`.
    pub fn le(self, other: Double) -> (r: bool)
        ensures
            r == self.at_most(other),
    {
        !self.is_nan() && !other.is_nan() && !other.lt(self)
    }

    /// `self == other` as numbers.
    pub fn eq_number(self, other: Double) -> (r: bool)
        ensures
            r == self.same_number(other),
    {
        self.le(other) && other.le(self)
    }

    /// `self + other`.
    pub fn plus(self, other: Double) -> (r: Double)
        ensures
            r == self.sum(other),
    {
        proof {
            reveal(Double::sum);
        }
        let (na, pa) = self.split();
        let (nb, pb) = other.split();
        if pa > INFINITE || pb > INFINITE {
            return Double { bits: QUIET_NAN };
        }
        if pa == INFINITE {
            return if pb == INFINITE && na != nb {
                Double { bits: QUIET_NAN }
            } else {
                self
            };
        }
        if pb == INFINITE {
            return other;
        }
        let (ma, ea) = parts(pa);
        let (mb, eb) = parts(pb);
        proof {
            lemma_units_order(self, other);
        }
        if na == nb {
            if pa == 0 && pb == 0 {
                return compose(na, 0);
            }
            let pattern: u64 = if pa >= pb {
                add_parts(ma, ea, mb, eb)
            } else {
                add_parts(mb, eb, ma, ea)
            };
            compose(na, pattern)
        } else if pa == pb {
            compose(false, 0)
        } else if pa > pb {
            let pattern: u64 = subtract_parts(ma, ea, mb, eb);
            compose(na, pattern)
        } else {
            let pattern: u64 = subtract_parts(mb, eb, ma, ea);
            compose(nb, pattern)
        }
    }

    /// `self - other`.
    pub fn minus(self, other: Double) -> (r: Double)
        ensures
            r == self.difference(other),
    {
        self.plus(other.neg())
    }

    /// `self * other`.
    pub fn times(self, other: Double) -> (r: Double)
        ensures
            r == self.product(other),
    {
        proof {
            reveal(Double::product);
        }
        let (na, pa) = self.split();
        let (nb, pb) = other.split();
        let negative: bool = na != nb;
        if pa > INFINITE || pb > INFINITE {
            return Double { bits: QUIET_NAN };
        }
        if pa == INFINITE || pb == INFINITE {
            return if pa == 0 || pb == 0 {
                Double { bits: QUIET_NAN }
            } else {
                compose(negative, INFINITE)
            };
        }
        let (ma, ea) = parts(pa);
        let (mb, eb) = parts(pb);
        let ghost num = magnitude(pa as nat) * magnitude(pb as nat);
        proof {
            lemma_pow2_pos(1074);
        }
        if pa == 0 || pb == 0 {
            proof {
                lemma_mul_basics(magnitude(pa as nat) as int);
                lemma_mul_basics(magnitude(pb as nat) as int);
                lemma_mul_basics(pow2(0) as int);
                lemma_round_zero(pow2(1074));
            }
            return compose(negative, 0);
        }
        let ghost both = (ea + eb) as nat;
        let x: i32 = ea + eb - 1074;
        let ghost g = pow2(both);
        proof {
            lemma_word_powers();
            lemma_pow2_pos(both);
            lemma_pow2_adds(ea as nat, eb as nat);
            assert(num == (ma * mb) * g) by (nonlinear_arith)
                requires
                    num == (ma * pow2(ea as nat)) * (mb * pow2(eb as nat)),
                    g == pow2(ea as nat) * pow2(eb as nat),
            ;
            assert(0 < ma * mb < 0x40_0000_0000_0000_0000_0000_0000_00) by (nonlinear_arith)
                requires
                    0 < ma < 0x20_0000_0000_0000,
                    0 < mb < 0x20_0000_0000_0000,
            ;
            lemma_mul_is_distributive_add_other_way(g as int, (ma * mb) as int, 1);
            lemma_mul_basics(g as int);
            if x >= 0 {
                lemma_pow2_adds(1074, x as nat);
                assert(1074 + x as nat == both);
            } else {
                lemma_pow2_adds(both, (-x) as nat);
                assert(both + (-x) as nat == 1074);
            }
        }
        let m: u128 = (ma as u128) * (mb as u128);
        let pattern: u64 = round_grain(m, x, false, Ghost(num), Ghost(pow2(1074)), Ghost(g));
        compose(negative, pattern)
    }

    /// `self / other`.
    pub fn over(self, other: Double) -> (r: Double)
        ensures
            r == self.quotient(other),
    {
        proof {
            reveal(Double::quotient);
        }
        let (na, pa) = self.split();
        let (nb, pb) = other.split();
        let negative: bool = na != nb;
        if pa > INFINITE || pb > INFINITE {
            return Double { bits: QUIET_NAN };
        }
        if pa == INFINITE {
            return if pb == INFINITE {
                Double { bits: QUIET_NAN }
            } else {
                compose(negative, INFINITE)
            };
        }
        if pb == INFINITE {
            return compose(negative, 0);
        }
        if pb == 0 {
            return if pa == 0 {
                Double { bits: QUIET_NAN }
            } else {
                compose(negative, INFINITE)
            };
        }
        let (ma, ea) = parts(pa);
        let (mb, eb) = parts(pb);
        let ghost den = magnitude(pb as nat);
        proof {
            lemma_pow2_pos(eb as nat);
            lemma_mul_strictly_positive(mb as int, pow2(eb as nat) as int);
        }
        if pa == 0 {
            proof {
                lemma_mul_basics(pow2(0) as int);
                lemma_mul_basics(pow2(1074) as int);
                lemma_round_zero(den);
            }
            return compose(negative, 0);
        }
        let pattern: u64 = divide_parts(ma, ea, mb, eb);
        compose(negative, pattern)
    }

    /// The square root.
    pub fn sqrt(self) -> (r: Double)
        ensures
            r == self.root(),
    {
        proof {
            reveal(Double::root);
        }
        let (negative, pattern) = self.split();
        if pattern > INFINITE {
            return Double { bits: QUIET_NAN };
        }
        if pattern == 0 {
            return self;
        }
        if negative {
            return Double { bits: QUIET_NAN };
        }
        if pattern == INFINITE {
            return self;
        }
        let (m, e) = parts(pattern);
        let rounded: u64 = root_parts(m, e);
        compose(false, rounded)
    }

    /// The number nearest to a count.
    pub fn of_count(n: u64) -> (r: Double)
        ensures
            r == Double::nearest(n as nat),
    {
        proof {
            reveal(Double::nearest);
        }
        proof {
            lemma_pow2_pos(1074);
            lemma_round_zero(1);
            lemma_mul_basics(pow2(1074) as int);
        }
        if n == 0 {
            return compose(false, 0);
        }
        let ghost g = pow2(1074);
        let ghost num = n as nat * g;
        proof {
            lemma_word_powers();
            lemma_pow2_monotone(64, 127);
            lemma_mul_is_distributive_add_other_way(g as int, n as int, 1);
        }
        let pattern: u64 = round_grain(n as u128, 1074, false, Ghost(num), Ghost(1), Ghost(g));
        compose(false, pattern)
    }
}

/// The order of the exact values is that of signs and patterns.
proof fn lemma_units_order(a: Double, b: Double)
    ensures
        magnitude(0) == 0,
        a.pattern() > 0 ==> magnitude(a.pattern()) > 0,
        b.pattern() > 0 ==> magnitude(b.pattern()) > 0,
        a.pattern() < b.pattern() ==> magnitude(a.pattern()) < magnitude(b.pattern()),
        a.pattern() > b.pattern() ==> magnitude(a.pattern()) > magnitude(b.pattern()),
{
    if a.pattern() > 0 {
        lemma_magnitude_increases(0, a.pattern());
    }
    if b.pattern() > 0 {
        lemma_magnitude_increases(0, b.pattern());
    }
    if a.pattern() < b.pattern() {
        lemma_magnitude_increases(a.pattern(), b.pattern());
    }
    if a.pattern() > b.pattern() {
        lemma_magnitude_increases(b.pattern(), a.pattern());
    }
}

} // verus!
