//! Fixed-point rewards factors: 80 integer bits and 48 fractional bits, held as
//! the raw two's-complement bit pattern. The arithmetic itself is done by
//! `steel::Numeric`; this module guards every call so that none can overflow.

use fixed::types::I80F48;
use steel::Numeric;
use vstd::arithmetic::div_mod::lemma_div_multiples_vanish;
use vstd::arithmetic::div_mod::lemma_div_multiples_vanish_quotient;
use vstd::prelude::*;

verus! {

/// One whole unit in raw bits: two to the power 48.
pub const SCALE: i128 = 0x1_0000_0000_0000;

/// The smallest raw bit pattern whose integer part no longer fits in a `u64`.
pub const U64_LIMIT_BITS: i128 = 0x1_0000_0000_0000_0000_0000_0000_0000;

/// A fixed-point number whose value is `bits / 2^48`.
#[derive(Clone, Copy, Debug, PartialEq, Eq, Structural)]
pub struct Factor {
    pub bits: i128,
}

/// `v` limited to the range of `i128`.
pub open spec fn clamp_i128(v: int) -> int {
    if v > i128::MAX {
        i128::MAX as int
    } else if v < i128::MIN {
        i128::MIN as int
    } else {
        v
    }
}

/// `v` limited to the range of `u64`.
pub open spec fn clamp_u64(v: int) -> int {
    if v > u64::MAX {
        u64::MAX as int
    } else if v < 0 {
        0
    } else {
        v
    }
}

/// The quotient of `n` by a positive `d`, rounded toward zero.
pub open spec fn truncated_quotient(n: int, d: int) -> int
    recommends
        d > 0,
{
    if n >= 0 {
        n / d
    } else {
        -((-n) / d)
    }
}

/// Calls `steel::Numeric::from_u64`. The result is the whole number `value`:
/// its raw bits are `value` shifted up by the 48 fractional bits, which always
/// fits.
#[verifier::external_body]
fn numeric_from_u64(value: u64) -> (bits: i128)
    ensures
        bits == value * SCALE,
{
    Numeric::from_u64(value).to_i80f48().to_bits()
}

/// Calls `steel::Numeric::from_fraction`, which divides the whole number
/// `numerator` by the whole number `denominator` in fixed point. A zero
/// denominator panics there and is left out. The quotient of two non-negative
/// numbers is cut off after 48 fractional bits.
#[verifier::external_body]
fn numeric_from_fraction(numerator: u64, denominator: u64) -> (bits: i128)
    requires
        denominator != 0,
    ensures
        bits == (numerator * SCALE) / (denominator as int),
{
    Numeric::from_fraction(numerator, denominator).to_i80f48().to_bits()
}

/// Calls `steel::Numeric`'s `+`, which adds the raw bits. Sums outside the
/// range of `i128` overflow there and are left out.
#[verifier::external_body]
fn numeric_add(a: i128, b: i128) -> (bits: i128)
    requires
        i128::MIN <= a + b <= i128::MAX,
    ensures
        bits == a + b,
{
    let x = Numeric::from_i80f48(I80F48::from_bits(a));
    let y = Numeric::from_i80f48(I80F48::from_bits(b));
    (x + y).to_i80f48().to_bits()
}

/// Calls `steel::Numeric`'s `-`, which subtracts the raw bits. Differences
/// outside the range of `i128` overflow there and are left out.
#[verifier::external_body]
fn numeric_sub(a: i128, b: i128) -> (bits: i128)
    requires
        i128::MIN <= a - b <= i128::MAX,
    ensures
        bits == a - b,
{
    let x = Numeric::from_i80f48(I80F48::from_bits(a));
    let y = Numeric::from_i80f48(I80F48::from_bits(b));
    (x - y).to_i80f48().to_bits()
}

/// Calls `steel::Numeric`'s `*`. The full product of the raw bits is shifted
/// down by the 48 fractional bits, rounding toward negative infinity. Products
/// that do not fit overflow there and are left out.
#[verifier::external_body]
fn numeric_mul(a: i128, b: i128) -> (bits: i128)
    requires
        i128::MIN <= (a * b) / (SCALE as int) <= i128::MAX,
    ensures
        bits == (a * b) / (SCALE as int),
{
    let x = Numeric::from_i80f48(I80F48::from_bits(a));
    let y = Numeric::from_i80f48(I80F48::from_bits(b));
    (x * y).to_i80f48().to_bits()
}

/// Calls `steel::Numeric`'s `/` with a positive divisor. The dividend's raw
/// bits are shifted up by the 48 fractional bits and divided by the divisor's,
/// rounding toward zero. Quotients that do not fit overflow there and are left
/// out.
#[verifier::external_body]
fn numeric_div(a: i128, b: i128) -> (bits: i128)
    requires
        b > 0,
        i128::MIN <= truncated_quotient(a * SCALE, b as int) <= i128::MAX,
    ensures
        bits == truncated_quotient(a * SCALE, b as int),
{
    let x = Numeric::from_i80f48(I80F48::from_bits(a));
    let y = Numeric::from_i80f48(I80F48::from_bits(b));
    (x / y).to_i80f48().to_bits()
}

/// Calls `steel::Numeric::to_u64`, which drops the fractional bits. Negative
/// numbers and those whose integer part exceeds `u64` do not convert there and
/// are left out.
#[verifier::external_body]
fn numeric_to_u64(a: i128) -> (value: u64)
    requires
        0 <= a < U64_LIMIT_BITS,
    ensures
        value == (a as int) / (SCALE as int),
{
    Numeric::from_i80f48(I80F48::from_bits(a)).to_u64()
}

/// Calls `steel::Numeric`'s `>`, which orders two numbers as their raw bits
/// are ordered.
#[verifier::external_body]
fn numeric_gt(a: i128, b: i128) -> (greater: bool)
    ensures
        greater == (a > b),
{
    Numeric::from_i80f48(I80F48::from_bits(a)) > Numeric::from_i80f48(I80F48::from_bits(b))
}

impl Factor {
    /// The whole number `value`.
    pub fn from_u64(value: u64) -> (r: Factor)
        ensures
            r.bits == value * SCALE,
    {
        Factor { bits: numeric_from_u64(value) }
    }

    /// The fraction `numerator / denominator`, cut off after 48 fractional
    /// bits; `None` exactly when the denominator is zero.
    pub fn from_fraction(numerator: u64, denominator: u64) -> (r: Option<Factor>)
        ensures
            denominator == 0 <==> r is None,
            denominator != 0 ==> r == Some(
                Factor { bits: ((numerator * SCALE) / (denominator as int)) as i128 },
            ),
            denominator != 0 ==> 0 <= (numerator * SCALE) / (denominator as int) < U64_LIMIT_BITS,
    {
        if denominator == 0 {
            None
        } else {
            proof {
                lemma_fraction_bounds(numerator, denominator);
            }
            Some(Factor { bits: numeric_from_fraction(numerator, denominator) })
        }
    }

    /// Whether `self` is strictly greater than `other`.
    pub fn gt(self, other: Factor) -> (r: bool)
        ensures
            r == (self.bits > other.bits),
    {
        numeric_gt(self.bits, other.bits)
    }

    /// The sum, held at the nearest end of the range where it would leave it.
    pub fn saturating_add(self, other: Factor) -> (r: Factor)
        ensures
            r.bits == clamp_i128(self.bits + other.bits),
    {
        if other.bits >= 0 && self.bits > i128::MAX - other.bits {
            Factor { bits: i128::MAX }
        } else if other.bits < 0 && self.bits < i128::MIN - other.bits {
            Factor { bits: i128::MIN }
        } else {
            Factor { bits: numeric_add(self.bits, other.bits) }
        }
    }

    /// The difference, held at the nearest end of the range where it would
    /// leave it.
    pub fn saturating_sub(self, other: Factor) -> (r: Factor)
        ensures
            r.bits == clamp_i128(self.bits - other.bits),
    {
        if other.bits < 0 && self.bits > i128::MAX + other.bits {
            Factor { bits: i128::MAX }
        } else if other.bits >= 0 && self.bits < i128::MIN + other.bits {
            Factor { bits: i128::MIN }
        } else {
            Factor { bits: numeric_sub(self.bits, other.bits) }
        }
    }

    /// The product with the whole number `count`, held at the nearest end of
    /// the range where it would leave it.
    pub fn saturating_mul_int(self, count: u64) -> (r: Factor)
        ensures
            r.bits == clamp_i128(self.bits * count),
    {
        if count == 0 {
            return Factor { bits: 0 };
        }
        let k: i128 = count as i128;
        if self.bits >= 0 {
            let limit: i128 = i128::MAX / k;
            proof {
                lemma_product_fits(self.bits as int, k as int, i128::MAX as int);
            }
            if self.bits > limit {
                return Factor { bits: i128::MAX };
            }
        } else {
            let magnitude: i128 = -(self.bits + 1);
            let limit: i128 = (i128::MAX - k + 1) / k;
            proof {
                lemma_product_fits(magnitude as int, k as int, i128::MAX - k + 1);
                assert(self.bits * k == -(magnitude * k) - k) by (nonlinear_arith)
                    requires
                        magnitude == -(self.bits + 1),
                ;
            }
            if magnitude > limit {
                return Factor { bits: i128::MIN };
            }
        }
        let whole = numeric_from_u64(count);
        proof {
            assert(self.bits * whole == (self.bits * k) * SCALE) by (nonlinear_arith)
                requires
                    whole == k * SCALE,
            ;
            lemma_div_multiples_vanish(self.bits * k, SCALE as int);
            assert((SCALE * (self.bits * k)) == (self.bits * k) * SCALE) by (nonlinear_arith);
        }
        Factor { bits: numeric_mul(self.bits, whole) }
    }

    /// The quotient by the whole number `count`, rounded toward zero; `None`
    /// exactly when `count` is zero.
    pub fn div_int(self, count: u64) -> (r: Option<Factor>)
        ensures
            count == 0 <==> r is None,
            count != 0 ==> r == Some(
                Factor { bits: truncated_quotient(self.bits as int, count as int) as i128 },
            ),
            count != 0 ==> i128::MIN <= truncated_quotient(self.bits as int, count as int)
                <= i128::MAX,
    {
        if count == 0 {
            return None;
        }
        let whole = numeric_from_u64(count);
        proof {
            lemma_truncated_quotient_scaled(self.bits as int, count as int);
            lemma_truncated_quotient_bounds(self.bits as int, count as int);
            assert(whole > 0) by (nonlinear_arith)
                requires
                    whole == count * SCALE,
                    count > 0,
            ;
        }
        Some(Factor { bits: numeric_div(self.bits, whole) })
    }

    /// The integer part, held at the nearest end of the range of `u64` where
    /// it would leave it: zero for a negative number.
    pub fn to_u64(self) -> (r: u64)
        ensures
            r == clamp_u64((self.bits as int) / (SCALE as int)),
    {
        if self.bits < 0 {
            0
        } else if self.bits >= U64_LIMIT_BITS {
            u64::MAX
        } else {
            numeric_to_u64(self.bits)
        }
    }
}

/// A fraction of two `u64` numbers is non-negative and has an integer part
/// that fits in a `u64`.
pub proof fn lemma_fraction_bounds(numerator: u64, denominator: u64)
    requires
        denominator != 0,
    ensures
        0 <= (numerator * SCALE) / (denominator as int) < U64_LIMIT_BITS,
{
    let n = numerator * SCALE;
    let d = denominator as int;
    assert(0 <= n < U64_LIMIT_BITS) by (nonlinear_arith)
        requires
            n == numerator * SCALE,
            0 <= numerator < 0x1_0000_0000_0000_0000,
    ;
    assert(0 <= n / d <= n) by (nonlinear_arith)
        requires
            0 <= n,
            d >= 1,
    ;
}

/// For a non-negative `a` and a positive `k`, the product `a * k` stays within
/// `bound` exactly when `a` stays within `bound / k`.
proof fn lemma_product_fits(a: int, k: int, bound: int)
    requires
        a >= 0,
        k > 0,
        bound >= 0,
    ensures
        a <= bound / k <==> a * k <= bound,
{
    assert(a <= bound / k <==> a * k <= bound) by (nonlinear_arith)
        requires
            a >= 0,
            k > 0,
            bound >= 0,
    ;
}

/// Scaling dividend and divisor by the same power of two leaves the truncated
/// quotient unchanged.
proof fn lemma_truncated_quotient_scaled(a: int, d: int)
    requires
        d > 0,
    ensures
        truncated_quotient(a * SCALE, d * SCALE) == truncated_quotient(a, d),
{
    let s = SCALE as int;
    if a >= 0 {
        assert(a * s >= 0) by (nonlinear_arith)
            requires
                a >= 0,
                s > 0,
        ;
        lemma_div_multiples_vanish_quotient(s, a, d);
        assert(s * a == a * s && s * d == d * s) by (nonlinear_arith);
    } else {
        assert(a * s < 0) by (nonlinear_arith)
            requires
                a < 0,
                s > 0,
        ;
        lemma_div_multiples_vanish_quotient(s, -a, d);
        assert(s * (-a) == -(a * s) && s * d == d * s) by (nonlinear_arith);
    }
}

/// A truncated quotient by a positive divisor is no larger in magnitude than
/// the dividend.
proof fn lemma_truncated_quotient_bounds(a: int, d: int)
    requires
        d > 0,
    ensures
        a >= 0 ==> 0 <= truncated_quotient(a, d) <= a,
        a < 0 ==> a <= truncated_quotient(a, d) <= 0,
{
    if a >= 0 {
        assert(0 <= a / d <= a) by (nonlinear_arith)
            requires
                a >= 0,
                d >= 1,
        ;
    } else {
        let m = -a;
        assert(0 <= m / d <= m) by (nonlinear_arith)
            requires
                m >= 0,
                d >= 1,
        ;
    }
}

} // verus!
