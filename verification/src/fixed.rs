//! Fixed-point scalars.
//!
//! A density is an `i64` that counts millionths: `UNIT` stands for 1.0. Sums,
//! differences and products saturate at the ends of `i64`; products and
//! quotients round toward zero.
use vstd::prelude::*;

verus! {

/// The fixed-point representation of 1.0.
pub const UNIT: i64 = 1_000_000;

/// `v` brought into the range of `i64`.
pub open spec fn clip(v: int) -> int {
    if v < i64::MIN {
        i64::MIN as int
    } else if v > i64::MAX {
        i64::MAX as int
    } else {
        v
    }
}

/// The quotient `n / d` rounded toward zero, for a positive `d`.
pub open spec fn quotient(n: int, d: int) -> int {
    if n >= 0 {
        n / d
    } else {
        -((-n) / d)
    }
}

/// The saturating sum of two scalars.
pub open spec fn plus(a: int, b: int) -> int {
    clip(a + b)
}

/// The saturating difference of two scalars.
pub open spec fn minus(a: int, b: int) -> int {
    clip(a - b)
}

/// The saturating fixed-point product of two scalars.
pub open spec fn times(a: int, b: int) -> int {
    clip(quotient(a * b, UNIT as int))
}

/// The saturating negation of a scalar.
pub open spec fn negated(a: int) -> int {
    clip(-a)
}

/// The saturating absolute value of a scalar.
pub open spec fn magnitude(a: int) -> int {
    if a >= 0 {
        a
    } else {
        clip(-a)
    }
}

/// The smaller of two scalars.
pub open spec fn lesser(a: int, b: int) -> int {
    if a <= b {
        a
    } else {
        b
    }
}

/// The larger of two scalars.
pub open spec fn greater(a: int, b: int) -> int {
    if a >= b {
        a
    } else {
        b
    }
}

/// `v` held between `lo` and `hi`: `lo` below `lo`, else `hi` above `hi`.
pub open spec fn bounded(v: int, lo: int, hi: int) -> int {
    if v < lo {
        lo
    } else if v > hi {
        hi
    } else {
        v
    }
}

/// A whole number of blocks scaled by a fixed-point factor, saturating.
pub open spec fn scaled(blocks: int, factor: int) -> int {
    clip(blocks * factor)
}

/// The saturating fixed-point quotient of a scalar by a positive scalar.
pub open spec fn divided(a: int, b: int) -> int {
    clip(quotient(a * UNIT, b))
}

/// Brings a wide intermediate result back into `i64`.
pub fn saturate(v: i128) -> (r: i64)
    ensures
        r == clip(v as int),
{
    if v < i64::MIN as i128 {
        i64::MIN
    } else if v > i64::MAX as i128 {
        i64::MAX
    } else {
        v as i64
    }
}

pub fn sat_add(a: i64, b: i64) -> (r: i64)
    ensures
        r == plus(a as int, b as int),
{
    saturate(a as i128 + b as i128)
}

pub fn sat_sub(a: i64, b: i64) -> (r: i64)
    ensures
        r == minus(a as int, b as int),
{
    saturate(a as i128 - b as i128)
}

pub fn sat_mul(a: i64, b: i64) -> (r: i64)
    ensures
        r == times(a as int, b as int),
{
    proof {
        lemma_product_fits(a as int, b as int);
    }
    let wide: i128 = (a as i128) * (b as i128);
    saturate(wide / (UNIT as i128))
}

pub fn sat_neg(a: i64) -> (r: i64)
    ensures
        r == negated(a as int),
{
    saturate(-(a as i128))
}

pub fn sat_abs(a: i64) -> (r: i64)
    ensures
        r == magnitude(a as int),
{
    if a >= 0 {
        a
    } else {
        saturate(-(a as i128))
    }
}

pub fn fixed_min(a: i64, b: i64) -> (r: i64)
    ensures
        r == lesser(a as int, b as int),
{
    if a <= b {
        a
    } else {
        b
    }
}

pub fn fixed_max(a: i64, b: i64) -> (r: i64)
    ensures
        r == greater(a as int, b as int),
{
    if a >= b {
        a
    } else {
        b
    }
}

pub fn fixed_clamp(v: i64, lo: i64, hi: i64) -> (r: i64)
    ensures
        r == bounded(v as int, lo as int, hi as int),
{
    if v < lo {
        lo
    } else if v > hi {
        hi
    } else {
        v
    }
}

/// A block coordinate scaled by a fixed-point factor.
pub fn scale_blocks(blocks: i32, factor: i64) -> (r: i64)
    ensures
        r == scaled(blocks as int, factor as int),
{
    proof {
        lemma_product_fits(blocks as int, factor as int);
    }
    saturate((blocks as i128) * (factor as i128))
}

/// The fixed-point quotient of a scalar by a positive scalar.
pub fn sat_div(a: i64, b: i64) -> (r: i64)
    requires
        b > 0,
    ensures
        r == divided(a as int, b as int),
{
    proof {
        lemma_product_fits(a as int, UNIT as int);
    }
    let wide: i128 = (a as i128) * (UNIT as i128);
    saturate(wide / (b as i128))
}

/// The product of two 64-bit values fits in 128 bits with room to spare.
pub proof fn lemma_product_fits(a: int, b: int)
    requires
        i64::MIN <= a <= i64::MAX,
        i64::MIN <= b <= i64::MAX,
    ensures
        -0x4000_0000_0000_0000_0000_0000_0000_0000 <= a * b
            <= 0x4000_0000_0000_0000_0000_0000_0000_0000,
{
    assert(-0x4000_0000_0000_0000_0000_0000_0000_0000 <= a * b
        <= 0x4000_0000_0000_0000_0000_0000_0000_0000) by (nonlinear_arith)
        requires
            -0x8000_0000_0000_0000 <= a <= 0x8000_0000_0000_0000,
            -0x8000_0000_0000_0000 <= b <= 0x8000_0000_0000_0000,
    ;
}

/// Rounding toward zero keeps the order of the numerators.
pub proof fn lemma_quotient_monotone(a: int, b: int, d: int)
    requires
        a <= b,
        d > 0,
    ensures
        quotient(a, d) <= quotient(b, d),
{
    if a >= 0 {
        assert(a / d <= b / d) by (nonlinear_arith)
            requires
                0 <= a <= b,
                d > 0,
        ;
    } else if b >= 0 {
        assert((-a) / d >= 0) by (nonlinear_arith)
            requires
                -a >= 0,
                d > 0,
        ;
        assert(b / d >= 0) by (nonlinear_arith)
            requires
                b >= 0,
                d > 0,
        ;
    } else {
        assert((-b) / d <= (-a) / d) by (nonlinear_arith)
            requires
                0 <= -b <= -a,
                d > 0,
        ;
    }
}

/// Rounding toward zero keeps the sign, and never grows the magnitude past
/// that of the numerator.
pub proof fn lemma_quotient_sign(n: int, d: int)
    requires
        d > 0,
    ensures
        n >= 0 ==> 0 <= quotient(n, d) <= n,
        n <= 0 ==> n <= quotient(n, d) <= 0,
        quotient(-n, d) == -quotient(n, d),
{
    if n >= 0 {
        assert(0 <= n / d <= n) by (nonlinear_arith)
            requires
                n >= 0,
                d > 0,
        ;
    } else {
        assert(0 <= (-n) / d <= -n) by (nonlinear_arith)
            requires
                -n >= 0,
                d > 0,
        ;
    }
}

/// An exact multiple divides without rounding.
pub proof fn lemma_quotient_exact(a: int, d: int)
    requires
        d > 0,
    ensures
        quotient(a * d, d) == a,
{
    if a >= 0 {
        assert(a * d >= 0 && (a * d) / d == a) by (nonlinear_arith)
            requires
                a >= 0,
                d > 0,
        ;
    } else {
        assert(a * d < 0 && (-(a * d)) / d == -a) by (nonlinear_arith)
            requires
                a < 0,
                d > 0,
        ;
    }
}

/// The order of the factors does not matter.
pub proof fn lemma_times_commutes(a: int, b: int)
    ensures
        times(a, b) == times(b, a),
{
    assert(a * b == b * a) by (nonlinear_arith);
}

/// A product with one is the other factor; a product with zero is zero.
pub proof fn lemma_times_unit(a: int)
    requires
        i64::MIN <= a <= i64::MAX,
    ensures
        times(a, UNIT as int) == a,
        times(UNIT as int, a) == a,
        times(a, 0) == 0,
        times(0, a) == 0,
{
    lemma_quotient_exact(a, UNIT as int);
    lemma_times_commutes(a, UNIT as int);
    assert(a * 0 == 0 && 0 * a == 0) by (nonlinear_arith);
}

/// A product grows with a factor where the other factor is not negative,
/// and shrinks where the other factor is not positive.
pub proof fn lemma_times_monotone(a: int, b: int, c: int)
    requires
        a <= b,
    ensures
        c >= 0 ==> times(a, c) <= times(b, c),
        c <= 0 ==> times(a, c) >= times(b, c),
        c >= 0 ==> times(c, a) <= times(c, b),
        c <= 0 ==> times(c, a) >= times(c, b),
{
    lemma_times_commutes(a, c);
    lemma_times_commutes(b, c);
    if c >= 0 {
        assert(a * c <= b * c) by (nonlinear_arith)
            requires
                a <= b,
                c >= 0,
        ;
        lemma_quotient_monotone(a * c, b * c, UNIT as int);
    }
    if c <= 0 {
        assert(b * c <= a * c) by (nonlinear_arith)
            requires
                a <= b,
                c <= 0,
        ;
        lemma_quotient_monotone(b * c, a * c, UNIT as int);
    }
}

/// The sign of a product follows from the signs of its factors.
pub proof fn lemma_times_sign(a: int, b: int)
    ensures
        (a >= 0 && b >= 0) || (a <= 0 && b <= 0) ==> times(a, b) >= 0,
        (a >= 0 && b <= 0) || (a <= 0 && b >= 0) ==> times(a, b) <= 0,
{
    if (a >= 0 && b >= 0) || (a <= 0 && b <= 0) {
        assert(a * b >= 0) by (nonlinear_arith)
            requires
                (a >= 0 && b >= 0) || (a <= 0 && b <= 0),
        ;
    }
    if (a >= 0 && b <= 0) || (a <= 0 && b >= 0) {
        assert(a * b <= 0) by (nonlinear_arith)
            requires
                (a >= 0 && b <= 0) || (a <= 0 && b >= 0),
        ;
    }
    lemma_quotient_sign(a * b, UNIT as int);
}

/// A product of two bounded factors lies between the least and the greatest
/// of the four products of their bounds.
pub proof fn lemma_times_corners(a: int, alo: int, ahi: int, b: int, blo: int, bhi: int)
    requires
        alo <= a <= ahi,
        blo <= b <= bhi,
    ensures
        lesser(lesser(times(alo, blo), times(alo, bhi)), lesser(times(ahi, blo), times(ahi, bhi)))
            <= times(a, b),
        times(a, b) <= greater(
            greater(times(alo, blo), times(alo, bhi)),
            greater(times(ahi, blo), times(ahi, bhi)),
        ),
{
    lemma_times_monotone(alo, a, b);
    lemma_times_monotone(a, ahi, b);
    lemma_times_monotone(blo, b, alo);
    lemma_times_monotone(b, bhi, alo);
    lemma_times_monotone(blo, b, ahi);
    lemma_times_monotone(b, bhi, ahi);
}

} // verus!
