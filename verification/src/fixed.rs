//! The scalar type of the renderer: signed 64-bit fixed-point numbers with
//! `FX_ONE` (2^20) standing for one. Every operation is total: results are
//! clamped into `[FX_MIN, FX_MAX]`, the fixed-point counterpart of the
//! floating-point infinities, and division by zero saturates the same way.

use vstd::prelude::*;

verus! {

/// The fixed-point representation of 1.
pub const FX_ONE: i64 = 0x10_0000;

/// The largest representable scalar.
pub const FX_MAX: i64 = 0x3FFF_FFFF_FFFF_FFFF;

/// The smallest representable scalar.
pub const FX_MIN: i64 = -0x3FFF_FFFF_FFFF_FFFF;

/// Absolute value of a mathematical integer.
pub open spec fn iabs(x: int) -> int {
    if x < 0 { -x } else { x }
}

/// Clamp a mathematical integer into the representable scalar range.
pub open spec fn sat(x: int) -> int {
    if x > FX_MAX { FX_MAX as int } else if x < FX_MIN { FX_MIN as int } else { x }
}

/// Division truncated toward zero, the rounding used by every scalar
/// operation; yields 0 on a zero divisor (that case never arises below).
pub open spec fn tdiv(a: int, b: int) -> int {
    if b == 0 {
        0
    } else if (a < 0) != (b < 0) {
        -(iabs(a) / iabs(b))
    } else {
        iabs(a) / iabs(b)
    }
}

pub open spec fn fx_add_spec(a: int, b: int) -> int {
    sat(a + b)
}

pub open spec fn fx_sub_spec(a: int, b: int) -> int {
    sat(a - b)
}

pub open spec fn fx_neg_spec(a: int) -> int {
    sat(-a)
}

pub open spec fn fx_abs_spec(a: int) -> int {
    sat(iabs(a))
}

pub open spec fn fx_mul_spec(a: int, b: int) -> int {
    sat(tdiv(a * b, FX_ONE as int))
}

/// A zero divisor saturates toward the dividend's sign, the counterpart of
/// the floating-point rule that a finite number over zero is an infinity.
pub open spec fn fx_div_spec(a: int, b: int) -> int {
    if b == 0 {
        if a > 0 {
            FX_MAX as int
        } else if a < 0 {
            FX_MIN as int
        } else {
            0
        }
    } else {
        sat(tdiv(a * (FX_ONE as int), b))
    }
}

pub open spec fn fx_min_spec(a: int, b: int) -> int {
    if a < b { a } else { b }
}

pub open spec fn fx_max_spec(a: int, b: int) -> int {
    if a > b { a } else { b }
}

pub open spec fn fx_clamp_spec(x: int, lo: int, hi: int) -> int {
    if x < lo { lo } else if x > hi { hi } else { x }
}

/// The integer square root, largest r with r * r <= n.
pub open spec fn isqrt_spec(n: nat) -> nat
    decreases n,
{
    if n == 0 {
        0
    } else {
        let r = isqrt_spec((n - 1) as nat);
        if (r + 1) * (r + 1) <= n { r + 1 } else { r }
    }
}

/// Square root of a scalar: non-positive inputs (where the real square root
/// is undefined or zero) give 0.
pub open spec fn fx_sqrt_spec(a: int) -> int {
    if a <= 0 { 0 } else { isqrt_spec((a * FX_ONE) as nat) as int }
}

/// `isqrt_spec(n)` really is the integer square root of `n`.
pub proof fn lemma_isqrt_bounds(n: nat)
    ensures
        (isqrt_spec(n) as int) * (isqrt_spec(n) as int) <= n as int,
        (n as int) < ((isqrt_spec(n) as int) + 1) * ((isqrt_spec(n) as int) + 1),
    decreases n,
{
    if n > 0 {
        lemma_isqrt_bounds((n - 1) as nat);
        let r = isqrt_spec((n - 1) as nat);
        let s = isqrt_spec(n) as int;
        let ri = r as int;
        let ni = n as int;
        assert(isqrt_spec(n) == (if (r + 1) * (r + 1) <= n { r + 1nat } else { r }));
        if (r + 1) * (r + 1) <= n {
            assert(ni <= (ri + 1) * (ri + 1));
            assert(s * s <= ni && ni < (s + 1) * (s + 1)) by (nonlinear_arith)
                requires
                    ri >= 0,
                    s == ri + 1,
                    (ri + 1) * (ri + 1) <= ni,
                    ni <= (ri + 1) * (ri + 1),
            ;
        } else {
            assert(s * s <= ni && ni < (s + 1) * (s + 1)) by (nonlinear_arith)
                requires
                    s == ri,
                    ri * ri <= ni - 1,
                    ni < (ri + 1) * (ri + 1),
            ;
        }
    } else {
        assert(isqrt_spec(0) == 0);
    }
}

/// Any r bracketing n between consecutive squares is the integer square root.
pub proof fn lemma_isqrt_unique(n: nat, r: nat)
    requires
        (r as int) * (r as int) <= n as int,
        (n as int) < ((r as int) + 1) * ((r as int) + 1),
    ensures
        r == isqrt_spec(n),
{
    let s = isqrt_spec(n) as int;
    let ri = r as int;
    lemma_isqrt_bounds(n);
    if ri < s {
        assert((ri + 1) * (ri + 1) <= s * s) by (nonlinear_arith)
            requires
                0 <= ri + 1 <= s,
        ;
    }
    if s < ri {
        assert((s + 1) * (s + 1) <= ri * ri) by (nonlinear_arith)
            requires
                0 <= s + 1 <= ri,
        ;
    }
}

/// Truncating division cancels a common positive factor of the dividend.
pub proof fn lemma_tdiv_mul_cancel(x: int, s: int)
    requires
        s > 0,
    ensures
        tdiv(x * s, s) == x,
{
    if x >= 0 {
        assert(x * s >= 0) by (nonlinear_arith)
            requires
                x >= 0 && s > 0,
        ;
        assert((x * s) / s == x) by (nonlinear_arith)
            requires
                s > 0,
        ;
    } else {
        let y = -x;
        assert(iabs(x * s) == y * s) by (nonlinear_arith)
            requires
                y == -x && x < 0 && s > 0,
        ;
        assert((y * s) / s == y) by (nonlinear_arith)
            requires
                s > 0,
        ;
        assert(x * s < 0) by (nonlinear_arith)
            requires
                x < 0 && s > 0,
        ;
    }
}

/// The product of two 64-bit scalars stays well inside the 128-bit range.
proof fn lemma_i64_prod_in_i128(a: int, b: int) by (nonlinear_arith)
    requires
        -0x8000_0000_0000_0000 <= a <= 0x7FFF_FFFF_FFFF_FFFF,
        -0x8000_0000_0000_0000 <= b <= 0x7FFF_FFFF_FFFF_FFFF,
    ensures
        -0x4000_0000_0000_0000_0000_0000_0000_0000 <= a * b
            <= 0x4000_0000_0000_0000_0000_0000_0000_0000,
{
}

/// Clamp an intermediate wide result into the scalar range.
pub(crate) fn sat64(x: i128) -> (r: i64)
    ensures
        r as int == sat(x as int),
{
    if x > FX_MAX as i128 {
        FX_MAX
    } else if x < FX_MIN as i128 {
        FX_MIN
    } else {
        x as i64
    }
}

/// Division of wide intermediates, truncated toward zero.
fn div_trunc(p: i128, d: i128) -> (r: i128)
    requires
        d != 0,
        p != i128::MIN,
        d != i128::MIN,
    ensures
        r as int == tdiv(p as int, d as int),
{
    let pm: u128 = if p < 0 { (-p) as u128 } else { p as u128 };
    let dm: u128 = if d < 0 { (-d) as u128 } else { d as u128 };
    let q: u128 = pm / dm;
    assert(q <= pm) by (nonlinear_arith)
        requires
            dm >= 1 && q == pm as int / dm as int,
    ;
    if (p < 0) != (d < 0) {
        -(q as i128)
    } else {
        q as i128
    }
}

/// Saturating fixed-point addition.
pub fn fx_add(a: i64, b: i64) -> (r: i64)
    ensures
        r as int == fx_add_spec(a as int, b as int),
{
    sat64((a as i128) + (b as i128))
}

/// Saturating fixed-point subtraction.
pub fn fx_sub(a: i64, b: i64) -> (r: i64)
    ensures
        r as int == fx_sub_spec(a as int, b as int),
{
    sat64((a as i128) - (b as i128))
}

/// Saturating negation.
pub fn fx_neg(a: i64) -> (r: i64)
    ensures
        r as int == fx_neg_spec(a as int),
{
    sat64(-(a as i128))
}

/// Saturating absolute value.
pub fn fx_abs(a: i64) -> (r: i64)
    ensures
        r as int == fx_abs_spec(a as int),
{
    if a < 0 {
        sat64(-(a as i128))
    } else {
        sat64(a as i128)
    }
}

/// The smaller of two scalars.
pub fn fx_min(a: i64, b: i64) -> (r: i64)
    ensures
        r as int == fx_min_spec(a as int, b as int),
{
    if a < b { a } else { b }
}

/// The larger of two scalars.
pub fn fx_max(a: i64, b: i64) -> (r: i64)
    ensures
        r as int == fx_max_spec(a as int, b as int),
{
    if a > b { a } else { b }
}

/// Clamp a scalar into `[lo, hi]`.
pub fn fx_clamp(x: i64, lo: i64, hi: i64) -> (r: i64)
    requires
        lo <= hi,
    ensures
        r as int == fx_clamp_spec(x as int, lo as int, hi as int),
{
    if x < lo {
        lo
    } else if x > hi {
        hi
    } else {
        x
    }
}

/// Fixed-point product, rounded toward zero and saturated.
pub fn fx_mul(a: i64, b: i64) -> (r: i64)
    ensures
        r as int == fx_mul_spec(a as int, b as int),
{
    proof {
        lemma_i64_prod_in_i128(a as int, b as int);
    }
    let p: i128 = (a as i128) * (b as i128);
    let q: i128 = div_trunc(p, FX_ONE as i128);
    sat64(q)
}

/// Fixed-point quotient, rounded toward zero and saturated; a zero divisor
/// saturates toward the dividend's sign.
pub fn fx_div(a: i64, b: i64) -> (r: i64)
    ensures
        r as int == fx_div_spec(a as int, b as int),
{
    if b == 0 {
        if a > 0 {
            FX_MAX
        } else if a < 0 {
            FX_MIN
        } else {
            0
        }
    } else {
        proof {
            lemma_i64_prod_in_i128(a as int, FX_ONE as int);
        }
        let p: i128 = (a as i128) * (FX_ONE as i128);
        let q: i128 = div_trunc(p, b as i128);
        sat64(q)
    }
}

/// The scalar standing for the integer `n`, saturated.
pub fn fx_of_int(n: i64) -> (r: i64)
    ensures
        r as int == sat(n * FX_ONE),
{
    proof {
        lemma_i64_prod_in_i128(n as int, FX_ONE as int);
    }
    let p: i128 = (n as i128) * (FX_ONE as i128);
    sat64(p)
}

/// Fixed-point square root: the integer square root of `a * FX_ONE`, so that
/// the result is again a scalar; non-positive inputs give 0.
pub fn fx_sqrt(a: i64) -> (r: i64)
    ensures
        r as int == fx_sqrt_spec(a as int),
        r >= 0,
{
    if a <= 0 {
        return 0;
    }
    assert((a as int) * (FX_ONE as int) < 0x400_0000_0000 * 0x400_0000_0000) by (nonlinear_arith)
        requires
            0 < a <= 0x7FFF_FFFF_FFFF_FFFF,
    ;
    let n: u128 = (a as u128) * (FX_ONE as u128);
    let mut lo: u128 = 0;
    let mut hi: u128 = 0x400_0000_0000;
    while lo + 1 < hi
        invariant
            lo < hi,
            hi <= 0x400_0000_0000,
            (lo as int) * (lo as int) <= n as int,
            (n as int) < (hi as int) * (hi as int),
        decreases hi - lo,
    {
        let mid: u128 = lo + (hi - lo) / 2;
        assert((mid as int) * (mid as int) <= 0x400_0000_0000 * 0x400_0000_0000) by (nonlinear_arith)
            requires
                mid <= 0x400_0000_0000,
        ;
        if mid * mid <= n {
            lo = mid;
        } else {
            hi = mid;
        }
    }
    proof {
        lemma_isqrt_unique(n as nat, lo as nat);
    }
    lo as i64
}

} // verus!
