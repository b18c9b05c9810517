//! Saturating fixed-point arithmetic for the simulation.
//!
//! A quantity of one game unit is `FX_ONE` fixed-point units. Every operation
//! clamps its result into `[-FX_MAX, FX_MAX]`, so arithmetic is total: no
//! overflow and no panic is possible, and the simulation stays deterministic.
//! The saturation bound is far beyond anything a fighter can reach, so inside
//! the playable world the operations agree with exact truncated arithmetic.

use vstd::prelude::*;

verus! {

/// Fixed-point units per game unit. Chosen so that the stick grid (1/80),
/// the deadzone (0.2875), the smash thresholds (0.8 and 0.6625) and every
/// character tunable (all with at most two decimals) are exactly representable.
pub const FX_ONE: i64 = 400;

/// Saturation bound of all fixed-point values.
pub const FX_MAX: i64 = 100_000_000_000_000;

pub open spec fn iabs(x: int) -> int {
    if x < 0 { -x } else { x }
}

pub open spec fn imin(a: int, b: int) -> int {
    if a < b { a } else { b }
}

pub open spec fn imax(a: int, b: int) -> int {
    if a > b { a } else { b }
}

/// Sign of `x` as -1, 0 or 1.
pub open spec fn sgn(x: int) -> int {
    if x > 0 { 1 } else if x < 0 { -1 } else { 0 }
}

/// Clamp into the saturation range.
pub open spec fn sat(x: int) -> int {
    if x > FX_MAX as int {
        FX_MAX as int
    } else if x < -(FX_MAX as int) {
        -(FX_MAX as int)
    } else {
        x
    }
}

/// `x` is a saturated fixed-point value.
pub open spec fn fx_in_range(x: int) -> bool {
    -(FX_MAX as int) <= x <= FX_MAX as int
}

/// Division truncated toward zero (the behaviour of `/` on hardware),
/// defined as 0 on a zero divisor so that it is total.
pub open spec fn tdiv(a: int, b: int) -> int {
    if b == 0 {
        0
    } else if (a < 0) == (b < 0) {
        iabs(a) / iabs(b)
    } else {
        -(iabs(a) / iabs(b))
    }
}

pub open spec fn spec_add(a: int, b: int) -> int {
    sat(a + b)
}

pub open spec fn spec_sub(a: int, b: int) -> int {
    sat(a - b)
}

/// Fixed-point product: `a * b` rescaled by `FX_ONE`, truncated toward zero.
pub open spec fn spec_mul(a: int, b: int) -> int {
    sat(tdiv(a * b, FX_ONE as int))
}

/// Fixed-point quotient: `a / b` rescaled by `FX_ONE`, truncated toward zero.
pub open spec fn spec_div(a: int, b: int) -> int {
    if b == 0 { 0 } else { sat(tdiv(a * (FX_ONE as int), b)) }
}

pub fn fx_add(a: i64, b: i64) -> (r: i64)
    ensures
        r as int == spec_add(a as int, b as int),
{
    let s: i128 = a as i128 + b as i128;
    if s > FX_MAX as i128 {
        FX_MAX
    } else if s < -(FX_MAX as i128) {
        -FX_MAX
    } else {
        s as i64
    }
}

pub fn fx_sub(a: i64, b: i64) -> (r: i64)
    ensures
        r as int == spec_sub(a as int, b as int),
{
    let s: i128 = a as i128 - b as i128;
    if s > FX_MAX as i128 {
        FX_MAX
    } else if s < -(FX_MAX as i128) {
        -FX_MAX
    } else {
        s as i64
    }
}

pub proof fn lemma_i64_product_fits_i128(a: int, b: int)
    requires
        -(i64::MAX as int) - 1 <= a <= i64::MAX as int,
        -(i64::MAX as int) - 1 <= b <= i64::MAX as int,
    ensures
        (i128::MIN as int) < a * b <= i128::MAX as int,
{
    assert((i128::MIN as int) < a * b <= i128::MAX as int) by (nonlinear_arith)
        requires
            -(i64::MAX as int) - 1 <= a <= i64::MAX as int,
            -(i64::MAX as int) - 1 <= b <= i64::MAX as int,
    ;
}

/// Truncated division of the wide intermediate results; the divisor is never
/// zero where it is called, but it is total all the same.
fn tdiv_i128(a: i128, b: i128) -> (r: i128)
    requires
        (i128::MIN as int) < a as int,
        (i128::MIN as int) < b as int,
    ensures
        r as int == tdiv(a as int, b as int),
        iabs(r as int) <= iabs(a as int),
{
    if b == 0 {
        0
    } else {
        let q = a.checked_div(b);
        match q {
            Some(r) => r,
            None => 0,
        }
    }
}

pub fn fx_mul(a: i64, b: i64) -> (r: i64)
    ensures
        r as int == spec_mul(a as int, b as int),
{
    proof {
        lemma_i64_product_fits_i128(a as int, b as int);
    }
    let p: i128 = (a as i128) * (b as i128);
    let q: i128 = tdiv_i128(p, FX_ONE as i128);
    if q > FX_MAX as i128 {
        FX_MAX
    } else if q < -(FX_MAX as i128) {
        -FX_MAX
    } else {
        q as i64
    }
}

pub fn fx_div(a: i64, b: i64) -> (r: i64)
    ensures
        r as int == spec_div(a as int, b as int),
{
    if b == 0 {
        0
    } else {
        proof {
            lemma_i64_product_fits_i128(a as int, FX_ONE as int);
        }
        let p: i128 = (a as i128) * (FX_ONE as i128);
        let q: i128 = tdiv_i128(p, b as i128);
        if q > FX_MAX as i128 {
            FX_MAX
        } else if q < -(FX_MAX as i128) {
            -FX_MAX
        } else {
            q as i64
        }
    }
}

/// `a * b / c`, truncated toward zero and saturated; 0 on a zero divisor.
pub open spec fn spec_mul_div(a: int, b: int, c: int) -> int {
    if c == 0 { 0 } else { sat(tdiv(a * b, c)) }
}

pub fn fx_mul_div(a: i64, b: i64, c: i64) -> (r: i64)
    ensures
        r as int == spec_mul_div(a as int, b as int, c as int),
{
    if c == 0 {
        0
    } else {
        proof {
            lemma_i64_product_fits_i128(a as int, b as int);
        }
        let p: i128 = (a as i128) * (b as i128);
        let q: i128 = tdiv_i128(p, c as i128);
        if q > FX_MAX as i128 {
            FX_MAX
        } else if q < -(FX_MAX as i128) {
            -FX_MAX
        } else {
            q as i64
        }
    }
}

pub fn fx_abs(a: i64) -> (r: i64)
    ensures
        r as int == sat(iabs(a as int)),
{
    let w: i128 = a as i128;
    let m: i128 = if w < 0 { -w } else { w };
    if m > FX_MAX as i128 { FX_MAX } else { m as i64 }
}

pub fn fx_neg(a: i64) -> (r: i64)
    ensures
        r as int == sat(-(a as int)),
{
    let w: i128 = -(a as i128);
    if w > FX_MAX as i128 {
        FX_MAX
    } else if w < -(FX_MAX as i128) {
        -FX_MAX
    } else {
        w as i64
    }
}

pub fn fx_min(a: i64, b: i64) -> (r: i64)
    ensures
        r as int == imin(a as int, b as int),
{
    if a < b { a } else { b }
}

pub fn fx_max(a: i64, b: i64) -> (r: i64)
    ensures
        r as int == imax(a as int, b as int),
{
    if a > b { a } else { b }
}

/// Linear interpolation from `a` to `b` by the fixed-point fraction `t`.
pub fn lerp(a: i64, b: i64, t: i64) -> (r: i64)
    ensures
        r as int == spec_add(a as int, spec_mul(t as int, spec_sub(b as int, a as int))),
{
    let d = fx_sub(b, a);
    fx_add(a, fx_mul(t, d))
}

/// Frame counters advance with saturation, so counting is total as well;
/// every threshold the state machine compares against is tiny, so saturation
/// never changes a decision.
pub open spec fn inc32(x: int) -> int {
    if x + 1 > u32::MAX as int { u32::MAX as int } else { x + 1 }
}

pub fn frame_inc(x: u32) -> (r: u32)
    ensures
        r as int == inc32(x as int),
{
    if x < u32::MAX { x + 1 } else { x }
}

/// Multiplying by one full unit is the identity on in-range values.
pub proof fn lemma_mul_unit_identity(x: int)
    requires
        fx_in_range(x),
    ensures
        spec_mul(x, FX_ONE as int) == x,
        spec_mul(FX_ONE as int, x) == x,
{
    let one = FX_ONE as int;
    assert(x * one == one * x) by (nonlinear_arith);
    if x >= 0 {
        vstd::arithmetic::div_mod::lemma_div_multiples_vanish(x, one);
        assert(one * x == x * one) by (nonlinear_arith);
        assert(iabs(x * one) == x * one);
    } else {
        vstd::arithmetic::div_mod::lemma_div_multiples_vanish(-x, one);
        assert(one * (-x) == -(x * one)) by (nonlinear_arith);
        assert(iabs(x * one) == -(x * one));
    }
}

/// Floor of the square root, as a recursive specification (0 for negatives).
pub open spec fn sqrt_floor(n: int) -> int
    decreases n,
{
    if n <= 0 {
        0
    } else {
        let r = sqrt_floor(n - 1);
        if (r + 1) * (r + 1) <= n { r + 1 } else { r }
    }
}

pub proof fn lemma_sqrt_floor_bounds(n: int)
    requires
        n >= 0,
    ensures
        0 <= sqrt_floor(n),
        sqrt_floor(n) * sqrt_floor(n) <= n,
        n < (sqrt_floor(n) + 1) * (sqrt_floor(n) + 1),
    decreases n,
{
    if n == 0 {
        assert(sqrt_floor(0) == 0);
        assert(0 < (0 + 1) * (0 + 1)) by (nonlinear_arith);
    } else {
        lemma_sqrt_floor_bounds(n - 1);
        let r = sqrt_floor(n - 1);
        if (r + 1) * (r + 1) <= n {
            assert(sqrt_floor(n) == r + 1);
            assert(n < (r + 1) * (r + 1) + 1);
            assert((r + 1) * (r + 1) + 1 <= (r + 2) * (r + 2)) by (nonlinear_arith)
                requires
                    r >= 0,
            ;
        } else {
            assert(sqrt_floor(n) == r);
        }
    }
}

pub proof fn lemma_sqrt_floor_unique(n: int, r: int)
    requires
        0 <= r,
        r * r <= n,
        n < (r + 1) * (r + 1),
    ensures
        r == sqrt_floor(n),
{
    lemma_sqrt_floor_bounds(n);
    let s = sqrt_floor(n);
    if r < s {
        assert((r + 1) * (r + 1) <= s * s) by (nonlinear_arith)
            requires
                0 <= r,
                r + 1 <= s,
        ;
    } else if s < r {
        assert((s + 1) * (s + 1) <= r * r) by (nonlinear_arith)
            requires
                0 <= s,
                s + 1 <= r,
        ;
    }
}

/// Largest input `isqrt` accepts: twice the square of the saturation bound,
/// which covers the squared magnitude of any saturated vector.
pub const ISQRT_MAX: u128 = 20_000_000_000_000_000_000_000_000_000;

pub fn isqrt(n: u128) -> (r: i64)
    requires
        n as int <= ISQRT_MAX as int,
    ensures
        r as int == sqrt_floor(n as int),
        r >= 0,
{
    if n == 0 {
        proof {
            lemma_sqrt_floor_unique(0, 0);
        }
        return 0;
    }
    let mut lo: u128 = 0;
    let mut hi: u128 = 200_000_000_000_000;
    proof {
        assert((hi as int) * (hi as int) > n as int) by (nonlinear_arith)
            requires
                hi == 200_000_000_000_000u128,
                n as int <= ISQRT_MAX as int,
        ;
    }
    while lo + 1 < hi
        invariant
            lo < hi,
            hi <= 200_000_000_000_000,
            (lo as int) * (lo as int) <= n as int,
            (n as int) < (hi as int) * (hi as int),
        decreases hi - lo,
    {
        let mid: u128 = lo + (hi - lo) / 2;
        proof {
            assert((mid as int) * (mid as int) <= u128::MAX as int) by (nonlinear_arith)
                requires
                    mid <= 200_000_000_000_000u128,
            ;
        }
        if mid * mid <= n {
            lo = mid;
        } else {
            hi = mid;
        }
    }
    proof {
        lemma_sqrt_floor_unique(n as int, lo as int);
    }
    lo as i64
}

} // verus!
