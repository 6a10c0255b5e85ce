//! 16.16 fixed-point arithmetic.
//!
//! Every physical quantity in the crate (world coordinates, wave height,
//! normals, texture intensities, colors) is an `i64` holding the value
//! scaled by [`FX_ONE`].  Products and quotients are defined with
//! truncation toward zero, matching Rust's `i64` division, so the exec
//! operations agree exactly with their spec-level mirrors.

use vstd::prelude::*;
use vstd::arithmetic::div_mod::{
    lemma_div_by_multiple, lemma_div_is_ordered, lemma_div_nonincreasing, lemma_div_pos_is_pos,
};

verus! {

/// One whole unit in 16.16 fixed point.
pub const FX_ONE: i64 = 65536;

/// Half a unit.
pub const FX_HALF: i64 = 32768;

/// Quarter of a unit.
pub const FX_QUARTER: i64 = 16384;

/// Magnitude bound on world coordinates, offsets and extents (2^14 units).
pub const FX_COORD_MAX: i64 = 0x4000_0000;

/// Magnitude of an integer.
pub open spec fn spec_abs(a: int) -> int {
    if a >= 0 {
        a
    } else {
        -a
    }
}

/// Quotient truncated toward zero, the rounding `i64` division performs.
/// (Spec-mode `/` is Euclidean; the two differ on negative dividends.)
pub open spec fn tdiv(a: int, b: int) -> int
    recommends
        b != 0,
{
    if (a >= 0) == (b >= 0) {
        spec_abs(a) / spec_abs(b)
    } else {
        -(spec_abs(a) / spec_abs(b))
    }
}

/// Product of two fixed-point values: `(a * b) >> 16` with truncation.
pub open spec fn spec_fx_mul(a: int, b: int) -> int {
    tdiv(a * b, FX_ONE as int)
}

/// Quotient of two fixed-point values: `(a << 16) / b` with truncation.
pub open spec fn spec_fx_div(a: int, b: int) -> int
    recommends
        b != 0,
{
    tdiv(a * (FX_ONE as int), b)
}

/// `a` confined to `[lo, hi]`.
pub open spec fn spec_clamp(a: int, lo: int, hi: int) -> int {
    if a < lo {
        lo
    } else if a > hi {
        hi
    } else {
        a
    }
}

/// Fractional phase: `a` reduced to `[0, FX_ONE)` by Euclidean remainder.
pub open spec fn spec_fx_fract(a: int) -> int {
    a % (FX_ONE as int)
}

pub fn fx_mul(a: i64, b: i64) -> (r: i64)
    requires
        -0x4000_0000_0000_0000 <= a * b <= 0x4000_0000_0000_0000,
    ensures
        r == spec_fx_mul(a as int, b as int),
{
    (a * b) / FX_ONE
}

pub fn fx_div(a: i64, b: i64) -> (r: i64)
    requires
        b != 0,
        i64::MIN < b,
        -0x4000_0000_0000 <= a <= 0x4000_0000_0000,
    ensures
        r == spec_fx_div(a as int, b as int),
{
    let p = a * FX_ONE;
    let pos = if p >= 0 {
        p
    } else {
        -p
    };
    let den = if b >= 0 {
        b
    } else {
        -b
    };
    proof {
        lemma_div_pos_is_pos(pos as int, den as int);
        lemma_div_nonincreasing(pos as int, den as int);
    }
    let q = pos / den;
    if (p >= 0) == (b >= 0) {
        q
    } else {
        -q
    }
}

pub fn fx_clamp(a: i64, lo: i64, hi: i64) -> (r: i64)
    requires
        lo <= hi,
    ensures
        r == spec_clamp(a as int, lo as int, hi as int),
{
    if a < lo {
        lo
    } else if a > hi {
        hi
    } else {
        a
    }
}

pub fn fx_fract(a: i64) -> (r: i64)
    ensures
        r == spec_fx_fract(a as int),
        0 <= r < FX_ONE,
{
    let m = a % FX_ONE;
    if m < 0 {
        m + FX_ONE
    } else {
        m
    }
}

/// Integer square root: the unique `r >= 0` with `r * r <= n < (r + 1) * (r + 1)`.
pub fn isqrt(n: i64) -> (r: i64)
    requires
        0 <= n,
    ensures
        0 <= r,
        r * r <= n,
        (r + 1) * (r + 1) > n,
{
    if n < 2 {
        proof {
            assert(n * n <= n && (n + 1) * (n + 1) > n) by (nonlinear_arith)
                requires
                    0 <= n < 2,
            ;
        }
        return n;
    }
    let mut lo: i64 = 1;
    let mut hi: i64 = if n < 3037000499 {
        n
    } else {
        3037000499
    };
    proof {
        assert((n + 1) * (n + 1) > n) by (nonlinear_arith)
            requires
                0 <= n,
        ;
        assert(3037000500int * 3037000500 > i64::MAX) by (nonlinear_arith);
    }
    while lo < hi
        invariant
            1 <= lo <= hi <= 3037000499,
            lo * lo <= n,
            (hi + 1) * (hi + 1) > n,
        decreases hi - lo,
    {
        let mid = lo + (hi - lo + 1) / 2;
        assert(mid * mid <= 3037000499i64 * 3037000499) by (nonlinear_arith)
            requires
                0 <= mid <= 3037000499,
        ;
        if mid * mid <= n {
            lo = mid;
        } else {
            hi = mid - 1;
        }
    }
    lo
}

/// Two fixed-point values with the same square-root bracket are equal.
pub proof fn lemma_isqrt_unique(n: int, r: int, s: int)
    by (nonlinear_arith)
    requires
        0 <= r,
        0 <= s,
        r * r <= n,
        (r + 1) * (r + 1) > n,
        s * s <= n,
        (s + 1) * (s + 1) > n,
    ensures
        r == s,
{
}

/// A zero factor annihilates a fixed-point product.
pub proof fn lemma_fx_mul_zero(q: int)
    ensures
        spec_fx_mul(0, q) == 0,
        spec_fx_mul(q, 0) == 0,
{
    assert(0 * q == 0) by (nonlinear_arith);
    assert(q * 0 == 0) by (nonlinear_arith);
    assert(spec_abs(0) / spec_abs(FX_ONE as int) == 0);
}

/// Magnitude bound of a product from magnitude bounds of its factors.
pub proof fn lemma_mul_abs_bound(a: int, b: int, aa: int, bb: int)
    by (nonlinear_arith)
    requires
        -aa <= a <= aa,
        -bb <= b <= bb,
    ensures
        -(aa * bb) <= a * b <= aa * bb,
{
}

/// Truncating division by a positive divisor shrinks magnitudes monotonically.
pub proof fn lemma_tdiv_mono_abs(a: int, b: int, m: int)
    requires
        b > 0,
        -m <= a <= m,
    ensures
        -(m / b) <= tdiv(a, b) <= m / b,
{
    if a >= 0 {
        lemma_div_pos_is_pos(a, b);
        lemma_div_is_ordered(a, m, b);
    } else {
        lemma_div_pos_is_pos(-a, b);
        lemma_div_is_ordered(-a, m, b);
    }
}

/// Truncating division recovers the cofactor of an exact multiple.
pub proof fn lemma_tdiv_multiple(k: int, b: int)
    requires
        0 <= k,
        0 < b,
    ensures
        tdiv(k * b, b) == k,
{
    lemma_div_by_multiple(k, b);
    assert(k * b >= 0) by (nonlinear_arith)
        requires
            0 <= k,
            0 < b,
    ;
}

} // verus!
