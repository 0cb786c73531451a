//! Fixed-point scalar arithmetic.
//!
//! A scalar is an `i64` holding 16 fractional bits: the raw value `v`
//! stands for the real number `v / FX_ONE`. Every operation is total:
//! intermediate results are computed exactly in 128 bits and then
//! saturated into `[-FX_LIMIT, FX_LIMIT]`, so no operation panics and
//! every result is pinned down by an exact integer specification.

use vstd::prelude::*;

verus! {

/// Number of raw units in one world unit (16 fractional bits).
pub const FX_ONE: i64 = 65536;

/// Saturation bound for every scalar result: about 16.7 million world units.
pub const FX_LIMIT: i64 = 0x100_0000_0000;

/// Saturate an unbounded intermediate result into the representable range.
pub open spec fn clip(v: int) -> int {
    if v > FX_LIMIT {
        FX_LIMIT as int
    } else if v < -FX_LIMIT {
        -FX_LIMIT as int
    } else {
        v
    }
}

/// Division truncating toward zero, as the hardware performs it.
pub open spec fn tdiv(a: int, b: int) -> int
    recommends
        b != 0,
{
    if (a < 0) == (b < 0) {
        vstd::math::abs(a) as int / vstd::math::abs(b) as int
    } else {
        -(vstd::math::abs(a) as int / vstd::math::abs(b) as int)
    }
}

/// Saturating addition of two scalars.
pub open spec fn spec_fx_add(a: int, b: int) -> int {
    clip(a + b)
}

/// Saturating subtraction of two scalars.
pub open spec fn spec_fx_sub(a: int, b: int) -> int {
    clip(a - b)
}

/// Fixed-point product: the exact product carries 32 fractional bits,
/// so it is scaled back down by `FX_ONE`, truncating toward zero.
pub open spec fn spec_fx_mul(a: int, b: int) -> int {
    clip(tdiv(a * b, FX_ONE as int))
}

/// Fixed-point quotient: the dividend is scaled up by `FX_ONE` first,
/// then divided truncating toward zero.
pub open spec fn spec_fx_div(a: int, b: int) -> int
    recommends
        b != 0,
{
    clip(tdiv(a * FX_ONE, b))
}

fn clip128(v: i128) -> (r: i64)
    ensures
        r as int == clip(v as int),
{
    if v > FX_LIMIT as i128 {
        FX_LIMIT
    } else if v < -(FX_LIMIT as i128) {
        -FX_LIMIT
    } else {
        v as i64
    }
}

pub(crate) fn tdiv128(a: i128, b: i128) -> (r: i128)
    requires
        b != 0,
        a != i128::MIN,
        b != i128::MIN,
    ensures
        r as int == tdiv(a as int, b as int),
{
    let ua: u128 = if a < 0 {
        (-a) as u128
    } else {
        a as u128
    };
    let ub: u128 = if b < 0 {
        (-b) as u128
    } else {
        b as u128
    };
    let q: u128 = ua / ub;
    assert(ua as int == vstd::math::abs(a as int));
    assert(ub as int == vstd::math::abs(b as int));
    if (a < 0) == (b < 0) {
        q as i128
    } else {
        -(q as i128)
    }
}

/// Scalar addition, saturating at the representable range.
pub fn fx_add(a: i64, b: i64) -> (r: i64)
    ensures
        r as int == spec_fx_add(a as int, b as int),
{
    clip128(a as i128 + b as i128)
}

/// Scalar subtraction, saturating at the representable range.
pub fn fx_sub(a: i64, b: i64) -> (r: i64)
    ensures
        r as int == spec_fx_sub(a as int, b as int),
{
    clip128(a as i128 - b as i128)
}

proof fn lemma_i64_product_bounds(a: int, b: int)
    by (nonlinear_arith)
    requires
        -0x8000_0000_0000_0000 <= a <= 0x7fff_ffff_ffff_ffff,
        -0x8000_0000_0000_0000 <= b <= 0x7fff_ffff_ffff_ffff,
    ensures
        -0x4000_0000_0000_0000_0000_0000_0000_0000 <= a * b,
        a * b <= 0x4000_0000_0000_0000_0000_0000_0000_0000,
{
}

/// Scalar multiplication, truncating toward zero and saturating.
pub fn fx_mul(a: i64, b: i64) -> (r: i64)
    ensures
        r as int == spec_fx_mul(a as int, b as int),
{
    proof {
        lemma_i64_product_bounds(a as int, b as int);
    }
    let p: i128 = (a as i128) * (b as i128);
    clip128(tdiv128(p, FX_ONE as i128))
}

/// Scalar division, truncating toward zero and saturating.
/// A zero divisor must be ruled out by the caller; the geometric code
/// guards every division (a zero-length direction or a parallel plane
/// is resolved as a miss before any quotient is formed).
pub fn fx_div(a: i64, b: i64) -> (r: i64)
    requires
        b != 0,
    ensures
        r as int == spec_fx_div(a as int, b as int),
{
    proof {
        lemma_i64_product_bounds(a as int, FX_ONE as int);
    }
    let p: i128 = (a as i128) * (FX_ONE as i128);
    clip128(tdiv128(p, b as i128))
}

/// Integer square root rounded down: the unique `r` with
/// `r * r <= n < (r + 1) * (r + 1)`.
pub open spec fn sqrt_floor(n: nat) -> nat
    decreases n,
{
    if n == 0 {
        0
    } else {
        let p = sqrt_floor((n - 1) as nat);
        if (p + 1) * (p + 1) <= n {
            p + 1
        } else {
            p
        }
    }
}

pub proof fn lemma_sqrt_floor_bounds(n: nat)
    ensures
        sqrt_floor(n) * sqrt_floor(n) <= n,
        n < (sqrt_floor(n) + 1) * (sqrt_floor(n) + 1),
    decreases n,
{
    if n == 0 {
        assert(sqrt_floor(n) == 0);
        assert(sqrt_floor(n) * sqrt_floor(n) == 0) by (nonlinear_arith)
            requires
                sqrt_floor(n) == 0,
        ;
        assert((sqrt_floor(n) + 1) * (sqrt_floor(n) + 1) == 1) by (nonlinear_arith)
            requires
                sqrt_floor(n) == 0,
        ;
    } else {
        lemma_sqrt_floor_bounds((n - 1) as nat);
        let p = sqrt_floor((n - 1) as nat);
        if (p + 1) * (p + 1) <= n {
            assert(sqrt_floor(n) == p + 1);
            assert(n == (p + 1) * (p + 1));
            assert((p + 1) * (p + 1) < (p + 2) * (p + 2)) by (nonlinear_arith);
            assert((sqrt_floor(n) + 1) * (sqrt_floor(n) + 1) == (p + 2) * (p + 2));
            assert(sqrt_floor(n) * sqrt_floor(n) <= n);
            assert(n < (sqrt_floor(n) + 1) * (sqrt_floor(n) + 1));
        } else {
            assert(sqrt_floor(n) == p);
            assert(sqrt_floor(n) * sqrt_floor(n) <= n);
            assert(n < (sqrt_floor(n) + 1) * (sqrt_floor(n) + 1));
        }
    }
}

pub proof fn lemma_sqrt_floor_unique(n: nat, r: nat)
    requires
        r * r <= n,
        n < (r + 1) * (r + 1),
    ensures
        r == sqrt_floor(n),
{
    lemma_sqrt_floor_bounds(n);
    let s = sqrt_floor(n);
    if r < s {
        assert((r + 1) * (r + 1) <= s * s) by (nonlinear_arith)
            requires
                r + 1 <= s,
        ;
        assert(false);
    } else if s < r {
        assert((s + 1) * (s + 1) <= r * r) by (nonlinear_arith)
            requires
                s + 1 <= r,
        ;
        assert(false);
    }
}

fn isqrt128(n: u128) -> (r: u128)
    requires
        n < 0x1_0000_0000_0000_0000_0000,
    ensures
        r as nat == sqrt_floor(n as nat),
{
    let mut lo: u128 = 0;
    let mut hi: u128 = 0x1_0000_0000_0000;
    assert((hi as int) * (hi as int) == 0x1_0000_0000_0000_0000_0000_0000) by (nonlinear_arith)
        requires
            hi == 0x1_0000_0000_0000,
    ;
    while hi - lo > 1
        invariant
            lo < hi,
            hi <= 0x1_0000_0000_0000,
            (lo as int) * (lo as int) <= n as int,
            (n as int) < (hi as int) * (hi as int),
        decreases hi - lo,
    {
        let mid = lo + (hi - lo) / 2;
        proof {
            assert((mid as int) * (mid as int) < 0x1_0000_0000_0000_0000_0000_0000)
                by (nonlinear_arith)
                requires
                    mid < 0x1_0000_0000_0000,
            ;
        }
        if mid * mid <= n {
            lo = mid;
        } else {
            hi = mid;
        }
    }
    proof {
        lemma_sqrt_floor_unique(n as nat, lo as nat);
    }
    lo
}

proof fn lemma_sqrt_arg_bound(a: int)
    by (nonlinear_arith)
    requires
        0 < a < 0x8000_0000_0000_0000,
    ensures
        a * 65536 < 0x1_0000_0000_0000_0000_0000,
{
}

/// Square root of a scalar; a negative input, which has no real root,
/// yields zero.
pub open spec fn spec_fx_sqrt(a: int) -> int {
    if a <= 0 {
        0
    } else {
        sqrt_floor((a * FX_ONE) as nat) as int
    }
}

pub fn fx_sqrt(a: i64) -> (r: i64)
    ensures
        r as int == spec_fx_sqrt(a as int),
{
    if a <= 0 {
        0
    } else {
        proof {
            lemma_sqrt_arg_bound(a as int);
        }
        let n: u128 = (a as u128) * (FX_ONE as u128);
        let r = isqrt128(n);
        proof {
            lemma_sqrt_floor_bounds(n as nat);
            assert(r < 0x100_0000_0000) by (nonlinear_arith)
                requires
                    (r as int) * (r as int) <= n as int,
                    (n as int) < 0x1_0000_0000_0000_0000_0000,
            ;
        }
        r as i64
    }
}

/// Number of iterated square roots in the distance falloff: the
/// attenuation exponent is 2^-ATT_SQRT_STEPS = 1/32, a soft,
/// non-physical falloff rather than an inverse square.
pub const ATT_SQRT_STEPS: u32 = 5;

pub open spec fn spec_att_iter(d: int, k: nat) -> int
    decreases k,
{
    if k == 0 {
        d
    } else {
        spec_fx_sqrt(spec_att_iter(d, (k - 1) as nat))
    }
}

/// Distance falloff divisor: `d` raised to the power 1/32, computed as
/// five iterated square roots. Non-positive distances yield zero.
pub open spec fn spec_att(d: int) -> int {
    spec_att_iter(d, ATT_SQRT_STEPS as nat)
}

pub fn fx_att(d: i64) -> (r: i64)
    ensures
        r as int == spec_att(d as int),
{
    let mut v = d;
    let mut k: u32 = 0;
    while k < ATT_SQRT_STEPS
        invariant
            k <= ATT_SQRT_STEPS,
            v as int == spec_att_iter(d as int, k as nat),
        decreases ATT_SQRT_STEPS - k,
    {
        v = fx_sqrt(v);
        k = k + 1;
    }
    v
}

} // verus!
