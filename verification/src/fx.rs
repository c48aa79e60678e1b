//! Signed 16.16 fixed-point scalars.
//!
//! A scalar is an `i64` holding `value * 65536`. Every operation is total:
//! results are saturated into `[-FX_MAX, FX_MAX]`, division by zero yields
//! zero, and the square root of a non-positive number yields zero. Each
//! executable operation is specified exactly by its `spec` mirror, so callers
//! reason about the saturated integer semantics directly.

use vstd::prelude::*;

verus! {

/// The fixed-point representation of 1.0.
pub const FX_ONE: i64 = 0x1_0000;

/// The fixed-point representation of 0.5.
pub const FX_HALF: i64 = 0x8000;

/// Largest scalar magnitude. Saturation is symmetric, so `-FX_MAX` is the
/// smallest value an operation can produce and `i64::MIN` never arises.
pub const FX_MAX: i64 = 0x7fff_ffff_ffff_ffff;

/// Absolute value of a mathematical integer.
pub open spec fn iabs(x: int) -> int {
    if x >= 0 {
        x
    } else {
        -x
    }
}

/// Saturate a mathematical integer into the representable range.
pub open spec fn fx_clip(x: int) -> int {
    if x > FX_MAX as int {
        FX_MAX as int
    } else if x < -(FX_MAX as int) {
        -(FX_MAX as int)
    } else {
        x
    }
}

/// Saturating fixed-point sum.
pub open spec fn fxadd(a: i64, b: i64) -> i64 {
    fx_clip(a + b) as i64
}

/// Saturating fixed-point difference.
pub open spec fn fxsub(a: i64, b: i64) -> i64 {
    fx_clip(a - b) as i64
}

/// Saturating fixed-point negation.
pub open spec fn fxneg(a: i64) -> i64 {
    fx_clip(-a) as i64
}

/// Saturating fixed-point product: the exact product scaled down by 2^16,
/// rounded toward zero.
pub open spec fn fxmul(a: i64, b: i64) -> i64 {
    let p = (a as int) * (b as int);
    let q = iabs(p) / (FX_ONE as int);
    fx_clip(if p >= 0 { q } else { -q }) as i64
}

/// Saturating fixed-point quotient, rounded toward zero. Division by zero
/// yields zero.
pub open spec fn fxdiv(a: i64, b: i64) -> i64 {
    if b == 0 {
        0
    } else {
        let q = (iabs(a as int) * (FX_ONE as int)) / iabs(b as int);
        fx_clip(if ((a as int) < 0) == ((b as int) < 0) { q } else { -q }) as i64
    }
}

/// Integer square root (floor of the real square root), defined by halving
/// the argument's digits in base 4.
pub open spec fn isqrt_s(n: nat) -> nat
    decreases n,
{
    if n == 0 {
        0
    } else {
        let r = 2 * isqrt_s(n / 4);
        if (r + 1) * (r + 1) <= n {
            r + 1
        } else {
            r
        }
    }
}

/// `isqrt_s(n)` is the floor of the square root of `n`.
pub proof fn lemma_isqrt_bounds(n: nat)
    ensures
        isqrt_s(n) * isqrt_s(n) <= n,
        n < (isqrt_s(n) + 1) * (isqrt_s(n) + 1),
    decreases n,
{
    if n > 0 {
        let m: nat = n / 4;
        lemma_isqrt_bounds(m);
        let h: nat = isqrt_s(m);
        let r: nat = 2 * h;
        assert(4 * m <= n < 4 * (m + 1));
        assert(r * r <= 4 * m) by (nonlinear_arith)
            requires
                r == 2 * h,
                h * h <= m;
        assert(4 * (m + 1) <= (r + 2) * (r + 2)) by (nonlinear_arith)
            requires
                r == 2 * h,
                m < (h + 1) * (h + 1);
        if (r + 1) * (r + 1) <= n {
            assert(isqrt_s(n) == r + 1);
            assert(n < (r + 2) * (r + 2));
            assert((isqrt_s(n) + 1) * (isqrt_s(n) + 1) == (r + 2) * (r + 2)) by (nonlinear_arith)
                requires
                    isqrt_s(n) == r + 1;
        } else {
            assert(isqrt_s(n) == r);
            assert(r * r <= n);
            assert(n < (r + 1) * (r + 1));
            assert((isqrt_s(n) + 1) * (isqrt_s(n) + 1) == (r + 1) * (r + 1)) by (nonlinear_arith)
                requires
                    isqrt_s(n) == r;
        }
    } else {
        assert(isqrt_s(n) == 0);
        assert(n < (isqrt_s(n) + 1) * (isqrt_s(n) + 1)) by (nonlinear_arith)
            requires
                n == 0,
                isqrt_s(n) == 0;
    }
}

/// Fixed-point square root: the floor of the square root of a non-negative
/// scalar, zero otherwise.
pub open spec fn fxsqrt(x: i64) -> i64 {
    if x <= 0 {
        0
    } else {
        isqrt_s(((x as int) * (FX_ONE as int)) as nat) as i64
    }
}

fn isqrt_u128(n: u128) -> (r: u128)
    requires
        n < 0x1_0000_0000_0000_0000_0000_0000,
    ensures
        r as nat == isqrt_s(n as nat),
    decreases n,
{
    if n == 0 {
        0
    } else {
        let h = isqrt_u128(n / 4);
        proof {
            lemma_isqrt_bounds((n / 4) as nat);
            assert(h < 0x1_0000_0000_0000) by (nonlinear_arith)
                requires
                    h * h <= n / 4,
                    n / 4 < 0x1_0000_0000_0000_0000_0000_0000u128 / 4,
            ;
        }
        let r = 2 * h;
        let cand = r + 1;
        proof {
            assert(cand * cand < 0x1_0000_0000_0000_0000_0000_0000_0000) by (nonlinear_arith)
                requires
                    cand < 0x2_0000_0000_0000,
            ;
        }
        if cand * cand <= n {
            cand
        } else {
            r
        }
    }
}

/// The square root of a scalar is non-negative and far below the saturation
/// bound, so sums and differences with it cannot overflow `i64`.
pub proof fn lemma_fxsqrt_bounds(x: i64)
    ensures
        0 <= fxsqrt(x) < 0x100_0000_0000,
{
    if x > 0 {
        let n = ((x as int) * (FX_ONE as int)) as nat;
        lemma_isqrt_bounds(n);
        assert(isqrt_s(n) < 0x100_0000_0000) by (nonlinear_arith)
            requires
                isqrt_s(n) * isqrt_s(n) <= n,
                n < 0x8000_0000_0000_0000_0000;
    }
}

/// The square root of a scalar of at least one is itself at least one.
pub proof fn lemma_fxsqrt_ge_one(x: i64)
    requires
        FX_ONE <= x,
    ensures
        FX_ONE <= fxsqrt(x),
{
    let n = ((x as int) * (FX_ONE as int)) as nat;
    lemma_isqrt_bounds(n);
    assert(isqrt_s(n) >= 0x1_0000) by (nonlinear_arith)
        requires
            n < (isqrt_s(n) + 1) * (isqrt_s(n) + 1),
            n >= 0x1_0000_0000;
    assert(isqrt_s(n) < 0x100_0000_0000) by (nonlinear_arith)
        requires
            isqrt_s(n) * isqrt_s(n) <= n,
            n < 0x8000_0000_0000_0000_0000;
}

/// The product of two non-negative scalars is non-negative.
pub proof fn lemma_fxmul_nonneg(a: i64, b: i64)
    requires
        0 <= a,
        0 <= b,
    ensures
        0 <= fxmul(a, b),
{
    assert(0 <= (a as int) * (b as int)) by (nonlinear_arith)
        requires
            0 <= a,
            0 <= b;
    vstd::arithmetic::div_mod::lemma_div_pos_is_pos((a as int) * (b as int), FX_ONE as int);
}

/// The square of any scalar is non-negative.
pub proof fn lemma_fxmul_self_nonneg(c: i64)
    ensures
        0 <= fxmul(c, c),
{
    assert(0 <= (c as int) * (c as int)) by (nonlinear_arith);
}

/// Negating one factor negates a product, as long as the factor is not the
/// one unrepresentable magnitude `i64::MIN`.
pub proof fn lemma_fxmul_neg_right(a: i64, b: i64)
    requires
        -FX_MAX <= b,
    ensures
        fxmul(a, fxneg(b)) == fxneg(fxmul(a, b)),
{
    assert((a as int) * (-(b as int)) == -((a as int) * (b as int))) by (nonlinear_arith);
}

/// Division by a positive scalar preserves order of the numerators.
pub proof fn lemma_fxdiv_mono(a1: i64, a2: i64, b: i64)
    requires
        a1 <= a2,
        b > 0,
    ensures
        fxdiv(a1, b) <= fxdiv(a2, b),
{
    let bb = iabs(b as int);
    let q1 = (iabs(a1 as int) * (FX_ONE as int)) / bb;
    let q2 = (iabs(a2 as int) * (FX_ONE as int)) / bb;
    if a1 >= 0 {
        vstd::arithmetic::div_mod::lemma_div_is_ordered(
            iabs(a1 as int) * (FX_ONE as int),
            iabs(a2 as int) * (FX_ONE as int),
            bb,
        );
    } else if a2 < 0 {
        vstd::arithmetic::div_mod::lemma_div_is_ordered(
            iabs(a2 as int) * (FX_ONE as int),
            iabs(a1 as int) * (FX_ONE as int),
            bb,
        );
    } else {
        vstd::arithmetic::div_mod::lemma_div_pos_is_pos(iabs(a1 as int) * (FX_ONE as int), bb);
        vstd::arithmetic::div_mod::lemma_div_pos_is_pos(iabs(a2 as int) * (FX_ONE as int), bb);
    }
}

/// Multiplication of non-negative scalars is monotone in both factors and
/// stays non-negative.
pub proof fn lemma_fxmul_mono_nonneg(a1: i64, a2: i64, b1: i64, b2: i64)
    requires
        0 <= a1 <= a2,
        0 <= b1 <= b2,
    ensures
        0 <= fxmul(a1, b1) <= fxmul(a2, b2),
{
    assert(0 <= a1 * b1 && a1 * b1 <= a2 * b2) by (nonlinear_arith)
        requires
            0 <= a1 <= a2,
            0 <= b1 <= b2;
    vstd::arithmetic::div_mod::lemma_div_is_ordered(a1 * b1, a2 * b2, FX_ONE as int);
    vstd::arithmetic::div_mod::lemma_div_pos_is_pos(a1 * b1, FX_ONE as int);
}

/// Multiplying a non-negative scalar by one is the identity.
pub proof fn lemma_fxmul_one(a: i64)
    requires
        0 <= a,
    ensures
        fxmul(a, FX_ONE) == a,
{
    vstd::arithmetic::div_mod::lemma_div_by_multiple(a as int, FX_ONE as int);
}

/// A quotient whose numerator magnitude is at most the positive divisor has
/// magnitude at most one.
pub proof fn lemma_fxdiv_magnitude(a: i64, b: i64)
    requires
        b > 0,
        iabs(a as int) <= b as int,
    ensures
        -FX_ONE <= fxdiv(a, b) <= FX_ONE,
{
    let m = iabs(a as int) * (FX_ONE as int);
    vstd::arithmetic::div_mod::lemma_div_is_ordered(m, (b as int) * (FX_ONE as int), b as int);
    vstd::arithmetic::div_mod::lemma_div_by_multiple(FX_ONE as int, b as int);
    assert((b as int) * (FX_ONE as int) == (FX_ONE as int) * (b as int));
    vstd::arithmetic::div_mod::lemma_div_pos_is_pos(m, b as int);
}

/// Saturating sum of two scalars.
pub fn fx_add(a: i64, b: i64) -> (r: i64)
    ensures
        r == fxadd(a, b),
{
    let s = a as i128 + b as i128;
    if s > FX_MAX as i128 {
        FX_MAX
    } else if s < -(FX_MAX as i128) {
        -FX_MAX
    } else {
        s as i64
    }
}

/// Saturating difference of two scalars.
pub fn fx_sub(a: i64, b: i64) -> (r: i64)
    ensures
        r == fxsub(a, b),
{
    let s = a as i128 - b as i128;
    if s > FX_MAX as i128 {
        FX_MAX
    } else if s < -(FX_MAX as i128) {
        -FX_MAX
    } else {
        s as i64
    }
}

/// Saturating negation of a scalar.
pub fn fx_neg(a: i64) -> (r: i64)
    ensures
        r == fxneg(a),
{
    if a < -FX_MAX {
        FX_MAX
    } else {
        -a
    }
}

/// Saturating product of two scalars.
pub fn fx_mul(a: i64, b: i64) -> (r: i64)
    ensures
        r == fxmul(a, b),
{
    let negative = (a < 0) != (b < 0);
    let ma = if a < 0 { (-(a as i128)) as u128 } else { a as u128 };
    let mb = if b < 0 { (-(b as i128)) as u128 } else { b as u128 };
    proof {
        assert(ma * mb <= 0x8000_0000_0000_0000 * 0x8000_0000_0000_0000) by (nonlinear_arith)
            requires
                ma <= 0x8000_0000_0000_0000,
                mb <= 0x8000_0000_0000_0000,
        ;
        assert(ma * mb == iabs((a as int) * (b as int))) by (nonlinear_arith)
            requires
                ma == iabs(a as int),
                mb == iabs(b as int),
        ;
        assert(((a as int) * (b as int) < 0) ==> ((a < 0) != (b < 0))) by (nonlinear_arith);
        assert(((a as int) * (b as int) > 0) ==> ((a < 0) == (b < 0))) by (nonlinear_arith);
    }
    let q = (ma * mb) / (FX_ONE as u128);
    let clipped = if q > FX_MAX as u128 {
        FX_MAX
    } else {
        q as i64
    };
    if negative && q > 0 {
        -clipped
    } else if negative {
        0
    } else {
        clipped
    }
}

/// Saturating quotient of two scalars; zero when the divisor is zero.
pub fn fx_div(a: i64, b: i64) -> (r: i64)
    ensures
        r == fxdiv(a, b),
{
    if b == 0 {
        return 0;
    }
    let negative = (a < 0) != (b < 0);
    let ma = if a < 0 { (-(a as i128)) as u128 } else { a as u128 };
    let mb = if b < 0 { (-(b as i128)) as u128 } else { b as u128 };
    assert(ma <= 0x8000_0000_0000_0000u128 && mb >= 1);
    let q = (ma * 0x1_0000u128) / mb;
    let clipped = if q > FX_MAX as u128 {
        FX_MAX
    } else {
        q as i64
    };
    if negative && q > 0 {
        -clipped
    } else if negative {
        0
    } else {
        clipped
    }
}

/// Square root of a scalar: zero on non-positive inputs, otherwise exact to
/// the representation (the floor of the real root in 16.16).
pub fn fx_sqrt(x: i64) -> (r: i64)
    ensures
        r == fxsqrt(x),
{
    if x <= 0 {
        0
    } else {
        assert(x as u128 <= 0x8000_0000_0000_0000u128);
        let n = (x as u128) * 0x1_0000u128;
        let s = isqrt_u128(n);
        proof {
            lemma_isqrt_bounds(n as nat);
            assert(s <= 0xffff_ffff_ffff) by (nonlinear_arith)
                requires
                    s * s <= n,
                    n < 0x1_0000_0000_0000_0000_0000_0000,
            ;
        }
        s as i64
    }
}

/// Smaller of two scalars.
pub fn fx_min(a: i64, b: i64) -> (r: i64)
    ensures
        r == if a <= b { a } else { b },
{
    if a <= b {
        a
    } else {
        b
    }
}

/// The scalar clamped into `[lo, hi]`.
pub open spec fn fxclamp(x: i64, lo: i64, hi: i64) -> i64 {
    if x < lo {
        lo
    } else if x > hi {
        hi
    } else {
        x
    }
}

/// Clamp a scalar into `[lo, hi]`.
pub fn fx_clamp(x: i64, lo: i64, hi: i64) -> (r: i64)
    requires
        lo <= hi,
    ensures
        r == fxclamp(x, lo, hi),
{
    if x < lo {
        lo
    } else if x > hi {
        hi
    } else {
        x
    }
}

/// A pixel count as a fixed-point scalar.
pub open spec fn fx_of_u32(n: u32) -> i64 {
    ((n as int) * (FX_ONE as int)) as i64
}

/// Widen a pixel count to a fixed-point scalar.
pub fn fx_from_u32(n: u32) -> (r: i64)
    ensures
        r == fx_of_u32(n),
{
    (n as i64) * FX_ONE
}

} // verus!
