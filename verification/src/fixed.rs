//! Q16.16 fixed-point arithmetic on `i64`.
//!
//! A value `v` stands for the real number `v / 65536`. All operations
//! saturate at the `i64` range, so every function here is total; products
//! and quotients round toward zero, as machine integer division does.

use vstd::prelude::*;

verus! {

/// The fixed-point representation of one: 2^16.
pub const FX_ONE: i64 = 65536;

/// The largest magnitude a coordinate fed to the rasterizer may have
/// (2^40), so that all edge-function arithmetic stays exact in `i128`.
pub const FX_COORD_MAX: i64 = 0x100_0000_0000;

/// Saturate a mathematical integer at the `i64` range.
pub open spec fn sat64(x: int) -> int {
    if x > i64::MAX as int {
        i64::MAX as int
    } else if x < i64::MIN as int {
        i64::MIN as int
    } else {
        x
    }
}

/// The absolute value of a mathematical integer.
pub open spec fn abs_i(x: int) -> int {
    if x >= 0 {
        x
    } else {
        -x
    }
}

/// Division rounding toward zero, for a nonzero divisor of either sign.
pub open spec fn dtz(a: int, b: int) -> int {
    if (a < 0) != (b < 0) {
        -(abs_i(a) / abs_i(b))
    } else {
        abs_i(a) / abs_i(b)
    }
}

/// What fixed-point addition returns.
pub open spec fn fxadd_s(a: int, b: int) -> int {
    sat64(a + b)
}

/// What fixed-point subtraction returns.
pub open spec fn fxsub_s(a: int, b: int) -> int {
    sat64(a - b)
}

/// What fixed-point negation returns.
pub open spec fn fxneg_s(a: int) -> int {
    sat64(-a)
}

/// What fixed-point multiplication returns: the product scaled back down,
/// rounded toward zero, saturated.
pub open spec fn fxmul_s(a: int, b: int) -> int {
    sat64(dtz(a * b, FX_ONE as int))
}

/// What fixed-point division returns: zero when the divisor is zero
/// (callers that care test the divisor first), otherwise the quotient
/// scaled up, rounded toward zero, saturated.
pub open spec fn fxdiv_s(a: int, b: int) -> int {
    if b == 0 {
        0
    } else {
        sat64(dtz(a * (FX_ONE as int), b))
    }
}

/// Clamp to a closed interval.
pub open spec fn clamp_s(x: int, lo: int, hi: int) -> int {
    if x < lo {
        lo
    } else if x > hi {
        hi
    } else {
        x
    }
}

/// Saturating fixed-point addition.
pub fn fx_add(a: i64, b: i64) -> (r: i64)
    ensures
        r == fxadd_s(a as int, b as int),
{
    if b >= 0 {
        if a > i64::MAX - b {
            i64::MAX
        } else {
            a + b
        }
    } else {
        if a < i64::MIN - b {
            i64::MIN
        } else {
            a + b
        }
    }
}

/// Saturating fixed-point subtraction.
pub fn fx_sub(a: i64, b: i64) -> (r: i64)
    ensures
        r == fxsub_s(a as int, b as int),
{
    if b >= 0 {
        if a < i64::MIN + b {
            i64::MIN
        } else {
            a - b
        }
    } else {
        if a > i64::MAX + b {
            i64::MAX
        } else {
            a - b
        }
    }
}

/// Saturating negation.
pub fn fx_neg(a: i64) -> (r: i64)
    ensures
        r == fxneg_s(a as int),
{
    if a == i64::MIN {
        i64::MAX
    } else {
        -a
    }
}

/// The absolute value of an `i64`, as a `u64` (total, unlike `abs`).
pub fn abs_u64(a: i64) -> (r: u64)
    ensures
        r == abs_i(a as int),
{
    if a >= 0 {
        a as u64
    } else if a == i64::MIN {
        0x8000_0000_0000_0000u64
    } else {
        (-a) as u64
    }
}

/// Turn the magnitude `q` of a result back into a signed saturated value.
fn apply_sign_sat(q: u128, neg: bool) -> (r: i64)
    ensures
        r == sat64(if neg { -(q as int) } else { q as int }),
{
    if neg {
        if q >= 0x8000_0000_0000_0000u128 {
            i64::MIN
        } else {
            -(q as i64)
        }
    } else {
        if q > i64::MAX as u128 {
            i64::MAX
        } else {
            q as i64
        }
    }
}

/// The magnitudes multiply: |a| * |b| == |a * b|, and the product is
/// negative exactly when the signs differ and neither factor is zero.
proof fn lemma_abs_mul(a: int, b: int)
    by (nonlinear_arith)
    ensures
        abs_i(a) * abs_i(b) == abs_i(a * b),
        (a * b < 0) == ((a < 0) != (b < 0) && a * b != 0),
{
}

/// Saturating fixed-point multiplication.
pub fn fx_mul(a: i64, b: i64) -> (r: i64)
    ensures
        r == fxmul_s(a as int, b as int),
{
    let neg: bool = (a < 0) != (b < 0);
    let aa: u128 = abs_u64(a) as u128;
    let bb: u128 = abs_u64(b) as u128;
    proof {
        assert(aa * bb <= 0x8000_0000_0000_0000u128 * 0x8000_0000_0000_0000u128)
            by (nonlinear_arith)
            requires
                aa <= 0x8000_0000_0000_0000u128,
                bb <= 0x8000_0000_0000_0000u128,
        ;
        lemma_abs_mul(a as int, b as int);
    }
    let p: u128 = aa * bb;
    let q: u128 = p / 65536;
    apply_sign_sat(q, neg && q > 0)
}

/// Saturating fixed-point division; a zero divisor yields zero.
pub fn fx_div(a: i64, b: i64) -> (r: i64)
    ensures
        r == fxdiv_s(a as int, b as int),
{
    if b == 0 {
        return 0;
    }
    let neg: bool = (a < 0) != (b < 0);
    let aa: u128 = abs_u64(a) as u128;
    let bb: u128 = abs_u64(b) as u128;
    proof {
        lemma_abs_mul(a as int, 65536);
    }
    let p: u128 = aa * 65536;
    let q: u128 = p / bb;
    apply_sign_sat(q, neg && q > 0)
}

/// Clamp a value into a closed interval.
pub fn fx_clamp(x: i64, lo: i64, hi: i64) -> (r: i64)
    requires
        lo <= hi,
    ensures
        r == clamp_s(x as int, lo as int, hi as int),
{
    if x < lo {
        lo
    } else if x > hi {
        hi
    } else {
        x
    }
}

/// What the saturating absolute value returns.
pub open spec fn fxabs_s(a: int) -> int {
    sat64(abs_i(a))
}

/// The saturating absolute value.
pub fn fx_abs(a: i64) -> (r: i64)
    ensures
        r == fxabs_s(a as int),
{
    if a == i64::MIN {
        i64::MAX
    } else if a < 0 {
        -a
    } else {
        a
    }
}

/// What converting a whole number into fixed point returns.
pub open spec fn fxofint_s(n: int) -> int {
    sat64(n * (FX_ONE as int))
}

/// The fixed-point value of a whole number.
pub fn fx_of_int(n: i64) -> (r: i64)
    ensures
        r == fxofint_s(n as int),
{
    if n > 0x7fff_ffff_ffff {
        i64::MAX
    } else if n < -0x7fff_ffff_ffff {
        i64::MIN
    } else {
        n * FX_ONE
    }
}

/// Multiplying by one in fixed point is the identity, short of
/// saturation.
pub proof fn lemma_fxmul_one(x: int)
    requires
        -0x4000_0000_0000_0000 <= x <= 0x4000_0000_0000_0000,
    ensures
        fxmul_s(x, FX_ONE as int) == x,
{
    if x >= 0 {
        vstd::arithmetic::div_mod::lemma_div_multiples_vanish(x, 65536);
    } else {
        assert(x * 65536 == -((-x) * 65536)) by (nonlinear_arith);
        vstd::arithmetic::div_mod::lemma_div_multiples_vanish(-x, 65536);
    }
}

/// Multiplying by minus one in fixed point negates, short of
/// saturation.
pub proof fn lemma_fxmul_neg_one(x: int)
    requires
        -0x4000_0000_0000_0000 <= x <= 0x4000_0000_0000_0000,
    ensures
        fxmul_s(x, -(FX_ONE as int)) == -x,
{
    assert(x * (-65536) == -(x * 65536));
    if x >= 0 {
        vstd::arithmetic::div_mod::lemma_div_multiples_vanish(x, 65536);
    } else {
        assert(x * 65536 == -((-x) * 65536)) by (nonlinear_arith);
        vstd::arithmetic::div_mod::lemma_div_multiples_vanish(-x, 65536);
    }
}

/// The integer square root: the largest `r` with `r * r <= x`.
pub open spec fn isqrt_s(x: nat) -> nat
    decreases x,
{
    if x == 0 {
        0
    } else {
        let r = isqrt_s((x - 1) as nat);
        if (r + 1) * (r + 1) <= x {
            r + 1
        } else {
            r
        }
    }
}

/// `isqrt_s` brackets its argument between consecutive squares.
pub proof fn lemma_isqrt_bounds(x: nat)
    ensures
        isqrt_s(x) * isqrt_s(x) <= x,
        x < (isqrt_s(x) + 1) * (isqrt_s(x) + 1),
    decreases x,
{
    if x == 0 {
        let s = isqrt_s(x);
        assert(s == 0);
        assert(x < (s + 1) * (s + 1)) by (nonlinear_arith)
            requires
                s == 0,
                x == 0nat,
        ;
    } else {
        lemma_isqrt_bounds((x - 1) as nat);
        let r = isqrt_s((x - 1) as nat);
        assert(r * r <= x - 1);
        assert(x - 1 < (r + 1) * (r + 1));
        if (r + 1) * (r + 1) <= x {
            assert(isqrt_s(x) == r + 1);
            assert((r + 2) * (r + 2) > (r + 1) * (r + 1)) by (nonlinear_arith);
            assert(x < (r + 2) * (r + 2));
            assert(x < (isqrt_s(x) + 1) * (isqrt_s(x) + 1));
        } else {
            assert(isqrt_s(x) == r);
            assert(isqrt_s(x) * isqrt_s(x) <= x);
            assert(x < (isqrt_s(x) + 1) * (isqrt_s(x) + 1));
        }
    }
}

/// Any value bracketed between consecutive squares is the integer root.
pub proof fn lemma_isqrt_unique(x: nat, r: nat)
    requires
        r * r <= x,
        x < (r + 1) * (r + 1),
    ensures
        r == isqrt_s(x),
{
    lemma_isqrt_bounds(x);
    let s = isqrt_s(x);
    if r < s {
        assert((r + 1) * (r + 1) <= s * s) by (nonlinear_arith)
            requires
                r + 1 <= s,
        ;
    }
    if s < r {
        assert((s + 1) * (s + 1) <= r * r) by (nonlinear_arith)
            requires
                s + 1 <= r,
        ;
    }
}

/// The integer square root of a `u128`, by bisection.
pub fn isqrt_u128(x: u128) -> (r: u128)
    ensures
        r == isqrt_s(x as nat),
        r * r <= x,
        x < (r + 1) * (r + 1),
{
    let mut lo: u128 = 0;
    let mut hi: u128 = 0x1_0000_0000_0000_0000u128;
    proof {
        assert(x < hi * hi) by (nonlinear_arith)
            requires
                hi == 0x1_0000_0000_0000_0000u128,
                x <= u128::MAX,
        ;
    }
    while hi - lo > 1
        invariant
            lo < hi <= 0x1_0000_0000_0000_0000u128,
            lo * lo <= x,
            x < hi * hi,
        decreases hi - lo,
    {
        let mid: u128 = lo + (hi - lo) / 2;
        proof {
            assert(mid * mid <= 0xffff_ffff_ffff_ffffu128 * 0xffff_ffff_ffff_ffffu128)
                by (nonlinear_arith)
                requires
                    mid <= 0xffff_ffff_ffff_ffffu128,
            ;
        }
        if mid * mid <= x {
            lo = mid;
        } else {
            hi = mid;
        }
    }
    proof {
        lemma_isqrt_unique(x as nat, lo as nat);
    }
    lo
}

/// Fixed-point pi and related constants.
pub const FX_PI: i64 = 205887;

/// Fixed-point 2 * pi.
pub const FX_TWO_PI: i64 = 411775;

/// Fixed-point pi / 2.
pub const FX_HALF_PI: i64 = 102944;

/// 4 / pi in fixed point: the linear coefficient of the sine parabola.
pub const FX_SIN_A: i64 = 83443;

/// 4 / pi^2 in fixed point: the quadratic coefficient of the sine parabola.
pub const FX_SIN_B: i64 = 26561;

/// An angle reduced to one turn: the representative of `x` in
/// `[0, FX_TWO_PI)`.
#[verifier::opaque]
pub open spec fn wrap_angle_s(x: int) -> int {
    if x >= 0 {
        x % (FX_TWO_PI as int)
    } else {
        let k = (-x) % (FX_TWO_PI as int);
        if k == 0 {
            0
        } else {
            FX_TWO_PI - k
        }
    }
}

/// The quadratic approximation of sine on `[0, pi]`:
/// `(4/pi) t - (4/pi^2) t^2`.
#[verifier::opaque]
pub open spec fn sin_parab_s(t: int) -> int {
    fxsub_s(fxmul_s(FX_SIN_A as int, t), fxmul_s(FX_SIN_B as int, fxmul_s(t, t)))
}

/// The library's sine: the angle wrapped to one turn, the parabola on the
/// first half turn and its negation on the second, clamped to `[-1, 1]`.
#[verifier::opaque]
pub open spec fn fxsin_s(x: int) -> int {
    let r = wrap_angle_s(x);
    let v = if r < FX_PI {
        sin_parab_s(r)
    } else {
        fxneg_s(sin_parab_s(r - FX_PI))
    };
    clamp_s(v, -(FX_ONE as int), FX_ONE as int)
}

/// Cosine as the sine shifted a quarter turn.
#[verifier::opaque]
pub open spec fn fxcos_s(x: int) -> int {
    fxsin_s(fxadd_s(x, FX_HALF_PI as int))
}

/// Reduce an angle to `[0, FX_TWO_PI)`.
fn wrap_angle(x: i64) -> (r: i64)
    ensures
        r == wrap_angle_s(x as int),
        0 <= r < FX_TWO_PI,
{
    proof {
        reveal(wrap_angle_s);
    }
    if x >= 0 {
        ((x as u64) % (FX_TWO_PI as u64)) as i64
    } else {
        let k: u64 = abs_u64(x) % (FX_TWO_PI as u64);
        if k == 0 {
            0
        } else {
            FX_TWO_PI - (k as i64)
        }
    }
}

/// The sine of a fixed-point angle in radians, in `[-FX_ONE, FX_ONE]`.
pub fn fx_sin(x: i64) -> (r: i64)
    ensures
        r == fxsin_s(x as int),
        -FX_ONE <= r <= FX_ONE,
{
    proof {
        reveal(fxsin_s);
        reveal(sin_parab_s);
    }
    let t: i64 = wrap_angle(x);
    let v: i64 = if t < FX_PI {
        let a: i64 = fx_mul(FX_SIN_A, t);
        let b: i64 = fx_mul(FX_SIN_B, fx_mul(t, t));
        fx_sub(a, b)
    } else {
        let u: i64 = t - FX_PI;
        let a: i64 = fx_mul(FX_SIN_A, u);
        let b: i64 = fx_mul(FX_SIN_B, fx_mul(u, u));
        fx_neg(fx_sub(a, b))
    };
    fx_clamp(v, -FX_ONE, FX_ONE)
}

/// The cosine of a fixed-point angle in radians, in `[-FX_ONE, FX_ONE]`.
pub fn fx_cos(x: i64) -> (r: i64)
    ensures
        r == fxcos_s(x as int),
        -FX_ONE <= r <= FX_ONE,
{
    proof {
        reveal(fxcos_s);
    }
    fx_sin(fx_add(x, FX_HALF_PI))
}

} // verus!
