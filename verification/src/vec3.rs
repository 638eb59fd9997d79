//! Three- and four-component fixed-point vectors.
//!
//! These carry positions, normals and homogeneous coordinates through the
//! pipeline. Component arithmetic is the saturating Q16.16 arithmetic of
//! `fixed`; the norm is computed exactly with an integer square root, so
//! normalization needs its components within `FX_COORD_MAX`.

use vstd::prelude::*;
use crate::fixed::FX_COORD_MAX;
use crate::fixed::fx_add;
use crate::fixed::fx_clamp;
use crate::fixed::fx_div;
use crate::fixed::fx_mul;
use crate::fixed::fx_sub;
use crate::fixed::fxadd_s;
use crate::fixed::fxdiv_s;
use crate::fixed::fxmul_s;
use crate::fixed::fxsub_s;
use crate::fixed::clamp_s;
use crate::fixed::isqrt_s;
use crate::fixed::isqrt_u128;

verus! {

/// A two-component fixed-point vector (texture coordinates).
#[derive(Debug, Clone, Copy, PartialEq, Eq, Structural)]
pub struct Vec2Fx {
    pub x: i64,
    pub y: i64,
}

/// A three-component fixed-point vector.
#[derive(Debug, Clone, Copy, PartialEq, Eq, Structural)]
pub struct Vec3Fx {
    pub x: i64,
    pub y: i64,
    pub z: i64,
}

/// A four-component fixed-point vector (homogeneous coordinates).
#[derive(Debug, Clone, Copy, PartialEq, Eq, Structural)]
pub struct Vec4Fx {
    pub x: i64,
    pub y: i64,
    pub z: i64,
    pub w: i64,
}

/// Component-wise sum.
pub open spec fn v3_add_s(a: Vec3Fx, b: Vec3Fx) -> Vec3Fx {
    Vec3Fx {
        x: fxadd_s(a.x as int, b.x as int) as i64,
        y: fxadd_s(a.y as int, b.y as int) as i64,
        z: fxadd_s(a.z as int, b.z as int) as i64,
    }
}

/// Component-wise difference.
pub open spec fn v3_sub_s(a: Vec3Fx, b: Vec3Fx) -> Vec3Fx {
    Vec3Fx {
        x: fxsub_s(a.x as int, b.x as int) as i64,
        y: fxsub_s(a.y as int, b.y as int) as i64,
        z: fxsub_s(a.z as int, b.z as int) as i64,
    }
}

/// The vector scaled by a fixed-point factor.
pub open spec fn v3_scale_s(a: Vec3Fx, t: int) -> Vec3Fx {
    Vec3Fx {
        x: fxmul_s(a.x as int, t) as i64,
        y: fxmul_s(a.y as int, t) as i64,
        z: fxmul_s(a.z as int, t) as i64,
    }
}

/// The fixed-point dot product.
pub open spec fn v3_dot_s(a: Vec3Fx, b: Vec3Fx) -> int {
    fxadd_s(
        fxadd_s(fxmul_s(a.x as int, b.x as int), fxmul_s(a.y as int, b.y as int)),
        fxmul_s(a.z as int, b.z as int),
    )
}

/// The fixed-point cross product.
pub open spec fn v3_cross_s(a: Vec3Fx, b: Vec3Fx) -> Vec3Fx {
    Vec3Fx {
        x: fxsub_s(fxmul_s(a.y as int, b.z as int), fxmul_s(a.z as int, b.y as int)) as i64,
        y: fxsub_s(fxmul_s(a.z as int, b.x as int), fxmul_s(a.x as int, b.z as int)) as i64,
        z: fxsub_s(fxmul_s(a.x as int, b.y as int), fxmul_s(a.y as int, b.x as int)) as i64,
    }
}

/// Components clamped into `[-FX_COORD_MAX, FX_COORD_MAX]`.
pub open spec fn v3_clamp_coord_s(a: Vec3Fx) -> Vec3Fx {
    Vec3Fx {
        x: clamp_s(a.x as int, -(FX_COORD_MAX as int), FX_COORD_MAX as int) as i64,
        y: clamp_s(a.y as int, -(FX_COORD_MAX as int), FX_COORD_MAX as int) as i64,
        z: clamp_s(a.z as int, -(FX_COORD_MAX as int), FX_COORD_MAX as int) as i64,
    }
}

/// Whether all components lie within `[-FX_COORD_MAX, FX_COORD_MAX]`.
pub open spec fn v3_in_coord_range(a: Vec3Fx) -> bool {
    &&& -(FX_COORD_MAX as int) <= a.x <= FX_COORD_MAX as int
    &&& -(FX_COORD_MAX as int) <= a.y <= FX_COORD_MAX as int
    &&& -(FX_COORD_MAX as int) <= a.z <= FX_COORD_MAX as int
}

/// The Euclidean norm of the vector, exactly: the integer square root of
/// the sum of the squared components (itself a fixed-point length).
pub open spec fn v3_norm_s(a: Vec3Fx) -> int {
    isqrt_s((a.x as int * a.x as int + a.y as int * a.y as int + a.z as int * a.z as int) as nat) as int
}

/// The unit vector along `a`, component-wise `a / |a|`; the zero vector
/// stays zero.
pub open spec fn v3_normalize_s(a: Vec3Fx) -> Vec3Fx {
    let n = v3_norm_s(a);
    Vec3Fx {
        x: fxdiv_s(a.x as int, n) as i64,
        y: fxdiv_s(a.y as int, n) as i64,
        z: fxdiv_s(a.z as int, n) as i64,
    }
}

/// Component-wise vector sum.
pub fn v3_add(a: Vec3Fx, b: Vec3Fx) -> (r: Vec3Fx)
    ensures
        r == v3_add_s(a, b),
{
    Vec3Fx { x: fx_add(a.x, b.x), y: fx_add(a.y, b.y), z: fx_add(a.z, b.z) }
}

/// Component-wise vector difference.
pub fn v3_sub(a: Vec3Fx, b: Vec3Fx) -> (r: Vec3Fx)
    ensures
        r == v3_sub_s(a, b),
{
    Vec3Fx { x: fx_sub(a.x, b.x), y: fx_sub(a.y, b.y), z: fx_sub(a.z, b.z) }
}

/// The vector scaled by a fixed-point factor.
pub fn v3_scale(a: Vec3Fx, t: i64) -> (r: Vec3Fx)
    ensures
        r == v3_scale_s(a, t as int),
{
    Vec3Fx { x: fx_mul(a.x, t), y: fx_mul(a.y, t), z: fx_mul(a.z, t) }
}

/// The fixed-point dot product.
pub fn v3_dot(a: Vec3Fx, b: Vec3Fx) -> (r: i64)
    ensures
        r == v3_dot_s(a, b),
{
    fx_add(fx_add(fx_mul(a.x, b.x), fx_mul(a.y, b.y)), fx_mul(a.z, b.z))
}

/// The fixed-point cross product.
pub fn v3_cross(a: Vec3Fx, b: Vec3Fx) -> (r: Vec3Fx)
    ensures
        r == v3_cross_s(a, b),
{
    Vec3Fx {
        x: fx_sub(fx_mul(a.y, b.z), fx_mul(a.z, b.y)),
        y: fx_sub(fx_mul(a.z, b.x), fx_mul(a.x, b.z)),
        z: fx_sub(fx_mul(a.x, b.y), fx_mul(a.y, b.x)),
    }
}

/// Clamp all components into the coordinate range, so that the norm can
/// be taken.
pub fn v3_clamp_coord(a: Vec3Fx) -> (r: Vec3Fx)
    ensures
        r == v3_clamp_coord_s(a),
        v3_in_coord_range(r),
{
    Vec3Fx {
        x: fx_clamp(a.x, -FX_COORD_MAX, FX_COORD_MAX),
        y: fx_clamp(a.y, -FX_COORD_MAX, FX_COORD_MAX),
        z: fx_clamp(a.z, -FX_COORD_MAX, FX_COORD_MAX),
    }
}

/// Test whether all components lie within the coordinate range.
pub fn v3_in_range(a: Vec3Fx) -> (b: bool)
    ensures
        b == v3_in_coord_range(a),
{
    -FX_COORD_MAX <= a.x && a.x <= FX_COORD_MAX && -FX_COORD_MAX <= a.y && a.y <= FX_COORD_MAX
        && -FX_COORD_MAX <= a.z && a.z <= FX_COORD_MAX
}

/// The squared component, as a non-negative `u128`.
fn square_u128(a: i64) -> (r: u128)
    requires
        -FX_COORD_MAX <= a <= FX_COORD_MAX,
    ensures
        r == a as int * a as int,
        r <= 0x100_0000_0000u128 * 0x100_0000_0000u128,
{
    let aa: u128 = if a >= 0 {
        a as u128
    } else {
        (-a) as u128
    };
    proof {
        assert(aa * aa == a as int * a as int && aa * aa <= 0x100_0000_0000u128
            * 0x100_0000_0000u128) by (nonlinear_arith)
            requires
                aa == (if a as int >= 0 { a as int } else { -(a as int) }),
                aa <= 0x100_0000_0000u128,
        ;
    }
    aa * aa
}

/// The Euclidean norm of a vector within the coordinate range.
pub fn v3_norm(a: Vec3Fx) -> (r: i64)
    requires
        v3_in_coord_range(a),
    ensures
        r == v3_norm_s(a),
        0 <= r <= 0x200_0000_0000,
{
    let s: u128 = square_u128(a.x) + square_u128(a.y) + square_u128(a.z);
    let n: u128 = isqrt_u128(s);
    proof {
        assert(n <= 0x200_0000_0000u128) by (nonlinear_arith)
            requires
                n * n <= s,
                s <= 3 * (0x100_0000_0000u128 * 0x100_0000_0000u128),
        ;
    }
    n as i64
}

/// The unit vector along a vector within the coordinate range; the zero
/// vector stays zero.
pub fn v3_normalize(a: Vec3Fx) -> (r: Vec3Fx)
    requires
        v3_in_coord_range(a),
    ensures
        r == v3_normalize_s(a),
{
    let n: i64 = v3_norm(a);
    Vec3Fx { x: fx_div(a.x, n), y: fx_div(a.y, n), z: fx_div(a.z, n) }
}

} // verus!
