//! Fixed-point 3x3 and 4x4 matrices.
//!
//! Matrices are stored row-major in named fields (`mRC` is row `R`,
//! column `C`). The 4x4 form carries the model, view, projection and
//! viewport transforms; the 3x3 form carries the normal transform, with
//! an adjugate-over-determinant inverse that falls back to the identity
//! on a singular input.

use vstd::prelude::*;
use crate::fixed::fx_add;
use crate::fixed::fx_div;
use crate::fixed::fx_mul;
use crate::fixed::fx_neg;
use crate::fixed::fx_sub;
use crate::fixed::fxadd_s;
use crate::fixed::fxdiv_s;
use crate::fixed::fxmul_s;
use crate::fixed::fxneg_s;
use crate::fixed::fxsub_s;
use crate::fixed::FX_ONE;
use crate::vec3::Vec3Fx;
use crate::vec3::Vec4Fx;

verus! {

/// A row-major fixed-point 3x3 matrix.
#[derive(Debug, Clone, Copy, PartialEq, Eq, Structural)]
pub struct Mat3Fx {
    pub m00: i64,
    pub m01: i64,
    pub m02: i64,
    pub m10: i64,
    pub m11: i64,
    pub m12: i64,
    pub m20: i64,
    pub m21: i64,
    pub m22: i64,
}

/// A row-major fixed-point 4x4 matrix.
#[derive(Debug, Clone, Copy, PartialEq, Eq, Structural)]
pub struct Mat4Fx {
    pub m00: i64,
    pub m01: i64,
    pub m02: i64,
    pub m03: i64,
    pub m10: i64,
    pub m11: i64,
    pub m12: i64,
    pub m13: i64,
    pub m20: i64,
    pub m21: i64,
    pub m22: i64,
    pub m23: i64,
    pub m30: i64,
    pub m31: i64,
    pub m32: i64,
    pub m33: i64,
}

/// The fixed-point dot product of a matrix row with a column.
#[verifier::opaque]
pub open spec fn row_dot4_s(
    a0: int,
    a1: int,
    a2: int,
    a3: int,
    b0: int,
    b1: int,
    b2: int,
    b3: int,
) -> int {
    fxadd_s(fxadd_s(fxadd_s(fxmul_s(a0, b0), fxmul_s(a1, b1)), fxmul_s(a2, b2)), fxmul_s(a3, b3))
}

/// The fixed-point dot product of a 3-row with a 3-column.
pub open spec fn row_dot3_s(a0: int, a1: int, a2: int, b0: int, b1: int, b2: int) -> int {
    fxadd_s(fxadd_s(fxmul_s(a0, b0), fxmul_s(a1, b1)), fxmul_s(a2, b2))
}

/// The 4x4 identity.
pub open spec fn mat4_identity_s() -> Mat4Fx {
    Mat4Fx {
        m00: FX_ONE,
        m01: 0,
        m02: 0,
        m03: 0,
        m10: 0,
        m11: FX_ONE,
        m12: 0,
        m13: 0,
        m20: 0,
        m21: 0,
        m22: FX_ONE,
        m23: 0,
        m30: 0,
        m31: 0,
        m32: 0,
        m33: FX_ONE,
    }
}

/// The 3x3 identity.
pub open spec fn mat3_identity_s() -> Mat3Fx {
    Mat3Fx { m00: FX_ONE, m01: 0, m02: 0, m10: 0, m11: FX_ONE, m12: 0, m20: 0, m21: 0, m22: FX_ONE }
}

/// The fixed-point matrix product `a * b`.
pub open spec fn mat4_mul_s(a: Mat4Fx, b: Mat4Fx) -> Mat4Fx {
    Mat4Fx {
        m00: row_dot4_s(
            a.m00 as int,
            a.m01 as int,
            a.m02 as int,
            a.m03 as int,
            b.m00 as int,
            b.m10 as int,
            b.m20 as int,
            b.m30 as int,
        ) as i64,
        m01: row_dot4_s(
            a.m00 as int,
            a.m01 as int,
            a.m02 as int,
            a.m03 as int,
            b.m01 as int,
            b.m11 as int,
            b.m21 as int,
            b.m31 as int,
        ) as i64,
        m02: row_dot4_s(
            a.m00 as int,
            a.m01 as int,
            a.m02 as int,
            a.m03 as int,
            b.m02 as int,
            b.m12 as int,
            b.m22 as int,
            b.m32 as int,
        ) as i64,
        m03: row_dot4_s(
            a.m00 as int,
            a.m01 as int,
            a.m02 as int,
            a.m03 as int,
            b.m03 as int,
            b.m13 as int,
            b.m23 as int,
            b.m33 as int,
        ) as i64,
        m10: row_dot4_s(
            a.m10 as int,
            a.m11 as int,
            a.m12 as int,
            a.m13 as int,
            b.m00 as int,
            b.m10 as int,
            b.m20 as int,
            b.m30 as int,
        ) as i64,
        m11: row_dot4_s(
            a.m10 as int,
            a.m11 as int,
            a.m12 as int,
            a.m13 as int,
            b.m01 as int,
            b.m11 as int,
            b.m21 as int,
            b.m31 as int,
        ) as i64,
        m12: row_dot4_s(
            a.m10 as int,
            a.m11 as int,
            a.m12 as int,
            a.m13 as int,
            b.m02 as int,
            b.m12 as int,
            b.m22 as int,
            b.m32 as int,
        ) as i64,
        m13: row_dot4_s(
            a.m10 as int,
            a.m11 as int,
            a.m12 as int,
            a.m13 as int,
            b.m03 as int,
            b.m13 as int,
            b.m23 as int,
            b.m33 as int,
        ) as i64,
        m20: row_dot4_s(
            a.m20 as int,
            a.m21 as int,
            a.m22 as int,
            a.m23 as int,
            b.m00 as int,
            b.m10 as int,
            b.m20 as int,
            b.m30 as int,
        ) as i64,
        m21: row_dot4_s(
            a.m20 as int,
            a.m21 as int,
            a.m22 as int,
            a.m23 as int,
            b.m01 as int,
            b.m11 as int,
            b.m21 as int,
            b.m31 as int,
        ) as i64,
        m22: row_dot4_s(
            a.m20 as int,
            a.m21 as int,
            a.m22 as int,
            a.m23 as int,
            b.m02 as int,
            b.m12 as int,
            b.m22 as int,
            b.m32 as int,
        ) as i64,
        m23: row_dot4_s(
            a.m20 as int,
            a.m21 as int,
            a.m22 as int,
            a.m23 as int,
            b.m03 as int,
            b.m13 as int,
            b.m23 as int,
            b.m33 as int,
        ) as i64,
        m30: row_dot4_s(
            a.m30 as int,
            a.m31 as int,
            a.m32 as int,
            a.m33 as int,
            b.m00 as int,
            b.m10 as int,
            b.m20 as int,
            b.m30 as int,
        ) as i64,
        m31: row_dot4_s(
            a.m30 as int,
            a.m31 as int,
            a.m32 as int,
            a.m33 as int,
            b.m01 as int,
            b.m11 as int,
            b.m21 as int,
            b.m31 as int,
        ) as i64,
        m32: row_dot4_s(
            a.m30 as int,
            a.m31 as int,
            a.m32 as int,
            a.m33 as int,
            b.m02 as int,
            b.m12 as int,
            b.m22 as int,
            b.m32 as int,
        ) as i64,
        m33: row_dot4_s(
            a.m30 as int,
            a.m31 as int,
            a.m32 as int,
            a.m33 as int,
            b.m03 as int,
            b.m13 as int,
            b.m23 as int,
            b.m33 as int,
        ) as i64,
    }
}

/// The matrix applied to a homogeneous vector.
pub open spec fn mat4_apply_s(m: Mat4Fx, v: Vec4Fx) -> Vec4Fx {
    Vec4Fx {
        x: row_dot4_s(
            m.m00 as int,
            m.m01 as int,
            m.m02 as int,
            m.m03 as int,
            v.x as int,
            v.y as int,
            v.z as int,
            v.w as int,
        ) as i64,
        y: row_dot4_s(
            m.m10 as int,
            m.m11 as int,
            m.m12 as int,
            m.m13 as int,
            v.x as int,
            v.y as int,
            v.z as int,
            v.w as int,
        ) as i64,
        z: row_dot4_s(
            m.m20 as int,
            m.m21 as int,
            m.m22 as int,
            m.m23 as int,
            v.x as int,
            v.y as int,
            v.z as int,
            v.w as int,
        ) as i64,
        w: row_dot4_s(
            m.m30 as int,
            m.m31 as int,
            m.m32 as int,
            m.m33 as int,
            v.x as int,
            v.y as int,
            v.z as int,
            v.w as int,
        ) as i64,
    }
}

/// The 3x3 matrix applied to a vector.
pub open spec fn mat3_apply_s(m: Mat3Fx, v: Vec3Fx) -> Vec3Fx {
    Vec3Fx {
        x: row_dot3_s(
            m.m00 as int,
            m.m01 as int,
            m.m02 as int,
            v.x as int,
            v.y as int,
            v.z as int,
        ) as i64,
        y: row_dot3_s(
            m.m10 as int,
            m.m11 as int,
            m.m12 as int,
            v.x as int,
            v.y as int,
            v.z as int,
        ) as i64,
        z: row_dot3_s(
            m.m20 as int,
            m.m21 as int,
            m.m22 as int,
            v.x as int,
            v.y as int,
            v.z as int,
        ) as i64,
    }
}

/// The upper-left 3x3 block of a 4x4 matrix.
pub open spec fn mat3_of_mat4_s(m: Mat4Fx) -> Mat3Fx {
    Mat3Fx {
        m00: m.m00,
        m01: m.m01,
        m02: m.m02,
        m10: m.m10,
        m11: m.m11,
        m12: m.m12,
        m20: m.m20,
        m21: m.m21,
        m22: m.m22,
    }
}

/// The transpose of a 3x3 matrix.
pub open spec fn mat3_transpose_s(m: Mat3Fx) -> Mat3Fx {
    Mat3Fx {
        m00: m.m00,
        m01: m.m10,
        m02: m.m20,
        m10: m.m01,
        m11: m.m11,
        m12: m.m21,
        m20: m.m02,
        m21: m.m12,
        m22: m.m22,
    }
}

/// The fixed-point determinant of a 3x3 matrix.
pub open spec fn mat3_det_s(m: Mat3Fx) -> int {
    fxadd_s(
        fxsub_s(
            fxmul_s(
                m.m00 as int,
                fxsub_s(fxmul_s(m.m11 as int, m.m22 as int), fxmul_s(m.m12 as int, m.m21 as int)),
            ),
            fxmul_s(
                m.m01 as int,
                fxsub_s(fxmul_s(m.m10 as int, m.m22 as int), fxmul_s(m.m12 as int, m.m20 as int)),
            ),
        ),
        fxmul_s(
            m.m02 as int,
            fxsub_s(fxmul_s(m.m10 as int, m.m21 as int), fxmul_s(m.m11 as int, m.m20 as int)),
        ),
    )
}

/// The adjugate-over-determinant inverse of a 3x3 matrix; a singular
/// matrix (zero fixed-point determinant) falls back to the identity.
pub open spec fn mat3_inverse_s(m: Mat3Fx) -> Mat3Fx {
    let det = mat3_det_s(m);
    if det == 0 {
        mat3_identity_s()
    } else {
        Mat3Fx {
            m00: fxdiv_s(
                fxsub_s(fxmul_s(m.m11 as int, m.m22 as int), fxmul_s(m.m12 as int, m.m21 as int)),
                det,
            ) as i64,
            m01: fxdiv_s(
                fxneg_s(
                    fxsub_s(
                        fxmul_s(m.m01 as int, m.m22 as int),
                        fxmul_s(m.m02 as int, m.m21 as int),
                    ),
                ),
                det,
            ) as i64,
            m02: fxdiv_s(
                fxsub_s(fxmul_s(m.m01 as int, m.m12 as int), fxmul_s(m.m02 as int, m.m11 as int)),
                det,
            ) as i64,
            m10: fxdiv_s(
                fxneg_s(
                    fxsub_s(
                        fxmul_s(m.m10 as int, m.m22 as int),
                        fxmul_s(m.m12 as int, m.m20 as int),
                    ),
                ),
                det,
            ) as i64,
            m11: fxdiv_s(
                fxsub_s(fxmul_s(m.m00 as int, m.m22 as int), fxmul_s(m.m02 as int, m.m20 as int)),
                det,
            ) as i64,
            m12: fxdiv_s(
                fxneg_s(
                    fxsub_s(
                        fxmul_s(m.m00 as int, m.m12 as int),
                        fxmul_s(m.m02 as int, m.m10 as int),
                    ),
                ),
                det,
            ) as i64,
            m20: fxdiv_s(
                fxsub_s(fxmul_s(m.m10 as int, m.m21 as int), fxmul_s(m.m11 as int, m.m20 as int)),
                det,
            ) as i64,
            m21: fxdiv_s(
                fxneg_s(
                    fxsub_s(
                        fxmul_s(m.m00 as int, m.m21 as int),
                        fxmul_s(m.m01 as int, m.m20 as int),
                    ),
                ),
                det,
            ) as i64,
            m22: fxdiv_s(
                fxsub_s(fxmul_s(m.m00 as int, m.m11 as int), fxmul_s(m.m01 as int, m.m10 as int)),
                det,
            ) as i64,
        }
    }
}

/// One row-by-column fixed-point dot product.
fn row_dot4(a0: i64, a1: i64, a2: i64, a3: i64, b0: i64, b1: i64, b2: i64, b3: i64) -> (r: i64)
    ensures
        r == row_dot4_s(
            a0 as int,
            a1 as int,
            a2 as int,
            a3 as int,
            b0 as int,
            b1 as int,
            b2 as int,
            b3 as int,
        ),
{
    proof {
        reveal(row_dot4_s);
    }
    fx_add(fx_add(fx_add(fx_mul(a0, b0), fx_mul(a1, b1)), fx_mul(a2, b2)), fx_mul(a3, b3))
}

/// One 3-row-by-column fixed-point dot product.
fn row_dot3(a0: i64, a1: i64, a2: i64, b0: i64, b1: i64, b2: i64) -> (r: i64)
    ensures
        r == row_dot3_s(a0 as int, a1 as int, a2 as int, b0 as int, b1 as int, b2 as int),
{
    fx_add(fx_add(fx_mul(a0, b0), fx_mul(a1, b1)), fx_mul(a2, b2))
}

/// The 4x4 identity matrix.
pub fn mat4_identity() -> (r: Mat4Fx)
    ensures
        r == mat4_identity_s(),
{
    Mat4Fx {
        m00: FX_ONE,
        m01: 0,
        m02: 0,
        m03: 0,
        m10: 0,
        m11: FX_ONE,
        m12: 0,
        m13: 0,
        m20: 0,
        m21: 0,
        m22: FX_ONE,
        m23: 0,
        m30: 0,
        m31: 0,
        m32: 0,
        m33: FX_ONE,
    }
}

/// The 3x3 identity matrix.
pub fn mat3_identity() -> (r: Mat3Fx)
    ensures
        r == mat3_identity_s(),
{
    Mat3Fx { m00: FX_ONE, m01: 0, m02: 0, m10: 0, m11: FX_ONE, m12: 0, m20: 0, m21: 0, m22: FX_ONE }
}

/// The fixed-point matrix product `a * b`.
pub fn mat4_mul(a: &Mat4Fx, b: &Mat4Fx) -> (r: Mat4Fx)
    ensures
        r == mat4_mul_s(*a, *b),
{
    Mat4Fx {
        m00: row_dot4(a.m00, a.m01, a.m02, a.m03, b.m00, b.m10, b.m20, b.m30),
        m01: row_dot4(a.m00, a.m01, a.m02, a.m03, b.m01, b.m11, b.m21, b.m31),
        m02: row_dot4(a.m00, a.m01, a.m02, a.m03, b.m02, b.m12, b.m22, b.m32),
        m03: row_dot4(a.m00, a.m01, a.m02, a.m03, b.m03, b.m13, b.m23, b.m33),
        m10: row_dot4(a.m10, a.m11, a.m12, a.m13, b.m00, b.m10, b.m20, b.m30),
        m11: row_dot4(a.m10, a.m11, a.m12, a.m13, b.m01, b.m11, b.m21, b.m31),
        m12: row_dot4(a.m10, a.m11, a.m12, a.m13, b.m02, b.m12, b.m22, b.m32),
        m13: row_dot4(a.m10, a.m11, a.m12, a.m13, b.m03, b.m13, b.m23, b.m33),
        m20: row_dot4(a.m20, a.m21, a.m22, a.m23, b.m00, b.m10, b.m20, b.m30),
        m21: row_dot4(a.m20, a.m21, a.m22, a.m23, b.m01, b.m11, b.m21, b.m31),
        m22: row_dot4(a.m20, a.m21, a.m22, a.m23, b.m02, b.m12, b.m22, b.m32),
        m23: row_dot4(a.m20, a.m21, a.m22, a.m23, b.m03, b.m13, b.m23, b.m33),
        m30: row_dot4(a.m30, a.m31, a.m32, a.m33, b.m00, b.m10, b.m20, b.m30),
        m31: row_dot4(a.m30, a.m31, a.m32, a.m33, b.m01, b.m11, b.m21, b.m31),
        m32: row_dot4(a.m30, a.m31, a.m32, a.m33, b.m02, b.m12, b.m22, b.m32),
        m33: row_dot4(a.m30, a.m31, a.m32, a.m33, b.m03, b.m13, b.m23, b.m33),
    }
}

/// The matrix applied to a homogeneous vector.
pub fn mat4_apply(m: &Mat4Fx, v: Vec4Fx) -> (r: Vec4Fx)
    ensures
        r == mat4_apply_s(*m, v),
{
    Vec4Fx {
        x: row_dot4(m.m00, m.m01, m.m02, m.m03, v.x, v.y, v.z, v.w),
        y: row_dot4(m.m10, m.m11, m.m12, m.m13, v.x, v.y, v.z, v.w),
        z: row_dot4(m.m20, m.m21, m.m22, m.m23, v.x, v.y, v.z, v.w),
        w: row_dot4(m.m30, m.m31, m.m32, m.m33, v.x, v.y, v.z, v.w),
    }
}

/// The 3x3 matrix applied to a vector.
pub fn mat3_apply(m: &Mat3Fx, v: Vec3Fx) -> (r: Vec3Fx)
    ensures
        r == mat3_apply_s(*m, v),
{
    Vec3Fx {
        x: row_dot3(m.m00, m.m01, m.m02, v.x, v.y, v.z),
        y: row_dot3(m.m10, m.m11, m.m12, v.x, v.y, v.z),
        z: row_dot3(m.m20, m.m21, m.m22, v.x, v.y, v.z),
    }
}

/// The upper-left 3x3 block of a 4x4 matrix.
pub fn mat3_of_mat4(m: &Mat4Fx) -> (r: Mat3Fx)
    ensures
        r == mat3_of_mat4_s(*m),
{
    Mat3Fx {
        m00: m.m00,
        m01: m.m01,
        m02: m.m02,
        m10: m.m10,
        m11: m.m11,
        m12: m.m12,
        m20: m.m20,
        m21: m.m21,
        m22: m.m22,
    }
}

/// The transpose of a 3x3 matrix.
pub fn mat3_transpose(m: &Mat3Fx) -> (r: Mat3Fx)
    ensures
        r == mat3_transpose_s(*m),
{
    Mat3Fx {
        m00: m.m00,
        m01: m.m10,
        m02: m.m20,
        m10: m.m01,
        m11: m.m11,
        m12: m.m21,
        m20: m.m02,
        m21: m.m12,
        m22: m.m22,
    }
}

/// The fixed-point determinant of a 3x3 matrix.
pub fn mat3_det(m: &Mat3Fx) -> (r: i64)
    ensures
        r == mat3_det_s(*m),
{
    let c0: i64 = fx_sub(fx_mul(m.m11, m.m22), fx_mul(m.m12, m.m21));
    let c1: i64 = fx_sub(fx_mul(m.m10, m.m22), fx_mul(m.m12, m.m20));
    let c2: i64 = fx_sub(fx_mul(m.m10, m.m21), fx_mul(m.m11, m.m20));
    fx_add(fx_sub(fx_mul(m.m00, c0), fx_mul(m.m01, c1)), fx_mul(m.m02, c2))
}

/// The adjugate-over-determinant inverse; the identity on a singular
/// input.
pub fn mat3_inverse(m: &Mat3Fx) -> (r: Mat3Fx)
    ensures
        r == mat3_inverse_s(*m),
{
    let det: i64 = mat3_det(m);
    if det == 0 {
        mat3_identity()
    } else {
        Mat3Fx {
            m00: fx_div(fx_sub(fx_mul(m.m11, m.m22), fx_mul(m.m12, m.m21)), det),
            m01: fx_div(fx_neg(fx_sub(fx_mul(m.m01, m.m22), fx_mul(m.m02, m.m21))), det),
            m02: fx_div(fx_sub(fx_mul(m.m01, m.m12), fx_mul(m.m02, m.m11)), det),
            m10: fx_div(fx_neg(fx_sub(fx_mul(m.m10, m.m22), fx_mul(m.m12, m.m20))), det),
            m11: fx_div(fx_sub(fx_mul(m.m00, m.m22), fx_mul(m.m02, m.m20)), det),
            m12: fx_div(fx_neg(fx_sub(fx_mul(m.m00, m.m12), fx_mul(m.m02, m.m10))), det),
            m20: fx_div(fx_sub(fx_mul(m.m10, m.m21), fx_mul(m.m11, m.m20)), det),
            m21: fx_div(fx_neg(fx_sub(fx_mul(m.m00, m.m21), fx_mul(m.m01, m.m20))), det),
            m22: fx_div(fx_sub(fx_mul(m.m00, m.m11), fx_mul(m.m01, m.m10)), det),
        }
    }
}

} // verus!
