//! The transform stage: matrix builders and the vertex shader.
//!
//! `create_model_matrix` fuses scale and translation into one matrix and
//! multiplies it by the rotation `Rz * Ry * Rx`; `create_view_matrix` is
//! a right-handed look-at; `create_perspective_matrix` has a fixed 45
//! degree vertical field of view with near 0.1 and far 1000;
//! `create_viewport_matrix` maps normalized device coordinates onto
//! pixels with the Y axis flipped and Z passed through. The vertex
//! shader runs a position through projection, view and model, divides by
//! the homogeneous coordinate, maps through the viewport, and transforms
//! the normal by the inverse transpose of the model's upper-left block.

use vstd::prelude::*;
use crate::fixed::fx_cos;
use crate::fixed::fx_div;
use crate::fixed::fx_neg;
use crate::fixed::fx_sin;
use crate::fixed::fxcos_s;
use crate::fixed::fxdiv_s;
use crate::fixed::fxmul_s;
use crate::fixed::fxneg_s;
use crate::fixed::fxsin_s;
use crate::fixed::lemma_fxmul_neg_one;
use crate::fixed::lemma_fxmul_one;
use crate::fixed::FX_ONE;
use crate::matrix::mat3_apply;
use crate::matrix::mat3_apply_s;
use crate::matrix::mat3_inverse;
use crate::matrix::mat3_inverse_s;
use crate::matrix::mat3_of_mat4;
use crate::matrix::mat3_of_mat4_s;
use crate::matrix::mat3_transpose;
use crate::matrix::mat3_transpose_s;
use crate::matrix::mat4_apply;
use crate::matrix::mat4_apply_s;
use crate::matrix::mat4_mul;
use crate::matrix::mat4_mul_s;
use crate::matrix::Mat4Fx;
use crate::vec3::v3_clamp_coord;
use crate::vec3::v3_clamp_coord_s;
use crate::vec3::v3_cross;
use crate::vec3::v3_cross_s;
use crate::vec3::v3_dot;
use crate::vec3::v3_dot_s;
use crate::vec3::v3_normalize;
use crate::vec3::v3_normalize_s;
use crate::vec3::v3_sub;
use crate::vec3::v3_sub_s;
use crate::vec3::Vec3Fx;
use crate::vec3::Vec4Fx;
use crate::vertex::Vertex;

verus! {

/// The cotangent of half the field of view (22.5 degrees), fixed point.
pub const PERSP_FOCAL: i64 = 158218;

/// `-(far + near) / (far - near)` for near 0.1, far 1000, fixed point.
pub const PERSP_M22: i64 = -65549;

/// `-(2 * far * near) / (far - near)` for near 0.1, far 1000, fixed point.
pub const PERSP_M23: i64 = -13108;

/// The per-draw-call parameters every stage reads: the four transform
/// matrices and the frame time counter. The procedural noise source is
/// passed alongside, as its own capability.
pub struct Uniforms {
    pub model_matrix: Mat4Fx,
    pub view_matrix: Mat4Fx,
    pub projection_matrix: Mat4Fx,
    pub viewport_matrix: Mat4Fx,
    pub time: u32,
}

/// Rotation about the X axis, from a sine and cosine.
pub open spec fn rot_x_s(sin: int, cos: int) -> Mat4Fx {
    Mat4Fx {
        m00: FX_ONE,
        m01: 0,
        m02: 0,
        m03: 0,
        m10: 0,
        m11: cos as i64,
        m12: fxneg_s(sin) as i64,
        m13: 0,
        m20: 0,
        m21: sin as i64,
        m22: cos as i64,
        m23: 0,
        m30: 0,
        m31: 0,
        m32: 0,
        m33: FX_ONE,
    }
}

/// Rotation about the Y axis, from a sine and cosine.
pub open spec fn rot_y_s(sin: int, cos: int) -> Mat4Fx {
    Mat4Fx {
        m00: cos as i64,
        m01: 0,
        m02: sin as i64,
        m03: 0,
        m10: 0,
        m11: FX_ONE,
        m12: 0,
        m13: 0,
        m20: fxneg_s(sin) as i64,
        m21: 0,
        m22: cos as i64,
        m23: 0,
        m30: 0,
        m31: 0,
        m32: 0,
        m33: FX_ONE,
    }
}

/// Rotation about the Z axis, from a sine and cosine.
pub open spec fn rot_z_s(sin: int, cos: int) -> Mat4Fx {
    Mat4Fx {
        m00: cos as i64,
        m01: fxneg_s(sin) as i64,
        m02: 0,
        m03: 0,
        m10: sin as i64,
        m11: cos as i64,
        m12: 0,
        m13: 0,
        m20: 0,
        m21: 0,
        m22: FX_ONE,
        m23: 0,
        m30: 0,
        m31: 0,
        m32: 0,
        m33: FX_ONE,
    }
}

/// Uniform scale and translation fused into one matrix.
pub open spec fn scale_translate_s(translation: Vec3Fx, scale: i64) -> Mat4Fx {
    Mat4Fx {
        m00: scale,
        m01: 0,
        m02: 0,
        m03: translation.x,
        m10: 0,
        m11: scale,
        m12: 0,
        m13: translation.y,
        m20: 0,
        m21: 0,
        m22: scale,
        m23: translation.z,
        m30: 0,
        m31: 0,
        m32: 0,
        m33: FX_ONE,
    }
}

/// The model matrix: scale-and-translate times `Rz * Ry * Rx` built from
/// the library's sine and cosine of the rotation angles.
pub open spec fn model_matrix_s(translation: Vec3Fx, scale: i64, rotation: Vec3Fx) -> Mat4Fx {
    let rx = rot_x_s(fxsin_s(rotation.x as int), fxcos_s(rotation.x as int));
    let ry = rot_y_s(fxsin_s(rotation.y as int), fxcos_s(rotation.y as int));
    let rz = rot_z_s(fxsin_s(rotation.z as int), fxcos_s(rotation.z as int));
    mat4_mul_s(scale_translate_s(translation, scale), mat4_mul_s(mat4_mul_s(rz, ry), rx))
}

/// The right-handed look-at view matrix, over clamped unit directions.
pub open spec fn view_matrix_s(eye: Vec3Fx, center: Vec3Fx, up: Vec3Fx) -> Mat4Fx {
    let f = v3_normalize_s(v3_clamp_coord_s(v3_sub_s(center, eye)));
    let s = v3_normalize_s(v3_clamp_coord_s(v3_cross_s(f, up)));
    let u = v3_cross_s(s, f);
    Mat4Fx {
        m00: s.x,
        m01: s.y,
        m02: s.z,
        m03: fxneg_s(v3_dot_s(s, eye)) as i64,
        m10: u.x,
        m11: u.y,
        m12: u.z,
        m13: fxneg_s(v3_dot_s(u, eye)) as i64,
        m20: fxneg_s(f.x as int) as i64,
        m21: fxneg_s(f.y as int) as i64,
        m22: fxneg_s(f.z as int) as i64,
        m23: v3_dot_s(f, eye) as i64,
        m30: 0,
        m31: 0,
        m32: 0,
        m33: FX_ONE,
    }
}

/// The perspective projection for a given aspect ratio.
pub open spec fn perspective_matrix_s(width: int, height: int) -> Mat4Fx {
    let aspect = fxdiv_s(width, height);
    Mat4Fx {
        m00: fxdiv_s(PERSP_FOCAL as int, aspect) as i64,
        m01: 0,
        m02: 0,
        m03: 0,
        m10: 0,
        m11: PERSP_FOCAL,
        m12: 0,
        m13: 0,
        m20: 0,
        m21: 0,
        m22: PERSP_M22,
        m23: PERSP_M23,
        m30: 0,
        m31: 0,
        m32: fxneg_s(FX_ONE as int) as i64,
        m33: 0,
    }
}

/// The viewport transform: X maps `[-1, 1]` onto `[0, width]`, Y maps
/// `[-1, 1]` onto `[height, 0]` (flipped), Z passes through.
pub open spec fn viewport_matrix_s(width: int, height: int) -> Mat4Fx {
    Mat4Fx {
        m00: (width / 2) as i64,
        m01: 0,
        m02: 0,
        m03: (width / 2) as i64,
        m10: 0,
        m11: fxneg_s(height / 2) as i64,
        m12: 0,
        m13: (height / 2) as i64,
        m20: 0,
        m21: 0,
        m22: FX_ONE,
        m23: 0,
        m30: 0,
        m31: 0,
        m32: 0,
        m33: FX_ONE,
    }
}

/// What the vertex shader produces: clip position from
/// `projection * view * model`, the perspective divide, the viewport
/// map, and the normal through the inverse transpose of the model block.
#[verifier::opaque]
pub open spec fn vertex_shader_s(v: Vertex, u: Uniforms) -> Vertex {
    let pos4 = Vec4Fx { x: v.position.x, y: v.position.y, z: v.position.z, w: FX_ONE };
    let clip = mat4_apply_s(
        u.projection_matrix,
        mat4_apply_s(u.view_matrix, mat4_apply_s(u.model_matrix, pos4)),
    );
    let ndc = Vec4Fx {
        x: fxdiv_s(clip.x as int, clip.w as int) as i64,
        y: fxdiv_s(clip.y as int, clip.w as int) as i64,
        z: fxdiv_s(clip.z as int, clip.w as int) as i64,
        w: FX_ONE,
    };
    let screen = mat4_apply_s(u.viewport_matrix, ndc);
    let nm = mat3_inverse_s(mat3_transpose_s(mat3_of_mat4_s(u.model_matrix)));
    Vertex {
        position: v.position,
        normal: v.normal,
        tex_coords: v.tex_coords,
        color: v.color,
        transformed_position: Vec3Fx { x: screen.x, y: screen.y, z: screen.z },
        transformed_normal: mat3_apply_s(nm, v.normal),
        clip_w: clip.w,
    }
}

/// The model matrix for a translation, a uniform scale and intrinsic
/// `Rz * Ry * Rx` Euler rotation angles (radians, fixed point).
pub fn create_model_matrix(translation: Vec3Fx, scale: i64, rotation: Vec3Fx) -> (m: Mat4Fx)
    ensures
        m == model_matrix_s(translation, scale, rotation),
{
    let sin_x: i64 = fx_sin(rotation.x);
    let cos_x: i64 = fx_cos(rotation.x);
    let sin_y: i64 = fx_sin(rotation.y);
    let cos_y: i64 = fx_cos(rotation.y);
    let sin_z: i64 = fx_sin(rotation.z);
    let cos_z: i64 = fx_cos(rotation.z);

    let rotation_matrix_x = Mat4Fx {
        m00: FX_ONE,
        m01: 0,
        m02: 0,
        m03: 0,
        m10: 0,
        m11: cos_x,
        m12: fx_neg(sin_x),
        m13: 0,
        m20: 0,
        m21: sin_x,
        m22: cos_x,
        m23: 0,
        m30: 0,
        m31: 0,
        m32: 0,
        m33: FX_ONE,
    };
    let rotation_matrix_y = Mat4Fx {
        m00: cos_y,
        m01: 0,
        m02: sin_y,
        m03: 0,
        m10: 0,
        m11: FX_ONE,
        m12: 0,
        m13: 0,
        m20: fx_neg(sin_y),
        m21: 0,
        m22: cos_y,
        m23: 0,
        m30: 0,
        m31: 0,
        m32: 0,
        m33: FX_ONE,
    };
    let rotation_matrix_z = Mat4Fx {
        m00: cos_z,
        m01: fx_neg(sin_z),
        m02: 0,
        m03: 0,
        m10: sin_z,
        m11: cos_z,
        m12: 0,
        m13: 0,
        m20: 0,
        m21: 0,
        m22: FX_ONE,
        m23: 0,
        m30: 0,
        m31: 0,
        m32: 0,
        m33: FX_ONE,
    };
    let rotation_matrix = mat4_mul(&mat4_mul(&rotation_matrix_z, &rotation_matrix_y), &rotation_matrix_x);
    let transform_matrix = Mat4Fx {
        m00: scale,
        m01: 0,
        m02: 0,
        m03: translation.x,
        m10: 0,
        m11: scale,
        m12: 0,
        m13: translation.y,
        m20: 0,
        m21: 0,
        m22: scale,
        m23: translation.z,
        m30: 0,
        m31: 0,
        m32: 0,
        m33: FX_ONE,
    };
    mat4_mul(&transform_matrix, &rotation_matrix)
}

/// The right-handed look-at view matrix for an eye position, a look-at
/// center and an up direction.
pub fn create_view_matrix(eye: Vec3Fx, center: Vec3Fx, up: Vec3Fx) -> (m: Mat4Fx)
    ensures
        m == view_matrix_s(eye, center, up),
{
    let f: Vec3Fx = v3_normalize(v3_clamp_coord(v3_sub(center, eye)));
    let s: Vec3Fx = v3_normalize(v3_clamp_coord(v3_cross(f, up)));
    let u: Vec3Fx = v3_cross(s, f);
    Mat4Fx {
        m00: s.x,
        m01: s.y,
        m02: s.z,
        m03: fx_neg(v3_dot(s, eye)),
        m10: u.x,
        m11: u.y,
        m12: u.z,
        m13: fx_neg(v3_dot(u, eye)),
        m20: fx_neg(f.x),
        m21: fx_neg(f.y),
        m22: fx_neg(f.z),
        m23: v3_dot(f, eye),
        m30: 0,
        m31: 0,
        m32: 0,
        m33: FX_ONE,
    }
}

/// The perspective projection for a window of the given fixed-point
/// dimensions: 45 degree vertical field of view, near 0.1, far 1000.
pub fn create_perspective_matrix(window_width: i64, window_height: i64) -> (m: Mat4Fx)
    ensures
        m == perspective_matrix_s(window_width as int, window_height as int),
{
    let aspect_ratio: i64 = fx_div(window_width, window_height);
    Mat4Fx {
        m00: fx_div(PERSP_FOCAL, aspect_ratio),
        m01: 0,
        m02: 0,
        m03: 0,
        m10: 0,
        m11: PERSP_FOCAL,
        m12: 0,
        m13: 0,
        m20: 0,
        m21: 0,
        m22: PERSP_M22,
        m23: PERSP_M23,
        m30: 0,
        m31: 0,
        m32: fx_neg(FX_ONE),
        m33: 0,
    }
}

/// The viewport transform onto a framebuffer of the given fixed-point
/// dimensions.
pub fn create_viewport_matrix(width: i64, height: i64) -> (m: Mat4Fx)
    requires
        0 <= width,
        0 <= height,
    ensures
        m == viewport_matrix_s(width as int, height as int),
{
    let half_w: i64 = ((width as u64) / 2) as i64;
    let half_h: i64 = ((height as u64) / 2) as i64;
    Mat4Fx {
        m00: half_w,
        m01: 0,
        m02: 0,
        m03: half_w,
        m10: 0,
        m11: fx_neg(half_h),
        m12: 0,
        m13: half_h,
        m20: 0,
        m21: 0,
        m22: FX_ONE,
        m23: 0,
        m30: 0,
        m31: 0,
        m32: 0,
        m33: FX_ONE,
    }
}

/// Transform one vertex: screen-space position with the depth kept in
/// `z`, the homogeneous `clip_w` it divided by, and the normal through
/// the inverse transpose of the model matrix's upper-left block.
pub fn vertex_shader(vertex: &Vertex, uniforms: &Uniforms) -> (out: Vertex)
    ensures
        out == vertex_shader_s(*vertex, *uniforms),
{
    proof {
        reveal(vertex_shader_s);
    }
    let position = Vec4Fx {
        x: vertex.position.x,
        y: vertex.position.y,
        z: vertex.position.z,
        w: FX_ONE,
    };
    let clip = mat4_apply(
        &uniforms.projection_matrix,
        mat4_apply(&uniforms.view_matrix, mat4_apply(&uniforms.model_matrix, position)),
    );
    let ndc = Vec4Fx {
        x: fx_div(clip.x, clip.w),
        y: fx_div(clip.y, clip.w),
        z: fx_div(clip.z, clip.w),
        w: FX_ONE,
    };
    let screen = mat4_apply(&uniforms.viewport_matrix, ndc);
    let normal_matrix = mat3_inverse(&mat3_transpose(&mat3_of_mat4(&uniforms.model_matrix)));
    let transformed_normal = mat3_apply(&normal_matrix, vertex.normal);
    Vertex {
        position: vertex.position,
        normal: vertex.normal,
        tex_coords: vertex.tex_coords,
        color: vertex.color,
        transformed_position: Vec3Fx { x: screen.x, y: screen.y, z: screen.z },
        transformed_normal,
        clip_w: clip.w,
    }
}

/// The viewport transform hits its corners: the center of normalized
/// device space lands on the center pixel `(width / 2, height / 2)` and
/// the top-left corner `(-1, 1)` lands on pixel `(0, 0)`, the depth
/// passing through unchanged in both.
pub proof fn lemma_viewport_maps(width: int, height: int, z: i64)
    requires
        0 <= width <= 0x1000_0000_0000,
        0 <= height <= 0x1000_0000_0000,
        -0x1000_0000_0000 <= z as int <= 0x1000_0000_0000,
    ensures
        mat4_apply_s(viewport_matrix_s(width, height), Vec4Fx { x: 0, y: 0, z, w: FX_ONE })
            == (Vec4Fx { x: (width / 2) as i64, y: (height / 2) as i64, z, w: FX_ONE }),
        mat4_apply_s(
            viewport_matrix_s(width, height),
            Vec4Fx { x: (-(FX_ONE as int)) as i64, y: FX_ONE, z, w: FX_ONE },
        ) == (Vec4Fx { x: 0, y: 0, z, w: FX_ONE }),
{
    reveal(crate::matrix::row_dot4_s);
    let hw = width / 2;
    let hh = height / 2;
    lemma_fxmul_one(hw);
    lemma_fxmul_one(hh);
    lemma_fxmul_one(-hh);
    lemma_fxmul_one(z as int);
    lemma_fxmul_one(FX_ONE as int);
    lemma_fxmul_neg_one(hw);
    assert(fxmul_s(hw, 0) == 0);
    assert(fxmul_s(hh, 0) == 0);
    assert(fxmul_s(0, z as int) == 0);
    assert(fxmul_s(0, -(FX_ONE as int)) == 0);
    assert(fxmul_s(0, FX_ONE as int) == 0);
    assert(fxmul_s(FX_ONE as int, z as int) == fxmul_s(z as int, FX_ONE as int));
}

} // verus!
