use softpipe::camera::Camera;
use softpipe::fixed::{FX_ONE, FX_PI};
use softpipe::matrix::{mat4_apply, mat4_identity};
use softpipe::transform::{
    create_model_matrix, create_perspective_matrix, create_view_matrix, create_viewport_matrix,
    vertex_shader, Uniforms, PERSP_FOCAL, PERSP_M22, PERSP_M23,
};
use softpipe::vec3::{Vec2Fx, Vec3Fx, Vec4Fx};
use softpipe::vertex::Vertex;

fn identity_uniforms() -> Uniforms {
    Uniforms {
        model_matrix: mat4_identity(),
        view_matrix: mat4_identity(),
        projection_matrix: mat4_identity(),
        viewport_matrix: mat4_identity(),
        time: 0,
    }
}

#[test]
fn viewport_maps_the_center_to_the_center_pixel() {
    let w: i64 = 800 * FX_ONE;
    let h: i64 = 600 * FX_ONE;
    let m = create_viewport_matrix(w, h);
    let z: i64 = 12345;
    let center = mat4_apply(&m, Vec4Fx { x: 0, y: 0, z, w: FX_ONE });
    assert_eq!(center, Vec4Fx { x: 400 * FX_ONE, y: 300 * FX_ONE, z, w: FX_ONE });
}

#[test]
fn viewport_maps_the_top_left_corner_to_the_origin() {
    let w: i64 = 800 * FX_ONE;
    let h: i64 = 600 * FX_ONE;
    let m = create_viewport_matrix(w, h);
    let z: i64 = -777;
    let corner = mat4_apply(&m, Vec4Fx { x: -FX_ONE, y: FX_ONE, z, w: FX_ONE });
    assert_eq!(corner, Vec4Fx { x: 0, y: 0, z, w: FX_ONE });
}

#[test]
fn viewport_flips_the_y_axis() {
    let m = create_viewport_matrix(32 * FX_ONE, 32 * FX_ONE);
    let bottom = mat4_apply(&m, Vec4Fx { x: 0, y: -FX_ONE, z: 0, w: FX_ONE });
    assert_eq!(bottom.y, 32 * FX_ONE);
}

#[test]
fn perspective_matrix_holds_the_documented_entries() {
    let m = create_perspective_matrix(800 * FX_ONE, 600 * FX_ONE);
    assert_eq!(m.m11, PERSP_FOCAL);
    assert_eq!(m.m22, PERSP_M22);
    assert_eq!(m.m23, PERSP_M23);
    assert_eq!(m.m32, -FX_ONE);
    assert_eq!(m.m33, 0);
    // focal length over a 4:3 aspect ratio
    assert_eq!(m.m00, 118663);
}

#[test]
fn model_matrix_carries_translation_and_scale() {
    let t = Vec3Fx { x: 5 * FX_ONE, y: -2 * FX_ONE, z: 7 * FX_ONE };
    let m = create_model_matrix(t, FX_ONE, Vec3Fx { x: 0, y: 0, z: 0 });
    assert_eq!(m.m03, t.x);
    assert_eq!(m.m13, t.y);
    assert_eq!(m.m23, t.z);
    assert_eq!(m.m33, FX_ONE);
    // zero rotation leaves the upper block the pure scale
    assert_eq!(m.m00, FX_ONE);
    assert_eq!(m.m11, FX_ONE);
    assert_eq!(m.m22, FX_ONE);
    assert_eq!(m.m01, 0);
    assert_eq!(m.m10, 0);
}

#[test]
fn view_matrix_looks_down_the_negative_z_axis() {
    let eye = Vec3Fx { x: 0, y: 0, z: 10 * FX_ONE };
    let center = Vec3Fx { x: 0, y: 0, z: 0 };
    let up = Vec3Fx { x: 0, y: FX_ONE, z: 0 };
    let m = create_view_matrix(eye, center, up);
    assert_eq!(m.m00, FX_ONE);
    assert_eq!(m.m11, FX_ONE);
    assert_eq!(m.m22, FX_ONE);
    assert_eq!(m.m23, -10 * FX_ONE);
    assert_eq!(m.m03, 0);
    assert_eq!(m.m13, 0);
    assert_eq!(m.m33, FX_ONE);
}

#[test]
fn vertex_shader_under_identity_keeps_the_position() {
    let v = Vertex::new(
        Vec3Fx { x: 3 * FX_ONE, y: 4 * FX_ONE, z: 32768 },
        Vec3Fx { x: 0, y: 0, z: FX_ONE },
        Vec2Fx { x: 0, y: 0 },
    );
    let u = identity_uniforms();
    let out = vertex_shader(&v, &u);
    assert_eq!(out.transformed_position, v.position);
    assert_eq!(out.transformed_normal, v.normal);
    assert_eq!(out.clip_w, FX_ONE);
    assert_eq!(out.position, v.position);
    assert_eq!(out.tex_coords, v.tex_coords);
}

#[test]
fn orbit_by_zero_keeps_the_camera() {
    let mut cam = Camera::new(
        Vec3Fx { x: 10 * FX_ONE, y: 0, z: 0 },
        Vec3Fx { x: 0, y: 0, z: 0 },
        Vec3Fx { x: 0, y: FX_ONE, z: 0 },
    );
    cam.orbit(0, 0);
    assert_eq!(cam.eye, Vec3Fx { x: 10 * FX_ONE, y: 0, z: 0 });
    assert_eq!(cam.center, Vec3Fx { x: 0, y: 0, z: 0 });
}

#[test]
fn orbit_by_half_a_turn_mirrors_the_eye() {
    let mut cam = Camera::new(
        Vec3Fx { x: 10 * FX_ONE, y: 0, z: 0 },
        Vec3Fx { x: 0, y: 0, z: 0 },
        Vec3Fx { x: 0, y: FX_ONE, z: 0 },
    );
    cam.orbit(FX_PI, 0);
    assert_eq!(cam.eye, Vec3Fx { x: -10 * FX_ONE, y: 0, z: 0 });
    assert_eq!(cam.up, Vec3Fx { x: 0, y: FX_ONE, z: 0 });
}

#[test]
fn zoom_moves_along_the_view_direction() {
    let mut cam = Camera::new(
        Vec3Fx { x: 0, y: 0, z: 10 * FX_ONE },
        Vec3Fx { x: 0, y: 0, z: 0 },
        Vec3Fx { x: 0, y: FX_ONE, z: 0 },
    );
    cam.zoom(-5 * FX_ONE);
    assert_eq!(cam.eye, Vec3Fx { x: 0, y: 0, z: 5 * FX_ONE });
}

#[test]
fn zoom_never_reaches_the_center() {
    let mut cam = Camera::new(
        Vec3Fx { x: 0, y: 0, z: 10 * FX_ONE },
        Vec3Fx { x: 0, y: 0, z: 0 },
        Vec3Fx { x: 0, y: FX_ONE, z: 0 },
    );
    cam.zoom(-100 * FX_ONE);
    assert_eq!(cam.eye, Vec3Fx { x: 0, y: 0, z: 6554 });
    assert_eq!(cam.center, Vec3Fx { x: 0, y: 0, z: 0 });
}

#[test]
fn move_center_pans_eye_and_center_together() {
    let mut cam = Camera::new(
        Vec3Fx { x: 1 * FX_ONE, y: 2 * FX_ONE, z: 3 * FX_ONE },
        Vec3Fx { x: 0, y: 0, z: 0 },
        Vec3Fx { x: 0, y: FX_ONE, z: 0 },
    );
    cam.move_center(Vec3Fx { x: FX_ONE, y: 0, z: -FX_ONE });
    assert_eq!(cam.eye, Vec3Fx { x: 2 * FX_ONE, y: 2 * FX_ONE, z: 2 * FX_ONE });
    assert_eq!(cam.center, Vec3Fx { x: FX_ONE, y: 0, z: -FX_ONE });
    assert_eq!(cam.up, Vec3Fx { x: 0, y: FX_ONE, z: 0 });
}

#[test]
fn model_matrix_quarter_turn_about_y_swaps_x_and_z() {
    let m = create_model_matrix(
        Vec3Fx { x: 0, y: 0, z: 0 },
        FX_ONE,
        Vec3Fx { x: 0, y: 102944, z: 0 },
    );
    // the library's cosine of a quarter turn is -1/65536, not exactly zero
    assert_eq!(m.m00, -1);
    assert_eq!(m.m02, FX_ONE);
    assert_eq!(m.m11, FX_ONE);
    assert_eq!(m.m20, -FX_ONE);
    assert_eq!(m.m22, -1);
    assert_eq!(m.m33, FX_ONE);
    assert_eq!(m.m01, 0);
    assert_eq!(m.m10, 0);
}

#[test]
fn normal_matrix_undoes_a_uniform_scale() {
    // a model scale of two must shrink normals by half through the
    // inverse transpose
    let model = create_model_matrix(
        Vec3Fx { x: 0, y: 0, z: 0 },
        2 * FX_ONE,
        Vec3Fx { x: 0, y: 0, z: 0 },
    );
    let mut u = identity_uniforms();
    u.model_matrix = model;
    let v = Vertex::new(
        Vec3Fx { x: FX_ONE, y: FX_ONE, z: 0 },
        Vec3Fx { x: 0, y: 0, z: FX_ONE },
        Vec2Fx { x: 0, y: 0 },
    );
    let out = vertex_shader(&v, &u);
    assert_eq!(out.transformed_normal, Vec3Fx { x: 0, y: 0, z: 32768 });
    // the position is doubled and carried through the identity viewport
    assert_eq!(out.transformed_position, Vec3Fx { x: 2 * FX_ONE, y: 2 * FX_ONE, z: 0 });
    assert_eq!(out.clip_w, FX_ONE);
}
