use fastnoise_lite::{FastNoiseLite, NoiseType};
use softpipe::fixed::{FX_ONE, FX_PI};
use softpipe::framebuffer::{Framebuffer, DEPTH_FAR};
use softpipe::matrix::mat4_identity;
use softpipe::pipeline::{
    draw_stars, generate_stars, is_in_frustum, orbit_point, render_orbit_line,
    render_with_shader, ORBIT_COLOR, STAR_COLOR,
};
use softpipe::shaders::{NoiseSource, ShaderType};
use softpipe::transform::Uniforms;
use softpipe::vec3::{Vec2Fx, Vec3Fx};
use softpipe::vertex::Vertex;

struct FlatNoise(i64);

impl NoiseSource for FlatNoise {
    fn noise2(&self, _x: i64, _y: i64) -> i64 {
        self.0
    }
    fn noise3(&self, _x: i64, _y: i64, _z: i64) -> i64 {
        self.0
    }
}

/// The real procedural noise generator behind the library's capability
/// trait, sampled in fixed point.
struct SimplexNoise(FastNoiseLite);

impl SimplexNoise {
    fn new() -> SimplexNoise {
        let mut noise = FastNoiseLite::with_seed(1337);
        noise.set_noise_type(Some(NoiseType::OpenSimplex2));
        SimplexNoise(noise)
    }
}

impl NoiseSource for SimplexNoise {
    fn noise2(&self, x: i64, y: i64) -> i64 {
        let v = self.0.get_noise_2d(x as f32 / 65536.0, y as f32 / 65536.0);
        (v * 65536.0) as i64
    }
    fn noise3(&self, x: i64, y: i64, z: i64) -> i64 {
        let v = self.0.get_noise_3d(
            x as f32 / 65536.0,
            y as f32 / 65536.0,
            z as f32 / 65536.0,
        );
        (v * 65536.0) as i64
    }
}

fn identity_uniforms() -> Uniforms {
    Uniforms {
        model_matrix: mat4_identity(),
        view_matrix: mat4_identity(),
        projection_matrix: mat4_identity(),
        viewport_matrix: mat4_identity(),
        time: 0,
    }
}

fn screen_triangle(px: [i64; 3], py: [i64; 3], depth: i64) -> Vec<Vertex> {
    let mut vs = Vec::new();
    for i in 0..3 {
        vs.push(Vertex::new(
            Vec3Fx { x: px[i] * FX_ONE, y: py[i] * FX_ONE, z: depth },
            Vec3Fx { x: 0, y: 0, z: FX_ONE },
            Vec2Fx { x: 0, y: 0 },
        ));
    }
    vs
}

#[test]
fn single_triangle_renders_exactly_its_region() {
    let mut fb = Framebuffer::new(32, 32);
    let u = identity_uniforms();
    let noise = FlatNoise(0);
    let vs = screen_triangle([10, 20, 10], [10, 10, 20], 32768);
    render_with_shader(&mut fb, &u, &vs, ShaderType::Dalmata, &noise);
    for y in 0..32usize {
        for x in 0..32usize {
            let i = y * 32 + x;
            if x >= 10 && y >= 10 && x + y <= 30 {
                assert_eq!(fb.buffer[i], 0xffffff, "pixel ({}, {})", x, y);
                assert_eq!(fb.zbuffer[i], 32768, "pixel ({}, {})", x, y);
            } else {
                assert_eq!(fb.buffer[i], 0, "pixel ({}, {})", x, y);
                assert_eq!(fb.zbuffer[i], DEPTH_FAR, "pixel ({}, {})", x, y);
            }
        }
    }
}

#[test]
fn nearer_triangle_wins_the_overlap() {
    let u = identity_uniforms();
    let noise = FlatNoise(0);
    let near = screen_triangle([10, 20, 10], [10, 10, 20], 13107);
    let far = screen_triangle([10, 20, 10], [10, 10, 20], 52429);

    // near drawn first, far second
    let mut fb = Framebuffer::new(32, 32);
    render_with_shader(&mut fb, &u, &near, ShaderType::Dalmata, &noise);
    render_with_shader(&mut fb, &u, &far, ShaderType::Cloud, &noise);
    assert_eq!(fb.buffer[12 * 32 + 12], 0xffffff);
    assert_eq!(fb.zbuffer[12 * 32 + 12], 13107);

    // far drawn first, near second
    let mut fb2 = Framebuffer::new(32, 32);
    render_with_shader(&mut fb2, &u, &far, ShaderType::Cloud, &noise);
    render_with_shader(&mut fb2, &u, &near, ShaderType::Dalmata, &noise);
    assert_eq!(fb2.buffer[12 * 32 + 12], 0xffffff);
    assert_eq!(fb2.zbuffer[12 * 32 + 12], 13107);
}

#[test]
fn fully_offscreen_triangle_leaves_the_framebuffer_alone() {
    let mut fb = Framebuffer::new(32, 32);
    let u = identity_uniforms();
    let noise = FlatNoise(0);
    let vs = screen_triangle([40, 50, 40], [0, 0, 10], 32768);
    render_with_shader(&mut fb, &u, &vs, ShaderType::Dalmata, &noise);
    assert!(fb.buffer.iter().all(|&c| c == 0));
    assert!(fb.zbuffer.iter().all(|&d| d == DEPTH_FAR));
}

#[test]
fn leftover_vertices_are_not_a_triangle() {
    let mut fb = Framebuffer::new(32, 32);
    let u = identity_uniforms();
    let noise = FlatNoise(0);
    let mut vs = screen_triangle([10, 20, 10], [10, 10, 20], 32768);
    vs.truncate(2);
    render_with_shader(&mut fb, &u, &vs, ShaderType::Dalmata, &noise);
    assert!(fb.buffer.iter().all(|&c| c == 0));
}

#[test]
fn rendering_with_real_noise_touches_only_the_region() {
    let mut fb = Framebuffer::new(32, 32);
    let u = identity_uniforms();
    let noise = SimplexNoise::new();
    let vs = screen_triangle([10, 20, 10], [10, 10, 20], 32768);
    render_with_shader(&mut fb, &u, &vs, ShaderType::CrackedEarth, &noise);
    for y in 0..32usize {
        for x in 0..32usize {
            let i = y * 32 + x;
            if x >= 10 && y >= 10 && x + y <= 30 {
                assert_eq!(fb.zbuffer[i], 32768);
            } else {
                assert_eq!(fb.buffer[i], 0);
                assert_eq!(fb.zbuffer[i], DEPTH_FAR);
            }
        }
    }
}

#[test]
fn generated_stars_stay_in_bounds() {
    let stars = generate_stars(100, 7, 5);
    assert_eq!(stars.len(), 100);
    for &(x, y) in &stars {
        assert!(x < 7 && y < 5);
    }
}

#[test]
fn stars_are_drawn_white_at_depth_one() {
    let mut fb = Framebuffer::new(8, 8);
    let stars = vec![(3usize, 4usize), (0usize, 0usize)];
    draw_stars(&mut fb, &stars);
    assert_eq!(fb.buffer[4 * 8 + 3], STAR_COLOR);
    assert_eq!(fb.zbuffer[4 * 8 + 3], FX_ONE);
    assert_eq!(fb.buffer[0], STAR_COLOR);
    // drawing the same stars again changes nothing
    let colors = fb.buffer.clone();
    let depths = fb.zbuffer.clone();
    draw_stars(&mut fb, &stars);
    assert_eq!(fb.buffer, colors);
    assert_eq!(fb.zbuffer, depths);
}

#[test]
fn orbit_point_of_a_degenerate_circle_is_the_screen_center() {
    let view = mat4_identity();
    let projection = mat4_identity();
    let p = orbit_point(0, &view, &projection, 32, 32, 0);
    assert_eq!(p, Some((16, 16, 0)));
}

#[test]
fn orbit_line_of_a_degenerate_circle_marks_the_center() {
    let mut fb = Framebuffer::new(32, 32);
    let view = mat4_identity();
    let projection = mat4_identity();
    render_orbit_line(&mut fb, 0, &view, &projection);
    assert_eq!(fb.buffer[16 * 32 + 16], ORBIT_COLOR);
    assert_eq!(fb.zbuffer[16 * 32 + 16], 0);
    // nothing else was touched
    for y in 0..32usize {
        for x in 0..32usize {
            if (x, y) != (16, 16) {
                assert_eq!(fb.buffer[y * 32 + x], 0);
            }
        }
    }
}

#[test]
fn frustum_accepts_the_origin_and_rejects_the_outside() {
    let view = mat4_identity();
    let projection = mat4_identity();
    assert!(is_in_frustum(&Vec3Fx { x: 0, y: 0, z: 0 }, &view, &projection));
    assert!(is_in_frustum(&Vec3Fx { x: FX_ONE, y: -FX_ONE, z: 32768 }, &view, &projection));
    assert!(!is_in_frustum(&Vec3Fx { x: 2 * FX_ONE, y: 0, z: 0 }, &view, &projection));
    assert!(!is_in_frustum(&Vec3Fx { x: 0, y: 0, z: -FX_ONE }, &view, &projection));
    assert!(!is_in_frustum(&Vec3Fx { x: 0, y: 0, z: 2 * FX_ONE }, &view, &projection));
}

#[test]
fn flickering_shader_runs_through_the_pipeline() {
    let mut fb = Framebuffer::new(16, 16);
    let mut u = identity_uniforms();
    u.time = FX_PI as u32;
    let noise = FlatNoise(0);
    let vs = screen_triangle([2, 12, 2], [2, 2, 12], 32768);
    render_with_shader(&mut fb, &u, &vs, ShaderType::BlackAndWhite, &noise);
    for y in 0..16usize {
        for x in 0..16usize {
            let i = y * 16 + x;
            if x >= 2 && y >= 2 && x + y <= 14 {
                assert!(fb.buffer[i] == 0 || fb.buffer[i] == 0xffffff);
                assert_eq!(fb.zbuffer[i], 32768);
            } else {
                assert_eq!(fb.zbuffer[i], DEPTH_FAR);
            }
        }
    }
}
