use softpipe::color::Color;
use softpipe::fixed::FX_ONE;
use softpipe::fragment::Fragment;
use softpipe::shaders::{
    apply_shader, fragment_shader, shade_arid, shade_black_and_white, shade_cellular, shade_cloud,
    shade_cracked_earth, shade_crystal, shade_dalmata, shade_lava, shade_mercury, shade_water,
    NoiseSource, ShaderType,
};
use softpipe::transform::Uniforms;
use softpipe::matrix::mat4_identity;
use softpipe::vec3::Vec3Fx;

struct ConstantNoise(i64);

impl NoiseSource for ConstantNoise {
    fn noise2(&self, _x: i64, _y: i64) -> i64 {
        self.0
    }
    fn noise3(&self, _x: i64, _y: i64, _z: i64) -> i64 {
        self.0
    }
}

fn lit_fragment() -> Fragment {
    Fragment {
        x: 1,
        y: 2,
        vertex_position: Vec3Fx { x: 16384, y: -16384, z: 0 },
        depth: 32768,
        intensity: FX_ONE,
    }
}

fn uniforms_at(time: u32) -> Uniforms {
    Uniforms {
        model_matrix: mat4_identity(),
        view_matrix: mat4_identity(),
        projection_matrix: mat4_identity(),
        viewport_matrix: mat4_identity(),
        time,
    }
}

#[test]
fn dalmata_spots_below_the_threshold() {
    let f = lit_fragment();
    assert_eq!(shade_dalmata(&f, 0), Color::new(255, 255, 255));
    assert_eq!(shade_dalmata(&f, 40000), Color::new(0, 0, 0));
}

#[test]
fn cloud_above_the_threshold() {
    let f = lit_fragment();
    assert_eq!(shade_cloud(&f, 40000), Color::new(255, 255, 255));
    assert_eq!(shade_cloud(&f, 0), Color::new(30, 97, 145));
}

#[test]
fn cellular_picks_a_band_by_magnitude() {
    let f = lit_fragment();
    assert_eq!(shade_cellular(&f, 5000), Color::new(85, 107, 47));
    assert_eq!(shade_cellular(&f, -5000), Color::new(85, 107, 47));
    assert_eq!(shade_cellular(&f, 20000), Color::new(124, 252, 0));
    assert_eq!(shade_cellular(&f, 46000), Color::new(34, 139, 34));
    assert_eq!(shade_cellular(&f, 60000), Color::new(173, 255, 47));
}

#[test]
fn lava_glows_bright_on_high_noise() {
    let f = lit_fragment();
    assert_eq!(shade_lava(&f, FX_ONE, FX_ONE), Color::new(255, 240, 0));
    assert_eq!(shade_lava(&f, -FX_ONE, -FX_ONE), Color::new(130, 20, 0));
}

#[test]
fn mercury_craters_under_the_ambient_pulse() {
    let f = lit_fragment();
    assert_eq!(shade_mercury(&f, 0, 0, 0), Color::new(183, 183, 183));
}

#[test]
fn cracked_earth_shows_blue_cracks() {
    let f = lit_fragment();
    assert_eq!(shade_cracked_earth(&f, 0, 0), Color::new(0, 0, 255));
    assert_eq!(shade_cracked_earth(&f, 30000, 0), Color::new(34, 139, 34));
}

#[test]
fn water_at_rest_is_deepening_blue() {
    let f = lit_fragment();
    assert_eq!(shade_water(&f, 0, 0), Color::new(35, 110, 184));
}

#[test]
fn crystal_without_sparkle_is_its_base_blue() {
    let f = lit_fragment();
    assert_eq!(shade_crystal(&f, 0, 0), Color::new(135, 206, 235));
}

#[test]
fn arid_cracks_glow_under_the_pulse() {
    let f = lit_fragment();
    assert_eq!(shade_arid(&f, 0, 0), Color::new(241, 208, 170));
}

#[test]
fn intensity_darkens_every_shader() {
    let mut f = lit_fragment();
    f.intensity = 0;
    assert_eq!(shade_dalmata(&f, 0), Color::new(0, 0, 0));
    assert_eq!(shade_cloud(&f, 40000), Color::new(0, 0, 0));
    assert_eq!(shade_lava(&f, FX_ONE, FX_ONE), Color::new(0, 0, 0));
    assert_eq!(shade_crystal(&f, 0, 60000), Color::new(0, 0, 0));
}

#[test]
fn black_and_white_draw_decides_the_color() {
    let f = lit_fragment();
    assert_eq!(shade_black_and_white(&f, 49), Color::new(0, 0, 0));
    assert_eq!(shade_black_and_white(&f, 50), Color::new(255, 255, 255));
}

#[test]
fn flicker_shader_is_deterministic_and_two_valued() {
    let noise = ConstantNoise(0);
    let u = uniforms_at(77);
    let f = lit_fragment();
    let first = apply_shader(&f, &u, ShaderType::BlackAndWhite, &noise);
    let second = apply_shader(&f, &u, ShaderType::BlackAndWhite, &noise);
    assert_eq!(first, second);
    assert!(first == Color::new(0, 0, 0) || first == Color::new(255, 255, 255));
}

#[test]
fn dispatch_selects_the_variant() {
    let noise = ConstantNoise(0);
    let u = uniforms_at(0);
    let f = lit_fragment();
    assert_eq!(apply_shader(&f, &u, ShaderType::Dalmata, &noise), Color::new(255, 255, 255));
    assert_eq!(apply_shader(&f, &u, ShaderType::Cloud, &noise), Color::new(30, 97, 145));
    assert_eq!(apply_shader(&f, &u, ShaderType::Mercury, &noise), Color::new(183, 183, 183));
    assert_eq!(
        apply_shader(&f, &u, ShaderType::CrackedEarth, &noise),
        Color::new(0, 0, 255),
    );
    assert_eq!(apply_shader(&f, &u, ShaderType::water_shader, &noise), Color::new(35, 110, 184));
    assert_eq!(
        apply_shader(&f, &u, ShaderType::crystal_shader, &noise),
        Color::new(135, 206, 235),
    );
    assert_eq!(apply_shader(&f, &u, ShaderType::arid_shader, &noise), Color::new(241, 208, 170));
}

#[test]
fn default_fragment_shader_is_the_cracked_ground_rule() {
    let noise = ConstantNoise(0);
    let u = uniforms_at(0);
    let f = lit_fragment();
    assert_eq!(fragment_shader(&f, &u, &noise), Color::new(0, 0, 255));
}
