//! The shading stage: procedural planet-surface shaders.
//!
//! Each shader is a pure rule from a fragment, the frame time and one or
//! two noise samples to a color: noise values are thresholded or used as
//! blend factors between fixed base colors, sometimes with a
//! time-animated overlay or a slow sinusoidal brightness pulse, and the
//! fragment's Lambertian intensity scales the result. The noise source
//! itself is an opaque external capability behind the `NoiseSource`
//! trait, so every `shade_*` function carries an exact contract over the
//! sample values it is handed, and each full shader promises to be that
//! rule applied to some samples. The per-variant zoom factors, offsets
//! and thresholds are named constants.

use vstd::prelude::*;
use rand::Rng;
use rand::SeedableRng;
use crate::color::addc_s;
use crate::color::lerp_s;
use crate::color::scale_s;
use crate::color::Color;
use crate::fixed::abs_u64;
use crate::fixed::abs_i;
use crate::fixed::fx_abs;
use crate::fixed::fx_add;
use crate::fixed::fx_mul;
use crate::fixed::fx_of_int;
use crate::fixed::fx_sin;
use crate::fixed::fxabs_s;
use crate::fixed::fxadd_s;
use crate::fixed::fxmul_s;
use crate::fixed::fxofint_s;
use crate::fixed::fxsin_s;
use crate::fragment::Fragment;
use crate::transform::Uniforms;

verus! {

/// An opaque procedural noise source: a deterministic field sampled at
/// fixed-point coordinates, returning values nominally within `[-1, 1]`.
/// The library promises nothing of the samples; every shader states what
/// it computes from whatever comes back.
pub trait NoiseSource {
    /// A two-dimensional noise sample.
    fn noise2(&self, x: i64, y: i64) -> i64;

    /// A three-dimensional noise sample.
    fn noise3(&self, x: i64, y: i64, z: i64) -> i64;
}

/// The closed set of procedural shader variants, selected per drawable.
#[allow(non_camel_case_types)]
#[derive(Debug, Clone, Copy, PartialEq, Eq, Structural)]
pub enum ShaderType {
    Mercury,
    CrackedEarth,
    BlackAndWhite,
    Dalmata,
    Cloud,
    Cellular,
    Lava,
    water_shader,
    crystal_shader,
    arid_shader,
}

/// One half, the most common threshold and blend factor.
pub const FX_HALF: i64 = 32768;

/// What the seeded percentile draw returns for a given seed; computed by
/// an outside generator, a fixed function of the seed alone.
pub uninterp spec fn percent_of(seed: u64) -> u8;

/// Relies on rand's StdRng seeded by `seed_from_u64` and `gen_range` on
/// `0..=100`: a deterministic draw in `0..=100` from the seed alone.
#[verifier::external_body]
fn rand_percent(seed: u64) -> (r: u8)
    ensures
        r == percent_of(seed),
        r <= 100,
{
    let mut rng: rand::rngs::StdRng = rand::rngs::StdRng::seed_from_u64(seed);
    rng.gen_range(0..=100u8)
}

/// The seed the flicker shader derives from a fragment and the time.
pub open spec fn bw_seed_s(f: Fragment, time: u32) -> u64 {
    abs_i(
        fxmul_s(
            fxmul_s(fxofint_s(time as int), f.vertex_position.y as int),
            f.vertex_position.x as int,
        ),
    ) as u64
}

/// The flicker rule: black below the fifty-percent line, white above,
/// dimmed by the fragment's intensity.
pub open spec fn bw_color_s(percent: int, intensity: int) -> Color {
    let c = if percent < 50 {
        Color { r: 0, g: 0, b: 0 }
    } else {
        Color { r: 255, g: 255, b: 255 }
    };
    scale_s(c, intensity)
}

/// Color a flicker fragment from the drawn percentile.
pub fn shade_black_and_white(fragment: &Fragment, percent: u8) -> (c: Color)
    ensures
        c == bw_color_s(percent as int, fragment.intensity as int),
{
    let base = if percent < 50 {
        Color::new(0, 0, 0)
    } else {
        Color::new(255, 255, 255)
    };
    base.scale(fragment.intensity)
}

/// The flickering black-and-white shader: a percentile drawn from a
/// position-and-time seed decides the color.
fn black_and_white(fragment: &Fragment, uniforms: &Uniforms) -> (c: Color)
    ensures
        c == bw_color_s(
            percent_of(bw_seed_s(*fragment, uniforms.time)) as int,
            fragment.intensity as int,
        ),
{
    let tfx: i64 = fx_of_int(uniforms.time as i64);
    let s1: i64 = fx_mul(tfx, fragment.vertex_position.y);
    let s2: i64 = fx_mul(s1, fragment.vertex_position.x);
    let seed: u64 = abs_u64(s2);
    let percent: u8 = rand_percent(seed);
    shade_black_and_white(fragment, percent)
}

/// Noise zoom of the mottled pattern: 100.
pub const DALMATA_ZOOM: i64 = 6553600;

/// The mottled rule: white spots below the half threshold, black above,
/// dimmed by intensity.
pub open spec fn shade_dalmata_s(f: Fragment, nv: int) -> Color {
    let c = if nv < FX_HALF {
        Color { r: 255, g: 255, b: 255 }
    } else {
        Color { r: 0, g: 0, b: 0 }
    };
    scale_s(c, f.intensity as int)
}

/// Color a mottled fragment from its noise sample.
pub fn shade_dalmata(fragment: &Fragment, noise_value: i64) -> (c: Color)
    ensures
        c == shade_dalmata_s(*fragment, noise_value as int),
{
    let base = if noise_value < FX_HALF {
        Color::new(255, 255, 255)
    } else {
        Color::new(0, 0, 0)
    };
    base.scale(fragment.intensity)
}

/// The mottled shader: one sample at zoomed coordinates.
fn dalmata_shader<N: NoiseSource>(fragment: &Fragment, uniforms: &Uniforms, noise: &N) -> (c:
    Color)
    ensures
        exists|nv: int| c == shade_dalmata_s(*fragment, nv),
{
    let x: i64 = fragment.vertex_position.x;
    let y: i64 = fragment.vertex_position.y;
    let nv: i64 = noise.noise2(fx_mul(x, DALMATA_ZOOM), fx_mul(y, DALMATA_ZOOM));
    shade_dalmata(fragment, nv)
}

/// Noise zoom of the cloud layer: 100.
pub const CLOUD_ZOOM: i64 = 6553600;

/// Coordinate offset of the cloud layer: 100.
pub const CLOUD_OFFSET: i64 = 6553600;

/// The cloud rule: white cloud above the half threshold, sky blue
/// below, dimmed by intensity.
pub open spec fn shade_cloud_s(f: Fragment, nv: int) -> Color {
    let c = if nv > FX_HALF {
        Color { r: 255, g: 255, b: 255 }
    } else {
        Color { r: 30, g: 97, b: 145 }
    };
    scale_s(c, f.intensity as int)
}

/// Color a cloud fragment from its noise sample.
pub fn shade_cloud(fragment: &Fragment, noise_value: i64) -> (c: Color)
    ensures
        c == shade_cloud_s(*fragment, noise_value as int),
{
    let base = if noise_value > FX_HALF {
        Color::new(255, 255, 255)
    } else {
        Color::new(30, 97, 145)
    };
    base.scale(fragment.intensity)
}

/// The animated cloud shader: one sample whose X coordinate drifts with
/// time.
fn cloud_shader<N: NoiseSource>(fragment: &Fragment, uniforms: &Uniforms, noise: &N) -> (c: Color)
    ensures
        exists|nv: int| c == shade_cloud_s(*fragment, nv),
{
    let x: i64 = fragment.vertex_position.x;
    let y: i64 = fragment.vertex_position.y;
    let t: i64 = fx_mul(fx_of_int(uniforms.time as i64), FX_HALF);
    let nv: i64 = noise.noise2(
        fx_add(fx_add(fx_mul(x, CLOUD_ZOOM), CLOUD_OFFSET), t),
        fx_add(fx_mul(y, CLOUD_ZOOM), CLOUD_OFFSET),
    );
    shade_cloud(fragment, nv)
}

/// Noise zoom of the cell pattern: 30.
pub const CELLULAR_ZOOM: i64 = 1966080;

/// Coordinate offset of the cell pattern: 50.
pub const CELLULAR_OFFSET: i64 = 3276800;

/// First cell threshold: 0.15.
pub const CELLULAR_T1: i64 = 9830;

/// Second cell threshold: 0.7.
pub const CELLULAR_T2: i64 = 45875;

/// Third cell threshold: 0.75.
pub const CELLULAR_T3: i64 = 49152;

/// The cell rule: four greens picked by the magnitude of the sample,
/// dimmed by intensity.
pub open spec fn shade_cellular_s(f: Fragment, nv: int) -> Color {
    let m = fxabs_s(nv);
    let c = if m < CELLULAR_T1 {
        Color { r: 85, g: 107, b: 47 }
    } else if m < CELLULAR_T2 {
        Color { r: 124, g: 252, b: 0 }
    } else if m < CELLULAR_T3 {
        Color { r: 34, g: 139, b: 34 }
    } else {
        Color { r: 173, g: 255, b: 47 }
    };
    scale_s(c, f.intensity as int)
}

/// Color a cell fragment from its noise sample.
pub fn shade_cellular(fragment: &Fragment, noise_value: i64) -> (c: Color)
    ensures
        c == shade_cellular_s(*fragment, noise_value as int),
{
    let m: i64 = fx_abs(noise_value);
    let base = if m < CELLULAR_T1 {
        Color::new(85, 107, 47)
    } else if m < CELLULAR_T2 {
        Color::new(124, 252, 0)
    } else if m < CELLULAR_T3 {
        Color::new(34, 139, 34)
    } else {
        Color::new(173, 255, 47)
    };
    base.scale(fragment.intensity)
}

/// The cell-pattern shader: one offset, zoomed sample.
fn cellular_shader<N: NoiseSource>(fragment: &Fragment, uniforms: &Uniforms, noise: &N) -> (c:
    Color)
    ensures
        exists|nv: int| c == shade_cellular_s(*fragment, nv),
{
    let x: i64 = fragment.vertex_position.x;
    let y: i64 = fragment.vertex_position.y;
    let nv: i64 = noise.noise2(
        fx_add(fx_mul(x, CELLULAR_ZOOM), CELLULAR_OFFSET),
        fx_add(fx_mul(y, CELLULAR_ZOOM), CELLULAR_OFFSET),
    );
    shade_cellular(fragment, nv)
}

/// Noise zoom of the lava surface: 1000.
pub const LAVA_ZOOM: i64 = 65536000;

/// Coordinate offset of the second lava octave: 1000.
pub const LAVA_OFFSET: i64 = 65536000;

/// Base pulse frequency of the lava: 0.2.
pub const LAVA_FREQ: i64 = 13107;

/// Time scale of the lava pulse: 0.01.
pub const LAVA_TIME_SCALE: i64 = 655;

/// The lava rule: dark red blended toward bright yellow by the average
/// of two noise octaves, dimmed by intensity.
pub open spec fn shade_lava_s(f: Fragment, nv1: int, nv2: int) -> Color {
    let nv = fxmul_s(fxadd_s(nv1, nv2), FX_HALF as int);
    let c = lerp_s(Color { r: 130, g: 20, b: 0 }, Color { r: 255, g: 240, b: 0 }, nv);
    scale_s(c, f.intensity as int)
}

/// Color a lava fragment from its two noise octaves.
pub fn shade_lava(fragment: &Fragment, noise_value1: i64, noise_value2: i64) -> (c: Color)
    ensures
        c == shade_lava_s(*fragment, noise_value1 as int, noise_value2 as int),
{
    let nv: i64 = fx_mul(fx_add(noise_value1, noise_value2), FX_HALF);
    let dark = Color::new(130, 20, 0);
    let bright = Color::new(255, 240, 0);
    dark.lerp(&bright, nv).scale(fragment.intensity)
}

/// The pulsating lava shader: two 3D octaves whose depth coordinate
/// breathes with a slow sine of the time.
fn lava_shader<N: NoiseSource>(fragment: &Fragment, uniforms: &Uniforms, noise: &N) -> (c: Color)
    ensures
        exists|nv1: int, nv2: int| c == shade_lava_s(*fragment, nv1, nv2),
{
    let x: i64 = fragment.vertex_position.x;
    let y: i64 = fragment.vertex_position.y;
    let z: i64 = fragment.depth;
    let t: i64 = fx_mul(fx_of_int(uniforms.time as i64), LAVA_TIME_SCALE);
    let pulsate: i64 = fx_mul(fx_sin(fx_mul(t, LAVA_FREQ)), FX_HALF);
    let nv1: i64 = noise.noise3(
        fx_mul(x, LAVA_ZOOM),
        fx_mul(y, LAVA_ZOOM),
        fx_mul(fx_add(z, pulsate), LAVA_ZOOM),
    );
    let nv2: i64 = noise.noise3(
        fx_mul(fx_add(x, LAVA_OFFSET), LAVA_ZOOM),
        fx_mul(fx_add(y, LAVA_OFFSET), LAVA_ZOOM),
        fx_mul(fx_add(fx_add(z, LAVA_OFFSET), pulsate), LAVA_ZOOM),
    );
    shade_lava(fragment, nv1, nv2)
}

/// Noise zoom of the cratered surface: 120.
pub const MERCURY_ZOOM: i64 = 7864320;

/// Coordinate offset of the cratered surface: 15.
pub const MERCURY_OFFSET: i64 = 983040;

/// Octave offset of the cratered surface: 30.
pub const MERCURY_OCTAVE: i64 = 1966080;

/// Crater threshold: 0.25.
pub const MERCURY_T1: i64 = 16384;

/// Highlight threshold: 0.7.
pub const MERCURY_T2: i64 = 45875;

/// Amplitude of the ambient pulse: 0.1.
pub const PULSE_AMPLITUDE: i64 = 6554;

/// Base level of the ambient pulse: 0.9.
pub const PULSE_BASE: i64 = 58982;

/// Time scale of the ambient pulse: 0.05.
pub const PULSE_TIME_SCALE: i64 = 3277;

/// The slow ambient pulse shared by the cratered and arid shaders:
/// `sin(0.05 t) * 0.1 + 0.9`.
pub open spec fn pulse_s(time: u32) -> int {
    fxadd_s(
        fxmul_s(fxsin_s(fxmul_s(fxofint_s(time as int), PULSE_TIME_SCALE as int)), PULSE_AMPLITUDE as int),
        PULSE_BASE as int,
    )
}

/// The slow ambient pulse, executable.
fn pulse(time: u32) -> (r: i64)
    ensures
        r == pulse_s(time),
{
    fx_add(fx_mul(fx_sin(fx_mul(fx_of_int(time as i64), PULSE_TIME_SCALE)), PULSE_AMPLITUDE), PULSE_BASE)
}

/// The cratered rule: three grays picked by the averaged octaves, then
/// blended toward the highlight by the pulse times the intensity.
pub open spec fn shade_mercury_s(f: Fragment, time: u32, nv1: int, nv2: int) -> Color {
    let nv = fxmul_s(fxadd_s(nv1, nv2), FX_HALF as int);
    let surface = if nv < MERCURY_T1 {
        Color { r: 105, g: 105, b: 105 }
    } else if nv < MERCURY_T2 {
        Color { r: 169, g: 169, b: 169 }
    } else {
        Color { r: 192, g: 192, b: 192 }
    };
    lerp_s(
        surface,
        Color { r: 192, g: 192, b: 192 },
        fxmul_s(pulse_s(time), f.intensity as int),
    )
}

/// Color a cratered fragment from its two noise octaves.
pub fn shade_mercury(fragment: &Fragment, time: u32, noise_value1: i64, noise_value2: i64) -> (c:
    Color)
    ensures
        c == shade_mercury_s(*fragment, time, noise_value1 as int, noise_value2 as int),
{
    let nv: i64 = fx_mul(fx_add(noise_value1, noise_value2), FX_HALF);
    let surface = if nv < MERCURY_T1 {
        Color::new(105, 105, 105)
    } else if nv < MERCURY_T2 {
        Color::new(169, 169, 169)
    } else {
        Color::new(192, 192, 192)
    };
    let highlight = Color::new(192, 192, 192);
    surface.lerp(&highlight, fx_mul(pulse(time), fragment.intensity))
}

/// The cratered-metal shader: two 3D octaves over offset coordinates
/// and the depth.
fn mercury_shader<N: NoiseSource>(fragment: &Fragment, uniforms: &Uniforms, noise: &N) -> (c:
    Color)
    ensures
        exists|nv1: int, nv2: int| c == shade_mercury_s(*fragment, uniforms.time, nv1, nv2),
{
    let x: i64 = fragment.vertex_position.x;
    let y: i64 = fragment.vertex_position.y;
    let depth: i64 = fragment.depth;
    let nv1: i64 = noise.noise3(
        fx_mul(fx_add(x, MERCURY_OFFSET), MERCURY_ZOOM),
        fx_mul(fx_add(y, MERCURY_OFFSET), MERCURY_ZOOM),
        fx_mul(depth, MERCURY_ZOOM),
    );
    let nv2: i64 = noise.noise3(
        fx_mul(fx_add(fx_add(x, MERCURY_OFFSET), MERCURY_OCTAVE), MERCURY_ZOOM),
        fx_mul(fx_add(fx_add(y, MERCURY_OFFSET), MERCURY_OCTAVE), MERCURY_ZOOM),
        fx_mul(fx_add(depth, MERCURY_OCTAVE), MERCURY_ZOOM),
    );
    shade_mercury(fragment, uniforms.time, nv1, nv2)
}

/// Noise zoom of the cracked ground: 80.
pub const CRACKED_ZOOM: i64 = 5242880;

/// Coordinate offset of the cracked ground: 50.
pub const CRACKED_OFFSET: i64 = 3276800;

/// Crack threshold: 0.2.
pub const CRACKED_T: i64 = 13107;

/// Cloud threshold of the overlay: 0.8.
pub const CRACKED_CLOUD_T: i64 = 52429;

/// Blend factor of the cloud overlay: 0.3.
pub const CRACKED_CLOUD_BLEND: i64 = 19661;

/// The cracked-ground rule: blue cracks in green earth where the crack
/// sample's magnitude is small, a white cloud blended over where the
/// cloud sample is high, dimmed by intensity.
pub open spec fn shade_cracked_earth_s(f: Fragment, crack_nv: int, cloud_nv: int) -> Color {
    let base = if fxabs_s(crack_nv) < CRACKED_T {
        Color { r: 0, g: 0, b: 255 }
    } else {
        Color { r: 34, g: 139, b: 34 }
    };
    let c = if cloud_nv > CRACKED_CLOUD_T {
        lerp_s(Color { r: 255, g: 255, b: 255 }, base, CRACKED_CLOUD_BLEND as int)
    } else {
        base
    };
    scale_s(c, f.intensity as int)
}

/// Color a cracked-ground fragment from its crack and cloud samples.
pub fn shade_cracked_earth(fragment: &Fragment, crack_value: i64, cloud_value: i64) -> (c: Color)
    ensures
        c == shade_cracked_earth_s(*fragment, crack_value as int, cloud_value as int),
{
    let base = if fx_abs(crack_value) < CRACKED_T {
        Color::new(0, 0, 255)
    } else {
        Color::new(34, 139, 34)
    };
    let cloud = Color::new(255, 255, 255);
    let with_cloud = if cloud_value > CRACKED_CLOUD_T {
        cloud.lerp(&base, CRACKED_CLOUD_BLEND)
    } else {
        base
    };
    with_cloud.scale(fragment.intensity)
}

/// The cracked-ground shader: a crack sample and a time-drifting cloud
/// sample.
fn cracked_earth_shader<N: NoiseSource>(fragment: &Fragment, uniforms: &Uniforms, noise: &N) -> (c:
    Color)
    ensures
        exists|nv1: int, nv2: int| c == shade_cracked_earth_s(*fragment, nv1, nv2),
{
    let x: i64 = fragment.vertex_position.x;
    let y: i64 = fragment.vertex_position.y;
    let crack: i64 = noise.noise2(
        fx_add(fx_mul(x, CRACKED_ZOOM), CRACKED_OFFSET),
        fx_add(fx_mul(y, CRACKED_ZOOM), CRACKED_OFFSET),
    );
    let t: i64 = fx_mul(fx_of_int(uniforms.time as i64), FX_HALF);
    let cloud: i64 = noise.noise2(
        fx_add(fx_add(fx_mul(x, CLOUD_ZOOM), CLOUD_OFFSET), t),
        fx_add(fx_mul(y, CLOUD_ZOOM), CLOUD_OFFSET),
    );
    shade_cracked_earth(fragment, crack, cloud)
}

/// Noise zoom of the water surface: 50.
pub const WATER_ZOOM: i64 = 3276800;

/// Foam threshold: 0.8.
pub const WATER_FOAM_T: i64 = 52429;

/// Blend factor of the foam overlay: 0.3.
pub const WATER_FOAM_BLEND: i64 = 19661;

/// The water rule: shallow blue blended toward deep blue by the wave
/// intensity, white foam blended over high waves, and a pulsing
/// brightness times intensity over it all.
pub open spec fn shade_water_s(f: Fragment, time: u32, nv: int) -> Color {
    let wave_intensity = fxmul_s(
        fxadd_s(fxmul_s(nv, FX_HALF as int), FX_HALF as int),
        f.intensity as int,
    );
    let base = lerp_s(Color { r: 64, g: 164, b: 223 }, Color { r: 15, g: 82, b: 186 }, wave_intensity);
    let with_foam = if nv > WATER_FOAM_T {
        lerp_s(Color { r: 255, g: 255, b: 255 }, base, WATER_FOAM_BLEND as int)
    } else {
        base
    };
    let t = fxmul_s(fxofint_s(time as int), FX_HALF as int);
    let brightness = fxmul_s(
        fxadd_s(fxmul_s(fxsin_s(t), PULSE_AMPLITUDE as int), PULSE_BASE as int),
        f.intensity as int,
    );
    scale_s(with_foam, brightness)
}

/// Color a water fragment from its wave sample.
pub fn shade_water(fragment: &Fragment, time: u32, noise_value: i64) -> (c: Color)
    ensures
        c == shade_water_s(*fragment, time, noise_value as int),
{
    let wave_intensity: i64 = fx_mul(
        fx_add(fx_mul(noise_value, FX_HALF), FX_HALF),
        fragment.intensity,
    );
    let shallow = Color::new(64, 164, 223);
    let deep = Color::new(15, 82, 186);
    let base = shallow.lerp(&deep, wave_intensity);
    let foam = Color::new(255, 255, 255);
    let with_foam = if noise_value > WATER_FOAM_T {
        foam.lerp(&base, WATER_FOAM_BLEND)
    } else {
        base
    };
    let t: i64 = fx_mul(fx_of_int(time as i64), FX_HALF);
    let brightness: i64 = fx_mul(
        fx_add(fx_mul(fx_sin(t), PULSE_AMPLITUDE), PULSE_BASE),
        fragment.intensity,
    );
    with_foam.scale(brightness)
}

/// The animated water shader: one wave sample drifting with time on
/// both axes.
fn water_shader<N: NoiseSource>(fragment: &Fragment, uniforms: &Uniforms, noise: &N) -> (c: Color)
    ensures
        exists|nv: int| c == shade_water_s(*fragment, uniforms.time, nv),
{
    let x: i64 = fragment.vertex_position.x;
    let y: i64 = fragment.vertex_position.y;
    let t: i64 = fx_mul(fx_of_int(uniforms.time as i64), FX_HALF);
    let nv: i64 = noise.noise2(
        fx_add(fx_mul(x, WATER_ZOOM), t),
        fx_add(fx_mul(y, WATER_ZOOM), t),
    );
    shade_water(fragment, uniforms.time, nv)
}

/// Noise zoom of the crystal: 150.
pub const CRYSTAL_ZOOM: i64 = 9830400;

/// Refraction blend strength: 0.5.
pub const CRYSTAL_REFRACTION: i64 = 32768;

/// Sparkle threshold: 0.8.
pub const CRYSTAL_SPARKLE_T: i64 = 52429;

/// Sparkle brightness: 1.5.
pub const CRYSTAL_SPARKLE_GAIN: i64 = 98304;

/// Time scale of the crystal animation: 0.1.
pub const CRYSTAL_TIME_SCALE: i64 = 6554;

/// The crystal rule: sky blue refracted toward a lighter blue by the
/// 3D sample, a boosted white sparkle added where the 2D sample is
/// high, dimmed by intensity.
pub open spec fn shade_crystal_s(f: Fragment, nv: int, sparkle_nv: int) -> Color {
    let refracted = lerp_s(
        Color { r: 135, g: 206, b: 235 },
        Color { r: 173, g: 216, b: 230 },
        fxmul_s(nv, CRYSTAL_REFRACTION as int),
    );
    let sparkle = if sparkle_nv > CRYSTAL_SPARKLE_T {
        scale_s(Color { r: 255, g: 255, b: 255 }, CRYSTAL_SPARKLE_GAIN as int)
    } else {
        Color { r: 0, g: 0, b: 0 }
    };
    scale_s(addc_s(refracted, sparkle), f.intensity as int)
}

/// Color a crystal fragment from its refraction and sparkle samples.
pub fn shade_crystal(fragment: &Fragment, noise_value: i64, sparkle_value: i64) -> (c: Color)
    ensures
        c == shade_crystal_s(*fragment, noise_value as int, sparkle_value as int),
{
    let base = Color::new(135, 206, 235);
    let highlight = Color::new(173, 216, 230);
    let refracted = base.lerp(&highlight, fx_mul(noise_value, CRYSTAL_REFRACTION));
    let sparkle = if sparkle_value > CRYSTAL_SPARKLE_T {
        Color::new(255, 255, 255).scale(CRYSTAL_SPARKLE_GAIN)
    } else {
        Color::new(0, 0, 0)
    };
    refracted.saturating_add(&sparkle).scale(fragment.intensity)
}

/// The sparkling crystal shader: a 3D refraction sample animated in
/// depth and a 2D sparkle sample animated on both axes.
fn crystal_shader<N: NoiseSource>(fragment: &Fragment, uniforms: &Uniforms, noise: &N) -> (c:
    Color)
    ensures
        exists|nv1: int, nv2: int| c == shade_crystal_s(*fragment, nv1, nv2),
{
    let x: i64 = fragment.vertex_position.x;
    let y: i64 = fragment.vertex_position.y;
    let z: i64 = fragment.depth;
    let t: i64 = fx_mul(fx_of_int(uniforms.time as i64), CRYSTAL_TIME_SCALE);
    let nv: i64 = noise.noise3(
        fx_mul(x, CRYSTAL_ZOOM),
        fx_mul(y, CRYSTAL_ZOOM),
        fx_add(fx_mul(z, CRYSTAL_ZOOM), t),
    );
    let sparkle: i64 = noise.noise2(
        fx_add(fx_mul(x, CRYSTAL_ZOOM), t),
        fx_add(fx_mul(y, CRYSTAL_ZOOM), t),
    );
    shade_crystal(fragment, nv, sparkle)
}

/// Noise zoom of the arid ground: 100.
pub const ARID_ZOOM: i64 = 6553600;

/// Coordinate offset of the arid ground: 50.
pub const ARID_OFFSET: i64 = 3276800;

/// Crack threshold: 0.2.
pub const ARID_T: i64 = 13107;

/// The arid rule: brown cracks in sand where the sample's magnitude is
/// small, blended toward a warm highlight by the pulse times the
/// intensity.
pub open spec fn shade_arid_s(f: Fragment, time: u32, nv: int) -> Color {
    let base = if fxabs_s(nv) < ARID_T {
        Color { r: 117, g: 76, b: 36 }
    } else {
        Color { r: 237, g: 201, b: 175 }
    };
    lerp_s(
        base,
        Color { r: 255, g: 223, b: 186 },
        fxmul_s(pulse_s(time), f.intensity as int),
    )
}

/// Color an arid fragment from its crack sample.
pub fn shade_arid(fragment: &Fragment, time: u32, noise_value: i64) -> (c: Color)
    ensures
        c == shade_arid_s(*fragment, time, noise_value as int),
{
    let base = if fx_abs(noise_value) < ARID_T {
        Color::new(117, 76, 36)
    } else {
        Color::new(237, 201, 175)
    };
    let highlight = Color::new(255, 223, 186);
    base.lerp(&highlight, fx_mul(pulse(time), fragment.intensity))
}

/// The cracked arid-ground shader: one offset, zoomed sample.
fn arid_shader<N: NoiseSource>(fragment: &Fragment, uniforms: &Uniforms, noise: &N) -> (c: Color)
    ensures
        exists|nv: int| c == shade_arid_s(*fragment, uniforms.time, nv),
{
    let x: i64 = fragment.vertex_position.x;
    let y: i64 = fragment.vertex_position.y;
    let nv: i64 = noise.noise2(
        fx_add(fx_mul(x, ARID_ZOOM), ARID_OFFSET),
        fx_add(fx_mul(y, ARID_ZOOM), ARID_OFFSET),
    );
    shade_arid(fragment, uniforms.time, nv)
}

/// What the dispatcher promises of its output: for the flicker variant
/// the exact deterministic rule; for every noise variant, that variant's
/// rule applied to some samples.
pub open spec fn shader_output_ok(st: ShaderType, f: Fragment, time: u32, c: Color) -> bool {
    match st {
        ShaderType::Mercury => exists|n1: int, n2: int| c == shade_mercury_s(f, time, n1, n2),
        ShaderType::CrackedEarth => exists|n1: int, n2: int| c == shade_cracked_earth_s(f, n1, n2),
        ShaderType::BlackAndWhite => c == bw_color_s(
            percent_of(bw_seed_s(f, time)) as int,
            f.intensity as int,
        ),
        ShaderType::Dalmata => exists|n: int| c == shade_dalmata_s(f, n),
        ShaderType::Cloud => exists|n: int| c == shade_cloud_s(f, n),
        ShaderType::Cellular => exists|n: int| c == shade_cellular_s(f, n),
        ShaderType::Lava => exists|n1: int, n2: int| c == shade_lava_s(f, n1, n2),
        ShaderType::water_shader => exists|n: int| c == shade_water_s(f, time, n),
        ShaderType::crystal_shader => exists|n1: int, n2: int| c == shade_crystal_s(f, n1, n2),
        ShaderType::arid_shader => exists|n: int| c == shade_arid_s(f, time, n),
    }
}

/// Dispatch a fragment to the selected shader variant.
pub fn apply_shader<N: NoiseSource>(
    fragment: &Fragment,
    uniforms: &Uniforms,
    shader_type: ShaderType,
    noise: &N,
) -> (c: Color)
    ensures
        shader_output_ok(shader_type, *fragment, uniforms.time, c),
{
    match shader_type {
        ShaderType::Mercury => mercury_shader(fragment, uniforms, noise),
        ShaderType::CrackedEarth => cracked_earth_shader(fragment, uniforms, noise),
        ShaderType::BlackAndWhite => black_and_white(fragment, uniforms),
        ShaderType::Dalmata => dalmata_shader(fragment, uniforms, noise),
        ShaderType::Cloud => cloud_shader(fragment, uniforms, noise),
        ShaderType::Cellular => cellular_shader(fragment, uniforms, noise),
        ShaderType::Lava => lava_shader(fragment, uniforms, noise),
        ShaderType::water_shader => water_shader(fragment, uniforms, noise),
        ShaderType::crystal_shader => crystal_shader(fragment, uniforms, noise),
        ShaderType::arid_shader => arid_shader(fragment, uniforms, noise),
    }
}

/// The default fragment shader of the pipeline: the cracked-ground
/// rule.
pub fn fragment_shader<N: NoiseSource>(fragment: &Fragment, uniforms: &Uniforms, noise: &N) -> (c:
    Color)
    ensures
        exists|n1: int, n2: int| c == shade_cracked_earth_s(*fragment, n1, n2),
{
    cracked_earth_shader(fragment, uniforms, noise)
}

} // verus!
