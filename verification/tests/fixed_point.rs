use softpipe::fixed::{
    fx_abs, fx_add, fx_clamp, fx_cos, fx_div, fx_mul, fx_neg, fx_of_int, fx_sin, fx_sub,
    isqrt_u128, FX_HALF_PI, FX_ONE, FX_PI,
};
use softpipe::vec3::{v3_cross, v3_dot, v3_norm, v3_normalize, Vec3Fx};

#[test]
fn add_sub_neg_basics() {
    assert_eq!(fx_add(3 * FX_ONE, 4 * FX_ONE), 7 * FX_ONE);
    assert_eq!(fx_sub(3 * FX_ONE, 4 * FX_ONE), -FX_ONE);
    assert_eq!(fx_neg(5 * FX_ONE), -5 * FX_ONE);
    assert_eq!(fx_abs(-5 * FX_ONE), 5 * FX_ONE);
}

#[test]
fn add_saturates_at_the_rails() {
    assert_eq!(fx_add(i64::MAX, 1), i64::MAX);
    assert_eq!(fx_add(i64::MIN, -1), i64::MIN);
    assert_eq!(fx_sub(i64::MIN, 1), i64::MIN);
    assert_eq!(fx_neg(i64::MIN), i64::MAX);
}

#[test]
fn mul_scales_back_down() {
    assert_eq!(fx_mul(2 * FX_ONE, 3 * FX_ONE), 6 * FX_ONE);
    assert_eq!(fx_mul(-2 * FX_ONE, 3 * FX_ONE), -6 * FX_ONE);
    // 0.5 * 0.5 == 0.25
    assert_eq!(fx_mul(32768, 32768), 16384);
    // rounding is toward zero
    assert_eq!(fx_mul(1, 1), 0);
    assert_eq!(fx_mul(-1, 1), 0);
    assert_eq!(fx_mul(i64::MAX, i64::MAX), i64::MAX);
}

#[test]
fn div_scales_up_and_zero_divisor_gives_zero() {
    assert_eq!(fx_div(6 * FX_ONE, 3 * FX_ONE), 2 * FX_ONE);
    assert_eq!(fx_div(FX_ONE, 2 * FX_ONE), 32768);
    assert_eq!(fx_div(-FX_ONE, 2 * FX_ONE), -32768);
    assert_eq!(fx_div(123456, 0), 0);
}

#[test]
fn int_conversion_and_clamp() {
    assert_eq!(fx_of_int(800), 800 * FX_ONE);
    assert_eq!(fx_of_int(-3), -3 * FX_ONE);
    assert_eq!(fx_clamp(5, 0, 3), 3);
    assert_eq!(fx_clamp(-5, 0, 3), 0);
    assert_eq!(fx_clamp(2, 0, 3), 2);
}

#[test]
fn sine_hits_the_cardinal_points() {
    assert_eq!(fx_sin(0), 0);
    assert_eq!(fx_sin(FX_HALF_PI), FX_ONE);
    assert_eq!(fx_sin(FX_PI), 0);
    assert_eq!(fx_sin(-FX_HALF_PI), -FX_ONE);
    assert_eq!(fx_cos(0), FX_ONE);
    // a quarter turn past the half turn
    assert_eq!(fx_sin(308831), -FX_ONE);
}

#[test]
fn sine_is_periodic_and_bounded() {
    let two_pi: i64 = 411775;
    for k in [-3i64, -1, 0, 1, 5] {
        assert_eq!(fx_sin(12345 + k * two_pi), fx_sin(12345));
    }
    for x in [-999999i64, -1, 0, 7, 100000, 999999999] {
        let s = fx_sin(x);
        assert!(-FX_ONE <= s && s <= FX_ONE);
    }
}

#[test]
fn integer_square_root_brackets() {
    assert_eq!(isqrt_u128(0), 0);
    assert_eq!(isqrt_u128(1), 1);
    assert_eq!(isqrt_u128(24), 4);
    assert_eq!(isqrt_u128(25), 5);
    assert_eq!(isqrt_u128(u128::MAX), (1u128 << 64) - 1);
}

#[test]
fn vector_norm_is_exact_on_pythagorean_triples() {
    let v = Vec3Fx { x: 3 * FX_ONE, y: 4 * FX_ONE, z: 0 };
    assert_eq!(v3_norm(v), 5 * FX_ONE);
    let n = v3_normalize(v);
    // 3/5 and 4/5 in fixed point, rounded toward zero
    assert_eq!(n.x, 3 * FX_ONE * FX_ONE / (5 * FX_ONE));
    assert_eq!(n.y, 4 * FX_ONE * FX_ONE / (5 * FX_ONE));
    assert_eq!(n.z, 0);
}

#[test]
fn cross_and_dot_follow_the_right_hand() {
    let x = Vec3Fx { x: FX_ONE, y: 0, z: 0 };
    let y = Vec3Fx { x: 0, y: FX_ONE, z: 0 };
    let z = v3_cross(x, y);
    assert_eq!(z, Vec3Fx { x: 0, y: 0, z: FX_ONE });
    assert_eq!(v3_dot(x, y), 0);
    assert_eq!(v3_dot(z, z), FX_ONE);
}
