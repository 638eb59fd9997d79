use softpipe::color::Color;
use softpipe::fixed::FX_ONE;
use softpipe::framebuffer::{Framebuffer, DEPTH_FAR};

#[test]
fn color_packs_to_hex() {
    assert_eq!(Color::new(255, 255, 255).to_hex(), 0xffffff);
    assert_eq!(Color::new(0x12, 0x34, 0x56).to_hex(), 0x123456);
    assert_eq!(Color::new(0, 0, 0).to_hex(), 0);
}

#[test]
fn lerp_at_zero_returns_the_first_color() {
    let a = Color::new(10, 20, 30);
    let b = Color::new(200, 100, 50);
    assert_eq!(a.lerp(&b, 0), a);
    assert_eq!(a.lerp(&b, -5 * FX_ONE), a);
}

#[test]
fn lerp_at_one_returns_the_second_color() {
    let a = Color::new(10, 20, 30);
    let b = Color::new(200, 100, 50);
    assert_eq!(a.lerp(&b, FX_ONE), b);
    assert_eq!(a.lerp(&b, 7 * FX_ONE), b);
}

#[test]
fn lerp_midpoint_rounds_toward_the_first() {
    let black = Color::new(0, 0, 0);
    let white = Color::new(255, 255, 255);
    assert_eq!(black.lerp(&white, 32768), Color::new(127, 127, 127));
    assert_eq!(white.lerp(&black, 32768), Color::new(128, 128, 128));
}

#[test]
fn scale_dims_and_clamps() {
    let c = Color::new(200, 100, 4);
    assert_eq!(c.scale(32768), Color::new(100, 50, 2));
    assert_eq!(c.scale(FX_ONE), c);
    assert_eq!(c.scale(0), Color::new(0, 0, 0));
    assert_eq!(c.scale(-FX_ONE), Color::new(0, 0, 0));
    assert_eq!(c.scale(2 * FX_ONE), Color::new(255, 200, 8));
}

#[test]
fn saturating_add_stops_at_white() {
    let a = Color::new(200, 10, 255);
    let b = Color::new(100, 20, 1);
    assert_eq!(a.saturating_add(&b), Color::new(255, 30, 255));
}

#[test]
fn new_framebuffer_is_black_and_far() {
    let fb = Framebuffer::new(4, 3);
    assert_eq!(fb.width, 4);
    assert_eq!(fb.height, 3);
    assert_eq!(fb.buffer.len(), 12);
    assert_eq!(fb.zbuffer.len(), 12);
    assert!(fb.buffer.iter().all(|&c| c == 0));
    assert!(fb.zbuffer.iter().all(|&d| d == DEPTH_FAR));
}

#[test]
fn clear_paints_the_background_everywhere() {
    let mut fb = Framebuffer::new(4, 3);
    fb.set_background_color(0x112233);
    fb.set_current_color(0xabcdef);
    fb.point(2, 1, 5);
    fb.clear();
    assert!(fb.buffer.iter().all(|&c| c == 0x112233));
    assert!(fb.zbuffer.iter().all(|&d| d == DEPTH_FAR));
}

#[test]
fn point_respects_the_depth_test() {
    let mut fb = Framebuffer::new(4, 4);
    fb.set_current_color(0x00ff00);
    fb.point(1, 2, 100);
    assert_eq!(fb.buffer[2 * 4 + 1], 0x00ff00);
    assert_eq!(fb.zbuffer[2 * 4 + 1], 100);
    // a farther write is rejected
    fb.set_current_color(0xff0000);
    fb.point(1, 2, 200);
    assert_eq!(fb.buffer[2 * 4 + 1], 0x00ff00);
    assert_eq!(fb.zbuffer[2 * 4 + 1], 100);
    // an equally deep write is rejected too
    fb.point(1, 2, 100);
    assert_eq!(fb.buffer[2 * 4 + 1], 0x00ff00);
}

#[test]
fn writing_the_same_point_twice_changes_nothing() {
    let mut fb = Framebuffer::new(4, 4);
    fb.set_current_color(0x123456);
    fb.point(3, 0, 42);
    let colors = fb.buffer.clone();
    let depths = fb.zbuffer.clone();
    fb.point(3, 0, 42);
    assert_eq!(fb.buffer, colors);
    assert_eq!(fb.zbuffer, depths);
}

#[test]
fn nearest_write_wins_in_either_order() {
    // near first, far second
    let mut fb = Framebuffer::new(2, 2);
    fb.set_current_color(0x0000ff);
    fb.point(0, 0, 10);
    fb.set_current_color(0x00ff00);
    fb.point(0, 0, 20);
    assert_eq!(fb.buffer[0], 0x0000ff);
    assert_eq!(fb.zbuffer[0], 10);
    // far first, near second
    let mut fb2 = Framebuffer::new(2, 2);
    fb2.set_current_color(0x00ff00);
    fb2.point(0, 0, 20);
    fb2.set_current_color(0x0000ff);
    fb2.point(0, 0, 10);
    assert_eq!(fb2.buffer[0], 0x0000ff);
    assert_eq!(fb2.zbuffer[0], 10);
}
