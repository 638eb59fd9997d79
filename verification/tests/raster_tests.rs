use softpipe::fixed::FX_ONE;
use softpipe::fragment::Fragment;
use softpipe::raster::triangle;
use softpipe::vec3::{Vec2Fx, Vec3Fx};
use softpipe::vertex::Vertex;

fn screen_vertex(px: i64, py: i64, depth: i64) -> Vertex {
    let mut v = Vertex::new(
        Vec3Fx { x: px * FX_ONE, y: py * FX_ONE, z: depth },
        Vec3Fx { x: 0, y: 0, z: FX_ONE },
        Vec2Fx { x: 0, y: 0 },
    );
    v.transformed_position = Vec3Fx { x: px * FX_ONE, y: py * FX_ONE, z: depth };
    v.transformed_normal = Vec3Fx { x: 0, y: 0, z: FX_ONE };
    v
}

fn frag_at(frags: &[Fragment], x: usize, y: usize) -> Option<&Fragment> {
    frags.iter().find(|f| f.x == x && f.y == y)
}

#[test]
fn right_triangle_covers_exactly_its_closed_region() {
    let v0 = screen_vertex(10, 10, 32768);
    let v1 = screen_vertex(20, 10, 32768);
    let v2 = screen_vertex(10, 20, 32768);
    let frags = triangle(&v0, &v1, &v2);
    for y in 0..32usize {
        for x in 0..32usize {
            let inside = x >= 10 && y >= 10 && x + y <= 30;
            assert_eq!(frag_at(&frags, x, y).is_some(), inside, "pixel ({}, {})", x, y);
        }
    }
    assert_eq!(frags.len(), 66);
}

#[test]
fn fragments_carry_the_uniform_depth_and_full_intensity() {
    let v0 = screen_vertex(10, 10, 32768);
    let v1 = screen_vertex(20, 10, 32768);
    let v2 = screen_vertex(10, 20, 32768);
    let frags = triangle(&v0, &v1, &v2);
    assert!(!frags.is_empty());
    for f in &frags {
        assert_eq!(f.depth, 32768);
        assert_eq!(f.intensity, FX_ONE);
    }
}

#[test]
fn zero_area_triangle_emits_nothing() {
    let v0 = screen_vertex(5, 5, 0);
    let v1 = screen_vertex(9, 9, 0);
    let v2 = screen_vertex(13, 13, 0);
    assert!(triangle(&v0, &v1, &v2).is_empty());
    assert!(triangle(&v0, &v0, &v0).is_empty());
}

#[test]
fn positive_area_on_the_grid_emits_at_least_one_fragment() {
    // a thin sliver still covers its own vertices
    let v0 = screen_vertex(4, 4, 0);
    let v1 = screen_vertex(30, 5, 0);
    let v2 = screen_vertex(5, 5, 0);
    let frags = triangle(&v0, &v1, &v2);
    assert!(frags.len() >= 1);
    assert!(frag_at(&frags, 4, 4).is_some());
}

#[test]
fn clockwise_winding_is_covered_too() {
    let v0 = screen_vertex(10, 10, 0);
    let v1 = screen_vertex(10, 20, 0);
    let v2 = screen_vertex(20, 10, 0);
    let frags = triangle(&v0, &v1, &v2);
    assert_eq!(frags.len(), 66);
}

#[test]
fn off_screen_triangle_fragments_never_pass_the_bounds_check() {
    // entirely to the right of a 32-wide framebuffer
    let v0 = screen_vertex(40, 0, 0);
    let v1 = screen_vertex(50, 0, 0);
    let v2 = screen_vertex(40, 10, 0);
    let frags = triangle(&v0, &v1, &v2);
    assert!(!frags.is_empty());
    for f in &frags {
        assert!(!(f.x < 32 && f.y < 32));
    }
    // entirely above the screen: the clipped box is empty
    let u0 = screen_vertex(5, -30, 0);
    let u1 = screen_vertex(15, -30, 0);
    let u2 = screen_vertex(5, -20, 0);
    assert!(triangle(&u0, &u1, &u2).is_empty());
}

#[test]
fn fragments_come_in_row_major_order() {
    let v0 = screen_vertex(10, 10, 0);
    let v1 = screen_vertex(20, 10, 0);
    let v2 = screen_vertex(10, 20, 0);
    let frags = triangle(&v0, &v1, &v2);
    for w in frags.windows(2) {
        assert!(w[0].y < w[1].y || (w[0].y == w[1].y && w[0].x < w[1].x));
    }
}

#[test]
fn depth_interpolates_between_the_vertices() {
    let v0 = screen_vertex(0, 0, 0);
    let v1 = screen_vertex(16, 0, 16 * FX_ONE);
    let v2 = screen_vertex(0, 16, 0);
    let frags = triangle(&v0, &v1, &v2);
    let corner = frag_at(&frags, 16, 0).unwrap();
    assert_eq!(corner.depth, 16 * FX_ONE);
    let origin = frag_at(&frags, 0, 0).unwrap();
    assert_eq!(origin.depth, 0);
    let mid = frag_at(&frags, 8, 0).unwrap();
    assert_eq!(mid.depth, 8 * FX_ONE);
    for f in &frags {
        assert!(0 <= f.depth && f.depth <= 16 * FX_ONE);
    }
}

#[test]
fn shading_position_interpolates_object_space() {
    // screen positions differ from object-space positions
    let mut v0 = screen_vertex(0, 0, 0);
    let mut v1 = screen_vertex(16, 0, 0);
    let mut v2 = screen_vertex(0, 16, 0);
    v0.position = Vec3Fx { x: -FX_ONE, y: 0, z: 0 };
    v1.position = Vec3Fx { x: FX_ONE, y: 0, z: 0 };
    v2.position = Vec3Fx { x: -FX_ONE, y: FX_ONE, z: 0 };
    let frags = triangle(&v0, &v1, &v2);
    let at_v1 = frag_at(&frags, 16, 0).unwrap();
    assert_eq!(at_v1.vertex_position.x, FX_ONE);
    let at_mid = frag_at(&frags, 8, 0).unwrap();
    assert_eq!(at_mid.vertex_position.x, 0);
}
