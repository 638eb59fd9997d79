//! The rasterizer: a screen-space triangle becomes fragments.
//!
//! Coverage uses the standard barycentric edge-function test, computed
//! exactly in `i128` over fixed-point coordinates: a pixel's sample
//! point is covered when all three orientation-corrected edge weights
//! are non-negative and their sum is positive; a zero-area triangle
//! emits nothing. Fragments are produced row by row over the triangle's
//! bounding box clipped at zero, so no fragment ever carries a negative
//! pixel coordinate; clipping against the framebuffer's far edges is the
//! caller's bounds check. Depth, the shading-space position and the
//! normal are interpolated linearly in barycentric space (deliberately
//! without perspective correction); the interpolated normal, clamped to
//! the coordinate range, is normalized and its component along the
//! fixed light direction (the positive Z axis) gives the fragment's
//! intensity, clamped to `[0, 1]`.

use vstd::prelude::*;
use vstd::arithmetic::div_mod::lemma_div_is_ordered;
use vstd::arithmetic::div_mod::lemma_div_multiples_vanish;
use vstd::arithmetic::div_mod::lemma_fundamental_div_mod;
use crate::fixed::abs_i;
use crate::fixed::clamp_s;
use crate::fixed::fx_clamp;
use crate::fixed::FX_COORD_MAX;
use crate::fixed::FX_ONE;
use crate::fragment::Fragment;
use crate::vec3::v3_clamp_coord;
use crate::vec3::v3_clamp_coord_s;
use crate::vec3::v3_in_coord_range;
use crate::vec3::v3_in_range;
use crate::vec3::v3_normalize;
use crate::vec3::v3_normalize_s;
use crate::vec3::Vec3Fx;
use crate::vertex::Vertex;

verus! {

/// The largest magnitude an edge-function value can take on coordinates
/// within range: comfortably inside `i128`.
pub const EDGE_MAX: i128 = 0x20_0000_0000_0000_0000_0000;

/// The smallest of three values.
pub open spec fn min3_s(a: int, b: int, c: int) -> int {
    if a <= b && a <= c {
        a
    } else if b <= c {
        b
    } else {
        c
    }
}

/// The largest of three values.
pub open spec fn max3_s(a: int, b: int, c: int) -> int {
    if a >= b && a >= c {
        a
    } else if b >= c {
        b
    } else {
        c
    }
}

/// The signed edge function: twice the signed area of the triangle
/// `(a, b, p)`, positive when `p` lies to the left of the edge `a -> b`.
pub open spec fn edge_s(ax: int, ay: int, bx: int, by: int, px: int, py: int) -> int {
    (bx - ax) * (py - ay) - (by - ay) * (px - ax)
}

/// Twice the signed screen-space area of the triangle.
pub open spec fn orient_s(v0: Vertex, v1: Vertex, v2: Vertex) -> int {
    edge_s(
        v0.transformed_position.x as int,
        v0.transformed_position.y as int,
        v1.transformed_position.x as int,
        v1.transformed_position.y as int,
        v2.transformed_position.x as int,
        v2.transformed_position.y as int,
    )
}

/// The orientation-corrected barycentric weight of the first vertex at
/// the sample point of pixel `(px, py)`.
pub open spec fn w0_s(v0: Vertex, v1: Vertex, v2: Vertex, px: int, py: int) -> int {
    let e = edge_s(
        v1.transformed_position.x as int,
        v1.transformed_position.y as int,
        v2.transformed_position.x as int,
        v2.transformed_position.y as int,
        px * (FX_ONE as int),
        py * (FX_ONE as int),
    );
    if orient_s(v0, v1, v2) < 0 {
        -e
    } else {
        e
    }
}

/// The weight of the second vertex.
pub open spec fn w1_s(v0: Vertex, v1: Vertex, v2: Vertex, px: int, py: int) -> int {
    let e = edge_s(
        v2.transformed_position.x as int,
        v2.transformed_position.y as int,
        v0.transformed_position.x as int,
        v0.transformed_position.y as int,
        px * (FX_ONE as int),
        py * (FX_ONE as int),
    );
    if orient_s(v0, v1, v2) < 0 {
        -e
    } else {
        e
    }
}

/// The weight of the third vertex.
pub open spec fn w2_s(v0: Vertex, v1: Vertex, v2: Vertex, px: int, py: int) -> int {
    let e = edge_s(
        v0.transformed_position.x as int,
        v0.transformed_position.y as int,
        v1.transformed_position.x as int,
        v1.transformed_position.y as int,
        px * (FX_ONE as int),
        py * (FX_ONE as int),
    );
    if orient_s(v0, v1, v2) < 0 {
        -e
    } else {
        e
    }
}

/// Whether the pixel's sample point lies in the triangle: the triangle
/// has area, all three weights agree in sign, and they do not all
/// vanish.
pub open spec fn covered_s(v0: Vertex, v1: Vertex, v2: Vertex, px: int, py: int) -> bool {
    &&& orient_s(v0, v1, v2) != 0
    &&& w0_s(v0, v1, v2, px, py) >= 0
    &&& w1_s(v0, v1, v2, px, py) >= 0
    &&& w2_s(v0, v1, v2, px, py) >= 0
    &&& w0_s(v0, v1, v2, px, py) + w1_s(v0, v1, v2, px, py) + w2_s(v0, v1, v2, px, py) > 0
}

/// The first pixel column of the bounding box, clipped at zero.
pub open spec fn xlo_s(v0: Vertex, v1: Vertex, v2: Vertex) -> int {
    let m = min3_s(
        v0.transformed_position.x as int,
        v1.transformed_position.x as int,
        v2.transformed_position.x as int,
    );
    if m <= 0 {
        0
    } else {
        m / (FX_ONE as int)
    }
}

/// The last pixel column of the bounding box; `-1` for a triangle
/// entirely left of the screen.
pub open spec fn xhi_s(v0: Vertex, v1: Vertex, v2: Vertex) -> int {
    let m = max3_s(
        v0.transformed_position.x as int,
        v1.transformed_position.x as int,
        v2.transformed_position.x as int,
    );
    if m < 0 {
        -1
    } else {
        (m + (FX_ONE as int) - 1) / (FX_ONE as int)
    }
}

/// The first pixel row of the bounding box, clipped at zero.
pub open spec fn ylo_s(v0: Vertex, v1: Vertex, v2: Vertex) -> int {
    let m = min3_s(
        v0.transformed_position.y as int,
        v1.transformed_position.y as int,
        v2.transformed_position.y as int,
    );
    if m <= 0 {
        0
    } else {
        m / (FX_ONE as int)
    }
}

/// The last pixel row of the bounding box; `-1` for a triangle entirely
/// above the screen.
pub open spec fn yhi_s(v0: Vertex, v1: Vertex, v2: Vertex) -> int {
    let m = max3_s(
        v0.transformed_position.y as int,
        v1.transformed_position.y as int,
        v2.transformed_position.y as int,
    );
    if m < 0 {
        -1
    } else {
        (m + (FX_ONE as int) - 1) / (FX_ONE as int)
    }
}

/// Whether a pixel lies in the clipped bounding box the rasterizer
/// scans.
pub open spec fn in_bbox_s(v0: Vertex, v1: Vertex, v2: Vertex, px: int, py: int) -> bool {
    &&& xlo_s(v0, v1, v2) <= px <= xhi_s(v0, v1, v2)
    &&& ylo_s(v0, v1, v2) <= py <= yhi_s(v0, v1, v2)
}

/// Barycentric interpolation of one attribute, rounded down from the
/// smallest value: `m + (w0 (a0 - m) + w1 (a1 - m) + w2 (a2 - m)) / s`.
pub open spec fn interp_s(w0: int, w1: int, w2: int, a0: int, a1: int, a2: int) -> int {
    let m = min3_s(a0, a1, a2);
    m + (w0 * (a0 - m) + w1 * (a1 - m) + w2 * (a2 - m)) / (w0 + w1 + w2)
}

/// The Lambertian intensity of a normal: its normalized component along
/// the fixed light direction (the positive Z axis), clamped to `[0, 1]`.
pub open spec fn intensity_s(n: Vec3Fx) -> int {
    clamp_s(v3_normalize_s(n).z as int, 0, FX_ONE as int)
}

/// The fragment the rasterizer builds at pixel `(px, py)` from given
/// barycentric weights.
pub open spec fn frag_from_weights_s(
    v0: Vertex,
    v1: Vertex,
    v2: Vertex,
    px: int,
    py: int,
    w0: int,
    w1: int,
    w2: int,
) -> Fragment {
    let n0 = v3_clamp_coord_s(v0.transformed_normal);
    let n1 = v3_clamp_coord_s(v1.transformed_normal);
    let n2 = v3_clamp_coord_s(v2.transformed_normal);
    let n = Vec3Fx {
        x: interp_s(w0, w1, w2, n0.x as int, n1.x as int, n2.x as int) as i64,
        y: interp_s(w0, w1, w2, n0.y as int, n1.y as int, n2.y as int) as i64,
        z: interp_s(w0, w1, w2, n0.z as int, n1.z as int, n2.z as int) as i64,
    };
    Fragment {
        x: px as usize,
        y: py as usize,
        vertex_position: Vec3Fx {
            x: interp_s(
                w0,
                w1,
                w2,
                v0.position.x as int,
                v1.position.x as int,
                v2.position.x as int,
            ) as i64,
            y: interp_s(
                w0,
                w1,
                w2,
                v0.position.y as int,
                v1.position.y as int,
                v2.position.y as int,
            ) as i64,
            z: interp_s(
                w0,
                w1,
                w2,
                v0.position.z as int,
                v1.position.z as int,
                v2.position.z as int,
            ) as i64,
        },
        depth: interp_s(
            w0,
            w1,
            w2,
            v0.transformed_position.z as int,
            v1.transformed_position.z as int,
            v2.transformed_position.z as int,
        ) as i64,
        intensity: intensity_s(n) as i64,
    }
}

/// The fragment the rasterizer emits at a covered pixel.
#[verifier::opaque]
pub open spec fn frag_at_s(v0: Vertex, v1: Vertex, v2: Vertex, px: int, py: int) -> Fragment {
    frag_from_weights_s(
        v0,
        v1,
        v2,
        px,
        py,
        w0_s(v0, v1, v2, px, py),
        w1_s(v0, v1, v2, px, py),
        w2_s(v0, v1, v2, px, py),
    )
}

/// The coordinate ranges the rasterizer's exact arithmetic needs: the
/// screen positions and the object-space positions of all three
/// vertices within `FX_COORD_MAX`.
pub open spec fn tri_in_range_s(v0: Vertex, v1: Vertex, v2: Vertex) -> bool {
    &&& v3_in_coord_range(v0.transformed_position)
    &&& v3_in_coord_range(v1.transformed_position)
    &&& v3_in_coord_range(v2.transformed_position)
    &&& v3_in_coord_range(v0.position)
    &&& v3_in_coord_range(v1.position)
    &&& v3_in_coord_range(v2.position)
}

/// Test the coordinate ranges the rasterizer needs.
pub fn tri_in_range(v0: &Vertex, v1: &Vertex, v2: &Vertex) -> (b: bool)
    ensures
        b == tri_in_range_s(*v0, *v1, *v2),
{
    v3_in_range(v0.transformed_position) && v3_in_range(v1.transformed_position) && v3_in_range(
        v2.transformed_position,
    ) && v3_in_range(v0.position) && v3_in_range(v1.position) && v3_in_range(v2.position)
}

/// Whether the fragments come in strict scanline order: row by row,
/// left to right, so the output is deterministic and each pixel
/// appears at most once.
pub open spec fn scanline_ordered(frags: Seq<Fragment>) -> bool {
    forall|i1: int, i2: int|
        0 <= i1 < i2 < frags.len() ==> ((#[trigger] frags[i1]).y < (#[trigger] frags[i2]).y || (
        frags[i1].y == frags[i2].y && frags[i1].x < frags[i2].x))
}

/// Whether some fragment of the sequence sits at pixel `(qx, qy)`.
pub open spec fn has_frag_at(frags: Seq<Fragment>, qx: int, qy: int) -> bool {
    exists|i: int|
        0 <= i < frags.len() && (#[trigger] frags[i]).x == qx && frags[i].y == qy
}

/// A fragment found at a pixel is still there after a push.
proof fn lemma_has_frag_push(frags: Seq<Fragment>, f: Fragment, qx: int, qy: int)
    requires
        has_frag_at(frags, qx, qy),
    ensures
        has_frag_at(frags.push(f), qx, qy),
{
    let i = choose|i: int| 0 <= i < frags.len() && (#[trigger] frags[i]).x == qx && frags[i].y
        == qy;
    assert(frags.push(f)[i] == frags[i]);
}

/// The smallest of three values.
fn min3(a: i64, b: i64, c: i64) -> (r: i64)
    ensures
        r == min3_s(a as int, b as int, c as int),
{
    if a <= b && a <= c {
        a
    } else if b <= c {
        b
    } else {
        c
    }
}

/// The largest of three values.
fn max3(a: i64, b: i64, c: i64) -> (r: i64)
    ensures
        r == max3_s(a as int, b as int, c as int),
{
    if a >= b && a >= c {
        a
    } else if b >= c {
        b
    } else {
        c
    }
}

/// The edge function, exactly, in `i128`.
fn edge_i128(ax: i64, ay: i64, bx: i64, by: i64, px: i64, py: i64) -> (r: i128)
    requires
        -0x200_0000_0000 <= ax <= 0x200_0000_0000,
        -0x200_0000_0000 <= ay <= 0x200_0000_0000,
        -0x200_0000_0000 <= bx <= 0x200_0000_0000,
        -0x200_0000_0000 <= by <= 0x200_0000_0000,
        -0x200_0000_0000 <= px <= 0x200_0000_0000,
        -0x200_0000_0000 <= py <= 0x200_0000_0000,
    ensures
        r == edge_s(ax as int, ay as int, bx as int, by as int, px as int, py as int),
        -EDGE_MAX <= r <= EDGE_MAX,
{
    let dx: i128 = bx as i128 - ax as i128;
    let dy: i128 = by as i128 - ay as i128;
    let qx: i128 = px as i128 - ax as i128;
    let qy: i128 = py as i128 - ay as i128;
    proof {
        assert(-0x10_0000_0000_0000_0000_0000 <= dx * qy <= 0x10_0000_0000_0000_0000_0000
            && -0x10_0000_0000_0000_0000_0000 <= dy * qx <= 0x10_0000_0000_0000_0000_0000)
            by (nonlinear_arith)
            requires
                -0x400_0000_0000 <= dx <= 0x400_0000_0000,
                -0x400_0000_0000 <= dy <= 0x400_0000_0000,
                -0x400_0000_0000 <= qx <= 0x400_0000_0000,
                -0x400_0000_0000 <= qy <= 0x400_0000_0000,
        ;
    }
    dx * qy - dy * qx
}

/// Barycentric interpolation of one attribute from non-negative weights
/// with a positive sum; the result stays between the attribute's
/// extremes.
fn interp(w0: i128, w1: i128, w2: i128, a0: i64, a1: i64, a2: i64) -> (r: i64)
    requires
        0 <= w0 <= EDGE_MAX,
        0 <= w1 <= EDGE_MAX,
        0 <= w2 <= EDGE_MAX,
        w0 + w1 + w2 > 0,
        -FX_COORD_MAX <= a0 <= FX_COORD_MAX,
        -FX_COORD_MAX <= a1 <= FX_COORD_MAX,
        -FX_COORD_MAX <= a2 <= FX_COORD_MAX,
    ensures
        r == interp_s(w0 as int, w1 as int, w2 as int, a0 as int, a1 as int, a2 as int),
        min3_s(a0 as int, a1 as int, a2 as int) <= r <= max3_s(a0 as int, a1 as int, a2 as int),
{
    let m: i64 = min3(a0, a1, a2);
    let dmax: i64 = max3(a0, a1, a2) - m;
    let s: i128 = w0 + w1 + w2;
    let d0: u128 = (a0 - m) as u128;
    let d1: u128 = (a1 - m) as u128;
    let d2: u128 = (a2 - m) as u128;
    proof {
        assert(w0 * d0 <= EDGE_MAX * (0x200_0000_0000 as int) && w0 * d0 >= 0) by (nonlinear_arith)
            requires
                0 <= w0 <= EDGE_MAX,
                0 <= d0 <= 0x200_0000_0000,
        ;
        assert(w1 * d1 <= EDGE_MAX * (0x200_0000_0000 as int) && w1 * d1 >= 0) by (nonlinear_arith)
            requires
                0 <= w1 <= EDGE_MAX,
                0 <= d1 <= 0x200_0000_0000,
        ;
        assert(w2 * d2 <= EDGE_MAX * (0x200_0000_0000 as int) && w2 * d2 >= 0) by (nonlinear_arith)
            requires
                0 <= w2 <= EDGE_MAX,
                0 <= d2 <= 0x200_0000_0000,
        ;
    }
    let num: u128 = (w0 as u128) * d0 + (w1 as u128) * d1 + (w2 as u128) * d2;
    let q: u128 = num / (s as u128);
    proof {
        assert(num <= s * dmax) by (nonlinear_arith)
            requires
                num == w0 * d0 + w1 * d1 + w2 * d2,
                s == w0 + w1 + w2,
                0 <= w0,
                0 <= w1,
                0 <= w2,
                0 <= d0 <= dmax,
                0 <= d1 <= dmax,
                0 <= d2 <= dmax,
        ;
        assert(s * dmax == dmax * s) by (nonlinear_arith);
        lemma_div_is_ordered(num as int, s as int * dmax as int, s as int);
        lemma_div_multiples_vanish(dmax as int, s as int);
    }
    m + (q as i64)
}

/// A fragment at `(px, py)` built from already-computed weights.
fn make_fragment(
    v0: &Vertex,
    v1: &Vertex,
    v2: &Vertex,
    px: i64,
    py: i64,
    w0: i128,
    w1: i128,
    w2: i128,
) -> (f: Fragment)
    requires
        tri_in_range_s(*v0, *v1, *v2),
        0 <= px <= 0x2000_0000,
        0 <= py <= 0x2000_0000,
        0 <= w0 <= EDGE_MAX,
        0 <= w1 <= EDGE_MAX,
        0 <= w2 <= EDGE_MAX,
        w0 + w1 + w2 > 0,
    ensures
        f == frag_from_weights_s(
            *v0,
            *v1,
            *v2,
            px as int,
            py as int,
            w0 as int,
            w1 as int,
            w2 as int,
        ),
{
    let n0: Vec3Fx = v3_clamp_coord(v0.transformed_normal);
    let n1: Vec3Fx = v3_clamp_coord(v1.transformed_normal);
    let n2: Vec3Fx = v3_clamp_coord(v2.transformed_normal);
    let n = Vec3Fx {
        x: interp(w0, w1, w2, n0.x, n1.x, n2.x),
        y: interp(w0, w1, w2, n0.y, n1.y, n2.y),
        z: interp(w0, w1, w2, n0.z, n1.z, n2.z),
    };
    let intensity: i64 = fx_clamp(v3_normalize(n).z, 0, FX_ONE);
    Fragment {
        x: px as usize,
        y: py as usize,
        vertex_position: Vec3Fx {
            x: interp(w0, w1, w2, v0.position.x, v1.position.x, v2.position.x),
            y: interp(w0, w1, w2, v0.position.y, v1.position.y, v2.position.y),
            z: interp(w0, w1, w2, v0.position.z, v1.position.z, v2.position.z),
        },
        depth: interp(
            w0,
            w1,
            w2,
            v0.transformed_position.z,
            v1.transformed_position.z,
            v2.transformed_position.z,
        ),
        intensity,
    }
}

/// Rasterize one screen-space triangle into its fragments, scanning the
/// clipped bounding box row by row.
///
/// The contract characterizes the result exactly: a zero-area triangle
/// emits nothing; every fragment sits at a covered pixel of the clipped
/// bounding box and equals `frag_at_s` there; every covered pixel of the
/// box gets a fragment; and a triangle with area whose first vertex
/// lies on the pixel grid with non-negative coordinates emits at least
/// one fragment.
#[verifier::loop_isolation(false)]
pub fn triangle(v0: &Vertex, v1: &Vertex, v2: &Vertex) -> (res: Vec<Fragment>)
    requires
        tri_in_range_s(*v0, *v1, *v2),
    ensures
        orient_s(*v0, *v1, *v2) == 0 ==> res@.len() == 0,
        forall|i: int|
            0 <= i < res@.len() ==> {
                let f = #[trigger] res@[i];
                &&& in_bbox_s(*v0, *v1, *v2, f.x as int, f.y as int)
                &&& covered_s(*v0, *v1, *v2, f.x as int, f.y as int)
                &&& f == frag_at_s(*v0, *v1, *v2, f.x as int, f.y as int)
            },
        forall|qx: int, qy: int|
            in_bbox_s(*v0, *v1, *v2, qx, qy) && #[trigger] covered_s(*v0, *v1, *v2, qx, qy)
                ==> has_frag_at(res@, qx, qy),
        scanline_ordered(res@),
        (orient_s(*v0, *v1, *v2) != 0 && v0.transformed_position.x as int % (FX_ONE as int) == 0
            && v0.transformed_position.y as int % (FX_ONE as int) == 0
            && v0.transformed_position.x >= 0 && v0.transformed_position.y >= 0) ==> res@.len()
            > 0,
{
    let x0: i64 = v0.transformed_position.x;
    let y0: i64 = v0.transformed_position.y;
    let x1: i64 = v1.transformed_position.x;
    let y1: i64 = v1.transformed_position.y;
    let x2: i64 = v2.transformed_position.x;
    let y2: i64 = v2.transformed_position.y;

    let or: i128 = edge_i128(x0, y0, x1, y1, x2, y2);
    if or == 0 {
        return Vec::new();
    }

    let minx: i64 = min3(x0, x1, x2);
    let maxx: i64 = max3(x0, x1, x2);
    let miny: i64 = min3(y0, y1, y2);
    let maxy: i64 = max3(y0, y1, y2);
    let xlo: i64 = if minx <= 0 {
        0
    } else {
        ((minx as u64) / 65536) as i64
    };
    let xhi: i64 = if maxx < 0 {
        -1
    } else {
        (((maxx as u64) + 65535) / 65536) as i64
    };
    let ylo: i64 = if miny <= 0 {
        0
    } else {
        ((miny as u64) / 65536) as i64
    };
    let yhi: i64 = if maxy < 0 {
        -1
    } else {
        (((maxy as u64) + 65535) / 65536) as i64
    };
    proof {
        assert(xlo == xlo_s(*v0, *v1, *v2));
        assert(xhi == xhi_s(*v0, *v1, *v2));
        assert(ylo == ylo_s(*v0, *v1, *v2));
        assert(yhi == yhi_s(*v0, *v1, *v2));
        assert(xhi <= 0x100_0001 && yhi <= 0x100_0001);
    }

    let mut res: Vec<Fragment> = Vec::new();
    let mut py: i64 = ylo;
    while py <= yhi
        invariant
            ylo <= py <= yhi + 1,
            scanline_ordered(res@),
            forall|x: int| 0 <= x < res@.len() ==> (#[trigger] res@[x]).y < py,
            forall|i: int|
                0 <= i < res@.len() ==> {
                    let f = #[trigger] res@[i];
                    &&& in_bbox_s(*v0, *v1, *v2, f.x as int, f.y as int)
                    &&& covered_s(*v0, *v1, *v2, f.x as int, f.y as int)
                    &&& f == frag_at_s(*v0, *v1, *v2, f.x as int, f.y as int)
                },
            forall|qx: int, qy: int|
                in_bbox_s(*v0, *v1, *v2, qx, qy) && #[trigger] covered_s(*v0, *v1, *v2, qx, qy)
                    && qy < py ==> has_frag_at(res@, qx, qy),
        decreases yhi + 1 - py,
    {
        let sy: i64 = py * 65536;
        let mut px: i64 = xlo;
        while px <= xhi
            invariant
                xlo <= px <= xhi + 1,
                ylo <= py <= yhi,
                scanline_ordered(res@),
                forall|x: int|
                    0 <= x < res@.len() ==> ((#[trigger] res@[x]).y < py || (res@[x].y == py
                        && res@[x].x < px)),
                forall|i: int|
                    0 <= i < res@.len() ==> {
                        let f = #[trigger] res@[i];
                        &&& in_bbox_s(*v0, *v1, *v2, f.x as int, f.y as int)
                        &&& covered_s(*v0, *v1, *v2, f.x as int, f.y as int)
                        &&& f == frag_at_s(*v0, *v1, *v2, f.x as int, f.y as int)
                    },
                forall|qx: int, qy: int|
                    in_bbox_s(*v0, *v1, *v2, qx, qy) && #[trigger] covered_s(
                        *v0,
                        *v1,
                        *v2,
                        qx,
                        qy,
                    ) && (qy < py || (qy == py && qx < px)) ==> has_frag_at(res@, qx, qy),
            decreases xhi + 1 - px,
        {
            let sx: i64 = px * 65536;
            let e0: i128 = edge_i128(x1, y1, x2, y2, sx, sy);
            let e1: i128 = edge_i128(x2, y2, x0, y0, sx, sy);
            let e2: i128 = edge_i128(x0, y0, x1, y1, sx, sy);
            let w0: i128 = if or < 0 {
                -e0
            } else {
                e0
            };
            let w1: i128 = if or < 0 {
                -e1
            } else {
                e1
            };
            let w2: i128 = if or < 0 {
                -e2
            } else {
                e2
            };
            proof {
                assert(w0 == w0_s(*v0, *v1, *v2, px as int, py as int));
                assert(w1 == w1_s(*v0, *v1, *v2, px as int, py as int));
                assert(w2 == w2_s(*v0, *v1, *v2, px as int, py as int));
            }
            if w0 >= 0 && w1 >= 0 && w2 >= 0 && w0 + w1 + w2 > 0 {
                let f: Fragment = make_fragment(v0, v1, v2, px, py, w0, w1, w2);
                let ghost prev = res@;
                res.push(f);
                proof {
                    reveal(frag_at_s);
                    assert(res@ == prev.push(f));
                    assert(res@[prev.len() as int].x == px as int && res@[prev.len() as int].y
                        == py as int);
                    assert forall|i1: int, i2: int|
                        0 <= i1 < i2 < res@.len() implies ((#[trigger] res@[i1]).y < (
                    #[trigger] res@[i2]).y || (res@[i1].y == res@[i2].y && res@[i1].x
                        < res@[i2].x)) by {
                        if i2 == prev.len() {
                            assert(res@[i1] == prev[i1]);
                        }
                    }
                    assert forall|qx: int, qy: int|
                        in_bbox_s(*v0, *v1, *v2, qx, qy) && #[trigger] covered_s(
                            *v0,
                            *v1,
                            *v2,
                            qx,
                            qy,
                        ) && (qy < py || (qy == py && qx <= px)) implies has_frag_at(
                        res@,
                        qx,
                        qy,
                    ) by {
                        if qy == py as int && qx == px as int {
                            assert(has_frag_at(res@, qx, qy));
                        } else {
                            assert(has_frag_at(prev, qx, qy));
                            lemma_has_frag_push(prev, f, qx, qy);
                        }
                    }
                }
            } else {
                proof {
                    assert(!covered_s(*v0, *v1, *v2, px as int, py as int));
                }
            }
            px = px + 1;
        }
        py = py + 1;
    }
    proof {
        if orient_s(*v0, *v1, *v2) != 0 && v0.transformed_position.x as int % (FX_ONE as int) == 0
            && v0.transformed_position.y as int % (FX_ONE as int) == 0
            && v0.transformed_position.x >= 0 && v0.transformed_position.y >= 0 {
            lemma_vertex_pixel_covered(*v0, *v1, *v2);
            let px0 = v0.transformed_position.x as int / (FX_ONE as int);
            let py0 = v0.transformed_position.y as int / (FX_ONE as int);
            assert(has_frag_at(res@, px0, py0));
        }
    }
    res
}

/// For a triangle with area whose first vertex lies on the pixel grid
/// in the first quadrant, that vertex's own pixel is covered and lies
/// in the clipped bounding box: its weights are `(|area|, 0, 0)`.
proof fn lemma_vertex_pixel_covered(v0: Vertex, v1: Vertex, v2: Vertex)
    requires
        tri_in_range_s(v0, v1, v2),
        orient_s(v0, v1, v2) != 0,
        v0.transformed_position.x as int % (FX_ONE as int) == 0,
        v0.transformed_position.y as int % (FX_ONE as int) == 0,
        v0.transformed_position.x >= 0,
        v0.transformed_position.y >= 0,
    ensures
        in_bbox_s(
            v0,
            v1,
            v2,
            v0.transformed_position.x as int / (FX_ONE as int),
            v0.transformed_position.y as int / (FX_ONE as int),
        ),
        covered_s(
            v0,
            v1,
            v2,
            v0.transformed_position.x as int / (FX_ONE as int),
            v0.transformed_position.y as int / (FX_ONE as int),
        ),
{
    let x0 = v0.transformed_position.x as int;
    let y0 = v0.transformed_position.y as int;
    let x1 = v1.transformed_position.x as int;
    let y1 = v1.transformed_position.y as int;
    let x2 = v2.transformed_position.x as int;
    let y2 = v2.transformed_position.y as int;
    let s = FX_ONE as int;
    let px = x0 / s;
    let py = y0 / s;
    lemma_fundamental_div_mod(x0, s);
    lemma_fundamental_div_mod(y0, s);
    assert(px * s == x0 && py * s == y0) by (nonlinear_arith)
        requires
            x0 == s * (x0 / s) + x0 % s,
            y0 == s * (y0 / s) + y0 % s,
            x0 % s == 0,
            y0 % s == 0,
            px == x0 / s,
            py == y0 / s,
            s == 65536,
    ;
    assert(edge_s(x1, y1, x2, y2, x0, y0) == edge_s(x0, y0, x1, y1, x2, y2)) by (nonlinear_arith);
    assert(edge_s(x2, y2, x0, y0, x0, y0) == 0) by (nonlinear_arith);
    assert(edge_s(x0, y0, x1, y1, x0, y0) == 0) by (nonlinear_arith);

    let minx = min3_s(x0, x1, x2);
    let maxx = max3_s(x0, x1, x2);
    let miny = min3_s(y0, y1, y2);
    let maxy = max3_s(y0, y1, y2);
    if minx > 0 {
        lemma_div_is_ordered(minx, x0, s);
    }
    lemma_div_is_ordered(x0, maxx, s);
    lemma_div_is_ordered(maxx, maxx + s - 1, s);
    if miny > 0 {
        lemma_div_is_ordered(miny, y0, s);
    }
    lemma_div_is_ordered(y0, maxy, s);
    lemma_div_is_ordered(maxy, maxy + s - 1, s);
    assert(px >= 0 && py >= 0) by {
        lemma_div_is_ordered(0, x0, s);
        lemma_div_is_ordered(0, y0, s);
    }
}

/// The three edge functions at any point sum to the whole triangle's
/// doubled signed area.
proof fn lemma_edge_sum(x0: int, y0: int, x1: int, y1: int, x2: int, y2: int, sx: int, sy: int)
    ensures
        edge_s(x1, y1, x2, y2, sx, sy) + edge_s(x2, y2, x0, y0, sx, sy) + edge_s(
            x0,
            y0,
            x1,
            y1,
            sx,
            sy,
        ) == edge_s(x0, y0, x1, y1, x2, y2),
{
    assert((x2 - x1) * (sy - y1) - (y2 - y1) * (sx - x1) == x2 * sy - x2 * y1 - x1 * sy - y2 * sx
        + x1 * y2 + y1 * sx) by (nonlinear_arith);
    assert((x0 - x2) * (sy - y2) - (y0 - y2) * (sx - x2) == x0 * sy - x0 * y2 - x2 * sy - y0 * sx
        + x2 * y0 + y2 * sx) by (nonlinear_arith);
    assert((x1 - x0) * (sy - y0) - (y1 - y0) * (sx - x0) == x1 * sy - x1 * y0 - x0 * sy - y1 * sx
        + x0 * y1 + y0 * sx) by (nonlinear_arith);
    assert((x1 - x0) * (y2 - y0) - (y1 - y0) * (x2 - x0) == x1 * y2 - x1 * y0 - x0 * y2 - x2 * y1
        + x0 * y1 + x2 * y0) by (nonlinear_arith);
}

/// The weights of a covered pixel are barycentric: each lies between
/// zero and their positive total, and the total is exactly the
/// triangle's doubled absolute area, so the normalized weights lie in
/// `[0, 1]` and sum to one.
pub proof fn lemma_weights_normalized(v0: Vertex, v1: Vertex, v2: Vertex, px: int, py: int)
    requires
        covered_s(v0, v1, v2, px, py),
    ensures
        ({
            let t = w0_s(v0, v1, v2, px, py) + w1_s(v0, v1, v2, px, py) + w2_s(v0, v1, v2, px, py);
            &&& t > 0
            &&& t == abs_i(orient_s(v0, v1, v2))
            &&& 0 <= w0_s(v0, v1, v2, px, py) <= t
            &&& 0 <= w1_s(v0, v1, v2, px, py) <= t
            &&& 0 <= w2_s(v0, v1, v2, px, py) <= t
        }),
{
    lemma_edge_sum(
        v0.transformed_position.x as int,
        v0.transformed_position.y as int,
        v1.transformed_position.x as int,
        v1.transformed_position.y as int,
        v2.transformed_position.x as int,
        v2.transformed_position.y as int,
        px * (FX_ONE as int),
        py * (FX_ONE as int),
    );
}

/// Whether the clipped bounding box misses a `width x height`
/// framebuffer entirely.
pub open spec fn bbox_outside_s(v0: Vertex, v1: Vertex, v2: Vertex, width: int, height: int) -> bool {
    ||| xhi_s(v0, v1, v2) < 0
    ||| xlo_s(v0, v1, v2) >= width
    ||| yhi_s(v0, v1, v2) < 0
    ||| ylo_s(v0, v1, v2) >= height
}

/// A triangle whose bounding box misses the framebuffer yields no
/// fragment that passes the caller's bounds check: every covered pixel
/// of its box lies outside `[0, width) x [0, height)`.
pub proof fn lemma_outside_no_write(
    v0: Vertex,
    v1: Vertex,
    v2: Vertex,
    width: int,
    height: int,
    px: int,
    py: int,
)
    requires
        bbox_outside_s(v0, v1, v2, width, height),
        in_bbox_s(v0, v1, v2, px, py),
    ensures
        !(0 <= px < width && 0 <= py < height),
{
}

} // verus!
