//! The per-frame pipeline: transform, assemble, rasterize, shade,
//! composite.
//!
//! `render_with_shader` runs every vertex through the vertex shader,
//! groups each run of three into a triangle, rasterizes, shades each
//! fragment with the selected variant and writes it through the
//! framebuffer's depth test. Triangles touching a vertex with a zero
//! homogeneous coordinate, or with coordinates outside the exact range
//! of the rasterizer, are excluded from screen-space processing, like
//! zero-area ones. Whatever colors the noise source induces, the
//! contract pins the composite behavior: depths only come nearer, a
//! pixel's color changes only when its depth does, and pixels no
//! processed triangle covers are untouched.

use vstd::prelude::*;
use rand::Rng;
use crate::fixed::fx_add;
use crate::fixed::fx_div;
use crate::fixed::fxadd_s;
use crate::fixed::fxdiv_s;
use crate::fixed::fx_cos;
use crate::fixed::fx_mul;
use crate::fixed::fx_of_int;
use crate::fixed::fx_sin;
use crate::fixed::fx_sub;
use crate::fixed::fxcos_s;
use crate::fixed::fxmul_s;
use crate::fixed::fxofint_s;
use crate::fixed::fxsin_s;
use crate::fixed::fxsub_s;
use crate::fixed::FX_ONE;
use crate::shaders::FX_HALF;
use crate::fragment::Fragment;
use crate::framebuffer::fb_evolves_s;
use crate::framebuffer::lemma_fb_evolves_trans;
use crate::framebuffer::lemma_pix_in_range;
use crate::framebuffer::lemma_pix_injective;
use crate::framebuffer::lemma_point_evolves;
use crate::framebuffer::pix_s;
use crate::framebuffer::point_colors_s;
use crate::framebuffer::point_depths_s;
use crate::framebuffer::Framebuffer;
use crate::matrix::mat4_apply;
use crate::matrix::mat4_apply_s;
use crate::matrix::Mat4Fx;
use crate::raster::covered_s;
use crate::raster::frag_at_s;
use crate::raster::has_frag_at;
use crate::raster::in_bbox_s;
use crate::raster::tri_in_range;
use crate::raster::tri_in_range_s;
use crate::raster::triangle;
use crate::shaders::apply_shader;
use crate::shaders::NoiseSource;
use crate::shaders::ShaderType;
use crate::transform::vertex_shader;
use crate::transform::vertex_shader_s;
use crate::transform::Uniforms;
use crate::vec3::Vec3Fx;
use crate::vec3::Vec4Fx;
use crate::vertex::Vertex;

verus! {

/// The vertex at index `i`, transformed: what the vertex shader makes
/// of it under the given uniforms.
pub open spec fn tv_s(u: Uniforms, va: Seq<Vertex>, i: int) -> Vertex {
    vertex_shader_s(va[i], u)
}

/// Whether the `k`-th assembled triangle covers pixel `(px, py)` within
/// its clipped bounding box.
pub open spec fn tri_covers_s(u: Uniforms, va: Seq<Vertex>, k: int, px: int, py: int) -> bool {
    let a = tv_s(u, va, 3 * k);
    let b = tv_s(u, va, 3 * k + 1);
    let c = tv_s(u, va, 3 * k + 2);
    in_bbox_s(a, b, c, px, py) && covered_s(a, b, c, px, py)
}

/// Whether any triangle with base index below `bound` covers the pixel.
pub open spec fn covers_upto_s(u: Uniforms, va: Seq<Vertex>, bound: int, px: int, py: int) -> bool {
    exists|k: int|
        0 <= k && 3 * k + 2 < va.len() && 3 * k < bound && #[trigger] tri_covers_s(u, va, k, px, py)
}

/// Whether any assembled triangle of the draw call covers the pixel.
pub open spec fn pipeline_covers_s(u: Uniforms, va: Seq<Vertex>, px: int, py: int) -> bool {
    exists|k: int|
        0 <= k && 3 * k + 2 < va.len() && #[trigger] tri_covers_s(u, va, k, px, py)
}

/// The smaller of two values.
pub open spec fn min_i(a: int, b: int) -> int {
    if a <= b {
        a
    } else {
        b
    }
}

/// Whether the `k`-th assembled triangle takes part in rasterization:
/// no vertex at the camera plane and all coordinates within the
/// rasterizer's exact range.
pub open spec fn tri_active_s(u: Uniforms, va: Seq<Vertex>, k: int) -> bool {
    &&& tv_s(u, va, 3 * k).clip_w != 0
    &&& tv_s(u, va, 3 * k + 1).clip_w != 0
    &&& tv_s(u, va, 3 * k + 2).clip_w != 0
    &&& tri_in_range_s(tv_s(u, va, 3 * k), tv_s(u, va, 3 * k + 1), tv_s(u, va, 3 * k + 2))
}

/// The interpolated depth the `k`-th triangle's fragment carries at
/// pixel `(qx, qy)`.
pub open spec fn tri_frag_depth_s(u: Uniforms, va: Seq<Vertex>, k: int, qx: int, qy: int) -> int {
    frag_at_s(
        tv_s(u, va, 3 * k),
        tv_s(u, va, 3 * k + 1),
        tv_s(u, va, 3 * k + 2),
        qx,
        qy,
    ).depth as int
}

/// The depth pixel `(qx, qy)` holds after the first `k` triangles of a
/// draw call: the starting depth, lowered to the interpolated depth of
/// every active triangle that covers the pixel. The depth outcome of a
/// draw call is this fold exactly, whatever the noise source returns.
pub open spec fn depth_upto_s(
    u: Uniforms,
    va: Seq<Vertex>,
    k: int,
    qx: int,
    qy: int,
    base: int,
) -> int
    decreases k,
{
    if k <= 0 {
        base
    } else {
        let prev = depth_upto_s(u, va, k - 1, qx, qy, base);
        if 3 * (k - 1) + 2 < va.len() && tri_active_s(u, va, k - 1) && tri_covers_s(
            u,
            va,
            k - 1,
            qx,
            qy,
        ) {
            min_i(prev, tri_frag_depth_s(u, va, k - 1, qx, qy))
        } else {
            prev
        }
    }
}

/// Whether one of the first `j` fragments sits at pixel `(qx, qy)`.
pub open spec fn has_frag_before(frags: Seq<Fragment>, j: int, qx: int, qy: int) -> bool {
    exists|x: int| 0 <= x < j && (#[trigger] frags[x]).x == qx && frags[x].y == qy
}

/// Render a vertex list into the framebuffer with the selected shader
/// variant: the full transform - rasterize - shade - depth-test
/// pipeline. The framebuffer keeps its dimensions and background;
/// depths only come nearer; a pixel's color changes only where its
/// depth came strictly nearer; a pixel no assembled triangle covers
/// keeps its color and depth; and every pixel's final depth is pinned
/// exactly: the old depth lowered to the nearest covering fragment's
/// interpolated depth, whatever colors the noise source induced.
pub fn render_with_shader<N: NoiseSource>(
    framebuffer: &mut Framebuffer,
    uniforms: &Uniforms,
    vertex_array: &[Vertex],
    shader_type: ShaderType,
    noise: &N,
)
    requires
        old(framebuffer).wf(),
    ensures
        final(framebuffer).wf(),
        fb_evolves_s(*old(framebuffer), *final(framebuffer)),
        forall|qx: int, qy: int|
            #![trigger pix_s(old(framebuffer).width as int, qx, qy)]
            0 <= qx < old(framebuffer).width && 0 <= qy < old(framebuffer).height
                && !pipeline_covers_s(*uniforms, vertex_array@, qx, qy) ==> ({
                let p = pix_s(old(framebuffer).width as int, qx, qy);
                &&& final(framebuffer).buffer@[p] == old(framebuffer).buffer@[p]
                &&& final(framebuffer).zbuffer@[p] == old(framebuffer).zbuffer@[p]
            }),
        forall|qx: int, qy: int|
            #![trigger pix_s(old(framebuffer).width as int, qx, qy)]
            0 <= qx < old(framebuffer).width && 0 <= qy < old(framebuffer).height ==> ({
                let p = pix_s(old(framebuffer).width as int, qx, qy);
                final(framebuffer).zbuffer@[p] == depth_upto_s(
                    *uniforms,
                    vertex_array@,
                    vertex_array@.len() as int / 3,
                    qx,
                    qy,
                    old(framebuffer).zbuffer@[p] as int,
                )
            }),
{
    let ghost u = *uniforms;
    let ghost va = vertex_array@;
    let ghost w = old(framebuffer).width as int;
    let ghost h = old(framebuffer).height as int;

    let n: usize = vertex_array.len();
    let mut transformed: Vec<Vertex> = Vec::new();
    let mut t: usize = 0;
    while t < n
        invariant
            t <= n,
            u == *uniforms,
            va == vertex_array@,
            n == va.len(),
            transformed@.len() == t,
            forall|j: int| 0 <= j < t ==> transformed@[j] == vertex_shader_s(va[j], u),
        decreases n - t,
    {
        let v: Vertex = vertex_shader(&vertex_array[t], uniforms);
        transformed.push(v);
        t = t + 1;
    }

    let mut i: usize = 0;
    while n - i > 2
        invariant
            old(framebuffer).wf(),
            framebuffer.wf(),
            i % 3 == 0,
            i <= n,
            u == *uniforms,
            va == vertex_array@,
            n == va.len(),
            transformed@.len() == n,
            forall|j: int| 0 <= j < n ==> transformed@[j] == vertex_shader_s(va[j], u),
            w == old(framebuffer).width as int,
            h == old(framebuffer).height as int,
            framebuffer.width == old(framebuffer).width,
            framebuffer.height == old(framebuffer).height,
            fb_evolves_s(*old(framebuffer), *framebuffer),
            forall|qx: int, qy: int|
                #![trigger pix_s(w, qx, qy)]
                0 <= qx < w && 0 <= qy < h && !covers_upto_s(u, va, i as int, qx, qy) ==> ({
                    let p = pix_s(w, qx, qy);
                    &&& framebuffer.buffer@[p] == old(framebuffer).buffer@[p]
                    &&& framebuffer.zbuffer@[p] == old(framebuffer).zbuffer@[p]
                }),
            forall|qx: int, qy: int|
                #![trigger pix_s(w, qx, qy)]
                0 <= qx < w && 0 <= qy < h ==> ({
                    let p = pix_s(w, qx, qy);
                    framebuffer.zbuffer@[p] == depth_upto_s(
                        u,
                        va,
                        i as int / 3,
                        qx,
                        qy,
                        old(framebuffer).zbuffer@[p] as int,
                    )
                }),
        decreases n - i,
    {
        let ghost k = i as int / 3;
        proof {
            assert(3 * k == i as int);
        }
        let a: Vertex = transformed[i];
        let b: Vertex = transformed[i + 1];
        let c: Vertex = transformed[i + 2];
        if a.clip_w != 0 && b.clip_w != 0 && c.clip_w != 0 && tri_in_range(&a, &b, &c) {
            let frags: Vec<Fragment> = triangle(&a, &b, &c);
            let mut j: usize = 0;
            while j < frags.len()
                invariant
                    old(framebuffer).wf(),
                    framebuffer.wf(),
                    framebuffer.width == old(framebuffer).width,
                    framebuffer.height == old(framebuffer).height,
                    w == old(framebuffer).width as int,
                    h == old(framebuffer).height as int,
                    fb_evolves_s(*old(framebuffer), *framebuffer),
                    j <= frags.len(),
                    u == *uniforms,
                    va == vertex_array@,
                    n == va.len(),
                    i + 2 < n,
                    3 * k == i as int,
                    a == tv_s(u, va, 3 * k),
                    b == tv_s(u, va, 3 * k + 1),
                    c == tv_s(u, va, 3 * k + 2),
                    forall|x: int|
                        0 <= x < frags@.len() ==> {
                            let f = #[trigger] frags@[x];
                            &&& in_bbox_s(a, b, c, f.x as int, f.y as int)
                            &&& covered_s(a, b, c, f.x as int, f.y as int)
                            &&& f == frag_at_s(a, b, c, f.x as int, f.y as int)
                        },
                    forall|qx: int, qy: int|
                        #![trigger pix_s(w, qx, qy)]
                        0 <= qx < w && 0 <= qy < h && !covers_upto_s(u, va, i + 3, qx, qy) ==> ({
                            let p = pix_s(w, qx, qy);
                            &&& framebuffer.buffer@[p] == old(framebuffer).buffer@[p]
                            &&& framebuffer.zbuffer@[p] == old(framebuffer).zbuffer@[p]
                        }),
                    forall|qx: int, qy: int|
                        #![trigger pix_s(w, qx, qy)]
                        0 <= qx < w && 0 <= qy < h ==> ({
                            let p = pix_s(w, qx, qy);
                            let m = depth_upto_s(u, va, k, qx, qy, old(framebuffer).zbuffer@[p] as int);
                            framebuffer.zbuffer@[p] == (if tri_covers_s(u, va, k, qx, qy)
                                && has_frag_before(frags@, j as int, qx, qy) {
                                min_i(m, tri_frag_depth_s(u, va, k, qx, qy))
                            } else {
                                m
                            })
                        }),
                decreases frags.len() - j,
            {
                let f: Fragment = frags[j];
                if f.x < framebuffer.width && f.y < framebuffer.height {
                    let color = apply_shader(&f, uniforms, shader_type, noise);
                    let hex: u32 = color.to_hex();
                    framebuffer.set_current_color(hex);
                    let ghost prev = *framebuffer;
                    framebuffer.point(f.x, f.y, f.depth);
                    proof {
                        lemma_point_evolves(prev, *framebuffer, f.x as int, f.y as int, f.depth);
                        lemma_fb_evolves_trans(*old(framebuffer), prev, *framebuffer);
                        assert(tri_covers_s(u, va, k, f.x as int, f.y as int));
                        assert(covers_upto_s(u, va, i + 3, f.x as int, f.y as int));
                        assert(frags@[j as int] == f);
                        assert(tri_frag_depth_s(u, va, k, f.x as int, f.y as int)
                            == f.depth as int);
                        assert forall|qx: int, qy: int|
                            0 <= qx < w && 0 <= qy < h && !covers_upto_s(u, va, i + 3, qx, qy)
                                implies ({
                                let p = #[trigger] pix_s(w, qx, qy);
                                &&& framebuffer.buffer@[p] == old(framebuffer).buffer@[p]
                                &&& framebuffer.zbuffer@[p] == old(framebuffer).zbuffer@[p]
                            }) by {
                            let p = pix_s(w, qx, qy);
                            assert(!(qx == f.x as int && qy == f.y as int));
                            lemma_pix_injective(w, h, qx, qy, f.x as int, f.y as int);
                            lemma_pix_in_range(w, h, qx, qy);
                            assert(prev.buffer@[p] == old(framebuffer).buffer@[p]);
                            assert(prev.zbuffer@[p] == old(framebuffer).zbuffer@[p]);
                            assert(framebuffer.buffer@[p] == prev.buffer@[p]);
                            assert(framebuffer.zbuffer@[p] == prev.zbuffer@[p]);
                        }
                        assert forall|qx: int, qy: int|
                            0 <= qx < w && 0 <= qy < h implies ({
                            let p = #[trigger] pix_s(w, qx, qy);
                            let m = depth_upto_s(u, va, k, qx, qy, old(framebuffer).zbuffer@[p] as int);
                            framebuffer.zbuffer@[p] == (if tri_covers_s(u, va, k, qx, qy)
                                && has_frag_before(frags@, j + 1, qx, qy) {
                                min_i(m, tri_frag_depth_s(u, va, k, qx, qy))
                            } else {
                                m
                            })
                        }) by {
                            let p = pix_s(w, qx, qy);
                            lemma_pix_in_range(w, h, qx, qy);
                            if qx == f.x as int && qy == f.y as int {
                                assert(has_frag_before(frags@, j + 1, qx, qy));
                            } else {
                                lemma_pix_injective(w, h, qx, qy, f.x as int, f.y as int);
                                assert(framebuffer.buffer@[p] == prev.buffer@[p]);
                                assert(framebuffer.zbuffer@[p] == prev.zbuffer@[p]);
                                if has_frag_before(frags@, j + 1, qx, qy) {
                                    let x = choose|x: int|
                                        0 <= x < j + 1 && (#[trigger] frags@[x]).x == qx
                                            && frags@[x].y == qy;
                                    assert(x != j as int);
                                    assert(has_frag_before(frags@, j as int, qx, qy));
                                }
                                if has_frag_before(frags@, j as int, qx, qy) {
                                    let x = choose|x: int|
                                        0 <= x < j as int && (#[trigger] frags@[x]).x == qx
                                            && frags@[x].y == qy;
                                    assert(has_frag_before(frags@, j + 1, qx, qy));
                                }
                            }
                        }
                    }
                } else {
                    proof {
                        assert forall|qx: int, qy: int|
                            0 <= qx < w && 0 <= qy < h implies ({
                            let p = #[trigger] pix_s(w, qx, qy);
                            let m = depth_upto_s(u, va, k, qx, qy, old(framebuffer).zbuffer@[p] as int);
                            framebuffer.zbuffer@[p] == (if tri_covers_s(u, va, k, qx, qy)
                                && has_frag_before(frags@, j + 1, qx, qy) {
                                min_i(m, tri_frag_depth_s(u, va, k, qx, qy))
                            } else {
                                m
                            })
                        }) by {
                            if has_frag_before(frags@, j + 1, qx, qy) {
                                let x = choose|x: int|
                                    0 <= x < j + 1 && (#[trigger] frags@[x]).x == qx
                                        && frags@[x].y == qy;
                                assert(x != j as int);
                                assert(has_frag_before(frags@, j as int, qx, qy));
                            }
                            if has_frag_before(frags@, j as int, qx, qy) {
                                let x = choose|x: int|
                                    0 <= x < j as int && (#[trigger] frags@[x]).x == qx
                                        && frags@[x].y == qy;
                                assert(has_frag_before(frags@, j + 1, qx, qy));
                            }
                        }
                    }
                }
                j = j + 1;
            }
            proof {
                assert(tri_active_s(u, va, k));
                assert forall|qx: int, qy: int|
                    0 <= qx < w && 0 <= qy < h implies ({
                    let p = #[trigger] pix_s(w, qx, qy);
                    framebuffer.zbuffer@[p] == depth_upto_s(
                        u,
                        va,
                        k + 1,
                        qx,
                        qy,
                        old(framebuffer).zbuffer@[p] as int,
                    )
                }) by {
                    let p = pix_s(w, qx, qy);
                    if tri_covers_s(u, va, k, qx, qy) {
                        assert(in_bbox_s(a, b, c, qx, qy) && covered_s(a, b, c, qx, qy));
                        assert(has_frag_at(frags@, qx, qy));
                        let x = choose|x: int|
                            0 <= x < frags@.len() && (#[trigger] frags@[x]).x == qx
                                && frags@[x].y == qy;
                        assert(has_frag_before(frags@, frags@.len() as int, qx, qy));
                    }
                }
            }
        } else {
            proof {
                assert(!tri_active_s(u, va, k));
                assert forall|qx: int, qy: int|
                    0 <= qx < w && 0 <= qy < h implies ({
                    let p = #[trigger] pix_s(w, qx, qy);
                    framebuffer.zbuffer@[p] == depth_upto_s(
                        u,
                        va,
                        k + 1,
                        qx,
                        qy,
                        old(framebuffer).zbuffer@[p] as int,
                    )
                }) by {
                    let p = pix_s(w, qx, qy);
                }
            }
        }
        proof {
            assert((i + 3) as int / 3 == k + 1) by (nonlinear_arith)
                requires
                    3 * k == i as int,
                    0 <= k,
            ;
            assert forall|qx: int, qy: int|
                0 <= qx < w && 0 <= qy < h && !covers_upto_s(
                    u,
                    va,
                    i + 3,
                    qx,
                    qy,
                ) implies !covers_upto_s(u, va, i as int, qx, qy) by {
                if covers_upto_s(u, va, i as int, qx, qy) {
                    let kk = choose|kk: int|
                        0 <= kk && 3 * kk + 2 < va.len() && 3 * kk < i as int
                            && #[trigger] tri_covers_s(u, va, kk, qx, qy);
                    assert(3 * kk < i + 3);
                }
            }
        }
        i = i + 3;
    }
    proof {
        vstd::arithmetic::div_mod::lemma_fundamental_div_mod_converse(
            va.len() as int,
            3,
            i as int / 3,
            va.len() as int - i as int,
        );
        assert(va.len() as int / 3 == i as int / 3);
        assert forall|qx: int, qy: int|
            0 <= qx < w && 0 <= qy < h && !covers_upto_s(
                u,
                va,
                i as int,
                qx,
                qy,
            ) implies !pipeline_covers_s(u, va, qx, qy) by {
            if pipeline_covers_s(u, va, qx, qy) {
                let kk = choose|kk: int|
                    0 <= kk && 3 * kk + 2 < va.len() && #[trigger] tri_covers_s(u, va, kk, qx, qy);
                assert(3 * kk < i as int);
            }
        }
    }
}

/// Whether a world-space point projects into the view volume: inside
/// `[-1, 1]` on X and Y and `[0, 1]` in depth after the perspective
/// divide; a point with a zero homogeneous coordinate is outside.
pub open spec fn in_frustum_s(position: Vec3Fx, view: Mat4Fx, projection: Mat4Fx) -> bool {
    let clip = mat4_apply_s(
        projection,
        mat4_apply_s(view, Vec4Fx { x: position.x, y: position.y, z: position.z, w: FX_ONE }),
    );
    if clip.w == 0 {
        false
    } else {
        let x = fxdiv_s(clip.x as int, clip.w as int);
        let y = fxdiv_s(clip.y as int, clip.w as int);
        let z = fxdiv_s(clip.z as int, clip.w as int);
        -(FX_ONE as int) <= x <= FX_ONE as int && -(FX_ONE as int) <= y <= FX_ONE as int && 0 <= z
            <= FX_ONE as int
    }
}

/// Test whether a world-space point lies in the view volume.
pub fn is_in_frustum(position: &Vec3Fx, view_matrix: &Mat4Fx, projection_matrix: &Mat4Fx) -> (r:
    bool)
    ensures
        r == in_frustum_s(*position, *view_matrix, *projection_matrix),
{
    let clip = mat4_apply(
        projection_matrix,
        mat4_apply(
            view_matrix,
            Vec4Fx { x: position.x, y: position.y, z: position.z, w: FX_ONE },
        ),
    );
    if clip.w == 0 {
        return false;
    }
    let x: i64 = fx_div(clip.x, clip.w);
    let y: i64 = fx_div(clip.y, clip.w);
    let z: i64 = fx_div(clip.z, clip.w);
    -FX_ONE <= x && x <= FX_ONE && -FX_ONE <= y && y <= FX_ONE && 0 <= z && z <= FX_ONE
}

/// Relies on rand's `thread_rng` and `gen_range` over `0..max`: a draw
/// strictly below `max`; nothing is assumed about which value comes
/// back.
#[verifier::external_body]
fn rand_below(max: usize) -> (r: usize)
    requires
        max > 0,
    ensures
        r < max,
{
    rand::thread_rng().gen_range(0..max)
}

/// Draw a starfield: random in-bounds pixel positions, one per star.
pub fn generate_stars(num_stars: usize, framebuffer_width: usize, framebuffer_height: usize) -> (stars: Vec<(usize, usize)>)
    requires
        framebuffer_width > 0,
        framebuffer_height > 0,
    ensures
        stars@.len() == num_stars,
        forall|i: int|
            0 <= i < stars@.len() ==> (#[trigger] stars@[i]).0 < framebuffer_width && stars@[i].1
                < framebuffer_height,
{
    let mut stars: Vec<(usize, usize)> = Vec::new();
    let mut s: usize = 0;
    while s < num_stars
        invariant
            s <= num_stars,
            stars@.len() == s,
            framebuffer_width > 0,
            framebuffer_height > 0,
            forall|i: int|
                0 <= i < stars@.len() ==> (#[trigger] stars@[i]).0 < framebuffer_width
                    && stars@[i].1 < framebuffer_height,
        decreases num_stars - s,
    {
        let x: usize = rand_below(framebuffer_width);
        let y: usize = rand_below(framebuffer_height);
        stars.push((x, y));
        s = s + 1;
    }
    stars
}

/// The color stars are drawn with.
pub const STAR_COLOR: u32 = 0xffffff;

/// The depth buffer after the first `n` stars are written at depth one.
pub open spec fn stars_depths_s(
    depths: Seq<i64>,
    width: int,
    stars: Seq<(usize, usize)>,
    n: int,
) -> Seq<i64>
    decreases n,
{
    if n <= 0 {
        depths
    } else {
        let d1 = stars_depths_s(depths, width, stars, n - 1);
        point_depths_s(d1, width, stars[n - 1].0 as int, stars[n - 1].1 as int, FX_ONE)
    }
}

/// The color buffer after the first `n` stars are written white at
/// depth one.
pub open spec fn stars_colors_s(
    colors: Seq<u32>,
    depths: Seq<i64>,
    width: int,
    stars: Seq<(usize, usize)>,
    n: int,
) -> Seq<u32>
    decreases n,
{
    if n <= 0 {
        colors
    } else {
        let c1 = stars_colors_s(colors, depths, width, stars, n - 1);
        let d1 = stars_depths_s(depths, width, stars, n - 1);
        point_colors_s(c1, d1, width, STAR_COLOR, stars[n - 1].0 as int, stars[n - 1].1 as int, FX_ONE)
    }
}

/// Paint every star white at depth one through the depth test. The
/// caller keeps the star positions within bounds.
pub fn draw_stars(framebuffer: &mut Framebuffer, stars: &[(usize, usize)])
    requires
        old(framebuffer).wf(),
        forall|i: int|
            0 <= i < stars@.len() ==> (#[trigger] stars@[i]).0 < old(framebuffer).width
                && stars@[i].1 < old(framebuffer).height,
    ensures
        final(framebuffer).wf(),
        final(framebuffer).width == old(framebuffer).width,
        final(framebuffer).height == old(framebuffer).height,
        final(framebuffer).background_color == old(framebuffer).background_color,
        final(framebuffer).buffer@ == stars_colors_s(
            old(framebuffer).buffer@,
            old(framebuffer).zbuffer@,
            old(framebuffer).width as int,
            stars@,
            stars@.len() as int,
        ),
        final(framebuffer).zbuffer@ == stars_depths_s(
            old(framebuffer).zbuffer@,
            old(framebuffer).width as int,
            stars@,
            stars@.len() as int,
        ),
        final(framebuffer).current_color == (if stars@.len() == 0 {
            old(framebuffer).current_color
        } else {
            STAR_COLOR
        }),
{
    let ghost w = old(framebuffer).width as int;
    let n: usize = stars.len();
    let mut s: usize = 0;
    while s < n
        invariant
            framebuffer.wf(),
            s <= n,
            n == stars@.len(),
            framebuffer.width == old(framebuffer).width,
            framebuffer.height == old(framebuffer).height,
            framebuffer.background_color == old(framebuffer).background_color,
            w == old(framebuffer).width as int,
            forall|i: int|
                0 <= i < stars@.len() ==> (#[trigger] stars@[i]).0 < old(framebuffer).width
                    && stars@[i].1 < old(framebuffer).height,
            framebuffer.buffer@ == stars_colors_s(
                old(framebuffer).buffer@,
                old(framebuffer).zbuffer@,
                w,
                stars@,
                s as int,
            ),
            framebuffer.zbuffer@ == stars_depths_s(old(framebuffer).zbuffer@, w, stars@, s as int),
            framebuffer.current_color == (if s == 0 {
                old(framebuffer).current_color
            } else {
                STAR_COLOR
            }),
        decreases n - s,
    {
        let (x, y) = stars[s];
        framebuffer.set_current_color(STAR_COLOR);
        framebuffer.point(x, y, FX_ONE);
        s = s + 1;
    }
}

/// The color orbit lines are drawn with.
pub const ORBIT_COLOR: u32 = 0xcccccc;

/// The number of segments an orbit line is sampled at.
pub const ORBIT_SEGMENTS: usize = 360;

/// One segment's angle step: two pi over the segment count, fixed
/// point.
pub const ORBIT_SEGMENT_ANGLE: i64 = 1144;

/// Where one orbit-line sample lands on screen: the world point at the
/// segment's angle on the circle of the given radius, projected,
/// divided and mapped to pixels, or nothing when the point sits at the
/// camera plane or off screen.
#[verifier::opaque]
pub open spec fn orbit_point_s(
    radius: i64,
    view: Mat4Fx,
    projection: Mat4Fx,
    width: usize,
    height: usize,
    segment: usize,
) -> Option<(usize, usize, i64)> {
    let angle = fxmul_s(fxofint_s(segment as int), ORBIT_SEGMENT_ANGLE as int);
    let pos = Vec4Fx {
        x: fxmul_s(radius as int, fxcos_s(angle)) as i64,
        y: 0,
        z: fxmul_s(radius as int, fxsin_s(angle)) as i64,
        w: FX_ONE,
    };
    let clip = mat4_apply_s(projection, mat4_apply_s(view, pos));
    if clip.w == 0 {
        None
    } else {
        let sx = fxmul_s(
            fxmul_s(
                fxadd_s(fxdiv_s(clip.x as int, clip.w as int), FX_ONE as int),
                FX_HALF as int,
            ),
            fxofint_s(width as int),
        );
        let sy = fxmul_s(
            fxmul_s(
                fxsub_s(FX_ONE as int, fxdiv_s(clip.y as int, clip.w as int)),
                FX_HALF as int,
            ),
            fxofint_s(height as int),
        );
        let px = to_pixel_s(sx);
        let py = to_pixel_s(sy);
        if px < width && py < height {
            Some((px as usize, py as usize, fxdiv_s(clip.z as int, clip.w as int) as i64))
        } else {
            None
        }
    }
}

/// A fixed-point screen coordinate's pixel: clipped at zero, scaled
/// down.
pub open spec fn to_pixel_s(sfx: int) -> int {
    if sfx <= 0 {
        0
    } else {
        sfx / (FX_ONE as int)
    }
}

/// The pixel of a fixed-point screen coordinate.
fn to_pixel(sfx: i64) -> (r: u64)
    ensures
        r == to_pixel_s(sfx as int),
{
    if sfx <= 0 {
        0
    } else {
        (sfx as u64) / 65536
    }
}

/// Compute one orbit-line sample's pixel and depth.
#[verifier::rlimit(100)]
pub fn orbit_point(
    radius: i64,
    view: &Mat4Fx,
    projection: &Mat4Fx,
    width: usize,
    height: usize,
    segment: usize,
) -> (r: Option<(usize, usize, i64)>)
    requires
        segment < ORBIT_SEGMENTS,
        width <= 0x100_0000,
        height <= 0x100_0000,
    ensures
        r == orbit_point_s(radius, *view, *projection, width, height, segment),
        r matches Some(p) ==> p.0 < width && p.1 < height,
{
    proof {
        reveal(orbit_point_s);
    }
    let angle: i64 = fx_mul(fx_of_int(segment as i64), ORBIT_SEGMENT_ANGLE);
    let pos = Vec4Fx {
        x: fx_mul(radius, fx_cos(angle)),
        y: 0,
        z: fx_mul(radius, fx_sin(angle)),
        w: FX_ONE,
    };
    let clip = mat4_apply(projection, mat4_apply(view, pos));
    if clip.w == 0 {
        return None;
    }
    let sx: i64 = fx_mul(
        fx_mul(fx_add(fx_div(clip.x, clip.w), FX_ONE), FX_HALF),
        fx_of_int(width as i64),
    );
    let sy: i64 = fx_mul(
        fx_mul(fx_sub(FX_ONE, fx_div(clip.y, clip.w)), FX_HALF),
        fx_of_int(height as i64),
    );
    let px: u64 = to_pixel(sx);
    let py: u64 = to_pixel(sy);
    if px < width as u64 && py < height as u64 {
        Some((px as usize, py as usize, fx_div(clip.z, clip.w)))
    } else {
        None
    }
}

/// The depth buffer after the first `n` orbit samples are written.
pub open spec fn orbit_depths_s(
    depths: Seq<i64>,
    radius: i64,
    view: Mat4Fx,
    projection: Mat4Fx,
    width: usize,
    height: usize,
    n: int,
) -> Seq<i64>
    decreases n,
{
    if n <= 0 {
        depths
    } else {
        let d1 = orbit_depths_s(depths, radius, view, projection, width, height, n - 1);
        match orbit_point_s(radius, view, projection, width, height, (n - 1) as usize) {
            Some(p) => point_depths_s(d1, width as int, p.0 as int, p.1 as int, p.2),
            None => d1,
        }
    }
}

/// The color buffer after the first `n` orbit samples are written.
pub open spec fn orbit_colors_s(
    colors: Seq<u32>,
    depths: Seq<i64>,
    radius: i64,
    view: Mat4Fx,
    projection: Mat4Fx,
    width: usize,
    height: usize,
    n: int,
) -> Seq<u32>
    decreases n,
{
    if n <= 0 {
        colors
    } else {
        let c1 = orbit_colors_s(colors, depths, radius, view, projection, width, height, n - 1);
        let d1 = orbit_depths_s(depths, radius, view, projection, width, height, n - 1);
        match orbit_point_s(radius, view, projection, width, height, (n - 1) as usize) {
            Some(p) => point_colors_s(c1, d1, width as int, ORBIT_COLOR, p.0 as int, p.1 as int, p.2),
            None => c1,
        }
    }
}

/// Trace a circular orbit of the given radius in the world's ground
/// plane: each of the segment samples that projects onto the screen is
/// written through the depth test in the orbit color.
pub fn render_orbit_line(
    framebuffer: &mut Framebuffer,
    radius: i64,
    view_matrix: &Mat4Fx,
    projection_matrix: &Mat4Fx,
)
    requires
        old(framebuffer).wf(),
        old(framebuffer).width <= 0x100_0000,
        old(framebuffer).height <= 0x100_0000,
    ensures
        final(framebuffer).wf(),
        final(framebuffer).width == old(framebuffer).width,
        final(framebuffer).height == old(framebuffer).height,
        final(framebuffer).background_color == old(framebuffer).background_color,
        final(framebuffer).buffer@ == orbit_colors_s(
            old(framebuffer).buffer@,
            old(framebuffer).zbuffer@,
            radius,
            *view_matrix,
            *projection_matrix,
            old(framebuffer).width,
            old(framebuffer).height,
            ORBIT_SEGMENTS as int,
        ),
        final(framebuffer).zbuffer@ == orbit_depths_s(
            old(framebuffer).zbuffer@,
            radius,
            *view_matrix,
            *projection_matrix,
            old(framebuffer).width,
            old(framebuffer).height,
            ORBIT_SEGMENTS as int,
        ),
{
    let width: usize = framebuffer.width;
    let height: usize = framebuffer.height;
    let mut seg: usize = 0;
    while seg < ORBIT_SEGMENTS
        invariant
            framebuffer.wf(),
            seg <= ORBIT_SEGMENTS,
            width <= 0x100_0000,
            height <= 0x100_0000,
            width == old(framebuffer).width,
            height == old(framebuffer).height,
            framebuffer.width == old(framebuffer).width,
            framebuffer.height == old(framebuffer).height,
            framebuffer.background_color == old(framebuffer).background_color,
            framebuffer.buffer@ == orbit_colors_s(
                old(framebuffer).buffer@,
                old(framebuffer).zbuffer@,
                radius,
                *view_matrix,
                *projection_matrix,
                width,
                height,
                seg as int,
            ),
            framebuffer.zbuffer@ == orbit_depths_s(
                old(framebuffer).zbuffer@,
                radius,
                *view_matrix,
                *projection_matrix,
                width,
                height,
                seg as int,
            ),
        decreases ORBIT_SEGMENTS - seg,
    {
        let sample: Option<(usize, usize, i64)> = orbit_point(
            radius,
            view_matrix,
            projection_matrix,
            width,
            height,
            seg,
        );
        match sample {
            Some((screen_x, screen_y, depth)) => {
                framebuffer.set_current_color(ORBIT_COLOR);
                framebuffer.point(screen_x, screen_y, depth);
            },
            None => {},
        }
        seg = seg + 1;
    }
}

} // verus!
