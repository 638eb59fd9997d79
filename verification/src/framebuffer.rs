//! The render target: a pixel buffer and a parallel depth buffer.
//!
//! Both buffers are row-major, `width * height` cells. A `point` write
//! lands only where its depth is strictly nearer than the stored depth
//! (smaller is nearer), so the nearest write to a pixel wins whatever the
//! order of the writes.

use vstd::prelude::*;

verus! {

/// The depth a cleared cell holds: farther than every real depth.
pub const DEPTH_FAR: i64 = 0x7fff_ffff_ffff_ffff;

/// A fixed-size color buffer with a parallel depth buffer, a configured
/// background color, and the color the next `point` call paints with.
pub struct Framebuffer {
    pub width: usize,
    pub height: usize,
    pub buffer: Vec<u32>,
    pub zbuffer: Vec<i64>,
    pub background_color: u32,
    pub current_color: u32,
}

/// The row-major cell index of pixel `(x, y)`.
pub open spec fn pix_s(width: int, x: int, y: int) -> int {
    y * width + x
}

/// What the color buffer holds after a depth-tested write of the color
/// `cur` at `(x, y)` with depth `depth`.
pub open spec fn point_colors_s(
    colors: Seq<u32>,
    depths: Seq<i64>,
    width: int,
    cur: u32,
    x: int,
    y: int,
    depth: i64,
) -> Seq<u32> {
    if depth < depths[pix_s(width, x, y)] {
        colors.update(pix_s(width, x, y), cur)
    } else {
        colors
    }
}

/// What the depth buffer holds after the same write.
pub open spec fn point_depths_s(depths: Seq<i64>, width: int, x: int, y: int, depth: i64) -> Seq<
    i64,
> {
    if depth < depths[pix_s(width, x, y)] {
        depths.update(pix_s(width, x, y), depth)
    } else {
        depths
    }
}

/// A pixel index within bounds addresses a cell of the buffers.
pub proof fn lemma_pix_in_range(width: int, height: int, x: int, y: int)
    requires
        0 <= x < width,
        0 <= y < height,
    ensures
        0 <= pix_s(width, x, y) < width * height,
{
    assert(0 <= y * width + x < width * height) by (nonlinear_arith)
        requires
            0 <= x < width,
            0 <= y < height,
    ;
}

impl Framebuffer {
    /// Both buffers cover exactly the `width * height` grid.
    pub open spec fn wf(&self) -> bool {
        &&& self.buffer@.len() == self.width * self.height
        &&& self.zbuffer@.len() == self.width * self.height
    }

    /// A buffer of the given dimensions, black, fully far, painting white.
    pub fn new(width: usize, height: usize) -> (fb: Framebuffer)
        requires
            width * height <= usize::MAX,
        ensures
            fb.wf(),
            fb.width == width,
            fb.height == height,
            fb.background_color == 0,
            fb.current_color == 0xffffff,
            forall|i: int| 0 <= i < fb.buffer@.len() ==> fb.buffer@[i] == 0,
            forall|i: int| 0 <= i < fb.zbuffer@.len() ==> fb.zbuffer@[i] == DEPTH_FAR,
    {
        let n: usize = width * height;
        let mut buffer: Vec<u32> = Vec::new();
        let mut zbuffer: Vec<i64> = Vec::new();
        let mut i: usize = 0;
        while i < n
            invariant
                i <= n,
                buffer@.len() == i,
                zbuffer@.len() == i,
                forall|j: int| 0 <= j < i ==> buffer@[j] == 0,
                forall|j: int| 0 <= j < i ==> zbuffer@[j] == DEPTH_FAR,
            decreases n - i,
        {
            buffer.push(0);
            zbuffer.push(DEPTH_FAR);
            i = i + 1;
        }
        Framebuffer { width, height, buffer, zbuffer, background_color: 0, current_color: 0xffffff }
    }

    /// Choose the color `clear` resets every pixel to.
    pub fn set_background_color(&mut self, color: u32)
        ensures
            *final(self) == (Framebuffer { background_color: color, ..*old(self) }),
    {
        self.background_color = color;
    }

    /// Choose the color subsequent `point` calls paint with.
    pub fn set_current_color(&mut self, color: u32)
        ensures
            *final(self) == (Framebuffer { current_color: color, ..*old(self) }),
    {
        self.current_color = color;
    }

    /// Reset every pixel to the background color and every depth to
    /// `DEPTH_FAR`, keeping dimensions and paint color.
    pub fn clear(&mut self)
        requires
            old(self).wf(),
        ensures
            final(self).wf(),
            final(self).width == old(self).width,
            final(self).height == old(self).height,
            final(self).background_color == old(self).background_color,
            final(self).current_color == old(self).current_color,
            final(self).buffer@.len() == old(self).buffer@.len(),
            final(self).zbuffer@.len() == old(self).zbuffer@.len(),
            forall|i: int|
                0 <= i < final(self).buffer@.len() ==> final(self).buffer@[i] == old(
                    self,
                ).background_color,
            forall|i: int| 0 <= i < final(self).zbuffer@.len() ==> final(self).zbuffer@[i] == DEPTH_FAR,
    {
        let n: usize = self.buffer.len();
        let mut i: usize = 0;
        while i < n
            invariant
                i <= n,
                self.wf(),
                n == self.buffer@.len(),
                self.width == old(self).width,
                self.height == old(self).height,
                self.background_color == old(self).background_color,
                self.current_color == old(self).current_color,
                self.buffer@.len() == old(self).buffer@.len(),
                self.zbuffer@.len() == old(self).zbuffer@.len(),
                forall|j: int| 0 <= j < i ==> self.buffer@[j] == old(self).background_color,
                forall|j: int| 0 <= j < i ==> self.zbuffer@[j] == DEPTH_FAR,
            decreases n - i,
        {
            let c: u32 = self.background_color;
            self.buffer.set(i, c);
            self.zbuffer.set(i, DEPTH_FAR);
            i = i + 1;
        }
    }

    /// Depth-tested write: paint `(x, y)` with the current color if
    /// `depth` is strictly nearer than the stored depth, else change
    /// nothing. The caller keeps `(x, y)` within bounds.
    pub fn point(&mut self, x: usize, y: usize, depth: i64)
        requires
            old(self).wf(),
            x < old(self).width,
            y < old(self).height,
        ensures
            final(self).wf(),
            final(self).width == old(self).width,
            final(self).height == old(self).height,
            final(self).background_color == old(self).background_color,
            final(self).current_color == old(self).current_color,
            final(self).buffer@ == point_colors_s(
                old(self).buffer@,
                old(self).zbuffer@,
                old(self).width as int,
                old(self).current_color,
                x as int,
                y as int,
                depth,
            ),
            final(self).zbuffer@ == point_depths_s(
                old(self).zbuffer@,
                old(self).width as int,
                x as int,
                y as int,
                depth,
            ),
    {
        let n: usize = self.buffer.len();
        proof {
            lemma_pix_in_range(self.width as int, self.height as int, x as int, y as int);
        }
        let i: usize = y * self.width + x;
        if depth < self.zbuffer[i] {
            let c: u32 = self.current_color;
            self.buffer.set(i, c);
            self.zbuffer.set(i, depth);
        }
    }
}

/// How a framebuffer may change under depth-tested writes: dimensions
/// and background keep, depths only come nearer, and a pixel's color
/// changes only when its depth strictly came nearer.
pub open spec fn fb_evolves_s(before: Framebuffer, after: Framebuffer) -> bool {
    &&& after.width == before.width
    &&& after.height == before.height
    &&& after.background_color == before.background_color
    &&& after.buffer@.len() == before.buffer@.len()
    &&& after.zbuffer@.len() == before.zbuffer@.len()
    &&& forall|i: int|
        0 <= i < before.zbuffer@.len() ==> #[trigger] after.zbuffer@[i] <= before.zbuffer@[i]
    &&& forall|i: int|
        0 <= i < before.buffer@.len() && i < before.zbuffer@.len() && #[trigger] after.buffer@[i]
            != before.buffer@[i] ==> after.zbuffer@[i] < before.zbuffer@[i]
}

/// Evolution chains.
pub proof fn lemma_fb_evolves_trans(a: Framebuffer, b: Framebuffer, c: Framebuffer)
    requires
        fb_evolves_s(a, b),
        fb_evolves_s(b, c),
    ensures
        fb_evolves_s(a, c),
{
    assert forall|i: int| 0 <= i < a.zbuffer@.len() implies #[trigger] c.zbuffer@[i]
        <= a.zbuffer@[i] by {
        assert(c.zbuffer@[i] <= b.zbuffer@[i]);
        assert(b.zbuffer@[i] <= a.zbuffer@[i]);
    }
    assert forall|i: int|
        0 <= i < a.buffer@.len() && i < a.zbuffer@.len() && #[trigger] c.buffer@[i]
        != a.buffer@[i] implies c.zbuffer@[i] < a.zbuffer@[i] by {
        if c.buffer@[i] != b.buffer@[i] {
            assert(c.zbuffer@[i] < b.zbuffer@[i]);
            assert(b.zbuffer@[i] <= a.zbuffer@[i]);
        } else {
            assert(b.buffer@[i] != a.buffer@[i]);
            assert(b.zbuffer@[i] < a.zbuffer@[i]);
            assert(c.zbuffer@[i] <= b.zbuffer@[i]);
        }
    }
}

/// One depth-tested write evolves the framebuffer; pixels other than
/// the written one keep their color and depth.
pub proof fn lemma_point_evolves(before: Framebuffer, after: Framebuffer, x: int, y: int, depth: i64)
    requires
        before.wf(),
        0 <= x < before.width,
        0 <= y < before.height,
        after.width == before.width,
        after.height == before.height,
        after.background_color == before.background_color,
        after.buffer@ == point_colors_s(
            before.buffer@,
            before.zbuffer@,
            before.width as int,
            before.current_color,
            x,
            y,
            depth,
        ),
        after.zbuffer@ == point_depths_s(before.zbuffer@, before.width as int, x, y, depth),
    ensures
        fb_evolves_s(before, after),
        forall|i: int|
            0 <= i < before.buffer@.len() && i != pix_s(before.width as int, x, y)
                ==> #[trigger] after.buffer@[i] == before.buffer@[i] && after.zbuffer@[i]
                == before.zbuffer@[i],
{
    lemma_pix_in_range(before.width as int, before.height as int, x, y);
}

/// Distinct in-bounds pixels address distinct cells.
pub proof fn lemma_pix_injective(width: int, height: int, x1: int, y1: int, x2: int, y2: int)
    requires
        0 <= x1 < width,
        0 <= y1 < height,
        0 <= x2 < width,
        0 <= y2 < height,
        !(x1 == x2 && y1 == y2),
    ensures
        pix_s(width, x1, y1) != pix_s(width, x2, y2),
{
    assert(y1 * width + x1 != y2 * width + x2) by (nonlinear_arith)
        requires
            0 <= x1 < width,
            0 <= y1 < height,
            0 <= x2 < width,
            0 <= y2 < height,
            !(x1 == x2 && y1 == y2),
    ;
}

/// Writing the same point twice changes nothing the second time: the
/// depth test rejects a depth equal to the one just stored.
pub proof fn lemma_point_idempotent(
    colors: Seq<u32>,
    depths: Seq<i64>,
    width: int,
    cur: u32,
    x: int,
    y: int,
    depth: i64,
)
    requires
        0 <= pix_s(width, x, y) < depths.len(),
    ensures
        point_colors_s(
            point_colors_s(colors, depths, width, cur, x, y, depth),
            point_depths_s(depths, width, x, y, depth),
            width,
            cur,
            x,
            y,
            depth,
        ) == point_colors_s(colors, depths, width, cur, x, y, depth),
        point_depths_s(
            point_depths_s(depths, width, x, y, depth),
            width,
            x,
            y,
            depth,
        ) == point_depths_s(depths, width, x, y, depth),
{
}

/// The nearest write wins: after writes at depths `d1 < d2` to the same
/// pixel, in either order, the pixel shows the nearer write's color and
/// depth, provided the pixel started farther away than both.
pub proof fn lemma_point_nearest_wins(
    colors: Seq<u32>,
    depths: Seq<i64>,
    width: int,
    c1: u32,
    c2: u32,
    x: int,
    y: int,
    d1: i64,
    d2: i64,
)
    requires
        0 <= pix_s(width, x, y) < depths.len(),
        pix_s(width, x, y) < colors.len(),
        d1 < d2,
        d2 < depths[pix_s(width, x, y)],
    ensures
        ({
            let ca = point_colors_s(colors, depths, width, c1, x, y, d1);
            let za = point_depths_s(depths, width, x, y, d1);
            let cab = point_colors_s(ca, za, width, c2, x, y, d2);
            let zab = point_depths_s(za, width, x, y, d2);
            cab[pix_s(width, x, y)] == c1 && zab[pix_s(width, x, y)] == d1
        }),
        ({
            let cb = point_colors_s(colors, depths, width, c2, x, y, d2);
            let zb = point_depths_s(depths, width, x, y, d2);
            let cba = point_colors_s(cb, zb, width, c1, x, y, d1);
            let zba = point_depths_s(zb, width, x, y, d1);
            cba[pix_s(width, x, y)] == c1 && zba[pix_s(width, x, y)] == d1
        }),
{
}

} // verus!
