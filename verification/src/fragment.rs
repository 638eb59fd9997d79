//! Per-pixel data produced by the rasterizer.
//!
//! A fragment lives only between rasterization and the depth-tested
//! write: it names its pixel, carries the barycentrically interpolated
//! object-space position the shaders sample noise at, the interpolated
//! depth, and the Lambertian intensity the shaders multiply in.

use vstd::prelude::*;
use crate::vec3::Vec3Fx;

verus! {

/// One candidate pixel of a rasterized triangle.
#[derive(Debug, Clone, Copy, PartialEq, Eq, Structural)]
pub struct Fragment {
    /// The pixel column.
    pub x: usize,
    /// The pixel row.
    pub y: usize,
    /// The interpolated object-space position, for shading.
    pub vertex_position: Vec3Fx,
    /// The interpolated depth, for the framebuffer's depth test.
    pub depth: i64,
    /// The clamped Lambertian brightness term in `[0, 1]`.
    pub intensity: i64,
}

} // verus!
