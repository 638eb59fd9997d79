//! Per-vertex data.
//!
//! A vertex carries its object-space position and normal, a texture
//! coordinate (carried through but unused by the shaders) and a base
//! color. The transform stage fills the screen-space position, the
//! transformed normal and the homogeneous `clip_w` it divided by; a
//! freshly built vertex holds its object-space data there.

use vstd::prelude::*;
use crate::color::Color;
use crate::fixed::FX_ONE;
use crate::vec3::Vec2Fx;
use crate::vec3::Vec3Fx;

verus! {

/// A mesh vertex, before or after transformation.
#[derive(Debug, Clone, Copy, PartialEq, Eq, Structural)]
pub struct Vertex {
    pub position: Vec3Fx,
    pub normal: Vec3Fx,
    pub tex_coords: Vec2Fx,
    pub color: Color,
    pub transformed_position: Vec3Fx,
    pub transformed_normal: Vec3Fx,
    /// The homogeneous coordinate the transform divided by; a zero marks
    /// a vertex at the camera plane, whose triangles are skipped.
    pub clip_w: i64,
}

impl Vertex {
    /// An untransformed vertex: black, with the object-space data
    /// standing in for the not-yet-computed transform outputs.
    pub fn new(position: Vec3Fx, normal: Vec3Fx, tex_coords: Vec2Fx) -> (v: Vertex)
        ensures
            v == (Vertex {
                position,
                normal,
                tex_coords,
                color: Color { r: 0, g: 0, b: 0 },
                transformed_position: position,
                transformed_normal: normal,
                clip_w: FX_ONE,
            }),
    {
        Vertex {
            position,
            normal,
            tex_coords,
            color: Color { r: 0, g: 0, b: 0 },
            transformed_position: position,
            transformed_normal: normal,
            clip_w: FX_ONE,
        }
    }
}

} // verus!
