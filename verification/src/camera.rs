//! The orbiting camera: eye, look-at center and up direction.
//!
//! Orbiting rotates the eye's offset from the center around the up axis
//! (azimuth) and around the axis perpendicular to up and offset
//! (polar), by Rodrigues rotation over the library's sine and cosine.
//! Zooming moves the eye along the view direction, with a minimum
//! eye-center distance floor so the view transform can never degenerate
//! to a zero offset. The caller keeps up and the view direction from
//! being parallel; the operators do not enforce it.

use vstd::prelude::*;
use crate::fixed::clamp_s;
use crate::fixed::fx_add;
use crate::fixed::fx_clamp;
use crate::fixed::fx_cos;
use crate::fixed::fx_mul;
use crate::fixed::fx_sin;
use crate::fixed::fx_sub;
use crate::fixed::fxadd_s;
use crate::fixed::fxcos_s;
use crate::fixed::fxmul_s;
use crate::fixed::fxsin_s;
use crate::fixed::fxsub_s;
use crate::fixed::FX_ONE;
use crate::vec3::v3_add;
use crate::vec3::v3_add_s;
use crate::vec3::v3_clamp_coord;
use crate::vec3::v3_clamp_coord_s;
use crate::vec3::v3_cross;
use crate::vec3::v3_cross_s;
use crate::vec3::v3_dot;
use crate::vec3::v3_dot_s;
use crate::vec3::v3_norm;
use crate::vec3::v3_norm_s;
use crate::vec3::v3_normalize;
use crate::vec3::v3_normalize_s;
use crate::vec3::v3_scale;
use crate::vec3::v3_scale_s;
use crate::vec3::v3_sub;
use crate::vec3::v3_sub_s;
use crate::vec3::Vec3Fx;

verus! {

/// The smallest eye-center distance zooming can reach: 0.1.
pub const MIN_ZOOM_DISTANCE: i64 = 6554;

/// The camera state: where it stands, what it looks at, which way is
/// up.
#[derive(Debug, Clone, Copy, PartialEq, Eq, Structural)]
pub struct Camera {
    pub eye: Vec3Fx,
    pub center: Vec3Fx,
    pub up: Vec3Fx,
}

/// Rodrigues rotation of `v` around the unit axis `k` by `theta`:
/// `v cos + (k x v) sin + k (k . v)(1 - cos)`.
pub open spec fn rodrigues_s(v: Vec3Fx, k: Vec3Fx, theta: int) -> Vec3Fx {
    v3_add_s(
        v3_add_s(
            v3_scale_s(v, fxcos_s(theta)),
            v3_scale_s(v3_cross_s(k, v), fxsin_s(theta)),
        ),
        v3_scale_s(k, fxmul_s(v3_dot_s(k, v), fxsub_s(FX_ONE as int, fxcos_s(theta)))),
    )
}

/// Where the eye stands after an orbit by the two angle deltas.
pub open spec fn orbit_eye_s(cam: Camera, delta_azimuth: int, delta_polar: int) -> Vec3Fx {
    let offset = v3_sub_s(cam.eye, cam.center);
    let up_n = v3_normalize_s(v3_clamp_coord_s(cam.up));
    let swung = rodrigues_s(offset, up_n, delta_azimuth);
    let right = v3_normalize_s(v3_clamp_coord_s(v3_cross_s(up_n, swung)));
    let tilted = rodrigues_s(swung, right, delta_polar);
    v3_add_s(cam.center, tilted)
}

/// Where the eye stands after a zoom by `delta`: along the view
/// direction, at the old distance plus `delta`, floored at
/// `MIN_ZOOM_DISTANCE`.
pub open spec fn zoom_eye_s(cam: Camera, delta: int) -> Vec3Fx {
    let offset = v3_clamp_coord_s(v3_sub_s(cam.eye, cam.center));
    let dist = v3_norm_s(offset);
    let dir = v3_normalize_s(offset);
    let new_dist = clamp_s(fxadd_s(dist, delta), MIN_ZOOM_DISTANCE as int, i64::MAX as int);
    v3_add_s(cam.center, v3_scale_s(dir, new_dist))
}

/// Rodrigues rotation, executable.
fn rodrigues(v: Vec3Fx, k: Vec3Fx, theta: i64) -> (r: Vec3Fx)
    ensures
        r == rodrigues_s(v, k, theta as int),
{
    let c: i64 = fx_cos(theta);
    let s: i64 = fx_sin(theta);
    v3_add(
        v3_add(v3_scale(v, c), v3_scale(v3_cross(k, v), s)),
        v3_scale(k, fx_mul(v3_dot(k, v), fx_sub(FX_ONE, c))),
    )
}

impl Camera {
    /// A camera from its three defining vectors.
    pub fn new(eye: Vec3Fx, center: Vec3Fx, up: Vec3Fx) -> (cam: Camera)
        ensures
            cam == (Camera { eye, center, up }),
    {
        Camera { eye, center, up }
    }

    /// Swing the eye around the center: `delta_azimuth` around the up
    /// axis, then `delta_polar` around the perpendicular axis. Center
    /// and up stay put.
    pub fn orbit(&mut self, delta_azimuth: i64, delta_polar: i64)
        ensures
            final(self).eye == orbit_eye_s(*old(self), delta_azimuth as int, delta_polar as int),
            final(self).center == old(self).center,
            final(self).up == old(self).up,
    {
        let offset: Vec3Fx = v3_sub(self.eye, self.center);
        let up_n: Vec3Fx = v3_normalize(v3_clamp_coord(self.up));
        let swung: Vec3Fx = rodrigues(offset, up_n, delta_azimuth);
        let right: Vec3Fx = v3_normalize(v3_clamp_coord(v3_cross(up_n, swung)));
        let tilted: Vec3Fx = rodrigues(swung, right, delta_polar);
        self.eye = v3_add(self.center, tilted);
    }

    /// Move the eye along the view direction: a positive `delta` backs
    /// away, a negative one closes in, never below the distance floor.
    pub fn zoom(&mut self, delta: i64)
        ensures
            final(self).eye == zoom_eye_s(*old(self), delta as int),
            final(self).center == old(self).center,
            final(self).up == old(self).up,
    {
        let offset: Vec3Fx = v3_clamp_coord(v3_sub(self.eye, self.center));
        let dist: i64 = v3_norm(offset);
        let dir: Vec3Fx = v3_normalize(offset);
        let new_dist: i64 = fx_clamp(fx_add(dist, delta), MIN_ZOOM_DISTANCE, i64::MAX);
        self.eye = v3_add(self.center, v3_scale(dir, new_dist));
    }

    /// Pan: translate eye and center by the same offset, leaving the
    /// view direction and up unchanged.
    pub fn move_center(&mut self, offset: Vec3Fx)
        ensures
            final(self).eye == v3_add_s(old(self).eye, offset),
            final(self).center == v3_add_s(old(self).center, offset),
            final(self).up == old(self).up,
    {
        self.eye = v3_add(self.eye, offset);
        self.center = v3_add(self.center, offset);
    }
}

} // verus!
