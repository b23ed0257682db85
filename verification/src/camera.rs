//! The camera pose: a world position plus yaw and pitch angles, and the
//! projection parameters that the renderer combines with it. The view and
//! projection matrices themselves are floating-point work for the rendering
//! layer; this module owns the validated state they are built from.

use vstd::prelude::*;

verus! {

use crate::fixed::{
    clamp64, clamp_spec, wrap_angle, wrapped, Vec3, HALF_TURN, POS_LIMIT,
};

/// Pitch is clamped just short of a quarter turn (pi/2 minus a small epsilon,
/// in micro-radians) so the view direction never degenerates.
pub const PITCH_LIMIT: i64 = 1_570_696;

/// A first-person camera pose: position in fixed-point world units, yaw and
/// pitch in micro-radians.
#[derive(Clone, Copy, Debug, PartialEq, Eq, Structural)]
pub struct Camera {
    pub position: Vec3,
    pub yaw: i64,
    pub pitch: i64,
}

impl Camera {
    /// A well-formed pose: the position is inside the representable world,
    /// yaw lies in the principal wrap range and pitch within the clamp range.
    pub open spec fn wf(self) -> bool {
        &&& self.position.in_world()
        &&& -HALF_TURN < self.yaw <= HALF_TURN
        &&& -PITCH_LIMIT <= self.pitch <= PITCH_LIMIT
    }

    /// Build a pose from raw coordinates and angles, clamping the position
    /// into the world and normalizing the angles, so the result is always
    /// well formed.
    pub fn new(x: i64, y: i64, z: i64, yaw: i64, pitch: i64) -> (c: Camera)
        requires
            yaw > i64::MIN,
        ensures
            c.position.x == clamp_spec(x as int, -POS_LIMIT as int, POS_LIMIT as int),
            c.position.y == clamp_spec(y as int, -POS_LIMIT as int, POS_LIMIT as int),
            c.position.z == clamp_spec(z as int, -POS_LIMIT as int, POS_LIMIT as int),
            c.yaw == wrapped(yaw as int),
            c.pitch == clamp_spec(pitch as int, -PITCH_LIMIT as int, PITCH_LIMIT as int),
            c.wf(),
    {
        Camera {
            position: Vec3 {
                x: clamp64(x, -POS_LIMIT, POS_LIMIT),
                y: clamp64(y, -POS_LIMIT, POS_LIMIT),
                z: clamp64(z, -POS_LIMIT, POS_LIMIT),
            },
            yaw: wrap_angle(yaw),
            pitch: clamp64(pitch, -PITCH_LIMIT, PITCH_LIMIT),
        }
    }
}

/// Projection parameters: viewport size in pixels, vertical field of view in
/// micro-radians, and the near/far planes in fixed-point world units. The
/// aspect ratio is the quotient `width / height`, taken by the renderer.
#[derive(Clone, Copy, Debug, PartialEq, Eq, Structural)]
pub struct Projection {
    pub width: u32,
    pub height: u32,
    pub fovy: i64,
    pub znear: i64,
    pub zfar: i64,
}

impl Projection {
    /// Valid projection parameters: a non-empty viewport, a proper vertical
    /// field of view and an ordered pair of clip planes.
    pub open spec fn wf(self) -> bool {
        &&& self.width > 0
        &&& self.height > 0
        &&& 0 < self.fovy < HALF_TURN
        &&& 0 < self.znear < self.zfar
    }

    pub fn new(width: u32, height: u32, fovy: i64, znear: i64, zfar: i64) -> (p: Projection)
        requires
            width > 0,
            height > 0,
            0 < fovy < HALF_TURN,
            0 < znear < zfar,
        ensures
            p == (Projection { width, height, fovy, znear, zfar }),
            p.wf(),
    {
        Projection { width, height, fovy, znear, zfar }
    }

    /// Track a window resize; only the viewport size changes.
    pub fn resize(&mut self, width: u32, height: u32)
        requires
            width > 0,
            height > 0,
        ensures
            *final(self) == (Projection { width, height, ..*old(self) }),
            old(self).wf() ==> final(self).wf(),
    {
        self.width = width;
        self.height = height;
    }
}

} // verus!
