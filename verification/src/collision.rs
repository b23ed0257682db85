//! Axis-aligned collision probes.
//!
//! Every frame the detector re-derives, from scratch, six flags saying
//! whether the camera may move left/right/forward/backward and whether it is
//! held up or blocked below. Each flag is the union over all placed
//! instances of a per-instance probe predicate: a thin box just outside the
//! camera on that axis, inflated by the shape's half-extents plus named
//! probe margins. Ramps additionally snap the camera's height onto the ramp
//! surface while in contact.

use vstd::prelude::*;

verus! {

use crate::camera::Camera;
use crate::fixed::{clamp64, clamp_spec, tdiv, tdiv64, Vec3, POS_LIMIT, UNIT};
use crate::shapes::{Cube, Floor, Orientation, Slope, EXTENT_LIMIT};

/// A world-placed occurrence of a shape, as collision sees it: the position
/// of its centre. (The rendering layer carries its own copy with a rotation;
/// collision never reads one.)
#[derive(Clone, Copy, Debug, PartialEq, Eq, Structural)]
pub struct Instance {
    pub position: Vec3,
}

impl Instance {
    pub fn new(x: i64, y: i64, z: i64) -> (r: Instance)
        ensures
            r == (Instance { position: Vec3 { x, y, z } }),
    {
        Instance { position: Vec3 { x, y, z } }
    }
}

/// The probe margins, lifted out of the probe formulas so tests can cover
/// boundary values precisely. All are fixed-point distances.
#[derive(Clone, Copy, Debug, PartialEq, Eq, Structural)]
pub struct Margins {
    /// How far beyond a face the side and below probes reach.
    pub reach: i64,
    /// Widening of the cross-axis windows of the side probes.
    pub lateral: i64,
    /// Half-height of the vertical window of the side probes.
    pub vertical: i64,
    /// Lower edge of the overhead support band, above the block's top face.
    pub head_lo: i64,
    /// Upper edge of the overhead support band.
    pub head_hi: i64,
    /// Widening of a ramp's footprint for contact.
    pub slope_lateral: i64,
    /// Half-height of the ramp contact band around the ramp surface.
    pub slope_band: i64,
    /// Clearance added above the ramp surface when snapping onto it.
    pub slope_lift: i64,
}

impl Margins {
    pub open spec fn wf(self) -> bool {
        &&& 0 <= self.reach <= EXTENT_LIMIT
        &&& 0 <= self.lateral <= EXTENT_LIMIT
        &&& 0 <= self.vertical <= EXTENT_LIMIT
        &&& 0 <= self.head_lo <= EXTENT_LIMIT
        &&& 0 <= self.head_hi <= EXTENT_LIMIT
        &&& 0 <= self.slope_lateral <= EXTENT_LIMIT
        &&& 0 <= self.slope_band <= EXTENT_LIMIT
        &&& 0 <= self.slope_lift <= EXTENT_LIMIT
    }

    /// The standard margins (0.5, 0.3, 0.7, 0.5..1.0 world units for blocks;
    /// 0.2, 0.4, 0.3 for ramps).
    pub fn standard() -> (m: Margins)
        ensures
            m == Margins::standard_spec(),
            m.wf(),
    {
        Margins {
            reach: 500,
            lateral: 300,
            vertical: 700,
            head_lo: 500,
            head_hi: 1000,
            slope_lateral: 200,
            slope_band: 400,
            slope_lift: 300,
        }
    }

    pub open spec fn standard_spec() -> Margins {
        Margins {
            reach: 500,
            lateral: 300,
            vertical: 700,
            head_lo: 500,
            head_hi: 1000,
            slope_lateral: 200,
            slope_band: 400,
            slope_lift: 300,
        }
    }
}

/// A block face immediately to the camera's left (negative x) blocks
/// movement toward it.
pub open spec fn blocks_left(cam: Vec3, inst: Instance, c: Cube, m: Margins) -> bool {
    let p = inst.position;
    &&& p.x + c.width < cam.x < p.x + c.width + m.reach
    &&& p.z - (c.depth + m.lateral) < cam.z < p.z + c.depth + m.lateral
    &&& p.y - (c.height + m.vertical) < cam.y < p.y + c.height + m.vertical
}

/// A block face immediately to the camera's right (positive x).
pub open spec fn blocks_right(cam: Vec3, inst: Instance, c: Cube, m: Margins) -> bool {
    let p = inst.position;
    &&& p.x - (c.width + m.reach) < cam.x < p.x - c.width
    &&& p.z - (c.depth + m.lateral) < cam.z < p.z + c.depth + m.lateral
    &&& p.y - (c.height + m.vertical) < cam.y < p.y + c.height + m.vertical
}

/// A block face immediately behind the camera along z (negative z).
pub open spec fn blocks_forward(cam: Vec3, inst: Instance, c: Cube, m: Margins) -> bool {
    let p = inst.position;
    &&& p.x - (c.width + m.lateral) < cam.x < p.x + c.width + m.lateral
    &&& p.z + c.depth < cam.z < p.z + c.depth + m.reach
    &&& p.y - (c.height + m.vertical) < cam.y < p.y + c.height + m.vertical
}

/// A block face immediately ahead of the camera along z (positive z).
pub open spec fn blocks_backward(cam: Vec3, inst: Instance, c: Cube, m: Margins) -> bool {
    let p = inst.position;
    &&& p.x - (c.width + m.lateral) < cam.x < p.x + c.width + m.lateral
    &&& p.z - (c.depth + m.reach) < cam.z < p.z - c.depth
    &&& p.y - (c.height + m.vertical) < cam.y < p.y + c.height + m.vertical
}

/// The camera stands in the support band just above the block's top face.
pub open spec fn blocks_up(cam: Vec3, inst: Instance, c: Cube, m: Margins) -> bool {
    let p = inst.position;
    &&& p.x - (c.width + m.lateral) < cam.x < p.x + c.width + m.lateral
    &&& p.z - (c.depth + m.lateral) < cam.z < p.z + c.depth + m.lateral
    &&& p.y + c.height + m.head_lo < cam.y < p.y + c.height + m.head_hi
}

/// The camera is in the thin band just below the block's bottom face.
pub open spec fn blocks_down(cam: Vec3, inst: Instance, c: Cube, m: Margins) -> bool {
    let p = inst.position;
    &&& p.x - (c.width + m.lateral) < cam.x < p.x + c.width + m.lateral
    &&& p.z - (c.depth + m.lateral) < cam.z < p.z + c.depth + m.lateral
    &&& p.y - (c.height + m.reach) < cam.y < p.y - c.height
}

/// The camera stands on a floor slab: inside its footprint, within half the
/// slab's height below its centre plane.
pub open spec fn floor_supports(cam: Vec3, inst: Instance, f: Floor, m: Margins) -> bool {
    let p = inst.position;
    &&& p.x - (f.width + m.lateral) < cam.x < p.x + f.width + m.lateral
    &&& p.z - (f.depth + m.lateral) < cam.z < p.z + f.depth + m.lateral
    &&& p.y - f.height / 2 < cam.y < p.y
}

/// Height of a backward-ascending ramp's surface under world-space z, above
/// the instance's base height.
pub open spec fn ramp_surface_y(cam_z: int, inst: Instance, s: Slope) -> int {
    inst.position.y + (UNIT - tdiv((cam_z - inst.position.z) * s.height, s.depth as int))
}

/// The camera is over a ramp's footprint, within the contact band around the
/// ramp surface.
pub open spec fn slope_contact(cam: Vec3, inst: Instance, s: Slope, m: Margins) -> bool {
    let p = inst.position;
    let ramp = ramp_surface_y(cam.z as int, inst, s);
    &&& p.x - (s.width + m.slope_lateral) < cam.x < p.x + s.width + m.slope_lateral
    &&& p.z - (s.depth + m.slope_lateral) < cam.z < p.z + s.depth + m.slope_lateral
    &&& ramp - m.slope_band < cam.y < ramp + m.slope_band
}

/// The height a ramp contact snaps the camera to (clamped into the world).
pub open spec fn slope_snap_y(cam_z: int, inst: Instance, s: Slope, m: Margins) -> int {
    clamp_spec(
        ramp_surface_y(cam_z, inst, s) + m.slope_lift,
        -POS_LIMIT as int,
        POS_LIMIT as int,
    )
}

/// Union over all instances, per axis.
pub open spec fn any_blocks_left(cam: Vec3, insts: Seq<Instance>, c: Cube, m: Margins) -> bool {
    exists|i: int| 0 <= i < insts.len() && blocks_left(cam, insts[i], c, m)
}

pub open spec fn any_blocks_right(cam: Vec3, insts: Seq<Instance>, c: Cube, m: Margins) -> bool {
    exists|i: int| 0 <= i < insts.len() && blocks_right(cam, insts[i], c, m)
}

pub open spec fn any_blocks_forward(cam: Vec3, insts: Seq<Instance>, c: Cube, m: Margins) -> bool {
    exists|i: int| 0 <= i < insts.len() && blocks_forward(cam, insts[i], c, m)
}

pub open spec fn any_blocks_backward(cam: Vec3, insts: Seq<Instance>, c: Cube, m: Margins) -> bool {
    exists|i: int| 0 <= i < insts.len() && blocks_backward(cam, insts[i], c, m)
}

pub open spec fn any_blocks_up(cam: Vec3, insts: Seq<Instance>, c: Cube, m: Margins) -> bool {
    exists|i: int| 0 <= i < insts.len() && blocks_up(cam, insts[i], c, m)
}

pub open spec fn any_blocks_down(cam: Vec3, insts: Seq<Instance>, c: Cube, m: Margins) -> bool {
    exists|i: int| 0 <= i < insts.len() && blocks_down(cam, insts[i], c, m)
}

pub open spec fn any_floor_supports(cam: Vec3, insts: Seq<Instance>, f: Floor, m: Margins) -> bool {
    exists|i: int| 0 <= i < insts.len() && floor_supports(cam, insts[i], f, m)
}

pub open spec fn any_slope_contact(cam: Vec3, insts: Seq<Instance>, s: Slope, m: Margins) -> bool {
    exists|i: int| 0 <= i < insts.len() && slope_contact(cam, insts[i], s, m)
}

/// The camera is clear of every probe region of this instance.
pub open spec fn clear_of(cam: Vec3, inst: Instance, c: Cube, m: Margins) -> bool {
    &&& !blocks_left(cam, inst, c, m)
    &&& !blocks_right(cam, inst, c, m)
    &&& !blocks_forward(cam, inst, c, m)
    &&& !blocks_backward(cam, inst, c, m)
    &&& !blocks_up(cam, inst, c, m)
    &&& !blocks_down(cam, inst, c, m)
}

/// The per-frame collision result: six obstruction flags, recomputed from
/// scratch by each probe pass, plus the margins the probes use.
#[derive(Clone, Copy, Debug, PartialEq, Eq, Structural)]
pub struct CollisionDetection {
    pub left: bool,
    pub right: bool,
    pub forward: bool,
    pub backward: bool,
    pub up: bool,
    pub down: bool,
    pub margins: Margins,
}

impl CollisionDetection {
    /// A fresh result: nothing flagged, standard margins.
    pub fn new() -> (r: CollisionDetection)
        ensures
            !r.left && !r.right && !r.forward && !r.backward && !r.up && !r.down,
            r.margins == Margins::standard_spec(),
            r.margins.wf(),
    {
        CollisionDetection {
            left: false,
            right: false,
            forward: false,
            backward: false,
            up: false,
            down: false,
            margins: Margins::standard(),
        }
    }

    /// A fresh result probing with the given margins.
    pub fn with_margins(margins: Margins) -> (r: CollisionDetection)
        ensures
            !r.left && !r.right && !r.forward && !r.backward && !r.up && !r.down,
            r.margins == margins,
    {
        CollisionDetection {
            left: false,
            right: false,
            forward: false,
            backward: false,
            up: false,
            down: false,
            margins,
        }
    }

    /// Probe all six axes against block-shaped solids. Each flag becomes the
    /// union, over all instances, of that axis's probe predicate.
    #[verifier::spinoff_prover]
    #[verifier::rlimit(100)]
    pub fn detect(&mut self, camera: &Camera, instances: &[Instance], cube: &Cube)
        requires
            old(self).margins.wf(),
            camera.wf(),
            cube.wf(),
            forall|i: int| 0 <= i < instances@.len() ==> (#[trigger] instances@[i]).position.in_world(),
        ensures
            final(self).margins == old(self).margins,
            final(self).left == any_blocks_left(camera.position, instances@, *cube, old(self).margins),
            final(self).right == any_blocks_right(camera.position, instances@, *cube, old(self).margins),
            final(self).forward == any_blocks_forward(camera.position, instances@, *cube, old(self).margins),
            final(self).backward == any_blocks_backward(camera.position, instances@, *cube, old(self).margins),
            final(self).up == any_blocks_up(camera.position, instances@, *cube, old(self).margins),
            final(self).down == any_blocks_down(camera.position, instances@, *cube, old(self).margins),
    {
        let m = self.margins;
        let cam = camera.position;
        let mut left = false;
        let mut right = false;
        let mut forward = false;
        let mut backward = false;
        let mut up = false;
        let mut down = false;
        let n = instances.len();
        let mut i: usize = 0;
        while i < n
            invariant
                0 <= i <= n,
                n == instances@.len(),
                m.wf(),
                cube.wf(),
                cam.in_world(),
                forall|k: int|
                    0 <= k < instances@.len() ==> (#[trigger] instances@[k]).position.in_world(),
                left == exists|k: int| 0 <= k < i && blocks_left(cam, instances@[k], *cube, m),
                right == exists|k: int| 0 <= k < i && blocks_right(cam, instances@[k], *cube, m),
                forward == exists|k: int|
                    0 <= k < i && blocks_forward(cam, instances@[k], *cube, m),
                backward == exists|k: int|
                    0 <= k < i && blocks_backward(cam, instances@[k], *cube, m),
                up == exists|k: int| 0 <= k < i && blocks_up(cam, instances@[k], *cube, m),
                down == exists|k: int| 0 <= k < i && blocks_down(cam, instances@[k], *cube, m),
            decreases n - i,
        {
            let inst = &instances[i];
            let p = inst.position;
            let in_z_window = p.z - (cube.depth + m.lateral) < cam.z && cam.z < p.z + cube.depth
                + m.lateral;
            let in_x_window = p.x - (cube.width + m.lateral) < cam.x && cam.x < p.x + cube.width
                + m.lateral;
            let in_y_window = p.y - (cube.height + m.vertical) < cam.y && cam.y < p.y + cube.height
                + m.vertical;
            if p.x + cube.width < cam.x && cam.x < p.x + cube.width + m.reach && in_z_window
                && in_y_window {
                left = true;
            }
            if p.x - (cube.width + m.reach) < cam.x && cam.x < p.x - cube.width && in_z_window
                && in_y_window {
                right = true;
            }
            if in_x_window && p.z + cube.depth < cam.z && cam.z < p.z + cube.depth + m.reach
                && in_y_window {
                forward = true;
            }
            if in_x_window && p.z - (cube.depth + m.reach) < cam.z && cam.z < p.z - cube.depth
                && in_y_window {
                backward = true;
            }
            if in_x_window && p.z - (cube.depth + m.lateral) < cam.z && cam.z < p.z + cube.depth
                + m.lateral && p.y + cube.height + m.head_lo < cam.y && cam.y < p.y + cube.height
                + m.head_hi {
                up = true;
            }
            if in_x_window && p.z - (cube.depth + m.lateral) < cam.z && cam.z < p.z + cube.depth
                + m.lateral && p.y - (cube.height + m.reach) < cam.y && cam.y < p.y - cube.height {
                down = true;
            }
            i += 1;
        }
        self.left = left;
        self.right = right;
        self.forward = forward;
        self.backward = backward;
        self.up = up;
        self.down = down;
    }

    /// Probe for support by floor slabs; only the `up` flag is recomputed.
    pub fn floor_detect(&mut self, camera: &Camera, instances: &[Instance], floor: &Floor)
        requires
            old(self).margins.wf(),
            camera.wf(),
            floor.wf(),
            forall|i: int| 0 <= i < instances@.len() ==> (#[trigger] instances@[i]).position.in_world(),
        ensures
            *final(self) == (CollisionDetection {
                up: any_floor_supports(camera.position, instances@, *floor, old(self).margins),
                ..*old(self)
            }),
    {
        let m = self.margins;
        let cam = camera.position;
        let mut up = false;
        let n = instances.len();
        let mut i: usize = 0;
        while i < n
            invariant
                0 <= i <= n,
                n == instances@.len(),
                m.wf(),
                floor.wf(),
                cam.in_world(),
                forall|k: int|
                    0 <= k < instances@.len() ==> (#[trigger] instances@[k]).position.in_world(),
                up == exists|k: int| 0 <= k < i && floor_supports(cam, instances@[k], *floor, m),
            decreases n - i,
        {
            let p = instances[i].position;
            if p.x - (floor.width + m.lateral) < cam.x && cam.x < p.x + floor.width + m.lateral
                && p.z - (floor.depth + m.lateral) < cam.z && cam.z < p.z + floor.depth + m.lateral
                && p.y - floor.height / 2 < cam.y && cam.y < p.y {
                up = true;
            }
            i += 1;
        }
        self.up = up;
    }

    /// Probe for ramp contact. Only backward-ascending ramps take part;
    /// whether the other orientations should snap symmetrically is an open
    /// design decision, so they report nothing. On contact the camera's
    /// height snaps to the ramp surface of the first matching instance, plus
    /// a clearance, and `up` reports support; otherwise `up` is cleared.
    pub fn slope_detect(&mut self, camera: &mut Camera, instances: &[Instance], slope: &Slope)
        requires
            old(self).margins.wf(),
            old(camera).wf(),
            slope.wf(),
            forall|i: int| 0 <= i < instances@.len() ==> (#[trigger] instances@[i]).position.in_world(),
        ensures
            slope.orientation != Orientation::Backward ==> *final(self) == *old(self) && *final(
                camera) == *old(camera),
            slope.orientation == Orientation::Backward ==> ({
                let cam = old(camera).position;
                let m = old(self).margins;
                &&& *final(self) == (CollisionDetection {
                    up: any_slope_contact(cam, instances@, *slope, m),
                    ..*old(self)
                })
                &&& !any_slope_contact(cam, instances@, *slope, m) ==> *final(camera) == *old(camera)
                &&& any_slope_contact(cam, instances@, *slope, m) ==> (exists|j: int|
                    {
                        &&& 0 <= j < instances@.len()
                        &&& #[trigger] slope_contact(cam, instances@[j], *slope, m)
                        &&& (forall|k: int|
                            0 <= k < j ==> !slope_contact(cam, instances@[k], *slope, m))
                        &&& *final(camera) == (Camera {
                            position: Vec3 {
                                y: slope_snap_y(cam.z as int, instances@[j], *slope, m) as i64,
                                ..cam
                            },
                            ..*old(camera)
                        })
                    })
            }),
            final(camera).wf(),
            final(self).margins == old(self).margins,
    {
        if !matches!(slope.orientation, Orientation::Backward) {
            return ;
        }
        let m = self.margins;
        let cam = camera.position;
        let n = instances.len();
        let mut i: usize = 0;
        while i < n
            invariant
                0 <= i <= n,
                n == instances@.len(),
                m.wf(),
                slope.wf(),
                cam.in_world(),
                *self == *old(self),
                *camera == *old(camera),
                old(camera).wf(),
                cam == old(camera).position,
                m == old(self).margins,
                slope.orientation == Orientation::Backward,
                forall|k: int|
                    0 <= k < instances@.len() ==> (#[trigger] instances@[k]).position.in_world(),
                forall|k: int| 0 <= k < i ==> !slope_contact(cam, instances@[k], *slope, m),
            decreases n - i,
        {
            let p = instances[i].position;
            let dz = cam.z - p.z;
            proof {
                assert(-2_000_000_000_000_000 <= dz * slope.height <= 2_000_000_000_000_000)
                    by (nonlinear_arith)
                    requires
                        -2_000_000_000 <= dz <= 2_000_000_000,
                        0 <= slope.height <= 1_000_000,
                ;
            }
            let ramp = p.y + (UNIT - tdiv64(dz * slope.height, slope.depth));
            if p.x - (slope.width + m.slope_lateral) < cam.x && cam.x < p.x + slope.width
                + m.slope_lateral && p.z - (slope.depth + m.slope_lateral) < cam.z && cam.z < p.z
                + slope.depth + m.slope_lateral && ramp - m.slope_band < cam.y && cam.y < ramp
                + m.slope_band {
                camera.position.y = clamp64(ramp + m.slope_lift, -POS_LIMIT, POS_LIMIT);
                self.up = true;
                proof {
                    assert(slope_contact(cam, instances@[i as int], *slope, m));
                    assert(any_slope_contact(cam, instances@, *slope, m));
                }
                return ;
            }
            i += 1;
        }
        self.up = false;
    }
}

/// For a camera clear of every instance's inflated probe envelope, a full
/// block probe pass reports all axes clear.
pub proof fn lemma_detect_all_clear(cam: Vec3, insts: Seq<Instance>, c: Cube, m: Margins)
    requires
        forall|i: int| 0 <= i < insts.len() ==> clear_of(cam, #[trigger] insts[i], c, m),
    ensures
        !any_blocks_left(cam, insts, c, m),
        !any_blocks_right(cam, insts, c, m),
        !any_blocks_forward(cam, insts, c, m),
        !any_blocks_backward(cam, insts, c, m),
        !any_blocks_up(cam, insts, c, m),
        !any_blocks_down(cam, insts, c, m),
{
}

/// One overlapping instance is enough to flag its axis, whatever else the
/// list holds: the flags are unions, so no later instance can clear them.
pub proof fn lemma_union_left(cam: Vec3, insts: Seq<Instance>, c: Cube, m: Margins, i: int)
    requires
        0 <= i < insts.len(),
        blocks_left(cam, insts[i], c, m),
    ensures
        any_blocks_left(cam, insts, c, m),
{
}

/// Appending a further instance, overlapping or not, cannot clear a left
/// flag owed to an earlier instance.
pub proof fn lemma_union_preserved_under_push(
    cam: Vec3,
    insts: Seq<Instance>,
    c: Cube,
    m: Margins,
    extra: Instance,
)
    requires
        any_blocks_left(cam, insts, c, m),
    ensures
        any_blocks_left(cam, insts.push(extra), c, m),
{
    let j = choose|j: int| 0 <= j < insts.len() && blocks_left(cam, insts[j], c, m);
    assert(insts.push(extra)[j] == insts[j]);
}

} // verus!
