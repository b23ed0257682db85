//! The camera controller: turns per-frame input intents and a collision
//! result into a new camera pose.
//!
//! Each frame the controller reads the accumulated input state, asks the
//! collision result which axes are obstructed, integrates velocities onto
//! the position (each horizontal component applied only when its axis is
//! free, so diagonal movement slides along walls), applies the accumulated
//! mouse rotation, clamps pitch, wraps yaw, and dollies along the look
//! vector by the consumed scroll amount. The caller supplies fixed-point
//! samples of the yaw/pitch sine and cosine taken before the update.

use vstd::prelude::*;

verus! {

use crate::camera::{Camera, PITCH_LIMIT};
use crate::collision::CollisionDetection;
use crate::fixed::{
    clamp64, clamp_spec, tdiv, tdiv64, wrap_angle, wrapped, Vec3, HALF_TURN, POS_LIMIT, UNIT,
};

/// Largest speed setting (1000 world units per second).
pub const SPEED_LIMIT: i64 = 1_000_000;

/// Largest mouse sensitivity setting (a factor of 100).
pub const SENS_LIMIT: i64 = 100_000;

/// Cap on the accumulated mouse delta per frame (1000 pixels).
pub const ROT_LIMIT: i64 = 1_000_000;

/// Cap on the accumulated scroll delta per frame (1000 pixels).
pub const SCROLL_LIMIT: i64 = 1_000_000;

/// Held directional velocity accumulates while below this cap.
pub const VEL_CAP: i64 = 1500;

/// Directional velocity gained per frame while the key is held.
pub const VEL_STEP: i64 = 500;

/// Largest directional velocity (`VEL_CAP` plus one last `VEL_STEP`).
pub const VEL_MAX: i64 = 2000;

/// Directional velocity lost per frame, clamped at zero.
pub const VEL_DECAY: i64 = 100;

/// Instantaneous vertical velocity gained by a jump off the floor.
pub const JUMP_BOOST: i64 = 2000;

/// Vertical velocity lost per airborne frame.
pub const GRAVITY_STEP: i64 = 50;

/// Terminal fall speed: gravity stops accelerating a fall past this.
pub const FALL_LIMIT: i64 = 100_000;

/// Elapsed time is clamped to this before integration, so a stalled frame
/// cannot teleport the camera.
pub const DT_CLAMP_MS: u64 = 100;

/// One scroll line counts as this many pixels.
pub const LINE_PIXELS: i64 = 100;

/// A movement key, already resolved from whatever physical keys the
/// windowing layer maps to it.
#[derive(Clone, Copy, Debug, PartialEq, Eq, Structural)]
pub enum Key {
    Forward,
    Backward,
    Left,
    Right,
    Jump,
    Descend,
}

/// A scroll measure as delivered by the windowing layer, in fixed point
/// (1000 per line or per pixel).
#[derive(Clone, Copy, Debug, PartialEq, Eq, Structural)]
pub enum ScrollAmount {
    Lines(i64),
    Pixels(i64),
}

/// A window input event the controller consumes.
#[derive(Clone, Copy, Debug, PartialEq, Eq, Structural)]
pub enum InputEvent {
    Key(Key, bool),
    Scroll(ScrollAmount),
    MouseButton(bool),
}

/// How directional intents become velocities.
#[derive(Clone, Copy, Debug, PartialEq, Eq, Structural)]
pub enum MovementPolicy {
    /// Velocity follows the held key instantly, with no inertia and no jump
    /// arc; the up/down intents move the camera vertically.
    Direct,
    /// Each direction accumulates its own velocity while held and decays
    /// toward zero when released; jumping applies a vertical boost followed
    /// by gravity.
    Inertial,
}

/// Fixed-point samples of the view angles' sine and cosine, taken by the
/// caller from the pose before the update (scale 1000 for the value one).
#[derive(Clone, Copy, Debug, PartialEq, Eq, Structural)]
pub struct TrigSample {
    pub yaw_cos: i64,
    pub yaw_sin: i64,
    pub pitch_cos: i64,
    pub pitch_sin: i64,
}

impl TrigSample {
    pub open spec fn wf(self) -> bool {
        &&& -UNIT <= self.yaw_cos <= UNIT
        &&& -UNIT <= self.yaw_sin <= UNIT
        &&& -UNIT <= self.pitch_cos <= UNIT
        &&& -UNIT <= self.pitch_sin <= UNIT
    }

    pub fn new(yaw_cos: i64, yaw_sin: i64, pitch_cos: i64, pitch_sin: i64) -> (t: TrigSample)
        requires
            -UNIT <= yaw_cos <= UNIT,
            -UNIT <= yaw_sin <= UNIT,
            -UNIT <= pitch_cos <= UNIT,
            -UNIT <= pitch_sin <= UNIT,
        ensures
            t == (TrigSample { yaw_cos, yaw_sin, pitch_cos, pitch_sin }),
            t.wf(),
    {
        TrigSample { yaw_cos, yaw_sin, pitch_cos, pitch_sin }
    }
}

/// The input accumulator and integrator state.
#[derive(Clone, Copy, Debug, PartialEq, Eq, Structural)]
pub struct CameraController {
    pub press_left: bool,
    pub press_right: bool,
    pub press_forward: bool,
    pub press_backward: bool,
    pub press_up: bool,
    pub press_down: bool,
    pub rotate_horizontal: i64,
    pub rotate_vertical: i64,
    pub scroll: i64,
    pub speed: i64,
    pub sensitivity: i64,
    pub mouse_pressed: bool,
    pub forward_vel: i64,
    pub backward_vel: i64,
    pub right_vel: i64,
    pub left_vel: i64,
    pub jump_vel: i64,
    pub on_floor: bool,
    pub policy: MovementPolicy,
}

/// Elapsed milliseconds, clamped so a stalled frame integrates as at most
/// a tenth of a second.
pub open spec fn dt_clamped(dt_ms: u64) -> int {
    if dt_ms > DT_CLAMP_MS {
        DT_CLAMP_MS as int
    } else {
        dt_ms as int
    }
}

/// A held key replenishes its direction's velocity while below the cap.
pub open spec fn bumped(v: int, pressed: bool) -> int {
    if pressed && v < VEL_CAP {
        v + VEL_STEP
    } else {
        v
    }
}

/// Unreplenished velocity decays toward zero and stops there.
pub open spec fn decayed(v: int) -> int {
    if v > 0 {
        if v - VEL_DECAY >= 0 {
            v - VEL_DECAY
        } else {
            0
        }
    } else {
        v
    }
}

/// The velocity a direction contributes this frame under a policy.
pub open spec fn effective_vel(policy: MovementPolicy, v: int, pressed: bool) -> int {
    match policy {
        MovementPolicy::Direct => if pressed {
            UNIT as int
        } else {
            0
        },
        MovementPolicy::Inertial => bumped(v, pressed),
    }
}

/// A horizontal position step: velocity times a trig sample times speed
/// times seconds, all in fixed point.
#[verifier::opaque]
pub open spec fn dir_step_spec(vel: int, trig: int, speed: int, dtc: int) -> int {
    tdiv(vel * trig * speed * dtc, 1_000_000_000)
}

/// A vertical position step: velocity times speed times seconds.
#[verifier::opaque]
pub open spec fn vert_step_spec(vel: int, speed: int, dtc: int) -> int {
    tdiv(vel * speed * dtc, 1_000_000)
}

/// A rotation step in micro-radians: accumulated mouse delta times
/// sensitivity times seconds.
#[verifier::opaque]
pub open spec fn rot_step_spec(rot: int, sens: int, dtc: int) -> int {
    tdiv(rot * sens * dtc, UNIT as int)
}

/// The scalar dolly amount: scroll times speed times sensitivity times
/// seconds, staged to stay in range.
#[verifier::opaque]
pub open spec fn dolly_amount_spec(scroll: int, speed: int, sens: int, dtc: int) -> int {
    tdiv(tdiv(tdiv(scroll * speed, UNIT as int) * sens, UNIT as int) * dtc, UNIT as int)
}

/// A component of the unit look vector, in fixed point.
#[verifier::opaque]
pub open spec fn look_component_spec(a: int, b: int) -> int {
    tdiv(a * b, UNIT as int)
}

/// Add a step to a coordinate only if the obstruction flag for the step's
/// sign is clear; negative steps are blocked by `neg_block`, positive ones
/// by `pos_block`.
pub open spec fn guarded_add(x: int, d: int, neg_block: bool, pos_block: bool) -> int {
    if (d < 0 && !neg_block) || (d > 0 && !pos_block) {
        x + d
    } else {
        x
    }
}

impl CameraController {
    /// Accumulator and integrator state within the ranges the integration
    /// arithmetic is proved for.
    pub open spec fn wf(self) -> bool {
        &&& 0 <= self.speed <= SPEED_LIMIT
        &&& 0 <= self.sensitivity <= SENS_LIMIT
        &&& -ROT_LIMIT <= self.rotate_horizontal <= ROT_LIMIT
        &&& -ROT_LIMIT <= self.rotate_vertical <= ROT_LIMIT
        &&& -SCROLL_LIMIT <= self.scroll <= SCROLL_LIMIT
        &&& 0 <= self.forward_vel <= VEL_MAX
        &&& 0 <= self.backward_vel <= VEL_MAX
        &&& 0 <= self.right_vel <= VEL_MAX
        &&& 0 <= self.left_vel <= VEL_MAX
        &&& -FALL_LIMIT <= self.jump_vel <= JUMP_BOOST
    }

    /// Fresh state with nothing pressed and nothing accumulated, moving
    /// with inertia; the speed and sensitivity settings are clamped into
    /// their representable ranges.
    pub fn new(speed: i64, sensitivity: i64) -> (c: CameraController)
        ensures
            c == CameraController::initial_spec(
                speed as int,
                sensitivity as int,
                MovementPolicy::Inertial,
            ),
            c.wf(),
    {
        CameraController::with_policy(speed, sensitivity, MovementPolicy::Inertial)
    }

    /// Fresh state under the given movement policy.
    pub fn with_policy(speed: i64, sensitivity: i64, policy: MovementPolicy) -> (c:
        CameraController)
        ensures
            c == CameraController::initial_spec(speed as int, sensitivity as int, policy),
            c.wf(),
    {
        CameraController {
            press_left: false,
            press_right: false,
            press_forward: false,
            press_backward: false,
            press_up: false,
            press_down: false,
            rotate_horizontal: 0,
            rotate_vertical: 0,
            scroll: 0,
            speed: clamp64(speed, 0, SPEED_LIMIT),
            sensitivity: clamp64(sensitivity, 0, SENS_LIMIT),
            mouse_pressed: false,
            forward_vel: 0,
            backward_vel: 0,
            right_vel: 0,
            left_vel: 0,
            jump_vel: 0,
            on_floor: false,
            policy,
        }
    }

    pub open spec fn initial_spec(speed: int, sensitivity: int, policy: MovementPolicy)
        -> CameraController {
        CameraController {
            press_left: false,
            press_right: false,
            press_forward: false,
            press_backward: false,
            press_up: false,
            press_down: false,
            rotate_horizontal: 0,
            rotate_vertical: 0,
            scroll: 0,
            speed: clamp_spec(speed, 0, SPEED_LIMIT as int) as i64,
            sensitivity: clamp_spec(sensitivity, 0, SENS_LIMIT as int) as i64,
            mouse_pressed: false,
            forward_vel: 0,
            backward_vel: 0,
            right_vel: 0,
            left_vel: 0,
            jump_vel: 0,
            on_floor: false,
            policy,
        }
    }

    /// Record a key-state change. Arrow-key/WASD style resolution to a
    /// logical `Key` is the windowing layer's business.
    pub fn process_events(&mut self, event: &InputEvent) -> (handled: bool)
        requires
            old(self).wf(),
        ensures
            handled,
            *final(self) == CameraController::event_spec(*old(self), *event),
            final(self).wf(),
    {
        match event {
            InputEvent::Key(key, pressed) => {
                let p = *pressed;
                match key {
                    Key::Forward => self.press_forward = p,
                    Key::Backward => self.press_backward = p,
                    Key::Left => self.press_left = p,
                    Key::Right => self.press_right = p,
                    Key::Jump => self.press_up = p,
                    Key::Descend => self.press_down = p,
                }
                true
            },
            InputEvent::Scroll(delta) => {
                self.process_scroll(delta);
                true
            },
            InputEvent::MouseButton(pressed) => {
                self.mouse_pressed = *pressed;
                true
            },
        }
    }

    /// What each input event does to the accumulator state.
    pub open spec fn event_spec(c: CameraController, event: InputEvent) -> CameraController {
        match event {
            InputEvent::Key(Key::Forward, p) => CameraController { press_forward: p, ..c },
            InputEvent::Key(Key::Backward, p) => CameraController { press_backward: p, ..c },
            InputEvent::Key(Key::Left, p) => CameraController { press_left: p, ..c },
            InputEvent::Key(Key::Right, p) => CameraController { press_right: p, ..c },
            InputEvent::Key(Key::Jump, p) => CameraController { press_up: p, ..c },
            InputEvent::Key(Key::Descend, p) => CameraController { press_down: p, ..c },
            InputEvent::Scroll(delta) => CameraController::scroll_spec(c, delta),
            InputEvent::MouseButton(p) => CameraController { mouse_pressed: p, ..c },
        }
    }

    /// Accumulate a mouse movement toward the next frame's rotation, if the
    /// mouse is captured; the accumulator saturates rather than grow without
    /// bound.
    pub fn process_mouse(&mut self, mouse_dx: i64, mouse_dy: i64)
        requires
            old(self).wf(),
        ensures
            *final(self) == CameraController::mouse_spec(*old(self), mouse_dx as int, mouse_dy as int),
            final(self).wf(),
    {
        if self.mouse_pressed {
            let dx = clamp64(mouse_dx, -ROT_LIMIT, ROT_LIMIT);
            let dy = clamp64(mouse_dy, -ROT_LIMIT, ROT_LIMIT);
            self.rotate_horizontal = clamp64(self.rotate_horizontal + dx, -ROT_LIMIT, ROT_LIMIT);
            self.rotate_vertical = clamp64(self.rotate_vertical + dy, -ROT_LIMIT, ROT_LIMIT);
        }
    }

    pub open spec fn mouse_spec(c: CameraController, dx: int, dy: int) -> CameraController {
        if c.mouse_pressed {
            CameraController {
                rotate_horizontal: clamp_spec(
                    c.rotate_horizontal + clamp_spec(dx, -ROT_LIMIT as int, ROT_LIMIT as int),
                    -ROT_LIMIT as int,
                    ROT_LIMIT as int,
                ) as i64,
                rotate_vertical: clamp_spec(
                    c.rotate_vertical + clamp_spec(dy, -ROT_LIMIT as int, ROT_LIMIT as int),
                    -ROT_LIMIT as int,
                    ROT_LIMIT as int,
                ) as i64,
                ..c
            }
        } else {
            c
        }
    }

    /// Accumulate a scroll movement toward the next frame's dolly. Scrolling
    /// away is a negative contribution; a line counts as `LINE_PIXELS`
    /// pixels; the accumulator saturates.
    pub fn process_scroll(&mut self, delta: &ScrollAmount)
        requires
            old(self).wf(),
        ensures
            *final(self) == CameraController::scroll_spec(*old(self), *delta),
            final(self).wf(),
    {
        let px: i64 = match delta {
            ScrollAmount::Lines(l) => clamp64(*l, -SCROLL_LIMIT, SCROLL_LIMIT) * LINE_PIXELS,
            ScrollAmount::Pixels(p) => clamp64(*p, -SCROLL_LIMIT, SCROLL_LIMIT),
        };
        self.scroll = clamp64(self.scroll - px, -SCROLL_LIMIT, SCROLL_LIMIT);
    }

    pub open spec fn scroll_spec(c: CameraController, delta: ScrollAmount) -> CameraController {
        let px = match delta {
            ScrollAmount::Lines(l) => clamp_spec(l as int, -SCROLL_LIMIT as int, SCROLL_LIMIT as int)
                * LINE_PIXELS,
            ScrollAmount::Pixels(p) => clamp_spec(p as int, -SCROLL_LIMIT as int, SCROLL_LIMIT as int),
        };
        CameraController {
            scroll: clamp_spec(c.scroll - px, -SCROLL_LIMIT as int, SCROLL_LIMIT as int) as i64,
            ..c
        }
    }
}

/// The vertical velocity after this frame's landing, jump and gravity: a
/// supported camera sheds its fall speed, a jump from support boosts it,
/// and an airborne frame loses `GRAVITY_STEP` down to the terminal speed.
pub open spec fn jump_vel_after(jump_vel: int, press_up: bool, supported: bool) -> int {
    let jump_landed = if supported {
        0
    } else {
        jump_vel
    };
    let jump_boosted = if press_up && supported {
        jump_landed + JUMP_BOOST
    } else {
        jump_landed
    };
    if !(supported && !press_up) {
        if jump_boosted - GRAVITY_STEP >= -FALL_LIMIT {
            jump_boosted - GRAVITY_STEP
        } else {
            -FALL_LIMIT as int
        }
    } else {
        jump_boosted
    }
}

/// The new x coordinate: each of the four directional steps applied in
/// turn, masked by the left/right obstruction flags.
pub open spec fn x_after_movement(
    c: CameraController,
    x: int,
    trig: TrigSample,
    col: CollisionDetection,
    dtc: int,
) -> int {
    let eff_f = effective_vel(c.policy, c.forward_vel as int, c.press_forward);
    let eff_b = effective_vel(c.policy, c.backward_vel as int, c.press_backward);
    let eff_r = effective_vel(c.policy, c.right_vel as int, c.press_right);
    let eff_l = effective_vel(c.policy, c.left_vel as int, c.press_left);
    let fdx = dir_step_spec(eff_f, trig.yaw_cos as int, c.speed as int, dtc);
    let bdx = dir_step_spec(eff_b, trig.yaw_cos as int, c.speed as int, dtc);
    let rdx = dir_step_spec(eff_r, trig.yaw_sin as int, c.speed as int, dtc);
    let ldx = dir_step_spec(eff_l, trig.yaw_sin as int, c.speed as int, dtc);
    guarded_add(
        guarded_add(
            guarded_add(guarded_add(x, fdx, col.left, col.right), -bdx, col.left, col.right),
            -rdx,
            col.left,
            col.right,
        ),
        ldx,
        col.left,
        col.right,
    )
}

/// The new z coordinate, masked by the forward/backward obstruction flags.
pub open spec fn z_after_movement(
    c: CameraController,
    z: int,
    trig: TrigSample,
    col: CollisionDetection,
    dtc: int,
) -> int {
    let eff_f = effective_vel(c.policy, c.forward_vel as int, c.press_forward);
    let eff_b = effective_vel(c.policy, c.backward_vel as int, c.press_backward);
    let eff_r = effective_vel(c.policy, c.right_vel as int, c.press_right);
    let eff_l = effective_vel(c.policy, c.left_vel as int, c.press_left);
    let fdz = dir_step_spec(eff_f, trig.yaw_sin as int, c.speed as int, dtc);
    let bdz = dir_step_spec(eff_b, trig.yaw_sin as int, c.speed as int, dtc);
    let rdz = dir_step_spec(eff_r, trig.yaw_cos as int, c.speed as int, dtc);
    let ldz = dir_step_spec(eff_l, trig.yaw_cos as int, c.speed as int, dtc);
    guarded_add(
        guarded_add(
            guarded_add(
                guarded_add(z, fdz, col.forward, col.backward),
                -bdz,
                col.forward,
                col.backward,
            ),
            rdz,
            col.forward,
            col.backward,
        ),
        -ldz,
        col.forward,
        col.backward,
    )
}

/// The new y coordinate: the jump/gravity velocity under inertia, or the
/// up/down intents directly under the direct policy.
pub open spec fn y_after_movement(
    c: CameraController,
    y: int,
    col: CollisionDetection,
    dtc: int,
) -> int {
    match c.policy {
        MovementPolicy::Inertial => y + vert_step_spec(
            jump_vel_after(c.jump_vel as int, c.press_up, col.up),
            c.speed as int,
            dtc,
        ),
        MovementPolicy::Direct => {
            let updown = (if c.press_up {
                UNIT as int
            } else {
                0
            }) - (if c.press_down {
                UNIT as int
            } else {
                0
            });
            y + vert_step_spec(updown, c.speed as int, dtc)
        },
    }
}

/// The movement stage: velocity bookkeeping and the collision-masked
/// position integration. Angles and the input accumulators are untouched;
/// the position is not yet clamped back into the world.
pub open spec fn movement_spec(
    c: CameraController,
    cam: Camera,
    trig: TrigSample,
    col: CollisionDetection,
    dtc: int,
) -> (CameraController, Camera) {
    let new_cam = Camera {
        position: Vec3 {
            x: x_after_movement(c, cam.position.x as int, trig, col, dtc) as i64,
            y: y_after_movement(c, cam.position.y as int, col, dtc) as i64,
            z: z_after_movement(c, cam.position.z as int, trig, col, dtc) as i64,
        },
        ..cam
    };
    (velocities_after(c, col.up), new_cam)
}

/// The integrator state after one frame: under inertia the directional
/// velocities are replenished then decayed, the jump velocity follows
/// landing, jump and gravity, and the floor flag follows support; the
/// direct policy keeps no such state.
pub open spec fn velocities_after(c: CameraController, supported: bool) -> CameraController {
    match c.policy {
        MovementPolicy::Inertial => CameraController {
            forward_vel: decayed(bumped(c.forward_vel as int, c.press_forward)) as i64,
            backward_vel: decayed(bumped(c.backward_vel as int, c.press_backward)) as i64,
            right_vel: decayed(bumped(c.right_vel as int, c.press_right)) as i64,
            left_vel: decayed(bumped(c.left_vel as int, c.press_left)) as i64,
            jump_vel: jump_vel_after(c.jump_vel as int, c.press_up, supported) as i64,
            on_floor: supported && !c.press_up,
            ..c
        },
        MovementPolicy::Direct => c,
    }
}

/// Everything one `update_camera` call does, as a function of the previous
/// state: the movement stage, then the scroll dolly, rotation with pitch
/// clamp and yaw wrap, the clamp of the position back into the world, and
/// the reset of the consumed accumulators.
pub open spec fn update_spec(
    c: CameraController,
    cam: Camera,
    trig: TrigSample,
    col: CollisionDetection,
    dt_ms: u64,
) -> (CameraController, Camera) {
    let dtc = dt_clamped(dt_ms);
    let moved = movement_spec(c, cam, trig, col, dtc);
    let c1 = moved.0;
    let cam1 = moved.1;
    // Dolly along the full look vector by the consumed scroll amount.
    let amount = dolly_amount_spec(c.scroll as int, c.speed as int, c.sensitivity as int, dtc);
    let look_x = look_component_spec(trig.pitch_cos as int, trig.yaw_cos as int);
    let look_z = look_component_spec(trig.pitch_cos as int, trig.yaw_sin as int);
    let ddx = look_component_spec(amount, look_x);
    let ddy = look_component_spec(amount, trig.pitch_sin as int);
    let ddz = look_component_spec(amount, look_z);
    // Rotation from the consumed mouse deltas; pitch clamps, yaw wraps.
    let yaw_delta = rot_step_spec(c.rotate_horizontal as int, c.sensitivity as int, dtc);
    let pitch_delta = rot_step_spec(-(c.rotate_vertical as int), c.sensitivity as int, dtc);
    let new_cam = Camera {
        position: Vec3 {
            x: clamp_spec(cam1.position.x + ddx, -POS_LIMIT as int, POS_LIMIT as int) as i64,
            y: clamp_spec(cam1.position.y + ddy, -POS_LIMIT as int, POS_LIMIT as int) as i64,
            z: clamp_spec(cam1.position.z + ddz, -POS_LIMIT as int, POS_LIMIT as int) as i64,
        },
        yaw: wrapped(cam.yaw + yaw_delta) as i64,
        pitch: clamp_spec(cam.pitch + pitch_delta, -PITCH_LIMIT as int, PITCH_LIMIT as int) as i64,
    };
    let new_c = CameraController { rotate_horizontal: 0, rotate_vertical: 0, scroll: 0, ..c1 };
    (new_c, new_cam)
}

// Exec steps mirroring the spec steps, each with the overflow reasoning its
// products need.
fn dir_step(vel: i64, trig: i64, speed: i64, dtc: i64) -> (q: i64)
    requires
        0 <= vel <= VEL_MAX,
        -UNIT <= trig <= UNIT,
        0 <= speed <= SPEED_LIMIT,
        0 <= dtc <= 100,
    ensures
        q == dir_step_spec(vel as int, trig as int, speed as int, dtc as int),
        -200_000_000_000_000 <= q <= 200_000_000_000_000,
{
    proof {
        reveal(dir_step_spec);
    }
    proof {
        assert((-2_000_000 <= vel * trig <= 2_000_000 && -2_000_000_000_000 <= vel * trig * speed
            <= 2_000_000_000_000 && -200_000_000_000_000 <= vel * trig * speed * dtc
            <= 200_000_000_000_000) && (vel * trig) * speed == vel * trig * speed && ((vel * trig)
            * speed) * dtc == vel * trig * speed * dtc) by (nonlinear_arith)
            requires
                0 <= vel <= 2000,
                -1000 <= trig <= 1000,
                0 <= speed <= 1_000_000,
                0 <= dtc <= 100,
        ;
    }
    tdiv64(vel * trig * speed * dtc, 1_000_000_000)
}

fn vert_step(vel: i64, speed: i64, dtc: i64) -> (q: i64)
    requires
        -FALL_LIMIT <= vel <= FALL_LIMIT,
        0 <= speed <= SPEED_LIMIT,
        0 <= dtc <= 100,
    ensures
        q == vert_step_spec(vel as int, speed as int, dtc as int),
        -10_000_000_000_000 <= q <= 10_000_000_000_000,
{
    proof {
        reveal(vert_step_spec);
    }
    proof {
        assert((-100_000_000_000 <= vel * speed <= 100_000_000_000 && -10_000_000_000_000 <= vel
            * speed * dtc <= 10_000_000_000_000) && (vel * speed) * dtc == vel * speed * dtc)
            by (nonlinear_arith)
            requires
                -100_000 <= vel <= 100_000,
                0 <= speed <= 1_000_000,
                0 <= dtc <= 100,
        ;
    }
    tdiv64(vel * speed * dtc, 1_000_000)
}

fn rot_step(rot: i64, sens: i64, dtc: i64) -> (q: i64)
    requires
        -ROT_LIMIT <= rot <= ROT_LIMIT,
        0 <= sens <= SENS_LIMIT,
        0 <= dtc <= 100,
    ensures
        q == rot_step_spec(rot as int, sens as int, dtc as int),
        -10_000_000_000_000 <= q <= 10_000_000_000_000,
{
    proof {
        reveal(rot_step_spec);
    }
    proof {
        assert((-100_000_000_000 <= rot * sens <= 100_000_000_000 && -10_000_000_000_000 <= rot
            * sens * dtc <= 10_000_000_000_000) && (rot * sens) * dtc == rot * sens * dtc)
            by (nonlinear_arith)
            requires
                -1_000_000 <= rot <= 1_000_000,
                0 <= sens <= 100_000,
                0 <= dtc <= 100,
        ;
    }
    tdiv64(rot * sens * dtc, UNIT)
}

fn dolly_amount(scroll: i64, speed: i64, sens: i64, dtc: i64) -> (q: i64)
    requires
        -SCROLL_LIMIT <= scroll <= SCROLL_LIMIT,
        0 <= speed <= SPEED_LIMIT,
        0 <= sens <= SENS_LIMIT,
        0 <= dtc <= 100,
    ensures
        q == dolly_amount_spec(scroll as int, speed as int, sens as int, dtc as int),
        -10_000_000_000 <= q <= 10_000_000_000,
{
    proof {
        reveal(dolly_amount_spec);
    }
    proof {
        assert(-1_000_000_000_000 <= scroll * speed <= 1_000_000_000_000) by (nonlinear_arith)
            requires
                -1_000_000 <= scroll <= 1_000_000,
                0 <= speed <= 1_000_000,
        ;
        crate::fixed::lemma_tdiv_shrinks(scroll as int * speed as int, UNIT as int, 1_000_000_000);
    }
    let s1 = tdiv64(scroll * speed, UNIT);
    proof {
        assert(-100_000_000_000_000 <= s1 * sens <= 100_000_000_000_000) by (nonlinear_arith)
            requires
                -1_000_000_000 <= s1 <= 1_000_000_000,
                0 <= sens <= 100_000,
        ;
        crate::fixed::lemma_tdiv_shrinks(s1 as int * sens as int, UNIT as int, 100_000_000_000);
    }
    let s2 = tdiv64(s1 * sens, UNIT);
    proof {
        assert(-10_000_000_000_000 <= s2 * dtc <= 10_000_000_000_000) by (nonlinear_arith)
            requires
                -100_000_000_000 <= s2 <= 100_000_000_000,
                0 <= dtc <= 100,
        ;
        crate::fixed::lemma_tdiv_shrinks(s2 as int * dtc as int, UNIT as int, 10_000_000_000);
    }
    let s3 = tdiv64(s2 * dtc, UNIT);
    s3
}

fn look_component(a: i64, b: i64) -> (q: i64)
    requires
        -UNIT <= a <= UNIT,
        -UNIT <= b <= UNIT,
    ensures
        q == look_component_spec(a as int, b as int),
        -UNIT <= q <= UNIT,
{
    proof {
        reveal(look_component_spec);
    }
    proof {
        assert(-1_000_000 <= a * b <= 1_000_000) by (nonlinear_arith)
            requires
                -1000 <= a <= 1000,
                -1000 <= b <= 1000,
        ;
        crate::fixed::lemma_tdiv_shrinks(a as int * b as int, UNIT as int, UNIT as int);
    }
    tdiv64(a * b, UNIT)
}

fn dolly_component(amount: i64, look: i64) -> (q: i64)
    requires
        -10_000_000_000 <= amount <= 10_000_000_000,
        -UNIT <= look <= UNIT,
    ensures
        q == look_component_spec(amount as int, look as int),
        -10_000_000_000 <= q <= 10_000_000_000,
{
    proof {
        reveal(look_component_spec);
    }
    proof {
        assert(-10_000_000_000_000 <= amount * look <= 10_000_000_000_000) by (nonlinear_arith)
            requires
                -10_000_000_000 <= amount <= 10_000_000_000,
                -1000 <= look <= 1000,
        ;
        crate::fixed::lemma_tdiv_shrinks(amount as int * look as int, UNIT as int, 10_000_000_000);
    }
    tdiv64(amount * look, UNIT)
}

fn jump_step(jump_vel: i64, press_up: bool, supported: bool) -> (r: i64)
    requires
        -FALL_LIMIT <= jump_vel <= JUMP_BOOST,
    ensures
        r == jump_vel_after(jump_vel as int, press_up, supported),
        -FALL_LIMIT <= r <= JUMP_BOOST,
{
    let jump_landed: i64 = if supported {
        0
    } else {
        jump_vel
    };
    let jump_boosted: i64 = if press_up && supported {
        jump_landed + JUMP_BOOST
    } else {
        jump_landed
    };
    if !(supported && !press_up) {
        if jump_boosted - GRAVITY_STEP >= -FALL_LIMIT {
            jump_boosted - GRAVITY_STEP
        } else {
            -FALL_LIMIT
        }
    } else {
        jump_boosted
    }
}

fn axis_steps(x: i64, d1: i64, d2: i64, d3: i64, d4: i64, neg_block: bool, pos_block: bool) -> (r:
    i64)
    requires
        -1_000_000_000 <= x <= 1_000_000_000,
        -200_000_000_000_000 <= d1 <= 200_000_000_000_000,
        -200_000_000_000_000 <= d2 <= 200_000_000_000_000,
        -200_000_000_000_000 <= d3 <= 200_000_000_000_000,
        -200_000_000_000_000 <= d4 <= 200_000_000_000_000,
    ensures
        r == guarded_add(
            guarded_add(
                guarded_add(guarded_add(x as int, d1 as int, neg_block, pos_block), d2 as int, neg_block, pos_block),
                d3 as int,
                neg_block,
                pos_block,
            ),
            d4 as int,
            neg_block,
            pos_block,
        ),
        -2_000_000_000_000_000 <= r <= 2_000_000_000_000_000,
{
    let r1 = apply_guarded(x, d1, neg_block, pos_block);
    let r2 = apply_guarded(r1, d2, neg_block, pos_block);
    let r3 = apply_guarded(r2, d3, neg_block, pos_block);
    apply_guarded(r3, d4, neg_block, pos_block)
}

impl CameraController {
    /// The movement stage: velocity bookkeeping and the collision-masked
    /// position integration. The position may leave the world by up to the
    /// frame's step; `update_camera` clamps it back after the dolly.
    #[verifier::spinoff_prover]
    #[verifier::rlimit(100)]
    fn movement(&mut self, collision: &CollisionDetection, camera: &mut Camera, trig: &TrigSample, dtc: i64)
        requires
            old(self).wf(),
            old(camera).wf(),
            trig.wf(),
            0 <= dtc <= 100,
        ensures
            (*final(self), *final(camera)) == movement_spec(
                *old(self),
                *old(camera),
                *trig,
                *collision,
                dtc as int,
            ),
            final(self).wf(),
            final(self).speed == old(self).speed,
            final(self).sensitivity == old(self).sensitivity,
            final(self).scroll == old(self).scroll,
            final(self).rotate_horizontal == old(self).rotate_horizontal,
            final(self).rotate_vertical == old(self).rotate_vertical,
            final(camera).yaw == old(camera).yaw,
            final(camera).pitch == old(camera).pitch,
            -2_000_000_000_000_000 <= final(camera).position.x <= 2_000_000_000_000_000,
            -2_000_000_000_000_000 <= final(camera).position.y <= 2_000_000_000_000_000,
            -2_000_000_000_000_000 <= final(camera).position.z <= 2_000_000_000_000_000,
    {
        let jump_after = jump_step(self.jump_vel, self.press_up, collision.up);
        // Per-policy effective velocities (replenished by held keys).
        let eff_f = effective(self.policy, self.forward_vel, self.press_forward);
        let eff_b = effective(self.policy, self.backward_vel, self.press_backward);
        let eff_r = effective(self.policy, self.right_vel, self.press_right);
        let eff_l = effective(self.policy, self.left_vel, self.press_left);
        // Horizontal movement, component-wise behind the collision flags.
        let fdx = dir_step(eff_f, trig.yaw_cos, self.speed, dtc);
        let fdz = dir_step(eff_f, trig.yaw_sin, self.speed, dtc);
        let bdx = dir_step(eff_b, trig.yaw_cos, self.speed, dtc);
        let bdz = dir_step(eff_b, trig.yaw_sin, self.speed, dtc);
        let rdx = dir_step(eff_r, trig.yaw_sin, self.speed, dtc);
        let rdz = dir_step(eff_r, trig.yaw_cos, self.speed, dtc);
        let ldx = dir_step(eff_l, trig.yaw_sin, self.speed, dtc);
        let ldz = dir_step(eff_l, trig.yaw_cos, self.speed, dtc);
        let x = axis_steps(camera.position.x, fdx, -bdx, -rdx, ldx, collision.left, collision.right);
        let z = axis_steps(
            camera.position.z,
            fdz,
            -bdz,
            rdz,
            -ldz,
            collision.forward,
            collision.backward,
        );
        // The vertical step.
        let y: i64 = match self.policy {
            MovementPolicy::Inertial => camera.position.y + vert_step(jump_after, self.speed, dtc),
            MovementPolicy::Direct => {
                let updown: i64 = (if self.press_up {
                    UNIT
                } else {
                    0
                }) - (if self.press_down {
                    UNIT
                } else {
                    0
                });
                camera.position.y + vert_step(updown, self.speed, dtc)
            },
        };
        proof {
            assert(x == x_after_movement(
                *old(self),
                old(camera).position.x as int,
                *trig,
                *collision,
                dtc as int,
            ));
            assert(z == z_after_movement(
                *old(self),
                old(camera).position.z as int,
                *trig,
                *collision,
                dtc as int,
            ));
            assert(y == y_after_movement(
                *old(self),
                old(camera).position.y as int,
                *collision,
                dtc as int,
            ));
        }
        camera.position.x = x;
        camera.position.y = y;
        camera.position.z = z;
        self.advance_velocities(collision.up);
    }

    /// The velocity bookkeeping of the movement stage.
    fn advance_velocities(&mut self, supported: bool)
        requires
            old(self).wf(),
        ensures
            *final(self) == velocities_after(*old(self), supported),
            final(self).wf(),
    {
        if matches!(self.policy, MovementPolicy::Inertial) {
            let fv = bump(self.forward_vel, self.press_forward);
            let bv = bump(self.backward_vel, self.press_backward);
            let rv = bump(self.right_vel, self.press_right);
            let lv = bump(self.left_vel, self.press_left);
            self.forward_vel = decay(fv);
            self.backward_vel = decay(bv);
            self.right_vel = decay(rv);
            self.left_vel = decay(lv);
            self.jump_vel = jump_step(self.jump_vel, self.press_up, supported);
            self.on_floor = supported && !self.press_up;
        }
    }

    /// One frame: integrate movement against the collision flags, dolly by
    /// the consumed scroll, rotate by the consumed mouse deltas, clamp
    /// pitch, wrap yaw, and clamp the position back into the world. The
    /// trig samples must be taken from `camera`'s angles before the call.
    #[verifier::spinoff_prover]
    #[verifier::rlimit(100)]
    pub fn update_camera(
        &mut self,
        camera: &mut Camera,
        dt_ms: u64,
        trig: &TrigSample,
        collision: CollisionDetection,
    )
        requires
            old(self).wf(),
            old(camera).wf(),
            trig.wf(),
        ensures
            (*final(self), *final(camera)) == update_spec(
                *old(self),
                *old(camera),
                *trig,
                collision,
                dt_ms,
            ),
            final(self).wf(),
            final(camera).wf(),
    {
        let dtc: i64 = if dt_ms > DT_CLAMP_MS {
            100
        } else {
            dt_ms as i64
        };
        let scroll0 = self.scroll;
        let rot_h0 = self.rotate_horizontal;
        let rot_v0 = self.rotate_vertical;
        self.movement(&collision, camera, trig, dtc);
        // Dolly.
        let amount = dolly_amount(scroll0, self.speed, self.sensitivity, dtc);
        let look_x = look_component(trig.pitch_cos, trig.yaw_cos);
        let look_z = look_component(trig.pitch_cos, trig.yaw_sin);
        let ddx = dolly_component(amount, look_x);
        let ddy = dolly_component(amount, trig.pitch_sin);
        let ddz = dolly_component(amount, look_z);
        // Rotation.
        let yaw_delta = rot_step(rot_h0, self.sensitivity, dtc);
        let pitch_delta = rot_step(-rot_v0, self.sensitivity, dtc);
        camera.position.x = clamp64(camera.position.x + ddx, -POS_LIMIT, POS_LIMIT);
        camera.position.y = clamp64(camera.position.y + ddy, -POS_LIMIT, POS_LIMIT);
        camera.position.z = clamp64(camera.position.z + ddz, -POS_LIMIT, POS_LIMIT);
        camera.yaw = wrap_angle(camera.yaw + yaw_delta);
        camera.pitch = clamp64(camera.pitch + pitch_delta, -PITCH_LIMIT, PITCH_LIMIT);
        // Consume the accumulators.
        self.rotate_horizontal = 0;
        self.rotate_vertical = 0;
        self.scroll = 0;
    }
}

/// Pitch clamp law: whatever rotation delta a frame accumulates, the
/// updated pitch stays within the clamp range; a delta that would overshoot
/// lands exactly on the boundary, and one that stays inside is applied
/// unchanged.
pub proof fn lemma_pitch_clamped(
    c: CameraController,
    cam: Camera,
    trig: TrigSample,
    col: CollisionDetection,
    dt_ms: u64,
)
    ensures
        ({
            let pitch2 = update_spec(c, cam, trig, col, dt_ms).1.pitch;
            let raw = cam.pitch + rot_step_spec(
                -(c.rotate_vertical as int),
                c.sensitivity as int,
                dt_clamped(dt_ms),
            );
            &&& -PITCH_LIMIT <= pitch2 <= PITCH_LIMIT
            &&& raw > PITCH_LIMIT ==> pitch2 == PITCH_LIMIT
            &&& raw < -PITCH_LIMIT ==> pitch2 == -PITCH_LIMIT
            &&& -PITCH_LIMIT <= raw <= PITCH_LIMIT ==> pitch2 == raw
        }),
{
}

/// Yaw wrap law: the updated yaw lies in the principal range and is
/// congruent, modulo a full turn, to the old yaw plus the frame's rotation
/// delta.
pub proof fn lemma_yaw_wrapped(
    c: CameraController,
    cam: Camera,
    trig: TrigSample,
    col: CollisionDetection,
    dt_ms: u64,
)
    ensures
        ({
            let yaw2 = update_spec(c, cam, trig, col, dt_ms).1.yaw;
            let raw = cam.yaw + rot_step_spec(
                c.rotate_horizontal as int,
                c.sensitivity as int,
                dt_clamped(dt_ms),
            );
            &&& -HALF_TURN < yaw2 <= HALF_TURN
            &&& (raw - yaw2) % (crate::fixed::FULL_TURN as int) == 0
        }),
{
    let raw = cam.yaw + rot_step_spec(
        c.rotate_horizontal as int,
        c.sensitivity as int,
        dt_clamped(dt_ms),
    );
    crate::fixed::lemma_wrapped_congruent(raw);
}

/// Zero-time idempotence law: an update over zero elapsed time leaves the
/// camera pose (position, yaw and pitch) exactly as it was.
pub proof fn lemma_update_zero_dt(
    c: CameraController,
    cam: Camera,
    trig: TrigSample,
    col: CollisionDetection,
)
    requires
        c.wf(),
        cam.wf(),
        trig.wf(),
    ensures
        update_spec(c, cam, trig, col, 0).1 == cam,
{
    reveal(dir_step_spec);
    reveal(vert_step_spec);
    reveal(rot_step_spec);
    reveal(dolly_amount_spec);
    reveal(look_component_spec);
    crate::fixed::lemma_tdiv_zero(1_000_000_000);
    crate::fixed::lemma_tdiv_zero(1_000_000);
    crate::fixed::lemma_tdiv_zero(UNIT as int);
    crate::fixed::lemma_wrapped_identity(cam.yaw as int);
    assert(dt_clamped(0) == 0);
    assert(rot_step_spec(c.rotate_horizontal as int, c.sensitivity as int, 0) == 0);
    assert(rot_step_spec(-(c.rotate_vertical as int), c.sensitivity as int, 0) == 0);
    assert(dolly_amount_spec(c.scroll as int, c.speed as int, c.sensitivity as int, 0) == 0);
    assert(look_component_spec(0, look_component_spec(trig.pitch_cos as int, trig.yaw_cos as int))
        == 0);
    assert(look_component_spec(0, trig.pitch_sin as int) == 0);
    assert(x_after_movement(c, cam.position.x as int, trig, col, 0) == cam.position.x);
    assert(z_after_movement(c, cam.position.z as int, trig, col, 0) == cam.position.z);
    assert(y_after_movement(c, cam.position.y as int, col, 0) == cam.position.y);
    assert(update_spec(c, cam, trig, col, 0).1.position == cam.position);
    assert(update_spec(c, cam, trig, col, 0).1.yaw == cam.yaw);
    assert(update_spec(c, cam, trig, col, 0).1.pitch == cam.pitch);
}

fn bump(v: i64, pressed: bool) -> (r: i64)
    requires
        0 <= v <= VEL_MAX,
    ensures
        r == bumped(v as int, pressed),
        0 <= r <= VEL_MAX,
{
    if pressed && v < VEL_CAP {
        v + VEL_STEP
    } else {
        v
    }
}

fn decay(v: i64) -> (r: i64)
    requires
        0 <= v <= VEL_MAX,
    ensures
        r == decayed(v as int),
        0 <= r <= VEL_MAX,
{
    if v > 0 {
        if v - VEL_DECAY >= 0 {
            v - VEL_DECAY
        } else {
            0
        }
    } else {
        v
    }
}

fn effective(policy: MovementPolicy, v: i64, pressed: bool) -> (r: i64)
    requires
        0 <= v <= VEL_MAX,
    ensures
        r == effective_vel(policy, v as int, pressed),
        0 <= r <= VEL_MAX,
{
    match policy {
        MovementPolicy::Direct => if pressed {
            UNIT
        } else {
            0
        },
        MovementPolicy::Inertial => bump(v, pressed),
    }
}

fn apply_guarded(x: i64, d: i64, neg_block: bool, pos_block: bool) -> (r: i64)
    requires
        -1_000_000_000_000_000_000 <= x <= 1_000_000_000_000_000_000,
        -200_000_000_000_000 <= d <= 200_000_000_000_000,
    ensures
        r == guarded_add(x as int, d as int, neg_block, pos_block),
        x - 200_000_000_000_000 <= r <= x + 200_000_000_000_000,
{
    if (d < 0 && !neg_block) || (d > 0 && !pos_block) {
        x + d
    } else {
        x
    }
}

} // verus!
