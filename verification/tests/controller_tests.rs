use tilewalk::camera::{Camera, PITCH_LIMIT};
use tilewalk::collision::{CollisionDetection, Instance};
use tilewalk::controller::{
    CameraController, InputEvent, Key, MovementPolicy, ScrollAmount, TrigSample,
};
use tilewalk::shapes::Cube;

// Level view along +x: yaw = 0, pitch = 0.
fn trig_plus_x() -> TrigSample {
    TrigSample::new(1000, 0, 1000, 0)
}

// Level view along +x after a -90 degree yaw: cos = 0, sin = -1.
fn trig_minus_90() -> TrigSample {
    TrigSample::new(0, -1000, 1000, 0)
}

fn clear() -> CollisionDetection {
    CollisionDetection::new()
}

#[test]
fn update_zero_dt_keeps_pose() {
    let mut ctrl = CameraController::new(4000, 400);
    ctrl.process_events(&InputEvent::Key(Key::Forward, true));
    ctrl.process_events(&InputEvent::MouseButton(true));
    ctrl.process_mouse(500_000, -200_000);
    ctrl.process_scroll(&ScrollAmount::Pixels(100_000));
    let mut cam = Camera::new(5000, 1000, 6000, -1_570_796, 300_000);
    let before = cam;
    ctrl.update_camera(&mut cam, 0, &trig_plus_x(), clear());
    assert_eq!(cam.position.x, before.position.x);
    assert_eq!(cam.position.y, before.position.y);
    assert_eq!(cam.position.z, before.position.z);
    assert_eq!(cam.yaw, before.yaw);
    assert_eq!(cam.pitch, before.pitch);
}

#[test]
fn pitch_clamps_exactly_at_the_boundary() {
    let mut ctrl = CameraController::new(4000, 400);
    ctrl.process_events(&InputEvent::MouseButton(true));
    // A huge upward mouse sweep: the raw delta far exceeds a quarter turn.
    ctrl.process_mouse(0, -1_000_000);
    let mut cam = Camera::new(0, 0, 0, 0, 0);
    ctrl.update_camera(&mut cam, 100, &trig_plus_x(), clear());
    assert_eq!(cam.pitch, PITCH_LIMIT);
    // And the other way.
    ctrl.process_mouse(0, 1_000_000);
    ctrl.update_camera(&mut cam, 100, &trig_plus_x(), clear());
    assert_eq!(cam.pitch, -PITCH_LIMIT);
}

#[test]
fn yaw_wraps_into_principal_range() {
    let mut ctrl = CameraController::new(4000, 400);
    ctrl.process_events(&InputEvent::MouseButton(true));
    ctrl.process_mouse(1_000_000, 0);
    let mut cam = Camera::new(0, 0, 0, 0, 0);
    ctrl.update_camera(&mut cam, 100, &trig_plus_x(), clear());
    // Raw yaw delta: 1_000_000 * 400 * 100 / 1000 = 40_000_000 micro-radians;
    // modulo a full turn (6_283_186) that is 2_300_884, inside the range.
    assert_eq!(cam.yaw, 2_300_884);
    assert_eq!((40_000_000 - cam.yaw) % 6_283_186, 0);
}

#[test]
fn direct_policy_moves_instantly() {
    let mut ctrl = CameraController::with_policy(1000, 400, MovementPolicy::Direct);
    ctrl.process_events(&InputEvent::Key(Key::Forward, true));
    let mut cam = Camera::new(0, 0, 0, 0, 0);
    ctrl.update_camera(&mut cam, 100, &trig_plus_x(), clear());
    // 1.0 (intent) * 1.0 (speed) * 0.1 s = 0.1 world units.
    assert_eq!(cam.position.x, 100);
    assert_eq!(cam.position.z, 0);
    assert_eq!(cam.position.y, 0);
    assert_eq!(ctrl.forward_vel, 0);
}

#[test]
fn inertial_velocity_accumulates_and_decays() {
    let mut ctrl = CameraController::new(1000, 400);
    ctrl.process_events(&InputEvent::Key(Key::Forward, true));
    let mut cam = Camera::new(0, 0, 0, 0, 0);
    ctrl.update_camera(&mut cam, 100, &trig_plus_x(), clear());
    // First frame: velocity 0 + 500, step 0.5 * 1.0 * 0.1 s = 50 milli-units.
    assert_eq!(cam.position.x, 50);
    // After the frame the velocity has decayed by 100.
    assert_eq!(ctrl.forward_vel, 400);
    // Airborne with no support: gravity pulled the jump velocity to -50,
    // so the camera sank by 0.05 * 1.0 * 0.1 s = 5 milli-units.
    assert_eq!(ctrl.jump_vel, -50);
    assert_eq!(cam.position.y, -5);
    // Releasing the key lets the velocity decay without replenishment.
    ctrl.process_events(&InputEvent::Key(Key::Forward, false));
    ctrl.update_camera(&mut cam, 100, &trig_plus_x(), clear());
    assert_eq!(ctrl.forward_vel, 300);
}

#[test]
fn jump_starts_only_from_support() {
    let mut ctrl = CameraController::new(1000, 400);
    ctrl.process_events(&InputEvent::Key(Key::Jump, true));
    let mut cam = Camera::new(0, 0, 0, 0, 0);
    // No support: the press does nothing but gravity.
    ctrl.update_camera(&mut cam, 100, &trig_plus_x(), clear());
    assert_eq!(ctrl.jump_vel, -50);
    // Supported: landing zeroes the fall, the jump boosts, gravity takes one
    // step off immediately.
    let mut supported = clear();
    supported.up = true;
    ctrl.update_camera(&mut cam, 100, &trig_plus_x(), supported);
    assert_eq!(ctrl.jump_vel, 2000 - 50);
    assert!(!ctrl.on_floor);
}

#[test]
fn scroll_dolly_moves_along_look_vector() {
    let mut ctrl = CameraController::with_policy(1000, 1000, MovementPolicy::Inertial);
    ctrl.process_scroll(&ScrollAmount::Pixels(-100_000));
    assert_eq!(ctrl.scroll, 100_000);
    let mut cam = Camera::new(0, 0, 0, 0, 0);
    ctrl.update_camera(&mut cam, 100, &trig_plus_x(), clear());
    // amount = (((100_000 * 1000)/1000 * 1000)/1000 * 100)/1000 = 10_000;
    // the look vector is +x, so the dolly moves 10 world units forward
    // (gravity separately sinks the camera a little).
    assert_eq!(cam.position.x, 10_000);
    assert_eq!(ctrl.scroll, 0);
}

#[test]
fn scroll_lines_convert_to_pixels() {
    let mut ctrl = CameraController::new(1000, 400);
    // Two lines are worth 200 pixels.
    ctrl.process_scroll(&ScrollAmount::Lines(2000));
    assert_eq!(ctrl.scroll, -200_000);
}

#[test]
fn mouse_motion_ignored_unless_captured() {
    let mut ctrl = CameraController::new(1000, 400);
    ctrl.process_mouse(500, 500);
    let mut cam = Camera::new(0, 0, 0, 0, 0);
    ctrl.update_camera(&mut cam, 100, &trig_plus_x(), clear());
    assert_eq!(cam.yaw, 0);
    assert_eq!(cam.pitch, 0);
}

#[test]
fn blocked_by_cube_when_strafing_right() {
    // Camera at the origin looking along -90 degrees yaw; a solid cube with
    // unit half-extents at x = 2.0. Strafing right moves toward +x; the
    // right probe band is (500, 1000), and the camera must never cross the
    // block's face at x = 1000.
    let cube = Cube::new(1000, 1000, 1000);
    let instances = vec![Instance::new(2000, 0, 0)];
    // The direct policy keeps the scenario planar: no gravity, so the camera
    // stays level with the block while strafing.
    let mut ctrl = CameraController::with_policy(1000, 400, MovementPolicy::Direct);
    ctrl.process_events(&InputEvent::Key(Key::Right, true));
    let mut cam = Camera::new(0, 0, 0, -1_570_796, 0);
    let trig = trig_minus_90();
    let mut engaged = false;
    for _ in 0..125 {
        let mut col = CollisionDetection::new();
        col.detect(&cam, &instances, &cube);
        if col.right {
            engaged = true;
        }
        ctrl.update_camera(&mut cam, 16, &trig, col);
        assert!(cam.position.x < 1000);
    }
    assert!(engaged);
    // Two simulated seconds at walking speed would cover two world units
    // unobstructed; the camera stopped in the probe band instead.
    assert!(cam.position.x > 500);
}

#[test]
fn direct_policy_vertical_intents() {
    let mut ctrl = CameraController::with_policy(1000, 400, MovementPolicy::Direct);
    ctrl.process_events(&InputEvent::Key(Key::Descend, true));
    let mut cam = Camera::new(0, 0, 0, 0, 0);
    ctrl.update_camera(&mut cam, 100, &trig_plus_x(), clear());
    assert_eq!(cam.position.y, -100);
    // Holding both vertical intents cancels out.
    ctrl.process_events(&InputEvent::Key(Key::Jump, true));
    ctrl.update_camera(&mut cam, 100, &trig_plus_x(), clear());
    assert_eq!(cam.position.y, -100);
}

#[test]
fn elapsed_time_is_clamped_before_integration() {
    // A stalled frame integrates as at most a tenth of a second: a huge dt
    // must land the camera exactly where the clamped dt does.
    let mut a = CameraController::with_policy(1000, 400, MovementPolicy::Direct);
    let mut b = CameraController::with_policy(1000, 400, MovementPolicy::Direct);
    a.process_events(&InputEvent::Key(Key::Forward, true));
    b.process_events(&InputEvent::Key(Key::Forward, true));
    let mut cam_a = Camera::new(0, 0, 0, 0, 0);
    let mut cam_b = Camera::new(0, 0, 0, 0, 0);
    a.update_camera(&mut cam_a, 100, &trig_plus_x(), clear());
    b.update_camera(&mut cam_b, 60_000, &trig_plus_x(), clear());
    assert_eq!(cam_a, cam_b);
}
