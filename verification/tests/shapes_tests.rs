use tilewalk::camera::{Camera, Projection, PITCH_LIMIT};
use tilewalk::fixed::{clamp64, fdiv64, tdiv64, wrap_angle, HALF_TURN};
use tilewalk::shapes::{Cube, Floor, GeometryError, Orientation, Slope};

#[test]
fn slope_rejects_degenerate_depth() {
    assert_eq!(
        Slope::new(1000, 1000, 0, Orientation::Backward).unwrap_err(),
        GeometryError::DegenerateDepth
    );
    assert_eq!(
        Slope::new(1000, 1000, -5, Orientation::Backward).unwrap_err(),
        GeometryError::DegenerateDepth
    );
}

#[test]
fn slope_rejects_out_of_range_extents() {
    assert_eq!(
        Slope::new(-1, 1000, 1000, Orientation::Backward).unwrap_err(),
        GeometryError::ExtentOutOfRange
    );
    assert_eq!(
        Slope::new(1000, 2_000_000, 1000, Orientation::Left).unwrap_err(),
        GeometryError::ExtentOutOfRange
    );
}

#[test]
fn slope_keeps_its_fields() {
    let s = Slope::new(2000, 1000, 2000, Orientation::Backward).unwrap();
    assert_eq!(s.width, 2000);
    assert_eq!(s.height, 1000);
    assert_eq!(s.depth, 2000);
    assert_eq!(s.orientation, Orientation::Backward);
}

#[test]
fn cube_and_floor_keep_their_fields() {
    let c = Cube::new(2000, 1000, 2000);
    assert_eq!((c.width, c.height, c.depth), (2000, 1000, 2000));
    let f = Floor::new(2000, 1000, 2000);
    assert_eq!((f.width, f.height, f.depth), (2000, 1000, 2000));
}

#[test]
fn camera_new_normalizes_the_pose() {
    let c = Camera::new(5000, 1000, 6000, 4_000_000, 2_000_000);
    // 4_000_000 micro-radians wraps below +pi by one full turn.
    assert_eq!(c.yaw, 4_000_000 - 6_283_186);
    assert_eq!(c.pitch, PITCH_LIMIT);
    assert_eq!(c.position.x, 5000);
    // Positions saturate at the world edge.
    let far = Camera::new(2_000_000_000, 0, 0, 0, 0);
    assert_eq!(far.position.x, 1_000_000_000);
}

#[test]
fn projection_resize_updates_viewport_only() {
    let mut p = Projection::new(800, 600, 785_398, 100, 100_000);
    p.resize(1024, 768);
    assert_eq!(p.width, 1024);
    assert_eq!(p.height, 768);
    assert_eq!(p.fovy, 785_398);
    assert_eq!(p.znear, 100);
    assert_eq!(p.zfar, 100_000);
}

#[test]
fn wrap_angle_principal_range() {
    assert_eq!(wrap_angle(0), 0);
    assert_eq!(wrap_angle(-100), -100);
    assert_eq!(wrap_angle(HALF_TURN), HALF_TURN);
    // Just past +pi wraps to just past -pi.
    assert_eq!(wrap_angle(HALF_TURN + 1), 1 - HALF_TURN);
    // Exactly -pi wraps to +pi: the range is half-open.
    assert_eq!(wrap_angle(-HALF_TURN), HALF_TURN);
    assert_eq!(wrap_angle(2 * HALF_TURN), 0);
    assert_eq!(wrap_angle(7_000_000), 7_000_000 - 6_283_186);
    assert_eq!(wrap_angle(-7_000_000), 6_283_186 - 7_000_000);
}

#[test]
fn division_helpers_round_as_documented() {
    // Truncating division rounds toward zero.
    assert_eq!(tdiv64(7, 2), 3);
    assert_eq!(tdiv64(-7, 2), -3);
    // Floor division rounds toward negative infinity.
    assert_eq!(fdiv64(7, 2), 3);
    assert_eq!(fdiv64(-7, 2), -4);
    assert_eq!(fdiv64(-8, 2), -4);
    // Clamping.
    assert_eq!(clamp64(5, 0, 10), 5);
    assert_eq!(clamp64(-5, 0, 10), 0);
    assert_eq!(clamp64(15, 0, 10), 10);
}
