use tilewalk::camera::Camera;
use tilewalk::collision::{CollisionDetection, Instance};
use tilewalk::collision::Margins;
use tilewalk::shapes::{Cube, Floor, Orientation, Slope};

fn camera_at(x: i64, y: i64, z: i64) -> Camera {
    Camera::new(x, y, z, 0, 0)
}

#[test]
fn detect_all_clear_far_away() {
    let cam = camera_at(0, 0, 0);
    let cube = Cube::new(1000, 1000, 1000);
    let instances = vec![
        Instance::new(10_000, 0, 0),
        Instance::new(0, 10_000, 0),
        Instance::new(-10_000, 0, -10_000),
    ];
    let mut col = CollisionDetection::new();
    col.detect(&cam, &instances, &cube);
    assert!(!col.left);
    assert!(!col.right);
    assert!(!col.forward);
    assert!(!col.backward);
    assert!(!col.up);
    assert!(!col.down);
}

#[test]
fn detect_left_probe_band() {
    // Camera just to the right of a block's +x face: x in (ix+w, ix+w+reach).
    let cam = camera_at(1200, 0, 0);
    let cube = Cube::new(1000, 1000, 1000);
    let instances = vec![Instance::new(0, 0, 0)];
    let mut col = CollisionDetection::new();
    col.detect(&cam, &instances, &cube);
    assert!(col.left);
    assert!(!col.right);
}

#[test]
fn detect_union_not_cleared_by_later_instance() {
    // A second, non-overlapping instance must not clear a flag the first set.
    let cam = camera_at(1200, 0, 0);
    let cube = Cube::new(1000, 1000, 1000);
    let instances = vec![Instance::new(0, 0, 0), Instance::new(50_000, 0, 0)];
    let mut col = CollisionDetection::new();
    col.detect(&cam, &instances, &cube);
    assert!(col.left);
    // Same, with the matching instance last.
    let instances = vec![Instance::new(50_000, 0, 0), Instance::new(0, 0, 0)];
    let mut col = CollisionDetection::new();
    col.detect(&cam, &instances, &cube);
    assert!(col.left);
}

#[test]
fn detect_band_boundaries_are_strict() {
    let cube = Cube::new(1000, 1000, 1000);
    let instances = vec![Instance::new(0, 0, 0)];
    // Exactly on the face: not flagged (strict inequality).
    let mut col = CollisionDetection::new();
    col.detect(&camera_at(1000, 0, 0), &instances, &cube);
    assert!(!col.left);
    // One step inside the band: flagged.
    let mut col = CollisionDetection::new();
    col.detect(&camera_at(1001, 0, 0), &instances, &cube);
    assert!(col.left);
    // Exactly at the outer edge of the band: not flagged.
    let mut col = CollisionDetection::new();
    col.detect(&camera_at(1500, 0, 0), &instances, &cube);
    assert!(!col.left);
}

#[test]
fn detect_up_and_down_bands() {
    let cube = Cube::new(1000, 1000, 1000);
    let instances = vec![Instance::new(0, 0, 0)];
    // Standing band above the top face: (h+head_lo, h+head_hi) = (1500, 2000).
    let mut col = CollisionDetection::new();
    col.detect(&camera_at(0, 1700, 0), &instances, &cube);
    assert!(col.up);
    assert!(!col.down);
    // Band below the bottom face: (-1500, -1000).
    let mut col = CollisionDetection::new();
    col.detect(&camera_at(0, -1200, 0), &instances, &cube);
    assert!(col.down);
    assert!(!col.up);
}

#[test]
fn floor_detect_band() {
    let floor = Floor::new(1000, 1000, 1000);
    let instances = vec![Instance::new(0, 2000, 0)];
    // Support band is (iy - h/2, iy) = (1500, 2000).
    let mut col = CollisionDetection::new();
    col.floor_detect(&camera_at(0, 1700, 0), &instances, &floor);
    assert!(col.up);
    let mut col = CollisionDetection::new();
    col.floor_detect(&camera_at(0, 1400, 0), &instances, &floor);
    assert!(!col.up);
    let mut col = CollisionDetection::new();
    col.floor_detect(&camera_at(0, 2100, 0), &instances, &floor);
    assert!(!col.up);
}

#[test]
fn slope_detect_snaps_to_ramp_surface() {
    // Backward ramp at z = 5000 with unit half-extents: at the instance's own
    // z the ramp surface sits one unit above its base.
    let slope = Slope::new(1000, 1000, 1000, Orientation::Backward).unwrap();
    let instances = vec![Instance::new(0, 0, 5000)];
    let mut cam = camera_at(0, 1200, 5000);
    let mut col = CollisionDetection::new();
    col.slope_detect(&mut cam, &instances, &slope);
    // ramp = 0 + (1000 - (5000-5000)*1000/1000) = 1000; contact band is
    // (600, 1400); the snap adds the 300 lift.
    assert!(col.up);
    assert_eq!(cam.position.y, 1300);

    // Further down the ramp (z = 5500): surface is 500 lower.
    let mut cam = camera_at(0, 700, 5500);
    let mut col = CollisionDetection::new();
    col.slope_detect(&mut cam, &instances, &slope);
    assert!(col.up);
    assert_eq!(cam.position.y, 800);
}

#[test]
fn slope_detect_ignores_camera_outside_band() {
    let slope = Slope::new(1000, 1000, 1000, Orientation::Backward).unwrap();
    let instances = vec![Instance::new(0, 0, 5000)];
    // Above the contact band: no snap, no support.
    let mut cam = camera_at(0, 2000, 5000);
    let mut col = CollisionDetection::new();
    col.slope_detect(&mut cam, &instances, &slope);
    assert!(!col.up);
    assert_eq!(cam.position.y, 2000);
}

#[test]
fn slope_detect_only_for_backward_orientation() {
    let slope = Slope::new(1000, 1000, 1000, Orientation::Forward).unwrap();
    let instances = vec![Instance::new(0, 0, 5000)];
    let mut cam = camera_at(0, 1200, 5000);
    let mut col = CollisionDetection::new();
    col.up = true;
    col.slope_detect(&mut cam, &instances, &slope);
    // Nothing happens at all: the flag is not even cleared.
    assert!(col.up);
    assert_eq!(cam.position.y, 1200);
}

#[test]
fn custom_margins_move_the_probe_boundary() {
    let cube = Cube::new(1000, 1000, 1000);
    let instances = vec![Instance::new(0, 0, 0)];
    // Double the reach: the left band becomes (1000, 2000).
    let margins = Margins {
        reach: 1000,
        lateral: 300,
        vertical: 700,
        head_lo: 500,
        head_hi: 1000,
        slope_lateral: 200,
        slope_band: 400,
        slope_lift: 300,
    };
    let mut col = CollisionDetection::with_margins(margins);
    col.detect(&camera_at(1800, 0, 0), &instances, &cube);
    assert!(col.left);
    // The same position is out of reach of the standard margins.
    let mut col = CollisionDetection::new();
    col.detect(&camera_at(1800, 0, 0), &instances, &cube);
    assert!(!col.left);
}
