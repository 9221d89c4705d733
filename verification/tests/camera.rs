use fluffy_fiesta::constants::UNIT;
use fluffy_fiesta::geom::Vec2i;
use fluffy_fiesta::world_camera::WorldCamera;

#[test]
fn small_steps_move_a_fraction_toward_the_clamped_target() {
    let mut cam = WorldCamera::new(3200 * UNIT, 1200 * UNIT);
    // Centering on (600, 300) px wants the camera at (200, 0) px.
    cam.follow_target(Vec2i::new(600 * UNIT, 300 * UNIT), 10);
    // 10 ms at smoothing 5 covers 50 thousandths of the distance.
    assert_eq!(cam.position, Vec2i::new(10 * UNIT, 0));
    assert_eq!(cam.target_pos, Vec2i::new(600 * UNIT, 300 * UNIT));
}

#[test]
fn a_saturated_step_lands_exactly_on_the_clamped_target() {
    let mut cam = WorldCamera::new(3200 * UNIT, 1200 * UNIT);
    // 200 ms at smoothing 5 saturates the factor at one.
    cam.follow_target(Vec2i::new(600 * UNIT, 300 * UNIT), 200);
    assert_eq!(cam.position, Vec2i::new(200 * UNIT, 0));
    // A longer step still lands exactly there, never past.
    let mut cam2 = WorldCamera::new(3200 * UNIT, 1200 * UNIT);
    cam2.follow_target(Vec2i::new(600 * UNIT, 300 * UNIT), 100_000);
    assert_eq!(cam2.position, Vec2i::new(200 * UNIT, 0));
}

#[test]
fn targets_past_the_right_edge_clamp_to_the_map() {
    let mut cam = WorldCamera::new(3200 * UNIT, 1200 * UNIT);
    // Centering on x = 5000 px wants 4600 px, but the map allows 2400 px.
    cam.follow_target(Vec2i::new(5000 * UNIT, 300 * UNIT), 100_000);
    assert_eq!(cam.position.x, 2400 * UNIT);
    // From rest, a small step moves toward it and stops short.
    let mut cam2 = WorldCamera::new(3200 * UNIT, 1200 * UNIT);
    cam2.follow_target(Vec2i::new(5000 * UNIT, 300 * UNIT), 10);
    assert_eq!(cam2.position.x, 120 * UNIT);
    assert!(cam2.position.x < 2400 * UNIT);
}

#[test]
fn targets_past_the_left_edge_clamp_to_zero() {
    let mut cam = WorldCamera::new(3200 * UNIT, 1200 * UNIT);
    cam.position = Vec2i::new(500 * UNIT, 0);
    cam.follow_target(Vec2i::new(0, 300 * UNIT), 100_000);
    assert_eq!(cam.position.x, 0);
}

#[test]
fn the_vertical_clamp_only_bounds_from_above() {
    // A map shorter than the screen: the upper bound is negative.
    let mut cam = WorldCamera::new(3200 * UNIT, 400 * UNIT);
    cam.follow_target(Vec2i::new(600 * UNIT, 1000 * UNIT), 100_000);
    assert_eq!(cam.position.y, -200 * UNIT);
    // But a target far above is followed without any lower bound.
    let mut cam2 = WorldCamera::new(3200 * UNIT, 400 * UNIT);
    cam2.follow_target(Vec2i::new(600 * UNIT, -1000 * UNIT), 100_000);
    assert_eq!(cam2.position.y, -1300 * UNIT);
}

#[test]
fn zero_time_steps_leave_the_camera_in_place() {
    let mut cam = WorldCamera::new(3200 * UNIT, 1200 * UNIT);
    cam.follow_target(Vec2i::new(600 * UNIT, 300 * UNIT), 0);
    assert_eq!(cam.position, Vec2i::new(0, 0));
}

#[test]
fn the_camera_center_sits_half_a_screen_in() {
    let mut cam = WorldCamera::new(3200 * UNIT, 1200 * UNIT);
    cam.position = Vec2i::new(100 * UNIT, 50 * UNIT);
    let c = cam.camera_center();
    assert_eq!(c, Vec2i::new(500 * UNIT, 350 * UNIT));
}
