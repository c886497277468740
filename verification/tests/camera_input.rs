use gloom_rs::camera::{Camera, InputState};
use gloom_rs::matrix::{translation, Mat4, Vec3};

/// Scale of one world unit in fixed-point coordinates; also one second
/// of frame time.
const S: i64 = 10_000;

#[test]
fn holding_forward_one_second_moves_z_by_speed() {
    // Forward speed is 0.8 units per second: one simulated second of
    // holding forward moves z by exactly +0.8 and nothing else.
    let mut camera = Camera::start();
    let mut input = InputState::released();
    input.move_forward = true;
    camera.update(&input, S);
    assert_eq!(camera.position, Vec3 { x: 0, y: 0, z: 8_000 });
    assert_eq!(camera.yaw, 0);
    assert_eq!(camera.pitch, 0);
}

#[test]
fn forward_in_small_steps_accumulates() {
    let mut camera = Camera::start();
    let mut input = InputState::released();
    input.move_forward = true;
    for _ in 0..10 {
        camera.update(&input, S / 10);
    }
    assert_eq!(camera.position.z, 8_000);
}

#[test]
fn opposite_keys_cancel() {
    let mut camera = Camera::start();
    let mut input = InputState::released();
    input.move_forward = true;
    input.move_back = true;
    input.move_left = true;
    input.move_right = true;
    camera.update(&input, S);
    assert_eq!(camera.position, Vec3 { x: 0, y: 0, z: 0 });
}

#[test]
fn every_axis_follows_its_key() {
    let mut camera = Camera::start();
    let mut input = InputState::released();
    input.move_left = true;
    input.move_up = true;
    input.yaw_right = true;
    input.pitch_down = true;
    camera.update(&input, S / 2);
    // Sideways and vertical speed are 2.0 units per second.
    assert_eq!(camera.position, Vec3 { x: S, y: S, z: 0 });
    // Turning speed is about one radian per second, in angle units.
    assert_eq!(camera.yaw, 28_648);
    assert_eq!(camera.pitch, -28_648);
}

#[test]
fn no_keys_no_motion() {
    let mut camera = Camera::start();
    camera.position = Vec3 { x: 5, y: 6, z: 7 };
    camera.yaw = 8;
    camera.pitch = 9;
    let input = InputState::released();
    camera.update(&input, S);
    assert_eq!(camera.position, Vec3 { x: 5, y: 6, z: 7 });
    assert_eq!(camera.yaw, 8);
    assert_eq!(camera.pitch, 9);
}

#[test]
fn view_projection_with_neutral_pose_is_the_translation() {
    // With yaw and pitch zero, the view transform reduces to the lens
    // composed with the translation alone.
    let mut camera = Camera::start();
    camera.position = Vec3 { x: 0, y: 0, z: -2 * S };
    let perspective = Mat4::identity();
    let vp = camera.view_projection(&perspective);
    assert_eq!(vp, translation(&Vec3 { x: 0, y: 0, z: -2 * S }));
}
