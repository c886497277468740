use gloom_rs::angle::{cos_fx, sin_fx};
use gloom_rs::fixed::{fp_add, fp_mul, fp_sub, COORD_LIMIT, SCALE};
use gloom_rs::matrix::{mat_mul, rotation_y, rotation_z, translation, Mat4, Vec3};
use gloom_rs::frame::render_frame;
use gloom_rs::camera::{Camera, InputState};
use gloom_rs::scene::build_scene;

#[test]
fn sine_is_exact_at_quarter_turns() {
    assert_eq!(sin_fx(0), 0);
    assert_eq!(sin_fx(90_000), SCALE);
    assert_eq!(sin_fx(180_000), 0);
    assert_eq!(sin_fx(270_000), -SCALE);
    assert_eq!(cos_fx(0), SCALE);
    assert_eq!(cos_fx(90_000), 0);
    assert_eq!(cos_fx(180_000), -SCALE);
    assert_eq!(cos_fx(270_000), 0);
}

#[test]
fn sine_known_values() {
    // Exact at thirty degrees, close elsewhere.
    assert_eq!(sin_fx(30_000), SCALE / 2);
    assert_eq!(sin_fx(45_000), 7_058);
    assert_eq!(sin_fx(150_000), SCALE / 2);
    assert_eq!(sin_fx(-90_000), -SCALE);
    assert_eq!(sin_fx(360_000 + 30_000), SCALE / 2);
}

#[test]
fn fixed_product_truncates_toward_zero() {
    assert_eq!(fp_mul(SCALE, 8_000), 8_000);
    assert_eq!(fp_mul(1, 1), 0);
    assert_eq!(fp_mul(-1, 5_000), 0);
    assert_eq!(fp_mul(-10_001, 5_000), -5_000);
    assert_eq!(fp_mul(10_001, 5_000), 5_000);
}

#[test]
fn fixed_arithmetic_saturates() {
    assert_eq!(fp_add(COORD_LIMIT, COORD_LIMIT), COORD_LIMIT);
    assert_eq!(fp_sub(-COORD_LIMIT, COORD_LIMIT), -COORD_LIMIT);
    assert_eq!(fp_mul(COORD_LIMIT, COORD_LIMIT), COORD_LIMIT);
    assert_eq!(fp_mul(COORD_LIMIT, -COORD_LIMIT), -COORD_LIMIT);
}

#[test]
fn identity_is_neutral_for_products() {
    let m = mat_mul(
        &translation(&Vec3 { x: 123, y: -456, z: 789 }),
        &rotation_z(12_345),
    );
    let identity = Mat4::identity();
    assert_eq!(mat_mul(&m, &identity), m);
    assert_eq!(mat_mul(&identity, &m), m);
}

#[test]
fn translations_compose_by_addition() {
    let a = translation(&Vec3 { x: 10_000, y: 20_000, z: 30_000 });
    let b = translation(&Vec3 { x: 40_000, y: 50_000, z: 60_000 });
    let c = translation(&Vec3 { x: 50_000, y: 70_000, z: 90_000 });
    assert_eq!(mat_mul(&a, &b), c);
}

#[test]
fn rotations_are_periodic() {
    assert_eq!(rotation_y(30_000), rotation_y(390_000));
    assert_eq!(rotation_y(-330_000), rotation_y(30_000));
}

#[test]
fn quarter_turn_about_y_entries() {
    let r = rotation_y(90_000);
    assert_eq!((r.m00, r.m01, r.m02), (0, 0, SCALE));
    assert_eq!((r.m10, r.m11, r.m12), (0, SCALE, 0));
    assert_eq!((r.m20, r.m21, r.m22), (-SCALE, 0, 0));
    assert_eq!((r.m30, r.m31, r.m32, r.m33), (0, 0, 0, SCALE));
}

#[test]
fn one_frame_updates_camera_and_draws_the_terrain() {
    let mut root = build_scene(5, 300);
    let mut camera = Camera::start();
    let mut input = InputState::released();
    input.move_forward = true;
    let perspective = Mat4::identity();
    let cmds = render_frame(&mut root, &mut camera, &input, SCALE, &perspective);
    assert_eq!(camera.position.z, 8_000);
    assert_eq!(cmds.len(), 1);
    assert_eq!(cmds[0].vao_id, 5);
    // The terrain node has identity pose, so its world transform is the
    // identity and the clip-space matrix is the camera transform itself.
    assert_eq!(cmds[0].model, Mat4::identity());
    assert_eq!(cmds[0].mvp, camera.view_projection(&perspective));
}
