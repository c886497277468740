//! The fly camera.
//!
//! The pose is five plain scalars: a fixed-point position and two angles,
//! yaw then pitch. Each frame, every held key adds its speed times the
//! frame time to one scalar, by direct integration with no smoothing.
//! The view-projection transform composes the lens, the two rotations,
//! and last the translation, so the camera moves in its rotated frame.

use vstd::prelude::*;
use crate::fixed::{spec_fp_add, spec_fp_sub, spec_fp_mul, fp_add, fp_sub, fp_mul};
use crate::matrix::{
    Mat4, Vec3, mat_bounded, mat_mul, rotation_x, rotation_y, translation, spec_mat_mul,
    spec_rotation_x, spec_rotation_y, spec_translation,
};

verus! {

/// Sideways speed, fixed-point world units per second.
pub const X_SPEED: i64 = 20_000;

/// Vertical speed, fixed-point world units per second.
pub const Y_SPEED: i64 = 20_000;

/// Forward speed, fixed-point world units per second.
pub const Z_SPEED: i64 = 8_000;

/// Turning speed, angle units per second: about one radian per second.
pub const TURN_SPEED: i64 = 57_296;

/// Which motion keys are held this frame, sampled once by the render
/// loop and passed in by the caller.
#[derive(Clone, Copy, PartialEq, Eq, Structural, Debug)]
pub struct InputState {
    /// Strafe toward positive x.
    pub move_left: bool,
    /// Strafe toward negative x.
    pub move_right: bool,
    /// Move toward positive z.
    pub move_forward: bool,
    /// Move toward negative z.
    pub move_back: bool,
    /// Move toward negative y.
    pub move_down: bool,
    /// Move toward positive y.
    pub move_up: bool,
    /// Tilt the view upward.
    pub pitch_up: bool,
    /// Tilt the view downward.
    pub pitch_down: bool,
    /// Turn toward the right.
    pub yaw_right: bool,
    /// Turn toward the left.
    pub yaw_left: bool,
}

impl InputState {
    /// No key held.
    pub fn released() -> (r: InputState)
        ensures
            r == (InputState {
                move_left: false,
                move_right: false,
                move_forward: false,
                move_back: false,
                move_down: false,
                move_up: false,
                pitch_up: false,
                pitch_down: false,
                yaw_right: false,
                yaw_left: false,
            }),
    {
        InputState {
            move_left: false,
            move_right: false,
            move_forward: false,
            move_back: false,
            move_down: false,
            move_up: false,
            pitch_up: false,
            pitch_down: false,
            yaw_right: false,
            yaw_left: false,
        }
    }
}

/// The camera pose: position in fixed-point world units, yaw and pitch
/// in angle units.
#[derive(Clone, Copy, PartialEq, Eq, Structural, Debug)]
pub struct Camera {
    pub position: Vec3,
    pub yaw: i64,
    pub pitch: i64,
}

/// One conditional nudge of a pose scalar.
pub open spec fn spec_step(v: int, held: bool, amount: int, forward: bool) -> int {
    if held {
        if forward {
            spec_fp_add(v, amount)
        } else {
            spec_fp_sub(v, amount)
        }
    } else {
        v
    }
}

/// One frame of camera motion: every held key contributes its speed
/// times the frame time to one scalar, opposite keys in turn.
pub open spec fn spec_camera_update(c: Camera, input: InputState, dt: int) -> Camera {
    let dx = spec_fp_mul(dt, X_SPEED as int);
    let dy = spec_fp_mul(dt, Y_SPEED as int);
    let dz = spec_fp_mul(dt, Z_SPEED as int);
    let da = spec_fp_mul(dt, TURN_SPEED as int);
    let x = spec_step(spec_step(c.position.x as int, input.move_left, dx, true),
        input.move_right, dx, false);
    let z = spec_step(spec_step(c.position.z as int, input.move_forward, dz, true),
        input.move_back, dz, false);
    let y = spec_step(spec_step(c.position.y as int, input.move_down, dy, false),
        input.move_up, dy, true);
    let pitch = spec_step(spec_step(c.pitch as int, input.pitch_up, da, true),
        input.pitch_down, da, false);
    let yaw = spec_step(spec_step(c.yaw as int, input.yaw_right, da, true),
        input.yaw_left, da, false);
    Camera {
        position: Vec3 { x: x as i64, y: y as i64, z: z as i64 },
        yaw: yaw as i64,
        pitch: pitch as i64,
    }
}

/// The camera's combined view transform under the given lens:
/// `perspective * Ry(yaw) * Rx(pitch) * T(position)`. The translation is
/// innermost, after the rotations, so motion follows the view direction.
pub open spec fn spec_view_projection(c: Camera, perspective: Mat4) -> Mat4 {
    spec_mat_mul(
        spec_mat_mul(spec_mat_mul(perspective, spec_rotation_y(c.yaw as int)), spec_rotation_x(
            c.pitch as int,
        )),
        spec_translation(c.position),
    )
}

impl Camera {
    /// A camera at the origin looking straight ahead.
    pub fn start() -> (r: Camera)
        ensures
            r == (Camera { position: Vec3 { x: 0, y: 0, z: 0 }, yaw: 0, pitch: 0 }),
    {
        Camera { position: Vec3 { x: 0, y: 0, z: 0 }, yaw: 0, pitch: 0 }
    }

    /// Integrate one frame of input into the pose, in place.
    pub fn update(&mut self, input: &InputState, delta_time: i64)
        ensures
            *final(self) == spec_camera_update(*old(self), *input, delta_time as int),
    {
        let dx = fp_mul(delta_time, X_SPEED);
        let dy = fp_mul(delta_time, Y_SPEED);
        let dz = fp_mul(delta_time, Z_SPEED);
        let da = fp_mul(delta_time, TURN_SPEED);
        if input.move_left {
            self.position.x = fp_add(self.position.x, dx);
        }
        if input.move_right {
            self.position.x = fp_sub(self.position.x, dx);
        }
        if input.move_forward {
            self.position.z = fp_add(self.position.z, dz);
        }
        if input.move_back {
            self.position.z = fp_sub(self.position.z, dz);
        }
        if input.move_down {
            self.position.y = fp_sub(self.position.y, dy);
        }
        if input.move_up {
            self.position.y = fp_add(self.position.y, dy);
        }
        if input.pitch_up {
            self.pitch = fp_add(self.pitch, da);
        }
        if input.pitch_down {
            self.pitch = fp_sub(self.pitch, da);
        }
        if input.yaw_right {
            self.yaw = fp_add(self.yaw, da);
        }
        if input.yaw_left {
            self.yaw = fp_sub(self.yaw, da);
        }
    }

    /// The view-projection transform for this pose under the given lens.
    pub fn view_projection(&self, perspective: &Mat4) -> (r: Mat4)
        requires
            mat_bounded(*perspective),
        ensures
            r == spec_view_projection(*self, *perspective),
            mat_bounded(r),
    {
        let ry = rotation_y(self.yaw);
        let rx = rotation_x(self.pitch);
        let t = translation(&self.position);
        let a = mat_mul(perspective, &ry);
        let b = mat_mul(&a, &rx);
        mat_mul(&b, &t)
    }
}

} // verus!
