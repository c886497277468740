//! The per-frame pipeline, fused into one call.
//!
//! Each frame: integrate the sampled input into the camera pose, rebuild
//! the view-projection transform, propagate world transforms over the
//! whole tree from the identity, and read off the draw commands. Fusing
//! the passes makes it impossible to draw from stale world transforms.

use vstd::prelude::*;
use crate::camera::{Camera, InputState, spec_camera_update, spec_view_projection};
use crate::matrix::{Mat4, mat_bounded, spec_identity};
use crate::scene::{DrawCommand, SceneNode, render_tree, spec_draw, spec_propagate};

verus! {

/// Run one frame: update the camera from the input snapshot, then
/// propagate and draw the tree under the updated view.
pub fn render_frame(
    root: &mut SceneNode,
    camera: &mut Camera,
    input: &InputState,
    delta_time: i64,
    perspective: &Mat4,
) -> (cmds: Vec<DrawCommand>)
    requires
        mat_bounded(*perspective),
    ensures
        *final(camera) == spec_camera_update(*old(camera), *input, delta_time as int),
        final(root)@ == spec_propagate(old(root)@, spec_identity()),
        cmds@ == spec_draw(
            spec_propagate(old(root)@, spec_identity()),
            spec_view_projection(*final(camera), *perspective),
        ),
{
    camera.update(input, delta_time);
    let vp = camera.view_projection(perspective);
    let base = Mat4::identity();
    render_tree(root, &base, &vp)
}

} // verus!
