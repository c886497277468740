//! A verified scene-graph core for a small first-person 3D renderer.
//!
//! The library holds the hierarchy of drawable nodes, composes each node's
//! local transform (translation about a pivot plus three axis rotations),
//! propagates accumulated world transforms down the tree once per frame,
//! and emits one draw command per drawable node. A fly-camera accumulates
//! keyboard input into a view transform.
//!
//! All geometry is carried in fixed-point integers: coordinates and matrix
//! entries hold ten-thousandths of a unit, angles hold thousandths of a
//! degree, so that quarter and full turns are exact. The surrounding
//! program converts these to the GPU's floating-point formats at its edge.

pub mod angle;
pub mod camera;
pub mod fixed;
pub mod frame;
pub mod matrix;
pub mod scene;
