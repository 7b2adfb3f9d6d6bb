//! Verified core of a small real-time 3D scene viewer: a free-fly camera
//! driven by keyboard and mouse, a fixed scene of textured cubes, and the
//! per-frame transform pipeline that turns both into ordered draw
//! submissions.
//!
//! All scalar state is kept in signed 64-bit fixed-point units (see
//! [`fixed::SCALE`]): positions and speeds in world units, angles in
//! degrees. Trigonometric values enter from outside as fixed-point sines and
//! cosines; everything built from them — orientation clamping, movement
//! integration, view and model matrices, draw planning — is verified here.

pub mod camera;
pub mod clock;
pub mod diag;
pub mod fixed;
pub mod frame;
pub mod input;
pub mod mat4;
pub mod scene;
