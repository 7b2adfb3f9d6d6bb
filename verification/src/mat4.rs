//! Fixed-point 3-vectors and 4x4 transform matrices.
//!
//! A `Mat4` is row-major: `m<r><c>` is row `r`, column `c`. Entries share the
//! fixed-point scale of [`crate::fixed::SCALE`], so the identity carries
//! `SCALE` on its diagonal and a translation carries the target position,
//! unchanged, in its last column.

use vstd::prelude::*;

verus! {

use crate::fixed::SCALE;

/// A world-space vector or point, fixed-point coordinates.
#[derive(Clone, Copy, Debug, PartialEq, Eq, Structural)]
pub struct Vec3 {
    pub x: i64,
    pub y: i64,
    pub z: i64,
}

impl Vec3 {
    /// The world up direction, +Y at unit length.
    pub fn unit_y() -> (v: Vec3)
        ensures
            v == (Vec3 { x: 0, y: SCALE, z: 0 }),
    {
        Vec3 { x: 0, y: SCALE, z: 0 }
    }
}

/// A row-major 4x4 fixed-point transform.
#[derive(Clone, Copy, Debug, PartialEq, Eq, Structural)]
pub struct Mat4 {
    pub m00: i64,
    pub m01: i64,
    pub m02: i64,
    pub m03: i64,
    pub m10: i64,
    pub m11: i64,
    pub m12: i64,
    pub m13: i64,
    pub m20: i64,
    pub m21: i64,
    pub m22: i64,
    pub m23: i64,
    pub m30: i64,
    pub m31: i64,
    pub m32: i64,
    pub m33: i64,
}

/// The identity transform at fixed-point scale.
pub open spec fn identity_spec() -> Mat4 {
    Mat4 {
        m00: SCALE,
        m01: 0,
        m02: 0,
        m03: 0,
        m10: 0,
        m11: SCALE,
        m12: 0,
        m13: 0,
        m20: 0,
        m21: 0,
        m22: SCALE,
        m23: 0,
        m30: 0,
        m31: 0,
        m32: 0,
        m33: SCALE,
    }
}

/// A pure translation: the identity transform with `p` in the last column.
pub open spec fn translation_spec(p: Vec3) -> Mat4 {
    Mat4 { m03: p.x, m13: p.y, m23: p.z, ..identity_spec() }
}

/// The translation column of a transform, read back as a point.
pub open spec fn translation_column_spec(m: Mat4) -> Vec3 {
    Vec3 { x: m.m03, y: m.m13, z: m.m23 }
}

impl Mat4 {
    /// The identity transform.
    pub fn identity() -> (m: Mat4)
        ensures
            m == identity_spec(),
    {
        Mat4 {
            m00: SCALE,
            m01: 0,
            m02: 0,
            m03: 0,
            m10: 0,
            m11: SCALE,
            m12: 0,
            m13: 0,
            m20: 0,
            m21: 0,
            m22: SCALE,
            m23: 0,
            m30: 0,
            m31: 0,
            m32: 0,
            m33: SCALE,
        }
    }

    /// The model transform of an object standing at `p`: rotation and scale
    /// are identity, the last column carries `p`.
    pub fn translation(p: Vec3) -> (m: Mat4)
        ensures
            m == translation_spec(p),
    {
        Mat4 {
            m00: SCALE,
            m01: 0,
            m02: 0,
            m03: p.x,
            m10: 0,
            m11: SCALE,
            m12: 0,
            m13: p.y,
            m20: 0,
            m21: 0,
            m22: SCALE,
            m23: p.z,
            m30: 0,
            m31: 0,
            m32: 0,
            m33: SCALE,
        }
    }

    /// Read the translation column back as a point.
    pub fn translation_column(&self) -> (p: Vec3)
        ensures
            p == translation_column_spec(*self),
    {
        Vec3 { x: self.m03, y: self.m13, z: self.m23 }
    }
}

/// Composing a translation by `p` and reading the translation column back
/// yields `p` exactly: with identity rotation and scale, nothing
/// contaminates the column.
pub proof fn lemma_translation_round_trip(p: Vec3)
    ensures
        translation_column_spec(translation_spec(p)) == p,
{
}

} // verus!
