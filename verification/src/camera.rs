//! The free-fly camera: yaw/pitch orientation, world position, movement
//! integration, and the per-frame view transform.
//!
//! Angles are fixed-point degrees. Trigonometric values cannot be computed
//! here, so every function that needs the orientation's sine and cosine takes
//! them as a [`Trig`] argument; the caller evaluates them from `yaw` and
//! `pitch` however it likes. Everything downstream of those four scalars —
//! basis vectors, movement steps, the look-at matrix — is exact integer
//! arithmetic with a stated contract.

use vstd::prelude::*;

verus! {

use crate::fixed::{
    div_trunc,
    fp_scale_down,
    fp_step,
    lemma_div_trunc_bound,
    lemma_mul_bound,
    lemma_step_of_zero_velocity,
    step,
    DT_LIMIT,
    SCALE,
    STEP_LIMIT,
    VEL_LIMIT,
};
use crate::mat4::{Mat4, Vec3};

/// Pitch is clamped to 89 degrees either side of the horizon, so the look
/// direction never becomes collinear with the world up vector and the view
/// basis never degenerates.
pub const PITCH_LIMIT: i64 = 89 * SCALE;

/// Largest movement speed (units per second, times `SCALE`) a camera may be
/// built with.
pub const SPEED_LIMIT: i64 = 0x100_0000;

/// Largest magnitude of a per-axis unit count fed into movement integration.
pub const UNITS_LIMIT: i64 = 0x100;

/// World coordinate bound accepted by movement integration.
pub const POS_LIMIT: i64 = 0x100_0000_0000;

/// World coordinate bound accepted by a single-axis movement call: one step
/// beyond `POS_LIMIT`, so both axes of a frame can move in turn.
pub const MOVE_LIMIT: i64 = POS_LIMIT + 2 * STEP_LIMIT;

/// World coordinate bound accepted by the view transform: wide enough that a
/// frame's movement steps away from `POS_LIMIT` still fall inside it.
pub const VIEW_LIMIT: i64 = POS_LIMIT + 4 * STEP_LIMIT;

/// Movement axes driven by the keyboard: `X` strafes along the camera's
/// right vector, `Z` runs along the flattened look direction.
pub enum Direction {
    X,
    Z,
}

/// Fixed-point sine and cosine of the camera's yaw and pitch, supplied by
/// the caller at each use: `sy`/`cy` for yaw, `sp`/`cp` for pitch.
#[derive(Clone, Copy, Debug, PartialEq, Eq, Structural)]
pub struct Trig {
    pub sy: i64,
    pub cy: i64,
    pub sp: i64,
    pub cp: i64,
}

impl Trig {
    /// Sines and cosines lie within the fixed-point unit interval.
    pub open spec fn wf(self) -> bool {
        &&& -SCALE <= self.sy <= SCALE
        &&& -SCALE <= self.cy <= SCALE
        &&& -SCALE <= self.sp <= SCALE
        &&& -SCALE <= self.cp <= SCALE
    }

    /// Bundle four scalars, clamping each into the fixed-point unit
    /// interval so the result is well-formed whatever was handed in.
    pub fn clamped(sy: i64, cy: i64, sp: i64, cp: i64) -> (t: Trig)
        ensures
            t.wf(),
            -SCALE <= sy <= SCALE ==> t.sy == sy,
            -SCALE <= cy <= SCALE ==> t.cy == cy,
            -SCALE <= sp <= SCALE ==> t.sp == sp,
            -SCALE <= cp <= SCALE ==> t.cp == cp,
    {
        Trig {
            sy: clamp_unit(sy),
            cy: clamp_unit(cy),
            sp: clamp_unit(sp),
            cp: clamp_unit(cp),
        }
    }
}

/// Clamp one scalar into `[-SCALE, SCALE]`.
fn clamp_unit(v: i64) -> (r: i64)
    ensures
        -SCALE <= r <= SCALE,
        -SCALE <= v <= SCALE ==> r == v,
{
    if v > SCALE {
        SCALE
    } else if v < -SCALE {
        -SCALE
    } else {
        v
    }
}

/// The pitch that results from adding a delta and clamping at the limits.
pub open spec fn clamped_pitch(p: int) -> int {
    if p > PITCH_LIMIT as int {
        PITCH_LIMIT as int
    } else if p < -(PITCH_LIMIT as int) {
        -(PITCH_LIMIT as int)
    } else {
        p
    }
}

/// Coordinates lie within the bound movement integration accepts.
pub open spec fn in_pos_range(p: Vec3) -> bool {
    &&& -POS_LIMIT <= p.x <= POS_LIMIT
    &&& -POS_LIMIT <= p.y <= POS_LIMIT
    &&& -POS_LIMIT <= p.z <= POS_LIMIT
}

/// Coordinates lie within the bound a single-axis movement call accepts.
pub open spec fn in_move_range(p: Vec3) -> bool {
    &&& -MOVE_LIMIT <= p.x <= MOVE_LIMIT
    &&& -MOVE_LIMIT <= p.y <= MOVE_LIMIT
    &&& -MOVE_LIMIT <= p.z <= MOVE_LIMIT
}

/// Coordinates lie within the bound the view transform accepts.
pub open spec fn in_view_range(p: Vec3) -> bool {
    &&& -VIEW_LIMIT <= p.x <= VIEW_LIMIT
    &&& -VIEW_LIMIT <= p.y <= VIEW_LIMIT
    &&& -VIEW_LIMIT <= p.z <= VIEW_LIMIT
}

/// The camera: a world position, yaw and pitch in fixed-point degrees, the
/// fixed world up reference, and the session's movement speed.
pub struct Camera {
    pub position: Vec3,
    pub yaw: i64,
    pub pitch: i64,
    pub up: Vec3,
    pub movement_speed: i64,
}

impl Camera {
    /// Pitch stays clamped, the speed is a bounded non-negative scalar, and
    /// the up reference is the world +Y axis, never mutated.
    pub open spec fn wf(self) -> bool {
        &&& -PITCH_LIMIT <= self.pitch <= PITCH_LIMIT
        &&& 0 <= self.movement_speed <= SPEED_LIMIT
        &&& self.up == (Vec3 { x: 0, y: SCALE, z: 0 })
    }

    /// Construct a camera at an initial pose.
    pub fn new(position: Vec3, yaw: i64, pitch: i64, movement_speed: i64) -> (c: Camera)
        requires
            -PITCH_LIMIT <= pitch <= PITCH_LIMIT,
            0 <= movement_speed <= SPEED_LIMIT,
        ensures
            c.wf(),
            c.position == position,
            c.yaw == yaw,
            c.pitch == pitch,
            c.movement_speed == movement_speed,
    {
        Camera { position, yaw, pitch, up: Vec3::unit_y(), movement_speed }
    }

    /// Add orientation deltas: yaw accumulates freely, pitch is clamped to
    /// `[-PITCH_LIMIT, PITCH_LIMIT]` after the addition.
    pub fn update(&mut self, delta_yaw: i64, delta_pitch: i64)
        requires
            i64::MIN <= old(self).yaw + delta_yaw <= i64::MAX,
            i64::MIN <= old(self).pitch + delta_pitch <= i64::MAX,
        ensures
            final(self).yaw == old(self).yaw + delta_yaw,
            final(self).pitch == clamped_pitch(old(self).pitch + delta_pitch),
            -PITCH_LIMIT <= final(self).pitch <= PITCH_LIMIT,
            final(self).position == old(self).position,
            final(self).up == old(self).up,
            final(self).movement_speed == old(self).movement_speed,
            old(self).wf() ==> final(self).wf(),
    {
        self.yaw = self.yaw + delta_yaw;
        let p = self.pitch + delta_pitch;
        self.pitch = if p > PITCH_LIMIT {
            PITCH_LIMIT
        } else if p < -PITCH_LIMIT {
            -PITCH_LIMIT
        } else {
            p
        };
    }

    /// Integrate keyboard movement along one axis, as the event loop does
    /// once per frame and axis: `X` moves along the camera's right vector
    /// `(sy, 0, -cy)`, `Z` moves against the flattened look direction
    /// `(cy, 0, sy)` — flattened so that walking stays level however far the
    /// camera looks up or down. `velo` is a signed fixed-point speed; the
    /// displacement is `velo * delta_time` along the axis.
    pub fn process_keyboard(&mut self, direction: Direction, velo: i64, delta_time: i64, t: &Trig)
        requires
            t.wf(),
            -VEL_LIMIT <= velo <= VEL_LIMIT,
            0 <= delta_time <= DT_LIMIT,
            in_move_range(old(self).position),
        ensures
            (direction matches Direction::X) ==> {
                &&& final(self).position.x == old(self).position.x + step(
                    t.sy as int,
                    velo as int,
                    delta_time as int,
                )
                &&& final(self).position.z == old(self).position.z + step(
                    -(t.cy as int),
                    velo as int,
                    delta_time as int,
                )
            },
            (direction matches Direction::Z) ==> {
                &&& final(self).position.x == old(self).position.x - step(
                    t.cy as int,
                    velo as int,
                    delta_time as int,
                )
                &&& final(self).position.z == old(self).position.z - step(
                    t.sy as int,
                    velo as int,
                    delta_time as int,
                )
            },
            velo == 0 ==> final(self).position == old(self).position,
            final(self).position.y == old(self).position.y,
            final(self).yaw == old(self).yaw,
            final(self).pitch == old(self).pitch,
            final(self).up == old(self).up,
            final(self).movement_speed == old(self).movement_speed,
            old(self).wf() ==> final(self).wf(),
    {
        proof {
            lemma_step_of_zero_velocity(t.sy as int, delta_time as int);
            lemma_step_of_zero_velocity(-(t.cy as int), delta_time as int);
            lemma_step_of_zero_velocity(t.cy as int, delta_time as int);
        }
        match direction {
            Direction::X => {
                let dx = fp_step(t.sy, velo, delta_time);
                let dz = fp_step(-t.cy, velo, delta_time);
                self.position.x = self.position.x + dx;
                self.position.z = self.position.z + dz;
            },
            Direction::Z => {
                let dx = fp_step(t.cy, velo, delta_time);
                let dz = fp_step(t.sy, velo, delta_time);
                self.position.x = self.position.x - dx;
                self.position.z = self.position.z - dz;
            },
        }
    }

    /// Integrate one frame of planar movement: `strafe_units` along the
    /// camera's right vector and `forward_units` against the flattened look
    /// direction, both scaled by the session's movement speed and the frame's
    /// time step. Vertical movement is applied by the caller directly to the
    /// y coordinate; it does not depend on the orientation.
    pub fn move_along_axes(
        &mut self,
        strafe_units: i64,
        forward_units: i64,
        delta_time: i64,
        t: &Trig,
    )
        requires
            old(self).wf(),
            t.wf(),
            -UNITS_LIMIT <= strafe_units <= UNITS_LIMIT,
            -UNITS_LIMIT <= forward_units <= UNITS_LIMIT,
            0 <= delta_time <= DT_LIMIT,
            in_pos_range(old(self).position),
        ensures
            final(self).position.x == old(self).position.x + step(
                t.sy as int,
                strafe_units as int * old(self).movement_speed as int,
                delta_time as int,
            ) - step(
                t.cy as int,
                forward_units as int * old(self).movement_speed as int,
                delta_time as int,
            ),
            final(self).position.z == old(self).position.z + step(
                -(t.cy as int),
                strafe_units as int * old(self).movement_speed as int,
                delta_time as int,
            ) - step(
                t.sy as int,
                forward_units as int * old(self).movement_speed as int,
                delta_time as int,
            ),
            final(self).position.y == old(self).position.y,
            strafe_units == 0 && forward_units == 0 ==> final(self).position == old(
                self,
            ).position,
            in_view_range(final(self).position),
            final(self).yaw == old(self).yaw,
            final(self).pitch == old(self).pitch,
            final(self).up == old(self).up,
            final(self).movement_speed == old(self).movement_speed,
            final(self).wf(),
    {
        proof {
            lemma_mul_bound(
                strafe_units as int,
                self.movement_speed as int,
                UNITS_LIMIT as int,
                SPEED_LIMIT as int,
            );
            lemma_mul_bound(
                forward_units as int,
                self.movement_speed as int,
                UNITS_LIMIT as int,
                SPEED_LIMIT as int,
            );
            assert(strafe_units == 0 ==> strafe_units as int * self.movement_speed as int == 0)
                by (nonlinear_arith);
            assert(forward_units == 0 ==> forward_units as int * self.movement_speed as int == 0)
                by (nonlinear_arith);
            lemma_step_of_zero_velocity(t.sy as int, delta_time as int);
            lemma_step_of_zero_velocity(-(t.cy as int), delta_time as int);
            lemma_step_of_zero_velocity(t.cy as int, delta_time as int);
        }
        let vs = strafe_units * self.movement_speed;
        let vf = forward_units * self.movement_speed;
        let dx_strafe = fp_step(t.sy, vs, delta_time);
        let dz_strafe = fp_step(-t.cy, vs, delta_time);
        let dx_forward = fp_step(t.cy, vf, delta_time);
        let dz_forward = fp_step(t.sy, vf, delta_time);
        self.position.x = self.position.x + dx_strafe - dx_forward;
        self.position.z = self.position.z + dz_strafe - dz_forward;
    }

    /// Derive the right-handed look-at transform from the current position
    /// and the supplied sines and cosines of yaw and pitch: exactly
    /// [`view_matrix_spec`] of them.
    pub fn view_matrix(&self, t: &Trig) -> (m: Mat4)
        requires
            t.wf(),
            in_view_range(self.position),
        ensures
            m == view_matrix_spec(self.position, *t),
    {
        let sy = t.sy;
        let cy = t.cy;
        let sp = t.sp;
        let cp = t.cp;
        proof {
            lemma_mul_bound(cy as int, sp as int, SCALE as int, SCALE as int);
            lemma_mul_bound(sy as int, sp as int, SCALE as int, SCALE as int);
            lemma_mul_bound(cy as int, cp as int, SCALE as int, SCALE as int);
            lemma_mul_bound(sy as int, cp as int, SCALE as int, SCALE as int);
        }
        let m00 = -sy;
        let m01: i64 = 0;
        let m02 = cy;
        let m10 = fp_scale_down(-(cy * sp));
        let m11 = cp;
        let m12 = fp_scale_down(-(sy * sp));
        let m20 = fp_scale_down(-(cy * cp));
        let m21 = -sp;
        let m22 = fp_scale_down(-(sy * cp));
        proof {
            lemma_div_trunc_bound(-(cy as int * sp as int), SCALE as int, SCALE as int);
            lemma_div_trunc_bound(-(sy as int * sp as int), SCALE as int, SCALE as int);
            lemma_div_trunc_bound(-(cy as int * cp as int), SCALE as int, SCALE as int);
            lemma_div_trunc_bound(-(sy as int * cp as int), SCALE as int, SCALE as int);
            lemma_mul_bound(m00 as int, self.position.x as int, SCALE as int, VIEW_LIMIT as int);
            lemma_mul_bound(m02 as int, self.position.z as int, SCALE as int, VIEW_LIMIT as int);
            lemma_mul_bound(m10 as int, self.position.x as int, SCALE as int, VIEW_LIMIT as int);
            lemma_mul_bound(m11 as int, self.position.y as int, SCALE as int, VIEW_LIMIT as int);
            lemma_mul_bound(m12 as int, self.position.z as int, SCALE as int, VIEW_LIMIT as int);
            lemma_mul_bound(m20 as int, self.position.x as int, SCALE as int, VIEW_LIMIT as int);
            lemma_mul_bound(m21 as int, self.position.y as int, SCALE as int, VIEW_LIMIT as int);
            lemma_mul_bound(m22 as int, self.position.z as int, SCALE as int, VIEW_LIMIT as int);
        }
        let m03 = fp_scale_down(
            -(m00 * self.position.x + m01 * self.position.y + m02 * self.position.z),
        );
        let m13 = fp_scale_down(
            -(m10 * self.position.x + m11 * self.position.y + m12 * self.position.z),
        );
        let m23 = fp_scale_down(
            -(m20 * self.position.x + m21 * self.position.y + m22 * self.position.z),
        );
        Mat4 {
            m00,
            m01,
            m02,
            m03,
            m10,
            m11,
            m12,
            m13,
            m20,
            m21,
            m22,
            m23,
            m30: 0,
            m31: 0,
            m32: 0,
            m33: SCALE,
        }
    }
}

/// First rotation row of the view transform (the camera's right vector,
/// negated toward screen-x), at scale `SCALE * SCALE`, before truncation.
pub open spec fn rot_row0(sy: int, cy: int, sp: int, cp: int) -> (int, int, int) {
    (-(sy * (SCALE as int)), 0, cy * (SCALE as int))
}

/// Second rotation row (the camera's adjusted up vector), at scale
/// `SCALE * SCALE`, before truncation.
pub open spec fn rot_row1(sy: int, cy: int, sp: int, cp: int) -> (int, int, int) {
    (-(cy * sp), cp * (SCALE as int), -(sy * sp))
}

/// Third rotation row (the look direction, negated: a right-handed camera
/// looks down its negative z axis), at scale `SCALE * SCALE`, before
/// truncation.
pub open spec fn rot_row2(sy: int, cy: int, sp: int, cp: int) -> (int, int, int) {
    (-(cy * cp), -(sp * (SCALE as int)), -(sy * cp))
}

/// Dot product of two integer triples.
pub open spec fn dot3(a: (int, int, int), b: (int, int, int)) -> int {
    a.0 * b.0 + a.1 * b.1 + a.2 * b.2
}

/// The right-handed look-at transform for a camera standing at `pos` with
/// orientation trigonometry `t`.
///
/// The rotation block is [`rot_row0`], [`rot_row1`] and [`rot_row2`] scaled
/// down by `SCALE` — the first row exactly, the others truncated — and the
/// last column is the truncation of `-row * pos` for each row: the camera
/// position carried into camera space and negated.
pub open spec fn view_matrix_spec(pos: Vec3, t: Trig) -> Mat4 {
    let sy = t.sy as int;
    let cy = t.cy as int;
    let sp = t.sp as int;
    let cp = t.cp as int;
    let s = SCALE as int;
    let m00 = -sy;
    let m02 = cy;
    let m10 = div_trunc(rot_row1(sy, cy, sp, cp).0, s);
    let m11 = cp as int;
    let m12 = div_trunc(rot_row1(sy, cy, sp, cp).2, s);
    let m20 = div_trunc(rot_row2(sy, cy, sp, cp).0, s);
    let m21 = -sp;
    let m22 = div_trunc(rot_row2(sy, cy, sp, cp).2, s);
    let px = pos.x as int;
    let py = pos.y as int;
    let pz = pos.z as int;
    Mat4 {
        m00: m00 as i64,
        m01: 0,
        m02: m02 as i64,
        m03: div_trunc(-(m00 * px + 0 * py + m02 * pz), s) as i64,
        m10: m10 as i64,
        m11: m11 as i64,
        m12: m12 as i64,
        m13: div_trunc(-(m10 * px + m11 * py + m12 * pz), s) as i64,
        m20: m20 as i64,
        m21: m21 as i64,
        m22: m22 as i64,
        m23: div_trunc(-(m20 * px + m21 * py + m22 * pz), s) as i64,
        m30: 0,
        m31: 0,
        m32: 0,
        m33: SCALE,
    }
}

/// For any fixed-point sines and cosines lying exactly on the circle of
/// radius `SCALE` — as the exact trigonometric values of every yaw, and of
/// every pitch the clamp admits, do — the rotation block of the view
/// transform is orthonormal: taken at scale `SCALE * SCALE`, its rows are
/// mutually orthogonal and each has squared length
/// `(SCALE * SCALE) * (SCALE * SCALE)`.
pub proof fn lemma_view_rotation_orthonormal(sy: int, cy: int, sp: int, cp: int)
    requires
        sy * sy + cy * cy == (SCALE as int) * (SCALE as int),
        sp * sp + cp * cp == (SCALE as int) * (SCALE as int),
    ensures
        dot3(rot_row0(sy, cy, sp, cp), rot_row0(sy, cy, sp, cp)) == (SCALE as int) * (SCALE as int)
            * ((SCALE as int) * (SCALE as int)),
        dot3(rot_row1(sy, cy, sp, cp), rot_row1(sy, cy, sp, cp)) == (SCALE as int) * (SCALE as int)
            * ((SCALE as int) * (SCALE as int)),
        dot3(rot_row2(sy, cy, sp, cp), rot_row2(sy, cy, sp, cp)) == (SCALE as int) * (SCALE as int)
            * ((SCALE as int) * (SCALE as int)),
        dot3(rot_row0(sy, cy, sp, cp), rot_row1(sy, cy, sp, cp)) == 0,
        dot3(rot_row0(sy, cy, sp, cp), rot_row2(sy, cy, sp, cp)) == 0,
        dot3(rot_row1(sy, cy, sp, cp), rot_row2(sy, cy, sp, cp)) == 0,
{
    let s: int = SCALE as int;
    assert((-(sy * s)) * (-(sy * s)) + 0 * 0 + (cy * s) * (cy * s) == s * s * (s * s))
        by (nonlinear_arith)
        requires
            sy * sy + cy * cy == s * s,
    ;
    // Row 1 with itself: each addend is a product of squares, the yaw
    // squares gather by distributivity, and the circle equations finish.
    assert((-(cy * sp)) * (-(cy * sp)) == (cy * cy) * (sp * sp)) by (nonlinear_arith);
    assert((cp * s) * (cp * s) == (cp * cp) * (s * s)) by (nonlinear_arith);
    assert((-(sy * sp)) * (-(sy * sp)) == (sy * sy) * (sp * sp)) by (nonlinear_arith);
    assert((cy * cy) * (sp * sp) + (sy * sy) * (sp * sp) == (sy * sy + cy * cy) * (sp * sp))
        by (nonlinear_arith);
    assert((sy * sy + cy * cy) * (sp * sp) == (s * s) * (sp * sp));
    assert((s * s) * (sp * sp) + (cp * cp) * (s * s) == (sp * sp + cp * cp) * (s * s))
        by (nonlinear_arith);
    assert((sp * sp + cp * cp) * (s * s) == (s * s) * (s * s));
    // Row 2 with itself, the same way with pitch sine and cosine exchanged.
    assert((-(cy * cp)) * (-(cy * cp)) == (cy * cy) * (cp * cp)) by (nonlinear_arith);
    assert((-(sp * s)) * (-(sp * s)) == (sp * sp) * (s * s)) by (nonlinear_arith);
    assert((-(sy * cp)) * (-(sy * cp)) == (sy * sy) * (cp * cp)) by (nonlinear_arith);
    assert((cy * cy) * (cp * cp) + (sy * sy) * (cp * cp) == (sy * sy + cy * cy) * (cp * cp))
        by (nonlinear_arith);
    assert((sy * sy + cy * cy) * (cp * cp) == (s * s) * (cp * cp));
    assert((s * s) * (cp * cp) + (sp * sp) * (s * s) == (cp * cp + sp * sp) * (s * s))
        by (nonlinear_arith);
    assert((cp * cp + sp * sp) * (s * s) == (s * s) * (s * s));
    // Rows 0 and 1, rows 0 and 2: the yaw products cancel directly.
    assert((-(sy * s)) * (-(cy * sp)) + 0 * (cp * s) + (cy * s) * (-(sy * sp)) == 0)
        by (nonlinear_arith);
    assert((-(sy * s)) * (-(cy * cp)) + 0 * (-(sp * s)) + (cy * s) * (-(sy * cp)) == 0)
        by (nonlinear_arith);
    // Rows 1 and 2: the yaw squares gather against the middle term.
    assert((-(cy * sp)) * (-(cy * cp)) == (cy * cy) * (sp * cp)) by (nonlinear_arith);
    assert((cp * s) * (-(sp * s)) == -((sp * cp) * (s * s))) by (nonlinear_arith);
    assert((-(sy * sp)) * (-(sy * cp)) == (sy * sy) * (sp * cp)) by (nonlinear_arith);
    assert((cy * cy) * (sp * cp) + (sy * sy) * (sp * cp) == (sy * sy + cy * cy) * (sp * cp))
        by (nonlinear_arith);
    assert((sy * sy + cy * cy) * (sp * cp) == (s * s) * (sp * cp));
    assert((s * s) * (sp * cp) - (sp * cp) * (s * s) == 0) by (nonlinear_arith);
}

/// First column of the rotation block, at scale `SCALE * SCALE`.
pub open spec fn rot_col0(sy: int, cy: int, sp: int, cp: int) -> (int, int, int) {
    (rot_row0(sy, cy, sp, cp).0, rot_row1(sy, cy, sp, cp).0, rot_row2(sy, cy, sp, cp).0)
}

/// Second column of the rotation block, at scale `SCALE * SCALE`.
pub open spec fn rot_col1(sy: int, cy: int, sp: int, cp: int) -> (int, int, int) {
    (rot_row0(sy, cy, sp, cp).1, rot_row1(sy, cy, sp, cp).1, rot_row2(sy, cy, sp, cp).1)
}

/// Third column of the rotation block, at scale `SCALE * SCALE`.
pub open spec fn rot_col2(sy: int, cy: int, sp: int, cp: int) -> (int, int, int) {
    (rot_row0(sy, cy, sp, cp).2, rot_row1(sy, cy, sp, cp).2, rot_row2(sy, cy, sp, cp).2)
}

/// The column counterpart of [`lemma_view_rotation_orthonormal`]: under the
/// same circle hypotheses the columns of the rotation block are mutually
/// orthogonal and each has squared length `(SCALE * SCALE) * (SCALE * SCALE)`.
pub proof fn lemma_view_rotation_columns_orthonormal(sy: int, cy: int, sp: int, cp: int)
    requires
        sy * sy + cy * cy == (SCALE as int) * (SCALE as int),
        sp * sp + cp * cp == (SCALE as int) * (SCALE as int),
    ensures
        dot3(rot_col0(sy, cy, sp, cp), rot_col0(sy, cy, sp, cp)) == (SCALE as int) * (SCALE as int)
            * ((SCALE as int) * (SCALE as int)),
        dot3(rot_col1(sy, cy, sp, cp), rot_col1(sy, cy, sp, cp)) == (SCALE as int) * (SCALE as int)
            * ((SCALE as int) * (SCALE as int)),
        dot3(rot_col2(sy, cy, sp, cp), rot_col2(sy, cy, sp, cp)) == (SCALE as int) * (SCALE as int)
            * ((SCALE as int) * (SCALE as int)),
        dot3(rot_col0(sy, cy, sp, cp), rot_col1(sy, cy, sp, cp)) == 0,
        dot3(rot_col0(sy, cy, sp, cp), rot_col2(sy, cy, sp, cp)) == 0,
        dot3(rot_col1(sy, cy, sp, cp), rot_col2(sy, cy, sp, cp)) == 0,
{
    let s: int = SCALE as int;
    // Column 0 with itself: the pitch squares gather first, then the yaw
    // squares.
    assert((-(sy * s)) * (-(sy * s)) == (sy * sy) * (s * s)) by (nonlinear_arith);
    assert((-(cy * sp)) * (-(cy * sp)) == (cy * cy) * (sp * sp)) by (nonlinear_arith);
    assert((-(cy * cp)) * (-(cy * cp)) == (cy * cy) * (cp * cp)) by (nonlinear_arith);
    assert((cy * cy) * (sp * sp) + (cy * cy) * (cp * cp) == (cy * cy) * (sp * sp + cp * cp))
        by (nonlinear_arith);
    assert((cy * cy) * (sp * sp + cp * cp) == (cy * cy) * (s * s));
    assert((sy * sy) * (s * s) + (cy * cy) * (s * s) == (sy * sy + cy * cy) * (s * s))
        by (nonlinear_arith);
    assert((sy * sy + cy * cy) * (s * s) == (s * s) * (s * s));
    // Column 1 with itself.
    assert((cp * s) * (cp * s) == (cp * cp) * (s * s)) by (nonlinear_arith);
    assert((-(sp * s)) * (-(sp * s)) == (sp * sp) * (s * s)) by (nonlinear_arith);
    assert((cp * cp) * (s * s) + (sp * sp) * (s * s) == (cp * cp + sp * sp) * (s * s))
        by (nonlinear_arith);
    assert((cp * cp + sp * sp) * (s * s) == (s * s) * (s * s));
    // Column 2 with itself, as column 0 with the yaw sine and cosine
    // exchanged.
    assert((cy * s) * (cy * s) == (cy * cy) * (s * s)) by (nonlinear_arith);
    assert((-(sy * sp)) * (-(sy * sp)) == (sy * sy) * (sp * sp)) by (nonlinear_arith);
    assert((-(sy * cp)) * (-(sy * cp)) == (sy * sy) * (cp * cp)) by (nonlinear_arith);
    assert((sy * sy) * (sp * sp) + (sy * sy) * (cp * cp) == (sy * sy) * (sp * sp + cp * cp))
        by (nonlinear_arith);
    assert((sy * sy) * (sp * sp + cp * cp) == (sy * sy) * (s * s));
    assert((cy * cy) * (s * s) + (sy * sy) * (s * s) == (cy * cy + sy * sy) * (s * s))
        by (nonlinear_arith);
    assert((cy * cy + sy * sy) * (s * s) == (s * s) * (s * s));
    // Columns 0 and 1, columns 1 and 2: the pitch products cancel directly.
    assert((-(sy * s)) * 0 + (-(cy * sp)) * (cp * s) + (-(cy * cp)) * (-(sp * s)) == 0)
        by (nonlinear_arith);
    assert(0 * (cy * s) + (cp * s) * (-(sy * sp)) + (-(sp * s)) * (-(sy * cp)) == 0)
        by (nonlinear_arith);
    // Columns 0 and 2: the pitch squares gather against the yaw product.
    assert((-(sy * s)) * (cy * s) == -((sy * cy) * (s * s))) by (nonlinear_arith);
    assert((-(cy * sp)) * (-(sy * sp)) == (sy * cy) * (sp * sp)) by (nonlinear_arith);
    assert((-(cy * cp)) * (-(sy * cp)) == (sy * cy) * (cp * cp)) by (nonlinear_arith);
    assert((sy * cy) * (sp * sp) + (sy * cy) * (cp * cp) == (sy * cy) * (sp * sp + cp * cp))
        by (nonlinear_arith);
    assert((sy * cy) * (sp * sp + cp * cp) == (sy * cy) * (s * s));
}

/// The pitch that results from a whole sequence of orientation updates,
/// each one adding its delta and clamping, as [`Camera::update`] does.
pub open spec fn pitch_after(p0: int, deltas: Seq<int>) -> int
    decreases deltas.len(),
{
    if deltas.len() == 0 {
        p0
    } else {
        clamped_pitch(pitch_after(p0, deltas.drop_last()) + deltas.last())
    }
}

/// However long a sequence of orientation updates runs and however large its
/// deltas are, a pitch that starts clamped stays within
/// `[-PITCH_LIMIT, PITCH_LIMIT]`.
pub proof fn lemma_pitch_always_clamped(p0: int, deltas: Seq<int>)
    requires
        -PITCH_LIMIT <= p0 <= PITCH_LIMIT,
    ensures
        -PITCH_LIMIT <= pitch_after(p0, deltas) <= PITCH_LIMIT,
    decreases deltas.len(),
{
    if deltas.len() > 0 {
        lemma_pitch_always_clamped(p0, deltas.drop_last());
    }
}

/// The clamp is idempotent at saturation: more delta in the direction of a
/// saturated pitch leaves it at the limit.
pub proof fn lemma_pitch_clamp_saturates(p: int, d: int)
    requires
        (p == PITCH_LIMIT && d >= 0) || (p == -PITCH_LIMIT && d <= 0),
    ensures
        clamped_pitch(p + d) == p,
{
}

} // verus!
