use nanocraft::camera::{Camera, Direction, Trig, PITCH_LIMIT};
use nanocraft::fixed::SCALE;
use nanocraft::mat4::Vec3;

fn origin() -> Vec3 {
    Vec3 { x: 0, y: 0, z: 0 }
}

/// Exact trigonometry for yaw 0, pitch 0.
fn trig_level_east() -> Trig {
    Trig { sy: 0, cy: SCALE, sp: 0, cp: SCALE }
}

/// Exact trigonometry for yaw -90 degrees, pitch 0.
fn trig_level_north() -> Trig {
    Trig { sy: -SCALE, cy: 0, sp: 0, cp: SCALE }
}

#[test]
fn view_matrix_rows_and_columns_are_orthonormal_at_level_pose() {
    let cam = Camera::new(origin(), 0, 0, SCALE);
    let m = cam.view_matrix(&trig_level_east());
    let rows = [[m.m00, m.m01, m.m02], [m.m10, m.m11, m.m12], [m.m20, m.m21, m.m22]];
    let cols = [[m.m00, m.m10, m.m20], [m.m01, m.m11, m.m21], [m.m02, m.m12, m.m22]];
    for vectors in [rows, cols] {
        for i in 0..3 {
            for j in 0..3 {
                let dot: i64 = vectors[i][0] * vectors[j][0] + vectors[i][1] * vectors[j][1]
                    + vectors[i][2] * vectors[j][2];
                if i == j {
                    assert_eq!(dot, SCALE * SCALE);
                } else {
                    assert_eq!(dot, 0);
                }
            }
        }
    }
}

#[test]
fn view_matrix_looks_along_positive_x_at_yaw_zero() {
    let cam = Camera::new(origin(), 0, 0, SCALE);
    let m = cam.view_matrix(&trig_level_east());
    // The third row is the negated look direction: -(+x).
    assert_eq!([m.m20, m.m21, m.m22], [-SCALE, 0, 0]);
    // The first row is the screen-x axis, the second the adjusted up.
    assert_eq!([m.m00, m.m01, m.m02], [0, 0, SCALE]);
    assert_eq!([m.m10, m.m11, m.m12], [0, SCALE, 0]);
    // Bottom row is the homogeneous row.
    assert_eq!([m.m30, m.m31, m.m32, m.m33], [0, 0, 0, SCALE]);
}

#[test]
fn view_matrix_translation_encodes_negated_position() {
    let pos = Vec3 { x: SCALE, y: 2 * SCALE, z: 3 * SCALE };
    let cam = Camera::new(pos, 0, 0, SCALE);
    let m = cam.view_matrix(&trig_level_east());
    // Rows are (0,0,S), (0,S,0), (-S,0,0): the translation column holds the
    // position carried into camera space and negated.
    assert_eq!(m.m03, -3 * SCALE);
    assert_eq!(m.m13, -2 * SCALE);
    assert_eq!(m.m23, SCALE);
}

#[test]
fn update_accumulates_yaw_freely() {
    let mut cam = Camera::new(origin(), 0, 0, SCALE);
    cam.update(123 * SCALE, 0);
    cam.update(400 * SCALE, 0);
    assert_eq!(cam.yaw, 523 * SCALE);
}

#[test]
fn update_clamps_pitch_high() {
    let mut cam = Camera::new(origin(), 0, 0, SCALE);
    cam.update(0, 1_000_000 * SCALE);
    assert_eq!(cam.pitch, PITCH_LIMIT);
    assert_eq!(cam.pitch, 89 * SCALE);
}

#[test]
fn update_clamps_pitch_low() {
    let mut cam = Camera::new(origin(), 0, 0, SCALE);
    cam.update(0, -1_000_000 * SCALE);
    assert_eq!(cam.pitch, -89 * SCALE);
}

#[test]
fn saturated_pitch_stays_at_limit_under_more_delta() {
    let mut cam = Camera::new(origin(), 0, 0, SCALE);
    cam.update(0, 1_000_000 * SCALE);
    assert_eq!(cam.pitch, PITCH_LIMIT);
    cam.update(0, 50 * SCALE);
    assert_eq!(cam.pitch, PITCH_LIMIT);
    cam.update(0, 1);
    assert_eq!(cam.pitch, PITCH_LIMIT);
}

#[test]
fn move_along_axes_zero_units_leaves_position_unchanged() {
    let start = Vec3 { x: 7 * SCALE, y: -2 * SCALE, z: 11 * SCALE };
    for dt in [0i64, 1, SCALE / 60, SCALE, 16 * SCALE] {
        let mut cam = Camera::new(start, 31 * SCALE, 12 * SCALE, SCALE);
        cam.move_along_axes(0, 0, dt, &trig_level_east());
        assert_eq!(cam.position, start);
    }
}

#[test]
fn forward_one_second_at_yaw_zero_moves_one_unit_along_x() {
    let mut cam = Camera::new(origin(), 0, 0, SCALE);
    // Holding the forward key leaves the walk accumulator at -1.
    cam.move_along_axes(0, -1, SCALE, &trig_level_east());
    assert_eq!(cam.position, Vec3 { x: SCALE, y: 0, z: 0 });
}

#[test]
fn forward_one_second_at_yaw_minus_ninety_moves_one_unit_along_negative_z() {
    let mut cam = Camera::new(origin(), -90 * SCALE, 0, SCALE);
    cam.move_along_axes(0, -1, SCALE, &trig_level_north());
    assert_eq!(cam.position, Vec3 { x: 0, y: 0, z: -SCALE });
}

#[test]
fn strafe_one_second_at_yaw_zero_moves_along_negative_z() {
    let mut cam = Camera::new(origin(), 0, 0, SCALE);
    // The right vector at yaw 0 is (0, 0, -1).
    cam.move_along_axes(1, 0, SCALE, &trig_level_east());
    assert_eq!(cam.position, Vec3 { x: 0, y: 0, z: -SCALE });
}

#[test]
fn strafing_stays_level_when_looking_up() {
    // Pitch 60 degrees up: sp/cp far from level, yaw 0.
    let t = Trig { sy: 0, cy: SCALE, sp: 56756, cp: 32768 };
    let mut cam = Camera::new(origin(), 0, 60 * SCALE, SCALE);
    cam.move_along_axes(0, -1, SCALE, &t);
    // Walking uses the flattened look direction: no vertical drift.
    assert_eq!(cam.position.y, 0);
    assert_eq!(cam.position, Vec3 { x: SCALE, y: 0, z: 0 });
}

#[test]
fn process_keyboard_moves_each_axis_as_contracted() {
    let t = trig_level_east();
    let mut cam = Camera::new(origin(), 0, 0, SCALE);
    // Strafe axis: right vector (0, 0, -1), one unit per second.
    cam.process_keyboard(Direction::X, SCALE, SCALE, &t);
    assert_eq!(cam.position, Vec3 { x: 0, y: 0, z: -SCALE });
    // Walk axis: subtracts the flattened look direction (+x here).
    let mut cam2 = Camera::new(origin(), 0, 0, SCALE);
    cam2.process_keyboard(Direction::Z, SCALE, SCALE, &t);
    assert_eq!(cam2.position, Vec3 { x: -SCALE, y: 0, z: 0 });
}

#[test]
fn half_speed_quarter_second_scales_displacement_exactly() {
    let mut cam = Camera::new(origin(), 0, 0, SCALE / 2);
    cam.move_along_axes(0, -1, SCALE / 4, &trig_level_east());
    // 1 unit/s speed halved, over a quarter second: an eighth of a unit.
    assert_eq!(cam.position, Vec3 { x: SCALE / 8, y: 0, z: 0 });
}
