use nanocraft::fixed::SCALE;
use nanocraft::input::{KeyAction, MotionAccumulators, MouseLook, MoveKey};

#[test]
fn press_and_release_map_to_signed_counts() {
    let mut a = MotionAccumulators::new();
    a.apply_key(MoveKey::Left, KeyAction::Press);
    assert_eq!((a.x, a.y, a.z), (1, 0, 0));
    a.apply_key(MoveKey::Right, KeyAction::Press);
    assert_eq!((a.x, a.y, a.z), (0, 0, 0));
    a.apply_key(MoveKey::Forward, KeyAction::Press);
    assert_eq!((a.x, a.y, a.z), (0, 0, -1));
    a.apply_key(MoveKey::Back, KeyAction::Press);
    assert_eq!((a.x, a.y, a.z), (0, 0, 0));
    a.apply_key(MoveKey::Rise, KeyAction::Press);
    assert_eq!((a.x, a.y, a.z), (0, 1, 0));
    a.apply_key(MoveKey::Fall, KeyAction::Press);
    assert_eq!((a.x, a.y, a.z), (0, 0, 0));
}

#[test]
fn opposing_held_keys_cancel_to_zero_velocity() {
    let mut a = MotionAccumulators::new();
    a.apply_key(MoveKey::Forward, KeyAction::Press);
    a.apply_key(MoveKey::Back, KeyAction::Press);
    assert_eq!(a.z, 0);
    a.apply_key(MoveKey::Back, KeyAction::Release);
    assert_eq!(a.z, -1);
    a.apply_key(MoveKey::Forward, KeyAction::Release);
    assert_eq!(a.z, 0);
}

#[test]
fn balanced_sequence_restores_strafe_accumulator() {
    let mut a = MotionAccumulators::new();
    a.apply_key(MoveKey::Right, KeyAction::Press);
    let before = a.x;
    // Presses and releases balance per key, in scrambled order.
    let events = [
        (MoveKey::Left, KeyAction::Press),
        (MoveKey::Left, KeyAction::Press),
        (MoveKey::Right, KeyAction::Press),
        (MoveKey::Left, KeyAction::Release),
        (MoveKey::Right, KeyAction::Release),
        (MoveKey::Left, KeyAction::Release),
    ];
    for (key, action) in events {
        a.apply_key(key, action);
    }
    assert_eq!(a.x, before);
}

#[test]
fn balanced_sequence_restores_vertical_and_walk_accumulators() {
    let mut a = MotionAccumulators::new();
    let events = [
        (MoveKey::Rise, KeyAction::Press),
        (MoveKey::Forward, KeyAction::Press),
        (MoveKey::Fall, KeyAction::Press),
        (MoveKey::Forward, KeyAction::Release),
        (MoveKey::Rise, KeyAction::Release),
        (MoveKey::Back, KeyAction::Press),
        (MoveKey::Back, KeyAction::Release),
        (MoveKey::Fall, KeyAction::Release),
    ];
    for (key, action) in events {
        a.apply_key(key, action);
    }
    assert_eq!((a.x, a.y, a.z), (0, 0, 0));
}

#[test]
fn first_mouse_sample_produces_no_deltas() {
    let mut m = MouseLook::new(SCALE / 10);
    let d = m.sample(400 * SCALE, 300 * SCALE);
    assert_eq!(d, (0, 0));
    assert!(!m.first_sample);
    assert_eq!(m.last_x, 400 * SCALE);
    assert_eq!(m.last_y, 300 * SCALE);
}

#[test]
fn second_mouse_sample_yields_scaled_offsets_with_inverted_pitch() {
    // Unit sensitivity keeps the arithmetic exact.
    let mut m = MouseLook::new(SCALE);
    let _ = m.sample(400 * SCALE, 300 * SCALE);
    let d = m.sample(410 * SCALE, 280 * SCALE);
    // Yaw moves by (x1 - x0) * s, pitch by (y0 - y1) * s: y is inverted.
    assert_eq!(d.0, 10 * SCALE);
    assert_eq!(d.1, 20 * SCALE);
}

#[test]
fn mouse_sensitivity_scales_deltas() {
    let mut m = MouseLook::new(SCALE / 4);
    let _ = m.sample(0, 0);
    let d = m.sample(8 * SCALE, -4 * SCALE);
    assert_eq!(d.0, 2 * SCALE);
    assert_eq!(d.1, SCALE);
}

#[test]
fn mouse_samples_chain_between_consecutive_positions() {
    let mut m = MouseLook::new(SCALE);
    let _ = m.sample(100 * SCALE, 100 * SCALE);
    let d1 = m.sample(103 * SCALE, 101 * SCALE);
    let d2 = m.sample(101 * SCALE, 99 * SCALE);
    assert_eq!(d1, (3 * SCALE, -SCALE));
    assert_eq!(d2, (-2 * SCALE, 2 * SCALE));
}
