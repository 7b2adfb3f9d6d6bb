//! The input-to-motion translator: per-axis accumulators driven by key
//! press/release pairs, and the mouse-look state machine that turns absolute
//! cursor samples into orientation deltas.
//!
//! Each accumulator counts held keys rather than storing a velocity: a press
//! and its matching release contribute exactly opposite amounts, so holding
//! two opposing keys nets to zero and any balanced sequence of events leaves
//! the accumulator where it started — proved below.

use vstd::prelude::*;

verus! {

use crate::fixed::{div_trunc, fp_scale_down, lemma_div_trunc_bound, lemma_mul_bound, SCALE};

/// Largest magnitude of a mouse coordinate fed to [`MouseLook::sample`].
pub const MOUSE_LIMIT: i64 = 0x1_0000_0000;

/// Largest mouse sensitivity a [`MouseLook`] may be built with.
pub const SENS_LIMIT: i64 = 0x100_0000;

/// Largest orientation delta one cursor sample can produce:
/// `2 * MOUSE_LIMIT * SENS_LIMIT / SCALE`.
pub const LOOK_DELTA_LIMIT: i64 = 0x200_0000_0000;

/// The movement keys: strafing left and right, walking forward and back,
/// rising and falling.
#[derive(Clone, Copy, Debug, PartialEq, Eq, Structural)]
pub enum MoveKey {
    Left,
    Right,
    Forward,
    Back,
    Rise,
    Fall,
}

/// A key went down or came up.
#[derive(Clone, Copy, Debug, PartialEq, Eq, Structural)]
pub enum KeyAction {
    Press,
    Release,
}

/// What one key event contributes to the strafe accumulator: pressing
/// `Left` and releasing `Right` push it up, their mirrors push it down.
pub open spec fn x_delta(key: MoveKey, action: KeyAction) -> int {
    match (key, action) {
        (MoveKey::Left, KeyAction::Press) => 1,
        (MoveKey::Right, KeyAction::Release) => 1,
        (MoveKey::Left, KeyAction::Release) => -1,
        (MoveKey::Right, KeyAction::Press) => -1,
        _ => 0,
    }
}

/// What one key event contributes to the vertical accumulator.
pub open spec fn y_delta(key: MoveKey, action: KeyAction) -> int {
    match (key, action) {
        (MoveKey::Rise, KeyAction::Press) => 1,
        (MoveKey::Fall, KeyAction::Release) => 1,
        (MoveKey::Rise, KeyAction::Release) => -1,
        (MoveKey::Fall, KeyAction::Press) => -1,
        _ => 0,
    }
}

/// What one key event contributes to the forward/back accumulator: pressing
/// `Forward` drives it negative, matching the camera's convention that the
/// walk axis subtracts the flattened look direction.
pub open spec fn z_delta(key: MoveKey, action: KeyAction) -> int {
    match (key, action) {
        (MoveKey::Forward, KeyAction::Press) => -1,
        (MoveKey::Back, KeyAction::Release) => -1,
        (MoveKey::Forward, KeyAction::Release) => 1,
        (MoveKey::Back, KeyAction::Press) => 1,
        _ => 0,
    }
}

/// The three per-axis accumulators: `x` strafe, `y` vertical, `z`
/// forward/back.
#[derive(Clone, Copy, Debug, PartialEq, Eq, Structural)]
pub struct MotionAccumulators {
    pub x: i64,
    pub y: i64,
    pub z: i64,
}

impl MotionAccumulators {
    /// All axes at rest.
    pub fn new() -> (a: MotionAccumulators)
        ensures
            a == (MotionAccumulators { x: 0, y: 0, z: 0 }),
    {
        MotionAccumulators { x: 0, y: 0, z: 0 }
    }

    /// Fold one key event into the accumulators.
    pub fn apply_key(&mut self, key: MoveKey, action: KeyAction)
        requires
            i64::MIN < old(self).x < i64::MAX,
            i64::MIN < old(self).y < i64::MAX,
            i64::MIN < old(self).z < i64::MAX,
        ensures
            final(self).x == old(self).x + x_delta(key, action),
            final(self).y == old(self).y + y_delta(key, action),
            final(self).z == old(self).z + z_delta(key, action),
    {
        match (key, action) {
            (MoveKey::Left, KeyAction::Press) | (MoveKey::Right, KeyAction::Release) => {
                self.x = self.x + 1;
            },
            (MoveKey::Left, KeyAction::Release) | (MoveKey::Right, KeyAction::Press) => {
                self.x = self.x - 1;
            },
            (MoveKey::Forward, KeyAction::Press) | (MoveKey::Back, KeyAction::Release) => {
                self.z = self.z - 1;
            },
            (MoveKey::Forward, KeyAction::Release) | (MoveKey::Back, KeyAction::Press) => {
                self.z = self.z + 1;
            },
            (MoveKey::Rise, KeyAction::Press) | (MoveKey::Fall, KeyAction::Release) => {
                self.y = self.y + 1;
            },
            (MoveKey::Rise, KeyAction::Release) | (MoveKey::Fall, KeyAction::Press) => {
                self.y = self.y - 1;
            },
        }
    }
}

/// The strafe accumulator after folding a whole sequence of key events.
pub open spec fn x_after(x0: int, events: Seq<(MoveKey, KeyAction)>) -> int
    decreases events.len(),
{
    if events.len() == 0 {
        x0
    } else {
        x_after(x0, events.drop_last()) + x_delta(events.last().0, events.last().1)
    }
}

/// The vertical accumulator after folding a whole sequence of key events.
pub open spec fn y_after(y0: int, events: Seq<(MoveKey, KeyAction)>) -> int
    decreases events.len(),
{
    if events.len() == 0 {
        y0
    } else {
        y_after(y0, events.drop_last()) + y_delta(events.last().0, events.last().1)
    }
}

/// The forward/back accumulator after folding a whole sequence of key
/// events.
pub open spec fn z_after(z0: int, events: Seq<(MoveKey, KeyAction)>) -> int
    decreases events.len(),
{
    if events.len() == 0 {
        z0
    } else {
        z_after(z0, events.drop_last()) + z_delta(events.last().0, events.last().1)
    }
}

/// How many events of a sequence are exactly `(key, action)`.
pub open spec fn count_events(
    events: Seq<(MoveKey, KeyAction)>,
    key: MoveKey,
    action: KeyAction,
) -> int
    decreases events.len(),
{
    if events.len() == 0 {
        0
    } else {
        count_events(events.drop_last(), key, action) + if events.last() == (key, action) {
            1int
        } else {
            0int
        }
    }
}

/// The strafe accumulator moves by exactly the press/release imbalance of
/// its two keys.
pub proof fn lemma_x_counts(x0: int, events: Seq<(MoveKey, KeyAction)>)
    ensures
        x_after(x0, events) == x0 + count_events(events, MoveKey::Left, KeyAction::Press)
            + count_events(events, MoveKey::Right, KeyAction::Release) - count_events(
            events,
            MoveKey::Left,
            KeyAction::Release,
        ) - count_events(events, MoveKey::Right, KeyAction::Press),
    decreases events.len(),
{
    if events.len() > 0 {
        lemma_x_counts(x0, events.drop_last());
    }
}

/// The vertical accumulator moves by exactly the press/release imbalance of
/// its two keys.
pub proof fn lemma_y_counts(y0: int, events: Seq<(MoveKey, KeyAction)>)
    ensures
        y_after(y0, events) == y0 + count_events(events, MoveKey::Rise, KeyAction::Press)
            + count_events(events, MoveKey::Fall, KeyAction::Release) - count_events(
            events,
            MoveKey::Rise,
            KeyAction::Release,
        ) - count_events(events, MoveKey::Fall, KeyAction::Press),
    decreases events.len(),
{
    if events.len() > 0 {
        lemma_y_counts(y0, events.drop_last());
    }
}

/// The forward/back accumulator moves by exactly the press/release
/// imbalance of its two keys.
pub proof fn lemma_z_counts(z0: int, events: Seq<(MoveKey, KeyAction)>)
    ensures
        z_after(z0, events) == z0 + count_events(events, MoveKey::Forward, KeyAction::Release)
            + count_events(events, MoveKey::Back, KeyAction::Press) - count_events(
            events,
            MoveKey::Forward,
            KeyAction::Press,
        ) - count_events(events, MoveKey::Back, KeyAction::Release),
    decreases events.len(),
{
    if events.len() > 0 {
        lemma_z_counts(z0, events.drop_last());
    }
}

/// A balanced event sequence — every key on the axis pressed exactly as
/// often as it is released — returns the strafe accumulator to its
/// pre-sequence value, whatever the order of the events.
pub proof fn lemma_balanced_x_restores(x0: int, events: Seq<(MoveKey, KeyAction)>)
    requires
        count_events(events, MoveKey::Left, KeyAction::Press) == count_events(
            events,
            MoveKey::Left,
            KeyAction::Release,
        ),
        count_events(events, MoveKey::Right, KeyAction::Press) == count_events(
            events,
            MoveKey::Right,
            KeyAction::Release,
        ),
    ensures
        x_after(x0, events) == x0,
{
    lemma_x_counts(x0, events);
}

/// A balanced event sequence returns the vertical accumulator to its
/// pre-sequence value.
pub proof fn lemma_balanced_y_restores(y0: int, events: Seq<(MoveKey, KeyAction)>)
    requires
        count_events(events, MoveKey::Rise, KeyAction::Press) == count_events(
            events,
            MoveKey::Rise,
            KeyAction::Release,
        ),
        count_events(events, MoveKey::Fall, KeyAction::Press) == count_events(
            events,
            MoveKey::Fall,
            KeyAction::Release,
        ),
    ensures
        y_after(y0, events) == y0,
{
    lemma_y_counts(y0, events);
}

/// A balanced event sequence returns the forward/back accumulator to its
/// pre-sequence value.
pub proof fn lemma_balanced_z_restores(z0: int, events: Seq<(MoveKey, KeyAction)>)
    requires
        count_events(events, MoveKey::Forward, KeyAction::Press) == count_events(
            events,
            MoveKey::Forward,
            KeyAction::Release,
        ),
        count_events(events, MoveKey::Back, KeyAction::Press) == count_events(
            events,
            MoveKey::Back,
            KeyAction::Release,
        ),
    ensures
        z_after(z0, events) == z0,
{
    lemma_z_counts(z0, events);
}

/// Mouse-look state: the last cursor sample seen, a first-sample flag that
/// suppresses the initial spurious delta, and the fixed sensitivity.
#[derive(Clone, Copy, Debug, PartialEq, Eq, Structural)]
pub struct MouseLook {
    pub last_x: i64,
    pub last_y: i64,
    pub first_sample: bool,
    pub sensitivity: i64,
}

/// The stored cursor position and the sensitivity are bounded.
pub open spec fn mouse_wf(m: MouseLook) -> bool {
    &&& -MOUSE_LIMIT <= m.last_x <= MOUSE_LIMIT
    &&& -MOUSE_LIMIT <= m.last_y <= MOUSE_LIMIT
    &&& 0 <= m.sensitivity <= SENS_LIMIT
}

/// The orientation deltas one cursor sample produces: none at all for the
/// very first sample, otherwise the cursor offsets scaled by the
/// sensitivity, with the pitch delta inverted because screen y grows
/// downward.
pub open spec fn sample_deltas(m: MouseLook, x: int, y: int) -> (int, int) {
    if m.first_sample {
        (0, 0)
    } else {
        (
            div_trunc((x - m.last_x) * m.sensitivity, SCALE as int),
            div_trunc((m.last_y - y) * m.sensitivity, SCALE as int),
        )
    }
}

/// The mouse-look state after one cursor sample: the sample becomes the
/// stored position and the first-sample flag is spent.
pub open spec fn sample_next(m: MouseLook, x: i64, y: i64) -> MouseLook {
    MouseLook { last_x: x, last_y: y, first_sample: false, sensitivity: m.sensitivity }
}

impl MouseLook {
    /// Fresh mouse-look state: the next sample only seeds the position.
    pub fn new(sensitivity: i64) -> (m: MouseLook)
        requires
            0 <= sensitivity <= SENS_LIMIT,
        ensures
            m == (MouseLook { last_x: 0, last_y: 0, first_sample: true, sensitivity }),
            mouse_wf(m),
    {
        MouseLook { last_x: 0, last_y: 0, first_sample: true, sensitivity }
    }

    /// Take one absolute cursor sample and return the yaw and pitch deltas
    /// it produces.
    pub fn sample(&mut self, x: i64, y: i64) -> (deltas: (i64, i64))
        requires
            mouse_wf(*old(self)),
            -MOUSE_LIMIT <= x <= MOUSE_LIMIT,
            -MOUSE_LIMIT <= y <= MOUSE_LIMIT,
        ensures
            *final(self) == sample_next(*old(self), x, y),
            mouse_wf(*final(self)),
            (deltas.0 as int, deltas.1 as int) == sample_deltas(*old(self), x as int, y as int),
    {
        let d = if self.first_sample {
            (0i64, 0i64)
        } else {
            proof {
                lemma_mul_bound(
                    x as int - self.last_x as int,
                    self.sensitivity as int,
                    2 * MOUSE_LIMIT as int,
                    SENS_LIMIT as int,
                );
                lemma_mul_bound(
                    self.last_y as int - y as int,
                    self.sensitivity as int,
                    2 * MOUSE_LIMIT as int,
                    SENS_LIMIT as int,
                );
            }
            let dyaw = fp_scale_down((x - self.last_x) * self.sensitivity);
            let dpitch = fp_scale_down((self.last_y - y) * self.sensitivity);
            (dyaw, dpitch)
        };
        self.last_x = x;
        self.last_y = y;
        self.first_sample = false;
        d
    }
}

/// The orientation deltas of one cursor sample are bounded by
/// `LOOK_DELTA_LIMIT`.
pub proof fn lemma_sample_deltas_bound(m: MouseLook, x: int, y: int)
    requires
        mouse_wf(m),
        -MOUSE_LIMIT <= x <= MOUSE_LIMIT,
        -MOUSE_LIMIT <= y <= MOUSE_LIMIT,
    ensures
        -LOOK_DELTA_LIMIT <= sample_deltas(m, x, y).0 <= LOOK_DELTA_LIMIT,
        -LOOK_DELTA_LIMIT <= sample_deltas(m, x, y).1 <= LOOK_DELTA_LIMIT,
{
    if !m.first_sample {
        lemma_mul_bound(
            x - m.last_x,
            m.sensitivity as int,
            2 * MOUSE_LIMIT as int,
            SENS_LIMIT as int,
        );
        lemma_mul_bound(
            m.last_y as int - y,
            m.sensitivity as int,
            2 * MOUSE_LIMIT as int,
            SENS_LIMIT as int,
        );
        lemma_div_trunc_bound(
            (x - m.last_x) * m.sensitivity,
            SCALE as int,
            LOOK_DELTA_LIMIT as int,
        );
        lemma_div_trunc_bound(
            (m.last_y - y) * m.sensitivity,
            SCALE as int,
            LOOK_DELTA_LIMIT as int,
        );
    }
}

/// From a fresh mouse-look state, the first sample produces no orientation
/// delta at all, and the second sample `(x1, y1)` after a first `(x0, y0)`
/// produces exactly the offsets between them, scaled by the sensitivity,
/// with the pitch delta inverted.
pub proof fn lemma_first_two_samples(m: MouseLook, x0: i64, y0: i64, x1: i64, y1: i64)
    requires
        m.first_sample,
    ensures
        sample_deltas(m, x0 as int, y0 as int) == (0int, 0int),
        sample_deltas(sample_next(m, x0, y0), x1 as int, y1 as int) == (
            div_trunc((x1 - x0) * m.sensitivity, SCALE as int),
            div_trunc((y0 - y1) * m.sensitivity, SCALE as int),
        ),
{
}

} // verus!
