//! The per-frame state machine: one struct owns the camera, the motion
//! accumulators, the mouse-look state and the frame clock, and two
//! functions decide everything a frame does — how each input event changes
//! the state, and how a time step integrates movement. The event loop
//! around it only polls the platform, forwards events, and draws.

use vstd::prelude::*;

verus! {

use crate::camera::{
    clamped_pitch,
    in_pos_range,
    in_view_range,
    Camera,
    Direction,
    Trig,
    SPEED_LIMIT,
    UNITS_LIMIT,
};
use crate::clock::FrameClock;
use crate::fixed::{
    fp_step,
    lemma_mul_bound,
    lemma_step_bound,
    lemma_step_of_zero_velocity,
    step,
    DT_LIMIT,
    SCALE,
};
use crate::input::{
    lemma_sample_deltas_bound,
    mouse_wf,
    sample_deltas,
    sample_next,
    x_delta,
    y_delta,
    z_delta,
    KeyAction,
    MotionAccumulators,
    MouseLook,
    MoveKey,
    MOUSE_LIMIT,
};

/// Largest yaw magnitude the event handler accepts; one sample's
/// orientation delta keeps the new yaw well inside `i64`.
pub const YAW_LIMIT: i64 = 0x1_0000_0000_0000;

/// One input event, as the platform host hands them over: a movement key
/// changing state, or an absolute cursor sample.
#[derive(Clone, Copy, Debug, PartialEq, Eq, Structural)]
pub enum InputEvent {
    Key(MoveKey, KeyAction),
    MouseMove(i64, i64),
}

/// Accumulators are small enough to feed movement integration.
pub open spec fn in_units_range(a: MotionAccumulators) -> bool {
    &&& -UNITS_LIMIT <= a.x <= UNITS_LIMIT
    &&& -UNITS_LIMIT <= a.y <= UNITS_LIMIT
    &&& -UNITS_LIMIT <= a.z <= UNITS_LIMIT
}

/// All mutable state of the render loop.
pub struct FrameState {
    pub camera: Camera,
    pub accumulators: MotionAccumulators,
    pub mouse: MouseLook,
    pub clock: FrameClock,
}

impl FrameState {
    /// Gather a freshly built camera and mouse-look into one loop state,
    /// with the accumulators at rest and the clock at zero.
    pub fn new(camera: Camera, mouse: MouseLook) -> (s: FrameState)
        ensures
            s.camera == camera,
            s.mouse == mouse,
            s.accumulators == (MotionAccumulators { x: 0, y: 0, z: 0 }),
            s.clock == (FrameClock { frame_count: 0, elapsed: 0 }),
    {
        FrameState { camera, mouse, accumulators: MotionAccumulators::new(), clock: FrameClock::new() }
    }

    /// Fold one input event into the state. A key event moves only the
    /// accumulators; a cursor sample moves only the mouse-look state and
    /// the camera's orientation, through the clamping update.
    pub fn handle_event(&mut self, event: InputEvent)
        requires
            mouse_wf(old(self).mouse),
            -YAW_LIMIT <= old(self).camera.yaw <= YAW_LIMIT,
            -YAW_LIMIT <= old(self).camera.pitch <= YAW_LIMIT,
            i64::MIN < old(self).accumulators.x < i64::MAX,
            i64::MIN < old(self).accumulators.y < i64::MAX,
            i64::MIN < old(self).accumulators.z < i64::MAX,
            event matches InputEvent::MouseMove(x, y) ==> -MOUSE_LIMIT <= x <= MOUSE_LIMIT
                && -MOUSE_LIMIT <= y <= MOUSE_LIMIT,
        ensures
            (event matches InputEvent::Key(key, action) ==> {
                &&& final(self).accumulators.x == old(self).accumulators.x + x_delta(key, action)
                &&& final(self).accumulators.y == old(self).accumulators.y + y_delta(key, action)
                &&& final(self).accumulators.z == old(self).accumulators.z + z_delta(key, action)
                &&& final(self).camera == old(self).camera
                &&& final(self).mouse == old(self).mouse
            }),
            (event matches InputEvent::MouseMove(x, y) ==> {
                &&& final(self).mouse == sample_next(old(self).mouse, x, y)
                &&& final(self).camera.yaw == old(self).camera.yaw + sample_deltas(
                    old(self).mouse,
                    x as int,
                    y as int,
                ).0
                &&& final(self).camera.pitch == clamped_pitch(
                    old(self).camera.pitch + sample_deltas(old(self).mouse, x as int, y as int).1,
                )
                &&& final(self).camera.position == old(self).camera.position
                &&& final(self).camera.up == old(self).camera.up
                &&& final(self).camera.movement_speed == old(self).camera.movement_speed
                &&& final(self).accumulators == old(self).accumulators
            }),
            final(self).clock == old(self).clock,
    {
        match event {
            InputEvent::Key(key, action) => {
                self.accumulators.apply_key(key, action);
            },
            InputEvent::MouseMove(x, y) => {
                proof {
                    lemma_sample_deltas_bound(self.mouse, x as int, y as int);
                }
                let deltas = self.mouse.sample(x, y);
                self.camera.update(deltas.0, deltas.1);
            },
        }
    }

    /// Advance one frame by its time step: count the frame on the clock —
    /// reporting the rate once a second of frame time has accumulated — and
    /// integrate the accumulators into the camera position, strafe and walk
    /// through the orientation's trigonometry, vertical movement straight
    /// along the world y axis.
    pub fn advance_frame(&mut self, delta_time: i64, t: &Trig) -> (fps: Option<u64>)
        requires
            old(self).camera.wf(),
            t.wf(),
            in_pos_range(old(self).camera.position),
            in_units_range(old(self).accumulators),
            old(self).clock.wf(),
            old(self).clock.frame_count < u64::MAX,
            0 <= delta_time <= DT_LIMIT,
        ensures
            final(self).camera.position.x == old(self).camera.position.x + step(
                t.sy as int,
                old(self).accumulators.x as int * old(self).camera.movement_speed as int,
                delta_time as int,
            ) - step(
                t.cy as int,
                old(self).accumulators.z as int * old(self).camera.movement_speed as int,
                delta_time as int,
            ),
            final(self).camera.position.z == old(self).camera.position.z + step(
                -(t.cy as int),
                old(self).accumulators.x as int * old(self).camera.movement_speed as int,
                delta_time as int,
            ) - step(
                t.sy as int,
                old(self).accumulators.z as int * old(self).camera.movement_speed as int,
                delta_time as int,
            ),
            final(self).camera.position.y == old(self).camera.position.y + step(
                SCALE as int,
                old(self).accumulators.y as int * old(self).camera.movement_speed as int,
                delta_time as int,
            ),
            old(self).accumulators.x == 0 && old(self).accumulators.y == 0 && old(
                self,
            ).accumulators.z == 0 ==> final(self).camera.position == old(self).camera.position,
            in_view_range(final(self).camera.position),
            final(self).camera.yaw == old(self).camera.yaw,
            final(self).camera.pitch == old(self).camera.pitch,
            final(self).camera.up == old(self).camera.up,
            final(self).camera.movement_speed == old(self).camera.movement_speed,
            final(self).camera.wf(),
            final(self).accumulators == old(self).accumulators,
            final(self).mouse == old(self).mouse,
            final(self).clock.wf(),
            old(self).clock.elapsed + delta_time >= SCALE ==> fps == Some(
                (old(self).clock.frame_count + 1) as u64,
            ) && final(self).clock == (FrameClock { frame_count: 0, elapsed: 0 }),
            old(self).clock.elapsed + delta_time < SCALE ==> fps is None && final(self).clock == (
            FrameClock {
                frame_count: (old(self).clock.frame_count + 1) as u64,
                elapsed: (old(self).clock.elapsed + delta_time) as i64,
            }),
    {
        let fps = self.clock.tick(delta_time);
        proof {
            lemma_mul_bound(
                self.accumulators.x as int,
                self.camera.movement_speed as int,
                UNITS_LIMIT as int,
                SPEED_LIMIT as int,
            );
            lemma_mul_bound(
                self.accumulators.y as int,
                self.camera.movement_speed as int,
                UNITS_LIMIT as int,
                SPEED_LIMIT as int,
            );
            lemma_mul_bound(
                self.accumulators.z as int,
                self.camera.movement_speed as int,
                UNITS_LIMIT as int,
                SPEED_LIMIT as int,
            );
            assert(self.accumulators.x == 0 ==> self.accumulators.x as int
                * self.camera.movement_speed as int == 0) by (nonlinear_arith);
            assert(self.accumulators.y == 0 ==> self.accumulators.y as int
                * self.camera.movement_speed as int == 0) by (nonlinear_arith);
            assert(self.accumulators.z == 0 ==> self.accumulators.z as int
                * self.camera.movement_speed as int == 0) by (nonlinear_arith);
            lemma_step_of_zero_velocity(t.sy as int, delta_time as int);
            lemma_step_of_zero_velocity(t.cy as int, delta_time as int);
            lemma_step_of_zero_velocity(-(t.cy as int), delta_time as int);
            lemma_step_of_zero_velocity(SCALE as int, delta_time as int);
            let ix = self.accumulators.x as int * self.camera.movement_speed as int;
            let iy = self.accumulators.y as int * self.camera.movement_speed as int;
            let iz = self.accumulators.z as int * self.camera.movement_speed as int;
            lemma_step_bound(t.sy as int, ix, delta_time as int);
            lemma_step_bound(-(t.cy as int), ix, delta_time as int);
            lemma_step_bound(t.cy as int, iz, delta_time as int);
            lemma_step_bound(t.sy as int, iz, delta_time as int);
            lemma_step_bound(SCALE as int, iy, delta_time as int);
        }
        let vx = self.accumulators.x * self.camera.movement_speed;
        let vy = self.accumulators.y * self.camera.movement_speed;
        let vz = self.accumulators.z * self.camera.movement_speed;
        self.camera.process_keyboard(Direction::X, vx, delta_time, t);
        self.camera.process_keyboard(Direction::Z, vz, delta_time, t);
        let dy = fp_step(SCALE, vy, delta_time);
        self.camera.position.y = self.camera.position.y + dy;
        fps
    }
}

} // verus!
