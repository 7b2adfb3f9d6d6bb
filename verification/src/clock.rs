//! The frame clock: counts frames and reports the count once per second of
//! accumulated frame time, for the window-title diagnostics.

use vstd::prelude::*;

verus! {

use crate::fixed::{DT_LIMIT, SCALE};

/// Rolling frame counter and the fixed-point seconds accumulated since the
/// last report.
#[derive(Clone, Copy, Debug, PartialEq, Eq, Structural)]
pub struct FrameClock {
    pub frame_count: u64,
    pub elapsed: i64,
}

impl FrameClock {
    /// Less than one full second is pending: `tick` resets `elapsed`
    /// whenever it crosses `SCALE`.
    pub open spec fn wf(self) -> bool {
        0 <= self.elapsed < SCALE
    }

    /// A clock with nothing counted yet.
    pub fn new() -> (c: FrameClock)
        ensures
            c == (FrameClock { frame_count: 0, elapsed: 0 }),
            c.wf(),
    {
        FrameClock { frame_count: 0, elapsed: 0 }
    }

    /// Count one frame and accumulate its time step. Once a full second has
    /// accumulated, report the frame count — the current frame included —
    /// and start the next measuring interval from zero.
    pub fn tick(&mut self, delta_time: i64) -> (fps: Option<u64>)
        requires
            old(self).wf(),
            0 <= delta_time <= DT_LIMIT,
            old(self).frame_count < u64::MAX,
        ensures
            final(self).wf(),
            old(self).elapsed + delta_time >= SCALE ==> {
                &&& fps == Some((old(self).frame_count + 1) as u64)
                &&& final(self).frame_count == 0
                &&& final(self).elapsed == 0
            },
            old(self).elapsed + delta_time < SCALE ==> {
                &&& fps is None
                &&& final(self).frame_count == old(self).frame_count + 1
                &&& final(self).elapsed == old(self).elapsed + delta_time
            },
    {
        self.frame_count = self.frame_count + 1;
        self.elapsed = self.elapsed + delta_time;
        if self.elapsed >= SCALE {
            let count = self.frame_count;
            self.frame_count = 0;
            self.elapsed = 0;
            Some(count)
        } else {
            None
        }
    }
}

} // verus!
