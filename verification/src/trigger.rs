//! The wall-clock edge detector that schedules the time display.
//!
//! Once per poll the detector looks at the second hand of the wall clock.
//! A configurable lead time before each minute boundary it emits, exactly
//! once per minute, a target showing the time the clock will read when the
//! transition completes; early in the next minute it re-arms.

use vstd::prelude::*;

use crate::lifespan::Lifespan;
use crate::target::{spec_time_grid, target_wf, ClockTarget};

verus! {

/// How long before a minute boundary the time display is emitted, and how
/// long its transition runs, in seconds.
pub const LEAD_TIME_SECONDS: u64 = 5;

/// The second of the minute at which the trigger fires; polls before it
/// (while armed) re-arm the detector.
pub const TRIGGER_TIME_SECONDS: u64 = 60 - LEAD_TIME_SECONDS;

/// The edge detector's whole state: whether it has already fired within the
/// current minute window.
pub struct TriggerTime {
    /// True from the moment the trigger fires until a poll early in the
    /// next minute re-arms it.
    pub armed: bool,
}

impl TriggerTime {
    /// One poll of the wall clock at `now_unix_millis` milliseconds since
    /// the epoch.  In the window from second `TRIGGER_TIME_SECONDS` to the
    /// minute boundary the first poll fires, arming the detector and
    /// emitting the target that will display the time `LEAD_TIME_SECONDS`
    /// from now, over a transition of that same length; the first poll
    /// before the window while armed re-arms silently; every other poll
    /// does nothing.
    pub fn trigger(&mut self, now_unix_millis: u64) -> (r: Option<ClockTarget>)
        requires
            now_unix_millis + LEAD_TIME_SECONDS * 1000 <= u64::MAX,
        ensures
            ({
                let seconds = (now_unix_millis / 1000) % 60;
                if old(self).armed && seconds < TRIGGER_TIME_SECONDS {
                    !final(self).armed && r is None
                } else if !old(self).armed && seconds >= TRIGGER_TIME_SECONDS {
                    &&& final(self).armed
                    &&& r matches Some(t)
                    &&& target_wf(t)
                    &&& t.clocklets@ == spec_time_grid(
                        (now_unix_millis + LEAD_TIME_SECONDS * 1000) as u64,
                    )
                    &&& t.extra_turns is None
                    &&& t.lifespan == Lifespan::Pending((LEAD_TIME_SECONDS * 1000) as u64)
                } else {
                    final(self).armed == old(self).armed && r is None
                }
            }),
    {
        let seconds = (now_unix_millis / 1000) % 60;
        if self.armed && seconds < TRIGGER_TIME_SECONDS {
            self.armed = false;
            Option::None
        } else if !self.armed && seconds >= TRIGGER_TIME_SECONDS {
            self.armed = true;
            let target = ClockTarget::from_time(
                now_unix_millis + LEAD_TIME_SECONDS * 1000,
                Lifespan::from_millis(LEAD_TIME_SECONDS * 1000),
            );
            Option::Some(target)
        } else {
            Option::None
        }
    }
}

/// A detector that has not fired yet.
impl Default for TriggerTime {
    fn default() -> (t: TriggerTime)
        ensures
            !t.armed,
    {
        TriggerTime { armed: false }
    }
}

} // verus!
