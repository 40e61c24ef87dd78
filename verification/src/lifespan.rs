//! The timing state machine that drives one animation target.
//!
//! A lifespan begins as a relative duration, resolves that duration into an
//! absolute deadline the first time it sees the frame clock, and ends in a
//! terminal finished state as soon as the clock reaches the deadline.

use vstd::prelude::*;

use crate::interp::{progress_full, progress_zero, Progress};

verus! {

/// Where one animation stands in time.  All times are milliseconds of the
/// host's monotonic "since start" frame clock.
#[derive(Clone, Copy, PartialEq, Eq, Structural, Debug)]
pub enum Lifespan {
    /// Not yet started; holds the relative duration the animation will run.
    Pending(u64),
    /// Running: the time it started, the last frame time it saw, and the
    /// absolute deadline (`start` plus the pending duration).
    Active { start: u64, current: u64, deadline: u64 },
    /// Over.  Terminal: no advance leaves this state.
    Finished,
}

/// An active lifespan keeps its three timestamps ordered; the other states
/// carry nothing to get wrong.
pub open spec fn lifespan_wf(l: Lifespan) -> bool {
    match l {
        Lifespan::Active { start, current, deadline } => start <= current <= deadline,
        _ => true,
    }
}

/// The frame times at which a lifespan may be advanced: the clock is
/// monotonic, so an active lifespan never sees a time before its start, and
/// a pending duration must resolve to a deadline the clock can represent.
pub open spec fn lifespan_ready(l: Lifespan, now: u64) -> bool {
    lifespan_wf(l) && match l {
        Lifespan::Pending(d) => now + d <= u64::MAX,
        Lifespan::Active { start, .. } => start <= now,
        Lifespan::Finished => true,
    }
}

/// One advance of the state machine.  A pending duration resolves to an
/// absolute deadline at the first advance; an active lifespan whose deadline
/// the clock has reached finishes, and a zero-length one therefore finishes
/// on the advance that starts it; finished is terminal.
pub open spec fn spec_advance(l: Lifespan, now: u64) -> Lifespan {
    match l {
        Lifespan::Pending(d) => if d == 0 {
            Lifespan::Finished
        } else {
            Lifespan::Active { start: now, current: now, deadline: (now + d) as u64 }
        },
        Lifespan::Active { start, current, deadline } => if now >= deadline {
            Lifespan::Finished
        } else {
            Lifespan::Active { start, current: now, deadline }
        },
        Lifespan::Finished => Lifespan::Finished,
    }
}

/// Normalized progress of a lifespan: none while pending, all of it once
/// finished or when the animation has zero length, and otherwise the exact
/// share of the total time that has elapsed.
pub open spec fn spec_progress(l: Lifespan) -> Progress {
    match l {
        Lifespan::Pending(_) => progress_zero(),
        Lifespan::Finished => progress_full(),
        Lifespan::Active { start, current, deadline } => if deadline == start {
            progress_full()
        } else {
            Progress { num: (current - start) as u64, den: (deadline - start) as u64 }
        },
    }
}

/// Law: however long an animation runs, a lifespan created from duration
/// `d`, started by an advance at any time `t`, and advanced again at
/// `t + d`, is finished and reports full progress.  (For `d == 0` the first
/// advance already finishes it.)
pub proof fn lemma_deadline_is_kept(d: u64, t: u64)
    requires
        t + d <= u64::MAX,
    ensures
        ({
            let done = spec_advance(spec_advance(Lifespan::Pending(d), t), (t + d) as u64);
            done is Finished && spec_progress(done) == progress_full()
        }),
{
}

/// Law: a zero-length lifespan finishes on its very first advance and
/// reports full progress at once; no elapsed/total division is involved.
pub proof fn lemma_zero_length_is_immediate(t: u64)
    ensures
        spec_advance(Lifespan::Pending(0), t) is Finished,
        spec_progress(spec_advance(Lifespan::Pending(0), t)) == progress_full(),
{
}

impl Lifespan {
    /// A lifespan that will run for `millis` milliseconds once started.
    pub fn from_millis(millis: u64) -> (l: Lifespan)
        ensures
            l == Lifespan::Pending(millis),
    {
        Lifespan::Pending(millis)
    }

    /// Advances the state machine to frame time `now`.
    pub fn update(self, now: u64) -> (l: Lifespan)
        requires
            lifespan_ready(self, now),
        ensures
            l == spec_advance(self, now),
            lifespan_wf(l),
    {
        match self {
            Lifespan::Pending(d) => {
                if d == 0 {
                    Lifespan::Finished
                } else {
                    Lifespan::Active { start: now, current: now, deadline: now + d }
                }
            },
            Lifespan::Active { start, current: _, deadline } => {
                if now >= deadline {
                    Lifespan::Finished
                } else {
                    Lifespan::Active { start, current: now, deadline }
                }
            },
            Lifespan::Finished => Lifespan::Finished,
        }
    }
}

/// The lifespan of a target that should resolve essentially immediately: a
/// pending animation of zero length.
impl Default for Lifespan {
    fn default() -> (l: Lifespan)
        ensures
            l == Lifespan::Pending(0),
    {
        Lifespan::Pending(0)
    }
}

} // verus!
