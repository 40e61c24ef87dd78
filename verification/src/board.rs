//! The board: the committed indicator grid plus the FIFO queue of animation
//! targets, with the per-frame drain-and-interpolate logic.
//!
//! Each frame the board advances the front target.  A finished target
//! retires: its grid becomes the committed grid and the next queued target
//! is processed in the same frame, so expired or zero-length targets never
//! block the queue.  An unfinished target stays at the front; its one-shot
//! perturbation, if it still had one, is subtracted from the committed grid
//! while the rendered grid keeps interpolating toward the target.

use std::collections::VecDeque;

use vstd::prelude::*;

use crate::clocklet::Clocklet;
use crate::glyphs::{digit_wf, Digit};
use crate::interp::{lerp_cell, lerp_clocklet, lerp_grid, progress_wf};
use crate::lifespan::{lifespan_ready, spec_advance, spec_progress, Lifespan};
use crate::target::{
    grid_in_unit_range,
    grid_wf,
    noise_grid,
    spec_set_digit,
    target_wf,
    ClockTarget,
    GRID_CELLS,
};

verus! {

/// The clock face: the grid of indicators last committed, and the queue of
/// transitions still to play, front first.
pub struct Clock {
    /// The committed grid: what the face shows when nothing is animating.
    pub clocklets: Vec<Clocklet>,
    /// Pending transitions, consumed from the front; at most the front one
    /// is ever in flight.
    pub targets: VecDeque<ClockTarget>,
}

/// A board is well formed when its grid is full-sized and every queued
/// target is itself well formed.
pub open spec fn clock_wf(c: Clock) -> bool {
    grid_wf(c.clocklets@) && (forall|i: int|
        0 <= i < c.targets@.len() ==> target_wf(#[trigger] c.targets@[i]))
}

/// What the face shows right now: the committed grid, swept toward the
/// front target by that target's progress whenever one is queued.
pub open spec fn spec_render(grid: Seq<Clocklet>, q: Seq<ClockTarget>) -> Seq<Clocklet> {
    if q.len() > 0 {
        lerp_grid(grid, q[0].clocklets@, spec_progress(q[0].lifespan))
    } else {
        grid
    }
}

/// The grid with a per-cell fraction of a turn subtracted from both hands
/// of every cell: the decaying "extra turns" perturbation.
pub open spec fn spec_sub_extra(g: Seq<Clocklet>, e: Seq<i64>) -> Seq<Clocklet> {
    Seq::new(
        g.len(),
        |i: int|
            Clocklet {
                hour_turns: (g[i].hour_turns - e[i]) as i64,
                minute_turns: (g[i].minute_turns - e[i]) as i64,
            },
    )
}

/// Whether every subtraction of the perturbation stays inside the hands'
/// machine range.
pub open spec fn sub_extra_fits(g: Seq<Clocklet>, e: Seq<i64>) -> bool {
    forall|i: int| #![trigger g[i], e[i]]
        0 <= i < g.len() ==> i64::MIN <= g[i].hour_turns - e[i] <= i64::MAX && i64::MIN <= g[
            i
        ].minute_turns - e[i] <= i64::MAX
}

/// One frame of the board, as a function of the committed grid, the queue
/// and the frame time: drain finished targets from the front (each one
/// committing its grid), and when an unfinished front target remains, take
/// its one-shot perturbation out of the committed grid and keep it queued.
pub open spec fn spec_tick(grid: Seq<Clocklet>, q: Seq<ClockTarget>, now: u64) -> (
    Seq<Clocklet>,
    Seq<ClockTarget>,
)
    decreases q.len(),
{
    if q.len() == 0 {
        (grid, q)
    } else {
        let t = q[0];
        let advanced = spec_advance(t.lifespan, now);
        if advanced is Finished {
            spec_tick(t.clocklets@, q.drop_first(), now)
        } else {
            let drained = match t.extra_turns {
                Option::Some(e) => spec_sub_extra(grid, e@),
                Option::None => grid,
            };
            let kept = ClockTarget { clocklets: t.clocklets, extra_turns: Option::None, lifespan: advanced };
            (drained, seq![kept] + q.drop_first())
        }
    }
}

/// The frame times at which a board may tick: every target the drain will
/// advance is ready for `now`, and if the front target that remains
/// unfinished still carries a perturbation, subtracting it from the grid it
/// will meet stays in range.
pub open spec fn tick_ready(grid: Seq<Clocklet>, q: Seq<ClockTarget>, now: u64) -> bool
    decreases q.len(),
{
    if q.len() == 0 {
        true
    } else {
        let t = q[0];
        lifespan_ready(t.lifespan, now) && if spec_advance(t.lifespan, now) is Finished {
            tick_ready(t.clocklets@, q.drop_first(), now)
        } else {
            match t.extra_turns {
                Option::Some(e) => sub_extra_fits(grid, e@),
                Option::None => true,
            }
        }
    }
}

/// A sequence of frames: `spec_tick` applied once for each entry of `nows`
/// in order.
pub open spec fn run_ticks(grid: Seq<Clocklet>, q: Seq<ClockTarget>, nows: Seq<u64>) -> (
    Seq<Clocklet>,
    Seq<ClockTarget>,
)
    decreases nows.len(),
{
    if nows.len() == 0 {
        (grid, q)
    } else {
        let stepped = spec_tick(grid, q, nows[0]);
        run_ticks(stepped.0, stepped.1, nows.drop_first())
    }
}

/// Law: a single frame at a time that finishes every queued target retires
/// them all, from the front in FIFO order, and commits the last target's
/// grid.  This is in particular the fate of a queue of zero-length or
/// already expired targets: none of them blocks the ones behind it.
pub proof fn lemma_tick_drains_finished(grid: Seq<Clocklet>, q: Seq<ClockTarget>, now: u64)
    requires
        q.len() > 0,
        forall|i: int| 0 <= i < q.len() ==> spec_advance(#[trigger] q[i].lifespan, now) is Finished,
    ensures
        spec_tick(grid, q, now).0 == q.last().clocklets@,
        spec_tick(grid, q, now).1 == Seq::<ClockTarget>::empty(),
    decreases q.len(),
{
    let t = q[0];
    if q.len() == 1 {
        assert(q.drop_first().len() == 0);
        assert(spec_tick(t.clocklets@, q.drop_first(), now).1 =~= Seq::<ClockTarget>::empty());
    } else {
        assert(forall|i: int|
            0 <= i < q.drop_first().len() ==> spec_advance(
                #[trigger] q.drop_first()[i].lifespan,
                now,
            ) is Finished);
        lemma_tick_drains_finished(t.clocklets@, q.drop_first(), now);
        assert(q.drop_first().last() == q.last());
    }
}

/// Law: targets queued together retire strictly in FIFO order, one per
/// frame, and once every duration has been given its time the queue is
/// empty and the committed grid is exactly the last target's grid.
///
/// Concretely: take any queue of pending targets whose (positive) durations
/// are at most `dmax`, and frame times `nows` — one frame to start the
/// front target plus one per target — that each leave at least `dmax`
/// between consecutive frames.  Running those frames drains everything and
/// commits the final grid, whatever the starting grid and whatever
/// perturbations the targets carry.
pub proof fn lemma_fifo_drain(
    grid: Seq<Clocklet>,
    q: Seq<ClockTarget>,
    nows: Seq<u64>,
    dmax: u64,
)
    requires
        q.len() >= 1,
        nows.len() == q.len() + 1,
        forall|i: int|
            0 <= i < q.len() ==> (#[trigger] q[i].lifespan matches Lifespan::Pending(d) && 1 <= d <= dmax),
        forall|j: int| 0 <= j < nows.len() ==> #[trigger] nows[j] + dmax <= u64::MAX,
        forall|j: int| 0 <= j < nows.len() - 1 ==> #[trigger] nows[j] + dmax <= nows[j + 1],
    ensures
        run_ticks(grid, q, nows).0 == q.last().clocklets@,
        run_ticks(grid, q, nows).1 == Seq::<ClockTarget>::empty(),
    decreases q.len(),
{
    let t = q[0];
    let d = t.lifespan->Pending_0;
    let started = Lifespan::Active { start: nows[0], current: nows[0], deadline: (nows[0] + d) as u64 };
    let kept = ClockTarget { clocklets: t.clocklets, extra_turns: Option::None, lifespan: started };
    let rest = q.drop_first();
    let drained = match t.extra_turns {
        Option::Some(e) => spec_sub_extra(grid, e@),
        Option::None => grid,
    };
    // Frame 0 starts the front target; its deadline is at least a frame away.
    assert(spec_advance(t.lifespan, nows[0]) == started);
    assert(spec_tick(grid, q, nows[0]) == (drained, seq![kept] + rest));
    // Frame 1 reaches that deadline, so the front target retires first, and
    // the rest of the frame treats the remaining queue exactly as a first
    // frame would.
    assert(nows[0] + d <= nows[1]);
    assert(spec_advance(started, nows[1]) is Finished);
    assert((seq![kept] + rest)[0] == kept);
    assert((seq![kept] + rest).drop_first() =~= rest);
    assert(spec_tick(drained, seq![kept] + rest, nows[1]) == spec_tick(
        t.clocklets@,
        rest,
        nows[1],
    ));
    let tail_nows = nows.drop_first();
    assert(run_ticks(grid, q, nows) == run_ticks(drained, seq![kept] + rest, tail_nows));
    assert(run_ticks(drained, seq![kept] + rest, tail_nows) == run_ticks(
        spec_tick(t.clocklets@, rest, nows[1]).0,
        spec_tick(t.clocklets@, rest, nows[1]).1,
        tail_nows.drop_first(),
    ));
    assert(run_ticks(t.clocklets@, rest, tail_nows) == run_ticks(
        spec_tick(t.clocklets@, rest, nows[1]).0,
        spec_tick(t.clocklets@, rest, nows[1]).1,
        tail_nows.drop_first(),
    ));
    if q.len() == 1 {
        // Nothing remains: frame 1 leaves the retired grid untouched.
        assert(rest.len() == 0);
        assert(tail_nows.len() == 1);
        assert(spec_tick(t.clocklets@, rest, nows[1]) == (t.clocklets@, rest));
        assert(run_ticks(t.clocklets@, rest, tail_nows).1 =~= Seq::<ClockTarget>::empty());
    } else {
        assert(forall|i: int|
            0 <= i < rest.len() ==> (#[trigger] rest[i].lifespan matches Lifespan::Pending(d2) && 1 <= d2
                <= dmax));
        assert(forall|j: int| 0 <= j < tail_nows.len() ==> #[trigger] tail_nows[j] + dmax <= u64::MAX);
        assert(forall|j: int|
            0 <= j < tail_nows.len() - 1 ==> #[trigger] tail_nows[j] + dmax <= tail_nows[j + 1]);
        lemma_fifo_drain(t.clocklets@, rest, tail_nows, dmax);
        assert(rest.last() == q.last());
    }
}

/// A fresh copy of a grid.
fn copy_grid(g: &Vec<Clocklet>) -> (r: Vec<Clocklet>)
    ensures
        r@ == g@,
{
    let mut r: Vec<Clocklet> = Vec::new();
    let mut i: usize = 0;
    while i < g.len()
        invariant
            i <= g@.len(),
            r@ == g@.subrange(0, i as int),
        decreases g@.len() - i,
    {
        r.push(g[i]);
        proof {
            assert(r@ =~= g@.subrange(0, i + 1));
        }
        i = i + 1;
    }
    proof {
        assert(g@.subrange(0, g@.len() as int) =~= g@);
    }
    r
}

impl Clock {
    /// Appends a transition at the back of the queue; nothing else moves.
    pub fn push_target(&mut self, target: ClockTarget)
        requires
            clock_wf(*old(self)),
            target_wf(target),
        ensures
            clock_wf(*final(self)),
            final(self).clocklets == old(self).clocklets,
            final(self).targets@ == old(self).targets@.push(target),
    {
        self.targets.push_back(target);
    }

    /// Throws the whole queue away in favour of the single target `target`.
    /// If the front target was mid-animation, the grid it was rendering is
    /// committed first, so the face shows the same picture immediately
    /// before and after the call: the interrupt is invisible.
    pub fn clobber_targets(&mut self, target: ClockTarget)
        requires
            clock_wf(*old(self)),
            target_wf(target),
        ensures
            clock_wf(*final(self)),
            final(self).targets@ == seq![target],
            final(self).clocklets@ == if old(self).targets@.len() > 0 && old(self).targets@[0].lifespan
                is Active {
                spec_render(old(self).clocklets@, old(self).targets@)
            } else {
                old(self).clocklets@
            },
    {
        let front_active = self.targets.len() > 0 && match self.targets[0].lifespan {
            Lifespan::Active { .. } => true,
            _ => false,
        };
        if front_active {
            self.clocklets = self.interpolated_clocklets();
        }
        self.targets.clear();
        self.targets.push_back(target);
        proof {
            assert(final(self).targets@ =~= seq![target]);
        }
    }

    /// The committed grid swept toward `target`'s grid by `target`'s
    /// progress, cell by cell.
    pub fn lerp(&self, target: &ClockTarget) -> (g: Vec<Clocklet>)
        requires
            grid_wf(self.clocklets@),
            target_wf(*target),
        ensures
            g@ == lerp_grid(self.clocklets@, target.clocklets@, spec_progress(target.lifespan)),
    {
        let p = target.progress();
        let mut g: Vec<Clocklet> = Vec::new();
        let mut i: usize = 0;
        while i < GRID_CELLS
            invariant
                i <= GRID_CELLS,
                g@.len() == i,
                progress_wf(p),
                p == spec_progress(target.lifespan),
                grid_wf(self.clocklets@),
                grid_wf(target.clocklets@),
                forall|j: int|
                    0 <= j < i ==> g@[j] == lerp_clocklet(
                        self.clocklets@[j],
                        target.clocklets@[j],
                        p,
                    ),
            decreases GRID_CELLS - i,
        {
            let cell = lerp_cell(self.clocklets[i], target.clocklets[i], p);
            g.push(cell);
            i = i + 1;
        }
        proof {
            assert(g@ =~= lerp_grid(
                self.clocklets@,
                target.clocklets@,
                spec_progress(target.lifespan),
            ));
        }
        g
    }

    /// The committed grid wrapped up as a one-second transition target, the
    /// base for interactive single-digit edits.
    fn as_target(&self) -> (t: ClockTarget)
        requires
            clock_wf(*self),
        ensures
            target_wf(t),
            t.clocklets@ == self.clocklets@,
            t.extra_turns is None,
            t.lifespan == Lifespan::Pending(1000),
    {
        ClockTarget {
            clocklets: copy_grid(&self.clocklets),
            extra_turns: Option::None,
            lifespan: Lifespan::from_millis(1000),
        }
    }

    /// Queues a transition that repaints one digit slot of the currently
    /// committed grid with the given glyph, over one second: the
    /// interactive digit edit.
    pub fn target_digit(&mut self, digit: &Digit, position: usize)
        requires
            clock_wf(*old(self)),
            digit_wf(*digit),
        ensures
            clock_wf(*final(self)),
            final(self).clocklets == old(self).clocklets,
            final(self).targets@.len() == old(self).targets@.len() + 1,
            forall|i: int|
                0 <= i < old(self).targets@.len() ==> final(self).targets@[i] == old(
                    self,
                ).targets@[i],
            final(self).targets@.last().clocklets@ == spec_set_digit(
                old(self).clocklets@,
                digit.cells@,
                position as int,
            ),
            final(self).targets@.last().extra_turns is None,
            final(self).targets@.last().lifespan == Lifespan::Pending(1000),
    {
        let mut target = self.as_target();
        target.set_digit(digit, position);
        self.push_target(target);
    }

    /// The grid the face should draw this frame: the committed grid, swept
    /// toward the front target when one is queued.
    pub fn interpolated_clocklets(&self) -> (g: Vec<Clocklet>)
        requires
            clock_wf(*self),
        ensures
            g@ == spec_render(self.clocklets@, self.targets@),
    {
        if self.targets.len() > 0 {
            let front = &self.targets[0];
            self.lerp(front)
        } else {
            copy_grid(&self.clocklets)
        }
    }

    /// Subtracts a per-cell fraction of a turn from both hands of every
    /// committed cell.  Nothing reduces the result modulo a full turn:
    /// repeated decay deliberately drives the raw fractions further and
    /// further negative, and only the renderer wraps them to an angle.
    pub fn sub_assign(&mut self, extra: &Vec<i64>)
        requires
            clock_wf(*old(self)),
            extra@.len() == GRID_CELLS,
            sub_extra_fits(old(self).clocklets@, extra@),
        ensures
            clock_wf(*final(self)),
            final(self).clocklets@ == spec_sub_extra(old(self).clocklets@, extra@),
            final(self).targets == old(self).targets,
    {
        let mut i: usize = 0;
        while i < GRID_CELLS
            invariant
                i <= GRID_CELLS,
                self.targets == old(self).targets,
                self.clocklets@.len() == GRID_CELLS,
                old(self).clocklets@.len() == GRID_CELLS,
                extra@.len() == GRID_CELLS,
                sub_extra_fits(old(self).clocklets@, extra@),
                forall|j: int| i <= j < GRID_CELLS ==> self.clocklets@[j] == old(self).clocklets@[j],
                forall|j: int|
                    0 <= j < i ==> self.clocklets@[j] == spec_sub_extra(
                        old(self).clocklets@,
                        extra@,
                    )[j],
            decreases GRID_CELLS - i,
        {
            let cell = self.clocklets[i];
            let f = extra[i];
            self.clocklets[i] = cell.decay(f);
            i = i + 1;
        }
        proof {
            assert(self.clocklets@ =~= spec_sub_extra(old(self).clocklets@, extra@));
        }
    }

    /// One frame: drains the queue as `spec_tick` describes — finished
    /// targets retire from the front in FIFO order, each committing its
    /// grid; the first unfinished target has its one-shot perturbation
    /// applied to the committed grid and stays at the front.
    pub fn update(&mut self, now: u64)
        requires
            clock_wf(*old(self)),
            tick_ready(old(self).clocklets@, old(self).targets@, now),
        ensures
            clock_wf(*final(self)),
            final(self).clocklets@ == spec_tick(old(self).clocklets@, old(self).targets@, now).0,
            final(self).targets@ == spec_tick(old(self).clocklets@, old(self).targets@, now).1,
    {
        loop
            invariant_except_break
                clock_wf(*self),
                tick_ready(self.clocklets@, self.targets@, now),
                spec_tick(self.clocklets@, self.targets@, now) == spec_tick(
                    old(self).clocklets@,
                    old(self).targets@,
                    now,
                ),
            ensures
                clock_wf(*self),
                self.clocklets@ == spec_tick(old(self).clocklets@, old(self).targets@, now).0,
                self.targets@ == spec_tick(old(self).clocklets@, old(self).targets@, now).1,
            decreases self.targets@.len(),
        {
            let ghost pre_grid = self.clocklets@;
            let ghost pre_q = self.targets@;
            match self.targets.pop_front() {
                Option::None => {
                    break;
                },
                Option::Some(t) => {
                    let (t2, extra) = t.update(now);
                    if t2.is_finished() {
                        let ClockTarget { clocklets, extra_turns: _, lifespan: _ } = t2;
                        self.clocklets = clocklets;
                        proof {
                            assert(spec_tick(pre_grid, pre_q, now) == spec_tick(
                                self.clocklets@,
                                self.targets@,
                                now,
                            ));
                        }
                    } else {
                        if let Option::Some(e) = extra {
                            self.sub_assign(&e);
                        }
                        self.targets.push_front(t2);
                        proof {
                            assert(self.targets@ == spec_tick(pre_grid, pre_q, now).1);
                            assert(self.clocklets@ == spec_tick(pre_grid, pre_q, now).0);
                        }
                        break;
                    }
                },
            }
        }
    }
}

/// A fresh board: a committed grid of pure visual noise and an empty queue.
impl Default for Clock {
    fn default() -> (c: Clock)
        ensures
            clock_wf(c),
            grid_in_unit_range(c.clocklets@),
            c.targets@ == Seq::<ClockTarget>::empty(),
    {
        let c = Clock { clocklets: noise_grid(), targets: VecDeque::new() };
        proof {
            assert(c.targets@ =~= Seq::<ClockTarget>::empty());
        }
        c
    }
}

} // verus!
