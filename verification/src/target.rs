//! One animation target: a full-board snapshot of desired indicator states,
//! an optional one-shot "extra turns" perturbation, and a lifespan.

use vstd::prelude::*;

use crate::clocklet::{Clocklet, TURN};
use crate::glyphs::{digit_wf, spec_glyph, Digit};
use crate::interp::{progress_wf, Progress};
use crate::lifespan::{lifespan_ready, lifespan_wf, spec_advance, spec_progress, Lifespan};

verus! {

/// Number of indicator cells on the board: 8 columns of 3 rows, flattened
/// column-major (cell `(col, row)` lives at index `col * 3 + row`).
pub const GRID_CELLS: usize = 24;

/// Number of cells a digit slot covers: the 2 columns times 3 rows of one
/// glyph.  Slot `s` covers the flat indices `[(s % 4) * 6, (s % 4) * 6 + 6)`,
/// which are exactly the columns `[(s % 4) * 2, (s % 4) * 2 + 2)`.
pub const SLOT_CELLS: usize = 6;

/// A full-sized board grid.
pub open spec fn grid_wf(g: Seq<Clocklet>) -> bool {
    g.len() == GRID_CELLS
}

/// Every hand fraction of the grid lies in `[0, 1)` of a turn, as the
/// random noise fill guarantees.
pub open spec fn grid_in_unit_range(g: Seq<Clocklet>) -> bool {
    forall|i: int|
        0 <= i < g.len() ==> 0 <= #[trigger] g[i].hour_turns < TURN && 0 <= g[i].minute_turns
            < TURN
}

/// The grid `g` with glyph cells `cells` written over digit slot `pos`:
/// slot `pos % 4` covers six flat indices, which take the glyph's six cells
/// in order; every other cell keeps its value.
pub open spec fn spec_set_digit(g: Seq<Clocklet>, cells: Seq<Clocklet>, pos: int) -> Seq<
    Clocklet,
> {
    let base = (pos % 4) * 6;
    Seq::new(g.len(), |i: int| if base <= i < base + 6 { cells[i - base] } else { g[i] })
}

/// Law: writing a glyph into slot `s` mutates exactly the six indicator
/// cells of the two columns `[(s % 4) * 2, (s % 4) * 2 + 2)` — in flat
/// column-major indices, `[(s % 4) * 6, (s % 4) * 6 + 6)` — and no others.
pub proof fn lemma_set_digit_touches_only_slot(g: Seq<Clocklet>, cells: Seq<Clocklet>, pos: int)
    requires
        grid_wf(g),
    ensures
        forall|i: int|
            0 <= i < g.len() && !((pos % 4) * 2 <= i / 3 < (pos % 4) * 2 + 2)
                ==> #[trigger] spec_set_digit(g, cells, pos)[i] == g[i],
        forall|k: int|
            0 <= k < 6 ==> #[trigger] spec_set_digit(g, cells, pos)[(pos % 4) * 6 + k]
                == cells[k],
{
    assert forall|i: int|
        0 <= i < g.len() && !((pos % 4) * 2 <= i / 3 < (pos % 4) * 2 + 2) implies #[trigger] spec_set_digit(
        g,
        cells,
        pos,
    )[i] == g[i] by {
        let base = (pos % 4) * 6;
        assert(base == ((pos % 4) * 2) * 3);
        assert(!(base <= i < base + 6));
    }
}

/// The desired end state of one transition: the grid the board should reach,
/// an optional decaying spin to add drama on the way, and the time the
/// transition gets.
#[derive(Debug)]
pub struct ClockTarget {
    /// The grid to commit when the transition ends.
    pub clocklets: Vec<Clocklet>,
    /// One-shot perturbation: a per-cell fraction of a turn that is
    /// subtracted once from the board's committed grid when the target first
    /// advances.  Taken (and so returned at most once) on the first advance.
    pub extra_turns: Option<Vec<i64>>,
    /// The transition's timing state.
    pub lifespan: Lifespan,
}

/// A target is well formed when its grid (and perturbation, if any) is
/// full-sized and its lifespan's timestamps are ordered.
pub open spec fn target_wf(t: ClockTarget) -> bool {
    &&& grid_wf(t.clocklets@)
    &&& (t.extra_turns matches Some(e) ==> e@.len() == GRID_CELLS)
    &&& lifespan_wf(t.lifespan)
}

/// A target may advance to frame time `now` when its lifespan may.
pub open spec fn target_ready(t: ClockTarget, now: u64) -> bool {
    target_wf(t) && lifespan_ready(t.lifespan, now)
}

/// The grid that displays the wall-clock time `time_millis` (milliseconds
/// since the epoch): slot 0 shows the tens of the hour, slot 1 the ones of
/// the hour, slot 2 the tens of the minute and slot 3 the ones of the
/// minute.
pub open spec fn spec_time_grid(time_millis: u64) -> Seq<Clocklet> {
    let total_min = time_millis as int / 60_000;
    let mins = total_min % 60;
    let hours = (total_min / 60) % 24;
    Seq::new(
        GRID_CELLS as nat,
        |i: int|
            {
                let k = i % 6;
                if i / 6 == 0 {
                    spec_glyph((hours / 10) % 10)[k]
                } else if i / 6 == 1 {
                    spec_glyph(hours % 10)[k]
                } else if i / 6 == 2 {
                    spec_glyph((mins / 10) % 10)[k]
                } else {
                    spec_glyph(mins % 10)[k]
                }
            },
    )
}

/// A grid of pure visual noise: every cell's hands drawn uniformly from
/// `[0, 1)` of a turn.
pub(crate) fn noise_grid() -> (g: Vec<Clocklet>)
    ensures
        grid_wf(g@),
        grid_in_unit_range(g@),
{
    let mut g: Vec<Clocklet> = Vec::new();
    let mut i: usize = 0;
    while i < GRID_CELLS
        invariant
            i <= GRID_CELLS,
            g@.len() == i,
            grid_in_unit_range(g@),
        decreases GRID_CELLS - i,
    {
        g.push(Clocklet::default());
        i = i + 1;
    }
    g
}

impl ClockTarget {
    /// The target that displays the wall-clock time `time_millis`
    /// (milliseconds since the epoch) once its transition completes.
    pub fn from_time(time_millis: u64, lifespan: Lifespan) -> (t: ClockTarget)
        requires
            lifespan_wf(lifespan),
        ensures
            target_wf(t),
            t.clocklets@ == spec_time_grid(time_millis),
            t.extra_turns is None,
            t.lifespan == lifespan,
    {
        let mut t = ClockTarget::default();
        let total_min = time_millis / 60_000;
        let mins = total_min % 60;
        let hours = (total_min / 60) % 24;
        t.set_digit(&Digit::from_value(mins), 3);
        t.set_digit(&Digit::from_value(mins / 10), 2);
        t.set_digit(&Digit::from_value(hours), 1);
        t.set_digit(&Digit::from_value(hours / 10), 0);
        t.lifespan = lifespan;
        proof {
            assert(t.clocklets@ =~= spec_time_grid(time_millis));
        }
        t
    }

    /// Writes the glyph into digit slot `position` (wrapping past 4), and
    /// touches nothing else: not the other cells, not the perturbation, not
    /// the lifespan.
    pub fn set_digit(&mut self, digit: &Digit, position: usize)
        requires
            target_wf(*old(self)),
            digit_wf(*digit),
        ensures
            target_wf(*final(self)),
            final(self).clocklets@ == spec_set_digit(
                old(self).clocklets@,
                digit.cells@,
                position as int,
            ),
            final(self).extra_turns == old(self).extra_turns,
            final(self).lifespan == old(self).lifespan,
    {
        let base = (position % 4) * 6;
        let mut k: usize = 0;
        while k < SLOT_CELLS
            invariant
                target_wf(*self),
                k <= SLOT_CELLS,
                base == (position as int % 4) * 6,
                digit_wf(*digit),
                self.clocklets@.len() == old(self).clocklets@.len() == GRID_CELLS,
                self.extra_turns == old(self).extra_turns,
                self.lifespan == old(self).lifespan,
                forall|i: int|
                    0 <= i < GRID_CELLS && !(base <= i < base + k) ==> self.clocklets@[i]
                        == old(self).clocklets@[i],
                forall|j: int| 0 <= j < k ==> self.clocklets@[base + j] == digit.cells@[j],
            decreases SLOT_CELLS - k,
        {
            let cell = digit.cells[k];
            self.clocklets[base + k] = cell;
            k = k + 1;
        }
        proof {
            assert(self.clocklets@ =~= spec_set_digit(
                old(self).clocklets@,
                digit.cells@,
                position as int,
            ));
        }
    }

    /// How far this target's transition has come.
    pub fn progress(&self) -> (p: Progress)
        requires
            lifespan_wf(self.lifespan),
        ensures
            p == spec_progress(self.lifespan),
            progress_wf(p),
    {
        match self.lifespan {
            Lifespan::Finished => Progress { num: 1, den: 1 },
            Lifespan::Pending(_) => Progress { num: 0, den: 1 },
            Lifespan::Active { start, current, deadline } => {
                if deadline == start {
                    Progress { num: 1, den: 1 }
                } else {
                    Progress { num: current - start, den: deadline - start }
                }
            },
        }
    }

    /// A scramble: the grid to settle on is fresh noise, and a one-shot
    /// perturbation of three full extra turns per cell sets every indicator
    /// spinning on the way there.
    pub fn random_millis(millis: u64) -> (t: ClockTarget)
        ensures
            target_wf(t),
            grid_in_unit_range(t.clocklets@),
            t.extra_turns matches Some(e) && e@ == Seq::new(GRID_CELLS as nat, |i: int| (3 * TURN) as i64),
            t.lifespan == Lifespan::Pending(millis),
    {
        let extra: Vec<i64> = vec![3 * TURN; GRID_CELLS];
        proof {
            assert(extra@ =~= Seq::new(GRID_CELLS as nat, |i: int| (3 * TURN) as i64));
        }
        ClockTarget {
            clocklets: noise_grid(),
            extra_turns: Some(extra),
            lifespan: Lifespan::from_millis(millis),
        }
    }

    /// Advances the lifespan to frame time `now` and takes the one-shot
    /// perturbation: the first advance returns it (if the target ever had
    /// one) and leaves none behind, so any later advance returns none.
    pub fn update(self, now: u64) -> (r: (ClockTarget, Option<Vec<i64>>))
        requires
            target_ready(self, now),
        ensures
            target_wf(r.0),
            r.0.clocklets == self.clocklets,
            r.0.extra_turns is None,
            r.0.lifespan == spec_advance(self.lifespan, now),
            r.1 == self.extra_turns,
    {
        let ClockTarget { clocklets, extra_turns, lifespan } = self;
        let lifespan = lifespan.update(now);
        (ClockTarget { clocklets, extra_turns: None, lifespan }, extra_turns)
    }

    /// Whether the transition is over and the target is ready to retire.
    pub fn is_finished(&self) -> (b: bool)
        ensures
            b == (self.lifespan is Finished),
    {
        match self.lifespan {
            Lifespan::Finished => true,
            _ => false,
        }
    }
}

/// A target of pure noise that resolves essentially immediately: the idle
/// filler a board starts from.
impl Default for ClockTarget {
    fn default() -> (t: ClockTarget)
        ensures
            target_wf(t),
            grid_in_unit_range(t.clocklets@),
            t.extra_turns is None,
            t.lifespan == Lifespan::Pending(0),
    {
        ClockTarget { clocklets: noise_grid(), extra_turns: None, lifespan: Lifespan::Pending(0) }
    }
}

} // verus!
