//! Linear interpolation of indicator grids, driven by a rational progress
//! value.
//!
//! Progress through an animation is the exact ratio of elapsed time to total
//! time, kept as a numerator/denominator pair rather than rounded to a
//! machine fraction.  Interpolation of a hand fraction is then
//! `a + (b - a) * num / den` with the magnitude of the scaled difference
//! rounded down, which makes both endpoints of the sweep exact: progress
//! zero yields the starting grid and full progress yields the target grid,
//! component for component.

use vstd::arithmetic::mul::lemma_mul_is_commutative;
use vstd::arithmetic::div_mod::lemma_div_multiples_vanish;
use vstd::prelude::*;

use crate::clocklet::{lemma_frac_shrinks, lemma_wide_product_fits, mul_frac, Clocklet};

verus! {

/// How far an animation has come: the exact fraction `num / den` of its
/// total length, with `num <= den`.  A finished or zero-length animation
/// reports the full fraction `den / den`.
#[derive(Clone, Copy, PartialEq, Eq, Structural, Debug)]
pub struct Progress {
    /// Elapsed share of the animation.
    pub num: u64,
    /// Total length of the animation (never zero).
    pub den: u64,
}

/// A meaningful progress fraction: a positive denominator, and no more
/// elapsed than the whole.
pub open spec fn progress_wf(p: Progress) -> bool {
    1 <= p.den && p.num <= p.den
}

/// The progress value at the very start of an animation.
pub open spec fn progress_zero() -> Progress {
    Progress { num: 0, den: 1 }
}

/// The progress value of a completed animation.
pub open spec fn progress_full() -> Progress {
    Progress { num: 1, den: 1 }
}

/// A hand fraction interpolated the straight numeric way from `a` toward
/// `b`: no wraparound, no shortest arc, so a sweep from `0.9` of a turn to
/// `0.1` passes through `0.5`.
pub open spec fn lerp_frac(a: int, b: int, num: int, den: int) -> int {
    a + mul_frac(b - a, num, den)
}

/// An indicator interpolated component-wise between `a` and `b`.
pub open spec fn lerp_clocklet(a: Clocklet, b: Clocklet, p: Progress) -> Clocklet {
    Clocklet {
        hour_turns: lerp_frac(
            a.hour_turns as int,
            b.hour_turns as int,
            p.num as int,
            p.den as int,
        ) as i64,
        minute_turns: lerp_frac(
            a.minute_turns as int,
            b.minute_turns as int,
            p.num as int,
            p.den as int,
        ) as i64,
    }
}

/// A whole grid interpolated cell by cell between `g` and `t`.
pub open spec fn lerp_grid(g: Seq<Clocklet>, t: Seq<Clocklet>, p: Progress) -> Seq<Clocklet> {
    Seq::new(g.len(), |i: int| lerp_clocklet(g[i], t[i], p))
}

/// An interpolated hand fraction never leaves the closed interval between
/// its two endpoints; in particular it always fits the hand's machine range.
pub proof fn lemma_lerp_frac_bounds(a: int, b: int, num: int, den: int)
    requires
        0 <= num <= den,
        1 <= den,
    ensures
        a <= b ==> a <= lerp_frac(a, b, num, den) <= b,
        b <= a ==> b <= lerp_frac(a, b, num, den) <= a,
{
    if b >= a {
        lemma_frac_shrinks(b - a, num, den);
    } else {
        lemma_frac_shrinks(a - b, num, den);
    }
}

/// At progress zero the interpolation returns the starting value exactly.
pub proof fn lemma_lerp_frac_zero(a: int, b: int, den: int)
    requires
        1 <= den,
    ensures
        lerp_frac(a, b, 0, den) == a,
{
    assert((b - a) * 0 == 0);
    assert((a - b) * 0 == 0);
    assert(0int / den == 0) by (nonlinear_arith)
        requires
            1 <= den,
    ;
}

/// At full progress the interpolation returns the target value exactly.
pub proof fn lemma_lerp_frac_full(a: int, b: int, den: int)
    requires
        1 <= den,
    ensures
        lerp_frac(a, b, den, den) == b,
{
    if b >= a {
        lemma_mul_is_commutative(b - a, den);
        lemma_div_multiples_vanish(b - a, den);
        assert((b - a) * den / den == b - a);
    } else {
        lemma_mul_is_commutative(a - b, den);
        lemma_div_multiples_vanish(a - b, den);
        assert((a - b) * den / den == a - b);
    }
}

/// Interpolating any two equal-length grids at progress zero gives back the
/// first grid, component for component.
pub proof fn lemma_lerp_grid_zero(g: Seq<Clocklet>, t: Seq<Clocklet>, p: Progress)
    requires
        progress_wf(p),
        p.num == 0,
        g.len() == t.len(),
    ensures
        lerp_grid(g, t, p) == g,
{
    assert forall|i: int| 0 <= i < g.len() implies lerp_grid(g, t, p)[i] == g[i] by {
        lemma_lerp_frac_zero(g[i].hour_turns as int, t[i].hour_turns as int, p.den as int);
        lemma_lerp_frac_zero(g[i].minute_turns as int, t[i].minute_turns as int, p.den as int);
    }
    assert(lerp_grid(g, t, p) =~= g);
}

/// Interpolating any two equal-length grids at full progress gives the
/// second grid, component for component.
pub proof fn lemma_lerp_grid_full(g: Seq<Clocklet>, t: Seq<Clocklet>, p: Progress)
    requires
        progress_wf(p),
        p.num == p.den,
        g.len() == t.len(),
    ensures
        lerp_grid(g, t, p) == t,
{
    assert forall|i: int| 0 <= i < g.len() implies lerp_grid(g, t, p)[i] == t[i] by {
        lemma_lerp_frac_full(g[i].hour_turns as int, t[i].hour_turns as int, p.den as int);
        lemma_lerp_frac_full(g[i].minute_turns as int, t[i].minute_turns as int, p.den as int);
    }
    assert(lerp_grid(g, t, p) =~= t);
}

/// One interpolated hand fraction, computed in 128-bit arithmetic so that no
/// pair of endpoint values can overflow.
pub fn lerp_turns(a: i64, b: i64, p: Progress) -> (r: i64)
    requires
        progress_wf(p),
    ensures
        r == lerp_frac(a as int, b as int, p.num as int, p.den as int),
{
    let diff: i128 = (b as i128) - (a as i128);
    if diff >= 0 {
        proof {
            lemma_wide_product_fits(diff as int, p.num as int);
            lemma_frac_shrinks(diff as int, p.num as int, p.den as int);
        }
        let t: u128 = (diff as u128) * (p.num as u128) / (p.den as u128);
        ((a as i128) + (t as i128)) as i64
    } else {
        let mag: i128 = -diff;
        proof {
            lemma_wide_product_fits(mag as int, p.num as int);
            lemma_frac_shrinks(mag as int, p.num as int, p.den as int);
        }
        let t: u128 = (mag as u128) * (p.num as u128) / (p.den as u128);
        ((a as i128) - (t as i128)) as i64
    }
}

/// One interpolated indicator.
pub fn lerp_cell(a: Clocklet, b: Clocklet, p: Progress) -> (c: Clocklet)
    requires
        progress_wf(p),
    ensures
        c == lerp_clocklet(a, b, p),
{
    Clocklet {
        hour_turns: lerp_turns(a.hour_turns, b.hour_turns, p),
        minute_turns: lerp_turns(a.minute_turns, b.minute_turns, p),
    }
}

} // verus!
