//! The single two-handed indicator that the clock face is assembled from.

use vstd::prelude::*;

verus! {

/// Number of fixed-point units in one full turn of a hand.  A hand position
/// is stored as a count of these units; `250_000` is a quarter turn.
pub const TURN: i64 = 1_000_000;

/// One indicator of the face: two hands, each stored as a (possibly negative,
/// possibly larger-than-one) fraction of a full turn in units of `1 / TURN`.
/// Values are deliberately never reduced modulo one turn: interpolation and
/// decay work on the raw fractions, and only a renderer reduces them to an
/// angle.
#[derive(Clone, Copy, PartialEq, Eq, Structural, Debug)]
pub struct Clocklet {
    /// Hour hand, in units of `1 / TURN` of a full turn.
    pub hour_turns: i64,
    /// Minute hand, in units of `1 / TURN` of a full turn.
    pub minute_turns: i64,
}

/// `x` scaled by the fraction `num / den`, rounding the magnitude down
/// (truncation toward zero, as machine integer division does).
pub open spec fn mul_frac(x: int, num: int, den: int) -> int {
    if x >= 0 {
        x * num / den
    } else {
        -((-x) * num / den)
    }
}

/// Relies on `rand::random_range`: the result of sampling a non-empty
/// integer range lies within that range.
#[verifier::external_body]
fn random_unit_turns() -> (r: i64)
    ensures
        0 <= r < TURN,
{
    rand::random_range(0..TURN)
}

impl Clocklet {
    /// Builds an indicator directly from the two hand fractions.
    pub fn from_turns(hour_turns: i64, minute_turns: i64) -> (c: Clocklet)
        ensures
            c == (Clocklet { hour_turns, minute_turns }),
    {
        Clocklet { hour_turns, minute_turns }
    }

    /// Component-wise sum of the two indicators' hand fractions.
    pub fn add(self, rhs: Clocklet) -> (c: Clocklet)
        requires
            i64::MIN <= self.hour_turns + rhs.hour_turns <= i64::MAX,
            i64::MIN <= self.minute_turns + rhs.minute_turns <= i64::MAX,
        ensures
            c.hour_turns == self.hour_turns + rhs.hour_turns,
            c.minute_turns == self.minute_turns + rhs.minute_turns,
    {
        Clocklet {
            hour_turns: self.hour_turns + rhs.hour_turns,
            minute_turns: self.minute_turns + rhs.minute_turns,
        }
    }

    /// Component-wise difference of the two indicators' hand fractions.
    pub fn subtract(self, rhs: Clocklet) -> (c: Clocklet)
        requires
            i64::MIN <= self.hour_turns - rhs.hour_turns <= i64::MAX,
            i64::MIN <= self.minute_turns - rhs.minute_turns <= i64::MAX,
        ensures
            c.hour_turns == self.hour_turns - rhs.hour_turns,
            c.minute_turns == self.minute_turns - rhs.minute_turns,
    {
        Clocklet {
            hour_turns: self.hour_turns - rhs.hour_turns,
            minute_turns: self.minute_turns - rhs.minute_turns,
        }
    }

    /// Both hand fractions scaled by the fraction `num / den` (at most one),
    /// with the magnitude rounded down.
    pub fn scale(self, num: u64, den: u64) -> (c: Clocklet)
        requires
            1 <= den,
            num <= den,
        ensures
            c.hour_turns == mul_frac(self.hour_turns as int, num as int, den as int),
            c.minute_turns == mul_frac(self.minute_turns as int, num as int, den as int),
    {
        Clocklet {
            hour_turns: scale_turns(self.hour_turns, num, den),
            minute_turns: scale_turns(self.minute_turns, num, den),
        }
    }

    /// Moves both hands back by the same fraction `f` of a turn: the decaying
    /// step of the one-shot "extra turns" perturbation.
    pub fn decay(self, f: i64) -> (c: Clocklet)
        requires
            i64::MIN <= self.hour_turns - f <= i64::MAX,
            i64::MIN <= self.minute_turns - f <= i64::MAX,
        ensures
            c.hour_turns == self.hour_turns - f,
            c.minute_turns == self.minute_turns - f,
    {
        Clocklet { hour_turns: self.hour_turns - f, minute_turns: self.minute_turns - f }
    }
}

/// An indicator whose hands point nowhere in particular: both fractions are
/// drawn uniformly from `[0, 1)` of a turn, the visual noise shown for cells
/// that were never set.
impl Default for Clocklet {
    fn default() -> (c: Clocklet)
        ensures
            0 <= c.hour_turns < TURN,
            0 <= c.minute_turns < TURN,
    {
        Clocklet { hour_turns: random_unit_turns(), minute_turns: random_unit_turns() }
    }
}

/// `x * num / den` for a fraction `num / den` of at most one, truncating
/// toward zero; the result never exceeds `x` in magnitude, so it fits.
fn scale_turns(x: i64, num: u64, den: u64) -> (r: i64)
    requires
        1 <= den,
        num <= den,
    ensures
        r == mul_frac(x as int, num as int, den as int),
{
    if x >= 0 {
        proof {
            lemma_wide_product_fits(x as int, num as int);
            lemma_frac_shrinks(x as int, num as int, den as int);
        }
        let wide: u128 = (x as u128) * (num as u128) / (den as u128);
        wide as i64
    } else {
        let mag: i128 = -(x as i128);
        proof {
            lemma_wide_product_fits(mag as int, num as int);
            lemma_frac_shrinks(mag as int, num as int, den as int);
        }
        let scaled: u128 = (mag as u128) * (num as u128) / (den as u128);
        (-(scaled as i128)) as i64
    }
}

/// The product of two factors that each fit in 64 unsigned bits stays inside
/// the 128-bit unsigned range.
pub proof fn lemma_wide_product_fits(x: int, num: int)
    requires
        0 <= x <= 0xffff_ffff_ffff_ffff,
        0 <= num <= 0xffff_ffff_ffff_ffff,
    ensures
        x * num <= u128::MAX,
{
    assert(x * num <= 0xffff_ffff_ffff_ffff * 0xffff_ffff_ffff_ffff) by (nonlinear_arith)
        requires
            0 <= x <= 0xffff_ffff_ffff_ffff,
            0 <= num <= 0xffff_ffff_ffff_ffff,
    ;
}

/// Scaling a non-negative value by a fraction of at most one, rounding down,
/// yields a value between zero and the value itself.
pub proof fn lemma_frac_shrinks(x: int, num: int, den: int)
    requires
        0 <= x,
        0 <= num <= den,
        1 <= den,
    ensures
        0 <= x * num / den <= x,
{
    assert(0 <= x * num / den <= x) by (nonlinear_arith)
        requires
            0 <= x,
            0 <= num <= den,
            1 <= den,
    ;
}

} // verus!
