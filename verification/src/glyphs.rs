//! The digit glyph table: how a decimal digit is spelt with six indicators.
//!
//! A digit occupies two columns of three indicators each.  Each of the ten
//! digits, and a blank used to clear a slot, is a fixed arrangement of named
//! canonical hand orientations; the arrangements are design data, chosen so
//! the assembled pointer pattern reads as the digit.

use vstd::prelude::*;

use crate::clocklet::Clocklet;

verus! {

/// Both hands straight up.
pub open spec fn up() -> Clocklet {
    Clocklet { hour_turns: 0, minute_turns: 0 }
}

/// Both hands straight down.
pub open spec fn down() -> Clocklet {
    Clocklet { hour_turns: 500_000, minute_turns: 500_000 }
}

/// A vertical bar: one hand up, one hand down.
pub open spec fn vertical() -> Clocklet {
    Clocklet { hour_turns: 0, minute_turns: 500_000 }
}

/// Both hands pointing left.
pub open spec fn left() -> Clocklet {
    Clocklet { hour_turns: 750_000, minute_turns: 750_000 }
}

/// Both hands pointing right.
pub open spec fn right() -> Clocklet {
    Clocklet { hour_turns: 250_000, minute_turns: 250_000 }
}

/// A horizontal bar: one hand right, one hand left.
pub open spec fn horizontal() -> Clocklet {
    Clocklet { hour_turns: 250_000, minute_turns: 750_000 }
}

/// A corner opening to the top left: hands down and right.
pub open spec fn top_left() -> Clocklet {
    Clocklet { hour_turns: 500_000, minute_turns: 250_000 }
}

/// A corner opening to the top right: hands down and left.
pub open spec fn top_right() -> Clocklet {
    Clocklet { hour_turns: 500_000, minute_turns: 750_000 }
}

/// A corner opening to the bottom left: hands up and right.
pub open spec fn bottom_left() -> Clocklet {
    Clocklet { hour_turns: 0, minute_turns: 250_000 }
}

/// A corner opening to the bottom right: hands up and left.
pub open spec fn bottom_right() -> Clocklet {
    Clocklet { hour_turns: 0, minute_turns: 750_000 }
}

/// The parked orientation of a blank cell: both hands at five-eighths of a
/// turn, visually "out of the way".
pub open spec fn parked() -> Clocklet {
    Clocklet { hour_turns: 625_000, minute_turns: 625_000 }
}

/// The six cells of the glyph for digit `v`, in reading order: first the
/// left column top to bottom, then the right column top to bottom.
pub open spec fn spec_glyph(v: int) -> Seq<Clocklet>
    recommends
        0 <= v < 10,
{
    if v == 0 {
        seq![top_left(), vertical(), bottom_left(), top_right(), vertical(), bottom_right()]
    } else if v == 1 {
        seq![parked(), parked(), parked(), down(), vertical(), up()]
    } else if v == 2 {
        seq![right(), top_left(), bottom_left(), top_right(), bottom_right(), left()]
    } else if v == 3 {
        seq![right(), right(), right(), top_right(), bottom_right(), bottom_right()]
    } else if v == 4 {
        seq![down(), bottom_left(), parked(), down(), bottom_right(), up()]
    } else if v == 5 {
        seq![top_left(), bottom_left(), right(), left(), top_right(), bottom_right()]
    } else if v == 6 {
        seq![top_left(), vertical(), bottom_left(), left(), top_right(), bottom_right()]
    } else if v == 7 {
        seq![right(), parked(), parked(), top_right(), vertical(), up()]
    } else if v == 8 {
        seq![top_left(), bottom_left(), bottom_left(), top_right(), bottom_right(), bottom_right()]
    } else {
        seq![top_left(), bottom_left(), right(), top_right(), bottom_right(), bottom_right()]
    }
}

/// The six cells of the blank glyph: every cell parked.
pub open spec fn spec_blank_glyph() -> Seq<Clocklet> {
    seq![parked(), parked(), parked(), parked(), parked(), parked()]
}

/// One glyph: the six indicator presets that fill a digit slot, in reading
/// order (left column top to bottom, then right column top to bottom).
#[derive(Debug)]
pub struct Digit {
    /// The six presets.
    pub cells: Vec<Clocklet>,
}

/// A glyph always holds exactly six cells.
pub open spec fn digit_wf(d: Digit) -> bool {
    d.cells@.len() == 6
}

impl Digit {
    /// The glyph for the decimal digit `value % 10`.  The lookup is total on
    /// digits; larger values wrap, so every counter value lands on the glyph
    /// of its last decimal digit.
    pub fn from_value(value: u64) -> (d: Digit)
        ensures
            digit_wf(d),
            d.cells@ == spec_glyph((value % 10) as int),
    {
        let v = value % 10;
        let cells: Vec<Clocklet> = if v == 0 {
            vec![
                Clocklet::from_turns(500_000, 250_000),
                Clocklet::from_turns(0, 500_000),
                Clocklet::from_turns(0, 250_000),
                Clocklet::from_turns(500_000, 750_000),
                Clocklet::from_turns(0, 500_000),
                Clocklet::from_turns(0, 750_000),
            ]
        } else if v == 1 {
            vec![
                Clocklet::from_turns(625_000, 625_000),
                Clocklet::from_turns(625_000, 625_000),
                Clocklet::from_turns(625_000, 625_000),
                Clocklet::from_turns(500_000, 500_000),
                Clocklet::from_turns(0, 500_000),
                Clocklet::from_turns(0, 0),
            ]
        } else if v == 2 {
            vec![
                Clocklet::from_turns(250_000, 250_000),
                Clocklet::from_turns(500_000, 250_000),
                Clocklet::from_turns(0, 250_000),
                Clocklet::from_turns(500_000, 750_000),
                Clocklet::from_turns(0, 750_000),
                Clocklet::from_turns(750_000, 750_000),
            ]
        } else if v == 3 {
            vec![
                Clocklet::from_turns(250_000, 250_000),
                Clocklet::from_turns(250_000, 250_000),
                Clocklet::from_turns(250_000, 250_000),
                Clocklet::from_turns(500_000, 750_000),
                Clocklet::from_turns(0, 750_000),
                Clocklet::from_turns(0, 750_000),
            ]
        } else if v == 4 {
            vec![
                Clocklet::from_turns(500_000, 500_000),
                Clocklet::from_turns(0, 250_000),
                Clocklet::from_turns(625_000, 625_000),
                Clocklet::from_turns(500_000, 500_000),
                Clocklet::from_turns(0, 750_000),
                Clocklet::from_turns(0, 0),
            ]
        } else if v == 5 {
            vec![
                Clocklet::from_turns(500_000, 250_000),
                Clocklet::from_turns(0, 250_000),
                Clocklet::from_turns(250_000, 250_000),
                Clocklet::from_turns(750_000, 750_000),
                Clocklet::from_turns(500_000, 750_000),
                Clocklet::from_turns(0, 750_000),
            ]
        } else if v == 6 {
            vec![
                Clocklet::from_turns(500_000, 250_000),
                Clocklet::from_turns(0, 500_000),
                Clocklet::from_turns(0, 250_000),
                Clocklet::from_turns(750_000, 750_000),
                Clocklet::from_turns(500_000, 750_000),
                Clocklet::from_turns(0, 750_000),
            ]
        } else if v == 7 {
            vec![
                Clocklet::from_turns(250_000, 250_000),
                Clocklet::from_turns(625_000, 625_000),
                Clocklet::from_turns(625_000, 625_000),
                Clocklet::from_turns(500_000, 750_000),
                Clocklet::from_turns(0, 500_000),
                Clocklet::from_turns(0, 0),
            ]
        } else if v == 8 {
            vec![
                Clocklet::from_turns(500_000, 250_000),
                Clocklet::from_turns(0, 250_000),
                Clocklet::from_turns(0, 250_000),
                Clocklet::from_turns(500_000, 750_000),
                Clocklet::from_turns(0, 750_000),
                Clocklet::from_turns(0, 750_000),
            ]
        } else {
            vec![
                Clocklet::from_turns(500_000, 250_000),
                Clocklet::from_turns(0, 250_000),
                Clocklet::from_turns(250_000, 250_000),
                Clocklet::from_turns(500_000, 750_000),
                Clocklet::from_turns(0, 750_000),
                Clocklet::from_turns(0, 750_000),
            ]
        };
        proof {
            assert(cells@ =~= spec_glyph((value % 10) as int));
        }
        Digit { cells }
    }

    /// The blank glyph, used to clear a slot.
    pub fn blank() -> (d: Digit)
        ensures
            digit_wf(d),
            d.cells@ == spec_blank_glyph(),
    {
        let cells: Vec<Clocklet> = vec![
            Clocklet::from_turns(625_000, 625_000),
            Clocklet::from_turns(625_000, 625_000),
            Clocklet::from_turns(625_000, 625_000),
            Clocklet::from_turns(625_000, 625_000),
            Clocklet::from_turns(625_000, 625_000),
            Clocklet::from_turns(625_000, 625_000),
        ];
        proof {
            assert(cells@ =~= spec_blank_glyph());
        }
        Digit { cells }
    }
}

} // verus!
