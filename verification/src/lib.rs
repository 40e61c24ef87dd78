//! A "split-flap" style clock face built from small two-handed indicators
//! ("clocklets") arranged into digit glyphs.
//!
//! The crate is the animation engine behind such a clock: the glyph encoding
//! table, the per-indicator interpolation arithmetic, the lifespan state
//! machine that turns relative durations into absolute deadlines, and the
//! FIFO queue of animation targets that the board drains frame by frame.
//! Hand positions are kept as fixed-point fractions of a full turn (millionths
//! of a turn), which keeps every interpolation step exact; a display layer
//! turns those fractions into drawing angles.

pub mod board;
pub mod clocklet;
pub mod glyphs;
pub mod interp;
pub mod lifespan;
pub mod target;
pub mod trigger;
