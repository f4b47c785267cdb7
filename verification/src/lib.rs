//! A terminal digital clock engine: large five-by-five digit glyphs, a
//! differential-redraw digit widget, an animated separator, a clock face that
//! composites six digits and two separators, and a refresh scheduler that
//! decouples the once-per-second digit refresh from the faster animation tick.
//!
//! Painting is modelled by an in-memory [`canvas::Canvas`] that records paint
//! operations; a thin front end drains the canvas and writes the operations to
//! the real terminal.

use vstd::prelude::*;

pub mod canvas;
pub mod face;
pub mod glyphs;
pub mod schedule;
pub mod widgets;

verus! {

/// Errors produced by the clock engine itself.
///
/// Terminal I/O failures are handled by the front end that owns the terminal;
/// the engine only ever reports a digit outside the range 0..=9.
#[derive(Clone, Copy, Debug, PartialEq, Eq, Structural)]
pub enum ClockError {
    /// A digit value outside 0..=9 was handed to a digit widget.
    InvalidDigit,
}

} // verus!
