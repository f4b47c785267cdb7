//! The screen widgets: an animated spinner cell, the two-cell separator
//! built from a pair of spinners, and the five-by-five digit widget with
//! differential redraw.
//!
//! Every widget paints by queueing operations on a [`Canvas`]; each contract
//! states exactly which operations a call appends and how the widget's own
//! state changes.

use vstd::prelude::*;
use crate::ClockError;
use crate::canvas::{Canvas, PaintOp};
use crate::glyphs::{blank_pattern, digit_pattern, digit_5x5_frame, empty_5x5_frame, grid_wf};

verus! {

broadcast use vstd::seq::group_seq_axioms;

/// The symbol a spinner shows at a given phase: an eight-step cycle of
/// Braille-dot glyphs that reads as a rotating dot.
pub open spec fn spinner_symbol(pos: int) -> char {
    if pos == 0 {
        '⣷'
    } else if pos == 1 {
        '⣯'
    } else if pos == 2 {
        '⣟'
    } else if pos == 3 {
        '⡿'
    } else if pos == 4 {
        '⢿'
    } else if pos == 5 {
        '⣻'
    } else if pos == 6 {
        '⣽'
    } else {
        '⣾'
    }
}

fn spinner_char(pos: usize) -> (r: char)
    requires
        pos < 8,
    ensures
        r == spinner_symbol(pos as int),
{
    match pos {
        0 => '⣷',
        1 => '⣯',
        2 => '⣟',
        3 => '⡿',
        4 => '⢿',
        5 => '⣻',
        6 => '⣽',
        _ => '⣾',
    }
}

/// The `k`-th cell write of painting a five-by-five grid at anchor
/// `(x, y)`: cells are visited row by row, left to right.
pub open spec fn frame_op_at(x: int, y: int, cells: Seq<Seq<char>>, k: int) -> PaintOp {
    PaintOp { x: (x + k % 5) as usize, y: (y + k / 5) as usize, sym: cells[k / 5][k % 5] }
}

/// The operations that painting a five-by-five grid at anchor `(x, y)`
/// queues: one cell write per grid cell, row by row, left to right.
pub open spec fn frame_ops(x: int, y: int, cells: Seq<Seq<char>>) -> Seq<PaintOp> {
    Seq::new(25, |k: int| frame_op_at(x, y, cells, k))
}

/// A one-cell spinner: a screen anchor and a phase into the eight-symbol
/// cycle.
#[derive(Clone, Copy, Debug, PartialEq, Eq, Structural)]
pub struct Spinner {
    pub x: usize,
    pub y: usize,
    pub pos: usize,
}

impl Spinner {
    /// The phase is always one of the eight cycle positions.
    pub open spec fn wf(self) -> bool {
        self.pos < 8
    }

    /// The single cell write a draw call queues.
    pub open spec fn paint_op(self) -> PaintOp {
        PaintOp { x: self.x, y: self.y, sym: spinner_symbol(self.pos as int) }
    }

    /// The spinner after one phase advance.
    pub open spec fn after_bump(self) -> Spinner {
        Spinner { pos: ((self.pos + 1) % 8) as usize, ..self }
    }

    /// A spinner anchored at `(x, y)`; the phase is taken modulo eight.
    pub fn new(x: usize, y: usize, pos: usize) -> (r: Spinner)
        ensures
            r == (Spinner { x, y, pos: (pos % 8) as usize }),
            r.wf(),
    {
        Spinner { x, y, pos: pos % 8 }
    }

    /// Queue the symbol for the current phase at the anchor. Painting is
    /// unconditional: the phase is expected to change between calls.
    pub fn draw(&self, canvas: &mut Canvas) -> (r: Result<(), ClockError>)
        requires
            self.wf(),
        ensures
            final(canvas)@ == old(canvas)@.push(self.paint_op()),
            r == Ok::<(), ClockError>(()),
    {
        let sym = spinner_char(self.pos);
        canvas.paint_cell(self.x, self.y, sym);
        Ok(())
    }

    /// Advance the phase by one, modulo eight.
    pub fn bump(&mut self) -> (r: Result<(), ClockError>)
        requires
            old(self).wf(),
        ensures
            *final(self) == old(self).after_bump(),
            final(self).wf(),
            r == Ok::<(), ClockError>(()),
    {
        self.pos = (self.pos + 1) % 8;
        Ok(())
    }
}

/// Eight phase advances return a spinner to exactly its starting state: the
/// animation cycle is closed.
pub proof fn lemma_bump_cycle(s: Spinner)
    requires
        s.wf(),
    ensures
        s.after_bump().after_bump().after_bump().after_bump().after_bump().after_bump().after_bump().after_bump()
            == s,
{
}

/// The animated separator between digit groups: two spinners sharing one
/// anchor column and one phase, one cell at row offset one and one at row
/// offset three.
#[derive(Clone, Copy, Debug, PartialEq, Eq, Structural)]
pub struct FancyColon {
    pub c1: Spinner,
    pub c2: Spinner,
}

impl FancyColon {
    /// Both spinners share the column and the phase; the lower one sits two
    /// rows below the upper one.
    pub open spec fn wf(self) -> bool {
        &&& self.c1.wf()
        &&& self.c2.wf()
        &&& self.c2.pos == self.c1.pos
        &&& self.c2.x == self.c1.x
        &&& self.c2.y == self.c1.y + 2
    }

    /// The shared phase of the two spinners.
    pub open spec fn phase(self) -> int {
        self.c1.pos as int
    }

    /// The two cell writes a draw call queues: upper spinner first.
    pub open spec fn draw_ops(self) -> Seq<PaintOp> {
        seq![self.c1.paint_op(), self.c2.paint_op()]
    }

    /// The separator after one phase advance of both spinners.
    pub open spec fn after_bump(self) -> FancyColon {
        FancyColon { c1: self.c1.after_bump(), c2: self.c2.after_bump() }
    }

    /// A separator anchored at `(x, y)`: spinners at rows `y + 1` and
    /// `y + 3`, both at the given phase taken modulo eight.
    pub fn new(x: usize, y: usize, pos: usize) -> (r: FancyColon)
        requires
            y + 3 <= usize::MAX,
        ensures
            r.wf(),
            r.phase() == pos % 8,
            r.c1 == (Spinner { x, y: (y + 1) as usize, pos: (pos % 8) as usize }),
            r.c2 == (Spinner { x, y: (y + 3) as usize, pos: (pos % 8) as usize }),
    {
        FancyColon { c1: Spinner::new(x, y + 1, pos), c2: Spinner::new(x, y + 3, pos) }
    }

    /// Queue both spinner cells at the current shared phase.
    pub fn draw(&self, canvas: &mut Canvas) -> (r: Result<(), ClockError>)
        requires
            self.wf(),
        ensures
            final(canvas)@ == old(canvas)@ + self.draw_ops(),
            r == Ok::<(), ClockError>(()),
    {
        self.c1.draw(canvas)?;
        self.c2.draw(canvas)?;
        proof {
            assert(canvas@ =~= old(canvas)@ + self.draw_ops());
        }
        Ok(())
    }

    /// Advance the shared phase by one, modulo eight.
    pub fn bump(&mut self) -> (r: Result<(), ClockError>)
        requires
            old(self).wf(),
        ensures
            *final(self) == old(self).after_bump(),
            final(self).wf(),
            r == Ok::<(), ClockError>(()),
    {
        self.c1.bump()?;
        self.c2.bump()?;
        Ok(())
    }
}

/// Eight phase advances return the separator to exactly its starting state.
pub proof fn lemma_colon_bump_cycle(c: FancyColon)
    requires
        c.wf(),
    ensures
        c.after_bump().after_bump().after_bump().after_bump().after_bump().after_bump().after_bump().after_bump()
            == c,
{
    lemma_bump_cycle(c.c1);
    lemma_bump_cycle(c.c2);
}

/// Queue the given five-by-five frame with its top-left cell at
/// `(start_x, start_y)`: twenty-five cell writes, row by row.
pub fn draw_widget(canvas: &mut Canvas, start_x: usize, start_y: usize, frame: Vec<Vec<char>>)
    requires
        grid_wf(frame.deep_view()),
        start_x + 4 <= usize::MAX,
        start_y + 4 <= usize::MAX,
    ensures
        final(canvas)@ == old(canvas)@ + frame_ops(start_x as int, start_y as int, frame.deep_view()),
{
    let ghost cells = frame.deep_view();
    let ghost all_ops = frame_ops(start_x as int, start_y as int, cells);
    proof {
        assert(all_ops.len() == 25);
        assert(frame@.len() == 5);
        assert(forall|i: int| 0 <= i < 5 ==> (#[trigger] frame@[i])@.len() == 5) by {
            assert(forall|i: int| 0 <= i < 5 ==> cells[i] == (#[trigger] frame@[i]).deep_view());
        }
    }
    let mut k: usize = 0;
    while k < 25
        invariant
            k <= 25,
            cells == frame.deep_view(),
            all_ops == frame_ops(start_x as int, start_y as int, cells),
            all_ops.len() == 25,
            grid_wf(cells),
            frame@.len() == 5,
            forall|i: int| 0 <= i < 5 ==> (#[trigger] frame@[i])@.len() == 5,
            start_x + 4 <= usize::MAX,
            start_y + 4 <= usize::MAX,
            canvas@ == old(canvas)@ + all_ops.take(k as int),
        decreases 25 - k,
    {
        let i = k / 5;
        let j = k % 5;
        let sym = frame[i][j];
        proof {
            assert(cells[i as int] == frame@[i as int].deep_view());
            assert(sym == cells[i as int][j as int]);
            assert(all_ops[k as int] == (PaintOp {
                x: (start_x + j) as usize,
                y: (start_y + i) as usize,
                sym: cells[i as int][j as int],
            }));
        }
        canvas.paint_cell(start_x + j, start_y + i, sym);
        proof {
            assert(all_ops.take(k as int + 1) =~= all_ops.take(k as int).push(all_ops[k as int]));
        }
        k = k + 1;
    }
    proof {
        assert(all_ops.take(25) =~= all_ops);
    }
}

/// Queue an empty five-by-five frame at `(start_x, start_y)`, clearing the
/// region.
pub fn draw_empty(canvas: &mut Canvas, start_x: usize, start_y: usize)
    requires
        start_x + 4 <= usize::MAX,
        start_y + 4 <= usize::MAX,
    ensures
        final(canvas)@ == old(canvas)@ + frame_ops(start_x as int, start_y as int, blank_pattern()),
{
    draw_widget(canvas, start_x, start_y, empty_5x5_frame());
}

/// A five-by-five digit widget anchored at a screen position, remembering
/// the digit it last painted so that repainting an unchanged digit costs no
/// canvas writes.
#[derive(Clone, Copy, Debug, PartialEq, Eq, Structural)]
pub struct Widget5x5 {
    pub x: usize,
    pub y: usize,
    pub cur_num: usize,
}

impl Widget5x5 {
    /// The five-by-five region must fit the coordinate space.
    pub open spec fn wf(self) -> bool {
        self.x + 4 <= usize::MAX && self.y + 4 <= usize::MAX
    }

    /// The widget holds this value while no digit has been drawn yet; no
    /// digit in 0..=9 equals it, so the first draw always paints.
    pub open spec fn unset_value() -> usize {
        usize::MAX
    }

    /// The cell writes one draw call queues: nothing for an invalid digit or
    /// for the digit already shown, otherwise the full blank frame followed
    /// by the full digit frame.
    pub open spec fn draw_ops(self, number: usize) -> Seq<PaintOp> {
        if number > 9 || number == self.cur_num {
            Seq::<PaintOp>::empty()
        } else {
            frame_ops(self.x as int, self.y as int, blank_pattern()) + frame_ops(
                self.x as int,
                self.y as int,
                digit_pattern(number as int),
            )
        }
    }

    /// The widget state after one draw call: the shown digit is recorded
    /// exactly when the call painted.
    pub open spec fn after_draw(self, number: usize) -> Widget5x5 {
        if number > 9 || number == self.cur_num {
            self
        } else {
            Widget5x5 { cur_num: number, ..self }
        }
    }

    /// A widget anchored at `(x, y)` showing no digit yet.
    pub fn new(x: usize, y: usize) -> (r: Widget5x5)
        requires
            x + 4 <= usize::MAX,
            y + 4 <= usize::MAX,
        ensures
            r == (Widget5x5 { x, y, cur_num: Widget5x5::unset_value() }),
            r.wf(),
    {
        Widget5x5 { x, y, cur_num: usize::MAX }
    }

    /// Show a digit. A value outside 0..=9 is rejected and nothing is
    /// painted; the digit already shown is a no-op; otherwise the region is
    /// cleared and the digit's frame is painted, and the digit is recorded.
    pub fn draw(&mut self, canvas: &mut Canvas, number: usize) -> (r: Result<(), ClockError>)
        requires
            old(self).wf(),
        ensures
            *final(self) == old(self).after_draw(number),
            final(self).wf(),
            final(canvas)@ == old(canvas)@ + old(self).draw_ops(number),
            r == (if number > 9 {
                Err::<(), ClockError>(ClockError::InvalidDigit)
            } else {
                Ok::<(), ClockError>(())
            }),
    {
        if number > 9 {
            proof {
                assert(canvas@ =~= old(canvas)@ + old(self).draw_ops(number));
            }
            return Err(ClockError::InvalidDigit);
        }
        if number == self.cur_num {
            proof {
                assert(canvas@ =~= old(canvas)@ + old(self).draw_ops(number));
            }
            return Ok(());
        }
        draw_empty(canvas, self.x, self.y);
        let frame = digit_5x5_frame(number);
        draw_widget(canvas, self.x, self.y, frame);
        self.cur_num = number;
        proof {
            assert(canvas@ =~= old(canvas)@ + old(self).draw_ops(number));
        }
        Ok(())
    }
}

/// Drawing the digit a widget already shows queues no canvas writes: the
/// second of two equal draws is a no-op.
pub proof fn lemma_same_digit_no_repaint(c: Widget5x5, d: usize)
    requires
        d <= 9,
    ensures
        c.after_draw(d).draw_ops(d) == Seq::<PaintOp>::empty(),
{
}

/// Drawing a changed digit always repaints the whole region: after showing
/// `d1`, drawing a different digit `d2` queues the full blank frame followed
/// by the full frame of `d2` — fifty cell writes — and drawing `d1` again
/// afterwards repaints in the same way, so nothing is remembered beyond the
/// immediately previous digit.
pub proof fn lemma_changed_digit_repaints(c: Widget5x5, d1: usize, d2: usize)
    requires
        d1 <= 9,
        d2 <= 9,
        d1 != d2,
    ensures
        c.after_draw(d1).draw_ops(d2) == frame_ops(c.x as int, c.y as int, blank_pattern()) + frame_ops(
            c.x as int,
            c.y as int,
            digit_pattern(d2 as int),
        ),
        c.after_draw(d1).draw_ops(d2).len() == 50,
        c.after_draw(d1).after_draw(d2).draw_ops(d1) == frame_ops(c.x as int, c.y as int, blank_pattern())
            + frame_ops(c.x as int, c.y as int, digit_pattern(d1 as int)),
{
    assert(frame_ops(c.x as int, c.y as int, blank_pattern()).len() == 25);
    assert(frame_ops(c.x as int, c.y as int, digit_pattern(d2 as int)).len() == 25);
}



} // verus!
