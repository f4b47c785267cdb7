//! The clock face: six digit widgets (hours, minutes, seconds, tens and
//! units each) at fixed non-overlapping anchors, and two animated separators
//! between the digit groups.

use vstd::prelude::*;
use crate::ClockError;
use crate::canvas::{Canvas, PaintOp};
use crate::widgets::{FancyColon, Widget5x5};

verus! {

/// The full clock display. The face is the sole owner and mutator of its
/// widgets.
pub struct ClockFace {
    pub hw1: Widget5x5,
    pub hw2: Widget5x5,
    pub mw1: Widget5x5,
    pub mw2: Widget5x5,
    pub sw1: Widget5x5,
    pub sw2: Widget5x5,
    pub colon1: FancyColon,
    pub colon2: FancyColon,
}

impl ClockFace {
    /// Every widget is well formed.
    pub open spec fn wf(self) -> bool {
        &&& self.hw1.wf()
        &&& self.hw2.wf()
        &&& self.mw1.wf()
        &&& self.mw2.wf()
        &&& self.sw1.wf()
        &&& self.sw2.wf()
        &&& self.colon1.wf()
        &&& self.colon2.wf()
    }

    /// The cell writes one update queues: each digit widget's own writes, in
    /// display order. A widget whose digit is unchanged or invalid
    /// contributes none.
    pub open spec fn update_ops(
        self,
        h1: usize,
        h2: usize,
        m1: usize,
        m2: usize,
        s1: usize,
        s2: usize,
    ) -> Seq<PaintOp> {
        self.hw1.draw_ops(h1) + self.hw2.draw_ops(h2) + self.mw1.draw_ops(m1) + self.mw2.draw_ops(
            m2,
        ) + self.sw1.draw_ops(s1) + self.sw2.draw_ops(s2)
    }

    /// The face after one update: each digit widget records its own digit
    /// independently; an invalid digit leaves only its own widget unchanged.
    pub open spec fn after_update(
        self,
        h1: usize,
        h2: usize,
        m1: usize,
        m2: usize,
        s1: usize,
        s2: usize,
    ) -> ClockFace {
        ClockFace {
            hw1: self.hw1.after_draw(h1),
            hw2: self.hw2.after_draw(h2),
            mw1: self.mw1.after_draw(m1),
            mw2: self.mw2.after_draw(m2),
            sw1: self.sw1.after_draw(s1),
            sw2: self.sw2.after_draw(s2),
            ..self
        }
    }

    /// The cell writes one animation tick queues: both separators, left
    /// before right.
    pub open spec fn anim_ops(self) -> Seq<PaintOp> {
        self.colon1.draw_ops() + self.colon2.draw_ops()
    }

    /// The face after one animation tick: both separator phases advanced.
    pub open spec fn after_tick(self) -> ClockFace {
        ClockFace { colon1: self.colon1.after_bump(), colon2: self.colon2.after_bump(), ..self }
    }

    /// A face with the six digit widgets and the two separators at their
    /// fixed anchors, no digit shown yet, both separator phases at zero.
    pub fn new() -> (r: ClockFace)
        ensures
            r.wf(),
            r.hw1 == (Widget5x5 { x: 1, y: 1, cur_num: Widget5x5::unset_value() }),
            r.hw2 == (Widget5x5 { x: 8, y: 1, cur_num: Widget5x5::unset_value() }),
            r.mw1 == (Widget5x5 { x: 18, y: 1, cur_num: Widget5x5::unset_value() }),
            r.mw2 == (Widget5x5 { x: 25, y: 1, cur_num: Widget5x5::unset_value() }),
            r.sw1 == (Widget5x5 { x: 36, y: 1, cur_num: Widget5x5::unset_value() }),
            r.sw2 == (Widget5x5 { x: 43, y: 1, cur_num: Widget5x5::unset_value() }),
            r.colon1.c1.x == 15 && r.colon1.c1.y == 2 && r.colon1.phase() == 0,
            r.colon2.c1.x == 33 && r.colon2.c1.y == 2 && r.colon2.phase() == 0,
    {
        ClockFace {
            hw1: Widget5x5::new(1, 1),
            hw2: Widget5x5::new(8, 1),
            mw1: Widget5x5::new(18, 1),
            mw2: Widget5x5::new(25, 1),
            sw1: Widget5x5::new(36, 1),
            sw2: Widget5x5::new(43, 1),
            colon1: FancyColon::new(15, 1, 0),
            colon2: FancyColon::new(33, 1, 0),
        }
    }

    /// Show the six digits, hours to seconds, tens before units. Each widget
    /// updates independently: an out-of-range digit is reported but does not
    /// keep the other five widgets from updating, and a digit a widget
    /// already shows costs no canvas writes.
    #[verifier::rlimit(60)]
    pub fn update(
        &mut self,
        canvas: &mut Canvas,
        h1: usize,
        h2: usize,
        m1: usize,
        m2: usize,
        s1: usize,
        s2: usize,
    ) -> (r: Result<(), ClockError>)
        requires
            old(self).wf(),
        ensures
            *final(self) == old(self).after_update(h1, h2, m1, m2, s1, s2),
            final(self).wf(),
            final(canvas)@ == old(canvas)@ + old(self).update_ops(h1, h2, m1, m2, s1, s2),
            r == (if h1 <= 9 && h2 <= 9 && m1 <= 9 && m2 <= 9 && s1 <= 9 && s2 <= 9 {
                Ok::<(), ClockError>(())
            } else {
                Err::<(), ClockError>(ClockError::InvalidDigit)
            }),
    {
        let r1 = self.hw1.draw(canvas, h1);
        let r2 = self.hw2.draw(canvas, h2);
        let r3 = self.mw1.draw(canvas, m1);
        let r4 = self.mw2.draw(canvas, m2);
        let r5 = self.sw1.draw(canvas, s1);
        let r6 = self.sw2.draw(canvas, s2);
        proof {
            assert(canvas@ =~= old(canvas)@ + old(self).update_ops(h1, h2, m1, m2, s1, s2));
        }
        if r1.is_ok() && r2.is_ok() && r3.is_ok() && r4.is_ok() && r5.is_ok() && r6.is_ok() {
            Ok(())
        } else {
            Err(ClockError::InvalidDigit)
        }
    }

    /// One animation tick: draw each separator at its current phase, then
    /// advance its phase — left separator before right.
    pub fn tick_animation(&mut self, canvas: &mut Canvas) -> (r: Result<(), ClockError>)
        requires
            old(self).wf(),
        ensures
            *final(self) == old(self).after_tick(),
            final(self).wf(),
            final(canvas)@ == old(canvas)@ + old(self).anim_ops(),
            r == Ok::<(), ClockError>(()),
    {
        self.colon1.draw(canvas)?;
        self.colon1.bump()?;
        self.colon2.draw(canvas)?;
        self.colon2.bump()?;
        proof {
            assert(canvas@ =~= old(canvas)@ + old(self).anim_ops());
        }
        Ok(())
    }
}

} // verus!
