//! The refresh scheduler: the control-loop state machine that decouples the
//! once-per-second digit refresh from the faster animation tick.
//!
//! Each loop iteration the caller reports whether an exit event is pending
//! and how much wall time elapsed since the previous iteration. The
//! scheduler accumulates the elapsed time and decides whether the digits are
//! due a repaint: at every full refresh interval, and unconditionally on the
//! very first iteration, so the clock shows the correct time immediately at
//! startup. The animation ticks on every running iteration.

use vstd::prelude::*;
use crate::canvas::{Canvas, PaintOp};
use crate::face::ClockFace;

verus! {

/// The digit-refresh cadence in milliseconds.
pub const REFRESH_INTERVAL_MS: u64 = 1000;

/// The sleep between loop iterations in milliseconds: the animation cadence.
pub const ANIMATION_SLEEP_MS: u64 = 100;

/// Addition on the millisecond accumulator, saturating at the top of `u64`.
pub open spec fn sat_add(a: u64, b: u64) -> u64 {
    if a + b <= u64::MAX {
        (a + b) as u64
    } else {
        u64::MAX
    }
}

/// The decision for one loop iteration.
#[derive(Clone, Copy, Debug, PartialEq, Eq, Structural)]
pub enum SchedulerStep {
    /// An exit event is pending: leave the loop without painting again.
    Stop,
    /// Keep running; `refresh` says whether the digits are due a repaint
    /// this iteration.
    Run { refresh: bool },
}

/// The scheduler state: the milliseconds accumulated since the last digit
/// refresh, and the forced-first-refresh flag, which starts set, is cleared
/// by the first refresh and is never set again.
pub struct RefreshScheduler {
    pub acc_ms: u64,
    pub force: bool,
}

impl RefreshScheduler {
    /// Whether an iteration that observes `delta_ms` of elapsed time
    /// refreshes the digits: on the forced first iteration, and whenever the
    /// accumulator reaches the refresh interval.
    pub open spec fn fires(self, delta_ms: u64) -> bool {
        self.force || sat_add(self.acc_ms, delta_ms) >= REFRESH_INTERVAL_MS
    }

    /// The scheduler after one iteration's decision: unchanged on exit; the
    /// accumulator reset and the forced flag cleared on a refresh; otherwise
    /// the elapsed time is added to the accumulator.
    pub open spec fn after_plan(self, exit_pending: bool, delta_ms: u64) -> RefreshScheduler {
        if exit_pending {
            self
        } else if self.fires(delta_ms) {
            RefreshScheduler { acc_ms: 0, force: false }
        } else {
            RefreshScheduler { acc_ms: sat_add(self.acc_ms, delta_ms), force: self.force }
        }
    }

    /// A scheduler before its first iteration: nothing accumulated and the
    /// first refresh forced.
    pub fn new() -> (r: RefreshScheduler)
        ensures
            r.acc_ms == 0,
            r.force == true,
    {
        RefreshScheduler { acc_ms: 0, force: true }
    }

    /// Decide one iteration. A pending exit event stops the loop and leaves
    /// the scheduler unchanged; otherwise the elapsed time is accumulated
    /// and the decision says whether the digits are due a repaint.
    pub fn plan_iteration(&mut self, exit_pending: bool, delta_ms: u64) -> (r: SchedulerStep)
        ensures
            *final(self) == old(self).after_plan(exit_pending, delta_ms),
            r == (if exit_pending {
                SchedulerStep::Stop
            } else {
                SchedulerStep::Run { refresh: old(self).fires(delta_ms) }
            }),
    {
        if exit_pending {
            return SchedulerStep::Stop;
        }
        let acc = if delta_ms <= u64::MAX - self.acc_ms {
            self.acc_ms + delta_ms
        } else {
            u64::MAX
        };
        if self.force || acc >= REFRESH_INTERVAL_MS {
            self.acc_ms = 0;
            self.force = false;
            SchedulerStep::Run { refresh: true }
        } else {
            self.acc_ms = acc;
            SchedulerStep::Run { refresh: false }
        }
    }

    /// What one running (non-exit) iteration does to the face and the
    /// canvas, given the scheduler state at its start and the wall-clock
    /// reading `hours:minutes:seconds` used for it: if the refresh fired,
    /// the face shows the six digits of that reading; the animation always
    /// ticks; the canvas gains exactly the refresh writes (if any) followed
    /// by the separator writes.
    pub open spec fn iteration_effect(
        self,
        face0: ClockFace,
        ops0: Seq<PaintOp>,
        face1: ClockFace,
        ops1: Seq<PaintOp>,
        delta_ms: u64,
        hours: u32,
        minutes: u32,
        seconds: u32,
    ) -> bool {
        let h1 = (hours / 10) as usize;
        let h2 = (hours % 10) as usize;
        let m1 = (minutes / 10) as usize;
        let m2 = (minutes % 10) as usize;
        let s1 = (seconds / 10) as usize;
        let s2 = (seconds % 10) as usize;
        let mid = if self.fires(delta_ms) {
            face0.after_update(h1, h2, m1, m2, s1, s2)
        } else {
            face0
        };
        let refresh_ops = if self.fires(delta_ms) {
            face0.update_ops(h1, h2, m1, m2, s1, s2)
        } else {
            Seq::<PaintOp>::empty()
        };
        &&& face1 == mid.after_tick()
        &&& ops1 == ops0 + refresh_ops + mid.anim_ops()
    }

    /// One full loop iteration, with the wall-clock reading supplied by the
    /// caller: check the exit event, accumulate the elapsed time, refresh
    /// the digits if due, and tick the animation. Returns whether the loop
    /// should stop.
    pub fn iterate(
        &mut self,
        face: &mut ClockFace,
        canvas: &mut Canvas,
        exit_pending: bool,
        delta_ms: u64,
        hours: u32,
        minutes: u32,
        seconds: u32,
    ) -> (stopped: bool)
        requires
            old(face).wf(),
            hours < 24,
            minutes < 60,
            seconds < 60,
        ensures
            stopped == exit_pending,
            *final(self) == old(self).after_plan(exit_pending, delta_ms),
            exit_pending ==> *final(face) == *old(face) && final(canvas)@ == old(canvas)@,
            !exit_pending ==> old(self).iteration_effect(
                *old(face),
                old(canvas)@,
                *final(face),
                final(canvas)@,
                delta_ms,
                hours,
                minutes,
                seconds,
            ),
            final(face).wf(),
    {
        let step = self.plan_iteration(exit_pending, delta_ms);
        match step {
            SchedulerStep::Stop => true,
            SchedulerStep::Run { refresh } => {
                if refresh {
                    let (h1, h2, m1, m2, s1, s2) = split_digits(hours, minutes, seconds);
                    let _ = face.update(canvas, h1, h2, m1, m2, s1, s2);
                }
                let _ = face.tick_animation(canvas);
                proof {
                    assert(final(canvas)@ =~= old(canvas)@ + (if old(self).fires(delta_ms) {
                        old(face).update_ops(
                            (hours / 10) as usize,
                            (hours % 10) as usize,
                            (minutes / 10) as usize,
                            (minutes % 10) as usize,
                            (seconds / 10) as usize,
                            (seconds % 10) as usize,
                        )
                    } else {
                        Seq::<PaintOp>::empty()
                    }) + (if old(self).fires(delta_ms) {
                        old(face).after_update(
                            (hours / 10) as usize,
                            (hours % 10) as usize,
                            (minutes / 10) as usize,
                            (minutes % 10) as usize,
                            (seconds / 10) as usize,
                            (seconds % 10) as usize,
                        )
                    } else {
                        *old(face)
                    }).anim_ops());
                }
                false
            },
        }
    }

    /// One full loop iteration against the real local wall clock. The time
    /// is read only when the refresh fires, and whatever reading arrives is
    /// a valid time of day, so the iteration behaves as [`Self::iterate`]
    /// does for that reading.
    pub fn iterate_now(
        &mut self,
        face: &mut ClockFace,
        canvas: &mut Canvas,
        exit_pending: bool,
        delta_ms: u64,
    ) -> (stopped: bool)
        requires
            old(face).wf(),
        ensures
            stopped == exit_pending,
            *final(self) == old(self).after_plan(exit_pending, delta_ms),
            exit_pending ==> *final(face) == *old(face) && final(canvas)@ == old(canvas)@,
            !exit_pending ==> exists|hours: u32, minutes: u32, seconds: u32|
                #![auto]
                hours < 24 && minutes < 60 && seconds < 60 && old(self).iteration_effect(
                    *old(face),
                    old(canvas)@,
                    *final(face),
                    final(canvas)@,
                    delta_ms,
                    hours,
                    minutes,
                    seconds,
                ),
            final(face).wf(),
    {
        if exit_pending {
            return true;
        }
        let (hours, minutes, seconds) = now_hms();
        let stopped = self.iterate(face, canvas, false, delta_ms, hours, minutes, seconds);
        stopped
    }
}

/// Whether `r` is the digit decomposition of the time `hours:minutes:seconds`
/// — tens and units of each component, in display order.
pub open spec fn time_digits(
    hours: u32,
    minutes: u32,
    seconds: u32,
    r: (usize, usize, usize, usize, usize, usize),
) -> bool {
    r.0 == hours / 10 && r.1 == hours % 10 && r.2 == minutes / 10 && r.3 == minutes % 10 && r.4
        == seconds / 10 && r.5 == seconds % 10
}

/// Split a time of day into the six displayed digits: tens and units of
/// hours, minutes and seconds, in display order.
pub fn split_digits(hours: u32, minutes: u32, seconds: u32) -> (r: (
    usize,
    usize,
    usize,
    usize,
    usize,
    usize,
))
    requires
        hours < 24,
        minutes < 60,
        seconds < 60,
    ensures
        time_digits(hours, minutes, seconds, r),
        r.0 == hours / 10 && r.1 == hours % 10,
        r.2 == minutes / 10 && r.3 == minutes % 10,
        r.4 == seconds / 10 && r.5 == seconds % 10,
        r.0 <= 2 && r.1 <= 9 && r.2 <= 5 && r.3 <= 9 && r.4 <= 5 && r.5 <= 9,
{
    (
        (hours / 10) as usize,
        (hours % 10) as usize,
        (minutes / 10) as usize,
        (minutes % 10) as usize,
        (seconds / 10) as usize,
        (seconds % 10) as usize,
    )
}

/// Relies on chrono's `Local::now` and its `Timelike` accessors: `hour`
/// returns 0 to 23, and `minute` and `second` return 0 to 59 (a leap second
/// is carried by the sub-second part, not by `second`). In pathological
/// environments — a system clock set before the Unix epoch or past chrono's
/// maximum year, or a degenerate time-zone database — `Local::now` itself
/// can panic; no argument exists to exclude that by a precondition, and the
/// clock source is trusted to supply a representable time.
#[verifier::external_body]
fn now_hms() -> (r: (u32, u32, u32))
    ensures
        r.0 < 24,
        r.1 < 60,
        r.2 < 60,
{
    let now = chrono::Local::now();
    (chrono::Timelike::hour(&now), chrono::Timelike::minute(&now), chrono::Timelike::second(&now))
}

/// The current local time as its six displayed digits, tens and units of
/// hours, minutes and seconds in display order. Whatever reading the clock
/// supplies, the result is the digit decomposition of some valid time of
/// day; in particular every digit is in 0..=9 and the hours tens digit is
/// at most 2.
pub fn current_time() -> (r: (usize, usize, usize, usize, usize, usize))
    ensures
        exists|h: u32, m: u32, s: u32|
            h < 24 && m < 60 && s < 60 && #[trigger] time_digits(h, m, s, r),
        r.0 <= 2 && r.1 <= 9 && r.2 <= 5 && r.3 <= 9 && r.4 <= 5 && r.5 <= 9,
{
    let (hours, minutes, seconds) = now_hms();
    split_digits(hours, minutes, seconds)
}


} // verus!
