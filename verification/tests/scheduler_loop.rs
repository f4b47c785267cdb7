//! The refresh scheduler: forced first refresh, the once-per-second cadence
//! decoupled from the per-iteration animation tick, and the exit path.

use gdc::canvas::{Canvas, PaintOp};
use gdc::face::ClockFace;
use gdc::glyphs::{digit_5x5_frame, empty_5x5_frame};
use gdc::schedule::{current_time, split_digits, RefreshScheduler, SchedulerStep};

fn digit_anchors() -> [usize; 6] {
    [1, 8, 18, 25, 36, 43]
}

fn expected_frame_ops(x: usize, y: usize, frame: &Vec<Vec<char>>) -> Vec<PaintOp> {
    let mut ops = Vec::new();
    for i in 0..5 {
        for j in 0..5 {
            ops.push(PaintOp { x: x + j, y: y + i, sym: frame[i][j] });
        }
    }
    ops
}

fn expected_digit_paint(x: usize, y: usize, d: usize) -> Vec<PaintOp> {
    let mut ops = expected_frame_ops(x, y, &empty_5x5_frame());
    ops.extend(expected_frame_ops(x, y, &digit_5x5_frame(d)));
    ops
}

fn expected_update_paint(digits: [usize; 6]) -> Vec<PaintOp> {
    let mut ops = Vec::new();
    for (k, d) in digits.iter().enumerate() {
        ops.extend(expected_digit_paint(digit_anchors()[k], 1, *d));
    }
    ops
}

fn expected_anim_paint(sym: char) -> Vec<PaintOp> {
    vec![
        PaintOp { x: 15, y: 2, sym },
        PaintOp { x: 15, y: 4, sym },
        PaintOp { x: 33, y: 2, sym },
        PaintOp { x: 33, y: 4, sym },
    ]
}

#[test]
fn split_digits_decomposes_a_time_of_day() {
    assert_eq!(split_digits(14, 9, 5), (1, 4, 0, 9, 0, 5));
    assert_eq!(split_digits(0, 0, 0), (0, 0, 0, 0, 0, 0));
    assert_eq!(split_digits(23, 59, 59), (2, 3, 5, 9, 5, 9));
}

#[test]
fn first_iteration_refreshes_regardless_of_elapsed_time() {
    // Mocked start at 14:09:05: the first iteration is forced, so the six
    // digits 1,4,0,9,0,5 are painted even though no time has elapsed.
    let mut sched = RefreshScheduler::new();
    let mut face = ClockFace::new();
    let mut canvas = Canvas::new();
    let stopped = sched.iterate(&mut face, &mut canvas, false, 0, 14, 9, 5);
    assert!(!stopped);
    let mut expected = expected_update_paint([1, 4, 0, 9, 0, 5]);
    expected.extend(expected_anim_paint('⣷'));
    assert_eq!(canvas.take_ops(), expected);
}

#[test]
fn accumulated_elapsed_time_triggers_exactly_one_refresh() {
    // Start at 10:00:00, then advance the mocked clock by 600 ms twice with
    // the time now reading 10:00:01: only the second 600 ms step reaches the
    // 1000 ms cadence, so exactly one refresh happens, and it repaints only
    // the seconds-units cell (0 became 1).
    let mut sched = RefreshScheduler::new();
    let mut face = ClockFace::new();
    let mut canvas = Canvas::new();
    sched.iterate(&mut face, &mut canvas, false, 0, 10, 0, 0);
    let _ = canvas.take_ops();

    sched.iterate(&mut face, &mut canvas, false, 600, 10, 0, 1);
    // 600 ms accumulated: no refresh yet, only the animation tick.
    assert_eq!(canvas.take_ops(), expected_anim_paint('⣯'));

    sched.iterate(&mut face, &mut canvas, false, 600, 10, 0, 1);
    // 1200 ms accumulated: one refresh; five digits are unchanged no-ops and
    // only the seconds-units widget repaints.
    let mut expected = expected_digit_paint(digit_anchors()[5], 1, 1);
    expected.extend(expected_anim_paint('⣟'));
    assert_eq!(canvas.take_ops(), expected);
}

#[test]
fn short_deltas_animate_every_iteration_without_extra_refreshes() {
    // Five iterations with deltas below the cadence: the animation ticks on
    // every iteration, and no digit refresh happens beyond the forced first.
    let mut sched = RefreshScheduler::new();
    let mut face = ClockFace::new();
    let mut canvas = Canvas::new();
    let mut anim_ticks = 0;
    let mut extra_refresh_ops = 0;
    for k in 0..5 {
        let stopped = sched.iterate(&mut face, &mut canvas, false, 100, 9, 30, 0);
        assert!(!stopped);
        let ops = canvas.take_ops();
        // Each iteration ends with the four separator cells.
        assert_eq!(ops[ops.len() - 4..].len(), 4);
        assert!(ops[ops.len() - 4..].iter().all(|op| op.x == 15 || op.x == 33));
        anim_ticks += 1;
        if k > 0 {
            extra_refresh_ops += ops.len() - 4;
        }
    }
    assert_eq!(anim_ticks, 5);
    assert_eq!(extra_refresh_ops, 0);
}

#[test]
fn pending_exit_event_stops_without_painting() {
    let mut sched = RefreshScheduler::new();
    let mut face = ClockFace::new();
    let mut canvas = Canvas::new();
    let stopped = sched.iterate(&mut face, &mut canvas, true, 0, 12, 0, 0);
    assert!(stopped);
    assert_eq!(canvas.len(), 0);
    // The forced first refresh is still pending for the next iteration.
    let stopped = sched.iterate(&mut face, &mut canvas, false, 0, 12, 0, 0);
    assert!(!stopped);
    assert_eq!(canvas.len(), 300 + 4);
}

#[test]
fn plan_iteration_accumulates_until_the_cadence() {
    let mut sched = RefreshScheduler::new();
    // Forced first refresh, even with nothing elapsed.
    assert_eq!(sched.plan_iteration(false, 0), SchedulerStep::Run { refresh: true });
    // 999 ms accumulated: not due.
    assert_eq!(sched.plan_iteration(false, 999), SchedulerStep::Run { refresh: false });
    // One more millisecond reaches the cadence.
    assert_eq!(sched.plan_iteration(false, 1), SchedulerStep::Run { refresh: true });
    // The accumulator was reset by the refresh.
    assert_eq!(sched.plan_iteration(false, 999), SchedulerStep::Run { refresh: false });
    assert_eq!(sched.plan_iteration(true, 500), SchedulerStep::Stop);
}

#[test]
fn iterate_now_paints_a_valid_time() {
    // Against the real clock: the forced first iteration paints six digit
    // regions and the separators; every painted symbol is a frame cell or a
    // spinner cell.
    let mut sched = RefreshScheduler::new();
    let mut face = ClockFace::new();
    let mut canvas = Canvas::new();
    let stopped = sched.iterate_now(&mut face, &mut canvas, false, 0);
    assert!(!stopped);
    let ops = canvas.take_ops();
    assert_eq!(ops.len(), 300 + 4);
}

#[test]
fn current_time_digits_are_in_range() {
    let (h1, h2, m1, m2, s1, s2) = current_time();
    assert!(h1 <= 2);
    assert!(h2 <= 9);
    assert!(m1 <= 5);
    assert!(m2 <= 9);
    assert!(s1 <= 5);
    assert!(s2 <= 9);
    assert!(h1 * 10 + h2 <= 23);
}
