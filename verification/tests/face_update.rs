//! The clock face: independent per-digit updates, partial failure, and the
//! animation tick.

use gdc::canvas::{Canvas, PaintOp};
use gdc::face::ClockFace;
use gdc::glyphs::{digit_5x5_frame, empty_5x5_frame};
use gdc::ClockError;

fn digit_anchors() -> [usize; 6] {
    [1, 8, 18, 25, 36, 43]
}

fn expected_frame_ops(x: usize, y: usize, frame: &Vec<Vec<char>>) -> Vec<PaintOp> {
    let mut ops = Vec::new();
    for i in 0..5 {
        for j in 0..5 {
            ops.push(PaintOp { x: x + j, y: y + i, sym: frame[i][j] });
        }
    }
    ops
}

fn expected_digit_paint(x: usize, y: usize, d: usize) -> Vec<PaintOp> {
    let mut ops = expected_frame_ops(x, y, &empty_5x5_frame());
    ops.extend(expected_frame_ops(x, y, &digit_5x5_frame(d)));
    ops
}

fn expected_update_paint(digits: [usize; 6]) -> Vec<PaintOp> {
    let mut ops = Vec::new();
    for (k, d) in digits.iter().enumerate() {
        ops.extend(expected_digit_paint(digit_anchors()[k], 1, *d));
    }
    ops
}

#[test]
fn update_with_valid_digits_succeeds_and_paints_each_cell() {
    let mut face = ClockFace::new();
    let mut canvas = Canvas::new();
    assert_eq!(face.update(&mut canvas, 0, 1, 2, 3, 4, 5), Ok(()));
    assert_eq!(canvas.take_ops(), expected_update_paint([0, 1, 2, 3, 4, 5]));
}

#[test]
fn update_records_each_digit_so_a_repeat_is_a_no_op() {
    // After a successful update every cell holds its argument: repeating the
    // same six digits queues no writes at all.
    let mut face = ClockFace::new();
    let mut canvas = Canvas::new();
    face.update(&mut canvas, 2, 3, 5, 9, 0, 7).unwrap();
    let _ = canvas.take_ops();
    assert_eq!(face.update(&mut canvas, 2, 3, 5, 9, 0, 7), Ok(()));
    assert_eq!(canvas.len(), 0);
}

#[test]
fn one_bad_digit_fails_but_the_other_five_still_update() {
    let mut face = ClockFace::new();
    let mut canvas = Canvas::new();
    assert_eq!(
        face.update(&mut canvas, 1, 10, 2, 3, 4, 5),
        Err(ClockError::InvalidDigit)
    );
    // The five valid digits were painted at their anchors; the failed one
    // was not painted at all.
    let mut expected = Vec::new();
    expected.extend(expected_digit_paint(digit_anchors()[0], 1, 1));
    expected.extend(expected_digit_paint(digit_anchors()[2], 1, 2));
    expected.extend(expected_digit_paint(digit_anchors()[3], 1, 3));
    expected.extend(expected_digit_paint(digit_anchors()[4], 1, 4));
    expected.extend(expected_digit_paint(digit_anchors()[5], 1, 5));
    assert_eq!(canvas.take_ops(), expected);

    // The five updated cells remember their digits (repeats are no-ops) and
    // the failed cell still accepts a valid digit afterwards.
    assert_eq!(
        face.update(&mut canvas, 1, 0, 2, 3, 4, 5),
        Ok(())
    );
    assert_eq!(canvas.take_ops(), expected_digit_paint(digit_anchors()[1], 1, 0));
}

#[test]
fn tick_animation_paints_both_separators_then_advances() {
    let mut face = ClockFace::new();
    let mut canvas = Canvas::new();
    face.tick_animation(&mut canvas).unwrap();
    let ops = canvas.take_ops();
    assert_eq!(
        ops,
        vec![
            PaintOp { x: 15, y: 2, sym: '⣷' },
            PaintOp { x: 15, y: 4, sym: '⣷' },
            PaintOp { x: 33, y: 2, sym: '⣷' },
            PaintOp { x: 33, y: 4, sym: '⣷' },
        ]
    );
    // The next tick paints the next symbol of the cycle.
    face.tick_animation(&mut canvas).unwrap();
    let ops = canvas.take_ops();
    assert_eq!(ops[0], PaintOp { x: 15, y: 2, sym: '⣯' });
}

#[test]
fn digit_regions_and_separators_do_not_overlap() {
    let mut face = ClockFace::new();
    let mut canvas = Canvas::new();
    face.update(&mut canvas, 8, 8, 8, 8, 8, 8).unwrap();
    face.tick_animation(&mut canvas).unwrap();
    let ops = canvas.take_ops();
    // Group the painted cells by widget: six 50-op digit paints plus 4
    // separator ops; within one op list, positions repeat only between a
    // digit's blank pass and its glyph pass.
    for (k, a) in digit_anchors().iter().enumerate() {
        for other in &digit_anchors()[k + 1..] {
            assert!(a + 4 < *other);
        }
    }
    for op in &ops[300..] {
        // Separator cells sit in the gaps between digit groups.
        assert!(op.x == 15 || op.x == 33);
        for a in digit_anchors().iter() {
            assert!(op.x < *a || op.x > a + 4);
        }
    }
}
