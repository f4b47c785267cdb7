//! The glyph table: each digit 0..=9 as a fixed five-by-five grid of cells,
//! plus the all-empty grid used for clearing a digit region.
//!
//! A cell is `'X'` (filled) or `' '` (empty). The grids are design constants:
//! the spec-level patterns below are the authoritative shapes, and each
//! executable frame constructor is proved to return exactly its pattern.

use vstd::prelude::*;
use crate::ClockError;

verus! {

/// A glyph grid is well formed when it has exactly five rows of five cells.
pub open spec fn grid_wf(g: Seq<Seq<char>>) -> bool {
    g.len() == 5 && forall|i: int| 0 <= i < 5 ==> (#[trigger] g[i]).len() == 5
}

/// The fully empty pattern, painted to clear a digit region.
pub open spec fn blank_pattern() -> Seq<Seq<char>> {
    seq![
        seq![' ', ' ', ' ', ' ', ' '],
        seq![' ', ' ', ' ', ' ', ' '],
        seq![' ', ' ', ' ', ' ', ' '],
        seq![' ', ' ', ' ', ' ', ' '],
        seq![' ', ' ', ' ', ' ', ' '],
    ]
}

/// The pattern for the digit `0`.
pub open spec fn zero_pattern() -> Seq<Seq<char>> {
    seq![
        seq![' ', 'X', 'X', 'X', ' '],
        seq!['X', ' ', ' ', ' ', 'X'],
        seq!['X', ' ', ' ', ' ', 'X'],
        seq!['X', ' ', ' ', ' ', 'X'],
        seq![' ', 'X', 'X', 'X', ' '],
    ]
}

/// The pattern for the digit `1`.
pub open spec fn one_pattern() -> Seq<Seq<char>> {
    seq![
        seq![' ', ' ', ' ', 'X', ' '],
        seq![' ', ' ', 'X', 'X', ' '],
        seq![' ', ' ', ' ', 'X', ' '],
        seq![' ', ' ', ' ', 'X', ' '],
        seq![' ', ' ', ' ', 'X', ' '],
    ]
}

/// The pattern for the digit `2`.
pub open spec fn two_pattern() -> Seq<Seq<char>> {
    seq![
        seq!['X', 'X', 'X', 'X', ' '],
        seq![' ', ' ', ' ', 'X', 'X'],
        seq![' ', 'X', 'X', 'X', ' '],
        seq!['X', 'X', ' ', ' ', ' '],
        seq!['X', 'X', 'X', 'X', 'X'],
    ]
}

/// The pattern for the digit `3`.
pub open spec fn three_pattern() -> Seq<Seq<char>> {
    seq![
        seq!['X', 'X', 'X', 'X', ' '],
        seq![' ', ' ', ' ', 'X', 'X'],
        seq![' ', 'X', 'X', 'X', ' '],
        seq![' ', ' ', ' ', 'X', 'X'],
        seq!['X', 'X', 'X', 'X', ' '],
    ]
}

/// The pattern for the digit `4`.
pub open spec fn four_pattern() -> Seq<Seq<char>> {
    seq![
        seq![' ', 'X', ' ', ' ', 'X'],
        seq![' ', 'X', ' ', ' ', 'X'],
        seq![' ', 'X', 'X', 'X', 'X'],
        seq![' ', ' ', ' ', ' ', 'X'],
        seq![' ', ' ', ' ', ' ', 'X'],
    ]
}

/// The pattern for the digit `5`.
pub open spec fn five_pattern() -> Seq<Seq<char>> {
    seq![
        seq![' ', 'X', 'X', 'X', 'X'],
        seq![' ', 'X', ' ', ' ', ' '],
        seq![' ', 'X', 'X', 'X', 'X'],
        seq![' ', ' ', ' ', ' ', 'X'],
        seq![' ', 'X', 'X', 'X', 'X'],
    ]
}

/// The pattern for the digit `6`. Its bottom-right cell is the ordinary
/// empty-cell marker, like every other empty cell.
pub open spec fn six_pattern() -> Seq<Seq<char>> {
    seq![
        seq![' ', 'X', 'X', 'X', ' '],
        seq!['X', ' ', ' ', ' ', ' '],
        seq!['X', 'X', 'X', 'X', ' '],
        seq!['X', ' ', ' ', ' ', 'X'],
        seq![' ', 'X', 'X', 'X', ' '],
    ]
}

/// The pattern for the digit `7`.
pub open spec fn seven_pattern() -> Seq<Seq<char>> {
    seq![
        seq![' ', 'X', 'X', 'X', 'X'],
        seq![' ', ' ', ' ', 'X', ' '],
        seq![' ', ' ', 'X', ' ', ' '],
        seq![' ', ' ', 'X', ' ', ' '],
        seq![' ', ' ', 'X', ' ', ' '],
    ]
}

/// The pattern for the digit `8`.
pub open spec fn eight_pattern() -> Seq<Seq<char>> {
    seq![
        seq![' ', 'X', 'X', 'X', ' '],
        seq!['X', ' ', ' ', ' ', 'X'],
        seq![' ', 'X', 'X', 'X', ' '],
        seq!['X', ' ', ' ', ' ', 'X'],
        seq![' ', 'X', 'X', 'X', ' '],
    ]
}

/// The pattern for the digit `9`.
pub open spec fn nine_pattern() -> Seq<Seq<char>> {
    seq![
        seq![' ', 'X', 'X', 'X', ' '],
        seq!['X', ' ', ' ', ' ', 'X'],
        seq![' ', 'X', 'X', 'X', 'X'],
        seq![' ', ' ', ' ', ' ', 'X'],
        seq![' ', 'X', 'X', 'X', ' '],
    ]
}

/// The pattern displayed for a digit value: one fixed grid per digit 0..=9.
pub open spec fn digit_pattern(d: int) -> Seq<Seq<char>> {
    if d == 0 {
        zero_pattern()
    } else if d == 1 {
        one_pattern()
    } else if d == 2 {
        two_pattern()
    } else if d == 3 {
        three_pattern()
    } else if d == 4 {
        four_pattern()
    } else if d == 5 {
        five_pattern()
    } else if d == 6 {
        six_pattern()
    } else if d == 7 {
        seven_pattern()
    } else if d == 8 {
        eight_pattern()
    } else {
        nine_pattern()
    }
}

/// Every digit pattern, and the blank pattern, is a well-formed grid: exactly
/// five rows of exactly five cells, so a flattened glyph holds exactly
/// twenty-five cells.
pub proof fn lemma_glyph_dimensions(d: int)
    requires
        0 <= d <= 9,
    ensures
        grid_wf(digit_pattern(d)),
        grid_wf(blank_pattern()),
{
}

/// An empty five-by-five frame.
pub fn empty_5x5_frame() -> (r: Vec<Vec<char>>)
    ensures
        r.deep_view() == blank_pattern(),
{
    let r: Vec<Vec<char>> = vec![
        vec![' ', ' ', ' ', ' ', ' '],
        vec![' ', ' ', ' ', ' ', ' '],
        vec![' ', ' ', ' ', ' ', ' '],
        vec![' ', ' ', ' ', ' ', ' '],
        vec![' ', ' ', ' ', ' ', ' '],
    ];
    proof {
        assert(r.deep_view() =~~= blank_pattern());
    }
    r
}

/// The number `0` as a five-by-five frame.
pub fn zero_5x5_frame() -> (r: Vec<Vec<char>>)
    ensures
        r.deep_view() == zero_pattern(),
{
    let r: Vec<Vec<char>> = vec![
        vec![' ', 'X', 'X', 'X', ' '],
        vec!['X', ' ', ' ', ' ', 'X'],
        vec!['X', ' ', ' ', ' ', 'X'],
        vec!['X', ' ', ' ', ' ', 'X'],
        vec![' ', 'X', 'X', 'X', ' '],
    ];
    proof {
        assert(r.deep_view() =~~= zero_pattern());
    }
    r
}

/// The number `1` as a five-by-five frame.
pub fn one_5x5_frame() -> (r: Vec<Vec<char>>)
    ensures
        r.deep_view() == one_pattern(),
{
    let r: Vec<Vec<char>> = vec![
        vec![' ', ' ', ' ', 'X', ' '],
        vec![' ', ' ', 'X', 'X', ' '],
        vec![' ', ' ', ' ', 'X', ' '],
        vec![' ', ' ', ' ', 'X', ' '],
        vec![' ', ' ', ' ', 'X', ' '],
    ];
    proof {
        assert(r.deep_view() =~~= one_pattern());
    }
    r
}

/// The number `2` as a five-by-five frame.
pub fn two_5x5_frame() -> (r: Vec<Vec<char>>)
    ensures
        r.deep_view() == two_pattern(),
{
    let r: Vec<Vec<char>> = vec![
        vec!['X', 'X', 'X', 'X', ' '],
        vec![' ', ' ', ' ', 'X', 'X'],
        vec![' ', 'X', 'X', 'X', ' '],
        vec!['X', 'X', ' ', ' ', ' '],
        vec!['X', 'X', 'X', 'X', 'X'],
    ];
    proof {
        assert(r.deep_view() =~~= two_pattern());
    }
    r
}

/// The number `3` as a five-by-five frame.
pub fn three_5x5_frame() -> (r: Vec<Vec<char>>)
    ensures
        r.deep_view() == three_pattern(),
{
    let r: Vec<Vec<char>> = vec![
        vec!['X', 'X', 'X', 'X', ' '],
        vec![' ', ' ', ' ', 'X', 'X'],
        vec![' ', 'X', 'X', 'X', ' '],
        vec![' ', ' ', ' ', 'X', 'X'],
        vec!['X', 'X', 'X', 'X', ' '],
    ];
    proof {
        assert(r.deep_view() =~~= three_pattern());
    }
    r
}

/// The number `4` as a five-by-five frame.
pub fn four_5x5_frame() -> (r: Vec<Vec<char>>)
    ensures
        r.deep_view() == four_pattern(),
{
    let r: Vec<Vec<char>> = vec![
        vec![' ', 'X', ' ', ' ', 'X'],
        vec![' ', 'X', ' ', ' ', 'X'],
        vec![' ', 'X', 'X', 'X', 'X'],
        vec![' ', ' ', ' ', ' ', 'X'],
        vec![' ', ' ', ' ', ' ', 'X'],
    ];
    proof {
        assert(r.deep_view() =~~= four_pattern());
    }
    r
}

/// The number `5` as a five-by-five frame.
pub fn five_5x5_frame() -> (r: Vec<Vec<char>>)
    ensures
        r.deep_view() == five_pattern(),
{
    let r: Vec<Vec<char>> = vec![
        vec![' ', 'X', 'X', 'X', 'X'],
        vec![' ', 'X', ' ', ' ', ' '],
        vec![' ', 'X', 'X', 'X', 'X'],
        vec![' ', ' ', ' ', ' ', 'X'],
        vec![' ', 'X', 'X', 'X', 'X'],
    ];
    proof {
        assert(r.deep_view() =~~= five_pattern());
    }
    r
}

/// The number `6` as a five-by-five frame.
pub fn six_5x5_frame() -> (r: Vec<Vec<char>>)
    ensures
        r.deep_view() == six_pattern(),
{
    let r: Vec<Vec<char>> = vec![
        vec![' ', 'X', 'X', 'X', ' '],
        vec!['X', ' ', ' ', ' ', ' '],
        vec!['X', 'X', 'X', 'X', ' '],
        vec!['X', ' ', ' ', ' ', 'X'],
        vec![' ', 'X', 'X', 'X', ' '],
    ];
    proof {
        assert(r.deep_view() =~~= six_pattern());
    }
    r
}

/// The number `7` as a five-by-five frame.
pub fn seven_5x5_frame() -> (r: Vec<Vec<char>>)
    ensures
        r.deep_view() == seven_pattern(),
{
    let r: Vec<Vec<char>> = vec![
        vec![' ', 'X', 'X', 'X', 'X'],
        vec![' ', ' ', ' ', 'X', ' '],
        vec![' ', ' ', 'X', ' ', ' '],
        vec![' ', ' ', 'X', ' ', ' '],
        vec![' ', ' ', 'X', ' ', ' '],
    ];
    proof {
        assert(r.deep_view() =~~= seven_pattern());
    }
    r
}

/// The number `8` as a five-by-five frame.
pub fn eight_5x5_frame() -> (r: Vec<Vec<char>>)
    ensures
        r.deep_view() == eight_pattern(),
{
    let r: Vec<Vec<char>> = vec![
        vec![' ', 'X', 'X', 'X', ' '],
        vec!['X', ' ', ' ', ' ', 'X'],
        vec![' ', 'X', 'X', 'X', ' '],
        vec!['X', ' ', ' ', ' ', 'X'],
        vec![' ', 'X', 'X', 'X', ' '],
    ];
    proof {
        assert(r.deep_view() =~~= eight_pattern());
    }
    r
}

/// The number `9` as a five-by-five frame.
pub fn nine_5x5_frame() -> (r: Vec<Vec<char>>)
    ensures
        r.deep_view() == nine_pattern(),
{
    let r: Vec<Vec<char>> = vec![
        vec![' ', 'X', 'X', 'X', ' '],
        vec!['X', ' ', ' ', ' ', 'X'],
        vec![' ', 'X', 'X', 'X', 'X'],
        vec![' ', ' ', ' ', ' ', 'X'],
        vec![' ', 'X', 'X', 'X', ' '],
    ];
    proof {
        assert(r.deep_view() =~~= nine_pattern());
    }
    r
}

/// Look a digit's frame up: the frame of its pattern for a digit in 0..=9,
/// and the invalid-digit error for anything else.
pub fn lookup(digit: usize) -> (r: Result<Vec<Vec<char>>, ClockError>)
    ensures
        digit <= 9 ==> r is Ok && r->Ok_0.deep_view() == digit_pattern(digit as int),
        digit > 9 ==> r == Err::<Vec<Vec<char>>, ClockError>(ClockError::InvalidDigit),
{
    if digit > 9 {
        Err(ClockError::InvalidDigit)
    } else {
        Ok(digit_5x5_frame(digit))
    }
}

/// The frame for a digit value in 0..=9: the executable counterpart of
/// [`digit_pattern`].
pub fn digit_5x5_frame(d: usize) -> (r: Vec<Vec<char>>)
    requires
        d <= 9,
    ensures
        r.deep_view() == digit_pattern(d as int),
{
    match d {
        0 => zero_5x5_frame(),
        1 => one_5x5_frame(),
        2 => two_5x5_frame(),
        3 => three_5x5_frame(),
        4 => four_5x5_frame(),
        5 => five_5x5_frame(),
        6 => six_5x5_frame(),
        7 => seven_5x5_frame(),
        8 => eight_5x5_frame(),
        _ => nine_5x5_frame(),
    }
}

} // verus!
