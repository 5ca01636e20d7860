//! Regions of the module grid: the three finder zones and the centre cutout.
//! Coordinates count modules, `x` across and `y` down, from the top left.

use crate::symbol::{EcLevel, Symbol};
use vstd::prelude::*;

verus! {

/// An axis-aligned box of modules; all four bounds belong to it.
#[derive(Clone, Copy, Debug, PartialEq, Eq, Structural)]
pub struct Square {
    pub x1: usize,
    pub y1: usize,
    pub x2: usize,
    pub y2: usize,
}

impl Square {
    /// Whether the module at (`x`, `y`) lies in the box.
    pub open spec fn holds(self, x: int, y: int) -> bool {
        self.x1 <= x <= self.x2 && self.y1 <= y <= self.y2
    }
}

/// Whether (`x`, `y`) lies in one of the three finder zones of a grid
/// `width` modules wide: columns and rows 0..=6 at the top left, columns
/// `width - 7 ..= width` of rows 0..=6 at the top right, and rows
/// `width - 7 ..= width` of columns 0..=6 at the bottom left.
pub open spec fn in_finder_zone(width: int, x: int, y: int) -> bool {
    ||| 0 <= x <= 6 && 0 <= y <= 6
    ||| width - 7 <= x <= width && 0 <= y <= 6
    ||| 0 <= x <= 6 && width - 7 <= y <= width
}

/// Position of a level on the scale L, M, Q, H.
pub open spec fn rank(level: EcLevel) -> nat {
    match level {
        EcLevel::L => 0,
        EcLevel::M => 1,
        EcLevel::Q => 2,
        EcLevel::H => 3,
    }
}

/// The share of a symbol's width, in hundredths, that may be blanked at
/// `level`.
pub open spec fn allowed_percent(level: EcLevel) -> nat {
    match level {
        EcLevel::L => 7,
        EcLevel::M => 15,
        EcLevel::Q => 25,
        EcLevel::H => 30,
    }
}

/// Side of the cutout: the allowed share of the width, rounded down.
pub open spec fn cutout_side(width: nat, level: EcLevel) -> nat {
    width * allowed_percent(level) / 100
}

/// First column and first row of the cutout box.
pub open spec fn cutout_first(width: nat, level: EcLevel) -> int {
    width / 2 - cutout_side(width, level) / 2
}

/// Last column and last row of the cutout box.
pub open spec fn cutout_last(width: nat, level: EcLevel) -> int {
    (width / 2 + cutout_side(width, level) / 2) as int
}

/// Whether the cutout hides the module at (`x`, `y`): the module lies in the
/// box, and the side did not round down to nothing.
pub open spec fn in_cutout(width: nat, level: EcLevel, x: int, y: int) -> bool {
    &&& cutout_side(width, level) > 0
    &&& cutout_first(width, level) <= x <= cutout_last(width, level)
    &&& cutout_first(width, level) <= y <= cutout_last(width, level)
}

/// The box starts at or after module 0 and ends at or before `width`.
pub proof fn lemma_cutout_in_grid(width: nat, level: EcLevel)
    ensures
        cutout_side(width, level) <= width,
        0 <= cutout_first(width, level) <= cutout_last(width, level) <= width,
        cutout_last(width, level) - cutout_first(width, level) + 1 == 2 * (cutout_side(width, level)
            / 2) + 1,
{
}

/// A higher error-correction level never shrinks the cutout of a given
/// width.
pub proof fn lemma_cutout_monotonic(width: nat, lower: EcLevel, higher: EcLevel)
    requires
        rank(lower) <= rank(higher),
    ensures
        cutout_side(width, lower) <= cutout_side(width, higher),
{
}

pub fn is_within(x: usize, y: usize, square: &Square) -> (inside: bool)
    ensures
        inside == square.holds(x as int, y as int),
{
    x >= square.x1 && x <= square.x2 && y >= square.y1 && y <= square.y2
}

pub fn is_finder_pattern(code_width: usize, x: usize, y: usize) -> (inside: bool)
    ensures
        inside == in_finder_zone(code_width as int, x as int, y as int),
{
    let far: usize = if code_width >= 7 {
        code_width - 7
    } else {
        0
    };
    let top_left_finder = Square { x1: 0, x2: 6, y1: 0, y2: 6 };
    let top_right_finder = Square { x1: far, x2: code_width, y1: 0, y2: 6 };
    let bottom_left_finder = Square { x1: 0, x2: 6, y1: far, y2: code_width };
    is_within(x, y, &top_left_finder) || is_within(x, y, &top_right_finder) || is_within(
        x,
        y,
        &bottom_left_finder,
    )
}

/// Side of the cutout for a grid `width` modules wide at `level`.
pub fn safe_cutout_side(width: usize, level: EcLevel) -> (side: usize)
    ensures
        side == cutout_side(width as nat, level),
{
    let percent: usize = match level {
        EcLevel::L => 7,
        EcLevel::M => 15,
        EcLevel::Q => 25,
        EcLevel::H => 30,
    };
    (width / 100) * percent + (width % 100) * percent / 100
}

/// The cutout box of `code`, centred on module `width / 2`: from half a side
/// before it to half a side after it, both halves rounded down.
pub fn find_safe_center_cutout(code: &Symbol) -> (square: Square)
    ensures
        square.x1 == cutout_first(code@.width, code.level),
        square.y1 == cutout_first(code@.width, code.level),
        square.x2 == cutout_last(code@.width, code.level),
        square.y2 == cutout_last(code@.width, code.level),
{
    let width = code.width;
    let center_width = safe_cutout_side(width, code.level);
    let center = width / 2;
    Square {
        x1: center - center_width / 2,
        y1: center - center_width / 2,
        x2: center + center_width / 2,
        y2: center + center_width / 2,
    }
}

} // verus!
