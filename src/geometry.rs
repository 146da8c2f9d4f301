//! Pixel geometry of the board, in exact rational numbers of pixels.

use vstd::prelude::*;

verus! {

/// A non-negative number of pixels, `num / den`.
#[derive(Clone, Copy, Debug, PartialEq, Eq, Structural)]
pub struct Ratio {
    pub num: u64,
    pub den: u64,
}

/// A point of the window, in pixels.
#[derive(Clone, Copy, Debug, PartialEq, Eq, Structural)]
pub struct Point {
    pub x: Ratio,
    pub y: Ratio,
}

/// An axis-aligned rectangle of the window: its top-left corner, its width and its height.
#[derive(Clone, Copy, Debug, PartialEq, Eq, Structural)]
pub struct Rect {
    pub x: Ratio,
    pub y: Ratio,
    pub w: Ratio,
    pub h: Ratio,
}

impl Ratio {
    /// A ratio is well formed when its denominator is positive.
    pub open spec fn wf(self) -> bool {
        self.den > 0
    }

    /// `k` copies of this length, kept over the same denominator.
    pub open spec fn spec_times(self, k: int) -> Ratio {
        Ratio { num: (self.num * k) as u64, den: self.den }
    }

    /// The whole number `n`.
    pub fn whole(n: u64) -> (r: Ratio)
        ensures
            r == (Ratio { num: n, den: 1 }),
    {
        Ratio { num: n, den: 1 }
    }

    /// `k` copies of this length, over the same denominator.
    pub fn times(self, k: u64) -> (r: Ratio)
        requires
            self.num * k <= u64::MAX,
        ensures
            r == self.spec_times(k as int),
    {
        Ratio { num: self.num * k, den: self.den }
    }
}

impl Point {
    pub fn new(x: Ratio, y: Ratio) -> (p: Point)
        ensures
            p == (Point { x, y }),
    {
        Point { x, y }
    }
}

/// The side of one cell when `size_grid` cells share `window_min_length` pixels.
pub open spec fn spec_unit_size(window_min_length: u32, size_grid: u32) -> Ratio {
    Ratio { num: window_min_length as u64, den: size_grid as u64 }
}

/// The side of one cell: the shorter window side divided by the number of cells
/// on a side, so that the square grid fits the window.
pub fn unit_size(window_min_length: u32, size_grid: u32) -> (r: Ratio)
    requires
        size_grid > 0,
    ensures
        r == spec_unit_size(window_min_length, size_grid),
        r.wf(),
        size_grid * r.num == window_min_length * r.den,
{
    assert(size_grid * window_min_length == window_min_length * size_grid) by (nonlinear_arith);
    Ratio { num: window_min_length as u64, den: size_grid as u64 }
}

/// The square that the cell in column `col` and row `row` covers.
pub open spec fn spec_cell_rect(col: int, row: int, unit: Ratio) -> Rect {
    Rect { x: unit.spec_times(col), y: unit.spec_times(row), w: unit, h: unit }
}

/// The square of pixels that the cell in column `col` and row `row` covers:
/// its corner is at `(col * unit, row * unit)` and its side is `unit`.
pub fn cell_rect(col: u64, row: u64, unit: Ratio) -> (r: Rect)
    requires
        unit.num * col <= u64::MAX,
        unit.num * row <= u64::MAX,
    ensures
        r == spec_cell_rect(col as int, row as int, unit),
{
    Rect { x: unit.times(col), y: unit.times(row), w: unit, h: unit }
}

} // verus!
