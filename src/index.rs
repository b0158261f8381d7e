//! Coordinates of cells in a grid.
use core::cmp::Ordering;
use vstd::prelude::*;

verus! {

/// A line (row) of the grid, counted from the top.
#[derive(Clone, Copy, Debug, PartialEq, Eq, Structural, Hash)]
pub struct Line(pub usize);

/// A column of the grid, counted from the left; also used for the width of a grid.
#[derive(Clone, Copy, Debug, PartialEq, Eq, Structural, Hash)]
pub struct Column(pub usize);

/// A flattened offset `line * width + column`.
#[derive(Clone, Copy, Debug, PartialEq, Eq, Structural, Hash)]
pub struct Linear(pub usize);

/// The half of a cell that a selection endpoint refers to.
#[derive(Clone, Copy, Debug, PartialEq, Eq, Structural, Hash)]
pub enum Side {
    /// Before the cell's visual midpoint.
    Left,
    /// After the cell's visual midpoint.
    Right,
}

/// A cell of the grid, ordered by line first and then by column.
#[derive(Clone, Copy, Debug, PartialEq, Eq, Structural, Hash)]
pub struct Point {
    pub line: Line,
    pub col: Column,
}

impl Point {
    pub fn new(line: Line, col: Column) -> (r: Point)
        ensures
            r.line == line,
            r.col == col,
    {
        Point { line, col }
    }

    /// Reading order: `self` lies on an earlier line, or on the same line further left.
    pub open spec fn before(self, other: Point) -> bool {
        ||| self.line.0 < other.line.0
        ||| (self.line.0 == other.line.0 && self.col.0 < other.col.0)
    }

    /// The flattened offset of this point in a grid of `width` columns.
    pub open spec fn linear(self, width: usize) -> int {
        self.line.0 * width + self.col.0
    }
}

impl PartialOrd for Point {
    fn partial_cmp(&self, other: &Point) -> (r: Option<Ordering>) {
        if self.line.0 < other.line.0 {
            Some(Ordering::Less)
        } else if self.line.0 > other.line.0 {
            Some(Ordering::Greater)
        } else if self.col.0 < other.col.0 {
            Some(Ordering::Less)
        } else if self.col.0 > other.col.0 {
            Some(Ordering::Greater)
        } else {
            Some(Ordering::Equal)
        }
    }
}

impl vstd::std_specs::cmp::PartialOrdSpecImpl for Point {
    open spec fn obeys_partial_cmp_spec() -> bool {
        true
    }

    open spec fn partial_cmp_spec(&self, other: &Point) -> Option<Ordering> {
        if self.before(*other) {
            Some(Ordering::Less)
        } else if other.before(*self) {
            Some(Ordering::Greater)
        } else {
            Some(Ordering::Equal)
        }
    }
}

} // verus!
