//! Toroidal coordinates, unit displacements and compass headings.
use vstd::prelude::*;
use crate::loop_value::{wrapped, LoopValue};

verus! {

/// A row coordinate, wrapping at the grid's height.
#[derive(Clone, Debug)]
pub struct YPositionValue(LoopValue);

/// A column coordinate, wrapping at the grid's width.
#[derive(Clone, Debug)]
pub struct XPositionValue(LoopValue);

/// A displacement along the row axis.
#[derive(Clone, Copy, Debug)]
pub struct YVectorValue(i32);

/// A displacement along the column axis.
#[derive(Clone, Copy, Debug)]
pub struct XVectorValue(i32);

/// A displacement by one row delta and one column delta.
#[derive(Clone, Copy, Debug)]
pub struct Vector {
    y: YVectorValue,
    x: XVectorValue,
}

/// A cell of a toroidal grid: a row bound to the height and a column bound to
/// the width, each wrapping on its own.
#[derive(Clone, Debug)]
pub struct Position {
    y: YPositionValue,
    x: XPositionValue,
}

impl YPositionValue {
    pub closed spec fn axis(self) -> LoopValue {
        self.0
    }

    /// The row, as a signed integer.
    pub fn value(&self) -> (r: i32)
        ensures
            r == self.axis().current(),
    {
        self.0.value()
    }

    /// Moves the row by the displacement, wrapping at the height.
    pub fn translate(&mut self, rhs: YVectorValue)
        requires
            old(self).axis().wf(),
        ensures
            final(self).axis().modulus() == old(self).axis().modulus(),
            final(self).axis().current() == wrapped(
                old(self).axis().current(),
                rhs.delta(),
                old(self).axis().modulus(),
            ),
            final(self).axis().wf(),
    {
        self.0.advance(rhs.0);
    }
}

impl XPositionValue {
    pub closed spec fn axis(self) -> LoopValue {
        self.0
    }

    /// The column, as a signed integer.
    pub fn value(&self) -> (r: i32)
        ensures
            r == self.axis().current(),
    {
        self.0.value()
    }

    /// Moves the column by the displacement, wrapping at the width.
    pub fn translate(&mut self, rhs: XVectorValue)
        requires
            old(self).axis().wf(),
        ensures
            final(self).axis().modulus() == old(self).axis().modulus(),
            final(self).axis().current() == wrapped(
                old(self).axis().current(),
                rhs.delta(),
                old(self).axis().modulus(),
            ),
            final(self).axis().wf(),
    {
        self.0.advance(rhs.0);
    }
}

impl YVectorValue {
    pub closed spec fn delta(self) -> int {
        self.0 as int
    }
}

impl XVectorValue {
    pub closed spec fn delta(self) -> int {
        self.0 as int
    }
}

impl Vector {
    /// The change of row.
    pub closed spec fn dy(self) -> int {
        self.y.delta()
    }

    /// The change of column.
    pub closed spec fn dx(self) -> int {
        self.x.delta()
    }
}

impl Position {
    pub closed spec fn row(self) -> int {
        self.y.axis().current()
    }

    pub closed spec fn col(self) -> int {
        self.x.axis().current()
    }

    /// The bound that the row wraps at.
    pub closed spec fn height(self) -> int {
        self.y.axis().modulus()
    }

    /// The bound that the column wraps at.
    pub closed spec fn width(self) -> int {
        self.x.axis().modulus()
    }

    /// Both coordinates lie inside their bounds, which are positive `i32`s.
    pub open spec fn wf(self) -> bool {
        &&& 0 < self.height() <= i32::MAX
        &&& 0 < self.width() <= i32::MAX
        &&& 0 <= self.row() < self.height()
        &&& 0 <= self.col() < self.width()
    }

    /// The cell at `row` and `col` of a grid of `height` rows and `width` columns.
    pub fn new(row: i32, col: i32, height: i32, width: i32) -> (r: Position)
        requires
            0 <= row < height,
            0 <= col < width,
        ensures
            r.row() == row,
            r.col() == col,
            r.height() == height,
            r.width() == width,
            r.wf(),
    {
        Position {
            y: YPositionValue(LoopValue::new(row, height)),
            x: XPositionValue(LoopValue::new(col, width)),
        }
    }

    /// The row, as an index into the grid.
    pub fn y_usize(&self) -> (r: usize)
        requires
            self.wf(),
        ensures
            r == self.row(),
    {
        self.y.0.to_index()
    }

    /// The column, as an index into a row of the grid.
    pub fn x_usize(&self) -> (r: usize)
        requires
            self.wf(),
        ensures
            r == self.col(),
    {
        self.x.0.to_index()
    }

    /// The row, as a signed integer.
    pub fn y_value(&self) -> (r: i32)
        ensures
            r == self.row(),
    {
        self.y.value()
    }

    /// The column, as a signed integer.
    pub fn x_value(&self) -> (r: i32)
        ensures
            r == self.col(),
    {
        self.x.value()
    }

    /// Moves by the displacement, each axis wrapping at its own bound.
    pub fn translate(&mut self, rhs: Vector)
        requires
            old(self).wf(),
        ensures
            final(self).height() == old(self).height(),
            final(self).width() == old(self).width(),
            final(self).row() == wrapped(old(self).row(), rhs.dy(), old(self).height()),
            final(self).col() == wrapped(old(self).col(), rhs.dx(), old(self).width()),
            final(self).wf(),
    {
        self.x.translate(rhs.x);
        self.y.translate(rhs.y);
    }
}

/// One of the four compass headings; rows grow downwards.
#[derive(Clone, Copy, Debug, PartialEq, Eq, Structural)]
pub enum Direction {
    Up,
    Right,
    Down,
    Left,
}

impl Direction {
    /// The heading after a quarter turn clockwise.
    pub open spec fn clockwise(self) -> Direction {
        match self {
            Direction::Up => Direction::Right,
            Direction::Right => Direction::Down,
            Direction::Down => Direction::Left,
            Direction::Left => Direction::Up,
        }
    }

    /// The heading after a quarter turn counter-clockwise.
    pub open spec fn counterclockwise(self) -> Direction {
        match self {
            Direction::Up => Direction::Left,
            Direction::Right => Direction::Up,
            Direction::Down => Direction::Right,
            Direction::Left => Direction::Down,
        }
    }

    /// The change of row made by one step in this heading.
    pub open spec fn row_step(self) -> int {
        match self {
            Direction::Up => -1,
            Direction::Down => 1,
            _ => 0,
        }
    }

    /// The change of column made by one step in this heading.
    pub open spec fn col_step(self) -> int {
        match self {
            Direction::Left => -1,
            Direction::Right => 1,
            _ => 0,
        }
    }

    pub fn rotate_cw(&self) -> (r: Direction)
        ensures
            r == self.clockwise(),
    {
        match self {
            Direction::Up => Direction::Right,
            Direction::Right => Direction::Down,
            Direction::Down => Direction::Left,
            Direction::Left => Direction::Up,
        }
    }

    pub fn rotate_ccw(&self) -> (r: Direction)
        ensures
            r == self.counterclockwise(),
    {
        match self {
            Direction::Up => Direction::Left,
            Direction::Right => Direction::Up,
            Direction::Down => Direction::Right,
            Direction::Left => Direction::Down,
        }
    }

    /// The unit displacement of one step in this heading.
    pub fn vector(&self) -> (r: Vector)
        ensures
            r.dy() == self.row_step(),
            r.dx() == self.col_step(),
    {
        match self {
            Direction::Up => Vector { y: YVectorValue(-1), x: XVectorValue(0) },
            Direction::Right => Vector { y: YVectorValue(0), x: XVectorValue(1) },
            Direction::Down => Vector { y: YVectorValue(1), x: XVectorValue(0) },
            Direction::Left => Vector { y: YVectorValue(0), x: XVectorValue(-1) },
        }
    }
}

} // verus!
