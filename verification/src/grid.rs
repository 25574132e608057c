//! The grid and coordinate model: discrete cell positions and headings.

use vstd::prelude::*;

verus! {

/// One cell of the arena grid, as (column, row), zero-based.
#[derive(Clone, Copy, PartialEq, Eq, Structural, Debug)]
pub struct Position(pub u32, pub u32);

/// A heading across the grid.
#[derive(Clone, Copy, PartialEq, Eq, Structural, Debug)]
pub enum Direction {
    Up,
    Down,
    Left,
    Right,
}

impl Direction {
    /// The heading that points the opposite way.
    pub open spec fn spec_opposite(&self) -> Direction {
        match self {
            Direction::Up => Direction::Down,
            Direction::Down => Direction::Up,
            Direction::Left => Direction::Right,
            Direction::Right => Direction::Left,
        }
    }

    #[verifier::when_used_as_spec(spec_opposite)]
    pub fn opposite(&self) -> (r: Direction)
        ensures
            r == self.spec_opposite(),
    {
        match self {
            Direction::Up => Direction::Down,
            Direction::Down => Direction::Up,
            Direction::Left => Direction::Right,
            Direction::Right => Direction::Left,
        }
    }
}

impl Position {
    pub fn new(columns: u32, rows: u32) -> (r: Position)
        ensures
            r == Position(columns, rows),
    {
        Position(columns, rows)
    }

    /// The cell displaced by the given column and row deltas.
    pub fn shifted_by(&self, columns: i32, rows: i32) -> (r: Position)
        requires
            0 <= self.0 + columns <= u32::MAX,
            0 <= self.1 + rows <= u32::MAX,
        ensures
            r.0 == self.0 + columns,
            r.1 == self.1 + rows,
    {
        let column: i64 = self.0 as i64 + columns as i64;
        let row: i64 = self.1 as i64 + rows as i64;
        Position(column as u32, row as u32)
    }
}

/// The cell one step from `p` along `d`.  Rows grow downward, so `Up`
/// decreases the row.
pub open spec fn step_target(p: Position, d: Direction) -> Position {
    match d {
        Direction::Up => Position(p.0, (p.1 - 1) as u32),
        Direction::Down => Position(p.0, (p.1 + 1) as u32),
        Direction::Left => Position((p.0 - 1) as u32, p.1),
        Direction::Right => Position((p.0 + 1) as u32, p.1),
    }
}

/// Whether one step from `p` along `d` stays within the coordinate type.
pub open spec fn can_step(p: Position, d: Direction) -> bool {
    match d {
        Direction::Up => p.1 >= 1,
        Direction::Down => p.1 < u32::MAX,
        Direction::Left => p.0 >= 1,
        Direction::Right => p.0 < u32::MAX,
    }
}

/// The cell `k` steps behind `p`, against heading `d`.
pub open spec fn behind(p: Position, d: Direction, k: int) -> Position {
    match d {
        Direction::Up => Position(p.0, (p.1 + k) as u32),
        Direction::Down => Position(p.0, (p.1 - k) as u32),
        Direction::Left => Position((p.0 + k) as u32, p.1),
        Direction::Right => Position((p.0 - k) as u32, p.1),
    }
}

/// Whether the `len` cells behind `p` against heading `d` all stay within
/// the coordinate type.
pub open spec fn fits_behind(p: Position, d: Direction, len: int) -> bool {
    match d {
        Direction::Up => p.1 + len <= u32::MAX,
        Direction::Down => p.1 >= len,
        Direction::Left => p.0 + len <= u32::MAX,
        Direction::Right => p.0 >= len,
    }
}

} // verus!
