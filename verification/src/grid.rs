//! The toroidal playfield: integer grid cells, movement directions, and
//! single-step movement with wraparound at the edges.
use vstd::prelude::*;

verus! {

/// Side length of the square playfield, in cells. Valid coordinates are
/// `0 ..= MAP_SIZE - 1` in both axes.
pub const MAP_SIZE: u32 = 50;

/// One grid cell: an integer coordinate pair on the playfield.
#[derive(PartialEq, Eq, Structural, Copy, Clone, Debug)]
pub struct Cell {
    pub x: u32,
    pub y: u32,
}

impl Cell {
    /// A cell lies on the playfield when both coordinates are below `MAP_SIZE`.
    pub open spec fn in_bounds(self) -> bool {
        self.x < MAP_SIZE && self.y < MAP_SIZE
    }

    pub fn new(x: u32, y: u32) -> (c: Cell)
        ensures
            c == (Cell { x, y }),
    {
        Cell { x, y }
    }
}

/// A movement direction on the grid.
#[derive(PartialEq, Eq, Structural, Copy, Clone, Debug)]
pub enum Direction {
    Right,
    Down,
    Left,
    Up,
}

impl Direction {
    /// The direct reverse of a direction.
    pub open spec fn spec_opposite(self) -> Direction {
        match self {
            Direction::Right => Direction::Left,
            Direction::Down => Direction::Up,
            Direction::Left => Direction::Right,
            Direction::Up => Direction::Down,
        }
    }

    #[verifier::when_used_as_spec(spec_opposite)]
    pub fn opposite(self) -> (r: Direction)
        ensures
            r == self.spec_opposite(),
    {
        match self {
            Direction::Right => Direction::Left,
            Direction::Down => Direction::Up,
            Direction::Left => Direction::Right,
            Direction::Up => Direction::Down,
        }
    }
}

/// Where a cell ends up after one step in the given direction, with toroidal
/// wraparound: stepping off the high edge of an axis yields coordinate `0`,
/// stepping off the low edge yields `MAP_SIZE - 1`.
pub open spec fn step_spec(c: Cell, d: Direction) -> Cell {
    match d {
        Direction::Right => Cell {
            x: if c.x == MAP_SIZE - 1 { 0u32 } else { (c.x + 1) as u32 },
            y: c.y,
        },
        Direction::Down => Cell {
            x: c.x,
            y: if c.y == MAP_SIZE - 1 { 0u32 } else { (c.y + 1) as u32 },
        },
        Direction::Left => Cell {
            x: if c.x == 0 { (MAP_SIZE - 1) as u32 } else { (c.x - 1) as u32 },
            y: c.y,
        },
        Direction::Up => Cell {
            x: c.x,
            y: if c.y == 0 { (MAP_SIZE - 1) as u32 } else { (c.y - 1) as u32 },
        },
    }
}

/// Advance a cell one step in direction `d`, wrapping at the playfield edges.
pub fn step(c: Cell, d: Direction) -> (r: Cell)
    requires
        c.in_bounds(),
    ensures
        r == step_spec(c, d),
        r.in_bounds(),
{
    match d {
        Direction::Right => Cell { x: if c.x == MAP_SIZE - 1 { 0 } else { c.x + 1 }, y: c.y },
        Direction::Down => Cell { x: c.x, y: if c.y == MAP_SIZE - 1 { 0 } else { c.y + 1 } },
        Direction::Left => Cell { x: if c.x == 0 { MAP_SIZE - 1 } else { c.x - 1 }, y: c.y },
        Direction::Up => Cell { x: c.x, y: if c.y == 0 { MAP_SIZE - 1 } else { c.y - 1 } },
    }
}

/// Wraparound law: a step from any on-field cell, in any direction, lands on
/// the field again.
pub proof fn lemma_step_in_bounds(c: Cell, d: Direction)
    requires
        c.in_bounds(),
    ensures
        step_spec(c, d).in_bounds(),
{
}

} // verus!
