//! The playing field: grid dimensions, positions on the grid, and the four
//! movement directions with their clamped one-cell steps.

use vstd::prelude::*;

verus! {

/// Width of the visible grid, in cells.
pub const TERMINAL_WIDTH: u8 = 80;
/// Height of the visible grid, in cells.
pub const TERMINAL_HEIGHT: u8 = 50;

/// A position of (x, y) on the terminal grid.
#[derive(Clone, Copy, Debug, PartialEq, Eq, Structural)]
pub struct Position {
    pub x: u8,
    pub y: u8,
}

/// A movement direction for a snake segment.
#[derive(Clone, Copy, Debug, PartialEq, Eq, Structural)]
pub enum Direction {
    Up,
    Down,
    Left,
    Right,
}

/// Whether a position lies on the visible grid.
pub open spec fn pos_in_bounds(p: Position) -> bool {
    p.x < TERMINAL_WIDTH && p.y < TERMINAL_HEIGHT
}

/// The direction exactly opposite to `d`.
pub open spec fn opposite_spec(d: Direction) -> Direction {
    match d {
        Direction::Up => Direction::Down,
        Direction::Down => Direction::Up,
        Direction::Left => Direction::Right,
        Direction::Right => Direction::Left,
    }
}

/// One movement step from `p` in direction `d`: up decreases y, down
/// increases y, left decreases x, right increases x, each axis saturating
/// at the grid edge so the result never leaves [0, width-1] x [0, height-1]
/// on the moved axis.
pub open spec fn step_spec(p: Position, d: Direction) -> Position {
    match d {
        Direction::Up => Position { x: p.x, y: if p.y == 0 { 0u8 } else { (p.y - 1) as u8 } },
        Direction::Down => Position {
            x: p.x,
            y: if p.y >= TERMINAL_HEIGHT - 1 { (TERMINAL_HEIGHT - 1) as u8 } else { (p.y + 1) as u8 },
        },
        Direction::Left => Position { x: if p.x == 0 { 0u8 } else { (p.x - 1) as u8 }, y: p.y },
        Direction::Right => Position {
            x: if p.x >= TERMINAL_WIDTH - 1 { (TERMINAL_WIDTH - 1) as u8 } else { (p.x + 1) as u8 },
            y: p.y,
        },
    }
}

/// A clamped step from an in-bounds position stays in bounds.
pub proof fn lemma_step_in_bounds(p: Position, d: Direction)
    requires
        pos_in_bounds(p),
    ensures
        pos_in_bounds(step_spec(p, d)),
{
}

impl Direction {
    /// The direction exactly opposite to `self`.
    pub fn opposite(self) -> (r: Direction)
        ensures
            r == opposite_spec(self),
    {
        match self {
            Direction::Up => Direction::Down,
            Direction::Down => Direction::Up,
            Direction::Left => Direction::Right,
            Direction::Right => Direction::Left,
        }
    }
}

impl Position {
    /// Moves one cell in direction `d`, saturating at the grid edges.
    pub fn step(self, d: Direction) -> (r: Position)
        ensures
            r == step_spec(self, d),
    {
        match d {
            Direction::Up => Position { x: self.x, y: if self.y == 0 { 0 } else { self.y - 1 } },
            Direction::Down => Position {
                x: self.x,
                y: if self.y >= TERMINAL_HEIGHT - 1 { TERMINAL_HEIGHT - 1 } else { self.y + 1 },
            },
            Direction::Left => Position { x: if self.x == 0 { 0 } else { self.x - 1 }, y: self.y },
            Direction::Right => Position {
                x: if self.x >= TERMINAL_WIDTH - 1 { TERMINAL_WIDTH - 1 } else { self.x + 1 },
                y: self.y,
            },
        }
    }
}

} // verus!
