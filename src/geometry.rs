use vstd::prelude::*;

use crate::config::CELL_SIZE;

verus! {

/// One of the four directions in which the snake can travel.
#[derive(Clone, Copy, Debug, PartialEq, Eq, Structural)]
pub enum Direction {
    Left,
    Right,
    Up,
    Down,
}

/// The direction pointing the other way: Up and Down pair up, as do Left and Right.
pub open spec fn opposite_of(d: Direction) -> Direction {
    match d {
        Direction::Left => Direction::Right,
        Direction::Right => Direction::Left,
        Direction::Up => Direction::Down,
        Direction::Down => Direction::Up,
    }
}

impl Direction {
    pub fn opposite(&self) -> (r: Direction)
        ensures
            r == opposite_of(*self),
    {
        match *self {
            Direction::Down => Direction::Up,
            Direction::Up => Direction::Down,
            Direction::Left => Direction::Right,
            Direction::Right => Direction::Left,
        }
    }
}

/// Taking the opposite twice gives back the direction one started from.
pub proof fn lemma_opposite_involutive(d: Direction)
    ensures
        opposite_of(opposite_of(d)) == d,
{
}

/// A cell of the grid, in cell coordinates.
#[derive(Clone, Copy, Debug, PartialEq, Eq, Structural)]
pub struct Point {
    pub x: u32,
    pub y: u32,
}

impl Point {
    pub fn new(x: u32, y: u32) -> (r: Point)
        ensures
            r.x == x,
            r.y == y,
    {
        Point { x, y }
    }
}

/// The square of the screen, in pixels, that shows one cell.
#[derive(Clone, Copy, Debug, PartialEq, Eq, Structural)]
pub struct PixelRect {
    pub x: u64,
    pub y: u64,
    pub size: u32,
}

/// The pixel square of the cell `(x, y)`: its corner at `CELL_SIZE` times the
/// cell coordinates, its side `CELL_SIZE` long.
pub fn rect_at(x: u32, y: u32) -> (r: PixelRect)
    ensures
        r.x == x * CELL_SIZE,
        r.y == y * CELL_SIZE,
        r.size == CELL_SIZE,
{
    PixelRect { x: x as u64 * CELL_SIZE as u64, y: y as u64 * CELL_SIZE as u64, size: CELL_SIZE }
}

} // verus!
