//! Grid cells and their mapping to pixel space.
//!
//! A cell is a pair of signed coordinates on an unbounded grid. For drawing,
//! each cell maps to an axis-aligned square of `CELL_PIXELS` units at
//! `(x * CELL_PIXELS, y * CELL_PIXELS)`.

use vstd::prelude::*;
use crate::direction::Direction;

verus! {

/// Side length, in pixels, of the square that one grid cell occupies.
pub const CELL_PIXELS: i32 = 20;

/// One grid coordinate pair.
#[derive(Clone, Copy, PartialEq, Eq, Structural, Debug)]
pub struct Cell {
    pub x: i32,
    pub y: i32,
}

/// Horizontal component of a direction's unit offset.
pub open spec fn dx(d: Direction) -> int {
    match d {
        Direction::Left => -1,
        Direction::Right => 1,
        Direction::Up => 0,
        Direction::Down => 0,
    }
}

/// Vertical component of a direction's unit offset.
pub open spec fn dy(d: Direction) -> int {
    match d {
        Direction::Left => 0,
        Direction::Right => 0,
        Direction::Up => -1,
        Direction::Down => 1,
    }
}

/// The one-step move in direction `d` keeps both coordinates representable.
pub open spec fn can_shift(c: Cell, d: Direction) -> bool {
    &&& i32::MIN <= c.x + dx(d) <= i32::MAX
    &&& i32::MIN <= c.y + dy(d) <= i32::MAX
}

/// The cell one step from `c` in direction `d`.
pub open spec fn shifted(c: Cell, d: Direction) -> Cell
    recommends
        can_shift(c, d),
{
    Cell { x: (c.x + dx(d)) as i32, y: (c.y + dy(d)) as i32 }
}

/// Computes the cell one step from `c` in direction `d`
/// (Down is y + 1, Up is y - 1, Right is x + 1, Left is x - 1).
pub fn shift_cell(c: Cell, d: Direction) -> (r: Cell)
    requires
        can_shift(c, d),
    ensures
        r == shifted(c, d),
{
    match d {
        Direction::Left => Cell { x: c.x - 1, y: c.y },
        Direction::Right => Cell { x: c.x + 1, y: c.y },
        Direction::Up => Cell { x: c.x, y: c.y - 1 },
        Direction::Down => Cell { x: c.x, y: c.y + 1 },
    }
}

/// Both pixel coordinates of the cell's square are representable.
pub open spec fn can_scale(c: Cell) -> bool {
    &&& i32::MIN <= c.x * CELL_PIXELS <= i32::MAX
    &&& i32::MIN <= c.y * CELL_PIXELS <= i32::MAX
}

/// The top-left pixel corner of the square that `c` occupies.
pub open spec fn square_of(c: Cell) -> (i32, i32)
    recommends
        can_scale(c),
{
    ((c.x * CELL_PIXELS) as i32, (c.y * CELL_PIXELS) as i32)
}

/// Maps a cell to the top-left pixel corner of its square; the square's side
/// is `CELL_PIXELS`.
pub fn cell_square(c: Cell) -> (r: (i32, i32))
    requires
        can_scale(c),
    ensures
        r == square_of(c),
{
    (c.x * CELL_PIXELS, c.y * CELL_PIXELS)
}

} // verus!
