//! The food: a single placed target cell awaiting collision with the snake's
//! head.

use vstd::prelude::*;
use crate::grid::{Cell, can_scale, square_of, cell_square};

verus! {

pub struct Food {
    /// The cell the food occupies.
    pub position: Cell,
}

impl Food {
    /// Food placed at the given cell.
    pub fn new(position: Cell) -> (f: Food)
        ensures
            f.position == position,
    {
        Food { position }
    }

    /// Overwrites the position unconditionally; no check against cells the
    /// snake occupies.
    pub fn relocate(&mut self, x: i32, y: i32)
        ensures
            final(self).position == (Cell { x, y }),
    {
        self.position = Cell { x, y };
    }

    /// The top-left pixel corner of the food's square.
    pub fn food_square(&self) -> (r: (i32, i32))
        requires
            can_scale(self.position),
        ensures
            r == square_of(self.position),
    {
        cell_square(self.position)
    }
}

} // verus!
