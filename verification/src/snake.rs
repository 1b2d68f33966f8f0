//! The snake: an ordered body of grid cells, head first, plus the direction
//! that the next movement tick applies.

use vstd::prelude::*;
use std::collections::VecDeque;
use crate::direction::Direction;
use crate::grid::{Cell, can_shift, shifted, shift_cell, can_scale, square_of, cell_square};

verus! {

/// The body after one movement tick: the head's successor in direction `d` is
/// pushed at the front and the tail cell is dropped, so every index shifts by
/// one toward the tail and the length stays the same.
pub open spec fn moved_body(b: Seq<Cell>, d: Direction) -> Seq<Cell>
    recommends
        b.len() >= 1,
{
    seq![shifted(b[0], d)] + b.drop_last()
}

/// The cell a growth step appends: one step past the tail, continuing the
/// offset from the second-to-last cell to the last one. A single-cell body has
/// no such offset; the fallback is the tail shifted by (0, -1).
pub open spec fn grow_cell(b: Seq<Cell>) -> Cell
    recommends
        b.len() >= 1,
{
    if b.len() == 1 {
        Cell { x: b[0].x, y: (b[0].y - 1) as i32 }
    } else {
        let tail = b[b.len() - 1];
        let prev = b[b.len() - 2];
        Cell { x: (2 * tail.x - prev.x) as i32, y: (2 * tail.y - prev.y) as i32 }
    }
}

/// The grown cell's coordinates are representable.
pub open spec fn can_grow(b: Seq<Cell>) -> bool
    recommends
        b.len() >= 1,
{
    if b.len() == 1 {
        i32::MIN <= b[0].y - 1
    } else {
        let tail = b[b.len() - 1];
        let prev = b[b.len() - 2];
        &&& i32::MIN <= 2 * tail.x - prev.x <= i32::MAX
        &&& i32::MIN <= 2 * tail.y - prev.y <= i32::MAX
    }
}

/// The body after one growth step: `grow_cell` appended at the tail end.
pub open spec fn grown_body(b: Seq<Cell>) -> Seq<Cell>
    recommends
        b.len() >= 1,
{
    b.push(grow_cell(b))
}

pub struct Snake {
    /// Body cells, index 0 the head, the last index the tail; never empty.
    pub body: VecDeque<Cell>,
    /// Direction applied on the next movement tick.
    pub direction: Direction,
}

impl Snake {
    /// The body always holds at least one cell.
    pub open spec fn wf(self) -> bool {
        self.body@.len() >= 1
    }

    /// The head cell.
    pub open spec fn head(self) -> Cell
        recommends
            self.wf(),
    {
        self.body@[0]
    }

    /// A snake with the given body cells, head first.
    pub fn new(cells: Vec<Cell>, direction: Direction) -> (s: Snake)
        requires
            cells@.len() >= 1,
        ensures
            s.body@ == cells@,
            s.direction == direction,
            s.wf(),
    {
        let mut body: VecDeque<Cell> = VecDeque::new();
        let n = cells.len();
        let mut i: usize = 0;
        while i < n
            invariant
                n == cells@.len(),
                i <= n,
                body@ == cells@.subrange(0, i as int),
            decreases n - i,
        {
            body.push_back(cells[i]);
            proof {
                assert(body@ == cells@.subrange(0, i + 1 as int));
            }
            i = i + 1;
        }
        proof {
            assert(cells@.subrange(0, n as int) == cells@);
        }
        Snake { body, direction }
    }

    /// Moves one cell in the current direction: a new head cell is inserted at
    /// the front and the tail cell is removed, leaving the length unchanged.
    pub fn move_forward(&mut self)
        requires
            old(self).wf(),
            can_shift(old(self).head(), old(self).direction),
        ensures
            final(self).body@ == moved_body(old(self).body@, old(self).direction),
            final(self).direction == old(self).direction,
            final(self).wf(),
    {
        let new_head = shift_cell(self.body[0], self.direction);
        self.body.push_front(new_head);
        self.body.pop_back();
        proof {
            assert(final(self).body@ =~= moved_body(old(self).body@, old(self).direction));
        }
    }

    /// Appends one cell at the tail end, one step past the current tail along
    /// the offset from the second-to-last cell to the last; a single-cell body
    /// falls back to shifting the tail by (0, -1). Head and all existing cells
    /// are untouched.
    pub fn grow(&mut self)
        requires
            old(self).wf(),
            can_grow(old(self).body@),
        ensures
            final(self).body@ == grown_body(old(self).body@),
            final(self).direction == old(self).direction,
            final(self).wf(),
    {
        let n = self.body.len();
        let new_tail: Cell = if n == 1 {
            let tail = self.body[0];
            Cell { x: tail.x, y: tail.y - 1 }
        } else {
            let tail = self.body[n - 1];
            let prev = self.body[n - 2];
            let nx: i64 = 2 * (tail.x as i64) - (prev.x as i64);
            let ny: i64 = 2 * (tail.y as i64) - (prev.y as i64);
            Cell { x: nx as i32, y: ny as i32 }
        };
        self.body.push_back(new_tail);
    }

    /// Sets the direction applied on the next movement tick; the snake itself
    /// accepts any direction, reversal rejection is the caller's concern.
    pub fn set_direction(&mut self, d: Direction)
        ensures
            final(self).direction == d,
            final(self).body@ == old(self).body@,
    {
        self.direction = d;
    }

    /// True iff the head cell coincides with `target`; coincidence with a
    /// non-head body cell does not count.
    pub fn collides_with(&self, target: Cell) -> (r: bool)
        requires
            self.wf(),
        ensures
            r == (self.head() == target),
    {
        let head = self.body[0];
        head.x == target.x && head.y == target.y
    }

    /// The top-left pixel corner of each body cell's square, head first.
    pub fn make_snake_squares(&self) -> (r: Vec<(i32, i32)>)
        requires
            forall|i: int| 0 <= i < self.body@.len() ==> can_scale(self.body@[i]),
        ensures
            r@.len() == self.body@.len(),
            forall|i: int| 0 <= i < r@.len() ==> r@[i] == square_of(self.body@[i]),
    {
        let n = self.body.len();
        let mut r: Vec<(i32, i32)> = Vec::new();
        let mut i: usize = 0;
        while i < n
            invariant
                n == self.body@.len(),
                i <= n,
                r@.len() == i,
                forall|j: int| 0 <= j < self.body@.len() ==> can_scale(self.body@[j]),
                forall|j: int| 0 <= j < i ==> r@[j] == square_of(self.body@[j]),
            decreases n - i,
        {
            r.push(cell_square(self.body[i]));
            i = i + 1;
        }
        r
    }
}

/// One movement tick keeps the length, puts the shifted old head at the front,
/// and, when the body has at least two cells, makes the old second-to-last
/// cell the new tail: a shift, not a rotation.
pub proof fn lemma_move_shape(b: Seq<Cell>, d: Direction)
    requires
        b.len() >= 1,
    ensures
        moved_body(b, d).len() == b.len(),
        moved_body(b, d)[0] == shifted(b[0], d),
        b.len() >= 2 ==> moved_body(b, d).last() == b[b.len() - 2],
{
}

/// One growth step adds exactly one cell, leaves the head where it was, and
/// moves no existing body cell.
pub proof fn lemma_grow_shape(b: Seq<Cell>)
    requires
        b.len() >= 1,
    ensures
        grown_body(b).len() == b.len() + 1,
        grown_body(b)[0] == b[0],
        forall|i: int| 0 <= i < b.len() ==> grown_body(b)[i] == b[i],
{
}

} // verus!
