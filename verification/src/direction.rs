//! The four movement directions and the "opposite of" relation used to
//! reject reversals.

use vstd::prelude::*;

verus! {

#[derive(Clone, Copy, PartialEq, Eq, Structural, Debug)]
pub enum Direction {
    Left,
    Right,
    Up,
    Down,
}

/// The direction that points the other way: Left and Right swap, Up and Down swap.
pub open spec fn opposite(d: Direction) -> Direction {
    match d {
        Direction::Left => Direction::Right,
        Direction::Right => Direction::Left,
        Direction::Up => Direction::Down,
        Direction::Down => Direction::Up,
    }
}

/// Two directions are opposite iff they form one of the pairs {Left, Right} or {Up, Down}.
pub open spec fn is_opposite_spec(a: Direction, b: Direction) -> bool {
    b == opposite(a)
}

/// Decides whether `b` is the reversal of `a`.
pub fn is_opposite(a: Direction, b: Direction) -> (r: bool)
    ensures
        r == is_opposite_spec(a, b),
{
    match (a, b) {
        (Direction::Left, Direction::Right) => true,
        (Direction::Right, Direction::Left) => true,
        (Direction::Up, Direction::Down) => true,
        (Direction::Down, Direction::Up) => true,
        _ => false,
    }
}

/// Every direction is opposite to its own opposite, and no direction is
/// opposite to itself.
pub proof fn lemma_opposite_involutive(d: Direction)
    ensures
        is_opposite_spec(d, opposite(d)),
        !is_opposite_spec(d, d),
{
}

} // verus!
