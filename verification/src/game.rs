//! The orchestrator: owns one snake and one food, drives the per-tick update,
//! and routes button presses into direction changes.

use vstd::prelude::*;
use crate::direction::{Direction, is_opposite, is_opposite_spec};
use crate::food::Food;
use crate::grid::{Cell, can_shift};
use crate::snake::{Snake, moved_body, grown_body, can_grow};

verus! {

/// Exclusive upper bound of each coordinate drawn for a respawned food cell.
pub const FOOD_SPAWN_BOUND: i32 = 30;

/// A logical input button: one of the four movement keys, or anything else,
/// which the game ignores.
#[derive(Clone, Copy, PartialEq, Eq, Structural, Debug)]
pub enum ButtonKey {
    Up,
    Down,
    Left,
    Right,
    Other,
}

/// The candidate direction a button maps to; non-movement buttons map to none.
pub open spec fn button_direction(b: ButtonKey) -> Option<Direction> {
    match b {
        ButtonKey::Up => Some(Direction::Up),
        ButtonKey::Down => Some(Direction::Down),
        ButtonKey::Left => Some(Direction::Left),
        ButtonKey::Right => Some(Direction::Right),
        ButtonKey::Other => None,
    }
}

/// The direction after a press: the candidate the button maps to, unless there
/// is none or it would reverse the current direction, in which case the
/// current direction stays.
pub open spec fn next_direction(cur: Direction, b: ButtonKey) -> Direction {
    match button_direction(b) {
        Some(d) => if is_opposite_spec(cur, d) {
            cur
        } else {
            d
        },
        None => cur,
    }
}

/// A press whose candidate reverses the current direction is dropped; any
/// other movement button takes effect; a non-movement button changes nothing.
pub proof fn lemma_pressed_cases(cur: Direction, b: ButtonKey)
    ensures
        (match button_direction(b) {
            Some(d) => next_direction(cur, b) == if is_opposite_spec(cur, d) {
                cur
            } else {
                d
            },
            None => next_direction(cur, b) == cur,
        }),
{
}

/// Relies on rand::random_range (rand crate): a draw from the thread-local
/// generator, uniform over the given range; it panics only on an empty range.
#[verifier::external_body]
fn random_in_range(lo: i32, hi: i32) -> (r: i32)
    requires
        lo < hi,
    ensures
        lo <= r < hi,
{
    rand::random_range(lo..hi)
}

pub struct Game {
    pub snake: Snake,
    pub food: Food,
}

impl Game {
    /// The body after this tick's movement, before any growth.
    pub open spec fn moved(self) -> Seq<Cell>
        recommends
            self.snake.wf(),
    {
        moved_body(self.snake.body@, self.snake.direction)
    }

    /// Whether this tick's movement lands the head on the food cell.
    pub open spec fn tick_eats(self) -> bool
        recommends
            self.snake.wf(),
    {
        self.moved()[0] == self.food.position
    }

    /// The tick's arithmetic stays representable: the head can take its step,
    /// and if that step eats the food, the grown tail cell fits too.
    pub open spec fn can_tick(self) -> bool {
        &&& self.snake.wf()
        &&& can_shift(self.snake.head(), self.snake.direction)
        &&& self.tick_eats() ==> can_grow(self.moved())
    }

    /// The starting state: a two-cell body at (0, 0) and (0, 1) heading Right,
    /// food at (0, 0).
    pub fn new() -> (g: Game)
        ensures
            g.snake.body@ == seq![(Cell { x: 0, y: 0 }), (Cell { x: 0, y: 1 })],
            g.snake.direction == Direction::Right,
            g.food.position == (Cell { x: 0, y: 0 }),
            g.snake.wf(),
    {
        let mut cells: Vec<Cell> = Vec::new();
        cells.push(Cell { x: 0, y: 0 });
        cells.push(Cell { x: 0, y: 1 });
        proof {
            assert(cells@ =~= seq![(Cell { x: 0, y: 0 }), (Cell { x: 0, y: 1 })]);
        }
        let snake = Snake::new(cells, Direction::Right);
        let food = Food::new(Cell { x: 0, y: 0 });
        Game { snake, food }
    }

    /// One update tick with the respawn cell given: the snake moves forward;
    /// if its head now sits on the food, it grows and the food moves to
    /// (food_x, food_y); otherwise the food stays and the given cell is
    /// discarded.
    pub fn step(&mut self, food_x: i32, food_y: i32)
        requires
            old(self).can_tick(),
        ensures
            final(self).snake.direction == old(self).snake.direction,
            old(self).tick_eats() ==> final(self).snake.body@ == grown_body(old(self).moved())
                && final(self).food.position == (Cell { x: food_x, y: food_y }),
            !old(self).tick_eats() ==> final(self).snake.body@ == old(self).moved()
                && final(self).food == old(self).food,
            final(self).snake.wf(),
    {
        self.snake.move_forward();
        if self.snake.collides_with(self.food.position) {
            self.snake.grow();
            self.food.relocate(food_x, food_y);
        }
    }

    /// One update tick: the snake moves forward; if its head now sits on the
    /// food, it grows and the food respawns at a cell drawn uniformly at
    /// random, each coordinate independently from [0, FOOD_SPAWN_BOUND);
    /// otherwise the food stays.
    pub fn update(&mut self)
        requires
            old(self).can_tick(),
        ensures
            final(self).snake.direction == old(self).snake.direction,
            old(self).tick_eats() ==> final(self).snake.body@ == grown_body(old(self).moved())
                && 0 <= final(self).food.position.x < FOOD_SPAWN_BOUND
                && 0 <= final(self).food.position.y < FOOD_SPAWN_BOUND,
            !old(self).tick_eats() ==> final(self).snake.body@ == old(self).moved()
                && final(self).food == old(self).food,
            final(self).snake.wf(),
    {
        let food_x = random_in_range(0, FOOD_SPAWN_BOUND);
        let food_y = random_in_range(0, FOOD_SPAWN_BOUND);
        self.step(food_x, food_y);
    }

    /// Routes a button press: the candidate direction takes effect unless the
    /// button is no movement key or the candidate would reverse the current
    /// direction. Body and food are untouched; the change applies on the next
    /// update tick.
    pub fn pressed(&mut self, b: ButtonKey)
        ensures
            final(self).snake.direction == next_direction(old(self).snake.direction, b),
            final(self).snake.body@ == old(self).snake.body@,
            final(self).food == old(self).food,
    {
        let candidate = match b {
            ButtonKey::Up => Direction::Up,
            ButtonKey::Down => Direction::Down,
            ButtonKey::Left => Direction::Left,
            ButtonKey::Right => Direction::Right,
            ButtonKey::Other => {
                return ;
            },
        };
        if !is_opposite(self.snake.direction, candidate) {
            self.snake.set_direction(candidate);
        }
    }
}

} // verus!
