use snake_core::direction::{is_opposite, Direction};
use snake_core::food::Food;
use snake_core::game::{ButtonKey, Game};
use snake_core::grid::{cell_square, shift_cell, Cell, CELL_PIXELS};
use snake_core::snake::Snake;

fn snake_of(cells: &[(i32, i32)], direction: Direction) -> Snake {
    let v: Vec<Cell> = cells.iter().map(|&(x, y)| Cell { x, y }).collect();
    Snake::new(v, direction)
}

fn body_of(s: &Snake) -> Vec<(i32, i32)> {
    s.body.iter().map(|c| (c.x, c.y)).collect()
}

#[test]
fn opposite_pairs() {
    assert!(is_opposite(Direction::Left, Direction::Right));
    assert!(is_opposite(Direction::Right, Direction::Left));
    assert!(is_opposite(Direction::Up, Direction::Down));
    assert!(is_opposite(Direction::Down, Direction::Up));
    assert!(!is_opposite(Direction::Left, Direction::Left));
    assert!(!is_opposite(Direction::Right, Direction::Right));
    assert!(!is_opposite(Direction::Up, Direction::Up));
    assert!(!is_opposite(Direction::Down, Direction::Down));
    assert!(!is_opposite(Direction::Left, Direction::Up));
    assert!(!is_opposite(Direction::Down, Direction::Right));
}

#[test]
fn shift_cell_unit_offsets() {
    let c = Cell { x: 3, y: 7 };
    assert_eq!(shift_cell(c, Direction::Down), Cell { x: 3, y: 8 });
    assert_eq!(shift_cell(c, Direction::Up), Cell { x: 3, y: 6 });
    assert_eq!(shift_cell(c, Direction::Right), Cell { x: 4, y: 7 });
    assert_eq!(shift_cell(c, Direction::Left), Cell { x: 2, y: 7 });
}

#[test]
fn move_forward_shifts_not_rotates() {
    let mut s = snake_of(&[(2, 3), (2, 4), (3, 4)], Direction::Up);
    s.move_forward();
    // length unchanged, head stepped Up, new tail is the old second-to-last
    assert_eq!(body_of(&s), vec![(2, 2), (2, 3), (2, 4)]);
}

#[test]
fn move_forward_single_cell() {
    let mut s = snake_of(&[(0, 0)], Direction::Left);
    s.move_forward();
    assert_eq!(body_of(&s), vec![(-1, 0)]);
}

#[test]
fn grow_extends_past_tail() {
    let mut s = snake_of(&[(0, 0), (0, 1)], Direction::Right);
    s.grow();
    // tail offset (0,1)-(0,0) = (0,1), so the new tail is (0,2)
    assert_eq!(body_of(&s), vec![(0, 0), (0, 1), (0, 2)]);
}

#[test]
fn grow_follows_tail_offset_diagonally() {
    let mut s = snake_of(&[(9, 9), (0, 0), (1, 1)], Direction::Down);
    s.grow();
    assert_eq!(body_of(&s), vec![(9, 9), (0, 0), (1, 1), (2, 2)]);
}

#[test]
fn grow_single_cell_fallback() {
    // tail-reference fallback rule: a single-cell body grows by (0, -1)
    let mut s = snake_of(&[(5, 5)], Direction::Right);
    s.grow();
    assert_eq!(body_of(&s), vec![(5, 5), (5, 4)]);
}

#[test]
fn collides_only_with_head() {
    let s = snake_of(&[(1, 1), (1, 2), (2, 2)], Direction::Right);
    assert!(s.collides_with(Cell { x: 1, y: 1 }));
    // food on a non-head body cell is no collision
    assert!(!s.collides_with(Cell { x: 1, y: 2 }));
    assert!(!s.collides_with(Cell { x: 2, y: 2 }));
    assert!(!s.collides_with(Cell { x: 7, y: 7 }));
}

#[test]
fn pressed_rejects_reversal() {
    let mut g = Game::new();
    g.pressed(ButtonKey::Up);
    assert_eq!(g.snake.direction, Direction::Up);
    // opposite rejected
    g.pressed(ButtonKey::Down);
    assert_eq!(g.snake.direction, Direction::Up);
    // any other movement key accepted
    g.pressed(ButtonKey::Left);
    assert_eq!(g.snake.direction, Direction::Left);
    // non-movement button ignored
    g.pressed(ButtonKey::Other);
    assert_eq!(g.snake.direction, Direction::Left);
}

#[test]
fn pressed_all_candidates() {
    let mut g = Game::new();
    assert_eq!(g.snake.direction, Direction::Right);
    g.pressed(ButtonKey::Left);
    assert_eq!(g.snake.direction, Direction::Right);
    g.pressed(ButtonKey::Down);
    assert_eq!(g.snake.direction, Direction::Down);
    g.pressed(ButtonKey::Right);
    assert_eq!(g.snake.direction, Direction::Right);
    g.pressed(ButtonKey::Up);
    assert_eq!(g.snake.direction, Direction::Up);
}

#[test]
fn pressed_leaves_body_and_food() {
    let mut g = Game::new();
    g.pressed(ButtonKey::Down);
    assert_eq!(body_of(&g.snake), vec![(0, 0), (0, 1)]);
    assert_eq!(g.food.position, Cell { x: 0, y: 0 });
}

#[test]
fn first_update_no_growth() {
    // start: body [(0,0),(0,1)], direction Right, food (0,0);
    // the move puts the head at (1,0), which no longer equals the food cell
    let mut g = Game::new();
    assert_eq!(body_of(&g.snake), vec![(0, 0), (0, 1)]);
    assert_eq!(g.food.position, Cell { x: 0, y: 0 });
    g.update();
    assert_eq!(body_of(&g.snake), vec![(1, 0), (0, 0)]);
    assert_eq!(g.food.position, Cell { x: 0, y: 0 });
    assert_eq!(g.snake.direction, Direction::Right);
}

#[test]
fn step_on_collision_grows_and_relocates() {
    let mut g = Game::new();
    // place the food where the head will land
    g.food.relocate(1, 0);
    g.step(12, 25);
    assert_eq!(body_of(&g.snake), vec![(1, 0), (0, 0), (-1, 0)]);
    assert_eq!(g.food.position, Cell { x: 12, y: 25 });
}

#[test]
fn step_without_collision_discards_draw() {
    let mut g = Game::new();
    g.step(12, 25);
    assert_eq!(body_of(&g.snake), vec![(1, 0), (0, 0)]);
    assert_eq!(g.food.position, Cell { x: 0, y: 0 });
}

#[test]
fn random_respawn_in_bounds() {
    // every respawned coordinate lies in [0, 30); with 200 draws per axis it
    // is also vanishingly unlikely that all of them come out equal
    let mut seen_distinct = false;
    let mut first: Option<(i32, i32)> = None;
    for _ in 0..200 {
        let mut g = Game::new();
        g.food.relocate(1, 0);
        g.update();
        let p = g.food.position;
        assert!(0 <= p.x && p.x < 30);
        assert!(0 <= p.y && p.y < 30);
        assert_eq!(body_of(&g.snake).len(), 3);
        match first {
            None => first = Some((p.x, p.y)),
            Some(f) => {
                if f != (p.x, p.y) {
                    seen_distinct = true;
                }
            }
        }
    }
    assert!(seen_distinct);
}

#[test]
fn repeated_updates_keep_moving() {
    let mut g = Game::new();
    for i in 0..50 {
        g.update();
        assert_eq!(g.snake.body[0], Cell { x: 1 + i, y: 0 });
    }
    assert_eq!(body_of(&g.snake).len(), 2);
}

#[test]
fn squares_scale_by_cell_size() {
    assert_eq!(CELL_PIXELS, 20);
    assert_eq!(cell_square(Cell { x: 1, y: 2 }), (20, 40));
    assert_eq!(cell_square(Cell { x: -1, y: -2 }), (-20, -40));
    assert_eq!(cell_square(Cell { x: 0, y: 0 }), (0, 0));
}

#[test]
fn snake_and_food_squares() {
    let s = snake_of(&[(1, 2), (3, 4)], Direction::Right);
    assert_eq!(s.make_snake_squares(), vec![(20, 40), (60, 80)]);
    let f = Food::new(Cell { x: 2, y: 3 });
    assert_eq!(f.food_square(), (40, 60));
}

#[test]
fn set_direction_is_unconditional() {
    // Snake itself accepts any direction, even a reversal
    let mut s = snake_of(&[(0, 0), (1, 0)], Direction::Right);
    s.set_direction(Direction::Left);
    assert_eq!(s.direction, Direction::Left);
    assert_eq!(body_of(&s), vec![(0, 0), (1, 0)]);
}

#[test]
fn relocate_overwrites_position() {
    let mut f = Food::new(Cell { x: 0, y: 0 });
    f.relocate(17, 4);
    assert_eq!(f.position, Cell { x: 17, y: 4 });
    f.relocate(-3, 0);
    assert_eq!(f.position, Cell { x: -3, y: 0 });
}
