use std::collections::VecDeque;

use snake_core::food::Food;
use snake_core::game::Game;
use snake_core::game::GameStatus;
use snake_core::game::Input;
use snake_core::grid::Cell;
use snake_core::grid::Direction;
use snake_core::grid::MAP_SIZE;
use snake_core::grid::step;
use snake_core::snake::Snake;

fn cell(x: u32, y: u32) -> Cell {
    Cell::new(x, y)
}

fn snake_with_body(cells: &[Cell], direction: Direction) -> Snake {
    let mut body: VecDeque<Cell> = VecDeque::new();
    for &c in cells {
        body.push_back(c);
    }
    Snake { body, direction, next_direction: direction }
}

fn no_keys() -> Input {
    Input { right: false, down: false, left: false, up: false }
}

#[test]
fn step_interior_moves_one_cell() {
    assert_eq!(step(cell(10, 20), Direction::Right), cell(11, 20));
    assert_eq!(step(cell(10, 20), Direction::Down), cell(10, 21));
    assert_eq!(step(cell(10, 20), Direction::Left), cell(9, 20));
    assert_eq!(step(cell(10, 20), Direction::Up), cell(10, 19));
}

#[test]
fn step_wraps_at_every_edge() {
    assert_eq!(step(cell(MAP_SIZE - 1, 7), Direction::Right), cell(0, 7));
    assert_eq!(step(cell(0, 7), Direction::Left), cell(MAP_SIZE - 1, 7));
    assert_eq!(step(cell(7, MAP_SIZE - 1), Direction::Down), cell(7, 0));
    assert_eq!(step(cell(7, 0), Direction::Up), cell(7, MAP_SIZE - 1));
}

#[test]
fn step_stays_in_bounds_on_a_sweep() {
    for x in 0..MAP_SIZE {
        for y in 0..MAP_SIZE {
            for d in [Direction::Right, Direction::Down, Direction::Left, Direction::Up] {
                let r = step(cell(x, y), d);
                assert!(r.x < MAP_SIZE && r.y < MAP_SIZE);
            }
        }
    }
}

#[test]
fn new_snake_matches_initial_layout() {
    let s = Snake::new();
    assert_eq!(s.len(), 3);
    assert_eq!(s.body[0], cell(4, 25));
    assert_eq!(s.body[1], cell(3, 25));
    assert_eq!(s.body[2], cell(2, 25));
    assert_eq!(s.direction, Direction::Right);
    assert_eq!(s.next_direction, Direction::Right);
}

#[test]
fn reverse_request_is_ignored() {
    let mut s = Snake::new();
    assert_eq!(s.direction, Direction::Right);
    s.request_direction(Direction::Left);
    assert_eq!(s.next_direction, Direction::Right);
    s.update();
    assert_eq!(s.direction, Direction::Right);
}

#[test]
fn reverse_request_is_ignored_all_pairs() {
    let pairs = [
        (Direction::Right, Direction::Left),
        (Direction::Down, Direction::Up),
        (Direction::Left, Direction::Right),
        (Direction::Up, Direction::Down),
    ];
    for (dir, rev) in pairs {
        let mut s = snake_with_body(&[cell(10, 10)], dir);
        s.request_direction(rev);
        assert_eq!(s.next_direction, dir);
        s.update();
        assert_eq!(s.direction, dir);
    }
}

#[test]
fn non_reverse_request_is_buffered_and_committed() {
    let mut s = Snake::new();
    s.request_direction(Direction::Down);
    assert_eq!(s.next_direction, Direction::Down);
    assert_eq!(s.direction, Direction::Right);
    s.update();
    assert_eq!(s.direction, Direction::Down);
}

#[test]
fn buffered_reverse_applies_after_turn() {
    // While moving Right, a Left press is rejected at poll time, but a Down
    // press then a Left press queue a turn: after one tick moving Down, Left
    // is no longer a reversal and commits on the following tick.
    let mut s = Snake::new();
    s.request_direction(Direction::Down);
    s.update();
    assert_eq!(s.direction, Direction::Down);
    s.request_direction(Direction::Left);
    s.update();
    assert_eq!(s.direction, Direction::Left);
}

#[test]
fn update_alone_keeps_length() {
    let mut s = Snake::new();
    let before: usize = s.len();
    s.update();
    assert_eq!(s.len(), before);
    s.update();
    assert_eq!(s.len(), before);
}

#[test]
fn grow_then_update_adds_exactly_one() {
    let mut s = Snake::new();
    let before: usize = s.len();
    s.grow();
    s.update();
    assert_eq!(s.len(), before + 1);
}

#[test]
fn grow_duplicates_the_tail() {
    let mut s = Snake::new();
    s.grow();
    assert_eq!(s.body[3], cell(2, 25));
    assert_eq!(s.len(), 4);
}

#[test]
fn self_collision_detected_when_a_cell_equals_head() {
    let s = snake_with_body(
        &[cell(5, 5), cell(5, 6), cell(6, 6), cell(6, 5), cell(5, 5)],
        Direction::Right,
    );
    assert!(s.self_collision());
}

#[test]
fn no_self_collision_with_distinct_cells() {
    let s = snake_with_body(
        &[cell(5, 5), cell(5, 6), cell(6, 6), cell(6, 5)],
        Direction::Right,
    );
    assert!(!s.self_collision());
    assert!(!Snake::new().self_collision());
}

#[test]
fn respawn_lands_in_bounds() {
    let mut f = Food::new(cell(12, 34));
    f.respawn(cell(49, 0));
    assert_eq!(f.position, cell(49, 0));
    assert!(f.position.x < MAP_SIZE && f.position.y < MAP_SIZE);
    // respawning onto the old cell is allowed: no exclusion is applied
    f.respawn(cell(49, 0));
    assert_eq!(f.position, cell(49, 0));
}

#[test]
fn one_update_shifts_the_whole_body() {
    let mut s = Snake::new();
    s.update();
    assert_eq!(s.body[0], cell(5, 25));
    assert_eq!(s.body[1], cell(4, 25));
    assert_eq!(s.body[2], cell(3, 25));
}

#[test]
fn head_wraps_across_the_right_edge() {
    let mut s = snake_with_body(
        &[cell(49, 25), cell(48, 25), cell(47, 25)],
        Direction::Right,
    );
    s.update();
    assert_eq!(s.body[0], cell(0, 25));
    assert_eq!(s.body[1], cell(49, 25));
    assert_eq!(s.body[2], cell(48, 25));
}

#[test]
fn frame_eats_food_and_grows_on_the_next_update() {
    // Food at (5,25): the first movement frame puts the head on it, which
    // respawns the food and grows the snake; the next movement tick then
    // shows the longer body.
    let mut g = Game::new(cell(5, 25));
    g.frame(no_keys(), cell(7, 7));
    assert_eq!(g.status, GameStatus::Running);
    assert_eq!(g.snake.len(), 4);
    assert_eq!(g.snake.body[0], cell(5, 25));
    assert_eq!(g.snake.body[1], cell(4, 25));
    assert_eq!(g.snake.body[2], cell(3, 25));
    assert_eq!(g.snake.body[3], cell(3, 25));
    assert_eq!(g.food.position, cell(7, 7));
    assert_eq!(g.frame_count, 1);

    // frames 1..=4 poll input but do not move the snake
    for _ in 1..5 {
        g.frame(no_keys(), cell(9, 9));
    }
    assert_eq!(g.frame_count, 5);
    assert_eq!(g.snake.len(), 4);

    // frame 5 is a movement tick: the grown body is fully visible
    g.frame(no_keys(), cell(9, 9));
    assert_eq!(g.snake.body[0], cell(6, 25));
    assert_eq!(g.snake.len(), 4);
    assert_eq!(g.food.position, cell(7, 7));
}

#[test]
fn frame_without_food_just_moves() {
    let mut g = Game::new(cell(40, 40));
    g.frame(no_keys(), cell(7, 7));
    assert_eq!(g.snake.body[0], cell(5, 25));
    assert_eq!(g.snake.len(), 3);
    assert_eq!(g.food.position, cell(40, 40));
    assert_eq!(g.frame_count, 1);
}

#[test]
fn frame_skips_movement_between_ticks() {
    let mut g = Game::new(cell(40, 40));
    g.frame(no_keys(), cell(7, 7));
    // frame_count is now 1: not a movement frame
    g.frame(no_keys(), cell(7, 7));
    assert_eq!(g.snake.body[0], cell(5, 25));
    assert_eq!(g.frame_count, 2);
}

#[test]
fn frame_polls_keys_in_fixed_order() {
    // Down and Up pressed together while moving Right: both pass the guard,
    // and Up, polled last, wins the buffer.
    let mut g = Game::new(cell(40, 40));
    g.frame(Input { right: false, down: true, left: false, up: true }, cell(7, 7));
    assert_eq!(g.snake.next_direction, Direction::Up);
    assert_eq!(g.snake.direction, Direction::Up);
}

#[test]
fn frame_terminates_on_self_collision() {
    // A head-sized loop: after one movement tick the head lands on a body
    // cell and the game terminates, leaving the frame counter untouched.
    let snake = snake_with_body(
        &[cell(5, 5), cell(5, 6), cell(6, 6), cell(6, 5), cell(7, 5)],
        Direction::Right,
    );
    let mut g = Game {
        snake,
        food: Food::new(cell(40, 40)),
        frame_count: 0,
        status: GameStatus::Running,
    };
    g.frame(no_keys(), cell(7, 7));
    assert_eq!(g.status, GameStatus::Terminated);
    assert!(g.is_over());
    assert_eq!(g.frame_count, 0);
}

#[test]
fn game_over_query_reports_running_game() {
    let g = Game::new(cell(40, 40));
    assert!(!g.is_over());
}
