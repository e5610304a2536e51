//! The per-frame game loop logic as a state machine: poll-time direction
//! buffering, tick gating, the movement update, self-collision termination
//! and food consumption, in the fixed order that correctness depends on.
//! The caller performs the outside work each frame (key polling, drawing,
//! drawing random coordinates for a respawn) and hands the results in as
//! plain values.
use vstd::prelude::*;

use crate::food::Food;
use crate::grid::Cell;
use crate::grid::Direction;
use crate::snake::Snake;
use crate::snake::SnakeModel;
use crate::snake::grow_model;
use crate::snake::initial_snake;
use crate::snake::self_colliding;
use crate::snake::update_model;

verus! {

/// The snake advances one cell every `GAME_SPEED` frames, while input is
/// polled every frame for responsiveness.
pub const GAME_SPEED: u32 = 5;

/// The directional keys pressed this frame (edge-triggered).
#[derive(PartialEq, Eq, Structural, Copy, Clone, Debug)]
pub struct Input {
    pub right: bool,
    pub down: bool,
    pub left: bool,
    pub up: bool,
}

/// The game is `Running` until the snake collides with itself; `Terminated`
/// is the only terminal state.
#[derive(PartialEq, Eq, Structural, Copy, Clone, Debug)]
pub enum GameStatus {
    Running,
    Terminated,
}

/// Mathematical model of the whole game state.
#[verifier::ext_equal]
pub struct GameModel {
    pub snake: SnakeModel,
    pub food: Cell,
    pub frame_count: u32,
    pub status: GameStatus,
}

impl GameModel {
    pub open spec fn wf(self) -> bool {
        &&& self.snake.wf()
        &&& self.food.in_bounds()
    }
}

/// The poll-time guard for one directional key: a pressed key buffers its
/// direction unless that direction is the direct reverse of the currently
/// committed one.
pub open spec fn buffer_one(
    current: Direction,
    pending: Direction,
    pressed: bool,
    d: Direction,
) -> Direction {
    if pressed && d != current.spec_opposite() {
        d
    } else {
        pending
    }
}

/// The buffered direction after polling all four keys in the fixed order
/// right, down, left, up. Every guard compares against the direction
/// committed at the start of the frame, which polling never changes.
pub open spec fn buffered_direction(
    current: Direction,
    pending: Direction,
    input: Input,
) -> Direction {
    let p = buffer_one(current, pending, input.right, Direction::Right);
    let p = buffer_one(current, p, input.down, Direction::Down);
    let p = buffer_one(current, p, input.left, Direction::Left);
    buffer_one(current, p, input.up, Direction::Up)
}

/// A frame counter increment that wraps at the numeric limit instead of
/// overflowing.
pub open spec fn wrap_inc(n: u32) -> u32 {
    if n == u32::MAX {
        0u32
    } else {
        (n + 1) as u32
    }
}

/// What one frame does to the game state, given the keys pressed this frame
/// and the cell a consumed food would respawn to:
/// 1. buffer a direction from the pressed keys (reverse-guarded);
/// 2. on every `GAME_SPEED`-th frame, run the movement update;
/// 3. if the snake now collides with itself, terminate, leaving everything
///    else (the frame counter included) as it stands;
/// 4. otherwise, if the head is on the food, move the food to `spawn` and
///    grow the snake, then count the frame.
pub open spec fn frame_model(g: GameModel, input: Input, spawn: Cell) -> GameModel
    recommends
        g.snake.body.len() >= 1,
{
    let polled = SnakeModel {
        next_direction: buffered_direction(g.snake.direction, g.snake.next_direction, input),
        ..g.snake
    };
    let moved = if g.frame_count % GAME_SPEED == 0 {
        update_model(polled)
    } else {
        polled
    };
    if self_colliding(moved.body) {
        GameModel { snake: moved, status: GameStatus::Terminated, ..g }
    } else if moved.body[0] == g.food {
        GameModel {
            snake: grow_model(moved),
            food: spawn,
            frame_count: wrap_inc(g.frame_count),
            status: GameStatus::Running,
        }
    } else {
        GameModel {
            snake: moved,
            food: g.food,
            frame_count: wrap_inc(g.frame_count),
            status: GameStatus::Running,
        }
    }
}

pub struct Game {
    pub snake: Snake,
    pub food: Food,
    pub frame_count: u32,
    pub status: GameStatus,
}

impl View for Game {
    type V = GameModel;

    open spec fn view(&self) -> GameModel {
        GameModel {
            snake: self.snake@,
            food: self.food.position,
            frame_count: self.frame_count,
            status: self.status,
        }
    }
}

impl Game {
    /// A fresh game: the starting snake, the food at `food_position`
    /// (randomly drawn by the caller), frame zero, running.
    pub fn new(food_position: Cell) -> (g: Game)
        requires
            food_position.in_bounds(),
        ensures
            g@.snake == initial_snake(),
            g@.food == food_position,
            g@.frame_count == 0,
            g@.status == GameStatus::Running,
            g@.wf(),
    {
        Game {
            snake: Snake::new(),
            food: Food::new(food_position),
            frame_count: 0,
            status: GameStatus::Running,
        }
    }

    /// Run one frame of the game loop on a running game. `input` holds the
    /// keys polled this frame; `spawn` is where the food goes if it is
    /// consumed this frame (drawn at random by the caller, with no exclusion
    /// of snake-occupied cells). The caller should draw the state afterwards
    /// only while the game is still running.
    pub fn frame(&mut self, input: Input, spawn: Cell)
        requires
            old(self)@.wf(),
            old(self)@.status == GameStatus::Running,
            spawn.in_bounds(),
        ensures
            final(self)@ == frame_model(old(self)@, input, spawn),
            final(self)@.wf(),
    {
        if input.right {
            self.snake.request_direction(Direction::Right);
        }
        if input.down {
            self.snake.request_direction(Direction::Down);
        }
        if input.left {
            self.snake.request_direction(Direction::Left);
        }
        if input.up {
            self.snake.request_direction(Direction::Up);
        }
        if self.frame_count % GAME_SPEED == 0 {
            self.snake.update();
        }
        if self.snake.self_collision() {
            self.status = GameStatus::Terminated;
            proof {
                assert(self@ =~~= frame_model(old(self)@, input, spawn));
            }
            return;
        }
        if self.snake.head() == self.food.position {
            self.food.respawn(spawn);
            self.snake.grow();
        }
        self.frame_count = if self.frame_count == u32::MAX {
            0
        } else {
            self.frame_count + 1
        };
        proof {
            assert(self@ =~~= frame_model(old(self)@, input, spawn));
        }
    }

    /// Whether the game has ended by self-collision.
    pub fn is_over(&self) -> (r: bool)
        ensures
            r == (self@.status == GameStatus::Terminated),
    {
        self.status == GameStatus::Terminated
    }
}

/// The snake's body never shrinks: a frame either keeps its length (a plain
/// move, a skipped tick, or the terminating frame) or lengthens it by one (a
/// frame that consumes the food).
pub proof fn lemma_frame_never_shrinks(g: GameModel, input: Input, spawn: Cell)
    requires
        g.snake.body.len() >= 1,
    ensures
        frame_model(g, input, spawn).snake.body.len() == g.snake.body.len()
            || frame_model(g, input, spawn).snake.body.len() == g.snake.body.len() + 1,
{
}

} // verus!
