//! The snake: an ordered body of grid cells (front = head, back = tail) plus
//! the committed and the buffered movement direction. Movement, growth, the
//! reverse-direction guard and self-collision are specified over a
//! mathematical model of the snake and proved.
use std::collections::VecDeque;

use vstd::prelude::*;

use crate::grid::Cell;
use crate::grid::Direction;
use crate::grid::MAP_SIZE;
use crate::grid::step;
use crate::grid::step_spec;

verus! {

/// Mathematical model of a snake: the body as a sequence of cells and the two
/// direction registers.
#[verifier::ext_equal]
pub struct SnakeModel {
    pub body: Seq<Cell>,
    pub direction: Direction,
    pub next_direction: Direction,
}

impl SnakeModel {
    /// A well-formed snake has at least one cell (the head) and lies entirely
    /// on the playfield.
    pub open spec fn wf(self) -> bool {
        &&& self.body.len() >= 1
        &&& forall|i: int| 0 <= i < self.body.len() ==> #[trigger] self.body[i].in_bounds()
    }
}

/// The direction a snake commits to at the start of an update tick: the
/// buffered direction is taken unless it is the direct reverse of the current
/// one, in which case the current direction is kept (and the buffer is left
/// as it is).
pub open spec fn commit_direction(current: Direction, pending: Direction) -> Direction {
    if pending == current.spec_opposite() {
        current
    } else {
        pending
    }
}

/// The body after one movement tick in direction `d`: the head advanced one
/// step (with wraparound) is pushed to the front and the tail cell is
/// dropped, so the length is unchanged.
pub open spec fn advanced_body(body: Seq<Cell>, d: Direction) -> Seq<Cell>
    recommends
        body.len() >= 1,
{
    seq![step_spec(body[0], d)] + body.drop_last()
}

/// The body after growing: the tail cell is duplicated at the back.
pub open spec fn grown_body(body: Seq<Cell>) -> Seq<Cell>
    recommends
        body.len() >= 1,
{
    body.push(body.last())
}

/// What one call of `Snake::update` does to the model: commit the buffered
/// direction (guarded against reversal), then advance the body one step in
/// the committed direction.
pub open spec fn update_model(s: SnakeModel) -> SnakeModel
    recommends
        s.body.len() >= 1,
{
    let d = commit_direction(s.direction, s.next_direction);
    SnakeModel { body: advanced_body(s.body, d), direction: d, next_direction: s.next_direction }
}

/// What one call of `Snake::grow` does to the model.
pub open spec fn grow_model(s: SnakeModel) -> SnakeModel
    recommends
        s.body.len() >= 1,
{
    SnakeModel { body: grown_body(s.body), ..s }
}

/// A body collides with itself when some cell other than the head equals the
/// head cell.
pub open spec fn self_colliding(body: Seq<Cell>) -> bool {
    exists|i: int| 1 <= i < body.len() && #[trigger] body[i] == body[0]
}

/// The snake every game starts with: three cells in a horizontal line
/// halfway down the field, moving right.
pub open spec fn initial_snake() -> SnakeModel {
    SnakeModel {
        body: seq![
            Cell { x: 4, y: MAP_SIZE / 2 },
            Cell { x: 3, y: MAP_SIZE / 2 },
            Cell { x: 2, y: MAP_SIZE / 2 },
        ],
        direction: Direction::Right,
        next_direction: Direction::Right,
    }
}

pub struct Snake {
    pub body: VecDeque<Cell>,
    pub direction: Direction,
    pub next_direction: Direction,
}

impl View for Snake {
    type V = SnakeModel;

    open spec fn view(&self) -> SnakeModel {
        SnakeModel {
            body: self.body@,
            direction: self.direction,
            next_direction: self.next_direction,
        }
    }
}

impl Snake {
    /// The starting snake: three cells in a horizontal line halfway down the
    /// field, moving right.
    pub fn new() -> (s: Snake)
        ensures
            s@ == initial_snake(),
            s@.wf(),
    {
        let mut body: VecDeque<Cell> = VecDeque::new();
        body.push_back(Cell::new(4, MAP_SIZE / 2));
        body.push_back(Cell::new(3, MAP_SIZE / 2));
        body.push_back(Cell::new(2, MAP_SIZE / 2));
        let s = Snake { body, direction: Direction::Right, next_direction: Direction::Right };
        proof {
            assert(s@ =~~= initial_snake());
        }
        s
    }

    /// The head cell, the front of the body.
    pub fn head(&self) -> (c: Cell)
        requires
            self@.body.len() >= 1,
        ensures
            c == self@.body[0],
    {
        self.body[0]
    }

    /// The number of cells in the body.
    pub fn len(&self) -> (n: usize)
        ensures
            n == self@.body.len(),
    {
        self.body.len()
    }

    /// Buffer direction `d` for the next tick, unless it is the direct
    /// reverse of the currently committed direction, in which case the buffer
    /// is left unchanged. This is the poll-time half of the double reverse
    /// guard; `update` applies the same guard once more at commit time.
    pub fn request_direction(&mut self, d: Direction)
        ensures
            final(self).next_direction == if d == old(self).direction.spec_opposite() {
                old(self).next_direction
            } else {
                d
            },
            final(self).direction == old(self).direction,
            final(self).body == old(self).body,
    {
        if self.direction.opposite() != d {
            self.next_direction = d;
        }
    }

    /// One movement tick: commit the buffered direction unless it would
    /// reverse the snake, push the advanced head cell to the front and drop
    /// the tail cell. The body length never changes.
    pub fn update(&mut self)
        requires
            old(self)@.wf(),
        ensures
            final(self)@ == update_model(old(self)@),
            final(self)@.wf(),
            final(self)@.body.len() == old(self)@.body.len(),
    {
        if self.next_direction != self.direction.opposite() {
            self.direction = self.next_direction;
        }
        let new_head = step(self.body[0], self.direction);
        self.body.push_front(new_head);
        self.body.pop_back();
        proof {
            assert(self@.body =~= advanced_body(old(self)@.body,
                commit_direction(old(self)@.direction, old(self)@.next_direction)));
        }
    }

    /// Duplicate the tail cell at the back, lengthening the body by one. To
    /// net a visible length increase it must run before the next `update`
    /// would drop the tail.
    pub fn grow(&mut self)
        requires
            old(self)@.body.len() >= 1,
        ensures
            final(self)@ == grow_model(old(self)@),
            final(self)@.body.len() == old(self)@.body.len() + 1,
    {
        let tail = self.body[self.body.len() - 1];
        self.body.push_back(tail);
    }

    /// Whether some body cell other than the head occupies the head cell,
    /// evaluated on the current (post-update) body.
    pub fn self_collision(&self) -> (r: bool)
        requires
            self@.body.len() >= 1,
        ensures
            r == self_colliding(self@.body),
    {
        let head = self.body[0];
        let n: usize = self.body.len();
        let mut i: usize = 1;
        while i < n
            invariant
                1 <= i <= n,
                n == self@.body.len(),
                head == self@.body[0],
                forall|j: int| 1 <= j < i ==> #[trigger] self@.body[j] != self@.body[0],
            decreases n - i,
        {
            if self.body[i] == head {
                return true;
            }
            i += 1;
        }
        false
    }
}

/// Reverse-direction guard: a buffered direction that is the direct reverse
/// of the committed one never changes the committed direction at the next
/// update tick.
pub proof fn lemma_reverse_guard(s: SnakeModel)
    requires
        s.body.len() >= 1,
        s.next_direction == s.direction.spec_opposite(),
    ensures
        update_model(s).direction == s.direction,
{
}

/// An update tick alone never changes the body length.
pub proof fn lemma_update_preserves_len(s: SnakeModel)
    requires
        s.body.len() >= 1,
    ensures
        update_model(s).body.len() == s.body.len(),
{
}

/// Growing and then updating once nets exactly one extra body cell.
pub proof fn lemma_grow_then_update_len(s: SnakeModel)
    requires
        s.body.len() >= 1,
    ensures
        update_model(grow_model(s)).body.len() == s.body.len() + 1,
{
}

} // verus!
