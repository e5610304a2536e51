//! The food: a single grid cell, repositioned whenever the snake's head
//! reaches it. The caller draws the random coordinates (the game core takes
//! no randomness of its own) and hands them in as plain values; no cell is
//! excluded, so the food may legally land on a snake-occupied cell.
use vstd::prelude::*;

use crate::grid::Cell;

verus! {

pub struct Food {
    pub position: Cell,
}

impl Food {
    /// Place the food at `position`, which must lie on the playfield.
    pub fn new(position: Cell) -> (f: Food)
        requires
            position.in_bounds(),
        ensures
            f.position == position,
            f.position.in_bounds(),
    {
        Food { position }
    }

    /// Move the food to `position`, which must lie on the playfield. The new
    /// position may equal the old one, and may lie under the snake: no
    /// exclusion is applied.
    pub fn respawn(&mut self, position: Cell)
        requires
            position.in_bounds(),
        ensures
            final(self).position == position,
            final(self).position.in_bounds(),
    {
        self.position = position;
    }
}

} // verus!
