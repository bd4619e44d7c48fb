//! Food placement: a single grid cell, re-spawned pseudo-randomly.

use vstd::prelude::*;

use crate::grid::wrap_spec;
use crate::grid::GridCoordinate;

verus! {

/// The food: one cell of the grid. It is not guaranteed to avoid the
/// snake's body — a spawn may land under the snake.
#[derive(Clone, Copy, Debug, PartialEq, Eq, Structural)]
pub struct Food {
    pub pos: GridCoordinate,
}

/// Relies on rand::random::<i8>: a pseudo-random value from the thread's
/// generator; nothing is promised of it.
#[verifier::external_body]
fn random_i8() -> i8 {
    rand::random::<i8>()
}

impl Food {
    /// The food cell is on the grid.
    pub open spec fn wf(self) -> bool {
        self.pos.wf()
    }

    /// Place the food from two raw values, wrapping each onto the grid —
    /// the verified half of a spawn, total over all inputs.
    pub fn from_raw(x: i8, y: i8) -> (f: Food)
        ensures
            f.pos.x as int == wrap_spec(x as int),
            f.pos.y as int == wrap_spec(y as int),
            f.wf(),
    {
        Food { pos: GridCoordinate::new(x, y) }
    }

    /// Spawn the food at a pseudo-random cell, each axis drawn
    /// independently and wrapped onto the grid.
    pub fn spawn() -> (f: Food)
        ensures
            f.wf(),
    {
        let x = random_i8();
        let y = random_i8();
        Food::from_raw(x, y)
    }
}

impl Default for Food {
    fn default() -> (f: Food)
        ensures
            f.wf(),
    {
        Food::spawn()
    }
}

} // verus!
