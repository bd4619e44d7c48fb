//! Grid coordinates with wraparound arithmetic modulo the field size.

use vstd::prelude::*;

use crate::direction::Direction;

verus! {

/// Number of cells along each side of the (square, toroidal) field.
pub const FIELD_SIZE: i8 = 50;

/// Euclidean remainder modulo the field size: the result is always in
/// `[0, FIELD_SIZE)`, also for negative inputs.
pub open spec fn wrap_spec(v: int) -> int {
    v % (FIELD_SIZE as int)
}

/// A cell of the grid. Both components lie in `[0, FIELD_SIZE)` whenever
/// [`GridCoordinate::wf`] holds; equality is component-wise.
#[derive(Clone, Copy, Debug, PartialEq, Eq, Structural)]
pub struct GridCoordinate {
    pub x: i8,
    pub y: i8,
}

/// Displacement along the x axis of one step in direction `d`.
pub open spec fn step_x(d: Direction) -> int {
    match d {
        Direction::Left => -1,
        Direction::Right => 1,
        _ => 0,
    }
}

/// Displacement along the y axis of one step in direction `d`.
pub open spec fn step_y(d: Direction) -> int {
    match d {
        Direction::Up => 1,
        Direction::Down => -1,
        _ => 0,
    }
}

/// The cell one step from `c` in direction `d`, with both components
/// wrapped back onto the grid.
pub open spec fn translate_spec(c: GridCoordinate, d: Direction) -> GridCoordinate {
    GridCoordinate {
        x: wrap_spec(c.x + step_x(d)) as i8,
        y: wrap_spec(c.y + step_y(d)) as i8,
    }
}

impl GridCoordinate {
    /// Both components lie on the grid.
    pub open spec fn wf(self) -> bool {
        &&& 0 <= self.x < FIELD_SIZE
        &&& 0 <= self.y < FIELD_SIZE
    }

    /// Build a coordinate from arbitrary components, wrapping each onto the
    /// grid.
    pub fn new(x: i8, y: i8) -> (c: GridCoordinate)
        ensures
            c.x as int == wrap_spec(x as int),
            c.y as int == wrap_spec(y as int),
            c.wf(),
    {
        GridCoordinate { x: wrap(x), y: wrap(y) }
    }

    /// The neighbouring cell one step in direction `d`, wrapping at the
    /// field's edges.
    pub fn translate(self, d: Direction) -> (r: GridCoordinate)
        requires
            self.wf(),
        ensures
            r == translate_spec(self, d),
            r.wf(),
    {
        match d {
            Direction::Up => GridCoordinate { x: self.x, y: wrap(self.y + 1) },
            Direction::Down => GridCoordinate { x: self.x, y: wrap(self.y - 1) },
            Direction::Left => GridCoordinate { x: wrap(self.x - 1), y: self.y },
            Direction::Right => GridCoordinate { x: wrap(self.x + 1), y: self.y },
        }
    }
}

/// One step from any cell of the grid lands on the grid again: the wrap
/// keeps both components in `[0, FIELD_SIZE)`.
pub proof fn lemma_translate_spec_wf(c: GridCoordinate, d: Direction)
    requires
        c.wf(),
    ensures
        translate_spec(c, d).wf(),
{
}

/// Euclidean remainder of `v` modulo the field size, as executable code.
pub fn wrap(v: i8) -> (r: i8)
    ensures
        r as int == wrap_spec(v as int),
        0 <= r < FIELD_SIZE,
{
    v.checked_rem_euclid(FIELD_SIZE).unwrap()
}

} // verus!
