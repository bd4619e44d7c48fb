//! Movement directions and the reversal-rejection rule.

use vstd::prelude::*;

verus! {

/// One of the four movement directions. The default is `Up`.
#[derive(Clone, Copy, Debug, PartialEq, Eq, Structural)]
pub enum Direction {
    Up,
    Down,
    Left,
    Right,
}

impl Default for Direction {
    fn default() -> (d: Direction)
        ensures
            d == Direction::Up,
    {
        Direction::Up
    }
}

/// The direction exactly opposite to `d`.
pub open spec fn opposite(d: Direction) -> Direction {
    match d {
        Direction::Up => Direction::Down,
        Direction::Down => Direction::Up,
        Direction::Left => Direction::Right,
        Direction::Right => Direction::Left,
    }
}

/// The direction that results from asking to turn from `current` to
/// `requested`: the request is granted unless it would reverse the snake
/// into its own neck.
pub open spec fn request_change_spec(current: Direction, requested: Direction) -> Direction {
    if requested == opposite(current) {
        current
    } else {
        requested
    }
}

/// Apply a direction-change request: returns `requested` unless it is the
/// exact opposite of `current`, in which case `current` is kept.
pub fn request_change(current: Direction, requested: Direction) -> (r: Direction)
    ensures
        r == request_change_spec(current, requested),
{
    match (current, requested) {
        (Direction::Up, Direction::Down) => current,
        (Direction::Down, Direction::Up) => current,
        (Direction::Left, Direction::Right) => current,
        (Direction::Right, Direction::Left) => current,
        _ => requested,
    }
}

/// The direction-change request encoded by the currently held movement
/// keys, the first held key winning in the order up, down, left, right.
pub open spec fn key_request_spec(
    key_up: bool,
    key_down: bool,
    key_left: bool,
    key_right: bool,
) -> Option<Direction> {
    if key_up {
        Some(Direction::Up)
    } else if key_down {
        Some(Direction::Down)
    } else if key_left {
        Some(Direction::Left)
    } else if key_right {
        Some(Direction::Right)
    } else {
        None
    }
}

/// Translate the currently held movement keys into a direction-change
/// request, or `None` when no movement key is held.
pub fn key_request(key_up: bool, key_down: bool, key_left: bool, key_right: bool) -> (r: Option<
    Direction,
>)
    ensures
        r == key_request_spec(key_up, key_down, key_left, key_right),
{
    if key_up {
        Some(Direction::Up)
    } else if key_down {
        Some(Direction::Down)
    } else if key_left {
        Some(Direction::Left)
    } else if key_right {
        Some(Direction::Right)
    } else {
        None
    }
}

/// The direction after one input poll: the held keys become a request, and
/// the reversal-rejection rule decides whether it is granted.
pub open spec fn direction_after_keys(
    current: Direction,
    key_up: bool,
    key_down: bool,
    key_left: bool,
    key_right: bool,
) -> Direction {
    match key_request_spec(key_up, key_down, key_left, key_right) {
        Some(requested) => request_change_spec(current, requested),
        None => current,
    }
}

} // verus!
