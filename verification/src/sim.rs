//! The tick driver: one simulation context owning snake, direction, food
//! and clock, advanced once per host frame.

use vstd::prelude::*;

use crate::clock::SimulationClock;
use crate::clock::TICK_INTERVAL_MS;
use crate::direction::direction_after_keys;
use crate::direction::key_request;
use crate::direction::request_change;
use crate::direction::Direction;
use crate::food::Food;
use crate::snake::collides;
use crate::snake::initial_body;
use crate::snake::new_head_of;
use crate::snake::next_body;
use crate::snake::Snake;
use crate::snake::TickOutcome;

verus! {

/// The whole simulation state. The host polls input into
/// [`Simulation::handle_keys`], feeds elapsed time into
/// [`Simulation::frame`], and reads `snake` and `food` back for display.
pub struct Simulation {
    pub snake: Snake,
    pub direction: Direction,
    pub food: Food,
    pub clock: SimulationClock,
}

impl Simulation {
    /// Every part of the state is well formed.
    pub open spec fn wf(self) -> bool {
        &&& self.snake.wf()
        &&& self.food.wf()
        &&& self.clock.wf()
    }

    /// A fresh simulation: the initial snake moving up, food at a
    /// pseudo-random cell, nothing on the clock.
    pub fn new() -> (s: Simulation)
        ensures
            s.wf(),
            s.snake@ == initial_body(),
            s.direction == Direction::Up,
            s.clock.accumulated_ms == 0,
    {
        Simulation {
            snake: Snake::initial(),
            direction: Direction::Up,
            food: Food::spawn(),
            clock: SimulationClock::new(),
        }
    }

    /// One input poll: turn the currently held movement keys into a
    /// direction-change request and apply the reversal-rejection rule.
    /// Nothing else moves.
    pub fn handle_keys(
        &mut self,
        key_up: bool,
        key_down: bool,
        key_left: bool,
        key_right: bool,
    )
        ensures
            final(self).direction == direction_after_keys(
                old(self).direction,
                key_up,
                key_down,
                key_left,
                key_right,
            ),
            final(self).snake@ == old(self).snake@,
            final(self).food == old(self).food,
            final(self).clock == old(self).clock,
    {
        match key_request(key_up, key_down, key_left, key_right) {
            Some(requested) => {
                self.direction = request_change(self.direction, requested);
            },
            None => {},
        }
    }

    /// One host frame: feed `delta_ms` elapsed milliseconds into the
    /// clock; when it fires, advance the snake one tick in the current
    /// direction and, if the food was eaten, spawn a new one. Returns what
    /// the tick did, or `None` when no tick was due.
    pub fn frame(&mut self, delta_ms: u64) -> (outcome: Option<TickOutcome>)
        requires
            old(self).wf(),
        ensures
            final(self).wf(),
            final(self).direction == old(self).direction,
            outcome is Some <==> old(self).clock.accumulated_ms + delta_ms >= TICK_INTERVAL_MS,
            outcome is None ==> final(self).clock.accumulated_ms == old(self).clock.accumulated_ms
                + delta_ms,
            outcome is Some ==> final(self).clock.accumulated_ms == 0,
            match outcome {
                Some(out) => {
                    &&& final(self).snake@ == next_body(
                        old(self).snake@,
                        old(self).direction,
                        old(self).food.pos,
                    )
                    &&& out.ate == (new_head_of(old(self).snake@, old(self).direction) == old(
                        self,
                    ).food.pos)
                    &&& out.reset == collides(
                        old(self).snake@,
                        old(self).direction,
                        old(self).food.pos,
                    )
                    &&& !out.ate ==> final(self).food == old(self).food
                },
                None => {
                    &&& final(self).snake@ == old(self).snake@
                    &&& final(self).food == old(self).food
                },
            },
    {
        if self.clock.advance(delta_ms) {
            let out = self.snake.advance(self.direction, self.food.pos);
            if out.ate {
                self.food = Food::spawn();
            }
            Some(out)
        } else {
            None
        }
    }

    /// The current score: the number of cells the body occupies.
    pub fn score(&self) -> (n: usize)
        ensures
            n == self.snake@.len(),
    {
        self.snake.len()
    }
}

impl Default for Simulation {
    fn default() -> (s: Simulation)
        ensures
            s.wf(),
            s.snake@ == initial_body(),
            s.direction == Direction::Up,
            s.clock.accumulated_ms == 0,
    {
        Simulation::new()
    }
}

} // verus!
