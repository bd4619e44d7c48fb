//! Core of a snake simulation on a square toroidal grid.
//!
//! The snake moves one cell per tick, grows when its head lands on the food
//! cell, and is reset to its initial three-cell body when it runs into
//! itself. Coordinates wrap modulo the field size on every step, so the only
//! terminal-like condition is self-intersection. Rendering and input polling
//! are left to a host, which drives [`sim::Simulation`] once per frame.

pub mod clock;
pub mod direction;
pub mod food;
pub mod grid;
pub mod sim;
pub mod snake;
