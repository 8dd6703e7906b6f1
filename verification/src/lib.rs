//! Simulation core of a small top-down arcade game: a player dodges roaming
//! enemies, collects stars and timed pickups, while a menu / pause state
//! machine and a bank of timers run alongside.
//!
//! Lengths are whole numbers of length units, one pixel being
//! [`utils::UNITS_PER_PIXEL`] of them; times are whole nanoseconds. A speed in
//! pixels per second times a time in nanoseconds is therefore a length.

pub mod components;
pub mod events;
pub mod random;
pub mod resources;
pub mod schedule;
pub mod systems;
pub mod timer;
pub mod utils;
