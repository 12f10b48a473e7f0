//! Simulation core of a two-board match-3 contest.
//!
//! A fixed-timestep clock drives a pre-match countdown, gameplay timing and
//! end-of-match detection, and a board generator produces randomized jewel
//! grids that are guaranteed playable (free of pre-existing matches) before
//! gameplay starts.
//!
//! Every duration and time delta in this crate is a whole number of
//! milliseconds, so all timing facts are exact; a caller that measures time
//! in fractional seconds converts at the boundary.

pub mod board;
pub mod game;
pub mod outcome;
pub mod timer;
