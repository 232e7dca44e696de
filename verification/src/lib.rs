use vstd::prelude::*;

pub mod args;
pub mod board;
pub mod boards;
pub mod commands;
pub mod game;
pub mod grid;
pub mod text;
pub mod ui;

verus! {

/// The failure kinds of the library: a malformed initial-state text, a
/// degenerate grid dimension, and a rendering surface too small for the grid.
#[derive(Debug, Clone, Copy, PartialEq, Eq, Structural)]
pub enum GOLError {
    InvalidFile,
    InvalidDimension,
    DisplaySizeTooSmall,
}

/// Session configuration handed down by the caller: the tick interval in
/// milliseconds and the neighbor method driving the simulation.
pub struct Config {
    pub sleep_time: u64,
    pub neighbor_method: crate::args::GOLMethod,
}

} // verus!
