use vstd::prelude::*;

verus! {

/// Which neighbor-counting and rule pair is applied on each tick.
#[derive(Debug, Clone, Copy, PartialEq, Eq, Structural)]
pub enum GOLMethod {
    /// The default method: normal GOL with neighbors being all 8 surrounding cells.
    Normal,
    /// Von Neumann's method: GOL with neighbors being 4 cardinals extended once.
    VonNeumann,
    /// Day and Night: B3678/S34678.
    Dan,
}

/// The parsed command line: which simulation to run, with its parameters.
pub struct Cli {
    pub command: SubCommands,
}

/// The available simulations.
pub enum SubCommands {
    /// Create a grid randomly populated.
    Random(Random),
    /// Use information from a file to populate a grid.
    File(File),
    /// Run Langton's Ant.
    Ant(Ant),
}

/// Parameters of a randomly populated run.
pub struct Random {
    /// Width of the grid.
    pub width: usize,
    /// Height of the grid.
    pub height: usize,
    /// The method used for the simulation.
    pub method: GOLMethod,
    /// The time slept between updating the board (in milliseconds).
    pub sleep_time: u64,
}

/// Parameters of a run populated from a file.
pub struct File {
    /// Path of the file to load from.
    pub filepath: String,
    /// The method used for the simulation.
    pub method: GOLMethod,
    /// The time slept between updating the board (in milliseconds).
    pub sleep_time: u64,
}

/// Parameters of a Langton's Ant run.
pub struct Ant {
    /// Width of the grid.
    pub width: usize,
    /// Height of the grid.
    pub height: usize,
    /// The time slept between updating the board (in milliseconds).
    pub interval: u64,
    /// The step to start at.
    pub start: u64,
}

} // verus!
