use vstd::prelude::*;

pub mod ant_board;
pub mod gol_board;

verus! {

/// The two automaton families a driver can hold between ticks.
pub enum Boards {
    GolBoard(gol_board::Board),
    AntBoard(ant_board::Board),
}

impl Boards {
    /// The structural invariant of whichever board is held.
    pub open spec fn wf(&self) -> bool {
        match self {
            Boards::GolBoard(b) => b.wf(),
            Boards::AntBoard(b) => b.wf(),
        }
    }
}

} // verus!
