use vstd::prelude::*;

use crate::boards::Boards;

verus! {

/// The driver's state: the one board value owned between ticks, replaced as
/// a whole by each transition.
pub struct Game {
    pub board: Boards,
}

impl Game {
    /// The structural invariant of the held board.
    pub open spec fn wf(&self) -> bool {
        self.board.wf()
    }
}

} // verus!
