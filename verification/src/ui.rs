use vstd::prelude::*;

use crate::GOLError;
use crate::args::GOLMethod;
use crate::boards::Boards;
use crate::boards::ant_board;
use crate::game::Game;
use crate::grid::step;

verus! {

/// Whether the session goes on after an event.
#[derive(Debug, PartialEq, Eq, Structural)]
pub enum Return {
    Exit,
    Continue,
}

/// A key event as the core reads it: a plain character, a character with
/// Control held, or anything else.
#[derive(Debug, Clone, Copy, PartialEq, Eq, Structural)]
pub enum Key {
    Char(char),
    Ctrl(char),
    Other,
}

/// Whether a key ends the session.
pub open spec fn is_quit_key(key: Key) -> bool {
    key == Key::Ctrl('c') || key == Key::Char('q')
}

/// Decides whether an input event ends the session: Ctrl-c and `q` quit,
/// every other key is ignored.
pub fn process_key(key: Key) -> (r: Return)
    ensures
        r == (if is_quit_key(key) {
            Return::Exit
        } else {
            Return::Continue
        }),
{
    if key == Key::Ctrl('c') || key == Key::Char('q') {
        return Return::Exit;
    }
    Return::Continue
}

/// One tick of the running game: the held board is replaced by its successor
/// under its own variant, and the session goes on.
pub fn update(game: &mut Game) -> (r: Return)
    requires
        old(game).wf(),
    ensures
        final(game).wf(),
        r == Return::Continue,
        old(game).board matches Boards::GolBoard(b) ==> (final(game).board matches
            Boards::GolBoard(nb) && nb.width == b.width && nb.height == b.height && nb.method
            == b.method && nb@ == step(b@, b.width as int, b.height as int, b.method)),
        old(game).board matches Boards::AntBoard(b) ==> (final(game).board matches
            Boards::AntBoard(nb) && nb.model() == ant_board::step_model(b.model())),
{
    let new_board = match &game.board {
        Boards::GolBoard(board) => {
            match board.method {
                GOLMethod::Normal => Boards::GolBoard(board.next_state()),
                GOLMethod::VonNeumann => Boards::GolBoard(board.next_state_neumann()),
                GOLMethod::Dan => Boards::GolBoard(board.next_state_dan()),
            }
        },
        Boards::AntBoard(board) => Boards::AntBoard(board.update()),
    };
    game.board = new_board;
    Return::Continue
}

/// The width of the held board.
pub open spec fn board_width(game: &Game) -> int {
    match game.board {
        Boards::GolBoard(b) => b.width as int,
        Boards::AntBoard(b) => b.width as int,
    }
}

/// The height of the held board.
pub open spec fn board_height(game: &Game) -> int {
    match game.board {
        Boards::GolBoard(b) => b.height as int,
        Boards::AntBoard(b) => b.height as int,
    }
}

/// Whether a rendering surface can hold the board and its margin of 5.
pub open spec fn size_ok(rect_width: u16, rect_height: u16, w: int, h: int) -> bool {
    rect_width as int >= w + 5 && rect_height as int >= h + 5
}

/// Checks that the terminal rectangle is large enough for the board plus a
/// margin of 5 on each axis; a surface that is too small is the fatal
/// `DisplaySizeTooSmall`, never a silent truncation.
pub fn check_size(rect_width: u16, rect_height: u16, game: &Game) -> (r: Result<(), GOLError>)
    ensures
        r is Ok <==> size_ok(rect_width, rect_height, board_width(game), board_height(game)),
        r is Err ==> r->Err_0 == GOLError::DisplaySizeTooSmall,
{
    let (width, height) = match &game.board {
        Boards::GolBoard(b) => (b.width, b.height),
        Boards::AntBoard(b) => (b.width, b.height),
    };
    let rw = rect_width as usize;
    let rh = rect_height as usize;
    if width > rw || rw - width < 5 {
        return Err(GOLError::DisplaySizeTooSmall);
    }
    if height > rh || rh - height < 5 {
        return Err(GOLError::DisplaySizeTooSmall);
    }
    Ok(())
}

} // verus!
