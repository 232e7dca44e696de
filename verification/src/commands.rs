use vstd::prelude::*;

use crate::GOLError;
use crate::args::{Ant, Cli, GOLMethod, Random, SubCommands};
use crate::boards::{ant_board, gol_board, Boards};
use crate::text;

verus! {

/// What `random` promises of the board it builds.
pub open spec fn random_post(args: Random, b: Boards) -> bool {
    b matches Boards::GolBoard(g) && g.wf() && g.width == args.width && g.height == args.height
        && g.method == args.method
}

/// What `from_file` promises given the text of the file: the parse outcome
/// of the text decides between a board and a typed failure.
pub open spec fn from_file_post(t: Seq<char>, r: Result<Boards, GOLError>) -> bool {
    &&& text::parse_ok(t) ==> r is Ok && (r->Ok_0 matches Boards::GolBoard(g) && g.wf() && g@
        == text::cells_of_lines(text::split_lines(t)) && g.width == text::split_lines(t)[0].len()
        && g.height == text::split_lines(t).len() && g.method == GOLMethod::Normal)
    &&& (text::split_lines(t).len() == 0 || text::split_lines(t)[0].len() == 0) ==> r is Err
        && r->Err_0 == GOLError::InvalidDimension
    &&& (text::split_lines(t).len() > 0 && text::split_lines(t)[0].len() > 0
        && !text::rectangular(text::split_lines(t))) ==> r is Err && r->Err_0
        == GOLError::InvalidFile
}

/// What `ant` promises: with positive dimensions, the board equals the
/// initial centered ant fast-forwarded `args.start` ticks; a zero dimension
/// is the typed failure.
pub open spec fn ant_post(args: Ant, r: Result<Boards, GOLError>) -> bool {
    &&& args.width >= 1 && args.height >= 1 ==> r is Ok && (r->Ok_0 matches Boards::AntBoard(b)
        && b.wf() && b.width == args.width && b.height == args.height && b.model()
        == ant_board::run_model(
        ant_board::initial_model(args.width as int, args.height as int),
        args.start as nat,
    ))
    &&& (args.width == 0 || args.height == 0) ==> r is Err && r->Err_0
        == GOLError::InvalidDimension
}

/// The initial board of a randomly populated run.
pub fn random(args: &Random) -> (b: Boards)
    ensures
        random_post(*args, b),
{
    let board = gol_board::Board::random_state(args.width, args.height, args.method);
    Boards::GolBoard(board)
}

/// The initial board of a run populated from a file, built from the file's
/// text; reading the file is the caller's business.
pub fn from_file(text: &str) -> (r: Result<Boards, GOLError>)
    ensures
        from_file_post(text@, r),
{
    let board = match gol_board::Board::load_from_text(text) {
        Ok(brd) => brd,
        Err(e) => {
            return Err(e);
        },
    };
    Ok(Boards::GolBoard(board))
}

/// The initial board of a Langton's Ant run: an all-white grid with the ant
/// centered facing up, silently fast-forwarded `args.start` ticks before the
/// first render.
pub fn ant(args: &Ant) -> (r: Result<Boards, GOLError>)
    ensures
        ant_post(*args, r),
{
    if args.width == 0 || args.height == 0 {
        return Err(GOLError::InvalidDimension);
    }
    let ghost m0 = ant_board::initial_model(args.width as int, args.height as int);
    let mut board = ant_board::Board::create_board(args.width, args.height);
    let mut s: u64 = 0;
    while s < args.start
        invariant
            s <= args.start,
            board.wf(),
            board.width == args.width,
            board.height == args.height,
            m0 == ant_board::initial_model(args.width as int, args.height as int),
            board.model() == ant_board::run_model(m0, s as nat),
        decreases args.start - s,
    {
        board = board.update();
        s += 1;
    }
    Ok(Boards::AntBoard(board))
}

/// Builds the initial board for the chosen subcommand. Where the command
/// loads from a file, the caller hands the file's text in `file_text`; a
/// text that could not be read at all is the `InvalidFile` failure.
pub fn run(cli: &Cli, file_text: Option<&str>) -> (r: Result<Boards, GOLError>)
    ensures
        cli.command matches SubCommands::Random(args) ==> r is Ok && random_post(args, r->Ok_0),
        cli.command matches SubCommands::File(_a) ==> (match file_text {
            Option::Some(t) => from_file_post(t@, r),
            Option::None => r is Err && r->Err_0 == GOLError::InvalidFile,
        }),
        cli.command matches SubCommands::Ant(args) ==> ant_post(args, r),
{
    match &cli.command {
        SubCommands::Random(args) => Ok(random(args)),
        SubCommands::File(_args) => {
            match file_text {
                Option::Some(t) => from_file(t),
                Option::None => Err(GOLError::InvalidFile),
            }
        },
        SubCommands::Ant(args) => ant(args),
    }
}

} // verus!
