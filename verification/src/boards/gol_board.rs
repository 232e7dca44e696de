use vstd::prelude::*;

use crate::GOLError;
use crate::args::GOLMethod;
use crate::grid;
use crate::grid::{grid_wf, step};
use crate::text;
use crate::text::{cells_of_lines, parse_ok, render_chars, split_lines};

verus! {

/// A Game-of-Life board carrying its automaton variant: the method chosen at
/// construction is kept unchanged through every transition.
#[derive(Debug)]
pub struct Board {
    pub state: Vec<Vec<bool>>,
    pub width: usize,
    pub height: usize,
    pub method: GOLMethod,
}

impl View for Board {
    type V = Seq<Seq<bool>>;

    open spec fn view(&self) -> Seq<Seq<bool>> {
        grid::rows_view(self.state@)
    }
}

impl Board {
    /// The structural invariant: exactly `height` rows of exactly `width`
    /// cells each.
    pub open spec fn wf(&self) -> bool {
        grid_wf(self@, self.width as int, self.height as int)
    }

    /// An all-dead board of the given dimensions. A zero width or height is
    /// accepted and yields a degenerate board with no cells.
    pub fn dead_state(width: usize, height: usize, method: GOLMethod) -> (b: Board)
        ensures
            b.wf(),
            b.width == width,
            b.height == height,
            b.method == method,
            b@ == grid::dead_grid(width as int, height as int),
    {
        let state = grid::make_grid(width, height);
        Board { state, width, height, method }
    }

    /// A board of the given dimensions where every cell is set by an
    /// independent unbiased coin flip.
    pub fn random_state(width: usize, height: usize, method: GOLMethod) -> (b: Board)
        ensures
            b.wf(),
            b.width == width,
            b.height == height,
            b.method == method,
    {
        let state = grid::random_grid(width, height);
        Board { state, width, height, method }
    }

    /// Width and height of the board.
    pub fn dimensions(&self) -> (d: (usize, usize))
        ensures
            d.0 == self.width,
            d.1 == self.height,
    {
        (self.width, self.height)
    }

    /// The cell at column `x` of row `y`.
    pub fn get(&self, x: usize, y: usize) -> (c: bool)
        requires
            self.wf(),
            x < self.width,
            y < self.height,
        ensures
            c == self@[y as int][x as int],
    {
        proof {
            grid::lemma_rows_view_wf(self.state@, self.width as int, self.height as int);
        }
        self.state[y][x]
    }

    /// The bordered text block: a divider of `width + 2` dashes, each row
    /// framed by `'|'` with `'#'` for alive and a space for dead, and an
    /// identical bottom divider.
    pub fn render(&self) -> (r: String)
        requires
            self.wf(),
        ensures
            r@ == render_chars(self@, self.width as int, self.height as int, Option::None),
    {
        text::render_grid(&self.state, self.width, self.height, Option::None)
    }

    /// One tick of the standard rule over the Moore-8 counts, computed from
    /// the pre-tick board alone.
    pub fn next_state(&self) -> (b: Board)
        requires
            self.wf(),
        ensures
            b.wf(),
            b.width == self.width,
            b.height == self.height,
            b.method == self.method,
            b@ == step(self@, self.width as int, self.height as int, GOLMethod::Normal),
    {
        let state = grid::step_grid(&self.state, self.width, self.height, GOLMethod::Normal);
        Board { state, width: self.width, height: self.height, method: self.method }
    }

    /// One tick of the standard rule over the extended Von Neumann counts:
    /// the 4 cells at distance exactly two along the cardinal axes.
    pub fn next_state_neumann(&self) -> (b: Board)
        requires
            self.wf(),
        ensures
            b.wf(),
            b.width == self.width,
            b.height == self.height,
            b.method == self.method,
            b@ == step(self@, self.width as int, self.height as int, GOLMethod::VonNeumann),
    {
        let state = grid::step_grid(&self.state, self.width, self.height, GOLMethod::VonNeumann);
        Board { state, width: self.width, height: self.height, method: self.method }
    }

    /// One tick of the Day-and-Night rule over the Moore-8 counts, whatever
    /// method the board was configured with.
    pub fn next_state_dan(&self) -> (b: Board)
        requires
            self.wf(),
        ensures
            b.wf(),
            b.width == self.width,
            b.height == self.height,
            b.method == self.method,
            b@ == step(self@, self.width as int, self.height as int, GOLMethod::Dan),
    {
        let state = grid::step_grid(&self.state, self.width, self.height, GOLMethod::Dan);
        Board { state, width: self.width, height: self.height, method: self.method }
    }

    /// Builds a board from a newline-separated text, under the default
    /// method: a literal `'0'` means dead, every other character means
    /// alive. The width is the length of the first line and the height the
    /// number of lines; a blank trailing line opens no row. An empty text or
    /// an empty first line is rejected as `InvalidDimension`, unequal line
    /// lengths as `InvalidFile`.
    pub fn load_from_text(text: &str) -> (r: Result<Board, GOLError>)
        ensures
            parse_ok(text@) ==> {
                &&& r is Ok
                &&& r->Ok_0.wf()
                &&& r->Ok_0@ == cells_of_lines(split_lines(text@))
                &&& r->Ok_0.width == split_lines(text@)[0].len()
                &&& r->Ok_0.height == split_lines(text@).len()
                &&& r->Ok_0.method == GOLMethod::Normal
            },
            (split_lines(text@).len() == 0 || split_lines(text@)[0].len() == 0) ==> r is Err
                && r->Err_0 == GOLError::InvalidDimension,
            (split_lines(text@).len() > 0 && split_lines(text@)[0].len() > 0 && !text::rectangular(
                split_lines(text@),
            )) ==> r is Err && r->Err_0 == GOLError::InvalidFile,
    {
        match text::parse_grid(text) {
            Ok(parsed) => {
                let (state, width, height) = parsed;
                Ok(Board { state, width, height, method: GOLMethod::Normal })
            },
            Err(e) => Err(e),
        }
    }
}

} // verus!
