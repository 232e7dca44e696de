use vstd::prelude::*;

use crate::grid;
use crate::grid::grid_wf;
use crate::text;
use crate::text::render_chars;

verus! {

/// The heading of the ant.
#[derive(Debug, Clone, Copy, PartialEq, Eq, Structural)]
pub enum Direction {
    Up,
    Down,
    Left,
    Right,
}

/// The heading after a clockwise quarter turn.
pub open spec fn turned_right(d: Direction) -> Direction {
    match d {
        Direction::Up => Direction::Right,
        Direction::Right => Direction::Down,
        Direction::Down => Direction::Left,
        Direction::Left => Direction::Up,
    }
}

/// The heading after a counter-clockwise quarter turn.
pub open spec fn turned_left(d: Direction) -> Direction {
    match d {
        Direction::Right => Direction::Up,
        Direction::Down => Direction::Right,
        Direction::Up => Direction::Left,
        Direction::Left => Direction::Down,
    }
}

impl Direction {
    /// Turns one quarter turn clockwise: Up, Right, Down, Left and around.
    pub fn rotate_right(&mut self)
        ensures
            *final(self) == turned_right(*old(self)),
    {
        match self {
            Direction::Up => *self = Direction::Right,
            Direction::Right => *self = Direction::Down,
            Direction::Down => *self = Direction::Left,
            Direction::Left => *self = Direction::Up,
        };
    }

    /// Turns one quarter turn counter-clockwise: the reverse cycle.
    pub fn rotate_left(&mut self)
        ensures
            *final(self) == turned_left(*old(self)),
    {
        match self {
            Direction::Right => *self = Direction::Up,
            Direction::Down => *self = Direction::Right,
            Direction::Up => *self = Direction::Left,
            Direction::Left => *self = Direction::Down,
        };
    }
}

/// The mathematical state of an ant run: the cell colors, the dimensions,
/// and the ant's position and heading.
pub struct AntModel {
    pub cells: Seq<Seq<bool>>,
    pub w: int,
    pub h: int,
    pub x: int,
    pub y: int,
    pub dir: Direction,
}

impl AntModel {
    /// Positive dimensions, a well-formed grid, and the ant in bounds.
    pub open spec fn wf(self) -> bool {
        &&& grid_wf(self.cells, self.w, self.h)
        &&& 1 <= self.w
        &&& 1 <= self.h
        &&& 0 <= self.x < self.w
        &&& 0 <= self.y < self.h
    }
}

/// One step from the model's position in heading `d`, wrapping around the
/// grid edges: the grid is toroidal for the ant.
pub open spec fn moved(m: AntModel, d: Direction) -> (int, int) {
    match d {
        Direction::Up => (m.x, if m.y == 0 {
            m.h - 1
        } else {
            m.y - 1
        }),
        Direction::Down => (m.x, if m.y == m.h - 1 {
            0
        } else {
            m.y + 1
        }),
        Direction::Left => (if m.x == 0 {
            m.w - 1
        } else {
            m.x - 1
        }, m.y),
        Direction::Right => (if m.x == m.w - 1 {
            0
        } else {
            m.x + 1
        }, m.y),
    }
}

/// One tick of the ant: turn right on a white cell and left on a black one,
/// flip the cell the ant stood on, then move one step in the new heading
/// with wraparound.
pub open spec fn step_model(m: AntModel) -> AntModel {
    let was_white = !m.cells[m.y][m.x];
    let dir = if was_white {
        turned_right(m.dir)
    } else {
        turned_left(m.dir)
    };
    let pos = moved(m, dir);
    AntModel {
        cells: m.cells.update(m.y, m.cells[m.y].update(m.x, was_white)),
        w: m.w,
        h: m.h,
        x: pos.0,
        y: pos.1,
        dir: dir,
    }
}

/// The model of a fresh run: an all-white grid with the ant at the center
/// facing up.
pub open spec fn initial_model(w: int, h: int) -> AntModel {
    AntModel {
        cells: grid::dead_grid(w, h),
        w: w,
        h: h,
        x: w / 2,
        y: h / 2,
        dir: Direction::Up,
    }
}

/// `n` ticks of the ant, applied one after the other.
pub open spec fn run_model(m: AntModel, n: nat) -> AntModel
    decreases n,
{
    if n == 0 {
        m
    } else {
        step_model(run_model(m, (n - 1) as nat))
    }
}

/// Langton's Ant: a grid of cell colors, `true` meaning black, and a single
/// mobile agent `(col, row, heading)`; each tick produces a new board.
#[derive(Debug)]
pub struct Board {
    pub state: Vec<Vec<bool>>,
    pub width: usize,
    pub height: usize,
    pub ant: (usize, usize, Direction),
}

impl Board {
    /// The mathematical state of this board.
    pub open spec fn model(&self) -> AntModel {
        AntModel {
            cells: grid::rows_view(self.state@),
            w: self.width as int,
            h: self.height as int,
            x: self.ant.0 as int,
            y: self.ant.1 as int,
            dir: self.ant.2,
        }
    }

    /// The structural invariant of the board.
    pub open spec fn wf(&self) -> bool {
        self.model().wf()
    }

    /// A board of the given dimensions, every cell white, the ant at the
    /// grid center facing up.
    pub fn create_board(width: usize, height: usize) -> (b: Board)
        requires
            1 <= width,
            1 <= height,
        ensures
            b.wf(),
            b.width == width,
            b.height == height,
            b.model() == initial_model(width as int, height as int),
            b.ant == (width / 2, height / 2, Direction::Up),
    {
        let state = grid::make_grid(width, height);
        let ant = (width / 2, height / 2, Direction::Up);
        Board { state, width, height, ant }
    }

    /// One tick of the ant, computed from this board alone: the cell under
    /// the ant decides the turn, is flipped, and the ant moves one step in
    /// its new heading, wrapping at the edges.
    pub fn update(&self) -> (b: Board)
        requires
            self.wf(),
        ensures
            b.wf(),
            b.width == self.width,
            b.height == self.height,
            b.model() == step_model(self.model()),
    {
        proof {
            grid::lemma_rows_view_wf(self.state@, self.width as int, self.height as int);
        }
        let ghost m = self.model();
        let ax = self.ant.0;
        let ay = self.ant.1;
        let is_white = !self.state[ay][ax];

        let mut dir = self.ant.2;
        if is_white {
            dir.rotate_right();
        } else {
            dir.rotate_left();
        }

        let pos: (usize, usize) = match dir {
            Direction::Up => (
                ax,
                if ay == 0 {
                    self.height - 1
                } else {
                    ay - 1
                },
            ),
            Direction::Down => (
                ax,
                if ay < self.height - 1 {
                    ay + 1
                } else {
                    0
                },
            ),
            Direction::Left => (
                if ax == 0 {
                    self.width - 1
                } else {
                    ax - 1
                },
                ay,
            ),
            Direction::Right => (
                if ax < self.width - 1 {
                    ax + 1
                } else {
                    0
                },
                ay,
            ),
        };

        let ghost target = step_model(m).cells;
        let mut state: Vec<Vec<bool>> = Vec::new();
        let mut y: usize = 0;
        while y < self.height
            invariant
                y <= self.height,
                state@.len() == y,
                m == self.model(),
                grid_wf(m.cells, self.width as int, self.height as int),
                target == step_model(m).cells,
                ax == self.ant.0 < self.width,
                ay == self.ant.1 < self.height,
                is_white == !m.cells[ay as int][ax as int],
                self.state@.len() == self.height,
                forall|i: int| 0 <= i < self.height ==> (#[trigger] self.state@[i])@.len() == self.width,
                forall|i: int| 0 <= i < self.height ==> grid::rows_view(self.state@)[i] == self.state@[i]@,
                forall|i: int| 0 <= i < y ==> (#[trigger] state@[i])@ == target[i],
            decreases self.height - y,
        {
            let mut row: Vec<bool> = Vec::new();
            let mut x: usize = 0;
            while x < self.width
                invariant
                    x <= self.width,
                    y < self.height,
                    row@.len() == x,
                    m == self.model(),
                    grid_wf(m.cells, self.width as int, self.height as int),
                    ax == self.ant.0 < self.width,
                    ay == self.ant.1 < self.height,
                    is_white == !m.cells[ay as int][ax as int],
                    self.state@.len() == self.height,
                    forall|i: int| 0 <= i < self.height ==> (#[trigger] self.state@[i])@.len() == self.width,
                    forall|i: int| 0 <= i < self.height ==> grid::rows_view(self.state@)[i] == self.state@[i]@,
                    forall|j: int|
                        0 <= j < x ==> (#[trigger] row@[j]) == (if j == ax as int && y == ay as int {
                            !m.cells[ay as int][ax as int]
                        } else {
                            m.cells[y as int][j]
                        }),
                decreases self.width - x,
            {
                let cell = if x == ax && y == ay {
                    is_white
                } else {
                    self.state[y][x]
                };
                row.push(cell);
                x += 1;
            }
            proof {
                assert(row@ =~= target[y as int]);
            }
            state.push(row);
            y += 1;
        }
        let b = Board {
            state,
            width: self.width,
            height: self.height,
            ant: (pos.0, pos.1, dir),
        };
        proof {
            assert(grid::rows_view(b.state@) =~= target);
            assert(b.model() == step_model(m));
        }
        b
    }

    /// The bordered text block of the colors, with `'X'` marking the ant's
    /// cell in place of its color glyph.
    pub fn render(&self) -> (r: String)
        requires
            self.wf(),
        ensures
            r@ == render_chars(
                self.model().cells,
                self.width as int,
                self.height as int,
                Option::Some((self.ant.0 as int, self.ant.1 as int)),
            ),
    {
        text::render_grid(
            &self.state,
            self.width,
            self.height,
            Option::Some((self.ant.0, self.ant.1)),
        )
    }
}


/// The first tick on a fresh board: the ant stands on a white cell, so it
/// turns right from Up to Right, leaves its starting cell black, and moves
/// one cell to the right, wrapping at the right edge.
pub proof fn lemma_first_tick_from_start(w: int, h: int)
    requires
        1 <= w,
        1 <= h,
    ensures
        ({
            let m = step_model(initial_model(w, h));
            &&& m.cells[h / 2][w / 2] == true
            &&& m.dir == Direction::Right
            &&& m.y == h / 2
            &&& m.x == (if w / 2 == w - 1 {
                0int
            } else {
                w / 2 + 1
            })
        }),
{
    let m0 = initial_model(w, h);
    assert(0 <= w / 2 < w && 0 <= h / 2 < h);
    assert(!m0.cells[m0.y][m0.x]);
    let m = step_model(m0);
    assert(m.cells[h / 2][w / 2] == true);
}

} // verus!
