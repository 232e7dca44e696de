use vstd::prelude::*;

use crate::args::GOLMethod;

verus! {

/// The mathematical view of a grid held as a vector of rows: one sequence of
/// cells per row, indexed `[row][col]`, `true` meaning alive.
pub open spec fn rows_view(rows: Seq<Vec<bool>>) -> Seq<Seq<bool>> {
    Seq::new(rows.len(), |y: int| rows[y]@)
}

/// A grid is well formed when it has exactly `h` rows of exactly `w` cells.
pub open spec fn grid_wf(s: Seq<Seq<bool>>, w: int, h: int) -> bool {
    &&& s.len() == h
    &&& forall|y: int| 0 <= y < h ==> (#[trigger] s[y]).len() == w
}

/// The all-dead grid of the given dimensions.
pub open spec fn dead_grid(w: int, h: int) -> Seq<Seq<bool>>
    recommends
        0 <= w,
        0 <= h,
{
    Seq::new(h as nat, |y: int| Seq::new(w as nat, |x: int| false))
}

/// Whether `(x, y)` lies inside the grid and holds a live cell. Cells outside
/// the bounds do not exist and are never counted: the grid is not toroidal.
pub open spec fn alive_at(s: Seq<Seq<bool>>, w: int, h: int, x: int, y: int) -> bool {
    0 <= x < w && 0 <= y < h && s[y][x]
}

pub open spec fn one_if(b: bool) -> int {
    if b {
        1
    } else {
        0
    }
}

/// Moore neighborhood: the live count among the 8 surrounding cells, the 4
/// orthogonal and the 4 diagonal ones.
pub open spec fn moore_count(s: Seq<Seq<bool>>, w: int, h: int, x: int, y: int) -> int {
    one_if(alive_at(s, w, h, x - 1, y)) + one_if(alive_at(s, w, h, x + 1, y)) + one_if(
        alive_at(s, w, h, x, y - 1),
    ) + one_if(alive_at(s, w, h, x, y + 1)) + one_if(alive_at(s, w, h, x - 1, y - 1)) + one_if(
        alive_at(s, w, h, x - 1, y + 1),
    ) + one_if(alive_at(s, w, h, x + 1, y - 1)) + one_if(alive_at(s, w, h, x + 1, y + 1))
}

/// Extended Von Neumann neighborhood: the live count among the 4 cells at
/// distance exactly two along each cardinal axis. Despite the name this is
/// not the classical radius-1 Von Neumann neighborhood; the radius-2
/// cardinal-only reading is deliberate.
pub open spec fn neumann_count(s: Seq<Seq<bool>>, w: int, h: int, x: int, y: int) -> int {
    one_if(alive_at(s, w, h, x - 2, y)) + one_if(alive_at(s, w, h, x + 2, y)) + one_if(
        alive_at(s, w, h, x, y - 2),
    ) + one_if(alive_at(s, w, h, x, y + 2))
}

/// The standard Game-of-Life rule: a live cell survives on a count of 2 or 3,
/// a dead cell is born on exactly 3.
pub open spec fn normal_rule(cell: bool, n: int) -> bool {
    if cell {
        2 <= n <= 3
    } else {
        n == 3
    }
}

/// The Day-and-Night rule: a live cell dies iff the count is 0, 1, 2 or 5; a
/// dead cell is born iff the count is 3, 6, 7 or 8.
pub open spec fn dan_rule(cell: bool, n: int) -> bool {
    if cell {
        !(n == 0 || n == 1 || n == 2 || n == 5)
    } else {
        n == 3 || n == 6 || n == 7 || n == 8
    }
}

/// The neighbor count read by `method` at `(x, y)`. Day and Night uses the
/// Moore count whatever the configured topology.
pub open spec fn count_for(
    method: GOLMethod,
    s: Seq<Seq<bool>>,
    w: int,
    h: int,
    x: int,
    y: int,
) -> int {
    match method {
        GOLMethod::VonNeumann => neumann_count(s, w, h, x, y),
        _ => moore_count(s, w, h, x, y),
    }
}

/// The per-cell rule applied by `method`.
pub open spec fn rule_for(method: GOLMethod, cell: bool, n: int) -> bool {
    match method {
        GOLMethod::Dan => dan_rule(cell, n),
        _ => normal_rule(cell, n),
    }
}

/// One simultaneous tick of the automaton: every cell of the new grid is a
/// function of the pre-tick grid alone.
pub open spec fn step(s: Seq<Seq<bool>>, w: int, h: int, method: GOLMethod) -> Seq<Seq<bool>>
    recommends
        0 <= w,
        0 <= h,
{
    Seq::new(
        h as nat,
        |y: int|
            Seq::new(
                w as nat,
                |x: int| rule_for(method, s[y][x], count_for(method, s, w, h, x, y)),
            ),
    )
}

/// Connects well-formedness of the view of a vector of rows with the lengths
/// of the vectors themselves.
pub proof fn lemma_rows_view_wf(rows: Seq<Vec<bool>>, w: int, h: int)
    requires
        grid_wf(rows_view(rows), w, h),
    ensures
        rows.len() == h,
        forall|y: int| 0 <= y < h ==> (#[trigger] rows[y])@.len() == w,
        forall|y: int| 0 <= y < h ==> rows_view(rows)[y] == rows[y]@,
{
    assert forall|y: int| 0 <= y < h implies (#[trigger] rows[y])@.len() == w by {
        assert(rows_view(rows)[y] == rows[y]@);
    }
}

/// Builds the all-dead rows of the given dimensions.
pub fn make_grid(width: usize, height: usize) -> (g: Vec<Vec<bool>>)
    ensures
        rows_view(g@) == dead_grid(width as int, height as int),
        grid_wf(rows_view(g@), width as int, height as int),
{
    let mut g: Vec<Vec<bool>> = Vec::new();
    let mut y: usize = 0;
    while y < height
        invariant
            y <= height,
            g@.len() == y,
            forall|i: int| 0 <= i < y ==> (#[trigger] g@[i])@.len() == width,
            forall|i: int, j: int| 0 <= i < y && 0 <= j < width ==> !(#[trigger] g@[i]@[j]),
        decreases height - y,
    {
        let mut row: Vec<bool> = Vec::new();
        let mut x: usize = 0;
        while x < width
            invariant
                x <= width,
                row@.len() == x,
                forall|j: int| 0 <= j < x ==> !(#[trigger] row@[j]),
            decreases width - x,
        {
            row.push(false);
            x += 1;
        }
        g.push(row);
        y += 1;
    }
    proof {
        assert forall|i: int| 0 <= i < height implies rows_view(g@)[i] =~= dead_grid(
            width as int,
            height as int,
        )[i] by {}
        assert(rows_view(g@) =~= dead_grid(width as int, height as int));
    }
    g
}

/// Moore-8 neighbor count of the cell `(x, y)`: each of the 8 surrounding
/// positions is tested for being in bounds before it is read.
pub fn count_moore(state: &Vec<Vec<bool>>, width: usize, height: usize, x: usize, y: usize) -> (n:
    u8)
    requires
        grid_wf(rows_view(state@), width as int, height as int),
        x < width,
        y < height,
    ensures
        n as int == moore_count(rows_view(state@), width as int, height as int, x as int, y as int),
{
    proof {
        lemma_rows_view_wf(state@, width as int, height as int);
    }
    let left = x != 0;
    let right = width - x > 1;
    let up = y != 0;
    let down = height - y > 1;

    let mut counter: u8 = 0;

    if left && state[y][x - 1] {
        counter += 1;
    }
    if right && state[y][x + 1] {
        counter += 1;
    }
    if up && state[y - 1][x] {
        counter += 1;
    }
    if down && state[y + 1][x] {
        counter += 1;
    }
    if left && up && state[y - 1][x - 1] {
        counter += 1;
    }
    if left && down && state[y + 1][x - 1] {
        counter += 1;
    }
    if right && up && state[y - 1][x + 1] {
        counter += 1;
    }
    if right && down && state[y + 1][x + 1] {
        counter += 1;
    }

    counter
}

/// Extended Von Neumann neighbor count of the cell `(x, y)`: the 4 positions
/// at distance two along the cardinal axes, each tested for being in bounds
/// before it is read.
pub fn count_neumann(state: &Vec<Vec<bool>>, width: usize, height: usize, x: usize, y: usize) -> (n:
    u8)
    requires
        grid_wf(rows_view(state@), width as int, height as int),
        x < width,
        y < height,
    ensures
        n as int == neumann_count(
            rows_view(state@),
            width as int,
            height as int,
            x as int,
            y as int,
        ),
{
    proof {
        lemma_rows_view_wf(state@, width as int, height as int);
    }
    let more_left = x >= 2;
    let more_right = width - x > 2;
    let more_up = y >= 2;
    let more_down = height - y > 2;

    let mut counter: u8 = 0;

    if more_left && state[y][x - 2] {
        counter += 1;
    }
    if more_right && state[y][x + 2] {
        counter += 1;
    }
    if more_up && state[y - 2][x] {
        counter += 1;
    }
    if more_down && state[y + 2][x] {
        counter += 1;
    }

    counter
}


/// One full-grid tick under `method`: all cells of the new rows are computed
/// from the pre-tick rows alone, never from partially updated ones.
pub fn step_grid(state: &Vec<Vec<bool>>, width: usize, height: usize, method: GOLMethod) -> (g: Vec<
    Vec<bool>,
>)
    requires
        grid_wf(rows_view(state@), width as int, height as int),
    ensures
        rows_view(g@) == step(rows_view(state@), width as int, height as int, method),
        grid_wf(rows_view(g@), width as int, height as int),
{
    proof {
        lemma_rows_view_wf(state@, width as int, height as int);
    }
    let ghost s = rows_view(state@);
    let mut g: Vec<Vec<bool>> = Vec::new();
    let mut y: usize = 0;
    while y < height
        invariant
            y <= height,
            g@.len() == y,
            s == rows_view(state@),
            grid_wf(s, width as int, height as int),
            state@.len() == height,
            forall|i: int| 0 <= i < height ==> (#[trigger] state@[i])@.len() == width,
            forall|i: int| 0 <= i < height ==> rows_view(state@)[i] == state@[i]@,
            forall|i: int|
                0 <= i < y ==> (#[trigger] g@[i])@ == step(
                    s,
                    width as int,
                    height as int,
                    method,
                )[i],
        decreases height - y,
    {
        let mut row: Vec<bool> = Vec::new();
        let mut x: usize = 0;
        while x < width
            invariant
                x <= width,
                y < height,
                row@.len() == x,
                s == rows_view(state@),
                grid_wf(s, width as int, height as int),
                state@.len() == height,
                forall|i: int| 0 <= i < height ==> (#[trigger] state@[i])@.len() == width,
                forall|i: int| 0 <= i < height ==> rows_view(state@)[i] == state@[i]@,
                forall|j: int|
                    0 <= j < x ==> (#[trigger] row@[j]) == rule_for(
                        method,
                        s[y as int][j],
                        count_for(method, s, width as int, height as int, j, y as int),
                    ),
            decreases width - x,
        {
            let cell = state[y][x];
            let n: u8 = match method {
                GOLMethod::VonNeumann => count_neumann(state, width, height, x, y),
                _ => count_moore(state, width, height, x, y),
            };
            let new_cell: bool = match method {
                GOLMethod::Dan => {
                    if cell {
                        !(n == 0 || n == 1 || n == 2 || n == 5)
                    } else {
                        n == 3 || n == 6 || n == 7 || n == 8
                    }
                },
                _ => {
                    if cell {
                        n >= 2 && n <= 3
                    } else {
                        n == 3
                    }
                },
            };
            row.push(new_cell);
            x += 1;
        }
        proof {
            assert(row@ =~= step(s, width as int, height as int, method)[y as int]);
        }
        g.push(row);
        y += 1;
    }
    proof {
        assert(rows_view(g@) =~= step(s, width as int, height as int, method));
    }
    g
}


/// Relies on rand::random::<bool>: an unbiased coin flip drawn from the
/// thread-local generator. Nothing is promised of the outcome.
#[verifier::external_body]
fn coin_flip() -> bool {
    rand::random()
}

/// Builds rows of the given dimensions where every cell is set by an
/// independent coin flip.
pub fn random_grid(width: usize, height: usize) -> (g: Vec<Vec<bool>>)
    ensures
        grid_wf(rows_view(g@), width as int, height as int),
{
    let mut g: Vec<Vec<bool>> = Vec::new();
    let mut y: usize = 0;
    while y < height
        invariant
            y <= height,
            g@.len() == y,
            forall|i: int| 0 <= i < y ==> (#[trigger] g@[i])@.len() == width,
        decreases height - y,
    {
        let mut row: Vec<bool> = Vec::new();
        let mut x: usize = 0;
        while x < width
            invariant
                x <= width,
                row@.len() == x,
            decreases width - x,
        {
            row.push(coin_flip());
            x += 1;
        }
        g.push(row);
        y += 1;
    }
    proof {
        assert forall|i: int| 0 <= i < height implies (#[trigger] rows_view(g@)[i]).len()
            == width by {
            assert(rows_view(g@)[i] == g@[i]@);
        }
    }
    g
}


/// A transition never changes the dimensions: one tick of a well-formed grid
/// is well formed at the same width and height, and so is a second tick of
/// the result.
pub proof fn lemma_step_preserves_dimensions(s: Seq<Seq<bool>>, w: int, h: int, method: GOLMethod)
    requires
        grid_wf(s, w, h),
        0 <= w,
        0 <= h,
    ensures
        grid_wf(step(s, w, h, method), w, h),
        grid_wf(step(step(s, w, h, method), w, h, method), w, h),
{
}

/// No spontaneous birth: the all-dead grid maps to itself under the Normal
/// rule.
pub proof fn lemma_dead_grid_fixed(w: int, h: int)
    requires
        0 <= w,
        0 <= h,
    ensures
        step(dead_grid(w, h), w, h, GOLMethod::Normal) == dead_grid(w, h),
{
    let s = dead_grid(w, h);
    assert forall|y: int| 0 <= y < h implies step(s, w, h, GOLMethod::Normal)[y] =~= s[y] by {
        assert forall|x: int| 0 <= x < w implies step(s, w, h, GOLMethod::Normal)[y][x]
            == s[y][x] by {
            assert(moore_count(s, w, h, x, y) == 0);
        }
    }
    assert(step(s, w, h, GOLMethod::Normal) =~= s);
}

/// The Moore count at the corner `(0, 0)` of any grid never exceeds 3: only
/// the three neighbors inside the bounds can count, and positions outside
/// the grid never do.
pub proof fn lemma_corner_count_caps(s: Seq<Seq<bool>>, w: int, h: int)
    requires
        grid_wf(s, w, h),
        1 <= w,
        1 <= h,
    ensures
        0 <= moore_count(s, w, h, 0, 0) <= 3,
{
}

} // verus!
