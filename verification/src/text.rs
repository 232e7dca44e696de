use vstd::prelude::*;

use crate::grid::{grid_wf, rows_view, lemma_rows_view_wf};

verus! {

/// The glyph of one cell: `'#'` for alive, a space for dead.
pub open spec fn glyph(cell: bool) -> char {
    if cell {
        '#'
    } else {
        ' '
    }
}

/// The glyph drawn at `(x, y)`: a marker overrides the cell glyph at the
/// marker's position.
pub open spec fn glyph_at(
    s: Seq<Seq<bool>>,
    marker: Option<(int, int)>,
    x: int,
    y: int,
) -> char {
    match marker {
        Option::Some(p) => if p.0 == x && p.1 == y {
            'X'
        } else {
            glyph(s[y][x])
        },
        Option::None => glyph(s[y][x]),
    }
}

/// The characters of one framed row: `'|'`, one glyph per cell, `'|'` and a
/// newline.
pub open spec fn row_chars(
    s: Seq<Seq<bool>>,
    w: int,
    marker: Option<(int, int)>,
    y: int,
) -> Seq<char> {
    seq!['|'] + Seq::new(w as nat, |x: int| glyph_at(s, marker, x, y)) + seq!['|', '\n']
}

/// The framed rows before row `upto`, concatenated top to bottom.
pub open spec fn rows_chars(
    s: Seq<Seq<bool>>,
    w: int,
    marker: Option<(int, int)>,
    upto: int,
) -> Seq<char>
    decreases upto,
{
    if upto <= 0 {
        Seq::empty()
    } else {
        rows_chars(s, w, marker, upto - 1) + row_chars(s, w, marker, upto - 1)
    }
}

/// `n` dashes.
pub open spec fn dashes(n: int) -> Seq<char> {
    Seq::new(n as nat, |i: int| '-')
}

/// The rendered text block: a top divider of `w + 2` dashes, a newline, the
/// framed rows, and a bottom divider identical to the top one.
pub open spec fn render_chars(
    s: Seq<Seq<bool>>,
    w: int,
    h: int,
    marker: Option<(int, int)>,
) -> Seq<char> {
    dashes(w + 2) + seq!['\n'] + rows_chars(s, w, marker, h) + dashes(w + 2)
}

/// The view of an executable marker position.
pub open spec fn marker_view(m: Option<(usize, usize)>) -> Option<(int, int)> {
    match m {
        Option::Some(p) => Option::Some((p.0 as int, p.1 as int)),
        Option::None => Option::None,
    }
}

/// Whether `t` holds no newline.
pub open spec fn no_newline(t: Seq<char>) -> bool {
    forall|i: int| 0 <= i < t.len() ==> t[i] != '\n'
}

/// The lines of `t`: `'\n'` separates rows, and a newline at the very end
/// does not open a blank trailing row.
pub open spec fn split_lines(t: Seq<char>) -> Seq<Seq<char>>
    decreases t.len(),
{
    if t.len() == 0 {
        Seq::empty()
    } else if t[0] == '\n' {
        seq![Seq::<char>::empty()] + split_lines(t.skip(1))
    } else {
        let rest = split_lines(t.skip(1));
        if rest.len() == 0 {
            seq![seq![t[0]]]
        } else {
            seq![seq![t[0]] + rest[0]] + rest.skip(1)
        }
    }
}

/// A nonempty text without a newline is a single line.
pub proof fn lemma_split_single(t: Seq<char>)
    requires
        t.len() > 0,
        no_newline(t),
    ensures
        split_lines(t) == seq![t],
    decreases t.len(),
{
    assert(t[0] != '\n');
    if t.len() == 1 {
        assert(t.skip(1) =~= Seq::<char>::empty());
        assert(split_lines(t.skip(1)) =~= Seq::<Seq<char>>::empty());
        assert(seq![t[0]] =~= t);
        assert(split_lines(t) =~= seq![t]);
    } else {
        lemma_split_single(t.skip(1));
        let rest = split_lines(t.skip(1));
        assert(rest == seq![t.skip(1)]);
        assert(seq![t[0]] + rest[0] =~= t);
        assert(rest.skip(1) =~= Seq::<Seq<char>>::empty());
        assert(split_lines(t) =~= seq![t]);
    }
}

/// Splitting a line, a newline and a remainder yields the line followed by
/// the lines of the remainder.
pub proof fn lemma_split_line(l: Seq<char>, r: Seq<char>)
    requires
        no_newline(l),
    ensures
        split_lines(l + seq!['\n'] + r) == seq![l] + split_lines(r),
    decreases l.len(),
{
    let t = l + seq!['\n'] + r;
    if l.len() == 0 {
        assert(t[0] == '\n');
        assert(t.skip(1) =~= r);
        assert(l =~= Seq::<char>::empty());
        assert(split_lines(t) =~= seq![l] + split_lines(r));
    } else {
        assert(t[0] == l[0]);
        assert(t[0] != '\n');
        lemma_split_line(l.skip(1), r);
        assert(t.skip(1) =~= l.skip(1) + seq!['\n'] + r);
        let rest = split_lines(t.skip(1));
        assert(rest == seq![l.skip(1)] + split_lines(r));
        assert(rest[0] == l.skip(1));
        assert(seq![t[0]] + rest[0] =~= l);
        assert(rest.skip(1) =~= split_lines(r));
        assert(split_lines(t) =~= seq![l] + split_lines(r));
    }
}

/// Whether every line has the length of the first.
pub open spec fn rectangular(ls: Seq<Seq<char>>) -> bool {
    forall|i: int| 0 <= i < ls.len() ==> (#[trigger] ls[i]).len() == ls[0].len()
}

/// The cell pattern of the lines: a literal `'0'` means dead, every other
/// character means alive.
pub open spec fn cells_of_lines(ls: Seq<Seq<char>>) -> Seq<Seq<bool>> {
    Seq::new(ls.len(), |y: int| Seq::new(ls[y].len(), |x: int| ls[y][x] != '0'))
}

/// Whether a text parses to a grid: at least one line, a nonempty first
/// line, and all lines of equal length.
pub open spec fn parse_ok(t: Seq<char>) -> bool {
    &&& split_lines(t).len() > 0
    &&& split_lines(t)[0].len() > 0
    &&& rectangular(split_lines(t))
}

/// Parses a newline-separated text into rows of cells, with the width of the
/// first line and the number of lines. An empty text or an empty first line
/// is rejected as a degenerate dimension; unequal line lengths are rejected
/// as a malformed file rather than padded.
pub fn parse_grid(text: &str) -> (r: Result<(Vec<Vec<bool>>, usize, usize), crate::GOLError>)
    ensures
        parse_ok(text@) ==> {
            &&& r is Ok
            &&& rows_view(r->Ok_0.0@) == cells_of_lines(split_lines(text@))
            &&& r->Ok_0.1 == split_lines(text@)[0].len()
            &&& r->Ok_0.2 == split_lines(text@).len()
            &&& grid_wf(rows_view(r->Ok_0.0@), r->Ok_0.1 as int, r->Ok_0.2 as int)
        },
        (split_lines(text@).len() == 0 || split_lines(text@)[0].len() == 0) ==> r is Err
            && r->Err_0 == crate::GOLError::InvalidDimension,
        (split_lines(text@).len() > 0 && split_lines(text@)[0].len() > 0 && !rectangular(
            split_lines(text@),
        )) ==> r is Err && r->Err_0 == crate::GOLError::InvalidFile,
{
    let len = text.unicode_len();
    let mut rows: Vec<Vec<bool>> = Vec::new();
    let ghost mut lines: Seq<Seq<char>> = Seq::empty();
    let mut i: usize = 0;
    proof {
        assert(text@.skip(0) =~= text@);
        assert(lines + split_lines(text@) =~= split_lines(text@));
    }
    while i < len
        invariant
            i <= len,
            len == text@.len(),
            split_lines(text@) == lines + split_lines(text@.skip(i as int)),
            rows@.len() == lines.len(),
            forall|k: int| 0 <= k < lines.len() ==> (#[trigger] rows@[k])@.len() == lines[k].len(),
            forall|k: int, j: int|
                0 <= k < lines.len() && 0 <= j < lines[k].len() ==> rows@[k]@[j] == (lines[k][j]
                    != '0'),
        decreases len - i,
    {
        let ghost line_start = i as int;
        let mut row: Vec<bool> = Vec::new();
        let ghost mut cur: Seq<char> = Seq::empty();
        let mut saw_newline = false;
        proof {
            assert(text@.subrange(line_start, i as int) =~= cur);
        }
        while !saw_newline && i < len
            invariant
                0 <= line_start <= i as int <= len,
                len == text@.len(),
                no_newline(cur),
                row@.len() == cur.len(),
                forall|j: int| 0 <= j < cur.len() ==> row@[j] == (cur[j] != '0'),
                !saw_newline ==> cur == text@.subrange(line_start, i as int),
                saw_newline ==> line_start < i as int && cur == text@.subrange(
                    line_start,
                    i as int - 1,
                ) && text@[i as int - 1] == '\n',
            decreases len - i + if saw_newline {
                0int
            } else {
                1int
            },
        {
            let c = text.get_char(i);
            if c == '\n' {
                saw_newline = true;
                i += 1;
            } else {
                row.push(c != '0');
                proof {
                    cur = cur + seq![c];
                    assert(cur =~= text@.subrange(line_start, i + 1));
                }
                i += 1;
            }
        }
        proof {
            if saw_newline {
                assert(text@.skip(line_start) =~= cur + seq!['\n'] + text@.skip(i as int));
                lemma_split_line(cur, text@.skip(i as int));
            } else {
                assert(text@.skip(line_start) =~= cur);
                assert(cur.len() > 0);
                lemma_split_single(cur);
                assert(text@.skip(len as int) =~= Seq::<char>::empty());
                assert(split_lines(text@.skip(i as int)) =~= Seq::<Seq<char>>::empty());
                assert(split_lines(text@.skip(line_start)) =~= seq![cur] + split_lines(
                    text@.skip(i as int),
                ));
            }
            lines = lines + seq![cur];
            assert(split_lines(text@) =~= lines + split_lines(text@.skip(i as int)));
        }
        rows.push(row);
    }
    proof {
        assert(text@.skip(len as int) =~= Seq::<char>::empty());
        assert(split_lines(text@) =~= lines);
    }
    if rows.len() == 0 {
        return Err(crate::GOLError::InvalidDimension);
    }
    let width = rows[0].len();
    if width == 0 {
        return Err(crate::GOLError::InvalidDimension);
    }
    let height = rows.len();
    let mut k: usize = 1;
    while k < height
        invariant
            1 <= k <= height,
            height == rows@.len(),
            rows@.len() == lines.len(),
            lines == split_lines(text@),
            0 < width,
            width == lines[0].len(),
            forall|j: int| 0 <= j < lines.len() ==> (#[trigger] rows@[j])@.len() == lines[j].len(),
            forall|j: int| 0 <= j < k ==> (#[trigger] lines[j]).len() == lines[0].len(),
        decreases height - k,
    {
        if rows[k].len() != width {
            return Err(crate::GOLError::InvalidFile);
        }
        k += 1;
    }
    proof {
        assert(rectangular(lines));
        assert forall|y: int| 0 <= y < lines.len() implies rows_view(rows@)[y] =~= cells_of_lines(
            lines,
        )[y] by {
            assert(rows_view(rows@)[y] == rows@[y]@);
        }
        assert(rows_view(rows@) =~= cells_of_lines(lines));
    }
    Ok((rows, width, height))
}


/// The framed rows before `upto` hold `upto * (w + 3)` characters.
proof fn lemma_rows_chars_len(s: Seq<Seq<bool>>, w: int, marker: Option<(int, int)>, upto: int)
    requires
        0 <= w,
        0 <= upto,
    ensures
        rows_chars(s, w, marker, upto).len() == upto * (w + 3),
    decreases upto,
{
    if upto > 0 {
        lemma_rows_chars_len(s, w, marker, upto - 1);
        assert(row_chars(s, w, marker, upto - 1).len() == w + 3);
        assert((upto - 1) * (w + 3) + (w + 3) == upto * (w + 3)) by (nonlinear_arith);
    } else {
        assert(upto * (w + 3) == 0) by (nonlinear_arith)
            requires
                upto == 0,
        ;
    }
}

/// The glyph of cell `(x, y)` stands at offset `y * (w + 3) + 1 + x` of the
/// framed rows.
proof fn lemma_rows_chars_index(
    s: Seq<Seq<bool>>,
    w: int,
    marker: Option<(int, int)>,
    upto: int,
    x: int,
    y: int,
)
    requires
        0 <= w,
        0 <= x < w,
        0 <= y < upto,
    ensures
        rows_chars(s, w, marker, upto)[y * (w + 3) + 1 + x] == glyph_at(s, marker, x, y),
    decreases upto,
{
    lemma_rows_chars_len(s, w, marker, upto - 1);
    let prefix = rows_chars(s, w, marker, upto - 1);
    let rc = row_chars(s, w, marker, upto - 1);
    if y == upto - 1 {
        assert(y * (w + 3) + 1 + x - prefix.len() == 1 + x);
        assert(rc[1 + x] == glyph_at(s, marker, x, y));
        assert((prefix + rc)[y * (w + 3) + 1 + x] == rc[1 + x]);
    } else {
        lemma_rows_chars_index(s, w, marker, upto - 1, x, y);
        assert(y * (w + 3) + 1 + x < (upto - 1) * (w + 3)) by (nonlinear_arith)
            requires
                0 <= w,
                0 <= x < w,
                0 <= y < upto - 1,
        ;
        assert((prefix + rc)[y * (w + 3) + 1 + x] == prefix[y * (w + 3) + 1 + x]);
    }
}

/// The offset of the glyph of cell `(x, y)` inside the rendered block: past
/// the top divider and its newline, `y` full framed rows, and the left
/// frame of the row.
pub open spec fn cell_pos(w: int, x: int, y: int) -> int {
    (w + 3) + y * (w + 3) + 1 + x
}

/// Round trip: rendering a parsed text reproduces the text's alive/dead
/// pattern, with `'#'` exactly at the cells whose character was not `'0'`
/// and a space at the others.
pub proof fn lemma_render_reproduces_text(t: Seq<char>)
    requires
        parse_ok(t),
    ensures
        ({
            let ls = split_lines(t);
            let g = cells_of_lines(ls);
            let w = ls[0].len() as int;
            let h = ls.len() as int;
            forall|x: int, y: int|
                0 <= x < w && 0 <= y < h ==> render_chars(g, w, h, Option::None)[cell_pos(w, x, y)]
                    == (if ls[y][x] != '0' {
                    '#'
                } else {
                    ' '
                })
        }),
{
    let ls = split_lines(t);
    let g = cells_of_lines(ls);
    let w = ls[0].len() as int;
    let h = ls.len() as int;
    assert forall|x: int, y: int| 0 <= x < w && 0 <= y < h implies render_chars(
        g,
        w,
        h,
        Option::None,
    )[cell_pos(w, x, y)] == (if ls[y][x] != '0' {
        '#'
    } else {
        ' '
    }) by {
        lemma_rows_chars_len(g, w, Option::None, h);
        lemma_rows_chars_index(g, w, Option::None, h, x, y);
        let head = dashes(w + 2) + seq!['\n'];
        assert(head.len() == w + 3);
        assert(0 <= y * (w + 3) + 1 + x < h * (w + 3)) by (nonlinear_arith)
            requires
                0 <= w,
                0 <= x < w,
                0 <= y < h,
        ;
        assert((head + rows_chars(g, w, Option::None, h) + dashes(w + 2))[cell_pos(w, x, y)]
            == rows_chars(g, w, Option::None, h)[y * (w + 3) + 1 + x]);
        assert(render_chars(g, w, h, Option::None) =~= head + rows_chars(g, w, Option::None, h)
            + dashes(w + 2));
        assert(ls[y].len() == w);
        assert(g[y][x] == (ls[y][x] != '0'));
    }
}

/// Appends `n` dashes to `out`.
fn append_dashes(out: &mut String, n: usize)
    ensures
        final(out)@ == old(out)@ + dashes(n as int),
{
    let ghost orig = out@;
    let mut i: usize = 0;
    proof {
        assert(orig + dashes(0) =~= orig);
    }
    while i < n
        invariant
            i <= n,
            out@ == orig + dashes(i as int),
        decreases n - i,
    {
        out.append("-");
        proof {
            reveal_strlit("-");
            assert(orig + dashes(i as int) + "-"@ =~= orig + dashes(i + 1));
        }
        i += 1;
    }
}

/// Renders the rows as the bordered text block, with an optional marker
/// overriding the glyph at its position.
pub fn render_grid(
    state: &Vec<Vec<bool>>,
    width: usize,
    height: usize,
    marker: Option<(usize, usize)>,
) -> (r: String)
    requires
        grid_wf(rows_view(state@), width as int, height as int),
    ensures
        r@ == render_chars(
            rows_view(state@),
            width as int,
            height as int,
            marker_view(marker),
        ),
{
    proof {
        lemma_rows_view_wf(state@, width as int, height as int);
    }
    let ghost s = rows_view(state@);
    let ghost m = marker_view(marker);
    let mut out = String::new();
    append_dashes(&mut out, width);
    out.append("--");
    out.append("\n");
    let ghost base = dashes(width + 2) + seq!['\n'];
    proof {
        reveal_strlit("--");
        reveal_strlit("\n");
        assert(out@ =~= base);
        assert(base + rows_chars(s, width as int, m, 0) =~= base);
    }
    let mut y: usize = 0;
    while y < height
        invariant
            y <= height,
            s == rows_view(state@),
            m == marker_view(marker),
            grid_wf(s, width as int, height as int),
            state@.len() == height,
            forall|i: int| 0 <= i < height ==> (#[trigger] state@[i])@.len() == width,
            forall|i: int| 0 <= i < height ==> rows_view(state@)[i] == state@[i]@,
            out@ == base + rows_chars(s, width as int, m, y as int),
        decreases height - y,
    {
        out.append("|");
        let ghost row_base = base + rows_chars(s, width as int, m, y as int) + seq!['|'];
        proof {
            reveal_strlit("|");
            assert(out@ =~= row_base);
        }
        let mut x: usize = 0;
        while x < width
            invariant
                x <= width,
                y < height,
                s == rows_view(state@),
                m == marker_view(marker),
                grid_wf(s, width as int, height as int),
                state@.len() == height,
                forall|i: int| 0 <= i < height ==> (#[trigger] state@[i])@.len() == width,
                forall|i: int| 0 <= i < height ==> rows_view(state@)[i] == state@[i]@,
                row_base == base + rows_chars(s, width as int, m, y as int) + seq!['|'],
                out@ == row_base + Seq::new(x as nat, |j: int| glyph_at(s, m, j, y as int)),
            decreases width - x,
        {
            let is_marker = match marker {
                Option::Some(p) => p.0 == x && p.1 == y,
                Option::None => false,
            };
            if is_marker {
                out.append("X");
                proof {
                    reveal_strlit("X");
                }
            } else if state[y][x] {
                out.append("#");
                proof {
                    reveal_strlit("#");
                }
            } else {
                out.append(" ");
                proof {
                    reveal_strlit(" ");
                }
            }
            proof {
                assert(out@ =~= row_base + Seq::new(
                    (x + 1) as nat,
                    |j: int| glyph_at(s, m, j, y as int),
                ));
            }
            x += 1;
        }
        out.append("|");
        out.append("\n");
        proof {
            reveal_strlit("|");
            reveal_strlit("\n");
            assert(out@ =~= base + rows_chars(s, width as int, m, y as int) + row_chars(
                s,
                width as int,
                m,
                y as int,
            ));
        }
        y += 1;
    }
    append_dashes(&mut out, width);
    out.append("--");
    proof {
        reveal_strlit("--");
        assert(out@ =~= render_chars(s, width as int, height as int, m));
    }
    out
}

} // verus!
