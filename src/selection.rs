//! Screen and buffer coordinates, mouse selections and the text they cover.
use vstd::prelude::*;
use crate::text::{chars_of, line_views, string_of};

verus! {

/// `x` floored at zero.
pub open spec fn sat(x: int) -> int {
    if x < 0 {
        0
    } else {
        x
    }
}

/// A position in the whole document: column `x` of row `y`.
#[derive(Clone, Copy, PartialEq, Eq, Structural, Debug)]
pub struct PositionAbsolut {
    pub x: usize,
    pub y: usize,
}

/// A terminal cell: column `x` of screen row `y`.
#[derive(Clone, Copy, PartialEq, Eq, Structural, Debug)]
pub struct PositionScreen {
    pub x: usize,
    pub y: usize,
}

impl PositionAbsolut {
    pub fn new(x: usize, y: usize) -> (r: Self)
        ensures
            r.x == x,
            r.y == y,
    {
        PositionAbsolut { x, y }
    }

    /// The document position under a cell: the row moves down by the
    /// scroll offset, and the paddings are taken off (floored at zero).
    pub fn from_screen(
        position: PositionScreen,
        scroll_offset: usize,
        padding_x: usize,
        padding_y: usize,
    ) -> (r: Self)
        requires
            position.y + scroll_offset <= usize::MAX,
        ensures
            r.x == sat(position.x - padding_x),
            r.y == sat(position.y + scroll_offset - padding_y),
    {
        Self::new(
            position.x.saturating_sub(padding_x),
            (position.y + scroll_offset).saturating_sub(padding_y),
        )
    }

    /// The cell that shows this position: the paddings are added, and the
    /// row moves up by the scroll offset (floored at zero).
    pub fn into_screen(self, scroll_offset: usize, padding_x: usize, padding_y: usize) -> (r:
        PositionScreen)
        requires
            self.x + padding_x <= usize::MAX,
            self.y + padding_y <= usize::MAX,
        ensures
            r.x == self.x + padding_x,
            r.y == sat(self.y + padding_y - scroll_offset),
    {
        PositionScreen::new(self.x + padding_x, (self.y + padding_y).saturating_sub(scroll_offset))
    }
}

impl PositionScreen {
    pub fn new(x: usize, y: usize) -> (r: Self)
        ensures
            r.x == x,
            r.y == y,
    {
        PositionScreen { x, y }
    }
}

/// `a` comes strictly before `b` in reading order: row first, then column.
pub open spec fn before(a: PositionAbsolut, b: PositionAbsolut) -> bool {
    a.y < b.y || (a.y == b.y && a.x < b.x)
}

/// The two ends of a selection in reading order, whichever way it was dragged.
pub open spec fn normalize(s: PositionAbsolut, e: PositionAbsolut) -> (
    PositionAbsolut,
    PositionAbsolut,
) {
    if before(e, s) {
        (e, s)
    } else {
        (s, e)
    }
}

/// Normalizing does not depend on the order of the two ends.
pub proof fn lemma_normalize_commutes(s: PositionAbsolut, e: PositionAbsolut)
    ensures
        normalize(s, e) == normalize(e, s),
        !before(normalize(s, e).1, normalize(s, e).0),
{
}

/// A selection: where the mouse went down, and where it is now.
#[derive(Clone, Copy, Debug)]
pub struct Selection {
    pub start: PositionAbsolut,
    pub end: PositionAbsolut,
}


/// The cell `a` comes strictly before the cell `b` in reading order.
pub open spec fn screen_before(a: PositionScreen, b: PositionScreen) -> bool {
    a.y < b.y || (a.y == b.y && a.x < b.x)
}

/// The cell `c` lies in the band of columns `[min_x, max_x)` and rows
/// `[min_y, max_y)`, and between the cells `s` and `e`, both included.
pub open spec fn in_view(
    c: PositionScreen,
    s: PositionScreen,
    e: PositionScreen,
    min_x: usize,
    max_x: usize,
    min_y: usize,
    max_y: usize,
) -> bool {
    &&& min_x <= c.x < max_x
    &&& min_y <= c.y < max_y
    &&& !screen_before(c, s)
    &&& !screen_before(e, c)
}

/// Each cell comes strictly before the next.
pub open spec fn cells_sorted(v: Seq<PositionScreen>) -> bool {
    forall|i: int, j: int| 0 <= i < j < v.len() ==> screen_before(#[trigger] v[i], #[trigger] v[j])
}

proof fn lemma_push_contains(v: Seq<PositionScreen>, x: PositionScreen, c: PositionScreen)
    ensures
        v.push(x).contains(c) <==> (v.contains(c) || c == x),
{
    if v.contains(c) {
        let k = choose|k: int| 0 <= k < v.len() && v[k] == c;
        assert(v.push(x)[k] == c);
    }
    if c == x {
        assert(v.push(x)[v.len() as int] == c);
    }
    if v.push(x).contains(c) {
        let k = choose|k: int| 0 <= k < v.len() + 1 && v.push(x)[k] == c;
        if k < v.len() {
            assert(v[k] == c);
        }
    }
}

impl Selection {
    pub fn new(start: PositionAbsolut, end: PositionAbsolut) -> (r: Self)
        ensures
            r.start == start,
            r.end == end,
    {
        Selection { start, end }
    }

    /// The ends in reading order.
    pub open spec fn normalized(&self) -> (PositionAbsolut, PositionAbsolut) {
        normalize(self.start, self.end)
    }

    /// The end lies before the start.
    pub fn is_reversed(&self) -> (r: bool)
        ensures
            r == before(self.end, self.start),
    {
        self.end.y < self.start.y || (self.end.y == self.start.y && self.end.x < self.start.x)
    }

    /// The first end in reading order.
    pub fn start(&self) -> (r: PositionAbsolut)
        ensures
            r == self.normalized().0,
    {
        if self.is_reversed() {
            self.end
        } else {
            self.start
        }
    }

    /// The last end in reading order.
    pub fn end(&self) -> (r: PositionAbsolut)
        ensures
            r == self.normalized().1,
    {
        if self.is_reversed() {
            self.start
        } else {
            self.end
        }
    }

    /// The ends in reading order, moved to the screen.
    pub open spec fn screen_ends(&self, offset_y: usize, padding_x: usize, padding_y: usize) -> (
        PositionScreen,
        PositionScreen,
    ) {
        (
            self.normalized().0.into_spec_screen(offset_y, padding_x, padding_y),
            self.normalized().1.into_spec_screen(offset_y, padding_x, padding_y),
        )
    }

    /// The cells to highlight: those of the band of columns `[min_x, max_x)`
    /// and rows `[min_y, max_y)` that lie between the two ends on screen,
    /// both included, in reading order.
    pub fn iter_on_screen(
        &self,
        min_x: usize,
        max_x: usize,
        min_y: usize,
        max_y: usize,
        offset_y: usize,
        padding_x: usize,
        padding_y: usize,
    ) -> (r: Vec<PositionScreen>)
        requires
            self.start.x + padding_x <= usize::MAX,
            self.start.y + padding_y <= usize::MAX,
            self.end.x + padding_x <= usize::MAX,
            self.end.y + padding_y <= usize::MAX,
        ensures
            cells_sorted(r@),
            forall|c: PositionScreen|
                r@.contains(c) <==> in_view(
                    c,
                    self.screen_ends(offset_y, padding_x, padding_y).0,
                    self.screen_ends(offset_y, padding_x, padding_y).1,
                    min_x,
                    max_x,
                    min_y,
                    max_y,
                ),
    {
        let s = self.start().into_screen(offset_y, padding_x, padding_y);
        let e = self.end().into_screen(offset_y, padding_x, padding_y);
        let mut out: Vec<PositionScreen> = Vec::new();
        let mut y = if s.y > min_y {
            s.y
        } else {
            min_y
        };
        while y < max_y && y <= e.y
            invariant
                min_y <= y,
                s.y <= y,
                cells_sorted(out@),
                forall|k: int| 0 <= k < out@.len() ==> (#[trigger] out@[k]).y < y,
                forall|c: PositionScreen|
                    out@.contains(c) <==> (in_view(c, s, e, min_x, max_x, min_y, max_y) && c.y < y),
            decreases max_y - y,
        {
            let x_from = if y == s.y && s.x > min_x {
                s.x
            } else {
                min_x
            };
            let x_to = if y == e.y && e.x < max_x {
                e.x + 1
            } else {
                max_x
            };
            let mut x = x_from;
            while x < x_to
                invariant
                    x_from <= x,
                    y < max_y,
                    y <= e.y,
                    min_y <= y,
                    s.y <= y,
                    x_from == (if y == s.y && s.x > min_x { s.x } else { min_x }),
                    x_to == (if y == e.y && e.x < max_x { e.x + 1 } else { max_x as int }),
                    cells_sorted(out@),
                    forall|k: int| 0 <= k < out@.len() ==> screen_before(#[trigger] out@[k], PositionScreen { x, y }),
                    forall|c: PositionScreen|
                        out@.contains(c) <==> (in_view(c, s, e, min_x, max_x, min_y, max_y) && (c.y < y
                            || (c.y == y && c.x < x))),
                decreases x_to - x,
            {
                let ghost before = out@;
                let cell = PositionScreen { x, y };
                out.push(cell);
                proof {
                    assert forall|c: PositionScreen|
                        out@.contains(c) <==> (in_view(c, s, e, min_x, max_x, min_y, max_y) && (c.y < y
                            || (c.y == y && c.x < x + 1))) by {
                        lemma_push_contains(before, cell, c);
                    }
                }
                x = x + 1;
            }
            proof {
                assert forall|c: PositionScreen|
                    out@.contains(c) <==> (in_view(c, s, e, min_x, max_x, min_y, max_y) && c.y < y + 1) by {
                    if in_view(c, s, e, min_x, max_x, min_y, max_y) && c.y == y {
                        assert(c.x < x);
                    }
                }
            }
            y = y + 1;
        }
        proof {
            assert forall|c: PositionScreen|
                out@.contains(c) <==> in_view(c, s, e, min_x, max_x, min_y, max_y) by {
                if in_view(c, s, e, min_x, max_x, min_y, max_y) {
                    assert(c.y < y);
                }
            }
        }
        out
    }
}

impl PositionAbsolut {
    /// The cell of `into_screen`, as a spec function.
    pub open spec fn into_spec_screen(self, scroll_offset: usize, padding_x: usize, padding_y: usize) -> PositionScreen {
        PositionScreen {
            x: (self.x + padding_x) as usize,
            y: sat(self.y + padding_y - scroll_offset) as usize,
        }
    }
}

/// `c` held to the last column of a line of `n` characters.
pub open spec fn clip(n: int, c: int) -> int {
    if c < sat(n - 1) {
        c
    } else {
        sat(n - 1)
    }
}

/// What row `row`, holding `line`, gives to the text between `s` and `e`
/// (in reading order): the tail of the first row from its column, each
/// middle row whole, the head of the last row up to and including its
/// column (held to the line), each row but the last followed by a newline.
pub open spec fn row_piece(line: Seq<char>, row: int, s: PositionAbsolut, e: PositionAbsolut) -> Seq<
    char,
> {
    let n = line.len() as int;
    if row == s.y && row == e.y {
        if n > 0 && s.x <= clip(n, e.x as int) + 1 {
            line.subrange(s.x as int, clip(n, e.x as int) + 1)
        } else {
            seq![]
        }
    } else if row == s.y {
        if s.x <= n {
            line.subrange(s.x as int, n) + seq!['\n']
        } else {
            seq![]
        }
    } else if row == e.y {
        if n > 0 {
            line.subrange(0, clip(n, e.x as int) + 1)
        } else {
            seq![]
        }
    } else {
        line + seq!['\n']
    }
}

/// The pieces of the rows before `r` that lie between `s` and `e`, joined.
pub open spec fn extract_rows(lines: Seq<Seq<char>>, s: PositionAbsolut, e: PositionAbsolut, r: int) -> Seq<char>
    decreases r,
{
    if r <= 0 {
        seq![]
    } else {
        extract_rows(lines, s, e, r - 1) + if s.y <= r - 1 <= e.y {
            row_piece(lines[r - 1], r - 1, s, e)
        } else {
            seq![]
        }
    }
}

/// The text that a selection covers in `lines`.
pub open spec fn extracted(lines: Seq<Seq<char>>, sel: Selection) -> Seq<char> {
    extract_rows(lines, sel.normalized().0, sel.normalized().1, lines.len() as int)
}

/// Appends `v[from..to]` to `out`.
fn push_range(out: &mut Vec<char>, v: &Vec<char>, from: usize, to: usize)
    requires
        from <= to <= v.len(),
    ensures
        final(out)@ == old(out)@ + v@.subrange(from as int, to as int),
{
    let mut i = from;
    while i < to
        invariant
            from <= i <= to,
            to <= v.len(),
            out@ == old(out)@ + v@.subrange(from as int, i as int),
        decreases to - i,
    {
        out.push(v[i]);
        i = i + 1;
        assert(v@.subrange(from as int, i as int) =~= v@.subrange(from as int, i - 1 as int).push(
            v@[i - 1],
        ));
    }
}

/// The text that `selection` covers in `lines`, rows joined by newlines.
pub fn extract_text_from_lines(lines: &Vec<String>, selection: &Selection) -> (r: String)
    ensures
        r@ == extracted(line_views(lines@), *selection),
{
    let s = selection.start();
    let e = selection.end();
    let ghost ls = line_views(lines@);
    let mut out: Vec<char> = Vec::new();
    let mut row: usize = 0;
    while row < lines.len()
        invariant
            row <= lines.len(),
            ls == line_views(lines@),
            s == selection.normalized().0,
            e == selection.normalized().1,
            out@ == extract_rows(ls, s, e, row as int),
        decreases lines.len() - row,
    {
        let ghost before = out@;
        if s.y <= row && row <= e.y {
            let line = chars_of(lines[row].as_str());
            assert(line@ == ls[row as int]);
            let n = line.len();
            let last: usize = if n == 0 {
                0
            } else if e.x < n - 1 {
                e.x
            } else {
                n - 1
            };
            if row == s.y && row == e.y {
                if n > 0 && s.x <= last {
                    push_range(&mut out, &line, s.x, last + 1);
                } else if n > 0 && s.x == last + 1 {
                    assert(line@.subrange(s.x as int, last + 1) =~= Seq::<char>::empty());
                }
            } else if row == s.y {
                if s.x <= n {
                    push_range(&mut out, &line, s.x, n);
                    out.push('\n');
                }
            } else if row == e.y {
                if n > 0 {
                    push_range(&mut out, &line, 0, last + 1);
                }
            } else {
                push_range(&mut out, &line, 0, n);
                out.push('\n');
                assert(line@.subrange(0, n as int) =~= line@);
            }
            assert(out@ =~= before + row_piece(ls[row as int], row as int, s, e));
        }
        assert(out@ =~= extract_rows(ls, s, e, row + 1));
        row = row + 1;
    }
    string_of(&out)
}

/// Selecting all of a one-line document gives back the line unchanged,
/// wherever past its last column the selection ends.
pub proof fn lemma_select_whole_line(line: Seq<char>, end_x: usize)
    requires
        line.len() > 0,
        end_x >= line.len() - 1,
    ensures
        extracted(
            seq![line],
            Selection {
                start: PositionAbsolut { x: 0, y: 0 },
                end: PositionAbsolut { x: end_x, y: 0 },
            },
        ) == line,
{
    let sel = Selection {
        start: PositionAbsolut { x: 0, y: 0 },
        end: PositionAbsolut { x: end_x, y: 0 },
    };
    let s = sel.normalized().0;
    let e = sel.normalized().1;
    assert(s == sel.start && e == sel.end);
    assert(extract_rows(seq![line], s, e, 0) == Seq::<char>::empty());
    assert(line.subrange(0, line.len() as int) =~= line);
    assert(extract_rows(seq![line], s, e, 1) =~= line);
}

} // verus!
