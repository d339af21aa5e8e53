//! A rectangular grid of cells representing a renderable region, with the
//! region-compositing operations: fill, insert, and apply.
//!
//! Every geometric operation clips to the canvas bounds instead of
//! failing: a rectangle that hangs over the edge affects exactly its
//! intersection with the canvas, a run is truncated at the end of its row,
//! and rows below the bottom are left alone. Composition is by the
//! transparent [`overlay`] operator, so drawing never erases what an unset
//! attribute would show through.

use vstd::prelude::*;
use crate::geometry::Pos;
use crate::geometry::Rect;
use crate::geometry::Size;
use crate::runes::Color;
use crate::runes::Rune;
use crate::runes::Runes;
use crate::runes::empty_rune;
use crate::runes::overlay;

verus! {

/// Append one character to a string.
/// Relies on `String::push`, which appends the given char to the end.
pub assume_specification[ String::push ](s: &mut String, ch: char)
    ensures
        final(s)@ == old(s)@.push(ch),
;

/// Whether the cell at column `x`, row `y` lies inside `rect`.
pub open spec fn covers(rect: Rect, x: int, y: int) -> bool {
    &&& rect.pos.x <= x < rect.pos.x + rect.size.width
    &&& rect.pos.y <= y < rect.pos.y + rect.size.height
}

/// The grid of the given dimensions holding only empty cells.
pub open spec fn empty_grid(size: Size) -> Seq<Seq<Rune>> {
    Seq::new(size.height as nat, |y: int| Seq::new(size.width as nat, |x: int| empty_rune()))
}

/// The result of composing `rune` onto every cell of `g` that lies inside
/// `rect`; cells outside `rect` keep their value. Out-of-bounds parts of
/// `rect` have no effect, because the result has the dimensions of `g`.
pub open spec fn fill_grid(g: Seq<Seq<Rune>>, rect: Rect, rune: Rune) -> Seq<Seq<Rune>> {
    Seq::new(
        g.len(),
        |y: int|
            Seq::new(
                g[y].len(),
                |x: int|
                    if covers(rect, x, y) {
                        overlay(g[y][x], rune)
                    } else {
                        g[y][x]
                    },
            ),
    )
}

/// One row of [`fill_grid`]: row `y` of a grid with the fill applied.
pub open spec fn fill_row(row: Seq<Rune>, rect: Rect, y: int, rune: Rune) -> Seq<Rune> {
    Seq::new(
        row.len(),
        |x: int|
            if covers(rect, x, y) {
                overlay(row[x], rune)
            } else {
                row[x]
            },
    )
}

/// The result of composing the run `rs` onto row `pos.y` of `g`, starting
/// at column `pos.x` and proceeding to the right. The run is truncated at
/// the end of the row; if `pos.y` is not a row of `g`, nothing changes.
pub open spec fn insert_grid(g: Seq<Seq<Rune>>, pos: Pos, rs: Seq<Rune>) -> Seq<Seq<Rune>> {
    Seq::new(
        g.len(),
        |y: int|
            if y == pos.y {
                Seq::new(
                    g[y].len(),
                    |x: int|
                        if pos.x <= x < pos.x + rs.len() {
                            overlay(g[y][x], rs[x - pos.x])
                        } else {
                            g[y][x]
                        },
                )
            } else {
                g[y]
            },
    )
}

/// Whether the source cell of `s` that lands on destination cell
/// `(x, y)` under offset `pos` exists and has a character. Only such
/// cells take part in [`apply_grid`]; all others are transparent.
pub open spec fn apply_hits(s: Seq<Seq<Rune>>, pos: Pos, x: int, y: int) -> bool {
    &&& pos.y <= y < pos.y + s.len()
    &&& pos.x <= x
    &&& x - pos.x < s[y - pos.y].len()
    &&& s[y - pos.y][x - pos.x].content is Some
}

/// One row of [`apply_grid`]: row `y` of the destination with the source
/// composited on.
pub open spec fn apply_row(row: Seq<Rune>, pos: Pos, s: Seq<Seq<Rune>>, y: int) -> Seq<Rune> {
    Seq::new(
        row.len(),
        |x: int|
            if apply_hits(s, pos, x, y) {
                overlay(row[x], s[y - pos.y][x - pos.x])
            } else {
                row[x]
            },
    )
}

/// The result of compositing grid `s` onto grid `g` at offset `pos`: each
/// source cell with a character is composed onto the destination cell it
/// lands on; source cells without a character, and source cells that land
/// outside `g`, change nothing.
pub open spec fn apply_grid(g: Seq<Seq<Rune>>, pos: Pos, s: Seq<Seq<Rune>>) -> Seq<Seq<Rune>> {
    Seq::new(
        g.len(),
        |y: int|
            Seq::new(
                g[y].len(),
                |x: int|
                    if apply_hits(s, pos, x, y) {
                        overlay(g[y][x], s[y - pos.y][x - pos.x])
                    } else {
                        g[y][x]
                    },
            ),
    )
}

/// The differing cells of the first `upto` columns of row `y`, in
/// column order: each cell of the new row that is not equal to the old
/// cell beneath it, paired with its position.
pub open spec fn row_diff(new_row: Seq<Rune>, old_row: Seq<Rune>, y: int, upto: int) -> Seq<
    (Pos, Rune),
>
    decreases upto,
{
    if upto <= 0 {
        Seq::empty()
    } else {
        row_diff(new_row, old_row, y, upto - 1) + (if new_row[upto - 1] != old_row[upto - 1] {
            seq![((Pos { x: (upto - 1) as usize, y: y as usize }), new_row[upto - 1])]
        } else {
            Seq::empty()
        })
    }
}

/// The differing cells of the first `rows` rows of a grid against an old
/// grid of the same dimensions, in row-major order.
pub open spec fn grid_diff(new_g: Seq<Seq<Rune>>, old_g: Seq<Seq<Rune>>, rows: int) -> Seq<
    (Pos, Rune),
>
    decreases rows,
{
    if rows <= 0 {
        Seq::empty()
    } else {
        grid_diff(new_g, old_g, rows - 1) + row_diff(
            new_g[rows - 1],
            old_g[rows - 1],
            rows - 1,
            new_g[rows - 1].len() as int,
        )
    }
}

/// The characters of one row, in order, with `'\0'` standing for an empty
/// cell.
pub open spec fn row_text(row: Seq<Rune>) -> Seq<char> {
    Seq::new(
        row.len(),
        |x: int|
            match row[x].content {
                Some(c) => c,
                None => '\0',
            },
    )
}

/// The text form of a grid: each row's characters followed by a newline.
pub open spec fn grid_text(g: Seq<Seq<Rune>>) -> Seq<char>
    decreases g.len(),
{
    if g.len() == 0 {
        Seq::empty()
    } else {
        grid_text(g.drop_last()) + row_text(g.last()) + seq!['\n']
    }
}

/// A renderable region: a grid of `height` rows by `width` columns of
/// cells, addressed row first. All rows have the same length, and the
/// dimensions never change after construction; a different region size
/// needs a new canvas.
#[derive(Clone, Debug)]
pub struct Canvas(pub Vec<Vec<Rune>>);

impl Canvas {
    /// The grid as a sequence of rows of cells.
    pub open spec fn grid(&self) -> Seq<Seq<Rune>> {
        self.0@.map_values(|row: Vec<Rune>| row@)
    }

    /// The width the grid was built with: the length of its first row.
    pub open spec fn spec_width(&self) -> int {
        if self.grid().len() == 0 {
            0int
        } else {
            self.grid()[0].len() as int
        }
    }

    /// All rows have the same length.
    pub open spec fn wf(&self) -> bool {
        forall|y: int| 0 <= y < self.grid().len() ==> #[trigger] self.grid()[y].len() == self.spec_width()
    }

    /// Allocate a grid of empty cells of the given size.
    pub fn new(size: Size) -> (r: Canvas)
        ensures
            r.grid() == empty_grid(size),
            r.wf(),
    {
        let mut rows: Vec<Vec<Rune>> = Vec::new();
        let mut y: usize = 0;
        while y < size.height
            invariant
                y <= size.height,
                rows@.len() == y,
                forall|r: int| 0 <= r < y ==> #[trigger] rows@[r]@ == empty_grid(size)[r],
            decreases size.height - y,
        {
            let mut row: Vec<Rune> = Vec::new();
            let mut x: usize = 0;
            while x < size.width
                invariant
                    x <= size.width,
                    row@.len() == x,
                    forall|c: int| 0 <= c < x ==> row@[c] == empty_rune(),
                decreases size.width - x,
            {
                row.push(Rune::new());
                x = x + 1;
            }
            proof {
                assert(row@ =~= empty_grid(size)[y as int]);
            }
            rows.push(row);
            y = y + 1;
        }
        let r = Canvas(rows);
        proof {
            assert(r.grid() =~= empty_grid(size));
        }
        r
    }

    /// The width of the canvas.
    pub fn width(&self) -> (r: usize)
        ensures
            r == self.spec_width(),
    {
        if self.0.len() == 0 {
            0
        } else {
            self.0[0].len()
        }
    }

    /// The height of the canvas.
    pub fn height(&self) -> (r: usize)
        ensures
            r == self.grid().len(),
    {
        self.0.len()
    }

    /// The region size of the canvas.
    pub fn size(&self) -> (r: Size)
        ensures
            r.width == self.spec_width(),
            r.height == self.grid().len(),
    {
        Size { width: self.width(), height: self.height() }
    }

    /// Compose `rune` onto every cell within `rect`, clipped to the canvas
    /// bounds: an out-of-bounds or oversized rectangle affects exactly its
    /// intersection with the canvas and is never an error.
    pub fn fill(&mut self, rect: Rect, rune: Rune)
        ensures
            final(self).grid() == fill_grid(old(self).grid(), rect, rune),
    {
        let ghost g0 = self.grid();
        let h = self.0.len();
        let mut y = rect.pos.y;
        while y < h && y - rect.pos.y < rect.size.height
            invariant
                rect.pos.y <= y,
                self.0@.len() == h,
                g0.len() == h,
                forall|r: int|
                    0 <= r < h && !(rect.pos.y <= r < y) ==> #[trigger] self.0@[r]@ == g0[r],
                forall|r: int|
                    0 <= r < h && rect.pos.y <= r < y ==> #[trigger] self.0@[r]@ == fill_row(
                        g0[r],
                        rect,
                        r,
                        rune,
                    ),
            decreases h - y,
        {
            let mut row: Vec<Rune> = Vec::new();
            core::mem::swap(&mut self.0[y], &mut row);
            let ghost r0 = row@;
            proof {
                assert(r0 == g0[y as int]);
            }
            let w = row.len();
            let mut x = rect.pos.x;
            while x < w && x - rect.pos.x < rect.size.width
                invariant
                    rect.pos.x <= x,
                    x <= rect.pos.x + rect.size.width,
                    row@.len() == w,
                    w == r0.len(),
                    forall|c: int|
                        0 <= c < w ==> row@[c] == (if rect.pos.x <= c < x {
                            overlay(r0[c], rune)
                        } else {
                            r0[c]
                        }),
                decreases w - x,
            {
                let cur = row[x];
                row[x] = cur.compose(rune);
                x = x + 1;
            }
            core::mem::swap(&mut self.0[y], &mut row);
            proof {
                assert(self.0@[y as int]@ =~= fill_row(g0[y as int], rect, y as int, rune));
            }
            y = y + 1;
        }
        proof {
            assert(self.grid() =~~= fill_grid(g0, rect, rune));
        }
    }

    /// Compose `rune` onto every cell of the canvas.
    pub fn fill_all(&mut self, rune: Rune)
        ensures
            final(self).grid() == fill_grid(
                old(self).grid(),
                Rect {
                    pos: Pos { x: 0, y: 0 },
                    size: Size {
                        width: old(self).spec_width() as usize,
                        height: old(self).grid().len() as usize,
                    },
                },
                rune,
            ),
    {
        let size = self.size();
        let rect = Rect { pos: Pos { x: 0, y: 0 }, size };
        self.fill(rect, rune);
    }

    /// Paint a region: fill it with a space glyph on the given background
    /// color.
    pub fn paint(&mut self, rect: Rect, color: Color)
        ensures
            final(self).grid() == fill_grid(
                old(self).grid(),
                rect,
                Rune { content: Some(' '), bg: Some(color), ..empty_rune() },
            ),
    {
        self.fill(rect, Rune::from_bg(color));
    }

    /// Compose a run of cells onto the row at `pos`, proceeding to the
    /// right and truncating at the end of the row; a row below the canvas
    /// is a no-op. No wrapping of any kind is performed.
    pub fn insert(&mut self, pos: Pos, value: Runes)
        ensures
            final(self).grid() == insert_grid(old(self).grid(), pos, value.0@),
    {
        let ghost g0 = self.grid();
        let ghost rs = value.0@;
        let h = self.0.len();
        if pos.y < h {
            let mut row: Vec<Rune> = Vec::new();
            core::mem::swap(&mut self.0[pos.y], &mut row);
            let ghost r0 = row@;
            proof {
                assert(r0 == g0[pos.y as int]);
            }
            let w = row.len();
            let n = value.len();
            let mut i: usize = 0;
            while i < n && pos.x < w && i < w - pos.x
                invariant
                    n == rs.len(),
                    value.0@ == rs,
                    row@.len() == w,
                    w == r0.len(),
                    i <= n,
                    forall|c: int|
                        0 <= c < w ==> row@[c] == (if pos.x <= c < pos.x + i {
                            overlay(r0[c], rs[c - pos.x])
                        } else {
                            r0[c]
                        }),
                decreases n - i,
            {
                let cur = row[pos.x + i];
                row[pos.x + i] = cur.compose(value.0[i]);
                i = i + 1;
            }
            core::mem::swap(&mut self.0[pos.y], &mut row);
            proof {
                assert(self.0@[pos.y as int]@ =~= insert_grid(g0, pos, rs)[pos.y as int]);
            }
        }
        proof {
            assert(self.grid() =~~= insert_grid(g0, pos, rs));
        }
    }

    /// Composite another canvas onto this one at an offset, row by row and
    /// cell by cell. A source cell with no character is skipped and leaves
    /// the destination untouched, and source cells that land outside the
    /// destination on either axis are skipped: a source larger than the
    /// remaining space is silently clipped.
    pub fn apply(&mut self, pos: Pos, other: &Canvas)
        ensures
            final(self).grid() == apply_grid(old(self).grid(), pos, other.grid()),
    {
        let ghost g0 = self.grid();
        let ghost s = other.grid();
        let h = self.0.len();
        let sh = other.0.len();
        let mut sy: usize = 0;
        while sy < sh && pos.y < h && sy < h - pos.y
            invariant
                self.0@.len() == h,
                g0.len() == h,
                sh == s.len(),
                other.grid() == s,
                forall|r: int|
                    0 <= r < h && !(pos.y <= r < pos.y + sy) ==> #[trigger] self.0@[r]@ == g0[r],
                forall|r: int|
                    0 <= r < h && pos.y <= r < pos.y + sy ==> #[trigger] self.0@[r]@ == apply_row(
                        g0[r],
                        pos,
                        s,
                        r,
                    ),
            decreases sh - sy,
        {
            let dy = pos.y + sy;
            let mut row: Vec<Rune> = Vec::new();
            core::mem::swap(&mut self.0[dy], &mut row);
            let ghost r0 = row@;
            proof {
                assert(r0 == g0[dy as int]);
                assert(other.0@[sy as int]@ == s[sy as int]);
            }
            let w = row.len();
            let sw = other.0[sy].len();
            let mut sx: usize = 0;
            while sx < sw && pos.x < w && sx < w - pos.x
                invariant
                    sh == s.len(),
                    other.grid() == s,
                    0 <= sy < sh,
                    dy == pos.y + sy,
                    row@.len() == w,
                    w == r0.len(),
                    sx <= sw,
                    sw == s[sy as int].len(),
                    sw == other.0@[sy as int]@.len(),
                    forall|c: int|
                        0 <= c < w ==> row@[c] == (if c < pos.x + sx && apply_hits(
                            s,
                            pos,
                            c,
                            dy as int,
                        ) {
                            overlay(r0[c], s[sy as int][c - pos.x])
                        } else {
                            r0[c]
                        }),
                decreases sw - sx,
            {
                let src = other.0[sy][sx];
                if src.content.is_some() {
                    let cur = row[pos.x + sx];
                    row[pos.x + sx] = cur.compose(src);
                }
                sx = sx + 1;
            }
            core::mem::swap(&mut self.0[dy], &mut row);
            proof {
                assert(self.0@[dy as int]@ =~= apply_row(g0[dy as int], pos, s, dy as int));
            }
            sy = sy + 1;
        }
        proof {
            assert(self.grid() =~~= apply_grid(g0, pos, s));
        }
    }

    /// Set the cell at `pos` outright (no composition); a position outside
    /// the canvas is a no-op.
    pub fn put(&mut self, pos: Pos, rune: Rune)
        ensures
            final(self).grid().len() == old(self).grid().len(),
            forall|r: int|
                0 <= r < old(self).grid().len() && r != pos.y ==> #[trigger] final(self).grid()[r]
                    == old(self).grid()[r],
            pos.y < old(self).grid().len() ==> final(self).grid()[pos.y as int]
                == (if pos.x < old(self).grid()[pos.y as int].len() {
                old(self).grid()[pos.y as int].update(pos.x as int, rune)
            } else {
                old(self).grid()[pos.y as int]
            }),
    {
        let ghost g0 = self.grid();
        if pos.y < self.0.len() {
            if pos.x < self.0[pos.y].len() {
                self.0[pos.y][pos.x] = rune;
                proof {
                    assert(self.grid()[pos.y as int] =~= g0[pos.y as int].update(
                        pos.x as int,
                        rune,
                    ));
                    assert(forall|r: int|
                        0 <= r < g0.len() && r != pos.y ==> #[trigger] self.grid()[r] == g0[r]);
                }
            }
        }
    }

    /// The cells of this canvas that differ from `prev`, with their new
    /// values, in row-major order: exactly what a presentation layer has
    /// to repaint when this canvas replaces `prev` on screen. The two
    /// canvases must have the same dimensions.
    pub fn diff(&self, prev: &Canvas) -> (r: Vec<(Pos, Rune)>)
        requires
            prev.grid().len() == self.grid().len(),
            forall|y: int|
                0 <= y < self.grid().len() ==> #[trigger] prev.grid()[y].len()
                    == self.grid()[y].len(),
        ensures
            r@ == grid_diff(self.grid(), prev.grid(), self.grid().len() as int),
    {
        let ghost new_g = self.grid();
        let ghost old_g = prev.grid();
        let mut out: Vec<(Pos, Rune)> = Vec::new();
        let h = self.0.len();
        let mut y: usize = 0;
        while y < h
            invariant
                h == new_g.len(),
                new_g == self.grid(),
                old_g == prev.grid(),
                old_g.len() == h,
                forall|rr: int| 0 <= rr < h ==> #[trigger] old_g[rr].len() == new_g[rr].len(),
                y <= h,
                out@ == grid_diff(new_g, old_g, y as int),
            decreases h - y,
        {
            let w = self.0[y].len();
            proof {
                assert(new_g[y as int].len() == w);
                assert(old_g[y as int].len() == w);
                assert(prev.0@[y as int]@.len() == w);
                assert(row_diff(new_g[y as int], old_g[y as int], y as int, 0) =~= Seq::<(
                    Pos,
                    Rune,
                )>::empty());
                assert(out@ =~= grid_diff(new_g, old_g, y as int) + row_diff(
                    new_g[y as int],
                    old_g[y as int],
                    y as int,
                    0,
                ));
            }
            let mut x: usize = 0;
            while x < w
                invariant
                    h == new_g.len(),
                    new_g == self.grid(),
                    old_g == prev.grid(),
                    old_g.len() == h,
                    y < h,
                    x <= w,
                    w == new_g[y as int].len(),
                    w == old_g[y as int].len(),
                    out@ == grid_diff(new_g, old_g, y as int) + row_diff(
                        new_g[y as int],
                        old_g[y as int],
                        y as int,
                        x as int,
                    ),
                decreases w - x,
            {
                proof {
                    assert(self.0@[y as int]@.len() == w);
                    assert(prev.0@[y as int]@.len() == w);
                }
                let a = self.0[y][x];
                let b = prev.0[y][x];
                if !a.same_as(&b) {
                    out.push((Pos { x, y }, a));
                    proof {
                        assert(out@ =~= grid_diff(new_g, old_g, y as int) + row_diff(
                            new_g[y as int],
                            old_g[y as int],
                            y as int,
                            x + 1 as int,
                        ));
                    }
                } else {
                    proof {
                        assert(out@ =~= grid_diff(new_g, old_g, y as int) + row_diff(
                            new_g[y as int],
                            old_g[y as int],
                            y as int,
                            x + 1 as int,
                        ));
                    }
                }
                x = x + 1;
            }
            proof {
                assert(out@ =~= grid_diff(new_g, old_g, y + 1 as int));
            }
            y = y + 1;
        }
        out
    }

    /// The canvas as text: each row's characters in order, `'\0'` for an
    /// empty cell, with a newline after every row.
    pub fn render_text(&self) -> (r: String)
        ensures
            r@ == grid_text(self.grid()),
    {
        let mut out = String::new();
        let mut y: usize = 0;
        while y < self.0.len()
            invariant
                y <= self.grid().len(),
                out@ == grid_text(self.grid().take(y as int)),
            decreases self.grid().len() - y,
        {
            let ghost before_row = out@;
            let w = self.0[y].len();
            let mut x: usize = 0;
            while x < w
                invariant
                    y < self.grid().len(),
                    w == self.grid()[y as int].len(),
                    x <= w,
                    out@ == before_row + row_text(self.grid()[y as int]).take(x as int),
                decreases w - x,
            {
                let c = match self.0[y][x].content {
                    Some(c) => c,
                    None => '\0',
                };
                out.push(c);
                proof {
                    assert(row_text(self.grid()[y as int]).take(x + 1 as int) =~= row_text(
                        self.grid()[y as int],
                    ).take(x as int).push(c));
                }
                x = x + 1;
            }
            out.push('\n');
            proof {
                assert(self.grid().take(y as int) =~= self.grid().take(y + 1 as int).drop_last());
                assert(self.grid().take(y + 1 as int).last() == self.grid()[y as int]);
                assert(row_text(self.grid()[y as int]).take(w as int) =~= row_text(
                    self.grid()[y as int],
                ));
                assert(out@ =~= grid_text(self.grid().take(y + 1 as int)));
            }
            y = y + 1;
        }
        proof {
            assert(self.grid().take(self.grid().len() as int) =~= self.grid());
        }
        out
    }
}

} // verus!
