//! The toolkit's composition laws, stated and proved once for all inputs:
//! clipping, transparency, region isolation, and stack sequencing.

use vstd::prelude::*;
use std::rc::Rc;
use crate::canvas::Canvas;
use crate::canvas::apply_grid;
use crate::canvas::apply_hits;
use crate::canvas::empty_grid;
use crate::canvas::fill_grid;
use crate::canvas::insert_grid;
use crate::container::Container;
use crate::context::ViewContext;
use crate::geometry::Pos;
use crate::geometry::Rect;
use crate::geometry::Size;
use crate::runes::Rune;
use crate::runes::Runes;
use crate::runes::empty_rune;
use crate::runes::overlay;
use crate::stack::StackAlignment;
use crate::stack::StackDirection;
use crate::stack::advanced;
use crate::stack::cross_offset_vertical;
use crate::stack::placement;

verus! {

/// `rect` cut down to a `w`-column, `h`-row canvas whose bounds its
/// origin already lies within: the origin is kept and each extent is
/// shortened to what fits.
pub open spec fn clip_rect(rect: Rect, w: int, h: int) -> Rect {
    Rect {
        pos: rect.pos,
        size: Size {
            width: if rect.pos.x + rect.size.width <= w {
                rect.size.width
            } else {
                (w - rect.pos.x) as usize
            },
            height: if rect.pos.y + rect.size.height <= h {
                rect.size.height
            } else {
                (h - rect.pos.y) as usize
            },
        },
    }
}

/// Clipping: on a canvas of `h` rows of `w` columns, filling with a
/// rectangle whose origin lies within the canvas bounds affects exactly
/// the intersection of the rectangle with the canvas, however large the
/// rectangle's size is — the result equals the fill with the rectangle
/// already cut down to the canvas.
pub proof fn lemma_fill_clipping(g: Seq<Seq<Rune>>, rect: Rect, rune: Rune, w: int, h: int)
    requires
        g.len() == h,
        forall|y: int| 0 <= y < h ==> #[trigger] g[y].len() == w,
        rect.pos.x <= w <= usize::MAX,
        rect.pos.y <= h <= usize::MAX,
    ensures
        fill_grid(g, rect, rune) == fill_grid(g, clip_rect(rect, w, h), rune),
{
    assert(fill_grid(g, rect, rune) =~~= fill_grid(g, clip_rect(rect, w, h), rune));
}

/// Transparency of composition: compositing a source grid onto a
/// destination whose cells are all empty changes exactly the cells that a
/// source cell with a character lands on — each becomes that source cell
/// — and every other cell keeps its prior value.
pub proof fn lemma_apply_transparency(d: Seq<Seq<Rune>>, pos: Pos, s: Seq<Seq<Rune>>)
    requires
        forall|y: int, x: int|
            0 <= y < d.len() && 0 <= x < d[y].len() ==> #[trigger] d[y][x] == empty_rune(),
    ensures
        forall|y: int, x: int|
            0 <= y < d.len() && 0 <= x < d[y].len() ==> #[trigger] apply_grid(d, pos, s)[y][x] == (
            if apply_hits(s, pos, x, y) {
                s[y - pos.y][x - pos.x]
            } else {
                d[y][x]
            }),
{
    assert forall|y: int, x: int|
        0 <= y < d.len() && 0 <= x < d[y].len() implies #[trigger] apply_grid(d, pos, s)[y][x] == (
    if apply_hits(s, pos, x, y) {
        s[y - pos.y][x - pos.x]
    } else {
        d[y][x]
    }) by {
        if apply_hits(s, pos, x, y) {
            assert(overlay(d[y][x], s[y - pos.y][x - pos.x]) == s[y - pos.y][x - pos.x]);
        }
    }
}

/// Region isolation: the same source composited into two all-empty
/// destinations at two different offsets produces position-independent
/// translations of each other — the cell at offset `(x, y)` from the
/// first landing point equals the cell at offset `(x, y)` from the
/// second. A component function therefore draws the same picture
/// wherever its rectangle is mounted.
pub proof fn lemma_apply_position_independence(
    d1: Seq<Seq<Rune>>,
    p1: Pos,
    d2: Seq<Seq<Rune>>,
    p2: Pos,
    s: Seq<Seq<Rune>>,
)
    requires
        forall|y: int, x: int|
            0 <= y < d1.len() && 0 <= x < d1[y].len() ==> #[trigger] d1[y][x] == empty_rune(),
        forall|y: int, x: int|
            0 <= y < d2.len() && 0 <= x < d2[y].len() ==> #[trigger] d2[y][x] == empty_rune(),
        p1.y + s.len() <= d1.len(),
        p2.y + s.len() <= d2.len(),
        forall|y: int| 0 <= y < s.len() ==> p1.x + #[trigger] s[y].len() <= d1[p1.y + y].len(),
        forall|y: int| 0 <= y < s.len() ==> p2.x + #[trigger] s[y].len() <= d2[p2.y + y].len(),
    ensures
        forall|y: int, x: int|
            0 <= y < s.len() && 0 <= x < s[y].len() ==> #[trigger] apply_grid(d1, p1, s)[p1.y + y][p1.x
                + x] == apply_grid(d2, p2, s)[p2.y + y][p2.x + x],
{
    assert forall|y: int, x: int|
        0 <= y < s.len() && 0 <= x < s[y].len() implies #[trigger] apply_grid(d1, p1, s)[p1.y + y][p1.x
        + x] == apply_grid(d2, p2, s)[p2.y + y][p2.x + x] by {
        lemma_apply_transparency(d1, p1, s);
        lemma_apply_transparency(d2, p2, s);
        assert(apply_hits(s, p1, p1.x + x, p1.y + y) == (s[y][x].content is Some));
        assert(apply_hits(s, p2, p2.x + x, p2.y + y) == (s[y][x].content is Some));
    }
}

/// One step of a stack's insertion, at the level of the grid and the
/// cursor: the run is composed at the aligned placement position, and the
/// cursor advances along the stack's axis. This is exactly what
/// [`crate::stack::Stack::insert`] promises of the stack's canvas and
/// cursor.
pub open spec fn insert_step(
    g: Seq<Seq<Rune>>,
    cursor: Pos,
    direction: StackDirection,
    align: StackAlignment,
    total: Size,
    run: Seq<Rune>,
) -> (Seq<Seq<Rune>>, Pos) {
    let child = Size { width: run.len() as usize, height: 1 };
    (
        insert_grid(g, placement(direction, align, total, cursor, child), run),
        advanced(direction, cursor, child),
    )
}

/// The grid and cursor after a whole sequence of insertions, first run
/// first.
pub open spec fn after_inserts(
    g: Seq<Seq<Rune>>,
    cursor: Pos,
    direction: StackDirection,
    align: StackAlignment,
    total: Size,
    runs: Seq<Seq<Rune>>,
) -> (Seq<Seq<Rune>>, Pos)
    decreases runs.len(),
{
    if runs.len() == 0 {
        (g, cursor)
    } else {
        let stepped = insert_step(g, cursor, direction, align, total, runs[0]);
        after_inserts(stepped.0, stepped.1, direction, align, total, runs.drop_first())
    }
}

/// The summed length of the first `k` runs.
pub open spec fn prefix_len(runs: Seq<Seq<Rune>>, k: int) -> int
    decreases k,
{
    if k <= 0 {
        0int
    } else {
        prefix_len(runs, k - 1) + runs[k - 1].len()
    }
}

/// Vertical stack sequencing: starting from the cursor row `y0`,
/// inserting `N` unit-height runs places them on rows `y0`, `y0 + 1`,
/// ..., `y0 + N − 1` in insertion order. Each of those rows of the final
/// grid equals the original row with its own run composed on at the
/// alignment offset, every other row keeps its original content, and the
/// cursor ends `N` rows further down.
pub proof fn lemma_vertical_stack_sequencing(
    g: Seq<Seq<Rune>>,
    x0: usize,
    y0: usize,
    align: StackAlignment,
    total: Size,
    runs: Seq<Seq<Rune>>,
)
    requires
        y0 + runs.len() <= usize::MAX,
        x0 + total.width <= usize::MAX,
        forall|k: int| 0 <= k < runs.len() ==> #[trigger] runs[k].len() <= total.width,
    ensures
        after_inserts(g, (Pos { x: x0, y: y0 }), StackDirection::Vertical, align, total, runs).0.len()
            == g.len(),
        after_inserts(g, (Pos { x: x0, y: y0 }), StackDirection::Vertical, align, total, runs).1 == (
        Pos { x: x0, y: (y0 + runs.len()) as usize }),
        forall|k: int|
            0 <= k < runs.len() && y0 + k < g.len() ==> #[trigger] after_inserts(
                g,
                (Pos { x: x0, y: y0 }),
                StackDirection::Vertical,
                align,
                total,
                runs,
            ).0[y0 + k] == insert_grid(
                g,
                (Pos {
                    x: (x0 + cross_offset_vertical(
                        align,
                        total.width as int,
                        runs[k].len() as int,
                    )) as usize,
                    y: (y0 + k) as usize,
                }),
                runs[k],
            )[y0 + k],
        forall|r: int|
            0 <= r < g.len() && !(y0 <= r < y0 + runs.len()) ==> #[trigger] after_inserts(
                g,
                (Pos { x: x0, y: y0 }),
                StackDirection::Vertical,
                align,
                total,
                runs,
            ).0[r] == g[r],
    decreases runs.len(),
{
    if runs.len() == 0 {
    } else {
        let stepped = insert_step(
            g,
            Pos { x: x0, y: y0 },
            StackDirection::Vertical,
            align,
            total,
            runs[0],
        );
        lemma_vertical_stack_sequencing(
            stepped.0,
            x0,
            (y0 + 1) as usize,
            align,
            total,
            runs.drop_first(),
        );
        let rest = after_inserts(
            stepped.0,
            Pos { x: x0, y: (y0 + 1) as usize },
            StackDirection::Vertical,
            align,
            total,
            runs.drop_first(),
        );
        assert(runs.drop_first().len() == runs.len() - 1);
        assert forall|k: int| 0 <= k < runs.len() && y0 + k < g.len() implies #[trigger] after_inserts(
            g,
            (Pos { x: x0, y: y0 }),
            StackDirection::Vertical,
            align,
            total,
            runs,
        ).0[y0 + k] == insert_grid(
            g,
            (Pos {
                x: (x0 + cross_offset_vertical(align, total.width as int, runs[k].len() as int)) as usize,
                y: (y0 + k) as usize,
            }),
            runs[k],
        )[y0 + k] by {
            if k == 0 {
                assert(rest.0[y0 as int] == stepped.0[y0 as int]);
                assert(stepped.0[y0 as int] == insert_grid(
                    g,
                    (Pos {
                        x: (x0 + cross_offset_vertical(
                            align,
                            total.width as int,
                            runs[0].len() as int,
                        )) as usize,
                        y: y0,
                    }),
                    runs[0],
                )[y0 as int]);
            } else {
                assert(runs.drop_first()[k - 1] == runs[k]);
                assert(y0 + k == (y0 + 1) + (k - 1));
                assert(stepped.0.len() == g.len());
                assert(rest.0[(y0 + 1) + (k - 1)] == insert_grid(
                    stepped.0,
                    (Pos {
                        x: (x0 + cross_offset_vertical(
                            align,
                            total.width as int,
                            runs.drop_first()[k - 1].len() as int,
                        )) as usize,
                        y: ((y0 + 1) + (k - 1)) as usize,
                    }),
                    runs.drop_first()[k - 1],
                )[(y0 + 1) + (k - 1)]);
                assert(rest.0[y0 + k] == insert_grid(
                    stepped.0,
                    (Pos {
                        x: (x0 + cross_offset_vertical(
                            align,
                            total.width as int,
                            runs[k].len() as int,
                        )) as usize,
                        y: (y0 + k) as usize,
                    }),
                    runs[k],
                )[y0 + k]);
                assert(stepped.0[y0 + k] == g[y0 + k]);
                assert(insert_grid(
                    stepped.0,
                    (Pos {
                        x: (x0 + cross_offset_vertical(
                            align,
                            total.width as int,
                            runs[k].len() as int,
                        )) as usize,
                        y: (y0 + k) as usize,
                    }),
                    runs[k],
                )[y0 + k] =~= insert_grid(
                    g,
                    (Pos {
                        x: (x0 + cross_offset_vertical(
                            align,
                            total.width as int,
                            runs[k].len() as int,
                        )) as usize,
                        y: (y0 + k) as usize,
                    }),
                    runs[k],
                )[y0 + k]);
            }
        }
    }
}

/// Horizontal stack sequencing: starting from cursor column `x0`,
/// inserting `N` runs of lengths `L0, ..., L(N−1)` places run `k` at the
/// column `x0 + L0 + ... + L(k−1)` — successive offsets equal to the
/// prefix sums of the preceding lengths — and the cursor ends past the
/// last run.
pub proof fn lemma_horizontal_stack_sequencing(
    g: Seq<Seq<Rune>>,
    x0: usize,
    y0: usize,
    align: StackAlignment,
    total: Size,
    runs: Seq<Seq<Rune>>,
    k: int,
)
    requires
        x0 + prefix_len(runs, runs.len() as int) <= usize::MAX,
        0 <= k <= runs.len(),
    ensures
        after_inserts(
            g,
            (Pos { x: x0, y: y0 }),
            StackDirection::Horizontal,
            align,
            total,
            runs.take(k),
        ).1.x == x0 + prefix_len(runs, k),
        after_inserts(
            g,
            (Pos { x: x0, y: y0 }),
            StackDirection::Horizontal,
            align,
            total,
            runs.take(k),
        ).1.y == y0,
        k < runs.len() ==> placement(
            StackDirection::Horizontal,
            align,
            total,
            after_inserts(
                g,
                (Pos { x: x0, y: y0 }),
                StackDirection::Horizontal,
                align,
                total,
                runs.take(k),
            ).1,
            (Size { width: runs[k].len() as usize, height: 1 }),
        ).x == x0 + prefix_len(runs, k),
    decreases k,
{
    lemma_prefix_len_bounds(runs, k);
    if k == 0 {
        assert(runs.take(0) =~= Seq::<Seq<Rune>>::empty());
    } else {
        lemma_horizontal_stack_sequencing(g, x0, y0, align, total, runs, k - 1);
        lemma_prefix_len_bounds(runs, k - 1);
        let prev = after_inserts(
            g,
            Pos { x: x0, y: y0 },
            StackDirection::Horizontal,
            align,
            total,
            runs.take(k - 1),
        );
        lemma_after_inserts_snoc(
            g,
            Pos { x: x0, y: y0 },
            StackDirection::Horizontal,
            align,
            total,
            runs.take(k),
        );
        assert(runs.take(k).drop_last() =~= runs.take(k - 1));
        assert(runs.take(k).last() == runs[k - 1]);
    }
}

/// A sum of run lengths is never negative.
proof fn lemma_prefix_len_nonneg(runs: Seq<Seq<Rune>>, k: int)
    requires
        0 <= k,
    ensures
        0 <= prefix_len(runs, k),
    decreases k,
{
    if k > 0 {
        lemma_prefix_len_nonneg(runs, k - 1);
    }
}

/// The prefix sums of run lengths grow monotonically: the sum of the
/// first `k` runs is at most the sum of all of them.
proof fn lemma_prefix_len_bounds(runs: Seq<Seq<Rune>>, k: int)
    requires
        0 <= k <= runs.len(),
    ensures
        0 <= prefix_len(runs, k) <= prefix_len(runs, runs.len() as int),
    decreases runs.len() - k,
{
    lemma_prefix_len_nonneg(runs, k);
    if k < runs.len() {
        lemma_prefix_len_bounds(runs, k + 1);
    }
}

/// Folding one more run: the result after `runs` is one step applied to
/// the result after all but the last run.
proof fn lemma_after_inserts_snoc(
    g: Seq<Seq<Rune>>,
    cursor: Pos,
    direction: StackDirection,
    align: StackAlignment,
    total: Size,
    runs: Seq<Seq<Rune>>,
)
    requires
        runs.len() > 0,
    ensures
        after_inserts(g, cursor, direction, align, total, runs) == insert_step(
            after_inserts(g, cursor, direction, align, total, runs.drop_last()).0,
            after_inserts(g, cursor, direction, align, total, runs.drop_last()).1,
            direction,
            align,
            total,
            runs.last(),
        ),
    decreases runs.len(),
{
    let stepped = insert_step(g, cursor, direction, align, total, runs[0]);
    if runs.len() == 1 {
        assert(runs.drop_last() =~= Seq::<Seq<Rune>>::empty());
        assert(runs.drop_first() =~= Seq::<Seq<Rune>>::empty());
        assert(after_inserts(stepped.0, stepped.1, direction, align, total, runs.drop_first())
            == (stepped.0, stepped.1));
        assert(after_inserts(g, cursor, direction, align, total, runs.drop_last())
            == (g, cursor));
        assert(runs.last() == runs[0]);
    } else {
        lemma_after_inserts_snoc(stepped.0, stepped.1, direction, align, total, runs.drop_first());
        assert(runs.drop_first().drop_last() =~= runs.drop_last().drop_first());
        assert(runs.drop_first().last() == runs.last());
        assert(runs.drop_last()[0] == runs[0]);
        assert(after_inserts(g, cursor, direction, align, total, runs)
            == after_inserts(stepped.0, stepped.1, direction, align, total, runs.drop_first()));
        assert(insert_step(g, cursor, direction, align, total, runs.drop_last()[0]) == stepped);
        assert(after_inserts(g, cursor, direction, align, total, runs.drop_last())
            == after_inserts(
            stepped.0,
            stepped.1,
            direction,
            align,
            total,
            runs.drop_last().drop_first(),
        ));
    }
}

/// Region isolation, checked statically from the mounting contract
/// alone: a component function that writes one cell at its local origin,
/// mounted on a 4 by 2 canvas at the rectangle with corner `(1, 1)`,
/// lands that cell at global `(1, 1)` and changes nothing else; and the
/// mount is owed success, because the function takes no injected
/// arguments. The verifier derives the returned canvas, cell by cell,
/// from the contracts of [`ViewContext::component_fn`], `insert`, and
/// the grid specs — not from running the code.
pub fn isolated_mount_scenario() -> (r: Canvas)
    ensures
        r.grid().len() == 2,
        forall|y: int| 0 <= y < 2 ==> #[trigger] r.grid()[y].len() == 4,
        r.grid()[1][1] == (Rune { content: Some('k'), fg: None, bg: None, bold: false }),
        forall|y: int, x: int|
            0 <= y < 2 && 0 <= x < 4 && !(y == 1 && x == 1) ==> #[trigger] r.grid()[y][x]
                == empty_rune(),
{
    let container = Rc::new(Container::new());
    let mut ctx = ViewContext::new(container, Size::new(4, 2));
    let f = |mut child: ViewContext| -> (out: ViewContext)
        ensures
            out.view.grid() == insert_grid(
                child.view.grid(),
                (Pos { x: 0, y: 0 }),
                seq![(Rune { content: Some('k'), fg: None, bg: None, bold: false })],
            ),
        {
            let run = Runes::from_rune(Rune::from_char('k'));
            proof {
                assert(run.0@ =~= seq![
                    (Rune { content: Some('k'), fg: None, bg: None, bold: false }),
                ]);
            }
            child.insert(Pos::new(0, 0), run);
            child
        };
    ctx.component_fn(Rect::new(Pos::new(1, 1), Size::new(2, 1)), f);
    proof {
        let (child, out) = choose|child: ViewContext, out: ViewContext|
            {
                &&& child.view.grid() == empty_grid(Size { width: 2, height: 1 })
                &&& #[trigger] call_ensures(f, (child,), out)
                &&& ctx.view.grid() == apply_grid(
                    empty_grid(Size { width: 4, height: 2 }),
                    (Pos { x: 1, y: 1 }),
                    out.view.grid(),
                )
            };
        assert(out.view.grid()[0][0].content == Some('k'));
        assert(forall|y: int, x: int|
            0 <= y < 2 && 0 <= x < 4 && !(y == 1 && x == 1) ==> #[trigger] ctx.view.grid()[y][x]
                == empty_rune());
    }
    ctx.view
}

} // verus!