//! The grid of locked cells: its model, line clearing and the score table.

use vstd::prelude::*;
use crate::piece::{Shape, GRID_WIDTH, GRID_HEIGHT};

verus! {

/// One row of the grid, left to right; `None` is an empty cell.
pub type Row = Seq<Option<Shape>>;

/// The grid's rows, top to bottom, as values.
pub open spec fn rows_of(grid: Seq<Vec<Option<Shape>>>) -> Seq<Row> {
    grid.map_values(|r: Vec<Option<Shape>>| r@)
}

/// A grid of `GRID_HEIGHT` rows of `GRID_WIDTH` cells each.
pub open spec fn grid_wf(g: Seq<Row>) -> bool {
    &&& g.len() == GRID_HEIGHT
    &&& forall|r: int| 0 <= r < g.len() ==> (#[trigger] g[r]).len() == GRID_WIDTH
}

pub open spec fn empty_row() -> Row {
    Seq::new(GRID_WIDTH as nat, |j: int| None)
}

pub open spec fn empty_rows(n: nat) -> Seq<Row> {
    Seq::new(n, |i: int| empty_row())
}

/// Every cell of the row is occupied.
pub open spec fn row_full(r: Row) -> bool {
    forall|j: int| 0 <= j < r.len() ==> (#[trigger] r[j]) is Some
}

/// The rows that are not full, in their order.
pub open spec fn kept_rows(g: Seq<Row>) -> Seq<Row>
    decreases g.len(),
{
    if g.len() == 0 {
        g
    } else if row_full(g[0]) {
        kept_rows(g.drop_first())
    } else {
        seq![g[0]] + kept_rows(g.drop_first())
    }
}

/// How many rows of `g` are full.
pub open spec fn full_count(g: Seq<Row>) -> nat {
    (g.len() - kept_rows(g).len()) as nat
}

/// The grid once every full row is removed and the rows above have fallen into
/// its place: empty rows on top, then the rows that were not full, in order.
pub open spec fn cleared(g: Seq<Row>) -> Seq<Row> {
    empty_rows(full_count(g)) + kept_rows(g)
}

/// Points for clearing `n` rows in one lock.
pub open spec fn award(n: nat) -> nat {
    if n == 0 {
        0
    } else if n == 1 {
        100
    } else if n == 2 {
        300
    } else if n == 3 {
        500
    } else {
        800
    }
}

proof fn lemma_kept_len(g: Seq<Row>)
    ensures
        kept_rows(g).len() <= g.len(),
    decreases g.len(),
{
    if g.len() > 0 {
        lemma_kept_len(g.drop_first());
    }
}

/// A new empty row.
pub fn new_empty_row() -> (r: Vec<Option<Shape>>)
    ensures
        r@ == empty_row(),
{
    let mut r: Vec<Option<Shape>> = Vec::new();
    let mut j: i32 = 0;
    while j < GRID_WIDTH
        invariant
            0 <= j <= GRID_WIDTH,
            r@ == Seq::new(j as nat, |k: int| None::<Shape>),
        decreases GRID_WIDTH - j,
    {
        r.push(None);
        j += 1;
        assert(r@ =~= Seq::new(j as nat, |k: int| None::<Shape>));
    }
    assert(r@ =~= empty_row());
    r
}

/// Whether every cell of `row` is occupied.
pub fn is_row_full(row: &Vec<Option<Shape>>) -> (r: bool)
    ensures
        r == row_full(row@),
{
    let mut j: usize = 0;
    while j < row.len()
        invariant
            0 <= j <= row@.len(),
            forall|k: int| 0 <= k < j ==> (#[trigger] row@[k]) is Some,
        decreases row@.len() - j,
    {
        if row[j].is_none() {
            return false;
        }
        j += 1;
    }
    true
}

/// Removes every full row, scanning from the bottom: a full row is dropped, the rows
/// above it move down by one, an empty row enters at the top, and the same row index
/// is examined again. Returns how many rows were removed.
pub fn clear_full_rows(grid: &mut Vec<Vec<Option<Shape>>>) -> (n: u32)
    requires
        grid_wf(rows_of(old(grid)@)),
    ensures
        grid_wf(rows_of(final(grid)@)),
        rows_of(final(grid)@) == cleared(rows_of(old(grid)@)),
        n == full_count(rows_of(old(grid)@)),
{
    let ghost g0 = rows_of(grid@);
    let mut lines: u32 = 0;
    let mut y: i32 = GRID_HEIGHT - 1;
    // `u` counts the rows of the input, from the top, that the scan has not reached:
    // the grid is always the empty rows added so far, those rows, and what is kept
    // of the rows below them.
    let ghost mut u: int = GRID_HEIGHT as int;
    proof {
        assert(rows_of(grid@) =~= empty_rows(0) + g0.subrange(0, u) + kept_rows(g0.subrange(u, 20)));
        assert(g0.subrange(u, 20) =~= Seq::<Row>::empty());
    }
    while y >= 0
        invariant
            -1 <= y < GRID_HEIGHT,
            g0.len() == 20,
            grid_wf(g0),
            0 <= u <= 20,
            u == if y + 1 - lines >= 0 { y + 1 - lines } else { 0 },
            lines + kept_rows(g0.subrange(u, 20)).len() == 20 - u,
            rows_of(grid@) == empty_rows(lines as nat) + g0.subrange(0, u) + kept_rows(g0.subrange(u, 20)),
            grid_wf(rows_of(grid@)),
        decreases 21 + y - lines,
    {
        let ghost g = rows_of(grid@);
        assert(g[y as int] == grid@[y as int]@);
        if is_row_full(&grid[y as usize]) {
            proof {
                if u == 0 {
                    // every row of the input is examined, so row y is one of the empty rows on top
                    assert(y < lines);
                    assert(g[y as int] == empty_row());
                    assert(!row_full(empty_row())) by {
                        assert(empty_row()[0] is None);
                    }
                    assert(false);
                }
                assert(g[y as int] == g0[u - 1]);
                let s = g0.subrange(u - 1, 20);
                assert(s.drop_first() =~= g0.subrange(u, 20));
                assert(s[0] == g0[u - 1]);
            }
            lines += 1;
            let _ = grid.remove(y as usize);
            let row = new_empty_row();
            grid.insert(0, row);
            proof {
                assert(rows_of(grid@) =~= seq![empty_row()] + g.remove(y as int));
                assert(kept_rows(g0.subrange(u - 1, 20)) == kept_rows(g0.subrange(u, 20)));
                assert(g.remove(y as int) =~= empty_rows((lines - 1) as nat) + g0.subrange(0, u - 1) + kept_rows(g0.subrange(u, 20)));
                u = u - 1;
                assert(rows_of(grid@) =~= empty_rows(lines as nat) + g0.subrange(0, u) + kept_rows(g0.subrange(u, 20)));
            }
        } else {
            proof {
                if u > 0 {
                    assert(g[y as int] == g0[u - 1]);
                    let s = g0.subrange(u - 1, 20);
                    assert(s.drop_first() =~= g0.subrange(u, 20));
                    assert(s[0] == g0[u - 1]);
                    assert(rows_of(grid@) =~= empty_rows(lines as nat) + g0.subrange(0, u - 1) + kept_rows(g0.subrange(u - 1, 20)));
                    u = u - 1;
                }
            }
            y -= 1;
        }
    }
    proof {
        assert(g0.subrange(0, 20) =~= g0);
        lemma_kept_len(g0);
    }
    lines
}

} // verus!
