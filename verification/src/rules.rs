use vstd::prelude::*;
use crate::grid::Grid;

verus! {

/// 1 if (r, c) is in bounds and live, 0 otherwise. An out-of-bounds neighbor
/// counts as absent: the grid does not wrap around.
pub open spec fn live_at(g: Seq<Seq<bool>>, r: int, c: int) -> nat {
    if 0 <= r < g.len() && 0 <= c < g[r].len() && g[r][c] {
        1
    } else {
        0
    }
}

/// The number of live cells among the up-to-8 grid-adjacent cells of (r, c).
pub open spec fn neighbor_count(g: Seq<Seq<bool>>, r: int, c: int) -> nat {
    live_at(g, r - 1, c - 1) + live_at(g, r - 1, c) + live_at(g, r - 1, c + 1) + live_at(
        g,
        r,
        c - 1,
    ) + live_at(g, r, c + 1) + live_at(g, r + 1, c - 1) + live_at(g, r + 1, c) + live_at(
        g,
        r + 1,
        c + 1,
    )
}

/// The birth/survival/death rule for one cell: a live cell survives on a count
/// of 2 or 3, a dead cell is born on a count of exactly 3, and every other
/// cell is dead in the next generation.
pub open spec fn next_cell(alive: bool, count: nat) -> bool {
    if alive {
        count == 2 || count == 3
    } else {
        count == 3
    }
}

/// The neighbor count is a sum of eight terms, each 0 or 1, so it never
/// exceeds 8.
pub proof fn lemma_neighbor_count_bound(g: Seq<Seq<bool>>, r: int, c: int)
    ensures
        neighbor_count(g, r, c) <= 8,
{
}

/// A cell at the top-left corner has at most 3 in-bounds neighbors, so its
/// neighbor count never exceeds 3.
pub proof fn lemma_corner_neighbor_bound(g: Seq<Seq<bool>>)
    ensures
        neighbor_count(g, 0, 0) <= 3,
{
}

/// Neighbor counts of one cell, summed with the same bounds checks as the
/// specification: each of the up-to-8 adjacent cells contributes 1 when live,
/// and positions outside the grid contribute nothing.
fn count_cell(g: &Grid, r: usize, c: usize) -> (n: u32)
    requires
        g.wf(),
        r < g.rows(),
        c < g.cols(),
    ensures
        n == neighbor_count(g@, r as int, c as int),
{
    let rows = g.num_rows();
    let cols = g.num_cols();
    let mut n: u32 = 0;

    // The row above
    if r > 0 {
        if c > 0 && g.get(r - 1, c - 1) {
            n = n + 1;
        }
        if g.get(r - 1, c) {
            n = n + 1;
        }
        if c < cols - 1 && g.get(r - 1, c + 1) {
            n = n + 1;
        }
    }
    // The same row
    if c > 0 && g.get(r, c - 1) {
        n = n + 1;
    }
    if c < cols - 1 && g.get(r, c + 1) {
        n = n + 1;
    }
    // The row below
    if r < rows - 1 {
        if c > 0 && g.get(r + 1, c - 1) {
            n = n + 1;
        }
        if g.get(r + 1, c) {
            n = n + 1;
        }
        if c < cols - 1 && g.get(r + 1, c + 1) {
            n = n + 1;
        }
    }
    n
}

/// For every cell, the count of live cells among its up-to-8 grid-adjacent
/// cells, with no wraparound. Every count is between 0 and 8.
pub fn compute_neighbor_counts(g: &Grid) -> (counts: Vec<Vec<u32>>)
    requires
        g.wf(),
    ensures
        counts@.len() == g.rows(),
        forall|r: int| 0 <= r < g.rows() ==> (#[trigger] counts@[r]@).len() == g.cols(),
        forall|r: int, c: int|
            0 <= r < g.rows() && 0 <= c < g.cols() ==> #[trigger] counts@[r]@[c]
                == neighbor_count(g@, r, c),
        forall|r: int, c: int|
            0 <= r < g.rows() && 0 <= c < g.cols() ==> #[trigger] counts@[r]@[c] <= 8,
{
    let rows = g.num_rows();
    let cols = g.num_cols();
    let mut counts: Vec<Vec<u32>> = Vec::new();
    let mut r: usize = 0;
    while r < rows
        invariant
            g.wf(),
            rows == g.rows(),
            cols == g.cols(),
            r <= rows,
            counts@.len() == r,
            forall|i: int| 0 <= i < r ==> (#[trigger] counts@[i]@).len() == cols,
            forall|i: int, j: int|
                0 <= i < r && 0 <= j < cols ==> #[trigger] counts@[i]@[j] == neighbor_count(
                    g@,
                    i,
                    j,
                ),
        decreases rows - r,
    {
        let mut row: Vec<u32> = Vec::new();
        let mut c: usize = 0;
        while c < cols
            invariant
                g.wf(),
                rows == g.rows(),
                cols == g.cols(),
                r < rows,
                c <= cols,
                row@.len() == c,
                forall|j: int|
                    0 <= j < c ==> #[trigger] row@[j] == neighbor_count(g@, r as int, j),
            decreases cols - c,
        {
            row.push(count_cell(g, r, c));
            c = c + 1;
        }
        counts.push(row);
        r = r + 1;
    }
    proof {
        assert forall|i: int, j: int|
            0 <= i < g.rows() && 0 <= j < g.cols() implies #[trigger] counts@[i]@[j]
            <= 8 by {
            lemma_neighbor_count_bound(g@, i, j);
        }
    }
    counts
}

/// The next generation as a function of the current cells and a snapshot of
/// neighbor counts: each cell follows next_cell independently, using only the
/// supplied counts.
pub open spec fn advanced(g: Seq<Seq<bool>>, counts: Seq<Seq<u32>>) -> Seq<Seq<bool>> {
    Seq::new(g.len(), |r: int| Seq::new(g[r].len(), |c: int| next_cell(g[r][c], counts[r][c] as nat)))
}

/// Advancing is a pure function of the grid and the counts: identical inputs
/// give identical next generations, however often it is applied to them.
pub proof fn lemma_advance_deterministic(
    g1: Seq<Seq<bool>>,
    counts1: Seq<Seq<u32>>,
    g2: Seq<Seq<bool>>,
    counts2: Seq<Seq<u32>>,
)
    requires
        g1 == g2,
        counts1 == counts2,
    ensures
        advanced(g1, counts1) == advanced(g2, counts2),
{
}

/// One generation step: applies the birth/survival/death rule to every cell,
/// reading liveness from the old grid and counts only from the supplied
/// snapshot, so that no update influences the rule evaluation of another cell
/// in the same step.
pub fn advance(g: &Grid, counts: &Vec<Vec<u32>>) -> (next: Grid)
    requires
        g.wf(),
        counts@.len() == g.rows(),
        forall|r: int| 0 <= r < g.rows() ==> (#[trigger] counts@[r]@).len() == g.cols(),
    ensures
        next.wf(),
        next.rows() == g.rows(),
        next.cols() == g.cols(),
        next@ =~~= advanced(g@, counts_view(counts@)),
        forall|r: int, c: int|
            0 <= r < g.rows() && 0 <= c < g.cols() ==> #[trigger] next@[r][c] == next_cell(
                g@[r][c],
                counts@[r]@[c] as nat,
            ),
{
    let rows = g.num_rows();
    let cols = g.num_cols();
    let mut next = Grid::new(rows, cols);
    let mut r: usize = 0;
    while r < rows
        invariant
            g.wf(),
            rows == g.rows(),
            cols == g.cols(),
            r <= rows,
            counts@.len() == rows,
            forall|i: int| 0 <= i < rows ==> (#[trigger] counts@[i]@).len() == cols,
            next.wf(),
            next.rows() == rows,
            next.cols() == cols || rows == 0,
            forall|i: int| 0 <= i < rows ==> (#[trigger] next@[i]).len() == cols,
            forall|i: int, j: int|
                0 <= i < r && 0 <= j < cols ==> #[trigger] next@[i][j] == next_cell(
                    g@[i][j],
                    counts@[i]@[j] as nat,
                ),
            forall|i: int, j: int|
                r <= i < rows && 0 <= j < cols ==> !(#[trigger] next@[i][j]),
        decreases rows - r,
    {
        let mut c: usize = 0;
        while c < cols
            invariant
                g.wf(),
                rows == g.rows(),
                cols == g.cols(),
                r < rows,
                c <= cols,
                counts@.len() == rows,
                forall|i: int| 0 <= i < rows ==> (#[trigger] counts@[i]@).len() == cols,
                next.rows() == rows,
                forall|i: int| 0 <= i < rows ==> (#[trigger] next@[i]).len() == cols,
                forall|i: int, j: int|
                    0 <= i < r && 0 <= j < cols ==> #[trigger] next@[i][j] == next_cell(
                        g@[i][j],
                        counts@[i]@[j] as nat,
                    ),
                forall|j: int|
                    0 <= j < c ==> #[trigger] next@[r as int][j] == next_cell(
                        g@[r as int][j],
                        counts@[r as int]@[j] as nat,
                    ),
                forall|i: int, j: int|
                    r < i < rows && 0 <= j < cols ==> !(#[trigger] next@[i][j]),
                forall|j: int| c <= j < cols ==> !(#[trigger] next@[r as int][j]),
            decreases cols - c,
        {
            let alive = g.get(r, c);
            let count = counts[r][c];
            let v = if alive {
                count == 2 || count == 3
            } else {
                count == 3
            };
            next.set(r, c, v);
            c = c + 1;
        }
        r = r + 1;
    }
    next
}

/// The view of a row-major count buffer: the sequence of rows, each row a
/// sequence of counts.
pub open spec fn counts_view(counts: Seq<Vec<u32>>) -> Seq<Seq<u32>> {
    Seq::new(counts.len(), |r: int| counts[r]@)
}

/// One full generation of the grid: every cell follows next_cell on its exact
/// neighbor count in the current grid.
pub open spec fn generation(g: Seq<Seq<bool>>) -> Seq<Seq<bool>> {
    Seq::new(
        g.len(),
        |r: int| Seq::new(g[r].len(), |c: int| next_cell(g[r][c], neighbor_count(g, r, c))),
    )
}

/// Computes a snapshot of neighbor counts and advances the grid by one
/// generation using that snapshot.
pub fn step_generation(g: &Grid) -> (next: Grid)
    requires
        g.wf(),
    ensures
        next.wf(),
        next.rows() == g.rows(),
        next.cols() == g.cols(),
        next@ == generation(g@),
{
    let counts = compute_neighbor_counts(g);
    let next = advance(g, &counts);
    proof {
        assert forall|r: int| 0 <= r < g@.len() implies next@[r] =~= generation(g@)[r] by {
            assert forall|c: int| 0 <= c < g@[r].len() implies next@[r][c] == generation(
                g@,
            )[r][c] by {
                assert(counts@[r]@[c] == neighbor_count(g@, r, c));
            }
        }
        assert(next@ =~~= generation(g@));
    }
    next
}

} // verus!
