use vstd::prelude::*;
use rand::Rng;

verus! {

/// A fixed-size rectangular grid of boolean cells, indexed by (row, col) with
/// the origin at the top left. Its view is the sequence of rows, each row a
/// sequence of cell states.
#[derive(Clone, PartialEq, Eq, Debug)]
pub struct Grid {
    cells: Vec<Vec<bool>>,
}

impl View for Grid {
    type V = Seq<Seq<bool>>;

    closed spec fn view(&self) -> Seq<Seq<bool>> {
        Seq::new(self.cells@.len(), |r: int| self.cells@[r]@)
    }
}

impl Grid {
    pub open spec fn rows(&self) -> nat {
        self@.len()
    }

    pub open spec fn cols(&self) -> nat {
        if self@.len() == 0 {
            0
        } else {
            self@[0].len()
        }
    }

    /// The grid is rectangular: every row has the same length.
    pub open spec fn wf(&self) -> bool {
        forall|r: int| 0 <= r < self@.len() ==> (#[trigger] self@[r]).len() == self.cols()
    }

    /// A fresh grid of the given dimensions with every cell dead.
    pub fn new(rows: usize, cols: usize) -> (g: Grid)
        ensures
            g.wf(),
            g.rows() == rows,
            forall|r: int| 0 <= r < rows ==> (#[trigger] g@[r]).len() == cols,
            forall|r: int, c: int| 0 <= r < rows && 0 <= c < cols ==> !(#[trigger] g@[r][c]),
    {
        let mut cells: Vec<Vec<bool>> = Vec::new();
        let mut r: usize = 0;
        while r < rows
            invariant
                r <= rows,
                cells@.len() == r,
                forall|i: int| 0 <= i < r ==> (#[trigger] cells@[i]@).len() == cols,
                forall|i: int, j: int| 0 <= i < r && 0 <= j < cols ==> !(#[trigger] cells@[i]@[j]),
            decreases rows - r,
        {
            let mut row: Vec<bool> = Vec::new();
            let mut c: usize = 0;
            while c < cols
                invariant
                    c <= cols,
                    row@.len() == c,
                    forall|j: int| 0 <= j < c ==> !(#[trigger] row@[j]),
                decreases cols - c,
            {
                row.push(false);
                c = c + 1;
            }
            cells.push(row);
            r = r + 1;
        }
        Grid { cells }
    }

    pub fn num_rows(&self) -> (n: usize)
        ensures
            n == self.rows(),
    {
        self.cells.len()
    }

    pub fn num_cols(&self) -> (n: usize)
        ensures
            n == self.cols(),
    {
        if self.cells.len() == 0 {
            0
        } else {
            self.cells[0].len()
        }
    }

    pub fn get(&self, r: usize, c: usize) -> (b: bool)
        requires
            r < self@.len(),
            c < self@[r as int].len(),
        ensures
            b == self@[r as int][c as int],
    {
        self.cells[r][c]
    }

    /// Writes one cell; every other cell and the dimensions are unchanged.
    pub fn set(&mut self, r: usize, c: usize, v: bool)
        requires
            r < old(self)@.len(),
            c < old(self)@[r as int].len(),
        ensures
            final(self)@.len() == old(self)@.len(),
            forall|i: int|
                0 <= i < old(self)@.len() ==> (#[trigger] final(self)@[i]).len() == old(
                    self,
                )@[i].len(),
            final(self)@[r as int][c as int] == v,
            forall|i: int, j: int|
                0 <= i < old(self)@.len() && 0 <= j < old(self)@[i].len() && !(i == r && j == c)
                    ==> #[trigger] final(self)@[i][j] == old(self)@[i][j],
    {
        self.cells[r][c] = v;
    }
}

/// Number of whole tiles that fit along one window axis: integer division of
/// the window extent by the tile size, truncating any remainder.
pub fn axis_tile_count(window_pixels: u32, tile_size_pixels: u32) -> (n: u32)
    requires
        tile_size_pixels > 0,
    ensures
        n == window_pixels / tile_size_pixels,
{
    window_pixels / tile_size_pixels
}

/// Relies on rand's thread_rng and Rng::gen_ratio: a random bool that is true
/// with probability numerator/denominator, guaranteed true when numerator ==
/// denominator and guaranteed false when numerator == 0; panics only when
/// denominator == 0 or numerator > denominator, which the precondition rules
/// out.
#[verifier::external_body]
fn random_bool_ratio(numerator: u32, denominator: u32) -> (b: bool)
    requires
        0 < denominator,
        numerator <= denominator,
    ensures
        numerator == denominator ==> b,
        numerator == 0 ==> !b,
{
    let mut rng = rand::thread_rng();
    rng.gen_ratio(numerator, denominator)
}

/// A fresh grid of the given dimensions in which each cell is live
/// independently with probability numerator/denominator.
pub fn randomize_grid(rows: usize, cols: usize, numerator: u32, denominator: u32) -> (g: Grid)
    requires
        0 < denominator,
        numerator <= denominator,
    ensures
        g.wf(),
        g.rows() == rows,
        forall|r: int| 0 <= r < rows ==> (#[trigger] g@[r]).len() == cols,
        numerator == denominator ==> forall|r: int, c: int|
            0 <= r < rows && 0 <= c < cols ==> #[trigger] g@[r][c],
        numerator == 0 ==> forall|r: int, c: int|
            0 <= r < rows && 0 <= c < cols ==> !(#[trigger] g@[r][c]),
{
    let mut cells: Vec<Vec<bool>> = Vec::new();
    let mut r: usize = 0;
    while r < rows
        invariant
            0 < denominator,
            numerator <= denominator,
            r <= rows,
            cells@.len() == r,
            forall|i: int| 0 <= i < r ==> (#[trigger] cells@[i]@).len() == cols,
            numerator == denominator ==> forall|i: int, j: int|
                0 <= i < r && 0 <= j < cols ==> #[trigger] cells@[i]@[j],
            numerator == 0 ==> forall|i: int, j: int|
                0 <= i < r && 0 <= j < cols ==> !(#[trigger] cells@[i]@[j]),
        decreases rows - r,
    {
        let mut row: Vec<bool> = Vec::new();
        let mut c: usize = 0;
        while c < cols
            invariant
                0 < denominator,
                numerator <= denominator,
                c <= cols,
                row@.len() == c,
                numerator == denominator ==> forall|j: int| 0 <= j < c ==> #[trigger] row@[j],
                numerator == 0 ==> forall|j: int| 0 <= j < c ==> !(#[trigger] row@[j]),
            decreases cols - c,
        {
            row.push(random_bool_ratio(numerator, denominator));
            c = c + 1;
        }
        cells.push(row);
        r = r + 1;
    }
    Grid { cells }
}

} // verus!
