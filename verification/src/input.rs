use vstd::prelude::*;
use crate::grid::Grid;

verus! {

/// A discrete input event: a pointer move in window-pixel coordinates, a
/// press of the run/pause toggle key, or a press or release of the primary
/// paint button.
#[derive(Clone, Copy, PartialEq, Eq, Debug)]
pub enum InputEvent {
    PointerMove(u32, u32),
    TogglePress,
    PaintPress,
    PaintRelease,
}

/// The input handler's state: whether the simulation runs, whether the paint
/// button is held, and the last known cursor position, if any.
#[derive(Clone, Copy, PartialEq, Eq, Debug)]
pub struct InputState {
    pub running: bool,
    pub painting: bool,
    pub cursor: Option<(u32, u32)>,
}

/// The transition of the input state on one event: a pointer move records the
/// position, a toggle press flips run/pause, a paint press or release sets or
/// clears the paint flag; nothing else changes.
pub open spec fn step_state(s: InputState, e: InputEvent) -> InputState {
    match e {
        InputEvent::PointerMove(x, y) => (InputState {
            running: s.running,
            painting: s.painting,
            cursor: Some((x, y)),
        }),
        InputEvent::TogglePress => (InputState {
            running: !s.running,
            painting: s.painting,
            cursor: s.cursor,
        }),
        InputEvent::PaintPress => (InputState {
            running: s.running,
            painting: true,
            cursor: s.cursor,
        }),
        InputEvent::PaintRelease => (InputState {
            running: s.running,
            painting: false,
            cursor: s.cursor,
        }),
    }
}

/// The state after a sequence of events, applied in order.
pub open spec fn state_after(s: InputState, events: Seq<InputEvent>) -> InputState
    decreases events.len(),
{
    if events.len() == 0 {
        s
    } else {
        state_after(step_state(s, events[0]), events.drop_first())
    }
}

impl InputState {
    /// The initial state: paused, not painting, no cursor position known.
    pub fn new() -> (s: InputState)
        ensures
            !s.running,
            !s.painting,
            s.cursor is None,
    {
        InputState { running: false, painting: false, cursor: None }
    }

    /// Applies one event, exactly as step_state describes.
    pub fn handle_event(&mut self, e: InputEvent)
        ensures
            *final(self) == step_state(*old(self), e),
    {
        match e {
            InputEvent::PointerMove(x, y) => {
                self.cursor = Some((x, y));
            },
            InputEvent::TogglePress => {
                self.running = !self.running;
            },
            InputEvent::PaintPress => {
                self.painting = true;
            },
            InputEvent::PaintRelease => {
                self.painting = false;
            },
        }
    }
}

/// Toggle presses only flip the run flag: after n presses the run flag equals
/// the starting flag exactly when n is even, and nothing else changes.
pub proof fn lemma_toggle_presses_flip(s: InputState, n: nat)
    ensures
        state_after(s, Seq::new(n, |i: int| InputEvent::TogglePress)) == (InputState {
            running: s.running != (n % 2 == 1),
            painting: s.painting,
            cursor: s.cursor,
        }),
    decreases n,
{
    let events = Seq::new(n, |i: int| InputEvent::TogglePress);
    if n > 0 {
        let s1 = step_state(s, events[0]);
        lemma_toggle_presses_flip(s1, (n - 1) as nat);
        assert(events.drop_first() =~= Seq::new((n - 1) as nat, |i: int| InputEvent::TogglePress));
    }
}

/// Law: pressing the toggle key an odd number of times from the paused state
/// ends in the running state; an even number of presses returns to paused.
pub proof fn lemma_toggle_parity_from_paused(s: InputState, n: nat)
    requires
        !s.running,
    ensures
        state_after(s, Seq::new(n, |i: int| InputEvent::TogglePress)).running <==> n % 2 == 1,
{
    lemma_toggle_presses_flip(s, n);
}

/// Whether the window-pixel point (x, y) lies strictly inside the rectangle
/// of the tile at (row r, col c): touching an edge does not count.
pub open spec fn point_in_tile(x: int, y: int, r: int, c: int, tile: int) -> bool {
    c * tile < x < c * tile + tile && r * tile < y < r * tile + tile
}

/// The grid after one additive paint pass at point (x, y): every cell whose
/// rectangle strictly contains the point becomes live, and no cell is cleared.
pub open spec fn painted(g: Seq<Seq<bool>>, x: int, y: int, tile: int) -> Seq<Seq<bool>> {
    Seq::new(
        g.len(),
        |r: int| Seq::new(g[r].len(), |c: int| g[r][c] || point_in_tile(x, y, r, c, tile)),
    )
}

/// Law: a point strictly inside the rectangle of one tile is strictly inside
/// no other tile's rectangle.
pub proof fn lemma_tile_containment_unique(
    x: int,
    y: int,
    r1: int,
    c1: int,
    r2: int,
    c2: int,
    tile: int,
)
    requires
        point_in_tile(x, y, r1, c1, tile),
        point_in_tile(x, y, r2, c2, tile),
    ensures
        r1 == r2,
        c1 == c2,
{
    assert(tile > 0);
    assert(c1 * tile + tile == (c1 + 1) * tile) by (nonlinear_arith);
    assert(c2 * tile + tile == (c2 + 1) * tile) by (nonlinear_arith);
    assert(r1 * tile + tile == (r1 + 1) * tile) by (nonlinear_arith);
    assert(r2 * tile + tile == (r2 + 1) * tile) by (nonlinear_arith);
    if c1 < c2 {
        assert((c1 + 1) * tile <= c2 * tile) by (nonlinear_arith)
            requires
                c1 + 1 <= c2,
                tile > 0,
        ;
    }
    if c2 < c1 {
        assert((c2 + 1) * tile <= c1 * tile) by (nonlinear_arith)
            requires
                c2 + 1 <= c1,
                tile > 0,
        ;
    }
    if r1 < r2 {
        assert((r1 + 1) * tile <= r2 * tile) by (nonlinear_arith)
            requires
                r1 + 1 <= r2,
                tile > 0,
        ;
    }
    if r2 < r1 {
        assert((r2 + 1) * tile <= r1 * tile) by (nonlinear_arith)
            requires
                r2 + 1 <= r1,
                tile > 0,
        ;
    }
}

/// Law: when the cursor lies strictly inside the rectangle of cell (r, c),
/// the paint pass sets exactly that cell live and leaves every other cell
/// unchanged.
pub proof fn lemma_paint_exact(g: Seq<Seq<bool>>, x: int, y: int, r: int, c: int, tile: int)
    requires
        0 <= r < g.len(),
        0 <= c < g[r].len(),
        point_in_tile(x, y, r, c, tile),
    ensures
        painted(g, x, y, tile)[r][c],
        forall|i: int, j: int|
            0 <= i < g.len() && 0 <= j < g[i].len() && !(i == r && j == c)
                ==> #[trigger] painted(g, x, y, tile)[i][j] == g[i][j],
{
    assert forall|i: int, j: int|
        0 <= i < g.len() && 0 <= j < g[i].len() && !(i == r && j == c) implies #[trigger] painted(
        g,
        x,
        y,
        tile,
    )[i][j] == g[i][j] by {
        if point_in_tile(x, y, i, j, tile) {
            lemma_tile_containment_unique(x, y, i, j, r, c, tile);
        }
    }
}

/// The additive paint pass: sets live every cell whose rectangle strictly
/// contains the cursor point; never clears a cell.
pub fn apply_paint(g: &mut Grid, x: u32, y: u32, tile_size: u32)
    requires
        old(g).wf(),
    ensures
        final(g).wf(),
        final(g).rows() == old(g).rows(),
        final(g).cols() == old(g).cols(),
        final(g)@ =~~= painted(old(g)@, x as int, y as int, tile_size as int),
        forall|i: int, j: int|
            0 <= i < old(g)@.len() && 0 <= j < old(g)@[i].len() ==> #[trigger] final(g)@[i][j] == (
            old(g)@[i][j] || point_in_tile(x as int, y as int, i, j, tile_size as int)),
{
    let rows = g.num_rows();
    let cols = g.num_cols();
    let xw = x as u128;
    let yw = y as u128;
    let tw = tile_size as u128;
    let mut r: usize = 0;
    while r < rows
        invariant
            g.wf(),
            rows == g.rows(),
            cols == g.cols(),
            r <= rows,
            xw == x,
            yw == y,
            tw == tile_size,
            g@.len() == old(g)@.len(),
            forall|i: int|
                0 <= i < rows ==> (#[trigger] g@[i]).len() == old(g)@[i].len(),
            forall|i: int, j: int|
                0 <= i < r && 0 <= j < cols ==> #[trigger] g@[i][j] == (old(g)@[i][j]
                    || point_in_tile(x as int, y as int, i, j, tile_size as int)),
            forall|i: int, j: int|
                r <= i < rows && 0 <= j < cols ==> #[trigger] g@[i][j] == old(g)@[i][j],
        decreases rows - r,
    {
        proof {
            assert((r as int) * (tw as int) < 0x1_0000_0000_0000_0000_0000_0000) by (nonlinear_arith)
                requires
                    0 <= r < 0x1_0000_0000_0000_0000,
                    0 <= tw < 0x1_0000_0000,
            ;
        }
        let ys = (r as u128) * tw;
        let row_hit = yw > ys && yw < ys + tw;
        let mut c: usize = 0;
        while c < cols
            invariant
                g.wf(),
                rows == g.rows(),
                cols == g.cols(),
                r < rows,
                c <= cols,
                xw == x,
                yw == y,
                tw == tile_size,
                ys == r * tile_size,
                row_hit == ((r as int) * (tile_size as int) < y < (r as int) * (tile_size as int)
                    + tile_size),
                g@.len() == old(g)@.len(),
                forall|i: int|
                    0 <= i < rows ==> (#[trigger] g@[i]).len() == old(g)@[i].len(),
                forall|i: int, j: int|
                    0 <= i < r && 0 <= j < cols ==> #[trigger] g@[i][j] == (old(g)@[i][j]
                        || point_in_tile(x as int, y as int, i, j, tile_size as int)),
                forall|j: int|
                    0 <= j < c ==> #[trigger] g@[r as int][j] == (old(g)@[r as int][j]
                        || point_in_tile(x as int, y as int, r as int, j, tile_size as int)),
                forall|j: int|
                    c <= j < cols ==> #[trigger] g@[r as int][j] == old(g)@[r as int][j],
                forall|i: int, j: int|
                    r < i < rows && 0 <= j < cols ==> #[trigger] g@[i][j] == old(g)@[i][j],
            decreases cols - c,
        {
            proof {
                assert((c as int) * (tw as int) < 0x1_0000_0000_0000_0000_0000_0000)
                    by (nonlinear_arith)
                    requires
                        0 <= c < 0x1_0000_0000_0000_0000,
                        0 <= tw < 0x1_0000_0000,
                ;
            }
            let xs = (c as u128) * tw;
            if row_hit && xw > xs && xw < xs + tw {
                g.set(r, c, true);
            }
            c = c + 1;
        }
        r = r + 1;
    }
}

} // verus!
