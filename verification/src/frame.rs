use vstd::prelude::*;
use crate::grid::Grid;
use crate::input::InputState;
use crate::input::apply_paint;
use crate::input::painted;
use crate::rules::generation;
use crate::rules::step_generation;

verus! {

/// The grid after the simulation and paint phases of one frame: if the
/// simulation runs, the grid advances one generation; then, if painting is
/// active and a cursor position is known, the paint pass is applied to the
/// possibly advanced grid.
pub open spec fn frame_result(s: InputState, g: Seq<Seq<bool>>, tile: int) -> Seq<Seq<bool>> {
    let g1 = if s.running {
        generation(g)
    } else {
        g
    };
    match s.cursor {
        Some((x, y)) => if s.painting {
            painted(g1, x as int, y as int, tile)
        } else {
            g1
        },
        None => g1,
    }
}

/// The simulation and paint phases of one frame, in the loop's strict order:
/// advance first (when running), paint second (when painting with a known
/// cursor position), exactly as frame_result describes.
pub fn frame_step(s: &InputState, g: &mut Grid, tile_size: u32)
    requires
        old(g).wf(),
    ensures
        final(g).wf(),
        final(g)@ == frame_result(*s, old(g)@, tile_size as int),
{
    if s.running {
        let next = step_generation(g);
        *g = next;
    }
    if s.painting {
        match s.cursor {
            Some(pos) => {
                apply_paint(g, pos.0, pos.1, tile_size);
            },
            None => {},
        }
    }
}

} // verus!
