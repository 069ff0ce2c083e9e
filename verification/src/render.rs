use vstd::prelude::*;

verus! {

/// The screen rectangle of one tile, as (x, y, width, height) in window
/// pixels: the tile at (row, col) sits at (col * tile_size, row * tile_size)
/// and is tile_size pixels on each side.
pub fn tile_rect(row: u32, col: u32, tile_size: u32) -> (rect: (u64, u64, u64, u64))
    ensures
        rect.0 == col * tile_size,
        rect.1 == row * tile_size,
        rect.2 == tile_size,
        rect.3 == tile_size,
{
    proof {
        assert((col as int) * (tile_size as int) < 0x1_0000_0000_0000_0000) by (nonlinear_arith)
            requires
                0 <= col < 0x1_0000_0000,
                0 <= tile_size < 0x1_0000_0000,
        ;
        assert((row as int) * (tile_size as int) < 0x1_0000_0000_0000_0000) by (nonlinear_arith)
            requires
                0 <= row < 0x1_0000_0000,
                0 <= tile_size < 0x1_0000_0000,
        ;
    }
    (
        (col as u64) * (tile_size as u64),
        (row as u64) * (tile_size as u64),
        tile_size as u64,
        tile_size as u64,
    )
}

} // verus!
