use vstd::prelude::*;

use super::cta_tile::{CTA_M, CTA_N, causal_window};

verus! {

/// Whether the windowed-score kernel computes the output tile at
/// `(tile_row, tile_col)`: on or below the diagonal and within `window / CTA_N`
/// tiles of it.
pub open spec fn windowed_tile_kept(tile_row: int, tile_col: int, window: int) -> bool {
    !(tile_col > tile_row || tile_row > tile_col + window / (CTA_N as int))
}

/// The tile test of the windowed lower-triangular score kernel. For a window
/// of whole tiles, a tile is kept exactly when one of its entries lies in the
/// causal window: kept tiles hold such an entry, skipped tiles hold none.
pub fn windowed_lower_tile_active(tile_row: u32, tile_col: u32, window: u32) -> (kept: bool)
    requires
        tile_col + window / CTA_N <= u32::MAX,
    ensures
        kept == windowed_tile_kept(tile_row as int, tile_col as int, window as int),
        window > 0 && window % CTA_N == 0 && (tile_row + 1) * CTA_M <= u32::MAX && (tile_col + 1)
            * CTA_N <= u32::MAX ==> {
            &&& kept ==> causal_window(
                tile_row * CTA_M as int,
                if tile_row == tile_col {
                    tile_col * CTA_N as int
                } else {
                    tile_col * CTA_N as int + CTA_N - 1
                },
                window as int,
            )
            &&& !kept ==> forall|row: int, col: int|
                tile_row * CTA_M <= row < (tile_row + 1) * CTA_M && tile_col * CTA_N <= col < (
                tile_col + 1) * CTA_N ==> !#[trigger] causal_window(row, col, window as int)
        },
{
    let window_tiles = window / CTA_N;
    !(tile_col > tile_row || tile_row > tile_col + window_tiles)
}

} // verus!
