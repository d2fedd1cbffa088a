use vstd::prelude::*;

use super::cta_tile::{CTA_K, CTA_M, causal_window, transposed_causal_window};

verus! {

/// The depths `[start, limit)` that a matmul kernel walks, in steps of `CTA_K`
/// from `start`, for the output tile whose rows start at `row_base`.
#[derive(Clone, Copy, Debug, PartialEq, Eq, Structural)]
pub struct KRange {
    pub start: u32,
    pub limit: u32,
}

/// Whether `row` is one of the rows of the output tile that starts at `row_base`.
pub open spec fn tile_has_row(row_base: int, row: int) -> bool {
    row_base <= row < row_base + CTA_M as int
}

/// Whether depth `depth` of row `row` lies in the lower triangle.
pub open spec fn lower_mask(row: int, depth: int) -> bool {
    depth <= row
}

/// Whether depth `depth` of row `row` lies in the upper triangle.
pub open spec fn upper_mask(row: int, depth: int) -> bool {
    depth >= row
}

/// Depths of `out = lower(a) * rhs`: up to the tile's last row, or `k`.
pub fn half_rhs_lower_a_k_range(row_base: u32, k: u32) -> (range: KRange)
    requires
        row_base + CTA_M <= u32::MAX,
    ensures
        range.start == 0,
        range.limit == if row_base + CTA_M < k {
            row_base + CTA_M
        } else {
            k as int
        },
        range.limit <= k,
        forall|row: int, depth: int|
            tile_has_row(row_base as int, row) && 0 <= depth < k && #[trigger] lower_mask(row, depth) ==> range.start
                <= depth < range.limit,
{
    let row_k_limit = row_base + CTA_M;
    let k_limit = if row_k_limit < k {
        row_k_limit
    } else {
        k
    };
    KRange { start: 0, limit: k_limit }
}

/// Depths of `out = lower(a^T) * rhs`: from the tile's first row to `k`.
pub fn half_a_transposed_rhs_lower_a_k_range(row_base: u32, k: u32) -> (range: KRange)
    ensures
        range.start == row_base,
        range.limit == k,
        forall|row: int, depth: int|
            tile_has_row(row_base as int, row) && 0 <= depth < k && #[trigger] upper_mask(row, depth) ==> range.start
                <= depth < range.limit,
{
    KRange { start: row_base, limit: k }
}

/// Depths of `out = band(a) * rhs`: from the first depth in the band of the
/// tile's first row, rounded down to a whole `CTA_K` slice, to the tile's last
/// row or `k`.
pub fn half_rhs_windowed_lower_a_k_range(row_base: u32, k: u32, window: u32) -> (range: KRange)
    requires
        row_base + CTA_M <= u32::MAX,
    ensures
        range.start == (if row_base + 1 > window {
            row_base + 1 - window
        } else {
            0int
        }) / (CTA_K as int) * (CTA_K as int),
        range.limit == if row_base + CTA_M < k {
            row_base + CTA_M
        } else {
            k as int
        },
        range.start % CTA_K == 0,
        range.limit <= k,
        forall|row: int, depth: int|
            tile_has_row(row_base as int, row) && 0 <= depth < k && #[trigger] causal_window(
                row,
                depth,
                window as int,
            ) ==> range.start <= depth < range.limit,
{
    let row_k_limit = row_base + CTA_M;
    let k_limit = if row_k_limit < k {
        row_k_limit
    } else {
        k
    };
    let first_k = if row_base + 1 > window {
        row_base + 1 - window
    } else {
        0
    };
    let start = first_k / CTA_K * CTA_K;
    KRange { start, limit: k_limit }
}

/// Depths of `out = band(a^T) * rhs`: from the tile's first row to the last
/// depth in the band of its last row, or `k`.
pub fn half_a_transposed_rhs_windowed_lower_a_k_range(row_base: u32, k: u32, window: u32) -> (range:
    KRange)
    requires
        window > 0,
        row_base + CTA_M + window <= u32::MAX,
    ensures
        range.start == row_base,
        range.limit == if row_base + CTA_M + window - 1 < k {
            row_base + CTA_M + window - 1
        } else {
            k as int
        },
        range.limit <= k,
        forall|row: int, depth: int|
            tile_has_row(row_base as int, row) && 0 <= depth < k && #[trigger] transposed_causal_window(
                row,
                depth,
                window as int,
            ) ==> range.start <= depth < range.limit,
{
    let window_k_limit = row_base + CTA_M + window - 1;
    let k_limit = if window_k_limit < k {
        window_k_limit
    } else {
        k
    };
    KRange { start: row_base, limit: k_limit }
}

} // verus!
