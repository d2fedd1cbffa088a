use vstd::prelude::*;

verus! {

/// Rows of the output tile that one cooperative thread array owns.
pub const CTA_M: u32 = 64;

/// Columns of the output tile that one cooperative thread array owns.
pub const CTA_N: u32 = 64;

/// Depth of one staged slice of the reduction dimension.
pub const CTA_K: u32 = 16;

/// Half-precision elements in one staged A tile (`CTA_M x CTA_K`).
pub const CTA_A_ELEMS: u32 = 1024;

/// Half-precision elements in one staged B tile (`CTA_N x CTA_K`).
pub const CTA_B_ELEMS: u32 = 1024;

/// The position of one thread inside its output tile.
#[derive(Clone, Copy)]
pub struct CtaTile {
    pub batch: u32,
    pub row_base: u32,
    pub col_base: u32,
    pub warp_m: u32,
    pub group: u32,
    pub thread_in_group: u32,
}

/// Shape of a batched matmul `out[b] = a[b] * b_t[b]^T`.
#[derive(Clone, Copy)]
pub struct CtaMatmulDims {
    pub batch_count: u32,
    pub m: u32,
    pub n: u32,
    pub k: u32,
}

impl CtaMatmulDims {
    pub fn new(batch_count: u32, m: u32, n: u32, k: u32) -> (dims: Self)
        ensures
            dims == (CtaMatmulDims { batch_count, m, n, k }),
    {
        CtaMatmulDims { batch_count, m, n, k }
    }
}

/// Row of a staged tile element at `offset`, counted from the tile's first row.
pub open spec fn tile_row(offset: int) -> int {
    offset / (CTA_K as int)
}

/// Column of a staged tile element at `offset`, counted from the tile's first column.
pub open spec fn tile_col(offset: int) -> int {
    offset % (CTA_K as int)
}

/// Maps an offset inside a staged tile to global `(row, k)` coordinates.
pub fn stage_coords(offset: u32, row_base: u32, k_base: u32) -> (coords: (u32, u32))
    requires
        row_base + offset / CTA_K <= u32::MAX,
        k_base + CTA_K <= u32::MAX,
    ensures
        coords.0 == row_base + tile_row(offset as int),
        coords.1 == k_base + tile_col(offset as int),
{
    let row = offset / CTA_K;
    let col = offset - row * CTA_K;
    (row_base + row, k_base + col)
}

/// Whether key `col` lies inside the causal window of query `row`.
pub open spec fn causal_window(row: int, col: int, window: int) -> bool {
    col <= row && row - col < window
}

/// Whether key `col` lies inside the transposed causal window of query `row`.
pub open spec fn transposed_causal_window(row: int, col: int, window: int) -> bool {
    row <= col && col - row < window
}

pub fn in_causal_window(row: u32, col: u32, window: u32) -> (inside: bool)
    ensures
        inside == causal_window(row as int, col as int, window as int),
{
    col <= row && row - col < window
}

pub fn in_transposed_causal_window(row: u32, col: u32, window: u32) -> (inside: bool)
    ensures
        inside == transposed_causal_window(row as int, col as int, window as int),
{
    col >= row && col - row < window
}

} // verus!
