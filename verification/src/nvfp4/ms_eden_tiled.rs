use vstd::prelude::*;
use vstd::arithmetic::power2::pow2;
use vstd::bits::{lemma_u32_pow2_no_overflow, lemma_u32_shl_is_mul};
use vstd::std_specs::bits::u32_trailing_zeros;

use super::pow2::{is_pow2, lemma_pow2_is_shifted_one};

verus! {

/// Source rows of one tile of the tiled Eden transposing kernels: one output chunk.
pub const EDEN_TILE_ROWS: u32 = 32;

/// Source columns of one tile of the tiled Eden transposing kernels: one output
/// row per warp.
pub const EDEN_TILE_COLS: u32 = 8;

/// The source element `(row, col)` whose value thread `thread_id` of block
/// `(block_x, block_y)` loads into tile position `(thread_id / 8, thread_id % 8)`
/// (the even threads of each pair load both values of the pair).
pub open spec fn eden_tile_source(block_x: int, block_y: int, thread_id: int) -> (int, int) {
    (
        block_x * EDEN_TILE_ROWS as int + thread_id / EDEN_TILE_COLS as int,
        block_y * EDEN_TILE_COLS as int + thread_id % EDEN_TILE_COLS as int,
    )
}

/// Index into the NVFP4 input of the element that thread `thread_id` of block
/// `(block_x, block_y)` loads: `(source_row << source_cols_shift) + source_col`.
pub fn eden_tile_load_index(block_x: u32, block_y: u32, thread_id: u32, source_cols_shift: u32) -> (
    index: usize)
    requires
        thread_id < EDEN_TILE_ROWS * EDEN_TILE_COLS,
        source_cols_shift < 32,
        block_x * EDEN_TILE_ROWS + EDEN_TILE_ROWS <= u32::MAX,
        block_y * EDEN_TILE_COLS + EDEN_TILE_COLS <= u32::MAX,
        ((eden_tile_source(block_x as int, block_y as int, thread_id as int).0 as u32)
            << source_cols_shift) + eden_tile_source(
            block_x as int,
            block_y as int,
            thread_id as int,
        ).1 <= u32::MAX,
    ensures
        index == ((eden_tile_source(block_x as int, block_y as int, thread_id as int).0 as u32)
            << source_cols_shift) + eden_tile_source(
            block_x as int,
            block_y as int,
            thread_id as int,
        ).1,
{
    let tile_row = thread_id / EDEN_TILE_COLS;
    let tile_col = thread_id - tile_row * EDEN_TILE_COLS;
    let source_row = block_x * EDEN_TILE_ROWS + tile_row;
    let source_col = block_y * EDEN_TILE_COLS + tile_col;
    ((source_row << source_cols_shift) + source_col) as usize
}

/// Output row and chunk of warp `warp` of block `(block_x, block_y)` in the
/// tiled kernel for a power-of-two number of chunks per output row.
pub fn eden_tiled_chunk_pow2(block_x: u32, block_y: u32, warp: u32, chunks_per_row_shift: u32) -> (
    row_chunk: (u32, u32))
    requires
        warp < EDEN_TILE_COLS,
        chunks_per_row_shift < 32,
        block_y * EDEN_TILE_COLS + EDEN_TILE_COLS <= u32::MAX,
        (((block_y * EDEN_TILE_COLS + warp) as u32) << chunks_per_row_shift) + block_x
            <= u32::MAX,
    ensures
        row_chunk.0 == block_y * EDEN_TILE_COLS + warp,
        row_chunk.1 == (row_chunk.0 << chunks_per_row_shift) + block_x,
{
    let row = block_y * EDEN_TILE_COLS + warp;
    (row, (row << chunks_per_row_shift) + block_x)
}

/// Output row and chunk of warp `warp` of block `(block_x, block_y)` in the
/// tiled kernel for any number of chunks per output row.
pub fn eden_tiled_chunk_row_mul(block_x: u32, block_y: u32, warp: u32, chunks_per_row: u32) -> (
    row_chunk: (u32, u32))
    requires
        warp < EDEN_TILE_COLS,
        block_y * EDEN_TILE_COLS + EDEN_TILE_COLS <= u32::MAX,
        (block_y * EDEN_TILE_COLS + warp) * chunks_per_row + block_x <= u32::MAX,
    ensures
        row_chunk.0 == block_y * EDEN_TILE_COLS + warp,
        row_chunk.1 == row_chunk.0 * chunks_per_row + block_x,
{
    let row = block_y * EDEN_TILE_COLS + warp;
    (row, row * chunks_per_row + block_x)
}

/// The shift kernel and the multiply kernel pick the same chunk when the chunk
/// count per row is a power of two and the shift is its trailing zero count.
pub proof fn lemma_eden_chunk_shift_is_mul(row: u32, chunks_per_row: u32, block_x: u32)
    requires
        is_pow2(chunks_per_row),
        row * chunks_per_row + block_x <= u32::MAX,
    ensures
        (row << u32_trailing_zeros(chunks_per_row)) + block_x == row * chunks_per_row + block_x,
{
    lemma_pow2_is_shifted_one(chunks_per_row);
    let t = u32_trailing_zeros(chunks_per_row);
    lemma_u32_pow2_no_overflow(t as nat);
    lemma_u32_shl_is_mul(1, t);
    assert(chunks_per_row == pow2(t as nat));
    lemma_u32_shl_is_mul(row, t);
}

/// The input index `(source_row << shift) + source_col` is the row-major index
/// of `(source_row, source_col)` when the source rows hold `2^shift` values.
pub proof fn lemma_eden_load_index_row_major(source_row: u32, source_col: u32, source_cols: u32)
    requires
        is_pow2(source_cols),
        source_row * source_cols + source_col <= u32::MAX,
    ensures
        (source_row << u32_trailing_zeros(source_cols)) + source_col == source_row * source_cols
            + source_col,
{
    lemma_eden_chunk_shift_is_mul(source_row, source_cols, source_col);
}

/// The tiled kernels agree with the exact transposing kernel. Lane `lane` of
/// warp `warp` in block `(block_x, block_y)` packs the value at output
/// position `chunk * 32 + lane`, with `chunk = row * chunks_per_row + block_x`
/// and `row = block_y * 8 + warp`. In the transposed output of rows of
/// `source_rows = 32 * chunks_per_row` values, that position is output row
/// `row` and column `block_x * 32 + lane`, and the tile value the lane reads,
/// at tile position `(lane, warp)`, was loaded from source element
/// `(block_x * 32 + lane, block_y * 8 + warp)`: the element that the exact
/// kernel reads for that output position.
pub proof fn lemma_eden_tiled_matches_exact(
    block_x: int,
    block_y: int,
    warp: int,
    lane: int,
    chunks_per_row: int,
)
    requires
        0 <= block_x < chunks_per_row,
        0 <= block_y,
        0 <= warp < EDEN_TILE_COLS,
        0 <= lane < EDEN_TILE_ROWS,
    ensures
        ({
            let source_rows = chunks_per_row * EDEN_TILE_ROWS as int;
            let row = block_y * EDEN_TILE_COLS as int + warp;
            let output_index = (row * chunks_per_row + block_x) * EDEN_TILE_ROWS as int + lane;
            let loader = lane * EDEN_TILE_COLS as int + warp;
            &&& output_index / source_rows == row
            &&& output_index % source_rows == block_x * EDEN_TILE_ROWS as int + lane
            &&& eden_tile_source(block_x, block_y, loader) == (
                output_index % source_rows,
                output_index / source_rows,
            )
            &&& eden_tile_source(block_x, block_y, loader - warp % 2).1 + warp % 2
                == output_index / source_rows
            &&& eden_tile_source(block_x, block_y, loader - warp % 2).0 == output_index
                % source_rows
        }),
{
    let source_rows = chunks_per_row * 32;
    let row = block_y * 8 + warp;
    let column = block_x * 32 + lane;
    let output_index = (row * chunks_per_row + block_x) * 32 + lane;
    assert(output_index == row * source_rows + column) by (nonlinear_arith)
        requires
            output_index == (row * chunks_per_row + block_x) * 32 + lane,
            source_rows == chunks_per_row * 32,
            column == block_x * 32 + lane,
    ;
    assert(0 <= column < source_rows);
    vstd::arithmetic::div_mod::lemma_fundamental_div_mod_converse(
        output_index,
        source_rows,
        row,
        column,
    );
    let loader = lane * 8 + warp;
    assert(loader / 8 == lane && loader % 8 == warp);
    let even = loader - warp % 2;
    assert(even / 8 == lane && even % 8 == warp - warp % 2);
}

} // verus!
