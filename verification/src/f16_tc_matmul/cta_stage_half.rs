use vstd::prelude::*;

use super::convert::{
    load_f16_global_bits_read_only, load_f16x2_global_bits_read_only, pack_f16x2,
};
use super::cta_stage::{
    batch_fits, lemma_pair_coords, lemma_row_major_index, row_major_element, stage_pairs,
    staged_by_thread, valid_threads,
};
use super::cta_tile::{
    CTA_A_ELEMS, CTA_K, CtaMatmulDims, CtaTile, causal_window, in_causal_window,
    in_transposed_causal_window, stage_coords, tile_col, tile_row, transposed_causal_window,
};

verus! {

/// Staged element of the lower-triangular part (`col <= row`) of a row-major
/// `m x k` matrix `a`.
pub open spec fn staged_lower(
    src: Seq<u16>,
    tile: CtaTile,
    dims: CtaMatmulDims,
    k_base: int,
    offset: int,
) -> u16 {
    let row = tile.row_base + tile_row(offset);
    let col = k_base + tile_col(offset);
    if col <= row {
        row_major_element(src, tile.batch as int, dims.m as int, dims.k as int, row, col)
    } else {
        0
    }
}

/// Staged element of the causal band (`col <= row < col + window`) of a
/// row-major `m x k` matrix `a`.
pub open spec fn staged_windowed_lower(
    src: Seq<u16>,
    tile: CtaTile,
    dims: CtaMatmulDims,
    k_base: int,
    window: int,
    offset: int,
) -> u16 {
    let row = tile.row_base + tile_row(offset);
    let col = k_base + tile_col(offset);
    if causal_window(row, col, window) {
        row_major_element(src, tile.batch as int, dims.m as int, dims.k as int, row, col)
    } else {
        0
    }
}

/// Staged element of `a^T` restricted to its lower triangle, where `a` is a
/// row-major `k x m` matrix.
pub open spec fn staged_transposed_lower(
    src: Seq<u16>,
    tile: CtaTile,
    dims: CtaMatmulDims,
    k_base: int,
    offset: int,
) -> u16 {
    let row = tile.row_base + tile_row(offset);
    let col = k_base + tile_col(offset);
    if col >= row {
        row_major_element(src, tile.batch as int, dims.k as int, dims.m as int, col, row)
    } else {
        0
    }
}

/// Staged element of `a^T` restricted to the transposed causal band, where
/// `a` is a row-major `k x m` matrix.
pub open spec fn staged_transposed_windowed_lower(
    src: Seq<u16>,
    tile: CtaTile,
    dims: CtaMatmulDims,
    k_base: int,
    window: int,
    offset: int,
) -> u16 {
    let row = tile.row_base + tile_row(offset);
    let col = k_base + tile_col(offset);
    if transposed_causal_window(row, col, window) {
        row_major_element(src, tile.batch as int, dims.k as int, dims.m as int, col, row)
    } else {
        0
    }
}

/// Staged element of `rhs^T`, where `rhs` is a row-major `k x n` matrix.
pub open spec fn staged_rhs(
    src: Seq<u16>,
    tile: CtaTile,
    dims: CtaMatmulDims,
    k_base: int,
    offset: int,
) -> u16 {
    let row = tile.col_base + tile_row(offset);
    let col = k_base + tile_col(offset);
    row_major_element(src, tile.batch as int, dims.k as int, dims.n as int, col, row)
}

/// Bounds that keep a tile's global coordinates inside `u32`.
pub open spec fn tile_coords_fit(tile: CtaTile, k_base: u32) -> bool {
    &&& tile.row_base + CTA_A_ELEMS / CTA_K <= u32::MAX
    &&& tile.col_base + CTA_A_ELEMS / CTA_K <= u32::MAX
    &&& k_base + CTA_K <= u32::MAX
}

proof fn lemma_pack_zero_hi(lo: u16)
    ensures
        pack_f16x2(lo, 0) == lo as u32,
{
    assert((lo as u32) | ((0u16 as u32) << 16u32) == lo as u32) by (bit_vector);
}

proof fn lemma_pack_halves(lo: u16, hi: u16)
    ensures
        pack_f16x2(lo, hi) == (lo as u32) | ((hi as u32) << 16u32),
{
}

fn stage_a_lower(
    src: &[u16],
    dst: &mut Vec<u16>,
    tile: CtaTile,
    dims: CtaMatmulDims,
    k_base: u32,
    thread_idx: u32,
    threads: u32,
)
    requires
        old(dst)@.len() == CTA_A_ELEMS,
        valid_threads(thread_idx, threads),
        batch_fits(src@.len() as int, tile.batch as int, dims.m as int, dims.k as int),
        tile_coords_fit(tile, k_base),
    ensures
        staged_by_thread(
            old(dst)@,
            final(dst)@,
            thread_idx as int,
            threads as int,
            |offset: int| staged_lower(src@, tile, dims, k_base as int, offset),
        ),
{
    let ghost element = |offset: int| staged_lower(src@, tile, dims, k_base as int, offset);
    let load_pair = |pair: u32| -> (packed: u32)
        requires
            pair < CTA_A_ELEMS,
            pair % 2 == 0,
        ensures
            packed == pack_f16x2(element(pair as int), element(pair as int + 1)),
        {
            let (global_row, global_col) = stage_coords(pair, tile.row_base, k_base);
            proof {
                lemma_pair_coords(pair as int);
            }
            if global_row < dims.m && global_col + 1 < dims.k && global_col + 1 <= global_row {
                proof {
                    lemma_row_major_index(
                        tile.batch as int,
                        dims.m as int,
                        dims.k as int,
                        global_row as int,
                        global_col as int + 1,
                    );
                }
                let index = ((tile.batch * dims.m + global_row) * dims.k + global_col) as usize;
                load_f16x2_global_bits_read_only(src, index)
            } else if global_row < dims.m && global_col < dims.k && global_col <= global_row {
                proof {
                    lemma_row_major_index(
                        tile.batch as int,
                        dims.m as int,
                        dims.k as int,
                        global_row as int,
                        global_col as int,
                    );
                    lemma_pack_zero_hi(element(pair as int));
                }
                load_f16_global_bits_read_only(
                    src,
                    ((tile.batch * dims.m + global_row) * dims.k + global_col) as usize,
                ) as u32
            } else {
                proof {
                    lemma_pack_zero_hi(0);
                }
                0
            }
        };
    stage_pairs(dst, thread_idx, threads, load_pair, Ghost(element));
}

fn stage_a_windowed_lower(
    src: &[u16],
    dst: &mut Vec<u16>,
    tile: CtaTile,
    dims: CtaMatmulDims,
    k_base: u32,
    window: u32,
    thread_idx: u32,
    threads: u32,
)
    requires
        old(dst)@.len() == CTA_A_ELEMS,
        valid_threads(thread_idx, threads),
        batch_fits(src@.len() as int, tile.batch as int, dims.m as int, dims.k as int),
        tile_coords_fit(tile, k_base),
    ensures
        staged_by_thread(
            old(dst)@,
            final(dst)@,
            thread_idx as int,
            threads as int,
            |offset: int|
                staged_windowed_lower(src@, tile, dims, k_base as int, window as int, offset),
        ),
{
    let ghost element = |offset: int|
        staged_windowed_lower(src@, tile, dims, k_base as int, window as int, offset);
    let load_pair = |pair: u32| -> (packed: u32)
        requires
            pair < CTA_A_ELEMS,
            pair % 2 == 0,
        ensures
            packed == pack_f16x2(element(pair as int), element(pair as int + 1)),
        {
            let (global_row, global_col) = stage_coords(pair, tile.row_base, k_base);
            proof {
                lemma_pair_coords(pair as int);
            }
            if global_row < dims.m && global_col + 1 < dims.k && in_causal_window(
                global_row,
                global_col,
                window,
            ) && in_causal_window(global_row, global_col + 1, window) {
                proof {
                    lemma_row_major_index(
                        tile.batch as int,
                        dims.m as int,
                        dims.k as int,
                        global_row as int,
                        global_col as int + 1,
                    );
                }
                let index = ((tile.batch * dims.m + global_row) * dims.k + global_col) as usize;
                load_f16x2_global_bits_read_only(src, index)
            } else {
                let lo = if global_row < dims.m && global_col < dims.k && in_causal_window(
                    global_row,
                    global_col,
                    window,
                ) {
                    proof {
                        lemma_row_major_index(
                            tile.batch as int,
                            dims.m as int,
                            dims.k as int,
                            global_row as int,
                            global_col as int,
                        );
                    }
                    load_f16_global_bits_read_only(
                        src,
                        ((tile.batch * dims.m + global_row) * dims.k + global_col) as usize,
                    )
                } else {
                    0
                };
                let hi_col = global_col + 1;
                let hi = if global_row < dims.m && hi_col < dims.k && in_causal_window(
                    global_row,
                    hi_col,
                    window,
                ) {
                    proof {
                        lemma_row_major_index(
                            tile.batch as int,
                            dims.m as int,
                            dims.k as int,
                            global_row as int,
                            hi_col as int,
                        );
                    }
                    load_f16_global_bits_read_only(
                        src,
                        ((tile.batch * dims.m + global_row) * dims.k + hi_col) as usize,
                    )
                } else {
                    0
                };
                lo as u32 | ((hi as u32) << 16u32)
            }
        };
    stage_pairs(dst, thread_idx, threads, load_pair, Ghost(element));
}

fn stage_a_transposed_lower(
    src: &[u16],
    dst: &mut Vec<u16>,
    tile: CtaTile,
    dims: CtaMatmulDims,
    k_base: u32,
    thread_idx: u32,
    threads: u32,
)
    requires
        old(dst)@.len() == CTA_A_ELEMS,
        valid_threads(thread_idx, threads),
        batch_fits(src@.len() as int, tile.batch as int, dims.k as int, dims.m as int),
        tile_coords_fit(tile, k_base),
    ensures
        staged_by_thread(
            old(dst)@,
            final(dst)@,
            thread_idx as int,
            threads as int,
            |offset: int| staged_transposed_lower(src@, tile, dims, k_base as int, offset),
        ),
{
    let ghost element = |offset: int|
        staged_transposed_lower(src@, tile, dims, k_base as int, offset);
    let load_pair = |pair: u32| -> (packed: u32)
        requires
            pair < CTA_A_ELEMS,
            pair % 2 == 0,
        ensures
            packed == pack_f16x2(element(pair as int), element(pair as int + 1)),
        {
            let (global_row, global_col) = stage_coords(pair, tile.row_base, k_base);
            proof {
                lemma_pair_coords(pair as int);
            }
            let lo = if global_row < dims.m && global_col < dims.k && global_col >= global_row {
                proof {
                    lemma_row_major_index(
                        tile.batch as int,
                        dims.k as int,
                        dims.m as int,
                        global_col as int,
                        global_row as int,
                    );
                }
                load_f16_global_bits_read_only(
                    src,
                    ((tile.batch * dims.k + global_col) * dims.m + global_row) as usize,
                )
            } else {
                0
            };
            let hi_col = global_col + 1;
            let hi = if global_row < dims.m && hi_col < dims.k && hi_col >= global_row {
                proof {
                    lemma_row_major_index(
                        tile.batch as int,
                        dims.k as int,
                        dims.m as int,
                        hi_col as int,
                        global_row as int,
                    );
                }
                load_f16_global_bits_read_only(
                    src,
                    ((tile.batch * dims.k + hi_col) * dims.m + global_row) as usize,
                )
            } else {
                0
            };
            lo as u32 | ((hi as u32) << 16u32)
        };
    stage_pairs(dst, thread_idx, threads, load_pair, Ghost(element));
}

fn stage_a_transposed_windowed_lower(
    src: &[u16],
    dst: &mut Vec<u16>,
    tile: CtaTile,
    dims: CtaMatmulDims,
    k_base: u32,
    window: u32,
    thread_idx: u32,
    threads: u32,
)
    requires
        old(dst)@.len() == CTA_A_ELEMS,
        valid_threads(thread_idx, threads),
        batch_fits(src@.len() as int, tile.batch as int, dims.k as int, dims.m as int),
        tile_coords_fit(tile, k_base),
    ensures
        staged_by_thread(
            old(dst)@,
            final(dst)@,
            thread_idx as int,
            threads as int,
            |offset: int|
                staged_transposed_windowed_lower(
                    src@,
                    tile,
                    dims,
                    k_base as int,
                    window as int,
                    offset,
                ),
        ),
{
    let ghost element = |offset: int|
        staged_transposed_windowed_lower(src@, tile, dims, k_base as int, window as int, offset);
    let load_pair = |pair: u32| -> (packed: u32)
        requires
            pair < CTA_A_ELEMS,
            pair % 2 == 0,
        ensures
            packed == pack_f16x2(element(pair as int), element(pair as int + 1)),
        {
            let (global_row, global_col) = stage_coords(pair, tile.row_base, k_base);
            proof {
                lemma_pair_coords(pair as int);
            }
            let lo = if global_row < dims.m && global_col < dims.k && in_transposed_causal_window(
                global_row,
                global_col,
                window,
            ) {
                proof {
                    lemma_row_major_index(
                        tile.batch as int,
                        dims.k as int,
                        dims.m as int,
                        global_col as int,
                        global_row as int,
                    );
                }
                load_f16_global_bits_read_only(
                    src,
                    ((tile.batch * dims.k + global_col) * dims.m + global_row) as usize,
                )
            } else {
                0
            };
            let hi_col = global_col + 1;
            let hi = if global_row < dims.m && hi_col < dims.k && in_transposed_causal_window(
                global_row,
                hi_col,
                window,
            ) {
                proof {
                    lemma_row_major_index(
                        tile.batch as int,
                        dims.k as int,
                        dims.m as int,
                        hi_col as int,
                        global_row as int,
                    );
                }
                load_f16_global_bits_read_only(
                    src,
                    ((tile.batch * dims.k + hi_col) * dims.m + global_row) as usize,
                )
            } else {
                0
            };
            lo as u32 | ((hi as u32) << 16u32)
        };
    stage_pairs(dst, thread_idx, threads, load_pair, Ghost(element));
}

fn stage_rhs(
    src: &[u16],
    dst: &mut Vec<u16>,
    tile: CtaTile,
    dims: CtaMatmulDims,
    k_base: u32,
    thread_idx: u32,
    threads: u32,
)
    requires
        old(dst)@.len() == CTA_A_ELEMS,
        valid_threads(thread_idx, threads),
        batch_fits(src@.len() as int, tile.batch as int, dims.k as int, dims.n as int),
        tile_coords_fit(tile, k_base),
    ensures
        staged_by_thread(
            old(dst)@,
            final(dst)@,
            thread_idx as int,
            threads as int,
            |offset: int| staged_rhs(src@, tile, dims, k_base as int, offset),
        ),
{
    let ghost element = |offset: int| staged_rhs(src@, tile, dims, k_base as int, offset);
    let load_pair = |pair: u32| -> (packed: u32)
        requires
            pair < CTA_A_ELEMS,
            pair % 2 == 0,
        ensures
            packed == pack_f16x2(element(pair as int), element(pair as int + 1)),
        {
            let (global_row, global_col) = stage_coords(pair, tile.col_base, k_base);
            proof {
                lemma_pair_coords(pair as int);
            }
            let lo = if global_row < dims.n && global_col < dims.k {
                proof {
                    lemma_row_major_index(
                        tile.batch as int,
                        dims.k as int,
                        dims.n as int,
                        global_col as int,
                        global_row as int,
                    );
                }
                load_f16_global_bits_read_only(
                    src,
                    ((tile.batch * dims.k + global_col) * dims.n + global_row) as usize,
                )
            } else {
                0
            };
            let hi_col = global_col + 1;
            let hi = if global_row < dims.n && hi_col < dims.k {
                proof {
                    lemma_row_major_index(
                        tile.batch as int,
                        dims.k as int,
                        dims.n as int,
                        hi_col as int,
                        global_row as int,
                    );
                }
                load_f16_global_bits_read_only(
                    src,
                    ((tile.batch * dims.k + hi_col) * dims.n + global_row) as usize,
                )
            } else {
                0
            };
            lo as u32 | ((hi as u32) << 16u32)
        };
    stage_pairs(dst, thread_idx, threads, load_pair, Ghost(element));
}

/// Stages the lower triangle of `a` and the transposed `rhs` for depth slice `k_base`.
pub fn stage_tiles_half_rhs_lower_a(
    a: &[u16],
    rhs: &[u16],
    a_tile: &mut Vec<u16>,
    b_tile: &mut Vec<u16>,
    tile: CtaTile,
    dims: CtaMatmulDims,
    k_base: u32,
    thread_idx: u32,
    threads: u32,
)
    requires
        old(a_tile)@.len() == CTA_A_ELEMS,
        old(b_tile)@.len() == CTA_A_ELEMS,
        valid_threads(thread_idx, threads),
        batch_fits(a@.len() as int, tile.batch as int, dims.m as int, dims.k as int),
        batch_fits(rhs@.len() as int, tile.batch as int, dims.k as int, dims.n as int),
        tile_coords_fit(tile, k_base),
    ensures
        staged_by_thread(
            old(a_tile)@,
            final(a_tile)@,
            thread_idx as int,
            threads as int,
            |offset: int| staged_lower(a@, tile, dims, k_base as int, offset),
        ),
        staged_by_thread(
            old(b_tile)@,
            final(b_tile)@,
            thread_idx as int,
            threads as int,
            |offset: int| staged_rhs(rhs@, tile, dims, k_base as int, offset),
        ),
{
    stage_a_lower(a, a_tile, tile, dims, k_base, thread_idx, threads);
    stage_rhs(rhs, b_tile, tile, dims, k_base, thread_idx, threads);
}

/// Stages the lower triangle of `a^T` (from a row-major `k x m` `a`) and the transposed `rhs`.
pub fn stage_tiles_half_a_transposed_rhs_lower_a(
    a: &[u16],
    rhs: &[u16],
    a_tile: &mut Vec<u16>,
    b_tile: &mut Vec<u16>,
    tile: CtaTile,
    dims: CtaMatmulDims,
    k_base: u32,
    thread_idx: u32,
    threads: u32,
)
    requires
        old(a_tile)@.len() == CTA_A_ELEMS,
        old(b_tile)@.len() == CTA_A_ELEMS,
        valid_threads(thread_idx, threads),
        batch_fits(a@.len() as int, tile.batch as int, dims.k as int, dims.m as int),
        batch_fits(rhs@.len() as int, tile.batch as int, dims.k as int, dims.n as int),
        tile_coords_fit(tile, k_base),
    ensures
        staged_by_thread(
            old(a_tile)@,
            final(a_tile)@,
            thread_idx as int,
            threads as int,
            |offset: int| staged_transposed_lower(a@, tile, dims, k_base as int, offset),
        ),
        staged_by_thread(
            old(b_tile)@,
            final(b_tile)@,
            thread_idx as int,
            threads as int,
            |offset: int| staged_rhs(rhs@, tile, dims, k_base as int, offset),
        ),
{
    stage_a_transposed_lower(a, a_tile, tile, dims, k_base, thread_idx, threads);
    stage_rhs(rhs, b_tile, tile, dims, k_base, thread_idx, threads);
}

/// Stages the causal band of width `window` of `a` and the transposed `rhs`.
pub fn stage_tiles_half_rhs_windowed_lower_a(
    a: &[u16],
    rhs: &[u16],
    a_tile: &mut Vec<u16>,
    b_tile: &mut Vec<u16>,
    tile: CtaTile,
    dims: CtaMatmulDims,
    k_base: u32,
    window: u32,
    thread_idx: u32,
    threads: u32,
)
    requires
        old(a_tile)@.len() == CTA_A_ELEMS,
        old(b_tile)@.len() == CTA_A_ELEMS,
        valid_threads(thread_idx, threads),
        batch_fits(a@.len() as int, tile.batch as int, dims.m as int, dims.k as int),
        batch_fits(rhs@.len() as int, tile.batch as int, dims.k as int, dims.n as int),
        tile_coords_fit(tile, k_base),
    ensures
        staged_by_thread(
            old(a_tile)@,
            final(a_tile)@,
            thread_idx as int,
            threads as int,
            |offset: int| staged_windowed_lower(a@, tile, dims, k_base as int, window as int, offset),
        ),
        staged_by_thread(
            old(b_tile)@,
            final(b_tile)@,
            thread_idx as int,
            threads as int,
            |offset: int| staged_rhs(rhs@, tile, dims, k_base as int, offset),
        ),
{
    stage_a_windowed_lower(a, a_tile, tile, dims, k_base, window, thread_idx, threads);
    stage_rhs(rhs, b_tile, tile, dims, k_base, thread_idx, threads);
}

/// Stages the transposed causal band of width `window` of `a^T` and the transposed `rhs`.
pub fn stage_tiles_half_a_transposed_rhs_windowed_lower_a(
    a: &[u16],
    rhs: &[u16],
    a_tile: &mut Vec<u16>,
    b_tile: &mut Vec<u16>,
    tile: CtaTile,
    dims: CtaMatmulDims,
    k_base: u32,
    window: u32,
    thread_idx: u32,
    threads: u32,
)
    requires
        old(a_tile)@.len() == CTA_A_ELEMS,
        old(b_tile)@.len() == CTA_A_ELEMS,
        valid_threads(thread_idx, threads),
        batch_fits(a@.len() as int, tile.batch as int, dims.k as int, dims.m as int),
        batch_fits(rhs@.len() as int, tile.batch as int, dims.k as int, dims.n as int),
        tile_coords_fit(tile, k_base),
    ensures
        staged_by_thread(
            old(a_tile)@,
            final(a_tile)@,
            thread_idx as int,
            threads as int,
            |offset: int| staged_transposed_windowed_lower(a@, tile, dims, k_base as int, window as int, offset),
        ),
        staged_by_thread(
            old(b_tile)@,
            final(b_tile)@,
            thread_idx as int,
            threads as int,
            |offset: int| staged_rhs(rhs@, tile, dims, k_base as int, offset),
        ),
{
    stage_a_transposed_windowed_lower(a, a_tile, tile, dims, k_base, window, thread_idx, threads);
    stage_rhs(rhs, b_tile, tile, dims, k_base, thread_idx, threads);
}

} // verus!
