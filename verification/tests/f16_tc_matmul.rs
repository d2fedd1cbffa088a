use cuda_kernels::f16_tc_matmul::cta_store::{store_one, store_pair, StoreMask};
use cuda_kernels::f16_tc_matmul::convert::{
    load_f16_global_bits_read_only, load_f16x2_global_bits, load_f16x2_global_bits_read_only,
    store_f16x2_shared,
};
use cuda_kernels::f16_tc_matmul::cta_f32::windowed_lower_tile_active;
use cuda_kernels::f16_tc_matmul::cta_half_rhs::{
    half_a_transposed_rhs_lower_a_k_range, half_a_transposed_rhs_windowed_lower_a_k_range,
    half_rhs_lower_a_k_range, half_rhs_windowed_lower_a_k_range, KRange,
};
use cuda_kernels::f16_tc_matmul::cta_stage::{
    load_a_fragments, load_b_fragments, stage_matrix_tile, stage_tiles, stage_tiles_aligned,
};
use cuda_kernels::f16_tc_matmul::cta_stage_half::{
    stage_tiles_half_a_transposed_rhs_lower_a, stage_tiles_half_a_transposed_rhs_windowed_lower_a,
    stage_tiles_half_rhs_lower_a, stage_tiles_half_rhs_windowed_lower_a,
};
use cuda_kernels::f16_tc_matmul::cta_tile::{
    in_causal_window, in_transposed_causal_window, stage_coords, CtaMatmulDims, CtaTile,
    CTA_A_ELEMS,
};
use cuda_kernels::f16_tc_matmul::sparse_tile::{
    attention_tile_count, attention_tile_scale, div_ceil_u32,
};

const TILE_LEN: usize = CTA_A_ELEMS as usize;

fn tile_at(batch: u32, row_base: u32, col_base: u32) -> CtaTile {
    CtaTile { batch, row_base, col_base, warp_m: 0, group: 0, thread_in_group: 0 }
}

/// Distinct values for a `rows x cols` matrix so that misplaced reads show up.
fn matrix(batches: usize, rows: usize, cols: usize) -> Vec<u16> {
    (0..batches * rows * cols).map(|index| (index + 1) as u16).collect()
}

/// Element of the staged tile at `offset` for a tile starting at `row_base`,
/// `k_base` of a row-major matrix, zero outside.
fn expected_row_major(
    src: &[u16],
    batch: usize,
    rows: usize,
    cols: usize,
    row_base: usize,
    k_base: usize,
    offset: usize,
) -> u16 {
    let row = row_base + offset / 16;
    let col = k_base + offset % 16;
    if row < rows && col < cols {
        src[(batch * rows + row) * cols + col]
    } else {
        0
    }
}

#[test]
fn stage_coords_splits_offset_into_row_and_depth() {
    assert_eq!(stage_coords(37, 64, 16), (66, 21));
    assert_eq!(stage_coords(0, 0, 0), (0, 0));
    assert_eq!(stage_coords(1023, 128, 32), (128 + 63, 32 + 15));
}

#[test]
fn causal_windows_bound_the_distance_from_the_diagonal() {
    assert!(in_causal_window(5, 5, 1));
    assert!(in_causal_window(10, 3, 8));
    assert!(!in_causal_window(10, 2, 8));
    assert!(!in_causal_window(3, 4, 100));
    assert!(in_transposed_causal_window(3, 4, 2));
    assert!(!in_transposed_causal_window(3, 5, 2));
    assert!(!in_transposed_causal_window(4, 3, 100));
}

#[test]
fn packed_pairs_are_little_endian() {
    let src = [0x1111u16, 0x2222, 0x3333];
    assert_eq!(load_f16x2_global_bits(&src, 1), 0x3333_2222);
    assert_eq!(load_f16x2_global_bits_read_only(&src, 0), 0x2222_1111);
    assert_eq!(load_f16_global_bits_read_only(&src, 2), 0x3333);
    let mut dst = vec![0u16; 4];
    store_f16x2_shared(&mut dst, 2, 0xabcd_1234);
    assert_eq!(dst, vec![0, 0, 0x1234, 0xabcd]);
}

#[test]
fn all_threads_of_a_block_stage_the_whole_bounds_checked_tile() {
    let (m, n, k) = (3usize, 2usize, 5usize);
    let a = matrix(2, m, k);
    let b_t = matrix(2, n, k);
    let dims = CtaMatmulDims::new(2, m as u32, n as u32, k as u32);
    let tile = tile_at(1, 0, 0);
    let threads = 96;
    let mut a_tile = vec![0xffffu16; TILE_LEN];
    let mut b_tile = vec![0xffffu16; TILE_LEN];
    for thread in 0..threads {
        stage_tiles(&a, &b_t, &mut a_tile, &mut b_tile, tile, dims, 0, thread, threads);
    }
    for offset in 0..TILE_LEN {
        assert_eq!(a_tile[offset], expected_row_major(&a, 1, m, k, 0, 0, offset));
        assert_eq!(b_tile[offset], expected_row_major(&b_t, 1, n, k, 0, 0, offset));
    }
    assert_eq!(a_tile[0], a[15]);
    assert_eq!(a_tile[4], a[19]);
    assert_eq!(a_tile[5], 0);
}

#[test]
fn one_thread_stages_only_the_pairs_it_owns() {
    let a = matrix(1, 64, 16);
    let mut tile = vec![0xffffu16; TILE_LEN];
    let tile_pos = tile_at(0, 0, 0);
    stage_matrix_tile::<true>(&a, &mut tile, tile_pos, 0, 64, 16, 0, 1, 4);
    for offset in 0..TILE_LEN {
        if (offset / 2) % 4 == 1 {
            assert_eq!(tile[offset], a[offset]);
        } else {
            assert_eq!(tile[offset], 0xffff);
        }
    }
}

#[test]
fn aligned_staging_matches_bounds_checked_staging() {
    let (m, n, k) = (128usize, 64usize, 32usize);
    let a = matrix(1, m, k);
    let b_t = matrix(1, n, k);
    let dims = CtaMatmulDims::new(1, m as u32, n as u32, k as u32);
    let tile = tile_at(0, 64, 0);
    let mut checked = (vec![0u16; TILE_LEN], vec![0u16; TILE_LEN]);
    let mut aligned = (vec![0u16; TILE_LEN], vec![0u16; TILE_LEN]);
    for thread in 0..128 {
        stage_tiles(&a, &b_t, &mut checked.0, &mut checked.1, tile, dims, 16, thread, 128);
        stage_tiles_aligned(&a, &b_t, &mut aligned.0, &mut aligned.1, tile, dims, 16, thread, 128);
    }
    assert_eq!(checked, aligned);
    assert_eq!(aligned.0[0], a[64 * k + 16]);
    assert_eq!(aligned.1[17], b_t[k + 17]);
}

fn stage_half_lower(
    transposed: bool,
    window: Option<u32>,
    a: &[u16],
    rhs: &[u16],
    dims: CtaMatmulDims,
    tile: CtaTile,
    k_base: u32,
) -> (Vec<u16>, Vec<u16>) {
    let mut a_tile = vec![0xffffu16; TILE_LEN];
    let mut b_tile = vec![0xffffu16; TILE_LEN];
    for thread in 0..64 {
        match (transposed, window) {
            (false, None) => stage_tiles_half_rhs_lower_a(
                a, rhs, &mut a_tile, &mut b_tile, tile, dims, k_base, thread, 64,
            ),
            (true, None) => stage_tiles_half_a_transposed_rhs_lower_a(
                a, rhs, &mut a_tile, &mut b_tile, tile, dims, k_base, thread, 64,
            ),
            (false, Some(w)) => stage_tiles_half_rhs_windowed_lower_a(
                a, rhs, &mut a_tile, &mut b_tile, tile, dims, k_base, w, thread, 64,
            ),
            (true, Some(w)) => stage_tiles_half_a_transposed_rhs_windowed_lower_a(
                a, rhs, &mut a_tile, &mut b_tile, tile, dims, k_base, w, thread, 64,
            ),
        }
    }
    (a_tile, b_tile)
}

#[test]
fn lower_staging_keeps_only_the_lower_triangle() {
    let (m, n) = (20usize, 3usize);
    let a = matrix(1, m, m);
    let rhs = matrix(1, m, n);
    let dims = CtaMatmulDims::new(1, m as u32, n as u32, m as u32);
    let (a_tile, b_tile) = stage_half_lower(false, None, &a, &rhs, dims, tile_at(0, 0, 0), 16);
    for offset in 0..TILE_LEN {
        let (row, col) = (offset / 16, 16 + offset % 16);
        let expected = if row < m && col < m && col <= row { a[row * m + col] } else { 0 };
        assert_eq!(a_tile[offset], expected);
        let (n_row, depth) = (offset / 16, 16 + offset % 16);
        let expected_rhs = if n_row < n && depth < m { rhs[depth * n + n_row] } else { 0 };
        assert_eq!(b_tile[offset], expected_rhs);
    }
    assert_eq!(a_tile[16 * 16], a[16 * m + 16]);
    assert_eq!(a_tile[16 * 16 + 1], 0);
}

#[test]
fn transposed_lower_staging_reads_the_transpose_above_the_diagonal() {
    let m = 18usize;
    let a = matrix(1, m, m);
    let rhs = matrix(1, m, 2);
    let dims = CtaMatmulDims::new(1, m as u32, 2, m as u32);
    let (a_tile, _) = stage_half_lower(true, None, &a, &rhs, dims, tile_at(0, 0, 0), 0);
    for offset in 0..TILE_LEN {
        let (row, col) = (offset / 16, offset % 16);
        let expected = if row < m && col < m && col >= row { a[col * m + row] } else { 0 };
        assert_eq!(a_tile[offset], expected);
    }
}

#[test]
fn windowed_staging_keeps_only_the_band() {
    let m = 40usize;
    let a = matrix(1, m, m);
    let rhs = matrix(1, m, 4);
    let dims = CtaMatmulDims::new(1, m as u32, 4, m as u32);
    let window = 5usize;
    let (a_tile, _) =
        stage_half_lower(false, Some(window as u32), &a, &rhs, dims, tile_at(0, 0, 0), 16);
    let (t_tile, _) =
        stage_half_lower(true, Some(window as u32), &a, &rhs, dims, tile_at(0, 0, 0), 16);
    for offset in 0..TILE_LEN {
        let (row, col) = (offset / 16, 16 + offset % 16);
        let in_band = row < m && col < m && col <= row && row - col < window;
        assert_eq!(a_tile[offset], if in_band { a[row * m + col] } else { 0 });
        let in_t_band = row < m && col < m && col >= row && col - row < window;
        assert_eq!(t_tile[offset], if in_t_band { a[col * m + row] } else { 0 });
    }
}

#[test]
fn fragments_read_the_mma_register_layout() {
    let a_tile: Vec<u16> = (0..TILE_LEN as u32).map(|v| v as u16).collect();
    let tile = CtaTile { batch: 0, row_base: 0, col_base: 0, warp_m: 2, group: 3, thread_in_group: 1 };
    let pair = |offset: u32| offset | ((offset + 1) << 16);
    let a = load_a_fragments(&a_tile, tile);
    let row = 2 * 16 + 3;
    assert_eq!(a, [
        pair(row * 16 + 2),
        pair((row + 8) * 16 + 2),
        pair(row * 16 + 10),
        pair((row + 8) * 16 + 10),
    ]);
    let b = load_b_fragments(&a_tile, tile, 5);
    let b_row = 5 * 8 + 3;
    assert_eq!(b, [pair(b_row * 16 + 2), pair(b_row * 16 + 10)]);
}

#[test]
fn attention_tiles_round_up() {
    assert_eq!(attention_tile_count(0), 0);
    assert_eq!(attention_tile_count(1), 1);
    assert_eq!(attention_tile_count(64), 1);
    assert_eq!(attention_tile_count(65), 2);
    assert_eq!(attention_tile_count(1024), 16);
    assert_eq!(div_ceil_u32(u32::MAX, 64), 67_108_864);
    assert_eq!(div_ceil_u32(10, 3), 4);
}

#[test]
fn attention_tile_scale_reads_head_query_key_tile() {
    let scales: Vec<u32> = (0..2 * 3 * 3).collect();
    assert_eq!(attention_tile_scale(&scales, 0, 130, 0, 0), 0);
    assert_eq!(attention_tile_scale(&scales, 0, 130, 70, 129), 5);
    assert_eq!(attention_tile_scale(&scales, 1, 130, 128, 64), 9 + 7);
}

#[test]
fn windowed_tiles_are_kept_on_and_near_the_diagonal() {
    assert!(windowed_lower_tile_active(0, 0, 128));
    assert!(windowed_lower_tile_active(3, 1, 128));
    assert!(!windowed_lower_tile_active(4, 1, 128));
    assert!(!windowed_lower_tile_active(1, 2, 128));
    assert!(windowed_lower_tile_active(1, 0, 64));
    assert!(!windowed_lower_tile_active(2, 0, 64));
    assert!(windowed_lower_tile_active(2, 2, 0));
    assert!(!windowed_lower_tile_active(3, 2, 0));
    assert!(windowed_lower_tile_active(3, 2, 100));
}

#[test]
fn k_ranges_cover_every_contributing_depth() {
    assert_eq!(half_rhs_lower_a_k_range(64, 1000), KRange { start: 0, limit: 128 });
    assert_eq!(half_rhs_lower_a_k_range(64, 100), KRange { start: 0, limit: 100 });
    assert_eq!(half_a_transposed_rhs_lower_a_k_range(64, 256), KRange { start: 64, limit: 256 });
    assert_eq!(half_rhs_windowed_lower_a_k_range(128, 256, 50), KRange { start: 64, limit: 192 });
    assert_eq!(half_rhs_windowed_lower_a_k_range(128, 256, 500), KRange { start: 0, limit: 192 });
    assert_eq!(
        half_a_transposed_rhs_windowed_lower_a_k_range(64, 1000, 32),
        KRange { start: 64, limit: 159 },
    );
    assert_eq!(
        half_a_transposed_rhs_windowed_lower_a_k_range(64, 100, 32),
        KRange { start: 64, limit: 100 },
    );
}

#[test]
fn plain_store_pair_writes_two_neighbours() {
    let mut out = vec![0.0f32; 2 * 4 * 4];
    store_pair(&mut out, 1.5, 2.5, None, StoreMask::Full, true, 1, 4, 4, (2, 1), (2, 2));
    assert_eq!(out[16 + 9], 1.5);
    assert_eq!(out[16 + 10], 2.5);
    assert_eq!(out.iter().filter(|v| **v != 0.0).count(), 2);
}

#[test]
fn checked_store_drops_elements_outside_the_output() {
    let mut out = vec![0.0f32; 3 * 3];
    store_pair(&mut out, 1.0, 2.0, None, StoreMask::Full, true, 0, 3, 3, (1, 2), (1, 3));
    assert_eq!(out, vec![0.0, 0.0, 0.0, 0.0, 0.0, 1.0, 0.0, 0.0, 0.0]);
    store_one(&mut out, 7.0, None, StoreMask::Full, true, 0, 3, 3, (3, 0));
    assert_eq!(out, vec![0.0, 0.0, 0.0, 0.0, 0.0, 1.0, 0.0, 0.0, 0.0]);
    store_one(&mut out, 7.0, None, StoreMask::Full, false, 0, 3, 3, (2, 0));
    assert_eq!(out[6], 7.0);
}

#[test]
fn causal_store_zeroes_above_the_diagonal() {
    let mut out = vec![9.0f32; 4 * 4];
    store_pair(&mut out, 1.0, 2.0, Some(0.0), StoreMask::Lower, true, 0, 4, 4, (1, 1), (1, 2));
    assert_eq!((out[5], out[6]), (1.0, 0.0));
    store_pair(&mut out, 3.0, 4.0, Some(0.0), StoreMask::StrictLower, true, 0, 4, 4, (2, 1), (2, 2));
    assert_eq!((out[9], out[10]), (3.0, 0.0));
    store_pair(&mut out, -5.0, -6.0, Some(0.0), StoreMask::StrictLower, true, 0, 4, 4, (3, 0), (3, 1));
    assert_eq!((out[12], out[13]), (-5.0, -6.0));
}

#[test]
fn gradient_store_leaves_the_upper_triangle_untouched() {
    let mut out = vec![9.0f32; 4 * 4];
    store_pair(&mut out, 1.0, 2.0, None, StoreMask::Lower, true, 0, 4, 4, (1, 1), (1, 2));
    assert_eq!((out[5], out[6]), (1.0, 9.0));
    store_pair(&mut out, 3.0, 4.0, None, StoreMask::Lower, true, 0, 4, 4, (3, 2), (3, 3));
    assert_eq!((out[14], out[15]), (3.0, 4.0));
}
