use cuda_kernels::nvfp4::ms_eden_tiled::{
    eden_tile_load_index, eden_tiled_chunk_pow2, eden_tiled_chunk_row_mul,
};
use cuda_kernels::nvfp4::four_six_kernels::{
    four_six_lane_stores, pair_row_group, FourSixLaneStores,
};
use cuda_kernels::nvfp4::four_six::{
    FourSixLaunch, Nvfp4QuantArgs, Nvfp4QuantModule, Nvfp4QuantPaddedArgs,
    Nvfp4QuantPairTransposeExactArgs, Nvfp4QuantRowwiseArgs, Nvfp4QuantRowwiseDerivedAmaxArgs,
    Nvfp4QuantTransposePaddedArgs, PackedScaleLayout,
};
use cuda_kernels::nvfp4::four_six_kernels::{
    four_six_block_group, four_six_group_ctx, four_six_lane, four_six_scale_row,
    four_six_scale_row_pow2, padded_value, transpose_tile_group, transposed_exact_value,
    transposed_exact_value_pow2, transposed_padded_value, FourSixGroup, ScaleRow,
};
use cuda_kernels::nvfp4::ms_eden::{
    hash_u32, ms_eden_lane_stores, ms_eden_pack_chunk, pack_fp4_pair, random_sign, MsEdenLaneStores, MsEdenLaunch, MsEdenPackGrid,
    Nvfp4TransposeMsEdenDeviceScaleQuantArgs, TransposeGlobalScaleDerivation,
};
use cuda_kernels::nvfp4::pow2::is_power_of_two;

fn reference_hash(mut value: u32) -> u32 {
    value ^= value >> 16;
    value = value.wrapping_mul(0x7feb_352d);
    value ^= value >> 15;
    value = value.wrapping_mul(0x846c_a68b);
    value ^ (value >> 16)
}

#[test]
fn hash_matches_known_values() {
    assert_eq!(hash_u32(0), 0);
    assert_eq!(hash_u32(1), 0x6889_90c0);
    assert_eq!(hash_u32(0x1234_5678), 0xf5e7_1c96);
    assert_eq!(hash_u32(u32::MAX), 0x6768_824a);
    for value in [7u32, 99, 0x9e37_79b9, 0xdead_beef] {
        assert_eq!(hash_u32(value), reference_hash(value));
    }
}

#[test]
fn random_signs_follow_the_low_hash_bit() {
    assert_eq!(random_sign(0, 0), 1);
    assert_eq!(random_sign(0, 2), -1);
    assert_eq!(random_sign(1, 3), -1);
    assert_eq!(random_sign(0, 5), 1);
    assert_eq!(random_sign(0, 7), 1);
    assert_eq!(random_sign(0, 9), -1);
}

#[test]
fn powers_of_two_have_one_bit() {
    assert!(is_power_of_two(1));
    assert!(is_power_of_two(64));
    assert!(is_power_of_two(1 << 31));
    assert!(!is_power_of_two(0));
    assert!(!is_power_of_two(96));
    assert!(!is_power_of_two(u32::MAX));
}

#[test]
fn lanes_group_in_fours() {
    assert_eq!(four_six_lane(0), (0, 0x0f, 0));
    assert_eq!(four_six_lane(5), (1, 0xf0, 4));
    assert_eq!(four_six_lane(31), (3, 0xf000_0000, 28));
    assert_eq!(four_six_block_group(2, 256, 13), 2 * 64 + 3);
    assert_eq!(
        four_six_group_ctx(13, 2, 256, 13),
        FourSixGroup { group: 131, base: 131 * 16, lane: 1, mask: 0xf000, leader: 12 },
    );
}

#[test]
fn scale_rows_follow_row_length() {
    assert_eq!(four_six_scale_row(0, 0, 0), ScaleRow { row: 0, writes_global_scale: true });
    assert_eq!(four_six_scale_row(5, 80, 0), ScaleRow { row: 0, writes_global_scale: false });
    assert_eq!(four_six_scale_row(8, 128, 64), ScaleRow { row: 2, writes_global_scale: true });
    assert_eq!(four_six_scale_row(9, 144, 64), ScaleRow { row: 2, writes_global_scale: false });
    assert_eq!(four_six_scale_row(3, 48, 48), ScaleRow { row: 1, writes_global_scale: true });
}

#[test]
fn pow2_scale_rows_agree_with_the_general_kernel() {
    let row_len = 64u32;
    for group in 0..64usize {
        let base = group * 16;
        assert_eq!(
            four_six_scale_row_pow2(base, row_len.trailing_zeros(), row_len - 1),
            four_six_scale_row(group, base, row_len),
        );
    }
}

#[test]
fn padded_and_transposed_reads() {
    let x: Vec<i32> = (1..=6).collect();
    assert_eq!(padded_value(&x, 0, 0, 2, 3, 4), 1);
    assert_eq!(padded_value(&x, 0, 3, 2, 3, 4), 0);
    assert_eq!(padded_value(&x, 0, 6, 2, 3, 4), 6);
    assert_eq!(padded_value(&x, 0, 9, 2, 3, 4), 0);
    assert_eq!(transposed_padded_value(&x, 0, 1, 2, 3, 4), 4);
    assert_eq!(transposed_padded_value(&x, 0, 2, 2, 3, 4), 0);
    assert_eq!(transposed_padded_value(&x, 0, 4, 2, 3, 4), 2);
    assert_eq!(transposed_exact_value(&x, 0, 2, 3), 1);
    assert_eq!(transposed_exact_value(&x, 1, 2, 3), 4);
    assert_eq!(transposed_exact_value(&x, 5, 2, 3), 6);
}

#[test]
fn pow2_transpose_reads_agree_with_division() {
    let (rows, cols) = (8u32, 3u32);
    let x: Vec<u32> = (0..rows * cols).collect();
    for output_index in 0..rows * cols {
        assert_eq!(
            transposed_exact_value_pow2(&x, output_index, rows.trailing_zeros(), rows - 1, cols),
            transposed_exact_value(&x, output_index, rows, cols),
        );
    }
}

#[test]
fn tiled_transpose_groups_hold_the_exact_transpose() {
    let (rows, cols) = (32u32, 128u32);
    let x: Vec<u32> = (0..rows * cols).collect();
    for block_x in 0..2u32 {
        for block_y in 0..2u32 {
            for col in 0..64u32 {
                let group = transpose_tile_group(block_x, block_y, col, rows) as u32;
                for t in 0..16u32 {
                    let source = x[((block_y * 16 + t) * cols + block_x * 64 + col) as usize];
                    assert_eq!(transposed_exact_value(&x, group * 16 + t, rows, cols), source);
                }
            }
        }
    }
}

#[test]
fn eden_lanes_pack_pairs_into_bytes() {
    assert_eq!(
        ms_eden_lane_stores(3, 96, 0),
        MsEdenLaneStores { group: 6, writes_scale: true, payload_byte: Some(48) },
    );
    assert_eq!(
        ms_eden_lane_stores(3, 96, 17),
        MsEdenLaneStores { group: 7, writes_scale: false, payload_byte: None },
    );
    let mut writes = vec![0u32; 16];
    for lane in 0..32 {
        if let Some(byte) = ms_eden_lane_stores(3, 96, lane).payload_byte {
            writes[(byte - 48) as usize] += 1;
        }
    }
    assert!(writes.iter().all(|&count| count == 1));
}

fn eden_args(source_rows: u32, source_cols: u32, dst_row_len: u32) -> Nvfp4TransposeMsEdenDeviceScaleQuantArgs {
    Nvfp4TransposeMsEdenDeviceScaleQuantArgs {
        source_rows,
        source_cols,
        dst_row_len,
        sign_seed: 1,
        scale_seed: 2,
    }
}

#[test]
fn eden_transpose_dispatch() {
    let module = Nvfp4QuantModule {};
    let exact = MsEdenPackGrid { chunk_count: 8, exact: true };
    let partial = MsEdenPackGrid { chunk_count: 9, exact: false };
    assert_eq!(
        module.nvfp4_transpose_to_quartet_backward_ms_eden_derived_device_scale_no_chunk_amax(
            eden_args(128, 64, 128),
            exact,
        ).pack,
        MsEdenLaunch::NoChunkAmaxTiledPow2 {
            source_cols_shift: 6,
            chunks_per_row_shift: 2,
            sign_seed: 1,
            scale_seed: 2,
        },
    );
    assert_eq!(
        module.nvfp4_transpose_to_quartet_backward_ms_eden_derived_device_scale_no_chunk_amax(
            eden_args(96, 32, 96),
            exact,
        ).pack,
        MsEdenLaunch::NoChunkAmaxTiledRowMul {
            source_cols_shift: 5,
            chunks_per_row: 3,
            sign_seed: 1,
            scale_seed: 2,
        },
    );
    assert_eq!(
        module.nvfp4_transpose_to_quartet_backward_ms_eden_derived_device_scale_no_chunk_amax(
            eden_args(96, 48, 96),
            exact,
        ).pack,
        MsEdenLaunch::NoChunkAmaxExact {
            source_rows: 96,
            source_cols: 48,
            dst_row_len: 96,
            sign_seed: 1,
            scale_seed: 2,
        },
    );
    assert_eq!(
        module.nvfp4_transpose_to_quartet_backward_ms_eden_derived_device_scale_no_chunk_amax(
            eden_args(96, 32, 128),
            partial,
        ).pack,
        MsEdenLaunch::NoChunkAmax {
            chunk_count: 9,
            source_rows: 96,
            source_cols: 32,
            dst_row_len: 128,
            sign_seed: 1,
            scale_seed: 2,
        },
    );
    assert_eq!(
        module.nvfp4_transpose_to_quartet_backward_ms_eden_derived_device_scale(
            eden_args(96, 32, 128),
            partial,
        ).pack,
        MsEdenLaunch::WithChunkAmax {
            chunk_count: 9,
            source_rows: 96,
            source_cols: 32,
            dst_row_len: 128,
            sign_seed: 1,
            scale_seed: 2,
        },
    );
}

#[test]
fn eden_plans_derive_the_global_scale_first() {
    let module = Nvfp4QuantModule {};
    let exact = MsEdenPackGrid { chunk_count: 8, exact: true };
    let derivation = TransposeGlobalScaleDerivation { source_rows: 128, source_cols: 64, dst_row_len: 128 };
    assert_eq!(
        module
            .nvfp4_transpose_to_quartet_backward_ms_eden_derived_device_scale_no_chunk_amax(eden_args(128, 64, 128), exact)
            .derive_global_scale,
        derivation
    );
    assert_eq!(
        module.nvfp4_transpose_to_quartet_backward_ms_eden_derived_device_scale(eden_args(128, 64, 128), exact).derive_global_scale,
        derivation
    );
}

#[test]
fn four_six_rowwise_dispatch() {
    let module = Nvfp4QuantModule {};
    assert_eq!(
        module.fp32_to_nvfp4_four_six(Nvfp4QuantArgs { group_count: 12 }),
        FourSixLaunch::FourSix { group_count: 12, row_len: 0 },
    );
    let rowwise = Nvfp4QuantRowwiseArgs { group_count: 32, row_len: 128 };
    assert_eq!(
        module.fp32_to_nvfp4_four_six_rowwise(rowwise, true),
        FourSixLaunch::RowwisePow2 { group_count: 32, row_shift: 7, row_mask: 127 },
    );
    assert_eq!(
        module.fp32_to_nvfp4_four_six_rowwise(rowwise, false),
        FourSixLaunch::FourSix { group_count: 32, row_len: 128 },
    );
    let derived = Nvfp4QuantRowwiseDerivedAmaxArgs { row_count: 17, row_len: 2048 };
    assert_eq!(
        module.fp32_to_nvfp4_four_six_rowwise_derived_amax(derived, true),
        FourSixLaunch::RowwiseDerivedAmaxPow2 { row_count: 17, row_len: 2048 },
    );
    assert_eq!(
        module.fp32_to_nvfp4_four_six_rowwise_derived_amax(derived, false),
        FourSixLaunch::RowAmaxThenFourSix { row_count: 17, row_len: 2048, group_count: 2176 },
    );
}

fn padded(rows: u32, cols: u32, padded_rows: u32, padded_cols: u32) -> Nvfp4QuantPaddedArgs {
    Nvfp4QuantPaddedArgs { rows, cols, padded_rows, padded_cols, out_scales_len: 1 << 20 }
}

#[test]
fn four_six_padded_dispatch() {
    let module = Nvfp4QuantModule {};
    assert_eq!(
        module.fp32_to_nvfp4_four_six_padded(padded(64, 32, 64, 32)),
        FourSixLaunch::Exact { group_count: 128 },
    );
    assert_eq!(
        module.fp32_to_nvfp4_four_six_padded(padded(60, 30, 64, 32)),
        FourSixLaunch::Padded { group_count: 128, rows: 60, cols: 30, padded_cols: 32 },
    );
    assert_eq!(
        module.fp32_to_nvfp4_four_six_exact_bounded_amax(padded(64, 32, 64, 32)),
        FourSixLaunch::ExactBoundedAmax { group_count: 128, apply_bound: false },
    );
    assert_eq!(
        module.fp32_to_nvfp4_four_six_exact_lazy_bounded_amax(padded(64, 32, 64, 32)),
        FourSixLaunch::ExactBoundedAmax { group_count: 128, apply_bound: true },
    );
    let layout = PackedScaleLayout { mn_block: 128, k_atom: 64, packed_len: 512, transpose_packed_len: 512 };
    assert_eq!(
        module.fp32_to_nvfp4_four_six_exact_bounded_amax_packed_scales(padded(128, 256, 128, 256), layout),
        FourSixLaunch::ExactBoundedAmaxPackedScales { group_count: 2048, rows: 128, cols: 256, apply_bound: false },
    );
    assert_eq!(
        module.fp32_to_nvfp4_four_six_exact_lazy_bounded_amax_packed_scales(padded(128, 256, 128, 256), layout),
        FourSixLaunch::ExactBoundedAmaxPackedScales { group_count: 2048, rows: 128, cols: 256, apply_bound: true },
    );
}

fn transpose(source_rows: u32, source_cols: u32, padded_rows: u32, padded_cols: u32) -> Nvfp4QuantTransposePaddedArgs {
    Nvfp4QuantTransposePaddedArgs { source_rows, source_cols, padded_rows, padded_cols, out_scales_len: 1 << 20 }
}

#[test]
fn four_six_transpose_dispatch() {
    let module = Nvfp4QuantModule {};
    assert_eq!(
        module.fp32_transpose_to_nvfp4_four_six_padded(transpose(64, 128, 128, 64)),
        FourSixLaunch::TransposeExactPow2Tiled { source_rows: 64, source_cols: 128 },
    );
    assert_eq!(
        module.fp32_transpose_to_nvfp4_four_six_padded(transpose(8, 32, 32, 8)),
        FourSixLaunch::TransposeExactPow2 {
            group_count: 16,
            source_rows_shift: 3,
            source_rows_mask: 7,
            source_cols: 32,
        },
    );
    assert_eq!(
        module.fp32_transpose_to_nvfp4_four_six_padded(transpose(48, 32, 32, 48)),
        FourSixLaunch::TransposeExact { group_count: 96, source_rows: 48, source_cols: 32 },
    );
    assert_eq!(
        module.fp32_transpose_to_nvfp4_four_six_padded(transpose(40, 30, 32, 48)),
        FourSixLaunch::TransposePadded { group_count: 96, source_rows: 40, source_cols: 30, padded_cols: 48 },
    );
    let layout = PackedScaleLayout { mn_block: 128, k_atom: 64, packed_len: 512, transpose_packed_len: 512 };
    assert_eq!(
        module.fp32_transpose_to_nvfp4_four_six_exact_packed_scales(transpose(64, 128, 128, 64), layout),
        FourSixLaunch::TransposeExactPow2TiledPackedScales { source_rows: 64, source_cols: 128 },
    );
}

#[test]
fn four_six_pair_dispatch() {
    let module = Nvfp4QuantModule {};
    let args = Nvfp4QuantPairTransposeExactArgs {
        source_rows: 128,
        source_cols: 256,
        out_scales_len: 4096,
        transpose_out_scales_len: 4096,
    };
    assert_eq!(
        module.fp32_pair_to_nvfp4_four_six_exact_pow2_tiled(args),
        FourSixLaunch::PairExactPow2Tiled { source_rows: 128, source_cols: 256 },
    );
    let layout = PackedScaleLayout { mn_block: 128, k_atom: 64, packed_len: 4096, transpose_packed_len: 4096 };
    assert_eq!(
        module.fp32_pair_to_nvfp4_four_six_exact_pow2_tiled_packed_scales(args, layout),
        FourSixLaunch::PairExactPow2TiledPackedScales { source_rows: 128, source_cols: 256 },
    );
}

#[test]
fn sqrt_bounded_transposes_differ_only_in_laziness() {
    let module = Nvfp4QuantModule {};
    assert_eq!(
        module.fp32_transpose_to_nvfp4_four_six_exact_sqrt_bounded_amax(transpose(64, 128, 128, 64)),
        FourSixLaunch::TransposeExactPow2TiledSqrtBoundedAmax { source_rows: 64, source_cols: 128, apply_bound: false }
    );
    assert_eq!(
        module.fp32_transpose_to_nvfp4_four_six_exact_lazy_sqrt_bounded_amax(transpose(64, 128, 128, 64)),
        FourSixLaunch::TransposeExactPow2TiledSqrtBoundedAmax { source_rows: 64, source_cols: 128, apply_bound: true }
    );
    assert_eq!(
        module.rebase_four_six_global_scale_sqrt_bound(),
        FourSixLaunch::RebaseSqrtBoundGlobalScale { work_items: 1, block_threads: 32 }
    );
}

#[test]
fn fp4_pairs_put_the_even_code_low() {
    assert_eq!(pack_fp4_pair(0x3, 0xa), 0xa3);
    assert_eq!(pack_fp4_pair(0xf, 0x0), 0x0f);
    assert_eq!(pack_fp4_pair(0x0, 0xf), 0xf0);
}

#[test]
fn eden_chunk_pack_writes_its_bytes_and_scales_only() {
    let codes: Vec<u8> = (0..32u8).map(|lane| lane % 16).collect();
    let mut fp4 = vec![0x55u8; 48];
    let mut scales = vec![0x77u8; 6];
    ms_eden_pack_chunk(&mut fp4, &mut scales, 1, &codes, &vec![9, 11]);
    for j in 0..16usize {
        let lo = codes[2 * j];
        let hi = codes[2 * j + 1];
        assert_eq!(fp4[16 + j], lo | (hi << 4));
    }
    assert!(fp4[..16].iter().all(|b| *b == 0x55));
    assert!(fp4[32..].iter().all(|b| *b == 0x55));
    assert_eq!(scales, vec![0x77, 0x77, 9, 11, 0x77, 0x77]);
}

#[test]
fn four_six_lane_stores_place_scale_and_payload() {
    let ctx = |lane: usize| FourSixGroup { group: 3, base: 48, lane, mask: 0xf0, leader: 4 };
    let row = ScaleRow { row: 1, writes_global_scale: true };
    assert_eq!(
        four_six_lane_stores(ctx(0), row),
        FourSixLaneStores { first_value: 48, payload_word: 12, scale_index: Some(3), global_scale_row: Some(1) }
    );
    assert_eq!(
        four_six_lane_stores(ctx(3), row),
        FourSixLaneStores { first_value: 60, payload_word: 15, scale_index: None, global_scale_row: None }
    );
    assert_eq!(
        four_six_lane_stores(ctx(0), ScaleRow { row: 1, writes_global_scale: false }).global_scale_row,
        None
    );
    let mut bytes = vec![0u32; 8];
    let mut values = vec![0u32; 16];
    for lane in 0..4 {
        let stores = four_six_lane_stores(ctx(lane), row);
        for v in 0..4 {
            values[stores.first_value - 48 + v] += 1;
        }
        bytes[2 * stores.payload_word - 24] += 1;
        bytes[2 * stores.payload_word + 1 - 24] += 1;
    }
    assert!(values.iter().all(|count| *count == 1));
    assert!(bytes.iter().all(|count| *count == 1));
}

#[test]
fn paired_row_groups_start_at_their_row_major_value() {
    let group = pair_row_group(1, 2, 5, 256);
    assert_eq!(group, 533);
    assert_eq!(group * 16, (2 * 16 + 5 / 4) * 256 + 64 + (5 % 4) * 16);
    assert_eq!(pair_row_group(0, 0, 0, 64), 0);
    assert_eq!(pair_row_group(0, 0, 63, 64), 63);
}

#[test]
fn eden_tiled_kernels_read_the_transposed_element() {
    // source: 96 rows (3 chunks per output row) x 64 columns.
    let (source_rows, source_cols) = (96u32, 64u32);
    let (block_x, block_y, warp, lane) = (2u32, 5u32, 3u32, 17u32);
    let (row, chunk) = eden_tiled_chunk_row_mul(block_x, block_y, warp, 3);
    assert_eq!((row, chunk), (43, 131));
    let output_index = chunk * 32 + lane;
    assert_eq!(output_index / source_rows, row);
    assert_eq!(output_index % source_rows, block_x * 32 + lane);
    let loaded = eden_tile_load_index(block_x, block_y, lane * 8 + warp - warp % 2, 6) + (warp % 2) as usize;
    let expected = ((output_index % source_rows) * source_cols + output_index / source_rows) as usize;
    assert_eq!(loaded, expected);
    assert_eq!(eden_tiled_chunk_pow2(block_x, block_y, warp, 2), (43, 43 * 4 + 2));
    assert_eq!(eden_tiled_chunk_row_mul(block_x, block_y, warp, 4), (43, 43 * 4 + 2));
}

#[test]
fn eden_hash_maps_zero_to_zero_and_separates_values() {
    assert_eq!(hash_u32(0), 0);
    let mut seen = std::collections::HashSet::new();
    for value in 0..4096u32 {
        assert!(seen.insert(hash_u32(value)));
    }
}
