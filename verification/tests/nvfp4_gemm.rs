use cuda_kernels::nvfp4_tma_matmul::launcher::{
    output_elements, GemmError, GemmKernel, GemmLaunch, GemmRowSumsqLaunch, Nvfp4GemmModule,
    Nvfp4GemmTiling,
};

fn module() -> Nvfp4GemmModule {
    Nvfp4GemmModule {
        tiling: Nvfp4GemmTiling {
            tile_m: 128,
            tile_n: 64,
            tile_k: 128,
            k_atom: 64,
        },
    }
}

fn square_module() -> Nvfp4GemmModule {
    Nvfp4GemmModule {
        tiling: Nvfp4GemmTiling {
            tile_m: 64,
            tile_n: 64,
            tile_k: 128,
            k_atom: 64,
        },
    }
}

#[test]
fn plain_gemm_has_one_block_per_output_tile() {
    let launch = module()
        .gemm_tma_nvfp4_device_scales_and_global_scale_buffers(256, 512, 192)
        .unwrap();
    assert_eq!(
        launch,
        GemmLaunch {
            kernel: GemmKernel::Plain,
            grid_x: 3,
            grid_y: 2,
            grid_z: 1,
            token_count: 256,
            input_dim: 512,
            output_dim: 192,
            global_scale_mode: 1,
        }
    );
}

#[test]
fn gemm_refuses_partial_tiles_and_empty_reduction() {
    let m = module();
    let bad = Err(GemmError::InvalidValue);
    assert_eq!(m.gemm_tma_nvfp4_device_scales_and_global_scale_buffers(100, 512, 192), bad);
    assert_eq!(m.gemm_tma_nvfp4_device_scales_and_global_scale_buffers(256, 512, 100), bad);
    assert_eq!(m.gemm_tma_nvfp4_device_scales_and_global_scale_buffers(256, 192, 192), bad);
    assert_eq!(m.gemm_tma_nvfp4_device_scales_and_global_scale_buffers(256, 0, 192), bad);
    assert_eq!(m.gemm_tma_nvfp4_rowwise_a_scale_and_global_scale_buffer(256, 0, 192), bad);
    assert_eq!(m.gemm_tma_nvfp4_rowwise_a_scale_residual(128, 128, 96), bad);
}

#[test]
fn rowwise_gemms_use_per_row_scales() {
    let m = module();
    let plain = m.gemm_tma_nvfp4_rowwise_a_scale_and_global_scale_buffer(128, 128, 64).unwrap();
    assert_eq!((plain.kernel, plain.global_scale_mode), (GemmKernel::Plain, 2));
    let residual = m.gemm_tma_nvfp4_rowwise_a_scale_residual(128, 128, 64).unwrap();
    assert_eq!((residual.kernel, residual.grid_x, residual.grid_y), (GemmKernel::Residual, 1, 1));
    let relu = m.gemm_tma_nvfp4_rowwise_a_scale_relu2(Some(128 * 64), 128, 128, 64).unwrap();
    assert_eq!(relu.kernel, GemmKernel::Relu2);
    let compact = m.gemm_tma_nvfp4_rowwise_a_scale_relu2_compact(None, 384, 256, 128).unwrap();
    assert_eq!((compact.kernel, compact.grid_x, compact.grid_y), (GemmKernel::Relu2Compact, 2, 3));
}

#[test]
fn padded_outputs_are_gridded_by_the_padded_width() {
    let m = module();
    let plain = m.gemm_tma_nvfp4_rowwise_a_scale_padded_output(128, 128, 100, 128).unwrap();
    assert_eq!((plain.grid_x, plain.output_dim), (2, 100));
    let affine = m.gemm_tma_nvfp4_rowwise_a_scale_affine_padded_output(128, 128, 120, 192).unwrap();
    assert_eq!((affine.kernel, affine.grid_x, affine.output_dim), (GemmKernel::Affine, 3, 120));
    assert_eq!(
        m.gemm_tma_nvfp4_rowwise_a_scale_padded_output(128, 128, 200, 128),
        Err(GemmError::InvalidValue)
    );
    assert_eq!(
        m.gemm_tma_nvfp4_rowwise_a_scale_affine_padded_output(128, 128, 64, 100),
        Err(GemmError::InvalidValue)
    );
}

#[test]
fn output_amax_needs_room_for_every_chunk() {
    let m = module();
    let (launch, chunks) = m
        .gemm_tma_nvfp4_device_scales_and_global_scale_buffers_with_output_amax(8, 8, 128, 128, 64)
        .unwrap();
    assert_eq!((launch.kernel, chunks), (GemmKernel::OutputAmax, 8));
    assert_eq!(
        m.gemm_tma_nvfp4_device_scales_and_global_scale_buffers_with_output_amax(7, 8, 128, 128, 64),
        Err(GemmError::InvalidValue)
    );
}

#[test]
fn relu2_backward_checks_both_buffers() {
    let m = module();
    let elems = 128 * 64;
    let (launch, chunks) = m
        .gemm_tma_nvfp4_rowwise_a_scale_relu2_backward_f16_with_output_amax(
            elems, elems, 4, 4, 128, 128, 64,
        )
        .unwrap();
    assert_eq!((launch.kernel, launch.global_scale_mode, chunks), (GemmKernel::Relu2BackwardF16Amax, 2, 4));
    assert_eq!(
        m.gemm_tma_nvfp4_rowwise_a_scale_relu2_backward_f16_with_output_amax(
            elems - 1,
            elems,
            4,
            4,
            128,
            128,
            64,
        ),
        Err(GemmError::InvalidValue)
    );
    assert_eq!(
        m.gemm_tma_nvfp4_rowwise_a_scale_relu2_backward_f16_with_output_amax(
            elems,
            elems - 1,
            4,
            4,
            128,
            128,
            64,
        ),
        Err(GemmError::InvalidValue)
    );
}

#[test]
fn symmetric_grid_covers_the_lower_triangle() {
    let m = square_module();
    let (launch, chunks) = m
        .gemm_tma_nvfp4_device_scales_and_global_scale_buffers_symmetric_with_output_amax(3, 3, 256, 128)
        .unwrap();
    assert_eq!(launch.grid_x, 10);
    assert_eq!((launch.grid_y, launch.kernel, launch.token_count, launch.output_dim), (1, GemmKernel::SymmetricAmax, 256, 256));
    assert_eq!(chunks, 3);
    assert_eq!(
        module().gemm_tma_nvfp4_device_scales_and_global_scale_buffers_symmetric_with_output_amax(3, 3, 256, 128),
        Err(GemmError::InvalidValue)
    );
}

#[test]
fn linear3_requires_a_bound_and_full_buffers() {
    let m = module();
    let elems = 128 * 64;
    let (launch, _) = m
        .gemm_tma_nvfp4_device_scales_and_global_scale_buffers_linear3_with_output_amax(
            elems, elems, elems, 1, 2, 2, 128, 128, 64,
        )
        .unwrap();
    assert_eq!(launch.kernel, GemmKernel::Linear3Amax);
    assert_eq!(
        m.gemm_tma_nvfp4_device_scales_and_global_scale_buffers_linear3_with_output_amax(
            elems, elems, elems, 0, 2, 2, 128, 128, 64,
        ),
        Err(GemmError::InvalidValue)
    );
}

#[test]
fn row_sumsq_reduces_one_partial_per_column_tile() {
    let m = module();
    let elems = 128 * 192;
    let plan = m
        .gemm_tma_nvfp4_device_scales_and_global_scale_buffers_linear3_with_row_sumsq(
            elems, elems, elems, 1, 128 * 3, 128, 128, 128, 192,
        )
        .unwrap();
    assert_eq!(
        plan,
        GemmRowSumsqLaunch {
            gemm: GemmLaunch {
                kernel: GemmKernel::Linear3RowSumsq,
                grid_x: 3,
                grid_y: 1,
                grid_z: 1,
                token_count: 128,
                input_dim: 128,
                output_dim: 192,
                global_scale_mode: 1,
            },
            reduce_rows: 128,
            reduce_block_threads: 64,
            partials_per_row: 3,
        }
    );
    assert_eq!(
        m.gemm_tma_nvfp4_device_scales_and_global_scale_buffers_linear3_with_row_sumsq(
            elems, elems, elems, 1, 128 * 3 - 1, 128, 128, 128, 192,
        ),
        Err(GemmError::InvalidValue)
    );
    assert_eq!(
        m.gemm_tma_nvfp4_device_scales_and_global_scale_buffers_linear3_with_row_sumsq(
            elems, elems, elems, 1, 128 * 3, 127, 128, 128, 192,
        ),
        Err(GemmError::InvalidValue)
    );
}

#[test]
fn output_elements_multiplies() {
    assert_eq!(output_elements(128, 192), 24576);
    assert_eq!(output_elements(0, 192), 0);
}
