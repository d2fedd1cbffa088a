use cuda_kernels::f16_tc_matmul::launcher::{
    assert_window, window_is_valid, cta_config, cta_narrow_config, elements, fp32_to_f16_step,
    sparse_tile_elements, validate_sparse_half_rhs, ConvertStep, CtaBlockWidth, CtaLaunch,
    CtaLaunchConfig, F16ConvertArgs, F16ConvertLaunch, F16TcKernel, F16TcMatmulArgs,
    F16TcMatmulHalfArgs, F16TcMatmulHalfDsArgs, F16TcMatmulHalfDsSparseWindowArgs,
    F16TcMatmulHalfDsWindowArgs, F16TcMatmulHalfRhsArgs, F16TcMatmulHalfRhsSparseWindowArgs,
    F16TcMatmulHalfRhsWindowArgs, F16TcMatmulModule, PrepareHalves, F16_THREADS_PER_BLOCK,
};

fn wide(grid_x: u32, grid_y: u32, grid_z: u32) -> CtaLaunchConfig {
    CtaLaunchConfig { grid_x, grid_y, grid_z, width: CtaBlockWidth::Wide }
}

fn sparse_args(m: u32, n: u32, window: u32) -> F16TcMatmulHalfRhsSparseWindowArgs {
    F16TcMatmulHalfRhsSparseWindowArgs {
        a_len: (m * m) as usize,
        rhs_len: (m * n) as usize,
        tile_scales_len: sparse_tile_elements(1, m),
        out_len: (m * n) as usize,
        batch_count: 1,
        m,
        n,
        k: m,
        window,
    }
}

#[test]
fn element_counts_multiply_the_shape() {
    assert_eq!(elements(3, 4, 5), 60);
    assert_eq!(elements(0, 4, 5), 0);
    assert_eq!(elements(65_536, 65_536, 1), 4_294_967_296);
    assert_eq!(sparse_tile_elements(2, 130), 18);
    assert_eq!(sparse_tile_elements(1, 0), 0);
}

#[test]
fn windows_must_be_positive_whole_tiles_within_the_sequence() {
    assert!(window_is_valid(64, 64));
    assert!(window_is_valid(128, 256));
    assert!(!window_is_valid(0, 256));
    assert!(!window_is_valid(96, 256));
    assert!(!window_is_valid(320, 256));
    assert_window(64, 64);
    assert_window(128, 256);
}

#[test]
fn cta_grid_has_one_block_per_output_tile() {
    assert_eq!(cta_config(100, 130, 2), wide(3, 2, 2));
    assert_eq!(cta_config(64, 64, 1), wide(1, 1, 1));
    assert_eq!(cta_config(0, 0, 1), wide(0, 0, 1));
    assert_eq!(
        cta_narrow_config(65, 1, 3),
        CtaLaunchConfig { grid_x: 1, grid_y: 2, grid_z: 3, width: CtaBlockWidth::Narrow },
    );
}

#[test]
fn sparse_validation_checks_each_condition() {
    assert!(sparse_args(256, 64, 128).fits());
    validate_sparse_half_rhs(&sparse_args(256, 64, 128));
    let mut args = sparse_args(256, 64, 128);
    args.k = 128;
    assert!(!args.fits());
    assert!(!sparse_args(256, 64, 100).fits());
    let mut args = sparse_args(256, 64, 128);
    args.tile_scales_len -= 1;
    assert!(!args.fits());
    let mut args = sparse_args(256, 64, 128);
    args.rhs_len -= 1;
    assert!(!args.fits());
    let mut args = sparse_args(256, 64, 128);
    args.out_len -= 1;
    assert!(!args.fits());
    let mut args = sparse_args(256, 64, 128);
    args.a_len -= 1;
    assert!(!args.fits());
}

#[test]
fn sparse_launchers_plan_their_kernels() {
    let module = F16TcMatmulModule {};
    let args = sparse_args(256, 64, 128);
    let plan = |kernel| CtaLaunch {
        kernel,
        config: wide(1, 4, 1),
        batch_count: 1,
        m: 256,
        n: 64,
        k: 256,
        window: 128,
    };
    assert_eq!(
        module.batched_matmul_half_rhs_windowed_lower_a_sparse(args),
        plan(F16TcKernel::MatmulHalfRhsWindowedLowerASparse),
    );
    assert_eq!(
        module.batched_matmul_half_a_transposed_rhs_windowed_lower_a_sparse(args),
        plan(F16TcKernel::MatmulHalfATransposedRhsWindowedLowerASparse),
    );
    assert_eq!(
        module.batched_matmul_half_a_transposed_rhs_windowed_lower_a_sparse_scaled(args),
        plan(F16TcKernel::MatmulHalfATransposedRhsWindowedLowerASparseScaled),
    );
}

#[test]
fn half_input_launchers_plan_their_kernels() {
    let module = F16TcMatmulModule {};
    let args = F16TcMatmulHalfArgs {
        a_len: 2 * 70 * 32,
        b_t_len: 2 * 70 * 32,
        out_len: 2 * 70 * 70,
        batch_count: 2,
        m: 70,
        n: 70,
        k: 32,
    };
    assert!(args.fits());
    assert!(args.fits_lower());
    let expected = |kernel| CtaLaunch {
        kernel,
        config: wide(2, 2, 2),
        batch_count: 2,
        m: 70,
        n: 70,
        k: 32,
        window: 0,
    };
    assert_eq!(module.batched_matmul_half_input(args), expected(F16TcKernel::Matmul));
    assert_eq!(module.batched_matmul_half_input_lower(args), expected(F16TcKernel::MatmulLower));
    let rectangular = F16TcMatmulHalfArgs { n: 10, out_len: 2 * 70 * 10, b_t_len: 2 * 10 * 32, ..args };
    assert!(rectangular.fits());
    assert!(!rectangular.fits_lower());
    let short = F16TcMatmulHalfArgs { out_len: 2 * 70 * 70 - 1, ..args };
    assert!(!short.fits());
}

#[test]
fn softmax_gradient_launchers_plan_their_kernels() {
    let module = F16TcMatmulModule {};
    let ds = F16TcMatmulHalfDsArgs {
        a_len: 128 * 64,
        b_t_len: 128 * 64,
        probs_len: 128 * 128,
        softmax_d_len: 128,
        out_len: 128 * 128,
        batch_count: 1,
        m: 128,
        n: 128,
        k: 64,
    };
    assert!(ds.fits());
    assert!(!F16TcMatmulHalfDsArgs { softmax_d_len: 127, ..ds }.fits());
    assert_eq!(
        module.batched_matmul_half_input_lower_ds(ds),
        CtaLaunch {
            kernel: F16TcKernel::MatmulLowerDs,
            config: wide(2, 2, 1),
            batch_count: 1,
            m: 128,
            n: 128,
            k: 64,
            window: 0,
        },
    );
    let windowed = F16TcMatmulHalfDsWindowArgs {
        a_len: 128 * 64,
        b_t_len: 128 * 64,
        probs_len: 128 * 128,
        softmax_d_len: 128,
        out_len: 128 * 128,
        batch_count: 1,
        m: 128,
        n: 128,
        k: 64,
        window: 64,
    };
    assert!(windowed.fits());
    assert!(!F16TcMatmulHalfDsWindowArgs { window: 192, ..windowed }.fits());
    assert_eq!(
        module.batched_matmul_half_input_windowed_lower_ds(windowed).kernel,
        F16TcKernel::MatmulWindowedLowerDs,
    );
    assert_eq!(module.batched_matmul_half_input_windowed_lower_ds(windowed).window, 64);
    let sparse = F16TcMatmulHalfDsSparseWindowArgs {
        a_len: 128 * 64,
        b_t_len: 128 * 64,
        probs_len: 128 * 128,
        softmax_d_len: 128,
        tile_scales_len: 4,
        out_len: 128 * 128,
        batch_count: 1,
        m: 128,
        n: 128,
        k: 64,
        window: 128,
    };
    assert!(sparse.fits());
    assert!(!F16TcMatmulHalfDsSparseWindowArgs { tile_scales_len: 3, ..sparse }.fits());
    assert_eq!(
        module.batched_matmul_half_input_windowed_lower_ds_sparse(sparse).kernel,
        F16TcKernel::MatmulWindowedLowerDsSparse,
    );
}

#[test]
fn right_hand_side_launchers_plan_their_kernels() {
    let module = F16TcMatmulModule {};
    let args = F16TcMatmulHalfRhsArgs {
        a_len: 256 * 256,
        rhs_len: 256 * 64,
        out_len: 256 * 64,
        batch_count: 1,
        m: 256,
        n: 64,
        k: 256,
    };
    assert!(args.fits_lower_a());
    assert!(args.fits_a_transposed_lower_a());
    assert!(!F16TcMatmulHalfRhsArgs { k: 128, ..args }.fits_lower_a());
    let lower = module.batched_matmul_half_rhs_lower_a(args);
    assert_eq!(lower.kernel, F16TcKernel::MatmulHalfRhsLowerA);
    assert_eq!(lower.config, wide(1, 4, 1));
    assert_eq!(
        module.batched_matmul_half_a_transposed_rhs_lower_a(args).kernel,
        F16TcKernel::MatmulHalfATransposedRhsLowerA,
    );
    let windowed = F16TcMatmulHalfRhsWindowArgs {
        a_len: 256 * 256,
        rhs_len: 256 * 64,
        out_len: 256 * 64,
        batch_count: 1,
        m: 256,
        n: 64,
        k: 256,
        window: 128,
    };
    assert!(windowed.fits_windowed_lower_a());
    assert!(windowed.fits_a_transposed_windowed_lower_a());
    assert!(!F16TcMatmulHalfRhsWindowArgs { window: 0, ..windowed }.fits_windowed_lower_a());
    let band = module.batched_matmul_half_rhs_windowed_lower_a(windowed);
    assert_eq!(band.kernel, F16TcKernel::MatmulHalfRhsWindowedLowerA);
    assert_eq!(band.window, 128);
    assert_eq!(
        module.batched_matmul_half_a_transposed_rhs_windowed_lower_a(windowed).kernel,
        F16TcKernel::MatmulHalfATransposedRhsWindowedLowerA,
    );
}

#[test]
fn fp32_matmul_uses_the_prepared_depth() {
    let module = F16TcMatmulModule {};
    let args = F16TcMatmulArgs {
        a_len: 64 * 10,
        b_t_len: 64 * 10,
        out_len: 64 * 64,
        batch_count: 1,
        m: 64,
        n: 64,
        k: 10,
    };
    assert!(args.fits());
    assert!(!F16TcMatmulArgs { out_len: 64 * 63, ..args }.fits());
    let plan = module.batched_matmul(args, 16);
    assert_eq!(plan.prepare, PrepareHalves { batch_count: 1, m: 64, n: 64, k: 10 });
    assert_eq!(
        plan.matmul,
        CtaLaunch {
            kernel: F16TcKernel::Matmul,
            config: wide(1, 1, 1),
            batch_count: 1,
            m: 64,
            n: 64,
            k: 16,
            window: 0,
        },
    );
}

#[test]
fn conversion_grid_has_one_thread_per_pair() {
    let module = F16TcMatmulModule {};
    let plan = |element_count| module.fp32_to_f16(F16ConvertArgs {
        src_len: element_count as usize,
        dst_len: element_count as usize,
        element_count,
    });
    assert_eq!(plan(0), F16ConvertLaunch { blocks: 0, element_count: 0 });
    assert_eq!(plan(1).blocks, 1);
    assert_eq!(plan(512).blocks, 1);
    assert_eq!(plan(513).blocks, 2);
    assert_eq!(F16_THREADS_PER_BLOCK, 256);
}

#[test]
fn conversion_threads_cover_each_element_once() {
    assert_eq!(fp32_to_f16_step(0, 0, 5), ConvertStep::Pair(0));
    assert_eq!(fp32_to_f16_step(0, 2, 5), ConvertStep::Single(4));
    assert_eq!(fp32_to_f16_step(0, 3, 5), ConvertStep::Idle);
    assert_eq!(fp32_to_f16_step(1, 1, 1000), ConvertStep::Pair(514));
    let count = 1027u32;
    let mut converted = vec![0u32; count as usize];
    for block in 0..3 {
        for thread in 0..F16_THREADS_PER_BLOCK {
            match fp32_to_f16_step(block, thread, count) {
                ConvertStep::Pair(first) => {
                    converted[first as usize] += 1;
                    converted[first as usize + 1] += 1;
                },
                ConvertStep::Single(first) => converted[first as usize] += 1,
                ConvertStep::Idle => {},
            }
        }
    }
    assert!(converted.iter().all(|&times| times == 1));
}
