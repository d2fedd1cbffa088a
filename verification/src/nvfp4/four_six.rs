use vstd::prelude::*;
use vstd::std_specs::bits::u32_trailing_zeros;

use super::four_six_kernels::{
    padded_spec, transpose_tile_group_of, transposed_exact_spec, transposed_padded_spec, GROUP_SIZE, TRANSPOSE_TILE_COLS, TRANSPOSE_TILE_ROWS,
};
use super::pow2::{is_pow2, is_power_of_two, lemma_pow2_shift_mask};

verus! {

/// Sizes of the packed SM120 scale layout that the packed-scale quantisers
/// write: the row block and depth atom that shapes must be multiples of, and
/// the packed lengths that the output scale buffers must reach.
#[derive(Clone, Copy)]
pub struct PackedScaleLayout {
    pub mn_block: u32,
    pub k_atom: u32,
    pub packed_len: usize,
    pub transpose_packed_len: usize,
}

/// Arguments of a Four-Six quantisation with one tensor-wide scale.
#[derive(Clone, Copy)]
pub struct Nvfp4QuantArgs {
    pub group_count: u32,
}

/// Arguments of a Four-Six quantisation with per-row scales
/// (`row_len == 0` means one tensor-wide scale).
#[derive(Clone, Copy)]
pub struct Nvfp4QuantRowwiseArgs {
    pub group_count: u32,
    pub row_len: u32,
}

/// Arguments of a rowwise quantisation whose row maxima it derives itself.
#[derive(Clone, Copy)]
pub struct Nvfp4QuantRowwiseDerivedAmaxArgs {
    pub row_count: u32,
    pub row_len: u32,
}

/// Arguments of a quantisation of a `rows x cols` matrix padded to
/// `padded_rows x padded_cols`.
#[derive(Clone, Copy)]
pub struct Nvfp4QuantPaddedArgs {
    pub rows: u32,
    pub cols: u32,
    pub padded_rows: u32,
    pub padded_cols: u32,
    pub out_scales_len: usize,
}

/// Arguments of the paired quantisation of a matrix and of its transpose.
#[derive(Clone, Copy)]
pub struct Nvfp4QuantPairTransposeExactArgs {
    pub source_rows: u32,
    pub source_cols: u32,
    pub out_scales_len: usize,
    pub transpose_out_scales_len: usize,
}

/// Arguments of a quantisation of the transpose of a `source_rows x
/// source_cols` matrix, padded to `padded_rows x padded_cols`.
#[derive(Clone, Copy)]
pub struct Nvfp4QuantTransposePaddedArgs {
    pub source_rows: u32,
    pub source_cols: u32,
    pub padded_rows: u32,
    pub padded_cols: u32,
    pub out_scales_len: usize,
}

/// The Four-Six kernel launches that the quantisers choose between, with the
/// grid sizing (a group count, a row count, or a transposed source shape) and
/// the scalar arguments each kernel gets.
#[derive(Clone, Copy, Debug, PartialEq, Eq, Structural)]
pub enum FourSixLaunch {
    FourSix { group_count: u32, row_len: u32 },
    RowwisePow2 { group_count: u32, row_shift: u32, row_mask: u32 },
    RowwiseDerivedAmaxPow2 { row_count: u32, row_len: u32 },
    RowAmaxThenFourSix { row_count: u32, row_len: u32, group_count: u32 },
    Exact { group_count: u32 },
    Padded { group_count: u32, rows: u32, cols: u32, padded_cols: u32 },
    PairExactPow2Tiled { source_rows: u32, source_cols: u32 },
    PairExactPow2TiledPackedScales { source_rows: u32, source_cols: u32 },
    ExactBoundedAmax { group_count: u32, apply_bound: bool },
    ExactBoundedAmaxPackedScales { group_count: u32, rows: u32, cols: u32, apply_bound: bool },
    TransposeExactPow2Tiled { source_rows: u32, source_cols: u32 },
    TransposeExactPow2 {
        group_count: u32,
        source_rows_shift: u32,
        source_rows_mask: u32,
        source_cols: u32,
    },
    TransposeExact { group_count: u32, source_rows: u32, source_cols: u32 },
    TransposePadded { group_count: u32, source_rows: u32, source_cols: u32, padded_cols: u32 },
    TransposeExactPow2TiledPackedScales { source_rows: u32, source_cols: u32 },
    TransposeExactPow2TiledSqrtBoundedAmax { source_rows: u32, source_cols: u32, apply_bound: bool },
    RebaseSqrtBoundGlobalScale { work_items: u32, block_threads: u32 },
}

/// Planner of the NVFP4 quantisation kernels.
pub struct Nvfp4QuantModule {}

/// The general kernel, or its power-of-two fast path when the rows allow it.
pub open spec fn rowwise_launch(args: Nvfp4QuantRowwiseArgs, rowwise_pow2: bool) -> FourSixLaunch {
    if rowwise_pow2 {
        FourSixLaunch::RowwisePow2 {
            group_count: args.group_count,
            row_shift: u32_trailing_zeros(args.row_len),
            row_mask: (args.row_len - 1) as u32,
        }
    } else {
        FourSixLaunch::FourSix { group_count: args.group_count, row_len: args.row_len }
    }
}

/// Launch of the padded quantiser: the exact kernel when there is no padding.
pub open spec fn padded_launch(args: Nvfp4QuantPaddedArgs) -> FourSixLaunch {
    let group_count = (args.padded_rows * args.padded_cols / 16) as u32;
    if args.rows == args.padded_rows && args.cols == args.padded_cols {
        FourSixLaunch::Exact { group_count }
    } else {
        FourSixLaunch::Padded {
            group_count,
            rows: args.rows,
            cols: args.cols,
            padded_cols: args.padded_cols,
        }
    }
}

/// Launch of the padded transposing quantiser: without padding, the tiled
/// kernel for power-of-two row counts that fill whole tiles, the shift kernel
/// for other power-of-two row counts, and the division kernel otherwise.
pub open spec fn transpose_padded_launch(args: Nvfp4QuantTransposePaddedArgs) -> FourSixLaunch {
    let group_count = (args.padded_rows * args.padded_cols / 16) as u32;
    if args.source_cols == args.padded_rows && args.source_rows == args.padded_cols {
        if is_pow2(args.source_rows) && args.source_rows % 16 == 0 && args.source_cols % 64 == 0 {
            FourSixLaunch::TransposeExactPow2Tiled {
                source_rows: args.source_rows,
                source_cols: args.source_cols,
            }
        } else if is_pow2(args.source_rows) {
            FourSixLaunch::TransposeExactPow2 {
                group_count,
                source_rows_shift: u32_trailing_zeros(args.source_rows),
                source_rows_mask: (args.source_rows - 1) as u32,
                source_cols: args.source_cols,
            }
        } else {
            FourSixLaunch::TransposeExact {
                group_count,
                source_rows: args.source_rows,
                source_cols: args.source_cols,
            }
        }
    } else {
        FourSixLaunch::TransposePadded {
            group_count,
            source_rows: args.source_rows,
            source_cols: args.source_cols,
            padded_cols: args.padded_cols,
        }
    }
}

impl Nvfp4QuantModule {
    /// Plans a quantisation with one tensor-wide scale.
    pub fn fp32_to_nvfp4_four_six(&self, args: Nvfp4QuantArgs) -> (launch: FourSixLaunch)
        ensures
            launch == (FourSixLaunch::FourSix { group_count: args.group_count, row_len: 0 }),
    {
        self.launch_fp32_to_nvfp4_four_six(
            Nvfp4QuantRowwiseArgs { group_count: args.group_count, row_len: 0 },
        )
    }

    /// Plans a rowwise quantisation; `rowwise_pow2` tells whether the rows
    /// qualify for the power-of-two kernel, which needs a power-of-two row length.
    pub fn fp32_to_nvfp4_four_six_rowwise(
        &self,
        args: Nvfp4QuantRowwiseArgs,
        rowwise_pow2: bool,
    ) -> (launch: FourSixLaunch)
        requires
            rowwise_pow2 ==> is_pow2(args.row_len),
        ensures
            launch == rowwise_launch(args, rowwise_pow2),
    {
        if rowwise_pow2 {
            return self.launch_fp32_to_nvfp4_four_six_rowwise_pow2(args);
        }
        self.launch_fp32_to_nvfp4_four_six(args)
    }

    /// Plans a rowwise quantisation that derives its row maxima: one fused
    /// kernel on the power-of-two path, else a row-maximum pass followed by the
    /// general rowwise kernel.
    pub fn fp32_to_nvfp4_four_six_rowwise_derived_amax(
        &self,
        args: Nvfp4QuantRowwiseDerivedAmaxArgs,
        rowwise_pow2: bool,
    ) -> (launch: FourSixLaunch)
        requires
            args.row_count * args.row_len <= u32::MAX,
            rowwise_pow2 ==> is_pow2(args.row_len),
        ensures
            launch == (if rowwise_pow2 {
                FourSixLaunch::RowwiseDerivedAmaxPow2 {
                    row_count: args.row_count,
                    row_len: args.row_len,
                }
            } else {
                FourSixLaunch::RowAmaxThenFourSix {
                    row_count: args.row_count,
                    row_len: args.row_len,
                    group_count: (args.row_count * args.row_len / 16) as u32,
                }
            }),
    {
        let group_count = args.row_count * args.row_len / 16;
        if rowwise_pow2 {
            return FourSixLaunch::RowwiseDerivedAmaxPow2 {
                row_count: args.row_count,
                row_len: args.row_len,
            };
        }
        FourSixLaunch::RowAmaxThenFourSix {
            row_count: args.row_count,
            row_len: args.row_len,
            group_count,
        }
    }

    /// Plans the quantisation of a padded matrix.
    pub fn fp32_to_nvfp4_four_six_padded(&self, args: Nvfp4QuantPaddedArgs) -> (launch:
        FourSixLaunch)
        requires
            args.padded_rows * args.padded_cols <= u32::MAX,
            (args.padded_rows * args.padded_cols) % 16 == 0,
        ensures
            launch == padded_launch(args),
    {
        let padded_elements = args.padded_rows * args.padded_cols;
        if args.rows == args.padded_rows && args.cols == args.padded_cols {
            return FourSixLaunch::Exact { group_count: padded_elements / 16 };
        }
        FourSixLaunch::Padded {
            group_count: padded_elements / 16,
            rows: args.rows,
            cols: args.cols,
            padded_cols: args.padded_cols,
        }
    }

    /// Plans the paired quantisation of a matrix and of its transpose.
    pub fn fp32_pair_to_nvfp4_four_six_exact_pow2_tiled(
        &self,
        args: Nvfp4QuantPairTransposeExactArgs,
    ) -> (launch: FourSixLaunch)
        requires
            is_pow2(args.source_rows),
            args.source_rows % 16 == 0,
            args.source_cols % 64 == 0,
        ensures
            launch == (FourSixLaunch::PairExactPow2Tiled {
                source_rows: args.source_rows,
                source_cols: args.source_cols,
            }),
    {
        FourSixLaunch::PairExactPow2Tiled {
            source_rows: args.source_rows,
            source_cols: args.source_cols,
        }
    }

    /// Plans the paired quantisation with scales written in the packed layout.
    pub fn fp32_pair_to_nvfp4_four_six_exact_pow2_tiled_packed_scales(
        &self,
        args: Nvfp4QuantPairTransposeExactArgs,
        layout: PackedScaleLayout,
    ) -> (launch: FourSixLaunch)
        requires
            layout.mn_block > 0,
            is_pow2(args.source_rows),
            args.source_rows % layout.mn_block == 0,
            args.source_cols % layout.mn_block == 0,
            args.out_scales_len >= layout.packed_len,
            args.transpose_out_scales_len >= layout.transpose_packed_len,
        ensures
            launch == (FourSixLaunch::PairExactPow2TiledPackedScales {
                source_rows: args.source_rows,
                source_cols: args.source_cols,
            }),
    {
        FourSixLaunch::PairExactPow2TiledPackedScales {
            source_rows: args.source_rows,
            source_cols: args.source_cols,
        }
    }

    /// Plans an exact quantisation whose tensor-wide scale comes from the
    /// bounded maximum; the values are quantised as they are.
    pub fn fp32_to_nvfp4_four_six_exact_bounded_amax(&self, args: Nvfp4QuantPaddedArgs) -> (launch:
        FourSixLaunch)
        requires
            args.rows == args.padded_rows,
            args.cols == args.padded_cols,
            args.rows * args.cols <= u32::MAX,
            (args.rows * args.cols) % 16 == 0,
        ensures
            launch == (FourSixLaunch::ExactBoundedAmax {
                group_count: (args.rows * args.cols / 16) as u32,
                apply_bound: false,
            }),
    {
        self.launch_fp32_to_nvfp4_four_six_exact_bounded_amax(args, false)
    }

    /// Plans an exact quantisation whose tensor-wide scale comes from the
    /// bounded maximum, with the values first scaled down by the bound.
    pub fn fp32_to_nvfp4_four_six_exact_lazy_bounded_amax(
        &self,
        args: Nvfp4QuantPaddedArgs,
    ) -> (launch: FourSixLaunch)
        requires
            args.rows == args.padded_rows,
            args.cols == args.padded_cols,
            args.rows * args.cols <= u32::MAX,
            (args.rows * args.cols) % 16 == 0,
        ensures
            launch == (FourSixLaunch::ExactBoundedAmax {
                group_count: (args.rows * args.cols / 16) as u32,
                apply_bound: true,
            }),
    {
        self.launch_fp32_to_nvfp4_four_six_exact_bounded_amax(args, true)
    }

    /// Plans the bounded-maximum quantisation with packed scales.
    pub fn fp32_to_nvfp4_four_six_exact_bounded_amax_packed_scales(
        &self,
        args: Nvfp4QuantPaddedArgs,
        layout: PackedScaleLayout,
    ) -> (launch: FourSixLaunch)
        requires
            bounded_packed_ok(args, layout),
        ensures
            launch == (FourSixLaunch::ExactBoundedAmaxPackedScales {
                group_count: (args.rows * args.cols / 16) as u32,
                rows: args.rows,
                cols: args.cols,
                apply_bound: false,
            }),
    {
        self.launch_fp32_to_nvfp4_four_six_exact_bounded_amax_packed_scales(args, layout, false)
    }

    /// Plans the lazily bounded quantisation with packed scales.
    pub fn fp32_to_nvfp4_four_six_exact_lazy_bounded_amax_packed_scales(
        &self,
        args: Nvfp4QuantPaddedArgs,
        layout: PackedScaleLayout,
    ) -> (launch: FourSixLaunch)
        requires
            bounded_packed_ok(args, layout),
        ensures
            launch == (FourSixLaunch::ExactBoundedAmaxPackedScales {
                group_count: (args.rows * args.cols / 16) as u32,
                rows: args.rows,
                cols: args.cols,
                apply_bound: true,
            }),
    {
        self.launch_fp32_to_nvfp4_four_six_exact_bounded_amax_packed_scales(args, layout, true)
    }

    fn launch_fp32_to_nvfp4_four_six_exact_bounded_amax(
        &self,
        args: Nvfp4QuantPaddedArgs,
        apply_bound: bool,
    ) -> (launch: FourSixLaunch)
        requires
            args.rows == args.padded_rows,
            args.cols == args.padded_cols,
            args.rows * args.cols <= u32::MAX,
            (args.rows * args.cols) % 16 == 0,
        ensures
            launch == (FourSixLaunch::ExactBoundedAmax {
                group_count: (args.rows * args.cols / 16) as u32,
                apply_bound,
            }),
    {
        let elements = args.rows * args.cols;
        FourSixLaunch::ExactBoundedAmax { group_count: elements / 16, apply_bound }
    }

    fn launch_fp32_to_nvfp4_four_six_exact_bounded_amax_packed_scales(
        &self,
        args: Nvfp4QuantPaddedArgs,
        layout: PackedScaleLayout,
        apply_bound: bool,
    ) -> (launch: FourSixLaunch)
        requires
            bounded_packed_ok(args, layout),
        ensures
            launch == (FourSixLaunch::ExactBoundedAmaxPackedScales {
                group_count: (args.rows * args.cols / 16) as u32,
                rows: args.rows,
                cols: args.cols,
                apply_bound,
            }),
    {
        let elements = args.rows * args.cols;
        FourSixLaunch::ExactBoundedAmaxPackedScales {
            group_count: elements / 16,
            rows: args.rows,
            cols: args.cols,
            apply_bound,
        }
    }

    /// Plans the quantisation of the padded transpose of a matrix.
    pub fn fp32_transpose_to_nvfp4_four_six_padded(
        &self,
        args: Nvfp4QuantTransposePaddedArgs,
    ) -> (launch: FourSixLaunch)
        requires
            args.padded_rows * args.padded_cols <= u32::MAX,
            (args.padded_rows * args.padded_cols) % 16 == 0,
        ensures
            launch == transpose_padded_launch(args),
    {
        let padded_elements = args.padded_rows * args.padded_cols;
        if args.source_cols == args.padded_rows && args.source_rows == args.padded_cols {
            if is_power_of_two(args.source_rows) && args.source_rows % 16 == 0 && args.source_cols
                % 64 == 0 {
                return FourSixLaunch::TransposeExactPow2Tiled {
                    source_rows: args.source_rows,
                    source_cols: args.source_cols,
                };
            }
            if is_power_of_two(args.source_rows) {
                return FourSixLaunch::TransposeExactPow2 {
                    group_count: padded_elements / 16,
                    source_rows_shift: args.source_rows.trailing_zeros(),
                    source_rows_mask: args.source_rows - 1,
                    source_cols: args.source_cols,
                };
            }
            return FourSixLaunch::TransposeExact {
                group_count: padded_elements / 16,
                source_rows: args.source_rows,
                source_cols: args.source_cols,
            };
        }
        FourSixLaunch::TransposePadded {
            group_count: padded_elements / 16,
            source_rows: args.source_rows,
            source_cols: args.source_cols,
            padded_cols: args.padded_cols,
        }
    }

    /// Plans the quantisation of an exact transpose with packed scales.
    pub fn fp32_transpose_to_nvfp4_four_six_exact_packed_scales(
        &self,
        args: Nvfp4QuantTransposePaddedArgs,
        layout: PackedScaleLayout,
    ) -> (launch: FourSixLaunch)
        requires
            layout.mn_block > 0,
            layout.k_atom > 0,
            args.source_cols == args.padded_rows,
            args.source_rows == args.padded_cols,
            is_pow2(args.source_rows),
            args.source_rows % layout.k_atom == 0,
            args.source_cols % layout.mn_block == 0,
            args.out_scales_len >= layout.transpose_packed_len,
        ensures
            launch == (FourSixLaunch::TransposeExactPow2TiledPackedScales {
                source_rows: args.source_rows,
                source_cols: args.source_cols,
            }),
    {
        FourSixLaunch::TransposeExactPow2TiledPackedScales {
            source_rows: args.source_rows,
            source_cols: args.source_cols,
        }
    }

    /// Plans the kernel that rebases the tensor-wide scale onto the square-root
    /// bound: one block of a single warp.
    pub fn rebase_four_six_global_scale_sqrt_bound(&self) -> (launch: FourSixLaunch)
        ensures
            launch == (FourSixLaunch::RebaseSqrtBoundGlobalScale { work_items: 1, block_threads: 32 }),
    {
        FourSixLaunch::RebaseSqrtBoundGlobalScale { work_items: 1, block_threads: 32 }
    }

    /// Plans the quantisation of an exact transpose whose tensor-wide scale
    /// comes from the square-root bound; the values are quantised as they are.
    pub fn fp32_transpose_to_nvfp4_four_six_exact_sqrt_bounded_amax(
        &self,
        args: Nvfp4QuantTransposePaddedArgs,
    ) -> (launch: FourSixLaunch)
        requires
            sqrt_bounded_transpose_ok(args),
        ensures
            launch == (FourSixLaunch::TransposeExactPow2TiledSqrtBoundedAmax {
                source_rows: args.source_rows,
                source_cols: args.source_cols,
                apply_bound: false,
            }),
    {
        self.launch_fp32_transpose_to_nvfp4_four_six_exact_sqrt_bounded_amax(args, false)
    }

    /// As the bounded transpose above, with the values first scaled down by the bound.
    pub fn fp32_transpose_to_nvfp4_four_six_exact_lazy_sqrt_bounded_amax(
        &self,
        args: Nvfp4QuantTransposePaddedArgs,
    ) -> (launch: FourSixLaunch)
        requires
            sqrt_bounded_transpose_ok(args),
        ensures
            launch == (FourSixLaunch::TransposeExactPow2TiledSqrtBoundedAmax {
                source_rows: args.source_rows,
                source_cols: args.source_cols,
                apply_bound: true,
            }),
    {
        self.launch_fp32_transpose_to_nvfp4_four_six_exact_sqrt_bounded_amax(args, true)
    }

    fn launch_fp32_transpose_to_nvfp4_four_six_exact_sqrt_bounded_amax(
        &self,
        args: Nvfp4QuantTransposePaddedArgs,
        apply_bound: bool,
    ) -> (launch: FourSixLaunch)
        requires
            sqrt_bounded_transpose_ok(args),
        ensures
            launch == (FourSixLaunch::TransposeExactPow2TiledSqrtBoundedAmax {
                source_rows: args.source_rows,
                source_cols: args.source_cols,
                apply_bound,
            }),
    {
        FourSixLaunch::TransposeExactPow2TiledSqrtBoundedAmax {
            source_rows: args.source_rows,
            source_cols: args.source_cols,
            apply_bound,
        }
    }

    fn launch_fp32_to_nvfp4_four_six(&self, args: Nvfp4QuantRowwiseArgs) -> (launch:
        FourSixLaunch)
        ensures
            launch == (FourSixLaunch::FourSix {
                group_count: args.group_count,
                row_len: args.row_len,
            }),
    {
        FourSixLaunch::FourSix { group_count: args.group_count, row_len: args.row_len }
    }

    fn launch_fp32_to_nvfp4_four_six_rowwise_pow2(&self, args: Nvfp4QuantRowwiseArgs) -> (launch:
        FourSixLaunch)
        requires
            args.row_len > 0,
        ensures
            launch == (FourSixLaunch::RowwisePow2 {
                group_count: args.group_count,
                row_shift: u32_trailing_zeros(args.row_len),
                row_mask: (args.row_len - 1) as u32,
            }),
    {
        FourSixLaunch::RowwisePow2 {
            group_count: args.group_count,
            row_shift: args.row_len.trailing_zeros(),
            row_mask: args.row_len - 1,
        }
    }
}

/// What the bounded-maximum packed-scale quantisers check: no padding, rows in
/// whole layout blocks, columns in whole depth atoms, and room for the scales.
pub open spec fn bounded_packed_ok(args: Nvfp4QuantPaddedArgs, layout: PackedScaleLayout) -> bool {
    &&& layout.mn_block > 0
    &&& layout.k_atom > 0
    &&& args.rows == args.padded_rows
    &&& args.cols == args.padded_cols
    &&& args.rows % layout.mn_block == 0
    &&& args.cols % layout.k_atom == 0
    &&& args.out_scales_len >= layout.packed_len
    &&& args.rows * args.cols <= u32::MAX
}

/// What the square-root-bounded transposing quantisers assert: no padding, a
/// power-of-two row count in whole groups of 16, and columns in whole tiles of 64.
pub open spec fn sqrt_bounded_transpose_ok(args: Nvfp4QuantTransposePaddedArgs) -> bool {
    &&& args.source_cols == args.padded_rows
    &&& args.source_rows == args.padded_cols
    &&& is_pow2(args.source_rows)
    &&& args.source_rows % 16 == 0
    &&& args.source_cols % 64 == 0
}

/// The source value that the row-major Four-Six kernel of `launch` quantises
/// at output position `output_index`, for the kernels that read a matrix in
/// row-major order: the exact kernel reads the input at that position, the
/// padded kernel reads the padded matrix. `None` where the launch covers no
/// such position.
pub open spec fn row_major_kernel_reads<T>(
    launch: FourSixLaunch,
    x: Seq<T>,
    zero: T,
    output_index: int,
) -> Option<T> {
    match launch {
        FourSixLaunch::Exact { group_count } => if 0 <= output_index < group_count * 16 {
            Some(x[output_index])
        } else {
            None
        },
        FourSixLaunch::Padded { group_count, rows, cols, padded_cols } => if 0 <= output_index
            < group_count * 16 {
            Some(padded_spec(x, zero, output_index, rows as int, cols as int, padded_cols as int))
        } else {
            None
        },
        _ => None,
    }
}

/// The padded quantiser quantises the padded matrix: at every position of
/// the `padded_rows x padded_cols` output, the planned kernel reads element
/// `(row, col)` of the `rows x cols` input `x` inside it and `zero` in the
/// padding. In particular the exact kernel, which reads the input at the
/// output position itself, is planned only where there is no padding.
pub proof fn lemma_padded_plan_reads_padded_matrix<T>(
    args: Nvfp4QuantPaddedArgs,
    x: Seq<T>,
    zero: T,
    output_index: int,
)
    requires
        x.len() == args.rows * args.cols,
        args.padded_rows * args.padded_cols <= u32::MAX,
        (args.padded_rows * args.padded_cols) % 16 == 0,
        0 <= output_index < args.padded_rows * args.padded_cols,
    ensures
        row_major_kernel_reads(padded_launch(args), x, zero, output_index) == Some(
            padded_spec(
                x,
                zero,
                output_index,
                args.rows as int,
                args.cols as int,
                args.padded_cols as int,
            ),
        ),
{
    let elements = args.padded_rows as int * args.padded_cols as int;
    assert((elements / 16) * 16 == elements);
    if args.rows == args.padded_rows && args.cols == args.padded_cols {
        let cols = args.cols as int;
        assert(cols > 0) by {
            if cols == 0 {
                assert(elements == 0) by (nonlinear_arith)
                    requires
                        elements == args.padded_rows as int * args.padded_cols as int,
                        args.padded_cols == 0,
                ;
            }
        }
        vstd::arithmetic::div_mod::lemma_fundamental_div_mod(output_index, cols);
        vstd::arithmetic::div_mod::lemma_mod_bound(output_index, cols);
        let q = output_index / cols;
        assert(q < args.rows) by {
            if q >= args.rows {
                assert(output_index >= args.rows as int * cols) by (nonlinear_arith)
                    requires
                        output_index == cols * q + output_index % cols,
                        output_index % cols >= 0,
                        q >= args.rows,
                        cols > 0,
                ;
                assert(elements == args.rows as int * cols);
            }
        }
        assert(cols * (output_index / cols) == (output_index / cols) * cols) by (nonlinear_arith);
    }
}

/// Output position of value `t` of the group that column `col` of transpose
/// tile `(block_x, block_y)` writes.
pub open spec fn tile_output_position(
    block_x: int,
    block_y: int,
    col: int,
    t: int,
    source_rows: int,
) -> int {
    transpose_tile_group_of(block_x, block_y, col, source_rows) * GROUP_SIZE as int + t
}

/// The transposing quantiser covers every output position. When it plans
/// the tiled kernel, each position of the transposed `source_cols x
/// source_rows` output lies in the group that some tile of its grid of
/// `source_cols / 64` by `source_rows / 16` tiles writes, at a tile position
/// that holds the transposed source element; when it plans the shift kernel,
/// the shift and mask read the transposed source element.
pub proof fn lemma_transpose_plan_covers_output(args: Nvfp4QuantTransposePaddedArgs, output_index: int)
    requires
        args.padded_rows * args.padded_cols <= u32::MAX,
        (args.padded_rows * args.padded_cols) % 16 == 0,
        0 <= output_index < args.padded_rows * args.padded_cols,
        output_index <= u32::MAX,
    ensures
        transpose_padded_launch(args) is TransposeExactPow2Tiled ==> exists|
            block_x: int,
            block_y: int,
            col: int,
            t: int,
        |
            {
                &&& 0 <= block_x < args.source_cols as int / TRANSPOSE_TILE_COLS as int
                &&& 0 <= block_y < args.source_rows as int / TRANSPOSE_TILE_ROWS as int
                &&& 0 <= col < TRANSPOSE_TILE_COLS
                &&& 0 <= t < GROUP_SIZE
                &&& #[trigger] tile_output_position(block_x, block_y, col, t, args.source_rows as int)
                    == output_index
                &&& output_index % args.source_rows as int == block_y * TRANSPOSE_TILE_ROWS as int
                    + t
                &&& output_index / args.source_rows as int == block_x * TRANSPOSE_TILE_COLS as int
                    + col
            },
        transpose_padded_launch(args) matches FourSixLaunch::TransposeExactPow2 {
            source_rows_shift,
            source_rows_mask,
            ..
        } ==> (output_index as u32) >> source_rows_shift == output_index / args.source_rows as int
            && (output_index as u32) & source_rows_mask == output_index % args.source_rows as int,
{
    let launch = transpose_padded_launch(args);
    if launch is TransposeExactPow2Tiled {
        let source_rows = args.source_rows as int;
        let source_cols = args.source_cols as int;
        assert(source_rows > 0);
        let c = output_index / source_rows;
        let r = output_index % source_rows;
        vstd::arithmetic::div_mod::lemma_fundamental_div_mod(output_index, source_rows);
        vstd::arithmetic::div_mod::lemma_mod_bound(output_index, source_rows);
        assert(output_index < source_cols * source_rows) by (nonlinear_arith)
            requires
                output_index < args.padded_rows as int * args.padded_cols as int,
                args.padded_rows == source_cols,
                args.padded_cols == source_rows,
        ;
        assert(c < source_cols) by {
            if c >= source_cols {
                assert(output_index >= source_cols * source_rows) by (nonlinear_arith)
                    requires
                        output_index == source_rows * c + r,
                        r >= 0,
                        c >= source_cols,
                        source_rows > 0,
                ;
            }
        }
        let block_x = c / 64;
        let col = c % 64;
        let block_y = r / 16;
        let t = r % 16;
        assert(block_x < source_cols / 64) by {
            vstd::arithmetic::div_mod::lemma_fundamental_div_mod(source_cols, 64);
        }
        assert(block_y < source_rows / 16) by {
            vstd::arithmetic::div_mod::lemma_fundamental_div_mod(source_rows, 16);
        }
        let q = source_rows / 16;
        assert(q * 16 == source_rows);
        assert(transpose_tile_group_of(block_x, block_y, col, source_rows) * 16 + t == output_index)
            by (nonlinear_arith)
            requires
                transpose_tile_group_of(block_x, block_y, col, source_rows) == (block_x * 64 + col)
                    * q + block_y,
                q * 16 == source_rows,
                block_x * 64 + col == c,
                block_y * 16 + t == r,
                output_index == source_rows * c + r,
        ;
        assert(block_x * 64 + col == c && block_y * 16 + t == r);
        assert(tile_output_position(block_x, block_y, col, t, source_rows) == output_index);
    }
    if let FourSixLaunch::TransposeExactPow2 { source_rows_shift, source_rows_mask, .. } = launch {
        lemma_pow2_shift_mask(output_index as u32, args.source_rows);
    }
}

/// Whether some tile of the tiled transposing kernel's grid of
/// `source_cols / 64` by `source_rows / 16` tiles writes output position
/// `output_index`.
pub open spec fn tiled_transpose_covers(output_index: int, source_rows: int, source_cols: int) -> bool {
    exists|block_x: int, block_y: int, col: int, t: int|
        {
            &&& 0 <= block_x < source_cols / TRANSPOSE_TILE_COLS as int
            &&& 0 <= block_y < source_rows / TRANSPOSE_TILE_ROWS as int
            &&& 0 <= col < TRANSPOSE_TILE_COLS
            &&& 0 <= t < GROUP_SIZE
            &&& #[trigger] tile_output_position(block_x, block_y, col, t, source_rows)
                == output_index
        }
}

/// The source value that the transposing Four-Six kernel of `launch`
/// quantises at output position `output_index`: the tiled kernel the
/// transposed element at each position its tiles write, the shift kernel the
/// element its shift and mask select, the division kernel the transposed
/// element, the padded kernel the padded transpose. `None` where the launch
/// covers no such position.
pub open spec fn transpose_kernel_reads<T>(
    launch: FourSixLaunch,
    x: Seq<T>,
    zero: T,
    output_index: int,
) -> Option<T> {
    match launch {
        FourSixLaunch::TransposeExactPow2Tiled { source_rows, source_cols } => if tiled_transpose_covers(
            output_index,
            source_rows as int,
            source_cols as int,
        ) {
            Some(transposed_exact_spec(x, output_index, source_rows as int, source_cols as int))
        } else {
            None
        },
        FourSixLaunch::TransposeExactPow2 {
            group_count,
            source_rows_shift,
            source_rows_mask,
            source_cols,
        } => if 0 <= output_index < group_count * 16 {
            Some(
                x[((output_index as u32) & source_rows_mask) * source_cols + ((output_index as u32)
                    >> source_rows_shift)],
            )
        } else {
            None
        },
        FourSixLaunch::TransposeExact { group_count, source_rows, source_cols } => if 0
            <= output_index < group_count * 16 {
            Some(transposed_exact_spec(x, output_index, source_rows as int, source_cols as int))
        } else {
            None
        },
        FourSixLaunch::TransposePadded { group_count, source_rows, source_cols, padded_cols } => if 0
            <= output_index < group_count * 16 {
            Some(
                transposed_padded_spec(
                    x,
                    zero,
                    output_index,
                    source_rows as int,
                    source_cols as int,
                    padded_cols as int,
                ),
            )
        } else {
            None
        },
        _ => None,
    }
}

/// The padded transposing quantiser quantises the padded transpose: at every
/// position of the `padded_rows x padded_cols` output, whichever kernel it
/// plans reads element `(col, row)` of the `source_rows x source_cols` input
/// `x` for output `(row, col)` inside the transpose, and `zero` in the padding.
pub proof fn lemma_transpose_plan_reads_transposed_matrix<T>(
    args: Nvfp4QuantTransposePaddedArgs,
    x: Seq<T>,
    zero: T,
    output_index: int,
)
    requires
        x.len() == args.source_rows * args.source_cols,
        args.padded_rows * args.padded_cols <= u32::MAX,
        (args.padded_rows * args.padded_cols) % 16 == 0,
        0 <= output_index < args.padded_rows * args.padded_cols,
    ensures
        transpose_kernel_reads(transpose_padded_launch(args), x, zero, output_index) == Some(
            transposed_padded_spec(
                x,
                zero,
                output_index,
                args.source_rows as int,
                args.source_cols as int,
                args.padded_cols as int,
            ),
        ),
{
    let elements = args.padded_rows as int * args.padded_cols as int;
    assert((elements / 16) * 16 == elements);
    lemma_transpose_plan_covers_output(args, output_index);
    let launch = transpose_padded_launch(args);
    if args.source_cols == args.padded_rows && args.source_rows == args.padded_cols {
        let sr = args.source_rows as int;
        assert(sr > 0) by {
            if sr == 0 {
                assert(elements == 0) by (nonlinear_arith)
                    requires
                        elements == args.padded_rows as int * args.padded_cols as int,
                        args.padded_cols == 0,
                ;
            }
        }
        let c = output_index / sr;
        let r = output_index % sr;
        vstd::arithmetic::div_mod::lemma_fundamental_div_mod(output_index, sr);
        vstd::arithmetic::div_mod::lemma_mod_bound(output_index, sr);
        assert(c < args.source_cols) by {
            if c >= args.source_cols {
                assert(output_index >= args.source_cols as int * sr) by (nonlinear_arith)
                    requires
                        output_index == sr * c + r,
                        r >= 0,
                        c >= args.source_cols,
                        sr > 0,
                ;
            }
        }
        if launch is TransposeExactPow2Tiled {
            let (bx, by, col, t) = choose|bx: int, by: int, col: int, t: int|
                {
                    &&& 0 <= bx < args.source_cols as int / TRANSPOSE_TILE_COLS as int
                    &&& 0 <= by < args.source_rows as int / TRANSPOSE_TILE_ROWS as int
                    &&& 0 <= col < TRANSPOSE_TILE_COLS
                    &&& 0 <= t < GROUP_SIZE
                    &&& #[trigger] tile_output_position(bx, by, col, t, args.source_rows as int)
                        == output_index
                    &&& output_index % args.source_rows as int == by * TRANSPOSE_TILE_ROWS as int
                        + t
                    &&& output_index / args.source_rows as int == bx * TRANSPOSE_TILE_COLS as int
                        + col
                };
            assert(tiled_transpose_covers(output_index, sr, args.source_cols as int));
        }
    }
}

/// The power-of-two rowwise kernel finds the row of a value as the general
/// kernel does: for a power-of-two row length, its shift divides every
/// position by the row length and its mask takes the position within the row.
pub proof fn lemma_rowwise_pow2_finds_rows(args: Nvfp4QuantRowwiseArgs, position: u32)
    requires
        is_pow2(args.row_len),
    ensures
        rowwise_launch(args, true) matches FourSixLaunch::RowwisePow2 {
            group_count,
            row_shift,
            row_mask,
        } && group_count == args.group_count && position >> row_shift == position / args.row_len
            && position & row_mask == position % args.row_len,
        rowwise_launch(args, false) == (FourSixLaunch::FourSix {
            group_count: args.group_count,
            row_len: args.row_len,
        }),
{
    lemma_pow2_shift_mask(position, args.row_len);
}

} // verus!
