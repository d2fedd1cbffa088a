use vstd::prelude::*;

use crate::f16_tc_matmul::sparse_tile::{ceil_div, div_ceil_u32, lemma_ceil_div_is_fewest_blocks};

verus! {

/// Tile sizes that the compiled NVFP4 GEMM kernels were built with: output
/// rows and columns per block, reduction depth per step, and the depth atom of
/// the packed scale layout.
#[derive(Clone, Copy, Debug)]
pub struct Nvfp4GemmTiling {
    pub tile_m: u32,
    pub tile_n: u32,
    pub tile_k: u32,
    pub k_atom: u32,
}

/// Positive tile sizes.
pub open spec fn tiling_ok(tiling: Nvfp4GemmTiling) -> bool {
    tiling.tile_m > 0 && tiling.tile_n > 0 && tiling.tile_k > 0 && tiling.k_atom > 0
}

/// Planner of the NVFP4 TMA GEMM kernels.
pub struct Nvfp4GemmModule {
    pub tiling: Nvfp4GemmTiling,
}

/// The GEMM refuses a shape or a buffer as an invalid value.
#[derive(Clone, Copy, Debug, PartialEq, Eq, Structural)]
pub enum GemmError {
    InvalidValue,
}

/// The GEMM kernels, by epilogue.
#[derive(Clone, Copy, Debug, PartialEq, Eq, Structural)]
pub enum GemmKernel {
    Plain,
    OutputAmax,
    Relu2BackwardF16Amax,
    SymmetricAmax,
    Linear3Amax,
    Linear3RowSumsq,
    Affine,
    Residual,
    Relu2,
    Relu2Compact,
}

/// One GEMM launch: kernel, grid, shape, and whether the A operand has one
/// global scale (mode 1) or one per row (mode 2).
#[derive(Clone, Copy, Debug, PartialEq, Eq, Structural)]
pub struct GemmLaunch {
    pub kernel: GemmKernel,
    pub grid_x: u32,
    pub grid_y: u32,
    pub grid_z: u32,
    pub token_count: u32,
    pub input_dim: u32,
    pub output_dim: u32,
    pub global_scale_mode: u32,
}

/// Threads per block of the per-row reduction of the partial sums of squares.
pub const ROW_SUMSQ_REDUCE_THREADS: u32 = 64;

/// The fused linear GEMM with row sums of squares: the GEMM writes
/// `partials_per_row` partial sums per row, then one block of
/// `reduce_block_threads` threads per row reduces them.
#[derive(Clone, Copy, Debug, PartialEq, Eq, Structural)]
pub struct GemmRowSumsqLaunch {
    pub gemm: GemmLaunch,
    pub reduce_rows: u32,
    pub reduce_block_threads: u32,
    pub partials_per_row: u32,
}

/// Whether a `token_count x input_dim` by `output_dim x input_dim` product has
/// whole tiles in every dimension and a non-empty reduction.
pub open spec fn gemm_shape_ok(
    tiling: Nvfp4GemmTiling,
    token_count: u32,
    input_dim: u32,
    output_dim: u32,
) -> bool {
    &&& token_count % tiling.tile_m == 0
    &&& output_dim % tiling.tile_n == 0
    &&& input_dim % tiling.k_atom == 0
    &&& input_dim % tiling.tile_k == 0
    &&& input_dim != 0
}

/// The launch of `kernel` with one block per output tile.
pub open spec fn gemm_launch(
    tiling: Nvfp4GemmTiling,
    kernel: GemmKernel,
    token_count: u32,
    input_dim: u32,
    output_dim: u32,
    grid_cols: u32,
    global_scale_mode: u32,
) -> GemmLaunch {
    GemmLaunch {
        kernel,
        grid_x: ceil_div(grid_cols as int, tiling.tile_n as int) as u32,
        grid_y: ceil_div(token_count as int, tiling.tile_m as int) as u32,
        grid_z: 1,
        token_count,
        input_dim,
        output_dim,
        global_scale_mode,
    }
}

impl Nvfp4GemmModule {
    fn shape_ok(&self, token_count: u32, input_dim: u32, output_dim: u32) -> (ok: bool)
        requires
            tiling_ok(self.tiling),
        ensures
            ok == gemm_shape_ok(self.tiling, token_count, input_dim, output_dim),
    {
        token_count % self.tiling.tile_m == 0 && output_dim % self.tiling.tile_n == 0 && input_dim
            % self.tiling.k_atom == 0 && input_dim % self.tiling.tile_k == 0 && input_dim != 0
    }

    fn launch(
        &self,
        kernel: GemmKernel,
        token_count: u32,
        input_dim: u32,
        output_dim: u32,
        grid_cols: u32,
        global_scale_mode: u32,
    ) -> (launch: GemmLaunch)
        requires
            tiling_ok(self.tiling),
        ensures
            launch == gemm_launch(
                self.tiling,
                kernel,
                token_count,
                input_dim,
                output_dim,
                grid_cols,
                global_scale_mode,
            ),
    {
        GemmLaunch {
            kernel,
            grid_x: div_ceil_u32(grid_cols, self.tiling.tile_n),
            grid_y: div_ceil_u32(token_count, self.tiling.tile_m),
            grid_z: 1,
            token_count,
            input_dim,
            output_dim,
            global_scale_mode,
        }
    }

    /// Plans the plain GEMM with one global scale per operand.
    pub fn gemm_tma_nvfp4_device_scales_and_global_scale_buffers(
        &self,
        token_count: u32,
        input_dim: u32,
        output_dim: u32,
    ) -> (result: Result<GemmLaunch, GemmError>)
        requires
            tiling_ok(self.tiling),
        ensures
            result == if gemm_shape_ok(self.tiling, token_count, input_dim, output_dim) {
                Ok(
                    gemm_launch(
                        self.tiling,
                        GemmKernel::Plain,
                        token_count,
                        input_dim,
                        output_dim,
                        output_dim,
                        1,
                    ),
                )
            } else {
                Err(GemmError::InvalidValue)
            },
    {
        if !self.shape_ok(token_count, input_dim, output_dim) {
            return Err(GemmError::InvalidValue);
        }
        Ok(self.launch(GemmKernel::Plain, token_count, input_dim, output_dim, output_dim, 1))
    }

    /// Plans the GEMM that also writes the maxima of `chunk_count` output
    /// chunks, and returns that count with it.
    pub fn gemm_tma_nvfp4_device_scales_and_global_scale_buffers_with_output_amax(
        &self,
        output_chunk_amax_len: usize,
        chunk_count: u32,
        token_count: u32,
        input_dim: u32,
        output_dim: u32,
    ) -> (result: Result<(GemmLaunch, u32), GemmError>)
        requires
            tiling_ok(self.tiling),
        ensures
            result == if gemm_shape_ok(self.tiling, token_count, input_dim, output_dim)
                && output_chunk_amax_len >= chunk_count {
                Ok(
                    (
                        gemm_launch(
                            self.tiling,
                            GemmKernel::OutputAmax,
                            token_count,
                            input_dim,
                            output_dim,
                            output_dim,
                            1,
                        ),
                        chunk_count,
                    ),
                )
            } else {
                Err(GemmError::InvalidValue)
            },
    {
        if !self.shape_ok(token_count, input_dim, output_dim) || output_chunk_amax_len
            < chunk_count as usize {
            return Err(GemmError::InvalidValue);
        }
        Ok(
            (
                self.launch(
                    GemmKernel::OutputAmax,
                    token_count,
                    input_dim,
                    output_dim,
                    output_dim,
                    1,
                ),
                chunk_count,
            ),
        )
    }

    /// Plans the GEMM with the fused FP16 ReLU-squared backward epilogue.
    pub fn gemm_tma_nvfp4_rowwise_a_scale_relu2_backward_f16_with_output_amax(
        &self,
        pre_activation_len: usize,
        out_len: usize,
        output_chunk_amax_len: usize,
        chunk_count: u32,
        token_count: u32,
        input_dim: u32,
        output_dim: u32,
    ) -> (result: Result<(GemmLaunch, u32), GemmError>)
        requires
            tiling_ok(self.tiling),
            token_count * output_dim <= usize::MAX,
        ensures
            result == if gemm_shape_ok(self.tiling, token_count, input_dim, output_dim)
                && pre_activation_len >= token_count * output_dim && out_len >= token_count
                * output_dim && output_chunk_amax_len >= chunk_count {
                Ok(
                    (
                        gemm_launch(
                            self.tiling,
                            GemmKernel::Relu2BackwardF16Amax,
                            token_count,
                            input_dim,
                            output_dim,
                            output_dim,
                            2,
                        ),
                        chunk_count,
                    ),
                )
            } else {
                Err(GemmError::InvalidValue)
            },
    {
        let output_len = output_elements(token_count, output_dim);
        if !self.shape_ok(token_count, input_dim, output_dim) || pre_activation_len < output_len
            || out_len < output_len || output_chunk_amax_len < chunk_count as usize {
            return Err(GemmError::InvalidValue);
        }
        Ok(
            (
                self.launch(
                    GemmKernel::Relu2BackwardF16Amax,
                    token_count,
                    input_dim,
                    output_dim,
                    output_dim,
                    2,
                ),
                chunk_count,
            ),
        )
    }

    /// Plans the symmetric self-product `a * a^T`: one block per output tile on
    /// or below the diagonal, `tiles * (tiles + 1) / 2` blocks for `tiles` tile rows.
    pub fn gemm_tma_nvfp4_device_scales_and_global_scale_buffers_symmetric_with_output_amax(
        &self,
        output_chunk_amax_len: usize,
        chunk_count: u32,
        dim: u32,
        input_dim: u32,
    ) -> (result: Result<(GemmLaunch, u32), GemmError>)
        requires
            tiling_ok(self.tiling),
            self.tiling.tile_m == self.tiling.tile_n && gemm_shape_ok(self.tiling, dim, input_dim, dim)
                && output_chunk_amax_len >= chunk_count ==> (dim / self.tiling.tile_m) * (dim
                / self.tiling.tile_m + 1) <= u32::MAX,
        ensures
            result == if self.tiling.tile_m == self.tiling.tile_n && gemm_shape_ok(
                self.tiling,
                dim,
                input_dim,
                dim,
            ) && output_chunk_amax_len >= chunk_count {
                Ok(
                    (
                        GemmLaunch {
                            kernel: GemmKernel::SymmetricAmax,
                            grid_x: triangular_tiles((dim / self.tiling.tile_m) as int) as u32,
                            grid_y: 1,
                            grid_z: 1,
                            token_count: dim,
                            input_dim,
                            output_dim: dim,
                            global_scale_mode: 1,
                        },
                        chunk_count,
                    ),
                )
            } else {
                Err(GemmError::InvalidValue)
            },
    {
        if self.tiling.tile_m != self.tiling.tile_n || !self.shape_ok(dim, input_dim, dim)
            || output_chunk_amax_len < chunk_count as usize {
            return Err(GemmError::InvalidValue);
        }
        let tiles = dim / self.tiling.tile_m;
        assert(tiles + 1 <= u32::MAX && 0 <= tiles * (tiles + 1) <= u32::MAX) by (nonlinear_arith)
            requires
                tiles >= 0,
                tiles * (tiles + 1) <= u32::MAX,
        ;
        let triangular = tiles * (tiles + 1) / 2;
        Ok(
            (
                GemmLaunch {
                    kernel: GemmKernel::SymmetricAmax,
                    grid_x: triangular,
                    grid_y: 1,
                    grid_z: 1,
                    token_count: dim,
                    input_dim,
                    output_dim: dim,
                    global_scale_mode: 1,
                },
                chunk_count,
            ),
        )
    }

    /// Plans the GEMM with the fused linear-combination epilogue and output maxima.
    pub fn gemm_tma_nvfp4_device_scales_and_global_scale_buffers_linear3_with_output_amax(
        &self,
        source_len: usize,
        action_len: usize,
        out_len: usize,
        bound_amax_len: usize,
        output_chunk_amax_len: usize,
        chunk_count: u32,
        token_count: u32,
        input_dim: u32,
        output_dim: u32,
    ) -> (result: Result<(GemmLaunch, u32), GemmError>)
        requires
            tiling_ok(self.tiling),
            token_count * output_dim <= usize::MAX,
        ensures
            result == if gemm_shape_ok(self.tiling, token_count, input_dim, output_dim)
                && source_len >= token_count * output_dim && action_len >= token_count
                * output_dim && out_len >= token_count * output_dim && bound_amax_len > 0
                && output_chunk_amax_len >= chunk_count {
                Ok(
                    (
                        gemm_launch(
                            self.tiling,
                            GemmKernel::Linear3Amax,
                            token_count,
                            input_dim,
                            output_dim,
                            output_dim,
                            1,
                        ),
                        chunk_count,
                    ),
                )
            } else {
                Err(GemmError::InvalidValue)
            },
    {
        let output_len = output_elements(token_count, output_dim);
        if !self.shape_ok(token_count, input_dim, output_dim) || source_len < output_len
            || action_len < output_len || out_len < output_len || bound_amax_len == 0
            || output_chunk_amax_len < chunk_count as usize {
            return Err(GemmError::InvalidValue);
        }
        Ok(
            (
                self.launch(
                    GemmKernel::Linear3Amax,
                    token_count,
                    input_dim,
                    output_dim,
                    output_dim,
                    1,
                ),
                chunk_count,
            ),
        )
    }

    /// Plans the GEMM with the fused linear-combination epilogue that writes
    /// per-tile partial row sums of squares, and their per-row reduction.
    pub fn gemm_tma_nvfp4_device_scales_and_global_scale_buffers_linear3_with_row_sumsq(
        &self,
        source_len: usize,
        action_len: usize,
        out_len: usize,
        bound_amax_len: usize,
        row_sumsq_partials_len: usize,
        row_sumsq_len: usize,
        token_count: u32,
        input_dim: u32,
        output_dim: u32,
    ) -> (result: Result<GemmRowSumsqLaunch, GemmError>)
        requires
            tiling_ok(self.tiling),
            token_count * output_dim <= usize::MAX,
        ensures
            result == if gemm_shape_ok(self.tiling, token_count, input_dim, output_dim)
                && source_len >= token_count * output_dim && action_len >= token_count
                * output_dim && out_len >= token_count * output_dim && bound_amax_len > 0
                && row_sumsq_partials_len >= token_count * (output_dim / self.tiling.tile_n)
                && row_sumsq_len >= token_count {
                Ok(
                    GemmRowSumsqLaunch {
                        gemm: gemm_launch(
                            self.tiling,
                            GemmKernel::Linear3RowSumsq,
                            token_count,
                            input_dim,
                            output_dim,
                            output_dim,
                            1,
                        ),
                        reduce_rows: token_count,
                        reduce_block_threads: ROW_SUMSQ_REDUCE_THREADS,
                        partials_per_row: (output_dim / self.tiling.tile_n) as u32,
                    },
                )
            } else {
                Err(GemmError::InvalidValue)
            },
    {
        let output_len = output_elements(token_count, output_dim);
        let partials_per_row = output_dim / self.tiling.tile_n;
        proof {
            let t = token_count as int;
            assert(t * (partials_per_row as int) <= t * (output_dim as int)) by (nonlinear_arith)
                requires
                    t >= 0,
                    partials_per_row <= output_dim,
            ;
        }
        let partial_count = output_elements(token_count, partials_per_row);
        if !self.shape_ok(token_count, input_dim, output_dim) || source_len < output_len
            || action_len < output_len || out_len < output_len || bound_amax_len == 0
            || row_sumsq_partials_len < partial_count || row_sumsq_len < token_count as usize {
            return Err(GemmError::InvalidValue);
        }
        Ok(
            GemmRowSumsqLaunch {
                gemm: self.launch(
                    GemmKernel::Linear3RowSumsq,
                    token_count,
                    input_dim,
                    output_dim,
                    output_dim,
                    1,
                ),
                reduce_rows: token_count,
                reduce_block_threads: ROW_SUMSQ_REDUCE_THREADS,
                partials_per_row,
            },
        )
    }

    /// Plans the plain GEMM with one A scale per row.
    pub fn gemm_tma_nvfp4_rowwise_a_scale_and_global_scale_buffer(
        &self,
        token_count: u32,
        input_dim: u32,
        output_dim: u32,
    ) -> (result: Result<GemmLaunch, GemmError>)
        requires
            tiling_ok(self.tiling),
        ensures
            result == if gemm_shape_ok(self.tiling, token_count, input_dim, output_dim) {
                Ok(
                    gemm_launch(
                        self.tiling,
                        GemmKernel::Plain,
                        token_count,
                        input_dim,
                        output_dim,
                        output_dim,
                        2,
                    ),
                )
            } else {
                Err(GemmError::InvalidValue)
            },
    {
        if !self.shape_ok(token_count, input_dim, output_dim) {
            return Err(GemmError::InvalidValue);
        }
        Ok(self.launch(GemmKernel::Plain, token_count, input_dim, output_dim, output_dim, 2))
    }

    /// Plans the GEMM with a bias epilogue into an output padded to
    /// `padded_output_dim` columns.
    pub fn gemm_tma_nvfp4_rowwise_a_scale_affine_padded_output(
        &self,
        token_count: u32,
        input_dim: u32,
        output_dim: u32,
        padded_output_dim: u32,
    ) -> (result: Result<GemmLaunch, GemmError>)
        requires
            tiling_ok(self.tiling),
        ensures
            result == if gemm_shape_ok(self.tiling, token_count, input_dim, padded_output_dim)
                && output_dim <= padded_output_dim {
                Ok(
                    gemm_launch(
                        self.tiling,
                        GemmKernel::Affine,
                        token_count,
                        input_dim,
                        output_dim,
                        padded_output_dim,
                        2,
                    ),
                )
            } else {
                Err(GemmError::InvalidValue)
            },
    {
        if !self.shape_ok(token_count, input_dim, padded_output_dim) || output_dim
            > padded_output_dim {
            return Err(GemmError::InvalidValue);
        }
        Ok(
            self.launch(
                GemmKernel::Affine,
                token_count,
                input_dim,
                output_dim,
                padded_output_dim,
                2,
            ),
        )
    }

    /// Plans the GEMM whose epilogue adds the product and bias into the residual.
    pub fn gemm_tma_nvfp4_rowwise_a_scale_residual(
        &self,
        token_count: u32,
        input_dim: u32,
        output_dim: u32,
    ) -> (result: Result<GemmLaunch, GemmError>)
        requires
            tiling_ok(self.tiling),
        ensures
            result == if gemm_shape_ok(self.tiling, token_count, input_dim, output_dim) {
                Ok(
                    gemm_launch(
                        self.tiling,
                        GemmKernel::Residual,
                        token_count,
                        input_dim,
                        output_dim,
                        output_dim,
                        2,
                    ),
                )
            } else {
                Err(GemmError::InvalidValue)
            },
    {
        if !self.shape_ok(token_count, input_dim, output_dim) {
            return Err(GemmError::InvalidValue);
        }
        Ok(self.launch(GemmKernel::Residual, token_count, input_dim, output_dim, output_dim, 2))
    }

    /// Plans the GEMM with the ReLU-squared epilogue; an FP16 copy of the
    /// pre-activation, when asked for, must hold the whole output.
    pub fn gemm_tma_nvfp4_rowwise_a_scale_relu2(
        &self,
        pre_activation_f16_len: Option<usize>,
        token_count: u32,
        input_dim: u32,
        output_dim: u32,
    ) -> (result: Result<GemmLaunch, GemmError>)
        requires
            tiling_ok(self.tiling),
            pre_activation_f16_len matches Some(len) ==> token_count * output_dim <= u32::MAX
                && len >= token_count * output_dim,
        ensures
            result == if gemm_shape_ok(self.tiling, token_count, input_dim, output_dim) {
                Ok(
                    gemm_launch(
                        self.tiling,
                        GemmKernel::Relu2,
                        token_count,
                        input_dim,
                        output_dim,
                        output_dim,
                        2,
                    ),
                )
            } else {
                Err(GemmError::InvalidValue)
            },
    {
        if !self.shape_ok(token_count, input_dim, output_dim) {
            return Err(GemmError::InvalidValue);
        }
        Ok(self.launch(GemmKernel::Relu2, token_count, input_dim, output_dim, output_dim, 2))
    }

    /// Plans the GEMM with the compact ReLU-squared epilogue.
    pub fn gemm_tma_nvfp4_rowwise_a_scale_relu2_compact(
        &self,
        pre_activation_f16_len: Option<usize>,
        token_count: u32,
        input_dim: u32,
        output_dim: u32,
    ) -> (result: Result<GemmLaunch, GemmError>)
        requires
            tiling_ok(self.tiling),
            pre_activation_f16_len matches Some(len) ==> token_count * output_dim <= u32::MAX
                && len >= token_count * output_dim,
        ensures
            result == if gemm_shape_ok(self.tiling, token_count, input_dim, output_dim) {
                Ok(
                    gemm_launch(
                        self.tiling,
                        GemmKernel::Relu2Compact,
                        token_count,
                        input_dim,
                        output_dim,
                        output_dim,
                        2,
                    ),
                )
            } else {
                Err(GemmError::InvalidValue)
            },
    {
        if !self.shape_ok(token_count, input_dim, output_dim) {
            return Err(GemmError::InvalidValue);
        }
        Ok(
            self.launch(
                GemmKernel::Relu2Compact,
                token_count,
                input_dim,
                output_dim,
                output_dim,
                2,
            ),
        )
    }

    /// Plans the plain GEMM into an output padded to `padded_output_dim` columns.
    pub fn gemm_tma_nvfp4_rowwise_a_scale_padded_output(
        &self,
        token_count: u32,
        input_dim: u32,
        output_dim: u32,
        padded_output_dim: u32,
    ) -> (result: Result<GemmLaunch, GemmError>)
        requires
            tiling_ok(self.tiling),
        ensures
            result == if gemm_shape_ok(self.tiling, token_count, input_dim, padded_output_dim)
                && output_dim <= padded_output_dim {
                Ok(
                    gemm_launch(
                        self.tiling,
                        GemmKernel::Plain,
                        token_count,
                        input_dim,
                        output_dim,
                        padded_output_dim,
                        2,
                    ),
                )
            } else {
                Err(GemmError::InvalidValue)
            },
    {
        if !self.shape_ok(token_count, input_dim, padded_output_dim) || output_dim
            > padded_output_dim {
            return Err(GemmError::InvalidValue);
        }
        Ok(
            self.launch(
                GemmKernel::Plain,
                token_count,
                input_dim,
                output_dim,
                padded_output_dim,
                2,
            ),
        )
    }
}

/// Elements of a `rows x cols` output.
pub fn output_elements(rows: u32, cols: u32) -> (count: usize)
    requires
        rows * cols <= usize::MAX,
    ensures
        count == rows * cols,
{
    proof {
        assert(rows * cols <= 0xffff_ffff * 0xffff_ffff) by (nonlinear_arith)
            requires
                rows <= 0xffff_ffff,
                cols <= 0xffff_ffff,
        ;
    }
    (rows as u64 * cols as u64) as usize
}

/// Output tiles on or below the diagonal of a square grid of `tiles` tile rows.
pub open spec fn triangular_tiles(tiles: int) -> int {
    tiles * (tiles + 1) / 2
}

/// The symmetric GEMM's grid holds one block per tile pair `(row, col)` with
/// `col <= row`: `triangular_tiles(n + 1)` is `triangular_tiles(n)` plus the
/// `n + 1` tiles of the new row.
pub proof fn lemma_triangular_tiles_step(tiles: int)
    requires
        tiles >= 0,
    ensures
        triangular_tiles(0) == 0,
        triangular_tiles(tiles + 1) == triangular_tiles(tiles) + tiles + 1,
{
    let product = tiles * (tiles + 1);
    assert((tiles + 1) * (tiles + 2) == product + 2 * (tiles + 1)) by (nonlinear_arith)
        requires
            product == tiles * (tiles + 1),
    ;
}

/// A GEMM whose shape `gemm_shape_ok` accepts runs on whole tiles: its grid
/// has exactly one block per `tile_m x tile_n` tile of the `token_count x
/// grid_cols` output and one layer, and the reduction depth is a positive
/// whole number of `tile_k` steps and of scale atoms.
pub proof fn lemma_gemm_plan_tiles_output(
    tiling: Nvfp4GemmTiling,
    kernel: GemmKernel,
    token_count: u32,
    input_dim: u32,
    output_dim: u32,
    grid_cols: u32,
    global_scale_mode: u32,
)
    requires
        tiling_ok(tiling),
        gemm_shape_ok(tiling, token_count, input_dim, grid_cols),
    ensures
        ({
            let launch = gemm_launch(
                tiling,
                kernel,
                token_count,
                input_dim,
                output_dim,
                grid_cols,
                global_scale_mode,
            );
            &&& launch.grid_y * tiling.tile_m == token_count
            &&& launch.grid_x * tiling.tile_n == grid_cols
            &&& launch.grid_z == 1
            &&& input_dim > 0
            &&& (input_dim / tiling.tile_k) * tiling.tile_k == input_dim
            &&& (input_dim / tiling.k_atom) * tiling.k_atom == input_dim
        }),
{
    let tm = tiling.tile_m as int;
    let tn = tiling.tile_n as int;
    lemma_ceil_div_is_fewest_blocks(token_count as int, tm);
    lemma_ceil_div_is_fewest_blocks(grid_cols as int, tn);
    let gy = ceil_div(token_count as int, tm);
    let gx = ceil_div(grid_cols as int, tn);
    vstd::arithmetic::div_mod::lemma_fundamental_div_mod(token_count as int, tm);
    vstd::arithmetic::div_mod::lemma_fundamental_div_mod(grid_cols as int, tn);
    let qy = token_count as int / tm;
    let qx = grid_cols as int / tn;
    assert(gy == qy) by (nonlinear_arith)
        requires
            gy * tm >= token_count,
            (gy - 1) * tm < token_count || gy == 0,
            token_count == tm * qy,
            tm > 0,
            gy >= 0,
            qy >= 0,
    ;
    assert(gx == qx) by (nonlinear_arith)
        requires
            gx * tn >= grid_cols,
            (gx - 1) * tn < grid_cols || gx == 0,
            grid_cols == tn * qx,
            tn > 0,
            gx >= 0,
            qx >= 0,
    ;
    assert(gy * tm == token_count && gx * tn == grid_cols) by (nonlinear_arith)
        requires
            gy == qy,
            gx == qx,
            token_count == tm * qy,
            grid_cols == tn * qx,
    ;
    vstd::arithmetic::div_mod::lemma_fundamental_div_mod(input_dim as int, tiling.tile_k as int);
    vstd::arithmetic::div_mod::lemma_fundamental_div_mod(input_dim as int, tiling.k_atom as int);
    assert((input_dim / tiling.tile_k) * tiling.tile_k == input_dim) by (nonlinear_arith)
        requires
            input_dim == tiling.tile_k * (input_dim / tiling.tile_k) + input_dim % tiling.tile_k,
            input_dim % tiling.tile_k == 0,
    ;
    assert((input_dim / tiling.k_atom) * tiling.k_atom == input_dim) by (nonlinear_arith)
        requires
            input_dim == tiling.k_atom * (input_dim / tiling.k_atom) + input_dim % tiling.k_atom,
            input_dim % tiling.k_atom == 0,
    ;
}

} // verus!
