use vstd::prelude::*;

use super::cta_tile::{CTA_M, CTA_N, CtaMatmulDims};
use super::sparse_tile::{
    attention_tile_count, attention_tiles, ceil_div, div_ceil_u32, lemma_ceil_div_is_fewest_blocks,
};

verus! {

/// Threads per block of the FP32-to-FP16 conversion kernel.
pub const F16_THREADS_PER_BLOCK: u32 = 256;

/// Which of the two block widths a tensor-core matmul kernel runs with.
#[derive(Clone, Copy, Debug, PartialEq, Eq, Structural)]
pub enum CtaBlockWidth {
    Narrow,
    Wide,
}

/// Grid and block width of one tensor-core matmul launch.
#[derive(Clone, Copy, Debug, PartialEq, Eq, Structural)]
pub struct CtaLaunchConfig {
    pub grid_x: u32,
    pub grid_y: u32,
    pub grid_z: u32,
    pub width: CtaBlockWidth,
}

/// The matmul kernels that the half-precision launchers choose between.
#[derive(Clone, Copy, Debug, PartialEq, Eq, Structural)]
pub enum F16TcKernel {
    Matmul,
    MatmulLower,
    MatmulLowerDs,
    MatmulWindowedLowerDs,
    MatmulWindowedLowerDsSparse,
    MatmulHalfRhsLowerA,
    MatmulHalfATransposedRhsLowerA,
    MatmulHalfRhsWindowedLowerA,
    MatmulHalfATransposedRhsWindowedLowerA,
    MatmulHalfRhsWindowedLowerASparse,
    MatmulHalfATransposedRhsWindowedLowerASparse,
    MatmulHalfATransposedRhsWindowedLowerASparseScaled,
}

/// One kernel launch: the kernel, its grid, and the scalar arguments it gets
/// besides its buffers (`window` is zero for kernels that take none).
#[derive(Clone, Copy, Debug, PartialEq, Eq, Structural)]
pub struct CtaLaunch {
    pub kernel: F16TcKernel,
    pub config: CtaLaunchConfig,
    pub batch_count: u32,
    pub m: u32,
    pub n: u32,
    pub k: u32,
    pub window: u32,
}

/// The launch of the FP32-to-FP16 conversion kernel: `blocks` blocks of
/// `F16_THREADS_PER_BLOCK` threads, each thread converting one element pair.
#[derive(Clone, Copy, Debug, PartialEq, Eq, Structural)]
pub struct F16ConvertLaunch {
    pub blocks: u32,
    pub element_count: u32,
}

/// The copy of both FP32 inputs of a `batch_count x m x n x k` matmul to half
/// precision, into scratch buffers.
#[derive(Clone, Copy, Debug, PartialEq, Eq, Structural)]
pub struct PrepareHalves {
    pub batch_count: u32,
    pub m: u32,
    pub n: u32,
    pub k: u32,
}

/// The two launches of an FP32-input matmul, in order: the half-precision
/// copy, then the matmul.
#[derive(Clone, Copy, Debug, PartialEq, Eq, Structural)]
pub struct F16MatmulPlan {
    pub prepare: PrepareHalves,
    pub matmul: CtaLaunch,
}

/// Buffer lengths and count of an FP32-to-FP16 conversion.
#[derive(Clone, Copy)]
pub struct F16ConvertArgs {
    pub src_len: usize,
    pub dst_len: usize,
    pub element_count: u32,
}

/// Buffer lengths and shape of `out = a * b_t^T` on FP32 inputs.
#[derive(Clone, Copy)]
pub struct F16TcMatmulArgs {
    pub a_len: usize,
    pub b_t_len: usize,
    pub out_len: usize,
    pub batch_count: u32,
    pub m: u32,
    pub n: u32,
    pub k: u32,
}

/// Buffer lengths and shape of `out = a * b_t^T` on half-precision inputs.
#[derive(Clone, Copy)]
pub struct F16TcMatmulHalfArgs {
    pub a_len: usize,
    pub b_t_len: usize,
    pub out_len: usize,
    pub batch_count: u32,
    pub m: u32,
    pub n: u32,
    pub k: u32,
}

/// Buffer lengths and shape of the softmax-gradient matmul.
#[derive(Clone, Copy)]
pub struct F16TcMatmulHalfDsArgs {
    pub a_len: usize,
    pub b_t_len: usize,
    pub probs_len: usize,
    pub softmax_d_len: usize,
    pub out_len: usize,
    pub batch_count: u32,
    pub m: u32,
    pub n: u32,
    pub k: u32,
}

/// Buffer lengths and shape of the windowed softmax-gradient matmul.
#[derive(Clone, Copy)]
pub struct F16TcMatmulHalfDsWindowArgs {
    pub a_len: usize,
    pub b_t_len: usize,
    pub probs_len: usize,
    pub softmax_d_len: usize,
    pub out_len: usize,
    pub batch_count: u32,
    pub m: u32,
    pub n: u32,
    pub k: u32,
    pub window: u32,
}

/// Buffer lengths and shape of the windowed, tile-sparse softmax-gradient matmul.
#[derive(Clone, Copy)]
pub struct F16TcMatmulHalfDsSparseWindowArgs {
    pub a_len: usize,
    pub b_t_len: usize,
    pub probs_len: usize,
    pub softmax_d_len: usize,
    pub tile_scales_len: usize,
    pub out_len: usize,
    pub batch_count: u32,
    pub m: u32,
    pub n: u32,
    pub k: u32,
    pub window: u32,
}

/// Buffer lengths and shape of `out = lower(a) * rhs`.
#[derive(Clone, Copy)]
pub struct F16TcMatmulHalfRhsArgs {
    pub a_len: usize,
    pub rhs_len: usize,
    pub out_len: usize,
    pub batch_count: u32,
    pub m: u32,
    pub n: u32,
    pub k: u32,
}

/// Buffer lengths and shape of `out = band(a) * rhs`.
#[derive(Clone, Copy)]
pub struct F16TcMatmulHalfRhsWindowArgs {
    pub a_len: usize,
    pub rhs_len: usize,
    pub out_len: usize,
    pub batch_count: u32,
    pub m: u32,
    pub n: u32,
    pub k: u32,
    pub window: u32,
}

/// Buffer lengths and shape of the tile-sparse `out = band(a) * rhs`.
#[derive(Clone, Copy)]
pub struct F16TcMatmulHalfRhsSparseWindowArgs {
    pub a_len: usize,
    pub rhs_len: usize,
    pub tile_scales_len: usize,
    pub out_len: usize,
    pub batch_count: u32,
    pub m: u32,
    pub n: u32,
    pub k: u32,
    pub window: u32,
}

/// Launcher of the half-precision tensor-core matmul kernels: each method
/// checks its arguments as the kernels need them and plans the launch.
pub struct F16TcMatmulModule {}

/// Elements of `batch_count` matrices of `rows x cols`.
pub open spec fn element_count(batch_count: int, rows: int, cols: int) -> int {
    batch_count * rows * cols
}

/// Whether the element count of `batch_count` matrices of `rows x cols` fits in `usize`.
pub open spec fn count_fits(batch_count: u32, rows: int, cols: int) -> bool {
    element_count(batch_count as int, rows, cols) <= usize::MAX
}

/// The counts that the half-precision `a * b_t^T` checks compute fit in `usize`.
pub open spec fn half_counts_fit(batch_count: u32, m: u32, n: u32, k: u32) -> bool {
    &&& count_fits(batch_count, m as int, k as int)
    &&& count_fits(batch_count, n as int, k as int)
    &&& count_fits(batch_count, m as int, n as int)
}

/// The counts that the softmax-gradient checks compute fit in `usize`.
pub open spec fn ds_counts_fit(batch_count: u32, m: u32, n: u32, k: u32) -> bool {
    &&& half_counts_fit(batch_count, m, n, k)
    &&& count_fits(batch_count, m as int, 1)
}

/// The counts that the tile-sparse softmax-gradient checks compute fit in `usize`.
pub open spec fn ds_sparse_counts_fit(batch_count: u32, m: u32, n: u32, k: u32) -> bool {
    &&& ds_counts_fit(batch_count, m, n, k)
    &&& count_fits(batch_count, attention_tiles(m as int), attention_tiles(m as int))
}

/// The counts that the `lower(a) * rhs` and `band(a) * rhs` checks compute fit in `usize`.
pub open spec fn rhs_counts_fit(batch_count: u32, m: u32, n: u32, k: u32) -> bool {
    &&& count_fits(batch_count, m as int, k as int)
    &&& count_fits(batch_count, k as int, n as int)
    &&& count_fits(batch_count, m as int, n as int)
}

/// The counts that the `lower(a^T) * rhs` and `band(a^T) * rhs` checks compute fit in `usize`.
pub open spec fn rhs_transposed_counts_fit(batch_count: u32, m: u32, n: u32, k: u32) -> bool {
    &&& count_fits(batch_count, k as int, m as int)
    &&& count_fits(batch_count, k as int, n as int)
    &&& count_fits(batch_count, m as int, n as int)
}

/// The counts that the tile-sparse right-hand-side checks compute fit in `usize`.
pub open spec fn sparse_rhs_counts_fit(batch_count: u32, m: u32, n: u32, k: u32) -> bool {
    &&& rhs_counts_fit(batch_count, m, n, k)
    &&& count_fits(batch_count, attention_tiles(m as int), attention_tiles(m as int))
}

pub fn elements(batch_count: u32, rows: u32, cols: u32) -> (count: usize)
    requires
        element_count(batch_count as int, rows as int, cols as int) <= usize::MAX,
    ensures
        count == element_count(batch_count as int, rows as int, cols as int),
{
    proof {
        let (b, r, c) = (batch_count as int, rows as int, cols as int);
        assert(b * r * c <= 0xffff_ffff * 0xffff_ffff * 0xffff_ffff) by (nonlinear_arith)
            requires
                0 <= b <= 0xffff_ffff,
                0 <= r <= 0xffff_ffff,
                0 <= c <= 0xffff_ffff,
        ;
        assert(b * r <= 0xffff_ffff * 0xffff_ffff) by (nonlinear_arith)
            requires
                0 <= b <= 0xffff_ffff,
                0 <= r <= 0xffff_ffff,
        ;
    }
    let count = batch_count as u128 * rows as u128 * cols as u128;
    count as usize
}

/// Whether `window` is a usable attention window for a sequence of `seq_len`:
/// positive, at most the sequence, and a whole number of tiles.
pub open spec fn window_ok(window: int, seq_len: int) -> bool {
    0 < window <= seq_len && window % (CTA_M as int) == 0
}

/// Whether `window` is a usable attention window for `seq_len` tokens.
pub fn window_is_valid(window: u32, seq_len: u32) -> (ok: bool)
    ensures
        ok == window_ok(window as int, seq_len as int),
{
    window > 0 && window <= seq_len && window % CTA_M == 0
}

/// Checks an attention window: the windowed launchers accept only windows
/// that `window_ok` admits, and a caller must check (for instance with
/// `window_is_valid`) before launching.
pub fn assert_window(window: u32, seq_len: u32)
    requires
        window_ok(window as int, seq_len as int),
{
}

/// Entries of the per-tile scale map for `batch_count` heads of `seq_len` tokens.
pub fn sparse_tile_elements(batch_count: u32, seq_len: u32) -> (count: usize)
    requires
        element_count(
            batch_count as int,
            attention_tiles(seq_len as int),
            attention_tiles(seq_len as int),
        ) <= usize::MAX,
    ensures
        count == element_count(
            batch_count as int,
            attention_tiles(seq_len as int),
            attention_tiles(seq_len as int),
        ),
{
    let tiles = attention_tile_count(seq_len);
    elements(batch_count, tiles, tiles)
}

/// The grid of a tensor-core matmul launch: one block per `CTA_M x CTA_N`
/// output tile of each batch entry.
pub open spec fn cta_grid(m: u32, n: u32, batch_count: u32, width: CtaBlockWidth) -> CtaLaunchConfig {
    CtaLaunchConfig {
        grid_x: ceil_div(n as int, CTA_N as int) as u32,
        grid_y: ceil_div(m as int, CTA_M as int) as u32,
        grid_z: batch_count,
        width,
    }
}

pub fn cta_config(m: u32, n: u32, batch_count: u32) -> (config: CtaLaunchConfig)
    ensures
        config == cta_grid(m, n, batch_count, CtaBlockWidth::Wide),
{
    CtaLaunchConfig {
        grid_x: div_ceil_u32(n, CTA_N),
        grid_y: div_ceil_u32(m, CTA_M),
        grid_z: batch_count,
        width: CtaBlockWidth::Wide,
    }
}

pub fn cta_narrow_config(m: u32, n: u32, batch_count: u32) -> (config: CtaLaunchConfig)
    ensures
        config == cta_grid(m, n, batch_count, CtaBlockWidth::Narrow),
{
    CtaLaunchConfig {
        grid_x: div_ceil_u32(n, CTA_N),
        grid_y: div_ceil_u32(m, CTA_M),
        grid_z: batch_count,
        width: CtaBlockWidth::Narrow,
    }
}

/// The launch of `kernel` over an `m x n` output of `batch_count` entries.
pub open spec fn cta_launch(
    kernel: F16TcKernel,
    batch_count: u32,
    m: u32,
    n: u32,
    k: u32,
    window: u32,
) -> CtaLaunch {
    CtaLaunch {
        kernel,
        config: cta_grid(m, n, batch_count, CtaBlockWidth::Wide),
        batch_count,
        m,
        n,
        k,
        window,
    }
}

/// What the sparse half-precision right-hand-side launchers check.
pub open spec fn sparse_half_rhs_ok(args: F16TcMatmulHalfRhsSparseWindowArgs) -> bool {
    &&& args.m == args.k
    &&& window_ok(args.window as int, args.k as int)
    &&& args.a_len >= element_count(args.batch_count as int, args.m as int, args.k as int)
    &&& args.rhs_len >= element_count(args.batch_count as int, args.k as int, args.n as int)
    &&& args.tile_scales_len >= element_count(
        args.batch_count as int,
        attention_tiles(args.m as int),
        attention_tiles(args.m as int),
    )
    &&& args.out_len >= element_count(args.batch_count as int, args.m as int, args.n as int)
}

/// Checks the arguments of a sparse windowed launch: the sparse launchers
/// accept only arguments that `sparse_half_rhs_ok` admits, and a caller must
/// check them (for instance with `F16TcMatmulHalfRhsSparseWindowArgs::fits`).
pub fn validate_sparse_half_rhs(args: &F16TcMatmulHalfRhsSparseWindowArgs)
    requires
        sparse_rhs_counts_fit(args.batch_count, args.m, args.n, args.k),
        sparse_half_rhs_ok(*args),
{
    assert_window(args.window, args.k);
}

impl F16TcMatmulHalfRhsSparseWindowArgs {
    /// Reports whether the arguments of a sparse windowed launch are usable.
    pub fn fits(&self) -> (ok: bool)
        requires
            sparse_rhs_counts_fit(self.batch_count, self.m, self.n, self.k),
        ensures
            ok == sparse_half_rhs_ok(*self),
    {
        self.m == self.k && window_is_valid(self.window, self.k) && self.a_len >= elements(
            self.batch_count,
            self.m,
            self.k,
        ) && self.rhs_len >= elements(self.batch_count, self.k, self.n) && self.tile_scales_len
            >= sparse_tile_elements(self.batch_count, self.m) && self.out_len >= elements(
            self.batch_count,
            self.m,
            self.n,
        )
    }
}

/// What the half-precision matmul launcher checks: every buffer holds its matrices.
pub open spec fn half_ok(args: F16TcMatmulHalfArgs) -> bool {
    &&& args.a_len >= element_count(args.batch_count as int, args.m as int, args.k as int)
    &&& args.b_t_len >= element_count(args.batch_count as int, args.n as int, args.k as int)
    &&& args.out_len >= element_count(args.batch_count as int, args.m as int, args.n as int)
}

/// What the lower-triangular matmul launcher checks: a square output and buffers that hold their matrices.
pub open spec fn half_lower_ok(args: F16TcMatmulHalfArgs) -> bool {
    &&& args.m == args.n
    &&& args.a_len >= element_count(args.batch_count as int, args.m as int, args.k as int)
    &&& args.b_t_len >= element_count(args.batch_count as int, args.n as int, args.k as int)
    &&& args.out_len >= element_count(args.batch_count as int, args.m as int, args.n as int)
}

/// What the softmax-gradient launcher checks: a square output and buffers that hold their matrices.
pub open spec fn ds_ok(args: F16TcMatmulHalfDsArgs) -> bool {
    &&& args.m == args.n
    &&& args.a_len >= element_count(args.batch_count as int, args.m as int, args.k as int)
    &&& args.b_t_len >= element_count(args.batch_count as int, args.n as int, args.k as int)
    &&& args.probs_len >= element_count(args.batch_count as int, args.m as int, args.n as int)
    &&& args.softmax_d_len >= element_count(args.batch_count as int, args.m as int, 1)
    &&& args.out_len >= element_count(args.batch_count as int, args.m as int, args.n as int)
}

/// What the windowed softmax-gradient launcher checks.
pub open spec fn ds_window_ok(args: F16TcMatmulHalfDsWindowArgs) -> bool {
    &&& args.m == args.n
    &&& window_ok(args.window as int, args.m as int)
    &&& args.a_len >= element_count(args.batch_count as int, args.m as int, args.k as int)
    &&& args.b_t_len >= element_count(args.batch_count as int, args.n as int, args.k as int)
    &&& args.probs_len >= element_count(args.batch_count as int, args.m as int, args.n as int)
    &&& args.softmax_d_len >= element_count(args.batch_count as int, args.m as int, 1)
    &&& args.out_len >= element_count(args.batch_count as int, args.m as int, args.n as int)
}

/// What the windowed, tile-sparse softmax-gradient launcher checks.
pub open spec fn ds_sparse_ok(args: F16TcMatmulHalfDsSparseWindowArgs) -> bool {
    &&& args.m == args.n
    &&& window_ok(args.window as int, args.m as int)
    &&& args.a_len >= element_count(args.batch_count as int, args.m as int, args.k as int)
    &&& args.b_t_len >= element_count(args.batch_count as int, args.n as int, args.k as int)
    &&& args.probs_len >= element_count(args.batch_count as int, args.m as int, args.n as int)
    &&& args.softmax_d_len >= element_count(args.batch_count as int, args.m as int, 1)
    &&& args.tile_scales_len >= element_count(args.batch_count as int, attention_tiles(args.m as int), attention_tiles(args.m as int))
    &&& args.out_len >= element_count(args.batch_count as int, args.m as int, args.n as int)
}

/// What the `lower(a) * rhs` launcher checks: a square `a` and buffers that hold their matrices.
pub open spec fn rhs_lower_ok(args: F16TcMatmulHalfRhsArgs) -> bool {
    &&& args.m == args.k
    &&& args.a_len >= element_count(args.batch_count as int, args.m as int, args.k as int)
    &&& args.rhs_len >= element_count(args.batch_count as int, args.k as int, args.n as int)
    &&& args.out_len >= element_count(args.batch_count as int, args.m as int, args.n as int)
}

/// What the `lower(a^T) * rhs` launcher checks: a square `a` and buffers that hold their matrices.
pub open spec fn rhs_transposed_lower_ok(args: F16TcMatmulHalfRhsArgs) -> bool {
    &&& args.m == args.k
    &&& args.a_len >= element_count(args.batch_count as int, args.k as int, args.m as int)
    &&& args.rhs_len >= element_count(args.batch_count as int, args.k as int, args.n as int)
    &&& args.out_len >= element_count(args.batch_count as int, args.m as int, args.n as int)
}

/// What the `band(a) * rhs` launcher checks.
pub open spec fn rhs_window_ok(args: F16TcMatmulHalfRhsWindowArgs) -> bool {
    &&& args.m == args.k
    &&& window_ok(args.window as int, args.k as int)
    &&& args.a_len >= element_count(args.batch_count as int, args.m as int, args.k as int)
    &&& args.rhs_len >= element_count(args.batch_count as int, args.k as int, args.n as int)
    &&& args.out_len >= element_count(args.batch_count as int, args.m as int, args.n as int)
}

/// What the `band(a^T) * rhs` launcher checks.
pub open spec fn rhs_transposed_window_ok(args: F16TcMatmulHalfRhsWindowArgs) -> bool {
    &&& args.m == args.k
    &&& window_ok(args.window as int, args.k as int)
    &&& args.a_len >= element_count(args.batch_count as int, args.k as int, args.m as int)
    &&& args.rhs_len >= element_count(args.batch_count as int, args.k as int, args.n as int)
    &&& args.out_len >= element_count(args.batch_count as int, args.m as int, args.n as int)
}

impl F16TcMatmulHalfArgs {
    /// Reports whether the buffers hold their matrices.
    pub fn fits(&self) -> (ok: bool)
        requires
            half_counts_fit(self.batch_count, self.m, self.n, self.k),
        ensures
            ok == half_ok(*self),
    {
        self.a_len >= elements(self.batch_count, self.m, self.k) && self.b_t_len >= elements(self.batch_count, self.n, self.k) && self.out_len >= elements(self.batch_count, self.m, self.n)
    }

    /// Reports whether the output is square and the buffers hold their matrices.
    pub fn fits_lower(&self) -> (ok: bool)
        requires
            half_counts_fit(self.batch_count, self.m, self.n, self.k),
        ensures
            ok == half_lower_ok(*self),
    {
        self.m == self.n && self.a_len >= elements(self.batch_count, self.m, self.k) && self.b_t_len >= elements(self.batch_count, self.n, self.k) && self.out_len >= elements(self.batch_count, self.m, self.n)
    }

}

impl F16TcMatmulHalfDsArgs {
    /// Reports whether the softmax-gradient arguments are usable.
    pub fn fits(&self) -> (ok: bool)
        requires
            ds_counts_fit(self.batch_count, self.m, self.n, self.k),
        ensures
            ok == ds_ok(*self),
    {
        self.m == self.n && self.a_len >= elements(self.batch_count, self.m, self.k) && self.b_t_len >= elements(self.batch_count, self.n, self.k) && self.probs_len >= elements(self.batch_count, self.m, self.n) && self.softmax_d_len >= elements(self.batch_count, self.m, 1) && self.out_len >= elements(self.batch_count, self.m, self.n)
    }

}

impl F16TcMatmulHalfDsWindowArgs {
    /// Reports whether the windowed softmax-gradient arguments are usable.
    pub fn fits(&self) -> (ok: bool)
        requires
            ds_counts_fit(self.batch_count, self.m, self.n, self.k),
        ensures
            ok == ds_window_ok(*self),
    {
        self.m == self.n && window_is_valid(self.window, self.m) && self.a_len >= elements(self.batch_count, self.m, self.k) && self.b_t_len >= elements(self.batch_count, self.n, self.k) && self.probs_len >= elements(self.batch_count, self.m, self.n) && self.softmax_d_len >= elements(self.batch_count, self.m, 1) && self.out_len >= elements(self.batch_count, self.m, self.n)
    }

}

impl F16TcMatmulHalfDsSparseWindowArgs {
    /// Reports whether the sparse windowed softmax-gradient arguments are usable.
    pub fn fits(&self) -> (ok: bool)
        requires
            ds_sparse_counts_fit(self.batch_count, self.m, self.n, self.k),
        ensures
            ok == ds_sparse_ok(*self),
    {
        self.m == self.n && window_is_valid(self.window, self.m) && self.a_len >= elements(self.batch_count, self.m, self.k) && self.b_t_len >= elements(self.batch_count, self.n, self.k) && self.probs_len >= elements(self.batch_count, self.m, self.n) && self.softmax_d_len >= elements(self.batch_count, self.m, 1) && self.tile_scales_len >= sparse_tile_elements(self.batch_count, self.m) && self.out_len >= elements(self.batch_count, self.m, self.n)
    }

}

impl F16TcMatmulHalfRhsArgs {
    /// Reports whether the `lower(a) * rhs` arguments are usable.
    pub fn fits_lower_a(&self) -> (ok: bool)
        requires
            rhs_counts_fit(self.batch_count, self.m, self.n, self.k),
        ensures
            ok == rhs_lower_ok(*self),
    {
        self.m == self.k && self.a_len >= elements(self.batch_count, self.m, self.k) && self.rhs_len >= elements(self.batch_count, self.k, self.n) && self.out_len >= elements(self.batch_count, self.m, self.n)
    }

    /// Reports whether the `lower(a^T) * rhs` arguments are usable.
    pub fn fits_a_transposed_lower_a(&self) -> (ok: bool)
        requires
            rhs_transposed_counts_fit(self.batch_count, self.m, self.n, self.k),
        ensures
            ok == rhs_transposed_lower_ok(*self),
    {
        self.m == self.k && self.a_len >= elements(self.batch_count, self.k, self.m) && self.rhs_len >= elements(self.batch_count, self.k, self.n) && self.out_len >= elements(self.batch_count, self.m, self.n)
    }

}

impl F16TcMatmulHalfRhsWindowArgs {
    /// Reports whether the `band(a) * rhs` arguments are usable.
    pub fn fits_windowed_lower_a(&self) -> (ok: bool)
        requires
            rhs_counts_fit(self.batch_count, self.m, self.n, self.k),
        ensures
            ok == rhs_window_ok(*self),
    {
        self.m == self.k && window_is_valid(self.window, self.k) && self.a_len >= elements(self.batch_count, self.m, self.k) && self.rhs_len >= elements(self.batch_count, self.k, self.n) && self.out_len >= elements(self.batch_count, self.m, self.n)
    }

    /// Reports whether the `band(a^T) * rhs` arguments are usable.
    pub fn fits_a_transposed_windowed_lower_a(&self) -> (ok: bool)
        requires
            rhs_transposed_counts_fit(self.batch_count, self.m, self.n, self.k),
        ensures
            ok == rhs_transposed_window_ok(*self),
    {
        self.m == self.k && window_is_valid(self.window, self.k) && self.a_len >= elements(self.batch_count, self.k, self.m) && self.rhs_len >= elements(self.batch_count, self.k, self.n) && self.out_len >= elements(self.batch_count, self.m, self.n)
    }

}

impl F16TcMatmulModule {
    /// Plans `out = a * b_t^T` on half-precision inputs.
    pub fn batched_matmul_half_input(&self, args: F16TcMatmulHalfArgs) -> (launch: CtaLaunch)
        requires
            half_counts_fit(args.batch_count, args.m, args.n, args.k),
            half_ok(args),
        ensures
            launch == cta_launch(
                F16TcKernel::Matmul,
                args.batch_count,
                args.m,
                args.n,
                args.k,
                0,
            ),
    {
        CtaLaunch {
            kernel: F16TcKernel::Matmul,
            config: cta_config(args.m, args.n, args.batch_count),
            batch_count: args.batch_count,
            m: args.m,
            n: args.n,
            k: args.k,
            window: 0,
        }
    }

    /// Plans the lower triangle of `out = a * b_t^T` on half-precision inputs.
    pub fn batched_matmul_half_input_lower(&self, args: F16TcMatmulHalfArgs) -> (launch: CtaLaunch)
        requires
            half_counts_fit(args.batch_count, args.m, args.n, args.k),
            half_lower_ok(args),
        ensures
            launch == cta_launch(
                F16TcKernel::MatmulLower,
                args.batch_count,
                args.m,
                args.n,
                args.k,
                0,
            ),
    {
        CtaLaunch {
            kernel: F16TcKernel::MatmulLower,
            config: cta_config(args.m, args.n, args.batch_count),
            batch_count: args.batch_count,
            m: args.m,
            n: args.n,
            k: args.k,
            window: 0,
        }
    }

    /// Plans the causal softmax gradient from `a * b_t^T`, the probabilities and the row sums.
    pub fn batched_matmul_half_input_lower_ds(&self, args: F16TcMatmulHalfDsArgs) -> (launch: CtaLaunch)
        requires
            ds_counts_fit(args.batch_count, args.m, args.n, args.k),
            ds_ok(args),
        ensures
            launch == cta_launch(
                F16TcKernel::MatmulLowerDs,
                args.batch_count,
                args.m,
                args.n,
                args.k,
                0,
            ),
    {
        CtaLaunch {
            kernel: F16TcKernel::MatmulLowerDs,
            config: cta_config(args.m, args.n, args.batch_count),
            batch_count: args.batch_count,
            m: args.m,
            n: args.n,
            k: args.k,
            window: 0,
        }
    }

    /// Plans the windowed causal softmax gradient.
    pub fn batched_matmul_half_input_windowed_lower_ds(&self, args: F16TcMatmulHalfDsWindowArgs) -> (launch: CtaLaunch)
        requires
            ds_counts_fit(args.batch_count, args.m, args.n, args.k),
            ds_window_ok(args),
        ensures
            launch == cta_launch(
                F16TcKernel::MatmulWindowedLowerDs,
                args.batch_count,
                args.m,
                args.n,
                args.k,
                args.window,
            ),
    {
        assert_window(args.window, args.m);
        CtaLaunch {
            kernel: F16TcKernel::MatmulWindowedLowerDs,
            config: cta_config(args.m, args.n, args.batch_count),
            batch_count: args.batch_count,
            m: args.m,
            n: args.n,
            k: args.k,
            window: args.window,
        }
    }

    /// Plans the windowed causal softmax gradient over the kept attention tiles.
    pub fn batched_matmul_half_input_windowed_lower_ds_sparse(&self, args: F16TcMatmulHalfDsSparseWindowArgs) -> (launch: CtaLaunch)
        requires
            ds_sparse_counts_fit(args.batch_count, args.m, args.n, args.k),
            ds_sparse_ok(args),
        ensures
            launch == cta_launch(
                F16TcKernel::MatmulWindowedLowerDsSparse,
                args.batch_count,
                args.m,
                args.n,
                args.k,
                args.window,
            ),
    {
        assert_window(args.window, args.m);
        CtaLaunch {
            kernel: F16TcKernel::MatmulWindowedLowerDsSparse,
            config: cta_config(args.m, args.n, args.batch_count),
            batch_count: args.batch_count,
            m: args.m,
            n: args.n,
            k: args.k,
            window: args.window,
        }
    }

    /// Plans `out = lower(a) * rhs`.
    pub fn batched_matmul_half_rhs_lower_a(&self, args: F16TcMatmulHalfRhsArgs) -> (launch: CtaLaunch)
        requires
            rhs_counts_fit(args.batch_count, args.m, args.n, args.k),
            rhs_lower_ok(args),
        ensures
            launch == cta_launch(
                F16TcKernel::MatmulHalfRhsLowerA,
                args.batch_count,
                args.m,
                args.n,
                args.k,
                0,
            ),
    {
        CtaLaunch {
            kernel: F16TcKernel::MatmulHalfRhsLowerA,
            config: cta_config(args.m, args.n, args.batch_count),
            batch_count: args.batch_count,
            m: args.m,
            n: args.n,
            k: args.k,
            window: 0,
        }
    }

    /// Plans `out = lower(a^T) * rhs`, with `a` stored row-major as `k x m`.
    pub fn batched_matmul_half_a_transposed_rhs_lower_a(&self, args: F16TcMatmulHalfRhsArgs) -> (launch: CtaLaunch)
        requires
            rhs_transposed_counts_fit(args.batch_count, args.m, args.n, args.k),
            rhs_transposed_lower_ok(args),
        ensures
            launch == cta_launch(
                F16TcKernel::MatmulHalfATransposedRhsLowerA,
                args.batch_count,
                args.m,
                args.n,
                args.k,
                0,
            ),
    {
        CtaLaunch {
            kernel: F16TcKernel::MatmulHalfATransposedRhsLowerA,
            config: cta_config(args.m, args.n, args.batch_count),
            batch_count: args.batch_count,
            m: args.m,
            n: args.n,
            k: args.k,
            window: 0,
        }
    }

    /// Plans `out = band(a) * rhs`, the band of width `window` below the diagonal.
    pub fn batched_matmul_half_rhs_windowed_lower_a(&self, args: F16TcMatmulHalfRhsWindowArgs) -> (launch: CtaLaunch)
        requires
            rhs_counts_fit(args.batch_count, args.m, args.n, args.k),
            rhs_window_ok(args),
        ensures
            launch == cta_launch(
                F16TcKernel::MatmulHalfRhsWindowedLowerA,
                args.batch_count,
                args.m,
                args.n,
                args.k,
                args.window,
            ),
    {
        assert_window(args.window, args.k);
        CtaLaunch {
            kernel: F16TcKernel::MatmulHalfRhsWindowedLowerA,
            config: cta_config(args.m, args.n, args.batch_count),
            batch_count: args.batch_count,
            m: args.m,
            n: args.n,
            k: args.k,
            window: args.window,
        }
    }

    /// Plans `out = band(a^T) * rhs`.
    pub fn batched_matmul_half_a_transposed_rhs_windowed_lower_a(&self, args: F16TcMatmulHalfRhsWindowArgs) -> (launch: CtaLaunch)
        requires
            rhs_transposed_counts_fit(args.batch_count, args.m, args.n, args.k),
            rhs_transposed_window_ok(args),
        ensures
            launch == cta_launch(
                F16TcKernel::MatmulHalfATransposedRhsWindowedLowerA,
                args.batch_count,
                args.m,
                args.n,
                args.k,
                args.window,
            ),
    {
        assert_window(args.window, args.k);
        CtaLaunch {
            kernel: F16TcKernel::MatmulHalfATransposedRhsWindowedLowerA,
            config: cta_config(args.m, args.n, args.batch_count),
            batch_count: args.batch_count,
            m: args.m,
            n: args.n,
            k: args.k,
            window: args.window,
        }
    }

    /// Plans `out = band(a) * rhs` over the kept attention tiles.
    pub fn batched_matmul_half_rhs_windowed_lower_a_sparse(
        &self,
        args: F16TcMatmulHalfRhsSparseWindowArgs,
    ) -> (launch: CtaLaunch)
        requires
            sparse_rhs_counts_fit(args.batch_count, args.m, args.n, args.k),
            sparse_half_rhs_ok(args),
        ensures
            launch == cta_launch(
                F16TcKernel::MatmulHalfRhsWindowedLowerASparse,
                args.batch_count,
                args.m,
                args.n,
                args.k,
                args.window,
            ),
    {
        validate_sparse_half_rhs(&args);
        CtaLaunch {
            kernel: F16TcKernel::MatmulHalfRhsWindowedLowerASparse,
            config: cta_config(args.m, args.n, args.batch_count),
            batch_count: args.batch_count,
            m: args.m,
            n: args.n,
            k: args.k,
            window: args.window,
        }
    }

    /// Plans `out = band(a^T) * rhs` over the kept attention tiles.
    pub fn batched_matmul_half_a_transposed_rhs_windowed_lower_a_sparse(
        &self,
        args: F16TcMatmulHalfRhsSparseWindowArgs,
    ) -> (launch: CtaLaunch)
        requires
            sparse_rhs_counts_fit(args.batch_count, args.m, args.n, args.k),
            sparse_half_rhs_ok(args),
        ensures
            launch == cta_launch(
                F16TcKernel::MatmulHalfATransposedRhsWindowedLowerASparse,
                args.batch_count,
                args.m,
                args.n,
                args.k,
                args.window,
            ),
    {
        validate_sparse_half_rhs(&args);
        CtaLaunch {
            kernel: F16TcKernel::MatmulHalfATransposedRhsWindowedLowerASparse,
            config: cta_config(args.m, args.n, args.batch_count),
            batch_count: args.batch_count,
            m: args.m,
            n: args.n,
            k: args.k,
            window: args.window,
        }
    }

    /// Plans `out = band(a^T) * rhs` over the kept attention tiles, each scaled by its tile scale.
    pub fn batched_matmul_half_a_transposed_rhs_windowed_lower_a_sparse_scaled(
        &self,
        args: F16TcMatmulHalfRhsSparseWindowArgs,
    ) -> (launch: CtaLaunch)
        requires
            sparse_rhs_counts_fit(args.batch_count, args.m, args.n, args.k),
            sparse_half_rhs_ok(args),
        ensures
            launch == cta_launch(
                F16TcKernel::MatmulHalfATransposedRhsWindowedLowerASparseScaled,
                args.batch_count,
                args.m,
                args.n,
                args.k,
                args.window,
            ),
    {
        validate_sparse_half_rhs(&args);
        CtaLaunch {
            kernel: F16TcKernel::MatmulHalfATransposedRhsWindowedLowerASparseScaled,
            config: cta_config(args.m, args.n, args.batch_count),
            batch_count: args.batch_count,
            m: args.m,
            n: args.n,
            k: args.k,
            window: args.window,
        }
    }

}

/// What the FP32-input matmul launcher checks: the output holds its matrices.
pub open spec fn matmul_ok(args: F16TcMatmulArgs) -> bool {
    args.out_len >= element_count(args.batch_count as int, args.m as int, args.n as int)
}

impl F16TcMatmulArgs {
    /// Reports whether the output buffer holds the product.
    pub fn fits(&self) -> (ok: bool)
        requires
            count_fits(self.batch_count, self.m as int, self.n as int),
        ensures
            ok == matmul_ok(*self),
    {
        self.out_len >= elements(self.batch_count, self.m, self.n)
    }
}

/// The work of one thread of the FP32-to-FP16 conversion kernel.
#[derive(Clone, Copy, Debug, PartialEq, Eq, Structural)]
pub enum ConvertStep {
    /// Convert elements `index` and `index + 1` together.
    Pair(u32),
    /// Convert the last element `index` alone.
    Single(u32),
    /// Nothing left to convert.
    Idle,
}

/// Whether `step` converts element `index`.
pub open spec fn step_converts(step: ConvertStep, index: int) -> bool {
    match step {
        ConvertStep::Pair(first) => index == first || index == first + 1,
        ConvertStep::Single(first) => index == first,
        ConvertStep::Idle => false,
    }
}

/// Index of the element pair that thread `thread_idx` of block `block_idx` converts.
pub open spec fn convert_pair_id(block_idx: int, thread_idx: int) -> int {
    block_idx * (F16_THREADS_PER_BLOCK as int) + thread_idx
}

/// What thread `thread_idx` of block `block_idx` converts out of
/// `element_count` elements: the pair it owns, the last element alone when
/// the count is odd, or nothing. A thread converts exactly the elements below
/// `element_count` whose pair index is its own.
pub fn fp32_to_f16_step(block_idx: u32, thread_idx: u32, element_count: u32) -> (step: ConvertStep)
    requires
        thread_idx < F16_THREADS_PER_BLOCK,
        2 * convert_pair_id(block_idx as int, thread_idx as int) + 1 <= u32::MAX,
    ensures
        forall|index: int|
            0 <= index ==> (step_converts(step, index) <==> index < element_count && index / 2
                == convert_pair_id(block_idx as int, thread_idx as int)),
{
    let pair = (block_idx * F16_THREADS_PER_BLOCK + thread_idx) * 2;
    if pair + 1 < element_count {
        ConvertStep::Pair(pair)
    } else if pair < element_count {
        ConvertStep::Single(pair)
    } else {
        ConvertStep::Idle
    }
}

/// Blocks of `F16_THREADS_PER_BLOCK` threads, one element pair each, that
/// cover `element_count` elements.
pub open spec fn convert_blocks(element_count: int) -> int {
    ceil_div(element_count, 2 * F16_THREADS_PER_BLOCK as int)
}

/// Every element below `element_count` belongs to the pair of exactly one
/// thread of the conversion grid.
pub proof fn lemma_convert_grid_covers(element_count: u32, index: int)
    requires
        0 <= index < element_count,
    ensures
        0 <= index / 2 / (F16_THREADS_PER_BLOCK as int) < convert_blocks(element_count as int),
        index / 2 == convert_pair_id(
            index / 2 / (F16_THREADS_PER_BLOCK as int),
            index / 2 % (F16_THREADS_PER_BLOCK as int),
        ),
{
    let blocks = convert_blocks(element_count as int);
    assert(index / 2 / 256 == index / 512);
    assert(index / 512 <= (element_count as int - 1) / 512);
    assert((element_count as int + 511) / 512 >= (element_count as int - 1) / 512 + 1);
}

impl F16TcMatmulModule {
    /// Plans the conversion of `element_count` FP32 values to FP16: one
    /// block of `F16_THREADS_PER_BLOCK` threads per 512 elements.
    pub fn fp32_to_f16(&self, args: F16ConvertArgs) -> (launch: F16ConvertLaunch)
        ensures
            launch == (F16ConvertLaunch {
                blocks: convert_blocks(args.element_count as int) as u32,
                element_count: args.element_count,
            }),
    {
        F16ConvertLaunch {
            blocks: div_ceil_u32(args.element_count, 2 * F16_THREADS_PER_BLOCK),
            element_count: args.element_count,
        }
    }

    /// Plans `out = a * b_t^T` on FP32 inputs: first the copy of both inputs
    /// to half precision, then the matmul over the copies, whose depth
    /// `prepared_k` that copy reports.
    pub fn batched_matmul(&self, args: F16TcMatmulArgs, prepared_k: u32) -> (plan: F16MatmulPlan)
        requires
            count_fits(args.batch_count, args.m as int, args.n as int),
            matmul_ok(args),
        ensures
            plan == (F16MatmulPlan {
                prepare: PrepareHalves {
                    batch_count: args.batch_count,
                    m: args.m,
                    n: args.n,
                    k: args.k,
                },
                matmul: cta_launch(
                    F16TcKernel::Matmul,
                    args.batch_count,
                    args.m,
                    args.n,
                    prepared_k,
                    0,
                ),
            }),
    {
        let dims = CtaMatmulDims::new(args.batch_count, args.m, args.n, args.k);
        F16MatmulPlan {
            prepare: PrepareHalves { batch_count: dims.batch_count, m: dims.m, n: dims.n, k: dims.k },
            matmul: CtaLaunch {
                kernel: F16TcKernel::Matmul,
                config: cta_config(args.m, args.n, args.batch_count),
                batch_count: args.batch_count,
                m: args.m,
                n: args.n,
                k: prepared_k,
                window: 0,
            },
        }
    }
}

/// Element `(batch, row, col)` of `batch_count` row-major `rows x cols`
/// matrices lies inside a buffer that holds them all.
proof fn lemma_batched_element_in(
    len: int,
    batch_count: int,
    rows: int,
    cols: int,
    batch: int,
    row: int,
    col: int,
)
    requires
        len >= element_count(batch_count, rows, cols),
        0 <= batch < batch_count,
        0 <= row < rows,
        0 <= col < cols,
    ensures
        0 <= (batch * rows + row) * cols + col < len,
{
    super::cta_stage::lemma_row_major_index(batch, rows, cols, row, col);
    assert((batch + 1) * rows * cols <= batch_count * rows * cols) by (nonlinear_arith)
        requires
            batch + 1 <= batch_count,
            rows >= 0,
            cols >= 0,
    ;
}

/// What the kernel of `out = a * b_t^T` reads and writes lies inside the
/// buffers that `half_ok` accepts: for every batch entry, output row `row`,
/// output column `col` and depth `depth`, element `(row, depth)` of `a`,
/// element `(col, depth)` of `b_t` and element `(row, col)` of `out`. The
/// lower-triangular check accepts only arguments that this one accepts.
pub proof fn lemma_half_ok_accesses_in_bounds(
    args: F16TcMatmulHalfArgs,
    batch: int,
    row: int,
    col: int,
    depth: int,
)
    requires
        half_ok(args) || half_lower_ok(args),
        0 <= batch < args.batch_count,
        0 <= row < args.m,
        0 <= col < args.n,
        0 <= depth < args.k,
    ensures
        (batch * args.m + row) * args.k + depth < args.a_len,
        (batch * args.n + col) * args.k + depth < args.b_t_len,
        (batch * args.m + row) * args.n + col < args.out_len,
        half_lower_ok(args) ==> half_ok(args) && args.m == args.n,
{
    let b = args.batch_count as int;
    lemma_batched_element_in(args.a_len as int, b, args.m as int, args.k as int, batch, row, depth);
    lemma_batched_element_in(args.b_t_len as int, b, args.n as int, args.k as int, batch, col, depth);
    lemma_batched_element_in(args.out_len as int, b, args.m as int, args.n as int, batch, row, col);
}

/// What the softmax-gradient kernels read and write lies inside the buffers
/// that their checks accept: the operands as in the matmul, probability
/// `(row, col)` and output `(row, col)` of each batch entry, and the row sum
/// `row` of each batch entry; the windowed and tile-sparse checks accept only
/// arguments that the plain one accepts, and the sparse check also holds the
/// tile-scale entry `(tile_row, tile_col)` of each batch entry.
pub proof fn lemma_ds_ok_accesses_in_bounds(
    args: F16TcMatmulHalfDsArgs,
    batch: int,
    row: int,
    col: int,
    depth: int,
)
    requires
        ds_ok(args),
        0 <= batch < args.batch_count,
        0 <= row < args.m,
        0 <= col < args.n,
        0 <= depth < args.k,
    ensures
        (batch * args.m + row) * args.k + depth < args.a_len,
        (batch * args.n + col) * args.k + depth < args.b_t_len,
        (batch * args.m + row) * args.n + col < args.probs_len,
        batch * args.m + row < args.softmax_d_len,
        (batch * args.m + row) * args.n + col < args.out_len,
{
    let b = args.batch_count as int;
    lemma_batched_element_in(args.a_len as int, b, args.m as int, args.k as int, batch, row, depth);
    lemma_batched_element_in(args.b_t_len as int, b, args.n as int, args.k as int, batch, col, depth);
    lemma_batched_element_in(args.probs_len as int, b, args.m as int, args.n as int, batch, row, col);
    lemma_batched_element_in(args.softmax_d_len as int, b, args.m as int, 1, batch, row, 0);
    lemma_batched_element_in(args.out_len as int, b, args.m as int, args.n as int, batch, row, col);
}

/// The windowed softmax-gradient check accepts only arguments whose buffers
/// hold what the kernel reads and writes, as `lemma_ds_ok_accesses_in_bounds`
/// states for the plain check, and a window of whole tiles within the sequence.
pub proof fn lemma_ds_window_ok_accesses_in_bounds(
    args: F16TcMatmulHalfDsWindowArgs,
    batch: int,
    row: int,
    col: int,
    depth: int,
)
    requires
        ds_window_ok(args),
        0 <= batch < args.batch_count,
        0 <= row < args.m,
        0 <= col < args.n,
        0 <= depth < args.k,
    ensures
        (batch * args.m + row) * args.k + depth < args.a_len,
        (batch * args.n + col) * args.k + depth < args.b_t_len,
        (batch * args.m + row) * args.n + col < args.probs_len,
        batch * args.m + row < args.softmax_d_len,
        (batch * args.m + row) * args.n + col < args.out_len,
        0 < args.window <= args.m,
        args.window % CTA_M == 0,
{
    let b = args.batch_count as int;
    lemma_batched_element_in(args.a_len as int, b, args.m as int, args.k as int, batch, row, depth);
    lemma_batched_element_in(args.b_t_len as int, b, args.n as int, args.k as int, batch, col, depth);
    lemma_batched_element_in(args.probs_len as int, b, args.m as int, args.n as int, batch, row, col);
    lemma_batched_element_in(args.softmax_d_len as int, b, args.m as int, 1, batch, row, 0);
    lemma_batched_element_in(args.out_len as int, b, args.m as int, args.n as int, batch, row, col);
}

/// The tile-sparse softmax-gradient check accepts only arguments whose
/// buffers hold what the kernel reads and writes, including the scale of
/// every attention tile `(tile_row, tile_col)` of each batch entry.
pub proof fn lemma_ds_sparse_ok_accesses_in_bounds(
    args: F16TcMatmulHalfDsSparseWindowArgs,
    batch: int,
    row: int,
    col: int,
    depth: int,
    tile_row: int,
    tile_col: int,
)
    requires
        ds_sparse_ok(args),
        0 <= batch < args.batch_count,
        0 <= row < args.m,
        0 <= col < args.n,
        0 <= depth < args.k,
        0 <= tile_row < attention_tiles(args.m as int),
        0 <= tile_col < attention_tiles(args.m as int),
    ensures
        (batch * args.m + row) * args.k + depth < args.a_len,
        (batch * args.n + col) * args.k + depth < args.b_t_len,
        (batch * args.m + row) * args.n + col < args.probs_len,
        batch * args.m + row < args.softmax_d_len,
        (batch * attention_tiles(args.m as int) + tile_row) * attention_tiles(args.m as int)
            + tile_col < args.tile_scales_len,
        (batch * args.m + row) * args.n + col < args.out_len,
        0 < args.window <= args.m,
        args.window % CTA_M == 0,
{
    let b = args.batch_count as int;
    let t = attention_tiles(args.m as int);
    lemma_batched_element_in(args.a_len as int, b, args.m as int, args.k as int, batch, row, depth);
    lemma_batched_element_in(args.b_t_len as int, b, args.n as int, args.k as int, batch, col, depth);
    lemma_batched_element_in(args.probs_len as int, b, args.m as int, args.n as int, batch, row, col);
    lemma_batched_element_in(args.softmax_d_len as int, b, args.m as int, 1, batch, row, 0);
    lemma_batched_element_in(args.tile_scales_len as int, b, t, t, batch, tile_row, tile_col);
    lemma_batched_element_in(args.out_len as int, b, args.m as int, args.n as int, batch, row, col);
}

/// What the `lower(a) * rhs` and `band(a) * rhs` kernels read and write lies
/// inside the buffers that their checks accept: element `(row, depth)` of
/// `a`, element `(depth, col)` of `rhs` and element `(row, col)` of `out`.
pub proof fn lemma_rhs_ok_accesses_in_bounds(
    args: F16TcMatmulHalfRhsArgs,
    batch: int,
    row: int,
    col: int,
    depth: int,
)
    requires
        rhs_lower_ok(args),
        0 <= batch < args.batch_count,
        0 <= row < args.m,
        0 <= col < args.n,
        0 <= depth < args.k,
    ensures
        (batch * args.m + row) * args.k + depth < args.a_len,
        (batch * args.k + depth) * args.n + col < args.rhs_len,
        (batch * args.m + row) * args.n + col < args.out_len,
        args.m == args.k,
{
    let b = args.batch_count as int;
    lemma_batched_element_in(args.a_len as int, b, args.m as int, args.k as int, batch, row, depth);
    lemma_batched_element_in(args.rhs_len as int, b, args.k as int, args.n as int, batch, depth, col);
    lemma_batched_element_in(args.out_len as int, b, args.m as int, args.n as int, batch, row, col);
}

/// What the `lower(a^T) * rhs` kernel reads and writes lies inside the
/// buffers that its check accepts: element `(depth, row)` of `a`, element
/// `(depth, col)` of `rhs` and element `(row, col)` of `out`.
pub proof fn lemma_rhs_transposed_ok_accesses_in_bounds(
    args: F16TcMatmulHalfRhsArgs,
    batch: int,
    row: int,
    col: int,
    depth: int,
)
    requires
        rhs_transposed_lower_ok(args),
        0 <= batch < args.batch_count,
        0 <= row < args.m,
        0 <= col < args.n,
        0 <= depth < args.k,
    ensures
        (batch * args.k + depth) * args.m + row < args.a_len,
        (batch * args.k + depth) * args.n + col < args.rhs_len,
        (batch * args.m + row) * args.n + col < args.out_len,
        args.m == args.k,
{
    let b = args.batch_count as int;
    lemma_batched_element_in(args.a_len as int, b, args.k as int, args.m as int, batch, depth, row);
    lemma_batched_element_in(args.rhs_len as int, b, args.k as int, args.n as int, batch, depth, col);
    lemma_batched_element_in(args.out_len as int, b, args.m as int, args.n as int, batch, row, col);
}

/// What the windowed `band(a) * rhs` and `band(a^T) * rhs` kernels read and
/// write lies inside the buffers that their checks accept, and the window is
/// a whole number of tiles within the sequence.
pub proof fn lemma_rhs_window_ok_accesses_in_bounds(
    args: F16TcMatmulHalfRhsWindowArgs,
    batch: int,
    row: int,
    col: int,
    depth: int,
)
    requires
        rhs_window_ok(args) || rhs_transposed_window_ok(args),
        0 <= batch < args.batch_count,
        0 <= row < args.m,
        0 <= col < args.n,
        0 <= depth < args.k,
    ensures
        rhs_window_ok(args) ==> (batch * args.m + row) * args.k + depth < args.a_len,
        rhs_transposed_window_ok(args) ==> (batch * args.k + depth) * args.m + row < args.a_len,
        (batch * args.k + depth) * args.n + col < args.rhs_len,
        (batch * args.m + row) * args.n + col < args.out_len,
        args.m == args.k,
        0 < args.window <= args.k,
        args.window % CTA_M == 0,
{
    let b = args.batch_count as int;
    if rhs_window_ok(args) {
        lemma_batched_element_in(args.a_len as int, b, args.m as int, args.k as int, batch, row, depth);
    }
    if rhs_transposed_window_ok(args) {
        lemma_batched_element_in(args.a_len as int, b, args.k as int, args.m as int, batch, depth, row);
    }
    lemma_batched_element_in(args.rhs_len as int, b, args.k as int, args.n as int, batch, depth, col);
    lemma_batched_element_in(args.out_len as int, b, args.m as int, args.n as int, batch, row, col);
}

/// What the tile-sparse `band(a) * rhs` kernels read and write lies inside the
/// buffers that their check accepts, including the scale of every attention
/// tile of each batch entry.
pub proof fn lemma_sparse_half_rhs_ok_accesses_in_bounds(
    args: F16TcMatmulHalfRhsSparseWindowArgs,
    batch: int,
    row: int,
    col: int,
    depth: int,
    tile_row: int,
    tile_col: int,
)
    requires
        sparse_half_rhs_ok(args),
        0 <= batch < args.batch_count,
        0 <= row < args.m,
        0 <= col < args.n,
        0 <= depth < args.k,
        0 <= tile_row < attention_tiles(args.m as int),
        0 <= tile_col < attention_tiles(args.m as int),
    ensures
        (batch * args.m + row) * args.k + depth < args.a_len,
        (batch * args.k + depth) * args.n + col < args.rhs_len,
        (batch * attention_tiles(args.m as int) + tile_row) * attention_tiles(args.m as int)
            + tile_col < args.tile_scales_len,
        (batch * args.m + row) * args.n + col < args.out_len,
        args.m == args.k,
        0 < args.window <= args.k,
        args.window % CTA_M == 0,
{
    let b = args.batch_count as int;
    let t = attention_tiles(args.m as int);
    lemma_batched_element_in(args.a_len as int, b, args.m as int, args.k as int, batch, row, depth);
    lemma_batched_element_in(args.rhs_len as int, b, args.k as int, args.n as int, batch, depth, col);
    lemma_batched_element_in(args.tile_scales_len as int, b, t, t, batch, tile_row, tile_col);
    lemma_batched_element_in(args.out_len as int, b, args.m as int, args.n as int, batch, row, col);
}

/// The FP32-input matmul writes element `(row, col)` of every batch entry of
/// `out` inside the buffer that its check accepts.
pub proof fn lemma_matmul_ok_output_in_bounds(args: F16TcMatmulArgs, batch: int, row: int, col: int)
    requires
        matmul_ok(args),
        0 <= batch < args.batch_count,
        0 <= row < args.m,
        0 <= col < args.n,
    ensures
        (batch * args.m + row) * args.n + col < args.out_len,
{
    lemma_batched_element_in(
        args.out_len as int,
        args.batch_count as int,
        args.m as int,
        args.n as int,
        batch,
        row,
        col,
    );
}

/// The grid of a tensor-core matmul launch covers the output with the fewest
/// `CTA_M x CTA_N` tiles: enough tile columns for the `n` output columns and
/// tile rows for the `m` output rows, one fewer of either would leave some
/// uncovered, and one grid layer per batch entry.
pub proof fn lemma_cta_grid_covers_output(m: u32, n: u32, batch_count: u32, width: CtaBlockWidth)
    ensures
        ({
            let grid = cta_grid(m, n, batch_count, width);
            &&& grid.grid_x * CTA_N >= n
            &&& (grid.grid_x == 0 || (grid.grid_x - 1) * CTA_N < n)
            &&& grid.grid_y * CTA_M >= m
            &&& (grid.grid_y == 0 || (grid.grid_y - 1) * CTA_M < m)
            &&& grid.grid_z == batch_count
            &&& grid.width == width
        }),
{
    lemma_ceil_div_is_fewest_blocks(n as int, CTA_N as int);
    lemma_ceil_div_is_fewest_blocks(m as int, CTA_M as int);
}

} // verus!
