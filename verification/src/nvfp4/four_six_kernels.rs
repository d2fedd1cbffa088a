use vstd::prelude::*;
use vstd::std_specs::bits::u32_trailing_zeros;

use super::pow2::{is_pow2, lemma_pow2_shift_mask};

verus! {

/// Values in one Four-Six quantisation group.
pub const GROUP_SIZE: u32 = 16;

/// Lanes of a warp that cooperate on one group.
pub const GROUP_THREADS: u32 = 4;

/// A lane's place in its Four-Six group: its index in the group, the warp mask
/// of the group's lanes, and the group's leading lane.
pub fn four_six_lane(lane: u32) -> (place: (u32, u32, u32))
    requires
        lane < 32,
    ensures
        place.0 == lane % GROUP_THREADS,
        place.2 == lane - lane % GROUP_THREADS,
        place.1 == 0x0fu32 << place.2,
{
    let leader = lane & !(GROUP_THREADS - 1);
    assert(lane < 32 ==> lane & !3u32 == lane - lane % 4) by (bit_vector);
    let group_mask = 0x0fu32 << leader;
    assert(lane & 3u32 == lane % 4) by (bit_vector);
    (lane & (GROUP_THREADS - 1), group_mask, leader)
}

/// Index of the group that thread `thread_idx` of block `block_idx` works on.
pub open spec fn block_group(block_idx: int, block_dim: int, thread_idx: int) -> int {
    block_idx * (block_dim / GROUP_THREADS as int) + thread_idx / GROUP_THREADS as int
}

pub fn four_six_block_group(block_idx: u32, block_dim: u32, thread_idx: u32) -> (group: usize)
    requires
        block_group(block_idx as int, block_dim as int, thread_idx as int) <= usize::MAX,
    ensures
        group == block_group(block_idx as int, block_dim as int, thread_idx as int),
{
    let groups_per_block = block_dim as usize / GROUP_THREADS as usize;
    proof {
        let b = block_idx as int;
        let g = groups_per_block as int;
        assert(0 <= b * g) by (nonlinear_arith)
            requires
                b >= 0,
                g >= 0,
        ;
    }
    block_idx as usize * groups_per_block + thread_idx as usize / GROUP_THREADS as usize
}

/// One thread's view of its Four-Six group.
#[derive(Clone, Copy, Debug, PartialEq, Eq, Structural)]
pub struct FourSixGroup {
    pub group: usize,
    pub base: usize,
    pub lane: usize,
    pub mask: u32,
    pub leader: u32,
}

/// The group, first value, lane and lane mask of thread `thread_idx` (warp lane
/// `lane`) of block `block_idx`.
pub fn four_six_group_ctx(lane: u32, block_idx: u32, block_dim: u32, thread_idx: u32) -> (ctx:
    FourSixGroup)
    requires
        lane < 32,
        block_group(block_idx as int, block_dim as int, thread_idx as int) * GROUP_SIZE
            <= usize::MAX,
    ensures
        ctx.group == block_group(block_idx as int, block_dim as int, thread_idx as int),
        ctx.base == ctx.group * GROUP_SIZE,
        ctx.lane == lane % GROUP_THREADS,
        ctx.leader == lane - lane % GROUP_THREADS,
        ctx.mask == 0x0fu32 << ctx.leader,
{
    let (lane_in_group, mask, leader) = four_six_lane(lane);
    let group = four_six_block_group(block_idx, block_dim, thread_idx);
    FourSixGroup {
        group,
        base: group * GROUP_SIZE as usize,
        lane: lane_in_group as usize,
        mask,
        leader,
    }
}

/// Which row of per-row scales a group uses, and whether its leader also
/// writes that row's global scale.
#[derive(Clone, Copy, Debug, PartialEq, Eq, Structural)]
pub struct ScaleRow {
    pub row: usize,
    pub writes_global_scale: bool,
}

/// The scale row of a group that starts at value `base`: with `row_len == 0`
/// one scale covers the whole tensor and group 0 writes it; otherwise each row
/// of `row_len` values has its own scale, written by the row's first group.
pub open spec fn scale_row_of(group: int, base: int, row_len: int) -> ScaleRow {
    if row_len == 0 {
        ScaleRow { row: (base / (usize::MAX as int)) as usize, writes_global_scale: group == 0 }
    } else {
        ScaleRow { row: (base / row_len) as usize, writes_global_scale: base % row_len == 0 }
    }
}

/// Scale row selection of the general Four-Six kernel.
pub fn four_six_scale_row(group: usize, base: usize, row_len: u32) -> (scale: ScaleRow)
    ensures
        scale == scale_row_of(group as int, base as int, row_len as int),
{
    let row_len = row_len as usize;
    let scalar_scale = row_len == 0;
    let scale_row_len = if scalar_scale {
        usize::MAX
    } else {
        row_len
    };
    let row = base / scale_row_len;
    let writes_global_scale = if scalar_scale {
        group == 0
    } else {
        proof {
            vstd::arithmetic::div_mod::lemma_fundamental_div_mod(base as int, scale_row_len as int);
            assert(row * scale_row_len <= base) by (nonlinear_arith)
                requires
                    base as int == scale_row_len * (row as int) + (base as int % scale_row_len as int),
                    base as int % scale_row_len as int >= 0,
            ;
        }
        base == row * scale_row_len
    };
    ScaleRow { row, writes_global_scale }
}

/// Scale row selection of the power-of-two rowwise kernel, which replaces the
/// division by `row_len` with a shift and a mask.
pub fn four_six_scale_row_pow2(base: usize, row_shift: u32, row_mask: u32) -> (scale: ScaleRow)
    requires
        base <= u32::MAX,
        row_shift < 32,
    ensures
        scale == (ScaleRow {
            row: ((base as u32) >> row_shift) as usize,
            writes_global_scale: (base as u32) & row_mask == 0,
        }),
{
    let row = ((base as u32) >> row_shift) as usize;
    let writes_global_scale = (base as u32 & row_mask) == 0;
    ScaleRow { row, writes_global_scale }
}

/// For rows whose length is a power of two, the shift-and-mask selection with
/// `row_shift = row_len.trailing_zeros()` and `row_mask = row_len - 1` picks the
/// same scale row, and the same writer of the global scale, as the general kernel.
pub proof fn lemma_pow2_scale_row_agrees(group: int, base: u32, row_len: u32)
    requires
        is_pow2(row_len),
    ensures
        (ScaleRow {
            row: (base >> u32_trailing_zeros(row_len)) as usize,
            writes_global_scale: base & ((row_len - 1) as u32) == 0,
        }) == scale_row_of(group, base as int, row_len as int),
{
    lemma_pow2_shift_mask(base, row_len);
}

/// One group of the general rowwise kernel has one global-scale writer per
/// scale row: two groups that both write the global scale of the same row are
/// the same group.
pub proof fn lemma_one_global_scale_writer(group1: int, group2: int, row_len: int)
    requires
        0 <= group1,
        0 <= group2,
        0 <= row_len,
        scale_row_of(group1, group1 * GROUP_SIZE as int, row_len).writes_global_scale,
        scale_row_of(group2, group2 * GROUP_SIZE as int, row_len).writes_global_scale,
        row_len > 0 ==> (group1 * GROUP_SIZE as int) / row_len == (group2 * GROUP_SIZE as int)
            / row_len,
    ensures
        group1 == group2,
{
    if row_len > 0 {
        let b1 = group1 * 16;
        let b2 = group2 * 16;
        vstd::arithmetic::div_mod::lemma_fundamental_div_mod(b1, row_len);
        vstd::arithmetic::div_mod::lemma_fundamental_div_mod(b2, row_len);
    }
}

/// What one lane of a Four-Six group reads and writes. Lane `l` of the group
/// that starts at value `base` owns the four values `base + 4l .. base + 4l + 3`
/// and writes their four codes as one 16-bit payload word, word
/// `base / 4 + l` (bytes `base / 2 + 2l` and `base / 2 + 2l + 1`). The group's
/// first lane also writes the group's scale byte and, when the group does so,
/// the global scale of its scale row.
#[derive(Clone, Copy, Debug, PartialEq, Eq, Structural)]
pub struct FourSixLaneStores {
    pub first_value: usize,
    pub payload_word: usize,
    pub scale_index: Option<usize>,
    pub global_scale_row: Option<usize>,
}

/// Values that one lane owns, and 4-bit codes in one payload word.
pub const FOUR_SIX_VALUES_PER_LANE: u32 = 4;

/// The reads and stores of lane `ctx.lane` of group `ctx.group`.
pub fn four_six_lane_stores(ctx: FourSixGroup, scale_row: ScaleRow) -> (stores: FourSixLaneStores)
    requires
        ctx.lane < GROUP_THREADS,
        ctx.base == ctx.group * GROUP_SIZE,
        ctx.base + GROUP_SIZE <= usize::MAX,
    ensures
        stores.first_value == ctx.base + FOUR_SIX_VALUES_PER_LANE * ctx.lane,
        stores.payload_word == ctx.base as int / FOUR_SIX_VALUES_PER_LANE as int + ctx.lane,
        stores.scale_index == if ctx.lane == 0 {
            Some(ctx.group)
        } else {
            None::<usize>
        },
        stores.global_scale_row == if ctx.lane == 0 && scale_row.writes_global_scale {
            Some(scale_row.row)
        } else {
            None::<usize>
        },
{
    let scale_index = if ctx.lane == 0 {
        Some(ctx.group)
    } else {
        None
    };
    let global_scale_row = if ctx.lane == 0 && scale_row.writes_global_scale {
        Some(scale_row.row)
    } else {
        None
    };
    FourSixLaneStores {
        first_value: ctx.base + FOUR_SIX_VALUES_PER_LANE as usize * ctx.lane,
        payload_word: ctx.base / FOUR_SIX_VALUES_PER_LANE as usize + ctx.lane,
        scale_index,
        global_scale_row,
    }
}

/// The four lanes of group `group` together own each of its 16 values once
/// and write each of its 8 payload bytes once: value `16 * group + v` belongs
/// to lane `v / 4`, and payload byte `8 * group + b` is in the word of lane
/// `b / 2`. Lanes of different groups, or different lanes of one group, own
/// disjoint values and write disjoint words.
pub proof fn lemma_four_six_group_covered(group1: int, lane1: int, group2: int, lane2: int, v: int, b: int)
    requires
        0 <= group1,
        0 <= group2,
        0 <= lane1 < GROUP_THREADS,
        0 <= lane2 < GROUP_THREADS,
        0 <= v < GROUP_SIZE,
        0 <= b < GROUP_SIZE / 2,
    ensures
        ({
            let base1 = group1 * GROUP_SIZE as int;
            let lane = v / FOUR_SIX_VALUES_PER_LANE as int;
            &&& 0 <= lane < GROUP_THREADS
            &&& base1 + FOUR_SIX_VALUES_PER_LANE * lane <= base1 + v < base1
                + FOUR_SIX_VALUES_PER_LANE * lane + FOUR_SIX_VALUES_PER_LANE
            &&& 2 * (base1 / FOUR_SIX_VALUES_PER_LANE as int + b / 2) <= base1 / 2 + b < 2 * (base1
                / FOUR_SIX_VALUES_PER_LANE as int + b / 2) + 2
        }),
        (group1 != group2 || lane1 != lane2) ==> ({
            let base1 = group1 * GROUP_SIZE as int;
            let base2 = group2 * GROUP_SIZE as int;
            &&& base1 / FOUR_SIX_VALUES_PER_LANE as int + lane1 != base2
                / FOUR_SIX_VALUES_PER_LANE as int + lane2
            &&& (base1 + FOUR_SIX_VALUES_PER_LANE * lane1 + FOUR_SIX_VALUES_PER_LANE <= base2
                + FOUR_SIX_VALUES_PER_LANE * lane2 || base2 + FOUR_SIX_VALUES_PER_LANE * lane2
                + FOUR_SIX_VALUES_PER_LANE <= base1 + FOUR_SIX_VALUES_PER_LANE * lane1)
        }),
{
}

/// The source value at `output_index` of a `rows x cols` matrix padded to
/// `padded_cols` columns: the matrix element, or `zero` in the padding.
pub open spec fn padded_spec<T>(
    x: Seq<T>,
    zero: T,
    output_index: int,
    rows: int,
    cols: int,
    padded_cols: int,
) -> T {
    let row = output_index / padded_cols;
    let col = output_index % padded_cols;
    if row < rows && col < cols {
        x[row * cols + col]
    } else {
        zero
    }
}

/// The source value at `output_index` of the transpose of a row-major
/// `source_rows x source_cols` matrix, padded to `padded_cols` columns.
pub open spec fn transposed_padded_spec<T>(
    x: Seq<T>,
    zero: T,
    output_index: int,
    source_rows: int,
    source_cols: int,
    padded_cols: int,
) -> T {
    let row = output_index / padded_cols;
    let col = output_index % padded_cols;
    if row < source_cols && col < source_rows {
        x[col * source_cols + row]
    } else {
        zero
    }
}

/// The source value at `output_index` of the transpose of a row-major
/// `source_rows x source_cols` matrix.
pub open spec fn transposed_exact_spec<T>(
    x: Seq<T>,
    output_index: int,
    source_rows: int,
    source_cols: int,
) -> T {
    x[(output_index % source_rows) * source_cols + output_index / source_rows]
}

proof fn lemma_matrix_index(rows: int, cols: int, row: int, col: int)
    requires
        0 <= row < rows,
        0 <= col < cols,
    ensures
        0 <= row * cols,
        row * cols + col < rows * cols,
{
    assert(0 <= row * cols) by (nonlinear_arith)
        requires
            row >= 0,
            cols >= 0,
    ;
    assert(row * cols + col < rows * cols) by (nonlinear_arith)
        requires
            0 <= row < rows,
            0 <= col < cols,
    ;
}

proof fn lemma_div_mod_parts(index: int, d: int)
    requires
        index >= 0,
        d > 0,
    ensures
        index / d * d <= index,
        index - index / d * d == index % d,
        0 <= index % d < d,
        index / d >= 0,
{
    vstd::arithmetic::div_mod::lemma_fundamental_div_mod(index, d);
    vstd::arithmetic::div_mod::lemma_mod_bound(index, d);
    vstd::arithmetic::div_mod::lemma_div_pos_is_pos(index, d);
    assert(index / d * d == d * (index / d)) by (nonlinear_arith);
}

pub fn padded_value<T: Copy>(
    x: &[T],
    zero: T,
    output_index: u32,
    rows: u32,
    cols: u32,
    padded_cols: u32,
) -> (value: T)
    requires
        padded_cols > 0,
        rows * cols <= x@.len(),
        rows * cols <= u32::MAX,
    ensures
        value == padded_spec(
            x@,
            zero,
            output_index as int,
            rows as int,
            cols as int,
            padded_cols as int,
        ),
{
    proof {
        lemma_div_mod_parts(output_index as int, padded_cols as int);
    }
    let row = output_index / padded_cols;
    let col = output_index - row * padded_cols;
    if row < rows && col < cols {
        proof {
            lemma_matrix_index(rows as int, cols as int, row as int, col as int);
        }
        x[(row * cols + col) as usize]
    } else {
        zero
    }
}

pub fn transposed_padded_value<T: Copy>(
    x: &[T],
    zero: T,
    output_index: u32,
    source_rows: u32,
    source_cols: u32,
    padded_cols: u32,
) -> (value: T)
    requires
        padded_cols > 0,
        source_rows * source_cols <= x@.len(),
        source_rows * source_cols <= u32::MAX,
    ensures
        value == transposed_padded_spec(
            x@,
            zero,
            output_index as int,
            source_rows as int,
            source_cols as int,
            padded_cols as int,
        ),
{
    proof {
        lemma_div_mod_parts(output_index as int, padded_cols as int);
    }
    let row = output_index / padded_cols;
    let col = output_index - row * padded_cols;
    if row < source_cols && col < source_rows {
        proof {
            lemma_matrix_index(source_rows as int, source_cols as int, col as int, row as int);
        }
        x[(col * source_cols + row) as usize]
    } else {
        zero
    }
}

pub fn transposed_exact_value<T: Copy>(
    x: &[T],
    output_index: u32,
    source_rows: u32,
    source_cols: u32,
) -> (value: T)
    requires
        source_rows > 0,
        output_index < source_rows * source_cols,
        source_rows * source_cols <= x@.len(),
        source_rows * source_cols <= u32::MAX,
    ensures
        value == transposed_exact_spec(
            x@,
            output_index as int,
            source_rows as int,
            source_cols as int,
        ),
{
    proof {
        lemma_div_mod_parts(output_index as int, source_rows as int);
        assert(output_index / source_rows < source_cols) by (nonlinear_arith)
            requires
                output_index < source_rows * source_cols,
                output_index / source_rows * source_rows <= output_index,
                source_rows > 0,
        {
            if output_index / source_rows >= source_cols {
                assert(output_index / source_rows * source_rows >= source_cols * source_rows);
            }
        }
    }
    let row = output_index / source_rows;
    let col = output_index - row * source_rows;
    proof {
        lemma_matrix_index(source_rows as int, source_cols as int, col as int, row as int);
    }
    x[(col * source_cols + row) as usize]
}

pub fn transposed_exact_value_pow2<T: Copy>(
    x: &[T],
    output_index: u32,
    source_rows_shift: u32,
    source_rows_mask: u32,
    source_cols: u32,
) -> (value: T)
    requires
        source_rows_shift < 32,
        (output_index & source_rows_mask) * source_cols + (output_index >> source_rows_shift)
            < x@.len(),
        (output_index & source_rows_mask) * source_cols + (output_index >> source_rows_shift)
            <= u32::MAX,
    ensures
        value == x@[(output_index & source_rows_mask) * source_cols + (output_index
            >> source_rows_shift)],
{
    let row = output_index >> source_rows_shift;
    let col = output_index & source_rows_mask;
    proof {
        assert(0 <= col * source_cols <= col * source_cols + row) by (nonlinear_arith)
            requires
                col >= 0,
                source_cols >= 0,
                row >= 0,
        ;
    }
    x[(col * source_cols + row) as usize]
}

/// With `source_rows` a power of two, the shift-and-mask transpose read with
/// `shift = source_rows.trailing_zeros()` and `mask = source_rows - 1` reads the
/// same source element as the division-based read.
pub proof fn lemma_transposed_pow2_agrees(output_index: u32, source_rows: u32, source_cols: u32)
    requires
        is_pow2(source_rows),
    ensures
        (output_index & ((source_rows - 1) as u32)) * source_cols + (output_index
            >> u32_trailing_zeros(source_rows)) == (output_index as int % source_rows as int)
            * source_cols + output_index as int / source_rows as int,
{
    lemma_pow2_shift_mask(output_index, source_rows);
}

/// Source rows of one transpose tile.
pub const TRANSPOSE_TILE_ROWS: u32 = 16;

/// Source columns of one transpose tile.
pub const TRANSPOSE_TILE_COLS: u32 = 64;

/// Group of the transposed output that holds column `col` of the transpose
/// tile at block `(block_x, block_y)`: output row `block_x * 64 + col`, the
/// `block_y`-th group of `source_rows / 16` groups in that row.
pub open spec fn transpose_tile_group_of(
    block_x: int,
    block_y: int,
    col: int,
    source_rows: int,
) -> int {
    (block_x * TRANSPOSE_TILE_COLS as int + col) * (source_rows / GROUP_SIZE as int) + block_y
}

pub fn transpose_tile_group(block_x: u32, block_y: u32, col: u32, source_rows: u32) -> (group:
    usize)
    requires
        source_rows % GROUP_SIZE == 0,
        col < TRANSPOSE_TILE_COLS,
        (block_x + 1) * TRANSPOSE_TILE_COLS <= usize::MAX,
        (block_y + 1) * TRANSPOSE_TILE_ROWS <= usize::MAX,
        transpose_tile_group_of(block_x as int, block_y as int, col as int, source_rows as int)
            <= usize::MAX,
    ensures
        group == transpose_tile_group_of(
            block_x as int,
            block_y as int,
            col as int,
            source_rows as int,
        ),
{
    assert(TRANSPOSE_TILE_COLS as usize == 64 && TRANSPOSE_TILE_ROWS as usize == 16
        && GROUP_SIZE as usize == 16);
    let source_col_base = block_x as usize * TRANSPOSE_TILE_COLS as usize;
    let source_row_base = block_y as usize * TRANSPOSE_TILE_ROWS as usize;
    let groups_per_output_row = source_rows as usize / GROUP_SIZE as usize;
    let group_in_output_row = source_row_base / GROUP_SIZE as usize;
    assert(group_in_output_row == block_y);
    proof {
        let a = (block_x as int) * 64 + col as int;
        let g = groups_per_output_row as int;
        assert(0 <= a * g) by (nonlinear_arith)
            requires
                a >= 0,
                g >= 0,
        ;
        assert(a * g + block_y as int <= usize::MAX);
        if g > 0 {
            assert(a <= a * g) by (nonlinear_arith)
                requires
                    a >= 0,
                    g >= 1,
            ;
        }
    }
    (source_col_base + col as usize) * groups_per_output_row + group_in_output_row
}

/// The tiled transposing kernel puts, at position `t` of the group that
/// [`transpose_tile_group`] names, source element `(block_y * 16 + t,
/// block_x * 64 + col)`: the same element that the exact transposing kernel
/// reads for that output position.
pub proof fn lemma_tiled_transpose_matches_exact(
    block_x: int,
    block_y: int,
    col: int,
    t: int,
    source_rows: int,
    source_cols: int,
)
    requires
        source_rows > 0,
        source_rows % GROUP_SIZE as int == 0,
        0 <= col < TRANSPOSE_TILE_COLS,
        0 <= t < GROUP_SIZE,
        block_x >= 0,
        0 <= block_y,
        (block_y + 1) * (TRANSPOSE_TILE_ROWS as int) <= source_rows,
    ensures
        ({
            let output_index = transpose_tile_group_of(block_x, block_y, col, source_rows)
                * GROUP_SIZE as int + t;
            &&& output_index % source_rows == block_y * TRANSPOSE_TILE_ROWS as int + t
            &&& output_index / source_rows == block_x * TRANSPOSE_TILE_COLS as int + col
        }),
{
    let c = block_x * 64 + col;
    let q = source_rows / 16;
    assert(q * 16 == source_rows);
    let output_index = (c * q + block_y) * 16 + t;
    assert(output_index == c * source_rows + (block_y * 16 + t)) by (nonlinear_arith)
        requires
            output_index == (c * q + block_y) * 16 + t,
            q * 16 == source_rows,
    ;
    assert(0 <= block_y * 16 + t < source_rows);
    vstd::arithmetic::div_mod::lemma_fundamental_div_mod_converse(
        output_index,
        source_rows,
        c,
        block_y * 16 + t,
    );
}

/// Group of the row-major output that row group `row_group` of the paired
/// tiled kernel handles in block `(block_x, block_y)`: tile row
/// `row_group / 4`, the `(row_group % 4)`-th 16-value stretch of it.
pub open spec fn pair_row_group_of(block_x: int, block_y: int, row_group: int, source_cols: int) -> int {
    let tile_row = row_group / (TRANSPOSE_TILE_COLS as int / GROUP_SIZE as int);
    let row_col = (row_group % (TRANSPOSE_TILE_COLS as int / GROUP_SIZE as int)) * GROUP_SIZE as int;
    (block_y * TRANSPOSE_TILE_ROWS as int + tile_row) * (source_cols / GROUP_SIZE as int) + (block_x
        * TRANSPOSE_TILE_COLS as int + row_col) / GROUP_SIZE as int
}

pub fn pair_row_group(block_x: u32, block_y: u32, row_group: usize, source_cols: u32) -> (group: usize)
    requires
        row_group < TRANSPOSE_TILE_ROWS * (TRANSPOSE_TILE_COLS / GROUP_SIZE),
        (block_x as int + 1) * TRANSPOSE_TILE_COLS as int <= usize::MAX,
        (block_y as int + 1) * TRANSPOSE_TILE_ROWS as int <= usize::MAX,
        pair_row_group_of(block_x as int, block_y as int, row_group as int, source_cols as int)
            <= usize::MAX,
    ensures
        group == pair_row_group_of(block_x as int, block_y as int, row_group as int, source_cols as int),
{
    assert(TRANSPOSE_TILE_COLS == 64 && TRANSPOSE_TILE_ROWS == 16 && GROUP_SIZE == 16);
    let groups_per_tile_row: usize = 4;
    assert(groups_per_tile_row == TRANSPOSE_TILE_COLS / GROUP_SIZE);
    let tile_row = row_group / groups_per_tile_row;
    let row_col = (row_group % groups_per_tile_row) * GROUP_SIZE as usize;
    assert(tile_row < 16 && row_col < 64);
    let source_row = block_y as usize * TRANSPOSE_TILE_ROWS as usize + tile_row;
    let groups_per_source_row = source_cols as usize / GROUP_SIZE as usize;
    let column = block_x as usize * TRANSPOSE_TILE_COLS as usize + row_col;
    proof {
        assert(0 <= source_row as int * groups_per_source_row as int) by (nonlinear_arith)
            requires
                source_row >= 0,
                groups_per_source_row >= 0,
        ;
    }
    source_row * groups_per_source_row + column / GROUP_SIZE as usize
}

/// With `source_cols` a whole number of groups, the group that the paired
/// tiled kernel writes for row group `row_group` starts at the row-major
/// position of its first source value `(block_y * 16 + row_group / 4,
/// block_x * 64 + (row_group % 4) * 16)`: the same group that the row-major
/// exact kernel forms from those values.
pub proof fn lemma_pair_row_group_is_row_major(
    block_x: int,
    block_y: int,
    row_group: int,
    source_cols: int,
)
    requires
        0 <= block_x,
        0 <= block_y,
        0 <= row_group < 64,
        source_cols % GROUP_SIZE as int == 0,
        (block_x + 1) * TRANSPOSE_TILE_COLS as int <= source_cols,
    ensures
        pair_row_group_of(block_x, block_y, row_group, source_cols) * GROUP_SIZE as int == (block_y
            * TRANSPOSE_TILE_ROWS as int + row_group / 4) * source_cols + block_x
            * TRANSPOSE_TILE_COLS as int + (row_group % 4) * GROUP_SIZE as int,
{
    let tile_row = row_group / 4;
    let row_col = (row_group % 4) * 16;
    let r = block_y * 16 + tile_row;
    let q = source_cols / 16;
    assert(q * 16 == source_cols);
    let c = block_x * 64 + row_col;
    assert(c == (block_x * 4 + row_group % 4) * 16);
    assert(c / 16 == block_x * 4 + row_group % 4);
    assert((r * q + c / 16) * 16 == r * source_cols + c) by (nonlinear_arith)
        requires
            q * 16 == source_cols,
            c == (c / 16) * 16,
    ;
}

} // verus!
