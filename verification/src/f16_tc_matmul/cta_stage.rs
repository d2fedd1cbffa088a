use vstd::prelude::*;
use vstd::arithmetic::div_mod::{lemma_mod_multiples_vanish, lemma_mod_pos_bound, lemma_small_mod};

use super::convert::{
    load_f16x2_global_bits, lemma_pack_f16x2_roundtrip, pack_f16x2, packed_hi, packed_lo,
    store_f16x2_shared,
};
use super::cta_tile::{
    CTA_A_ELEMS, CTA_B_ELEMS, CTA_K, CtaMatmulDims, CtaTile, stage_coords, tile_col, tile_row,
};

verus! {

/// Whether the thread `thread` of a block of `threads` threads stages the element
/// at tile offset `offset`: threads take element pairs round-robin.
pub open spec fn owns_pair(offset: int, thread: int, threads: int) -> bool {
    (offset / 2) % threads == thread
}

/// The tile `new` is `old` with every element that thread `thread` owns replaced
/// by `element(offset)`, and every other element left as it was.
pub open spec fn staged_by_thread(
    old_tile: Seq<u16>,
    new_tile: Seq<u16>,
    thread: int,
    threads: int,
    element: spec_fn(int) -> u16,
) -> bool {
    &&& new_tile.len() == old_tile.len()
    &&& forall|offset: int|
        0 <= offset < new_tile.len() ==> #[trigger] new_tile[offset] == if owns_pair(
            offset,
            thread,
            threads,
        ) {
            element(offset)
        } else {
            old_tile[offset]
        }
}

/// Element `(row, col)` of batch `batch` of a row-major `rows x cols` matrix
/// stored in `src`, or zero outside the matrix.
pub open spec fn row_major_element(
    src: Seq<u16>,
    batch: int,
    rows: int,
    cols: int,
    row: int,
    col: int,
) -> u16 {
    if 0 <= row < rows && 0 <= col < cols {
        src[(batch * rows + row) * cols + col]
    } else {
        0
    }
}

/// The element at tile offset `offset` of the tile that starts at row
/// `row_base` and depth `k_base` of a row-major matrix.
pub open spec fn staged_row_major(
    src: Seq<u16>,
    batch: int,
    row_base: int,
    rows: int,
    cols: int,
    k_base: int,
    offset: int,
) -> u16 {
    row_major_element(src, batch, rows, cols, row_base + tile_row(offset), k_base + tile_col(offset))
}

/// Thread launch limits that the staging loops rely on.
pub open spec fn valid_threads(thread_idx: u32, threads: u32) -> bool {
    0 < threads <= 1024 && thread_idx < threads
}

/// The shape bounds under which every row-major index of a batch fits in `u32`
/// and in the source buffer.
pub open spec fn batch_fits(src_len: int, batch: int, rows: int, cols: int) -> bool {
    &&& (batch + 1) * rows * cols <= src_len
    &&& (batch + 1) * rows * cols <= 0x1_0000_0000
}

pub proof fn lemma_row_major_index(batch: int, rows: int, cols: int, row: int, col: int)
    requires
        batch >= 0,
        0 <= row < rows,
        0 <= col < cols,
    ensures
        0 <= batch * rows <= batch * rows + row,
        batch * rows + row <= (batch * rows + row) * cols,
        (batch * rows + row) * cols + col < (batch + 1) * rows * cols,
{
    assert(0 <= batch * rows) by (nonlinear_arith)
        requires
            batch >= 0,
            rows > 0,
    ;
    assert(batch * rows + row <= (batch * rows + row) * cols) by (nonlinear_arith)
        requires
            batch * rows + row >= 0,
            cols >= 1,
    ;
    assert((batch * rows + row) * cols + col < (batch + 1) * rows * cols) by (nonlinear_arith)
        requires
            batch >= 0,
            0 <= row < rows,
            0 <= col < cols,
    ;
}

/// Within one round of a round-robin schedule, exactly one pair belongs to each thread.
pub proof fn lemma_owner_in_round(q: int, thread: int, threads: int, round: int)
    requires
        0 <= thread < threads,
        round >= 0,
        thread + round * threads <= q < thread + (round + 1) * threads,
    ensures
        (q % threads == thread) <==> (q == thread + round * threads),
{
    assert((round + 1) * threads == round * threads + threads) by (nonlinear_arith);
    assert(threads * round == round * threads) by (nonlinear_arith);
    let r = q - (thread + round * threads);
    assert(0 <= r < threads);
    lemma_mod_multiples_vanish(round, thread + r, threads);
    assert(q % threads == (thread + r) % threads);
    if thread + r < threads {
        lemma_small_mod((thread + r) as nat, threads as nat);
    } else {
        assert(threads * 1 == threads);
        lemma_mod_multiples_vanish(1, thread + r - threads, threads);
        lemma_small_mod((thread + r - threads) as nat, threads as nat);
    }
}

/// A pair starts at an even offset, so both of its elements sit in one tile row.
pub proof fn lemma_pair_coords(pair: int)
    requires
        pair >= 0,
        pair % 2 == 0,
    ensures
        tile_row(pair + 1) == tile_row(pair),
        tile_col(pair + 1) == tile_col(pair) + 1,
        (pair + 1) / 2 == pair / 2,
{
}

/// Fills every pair of a staged tile that thread `thread_idx` owns with the
/// packed value that `load_pair` computes for the pair's offset.
pub(crate) fn stage_pairs<F: Fn(u32) -> u32>(
    dst: &mut Vec<u16>,
    thread_idx: u32,
    threads: u32,
    load_pair: F,
    Ghost(element): Ghost<spec_fn(int) -> u16>,
)
    requires
        old(dst)@.len() == CTA_A_ELEMS,
        valid_threads(thread_idx, threads),
        forall|pair: u32|
            pair < CTA_A_ELEMS && pair % 2 == 0 ==> #[trigger] load_pair.requires((pair,)),
        forall|pair: u32, packed: u32|
            pair < CTA_A_ELEMS && pair % 2 == 0 && #[trigger] load_pair.ensures((pair,), packed)
                ==> packed == pack_f16x2(element(pair as int), element(pair as int + 1)),
    ensures
        staged_by_thread(old(dst)@, final(dst)@, thread_idx as int, threads as int, element),
{
    let ghost old_tile = dst@;
    proof {
        assert forall|offset: int|
            0 <= offset < CTA_A_ELEMS && owns_pair(
                offset,
                thread_idx as int,
                threads as int,
            ) implies offset / 2 >= thread_idx by {
            if offset / 2 < thread_idx {
                lemma_small_mod((offset / 2) as nat, threads as nat);
            }
        }
    }
    let ghost mut round: int = 0;
    let mut pair = thread_idx * 2;
    while pair < CTA_A_ELEMS
        invariant
            valid_threads(thread_idx, threads),
            forall|pair: u32|
                pair < CTA_A_ELEMS && pair % 2 == 0 ==> #[trigger] load_pair.requires((pair,)),
            forall|pair: u32, packed: u32|
                pair < CTA_A_ELEMS && pair % 2 == 0 && #[trigger] load_pair.ensures(
                    (pair,),
                    packed,
                ) ==> packed == pack_f16x2(element(pair as int), element(pair as int + 1)),
            old_tile.len() == CTA_A_ELEMS,
            round >= 0,
            pair as int == 2 * (thread_idx + round * threads),
            pair <= CTA_A_ELEMS + 2048,
            dst@.len() == CTA_A_ELEMS,
            forall|offset: int|
                0 <= offset < CTA_A_ELEMS ==> #[trigger] dst@[offset] == if owns_pair(
                    offset,
                    thread_idx as int,
                    threads as int,
                ) && offset / 2 < thread_idx + round * threads {
                    element(offset)
                } else {
                    old_tile[offset]
                },
        decreases CTA_A_ELEMS + 2048 - pair,
    {
        let packed = load_pair(pair);
        proof {
            lemma_pack_f16x2_roundtrip(element(pair as int), element(pair as int + 1));
        }
        store_f16x2_shared(dst, pair as usize, packed);
        proof {
            assert((round + 1) * threads == round * threads + threads) by (nonlinear_arith);
            assert forall|offset: int| 0 <= offset < CTA_A_ELEMS implies #[trigger] dst@[offset]
                == if owns_pair(offset, thread_idx as int, threads as int) && offset / 2
                    < thread_idx + (round + 1) * threads {
                element(offset)
            } else {
                old_tile[offset]
            } by {
                if offset / 2 >= thread_idx + round * threads && offset / 2 < thread_idx + (round
                    + 1) * threads {
                    lemma_owner_in_round(offset / 2, thread_idx as int, threads as int, round);
                    if offset == pair as int || offset == pair as int + 1 {
                        assert(owns_pair(offset, thread_idx as int, threads as int));
                    } else {
                        assert(!owns_pair(offset, thread_idx as int, threads as int));
                    }
                }
            }
            round = round + 1;
        }
        pair = pair + threads * 2;
    }
}

/// Stages thread `thread_idx`'s share of the `CTA_M x CTA_K` (or `CTA_N x CTA_K`)
/// tile of a row-major matrix into `dst`. With `CHECK_BOUNDS`, elements outside
/// the matrix are staged as zero; without it, the tile must lie inside the matrix.
pub fn stage_matrix_tile<const CHECK_BOUNDS: bool>(
    src: &[u16],
    dst: &mut Vec<u16>,
    tile: CtaTile,
    row_base: u32,
    rows: u32,
    cols: u32,
    k_base: u32,
    thread_idx: u32,
    threads: u32,
)
    requires
        old(dst)@.len() == CTA_A_ELEMS,
        valid_threads(thread_idx, threads),
        batch_fits(src@.len() as int, tile.batch as int, rows as int, cols as int),
        row_base + CTA_A_ELEMS / CTA_K <= u32::MAX,
        k_base + CTA_K <= u32::MAX,
        !CHECK_BOUNDS ==> row_base + CTA_A_ELEMS / CTA_K <= rows && k_base + CTA_K <= cols,
    ensures
        staged_by_thread(
            old(dst)@,
            final(dst)@,
            thread_idx as int,
            threads as int,
            |offset: int|
                staged_row_major(
                    src@,
                    tile.batch as int,
                    row_base as int,
                    rows as int,
                    cols as int,
                    k_base as int,
                    offset,
                ),
        ),
{
    let ghost element = |offset: int|
        staged_row_major(
            src@,
            tile.batch as int,
            row_base as int,
            rows as int,
            cols as int,
            k_base as int,
            offset,
        );
    let load_pair = |pair: u32| -> (packed: u32)
        requires
            pair < CTA_A_ELEMS,
            pair % 2 == 0,
        ensures
            packed == pack_f16x2(element(pair as int), element(pair as int + 1)),
        {
            let (global_row, global_col) = stage_coords(pair, row_base, k_base);
            proof {
                lemma_pair_coords(pair as int);
            }
            if !CHECK_BOUNDS || (global_row < rows && global_col + 1 < cols) {
                proof {
                    lemma_row_major_index(
                        tile.batch as int,
                        rows as int,
                        cols as int,
                        global_row as int,
                        global_col as int + 1,
                    );
                }
                let index = ((tile.batch * rows + global_row) * cols + global_col) as usize;
                load_f16x2_global_bits(src, index)
            } else if global_row < rows && global_col < cols {
                proof {
                    lemma_row_major_index(
                        tile.batch as int,
                        rows as int,
                        cols as int,
                        global_row as int,
                        global_col as int,
                    );
                    let lo = element(pair as int);
                    assert((lo as u32) | ((0u16 as u32) << 16u32) == lo as u32) by (bit_vector);
                }
                src[((tile.batch * rows + global_row) * cols + global_col) as usize] as u32
            } else {
                proof {
                    assert((0u16 as u32) | ((0u16 as u32) << 16u32) == 0u32) by (bit_vector);
                }
                0
            }
        };
    stage_pairs(dst, thread_idx, threads, load_pair, Ghost(element));
}

/// Stages both operand tiles of a `CTA_M x CTA_N` output tile for the depth
/// slice starting at `k_base`: rows `row_base..` of `a` and rows `col_base..` of
/// `b_t`, both row-major with depth `k`.
fn stage_tiles_impl<const CHECK_BOUNDS: bool>(
    a: &[u16],
    b_t: &[u16],
    a_tile: &mut Vec<u16>,
    b_tile: &mut Vec<u16>,
    tile: CtaTile,
    dims: CtaMatmulDims,
    k_base: u32,
    thread_idx: u32,
    threads: u32,
)
    requires
        old(a_tile)@.len() == CTA_A_ELEMS,
        old(b_tile)@.len() == CTA_B_ELEMS,
        valid_threads(thread_idx, threads),
        batch_fits(a@.len() as int, tile.batch as int, dims.m as int, dims.k as int),
        batch_fits(b_t@.len() as int, tile.batch as int, dims.n as int, dims.k as int),
        tile.row_base + CTA_A_ELEMS / CTA_K <= u32::MAX,
        tile.col_base + CTA_B_ELEMS / CTA_K <= u32::MAX,
        k_base + CTA_K <= u32::MAX,
        !CHECK_BOUNDS ==> aligned_tile(tile, dims, k_base),
    ensures
        staged_by_thread(
            old(a_tile)@,
            final(a_tile)@,
            thread_idx as int,
            threads as int,
            |offset: int|
                staged_row_major(
                    a@,
                    tile.batch as int,
                    tile.row_base as int,
                    dims.m as int,
                    dims.k as int,
                    k_base as int,
                    offset,
                ),
        ),
        staged_by_thread(
            old(b_tile)@,
            final(b_tile)@,
            thread_idx as int,
            threads as int,
            |offset: int|
                staged_row_major(
                    b_t@,
                    tile.batch as int,
                    tile.col_base as int,
                    dims.n as int,
                    dims.k as int,
                    k_base as int,
                    offset,
                ),
        ),
{
    stage_matrix_tile::<CHECK_BOUNDS>(
        a,
        a_tile,
        tile,
        tile.row_base,
        dims.m,
        dims.k,
        k_base,
        thread_idx,
        threads,
    );
    stage_matrix_tile::<CHECK_BOUNDS>(
        b_t,
        b_tile,
        tile,
        tile.col_base,
        dims.n,
        dims.k,
        k_base,
        thread_idx,
        threads,
    );
}

/// Whether both operand tiles of `tile` at depth `k_base` lie wholly inside
/// their matrices, so that no element needs a bounds check.
pub open spec fn aligned_tile(tile: CtaTile, dims: CtaMatmulDims, k_base: u32) -> bool {
    &&& tile.row_base + CTA_A_ELEMS / CTA_K <= dims.m
    &&& tile.col_base + CTA_B_ELEMS / CTA_K <= dims.n
    &&& k_base + CTA_K <= dims.k
}

/// Bounds-checked staging of both operand tiles; see [`stage_tiles_impl`].
pub fn stage_tiles(
    a: &[u16],
    b_t: &[u16],
    a_tile: &mut Vec<u16>,
    b_tile: &mut Vec<u16>,
    tile: CtaTile,
    dims: CtaMatmulDims,
    k_base: u32,
    thread_idx: u32,
    threads: u32,
)
    requires
        old(a_tile)@.len() == CTA_A_ELEMS,
        old(b_tile)@.len() == CTA_B_ELEMS,
        valid_threads(thread_idx, threads),
        batch_fits(a@.len() as int, tile.batch as int, dims.m as int, dims.k as int),
        batch_fits(b_t@.len() as int, tile.batch as int, dims.n as int, dims.k as int),
        tile.row_base + CTA_A_ELEMS / CTA_K <= u32::MAX,
        tile.col_base + CTA_B_ELEMS / CTA_K <= u32::MAX,
        k_base + CTA_K <= u32::MAX,
    ensures
        staged_by_thread(
            old(a_tile)@,
            final(a_tile)@,
            thread_idx as int,
            threads as int,
            |offset: int|
                staged_row_major(
                    a@,
                    tile.batch as int,
                    tile.row_base as int,
                    dims.m as int,
                    dims.k as int,
                    k_base as int,
                    offset,
                ),
        ),
        staged_by_thread(
            old(b_tile)@,
            final(b_tile)@,
            thread_idx as int,
            threads as int,
            |offset: int|
                staged_row_major(
                    b_t@,
                    tile.batch as int,
                    tile.col_base as int,
                    dims.n as int,
                    dims.k as int,
                    k_base as int,
                    offset,
                ),
        ),
{
    stage_tiles_impl::<true>(a, b_t, a_tile, b_tile, tile, dims, k_base, thread_idx, threads);
}

/// Staging of both operand tiles without bounds checks, for tiles that lie
/// wholly inside their matrices; it stages the same values as [`stage_tiles`].
pub fn stage_tiles_aligned(
    a: &[u16],
    b_t: &[u16],
    a_tile: &mut Vec<u16>,
    b_tile: &mut Vec<u16>,
    tile: CtaTile,
    dims: CtaMatmulDims,
    k_base: u32,
    thread_idx: u32,
    threads: u32,
)
    requires
        old(a_tile)@.len() == CTA_A_ELEMS,
        old(b_tile)@.len() == CTA_B_ELEMS,
        valid_threads(thread_idx, threads),
        batch_fits(a@.len() as int, tile.batch as int, dims.m as int, dims.k as int),
        batch_fits(b_t@.len() as int, tile.batch as int, dims.n as int, dims.k as int),
        tile.row_base + CTA_A_ELEMS / CTA_K <= u32::MAX,
        tile.col_base + CTA_B_ELEMS / CTA_K <= u32::MAX,
        k_base + CTA_K <= u32::MAX,
        aligned_tile(tile, dims, k_base),
    ensures
        staged_by_thread(
            old(a_tile)@,
            final(a_tile)@,
            thread_idx as int,
            threads as int,
            |offset: int|
                staged_row_major(
                    a@,
                    tile.batch as int,
                    tile.row_base as int,
                    dims.m as int,
                    dims.k as int,
                    k_base as int,
                    offset,
                ),
        ),
        staged_by_thread(
            old(b_tile)@,
            final(b_tile)@,
            thread_idx as int,
            threads as int,
            |offset: int|
                staged_row_major(
                    b_t@,
                    tile.batch as int,
                    tile.col_base as int,
                    dims.n as int,
                    dims.k as int,
                    k_base as int,
                    offset,
                ),
        ),
{
    stage_tiles_impl::<false>(a, b_t, a_tile, b_tile, tile, dims, k_base, thread_idx, threads);
}

/// Whether `tile` names a thread of the tensor-core fragment layout: one of the
/// four 16-row warp slices, one of eight lane groups, one of four lanes in it.
pub open spec fn fragment_lane(tile: CtaTile) -> bool {
    tile.warp_m < 4 && tile.group < 8 && tile.thread_in_group < 4
}

/// Offset in the A tile of the pair that register `register` of the A
/// fragment holds.
pub open spec fn a_fragment_offset(tile: CtaTile, register: int) -> int {
    let row = tile.warp_m * 16 + tile.group + if register % 2 == 0 {
        0int
    } else {
        8
    };
    let col = tile.thread_in_group * 2 + if register < 2 {
        0int
    } else {
        8
    };
    row * (CTA_K as int) + col
}

/// Offset in the B tile of the pair that register `register` of the B
/// fragment of column slice `warp_n` holds.
pub open spec fn b_fragment_offset(tile: CtaTile, warp_n: int, register: int) -> int {
    let row = warp_n * 8 + tile.group;
    let col = tile.thread_in_group * 2 + if register == 0 {
        0int
    } else {
        8
    };
    row * (CTA_K as int) + col
}

/// The pair of a staged tile at `offset`, packed into one word.
pub open spec fn packed_pair(tile: Seq<u16>, offset: int) -> u32 {
    pack_f16x2(tile[offset], tile[offset + 1])
}

fn load_packed2(tile: &Vec<u16>, offset: u32) -> (packed: u32)
    requires
        offset + 1 < tile@.len(),
    ensures
        packed == packed_pair(tile@, offset as int),
{
    load_f16x2_global_bits(tile.as_slice(), offset as usize)
}

fn load_a_fragment(a_tile: &Vec<u16>, tile: CtaTile, register: u32) -> (packed: u32)
    requires
        a_tile@.len() == CTA_A_ELEMS,
        fragment_lane(tile),
        register < 4,
    ensures
        packed == packed_pair(a_tile@, a_fragment_offset(tile, register as int)),
{
    let row = tile.warp_m * 16 + tile.group + if register & 1 == 0 {
        0
    } else {
        8
    };
    let col = tile.thread_in_group * 2 + if register < 2 {
        0
    } else {
        8
    };
    assert(register & 1 == register % 2) by (bit_vector);
    load_packed2(a_tile, row * CTA_K + col)
}

fn load_b_fragment(b_tile: &Vec<u16>, tile: CtaTile, warp_n: u32, register: u32) -> (packed: u32)
    requires
        b_tile@.len() == CTA_B_ELEMS,
        fragment_lane(tile),
        warp_n < 8,
        register < 2,
    ensures
        packed == packed_pair(b_tile@, b_fragment_offset(tile, warp_n as int, register as int)),
{
    let row = warp_n * 8 + tile.group;
    let col = tile.thread_in_group * 2 + if register == 0 {
        0
    } else {
        8
    };
    load_packed2(b_tile, row * CTA_K + col)
}

/// The four A-operand registers of one thread's `m16n8k16` fragment.
pub fn load_a_fragments(a_tile: &Vec<u16>, tile: CtaTile) -> (fragments: [u32; 4])
    requires
        a_tile@.len() == CTA_A_ELEMS,
        fragment_lane(tile),
    ensures
        forall|register: int|
            0 <= register < 4 ==> #[trigger] fragments@[register] == packed_pair(
                a_tile@,
                a_fragment_offset(tile, register),
            ),
{
    [
        load_a_fragment(a_tile, tile, 0),
        load_a_fragment(a_tile, tile, 1),
        load_a_fragment(a_tile, tile, 2),
        load_a_fragment(a_tile, tile, 3),
    ]
}

/// The two B-operand registers of one thread's `m16n8k16` fragment for the
/// eight-column slice `warp_n`.
pub fn load_b_fragments(b_tile: &Vec<u16>, tile: CtaTile, warp_n: u32) -> (fragments: [u32; 2])
    requires
        b_tile@.len() == CTA_B_ELEMS,
        fragment_lane(tile),
        warp_n < 8,
    ensures
        forall|register: int|
            0 <= register < 2 ==> #[trigger] fragments@[register] == packed_pair(
                b_tile@,
                b_fragment_offset(tile, warp_n as int, register),
            ),
{
    [load_b_fragment(b_tile, tile, warp_n, 0), load_b_fragment(b_tile, tile, warp_n, 1)]
}

/// The tile as staged by the first `count` threads of a block, one after another.
pub open spec fn staged_by_first(
    initial: Seq<u16>,
    count: int,
    threads: int,
    element: spec_fn(int) -> u16,
) -> Seq<u16> {
    Seq::new(
        initial.len(),
        |offset: int|
            if (offset / 2) % threads < count {
                element(offset)
            } else {
                initial[offset]
            },
    )
}

/// Running the staging of every thread `0..threads` of a block in turn stages
/// every element of the tile: each element pair has exactly one owning thread.
pub proof fn lemma_block_stages_whole_tile(
    tiles: Seq<Seq<u16>>,
    threads: int,
    element: spec_fn(int) -> u16,
)
    requires
        threads > 0,
        tiles.len() == threads + 1,
        forall|thread: int|
            0 <= thread < threads ==> staged_by_thread(
                #[trigger] tiles[thread],
                tiles[thread + 1],
                thread,
                threads,
                element,
            ),
    ensures
        tiles[threads].len() == tiles[0].len(),
        forall|offset: int|
            0 <= offset < tiles[threads].len() ==> #[trigger] tiles[threads][offset] == element(
                offset,
            ),
{
    lemma_staged_prefix(tiles, threads, threads, element);
    assert forall|offset: int| 0 <= offset < tiles[threads].len() implies #[trigger] tiles[threads][offset]
        == element(offset) by {
        assert(tiles[threads][offset] == staged_by_first(tiles[0], threads, threads, element)[offset]);
        assert((offset / 2) % threads < threads);
    }
}

proof fn lemma_staged_prefix(
    tiles: Seq<Seq<u16>>,
    threads: int,
    count: int,
    element: spec_fn(int) -> u16,
)
    requires
        threads > 0,
        tiles.len() == threads + 1,
        0 <= count <= threads,
        forall|thread: int|
            0 <= thread < threads ==> staged_by_thread(
                #[trigger] tiles[thread],
                tiles[thread + 1],
                thread,
                threads,
                element,
            ),
    ensures
        tiles[count] == staged_by_first(tiles[0], count, threads, element),
    decreases count,
{
    if count == 0 {
        assert forall|offset: int| 0 <= offset < tiles[0].len() implies !(#[trigger] ((offset / 2) % threads) < 0) by {
            lemma_mod_pos_bound(offset / 2, threads);
        }
        assert(tiles[0] =~= staged_by_first(tiles[0], 0, threads, element));
    } else {
        lemma_staged_prefix(tiles, threads, count - 1, element);
        let previous = tiles[count - 1];
        assert(staged_by_thread(previous, tiles[count], count - 1, threads, element));
        assert forall|offset: int| 0 <= offset < previous.len() implies #[trigger] ((offset / 2) % threads)
            < count <==> ((offset / 2) % threads < count - 1 || owns_pair(offset, count - 1, threads)) by {}
        assert(tiles[count] =~= staged_by_first(tiles[0], count, threads, element));
    }
}

} // verus!
