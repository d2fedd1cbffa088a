use vstd::prelude::*;
use vstd::std_specs::bits::u32_trailing_zeros;

use super::four_six::Nvfp4QuantModule;
use super::pow2::{is_pow2, is_power_of_two, lemma_pow2_is_shifted_one};
use vstd::arithmetic::power2::pow2;
use vstd::bits::{lemma_u32_pow2_no_overflow, lemma_u32_shl_is_mul};

verus! {

/// The integer hash behind the Eden random signs and stochastic rounding:
/// three xor-shifts interleaved with two multiplications modulo 2^32.
pub open spec fn hash_u32_spec(value: u32) -> u32 {
    let v1 = value ^ (value >> 16u32);
    let v2 = ((v1 as int * 0x7feb_352d) % 0x1_0000_0000) as u32;
    let v3 = v2 ^ (v2 >> 15u32);
    let v4 = ((v3 as int * 0x846c_a68b) % 0x1_0000_0000) as u32;
    v4 ^ (v4 >> 16u32)
}

pub fn hash_u32(value: u32) -> (hashed: u32)
    ensures
        hashed == hash_u32_spec(value),
{
    let mut value = value;
    value ^= value >> 16u32;
    value = value.wrapping_mul(0x7feb_352d);
    value ^= value >> 15u32;
    value = value.wrapping_mul(0x846c_a68b);
    value ^ (value >> 16u32)
}

/// The inverse of the Eden hash: each xor-shift and each odd multiplication
/// of the hash undone in reverse order.
pub open spec fn hash_u32_inverse_spec(hashed: u32) -> u32 {
    let v4 = hashed ^ (hashed >> 16u32);
    let v3 = ((v4 as int * 0x4302_1123) % 0x1_0000_0000) as u32;
    let v2 = v3 ^ (v3 >> 15u32) ^ (v3 >> 30u32);
    let v1 = ((v2 as int * 0x1d69_e2a5) % 0x1_0000_0000) as u32;
    v1 ^ (v1 >> 16u32)
}

proof fn lemma_mul_mod_inverse(x: u32, c: u32, inverse: u32)
    requires
        (c as int * inverse as int) % 0x1_0000_0000 == 1,
    ensures
        ((((x as int * c) % 0x1_0000_0000) as u32) as int * inverse) % 0x1_0000_0000 == x,
{
    let m: int = 0x1_0000_0000;
    let y = (x as int * c) % m;
    vstd::arithmetic::div_mod::lemma_mod_bound(x as int * c, m);
    vstd::arithmetic::div_mod::lemma_mul_mod_noop_left(x as int * c, inverse as int, m);
    assert((x as int * c) * inverse == x as int * (c as int * inverse)) by (nonlinear_arith);
    vstd::arithmetic::div_mod::lemma_mul_mod_noop_right(x as int, c as int * inverse, m);
    vstd::arithmetic::div_mod::lemma_small_mod(x as nat, m as nat);
}

/// The Eden hash is a bijection of `u32`: `hash_u32_inverse_spec` undoes it,
/// so two values with the same hash are equal. It maps 0 to 0.
pub proof fn lemma_hash_u32_bijective(a: u32, b: u32)
    ensures
        hash_u32_inverse_spec(hash_u32_spec(a)) == a,
        hash_u32_spec(a) == hash_u32_spec(b) ==> a == b,
        hash_u32_spec(0) == 0,
{
    assert forall|x: u32| #[trigger] hash_u32_inverse_spec(hash_u32_spec(x)) == x by {
        let v1 = x ^ (x >> 16u32);
        let v2 = ((v1 as int * 0x7feb_352d) % 0x1_0000_0000) as u32;
        let v3 = v2 ^ (v2 >> 15u32);
        let v4 = ((v3 as int * 0x846c_a68b) % 0x1_0000_0000) as u32;
        let h = v4 ^ (v4 >> 16u32);
        assert(h == hash_u32_spec(x));
        assert(h ^ (h >> 16u32) == v4) by (bit_vector)
            requires
                h == v4 ^ (v4 >> 16u32),
        ;
        assert((0x846c_a68bint * 0x4302_1123int) % 0x1_0000_0000 == 1);
        lemma_mul_mod_inverse(v3, 0x846c_a68b, 0x4302_1123);
        let w3 = ((v4 as int * 0x4302_1123) % 0x1_0000_0000) as u32;
        assert(w3 == v3);
        assert(w3 ^ (w3 >> 15u32) ^ (w3 >> 30u32) == v2) by (bit_vector)
            requires
                w3 == v3,
                v3 == v2 ^ (v2 >> 15u32),
        ;
        assert((0x7feb_352dint * 0x1d69_e2a5int) % 0x1_0000_0000 == 1);
        lemma_mul_mod_inverse(v1, 0x7feb_352d, 0x1d69_e2a5);
        let w1 = ((v2 as int * 0x1d69_e2a5) % 0x1_0000_0000) as u32;
        assert(w1 == v1);
        assert(w1 ^ (w1 >> 16u32) == x) by (bit_vector)
            requires
                w1 == v1,
                v1 == x ^ (x >> 16u32),
        ;
    }
    assert(hash_u32_spec(0) == 0) by (bit_vector);
}

/// The random sign of element `index` under `seed`: `1` when the low bit of
/// the hash of `seed ^ index` is clear, `-1` when it is set.
pub fn random_sign(seed: u32, index: u32) -> (sign: i32)
    ensures
        sign == if hash_u32_spec(seed ^ index) & 1 == 0 {
            1i32
        } else {
            -1i32
        },
{
    if hash_u32(seed ^ index) & 1 == 0 {
        1
    } else {
        -1
    }
}

/// How the Eden pack kernels split their output: `chunk_count` chunks, and
/// whether the chunks cover the output exactly, without a partial chunk.
#[derive(Clone, Copy)]
pub struct MsEdenPackGrid {
    pub chunk_count: u32,
    pub exact: bool,
}

/// Shape and seeds of an NVFP4-to-NVFP4 transposing Eden requantisation.
#[derive(Clone, Copy)]
pub struct Nvfp4TransposeMsEdenDeviceScaleQuantArgs {
    pub source_rows: u32,
    pub source_cols: u32,
    pub dst_row_len: u32,
    pub sign_seed: u32,
    pub scale_seed: u32,
}

/// The transposing Eden kernels, each after the global scale has been derived
/// on the device, with the scalar arguments each one gets.
#[derive(Clone, Copy, Debug, PartialEq, Eq, Structural)]
pub enum MsEdenLaunch {
    WithChunkAmax {
        chunk_count: u32,
        source_rows: u32,
        source_cols: u32,
        dst_row_len: u32,
        sign_seed: u32,
        scale_seed: u32,
    },
    NoChunkAmax {
        chunk_count: u32,
        source_rows: u32,
        source_cols: u32,
        dst_row_len: u32,
        sign_seed: u32,
        scale_seed: u32,
    },
    NoChunkAmaxExact {
        source_rows: u32,
        source_cols: u32,
        dst_row_len: u32,
        sign_seed: u32,
        scale_seed: u32,
    },
    NoChunkAmaxTiledPow2 {
        source_cols_shift: u32,
        chunks_per_row_shift: u32,
        sign_seed: u32,
        scale_seed: u32,
    },
    NoChunkAmaxTiledRowMul {
        source_cols_shift: u32,
        chunks_per_row: u32,
        sign_seed: u32,
        scale_seed: u32,
    },
}

/// The pass that derives the tensor-wide scale of the transposed output from
/// the NVFP4 input of the given shape; it runs first, and the requantisation
/// launch follows only when it was launched.
#[derive(Clone, Copy, Debug, PartialEq, Eq, Structural)]
pub struct TransposeGlobalScaleDerivation {
    pub source_rows: u32,
    pub source_cols: u32,
    pub dst_row_len: u32,
}

/// The two launches of a transposing Eden requantisation, in order.
#[derive(Clone, Copy, Debug, PartialEq, Eq, Structural)]
pub struct MsEdenPlan {
    pub derive_global_scale: TransposeGlobalScaleDerivation,
    pub pack: MsEdenLaunch,
}

/// The derivation pass for `args`.
pub open spec fn global_scale_derivation(args: Nvfp4TransposeMsEdenDeviceScaleQuantArgs) -> TransposeGlobalScaleDerivation {
    TransposeGlobalScaleDerivation {
        source_rows: args.source_rows,
        source_cols: args.source_cols,
        dst_row_len: args.dst_row_len,
    }
}

/// Whether the rows of the transposed output fill whole 32-value chunks, so the
/// tiled kernels apply.
pub open spec fn ms_eden_tiled(args: Nvfp4TransposeMsEdenDeviceScaleQuantArgs) -> bool {
    &&& args.source_rows == args.dst_row_len
    &&& args.source_rows != 0
    &&& args.source_rows % 32 == 0
    &&& args.source_cols % 8 == 0
    &&& is_pow2(args.source_cols)
}

/// The kernel of the transposing requantisation without chunk maxima.
pub open spec fn ms_eden_no_chunk_amax_launch(
    args: Nvfp4TransposeMsEdenDeviceScaleQuantArgs,
    pack: MsEdenPackGrid,
) -> MsEdenLaunch {
    if pack.exact {
        if ms_eden_tiled(args) {
            let chunks_per_row = (args.source_rows / 32) as u32;
            if is_pow2(chunks_per_row) {
                MsEdenLaunch::NoChunkAmaxTiledPow2 {
                    source_cols_shift: u32_trailing_zeros(args.source_cols),
                    chunks_per_row_shift: u32_trailing_zeros(chunks_per_row),
                    sign_seed: args.sign_seed,
                    scale_seed: args.scale_seed,
                }
            } else {
                MsEdenLaunch::NoChunkAmaxTiledRowMul {
                    source_cols_shift: u32_trailing_zeros(args.source_cols),
                    chunks_per_row,
                    sign_seed: args.sign_seed,
                    scale_seed: args.scale_seed,
                }
            }
        } else {
            MsEdenLaunch::NoChunkAmaxExact {
                source_rows: args.source_rows,
                source_cols: args.source_cols,
                dst_row_len: args.dst_row_len,
                sign_seed: args.sign_seed,
                scale_seed: args.scale_seed,
            }
        }
    } else {
        MsEdenLaunch::NoChunkAmax {
            chunk_count: pack.chunk_count,
            source_rows: args.source_rows,
            source_cols: args.source_cols,
            dst_row_len: args.dst_row_len,
            sign_seed: args.sign_seed,
            scale_seed: args.scale_seed,
        }
    }
}

/// The derivation pass for `args`.
fn derive_global_scale(args: Nvfp4TransposeMsEdenDeviceScaleQuantArgs) -> (derivation:
    TransposeGlobalScaleDerivation)
    ensures
        derivation == global_scale_derivation(args),
{
    TransposeGlobalScaleDerivation {
        source_rows: args.source_rows,
        source_cols: args.source_cols,
        dst_row_len: args.dst_row_len,
    }
}

impl Nvfp4QuantModule {
    /// Plans the transposing requantisation that also writes chunk maxima:
    /// the global-scale derivation, then the pack kernel; `pack` is the pack
    /// grid for `source_cols * dst_row_len` elements.
    pub fn nvfp4_transpose_to_quartet_backward_ms_eden_derived_device_scale(
        &self,
        args: Nvfp4TransposeMsEdenDeviceScaleQuantArgs,
        pack: MsEdenPackGrid,
    ) -> (plan: MsEdenPlan)
        ensures
            plan == (MsEdenPlan {
                derive_global_scale: global_scale_derivation(args),
                pack: MsEdenLaunch::WithChunkAmax {
                    chunk_count: pack.chunk_count,
                    source_rows: args.source_rows,
                    source_cols: args.source_cols,
                    dst_row_len: args.dst_row_len,
                    sign_seed: args.sign_seed,
                    scale_seed: args.scale_seed,
                },
            }),
    {
        MsEdenPlan {
            derive_global_scale: derive_global_scale(args),
            pack: MsEdenLaunch::WithChunkAmax {
                chunk_count: pack.chunk_count,
                source_rows: args.source_rows,
                source_cols: args.source_cols,
                dst_row_len: args.dst_row_len,
                sign_seed: args.sign_seed,
                scale_seed: args.scale_seed,
            },
        }
    }

    /// Plans the transposing requantisation without chunk maxima: the
    /// global-scale derivation, then the pack kernel that
    /// `ms_eden_no_chunk_amax_launch` picks.
    pub fn nvfp4_transpose_to_quartet_backward_ms_eden_derived_device_scale_no_chunk_amax(
        &self,
        args: Nvfp4TransposeMsEdenDeviceScaleQuantArgs,
        pack: MsEdenPackGrid,
    ) -> (plan: MsEdenPlan)
        ensures
            plan == (MsEdenPlan {
                derive_global_scale: global_scale_derivation(args),
                pack: ms_eden_no_chunk_amax_launch(args, pack),
            }),
    {
        MsEdenPlan {
            derive_global_scale: derive_global_scale(args),
            pack: ms_eden_no_chunk_amax_pack(args, pack),
        }
    }
}

/// The pack kernel without chunk maxima: tiled kernels when the pack is exact
/// and whole chunks fill each row, with a shift for power-of-two chunk counts
/// per row and a multiply otherwise.
fn ms_eden_no_chunk_amax_pack(
    args: Nvfp4TransposeMsEdenDeviceScaleQuantArgs,
    pack: MsEdenPackGrid,
) -> (launch: MsEdenLaunch)
    ensures
        launch == ms_eden_no_chunk_amax_launch(args, pack),
{
    if pack.exact {
        if args.source_rows == args.dst_row_len && args.source_rows != 0 && args.source_rows
            % 32 == 0 && args.source_cols % 8 == 0 && is_power_of_two(args.source_cols) {
            let source_cols_shift = args.source_cols.trailing_zeros();
            let chunks_per_row = args.source_rows / 32;
            if is_power_of_two(chunks_per_row) {
                return MsEdenLaunch::NoChunkAmaxTiledPow2 {
                    source_cols_shift,
                    chunks_per_row_shift: chunks_per_row.trailing_zeros(),
                    sign_seed: args.sign_seed,
                    scale_seed: args.scale_seed,
                };
            }
            return MsEdenLaunch::NoChunkAmaxTiledRowMul {
                source_cols_shift,
                chunks_per_row,
                sign_seed: args.sign_seed,
                scale_seed: args.scale_seed,
            };
        }
        return MsEdenLaunch::NoChunkAmaxExact {
            source_rows: args.source_rows,
            source_cols: args.source_cols,
            dst_row_len: args.dst_row_len,
            sign_seed: args.sign_seed,
            scale_seed: args.scale_seed,
        };
    }
    MsEdenLaunch::NoChunkAmax {
        chunk_count: pack.chunk_count,
        source_rows: args.source_rows,
        source_cols: args.source_cols,
        dst_row_len: args.dst_row_len,
        sign_seed: args.sign_seed,
        scale_seed: args.scale_seed,
    }
}

/// Values per Eden scale group.
pub const MS_EDEN_GROUP_SIZE: u32 = 16;

/// Where lane `lane` of the warp that packs chunk `chunk` (whose first value
/// is `chunk_base`) puts its results: the scale group it belongs to, whether it
/// writes that group's scale, and the payload byte it writes, if any.
#[derive(Clone, Copy, Debug, PartialEq, Eq, Structural)]
pub struct MsEdenLaneStores {
    pub group: u32,
    pub writes_scale: bool,
    pub payload_byte: Option<u32>,
}

/// Only even lanes write payload bytes: each writes the byte of the value pair
/// it starts, `(chunk_base + lane) / 2`, taking its odd neighbour's code as the
/// high nibble; the first lane of each 16-lane half writes the half's scale.
pub fn ms_eden_lane_stores(chunk: u32, chunk_base: u32, lane: u32) -> (stores: MsEdenLaneStores)
    requires
        lane < 32,
        chunk_base % 2 == 0,
        chunk_base + 32 <= u32::MAX,
        chunk <= 0x7fff_ffff,
    ensures
        stores.group == chunk * 2 + lane / MS_EDEN_GROUP_SIZE,
        stores.writes_scale == (lane % MS_EDEN_GROUP_SIZE == 0),
        stores.payload_byte matches Some(byte) <==> lane % 2 == 0,
        stores.payload_byte matches Some(byte) ==> byte == (chunk_base + lane) / 2,
{
    assert(MS_EDEN_GROUP_SIZE == 16);
    let lane_in_group = lane & 0x0f;
    let group_leader = lane & !0x0fu32;
    let group = chunk * 2 + lane / MS_EDEN_GROUP_SIZE;
    assert(lane & 0x0fu32 == lane % 16) by (bit_vector);
    assert(lane < 32 ==> lane & !0x0fu32 == lane - lane % 16) by (bit_vector);
    assert(lane / 16 <= 1);
    assert((lane / MS_EDEN_GROUP_SIZE) * (MS_EDEN_GROUP_SIZE / 2) == (lane / 16) * 8);
    let payload_byte = if lane_in_group % 2 == 0 {
        Some(chunk_base / 2 + (lane / MS_EDEN_GROUP_SIZE) * (MS_EDEN_GROUP_SIZE / 2) + lane_in_group
            / 2)
    } else {
        None
    };
    MsEdenLaneStores { group, writes_scale: lane == group_leader, payload_byte }
}

/// The payload byte of a value pair: the even value's 4-bit code in the low
/// nibble, the odd value's code in the high nibble.
pub open spec fn fp4_pair_byte(lo: u8, hi: u8) -> u8 {
    lo | (hi << 4u8)
}

/// Packs the 4-bit codes of a value pair into one payload byte.
pub fn pack_fp4_pair(lo: u8, hi: u8) -> (byte: u8)
    requires
        lo < 16,
        hi < 16,
    ensures
        byte == fp4_pair_byte(lo, hi),
        byte % 16 == lo,
        byte / 16 == hi,
{
    assert((lo | (hi << 4u8)) % 16 == lo && (lo | (hi << 4u8)) / 16 == hi) by (bit_vector)
        requires
            lo < 16,
            hi < 16,
    ;
    lo | (hi << 4u8)
}

/// The bytes that the warp packing chunk `chunk` writes: the payload of its 32
/// values (`codes`, one 4-bit code per lane) as 16 bytes from byte `16 * chunk`
/// on, each the pair byte of an even lane and its odd neighbour, and the scales
/// of its two 16-value groups (`group_scales`) at `2 * chunk` and `2 * chunk + 1`.
/// Nothing else is written.
pub fn ms_eden_pack_chunk(
    out_fp4: &mut Vec<u8>,
    out_scales: &mut Vec<u8>,
    chunk: u32,
    codes: &Vec<u8>,
    group_scales: &Vec<u8>,
)
    requires
        codes@.len() == 32,
        forall|lane: int| 0 <= lane < 32 ==> #[trigger] codes@[lane] < 16,
        group_scales@.len() == 2,
        chunk < 0x07ff_ffff,
        16 * chunk + 16 <= old(out_fp4)@.len(),
        2 * chunk + 2 <= old(out_scales)@.len(),
    ensures
        final(out_fp4)@.len() == old(out_fp4)@.len(),
        final(out_scales)@.len() == old(out_scales)@.len(),
        forall|j: int|
            0 <= j < 16 ==> #[trigger] final(out_fp4)@[16 * chunk + j] == fp4_pair_byte(
                codes@[2 * j],
                codes@[2 * j + 1],
            ),
        forall|i: int|
            0 <= i < old(out_fp4)@.len() && !(16 * chunk <= i < 16 * chunk + 16) ==> #[trigger] final(out_fp4)@[i] == old(out_fp4)@[i],
        forall|g: int| 0 <= g < 2 ==> #[trigger] final(out_scales)@[2 * chunk + g] == group_scales@[g],
        forall|i: int|
            0 <= i < old(out_scales)@.len() && !(2 * chunk <= i < 2 * chunk + 2) ==> #[trigger] final(out_scales)@[i] == old(out_scales)@[i],
{
    let chunk_base = chunk * 32;
    let mut lane: u32 = 0;
    while lane < 32
        invariant
            lane <= 32,
            lane % 2 == 0,
            codes@.len() == 32,
            forall|l: int| 0 <= l < 32 ==> #[trigger] codes@[l] < 16,
            group_scales@.len() == 2,
            chunk < 0x07ff_ffff,
            chunk_base == chunk * 32,
            out_fp4@.len() == old(out_fp4)@.len(),
            out_scales@.len() == old(out_scales)@.len(),
            16 * chunk + 16 <= out_fp4@.len(),
            2 * chunk + 2 <= out_scales@.len(),
            forall|j: int|
                0 <= j < lane / 2 ==> #[trigger] out_fp4@[16 * chunk + j] == fp4_pair_byte(
                    codes@[2 * j],
                    codes@[2 * j + 1],
                ),
            forall|i: int|
                0 <= i < out_fp4@.len() && !(16 * chunk <= i < 16 * chunk + lane / 2)
                    ==> #[trigger] out_fp4@[i] == old(out_fp4)@[i],
            forall|g: int|
                0 <= g < 2 && 16 * g < lane ==> #[trigger] out_scales@[2 * chunk + g]
                    == group_scales@[g],
            forall|i: int|
                0 <= i < out_scales@.len() && !(2 * chunk <= i < 2 * chunk + 2 && 16 * (i - 2
                    * chunk) < lane) ==> #[trigger] out_scales@[i] == old(out_scales)@[i],
        decreases 32 - lane,
    {
        let even = ms_eden_lane_stores(chunk, chunk_base, lane);
        if even.writes_scale {
            let scale = group_scales[(lane / MS_EDEN_GROUP_SIZE) as usize];
            out_scales.set(even.group as usize, scale);
        }
        if let Some(byte) = even.payload_byte {
            let packed = pack_fp4_pair(codes[lane as usize], codes[lane as usize + 1]);
            out_fp4.set(byte as usize, packed);
        }
        let odd = ms_eden_lane_stores(chunk, chunk_base, lane + 1);
        assert(!odd.writes_scale);
        assert(odd.payload_byte is None);
        lane = lane + 2;
    }
}

/// Chunks per output row of a planned tiled Eden kernel, from its shift or
/// multiplier argument; `None` for the other kernels.
pub open spec fn tiled_chunks_per_row(launch: MsEdenLaunch) -> Option<int> {
    match launch {
        MsEdenLaunch::NoChunkAmaxTiledPow2 { chunks_per_row_shift, .. } => Some(
            pow2(chunks_per_row_shift as nat) as int,
        ),
        MsEdenLaunch::NoChunkAmaxTiledRowMul { chunks_per_row, .. } => Some(chunks_per_row as int),
        _ => None,
    }
}

/// A planned tiled Eden kernel lays out the destination as the requantisation
/// asks. Such a kernel gets no destination row length: lane `lane` of the
/// block for source row chunk `block_x` writes output row `row` at position
/// `(row * chunks_per_row + block_x) * 32 + lane`, after reading source
/// element `(block_x * 32 + lane, row)`. The plan is tiled only when those
/// positions are element `(row, block_x * 32 + lane)` of destination rows of
/// `dst_row_len` values, the reads stay inside the `source_rows` source rows,
/// and the source rows hold `2^source_cols_shift` values.
pub proof fn lemma_eden_tiled_plan_layout(
    args: Nvfp4TransposeMsEdenDeviceScaleQuantArgs,
    pack: MsEdenPackGrid,
    row: int,
    block_x: int,
    lane: int,
)
    requires
        0 <= row,
        0 <= block_x,
        0 <= lane < 32,
    ensures
        tiled_chunks_per_row(ms_eden_no_chunk_amax_launch(args, pack)) matches Some(chunks_per_row)
            ==> {
            &&& chunks_per_row * 32 == args.dst_row_len
            &&& chunks_per_row * 32 == args.source_rows
            &&& (block_x < chunks_per_row ==> (row * chunks_per_row + block_x) * 32 + lane == row
                * args.dst_row_len + (block_x * 32 + lane) && block_x * 32 + lane
                < args.source_rows)
        },
        ms_eden_no_chunk_amax_launch(args, pack) matches MsEdenLaunch::NoChunkAmaxTiledPow2 {
            source_cols_shift,
            ..
        } ==> pow2(source_cols_shift as nat) == args.source_cols,
        ms_eden_no_chunk_amax_launch(args, pack) matches MsEdenLaunch::NoChunkAmaxTiledRowMul {
            source_cols_shift,
            ..
        } ==> pow2(source_cols_shift as nat) == args.source_cols,
{
    let launch = ms_eden_no_chunk_amax_launch(args, pack);
    if tiled_chunks_per_row(launch) is Some {
        assert(pack.exact && ms_eden_tiled(args));
        let chunks_per_row = (args.source_rows / 32) as u32;
        lemma_pow2_is_shifted_one(args.source_cols);
        let s = u32_trailing_zeros(args.source_cols);
        lemma_u32_pow2_no_overflow(s as nat);
        lemma_u32_shl_is_mul(1, s);
        if is_pow2(chunks_per_row) {
            lemma_pow2_is_shifted_one(chunks_per_row);
            let t = u32_trailing_zeros(chunks_per_row);
            lemma_u32_pow2_no_overflow(t as nat);
            lemma_u32_shl_is_mul(1, t);
        }
        let c = tiled_chunks_per_row(launch)->0;
        assert(c == chunks_per_row);
        assert(c * 32 == args.source_rows);
        if block_x < c {
            assert((row * c + block_x) * 32 + lane == row * (c * 32) + (block_x * 32 + lane)) by (
            nonlinear_arith);
        }
    }
}

/// Only the kernel that guards its chunk index against the pack grid's chunk
/// count runs on a grid with a partial chunk: the exact and tiled kernels,
/// which have no such guard, are planned only for an exact pack grid, and
/// every planned kernel gets the requantisation's own shape and seeds.
pub proof fn lemma_eden_plan_guards_partial_chunks(
    args: Nvfp4TransposeMsEdenDeviceScaleQuantArgs,
    pack: MsEdenPackGrid,
)
    ensures
        !pack.exact ==> ms_eden_no_chunk_amax_launch(args, pack) == (MsEdenLaunch::NoChunkAmax {
            chunk_count: pack.chunk_count,
            source_rows: args.source_rows,
            source_cols: args.source_cols,
            dst_row_len: args.dst_row_len,
            sign_seed: args.sign_seed,
            scale_seed: args.scale_seed,
        }),
        pack.exact ==> !(ms_eden_no_chunk_amax_launch(args, pack) is NoChunkAmax),
        ms_eden_no_chunk_amax_launch(args, pack) matches MsEdenLaunch::NoChunkAmaxExact {
            source_rows,
            source_cols,
            dst_row_len,
            sign_seed,
            scale_seed,
        } ==> source_rows == args.source_rows && source_cols == args.source_cols && dst_row_len
            == args.dst_row_len && sign_seed == args.sign_seed && scale_seed == args.scale_seed,
        ms_eden_no_chunk_amax_launch(args, pack) matches MsEdenLaunch::NoChunkAmaxTiledPow2 {
            sign_seed,
            scale_seed,
            ..
        } ==> sign_seed == args.sign_seed && scale_seed == args.scale_seed,
        ms_eden_no_chunk_amax_launch(args, pack) matches MsEdenLaunch::NoChunkAmaxTiledRowMul {
            sign_seed,
            scale_seed,
            ..
        } ==> sign_seed == args.sign_seed && scale_seed == args.scale_seed,
{
}

} // verus!
