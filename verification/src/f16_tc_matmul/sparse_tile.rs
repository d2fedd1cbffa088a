use vstd::prelude::*;

use super::cta_tile::{CTA_M, CTA_N};

verus! {

/// `a / b` rounded up.
pub open spec fn ceil_div(a: int, b: int) -> int {
    (a + b - 1) / b
}

/// `ceil_div(a, b)` is the fewest blocks of `b` that hold `a` items: enough
/// blocks, and one fewer would not be.
pub proof fn lemma_ceil_div_is_fewest_blocks(a: int, b: int)
    requires
        a >= 0,
        b > 0,
    ensures
        ceil_div(a, b) >= 0,
        ceil_div(a, b) * b >= a,
        (ceil_div(a, b) - 1) * b < a || ceil_div(a, b) == 0,
{
    let q = ceil_div(a, b);
    vstd::arithmetic::div_mod::lemma_fundamental_div_mod(a + b - 1, b);
    vstd::arithmetic::div_mod::lemma_mod_bound(a + b - 1, b);
    assert(q * b == (a + b - 1) - (a + b - 1) % b) by (nonlinear_arith)
        requires
            a + b - 1 == b * q + (a + b - 1) % b,
    ;
    assert(q >= 0) by {
        vstd::arithmetic::div_mod::lemma_div_pos_is_pos(a + b - 1, b);
    }
    assert((q - 1) * b == q * b - b) by (nonlinear_arith);
}

/// `a / b` rounded up, without overflow for any `a`.
pub fn div_ceil_u32(a: u32, b: u32) -> (q: u32)
    requires
        b > 0,
    ensures
        q == ceil_div(a as int, b as int),
{
    let q = a / b;
    proof {
        let r = a as int % b as int;
        vstd::arithmetic::div_mod::lemma_fundamental_div_mod(a as int, b as int);
        assert(0 <= r < b);
        assert(q as int * b <= a) by (nonlinear_arith)
            requires
                a as int == b * (q as int) + r,
                r >= 0,
        ;
        assert(q as int * b + b - 1 <= u32::MAX + b - 1) ;
        if r != 0 {
            assert((a + b - 1) / (b as int) == q + 1) by (nonlinear_arith)
                requires
                    a as int == b * (q as int) + r,
                    0 < r < b,
            {
                vstd::arithmetic::div_mod::lemma_fundamental_div_mod_converse(
                    a + b - 1,
                    b as int,
                    q + 1,
                    r - 1,
                );
            }
            assert(q < u32::MAX) by (nonlinear_arith)
                requires
                    a as int == b * (q as int) + r,
                    0 < r,
                    b > 0,
                    a <= u32::MAX,
            ;
        } else {
            assert((a + b - 1) / (b as int) == q as int) by (nonlinear_arith)
                requires
                    a as int == b * (q as int),
                    b > 0,
            {
                vstd::arithmetic::div_mod::lemma_fundamental_div_mod_converse(
                    a + b - 1,
                    b as int,
                    q as int,
                    b - 1,
                );
            }
        }
    }
    if a % b != 0 {
        q + 1
    } else {
        q
    }
}

/// Number of `CTA_M`-row attention tiles along a sequence of `seq_len` tokens.
pub open spec fn attention_tiles(seq_len: int) -> int {
    ceil_div(seq_len, CTA_M as int)
}

pub fn attention_tile_count(seq_len: u32) -> (tiles: u32)
    ensures
        tiles == attention_tiles(seq_len as int),
{
    div_ceil_u32(seq_len, CTA_M)
}

/// Index into the per-tile scale map of the tile holding query `query_base` and
/// key `key_base` of head `batch_head`: the map is `[batch_head][query_tile][key_tile]`.
pub open spec fn attention_tile_index(
    batch_head: int,
    seq_len: int,
    query_base: int,
    key_base: int,
) -> int {
    let tiles = attention_tiles(seq_len);
    (batch_head * tiles + query_base / (CTA_M as int)) * tiles + key_base / (CTA_N as int)
}

/// Reads the scale of the attention tile that holds query `query_base` and key
/// `key_base` of head `batch_head`.
pub fn attention_tile_scale<T: Copy>(
    scales: &[T],
    batch_head: u32,
    seq_len: u32,
    query_base: u32,
    key_base: u32,
) -> (scale: T)
    requires
        query_base < seq_len,
        key_base < seq_len,
        (batch_head + 1) * attention_tiles(seq_len as int) * attention_tiles(seq_len as int)
            <= scales@.len(),
        (batch_head + 1) * attention_tiles(seq_len as int) * attention_tiles(seq_len as int)
            <= u32::MAX,
    ensures
        scale == scales@[attention_tile_index(
            batch_head as int,
            seq_len as int,
            query_base as int,
            key_base as int,
        )],
{
    let tiles = attention_tile_count(seq_len);
    let query_tile = query_base / CTA_M;
    let key_tile = key_base / CTA_N;
    proof {
        let t = tiles as int;
        let b = batch_head as int;
        let q = query_tile as int;
        let k = key_tile as int;
        assert(q < t && k < t);
        assert(0 <= b * t <= b * t + q) by (nonlinear_arith)
            requires
                b >= 0,
                t >= 0,
                q >= 0,
        ;
        assert((b * t + q) * t + k < (b + 1) * t * t) by (nonlinear_arith)
            requires
                b >= 0,
                0 <= q < t,
                0 <= k < t,
        ;
        assert(b * t + q <= (b * t + q) * t) by (nonlinear_arith)
            requires
                b * t + q >= 0,
                t >= 1,
        ;
    }
    let index = ((batch_head * tiles + query_tile) * tiles + key_tile) as usize;
    scales[index]
}

} // verus!
