use vstd::prelude::*;
use vstd::arithmetic::power2::pow2;
use vstd::bits::{
    lemma_u32_low_bits_mask_is_mod, lemma_u32_pow2_no_overflow, lemma_u32_shl_is_mul,
    lemma_u32_shr_is_div, low_bits_mask,
};
use vstd::std_specs::bits::{axiom_u32_trailing_zeros, u32_trailing_zeros};

verus! {

/// Whether `x` is a power of two: exactly one bit set.
pub open spec fn is_pow2(x: u32) -> bool {
    x != 0 && x & ((x - 1) as u32) == 0
}

/// Reports whether `x` is a power of two.
pub fn is_power_of_two(x: u32) -> (pow2: bool)
    ensures
        pow2 == is_pow2(x),
{
    x != 0 && x & (x - 1) == 0
}

/// A power of two is one shifted left by its trailing zeros.
pub proof fn lemma_pow2_is_shifted_one(x: u32)
    requires
        is_pow2(x),
    ensures
        u32_trailing_zeros(x) < 32,
        x == 1u32 << u32_trailing_zeros(x),
{
    axiom_u32_trailing_zeros(x);
    let t = u32_trailing_zeros(x);
    assert(x != 0 && x & ((x - 1) as u32) == 0 && t < 32 && (x >> t) & 1u32 == 1u32 ==> x == 1u32 << t)
        by (bit_vector);
}

/// For a power of two `x`, shifting right by its trailing zeros divides by `x`
/// and masking with `x - 1` takes the remainder.
pub proof fn lemma_pow2_shift_mask(value: u32, x: u32)
    requires
        is_pow2(x),
    ensures
        value >> u32_trailing_zeros(x) == value / x,
        value & ((x - 1) as u32) == value % x,
{
    lemma_pow2_is_shifted_one(x);
    let t = u32_trailing_zeros(x);
    lemma_u32_pow2_no_overflow(t as nat);
    lemma_u32_shl_is_mul(1, t);
    assert(x == pow2(t as nat));
    lemma_u32_shr_is_div(value, t);
    lemma_u32_low_bits_mask_is_mod(value, t as nat);
}

} // verus!
