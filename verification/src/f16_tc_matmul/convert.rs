use vstd::prelude::*;

verus! {

/// Two half-precision bit patterns packed little-endian into one 32-bit word.
pub open spec fn pack_f16x2(lo: u16, hi: u16) -> u32 {
    (lo as u32) | ((hi as u32) << 16u32)
}

/// Low half of a packed pair.
pub open spec fn packed_lo(packed: u32) -> u16 {
    (packed & 0xffffu32) as u16
}

/// High half of a packed pair.
pub open spec fn packed_hi(packed: u32) -> u16 {
    (packed >> 16u32) as u16
}

/// Unpacking a packed pair gives back both halves.
pub proof fn lemma_pack_f16x2_roundtrip(lo: u16, hi: u16)
    ensures
        packed_lo(pack_f16x2(lo, hi)) == lo,
        packed_hi(pack_f16x2(lo, hi)) == hi,
{
    assert(((lo as u32) | ((hi as u32) << 16u32)) & 0xffffu32 == lo as u32) by (bit_vector);
    assert(((lo as u32) | ((hi as u32) << 16u32)) >> 16u32 == hi as u32) by (bit_vector);
}

/// Packing the two halves of a word gives back the word.
pub proof fn lemma_unpack_f16x2_roundtrip(packed: u32)
    ensures
        pack_f16x2(packed_lo(packed), packed_hi(packed)) == packed,
{
    assert(((packed & 0xffffu32) as u16 as u32) | (((packed >> 16u32) as u16 as u32) << 16u32)
        == packed) by (bit_vector);
}

/// Reads the element pair `src[index]`, `src[index + 1]` as one packed word.
pub fn load_f16x2_global_bits(src: &[u16], index: usize) -> (packed: u32)
    requires
        index + 1 < src@.len(),
    ensures
        packed == pack_f16x2(src@[index as int], src@[index as int + 1]),
{
    let lo = src[index];
    let hi = src[index + 1];
    (lo as u32) | ((hi as u32) << 16u32)
}

/// Read-only-path variant of [`load_f16x2_global_bits`]; same value.
pub fn load_f16x2_global_bits_read_only(src: &[u16], index: usize) -> (packed: u32)
    requires
        index + 1 < src@.len(),
    ensures
        packed == pack_f16x2(src@[index as int], src@[index as int + 1]),
{
    load_f16x2_global_bits(src, index)
}

/// Reads one half-precision bit pattern.
pub fn load_f16_global_bits_read_only(src: &[u16], index: usize) -> (bits: u16)
    requires
        index < src@.len(),
    ensures
        bits == src@[index as int],
{
    src[index]
}

/// Writes a packed pair to `dst[index]` and `dst[index + 1]`.
pub fn store_f16x2_shared(dst: &mut Vec<u16>, index: usize, packed: u32)
    requires
        index + 1 < old(dst)@.len(),
    ensures
        final(dst)@ == old(dst)@.update(index as int, packed_lo(packed)).update(
            index as int + 1,
            packed_hi(packed),
        ),
{
    let len = dst.len();
    assert(index + 1 < len);
    dst[index] = (packed & 0xffffu32) as u16;
    dst[index + 1] = (packed >> 16u32) as u16;
}

} // verus!
