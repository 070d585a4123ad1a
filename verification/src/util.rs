//! Sign extension of instruction fields to the full 16-bit word.

use vstd::prelude::*;
use vstd::arithmetic::power2::{lemma2_to64, pow2};
use vstd::bits::lemma_usize_shl_is_mul;

verus! {

/// Whether bit `index` of `x` is set; bit 0 is the least significant.
pub open spec fn bit_is_set(x: u16, index: usize) -> bool {
    (x >> index) & 1 == 1
}

/// The word obtained by copying bit `bit_count - 1` of `x` into every bit
/// above it. Bits below `bit_count` are those of `x`.
pub open spec fn spec_sign_extend(x: u16, bit_count: usize) -> u16 {
    if 1 <= bit_count < 16 && bit_is_set(x, (bit_count - 1) as usize) {
        x | (0xFFFFu16 << bit_count)
    } else {
        x
    }
}

/// The integer that a word stands for when read as two's complement.
pub open spec fn signed_value(x: u16) -> int {
    if x >= 0x8000 {
        x - 0x1_0000
    } else {
        x as int
    }
}

/// The integer that a field of `bit_count` bits stands for when read as
/// two's complement: from `-2^(bit_count - 1)` up to `2^(bit_count - 1) - 1`.
pub open spec fn field_value(field: u16, bit_count: usize) -> int
    recommends
        1 <= bit_count <= 16,
        field < pow2(bit_count as nat),
{
    if field >= pow2((bit_count - 1) as nat) {
        field - pow2(bit_count as nat)
    } else {
        field as int
    }
}

/// Extends the two's-complement field held in the low `bit_count` bits of `x`
/// to a full word.
pub fn sign_extend(x: u16, bit_count: usize) -> (result: u16)
    requires
        1 <= bit_count <= 16,
    ensures
        result == spec_sign_extend(x, bit_count),
{
    if bit_count < 16 && ((x >> (bit_count - 1)) & 1) == 1 {
        x | (0xFFFFu16 << bit_count)
    } else {
        x
    }
}

/// Where the sign bit of the field is set, every bit of the extended word at
/// or above position `bit_count` is set; where it is clear, the extended word
/// is `x`. Below position `bit_count` the extended word has the bits of `x`
/// in either case.
pub proof fn lemma_sign_extend_bits(x: u16, bit_count: usize, index: usize)
    requires
        1 <= bit_count <= 16,
        index < 16,
    ensures
        bit_is_set(x, (bit_count - 1) as usize) && index >= bit_count ==> bit_is_set(
            spec_sign_extend(x, bit_count),
            index,
        ),
        !bit_is_set(x, (bit_count - 1) as usize) ==> spec_sign_extend(x, bit_count) == x,
        index < bit_count ==> bit_is_set(spec_sign_extend(x, bit_count), index) == bit_is_set(
            x,
            index,
        ),
{
    if bit_count < 16 {
        assert(((x | (0xFFFFu16 << bit_count)) >> index) & 1 == (if index >= bit_count {
            1u16
        } else {
            (x >> index) & 1
        })) by (bit_vector)
            requires
                bit_count < 16,
                index < 16,
        ;
    }
}

/// Sign extension keeps the number: the extended word, read as a 16-bit
/// two's-complement number, is the number that the field stood for.
pub proof fn lemma_sign_extend_keeps_value(field: u16, bit_count: usize)
    requires
        1 <= bit_count <= 16,
        field < pow2(bit_count as nat),
    ensures
        signed_value(spec_sign_extend(field, bit_count)) == field_value(field, bit_count),
{
    lemma2_to64();
    let below = (bit_count - 1) as usize;
    lemma_usize_shl_is_mul(1usize, below);
    if bit_count < 16 {
        lemma_usize_shl_is_mul(1usize, bit_count);
        assert({
            &&& ((field >> below) & 1 == 1) == (field >= (1usize << below))
            &&& field >= (1usize << below) ==> (field | (0xFFFFu16 << bit_count)) == field
                + 0x1_0000 - (1usize << bit_count)
            &&& field >= (1usize << below) ==> (field | (0xFFFFu16 << bit_count)) >= 0x8000
            &&& field < (1usize << below) ==> field < 0x8000
        }) by (bit_vector)
            requires
                1 <= bit_count < 16,
                below == bit_count - 1,
                field < (1usize << bit_count),
        ;
    }
}

} // verus!
