//! Reading single bits and bit fields out of a 16-bit protocol word.

use vstd::prelude::*;

verus! {

/// Whether bit `bit_position` (0 is the least significant) of `word` is set.
pub open spec fn bit_set(word: u16, bit_position: u8) -> bool {
    (word >> (bit_position as u16)) & 1u16 == 1u16
}

/// The bits of `word` selected by `mask` once `word` is shifted right by `bit_position`.
pub open spec fn field(word: u16, bit_position: u8, mask: u16) -> u16 {
    (word >> (bit_position as u16)) & mask
}

/// A masked field is never larger than its mask.
pub proof fn lemma_field_le_mask(word: u16, bit_position: u8, mask: u16)
    ensures
        field(word, bit_position, mask) <= mask,
{
    let p = bit_position as u16;
    assert((word >> p) & mask <= mask) by (bit_vector);
}

/// Whether the bit at `bit_position` of `word` is set.
pub fn extract_flag(word: u16, bit_position: u8) -> (r: bool)
    requires
        bit_position < 16,
    ensures
        r == bit_set(word, bit_position),
{
    let shifted = word >> (bit_position as u16);
    assert((shifted & 1u16 != 0u16) == (shifted & 1u16 == 1u16)) by (bit_vector);
    (shifted & 1) != 0
}

/// The field of `word` that starts at `bit_position`, masked by `mask`.
pub fn extract_field(word: u16, bit_position: u8, mask: u16) -> (r: u16)
    requires
        bit_position < 16,
    ensures
        r == field(word, bit_position, mask),
{
    (word >> (bit_position as u16)) & mask
}

} // verus!
