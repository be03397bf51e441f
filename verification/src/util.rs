//! Word-level helpers: nibble extraction from instruction words, wrapping
//! to the 16-bit range, and single-bit views of a word.

use vstd::prelude::*;

verus! {

/// The opcode nibble (bits 12-15) of an instruction word.
pub open spec fn opcode_field(word: u16) -> u16 {
    (word & 0xf000) >> 12
}

/// The destination-register nibble (bits 8-11) of an instruction word.
pub open spec fn dest_field(word: u16) -> u16 {
    (word & 0x0f00) >> 8
}

/// The first operand nibble (bits 4-7) of an instruction word.
pub open spec fn a_field(word: u16) -> u16 {
    (word & 0x00f0) >> 4
}

/// The second operand nibble (bits 0-3) of an instruction word.
pub open spec fn b_field(word: u16) -> u16 {
    word & 0x000f
}

/// The 16-bit word that a mathematical integer wraps to.
pub open spec fn word_of(n: int) -> u16 {
    (n % 0x10000) as u16
}

/// Bit `i` of `word`, as 0 or 1.
pub open spec fn bit_of(word: u16, i: u16) -> u16
    recommends
        i < 16,
{
    (word >> i) & 1
}

/// Splits an instruction word into its four nibbles
/// (opcode, dest, a, b), highest first.
pub fn read(word: u16) -> (fields: (u16, u16, u16, u16))
    ensures
        fields.0 == opcode_field(word),
        fields.1 == dest_field(word),
        fields.2 == a_field(word),
        fields.3 == b_field(word),
{
    ((word & 0xf000) >> 12, (word & 0x0f00) >> 8, (word & 0x00f0) >> 4, word & 0x000f)
}

/// Every nibble of an instruction word is a value below 16.
pub proof fn lemma_fields_bounded(word: u16)
    ensures
        opcode_field(word) < 16,
        dest_field(word) < 16,
        a_field(word) < 16,
        b_field(word) < 16,
{
    assert((word & 0xf000) >> 12 < 16) by (bit_vector);
    assert((word & 0x0f00) >> 8 < 16) by (bit_vector);
    assert((word & 0x00f0) >> 4 < 16) by (bit_vector);
    assert(word & 0x000f < 16) by (bit_vector);
}

} // verus!
