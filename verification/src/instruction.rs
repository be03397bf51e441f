//! Instruction formats, the decoder, and the encoder for the
//! single-word (RRR) format.
//!
//! The opcode nibble of the first word selects the format: 0x0-0xD is RRR
//! (three register nibbles), 0xE is EXP (a secondary opcode in the dest
//! nibble; the second word carries a full 16-bit target), and 0xF is RX
//! (a secondary opcode in the b nibble; the second word carries a
//! displacement that is combined with an index register to form an
//! effective address). Decoding never fails: unrecognized encodings
//! decode to `Trap(0, 0, 0)`, the illegal-instruction trap.

use vstd::prelude::*;
use crate::util::{opcode_field, dest_field, a_field, b_field, word_of, lemma_fields_bounded};

verus! {

/// A decoded instruction. Register-index operands are 4-bit values held
/// in a `u16`; address/constant operands are full 16-bit words. In the
/// two-word formats the address operand is already resolved by the
/// decoder: for RX it is the effective address, for EXP the jump target.
/// `Jumpc0`/`Jumpc1` carry the condition-code bit they test, and `Jal`
/// the register that receives the return address.
#[derive(Clone, Copy, Debug, PartialEq, Eq, Structural)]
pub enum Instruction {
    Add(u16, u16, u16),
    Sub(u16, u16, u16),
    Mul(u16, u16, u16),
    Div(u16, u16, u16),
    Cmp(u16, u16),
    Trap(u16, u16, u16),
    Lea(u16, u16),
    Load(u16, u16),
    Store(u16, u16),
    Jump(u16),
    Jumpc0(u16, u16),
    Jumpc1(u16, u16),
    Jal(u16, u16),
}

/// The three instruction-word formats.
#[derive(Clone, Copy, Debug, PartialEq, Eq, Structural)]
pub enum InstructionType {
    RRR,
    EXP,
    RX,
}

/// The format selected by an instruction word's opcode nibble.
pub open spec fn spec_get_type(word: u16) -> InstructionType {
    if opcode_field(word) == 0xe {
        InstructionType::EXP
    } else if opcode_field(word) == 0xf {
        InstructionType::RX
    } else {
        InstructionType::RRR
    }
}

/// Whether decoding `word` consumes a second word from the instruction
/// stream (the EXP and RX formats do; RRR does not).
pub open spec fn two_word(word: u16) -> bool {
    spec_get_type(word) != InstructionType::RRR
}

/// Classifies an instruction word into its format by the opcode nibble.
pub fn get_type(word: u16) -> (t: InstructionType)
    ensures
        t == spec_get_type(word),
{
    match (word & 0xf000) >> 12 {
        0xe => InstructionType::EXP,
        0xf => InstructionType::RX,
        _ => InstructionType::RRR,
    }
}

/// The effective address of a two-word instruction: the displacement in
/// the second word plus the index-register value, wrapped to 16 bits.
pub open spec fn effective_address(displacement: u16, index: u16) -> u16 {
    word_of(displacement + index)
}

/// Decoding of a first word in RRR format, from its four nibbles.
pub open spec fn spec_decode_rrr(op: u16, d: u16, a: u16, b: u16) -> Instruction {
    if op == 0x0 {
        Instruction::Add(d, a, b)
    } else if op == 0x1 {
        Instruction::Sub(d, a, b)
    } else if op == 0x2 {
        Instruction::Mul(d, a, b)
    } else if op == 0x3 {
        Instruction::Div(d, a, b)
    } else if op == 0x4 {
        Instruction::Cmp(a, b)
    } else if op == 0x5 {
        Instruction::Trap(d, a, b)
    } else {
        Instruction::Trap(0, 0, 0)
    }
}

/// Decoding of an EXP instruction: the secondary opcode is the dest
/// nibble, `a` names a condition-code bit or a link register, and the
/// second word is the full 16-bit jump target.
pub open spec fn spec_decode_exp(secondary: u16, a: u16, target: u16) -> Instruction {
    if secondary == 0x0 {
        Instruction::Jump(target)
    } else if secondary == 0x1 {
        Instruction::Jumpc0(a, target)
    } else if secondary == 0x2 {
        Instruction::Jumpc1(a, target)
    } else if secondary == 0x3 {
        Instruction::Jal(a, target)
    } else {
        Instruction::Trap(0, 0, 0)
    }
}

/// Decoding of an RX instruction: the secondary opcode is the b nibble,
/// `d` the destination register, `ea` the resolved effective address.
pub open spec fn spec_decode_rx(secondary: u16, d: u16, ea: u16) -> Instruction {
    if secondary == 0x0 {
        Instruction::Lea(d, ea)
    } else if secondary == 0x1 {
        Instruction::Load(d, ea)
    } else if secondary == 0x2 {
        Instruction::Store(d, ea)
    } else {
        Instruction::Trap(0, 0, 0)
    }
}

/// The instruction denoted by first word `word`, second word `next`
/// (ignored for the RRR format) and index-register value `index` (the
/// value of the register named by the a nibble; used only for the RX
/// effective address).
pub open spec fn spec_decode(word: u16, next: u16, index: u16) -> Instruction {
    if opcode_field(word) == 0xe {
        spec_decode_exp(dest_field(word), a_field(word), next)
    } else if opcode_field(word) == 0xf {
        spec_decode_rx(b_field(word), dest_field(word), effective_address(next, index))
    } else {
        spec_decode_rrr(opcode_field(word), dest_field(word), a_field(word), b_field(word))
    }
}

/// Well-formedness of a decoded instruction: every register-index
/// operand and condition-bit operand is below 16, so that it can index
/// the register file or shift a word.
pub open spec fn instr_wf(instr: Instruction) -> bool {
    match instr {
        Instruction::Add(d, a, b) => d < 16 && a < 16 && b < 16,
        Instruction::Sub(d, a, b) => d < 16 && a < 16 && b < 16,
        Instruction::Mul(d, a, b) => d < 16 && a < 16 && b < 16,
        Instruction::Div(d, a, b) => d < 16 && a < 16 && b < 16,
        Instruction::Cmp(a, b) => a < 16 && b < 16,
        Instruction::Trap(d, a, b) => d < 16 && a < 16 && b < 16,
        Instruction::Lea(d, _) => d < 16,
        Instruction::Load(d, _) => d < 16,
        Instruction::Store(d, _) => d < 16,
        Instruction::Jump(_) => true,
        Instruction::Jumpc0(bit, _) => bit < 16,
        Instruction::Jumpc1(bit, _) => bit < 16,
        Instruction::Jal(d, _) => d < 16,
    }
}

/// Decoding always yields a well-formed instruction.
pub proof fn lemma_decode_wf(word: u16, next: u16, index: u16)
    ensures
        instr_wf(spec_decode(word, next, index)),
{
    lemma_fields_bounded(word);
}

/// Decodes an instruction. `word` is the first instruction word, `next`
/// the following word of the instruction stream (ignored for the RRR
/// format), and `index` the value of the register named by `word`'s a
/// nibble, used to form the RX effective address.
pub fn decode(word: u16, next: u16, index: u16) -> (instr: Instruction)
    ensures
        instr == spec_decode(word, next, index),
        instr_wf(instr),
{
    proof {
        lemma_decode_wf(word, next, index);
    }
    let (opcode, dest, a, b) = crate::util::read(word);
    match opcode {
        0x0 => Instruction::Add(dest, a, b),
        0x1 => Instruction::Sub(dest, a, b),
        0x2 => Instruction::Mul(dest, a, b),
        0x3 => Instruction::Div(dest, a, b),
        0x4 => Instruction::Cmp(a, b),
        0x5 => Instruction::Trap(dest, a, b),
        0xe => match dest {
            0x0 => Instruction::Jump(next),
            0x1 => Instruction::Jumpc0(a, next),
            0x2 => Instruction::Jumpc1(a, next),
            0x3 => Instruction::Jal(a, next),
            _ => Instruction::Trap(0, 0, 0),
        },
        0xf => {
            let ea: u16 = ((next as u32 + index as u32) % 0x10000) as u16;
            match b {
                0x0 => Instruction::Lea(dest, ea),
                0x1 => Instruction::Load(dest, ea),
                0x2 => Instruction::Store(dest, ea),
                _ => Instruction::Trap(0, 0, 0),
            }
        },
        _ => Instruction::Trap(0, 0, 0),
    }
}

/// The opcode nibble of the first word an instruction encodes to:
/// its RRR opcode, or the format selector 0xE (EXP) or 0xF (RX).
pub open spec fn spec_get_opcode(instr: Instruction) -> u16 {
    match instr {
        Instruction::Add(_, _, _) => 0x0,
        Instruction::Sub(_, _, _) => 0x1,
        Instruction::Mul(_, _, _) => 0x2,
        Instruction::Div(_, _, _) => 0x3,
        Instruction::Cmp(_, _) => 0x4,
        Instruction::Trap(_, _, _) => 0x5,
        Instruction::Lea(_, _) => 0xf,
        Instruction::Load(_, _) => 0xf,
        Instruction::Store(_, _) => 0xf,
        Instruction::Jump(_) => 0xe,
        Instruction::Jumpc0(_, _) => 0xe,
        Instruction::Jumpc1(_, _) => 0xe,
        Instruction::Jal(_, _) => 0xe,
    }
}

/// The opcode nibble of the first word `instr` encodes to.
pub fn get_opcode(instr: Instruction) -> (opcode: u16)
    ensures
        opcode == spec_get_opcode(instr),
{
    match instr {
        Instruction::Add(_, _, _) => 0x0,
        Instruction::Sub(_, _, _) => 0x1,
        Instruction::Mul(_, _, _) => 0x2,
        Instruction::Div(_, _, _) => 0x3,
        Instruction::Cmp(_, _) => 0x4,
        Instruction::Trap(_, _, _) => 0x5,
        Instruction::Lea(_, _) => 0xf,
        Instruction::Load(_, _) => 0xf,
        Instruction::Store(_, _) => 0xf,
        Instruction::Jump(_) => 0xe,
        Instruction::Jumpc0(_, _) => 0xe,
        Instruction::Jumpc1(_, _) => 0xe,
        Instruction::Jal(_, _) => 0xe,
    }
}

/// The word assembled from four nibble values.
pub open spec fn assemble(op: u16, d: u16, a: u16, b: u16) -> u16
    recommends
        op < 16,
        d < 16,
        a < 16,
        b < 16,
{
    (op << 12) | (d << 8) | (a << 4) | b
}

/// The single instruction word an RRR-format instruction encodes to:
/// `Some` exactly for the RRR opcodes with all operand nibbles in
/// range, `None` for the two-word formats and out-of-range operands.
/// `Cmp` encodes with a zero dest nibble.
pub open spec fn spec_encode_rrr(instr: Instruction) -> Option<u16> {
    match instr {
        Instruction::Add(d, a, b) => if d < 16 && a < 16 && b < 16 {
            Some(assemble(0x0, d, a, b))
        } else {
            None
        },
        Instruction::Sub(d, a, b) => if d < 16 && a < 16 && b < 16 {
            Some(assemble(0x1, d, a, b))
        } else {
            None
        },
        Instruction::Mul(d, a, b) => if d < 16 && a < 16 && b < 16 {
            Some(assemble(0x2, d, a, b))
        } else {
            None
        },
        Instruction::Div(d, a, b) => if d < 16 && a < 16 && b < 16 {
            Some(assemble(0x3, d, a, b))
        } else {
            None
        },
        Instruction::Cmp(a, b) => if a < 16 && b < 16 {
            Some(assemble(0x4, 0, a, b))
        } else {
            None
        },
        Instruction::Trap(d, a, b) => if d < 16 && a < 16 && b < 16 {
            Some(assemble(0x5, d, a, b))
        } else {
            None
        },
        _ => None,
    }
}

/// Encodes an RRR-format instruction into its single instruction word;
/// `None` for the two-word formats and for out-of-range operands.
pub fn encode_rrr(instr: Instruction) -> (word: Option<u16>)
    ensures
        word == spec_encode_rrr(instr),
{
    match instr {
        Instruction::Add(d, a, b) => if d < 16 && a < 16 && b < 16 {
            Some((0x0u16 << 12) | (d << 8) | (a << 4) | b)
        } else {
            None
        },
        Instruction::Sub(d, a, b) => if d < 16 && a < 16 && b < 16 {
            Some((0x1u16 << 12) | (d << 8) | (a << 4) | b)
        } else {
            None
        },
        Instruction::Mul(d, a, b) => if d < 16 && a < 16 && b < 16 {
            Some((0x2u16 << 12) | (d << 8) | (a << 4) | b)
        } else {
            None
        },
        Instruction::Div(d, a, b) => if d < 16 && a < 16 && b < 16 {
            Some((0x3u16 << 12) | (d << 8) | (a << 4) | b)
        } else {
            None
        },
        Instruction::Cmp(a, b) => if a < 16 && b < 16 {
            Some((0x4u16 << 12) | (0u16 << 8) | (a << 4) | b)
        } else {
            None
        },
        Instruction::Trap(d, a, b) => if d < 16 && a < 16 && b < 16 {
            Some((0x5u16 << 12) | (d << 8) | (a << 4) | b)
        } else {
            None
        },
        _ => None,
    }
}

/// Decoding a word of a recognized RRR opcode and then re-encoding the
/// decoded instruction yields the word again. `Cmp` drops its dest
/// nibble, so for opcode 0x4 the law asks that the nibble be zero.
pub proof fn lemma_rrr_round_trip(w: u16)
    requires
        opcode_field(w) <= 0x5,
        opcode_field(w) == 0x4 ==> dest_field(w) == 0,
    ensures
        spec_encode_rrr(spec_decode(w, 0, 0)) == Some(w),
{
    lemma_fields_bounded(w);
    assert(((((w & 0xf000) >> 12) << 12) | (((w & 0x0f00) >> 8) << 8) | (((w & 0x00f0) >> 4)
        << 4) | (w & 0x000f)) == w) by (bit_vector);
}

} // verus!
