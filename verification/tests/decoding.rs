use sigma16::instruction::{decode, encode_rrr, get_opcode, get_type, Instruction, InstructionType};
use sigma16::util::read;

#[test]
fn read_splits_nibbles() {
    assert_eq!(read(0x0123), (0x0, 0x1, 0x2, 0x3));
    assert_eq!(read(0xfedc), (0xf, 0xe, 0xd, 0xc));
    assert_eq!(read(0x0000), (0, 0, 0, 0));
}

#[test]
fn decode_add_word() {
    assert_eq!(decode(0x0123, 0, 0), Instruction::Add(1, 2, 3));
}

#[test]
fn decode_rrr_opcodes() {
    assert_eq!(decode(0x1456, 0, 0), Instruction::Sub(4, 5, 6));
    assert_eq!(decode(0x2789, 0, 0), Instruction::Mul(7, 8, 9));
    assert_eq!(decode(0x3abc, 0, 0), Instruction::Div(0xa, 0xb, 0xc));
    assert_eq!(decode(0x4023, 0, 0), Instruction::Cmp(2, 3));
    assert_eq!(decode(0x5123, 0, 0), Instruction::Trap(1, 2, 3));
}

#[test]
fn decode_unrecognized_nibble_is_illegal_trap() {
    assert_eq!(decode(0x6123, 0, 0), Instruction::Trap(0, 0, 0));
    assert_eq!(decode(0x7fff, 0, 0), Instruction::Trap(0, 0, 0));
    assert_eq!(decode(0xd000, 0, 0), Instruction::Trap(0, 0, 0));
}

#[test]
fn decode_exp_jumps_take_full_target() {
    assert_eq!(decode(0xe010, 0x1234, 0), Instruction::Jump(0x1234));
    assert_eq!(decode(0xe130, 0x0010, 0), Instruction::Jumpc0(3, 0x0010));
    assert_eq!(decode(0xe230, 0x0010, 0), Instruction::Jumpc1(3, 0x0010));
    assert_eq!(decode(0xe340, 0x0200, 0), Instruction::Jal(4, 0x0200));
}

#[test]
fn decode_exp_unknown_secondary_is_illegal_trap() {
    assert_eq!(decode(0xe400, 0x1234, 0), Instruction::Trap(0, 0, 0));
}

#[test]
fn decode_rx_forms_effective_address() {
    // displacement in the second word plus the index-register value
    assert_eq!(decode(0xf120, 0x0100, 0x0020), Instruction::Lea(1, 0x0120));
    assert_eq!(decode(0xf121, 0x0100, 0x0020), Instruction::Load(1, 0x0120));
    assert_eq!(decode(0xf122, 0x0100, 0x0020), Instruction::Store(1, 0x0120));
}

#[test]
fn decode_rx_effective_address_wraps() {
    assert_eq!(decode(0xf120, 0xffff, 0x0002), Instruction::Lea(1, 0x0001));
}

#[test]
fn decode_rx_unknown_secondary_is_illegal_trap() {
    assert_eq!(decode(0xf123, 0x0100, 0), Instruction::Trap(0, 0, 0));
}

#[test]
fn get_type_selects_format_by_nibble() {
    assert_eq!(get_type(0x0123), InstructionType::RRR);
    assert_eq!(get_type(0xd000), InstructionType::RRR);
    assert_eq!(get_type(0xe123), InstructionType::EXP);
    assert_eq!(get_type(0xf123), InstructionType::RX);
}

#[test]
fn get_opcode_reports_first_word_nibble() {
    assert_eq!(get_opcode(Instruction::Add(1, 2, 3)), 0x0);
    assert_eq!(get_opcode(Instruction::Sub(1, 2, 3)), 0x1);
    assert_eq!(get_opcode(Instruction::Mul(1, 2, 3)), 0x2);
    assert_eq!(get_opcode(Instruction::Div(1, 2, 3)), 0x3);
    assert_eq!(get_opcode(Instruction::Cmp(1, 2)), 0x4);
    assert_eq!(get_opcode(Instruction::Trap(1, 2, 3)), 0x5);
    assert_eq!(get_opcode(Instruction::Lea(1, 2)), 0xf);
    assert_eq!(get_opcode(Instruction::Load(1, 2)), 0xf);
    assert_eq!(get_opcode(Instruction::Store(1, 2)), 0xf);
    assert_eq!(get_opcode(Instruction::Jump(2)), 0xe);
    assert_eq!(get_opcode(Instruction::Jumpc0(1, 2)), 0xe);
    assert_eq!(get_opcode(Instruction::Jumpc1(1, 2)), 0xe);
    assert_eq!(get_opcode(Instruction::Jal(1, 2)), 0xe);
}

#[test]
fn encode_rrr_assembles_word() {
    assert_eq!(encode_rrr(Instruction::Add(1, 2, 3)), Some(0x0123));
    assert_eq!(encode_rrr(Instruction::Sub(4, 5, 6)), Some(0x1456));
    assert_eq!(encode_rrr(Instruction::Cmp(2, 3)), Some(0x4023));
    assert_eq!(encode_rrr(Instruction::Trap(0, 0, 0)), Some(0x5000));
}

#[test]
fn encode_rrr_refuses_two_word_formats() {
    assert_eq!(encode_rrr(Instruction::Lea(1, 0x100)), None);
    assert_eq!(encode_rrr(Instruction::Jump(0x100)), None);
    assert_eq!(encode_rrr(Instruction::Jal(13, 0x100)), None);
}

#[test]
fn encode_rrr_refuses_out_of_range_operands() {
    assert_eq!(encode_rrr(Instruction::Add(16, 0, 0)), None);
    assert_eq!(encode_rrr(Instruction::Cmp(0, 0x100)), None);
}

#[test]
fn decode_then_encode_round_trips_rrr_words() {
    for word in [0x0123u16, 0x1abc, 0x2fff, 0x3000, 0x4023, 0x5678, 0x0000, 0x5fff] {
        let decoded = decode(word, 0, 0);
        assert_eq!(encode_rrr(decoded), Some(word));
    }
}
