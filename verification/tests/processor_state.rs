use sigma16::condition_code::ConditionCode;
use sigma16::processor::{LoadError, Processor, State, MEMORY_SIZE};

#[test]
fn new_processor_is_zeroed_and_initialising() {
    let p = Processor::new();
    assert_eq!(p.state, State::Initialising);
    assert_eq!(p.registers.len(), 16);
    assert!(p.registers.iter().all(|&r| r == 0));
    assert_eq!(p.memory.len(), MEMORY_SIZE);
    assert!(p.memory.iter().all(|&w| w == 0));
    assert_eq!(p.pc, 0);
    assert_eq!(p.ir, 0);
    assert_eq!(p.adr, 0);
    assert_eq!(p.dat, 0);
    assert_eq!(p.mask, 0);
    assert_eq!(p.req, 0);
    assert_eq!(p.rstat, 0);
    assert_eq!(p.rpc, 0);
    assert_eq!(p.vect, 0);
    assert!(!p.sys);
    assert!(!p.ie);
}

#[test]
fn load_bytes_packs_big_endian_pairs() {
    let mut p = Processor::new();
    let result = p.load_bytes(vec![0x00, 0x01, 0x00, 0x02]);
    assert!(result.is_ok());
    assert_eq!(p.memory[0], 0x0001);
    assert_eq!(p.memory[1], 0x0002);
    assert_eq!(p.memory[2], 0x0000);
    assert_eq!(p.state, State::Ready);
}

#[test]
fn load_bytes_ignores_trailing_odd_byte() {
    let mut p = Processor::new();
    let result = p.load_bytes(vec![0x12, 0x34, 0xff]);
    assert!(result.is_ok());
    assert_eq!(p.memory[0], 0x1234);
    assert_eq!(p.memory[1], 0x0000);
}

#[test]
fn load_bytes_fills_memory_exactly() {
    let mut p = Processor::new();
    let mut bytes = vec![0u8; 2 * MEMORY_SIZE];
    bytes[2 * MEMORY_SIZE - 2] = 0xab;
    bytes[2 * MEMORY_SIZE - 1] = 0xcd;
    let result = p.load_bytes(bytes);
    assert!(result.is_ok());
    assert_eq!(p.memory[MEMORY_SIZE - 1], 0xabcd);
}

#[test]
fn load_bytes_refuses_oversized_stream_and_leaves_memory_zeroed() {
    let mut p = Processor::new();
    let result = p.load_bytes(vec![0xffu8; 2 * (MEMORY_SIZE + 1)]);
    assert_eq!(result, Err(LoadError::SizeExceeded));
    assert!(p.memory.iter().all(|&w| w == 0));
    assert_eq!(p.state, State::Initialising);
}

#[test]
fn load_bytes_keeps_prior_words_beyond_the_image() {
    let mut p = Processor::new();
    p.mem_write(5, 0xbeef);
    let result = p.load_bytes(vec![0x00, 0x07]);
    assert!(result.is_ok());
    assert_eq!(p.memory[0], 0x0007);
    assert_eq!(p.memory[5], 0xbeef);
}

#[test]
fn mem_write_then_read_round_trips() {
    let mut p = Processor::new();
    p.mem_write(0xffff, 0x1234);
    assert_eq!(p.mem_read(0xffff), 0x1234);
    assert_eq!(p.mem_read(0xfffe), 0);
}

#[test]
fn condition_code_bit_positions() {
    assert_eq!(ConditionCode::IntegerGreaterThan.bit_index(), 0);
    assert_eq!(ConditionCode::NaturalGreaterThan.bit_index(), 1);
    assert_eq!(ConditionCode::Equals.bit_index(), 2);
    assert_eq!(ConditionCode::NaturalLessThan.bit_index(), 3);
    assert_eq!(ConditionCode::IntegerLessThan.bit_index(), 4);
    assert_eq!(ConditionCode::IntegerOverflow.bit_index(), 5);
    assert_eq!(ConditionCode::NaturalOverflow.bit_index(), 6);
    assert_eq!(ConditionCode::Carry.bit_index(), 7);
    assert_eq!(ConditionCode::StackOverflow.bit_index(), 8);
    assert_eq!(ConditionCode::StackUnderflow.bit_index(), 9);
    assert_eq!(ConditionCode::LogicFunctionResult.bit_index(), 10);
}

#[test]
fn set_condition_code_touches_only_the_named_bit() {
    let mut p = Processor::new();
    p.set_condition_code(ConditionCode::Carry, true);
    assert_eq!(p.registers[15], 0x0080);
    p.set_condition_code(ConditionCode::Equals, true);
    assert_eq!(p.registers[15], 0x0084);
    p.set_condition_code(ConditionCode::Carry, false);
    assert_eq!(p.registers[15], 0x0004);
    p.set_condition_code(ConditionCode::Carry, false);
    assert_eq!(p.registers[15], 0x0004);
}

#[test]
fn set_register_bit_forces_one_bit() {
    let mut p = Processor::new();
    p.set_register_bit(3, 15, true);
    assert_eq!(p.registers[3], 0x8000);
    p.set_register_bit(3, 0, true);
    assert_eq!(p.registers[3], 0x8001);
    p.set_register_bit(3, 15, false);
    assert_eq!(p.registers[3], 0x0001);
    assert_eq!(p.registers[4], 0);
}

#[test]
fn run_and_halt_drive_the_lifecycle() {
    let mut p = Processor::new();
    assert!(!p.run());
    assert_eq!(p.state, State::Initialising);
    p.load_bytes(vec![0x01, 0x23]).unwrap();
    assert_eq!(p.state, State::Ready);
    assert!(p.run());
    assert_eq!(p.state, State::Executing);
    assert!(!p.run());
    p.halt();
    assert_eq!(p.state, State::Halt);
    assert!(!p.run());
    assert_eq!(p.state, State::Halt);
}

#[test]
fn halt_outside_executing_changes_nothing() {
    let mut p = Processor::new();
    p.halt();
    assert_eq!(p.state, State::Initialising);
}
