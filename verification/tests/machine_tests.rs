use mos6502::cpu::{AddressingMode, CPU, RunError};
use mos6502::opcode::{get_opcode_with_code, Instruction, OpCode};

#[test]
fn test_new_machine_is_cleared() {
    let cpu = CPU::new();
    assert_eq!(cpu.accumulator, 0);
    assert_eq!(cpu.register_x, 0);
    assert_eq!(cpu.register_y, 0);
    assert_eq!(cpu.status, 0);
    assert_eq!(cpu.program_counter, 0);
    assert_eq!(cpu.stack_pointer, 0);
    assert_eq!(cpu.memory_read_byte(0x0000), 0);
    assert_eq!(cpu.memory_read_byte(0x1234), 0);
    assert_eq!(cpu.memory_read_byte(0xffff), 0);
}

#[test]
fn test_memory_word_round_trip() {
    let mut cpu = CPU::new();
    cpu.memory_write_2_byte(0x10, 0x1234);
    assert_eq!(cpu.memory_read_byte(0x10), 0x34);
    assert_eq!(cpu.memory_read_byte(0x11), 0x12);
    assert_eq!(cpu.memory_read_2_byte(0x10), 0x1234);
}

#[test]
fn test_memory_word_wraps_at_top() {
    let mut cpu = CPU::new();
    cpu.memory_write_byte(0xffff, 0x34);
    cpu.memory_write_byte(0x0000, 0x12);
    assert_eq!(cpu.memory_read_2_byte(0xffff), 0x1234);
}

#[test]
fn test_load_sets_reset_vector() {
    let mut cpu = CPU::new();
    cpu.load(vec![0xa9, 0x05, 0x00]);
    assert_eq!(cpu.memory_read_2_byte(0xfffc), 0x8000);
    assert_eq!(cpu.memory_read_byte(0x8000), 0xa9);
    assert_eq!(cpu.memory_read_byte(0x8001), 0x05);
    cpu.reset();
    assert_eq!(cpu.program_counter, 0x8000);
    assert_eq!(cpu.stack_pointer, 0xff);
    assert_eq!(cpu.status, 0);
}

#[test]
fn test_unknown_opcode_faults() {
    let mut cpu = CPU::new();
    let result = cpu.load_and_run(vec![0x02]);
    assert_eq!(
        result,
        Err(RunError::UnknownOpcode { opcode: 0x02, address: 0x8000 })
    );
    assert_eq!(cpu.program_counter, 0x8000);
}

#[test]
fn test_unknown_opcode_mid_program() {
    let mut cpu = CPU::new();
    let result = cpu.load_and_run(vec![0xa9, 0x07, 0x02]);
    assert_eq!(
        result,
        Err(RunError::UnknownOpcode { opcode: 0x02, address: 0x8002 })
    );
    assert_eq!(cpu.accumulator, 0x07);
}

#[test]
fn test_opcode_table_lookup() {
    let op = get_opcode_with_code(0xa9).unwrap();
    assert_eq!(op.get_code(), 0xa9);
    assert_eq!(op.get_bytes(), 2);
    assert_eq!(op.get_cycles(), 2);
    assert!(matches!(op.get_instruction(), Instruction::LDA));
    assert!(matches!(op.get_addressing_mode(), AddressingMode::Immediate));
}

#[test]
fn test_opcode_table_unknown_byte() {
    assert!(get_opcode_with_code(0x02).is_none());
    assert!(get_opcode_with_code(0xff).is_none());
}

#[test]
fn test_opcode_new_getters() {
    let op = OpCode::new(Instruction::NOP, 0xea, 1, 2, AddressingMode::Implied);
    assert_eq!(op.get_code(), 0xea);
    assert_eq!(op.get_bytes(), 1);
    assert_eq!(op.get_cycles(), 2);
    assert!(matches!(op.get_instruction(), Instruction::NOP));
    assert!(matches!(op.get_addressing_mode(), AddressingMode::Implied));
}

#[test]
fn test_inx_wraps_exactly_once() {
    let mut cpu = CPU::new();
    let mut program = vec![0xe8; 256];
    program.push(0x00);
    cpu.load_and_run(program).unwrap();
    assert_eq!(cpu.register_x, 0x00);
}

#[test]
fn test_stack_round_trip() {
    let mut cpu = CPU::new();
    cpu.load_and_run(vec![0xa9, 0x42, 0x48, 0xa9, 0x99, 0x68, 0x00]).unwrap();
    // Push the accumulator, overwrite it, pop it back: the pushed value
    // returns and the pointer is where it started (the final halt then
    // pushes three more bytes).
    assert_eq!(cpu.accumulator, 0x42);
    assert_eq!(cpu.stack_pointer, 0xff - 3);
}

#[test]
fn test_jsr_rts() {
    let mut cpu = CPU::new();
    cpu.load_and_run(vec![
        0x20, 0x06, 0x80, // jsr to the subroutine below
        0xa9, 0x05, // on return: load 5
        0x00, // halt
        0xa9, 0x09, // the subroutine: load 9
        0x60, // return
    ])
    .unwrap();
    assert_eq!(cpu.accumulator, 0x05);
    assert_eq!(cpu.program_counter, 0x8006);
    assert_eq!(cpu.stack_pointer, 0xff - 3);
}

#[test]
fn test_jmp_absolute() {
    let mut cpu = CPU::new();
    cpu.load_and_run(vec![
        0x4c, 0x05, 0x80, // jump over the next load
        0xa9, 0xff, // skipped
        0xa9, 0x07, // executed
        0x00,
    ])
    .unwrap();
    assert_eq!(cpu.accumulator, 0x07);
}

#[test]
fn test_jmp_indirect() {
    let mut cpu = CPU::new();
    cpu.memory_write_2_byte(0x0010, 0x8005);
    cpu.load_and_run(vec![
        0x6c, 0x10, 0x00, // jump through the pointer at 0x0010
        0xa9, 0xff, // skipped
        0xa9, 0x07, // executed
        0x00,
    ])
    .unwrap();
    assert_eq!(cpu.accumulator, 0x07);
}

#[test]
fn test_branch_not_taken_advances() {
    let mut cpu = CPU::new();
    cpu.load_and_run(vec![0x38, 0x90, 0x05, 0x00]).unwrap();
    // With the carry set, the carry-clear branch falls through: the counter
    // advances by exactly the two-byte instruction length, and the halt one
    // byte further on leaves it at 0x8004.
    assert_eq!(cpu.program_counter, 0x8004);
}

#[test]
fn test_countdown_loop() {
    let mut cpu = CPU::new();
    cpu.load_and_run(vec![
        0xa2, 0x03, // load X with 3
        0xca, // decrement X
        0xd0, 0xfd, // branch back to the decrement while X is not zero
        0x00,
    ])
    .unwrap();
    assert_eq!(cpu.register_x, 0x00);
    assert_eq!(cpu.program_counter, 0x8006);
}

#[test]
fn test_adc_called_directly() {
    let mut cpu = CPU::new();
    cpu.memory_write_byte(0x0300, 0x07);
    cpu.program_counter = 0x0300;
    cpu.adc(&AddressingMode::Immediate);
    assert_eq!(cpu.accumulator, 0x07);
}

#[test]
fn test_run_without_load() {
    let mut cpu = CPU::new();
    cpu.memory_write_byte(0x0200, 0xe8);
    cpu.memory_write_byte(0x0201, 0x00);
    cpu.program_counter = 0x0200;
    cpu.run().unwrap();
    assert_eq!(cpu.register_x, 1);
    assert_eq!(cpu.program_counter, 0x0202);
}
