use mos6502::cpu::CPU;

#[test]
fn mod_test_5_ops_working_together() {
    let mut cpu = CPU::new();
    cpu.load_and_run(vec![0xa9, 0xc0, 0xaa, 0xe8, 0x00]).unwrap();

    assert_eq!(cpu.register_x, 0xc1)
}

#[test]
fn test_relative_subtract_addressing_mode() {
    let mut cpu = CPU::new();
    cpu.load_and_run(vec![0x90, 0b1001_1010, 0x00]).unwrap();
    // The displacement byte is two's complement: 0b1001_1010 is -102 from
    // the instruction that follows the branch, and the halt on the zeroed
    // byte there advances the counter once more.
    assert_eq!(cpu.program_counter, 0x8003 - 102);
}

#[test]
fn test_relative_add_addressing_mode() {
    let mut cpu = CPU::new();
    cpu.load_and_run(vec![0x90, 0b0001_1010, 0x00]).unwrap();
    assert_eq!(cpu.program_counter, 0x8003 + 0b0001_1010);
}
