use mos6502::cpu::{BREAK_FLAG, CPU, NEGATIVE_FLAG, ZERO_FLAG};

#[test]
fn test_immediate_and() {
    let mut cpu = CPU::new();
    cpu.load_and_run(vec![0x29, 0b1111_1111, 0x00]).unwrap();
    assert_eq!(cpu.accumulator, 0x00);
    // The halt on the final break instruction additionally sets the break
    // flag in the live status byte.
    assert_eq!(cpu.status, ZERO_FLAG | BREAK_FLAG);
}

#[test]
fn test_immediate_lda_immediate_and() {
    let mut cpu = CPU::new();
    cpu.load_and_run(vec![0xa9, 0b1001_1111, 0x29, 0b1111_1111, 0x00]).unwrap();
    assert_eq!(cpu.accumulator, 0b1001_1111);
    assert_eq!(cpu.status, NEGATIVE_FLAG | BREAK_FLAG);
}

#[test]
fn test_zeropage_lda_zeropage_and_immediate() {
    let mut cpu = CPU::new();
    cpu.memory_write_byte(0x55, 0b1001_1111);
    cpu.load_and_run(vec![0xa5, 0x55, 0x29, 0b0000_1010, 0x00]).unwrap();
    assert_eq!(cpu.accumulator, 0b0000_1010);
}

#[test]
fn test_zeropage_lda_zeropage_and_zeropage() {
    let mut cpu = CPU::new();
    cpu.memory_write_byte(0x55, 0b1001_1111);
    cpu.memory_write_byte(0xff, 0b1001_1011);
    cpu.load_and_run(vec![0xa5, 0x55, 0x25, 0xff, 0x00]).unwrap();
    assert_eq!(cpu.accumulator, 0b1001_1011);
}
