use mos6502::cpu::{
    BREAK_FLAG, CARRY_FLAG, CPU, DECIMAL_FLAG, INTERRUPT_DISABLE_FLAG, NEGATIVE_FLAG,
    OVERFLOW_FLAG, ZERO_FLAG,
};

#[test]
fn test_adc_sets_carry_and_zero() {
    let mut cpu = CPU::new();
    cpu.load_and_run(vec![0xa9, 0xff, 0x69, 0x01, 0x00]).unwrap();
    assert_eq!(cpu.accumulator, 0x00);
    assert_eq!(cpu.status, CARRY_FLAG | ZERO_FLAG | BREAK_FLAG);
}

#[test]
fn test_adc_sets_overflow() {
    let mut cpu = CPU::new();
    cpu.load_and_run(vec![0xa9, 0x50, 0x69, 0x50, 0x00]).unwrap();
    assert_eq!(cpu.accumulator, 0xa0);
    assert_eq!(cpu.status, OVERFLOW_FLAG | NEGATIVE_FLAG | BREAK_FLAG);
}

#[test]
fn test_adc_twice_leaves_carry_clear() {
    let mut cpu = CPU::new();
    cpu.load_and_run(vec![0x69, 0x05, 0x69, 0x05, 0x00]).unwrap();
    assert_eq!(cpu.accumulator, 0x0a);
    assert!(cpu.status & CARRY_FLAG == 0);
}

#[test]
fn test_adc_consumes_incoming_carry() {
    let mut cpu = CPU::new();
    cpu.load_and_run(vec![0x38, 0xa9, 0x01, 0x69, 0x01, 0x00]).unwrap();
    assert_eq!(cpu.accumulator, 0x03);
}

#[test]
fn test_sbc_without_borrow() {
    let mut cpu = CPU::new();
    cpu.load_and_run(vec![0x38, 0xa9, 0x10, 0xe9, 0x05, 0x00]).unwrap();
    assert_eq!(cpu.accumulator, 0x0b);
    assert!(cpu.status & CARRY_FLAG != 0);
}

#[test]
fn test_sbc_underflow_borrows() {
    let mut cpu = CPU::new();
    cpu.load_and_run(vec![0xa9, 0x05, 0xe9, 0x10, 0x00]).unwrap();
    // With the carry clear an extra one is borrowed: 5 - 16 - 1 wraps.
    assert_eq!(cpu.accumulator, 0xf4);
    assert!(cpu.status & CARRY_FLAG == 0);
    assert!(cpu.status & NEGATIVE_FLAG != 0);
}

#[test]
fn test_cmp_equal_sets_zero_and_carry() {
    let mut cpu = CPU::new();
    cpu.load_and_run(vec![0xa9, 0x10, 0xc9, 0x10, 0x00]).unwrap();
    assert_eq!(cpu.status, ZERO_FLAG | CARRY_FLAG | BREAK_FLAG);
    assert_eq!(cpu.accumulator, 0x10);
}

#[test]
fn test_cmp_less_clears_carry() {
    let mut cpu = CPU::new();
    cpu.load_and_run(vec![0xa9, 0x10, 0xc9, 0x20, 0x00]).unwrap();
    assert_eq!(cpu.status, NEGATIVE_FLAG | BREAK_FLAG);
}

#[test]
fn test_cpx_greater_sets_carry() {
    let mut cpu = CPU::new();
    cpu.load_and_run(vec![0xa2, 0x05, 0xe0, 0x03, 0x00]).unwrap();
    assert_eq!(cpu.status, CARRY_FLAG | BREAK_FLAG);
}

#[test]
fn test_cpy_less_sets_negative() {
    let mut cpu = CPU::new();
    cpu.load_and_run(vec![0xa0, 0x02, 0xc0, 0x07, 0x00]).unwrap();
    assert_eq!(cpu.status, NEGATIVE_FLAG | BREAK_FLAG);
}

#[test]
fn test_lsr_shifts_into_carry() {
    let mut cpu = CPU::new();
    cpu.load_and_run(vec![0xa9, 0x01, 0x4a, 0x00]).unwrap();
    assert_eq!(cpu.accumulator, 0x00);
    assert_eq!(cpu.status, CARRY_FLAG | ZERO_FLAG | BREAK_FLAG);
}

#[test]
fn test_rol_takes_carry_in() {
    let mut cpu = CPU::new();
    cpu.load_and_run(vec![0x38, 0xa9, 0x40, 0x2a, 0x00]).unwrap();
    assert_eq!(cpu.accumulator, 0x81);
    assert_eq!(cpu.status, NEGATIVE_FLAG | BREAK_FLAG);
}

#[test]
fn test_ror_takes_carry_in() {
    let mut cpu = CPU::new();
    cpu.load_and_run(vec![0x38, 0xa9, 0x01, 0x6a, 0x00]).unwrap();
    assert_eq!(cpu.accumulator, 0x80);
    assert_eq!(cpu.status, CARRY_FLAG | NEGATIVE_FLAG | BREAK_FLAG);
}

#[test]
fn test_asl_on_memory() {
    let mut cpu = CPU::new();
    cpu.memory_write_byte(0x10, 0x81);
    cpu.load_and_run(vec![0x06, 0x10, 0x00]).unwrap();
    assert_eq!(cpu.memory_read_byte(0x10), 0x02);
    assert!(cpu.status & CARRY_FLAG != 0);
}

#[test]
fn test_inc_memory_wraps() {
    let mut cpu = CPU::new();
    cpu.memory_write_byte(0x10, 0xff);
    cpu.load_and_run(vec![0xe6, 0x10, 0x00]).unwrap();
    assert_eq!(cpu.memory_read_byte(0x10), 0x00);
    assert_eq!(cpu.status, ZERO_FLAG | BREAK_FLAG);
}

#[test]
fn test_dec_memory_wraps() {
    let mut cpu = CPU::new();
    cpu.load_and_run(vec![0xc6, 0x10, 0x00]).unwrap();
    assert_eq!(cpu.memory_read_byte(0x10), 0xff);
    assert_eq!(cpu.status, NEGATIVE_FLAG | BREAK_FLAG);
}

#[test]
fn test_dex_and_dey_wrap() {
    let mut cpu = CPU::new();
    cpu.load_and_run(vec![0xca, 0x88, 0x00]).unwrap();
    assert_eq!(cpu.register_x, 0xff);
    assert_eq!(cpu.register_y, 0xff);
    assert!(cpu.status & NEGATIVE_FLAG != 0);
}

#[test]
fn test_iny_twice() {
    let mut cpu = CPU::new();
    cpu.load_and_run(vec![0xc8, 0xc8, 0x00]).unwrap();
    assert_eq!(cpu.register_y, 0x02);
}

#[test]
fn test_bit_reads_operand_bits() {
    let mut cpu = CPU::new();
    cpu.memory_write_byte(0x20, 0xc0);
    cpu.load_and_run(vec![0xa9, 0x0f, 0x24, 0x20, 0x00]).unwrap();
    assert_eq!(
        cpu.status,
        ZERO_FLAG | NEGATIVE_FLAG | OVERFLOW_FLAG | BREAK_FLAG
    );
}

#[test]
fn test_load_store_zero_page() {
    let mut cpu = CPU::new();
    cpu.load_and_run(vec![0xa9, 0x2a, 0x85, 0x10, 0x00]).unwrap();
    assert_eq!(cpu.memory_read_byte(0x10), 0x2a);
    assert_eq!(cpu.accumulator, 0x2a);
}

#[test]
fn test_sta_absolute() {
    let mut cpu = CPU::new();
    cpu.load_and_run(vec![0xa9, 0x2a, 0x8d, 0x34, 0x12, 0x00]).unwrap();
    assert_eq!(cpu.memory_read_byte(0x1234), 0x2a);
}

#[test]
fn test_ldx_stx() {
    let mut cpu = CPU::new();
    cpu.load_and_run(vec![0xa2, 0x07, 0x86, 0x12, 0x00]).unwrap();
    assert_eq!(cpu.register_x, 0x07);
    assert_eq!(cpu.memory_read_byte(0x12), 0x07);
}

#[test]
fn test_ldy_sty() {
    let mut cpu = CPU::new();
    cpu.load_and_run(vec![0xa0, 0x08, 0x84, 0x13, 0x00]).unwrap();
    assert_eq!(cpu.register_y, 0x08);
    assert_eq!(cpu.memory_read_byte(0x13), 0x08);
}

#[test]
fn test_transfers_through_y() {
    let mut cpu = CPU::new();
    cpu.load_and_run(vec![0xa9, 0x33, 0xa8, 0xa9, 0x00, 0x98, 0xaa, 0x00]).unwrap();
    assert_eq!(cpu.register_y, 0x33);
    assert_eq!(cpu.accumulator, 0x33);
    assert_eq!(cpu.register_x, 0x33);
}

#[test]
fn test_txa() {
    let mut cpu = CPU::new();
    cpu.load_and_run(vec![0xa2, 0x44, 0x8a, 0x00]).unwrap();
    assert_eq!(cpu.accumulator, 0x44);
}

#[test]
fn test_tsx_reads_stack_pointer() {
    let mut cpu = CPU::new();
    cpu.load_and_run(vec![0xba, 0x00]).unwrap();
    assert_eq!(cpu.register_x, 0xff);
    assert!(cpu.status & NEGATIVE_FLAG != 0);
}

#[test]
fn test_txs_moves_pointer_without_flags() {
    let mut cpu = CPU::new();
    cpu.load_and_run(vec![0xa2, 0x20, 0x9a, 0x00]).unwrap();
    // The halt pushes three bytes from the freshly set pointer; the
    // transfer into the pointer itself touches no flag.
    assert_eq!(cpu.stack_pointer, 0x20 - 3);
    assert_eq!(cpu.status, BREAK_FLAG);
}

#[test]
fn test_flag_instructions_set() {
    let mut cpu = CPU::new();
    cpu.load_and_run(vec![0x38, 0xf8, 0x78, 0x00]).unwrap();
    assert_eq!(
        cpu.status,
        CARRY_FLAG | DECIMAL_FLAG | INTERRUPT_DISABLE_FLAG | BREAK_FLAG
    );
}

#[test]
fn test_flag_instructions_clear() {
    let mut cpu = CPU::new();
    cpu.load_and_run(vec![0x38, 0xf8, 0x78, 0x18, 0xd8, 0x58, 0x00]).unwrap();
    assert_eq!(cpu.status, BREAK_FLAG);
}

#[test]
fn test_clv_clears_overflow() {
    let mut cpu = CPU::new();
    cpu.load_and_run(vec![0xa9, 0x50, 0x69, 0x50, 0xb8, 0x00]).unwrap();
    assert_eq!(cpu.status, NEGATIVE_FLAG | BREAK_FLAG);
}

#[test]
fn test_eor() {
    let mut cpu = CPU::new();
    cpu.load_and_run(vec![0xa9, 0x0f, 0x49, 0xff, 0x00]).unwrap();
    assert_eq!(cpu.accumulator, 0xf0);
}

#[test]
fn test_ora() {
    let mut cpu = CPU::new();
    cpu.load_and_run(vec![0xa9, 0x0f, 0x09, 0xf0, 0x00]).unwrap();
    assert_eq!(cpu.accumulator, 0xff);
}

#[test]
fn test_zero_page_x_wraps_in_page() {
    let mut cpu = CPU::new();
    cpu.memory_write_byte(0x01, 0x44);
    cpu.load_and_run(vec![0xa2, 0x02, 0xb5, 0xff, 0x00]).unwrap();
    assert_eq!(cpu.accumulator, 0x44);
}

#[test]
fn test_absolute_y() {
    let mut cpu = CPU::new();
    cpu.memory_write_byte(0x1203, 0x55);
    cpu.load_and_run(vec![0xa0, 0x03, 0xb9, 0x00, 0x12, 0x00]).unwrap();
    assert_eq!(cpu.accumulator, 0x55);
}

#[test]
fn test_indirect_x() {
    let mut cpu = CPU::new();
    cpu.memory_write_2_byte(0x24, 0x1234);
    cpu.memory_write_byte(0x1234, 0x66);
    cpu.load_and_run(vec![0xa2, 0x04, 0xa1, 0x20, 0x00]).unwrap();
    assert_eq!(cpu.accumulator, 0x66);
}

#[test]
fn test_indirect_y() {
    let mut cpu = CPU::new();
    cpu.memory_write_2_byte(0x20, 0x1230);
    cpu.memory_write_byte(0x1234, 0x66);
    cpu.load_and_run(vec![0xa0, 0x04, 0xb1, 0x20, 0x00]).unwrap();
    assert_eq!(cpu.accumulator, 0x66);
}

#[test]
fn test_php_plp_round_trip() {
    let mut cpu = CPU::new();
    cpu.load_and_run(vec![0x38, 0x08, 0x18, 0x28, 0x00]).unwrap();
    // The pushed status had the carry set; clearing and popping restores it.
    assert_eq!(cpu.status, CARRY_FLAG | BREAK_FLAG);
}
