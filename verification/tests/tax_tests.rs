use mos6502::cpu::CPU;

#[test]
fn tax_tests_test_0xaa_tax_move_a_to_x() {
    let mut cpu = CPU::new();
    cpu.load_and_run(vec![0xaa, 0x00]).unwrap();

    assert_eq!(cpu.register_x, 0)
}
