use mos6502::CPU;
use mos6502::RunError;

#[test]
fn test_0xa9_lda_immediate_load_data() {
    let mut cpu = CPU::new();
    cpu.load_and_run(vec![0xa9, 0x05, 0x00]).unwrap();
    assert_eq!(cpu.register_a, 0x05);
    assert!(cpu.status & 0b0000_0010 == 0b00);
    assert!(cpu.status & 0b1000_0000 == 0)
}

#[test]
fn test_0xa9_lda_zero_flag() {
    let mut cpu = CPU::new();
    cpu.load_and_run(vec![0xa9, 0x00, 0x00]).unwrap();
    assert!(cpu.status & 0b0000_0010 == 0b10)
}

#[test]
fn test_0xaa_tax_move_a_to_x() {
    let mut cpu = CPU::new();
    cpu.load(vec![0xaa, 0x00]);
    cpu.reset();
    cpu.register_a = 10;
    cpu.run().unwrap();

    assert_eq!(cpu.register_x, 10)
}

#[test]
fn test_5_ops_working_together() {
    let mut cpu = CPU::new();
    cpu.load_and_run(vec![0xa9, 0xc0, 0xaa, 0xe8, 0x00]).unwrap();

    assert_eq!(cpu.register_x, 0xc1)
}

#[test]
fn test_inx_overflow() {
    let mut cpu = CPU::new();
    cpu.load(vec![0xe8, 0xe8, 0x00]);
    cpu.reset();
    cpu.register_x = 0xff;
    cpu.run().unwrap();
    assert_eq!(cpu.register_x, 1)
}

#[test]
fn test_lda_from_memory() {
    let mut cpu = CPU::new();
    cpu.mem_write(0x10, 0x55);

    cpu.load_and_run(vec![0xa5, 0x10, 0x00]).unwrap();

    assert_eq!(cpu.register_a, 0x55);
}

#[test]
fn test_new_cpu_is_zeroed() {
    let cpu = CPU::new();
    assert_eq!(cpu.register_a, 0);
    assert_eq!(cpu.register_x, 0);
    assert_eq!(cpu.register_y, 0);
    assert_eq!(cpu.status, 0);
    assert_eq!(cpu.program_counter, 0);
    assert_eq!(cpu.mem_read(0x0000), 0);
    assert_eq!(cpu.mem_read(0x8000), 0);
    assert_eq!(cpu.mem_read(0xffff), 0);
}

#[test]
fn test_flag_update_preserves_other_bits() {
    let mut cpu = CPU::new();
    cpu.load(vec![0xaa, 0x00]);
    cpu.reset();
    cpu.status = 0xff;
    cpu.register_a = 5;
    cpu.run().unwrap();
    // TAX on a nonzero, non-negative value clears ZERO and NEGATIVE and
    // leaves the other six status bits alone.
    assert_eq!(cpu.status, 0b0111_1101);
}

#[test]
fn test_lda_negative_flag() {
    let mut cpu = CPU::new();
    cpu.load_and_run(vec![0xa9, 0x80, 0x00]).unwrap();
    assert_eq!(cpu.register_a, 0x80);
    assert!(cpu.status & 0b1000_0000 != 0);
    assert!(cpu.status & 0b0000_0010 == 0);
}

#[test]
fn test_inx_wrap_sets_zero_flag() {
    let mut cpu = CPU::new();
    cpu.load(vec![0xe8, 0x00]);
    cpu.reset();
    cpu.register_x = 0xff;
    cpu.run().unwrap();
    assert_eq!(cpu.register_x, 0x00);
    assert!(cpu.status & 0b0000_0010 != 0);
}

#[test]
fn test_reset_preserves_register_y() {
    let mut cpu = CPU::new();
    cpu.load(vec![0x00]);
    cpu.register_y = 7;
    cpu.register_a = 3;
    cpu.register_x = 4;
    cpu.status = 0xc3;
    cpu.reset();
    // reset clears the accumulator, X, and the status flags, points the
    // program counter at the reset vector's target, and leaves Y alone.
    assert_eq!(cpu.register_y, 7);
    assert_eq!(cpu.register_a, 0);
    assert_eq!(cpu.register_x, 0);
    assert_eq!(cpu.status, 0);
    assert_eq!(cpu.program_counter, 0x8000);
}

#[test]
fn test_write16_read16_roundtrip() {
    let mut cpu = CPU::new();
    cpu.mem_write_u16(0x1234, 0xbeef);
    assert_eq!(cpu.mem_read_u16(0x1234), 0xbeef);
    assert_eq!(cpu.mem_read(0x1234), 0xef);
    assert_eq!(cpu.mem_read(0x1235), 0xbe);
}

#[test]
fn test_word_access_wraps_at_top_of_memory() {
    let mut cpu = CPU::new();
    cpu.mem_write_u16(0xffff, 0xabcd);
    assert_eq!(cpu.mem_read(0xffff), 0xcd);
    assert_eq!(cpu.mem_read(0x0000), 0xab);
    assert_eq!(cpu.mem_read_u16(0xffff), 0xabcd);
}

#[test]
fn test_zero_page_x_wraps_within_zero_page() {
    let mut cpu = CPU::new();
    cpu.mem_write(0x0000, 0x77);
    cpu.load(vec![0xb5, 0xff, 0x00]);
    cpu.reset();
    cpu.register_x = 1;
    cpu.run().unwrap();
    // pointer byte 0xff plus index 1 wraps to 0x00, never 0x100
    assert_eq!(cpu.register_a, 0x77);
}

#[test]
fn test_sta_zero_page() {
    let mut cpu = CPU::new();
    cpu.load_and_run(vec![0xa9, 0x33, 0x85, 0x20, 0x00]).unwrap();
    assert_eq!(cpu.mem_read(0x20), 0x33);
    assert_eq!(cpu.register_a, 0x33);
}

#[test]
fn test_sta_zero_page_x() {
    let mut cpu = CPU::new();
    cpu.load_and_run(vec![0xa9, 0x01, 0xaa, 0xa9, 0x33, 0x95, 0x10, 0x00]).unwrap();
    assert_eq!(cpu.mem_read(0x11), 0x33);
}

#[test]
fn test_lda_absolute() {
    let mut cpu = CPU::new();
    cpu.mem_write(0x2010, 0x99);
    cpu.load_and_run(vec![0xad, 0x10, 0x20, 0x00]).unwrap();
    assert_eq!(cpu.register_a, 0x99);
}

#[test]
fn test_lda_absolute_x() {
    let mut cpu = CPU::new();
    cpu.mem_write(0x2005, 0x42);
    cpu.load_and_run(vec![0xa9, 0x05, 0xaa, 0xbd, 0x00, 0x20, 0x00]).unwrap();
    assert_eq!(cpu.register_a, 0x42);
}

#[test]
fn test_lda_absolute_y() {
    let mut cpu = CPU::new();
    cpu.mem_write(0x2003, 0x66);
    cpu.load(vec![0xb9, 0x00, 0x20, 0x00]);
    cpu.reset();
    cpu.register_y = 3;
    cpu.run().unwrap();
    assert_eq!(cpu.register_a, 0x66);
}

#[test]
fn test_lda_indirect_x() {
    let mut cpu = CPU::new();
    cpu.mem_write(0x24, 0x74);
    cpu.mem_write(0x25, 0x20);
    cpu.mem_write(0x2074, 0x4a);
    cpu.load(vec![0xa1, 0x20, 0x00]);
    cpu.reset();
    cpu.register_x = 4;
    cpu.run().unwrap();
    assert_eq!(cpu.register_a, 0x4a);
}

#[test]
fn test_lda_indirect_y() {
    let mut cpu = CPU::new();
    cpu.mem_write(0x10, 0x00);
    cpu.mem_write(0x11, 0x30);
    cpu.mem_write(0x3002, 0x5d);
    cpu.load(vec![0xb1, 0x10, 0x00]);
    cpu.reset();
    cpu.register_y = 2;
    cpu.run().unwrap();
    assert_eq!(cpu.register_a, 0x5d);
}

#[test]
fn test_unknown_opcode_is_a_distinct_error() {
    let mut cpu = CPU::new();
    cpu.load(vec![0xff]);
    cpu.reset();
    let outcome = cpu.run();
    assert_eq!(outcome, Err(RunError::UnknownOpcode(0xff)));
}

#[test]
fn test_interpret_leaves_state_untouched() {
    let mut cpu = CPU::new();
    cpu.register_a = 5;
    cpu.interpret(vec![0xa9, 0x00]);
    assert_eq!(cpu.register_a, 5);
    assert_eq!(cpu.program_counter, 0);
}
