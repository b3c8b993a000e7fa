use mos6502::AddressingMode;
use mos6502::CPU;
use mos6502::OpCode;
use mos6502::cpu_ops_codes;
use mos6502::lookup_opcode;

#[test]
fn test_opcode_new_fields() {
    let op = OpCode::new(0xa9, "LDA".to_string(), 2, 2, AddressingMode::Immediate);
    assert_eq!(op.opcode, 0xa9);
    assert_eq!(op.name, "LDA");
    assert_eq!(op.bytes, 2);
    assert_eq!(op.cycles, 2);
    assert_eq!(op.addr_mode, AddressingMode::Immediate);
}

#[test]
fn test_opcode_table_contents() {
    let table = cpu_ops_codes();
    assert_eq!(table.len(), 13);
    let brk = table.iter().find(|op| op.opcode == 0x00).unwrap();
    assert_eq!(brk.name, "BRK");
    assert_eq!(brk.bytes, 1);
    assert_eq!(brk.cycles, 7);
    assert_eq!(brk.addr_mode, AddressingMode::NoneAddressing);
    let lda_abs = table.iter().find(|op| op.opcode == 0xad).unwrap();
    assert_eq!(lda_abs.name, "LDA");
    assert_eq!(lda_abs.bytes, 3);
    assert_eq!(lda_abs.cycles, 4);
    assert_eq!(lda_abs.addr_mode, AddressingMode::Absolute);
    let sta_zpx = table.iter().find(|op| op.opcode == 0x95).unwrap();
    assert_eq!(sta_zpx.name, "STA");
    assert_eq!(sta_zpx.bytes, 2);
    assert_eq!(sta_zpx.addr_mode, AddressingMode::ZeroPage_X);
}

#[test]
fn test_lookup_unimplemented_opcode() {
    assert!(lookup_opcode(0x02).is_none());
    assert!(lookup_opcode(0xff).is_none());
}

#[test]
fn test_resolver_zero_page_modes_wrap() {
    let mut cpu = CPU::new();
    cpu.program_counter = 0x8000;
    cpu.mem_write(0x8000, 0xff);
    cpu.register_x = 1;
    cpu.register_y = 2;
    assert_eq!(cpu.get_operand_address(&AddressingMode::Immediate), 0x8000);
    assert_eq!(cpu.get_operand_address(&AddressingMode::ZeroPage), 0x00ff);
    // the zero-page indexed modes wrap within the zero page
    assert_eq!(cpu.get_operand_address(&AddressingMode::ZeroPage_X), 0x0000);
    assert_eq!(cpu.get_operand_address(&AddressingMode::ZeroPage_Y), 0x0001);
}

#[test]
fn test_resolver_absolute_modes() {
    let mut cpu = CPU::new();
    cpu.program_counter = 0x8000;
    cpu.mem_write_u16(0x8000, 0x1234);
    cpu.register_x = 5;
    cpu.register_y = 0xff;
    assert_eq!(cpu.get_operand_address(&AddressingMode::Absolute), 0x1234);
    assert_eq!(cpu.get_operand_address(&AddressingMode::Absolute_X), 0x1239);
    assert_eq!(cpu.get_operand_address(&AddressingMode::Absolute_Y), 0x1333);
}

#[test]
fn test_resolver_indirect_modes() {
    let mut cpu = CPU::new();
    cpu.program_counter = 0x8000;
    cpu.mem_write(0x8000, 0x20);
    cpu.register_x = 4;
    cpu.register_y = 2;
    cpu.mem_write(0x24, 0x74);
    cpu.mem_write(0x25, 0x20);
    assert_eq!(cpu.get_operand_address(&AddressingMode::Indirect_X), 0x2074);
    cpu.mem_write(0x20, 0x00);
    cpu.mem_write(0x21, 0x30);
    assert_eq!(cpu.get_operand_address(&AddressingMode::Indirect_Y), 0x3002);
}
