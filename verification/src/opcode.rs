use vstd::prelude::*;
use crate::addressing::AddressingMode;

verus! {

/// One row of the opcode table: the opcode byte, its mnemonic, the
/// instruction length in bytes (opcode byte included), the base cycle
/// cost, and the addressing mode.
pub struct OpCode {
    pub opcode: u8,
    pub name: String,
    pub bytes: u8,
    pub cycles: u8,
    pub addr_mode: AddressingMode,
}

impl OpCode {
    /// Build a table row from its five components.
    pub fn new(opcode: u8, name: String, bytes: u8, cycles: u8, addr_mode: AddressingMode) -> (op:
        OpCode)
        ensures
            op.opcode == opcode,
            op.name == name,
            op.bytes == bytes,
            op.cycles == cycles,
            op.addr_mode == addr_mode,
    {
        OpCode { opcode, name, bytes, cycles, addr_mode }
    }
}

/// The opcode table as a mapping: instruction length, base cycle cost, and
/// addressing mode of every opcode byte the core implements; `None` for
/// every byte it does not. This mapping is the authoritative source of
/// instruction lengths for program-counter advancement.
pub open spec fn spec_decode(code: u8) -> Option<(u8, u8, AddressingMode)> {
    match code {
        0x00 => Option::Some((1, 7, AddressingMode::NoneAddressing)),
        0xAA => Option::Some((1, 2, AddressingMode::NoneAddressing)),
        0xE8 => Option::Some((1, 2, AddressingMode::NoneAddressing)),
        0xA9 => Option::Some((2, 2, AddressingMode::Immediate)),
        0xA5 => Option::Some((2, 3, AddressingMode::ZeroPage)),
        0xB5 => Option::Some((2, 4, AddressingMode::ZeroPage_X)),
        0xAD => Option::Some((3, 4, AddressingMode::Absolute)),
        0xBD => Option::Some((3, 4, AddressingMode::Absolute_X)),
        0xB9 => Option::Some((3, 4, AddressingMode::Absolute_Y)),
        0xA1 => Option::Some((2, 6, AddressingMode::Indirect_X)),
        0xB1 => Option::Some((2, 5, AddressingMode::Indirect_Y)),
        0x85 => Option::Some((2, 3, AddressingMode::ZeroPage)),
        0x95 => Option::Some((2, 4, AddressingMode::ZeroPage_X)),
        _ => Option::None,
    }
}

/// Mnemonic of every opcode byte the table implements.
pub open spec fn spec_mnemonic(code: u8) -> Seq<char>
    recommends
        spec_decode(code) is Some,
{
    match code {
        0x00 => "BRK"@,
        0xAA => "TAX"@,
        0xE8 => "INX"@,
        0x85 | 0x95 => "STA"@,
        _ => "LDA"@,
    }
}

/// A table row carries an implemented opcode byte, and its mnemonic,
/// length, cycle cost, and addressing mode agree with the table mapping.
pub open spec fn spec_row_ok(op: OpCode, code: u8) -> bool {
    &&& op.opcode == code
    &&& spec_decode(code) == Option::Some((op.bytes, op.cycles, op.addr_mode))
    &&& op.name@ == spec_mnemonic(code)
}

/// Decode one opcode byte against the table. Returns the row whose fields
/// agree with the table mapping, or `None` for an unimplemented byte.
pub fn lookup_opcode(code: u8) -> (r: Option<OpCode>)
    ensures
        match r {
            Option::Some(op) => spec_row_ok(op, code),
            Option::None => spec_decode(code) is None,
        },
{
    match code {
        0x00 => Some(OpCode::new(0x00, "BRK".to_owned(), 1, 7, AddressingMode::NoneAddressing)),
        0xAA => Some(OpCode::new(0xAA, "TAX".to_owned(), 1, 2, AddressingMode::NoneAddressing)),
        0xE8 => Some(OpCode::new(0xE8, "INX".to_owned(), 1, 2, AddressingMode::NoneAddressing)),
        0xA9 => Some(OpCode::new(0xA9, "LDA".to_owned(), 2, 2, AddressingMode::Immediate)),
        0xA5 => Some(OpCode::new(0xA5, "LDA".to_owned(), 2, 3, AddressingMode::ZeroPage)),
        0xB5 => Some(OpCode::new(0xB5, "LDA".to_owned(), 2, 4, AddressingMode::ZeroPage_X)),
        0xAD => Some(OpCode::new(0xAD, "LDA".to_owned(), 3, 4, AddressingMode::Absolute)),
        0xBD => Some(OpCode::new(0xBD, "LDA".to_owned(), 3, 4, AddressingMode::Absolute_X)),
        0xB9 => Some(OpCode::new(0xB9, "LDA".to_owned(), 3, 4, AddressingMode::Absolute_Y)),
        0xA1 => Some(OpCode::new(0xA1, "LDA".to_owned(), 2, 6, AddressingMode::Indirect_X)),
        0xB1 => Some(OpCode::new(0xB1, "LDA".to_owned(), 2, 5, AddressingMode::Indirect_Y)),
        0x85 => Some(OpCode::new(0x85, "STA".to_owned(), 2, 3, AddressingMode::ZeroPage)),
        0x95 => Some(OpCode::new(0x95, "STA".to_owned(), 2, 4, AddressingMode::ZeroPage_X)),
        _ => None,
    }
}

/// The opcode bytes the table implements, in table order.
pub open spec fn spec_table_codes() -> Seq<u8> {
    seq![0x00u8, 0xAAu8, 0xE8u8, 0xA9u8, 0xA5u8, 0xB5u8, 0xADu8, 0xBDu8, 0xB9u8, 0xA1u8, 0xB1u8, 0x85u8, 0x95u8]
}

/// The opcode table as data, one row per implemented opcode byte: every
/// row agrees with the table mapping, and every byte the mapping covers
/// has a row. Built afresh on each call and immutable thereafter.
pub fn cpu_ops_codes() -> (table: Vec<OpCode>)
    ensures
        table@.len() == spec_table_codes().len(),
        forall|i: int| 0 <= i < table@.len() ==> spec_row_ok(
            #[trigger] table@[i],
            spec_table_codes()[i],
        ),
        forall|code: u8| spec_decode(code) is Some ==> spec_table_codes().contains(code),
{
    let mut table: Vec<OpCode> = Vec::new();
    table.push(lookup_opcode(0x00).unwrap());
    table.push(lookup_opcode(0xAA).unwrap());
    table.push(lookup_opcode(0xE8).unwrap());
    table.push(lookup_opcode(0xA9).unwrap());
    table.push(lookup_opcode(0xA5).unwrap());
    table.push(lookup_opcode(0xB5).unwrap());
    table.push(lookup_opcode(0xAD).unwrap());
    table.push(lookup_opcode(0xBD).unwrap());
    table.push(lookup_opcode(0xB9).unwrap());
    table.push(lookup_opcode(0xA1).unwrap());
    table.push(lookup_opcode(0xB1).unwrap());
    table.push(lookup_opcode(0x85).unwrap());
    table.push(lookup_opcode(0x95).unwrap());
    proof {
        assert forall|code: u8| spec_decode(code) is Some implies spec_table_codes().contains(
            code,
        ) by {
            let codes = spec_table_codes();
            if code == 0x00 {
                assert(codes[0] == code);
            } else if code == 0xAA {
                assert(codes[1] == code);
            } else if code == 0xE8 {
                assert(codes[2] == code);
            } else if code == 0xA9 {
                assert(codes[3] == code);
            } else if code == 0xA5 {
                assert(codes[4] == code);
            } else if code == 0xB5 {
                assert(codes[5] == code);
            } else if code == 0xAD {
                assert(codes[6] == code);
            } else if code == 0xBD {
                assert(codes[7] == code);
            } else if code == 0xB9 {
                assert(codes[8] == code);
            } else if code == 0xA1 {
                assert(codes[9] == code);
            } else if code == 0xB1 {
                assert(codes[10] == code);
            } else if code == 0x85 {
                assert(codes[11] == code);
            } else {
                assert(code == 0x95);
                assert(codes[12] == code);
            }
        }
    }
    table
}

} // verus!
