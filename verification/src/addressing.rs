use vstd::prelude::*;
use crate::machine::MEM_SIZE;
use crate::machine::spec_read16;
use crate::machine::wrap_add16;
use crate::machine::wrap_add8;

verus! {

/// How an instruction locates its operand. `NoneAddressing` marks
/// implied-operand instructions, which have no operand address at all; the
/// resolver must never be asked about that mode.
#[allow(non_camel_case_types)]
#[derive(Clone, Copy, Debug, PartialEq, Eq, Structural)]
pub enum AddressingMode {
    Immediate,
    ZeroPage,
    ZeroPage_X,
    ZeroPage_Y,
    Absolute,
    Absolute_X,
    Absolute_Y,
    Indirect_X,
    Indirect_Y,
    NoneAddressing,
}

/// Effective operand address for `mode`, as a pure function of the program
/// counter (already advanced past the opcode byte), the index registers,
/// and the memory contents.
pub open spec fn spec_operand_address(
    mode: AddressingMode,
    pc: u16,
    x: u8,
    y: u8,
    mem: Seq<u8>,
) -> u16
    recommends
        mem.len() == MEM_SIZE,
        !(mode is NoneAddressing),
{
    match mode {
        AddressingMode::Immediate => pc,
        AddressingMode::ZeroPage => mem[pc as int] as u16,
        AddressingMode::ZeroPage_X => wrap_add8(mem[pc as int], x) as u16,
        AddressingMode::ZeroPage_Y => wrap_add8(mem[pc as int], y) as u16,
        AddressingMode::Absolute => spec_read16(mem, pc),
        AddressingMode::Absolute_X => wrap_add16(spec_read16(mem, pc), x as u16),
        AddressingMode::Absolute_Y => wrap_add16(spec_read16(mem, pc), y as u16),
        AddressingMode::Indirect_X => {
            let ptr = wrap_add8(mem[pc as int], x);
            (mem[wrap_add8(ptr, 1) as int] as int * 0x100 + mem[ptr as int] as int) as u16
        },
        AddressingMode::Indirect_Y => {
            let base = mem[pc as int];
            let lo = mem[base as int];
            let hi = mem[wrap_add8(base, 1) as int];
            wrap_add16((hi as int * 0x100 + lo as int) as u16, y as u16)
        },
        AddressingMode::NoneAddressing => 0,
    }
}

/// Zero-page indexed addressing wraps within the zero page: the effective
/// address always stays below 0x100, and in particular a pointer byte of
/// 0xFF plus an index of 1 yields address 0x0000, never 0x0100.
pub proof fn lemma_zero_page_indexed_wraps(pc: u16, x: u8, y: u8, mem: Seq<u8>)
    requires
        mem.len() == MEM_SIZE,
    ensures
        spec_operand_address(AddressingMode::ZeroPage_X, pc, x, y, mem) < 0x100,
        spec_operand_address(AddressingMode::ZeroPage_Y, pc, x, y, mem) < 0x100,
        mem[pc as int] == 0xFF && x == 1 ==> spec_operand_address(
            AddressingMode::ZeroPage_X,
            pc,
            x,
            y,
            mem,
        ) == 0,
        mem[pc as int] == 0xFF && y == 1 ==> spec_operand_address(
            AddressingMode::ZeroPage_Y,
            pc,
            x,
            y,
            mem,
        ) == 0,
{
}

} // verus!
