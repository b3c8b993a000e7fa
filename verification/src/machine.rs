use vstd::prelude::*;

verus! {

/// Number of addressable memory cells: the full 16-bit address space.
pub const MEM_SIZE: usize = 0x10000;

/// Abstract view of the processor: the register file together with the
/// complete contents of its 64 KiB memory.
#[verifier::ext_equal]
pub struct MachineState {
    /// Accumulator.
    pub a: u8,
    /// Index register X.
    pub x: u8,
    /// Index register Y.
    pub y: u8,
    /// Status flags; bit 1 is ZERO, bit 7 is NEGATIVE.
    pub status: u8,
    /// Program counter, interpreted modulo 2^16.
    pub pc: u16,
    /// Memory cells, addressed 0x0000 through 0xFFFF.
    pub mem: Seq<u8>,
}

impl MachineState {
    /// A machine state always carries the whole 64 KiB address space.
    pub open spec fn wf(self) -> bool {
        self.mem.len() == MEM_SIZE
    }
}

/// 16-bit address arithmetic wraps around the top of the address space.
pub open spec fn wrap_add16(a: u16, b: u16) -> u16 {
    ((a + b) % 0x10000) as u16
}

/// 8-bit arithmetic wraps at 256; zero-page addressing relies on this.
pub open spec fn wrap_add8(a: u8, b: u8) -> u8 {
    ((a + b) % 0x100) as u8
}

/// Little-endian 16-bit read: low byte at `pos`, high byte at the successor
/// address, which wraps around the top of memory.
pub open spec fn spec_read16(mem: Seq<u8>, pos: u16) -> u16
    recommends
        mem.len() == MEM_SIZE,
{
    (mem[wrap_add16(pos, 1) as int] as int * 0x100 + mem[pos as int] as int) as u16
}

/// Little-endian 16-bit write: low byte to `pos`, high byte to the successor
/// address, which wraps around the top of memory.
pub open spec fn spec_write16(mem: Seq<u8>, pos: u16, data: u16) -> Seq<u8>
    recommends
        mem.len() == MEM_SIZE,
{
    mem.update(pos as int, (data % 0x100) as u8).update(
        wrap_add16(pos, 1) as int,
        (data / 0x100) as u8,
    )
}

/// A little-endian 16-bit write followed by a 16-bit read of the same
/// address recovers the written word, for every word and every address,
/// including the pair that straddles the top of memory.
pub proof fn lemma_write16_read16_roundtrip(mem: Seq<u8>, pos: u16, data: u16)
    requires
        mem.len() == MEM_SIZE,
    ensures
        spec_read16(spec_write16(mem, pos, data), pos) == data,
{
    let hi_addr = wrap_add16(pos, 1);
    assert(hi_addr != pos);
    let written = spec_write16(mem, pos, data);
    assert(written[pos as int] == (data % 0x100) as u8);
    assert(written[hi_addr as int] == (data / 0x100) as u8);
    assert(data / 0x100 * 0x100 + data % 0x100 == data) by {
        vstd::arithmetic::div_mod::lemma_fundamental_div_mod(data as int, 0x100);
    }
}

} // verus!
