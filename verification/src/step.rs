use vstd::prelude::*;
use crate::addressing::AddressingMode;
use crate::addressing::spec_operand_address;
use crate::flags::FLAG_ZERO;
use crate::flags::lemma_update_flags;
use crate::flags::spec_update_flags;
use crate::machine::MachineState;
use crate::machine::spec_read16;
use crate::machine::wrap_add16;
use crate::machine::wrap_add8;
use crate::opcode::spec_decode;

verus! {

/// Effect of the LOAD handler: read the byte at the effective address into
/// the accumulator and recompute the zero/negative flags from it.
pub open spec fn spec_lda(s: MachineState, mode: AddressingMode) -> MachineState
    recommends
        s.wf(),
        !(mode is NoneAddressing),
{
    let addr = spec_operand_address(mode, s.pc, s.x, s.y, s.mem);
    let value = s.mem[addr as int];
    MachineState { a: value, status: spec_update_flags(s.status, value), ..s }
}

/// Effect of the STORE handler: write the accumulator to the effective
/// address; registers and flags are unaffected.
pub open spec fn spec_sta(s: MachineState, mode: AddressingMode) -> MachineState
    recommends
        s.wf(),
        !(mode is NoneAddressing),
{
    let addr = spec_operand_address(mode, s.pc, s.x, s.y, s.mem);
    MachineState { mem: s.mem.update(addr as int, s.a), ..s }
}

/// Effect of the TRANSFER handler: copy the accumulator into X and
/// recompute the zero/negative flags from the new X.
pub open spec fn spec_tax(s: MachineState) -> MachineState {
    MachineState { x: s.a, status: spec_update_flags(s.status, s.a), ..s }
}

/// Effect of the INCREMENT handler: add 1 to X with 8-bit wraparound and
/// recompute the zero/negative flags from the new X.
pub open spec fn spec_inx(s: MachineState) -> MachineState {
    let value = wrap_add8(s.x, 1);
    MachineState { x: value, status: spec_update_flags(s.status, value), ..s }
}

/// Advance the program counter past `width` operand bytes, wrapping at 16
/// bits.
pub open spec fn spec_advance(s: MachineState, width: u16) -> MachineState {
    MachineState { pc: wrap_add16(s.pc, width), ..s }
}

/// Outcome of executing the machine for some number of instructions.
pub enum StepResult {
    /// More instructions remain to be executed.
    Running(MachineState),
    /// The break instruction ended execution normally.
    Halted(MachineState),
    /// The fetched byte decodes to no instruction: a fatal decode error,
    /// carrying the offending byte.
    Failed(u8, MachineState),
}

/// One iteration of the fetch-decode-execute loop: fetch the byte at the
/// program counter and advance past it; decode it against the opcode
/// table, failing fatally when it has no entry; run the matching handler
/// and advance the program counter past the operand bytes, whose number
/// the table gives as instruction length minus one.
pub open spec fn spec_step(s: MachineState) -> StepResult
    recommends
        s.wf(),
{
    let opcode = s.mem[s.pc as int];
    let fetched = MachineState { pc: wrap_add16(s.pc, 1), ..s };
    match spec_decode(opcode) {
        Option::None => StepResult::Failed(opcode, fetched),
        Option::Some(info) => {
            let width = (info.0 - 1) as u16;
            if opcode == 0x00 {
                StepResult::Halted(fetched)
            } else if opcode == 0xAA {
                StepResult::Running(spec_advance(spec_tax(fetched), width))
            } else if opcode == 0xE8 {
                StepResult::Running(spec_advance(spec_inx(fetched), width))
            } else if opcode == 0x85 || opcode == 0x95 {
                StepResult::Running(spec_advance(spec_sta(fetched, info.2), width))
            } else {
                StepResult::Running(spec_advance(spec_lda(fetched, info.2), width))
            }
        },
    }
}

/// The machine after `n` instructions from `s`: still running in some
/// state, or the terminal outcome it reached within those `n` steps.
pub open spec fn spec_run_n(s: MachineState, n: nat) -> StepResult
    decreases n,
{
    if n == 0 {
        StepResult::Running(s)
    } else {
        match spec_step(s) {
            StepResult::Running(next) => spec_run_n(next, (n - 1) as nat),
            r => r,
        }
    }
}

/// The machine started in `s` eventually halts, either normally at a break
/// instruction or fatally at an unknown opcode.
pub open spec fn spec_halts(s: MachineState) -> bool {
    exists|n: nat| !(spec_run_n(s, n) is Running)
}

/// Executing one more instruction from the state reached after `n` steps
/// gives the outcome after `n + 1` steps.
pub proof fn lemma_run_n_extend(s0: MachineState, s: MachineState, n: nat)
    requires
        spec_run_n(s0, n) == StepResult::Running(s),
    ensures
        spec_run_n(s0, n + 1) == spec_step(s),
    decreases n,
{
    if n == 0 {
        assert(s == s0);
        match spec_step(s0) {
            StepResult::Running(next) => {
                assert(spec_run_n(s0, 1) == spec_run_n(next, 0));
            },
            _ => {},
        }
    } else {
        match spec_step(s0) {
            StepResult::Running(next) => {
                assert(spec_run_n(s0, n) == spec_run_n(next, (n - 1) as nat));
                lemma_run_n_extend(next, s, (n - 1) as nat);
                assert(spec_run_n(s0, n + 1) == spec_run_n(next, n));
            },
            _ => {
                assert(spec_run_n(s0, n) == spec_step(s0));
            },
        }
    }
}

/// Once the machine has reached a terminal outcome, running it further
/// changes nothing.
pub proof fn lemma_run_n_terminal(s: MachineState, n: nat, m: nat)
    requires
        !(spec_run_n(s, n) is Running),
        n <= m,
    ensures
        spec_run_n(s, m) == spec_run_n(s, n),
    decreases n,
{
    if n > 0 {
        match spec_step(s) {
            StepResult::Running(next) => {
                lemma_run_n_terminal(next, (n - 1) as nat, (m - 1) as nat);
            },
            _ => {},
        }
    }
}

/// No instruction mutates status bits outside the two its semantics
/// define: a step changes at most the ZERO and NEGATIVE bits, and a step
/// that ends or fails the run leaves the status byte untouched.
pub proof fn lemma_step_preserves_reserved_status_bits(s: MachineState)
    requires
        s.wf(),
    ensures
        (match spec_step(s) {
            StepResult::Running(t) => t.status & crate::flags::FLAG_OTHERS == s.status
                & crate::flags::FLAG_OTHERS,
            StepResult::Halted(t) => t.status == s.status,
            StepResult::Failed(_, t) => t.status == s.status,
        }),
{
    let opcode = s.mem[s.pc as int];
    match spec_decode(opcode) {
        Option::None => {},
        Option::Some(info) => {
            let fetched = MachineState { pc: wrap_add16(s.pc, 1), ..s };
            if opcode == 0xAA {
                lemma_update_flags(s.status, s.a);
            } else if opcode == 0xE8 {
                lemma_update_flags(s.status, wrap_add8(s.x, 1));
            } else if opcode == 0x00 || opcode == 0x85 || opcode == 0x95 {
            } else {
                let addr = spec_operand_address(info.2, fetched.pc, s.x, s.y, s.mem);
                lemma_update_flags(s.status, s.mem[addr as int]);
            }
        },
    }
}

/// Memory size is fixed for the lifetime of the machine: every step leaves
/// a state that still spans the whole 64 KiB address space.
pub proof fn lemma_step_preserves_wf(s: MachineState)
    requires
        s.wf(),
    ensures
        (match spec_step(s) {
            StepResult::Running(t) => t.wf(),
            StepResult::Halted(t) => t.wf(),
            StepResult::Failed(_, t) => t.wf(),
        }),
{
}

/// INCREMENT wraps at 8 bits: from X = 0xFF one increment yields X = 0x00
/// and sets the ZERO flag, and a second increment yields X = 0x01.
pub proof fn lemma_inx_wraparound(s: MachineState)
    requires
        s.x == 0xFF,
    ensures
        spec_inx(s).x == 0,
        spec_inx(s).status & FLAG_ZERO != 0,
        spec_inx(spec_inx(s)).x == 1,
{
    lemma_update_flags(s.status, 0);
}

/// State after `reset`: accumulator, X, and status cleared, Y and memory
/// untouched, program counter fetched from the reset vector at 0xFFFC.
pub open spec fn spec_reset(s: MachineState) -> MachineState
    recommends
        s.wf(),
{
    MachineState { a: 0, x: 0, status: 0, pc: spec_read16(s.mem, 0xFFFC), ..s }
}

/// Memory with the image `program` copied over the region that starts at
/// 0x8000; every cell outside that region keeps its old value.
pub open spec fn spec_copy_to_rom(mem: Seq<u8>, program: Seq<u8>) -> Seq<u8>
    recommends
        mem.len() == crate::machine::MEM_SIZE,
        program.len() <= 0x8000,
{
    Seq::new(
        mem.len(),
        |i: int|
            if 0x8000 <= i < 0x8000 + program.len() {
                program[i - 0x8000]
            } else {
                mem[i]
            },
    )
}

/// Memory after `load`: the program image copied verbatim starting at
/// 0x8000, then the reset vector at 0xFFFC set to the entry point 0x8000.
pub open spec fn spec_load_mem(mem: Seq<u8>, program: Seq<u8>) -> Seq<u8>
    recommends
        mem.len() == crate::machine::MEM_SIZE,
        program.len() <= 0x8000,
{
    crate::machine::spec_write16(spec_copy_to_rom(mem, program), 0xFFFC, 0x8000)
}

/// State after `load`: only memory changes, as `spec_load_mem` says.
pub open spec fn spec_load(s: MachineState, program: Seq<u8>) -> MachineState
    recommends
        s.wf(),
        program.len() <= 0x8000,
{
    MachineState { mem: spec_load_mem(s.mem, program), ..s }
}

} // verus!

