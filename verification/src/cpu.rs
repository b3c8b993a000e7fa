use vstd::prelude::*;
use crate::addressing::AddressingMode;
use crate::addressing::spec_operand_address;
use crate::flags::spec_update_flags;
use crate::machine::MEM_SIZE;
use crate::machine::MachineState;
use crate::machine::spec_read16;
use crate::machine::spec_write16;
use crate::opcode::lookup_opcode;
use crate::step::StepResult;
use crate::step::lemma_run_n_extend;
use crate::step::lemma_run_n_terminal;
use crate::step::spec_copy_to_rom;
use crate::step::spec_halts;
use crate::step::spec_inx;
use crate::step::spec_lda;
use crate::step::spec_load;
use crate::step::spec_reset;
use crate::step::spec_run_n;
use crate::step::spec_sta;
use crate::step::spec_step;
use crate::step::spec_tax;

verus! {

/// A fatal condition that halts a run, reported distinctly from normal
/// termination at a break instruction.
#[derive(Clone, Copy, Debug, PartialEq, Eq, Structural)]
pub enum RunError {
    /// The fetched opcode byte has no entry in the opcode table. The run
    /// halts at once rather than continue misaligned, which would corrupt
    /// every later fetch.
    UnknownOpcode(u8),
}

/// The processor: its register file and the 64 KiB memory it exclusively
/// owns. Registers and memory cells may be read, and memory written,
/// directly by callers before and after a run; that introspection is part
/// of the public contract.
pub struct CPU {
    pub register_a: u8,
    pub status: u8,
    pub program_counter: u16,
    pub register_x: u8,
    pub register_y: u8,
    memory: Vec<u8>,
}

impl View for CPU {
    type V = MachineState;

    closed spec fn view(&self) -> MachineState {
        MachineState {
            a: self.register_a,
            x: self.register_x,
            y: self.register_y,
            status: self.status,
            pc: self.program_counter,
            mem: self.memory.view(),
        }
    }
}

impl CPU {
    /// The memory vector spans the whole 16-bit address space. Established
    /// by the constructor and preserved by every method.
    pub open spec fn wf(self) -> bool {
        self@.wf()
    }

    /// A fresh processor: all registers and every memory cell zeroed.
    pub fn new() -> (cpu: CPU)
        ensures
            cpu.wf(),
            cpu@.a == 0,
            cpu@.x == 0,
            cpu@.y == 0,
            cpu@.status == 0,
            cpu@.pc == 0,
            forall|i: int| 0 <= i < MEM_SIZE ==> cpu@.mem[i] == 0,
    {
        let mut memory: Vec<u8> = Vec::new();
        while memory.len() < MEM_SIZE
            invariant
                memory@.len() <= MEM_SIZE,
                forall|i: int| 0 <= i < memory@.len() ==> memory@[i] == 0,
            decreases MEM_SIZE - memory@.len(),
        {
            memory.push(0);
        }
        CPU { register_a: 0, status: 0, program_counter: 0, register_x: 0, register_y: 0, memory }
    }

    /// Read the byte stored at `addr`. Every 16-bit address is valid.
    pub fn mem_read(&self, addr: u16) -> (data: u8)
        requires
            self.wf(),
        ensures
            data == self@.mem[addr as int],
    {
        self.memory[addr as usize]
    }

    /// Store `data` at `addr`; the write is visible to every later read.
    pub fn mem_write(&mut self, addr: u16, data: u8)
        requires
            old(self).wf(),
        ensures
            final(self).wf(),
            final(self)@ == (MachineState {
                mem: old(self)@.mem.update(addr as int, data),
                ..old(self)@
            }),
    {
        self.memory[addr as usize] = data;
    }

    /// Read the little-endian 16-bit word whose low byte sits at `pos`; the
    /// high byte comes from the successor address, wrapping around the top
    /// of memory.
    pub fn mem_read_u16(&self, pos: u16) -> (data: u16)
        requires
            self.wf(),
        ensures
            data == spec_read16(self@.mem, pos),
    {
        let lo = self.mem_read(pos) as u16;
        let hi = self.mem_read(pos.wrapping_add(1)) as u16;
        hi * 0x100 + lo
    }

    /// Split `data` into low and high bytes and store them little-endian at
    /// `pos` and its successor, wrapping around the top of memory.
    pub fn mem_write_u16(&mut self, pos: u16, data: u16)
        requires
            old(self).wf(),
        ensures
            final(self).wf(),
            final(self)@ == (MachineState {
                mem: spec_write16(old(self)@.mem, pos, data),
                ..old(self)@
            }),
    {
        let hi = (data >> 8) as u8;
        let lo = (data & 0xff) as u8;
        proof {
            assert(data & 0xff == data % 0x100) by (bit_vector);
            assert(data >> 8 == data / 0x100) by (bit_vector);
        }
        self.mem_write(pos, lo);
        self.mem_write(pos.wrapping_add(1), hi);
    }

    /// Compute the effective operand address for `mode` from the current
    /// register state and memory, without mutating anything. Resolving the
    /// implied-operand mode is ruled out statically: implied instructions
    /// have no operand address, so asking for one would be an internal
    /// inconsistency between the opcode table and its handlers.
    #[verifier::rlimit(50)]
    pub fn get_operand_address(&self, mode: &AddressingMode) -> (addr: u16)
        requires
            self.wf(),
            !(*mode is NoneAddressing),
        ensures
            addr == spec_operand_address(*mode, self@.pc, self@.x, self@.y, self@.mem),
    {
        match mode {
            AddressingMode::Immediate => self.program_counter,
            AddressingMode::ZeroPage => self.mem_read(self.program_counter) as u16,
            AddressingMode::ZeroPage_X => {
                let pos = self.mem_read(self.program_counter);
                let addr = pos.wrapping_add(self.register_x) as u16;
                addr
            },
            AddressingMode::ZeroPage_Y => {
                let pos = self.mem_read(self.program_counter);
                let addr = pos.wrapping_add(self.register_y) as u16;
                addr
            },
            AddressingMode::Absolute => self.mem_read_u16(self.program_counter),
            AddressingMode::Absolute_X => {
                let base = self.mem_read_u16(self.program_counter);
                base.wrapping_add(self.register_x as u16)
            },
            AddressingMode::Absolute_Y => {
                let base = self.mem_read_u16(self.program_counter);
                base.wrapping_add(self.register_y as u16)
            },
            AddressingMode::Indirect_X => {
                let base = self.mem_read(self.program_counter);
                let ptr: u8 = base.wrapping_add(self.register_x);
                let lo = self.mem_read(ptr as u16);
                let hi = self.mem_read(ptr.wrapping_add(1) as u16);
                (hi as u16) * 0x100 + (lo as u16)
            },
            AddressingMode::Indirect_Y => {
                let base = self.mem_read(self.program_counter);
                let lo = self.mem_read(base as u16);
                let hi = self.mem_read(base.wrapping_add(1) as u16);
                let deref_base = (hi as u16) * 0x100 + (lo as u16);
                deref_base.wrapping_add(self.register_y as u16)
            },
            AddressingMode::NoneAddressing => vstd::pervasive::unreached(),
        }
    }

    /// Shared flag logic: recompute ZERO and NEGATIVE from `result` and
    /// leave every other status bit untouched.
    fn update_zero_and_negative_flags(&mut self, result: u8)
        ensures
            final(self)@ == (MachineState {
                status: spec_update_flags(old(self)@.status, result),
                ..old(self)@
            }),
    {
        if result == 0 {
            self.status = self.status | 0b0000_0010;
        } else {
            self.status = self.status & 0b1111_1101;
        }
        if result & 0b1000_0000 != 0 {
            self.status = self.status | 0b1000_0000;
        } else {
            self.status = self.status & 0b0111_1111;
        }
    }

    /// LOAD: read the byte at the effective address into the accumulator
    /// and update the zero/negative flags from it.
    fn lda(&mut self, mode: &AddressingMode)
        requires
            old(self).wf(),
            !(*mode is NoneAddressing),
        ensures
            final(self).wf(),
            final(self)@ == spec_lda(old(self)@, *mode),
    {
        let addr = self.get_operand_address(mode);
        let value = self.mem_read(addr);
        self.register_a = value;
        self.update_zero_and_negative_flags(self.register_a);
    }

    /// TRANSFER: copy the accumulator into X and update the zero/negative
    /// flags from the new X.
    fn tax(&mut self)
        requires
            old(self).wf(),
        ensures
            final(self).wf(),
            final(self)@ == spec_tax(old(self)@),
    {
        self.register_x = self.register_a;
        self.update_zero_and_negative_flags(self.register_x);
    }

    /// INCREMENT: add 1 to X, wrapping 0xFF around to 0x00, and update the
    /// zero/negative flags from the new X.
    fn inx(&mut self)
        requires
            old(self).wf(),
        ensures
            final(self).wf(),
            final(self)@ == spec_inx(old(self)@),
    {
        if self.register_x == 0xff {
            self.register_x = 0;
        } else {
            self.register_x = self.register_x + 1;
        }
        self.update_zero_and_negative_flags(self.register_x);
    }

    /// STORE: write the accumulator to the effective address; registers
    /// and flags are unaffected.
    fn sta(&mut self, mode: AddressingMode)
        requires
            old(self).wf(),
            !(mode is NoneAddressing),
        ensures
            final(self).wf(),
            final(self)@ == spec_sta(old(self)@, mode),
    {
        let addr = self.get_operand_address(&mode);
        self.mem_write(addr, self.register_a);
    }

    /// Reinitialize the registers a program start expects: accumulator, X,
    /// and status are cleared, Y and memory are left untouched, and the
    /// program counter is fetched from the reset vector at 0xFFFC.
    pub fn reset(&mut self)
        requires
            old(self).wf(),
        ensures
            final(self).wf(),
            final(self)@ == spec_reset(old(self)@),
    {
        self.register_a = 0;
        self.register_x = 0;
        self.status = 0;
        self.program_counter = self.mem_read_u16(0xFFFC);
    }

    /// Copy the program image verbatim into memory starting at 0x8000 and
    /// set the reset vector at 0xFFFC to the entry point 0x8000; memory
    /// elsewhere and all registers are untouched. Memory above 0xFFFF does
    /// not exist, so the caller keeps the image at or under 0x8000 bytes.
    pub fn load(&mut self, program: Vec<u8>)
        requires
            old(self).wf(),
            program@.len() <= 0x8000,
        ensures
            final(self).wf(),
            final(self)@ == spec_load(old(self)@, program@),
    {
        let ghost orig = self@;
        let mut i: usize = 0;
        while i < program.len()
            invariant
                self.wf(),
                i <= program@.len(),
                program@.len() <= 0x8000,
                self@ == (MachineState {
                    mem: spec_copy_to_rom(orig.mem, program@.take(i as int)),
                    ..orig
                }),
            decreases program@.len() - i,
        {
            let ghost before = self@.mem;
            self.mem_write(0x8000 + i as u16, program[i]);
            proof {
                assert(spec_copy_to_rom(orig.mem, program@.take(i + 1)) =~= before.update(
                    0x8000 + i as int,
                    program@[i as int],
                ));
            }
            i = i + 1;
        }
        proof {
            assert(program@.take(program@.len() as int) =~= program@);
        }
        self.mem_write_u16(0xFFFC, 0x8000);
        proof {
            assert(self@ =~= spec_load(orig, program@));
        }
    }

    /// The fetch-decode-execute loop: execute instructions one after the
    /// other until the break instruction returns control to the caller
    /// (`Ok`), or a fetched byte has no entry in the opcode table (`Err`
    /// carrying that byte). The state left behind is exactly the state in
    /// which the step model halts; since each step follows deterministically
    /// from the one before, the starting state fixes both the outcome kind
    /// and the final state (`lemma_run_n_terminal` makes the terminal
    /// outcome unique). `run` is verified for machines that halt; a machine
    /// that reaches neither a break instruction nor an unknown opcode never
    /// returns control at all.
    pub fn run(&mut self) -> (r: Result<(), RunError>)
        requires
            old(self).wf(),
            spec_halts(old(self)@),
        ensures
            final(self).wf(),
            (match r {
                Result::Ok(()) => exists|n: nat|
                    spec_run_n(old(self)@, n) == StepResult::Halted(final(self)@),
                Result::Err(e) => match e {
                    RunError::UnknownOpcode(op) => exists|n: nat|
                        spec_run_n(old(self)@, n) == StepResult::Failed(op, final(self)@),
                },
            }),
    {
        let ghost s0 = old(self)@;
        let ghost halt_n: nat = choose|n: nat| !(spec_run_n(s0, n) is Running);
        let ghost mut steps: nat = 0;
        loop
            invariant
                self.wf(),
                s0 == old(self)@,
                spec_run_n(s0, steps) == StepResult::Running(self@),
                !(spec_run_n(s0, halt_n) is Running),
                steps <= halt_n,
            decreases halt_n - steps,
        {
            let ghost pre = self@;
            let opcode = self.mem_read(self.program_counter);
            self.program_counter = self.program_counter.wrapping_add(1);
            match lookup_opcode(opcode) {
                Option::None => {
                    proof {
                        assert(spec_step(pre) == StepResult::Failed(opcode, self@));
                        lemma_run_n_extend(s0, pre, steps);
                        assert(spec_run_n(s0, steps + 1) == StepResult::Failed(opcode, self@));
                    }
                    return Result::Err(RunError::UnknownOpcode(opcode));
                },
                Option::Some(op) => {
                    if opcode == 0x00 {
                        proof {
                            assert(spec_step(pre) == StepResult::Halted(self@));
                            lemma_run_n_extend(s0, pre, steps);
                            assert(spec_run_n(s0, steps + 1) == StepResult::Halted(self@));
                        }
                        return Result::Ok(());
                    }
                    if opcode == 0xAA {
                        self.tax();
                    } else if opcode == 0xE8 {
                        self.inx();
                    } else if opcode == 0x85 || opcode == 0x95 {
                        self.sta(op.addr_mode);
                    } else {
                        self.lda(&op.addr_mode);
                    }
                    self.program_counter = self.program_counter.wrapping_add(
                        (op.bytes - 1) as u16,
                    );
                    proof {
                        assert(spec_step(pre) == StepResult::Running(self@));
                        lemma_run_n_extend(s0, pre, steps);
                        if steps + 1 > halt_n {
                            lemma_run_n_terminal(s0, halt_n, steps);
                        }
                        steps = steps + 1;
                    }
                },
            }
        }
    }

    /// The single intended external entry point: load the program, reset
    /// the registers, then run to completion. The outcome and the final
    /// state are those of the step model started on the freshly loaded and
    /// reset machine.
    pub fn load_and_run(&mut self, program: Vec<u8>) -> (r: Result<(), RunError>)
        requires
            old(self).wf(),
            program@.len() <= 0x8000,
            spec_halts(spec_reset(spec_load(old(self)@, program@))),
        ensures
            final(self).wf(),
            (match r {
                Result::Ok(()) => exists|n: nat|
                    spec_run_n(spec_reset(spec_load(old(self)@, program@)), n)
                        == StepResult::Halted(final(self)@),
                Result::Err(e) => match e {
                    RunError::UnknownOpcode(op) => exists|n: nat|
                        spec_run_n(spec_reset(spec_load(old(self)@, program@)), n)
                            == StepResult::Failed(op, final(self)@),
                },
            }),
    {
        self.load(program);
        self.reset();
        self.run()
    }

    /// Entry point kept alongside `load_and_run` that consumes a program
    /// image without executing anything; the processor is left untouched.
    pub fn interpret(&mut self, program: Vec<u8>)
        ensures
            *final(self) == *old(self),
    {
    }
}

} // verus!
