//! Instruction-execution core of an 8-bit MOS 6502 style microprocessor:
//! a memory bus with little-endian word accessors, an addressing-mode
//! resolver, an opcode table, per-instruction handlers, shared
//! zero/negative flag logic, and the fetch-decode-execute loop that drives
//! them. Every component carries a contract relating it to a mathematical
//! model of the machine, and the execution loop is proved to follow that
//! model step by step.

pub mod addressing;
pub mod cpu;
pub mod flags;
pub mod machine;
pub mod opcode;
pub mod step;

pub use addressing::AddressingMode;
pub use cpu::CPU;
pub use cpu::RunError;
pub use flags::FLAG_NEGATIVE;
pub use flags::FLAG_ZERO;
pub use machine::MEM_SIZE;
pub use opcode::OpCode;
pub use opcode::cpu_ops_codes;
pub use opcode::lookup_opcode;
