//! An emulator of the MOS 6502 processor: registers, status flags, stack,
//! the documented instruction set and a fetch-decode-execute loop over a
//! 64 KiB memory image.

pub mod cpu;
pub mod instructions;
pub mod interpreter;
pub mod laws;
pub mod machine;
pub mod opcodes;
pub mod screen;
pub mod status;

pub use cpu::CPU;
pub use machine::{CpuError, StepStatus};
pub use opcodes::{decode, AddressingMode, Instruction, Mnemonic};
pub use status::ProcessorStatus;
