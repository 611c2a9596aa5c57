//! An instruction-level emulator for the execution core of the 6502
//! family of 8-bit microprocessors.
//!
//! The crate models the processor as a small machine: three 8-bit
//! registers, an 8-bit status register, a 16-bit program counter, an
//! 8-bit stack pointer, and a byte-addressable 64 KiB memory. The
//! meaning of every instruction is written down once, as a pure
//! function on that machine ([`model`]), and the executable
//! fetch-decode-execute engine ([`cpu`]) is proved to follow it step
//! by step.

pub mod cpu;
pub mod flags;
pub mod laws;
pub mod memory;
pub mod model;
pub mod opcodes;

pub use cpu::CPU;
pub use cpu::RunError;
pub use memory::Bus;
pub use memory::Mem;
pub use opcodes::AddressingMode;
pub use opcodes::OpCode;
