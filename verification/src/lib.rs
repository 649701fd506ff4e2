//! An emulator of the MOS 6502 processor as found in the NES: registers and
//! status flags, a 64 KiB memory, the ten addressing modes, the official
//! instruction set, and the fetch-decode-execute loop. Every instruction is
//! specified as a function on a mathematical machine state, and the
//! executable code is proved against it.

pub mod flags;
pub mod memory;
pub mod opcodes;
pub mod state;
pub mod addressing;
pub mod alu;
pub mod transfer;
pub mod stack;
pub mod control;
pub mod execute;
pub mod cpu;
pub mod ref_cpu;
pub mod text;
pub mod trace;
pub mod cartridge;
pub mod laws;
