//! The processor's registers, and the mathematical machine state over which
//! every instruction is specified.

use vstd::prelude::*;
use crate::flags::{CpuFlags, BREAK2, INTERRUPT_DISABLE};

verus! {

/// Where the stack pointer stands after a reset.
pub const STACK_RESET: u8 = 0xFF;

/// The status byte after a reset: interrupts disabled, and the bit that is
/// always set.
pub const STATUS_RESET: u8 = 0b0010_0100;

/// The six registers as plain values.
pub struct RegisterFile {
    /// The accumulator.
    pub a: u8,
    /// The X index register.
    pub x: u8,
    /// The Y index register.
    pub y: u8,
    /// The status byte.
    pub status: u8,
    /// The program counter.
    pub pc: u16,
    /// The stack pointer, an offset into page one.
    pub sp: u8,
}

/// The whole machine: registers and memory.
pub struct Machine {
    /// The registers.
    pub regs: RegisterFile,
    /// The memory, by address.
    pub mem: Seq<u8>,
}

impl Machine {
    /// Every address has a byte.
    pub open spec fn wf(self) -> bool {
        self.mem.len() == 0x10000
    }
}

/// The machine with the given registers and memory.
pub open spec fn machine(regs: RegisterFile, mem: Seq<u8>) -> Machine {
    Machine { regs, mem }
}

/// The registers as they are after a reset that found `pc` in the reset
/// vector.
pub open spec fn reset_registers(pc: u16) -> RegisterFile {
    RegisterFile { a: 0, x: 0, y: 0, status: STATUS_RESET, pc, sp: STACK_RESET }
}

/// The register file that the instructions work on.
#[derive(Clone, Copy, Debug)]
pub struct Registers {
    /// The accumulator.
    pub a: u8,
    /// The X index register.
    pub x: u8,
    /// The Y index register.
    pub y: u8,
    /// The status flags.
    pub status: CpuFlags,
    /// The program counter.
    pub pc: u16,
    /// The stack pointer, an offset into page one.
    pub sp: u8,
}

impl View for Registers {
    type V = RegisterFile;

    open spec fn view(&self) -> RegisterFile {
        RegisterFile {
            a: self.a,
            x: self.x,
            y: self.y,
            status: self.status@,
            pc: self.pc,
            sp: self.sp,
        }
    }
}

/// The flags that are set after a reset.
pub fn reset_status() -> (r: CpuFlags)
    ensures
        r@ == STATUS_RESET,
{
    let r = CpuFlags::INTERRUPT_DISABLE() | CpuFlags::BREAK2();
    assert(INTERRUPT_DISABLE | BREAK2 == STATUS_RESET) by (bit_vector);
    r
}

impl Registers {
    /// The registers after a reset that found `pc` in the reset vector.
    pub fn new(pc: u16) -> (r: Registers)
        ensures
            r@ == reset_registers(pc),
    {
        Registers { a: 0, x: 0, y: 0, status: reset_status(), pc, sp: STACK_RESET }
    }
}

} // verus!
