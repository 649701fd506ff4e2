//! The addressing-mode resolver: where an instruction's operand lies, given
//! the registers, the memory and the mode. The operand bytes are read at the
//! program counter, which the resolver leaves where it is.

use vstd::prelude::*;
use crate::memory::{read_u16, word, word_of, MyMem};
use crate::opcodes::AddressingMode;
use crate::state::{RegisterFile, Registers};

verus! {

/// The 16-bit value stored in page zero at `ptr`: low byte at `ptr`, high
/// byte at the next address of page zero, which after 0xFF is 0x00.
pub open spec fn read_zero_page_u16(mem: Seq<u8>, ptr: u8) -> u16 {
    word_of(mem[ptr as int], mem[ptr.wrapping_add(1) as int])
}

/// The effective address of the operand. Not for `NoneAddressing`, which has
/// none.
pub open spec fn operand_address(regs: RegisterFile, mem: Seq<u8>, mode: AddressingMode) -> u16
    recommends
        mode != AddressingMode::NoneAddressing,
{
    let pc = regs.pc;
    match mode {
        AddressingMode::Immediate => pc,
        AddressingMode::ZeroPage => mem[pc as int] as u16,
        AddressingMode::ZeroPage_X => mem[pc as int].wrapping_add(regs.x) as u16,
        AddressingMode::ZeroPage_Y => mem[pc as int].wrapping_add(regs.y) as u16,
        AddressingMode::Absolute => read_u16(mem, pc),
        AddressingMode::Absolute_X => read_u16(mem, pc).wrapping_add(regs.x as u16),
        AddressingMode::Absolute_Y => read_u16(mem, pc).wrapping_add(regs.y as u16),
        AddressingMode::Indirect_X => read_zero_page_u16(mem, mem[pc as int].wrapping_add(regs.x)),
        AddressingMode::Indirect_Y => read_zero_page_u16(mem, mem[pc as int]).wrapping_add(
            regs.y as u16,
        ),
        AddressingMode::NoneAddressing => 0,
    }
}

/// The operand itself: the byte at its effective address.
pub open spec fn operand(regs: RegisterFile, mem: Seq<u8>, mode: AddressingMode) -> u8
    recommends
        mode != AddressingMode::NoneAddressing,
{
    mem[operand_address(regs, mem, mode) as int]
}

/// Reads a 16-bit value from page zero without leaving the page.
pub fn mem_read_zero_page_u16<M: MyMem>(mem: &M, ptr: u8) -> (r: u16)
    ensures
        r == read_zero_page_u16(mem.memory(), ptr),
{
    let lo = mem.mem_read(ptr as u16);
    let hi = mem.mem_read(ptr.wrapping_add(1) as u16);
    word(lo, hi)
}

/// Resolves the effective address of the operand.
pub fn get_operand_address<M: MyMem>(regs: &Registers, mem: &M, mode: &AddressingMode) -> (addr:
    u16)
    requires
        *mode != AddressingMode::NoneAddressing,
    ensures
        addr == operand_address(regs@, mem.memory(), *mode),
{
    match mode {
        AddressingMode::Immediate => regs.pc,
        AddressingMode::ZeroPage => mem.mem_read(regs.pc) as u16,
        AddressingMode::Absolute => mem.mem_read_u16(regs.pc),
        AddressingMode::ZeroPage_X => {
            let pos = mem.mem_read(regs.pc);
            pos.wrapping_add(regs.x) as u16
        },
        AddressingMode::ZeroPage_Y => {
            let pos = mem.mem_read(regs.pc);
            pos.wrapping_add(regs.y) as u16
        },
        AddressingMode::Absolute_X => {
            let base = mem.mem_read_u16(regs.pc);
            base.wrapping_add(regs.x as u16)
        },
        AddressingMode::Absolute_Y => {
            let base = mem.mem_read_u16(regs.pc);
            base.wrapping_add(regs.y as u16)
        },
        AddressingMode::Indirect_X => {
            let base = mem.mem_read(regs.pc);
            mem_read_zero_page_u16(mem, base.wrapping_add(regs.x))
        },
        AddressingMode::Indirect_Y => {
            let base = mem.mem_read(regs.pc);
            let deref_base = mem_read_zero_page_u16(mem, base);
            deref_base.wrapping_add(regs.y as u16)
        },
        AddressingMode::NoneAddressing => unreached(),
    }
}

/// Reads the operand: resolves its address and reads the byte there.
pub fn read_operand<M: MyMem>(regs: &Registers, mem: &M, mode: &AddressingMode) -> (data: u8)
    requires
        *mode != AddressingMode::NoneAddressing,
    ensures
        data == operand(regs@, mem.memory(), *mode),
{
    let addr = get_operand_address(regs, mem, mode);
    mem.mem_read(addr)
}

} // verus!
