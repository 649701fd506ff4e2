//! Loads, stores, register transfers, and the instructions that set or clear
//! a single flag.

use vstd::prelude::*;
use crate::addressing::{get_operand_address, operand, operand_address, read_operand};
use crate::alu::{set_register_a, set_register_x, set_register_y, with_a, with_x, with_y};
use crate::flags::{assign, CpuFlags, CARRY, DECIMAL_MODE, INTERRUPT_DISABLE, OVERFLOW};
use crate::memory::MyMem;
use crate::opcodes::AddressingMode;
use crate::state::{machine, Machine, RegisterFile, Registers};

verus! {

/// LDA: loads the operand into the accumulator.
pub open spec fn lda_spec(s: Machine, mode: AddressingMode) -> Machine {
    Machine { regs: with_a(s.regs, operand(s.regs, s.mem, mode)), ..s }
}

/// LDX: loads the operand into X.
pub open spec fn ldx_spec(s: Machine, mode: AddressingMode) -> Machine {
    Machine { regs: with_x(s.regs, operand(s.regs, s.mem, mode)), ..s }
}

/// LDY: loads the operand into Y.
pub open spec fn ldy_spec(s: Machine, mode: AddressingMode) -> Machine {
    Machine { regs: with_y(s.regs, operand(s.regs, s.mem, mode)), ..s }
}

/// The machine after `value` was stored at the operand's address; no flag
/// changes.
pub open spec fn stored(s: Machine, mode: AddressingMode, value: u8) -> Machine {
    Machine { mem: s.mem.update(operand_address(s.regs, s.mem, mode) as int, value), ..s }
}

/// STA: stores the accumulator.
pub open spec fn sta_spec(s: Machine, mode: AddressingMode) -> Machine {
    stored(s, mode, s.regs.a)
}

/// STX: stores X.
pub open spec fn stx_spec(s: Machine, mode: AddressingMode) -> Machine {
    stored(s, mode, s.regs.x)
}

/// STY: stores Y.
pub open spec fn sty_spec(s: Machine, mode: AddressingMode) -> Machine {
    stored(s, mode, s.regs.y)
}

/// TAX: copies the accumulator to X.
pub open spec fn tax_spec(r: RegisterFile) -> RegisterFile {
    with_x(r, r.a)
}

/// TAY: copies the accumulator to Y.
pub open spec fn tay_spec(r: RegisterFile) -> RegisterFile {
    with_y(r, r.a)
}

/// TSX: copies the stack pointer to X.
pub open spec fn tsx_spec(r: RegisterFile) -> RegisterFile {
    with_x(r, r.sp)
}

/// TXA: copies X to the accumulator.
pub open spec fn txa_spec(r: RegisterFile) -> RegisterFile {
    with_a(r, r.x)
}

/// TXS: copies X to the stack pointer; no flag changes.
pub open spec fn txs_spec(r: RegisterFile) -> RegisterFile {
    RegisterFile { sp: r.x, ..r }
}

/// TYA: copies Y to the accumulator.
pub open spec fn tya_spec(r: RegisterFile) -> RegisterFile {
    with_a(r, r.y)
}

/// The registers with the flags of `mask` switched on or off.
pub open spec fn with_flag(r: RegisterFile, mask: u8, on: bool) -> RegisterFile {
    RegisterFile { status: assign(r.status, mask, on), ..r }
}

/// LDA: loads the operand into the accumulator.
pub fn lda<M: MyMem>(regs: &mut Registers, mem: &M, mode: &AddressingMode)
    requires
        *mode != AddressingMode::NoneAddressing,
    ensures
        machine(final(regs)@, mem.memory()) == lda_spec(machine(old(regs)@, mem.memory()), *mode),
{
    let value = read_operand(regs, mem, mode);
    set_register_a(regs, value);
}

/// LDX: loads the operand into X.
pub fn ldx<M: MyMem>(regs: &mut Registers, mem: &M, mode: &AddressingMode)
    requires
        *mode != AddressingMode::NoneAddressing,
    ensures
        machine(final(regs)@, mem.memory()) == ldx_spec(machine(old(regs)@, mem.memory()), *mode),
{
    let value = read_operand(regs, mem, mode);
    set_register_x(regs, value);
}

/// LDY: loads the operand into Y.
pub fn ldy<M: MyMem>(regs: &mut Registers, mem: &M, mode: &AddressingMode)
    requires
        *mode != AddressingMode::NoneAddressing,
    ensures
        machine(final(regs)@, mem.memory()) == ldy_spec(machine(old(regs)@, mem.memory()), *mode),
{
    let value = read_operand(regs, mem, mode);
    set_register_y(regs, value);
}

/// STA: stores the accumulator.
pub fn sta<M: MyMem>(regs: &Registers, mem: &mut M, mode: &AddressingMode)
    requires
        *mode != AddressingMode::NoneAddressing,
    ensures
        machine(regs@, final(mem).memory()) == sta_spec(machine(regs@, old(mem).memory()), *mode),
{
    let addr = get_operand_address(regs, mem, mode);
    mem.mem_write(addr, regs.a);
}

/// STX: stores X.
pub fn stx<M: MyMem>(regs: &Registers, mem: &mut M, mode: &AddressingMode)
    requires
        *mode != AddressingMode::NoneAddressing,
    ensures
        machine(regs@, final(mem).memory()) == stx_spec(machine(regs@, old(mem).memory()), *mode),
{
    let addr = get_operand_address(regs, mem, mode);
    mem.mem_write(addr, regs.x);
}

/// STY: stores Y.
pub fn sty<M: MyMem>(regs: &Registers, mem: &mut M, mode: &AddressingMode)
    requires
        *mode != AddressingMode::NoneAddressing,
    ensures
        machine(regs@, final(mem).memory()) == sty_spec(machine(regs@, old(mem).memory()), *mode),
{
    let addr = get_operand_address(regs, mem, mode);
    mem.mem_write(addr, regs.y);
}

/// TAX: copies the accumulator to X.
pub fn tax(regs: &mut Registers)
    ensures
        final(regs)@ == tax_spec(old(regs)@),
{
    let value = regs.a;
    set_register_x(regs, value);
}

/// TAY: copies the accumulator to Y.
pub fn tay(regs: &mut Registers)
    ensures
        final(regs)@ == tay_spec(old(regs)@),
{
    let value = regs.a;
    set_register_y(regs, value);
}

/// TSX: copies the stack pointer to X.
pub fn tsx(regs: &mut Registers)
    ensures
        final(regs)@ == tsx_spec(old(regs)@),
{
    let value = regs.sp;
    set_register_x(regs, value);
}

/// TXA: copies X to the accumulator.
pub fn txa(regs: &mut Registers)
    ensures
        final(regs)@ == txa_spec(old(regs)@),
{
    let value = regs.x;
    set_register_a(regs, value);
}

/// TXS: copies X to the stack pointer; no flag changes.
pub fn txs(regs: &mut Registers)
    ensures
        final(regs)@ == txs_spec(old(regs)@),
{
    regs.sp = regs.x;
}

/// TYA: copies Y to the accumulator.
pub fn tya(regs: &mut Registers)
    ensures
        final(regs)@ == tya_spec(old(regs)@),
{
    let value = regs.y;
    set_register_a(regs, value);
}

/// CLC: clears the carry flag.
pub fn clc(regs: &mut Registers)
    ensures
        final(regs)@ == with_flag(old(regs)@, CARRY, false),
{
    regs.status.remove(CpuFlags::CARRY());
}

/// CLD: clears the decimal-mode flag.
pub fn cld(regs: &mut Registers)
    ensures
        final(regs)@ == with_flag(old(regs)@, DECIMAL_MODE, false),
{
    regs.status.remove(CpuFlags::DECIMAL_MODE());
}

/// CLI: clears the interrupt-disable flag.
pub fn cli(regs: &mut Registers)
    ensures
        final(regs)@ == with_flag(old(regs)@, INTERRUPT_DISABLE, false),
{
    regs.status.remove(CpuFlags::INTERRUPT_DISABLE());
}

/// CLV: clears the overflow flag.
pub fn clv(regs: &mut Registers)
    ensures
        final(regs)@ == with_flag(old(regs)@, OVERFLOW, false),
{
    regs.status.remove(CpuFlags::OVERFLOW());
}

/// SEC: sets the carry flag.
pub fn sec(regs: &mut Registers)
    ensures
        final(regs)@ == with_flag(old(regs)@, CARRY, true),
{
    regs.status.insert(CpuFlags::CARRY());
}

/// SED: sets the decimal-mode flag.
pub fn sed(regs: &mut Registers)
    ensures
        final(regs)@ == with_flag(old(regs)@, DECIMAL_MODE, true),
{
    regs.status.insert(CpuFlags::DECIMAL_MODE());
}

/// SEI: sets the interrupt-disable flag.
pub fn sei(regs: &mut Registers)
    ensures
        final(regs)@ == with_flag(old(regs)@, INTERRUPT_DISABLE, true),
{
    regs.status.insert(CpuFlags::INTERRUPT_DISABLE());
}

/// NOP: does nothing.
pub fn nop(regs: &mut Registers)
    ensures
        final(regs)@ == old(regs)@,
{
}

} // verus!
