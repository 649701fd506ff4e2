//! The stack: page one of memory, from 0x0100 to 0x01FF, growing downwards
//! under an 8-bit pointer that wraps without notice.

use vstd::prelude::*;
use crate::alu::{set_register_a, with_a};
use crate::flags::{assign, CpuFlags, BREAK, BREAK2};
use crate::memory::{high_byte, high_byte_of, low_byte, low_byte_of, word, word_of, MyMem};
use crate::state::{machine, Machine, RegisterFile, Registers};

verus! {

/// First address of the stack page.
pub const STACK_AREA: u16 = 0x0100;

/// The address that the stack pointer `sp` stands for.
pub open spec fn stack_address(sp: u8) -> u16 {
    (STACK_AREA + sp) as u16
}

/// The machine after `data` was pushed: written where the pointer stands,
/// then the pointer moved down by one.
pub open spec fn pushed(s: Machine, data: u8) -> Machine {
    Machine {
        regs: RegisterFile { sp: s.regs.sp.wrapping_sub(1), ..s.regs },
        mem: s.mem.update(stack_address(s.regs.sp) as int, data),
    }
}

/// The machine after a 16-bit value was pushed, high byte first.
pub open spec fn pushed_u16(s: Machine, data: u16) -> Machine {
    pushed(pushed(s, high_byte_of(data)), low_byte_of(data))
}

/// The registers after a byte was popped: the pointer moved up by one.
pub open spec fn popped(r: RegisterFile) -> RegisterFile {
    RegisterFile { sp: r.sp.wrapping_add(1), ..r }
}

/// The byte that a pop returns: the one that the moved pointer stands on.
pub open spec fn top(s: Machine) -> u8 {
    s.mem[stack_address(s.regs.sp.wrapping_add(1)) as int]
}

/// The registers after a 16-bit value was popped.
pub open spec fn popped_u16(r: RegisterFile) -> RegisterFile {
    popped(popped(r))
}

/// The 16-bit value that a 16-bit pop returns: low byte first.
pub open spec fn top_u16(s: Machine) -> u16 {
    word_of(top(s), top(Machine { regs: popped(s.regs), ..s }))
}

/// The status byte as it is pushed: with both break bits set.
pub open spec fn status_to_push(status: u8) -> u8 {
    assign(assign(status, BREAK, true), BREAK2, true)
}

/// The status byte made of a popped byte: break cleared and its companion
/// set, whatever the byte held for them.
pub open spec fn status_from_pop(byte: u8) -> u8 {
    assign(assign(byte, BREAK, false), BREAK2, true)
}

/// PHA: pushes the accumulator.
pub open spec fn pha_spec(s: Machine) -> Machine {
    pushed(s, s.regs.a)
}

/// PHP: pushes the status byte with both break bits set; the status register
/// itself keeps its value.
pub open spec fn php_spec(s: Machine) -> Machine {
    pushed(s, status_to_push(s.regs.status))
}

/// PLA: pops a byte into the accumulator.
pub open spec fn pla_spec(s: Machine) -> Machine {
    Machine { regs: with_a(popped(s.regs), top(s)), ..s }
}

/// PLP: pops a byte into the status register.
pub open spec fn plp_spec(s: Machine) -> Machine {
    Machine { regs: RegisterFile { status: status_from_pop(top(s)), ..popped(s.regs) }, ..s }
}

/// Pushes a byte.
pub fn stack_push<M: MyMem>(regs: &mut Registers, mem: &mut M, data: u8)
    ensures
        machine(final(regs)@, final(mem).memory()) == pushed(
            machine(old(regs)@, old(mem).memory()),
            data,
        ),
{
    mem.mem_write(STACK_AREA + regs.sp as u16, data);
    regs.sp = regs.sp.wrapping_sub(1);
}

/// Pushes a 16-bit value, high byte first.
pub fn stack_push_u16<M: MyMem>(regs: &mut Registers, mem: &mut M, data: u16)
    ensures
        machine(final(regs)@, final(mem).memory()) == pushed_u16(
            machine(old(regs)@, old(mem).memory()),
            data,
        ),
{
    let hi = high_byte(data);
    let lo = low_byte(data);
    stack_push(regs, mem, hi);
    stack_push(regs, mem, lo);
}

/// Pops a byte.
pub fn stack_pop<M: MyMem>(regs: &mut Registers, mem: &M) -> (data: u8)
    ensures
        final(regs)@ == popped(old(regs)@),
        data == top(machine(old(regs)@, mem.memory())),
{
    regs.sp = regs.sp.wrapping_add(1);
    mem.mem_read(STACK_AREA + regs.sp as u16)
}

/// Pops a 16-bit value, low byte first.
pub fn stack_pop_u16<M: MyMem>(regs: &mut Registers, mem: &M) -> (data: u16)
    ensures
        final(regs)@ == popped_u16(old(regs)@),
        data == top_u16(machine(old(regs)@, mem.memory())),
{
    let lo = stack_pop(regs, mem);
    let hi = stack_pop(regs, mem);
    word(lo, hi)
}

/// Replaces the status flags by those of a popped byte.
pub fn set_flags(regs: &mut Registers, flags: u8)
    ensures
        final(regs)@ == (RegisterFile { status: status_from_pop(flags), ..old(regs)@ }),
{
    regs.status = CpuFlags::from_bits_truncate(flags);
    regs.status.remove(CpuFlags::BREAK());
    regs.status.insert(CpuFlags::BREAK2());
}

/// PHA: pushes the accumulator.
pub fn pha<M: MyMem>(regs: &mut Registers, mem: &mut M)
    ensures
        machine(final(regs)@, final(mem).memory()) == pha_spec(
            machine(old(regs)@, old(mem).memory()),
        ),
{
    let value = regs.a;
    stack_push(regs, mem, value);
}

/// PHP: pushes the status byte with both break bits set; the status register
/// itself keeps its value.
pub fn php<M: MyMem>(regs: &mut Registers, mem: &mut M)
    ensures
        machine(final(regs)@, final(mem).memory()) == php_spec(
            machine(old(regs)@, old(mem).memory()),
        ),
{
    let mut flags = regs.status;
    flags.insert(CpuFlags::BREAK());
    flags.insert(CpuFlags::BREAK2());
    stack_push(regs, mem, flags.bits());
}

/// PLA: pops a byte into the accumulator.
pub fn pla<M: MyMem>(regs: &mut Registers, mem: &M)
    ensures
        machine(final(regs)@, mem.memory()) == pla_spec(machine(old(regs)@, mem.memory())),
{
    let value = stack_pop(regs, mem);
    set_register_a(regs, value);
}

/// PLP: pops a byte into the status register.
pub fn plp<M: MyMem>(regs: &mut Registers, mem: &M)
    ensures
        machine(final(regs)@, mem.memory()) == plp_spec(machine(old(regs)@, mem.memory())),
{
    let flags = stack_pop(regs, mem);
    set_flags(regs, flags);
}

} // verus!
