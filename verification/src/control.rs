//! Control flow: conditional branches, jumps, subroutine call and return, and
//! return from interrupt. Each of these works on a program counter that
//! already stands behind the opcode byte.

use vstd::prelude::*;
use crate::flags::{is_set, CpuFlags, CARRY, NEGATIVE, OVERFLOW, ZERO};
use crate::memory::{high_byte, high_byte_of, low_byte, low_byte_of, read_u16, word, word_of, MyMem};
use crate::opcodes::AddressingMode;
use crate::stack::{
    popped,
    popped_u16,
    pushed_u16,
    set_flags,
    stack_pop,
    stack_pop_u16,
    stack_push_u16,
    status_from_pop,
    top,
    top_u16,
};
use crate::state::{machine, Machine, RegisterFile, Registers};

verus! {

/// A branch displacement as the 16-bit value that, added with wraparound,
/// moves forward for 0x00 to 0x7F and backward for 0x80 to 0xFF.
pub open spec fn sign_extended(displacement: u8) -> u16 {
    if displacement < 0x80 {
        displacement as u16
    } else {
        (0xFF00 + displacement) as u16
    }
}

/// Where a taken branch goes: the displacement is counted from behind the
/// displacement byte, which lies at `pc`.
pub open spec fn branch_target(pc: u16, displacement: u8) -> u16 {
    pc.wrapping_add(1).wrapping_add(sign_extended(displacement))
}

/// The machine after a branch on `condition`: taken, the program counter goes
/// to the target; not taken, nothing changes.
pub open spec fn branched(s: Machine, condition: bool) -> Machine {
    if condition {
        Machine {
            regs: RegisterFile {
                pc: branch_target(s.regs.pc, s.mem[s.regs.pc as int]),
                ..s.regs
            },
            ..s
        }
    } else {
        s
    }
}

/// BCC: branches if carry is clear.
pub open spec fn bcc_spec(s: Machine) -> Machine {
    branched(s, !is_set(s.regs.status, CARRY))
}

/// BCS: branches if carry is set.
pub open spec fn bcs_spec(s: Machine) -> Machine {
    branched(s, is_set(s.regs.status, CARRY))
}

/// BEQ: branches if zero is set.
pub open spec fn beq_spec(s: Machine) -> Machine {
    branched(s, is_set(s.regs.status, ZERO))
}

/// BMI: branches if negative is set.
pub open spec fn bmi_spec(s: Machine) -> Machine {
    branched(s, is_set(s.regs.status, NEGATIVE))
}

/// BNE: branches if zero is clear.
pub open spec fn bne_spec(s: Machine) -> Machine {
    branched(s, !is_set(s.regs.status, ZERO))
}

/// BPL: branches if negative is clear.
pub open spec fn bpl_spec(s: Machine) -> Machine {
    branched(s, !is_set(s.regs.status, NEGATIVE))
}

/// BVC: branches if overflow is clear.
pub open spec fn bvc_spec(s: Machine) -> Machine {
    branched(s, !is_set(s.regs.status, OVERFLOW))
}

/// BVS: branches if overflow is set.
pub open spec fn bvs_spec(s: Machine) -> Machine {
    branched(s, is_set(s.regs.status, OVERFLOW))
}

/// The first address of the page that holds `addr`.
pub open spec fn page_start(addr: u16) -> u16 {
    word_of(0, high_byte_of(addr))
}

/// Where an indirect jump through `pointer` goes. The target's low byte is
/// the byte at `pointer`. Its high byte is the byte behind it, unless
/// `pointer` is the last address of a page: then it is the byte at the first
/// address of the same page, as on the hardware.
pub open spec fn indirect_target(mem: Seq<u8>, pointer: u16) -> u16 {
    if low_byte_of(pointer) == 0xFF {
        word_of(mem[pointer as int], mem[page_start(pointer) as int])
    } else {
        read_u16(mem, pointer)
    }
}

/// JMP: under `Absolute` the two bytes at the program counter are the target,
/// under any other mode they point to it.
pub open spec fn jmp_spec(s: Machine, mode: AddressingMode) -> Machine {
    let addr = read_u16(s.mem, s.regs.pc);
    let target = if mode == AddressingMode::Absolute {
        addr
    } else {
        indirect_target(s.mem, addr)
    };
    Machine { regs: RegisterFile { pc: target, ..s.regs }, ..s }
}

/// JSR: pushes the address of the instruction's last byte, then jumps to the
/// address stored at the program counter.
pub open spec fn jsr_spec(s: Machine) -> Machine {
    let t = pushed_u16(s, s.regs.pc.wrapping_add(1));
    Machine { regs: RegisterFile { pc: read_u16(t.mem, s.regs.pc), ..t.regs }, ..t }
}

/// RTS: pops an address and goes to the one behind it.
pub open spec fn rts_spec(s: Machine) -> Machine {
    Machine { regs: RegisterFile { pc: top_u16(s).wrapping_add(1), ..popped_u16(s.regs) }, ..s }
}

/// RTI: pops the status byte, then pops the address to go to.
pub open spec fn rti_spec(s: Machine) -> Machine {
    let after_flags = Machine { regs: popped(s.regs), ..s };
    Machine {
        regs: RegisterFile {
            status: status_from_pop(top(s)),
            pc: top_u16(after_flags),
            ..popped_u16(after_flags.regs)
        },
        ..s
    }
}

/// Takes the branch if `condition` holds.
pub fn branch<M: MyMem>(regs: &mut Registers, mem: &M, condition: bool)
    ensures
        machine(final(regs)@, mem.memory()) == branched(
            machine(old(regs)@, mem.memory()),
            condition,
        ),
{
    if condition {
        let value = mem.mem_read(regs.pc);
        let jump: u16 = if value < 0x80 {
            value as u16
        } else {
            0xFF00 + value as u16
        };
        regs.pc = regs.pc.wrapping_add(1).wrapping_add(jump);
    }
}

/// BCC: branches if carry is clear.
pub fn bcc<M: MyMem>(regs: &mut Registers, mem: &M)
    ensures
        machine(final(regs)@, mem.memory()) == bcc_spec(machine(old(regs)@, mem.memory())),
{
    let condition = !regs.status.contains(CpuFlags::CARRY());
    branch(regs, mem, condition)
}

/// BCS: branches if carry is set.
pub fn bcs<M: MyMem>(regs: &mut Registers, mem: &M)
    ensures
        machine(final(regs)@, mem.memory()) == bcs_spec(machine(old(regs)@, mem.memory())),
{
    let condition = regs.status.contains(CpuFlags::CARRY());
    branch(regs, mem, condition)
}

/// BEQ: branches if zero is set.
pub fn beq<M: MyMem>(regs: &mut Registers, mem: &M)
    ensures
        machine(final(regs)@, mem.memory()) == beq_spec(machine(old(regs)@, mem.memory())),
{
    let condition = regs.status.contains(CpuFlags::ZERO());
    branch(regs, mem, condition)
}

/// BMI: branches if negative is set.
pub fn bmi<M: MyMem>(regs: &mut Registers, mem: &M)
    ensures
        machine(final(regs)@, mem.memory()) == bmi_spec(machine(old(regs)@, mem.memory())),
{
    let condition = regs.status.contains(CpuFlags::NEGATIVE());
    branch(regs, mem, condition)
}

/// BNE: branches if zero is clear.
pub fn bne<M: MyMem>(regs: &mut Registers, mem: &M)
    ensures
        machine(final(regs)@, mem.memory()) == bne_spec(machine(old(regs)@, mem.memory())),
{
    let condition = !regs.status.contains(CpuFlags::ZERO());
    branch(regs, mem, condition)
}

/// BPL: branches if negative is clear.
pub fn bpl<M: MyMem>(regs: &mut Registers, mem: &M)
    ensures
        machine(final(regs)@, mem.memory()) == bpl_spec(machine(old(regs)@, mem.memory())),
{
    let condition = !regs.status.contains(CpuFlags::NEGATIVE());
    branch(regs, mem, condition)
}

/// BVC: branches if overflow is clear.
pub fn bvc<M: MyMem>(regs: &mut Registers, mem: &M)
    ensures
        machine(final(regs)@, mem.memory()) == bvc_spec(machine(old(regs)@, mem.memory())),
{
    let condition = !regs.status.contains(CpuFlags::OVERFLOW());
    branch(regs, mem, condition)
}

/// BVS: branches if overflow is set.
pub fn bvs<M: MyMem>(regs: &mut Registers, mem: &M)
    ensures
        machine(final(regs)@, mem.memory()) == bvs_spec(machine(old(regs)@, mem.memory())),
{
    let condition = regs.status.contains(CpuFlags::OVERFLOW());
    branch(regs, mem, condition)
}

/// JMP: under `Absolute` the two bytes at the program counter are the target,
/// under any other mode they point to it.
pub fn jmp<M: MyMem>(regs: &mut Registers, mem: &M, mode: &AddressingMode)
    ensures
        machine(final(regs)@, mem.memory()) == jmp_spec(machine(old(regs)@, mem.memory()), *mode),
{
    let addr = mem.mem_read_u16(regs.pc);
    if matches!(mode, AddressingMode::Absolute) {
        regs.pc = addr;
    } else {
        let indirect_addr = if low_byte(addr) == 0xFF {
            let lo = mem.mem_read(addr);
            let hi = mem.mem_read(word(0, high_byte(addr)));
            word(lo, hi)
        } else {
            mem.mem_read_u16(addr)
        };
        regs.pc = indirect_addr;
    }
}

/// JSR: pushes the address of the instruction's last byte, then jumps to the
/// address stored at the program counter.
pub fn jsr<M: MyMem>(regs: &mut Registers, mem: &mut M)
    ensures
        machine(final(regs)@, final(mem).memory()) == jsr_spec(
            machine(old(regs)@, old(mem).memory()),
        ),
{
    let operand_at = regs.pc;
    stack_push_u16(regs, mem, operand_at.wrapping_add(1));
    regs.pc = mem.mem_read_u16(operand_at);
}

/// RTS: pops an address and goes to the one behind it.
pub fn rts<M: MyMem>(regs: &mut Registers, mem: &M)
    ensures
        machine(final(regs)@, mem.memory()) == rts_spec(machine(old(regs)@, mem.memory())),
{
    let addr = stack_pop_u16(regs, mem);
    regs.pc = addr.wrapping_add(1);
}

/// RTI: pops the status byte, then pops the address to go to.
pub fn rti<M: MyMem>(regs: &mut Registers, mem: &M)
    ensures
        machine(final(regs)@, mem.memory()) == rti_spec(machine(old(regs)@, mem.memory())),
{
    let flags = stack_pop(regs, mem);
    set_flags(regs, flags);
    regs.pc = stack_pop_u16(regs, mem);
}

} // verus!
