//! What holds of the instruction set for every machine state.

use vstd::prelude::*;
use crate::alu::{add_with_carry, carry_in, negated, result_flags};
use crate::control::{branch_target, jsr_spec, rts_spec};
use crate::cpu::reset_spec;
use crate::execute::step_spec;
use crate::flags::{
    assign,
    is_set,
    lemma_assign_other,
    lemma_assign_same,
    BREAK,
    BREAK2,
    CARRY,
    DECIMAL_MODE,
    INTERRUPT_DISABLE,
    NEGATIVE,
    OVERFLOW,
    ZERO,
};
use crate::memory::{read_u16, write_u16};
use crate::opcodes::{opcode_of, Instruction};
use crate::stack::{
    php_spec,
    plp_spec,
    popped,
    popped_u16,
    pushed,
    pushed_u16,
    status_to_push,
    top,
    top_u16,
};
use crate::state::{Machine, RegisterFile, STACK_RESET};

verus! {

/// A byte read as a two's-complement number.
pub open spec fn signed(value: u8) -> int {
    if value < 0x80 {
        value as int
    } else {
        value - 0x100
    }
}

/// Setting zero and negative from a result sets zero exactly when the result
/// is 0 and negative exactly when its bit 7 is set, which is when it is 128
/// or more; every flag other than these two stays as it was.
pub proof fn lemma_zero_and_negative(status: u8, result: u8, other: u8)
    requires
        other & (ZERO | NEGATIVE) == 0,
    ensures
        is_set(result_flags(status, result), ZERO) == (result == 0),
        is_set(result_flags(status, result), NEGATIVE) == (result & 0x80 != 0),
        is_set(result_flags(status, result), NEGATIVE) == (result >= 0x80),
        is_set(result_flags(status, result), other) == is_set(status, other),
{
    let zeroed = assign(status, ZERO, result == 0);
    assert(NEGATIVE & ZERO == 0) by (bit_vector);
    assert(other & (ZERO | NEGATIVE) == 0 ==> ZERO & other == 0 && NEGATIVE & other == 0)
        by (bit_vector);
    assert((result & 0x80 != 0) == (result >= 0x80)) by (bit_vector);
    lemma_assign_same(status, ZERO, result == 0);
    lemma_assign_other(zeroed, NEGATIVE, result & 0x80 != 0, ZERO);
    lemma_assign_same(zeroed, NEGATIVE, result & 0x80 != 0);
    lemma_assign_other(status, ZERO, result == 0, other);
    lemma_assign_other(zeroed, NEGATIVE, result & 0x80 != 0, other);
}

/// Adding with carry leaves the low eight bits of accumulator plus operand
/// plus carry in the accumulator, sets carry exactly when that sum is above
/// 255, and sets overflow exactly when the sum of the two read as signed
/// numbers, plus the carry, is no signed byte.
pub proof fn lemma_add_with_carry(r: RegisterFile, data: u8)
    ensures
        add_with_carry(r, data).a == (r.a + data + carry_in(r.status)) % 256,
        is_set(add_with_carry(r, data).status, CARRY) == (r.a + data + carry_in(r.status) > 255),
        is_set(add_with_carry(r, data).status, OVERFLOW) == !(-128 <= signed(r.a) + signed(data)
            + carry_in(r.status) <= 127),
{
    let a = r.a;
    let sum = r.a + data + carry_in(r.status);
    let result = (sum % 256) as u8;
    let overflow = ((data ^ result) & (result ^ a) & 0x80) != 0;
    let carried = assign(r.status, CARRY, sum > 0xFF);
    let overflowed = assign(carried, OVERFLOW, overflow);
    assert(CARRY & (ZERO | NEGATIVE) == 0) by (bit_vector);
    assert(OVERFLOW & (ZERO | NEGATIVE) == 0) by (bit_vector);
    assert(OVERFLOW & CARRY == 0) by (bit_vector);
    lemma_zero_and_negative(overflowed, result, CARRY);
    lemma_zero_and_negative(overflowed, result, OVERFLOW);
    lemma_assign_other(carried, OVERFLOW, overflow, CARRY);
    lemma_assign_same(r.status, CARRY, sum > 0xFF);
    lemma_assign_same(carried, OVERFLOW, overflow);
    assert(overflow == ((a < 0x80 && data < 0x80 && result >= 0x80) || (a >= 0x80 && data >= 0x80
        && result < 0x80))) by (bit_vector)
        requires
            overflow == (((data ^ result) & (result ^ a) & 0x80) != 0),
    ;
}

/// Subtracting with carry leaves the low eight bits of accumulator minus
/// operand plus carry in the accumulator.
pub proof fn lemma_subtract_with_carry(r: RegisterFile, data: u8)
    ensures
        add_with_carry(r, negated(data)).a == (r.a - data + carry_in(r.status)) % 256,
{
}

/// A taken branch goes to the address behind the displacement byte plus the
/// displacement read as a signed number: forward for 0x00 to 0x7F, backward
/// for 0x80 to 0xFF, around the ends of the address space.
pub proof fn lemma_branch_target(pc: u16, displacement: u8)
    ensures
        branch_target(pc, displacement) == (pc + 1 + signed(displacement)) % 0x10000,
        displacement < 0x80 ==> signed(displacement) >= 0,
        displacement >= 0x80 ==> signed(displacement) < 0,
{
}

/// A 16-bit value written is the value read at the same address, also where
/// its high byte lies around the end of the address space.
pub proof fn lemma_write_read_u16(mem: Seq<u8>, pos: u16, data: u16)
    requires
        mem.len() == 0x10000,
    ensures
        read_u16(write_u16(mem, pos, data), pos) == data,
{
}

/// A byte pushed is the byte popped next, and the pop puts the stack pointer
/// back where it was, also where the pointer wraps.
pub proof fn lemma_push_pop(s: Machine, data: u8)
    requires
        s.wf(),
    ensures
        top(pushed(s, data)) == data,
        popped(pushed(s, data).regs) == s.regs,
{
}

/// A 16-bit value pushed is the value popped next, and the pop puts the stack
/// pointer back where it was, also where the pointer wraps.
pub proof fn lemma_push_pop_u16(s: Machine, data: u16)
    requires
        s.wf(),
    ensures
        top_u16(pushed_u16(s, data)) == data,
        popped_u16(pushed_u16(s, data).regs) == s.regs,
{
}

/// PHP and then PLP put every flag back as it was, but for the break flag,
/// which comes out clear, and its companion, which comes out set; the stack
/// pointer is back where it was.
pub proof fn lemma_php_plp(s: Machine, other: u8)
    requires
        s.wf(),
        other & (BREAK | BREAK2) == 0,
    ensures
        plp_spec(php_spec(s)).regs == (RegisterFile {
            status: plp_spec(php_spec(s)).regs.status,
            ..s.regs
        }),
        !is_set(plp_spec(php_spec(s)).regs.status, BREAK),
        is_set(plp_spec(php_spec(s)).regs.status, BREAK2),
        is_set(plp_spec(php_spec(s)).regs.status, other) == is_set(s.regs.status, other),
{
    let status = s.regs.status;
    lemma_push_pop(s, status_to_push(status));
    assert(BREAK != 0 && BREAK2 != 0 && BREAK2 & BREAK == 0) by (bit_vector);
    assert(other & (BREAK | BREAK2) == 0 ==> BREAK & other == 0 && BREAK2 & other == 0)
        by (bit_vector);
    let a = assign(status, BREAK, true);
    let b = assign(a, BREAK2, true);
    let c = assign(b, BREAK, false);
    lemma_assign_same(b, BREAK, false);
    lemma_assign_other(c, BREAK2, true, BREAK);
    lemma_assign_same(c, BREAK2, true);
    lemma_assign_other(status, BREAK, true, other);
    lemma_assign_other(a, BREAK2, true, other);
    lemma_assign_other(b, BREAK, false, other);
    lemma_assign_other(c, BREAK2, true, other);
}

/// A subroutine call and then a return continue behind the two operand bytes
/// of the call, with the stack pointer back where it was.
pub proof fn lemma_jsr_rts(s: Machine)
    requires
        s.wf(),
    ensures
        rts_spec(jsr_spec(s)).regs == (RegisterFile {
            pc: s.regs.pc.wrapping_add(2),
            ..s.regs
        }),
{
    let ret = s.regs.pc.wrapping_add(1);
    lemma_push_pop_u16(s, ret);
}

/// After a reset the accumulator and the index registers are zero, the stack
/// pointer is at the top of the stack, interrupt-disable and the always-set
/// bit are set, and every other flag is clear.
pub proof fn lemma_reset(s: Machine)
    ensures
        reset_spec(s).regs.a == 0,
        reset_spec(s).regs.x == 0,
        reset_spec(s).regs.y == 0,
        reset_spec(s).regs.sp == STACK_RESET,
        reset_spec(s).mem == s.mem,
        is_set(reset_spec(s).regs.status, INTERRUPT_DISABLE),
        is_set(reset_spec(s).regs.status, BREAK2),
        !is_set(reset_spec(s).regs.status, CARRY),
        !is_set(reset_spec(s).regs.status, ZERO),
        !is_set(reset_spec(s).regs.status, DECIMAL_MODE),
        !is_set(reset_spec(s).regs.status, BREAK),
        !is_set(reset_spec(s).regs.status, OVERFLOW),
        !is_set(reset_spec(s).regs.status, NEGATIVE),
{
    assert(is_set(0b0010_0100, INTERRUPT_DISABLE) && is_set(0b0010_0100, BREAK2) && !is_set(
        0b0010_0100,
        CARRY,
    ) && !is_set(0b0010_0100, ZERO) && !is_set(0b0010_0100, DECIMAL_MODE) && !is_set(
        0b0010_0100,
        BREAK,
    ) && !is_set(0b0010_0100, OVERFLOW) && !is_set(0b0010_0100, NEGATIVE)) by (bit_vector);
}

/// Whether the instruction sets the program counter itself.
pub open spec fn redirects(instruction: Instruction) -> bool {
    match instruction {
        Instruction::BCC
        | Instruction::BCS
        | Instruction::BEQ
        | Instruction::BMI
        | Instruction::BNE
        | Instruction::BPL
        | Instruction::BVC
        | Instruction::BVS
        | Instruction::JMP
        | Instruction::JSR
        | Instruction::RTS
        | Instruction::RTI => true,
        _ => false,
    }
}

/// A step that executes an instruction which does not set the program
/// counter itself leaves the counter behind the instruction's last byte, and
/// does not end the run unless the instruction is BRK.
pub proof fn lemma_step_skips_operands(s: Machine)
    requires
        opcode_of(s.mem[s.regs.pc as int]) is Some,
        !redirects(opcode_of(s.mem[s.regs.pc as int]).unwrap().instruction),
    ensures
        step_spec(s).0.regs.pc == (s.regs.pc + opcode_of(s.mem[s.regs.pc as int]).unwrap().len)
            % 0x10000,
        step_spec(s).1 is Some <==> opcode_of(s.mem[s.regs.pc as int]).unwrap().instruction
            == Instruction::BRK,
{
}

} // verus!
