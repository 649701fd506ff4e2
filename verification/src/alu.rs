//! Arithmetic, logic, shifts, rotates, comparisons, increments and
//! decrements, and the rule by which their results set the zero and negative
//! flags.

use vstd::prelude::*;
use crate::addressing::{get_operand_address, operand, operand_address, read_operand};
use crate::flags::{assign, is_set, CpuFlags, CARRY, NEGATIVE, OVERFLOW, ZERO};
use crate::memory::MyMem;
use crate::opcodes::AddressingMode;
use crate::state::{machine, Machine, RegisterFile, Registers};

verus! {

/// The status byte after `result` has set the zero and negative flags: zero is
/// set exactly when `result` is 0, negative exactly when its bit 7 is set.
pub open spec fn result_flags(status: u8, result: u8) -> u8 {
    assign(assign(status, ZERO, result == 0), NEGATIVE, result & 0x80 != 0)
}

/// The registers with the zero and negative flags set from `result`.
pub open spec fn with_result_flags(r: RegisterFile, result: u8) -> RegisterFile {
    RegisterFile { status: result_flags(r.status, result), ..r }
}

/// The registers after `value` went to the accumulator.
pub open spec fn with_a(r: RegisterFile, value: u8) -> RegisterFile {
    RegisterFile { a: value, status: result_flags(r.status, value), ..r }
}

/// The registers after `value` went to X.
pub open spec fn with_x(r: RegisterFile, value: u8) -> RegisterFile {
    RegisterFile { x: value, status: result_flags(r.status, value), ..r }
}

/// The registers after `value` went to Y.
pub open spec fn with_y(r: RegisterFile, value: u8) -> RegisterFile {
    RegisterFile { y: value, status: result_flags(r.status, value), ..r }
}

/// The carry flag as a number.
pub open spec fn carry_in(status: u8) -> int {
    if is_set(status, CARRY) {
        1
    } else {
        0
    }
}

/// The registers after `data` and the carry were added to the accumulator.
/// The sum's low eight bits go to the accumulator; carry is set exactly when
/// the sum is above 255; overflow is set exactly when both addends differ in
/// sign from the result.
pub open spec fn add_with_carry(r: RegisterFile, data: u8) -> RegisterFile {
    let sum = r.a + data + carry_in(r.status);
    let result = (sum % 256) as u8;
    let carried = assign(r.status, CARRY, sum > 0xFF);
    let overflowed = assign(carried, OVERFLOW, ((data ^ result) & (result ^ r.a) & 0x80) != 0);
    RegisterFile { a: result, status: result_flags(overflowed, result), ..r }
}

/// The two's-complement negation of a byte.
pub open spec fn negated(value: u8) -> u8 {
    0u8.wrapping_sub(value)
}

/// ADC: adds the operand and the carry to the accumulator.
pub open spec fn adc_spec(s: Machine, mode: AddressingMode) -> Machine {
    Machine { regs: add_with_carry(s.regs, operand(s.regs, s.mem, mode)), ..s }
}

/// SBC: adds the negated operand and the carry to the accumulator.
pub open spec fn sbc_spec(s: Machine, mode: AddressingMode) -> Machine {
    Machine { regs: add_with_carry(s.regs, negated(operand(s.regs, s.mem, mode))), ..s }
}

/// AND: the accumulator and the operand, bit by bit.
pub open spec fn and_spec(s: Machine, mode: AddressingMode) -> Machine {
    Machine { regs: with_a(s.regs, operand(s.regs, s.mem, mode) & s.regs.a), ..s }
}

/// ORA: the accumulator or the operand, bit by bit.
pub open spec fn ora_spec(s: Machine, mode: AddressingMode) -> Machine {
    Machine { regs: with_a(s.regs, s.regs.a | operand(s.regs, s.mem, mode)), ..s }
}

/// EOR: the accumulator or else the operand, bit by bit.
pub open spec fn eor_spec(s: Machine, mode: AddressingMode) -> Machine {
    Machine { regs: with_a(s.regs, s.regs.a ^ operand(s.regs, s.mem, mode)), ..s }
}

/// What a shift or rotate works on: the accumulator under `NoneAddressing`,
/// else the operand in memory.
pub open spec fn shift_input(s: Machine, mode: AddressingMode) -> u8 {
    if mode == AddressingMode::NoneAddressing {
        s.regs.a
    } else {
        operand(s.regs, s.mem, mode)
    }
}

/// The machine after a shift or rotate put `result` back where its input came
/// from, with `carry` in the carry flag and zero and negative set from
/// `result`.
pub open spec fn shift_output(s: Machine, mode: AddressingMode, carry: bool, result: u8) -> Machine {
    let status = result_flags(assign(s.regs.status, CARRY, carry), result);
    if mode == AddressingMode::NoneAddressing {
        Machine { regs: RegisterFile { a: result, status, ..s.regs }, ..s }
    } else {
        Machine {
            regs: RegisterFile { status, ..s.regs },
            mem: s.mem.update(operand_address(s.regs, s.mem, mode) as int, result),
        }
    }
}

/// ASL: shifts left by one bit; bit 7 goes to the carry.
pub open spec fn asl_spec(s: Machine, mode: AddressingMode) -> Machine {
    let value = shift_input(s, mode);
    shift_output(s, mode, value & 0x80 != 0, value << 1)
}

/// LSR: shifts right by one bit; bit 0 goes to the carry.
pub open spec fn lsr_spec(s: Machine, mode: AddressingMode) -> Machine {
    let value = shift_input(s, mode);
    shift_output(s, mode, value & 0x01 != 0, value >> 1)
}

/// A byte rotated left by one bit: bit 7 comes back in as bit 0.
pub open spec fn rotated_left(value: u8) -> u8 {
    (value << 1) | (value >> 7)
}

/// A byte rotated right by one bit: bit 0 comes back in as bit 7.
pub open spec fn rotated_right(value: u8) -> u8 {
    (value >> 1) | (value << 7)
}

/// ROL: rotates the eight bits left by one; bit 7 also goes to the carry. The
/// carry that was there does not enter the byte.
pub open spec fn rol_spec(s: Machine, mode: AddressingMode) -> Machine {
    let value = shift_input(s, mode);
    shift_output(s, mode, value & 0x80 != 0, rotated_left(value))
}

/// ROR: rotates the eight bits right by one; bit 0 also goes to the carry. The
/// carry that was there does not enter the byte.
pub open spec fn ror_spec(s: Machine, mode: AddressingMode) -> Machine {
    let value = shift_input(s, mode);
    shift_output(s, mode, value & 0x01 != 0, rotated_right(value))
}

/// The registers after `reference` was compared with `data`: carry is set
/// exactly when `reference` is not below `data`, zero and negative are set
/// from the difference, and nothing else changes.
pub open spec fn compared(r: RegisterFile, reference: u8, data: u8) -> RegisterFile {
    with_result_flags(
        RegisterFile { status: assign(r.status, CARRY, reference >= data), ..r },
        reference.wrapping_sub(data),
    )
}

/// CMP: compares the accumulator with the operand.
pub open spec fn cmp_spec(s: Machine, mode: AddressingMode) -> Machine {
    Machine { regs: compared(s.regs, s.regs.a, operand(s.regs, s.mem, mode)), ..s }
}

/// CPX: compares X with the operand.
pub open spec fn cpx_spec(s: Machine, mode: AddressingMode) -> Machine {
    Machine { regs: compared(s.regs, s.regs.x, operand(s.regs, s.mem, mode)), ..s }
}

/// CPY: compares Y with the operand.
pub open spec fn cpy_spec(s: Machine, mode: AddressingMode) -> Machine {
    Machine { regs: compared(s.regs, s.regs.y, operand(s.regs, s.mem, mode)), ..s }
}

/// The status byte after a bit test of `data` against the accumulator `a`:
/// zero is set exactly when they share no bit, overflow and negative are bits
/// 6 and 7 of `data`.
pub open spec fn bit_tested(status: u8, a: u8, data: u8) -> u8 {
    assign(
        assign(assign(status, ZERO, data & a == 0), OVERFLOW, data & 0x40 != 0),
        NEGATIVE,
        data & 0x80 != 0,
    )
}

/// BIT: tests the operand against the accumulator; only flags change.
pub open spec fn bit_spec(s: Machine, mode: AddressingMode) -> Machine {
    Machine {
        regs: RegisterFile {
            status: bit_tested(s.regs.status, s.regs.a, operand(s.regs, s.mem, mode)),
            ..s.regs
        },
        ..s
    }
}

/// The machine after `result` replaced the operand in memory and set the zero
/// and negative flags.
pub open spec fn operand_replaced(s: Machine, mode: AddressingMode, result: u8) -> Machine {
    Machine {
        regs: with_result_flags(s.regs, result),
        mem: s.mem.update(operand_address(s.regs, s.mem, mode) as int, result),
    }
}

/// INC: adds one to the operand in memory, 0xFF becoming 0x00.
pub open spec fn inc_spec(s: Machine, mode: AddressingMode) -> Machine {
    operand_replaced(s, mode, operand(s.regs, s.mem, mode).wrapping_add(1))
}

/// DEC: takes one from the operand in memory, 0x00 becoming 0xFF.
pub open spec fn dec_spec(s: Machine, mode: AddressingMode) -> Machine {
    operand_replaced(s, mode, operand(s.regs, s.mem, mode).wrapping_sub(1))
}

/// INX: adds one to X.
pub open spec fn inx_spec(r: RegisterFile) -> RegisterFile {
    with_x(r, r.x.wrapping_add(1))
}

/// INY: adds one to Y.
pub open spec fn iny_spec(r: RegisterFile) -> RegisterFile {
    with_y(r, r.y.wrapping_add(1))
}

/// DEX: takes one from X.
pub open spec fn dex_spec(r: RegisterFile) -> RegisterFile {
    with_x(r, r.x.wrapping_sub(1))
}

/// DEY: takes one from Y.
pub open spec fn dey_spec(r: RegisterFile) -> RegisterFile {
    with_y(r, r.y.wrapping_sub(1))
}

/// Sets the zero and negative flags from `result` and leaves every other flag
/// and register as it is.
pub fn update_zero_and_negative_flags(regs: &mut Registers, result: u8)
    ensures
        final(regs)@ == with_result_flags(old(regs)@, result),
{
    regs.status.set(CpuFlags::ZERO(), result == 0);
    regs.status.set(CpuFlags::NEGATIVE(), result & 0b1000_0000 != 0);
}

/// Puts `value` in the accumulator and sets zero and negative from it.
pub fn set_register_a(regs: &mut Registers, value: u8)
    ensures
        final(regs)@ == with_a(old(regs)@, value),
{
    regs.a = value;
    update_zero_and_negative_flags(regs, value);
}

/// Puts `value` in X and sets zero and negative from it.
pub fn set_register_x(regs: &mut Registers, value: u8)
    ensures
        final(regs)@ == with_x(old(regs)@, value),
{
    regs.x = value;
    update_zero_and_negative_flags(regs, value);
}

/// Puts `value` in Y and sets zero and negative from it.
pub fn set_register_y(regs: &mut Registers, value: u8)
    ensures
        final(regs)@ == with_y(old(regs)@, value),
{
    regs.y = value;
    update_zero_and_negative_flags(regs, value);
}

/// Adds `data` and the carry to the accumulator.
pub fn add_to_acc(regs: &mut Registers, data: u8)
    ensures
        final(regs)@ == add_with_carry(old(regs)@, data),
{
    let carry: u16 = if regs.status.contains(CpuFlags::CARRY()) {
        1
    } else {
        0
    };
    let sum: u16 = regs.a as u16 + data as u16 + carry;
    regs.status.set(CpuFlags::CARRY(), sum > 0xFF);
    let result: u8 = (sum % 256) as u8;
    regs.status.set(CpuFlags::OVERFLOW(), ((data ^ result) & (result ^ regs.a) & 0x80) != 0);
    regs.a = result;
    update_zero_and_negative_flags(regs, result);
}

/// ADC: adds the operand and the carry to the accumulator.
pub fn adc<M: MyMem>(regs: &mut Registers, mem: &M, mode: &AddressingMode)
    requires
        *mode != AddressingMode::NoneAddressing,
    ensures
        machine(final(regs)@, mem.memory()) == adc_spec(machine(old(regs)@, mem.memory()), *mode),
{
    let data = read_operand(regs, mem, mode);
    add_to_acc(regs, data);
}

/// SBC: adds the negated operand and the carry to the accumulator.
pub fn sbc<M: MyMem>(regs: &mut Registers, mem: &M, mode: &AddressingMode)
    requires
        *mode != AddressingMode::NoneAddressing,
    ensures
        machine(final(regs)@, mem.memory()) == sbc_spec(machine(old(regs)@, mem.memory()), *mode),
{
    let value = read_operand(regs, mem, mode);
    add_to_acc(regs, 0u8.wrapping_sub(value));
}

/// AND: the accumulator and the operand, bit by bit.
pub fn and<M: MyMem>(regs: &mut Registers, mem: &M, mode: &AddressingMode)
    requires
        *mode != AddressingMode::NoneAddressing,
    ensures
        machine(final(regs)@, mem.memory()) == and_spec(machine(old(regs)@, mem.memory()), *mode),
{
    let value = read_operand(regs, mem, mode);
    set_register_a(regs, value & regs.a);
}

/// ORA: the accumulator or the operand, bit by bit.
pub fn ora<M: MyMem>(regs: &mut Registers, mem: &M, mode: &AddressingMode)
    requires
        *mode != AddressingMode::NoneAddressing,
    ensures
        machine(final(regs)@, mem.memory()) == ora_spec(machine(old(regs)@, mem.memory()), *mode),
{
    let data = read_operand(regs, mem, mode);
    set_register_a(regs, regs.a | data);
}

/// EOR: the accumulator or else the operand, bit by bit.
pub fn eor<M: MyMem>(regs: &mut Registers, mem: &M, mode: &AddressingMode)
    requires
        *mode != AddressingMode::NoneAddressing,
    ensures
        machine(final(regs)@, mem.memory()) == eor_spec(machine(old(regs)@, mem.memory()), *mode),
{
    let value = read_operand(regs, mem, mode);
    set_register_a(regs, regs.a ^ value);
}

/// Reads what a shift or rotate works on.
fn read_shift_input<M: MyMem>(regs: &Registers, mem: &M, mode: &AddressingMode) -> (value: u8)
    ensures
        value == shift_input(machine(regs@, mem.memory()), *mode),
{
    if matches!(mode, AddressingMode::NoneAddressing) {
        regs.a
    } else {
        read_operand(regs, mem, mode)
    }
}

/// Puts the result of a shift or rotate back where its input came from, and
/// sets carry, zero and negative.
fn write_shift_output<M: MyMem>(
    regs: &mut Registers,
    mem: &mut M,
    mode: &AddressingMode,
    carry: bool,
    result: u8,
)
    ensures
        machine(final(regs)@, final(mem).memory()) == shift_output(
            machine(old(regs)@, old(mem).memory()),
            *mode,
            carry,
            result,
        ),
{
    if matches!(mode, AddressingMode::NoneAddressing) {
        regs.a = result;
    } else {
        let addr = get_operand_address(regs, mem, mode);
        mem.mem_write(addr, result);
    }
    regs.status.set(CpuFlags::CARRY(), carry);
    update_zero_and_negative_flags(regs, result);
}

/// ASL: shifts left by one bit; bit 7 goes to the carry.
pub fn asl<M: MyMem>(regs: &mut Registers, mem: &mut M, mode: &AddressingMode)
    ensures
        machine(final(regs)@, final(mem).memory()) == asl_spec(
            machine(old(regs)@, old(mem).memory()),
            *mode,
        ),
{
    let value = read_shift_input(regs, mem, mode);
    write_shift_output(regs, mem, mode, value & 0b1000_0000 != 0, value << 1);
}

/// LSR: shifts right by one bit; bit 0 goes to the carry.
pub fn lsr<M: MyMem>(regs: &mut Registers, mem: &mut M, mode: &AddressingMode)
    ensures
        machine(final(regs)@, final(mem).memory()) == lsr_spec(
            machine(old(regs)@, old(mem).memory()),
            *mode,
        ),
{
    let value = read_shift_input(regs, mem, mode);
    write_shift_output(regs, mem, mode, value & 0x01 != 0, value >> 1);
}

/// Whether bit 7 is set.
pub fn highest_bit_set(value: u8) -> (r: bool)
    ensures
        r == (value & 0x80 != 0),
{
    value & 0b1000_0000 != 0
}

/// Whether bit 0 is set.
pub fn lowest_bit_set(value: u8) -> (r: bool)
    ensures
        r == (value & 0x01 != 0),
{
    value & 0b0000_0001 != 0
}

/// Rotates a byte left by one bit.
pub fn rotate_left(value: u8) -> (r: u8)
    ensures
        r == rotated_left(value),
{
    (value << 1) | (value >> 7)
}

/// Rotates a byte right by one bit.
pub fn rotate_right(value: u8) -> (r: u8)
    ensures
        r == rotated_right(value),
{
    (value >> 1) | (value << 7)
}

/// ROL: rotates the eight bits left by one; bit 7 also goes to the carry. The
/// carry that was there does not enter the byte.
pub fn rol<M: MyMem>(regs: &mut Registers, mem: &mut M, mode: &AddressingMode)
    ensures
        machine(final(regs)@, final(mem).memory()) == rol_spec(
            machine(old(regs)@, old(mem).memory()),
            *mode,
        ),
{
    let value = read_shift_input(regs, mem, mode);
    write_shift_output(regs, mem, mode, highest_bit_set(value), rotate_left(value));
}

/// ROR: rotates the eight bits right by one; bit 0 also goes to the carry. The
/// carry that was there does not enter the byte.
pub fn ror<M: MyMem>(regs: &mut Registers, mem: &mut M, mode: &AddressingMode)
    ensures
        machine(final(regs)@, final(mem).memory()) == ror_spec(
            machine(old(regs)@, old(mem).memory()),
            *mode,
        ),
{
    let value = read_shift_input(regs, mem, mode);
    write_shift_output(regs, mem, mode, lowest_bit_set(value), rotate_right(value));
}

/// Compares `reference` with the operand.
pub fn compare<M: MyMem>(regs: &mut Registers, mem: &M, mode: &AddressingMode, reference: u8)
    requires
        *mode != AddressingMode::NoneAddressing,
    ensures
        final(regs)@ == compared(old(regs)@, reference, operand(old(regs)@, mem.memory(), *mode)),
{
    let data = read_operand(regs, mem, mode);
    regs.status.set(CpuFlags::CARRY(), reference >= data);
    update_zero_and_negative_flags(regs, reference.wrapping_sub(data));
}

/// CMP: compares the accumulator with the operand.
pub fn cmp<M: MyMem>(regs: &mut Registers, mem: &M, mode: &AddressingMode)
    requires
        *mode != AddressingMode::NoneAddressing,
    ensures
        machine(final(regs)@, mem.memory()) == cmp_spec(machine(old(regs)@, mem.memory()), *mode),
{
    let reference = regs.a;
    compare(regs, mem, mode, reference);
}

/// CPX: compares X with the operand.
pub fn cpx<M: MyMem>(regs: &mut Registers, mem: &M, mode: &AddressingMode)
    requires
        *mode != AddressingMode::NoneAddressing,
    ensures
        machine(final(regs)@, mem.memory()) == cpx_spec(machine(old(regs)@, mem.memory()), *mode),
{
    let reference = regs.x;
    compare(regs, mem, mode, reference);
}

/// CPY: compares Y with the operand.
pub fn cpy<M: MyMem>(regs: &mut Registers, mem: &M, mode: &AddressingMode)
    requires
        *mode != AddressingMode::NoneAddressing,
    ensures
        machine(final(regs)@, mem.memory()) == cpy_spec(machine(old(regs)@, mem.memory()), *mode),
{
    let reference = regs.y;
    compare(regs, mem, mode, reference);
}

/// BIT: tests the operand against the accumulator; only flags change.
pub fn bit<M: MyMem>(regs: &mut Registers, mem: &M, mode: &AddressingMode)
    requires
        *mode != AddressingMode::NoneAddressing,
    ensures
        machine(final(regs)@, mem.memory()) == bit_spec(machine(old(regs)@, mem.memory()), *mode),
{
    let data = read_operand(regs, mem, mode);
    regs.status.set(CpuFlags::ZERO(), data & regs.a == 0);
    regs.status.set(CpuFlags::OVERFLOW(), data & 0b0100_0000 != 0);
    regs.status.set(CpuFlags::NEGATIVE(), data & 0b1000_0000 != 0);
}

/// INC: adds one to the operand in memory, 0xFF becoming 0x00.
pub fn inc<M: MyMem>(regs: &mut Registers, mem: &mut M, mode: &AddressingMode)
    requires
        *mode != AddressingMode::NoneAddressing,
    ensures
        machine(final(regs)@, final(mem).memory()) == inc_spec(
            machine(old(regs)@, old(mem).memory()),
            *mode,
        ),
{
    let addr = get_operand_address(regs, mem, mode);
    let value = mem.mem_read(addr);
    let new_value = value.wrapping_add(1);
    mem.mem_write(addr, new_value);
    update_zero_and_negative_flags(regs, new_value);
}

/// DEC: takes one from the operand in memory, 0x00 becoming 0xFF.
pub fn dec<M: MyMem>(regs: &mut Registers, mem: &mut M, mode: &AddressingMode)
    requires
        *mode != AddressingMode::NoneAddressing,
    ensures
        machine(final(regs)@, final(mem).memory()) == dec_spec(
            machine(old(regs)@, old(mem).memory()),
            *mode,
        ),
{
    let addr = get_operand_address(regs, mem, mode);
    let value = mem.mem_read(addr);
    let new_value = value.wrapping_sub(1);
    mem.mem_write(addr, new_value);
    update_zero_and_negative_flags(regs, new_value);
}

/// INX: adds one to X.
pub fn inx(regs: &mut Registers)
    ensures
        final(regs)@ == inx_spec(old(regs)@),
{
    let value = regs.x.wrapping_add(1);
    set_register_x(regs, value);
}

/// INY: adds one to Y.
pub fn iny(regs: &mut Registers)
    ensures
        final(regs)@ == iny_spec(old(regs)@),
{
    let value = regs.y.wrapping_add(1);
    set_register_y(regs, value);
}

/// DEX: takes one from X.
pub fn dex(regs: &mut Registers)
    ensures
        final(regs)@ == dex_spec(old(regs)@),
{
    let value = regs.x.wrapping_sub(1);
    set_register_x(regs, value);
}

/// DEY: takes one from Y.
pub fn dey(regs: &mut Registers)
    ensures
        final(regs)@ == dey_spec(old(regs)@),
{
    let value = regs.y.wrapping_sub(1);
    set_register_y(regs, value);
}

} // verus!
