use nes_emulator::addressing::get_operand_address;
use nes_emulator::alu::{add_to_acc, update_zero_and_negative_flags};
use nes_emulator::control::branch;
use nes_emulator::cpu::MyCPU;
use nes_emulator::execute::{run, step, Stop};
use nes_emulator::flags::CpuFlags;
use nes_emulator::memory::{MyMem, Ram};
use nes_emulator::opcodes::{lookup, AddressingMode, Instruction};
use nes_emulator::stack::{stack_pop, stack_pop_u16, stack_push, stack_push_u16};
use nes_emulator::state::Registers;

fn registers() -> Registers {
    Registers::new(0x8000)
}

#[test]
fn adc_matches_the_sum_for_every_pair_and_carry() {
    for a in 0..=255u8 {
        for b in 0..=255u8 {
            for carry in 0..=1u16 {
                let mut regs = registers();
                regs.a = a;
                regs.status.set(CpuFlags::CARRY(), carry == 1);
                add_to_acc(&mut regs, b);

                let sum = a as u16 + b as u16 + carry;
                let signed = a as i8 as i16 + b as i8 as i16 + carry as i16;
                assert_eq!((sum % 256) as u8, regs.a);
                assert_eq!(sum > 255, regs.status.contains(CpuFlags::CARRY()));
                assert_eq!(
                    signed < -128 || signed > 127,
                    regs.status.contains(CpuFlags::OVERFLOW())
                );
                assert_eq!(regs.a == 0, regs.status.contains(CpuFlags::ZERO()));
                assert_eq!(regs.a >= 0x80, regs.status.contains(CpuFlags::NEGATIVE()));
            }
        }
    }
}

#[test]
fn zero_and_negative_follow_the_result_and_leave_other_flags() {
    for status in [0x00u8, 0xFF, 0x24, 0x4D, 0xB2] {
        for x in 0..=255u8 {
            let mut regs = registers();
            regs.status = CpuFlags::from_bits_truncate(status);
            update_zero_and_negative_flags(&mut regs, x);

            assert_eq!(x == 0, regs.status.contains(CpuFlags::ZERO()));
            assert_eq!(x & 0x80 != 0, regs.status.contains(CpuFlags::NEGATIVE()));
            assert_eq!(status & 0x7D, regs.status.bits() & 0x7D);
            assert_eq!(0x8000, regs.pc);
            assert_eq!(0xFF, regs.sp);
        }
    }
}

#[test]
fn push_u16_then_pop_u16_gives_the_value_back() {
    for sp in 0..=255u8 {
        for v in [0x0000u16, 0x0001, 0x00FF, 0x0100, 0x1234, 0x8002, 0xFF00, 0xFFFF] {
            let mut regs = registers();
            let mut ram = Ram::new();
            regs.sp = sp;
            stack_push_u16(&mut regs, &mut ram, v);
            assert_eq!(sp.wrapping_sub(2), regs.sp);
            assert_eq!(v, stack_pop_u16(&mut regs, &ram));
            assert_eq!(sp, regs.sp);
        }
    }
}

#[test]
fn push_u16_puts_the_high_byte_at_the_higher_address() {
    let mut regs = registers();
    let mut ram = Ram::new();
    stack_push_u16(&mut regs, &mut ram, 0x8002);

    assert_eq!(0x80, ram.mem_read(0x01FF));
    assert_eq!(0x02, ram.mem_read(0x01FE));
    assert_eq!(0xFD, regs.sp);
}

#[test]
fn push_and_pop_wrap_the_stack_pointer() {
    let mut regs = registers();
    let mut ram = Ram::new();
    regs.sp = 0x00;
    stack_push(&mut regs, &mut ram, 0x42);
    assert_eq!(0xFF, regs.sp);
    assert_eq!(0x42, ram.mem_read(0x0100));
    assert_eq!(0x42, stack_pop(&mut regs, &ram));
    assert_eq!(0x00, regs.sp);
}

#[test]
fn branch_displacement_is_signed() {
    let cases: [(u16, u8, u16); 7] = [
        (0x8001, 0x00, 0x8002),
        (0x8001, 0x42, 0x8044),
        (0x8001, 0x7F, 0x8081),
        (0x8001, 0x80, 0x7F82),
        (0x8001, 0xFE, 0x8000),
        (0x8001, 0xFF, 0x8001),
        (0xFFFF, 0x01, 0x0001),
    ];
    for (pc, displacement, target) in cases {
        let mut regs = registers();
        let mut ram = Ram::new();
        regs.pc = pc;
        ram.mem_write(pc, displacement);
        branch(&mut regs, &ram, true);
        assert_eq!(target, regs.pc);
    }
}

#[test]
fn branch_not_taken_leaves_the_program_counter() {
    let mut regs = registers();
    let mut ram = Ram::new();
    regs.pc = 0x8001;
    ram.mem_write(0x8001, 0x42);
    branch(&mut regs, &ram, false);
    assert_eq!(0x8001, regs.pc);
}

#[test]
fn backward_branch_loops_until_the_counter_is_zero() {
    // LDX #$03; DEX; BNE -3; BRK
    let mut cpu = MyCPU::new();
    let stop = cpu.load_and_run(vec![0xA2, 0x03, 0xCA, 0xD0, 0xFD, 0x00]);

    assert_eq!(Stop::Break, stop);
    assert_eq!(0x00, cpu.register_x);
    assert_eq!(0x8006, cpu.program_counter);
}

#[test]
fn jsr_pushes_the_address_of_its_last_byte() {
    let mut cpu = MyCPU::new();
    cpu.load(vec![0x20, 0x34, 0x12]);

    assert_eq!(None, cpu.step());

    assert_eq!(0x1234, cpu.program_counter);
    assert_eq!(0xFD, cpu.stack_pointer);
    assert_eq!(0x80, cpu.mem_read(0x01FF));
    assert_eq!(0x02, cpu.mem_read(0x01FE));
}

#[test]
fn jsr_then_rts_continues_behind_the_call() {
    let mut cpu = MyCPU::new();
    cpu.mem_write(0x1234, 0x60);
    cpu.load(vec![0x20, 0x34, 0x12, 0xE8]);

    assert_eq!(None, cpu.step());
    assert_eq!(None, cpu.step());

    assert_eq!(0x8003, cpu.program_counter);
    assert_eq!(0xFF, cpu.stack_pointer);
}

#[test]
fn jmp_indirect_at_a_page_end_takes_the_high_byte_from_the_same_page() {
    let mut cpu = MyCPU::new();
    cpu.mem_write(0x3000, 0x40);
    cpu.mem_write(0x30FF, 0x80);
    cpu.mem_write(0x3100, 0x50);
    cpu.load(vec![0x6C, 0xFF, 0x30]);

    assert_eq!(None, cpu.step());

    assert_eq!(0x4080, cpu.program_counter);
}

#[test]
fn php_then_plp_restores_all_but_the_break_flags() {
    for status in 0..=255u8 {
        let mut cpu = MyCPU::new();
        cpu.status = CpuFlags::from_bits_truncate(status);
        cpu.load(vec![0x08, 0x28]);

        assert_eq!(None, cpu.step());
        assert_eq!(status | 0x30, cpu.mem_read(0x01FF));
        assert_eq!(status, cpu.status.bits());
        assert_eq!(None, cpu.step());

        assert_eq!((status & !0x10) | 0x20, cpu.status.bits());
        assert_eq!(0xFF, cpu.stack_pointer);
    }
}

#[test]
fn sbc_adds_the_negated_operand_and_the_carry() {
    for (a, m, carry, result, carry_out) in [
        (0x42u8, 0x21u8, false, 0x21u8, true),
        (0x42, 0x21, true, 0x22, true),
        (0x00, 0x01, false, 0xFF, false),
        (0x10, 0x00, false, 0x10, false),
        (0x00, 0x00, true, 0x01, false),
    ] {
        let mut cpu = MyCPU::new();
        cpu.register_a = a;
        cpu.status.set(CpuFlags::CARRY(), carry);
        cpu.load(vec![0xE9, m]);

        assert_eq!(None, cpu.step());

        assert_eq!(result, cpu.register_a);
        assert_eq!(carry_out, cpu.status.contains(CpuFlags::CARRY()));
    }
}

#[test]
fn compare_sets_carry_zero_and_negative_from_the_difference() {
    for (reference, operand) in [(0x42u8, 0x42u8), (0x41, 0x42), (0x43, 0x42), (0x00, 0xFF), (0xFF, 0x00)] {
        let mut cpu = MyCPU::new();
        cpu.register_a = reference;
        cpu.load(vec![0xC9, operand]);

        assert_eq!(None, cpu.step());

        let diff = reference.wrapping_sub(operand);
        assert_eq!(reference >= operand, cpu.status.contains(CpuFlags::CARRY()));
        assert_eq!(diff == 0, cpu.status.contains(CpuFlags::ZERO()));
        assert_eq!(diff & 0x80 != 0, cpu.status.contains(CpuFlags::NEGATIVE()));
        assert_eq!(reference, cpu.register_a);
    }
}

#[test]
fn rotate_in_memory_sets_zero_from_the_result() {
    let mut cpu = MyCPU::new();
    cpu.mem_write(0x0010, 0x00);
    cpu.load(vec![0x26, 0x10]);

    assert_eq!(None, cpu.step());

    assert_eq!(0x00, cpu.mem_read(0x0010));
    assert!(cpu.status.contains(CpuFlags::ZERO()));
    assert!(!cpu.status.contains(CpuFlags::CARRY()));
}

#[test]
fn rotate_does_not_take_the_carry_in() {
    let mut cpu = MyCPU::new();
    cpu.register_a = 0b0100_0000;
    cpu.status.insert(CpuFlags::CARRY());
    cpu.load(vec![0x2A, 0x6A, 0x6A]);

    assert_eq!(None, cpu.step());
    assert_eq!(0b1000_0000, cpu.register_a);
    assert!(!cpu.status.contains(CpuFlags::CARRY()));

    assert_eq!(None, cpu.step());
    assert_eq!(0b0100_0000, cpu.register_a);
    assert_eq!(None, cpu.step());
    assert_eq!(0b0010_0000, cpu.register_a);
}

#[test]
fn addressing_modes_resolve_as_documented() {
    let mut regs = registers();
    let mut ram = Ram::new();
    regs.pc = 0x8001;
    regs.x = 0x04;
    regs.y = 0x10;
    ram.mem_write(0x8001, 0xFE);
    ram.mem_write(0x8002, 0x12);
    // zero page bytes for the indirect modes
    ram.mem_write(0x0002, 0x34);
    ram.mem_write(0x0003, 0x56);
    ram.mem_write(0x00FE, 0xF8);
    ram.mem_write(0x00FF, 0xFF);
    ram.mem_write(0x0000, 0x20);

    assert_eq!(0x8001, get_operand_address(&regs, &ram, &AddressingMode::Immediate));
    assert_eq!(0x00FE, get_operand_address(&regs, &ram, &AddressingMode::ZeroPage));
    assert_eq!(0x0002, get_operand_address(&regs, &ram, &AddressingMode::ZeroPage_X));
    assert_eq!(0x000E, get_operand_address(&regs, &ram, &AddressingMode::ZeroPage_Y));
    assert_eq!(0x12FE, get_operand_address(&regs, &ram, &AddressingMode::Absolute));
    assert_eq!(0x1302, get_operand_address(&regs, &ram, &AddressingMode::Absolute_X));
    assert_eq!(0x130E, get_operand_address(&regs, &ram, &AddressingMode::Absolute_Y));
    assert_eq!(0x5634, get_operand_address(&regs, &ram, &AddressingMode::Indirect_X));
    assert_eq!(0x0008, get_operand_address(&regs, &ram, &AddressingMode::Indirect_Y));
}

#[test]
fn indirect_pointer_wraps_inside_page_zero() {
    let mut regs = registers();
    let mut ram = Ram::new();
    regs.pc = 0x8001;
    regs.x = 0x00;
    regs.y = 0x01;
    ram.mem_write(0x8001, 0xFF);
    ram.mem_write(0x00FF, 0x34);
    ram.mem_write(0x0000, 0x12);
    ram.mem_write(0x0100, 0x99);

    assert_eq!(0x1234, get_operand_address(&regs, &ram, &AddressingMode::Indirect_X));
    assert_eq!(0x1235, get_operand_address(&regs, &ram, &AddressingMode::Indirect_Y));
}

#[test]
fn absolute_indexed_wraps_around_the_address_space() {
    let mut regs = registers();
    let mut ram = Ram::new();
    regs.pc = 0x8001;
    regs.x = 0x02;
    ram.mem_write(0x8001, 0xFF);
    ram.mem_write(0x8002, 0xFF);

    assert_eq!(0x0001, get_operand_address(&regs, &ram, &AddressingMode::Absolute_X));
}

#[test]
fn words_are_little_endian_and_wrap_at_the_end_of_memory() {
    let mut ram = Ram::new();
    ram.mem_write_u16(0x1000, 0xABCD);
    assert_eq!(0xCD, ram.mem_read(0x1000));
    assert_eq!(0xAB, ram.mem_read(0x1001));
    assert_eq!(0xABCD, ram.mem_read_u16(0x1000));

    ram.mem_write_u16(0xFFFF, 0x1234);
    assert_eq!(0x34, ram.mem_read(0xFFFF));
    assert_eq!(0x12, ram.mem_read(0x0000));
    assert_eq!(0x1234, ram.mem_read_u16(0xFFFF));
}

#[test]
fn unknown_opcode_stops_the_run_and_reports_where() {
    let mut cpu = MyCPU::new();
    let stop = cpu.load_and_run(vec![0xE8, 0x02]);

    assert_eq!(
        Stop::UnknownOpcode { code: 0x02, program_counter: 0x8002, status: 0b0010_0100 },
        stop
    );
    assert_eq!(1, cpu.register_x);
    assert_eq!(0x8002, cpu.program_counter);
}

#[test]
fn brk_stops_the_run_behind_the_opcode_byte() {
    let mut cpu = MyCPU::new();
    let stop = cpu.load_and_run(vec![0x00, 0xE8]);

    assert_eq!(Stop::Break, stop);
    assert_eq!(0, cpu.register_x);
    assert_eq!(0x8001, cpu.program_counter);
    assert_eq!(0b0010_0100, cpu.status.bits());
    assert_eq!(0xFF, cpu.stack_pointer);
}

#[test]
fn a_run_gives_up_at_its_budget() {
    // JMP $8000
    let mut regs = registers();
    let mut ram = Ram::new();
    ram.mem_write(0x8000, 0x4C);
    ram.mem_write(0x8001, 0x00);
    ram.mem_write(0x8002, 0x80);

    assert_eq!(Stop::StepLimit, run(&mut regs, &mut ram, 1000));
    assert_eq!(0x8000, regs.pc);
    assert_eq!(Stop::StepLimit, run(&mut regs, &mut ram, 0));
}

#[test]
fn a_run_within_its_budget_ends_on_brk() {
    let mut regs = registers();
    let mut ram = Ram::new();
    ram.mem_write(0x8000, 0xE8);
    ram.mem_write(0x8001, 0xE8);

    assert_eq!(Stop::Break, run(&mut regs, &mut ram, 3));
    assert_eq!(2, regs.x);
    assert_eq!(0x8003, regs.pc);
}

#[test]
fn step_skips_the_operand_bytes_unless_the_instruction_jumped() {
    let mut regs = registers();
    let mut ram = Ram::new();
    ram.mem_write(0x8000, 0xAD);
    ram.mem_write(0x8001, 0x00);
    ram.mem_write(0x8002, 0x20);
    assert_eq!(None, step(&mut regs, &mut ram));
    assert_eq!(0x8003, regs.pc);

    // a branch back onto its own displacement byte counts as not having moved
    ram.mem_write(0x8003, 0xD0);
    ram.mem_write(0x8004, 0xFF);
    assert_eq!(None, step(&mut regs, &mut ram));
    assert_eq!(0x8005, regs.pc);
}

#[test]
fn the_program_counter_wraps_at_the_end_of_memory() {
    let mut regs = registers();
    let mut ram = Ram::new();
    regs.pc = 0xFFFF;
    ram.mem_write(0xFFFF, 0xE8);
    assert_eq!(None, step(&mut regs, &mut ram));
    assert_eq!(0x0000, regs.pc);
    assert_eq!(1, regs.x);
}

#[test]
fn the_table_has_the_151_official_opcodes() {
    let mut count = 0;
    for code in 0..=255u8 {
        if let Some(opcode) = lookup(code) {
            count += 1;
            assert_eq!(code, opcode.code);
            assert!(1 <= opcode.len && opcode.len <= 3);
            assert_eq!(opcode.mnemonic, opcode.instruction.mnemonic());
            assert_eq!(3, opcode.mnemonic.len());
        }
    }
    assert_eq!(151, count);
}

#[test]
fn the_table_describes_single_entries() {
    let lda = lookup(0xB1).unwrap();
    assert_eq!("LDA", lda.mnemonic);
    assert_eq!(Instruction::LDA, lda.instruction);
    assert_eq!(2, lda.len);
    assert_eq!(5, lda.cycles);
    assert_eq!(AddressingMode::Indirect_Y, lda.mode);

    let jmp = lookup(0x6C).unwrap();
    assert_eq!("JMP", jmp.mnemonic);
    assert_eq!(3, jmp.len);
    assert_eq!(AddressingMode::NoneAddressing, jmp.mode);

    let brk = lookup(0x00).unwrap();
    assert_eq!("BRK", brk.mnemonic);
    assert_eq!(1, brk.len);
    assert_eq!(7, brk.cycles);

    assert!(lookup(0x02).is_none());
    assert!(lookup(0xFF).is_none());
}
