//! The fetch-decode-execute loop: one step of the machine, and running it
//! until it stops.

use vstd::prelude::*;
use crate::alu::{
    adc,
    adc_spec,
    and,
    and_spec,
    asl,
    asl_spec,
    bit,
    bit_spec,
    cmp,
    cmp_spec,
    cpx,
    cpx_spec,
    cpy,
    cpy_spec,
    dec,
    dec_spec,
    dex,
    dex_spec,
    dey,
    dey_spec,
    eor,
    eor_spec,
    inc,
    inc_spec,
    inx,
    inx_spec,
    iny,
    iny_spec,
    lsr,
    lsr_spec,
    ora,
    ora_spec,
    rol,
    rol_spec,
    ror,
    ror_spec,
    sbc,
    sbc_spec,
};
use crate::control::{
    bcc,
    bcc_spec,
    bcs,
    bcs_spec,
    beq,
    beq_spec,
    bmi,
    bmi_spec,
    bne,
    bne_spec,
    bpl,
    bpl_spec,
    bvc,
    bvc_spec,
    bvs,
    bvs_spec,
    jmp,
    jmp_spec,
    jsr,
    jsr_spec,
    rti,
    rti_spec,
    rts,
    rts_spec,
};
use crate::flags::{CARRY, DECIMAL_MODE, INTERRUPT_DISABLE, OVERFLOW};
use crate::memory::MyMem;
use crate::opcodes::{
    lemma_table_consistent,
    lookup,
    needs_operand_address,
    opcode_of,
    AddressingMode,
    Instruction,
    OpCode,
};
use crate::stack::{pha, pha_spec, php, php_spec, pla, pla_spec, plp, plp_spec};
use crate::state::{machine, Machine, RegisterFile, Registers};
use crate::transfer::{
    clc,
    cld,
    cli,
    clv,
    lda,
    lda_spec,
    ldx,
    ldx_spec,
    ldy,
    ldy_spec,
    nop,
    sec,
    sed,
    sei,
    sta,
    sta_spec,
    stx,
    stx_spec,
    sty,
    sty_spec,
    tax,
    tax_spec,
    tay,
    tay_spec,
    tsx,
    tsx_spec,
    txa,
    txa_spec,
    txs,
    txs_spec,
    tya,
    tya_spec,
    with_flag,
};

verus! {

/// Why the machine stopped.
#[derive(Clone, Copy, Debug, PartialEq, Eq, Structural)]
pub enum Stop {
    /// BRK was executed: the program is over.
    Break,
    /// The byte fetched is no instruction of this processor. `code` is that
    /// byte, `program_counter` the address behind it, `status` the status
    /// byte at that moment.
    UnknownOpcode { code: u8, program_counter: u16, status: u8 },
    /// As many instructions as were allowed have been executed, and the
    /// program is not over.
    StepLimit,
}

/// The machine with other registers and the same memory.
pub open spec fn with_regs(s: Machine, regs: RegisterFile) -> Machine {
    Machine { regs, ..s }
}

/// What an instruction that works on registers alone does to them. Any
/// other instruction, and BRK, which ends the run, changes nothing here.
pub open spec fn execute_implied_spec(instruction: Instruction, r: RegisterFile) -> RegisterFile {
    match instruction {
        Instruction::CLC => with_flag(r, CARRY, false),
        Instruction::CLD => with_flag(r, DECIMAL_MODE, false),
        Instruction::CLI => with_flag(r, INTERRUPT_DISABLE, false),
        Instruction::CLV => with_flag(r, OVERFLOW, false),
        Instruction::SEC => with_flag(r, CARRY, true),
        Instruction::SED => with_flag(r, DECIMAL_MODE, true),
        Instruction::SEI => with_flag(r, INTERRUPT_DISABLE, true),
        Instruction::DEX => dex_spec(r),
        Instruction::DEY => dey_spec(r),
        Instruction::INX => inx_spec(r),
        Instruction::INY => iny_spec(r),
        Instruction::TAX => tax_spec(r),
        Instruction::TAY => tay_spec(r),
        Instruction::TSX => tsx_spec(r),
        Instruction::TXA => txa_spec(r),
        Instruction::TXS => txs_spec(r),
        Instruction::TYA => tya_spec(r),
        _ => r,
    }
}

/// What an instruction that reads its operand does to the registers, with
/// the program counter behind the opcode byte. Any other instruction changes
/// nothing here.
pub open spec fn execute_read_spec(
    instruction: Instruction,
    mode: AddressingMode,
    s: Machine,
) -> Machine {
    match instruction {
        Instruction::ADC => adc_spec(s, mode),
        Instruction::AND => and_spec(s, mode),
        Instruction::BIT => bit_spec(s, mode),
        Instruction::CMP => cmp_spec(s, mode),
        Instruction::CPX => cpx_spec(s, mode),
        Instruction::CPY => cpy_spec(s, mode),
        Instruction::EOR => eor_spec(s, mode),
        Instruction::LDA => lda_spec(s, mode),
        Instruction::LDX => ldx_spec(s, mode),
        Instruction::LDY => ldy_spec(s, mode),
        Instruction::ORA => ora_spec(s, mode),
        Instruction::SBC => sbc_spec(s, mode),
        _ => s,
    }
}

/// What an instruction that writes where its operand lies does to the
/// machine, with the program counter behind the opcode byte. Any other
/// instruction changes nothing here.
pub open spec fn execute_write_spec(
    instruction: Instruction,
    mode: AddressingMode,
    s: Machine,
) -> Machine {
    match instruction {
        Instruction::ASL => asl_spec(s, mode),
        Instruction::DEC => dec_spec(s, mode),
        Instruction::INC => inc_spec(s, mode),
        Instruction::LSR => lsr_spec(s, mode),
        Instruction::ROL => rol_spec(s, mode),
        Instruction::ROR => ror_spec(s, mode),
        Instruction::STA => sta_spec(s, mode),
        Instruction::STX => stx_spec(s, mode),
        Instruction::STY => sty_spec(s, mode),
        _ => s,
    }
}

/// What a branch, a jump, a subroutine call or return, or a stack
/// instruction does to the machine, with the program counter behind the
/// opcode byte. Any other instruction changes nothing here.
pub open spec fn execute_flow_spec(
    instruction: Instruction,
    mode: AddressingMode,
    s: Machine,
) -> Machine {
    match instruction {
        Instruction::BCC => bcc_spec(s),
        Instruction::BCS => bcs_spec(s),
        Instruction::BEQ => beq_spec(s),
        Instruction::BMI => bmi_spec(s),
        Instruction::BNE => bne_spec(s),
        Instruction::BPL => bpl_spec(s),
        Instruction::BVC => bvc_spec(s),
        Instruction::BVS => bvs_spec(s),
        Instruction::JMP => jmp_spec(s, mode),
        Instruction::JSR => jsr_spec(s),
        Instruction::RTS => rts_spec(s),
        Instruction::RTI => rti_spec(s),
        Instruction::PHA => pha_spec(s),
        Instruction::PHP => php_spec(s),
        Instruction::PLA => pla_spec(s),
        Instruction::PLP => plp_spec(s),
        _ => s,
    }
}

/// What `instruction` does to the machine under addressing mode `mode`, with
/// the program counter behind the opcode byte.
pub open spec fn execute_spec(instruction: Instruction, mode: AddressingMode, s: Machine) -> Machine {
    match instruction {
        Instruction::CLC
        | Instruction::CLD
        | Instruction::CLI
        | Instruction::CLV
        | Instruction::SEC
        | Instruction::SED
        | Instruction::SEI
        | Instruction::DEX
        | Instruction::DEY
        | Instruction::INX
        | Instruction::INY
        | Instruction::NOP
        | Instruction::TAX
        | Instruction::TAY
        | Instruction::TSX
        | Instruction::TXA
        | Instruction::TXS
        | Instruction::TYA
        | Instruction::BRK => with_regs(
            s,
            execute_implied_spec(instruction, s.regs),
        ),
        Instruction::ADC
        | Instruction::AND
        | Instruction::BIT
        | Instruction::CMP
        | Instruction::CPX
        | Instruction::CPY
        | Instruction::EOR
        | Instruction::LDA
        | Instruction::LDX
        | Instruction::LDY
        | Instruction::ORA
        | Instruction::SBC => execute_read_spec(instruction, mode, s),
        Instruction::ASL
        | Instruction::DEC
        | Instruction::INC
        | Instruction::LSR
        | Instruction::ROL
        | Instruction::ROR
        | Instruction::STA
        | Instruction::STX
        | Instruction::STY => execute_write_spec(instruction, mode, s),
        Instruction::BCC
        | Instruction::BCS
        | Instruction::BEQ
        | Instruction::BMI
        | Instruction::BNE
        | Instruction::BPL
        | Instruction::BVC
        | Instruction::BVS
        | Instruction::JMP
        | Instruction::JSR
        | Instruction::RTS
        | Instruction::RTI
        | Instruction::PHA
        | Instruction::PHP
        | Instruction::PLA
        | Instruction::PLP => execute_flow_spec(instruction, mode, s),
    }
}

/// The machine after the opcode byte was fetched: the program counter stands
/// behind it.
pub open spec fn fetched(s: Machine) -> Machine {
    with_regs(s, RegisterFile { pc: s.regs.pc.wrapping_add(1), ..s.regs })
}

/// The machine after an instruction of `len` bytes was executed from `before`
/// and left it as `after`: if the instruction did not move the program
/// counter itself, the counter is moved over the operand bytes.
pub open spec fn advanced(before: Machine, after: Machine, len: u8) -> Machine {
    if after.regs.pc == before.regs.pc {
        with_regs(
            after,
            RegisterFile { pc: after.regs.pc.wrapping_add((len - 1) as u16), ..after.regs },
        )
    } else {
        after
    }
}

/// One step: fetch the opcode byte at the program counter, move the counter
/// behind it, look the byte up, execute the instruction, and move the counter
/// over the operand bytes unless the instruction moved it. The step ends the
/// run on BRK and on a byte that is no instruction.
pub open spec fn step_spec(s: Machine) -> (Machine, Option<Stop>) {
    let code = s.mem[s.regs.pc as int];
    let start = fetched(s);
    match opcode_of(code) {
        None => (
            start,
            Some(
                Stop::UnknownOpcode {
                    code,
                    program_counter: start.regs.pc,
                    status: start.regs.status,
                },
            ),
        ),
        Some(opcode) => if opcode.instruction == Instruction::BRK {
            (start, Some(Stop::Break))
        } else {
            (
                advanced(
                    start,
                    execute_spec(opcode.instruction, opcode.mode, start),
                    opcode.len,
                ),
                None,
            )
        },
    }
}

/// Running from `s` for at most `budget` steps: the machine as it stops, and
/// why it stops.
pub open spec fn run_spec(s: Machine, budget: nat) -> (Machine, Stop)
    decreases budget,
{
    if budget == 0 {
        (s, Stop::StepLimit)
    } else {
        let (next, stop) = step_spec(s);
        match stop {
            Some(reason) => (next, reason),
            None => run_spec(next, (budget - 1) as nat),
        }
    }
}

/// Executes an instruction that works on registers alone.
pub fn execute_implied(regs: &mut Registers, instruction: Instruction)
    ensures
        final(regs)@ == execute_implied_spec(instruction, old(regs)@),
{
    match instruction {
        Instruction::CLC => clc(regs),
        Instruction::CLD => cld(regs),
        Instruction::CLI => cli(regs),
        Instruction::CLV => clv(regs),
        Instruction::SEC => sec(regs),
        Instruction::SED => sed(regs),
        Instruction::SEI => sei(regs),
        Instruction::DEX => dex(regs),
        Instruction::DEY => dey(regs),
        Instruction::INX => inx(regs),
        Instruction::INY => iny(regs),
        Instruction::NOP => nop(regs),
        Instruction::TAX => tax(regs),
        Instruction::TAY => tay(regs),
        Instruction::TSX => tsx(regs),
        Instruction::TXA => txa(regs),
        Instruction::TXS => txs(regs),
        Instruction::TYA => tya(regs),
        _ => {},
    }
}

/// Executes an instruction that reads its operand.
pub fn execute_read<M: MyMem>(
    regs: &mut Registers,
    mem: &M,
    instruction: Instruction,
    mode: &AddressingMode,
)
    requires
        needs_operand_address(instruction) ==> *mode != AddressingMode::NoneAddressing,
    ensures
        machine(final(regs)@, mem.memory()) == execute_read_spec(
            instruction,
            *mode,
            machine(old(regs)@, mem.memory()),
        ),
{
    match instruction {
        Instruction::ADC => adc(regs, mem, mode),
        Instruction::AND => and(regs, mem, mode),
        Instruction::BIT => bit(regs, mem, mode),
        Instruction::CMP => cmp(regs, mem, mode),
        Instruction::CPX => cpx(regs, mem, mode),
        Instruction::CPY => cpy(regs, mem, mode),
        Instruction::EOR => eor(regs, mem, mode),
        Instruction::LDA => lda(regs, mem, mode),
        Instruction::LDX => ldx(regs, mem, mode),
        Instruction::LDY => ldy(regs, mem, mode),
        Instruction::ORA => ora(regs, mem, mode),
        Instruction::SBC => sbc(regs, mem, mode),
        _ => {},
    }
}

/// Executes an instruction that writes where its operand lies.
pub fn execute_write<M: MyMem>(
    regs: &mut Registers,
    mem: &mut M,
    instruction: Instruction,
    mode: &AddressingMode,
)
    requires
        needs_operand_address(instruction) ==> *mode != AddressingMode::NoneAddressing,
    ensures
        machine(final(regs)@, final(mem).memory()) == execute_write_spec(
            instruction,
            *mode,
            machine(old(regs)@, old(mem).memory()),
        ),
{
    match instruction {
        Instruction::ASL => asl(regs, mem, mode),
        Instruction::DEC => dec(regs, mem, mode),
        Instruction::INC => inc(regs, mem, mode),
        Instruction::LSR => lsr(regs, mem, mode),
        Instruction::ROL => rol(regs, mem, mode),
        Instruction::ROR => ror(regs, mem, mode),
        Instruction::STA => sta(regs, mem, mode),
        Instruction::STX => stx(regs, mem, mode),
        Instruction::STY => sty(regs, mem, mode),
        _ => {},
    }
}

/// Executes a branch, a jump, a subroutine call or return, or a stack
/// instruction.
pub fn execute_flow<M: MyMem>(
    regs: &mut Registers,
    mem: &mut M,
    instruction: Instruction,
    mode: &AddressingMode,
)
    ensures
        machine(final(regs)@, final(mem).memory()) == execute_flow_spec(
            instruction,
            *mode,
            machine(old(regs)@, old(mem).memory()),
        ),
{
    match instruction {
        Instruction::BCC => bcc(regs, mem),
        Instruction::BCS => bcs(regs, mem),
        Instruction::BEQ => beq(regs, mem),
        Instruction::BMI => bmi(regs, mem),
        Instruction::BNE => bne(regs, mem),
        Instruction::BPL => bpl(regs, mem),
        Instruction::BVC => bvc(regs, mem),
        Instruction::BVS => bvs(regs, mem),
        Instruction::JMP => jmp(regs, mem, mode),
        Instruction::JSR => jsr(regs, mem),
        Instruction::RTS => rts(regs, mem),
        Instruction::RTI => rti(regs, mem),
        Instruction::PHA => pha(regs, mem),
        Instruction::PHP => php(regs, mem),
        Instruction::PLA => pla(regs, mem),
        Instruction::PLP => plp(regs, mem),
        _ => {},
    }
}

/// Executes the instruction that `opcode` describes, with the program counter
/// behind the opcode byte.
pub fn execute<M: MyMem>(regs: &mut Registers, mem: &mut M, opcode: &OpCode)
    requires
        needs_operand_address(opcode.instruction) ==> opcode.mode
            != AddressingMode::NoneAddressing,
    ensures
        machine(final(regs)@, final(mem).memory()) == execute_spec(
            opcode.instruction,
            opcode.mode,
            machine(old(regs)@, old(mem).memory()),
        ),
{
    match opcode.instruction {
        Instruction::CLC
        | Instruction::CLD
        | Instruction::CLI
        | Instruction::CLV
        | Instruction::SEC
        | Instruction::SED
        | Instruction::SEI
        | Instruction::DEX
        | Instruction::DEY
        | Instruction::INX
        | Instruction::INY
        | Instruction::NOP
        | Instruction::TAX
        | Instruction::TAY
        | Instruction::TSX
        | Instruction::TXA
        | Instruction::TXS
        | Instruction::TYA
        | Instruction::BRK => execute_implied(regs, opcode.instruction),
        Instruction::ADC
        | Instruction::AND
        | Instruction::BIT
        | Instruction::CMP
        | Instruction::CPX
        | Instruction::CPY
        | Instruction::EOR
        | Instruction::LDA
        | Instruction::LDX
        | Instruction::LDY
        | Instruction::ORA
        | Instruction::SBC => execute_read(regs, mem, opcode.instruction, &opcode.mode),
        Instruction::ASL
        | Instruction::DEC
        | Instruction::INC
        | Instruction::LSR
        | Instruction::ROL
        | Instruction::ROR
        | Instruction::STA
        | Instruction::STX
        | Instruction::STY => execute_write(regs, mem, opcode.instruction, &opcode.mode),
        Instruction::BCC
        | Instruction::BCS
        | Instruction::BEQ
        | Instruction::BMI
        | Instruction::BNE
        | Instruction::BPL
        | Instruction::BVC
        | Instruction::BVS
        | Instruction::JMP
        | Instruction::JSR
        | Instruction::RTS
        | Instruction::RTI
        | Instruction::PHA
        | Instruction::PHP
        | Instruction::PLA
        | Instruction::PLP => execute_flow(regs, mem, opcode.instruction, &opcode.mode),
    }
}

/// Executes one instruction and says whether it ended the run.
pub fn step<M: MyMem>(regs: &mut Registers, mem: &mut M) -> (stop: Option<Stop>)
    ensures
        (machine(final(regs)@, final(mem).memory()), stop) == step_spec(
            machine(old(regs)@, old(mem).memory()),
        ),
{
    let code = mem.mem_read(regs.pc);
    regs.pc = regs.pc.wrapping_add(1);
    let program_counter_state = regs.pc;
    match lookup(code) {
        None => Some(
            Stop::UnknownOpcode { code, program_counter: regs.pc, status: regs.status.bits() },
        ),
        Some(opcode) => {
            if matches!(opcode.instruction, Instruction::BRK) {
                return Some(Stop::Break);
            }
            proof {
                lemma_table_consistent(code);
            }
            execute(regs, mem, &opcode);
            if program_counter_state == regs.pc {
                regs.pc = regs.pc.wrapping_add((opcode.len - 1) as u16);
            }
            None
        },
    }
}

/// Executes instructions until one ends the run or `budget` of them have
/// been executed.
pub fn run<M: MyMem>(regs: &mut Registers, mem: &mut M, budget: u64) -> (stop: Stop)
    ensures
        (machine(final(regs)@, final(mem).memory()), stop) == run_spec(
            machine(old(regs)@, old(mem).memory()),
            budget as nat,
        ),
{
    let mut left: u64 = budget;
    while left > 0
        invariant
            run_spec(machine(regs@, mem.memory()), left as nat) == run_spec(
                machine(old(regs)@, old(mem).memory()),
                budget as nat,
            ),
        decreases left,
    {
        match step(regs, mem) {
            Some(reason) => {
                return reason;
            },
            None => {
                left = left - 1;
            },
        }
    }
    Stop::StepLimit
}

} // verus!
