//! The opcode table: for each opcode byte of an implemented instruction, the
//! instruction, its length in bytes, its base cycle count and its addressing
//! mode. A byte without an entry is not an instruction of this processor.

use vstd::prelude::*;

verus! {

/// How an instruction finds its operand.
#[derive(Clone, Copy, Debug, PartialEq, Eq, Structural)]
#[allow(non_camel_case_types)]
pub enum AddressingMode {
    /// The operand is the byte after the opcode.
    Immediate,
    /// The byte after the opcode is an address in page zero.
    ZeroPage,
    /// As `ZeroPage`, with X added and the sum kept in page zero.
    ZeroPage_X,
    /// As `ZeroPage`, with Y added and the sum kept in page zero.
    ZeroPage_Y,
    /// The two bytes after the opcode are the address.
    Absolute,
    /// As `Absolute`, with X added.
    Absolute_X,
    /// As `Absolute`, with Y added.
    Absolute_Y,
    /// The byte after the opcode plus X is where, in page zero, the address
    /// is stored.
    Indirect_X,
    /// The byte after the opcode is where, in page zero, an address is
    /// stored, to which Y is added.
    Indirect_Y,
    /// No operand address: the instruction works on registers alone, on the
    /// accumulator, or finds its target itself.
    NoneAddressing,
}

/// The instructions, by mnemonic.
#[derive(Clone, Copy, Debug, PartialEq, Eq, Structural)]
pub enum Instruction {
    ADC,
    AND,
    ASL,
    BCC,
    BCS,
    BEQ,
    BIT,
    BMI,
    BNE,
    BPL,
    BRK,
    BVC,
    BVS,
    CLC,
    CLD,
    CLI,
    CLV,
    CMP,
    CPX,
    CPY,
    DEC,
    DEX,
    DEY,
    EOR,
    INC,
    INX,
    INY,
    JMP,
    JSR,
    LDA,
    LDX,
    LDY,
    LSR,
    NOP,
    ORA,
    PHA,
    PHP,
    PLA,
    PLP,
    ROL,
    ROR,
    RTI,
    RTS,
    SBC,
    SEC,
    SED,
    SEI,
    STA,
    STX,
    STY,
    TAX,
    TAY,
    TSX,
    TXA,
    TXS,
    TYA,
}

/// The three-letter name of an instruction.
pub open spec fn mnemonic_of(instruction: Instruction) -> &'static str {
    match instruction {
        Instruction::ADC => "ADC",
        Instruction::AND => "AND",
        Instruction::ASL => "ASL",
        Instruction::BCC => "BCC",
        Instruction::BCS => "BCS",
        Instruction::BEQ => "BEQ",
        Instruction::BIT => "BIT",
        Instruction::BMI => "BMI",
        Instruction::BNE => "BNE",
        Instruction::BPL => "BPL",
        Instruction::BRK => "BRK",
        Instruction::BVC => "BVC",
        Instruction::BVS => "BVS",
        Instruction::CLC => "CLC",
        Instruction::CLD => "CLD",
        Instruction::CLI => "CLI",
        Instruction::CLV => "CLV",
        Instruction::CMP => "CMP",
        Instruction::CPX => "CPX",
        Instruction::CPY => "CPY",
        Instruction::DEC => "DEC",
        Instruction::DEX => "DEX",
        Instruction::DEY => "DEY",
        Instruction::EOR => "EOR",
        Instruction::INC => "INC",
        Instruction::INX => "INX",
        Instruction::INY => "INY",
        Instruction::JMP => "JMP",
        Instruction::JSR => "JSR",
        Instruction::LDA => "LDA",
        Instruction::LDX => "LDX",
        Instruction::LDY => "LDY",
        Instruction::LSR => "LSR",
        Instruction::NOP => "NOP",
        Instruction::ORA => "ORA",
        Instruction::PHA => "PHA",
        Instruction::PHP => "PHP",
        Instruction::PLA => "PLA",
        Instruction::PLP => "PLP",
        Instruction::ROL => "ROL",
        Instruction::ROR => "ROR",
        Instruction::RTI => "RTI",
        Instruction::RTS => "RTS",
        Instruction::SBC => "SBC",
        Instruction::SEC => "SEC",
        Instruction::SED => "SED",
        Instruction::SEI => "SEI",
        Instruction::STA => "STA",
        Instruction::STX => "STX",
        Instruction::STY => "STY",
        Instruction::TAX => "TAX",
        Instruction::TAY => "TAY",
        Instruction::TSX => "TSX",
        Instruction::TXA => "TXA",
        Instruction::TXS => "TXS",
        Instruction::TYA => "TYA",
    }
}

impl Instruction {
    /// The three-letter name.
    pub fn mnemonic(&self) -> (r: &'static str)
        ensures
            r == mnemonic_of(*self),
    {
        match self {
            Instruction::ADC => "ADC",
            Instruction::AND => "AND",
            Instruction::ASL => "ASL",
            Instruction::BCC => "BCC",
            Instruction::BCS => "BCS",
            Instruction::BEQ => "BEQ",
            Instruction::BIT => "BIT",
            Instruction::BMI => "BMI",
            Instruction::BNE => "BNE",
            Instruction::BPL => "BPL",
            Instruction::BRK => "BRK",
            Instruction::BVC => "BVC",
            Instruction::BVS => "BVS",
            Instruction::CLC => "CLC",
            Instruction::CLD => "CLD",
            Instruction::CLI => "CLI",
            Instruction::CLV => "CLV",
            Instruction::CMP => "CMP",
            Instruction::CPX => "CPX",
            Instruction::CPY => "CPY",
            Instruction::DEC => "DEC",
            Instruction::DEX => "DEX",
            Instruction::DEY => "DEY",
            Instruction::EOR => "EOR",
            Instruction::INC => "INC",
            Instruction::INX => "INX",
            Instruction::INY => "INY",
            Instruction::JMP => "JMP",
            Instruction::JSR => "JSR",
            Instruction::LDA => "LDA",
            Instruction::LDX => "LDX",
            Instruction::LDY => "LDY",
            Instruction::LSR => "LSR",
            Instruction::NOP => "NOP",
            Instruction::ORA => "ORA",
            Instruction::PHA => "PHA",
            Instruction::PHP => "PHP",
            Instruction::PLA => "PLA",
            Instruction::PLP => "PLP",
            Instruction::ROL => "ROL",
            Instruction::ROR => "ROR",
            Instruction::RTI => "RTI",
            Instruction::RTS => "RTS",
            Instruction::SBC => "SBC",
            Instruction::SEC => "SEC",
            Instruction::SED => "SED",
            Instruction::SEI => "SEI",
            Instruction::STA => "STA",
            Instruction::STX => "STX",
            Instruction::STY => "STY",
            Instruction::TAX => "TAX",
            Instruction::TAY => "TAY",
            Instruction::TSX => "TSX",
            Instruction::TXA => "TXA",
            Instruction::TXS => "TXS",
            Instruction::TYA => "TYA",
        }
    }
}

/// What the table says of one opcode byte.
#[derive(Clone, Copy, Debug)]
pub struct OpCode {
    /// The opcode byte.
    pub code: u8,
    /// The instruction that the byte stands for.
    pub instruction: Instruction,
    /// The instruction's three-letter name.
    pub mnemonic: &'static str,
    /// Bytes the instruction takes, the opcode byte included.
    pub len: u8,
    /// Base number of clock cycles; kept for information, nothing counts them.
    pub cycles: u8,
    /// How the instruction finds its operand.
    pub mode: AddressingMode,
}

/// The descriptor with the given fields.
pub open spec fn descriptor(
    code: u8,
    instruction: Instruction,
    len: u8,
    cycles: u8,
    mode: AddressingMode,
) -> OpCode {
    OpCode { code, instruction, mnemonic: mnemonic_of(instruction), len, cycles, mode }
}

impl OpCode {
    /// The descriptor with the given fields, named after its instruction.
    fn new(code: u8, instruction: Instruction, len: u8, cycles: u8, mode: AddressingMode) -> (r:
        Self)
        ensures
            r == descriptor(code, instruction, len, cycles, mode),
    {
        OpCode { code, instruction, mnemonic: instruction.mnemonic(), len, cycles, mode }
    }
}

/// The table: the descriptor of `code`, or `None` where `code` is no
/// implemented instruction.
pub open spec fn opcode_of(code: u8) -> Option<OpCode> {
    match code {
        0x69 => Some(descriptor(0x69, Instruction::ADC, 2, 2, AddressingMode::Immediate)),
        0x65 => Some(descriptor(0x65, Instruction::ADC, 2, 3, AddressingMode::ZeroPage)),
        0x75 => Some(descriptor(0x75, Instruction::ADC, 2, 4, AddressingMode::ZeroPage_X)),
        0x6D => Some(descriptor(0x6D, Instruction::ADC, 3, 4, AddressingMode::Absolute)),
        0x7D => Some(descriptor(0x7D, Instruction::ADC, 3, 4, AddressingMode::Absolute_X)),
        0x79 => Some(descriptor(0x79, Instruction::ADC, 3, 4, AddressingMode::Absolute_Y)),
        0x61 => Some(descriptor(0x61, Instruction::ADC, 2, 6, AddressingMode::Indirect_X)),
        0x71 => Some(descriptor(0x71, Instruction::ADC, 2, 5, AddressingMode::Indirect_Y)),
        0x29 => Some(descriptor(0x29, Instruction::AND, 2, 2, AddressingMode::Immediate)),
        0x25 => Some(descriptor(0x25, Instruction::AND, 2, 3, AddressingMode::ZeroPage)),
        0x35 => Some(descriptor(0x35, Instruction::AND, 2, 4, AddressingMode::ZeroPage_X)),
        0x2D => Some(descriptor(0x2D, Instruction::AND, 3, 4, AddressingMode::Absolute)),
        0x3D => Some(descriptor(0x3D, Instruction::AND, 3, 4, AddressingMode::Absolute_X)),
        0x39 => Some(descriptor(0x39, Instruction::AND, 3, 4, AddressingMode::Absolute_Y)),
        0x21 => Some(descriptor(0x21, Instruction::AND, 2, 6, AddressingMode::Indirect_X)),
        0x31 => Some(descriptor(0x31, Instruction::AND, 2, 5, AddressingMode::Indirect_Y)),
        0x0A => Some(descriptor(0x0A, Instruction::ASL, 1, 2, AddressingMode::NoneAddressing)),
        0x06 => Some(descriptor(0x06, Instruction::ASL, 2, 5, AddressingMode::ZeroPage)),
        0x16 => Some(descriptor(0x16, Instruction::ASL, 2, 6, AddressingMode::ZeroPage_X)),
        0x0E => Some(descriptor(0x0E, Instruction::ASL, 3, 6, AddressingMode::Absolute)),
        0x1E => Some(descriptor(0x1E, Instruction::ASL, 3, 7, AddressingMode::Absolute_X)),
        0x90 => Some(descriptor(0x90, Instruction::BCC, 2, 2, AddressingMode::NoneAddressing)),
        0xB0 => Some(descriptor(0xB0, Instruction::BCS, 2, 2, AddressingMode::NoneAddressing)),
        0xF0 => Some(descriptor(0xF0, Instruction::BEQ, 2, 2, AddressingMode::NoneAddressing)),
        0x24 => Some(descriptor(0x24, Instruction::BIT, 2, 3, AddressingMode::ZeroPage)),
        0x2C => Some(descriptor(0x2C, Instruction::BIT, 3, 4, AddressingMode::Absolute)),
        0x30 => Some(descriptor(0x30, Instruction::BMI, 2, 2, AddressingMode::NoneAddressing)),
        0xD0 => Some(descriptor(0xD0, Instruction::BNE, 2, 2, AddressingMode::NoneAddressing)),
        0x10 => Some(descriptor(0x10, Instruction::BPL, 2, 2, AddressingMode::NoneAddressing)),
        0x00 => Some(descriptor(0x00, Instruction::BRK, 1, 7, AddressingMode::NoneAddressing)),
        0x50 => Some(descriptor(0x50, Instruction::BVC, 2, 2, AddressingMode::NoneAddressing)),
        0x70 => Some(descriptor(0x70, Instruction::BVS, 2, 2, AddressingMode::NoneAddressing)),
        0x18 => Some(descriptor(0x18, Instruction::CLC, 1, 2, AddressingMode::NoneAddressing)),
        0xD8 => Some(descriptor(0xD8, Instruction::CLD, 1, 2, AddressingMode::NoneAddressing)),
        0x58 => Some(descriptor(0x58, Instruction::CLI, 1, 2, AddressingMode::NoneAddressing)),
        0xB8 => Some(descriptor(0xB8, Instruction::CLV, 1, 2, AddressingMode::NoneAddressing)),
        0xC9 => Some(descriptor(0xC9, Instruction::CMP, 2, 2, AddressingMode::Immediate)),
        0xC5 => Some(descriptor(0xC5, Instruction::CMP, 2, 3, AddressingMode::ZeroPage)),
        0xD5 => Some(descriptor(0xD5, Instruction::CMP, 2, 4, AddressingMode::ZeroPage_X)),
        0xCD => Some(descriptor(0xCD, Instruction::CMP, 3, 4, AddressingMode::Absolute)),
        0xDD => Some(descriptor(0xDD, Instruction::CMP, 3, 4, AddressingMode::Absolute_X)),
        0xD9 => Some(descriptor(0xD9, Instruction::CMP, 3, 4, AddressingMode::Absolute_Y)),
        0xC1 => Some(descriptor(0xC1, Instruction::CMP, 2, 6, AddressingMode::Indirect_X)),
        0xD1 => Some(descriptor(0xD1, Instruction::CMP, 2, 5, AddressingMode::Indirect_Y)),
        0xE0 => Some(descriptor(0xE0, Instruction::CPX, 2, 2, AddressingMode::Immediate)),
        0xE4 => Some(descriptor(0xE4, Instruction::CPX, 2, 3, AddressingMode::ZeroPage)),
        0xEC => Some(descriptor(0xEC, Instruction::CPX, 3, 4, AddressingMode::Absolute)),
        0xC0 => Some(descriptor(0xC0, Instruction::CPY, 2, 2, AddressingMode::Immediate)),
        0xC4 => Some(descriptor(0xC4, Instruction::CPY, 2, 3, AddressingMode::ZeroPage)),
        0xCC => Some(descriptor(0xCC, Instruction::CPY, 3, 4, AddressingMode::Absolute)),
        0xC6 => Some(descriptor(0xC6, Instruction::DEC, 2, 5, AddressingMode::ZeroPage)),
        0xD6 => Some(descriptor(0xD6, Instruction::DEC, 2, 6, AddressingMode::ZeroPage_X)),
        0xCE => Some(descriptor(0xCE, Instruction::DEC, 3, 6, AddressingMode::Absolute)),
        0xDE => Some(descriptor(0xDE, Instruction::DEC, 3, 7, AddressingMode::Absolute_X)),
        0xCA => Some(descriptor(0xCA, Instruction::DEX, 1, 2, AddressingMode::NoneAddressing)),
        0x88 => Some(descriptor(0x88, Instruction::DEY, 1, 2, AddressingMode::NoneAddressing)),
        0x49 => Some(descriptor(0x49, Instruction::EOR, 2, 2, AddressingMode::Immediate)),
        0x45 => Some(descriptor(0x45, Instruction::EOR, 2, 3, AddressingMode::ZeroPage)),
        0x55 => Some(descriptor(0x55, Instruction::EOR, 2, 4, AddressingMode::ZeroPage_X)),
        0x4D => Some(descriptor(0x4D, Instruction::EOR, 3, 4, AddressingMode::Absolute)),
        0x5D => Some(descriptor(0x5D, Instruction::EOR, 3, 4, AddressingMode::Absolute_X)),
        0x59 => Some(descriptor(0x59, Instruction::EOR, 3, 4, AddressingMode::Absolute_Y)),
        0x41 => Some(descriptor(0x41, Instruction::EOR, 2, 6, AddressingMode::Indirect_X)),
        0x51 => Some(descriptor(0x51, Instruction::EOR, 2, 5, AddressingMode::Indirect_Y)),
        0xE6 => Some(descriptor(0xE6, Instruction::INC, 2, 5, AddressingMode::ZeroPage)),
        0xF6 => Some(descriptor(0xF6, Instruction::INC, 2, 6, AddressingMode::ZeroPage_X)),
        0xEE => Some(descriptor(0xEE, Instruction::INC, 3, 6, AddressingMode::Absolute)),
        0xFE => Some(descriptor(0xFE, Instruction::INC, 3, 7, AddressingMode::Absolute_X)),
        0xE8 => Some(descriptor(0xE8, Instruction::INX, 1, 2, AddressingMode::NoneAddressing)),
        0xC8 => Some(descriptor(0xC8, Instruction::INY, 1, 2, AddressingMode::NoneAddressing)),
        0x4C => Some(descriptor(0x4C, Instruction::JMP, 3, 3, AddressingMode::Absolute)),
        0x6C => Some(descriptor(0x6C, Instruction::JMP, 3, 5, AddressingMode::NoneAddressing)),
        0x20 => Some(descriptor(0x20, Instruction::JSR, 3, 6, AddressingMode::NoneAddressing)),
        0xA9 => Some(descriptor(0xA9, Instruction::LDA, 2, 2, AddressingMode::Immediate)),
        0xA5 => Some(descriptor(0xA5, Instruction::LDA, 2, 3, AddressingMode::ZeroPage)),
        0xB5 => Some(descriptor(0xB5, Instruction::LDA, 2, 4, AddressingMode::ZeroPage_X)),
        0xAD => Some(descriptor(0xAD, Instruction::LDA, 3, 4, AddressingMode::Absolute)),
        0xBD => Some(descriptor(0xBD, Instruction::LDA, 3, 4, AddressingMode::Absolute_X)),
        0xB9 => Some(descriptor(0xB9, Instruction::LDA, 3, 4, AddressingMode::Absolute_Y)),
        0xA1 => Some(descriptor(0xA1, Instruction::LDA, 2, 6, AddressingMode::Indirect_X)),
        0xB1 => Some(descriptor(0xB1, Instruction::LDA, 2, 5, AddressingMode::Indirect_Y)),
        0xA2 => Some(descriptor(0xA2, Instruction::LDX, 2, 2, AddressingMode::Immediate)),
        0xA6 => Some(descriptor(0xA6, Instruction::LDX, 2, 3, AddressingMode::ZeroPage)),
        0xB6 => Some(descriptor(0xB6, Instruction::LDX, 2, 4, AddressingMode::ZeroPage_Y)),
        0xAE => Some(descriptor(0xAE, Instruction::LDX, 3, 4, AddressingMode::Absolute)),
        0xBE => Some(descriptor(0xBE, Instruction::LDX, 3, 4, AddressingMode::Absolute_Y)),
        0xA0 => Some(descriptor(0xA0, Instruction::LDY, 2, 2, AddressingMode::Immediate)),
        0xA4 => Some(descriptor(0xA4, Instruction::LDY, 2, 3, AddressingMode::ZeroPage)),
        0xB4 => Some(descriptor(0xB4, Instruction::LDY, 2, 4, AddressingMode::ZeroPage_X)),
        0xAC => Some(descriptor(0xAC, Instruction::LDY, 3, 4, AddressingMode::Absolute)),
        0xBC => Some(descriptor(0xBC, Instruction::LDY, 3, 4, AddressingMode::Absolute_X)),
        0x4A => Some(descriptor(0x4A, Instruction::LSR, 1, 2, AddressingMode::NoneAddressing)),
        0x46 => Some(descriptor(0x46, Instruction::LSR, 2, 5, AddressingMode::ZeroPage)),
        0x56 => Some(descriptor(0x56, Instruction::LSR, 2, 6, AddressingMode::ZeroPage_X)),
        0x4E => Some(descriptor(0x4E, Instruction::LSR, 3, 6, AddressingMode::Absolute)),
        0x5E => Some(descriptor(0x5E, Instruction::LSR, 3, 7, AddressingMode::Absolute_X)),
        0xEA => Some(descriptor(0xEA, Instruction::NOP, 1, 2, AddressingMode::NoneAddressing)),
        0x09 => Some(descriptor(0x09, Instruction::ORA, 2, 2, AddressingMode::Immediate)),
        0x05 => Some(descriptor(0x05, Instruction::ORA, 2, 3, AddressingMode::ZeroPage)),
        0x15 => Some(descriptor(0x15, Instruction::ORA, 2, 4, AddressingMode::ZeroPage_X)),
        0x0D => Some(descriptor(0x0D, Instruction::ORA, 3, 4, AddressingMode::Absolute)),
        0x1D => Some(descriptor(0x1D, Instruction::ORA, 3, 4, AddressingMode::Absolute_X)),
        0x19 => Some(descriptor(0x19, Instruction::ORA, 3, 4, AddressingMode::Absolute_Y)),
        0x01 => Some(descriptor(0x01, Instruction::ORA, 2, 6, AddressingMode::Indirect_X)),
        0x11 => Some(descriptor(0x11, Instruction::ORA, 2, 5, AddressingMode::Indirect_Y)),
        0x48 => Some(descriptor(0x48, Instruction::PHA, 1, 3, AddressingMode::NoneAddressing)),
        0x08 => Some(descriptor(0x08, Instruction::PHP, 1, 3, AddressingMode::NoneAddressing)),
        0x68 => Some(descriptor(0x68, Instruction::PLA, 1, 4, AddressingMode::NoneAddressing)),
        0x28 => Some(descriptor(0x28, Instruction::PLP, 1, 4, AddressingMode::NoneAddressing)),
        0x2A => Some(descriptor(0x2A, Instruction::ROL, 1, 2, AddressingMode::NoneAddressing)),
        0x26 => Some(descriptor(0x26, Instruction::ROL, 2, 5, AddressingMode::ZeroPage)),
        0x36 => Some(descriptor(0x36, Instruction::ROL, 2, 6, AddressingMode::ZeroPage_X)),
        0x2E => Some(descriptor(0x2E, Instruction::ROL, 3, 6, AddressingMode::Absolute)),
        0x3E => Some(descriptor(0x3E, Instruction::ROL, 3, 7, AddressingMode::Absolute_X)),
        0x6A => Some(descriptor(0x6A, Instruction::ROR, 1, 2, AddressingMode::NoneAddressing)),
        0x66 => Some(descriptor(0x66, Instruction::ROR, 2, 5, AddressingMode::ZeroPage)),
        0x76 => Some(descriptor(0x76, Instruction::ROR, 2, 6, AddressingMode::ZeroPage_X)),
        0x6E => Some(descriptor(0x6E, Instruction::ROR, 3, 6, AddressingMode::Absolute)),
        0x7E => Some(descriptor(0x7E, Instruction::ROR, 3, 7, AddressingMode::Absolute_X)),
        0x40 => Some(descriptor(0x40, Instruction::RTI, 1, 6, AddressingMode::NoneAddressing)),
        0x60 => Some(descriptor(0x60, Instruction::RTS, 1, 6, AddressingMode::NoneAddressing)),
        0xE9 => Some(descriptor(0xE9, Instruction::SBC, 2, 2, AddressingMode::Immediate)),
        0xE5 => Some(descriptor(0xE5, Instruction::SBC, 2, 3, AddressingMode::ZeroPage)),
        0xF5 => Some(descriptor(0xF5, Instruction::SBC, 2, 4, AddressingMode::ZeroPage_X)),
        0xED => Some(descriptor(0xED, Instruction::SBC, 3, 4, AddressingMode::Absolute)),
        0xFD => Some(descriptor(0xFD, Instruction::SBC, 3, 4, AddressingMode::Absolute_X)),
        0xF9 => Some(descriptor(0xF9, Instruction::SBC, 3, 4, AddressingMode::Absolute_Y)),
        0xE1 => Some(descriptor(0xE1, Instruction::SBC, 2, 6, AddressingMode::Indirect_X)),
        0xF1 => Some(descriptor(0xF1, Instruction::SBC, 2, 5, AddressingMode::Indirect_Y)),
        0x38 => Some(descriptor(0x38, Instruction::SEC, 1, 2, AddressingMode::NoneAddressing)),
        0xF8 => Some(descriptor(0xF8, Instruction::SED, 1, 2, AddressingMode::NoneAddressing)),
        0x78 => Some(descriptor(0x78, Instruction::SEI, 1, 2, AddressingMode::NoneAddressing)),
        0x85 => Some(descriptor(0x85, Instruction::STA, 2, 3, AddressingMode::ZeroPage)),
        0x95 => Some(descriptor(0x95, Instruction::STA, 2, 4, AddressingMode::ZeroPage_X)),
        0x8D => Some(descriptor(0x8D, Instruction::STA, 3, 4, AddressingMode::Absolute)),
        0x9D => Some(descriptor(0x9D, Instruction::STA, 3, 5, AddressingMode::Absolute_X)),
        0x99 => Some(descriptor(0x99, Instruction::STA, 3, 5, AddressingMode::Absolute_Y)),
        0x81 => Some(descriptor(0x81, Instruction::STA, 2, 6, AddressingMode::Indirect_X)),
        0x91 => Some(descriptor(0x91, Instruction::STA, 2, 6, AddressingMode::Indirect_Y)),
        0x86 => Some(descriptor(0x86, Instruction::STX, 2, 3, AddressingMode::ZeroPage)),
        0x96 => Some(descriptor(0x96, Instruction::STX, 2, 4, AddressingMode::ZeroPage_Y)),
        0x8E => Some(descriptor(0x8E, Instruction::STX, 3, 4, AddressingMode::Absolute)),
        0x84 => Some(descriptor(0x84, Instruction::STY, 2, 3, AddressingMode::ZeroPage)),
        0x94 => Some(descriptor(0x94, Instruction::STY, 2, 4, AddressingMode::ZeroPage_X)),
        0x8C => Some(descriptor(0x8C, Instruction::STY, 3, 4, AddressingMode::Absolute)),
        0xAA => Some(descriptor(0xAA, Instruction::TAX, 1, 2, AddressingMode::NoneAddressing)),
        0xA8 => Some(descriptor(0xA8, Instruction::TAY, 1, 2, AddressingMode::NoneAddressing)),
        0xBA => Some(descriptor(0xBA, Instruction::TSX, 1, 2, AddressingMode::NoneAddressing)),
        0x8A => Some(descriptor(0x8A, Instruction::TXA, 1, 2, AddressingMode::NoneAddressing)),
        0x9A => Some(descriptor(0x9A, Instruction::TXS, 1, 2, AddressingMode::NoneAddressing)),
        0x98 => Some(descriptor(0x98, Instruction::TYA, 1, 2, AddressingMode::NoneAddressing)),
        _ => None,
    }
}

/// Looks `code` up in the table.
pub fn lookup(code: u8) -> (r: Option<OpCode>)
    ensures
        r == opcode_of(code),
{
    match code {
        0x69 => Some(OpCode::new(0x69, Instruction::ADC, 2, 2, AddressingMode::Immediate)),
        0x65 => Some(OpCode::new(0x65, Instruction::ADC, 2, 3, AddressingMode::ZeroPage)),
        0x75 => Some(OpCode::new(0x75, Instruction::ADC, 2, 4, AddressingMode::ZeroPage_X)),
        0x6D => Some(OpCode::new(0x6D, Instruction::ADC, 3, 4, AddressingMode::Absolute)),
        0x7D => Some(OpCode::new(0x7D, Instruction::ADC, 3, 4, AddressingMode::Absolute_X)),
        0x79 => Some(OpCode::new(0x79, Instruction::ADC, 3, 4, AddressingMode::Absolute_Y)),
        0x61 => Some(OpCode::new(0x61, Instruction::ADC, 2, 6, AddressingMode::Indirect_X)),
        0x71 => Some(OpCode::new(0x71, Instruction::ADC, 2, 5, AddressingMode::Indirect_Y)),
        0x29 => Some(OpCode::new(0x29, Instruction::AND, 2, 2, AddressingMode::Immediate)),
        0x25 => Some(OpCode::new(0x25, Instruction::AND, 2, 3, AddressingMode::ZeroPage)),
        0x35 => Some(OpCode::new(0x35, Instruction::AND, 2, 4, AddressingMode::ZeroPage_X)),
        0x2D => Some(OpCode::new(0x2D, Instruction::AND, 3, 4, AddressingMode::Absolute)),
        0x3D => Some(OpCode::new(0x3D, Instruction::AND, 3, 4, AddressingMode::Absolute_X)),
        0x39 => Some(OpCode::new(0x39, Instruction::AND, 3, 4, AddressingMode::Absolute_Y)),
        0x21 => Some(OpCode::new(0x21, Instruction::AND, 2, 6, AddressingMode::Indirect_X)),
        0x31 => Some(OpCode::new(0x31, Instruction::AND, 2, 5, AddressingMode::Indirect_Y)),
        0x0A => Some(OpCode::new(0x0A, Instruction::ASL, 1, 2, AddressingMode::NoneAddressing)),
        0x06 => Some(OpCode::new(0x06, Instruction::ASL, 2, 5, AddressingMode::ZeroPage)),
        0x16 => Some(OpCode::new(0x16, Instruction::ASL, 2, 6, AddressingMode::ZeroPage_X)),
        0x0E => Some(OpCode::new(0x0E, Instruction::ASL, 3, 6, AddressingMode::Absolute)),
        0x1E => Some(OpCode::new(0x1E, Instruction::ASL, 3, 7, AddressingMode::Absolute_X)),
        0x90 => Some(OpCode::new(0x90, Instruction::BCC, 2, 2, AddressingMode::NoneAddressing)),
        0xB0 => Some(OpCode::new(0xB0, Instruction::BCS, 2, 2, AddressingMode::NoneAddressing)),
        0xF0 => Some(OpCode::new(0xF0, Instruction::BEQ, 2, 2, AddressingMode::NoneAddressing)),
        0x24 => Some(OpCode::new(0x24, Instruction::BIT, 2, 3, AddressingMode::ZeroPage)),
        0x2C => Some(OpCode::new(0x2C, Instruction::BIT, 3, 4, AddressingMode::Absolute)),
        0x30 => Some(OpCode::new(0x30, Instruction::BMI, 2, 2, AddressingMode::NoneAddressing)),
        0xD0 => Some(OpCode::new(0xD0, Instruction::BNE, 2, 2, AddressingMode::NoneAddressing)),
        0x10 => Some(OpCode::new(0x10, Instruction::BPL, 2, 2, AddressingMode::NoneAddressing)),
        0x00 => Some(OpCode::new(0x00, Instruction::BRK, 1, 7, AddressingMode::NoneAddressing)),
        0x50 => Some(OpCode::new(0x50, Instruction::BVC, 2, 2, AddressingMode::NoneAddressing)),
        0x70 => Some(OpCode::new(0x70, Instruction::BVS, 2, 2, AddressingMode::NoneAddressing)),
        0x18 => Some(OpCode::new(0x18, Instruction::CLC, 1, 2, AddressingMode::NoneAddressing)),
        0xD8 => Some(OpCode::new(0xD8, Instruction::CLD, 1, 2, AddressingMode::NoneAddressing)),
        0x58 => Some(OpCode::new(0x58, Instruction::CLI, 1, 2, AddressingMode::NoneAddressing)),
        0xB8 => Some(OpCode::new(0xB8, Instruction::CLV, 1, 2, AddressingMode::NoneAddressing)),
        0xC9 => Some(OpCode::new(0xC9, Instruction::CMP, 2, 2, AddressingMode::Immediate)),
        0xC5 => Some(OpCode::new(0xC5, Instruction::CMP, 2, 3, AddressingMode::ZeroPage)),
        0xD5 => Some(OpCode::new(0xD5, Instruction::CMP, 2, 4, AddressingMode::ZeroPage_X)),
        0xCD => Some(OpCode::new(0xCD, Instruction::CMP, 3, 4, AddressingMode::Absolute)),
        0xDD => Some(OpCode::new(0xDD, Instruction::CMP, 3, 4, AddressingMode::Absolute_X)),
        0xD9 => Some(OpCode::new(0xD9, Instruction::CMP, 3, 4, AddressingMode::Absolute_Y)),
        0xC1 => Some(OpCode::new(0xC1, Instruction::CMP, 2, 6, AddressingMode::Indirect_X)),
        0xD1 => Some(OpCode::new(0xD1, Instruction::CMP, 2, 5, AddressingMode::Indirect_Y)),
        0xE0 => Some(OpCode::new(0xE0, Instruction::CPX, 2, 2, AddressingMode::Immediate)),
        0xE4 => Some(OpCode::new(0xE4, Instruction::CPX, 2, 3, AddressingMode::ZeroPage)),
        0xEC => Some(OpCode::new(0xEC, Instruction::CPX, 3, 4, AddressingMode::Absolute)),
        0xC0 => Some(OpCode::new(0xC0, Instruction::CPY, 2, 2, AddressingMode::Immediate)),
        0xC4 => Some(OpCode::new(0xC4, Instruction::CPY, 2, 3, AddressingMode::ZeroPage)),
        0xCC => Some(OpCode::new(0xCC, Instruction::CPY, 3, 4, AddressingMode::Absolute)),
        0xC6 => Some(OpCode::new(0xC6, Instruction::DEC, 2, 5, AddressingMode::ZeroPage)),
        0xD6 => Some(OpCode::new(0xD6, Instruction::DEC, 2, 6, AddressingMode::ZeroPage_X)),
        0xCE => Some(OpCode::new(0xCE, Instruction::DEC, 3, 6, AddressingMode::Absolute)),
        0xDE => Some(OpCode::new(0xDE, Instruction::DEC, 3, 7, AddressingMode::Absolute_X)),
        0xCA => Some(OpCode::new(0xCA, Instruction::DEX, 1, 2, AddressingMode::NoneAddressing)),
        0x88 => Some(OpCode::new(0x88, Instruction::DEY, 1, 2, AddressingMode::NoneAddressing)),
        0x49 => Some(OpCode::new(0x49, Instruction::EOR, 2, 2, AddressingMode::Immediate)),
        0x45 => Some(OpCode::new(0x45, Instruction::EOR, 2, 3, AddressingMode::ZeroPage)),
        0x55 => Some(OpCode::new(0x55, Instruction::EOR, 2, 4, AddressingMode::ZeroPage_X)),
        0x4D => Some(OpCode::new(0x4D, Instruction::EOR, 3, 4, AddressingMode::Absolute)),
        0x5D => Some(OpCode::new(0x5D, Instruction::EOR, 3, 4, AddressingMode::Absolute_X)),
        0x59 => Some(OpCode::new(0x59, Instruction::EOR, 3, 4, AddressingMode::Absolute_Y)),
        0x41 => Some(OpCode::new(0x41, Instruction::EOR, 2, 6, AddressingMode::Indirect_X)),
        0x51 => Some(OpCode::new(0x51, Instruction::EOR, 2, 5, AddressingMode::Indirect_Y)),
        0xE6 => Some(OpCode::new(0xE6, Instruction::INC, 2, 5, AddressingMode::ZeroPage)),
        0xF6 => Some(OpCode::new(0xF6, Instruction::INC, 2, 6, AddressingMode::ZeroPage_X)),
        0xEE => Some(OpCode::new(0xEE, Instruction::INC, 3, 6, AddressingMode::Absolute)),
        0xFE => Some(OpCode::new(0xFE, Instruction::INC, 3, 7, AddressingMode::Absolute_X)),
        0xE8 => Some(OpCode::new(0xE8, Instruction::INX, 1, 2, AddressingMode::NoneAddressing)),
        0xC8 => Some(OpCode::new(0xC8, Instruction::INY, 1, 2, AddressingMode::NoneAddressing)),
        0x4C => Some(OpCode::new(0x4C, Instruction::JMP, 3, 3, AddressingMode::Absolute)),
        0x6C => Some(OpCode::new(0x6C, Instruction::JMP, 3, 5, AddressingMode::NoneAddressing)),
        0x20 => Some(OpCode::new(0x20, Instruction::JSR, 3, 6, AddressingMode::NoneAddressing)),
        0xA9 => Some(OpCode::new(0xA9, Instruction::LDA, 2, 2, AddressingMode::Immediate)),
        0xA5 => Some(OpCode::new(0xA5, Instruction::LDA, 2, 3, AddressingMode::ZeroPage)),
        0xB5 => Some(OpCode::new(0xB5, Instruction::LDA, 2, 4, AddressingMode::ZeroPage_X)),
        0xAD => Some(OpCode::new(0xAD, Instruction::LDA, 3, 4, AddressingMode::Absolute)),
        0xBD => Some(OpCode::new(0xBD, Instruction::LDA, 3, 4, AddressingMode::Absolute_X)),
        0xB9 => Some(OpCode::new(0xB9, Instruction::LDA, 3, 4, AddressingMode::Absolute_Y)),
        0xA1 => Some(OpCode::new(0xA1, Instruction::LDA, 2, 6, AddressingMode::Indirect_X)),
        0xB1 => Some(OpCode::new(0xB1, Instruction::LDA, 2, 5, AddressingMode::Indirect_Y)),
        0xA2 => Some(OpCode::new(0xA2, Instruction::LDX, 2, 2, AddressingMode::Immediate)),
        0xA6 => Some(OpCode::new(0xA6, Instruction::LDX, 2, 3, AddressingMode::ZeroPage)),
        0xB6 => Some(OpCode::new(0xB6, Instruction::LDX, 2, 4, AddressingMode::ZeroPage_Y)),
        0xAE => Some(OpCode::new(0xAE, Instruction::LDX, 3, 4, AddressingMode::Absolute)),
        0xBE => Some(OpCode::new(0xBE, Instruction::LDX, 3, 4, AddressingMode::Absolute_Y)),
        0xA0 => Some(OpCode::new(0xA0, Instruction::LDY, 2, 2, AddressingMode::Immediate)),
        0xA4 => Some(OpCode::new(0xA4, Instruction::LDY, 2, 3, AddressingMode::ZeroPage)),
        0xB4 => Some(OpCode::new(0xB4, Instruction::LDY, 2, 4, AddressingMode::ZeroPage_X)),
        0xAC => Some(OpCode::new(0xAC, Instruction::LDY, 3, 4, AddressingMode::Absolute)),
        0xBC => Some(OpCode::new(0xBC, Instruction::LDY, 3, 4, AddressingMode::Absolute_X)),
        0x4A => Some(OpCode::new(0x4A, Instruction::LSR, 1, 2, AddressingMode::NoneAddressing)),
        0x46 => Some(OpCode::new(0x46, Instruction::LSR, 2, 5, AddressingMode::ZeroPage)),
        0x56 => Some(OpCode::new(0x56, Instruction::LSR, 2, 6, AddressingMode::ZeroPage_X)),
        0x4E => Some(OpCode::new(0x4E, Instruction::LSR, 3, 6, AddressingMode::Absolute)),
        0x5E => Some(OpCode::new(0x5E, Instruction::LSR, 3, 7, AddressingMode::Absolute_X)),
        0xEA => Some(OpCode::new(0xEA, Instruction::NOP, 1, 2, AddressingMode::NoneAddressing)),
        0x09 => Some(OpCode::new(0x09, Instruction::ORA, 2, 2, AddressingMode::Immediate)),
        0x05 => Some(OpCode::new(0x05, Instruction::ORA, 2, 3, AddressingMode::ZeroPage)),
        0x15 => Some(OpCode::new(0x15, Instruction::ORA, 2, 4, AddressingMode::ZeroPage_X)),
        0x0D => Some(OpCode::new(0x0D, Instruction::ORA, 3, 4, AddressingMode::Absolute)),
        0x1D => Some(OpCode::new(0x1D, Instruction::ORA, 3, 4, AddressingMode::Absolute_X)),
        0x19 => Some(OpCode::new(0x19, Instruction::ORA, 3, 4, AddressingMode::Absolute_Y)),
        0x01 => Some(OpCode::new(0x01, Instruction::ORA, 2, 6, AddressingMode::Indirect_X)),
        0x11 => Some(OpCode::new(0x11, Instruction::ORA, 2, 5, AddressingMode::Indirect_Y)),
        0x48 => Some(OpCode::new(0x48, Instruction::PHA, 1, 3, AddressingMode::NoneAddressing)),
        0x08 => Some(OpCode::new(0x08, Instruction::PHP, 1, 3, AddressingMode::NoneAddressing)),
        0x68 => Some(OpCode::new(0x68, Instruction::PLA, 1, 4, AddressingMode::NoneAddressing)),
        0x28 => Some(OpCode::new(0x28, Instruction::PLP, 1, 4, AddressingMode::NoneAddressing)),
        0x2A => Some(OpCode::new(0x2A, Instruction::ROL, 1, 2, AddressingMode::NoneAddressing)),
        0x26 => Some(OpCode::new(0x26, Instruction::ROL, 2, 5, AddressingMode::ZeroPage)),
        0x36 => Some(OpCode::new(0x36, Instruction::ROL, 2, 6, AddressingMode::ZeroPage_X)),
        0x2E => Some(OpCode::new(0x2E, Instruction::ROL, 3, 6, AddressingMode::Absolute)),
        0x3E => Some(OpCode::new(0x3E, Instruction::ROL, 3, 7, AddressingMode::Absolute_X)),
        0x6A => Some(OpCode::new(0x6A, Instruction::ROR, 1, 2, AddressingMode::NoneAddressing)),
        0x66 => Some(OpCode::new(0x66, Instruction::ROR, 2, 5, AddressingMode::ZeroPage)),
        0x76 => Some(OpCode::new(0x76, Instruction::ROR, 2, 6, AddressingMode::ZeroPage_X)),
        0x6E => Some(OpCode::new(0x6E, Instruction::ROR, 3, 6, AddressingMode::Absolute)),
        0x7E => Some(OpCode::new(0x7E, Instruction::ROR, 3, 7, AddressingMode::Absolute_X)),
        0x40 => Some(OpCode::new(0x40, Instruction::RTI, 1, 6, AddressingMode::NoneAddressing)),
        0x60 => Some(OpCode::new(0x60, Instruction::RTS, 1, 6, AddressingMode::NoneAddressing)),
        0xE9 => Some(OpCode::new(0xE9, Instruction::SBC, 2, 2, AddressingMode::Immediate)),
        0xE5 => Some(OpCode::new(0xE5, Instruction::SBC, 2, 3, AddressingMode::ZeroPage)),
        0xF5 => Some(OpCode::new(0xF5, Instruction::SBC, 2, 4, AddressingMode::ZeroPage_X)),
        0xED => Some(OpCode::new(0xED, Instruction::SBC, 3, 4, AddressingMode::Absolute)),
        0xFD => Some(OpCode::new(0xFD, Instruction::SBC, 3, 4, AddressingMode::Absolute_X)),
        0xF9 => Some(OpCode::new(0xF9, Instruction::SBC, 3, 4, AddressingMode::Absolute_Y)),
        0xE1 => Some(OpCode::new(0xE1, Instruction::SBC, 2, 6, AddressingMode::Indirect_X)),
        0xF1 => Some(OpCode::new(0xF1, Instruction::SBC, 2, 5, AddressingMode::Indirect_Y)),
        0x38 => Some(OpCode::new(0x38, Instruction::SEC, 1, 2, AddressingMode::NoneAddressing)),
        0xF8 => Some(OpCode::new(0xF8, Instruction::SED, 1, 2, AddressingMode::NoneAddressing)),
        0x78 => Some(OpCode::new(0x78, Instruction::SEI, 1, 2, AddressingMode::NoneAddressing)),
        0x85 => Some(OpCode::new(0x85, Instruction::STA, 2, 3, AddressingMode::ZeroPage)),
        0x95 => Some(OpCode::new(0x95, Instruction::STA, 2, 4, AddressingMode::ZeroPage_X)),
        0x8D => Some(OpCode::new(0x8D, Instruction::STA, 3, 4, AddressingMode::Absolute)),
        0x9D => Some(OpCode::new(0x9D, Instruction::STA, 3, 5, AddressingMode::Absolute_X)),
        0x99 => Some(OpCode::new(0x99, Instruction::STA, 3, 5, AddressingMode::Absolute_Y)),
        0x81 => Some(OpCode::new(0x81, Instruction::STA, 2, 6, AddressingMode::Indirect_X)),
        0x91 => Some(OpCode::new(0x91, Instruction::STA, 2, 6, AddressingMode::Indirect_Y)),
        0x86 => Some(OpCode::new(0x86, Instruction::STX, 2, 3, AddressingMode::ZeroPage)),
        0x96 => Some(OpCode::new(0x96, Instruction::STX, 2, 4, AddressingMode::ZeroPage_Y)),
        0x8E => Some(OpCode::new(0x8E, Instruction::STX, 3, 4, AddressingMode::Absolute)),
        0x84 => Some(OpCode::new(0x84, Instruction::STY, 2, 3, AddressingMode::ZeroPage)),
        0x94 => Some(OpCode::new(0x94, Instruction::STY, 2, 4, AddressingMode::ZeroPage_X)),
        0x8C => Some(OpCode::new(0x8C, Instruction::STY, 3, 4, AddressingMode::Absolute)),
        0xAA => Some(OpCode::new(0xAA, Instruction::TAX, 1, 2, AddressingMode::NoneAddressing)),
        0xA8 => Some(OpCode::new(0xA8, Instruction::TAY, 1, 2, AddressingMode::NoneAddressing)),
        0xBA => Some(OpCode::new(0xBA, Instruction::TSX, 1, 2, AddressingMode::NoneAddressing)),
        0x8A => Some(OpCode::new(0x8A, Instruction::TXA, 1, 2, AddressingMode::NoneAddressing)),
        0x9A => Some(OpCode::new(0x9A, Instruction::TXS, 1, 2, AddressingMode::NoneAddressing)),
        0x98 => Some(OpCode::new(0x98, Instruction::TYA, 1, 2, AddressingMode::NoneAddressing)),
        _ => None,
    }
}

/// Whether the instruction resolves an operand address whenever it is
/// executed, so that its addressing mode must have one.
pub open spec fn needs_operand_address(instruction: Instruction) -> bool {
    match instruction {
        Instruction::ADC
        | Instruction::AND
        | Instruction::BIT
        | Instruction::CMP
        | Instruction::CPX
        | Instruction::CPY
        | Instruction::DEC
        | Instruction::EOR
        | Instruction::INC
        | Instruction::LDA
        | Instruction::LDX
        | Instruction::LDY
        | Instruction::ORA
        | Instruction::SBC
        | Instruction::STA
        | Instruction::STX
        | Instruction::STY => true,
        _ => false,
    }
}

/// Bytes that an instruction with the given addressing mode takes where it
/// has an operand address.
pub open spec fn operand_len(mode: AddressingMode) -> int {
    match mode {
        AddressingMode::Absolute | AddressingMode::Absolute_X | AddressingMode::Absolute_Y => 3,
        _ => 2,
    }
}

/// Every entry is filed under its own opcode byte and is one to three bytes
/// long. Where it has an operand address, it is as long as that mode needs;
/// and it has one where its instruction always resolves one.
pub proof fn lemma_table_consistent(code: u8)
    requires
        opcode_of(code) is Some,
    ensures
        opcode_of(code).unwrap().code == code,
        1 <= opcode_of(code).unwrap().len <= 3,
        opcode_of(code).unwrap().mode != AddressingMode::NoneAddressing ==> opcode_of(
            code,
        ).unwrap().len == operand_len(opcode_of(code).unwrap().mode),
        needs_operand_address(opcode_of(code).unwrap().instruction) ==> opcode_of(
            code,
        ).unwrap().mode != AddressingMode::NoneAddressing,
{
}

} // verus!
