use vstd::prelude::*;
use crate::cpu::addressing::AddressingMode;

verus! {

/// Every named operation of the processor's instruction set.
#[derive(Debug, Clone, Copy, PartialEq, Eq, Structural)]
pub enum Instruction {
    LDA,
    LDX,
    LDY,
    STA,
    STX,
    STY,
    STZ,
    TAX,
    TAY,
    TXA,
    TYA,
    TSX,
    TXS,
    TXY,
    TYX,
    TCD,
    TDC,
    TCS,
    TSC,
    PHA,
    PHP,
    PLA,
    PLP,
    PHX,
    PHY,
    PLX,
    PLY,
    PHB,
    PLB,
    PHD,
    PLD,
    PHK,
    ADC,
    SBC,
    INC,
    INX,
    INY,
    DEC,
    DEX,
    DEY,
    AND,
    ORA,
    EOR,
    BIT,
    TSB,
    TRB,
    ASL,
    LSR,
    ROL,
    ROR,
    CMP,
    CPX,
    CPY,
    BCC,
    BCS,
    BEQ,
    BNE,
    BMI,
    BPL,
    BVC,
    BVS,
    BRA,
    BRL,
    JMP,
    JML,
    JSR,
    JSL,
    RTS,
    RTL,
    RTI,
    CLC,
    CLD,
    CLI,
    CLV,
    SEC,
    SED,
    SEI,
    REP,
    SEP,
    NOP,
    WDM,
    XBA,
    XCE,
    STP,
    WAI,
    BRK,
    COP,
    MVN,
    MVP,
    PEA,
    PEI,
    PER,
}

/// One decoded opcode: the operation, how its operand is addressed, and
/// the cycle count before addressing and branch penalties.
#[derive(Debug, Clone, Copy, PartialEq, Eq, Structural)]
pub struct InstructionInfo {
    pub instruction: Instruction,
    pub addressing_mode: AddressingMode,
    pub base_cycles: u8,
}

impl InstructionInfo {
    pub fn new(instruction: Instruction, addressing_mode: AddressingMode, base_cycles: u8) -> (r:
        Self)
        ensures
            r == (InstructionInfo { instruction, addressing_mode, base_cycles }),
    {
        Self { instruction, addressing_mode, base_cycles }
    }
}

/// The decode table as a function: what each opcode byte means. Every
/// byte of the set is defined; the entry gives the operation, the
/// addressing mode and the base cycle count.
pub open spec fn spec_decode(opcode: u8) -> Option<InstructionInfo> {
    match opcode {
        0x00 => Some(InstructionInfo { instruction: Instruction::BRK, addressing_mode: AddressingMode::Implied, base_cycles: 7 }),
        0x01 => Some(InstructionInfo { instruction: Instruction::ORA, addressing_mode: AddressingMode::DirectPageIndirectX, base_cycles: 6 }),
        0x02 => Some(InstructionInfo { instruction: Instruction::COP, addressing_mode: AddressingMode::Immediate, base_cycles: 7 }),
        0x03 => Some(InstructionInfo { instruction: Instruction::ORA, addressing_mode: AddressingMode::StackRelative, base_cycles: 4 }),
        0x04 => Some(InstructionInfo { instruction: Instruction::TSB, addressing_mode: AddressingMode::DirectPage, base_cycles: 5 }),
        0x05 => Some(InstructionInfo { instruction: Instruction::ORA, addressing_mode: AddressingMode::DirectPage, base_cycles: 3 }),
        0x06 => Some(InstructionInfo { instruction: Instruction::ASL, addressing_mode: AddressingMode::DirectPage, base_cycles: 5 }),
        0x07 => Some(InstructionInfo { instruction: Instruction::ORA, addressing_mode: AddressingMode::DirectPageIndirectLong, base_cycles: 6 }),
        0x08 => Some(InstructionInfo { instruction: Instruction::PHP, addressing_mode: AddressingMode::Implied, base_cycles: 3 }),
        0x09 => Some(InstructionInfo { instruction: Instruction::ORA, addressing_mode: AddressingMode::Immediate, base_cycles: 2 }),
        0x0A => Some(InstructionInfo { instruction: Instruction::ASL, addressing_mode: AddressingMode::Accumulator, base_cycles: 2 }),
        0x0B => Some(InstructionInfo { instruction: Instruction::PHD, addressing_mode: AddressingMode::Implied, base_cycles: 4 }),
        0x0C => Some(InstructionInfo { instruction: Instruction::TSB, addressing_mode: AddressingMode::Absolute, base_cycles: 6 }),
        0x0D => Some(InstructionInfo { instruction: Instruction::ORA, addressing_mode: AddressingMode::Absolute, base_cycles: 4 }),
        0x0E => Some(InstructionInfo { instruction: Instruction::ASL, addressing_mode: AddressingMode::Absolute, base_cycles: 6 }),
        0x0F => Some(InstructionInfo { instruction: Instruction::ORA, addressing_mode: AddressingMode::AbsoluteLong, base_cycles: 5 }),
        0x10 => Some(InstructionInfo { instruction: Instruction::BPL, addressing_mode: AddressingMode::Relative, base_cycles: 2 }),
        0x11 => Some(InstructionInfo { instruction: Instruction::ORA, addressing_mode: AddressingMode::DirectPageIndirectY, base_cycles: 5 }),
        0x12 => Some(InstructionInfo { instruction: Instruction::ORA, addressing_mode: AddressingMode::DirectPageIndirect, base_cycles: 5 }),
        0x13 => Some(InstructionInfo { instruction: Instruction::ORA, addressing_mode: AddressingMode::StackRelativeIndirectY, base_cycles: 7 }),
        0x14 => Some(InstructionInfo { instruction: Instruction::TRB, addressing_mode: AddressingMode::DirectPage, base_cycles: 5 }),
        0x15 => Some(InstructionInfo { instruction: Instruction::ORA, addressing_mode: AddressingMode::DirectPageX, base_cycles: 4 }),
        0x16 => Some(InstructionInfo { instruction: Instruction::ASL, addressing_mode: AddressingMode::DirectPageX, base_cycles: 6 }),
        0x17 => Some(InstructionInfo { instruction: Instruction::ORA, addressing_mode: AddressingMode::DirectPageIndirectLongY, base_cycles: 6 }),
        0x18 => Some(InstructionInfo { instruction: Instruction::CLC, addressing_mode: AddressingMode::Implied, base_cycles: 2 }),
        0x19 => Some(InstructionInfo { instruction: Instruction::ORA, addressing_mode: AddressingMode::AbsoluteY, base_cycles: 4 }),
        0x1A => Some(InstructionInfo { instruction: Instruction::INC, addressing_mode: AddressingMode::Accumulator, base_cycles: 2 }),
        0x1B => Some(InstructionInfo { instruction: Instruction::TCS, addressing_mode: AddressingMode::Implied, base_cycles: 2 }),
        0x1C => Some(InstructionInfo { instruction: Instruction::TRB, addressing_mode: AddressingMode::Absolute, base_cycles: 6 }),
        0x1D => Some(InstructionInfo { instruction: Instruction::ORA, addressing_mode: AddressingMode::AbsoluteX, base_cycles: 4 }),
        0x1E => Some(InstructionInfo { instruction: Instruction::ASL, addressing_mode: AddressingMode::AbsoluteX, base_cycles: 7 }),
        0x1F => Some(InstructionInfo { instruction: Instruction::ORA, addressing_mode: AddressingMode::AbsoluteLongX, base_cycles: 5 }),
        0x20 => Some(InstructionInfo { instruction: Instruction::JSR, addressing_mode: AddressingMode::Absolute, base_cycles: 6 }),
        0x21 => Some(InstructionInfo { instruction: Instruction::AND, addressing_mode: AddressingMode::DirectPageIndirectX, base_cycles: 6 }),
        0x22 => Some(InstructionInfo { instruction: Instruction::JSL, addressing_mode: AddressingMode::AbsoluteLong, base_cycles: 8 }),
        0x23 => Some(InstructionInfo { instruction: Instruction::AND, addressing_mode: AddressingMode::StackRelative, base_cycles: 4 }),
        0x24 => Some(InstructionInfo { instruction: Instruction::BIT, addressing_mode: AddressingMode::DirectPage, base_cycles: 3 }),
        0x25 => Some(InstructionInfo { instruction: Instruction::AND, addressing_mode: AddressingMode::DirectPage, base_cycles: 3 }),
        0x26 => Some(InstructionInfo { instruction: Instruction::ROL, addressing_mode: AddressingMode::DirectPage, base_cycles: 5 }),
        0x27 => Some(InstructionInfo { instruction: Instruction::AND, addressing_mode: AddressingMode::DirectPageIndirectLong, base_cycles: 6 }),
        0x28 => Some(InstructionInfo { instruction: Instruction::PLP, addressing_mode: AddressingMode::Implied, base_cycles: 4 }),
        0x29 => Some(InstructionInfo { instruction: Instruction::AND, addressing_mode: AddressingMode::Immediate, base_cycles: 2 }),
        0x2A => Some(InstructionInfo { instruction: Instruction::ROL, addressing_mode: AddressingMode::Accumulator, base_cycles: 2 }),
        0x2B => Some(InstructionInfo { instruction: Instruction::PLD, addressing_mode: AddressingMode::Implied, base_cycles: 5 }),
        0x2C => Some(InstructionInfo { instruction: Instruction::BIT, addressing_mode: AddressingMode::Absolute, base_cycles: 4 }),
        0x2D => Some(InstructionInfo { instruction: Instruction::AND, addressing_mode: AddressingMode::Absolute, base_cycles: 4 }),
        0x2E => Some(InstructionInfo { instruction: Instruction::ROL, addressing_mode: AddressingMode::Absolute, base_cycles: 6 }),
        0x2F => Some(InstructionInfo { instruction: Instruction::AND, addressing_mode: AddressingMode::AbsoluteLong, base_cycles: 5 }),
        0x30 => Some(InstructionInfo { instruction: Instruction::BMI, addressing_mode: AddressingMode::Relative, base_cycles: 2 }),
        0x31 => Some(InstructionInfo { instruction: Instruction::AND, addressing_mode: AddressingMode::DirectPageIndirectY, base_cycles: 5 }),
        0x32 => Some(InstructionInfo { instruction: Instruction::AND, addressing_mode: AddressingMode::DirectPageIndirect, base_cycles: 5 }),
        0x33 => Some(InstructionInfo { instruction: Instruction::AND, addressing_mode: AddressingMode::StackRelativeIndirectY, base_cycles: 7 }),
        0x34 => Some(InstructionInfo { instruction: Instruction::BIT, addressing_mode: AddressingMode::DirectPageX, base_cycles: 4 }),
        0x35 => Some(InstructionInfo { instruction: Instruction::AND, addressing_mode: AddressingMode::DirectPageX, base_cycles: 4 }),
        0x36 => Some(InstructionInfo { instruction: Instruction::ROL, addressing_mode: AddressingMode::DirectPageX, base_cycles: 6 }),
        0x37 => Some(InstructionInfo { instruction: Instruction::AND, addressing_mode: AddressingMode::DirectPageIndirectLongY, base_cycles: 6 }),
        0x38 => Some(InstructionInfo { instruction: Instruction::SEC, addressing_mode: AddressingMode::Implied, base_cycles: 2 }),
        0x39 => Some(InstructionInfo { instruction: Instruction::AND, addressing_mode: AddressingMode::AbsoluteY, base_cycles: 4 }),
        0x3A => Some(InstructionInfo { instruction: Instruction::DEC, addressing_mode: AddressingMode::Accumulator, base_cycles: 2 }),
        0x3B => Some(InstructionInfo { instruction: Instruction::TSC, addressing_mode: AddressingMode::Implied, base_cycles: 2 }),
        0x3C => Some(InstructionInfo { instruction: Instruction::BIT, addressing_mode: AddressingMode::AbsoluteX, base_cycles: 4 }),
        0x3D => Some(InstructionInfo { instruction: Instruction::AND, addressing_mode: AddressingMode::AbsoluteX, base_cycles: 4 }),
        0x3E => Some(InstructionInfo { instruction: Instruction::ROL, addressing_mode: AddressingMode::AbsoluteX, base_cycles: 7 }),
        0x3F => Some(InstructionInfo { instruction: Instruction::AND, addressing_mode: AddressingMode::AbsoluteLongX, base_cycles: 5 }),
        0x40 => Some(InstructionInfo { instruction: Instruction::RTI, addressing_mode: AddressingMode::Implied, base_cycles: 6 }),
        0x41 => Some(InstructionInfo { instruction: Instruction::EOR, addressing_mode: AddressingMode::DirectPageIndirectX, base_cycles: 6 }),
        0x42 => Some(InstructionInfo { instruction: Instruction::WDM, addressing_mode: AddressingMode::Immediate, base_cycles: 2 }),
        0x43 => Some(InstructionInfo { instruction: Instruction::EOR, addressing_mode: AddressingMode::StackRelative, base_cycles: 4 }),
        0x44 => Some(InstructionInfo { instruction: Instruction::MVP, addressing_mode: AddressingMode::BlockMove, base_cycles: 7 }),
        0x45 => Some(InstructionInfo { instruction: Instruction::EOR, addressing_mode: AddressingMode::DirectPage, base_cycles: 3 }),
        0x46 => Some(InstructionInfo { instruction: Instruction::LSR, addressing_mode: AddressingMode::DirectPage, base_cycles: 5 }),
        0x47 => Some(InstructionInfo { instruction: Instruction::EOR, addressing_mode: AddressingMode::DirectPageIndirectLong, base_cycles: 6 }),
        0x48 => Some(InstructionInfo { instruction: Instruction::PHA, addressing_mode: AddressingMode::Implied, base_cycles: 3 }),
        0x49 => Some(InstructionInfo { instruction: Instruction::EOR, addressing_mode: AddressingMode::Immediate, base_cycles: 2 }),
        0x4A => Some(InstructionInfo { instruction: Instruction::LSR, addressing_mode: AddressingMode::Accumulator, base_cycles: 2 }),
        0x4B => Some(InstructionInfo { instruction: Instruction::PHK, addressing_mode: AddressingMode::Implied, base_cycles: 3 }),
        0x4C => Some(InstructionInfo { instruction: Instruction::JMP, addressing_mode: AddressingMode::Absolute, base_cycles: 3 }),
        0x4D => Some(InstructionInfo { instruction: Instruction::EOR, addressing_mode: AddressingMode::Absolute, base_cycles: 4 }),
        0x4E => Some(InstructionInfo { instruction: Instruction::LSR, addressing_mode: AddressingMode::Absolute, base_cycles: 6 }),
        0x4F => Some(InstructionInfo { instruction: Instruction::EOR, addressing_mode: AddressingMode::AbsoluteLong, base_cycles: 5 }),
        0x50 => Some(InstructionInfo { instruction: Instruction::BVC, addressing_mode: AddressingMode::Relative, base_cycles: 2 }),
        0x51 => Some(InstructionInfo { instruction: Instruction::EOR, addressing_mode: AddressingMode::DirectPageIndirectY, base_cycles: 5 }),
        0x52 => Some(InstructionInfo { instruction: Instruction::EOR, addressing_mode: AddressingMode::DirectPageIndirect, base_cycles: 5 }),
        0x53 => Some(InstructionInfo { instruction: Instruction::EOR, addressing_mode: AddressingMode::StackRelativeIndirectY, base_cycles: 7 }),
        0x54 => Some(InstructionInfo { instruction: Instruction::MVN, addressing_mode: AddressingMode::BlockMove, base_cycles: 7 }),
        0x55 => Some(InstructionInfo { instruction: Instruction::EOR, addressing_mode: AddressingMode::DirectPageX, base_cycles: 4 }),
        0x56 => Some(InstructionInfo { instruction: Instruction::LSR, addressing_mode: AddressingMode::DirectPageX, base_cycles: 6 }),
        0x57 => Some(InstructionInfo { instruction: Instruction::EOR, addressing_mode: AddressingMode::DirectPageIndirectLongY, base_cycles: 6 }),
        0x58 => Some(InstructionInfo { instruction: Instruction::CLI, addressing_mode: AddressingMode::Implied, base_cycles: 2 }),
        0x59 => Some(InstructionInfo { instruction: Instruction::EOR, addressing_mode: AddressingMode::AbsoluteY, base_cycles: 4 }),
        0x5A => Some(InstructionInfo { instruction: Instruction::PHY, addressing_mode: AddressingMode::Implied, base_cycles: 3 }),
        0x5B => Some(InstructionInfo { instruction: Instruction::TCD, addressing_mode: AddressingMode::Implied, base_cycles: 2 }),
        0x5C => Some(InstructionInfo { instruction: Instruction::JML, addressing_mode: AddressingMode::AbsoluteLong, base_cycles: 4 }),
        0x5D => Some(InstructionInfo { instruction: Instruction::EOR, addressing_mode: AddressingMode::AbsoluteX, base_cycles: 4 }),
        0x5E => Some(InstructionInfo { instruction: Instruction::LSR, addressing_mode: AddressingMode::AbsoluteX, base_cycles: 7 }),
        0x5F => Some(InstructionInfo { instruction: Instruction::EOR, addressing_mode: AddressingMode::AbsoluteLongX, base_cycles: 5 }),
        0x60 => Some(InstructionInfo { instruction: Instruction::RTS, addressing_mode: AddressingMode::Implied, base_cycles: 6 }),
        0x61 => Some(InstructionInfo { instruction: Instruction::ADC, addressing_mode: AddressingMode::DirectPageIndirectX, base_cycles: 6 }),
        0x62 => Some(InstructionInfo { instruction: Instruction::PER, addressing_mode: AddressingMode::RelativeLong, base_cycles: 6 }),
        0x63 => Some(InstructionInfo { instruction: Instruction::ADC, addressing_mode: AddressingMode::StackRelative, base_cycles: 4 }),
        0x64 => Some(InstructionInfo { instruction: Instruction::STZ, addressing_mode: AddressingMode::DirectPage, base_cycles: 3 }),
        0x65 => Some(InstructionInfo { instruction: Instruction::ADC, addressing_mode: AddressingMode::DirectPage, base_cycles: 3 }),
        0x66 => Some(InstructionInfo { instruction: Instruction::ROR, addressing_mode: AddressingMode::DirectPage, base_cycles: 5 }),
        0x67 => Some(InstructionInfo { instruction: Instruction::ADC, addressing_mode: AddressingMode::DirectPageIndirectLong, base_cycles: 6 }),
        0x68 => Some(InstructionInfo { instruction: Instruction::PLA, addressing_mode: AddressingMode::Implied, base_cycles: 4 }),
        0x69 => Some(InstructionInfo { instruction: Instruction::ADC, addressing_mode: AddressingMode::Immediate, base_cycles: 2 }),
        0x6A => Some(InstructionInfo { instruction: Instruction::ROR, addressing_mode: AddressingMode::Accumulator, base_cycles: 2 }),
        0x6B => Some(InstructionInfo { instruction: Instruction::RTL, addressing_mode: AddressingMode::Implied, base_cycles: 6 }),
        0x6C => Some(InstructionInfo { instruction: Instruction::JMP, addressing_mode: AddressingMode::AbsoluteIndirect, base_cycles: 5 }),
        0x6D => Some(InstructionInfo { instruction: Instruction::ADC, addressing_mode: AddressingMode::Absolute, base_cycles: 4 }),
        0x6E => Some(InstructionInfo { instruction: Instruction::ROR, addressing_mode: AddressingMode::Absolute, base_cycles: 6 }),
        0x6F => Some(InstructionInfo { instruction: Instruction::ADC, addressing_mode: AddressingMode::AbsoluteLong, base_cycles: 5 }),
        0x70 => Some(InstructionInfo { instruction: Instruction::BVS, addressing_mode: AddressingMode::Relative, base_cycles: 2 }),
        0x71 => Some(InstructionInfo { instruction: Instruction::ADC, addressing_mode: AddressingMode::DirectPageIndirectY, base_cycles: 5 }),
        0x72 => Some(InstructionInfo { instruction: Instruction::ADC, addressing_mode: AddressingMode::DirectPageIndirect, base_cycles: 5 }),
        0x73 => Some(InstructionInfo { instruction: Instruction::ADC, addressing_mode: AddressingMode::StackRelativeIndirectY, base_cycles: 7 }),
        0x74 => Some(InstructionInfo { instruction: Instruction::STZ, addressing_mode: AddressingMode::DirectPageX, base_cycles: 4 }),
        0x75 => Some(InstructionInfo { instruction: Instruction::ADC, addressing_mode: AddressingMode::DirectPageX, base_cycles: 4 }),
        0x76 => Some(InstructionInfo { instruction: Instruction::ROR, addressing_mode: AddressingMode::DirectPageX, base_cycles: 6 }),
        0x77 => Some(InstructionInfo { instruction: Instruction::ADC, addressing_mode: AddressingMode::DirectPageIndirectLongY, base_cycles: 6 }),
        0x78 => Some(InstructionInfo { instruction: Instruction::SEI, addressing_mode: AddressingMode::Implied, base_cycles: 2 }),
        0x79 => Some(InstructionInfo { instruction: Instruction::ADC, addressing_mode: AddressingMode::AbsoluteY, base_cycles: 4 }),
        0x7A => Some(InstructionInfo { instruction: Instruction::PLY, addressing_mode: AddressingMode::Implied, base_cycles: 4 }),
        0x7B => Some(InstructionInfo { instruction: Instruction::TDC, addressing_mode: AddressingMode::Implied, base_cycles: 2 }),
        0x7C => Some(InstructionInfo { instruction: Instruction::JMP, addressing_mode: AddressingMode::AbsoluteIndirectX, base_cycles: 6 }),
        0x7D => Some(InstructionInfo { instruction: Instruction::ADC, addressing_mode: AddressingMode::AbsoluteX, base_cycles: 4 }),
        0x7E => Some(InstructionInfo { instruction: Instruction::ROR, addressing_mode: AddressingMode::AbsoluteX, base_cycles: 7 }),
        0x7F => Some(InstructionInfo { instruction: Instruction::ADC, addressing_mode: AddressingMode::AbsoluteLongX, base_cycles: 5 }),
        0x80 => Some(InstructionInfo { instruction: Instruction::BRA, addressing_mode: AddressingMode::Relative, base_cycles: 3 }),
        0x81 => Some(InstructionInfo { instruction: Instruction::STA, addressing_mode: AddressingMode::DirectPageIndirectX, base_cycles: 6 }),
        0x82 => Some(InstructionInfo { instruction: Instruction::BRL, addressing_mode: AddressingMode::RelativeLong, base_cycles: 4 }),
        0x83 => Some(InstructionInfo { instruction: Instruction::STA, addressing_mode: AddressingMode::StackRelative, base_cycles: 4 }),
        0x84 => Some(InstructionInfo { instruction: Instruction::STY, addressing_mode: AddressingMode::DirectPage, base_cycles: 3 }),
        0x85 => Some(InstructionInfo { instruction: Instruction::STA, addressing_mode: AddressingMode::DirectPage, base_cycles: 3 }),
        0x86 => Some(InstructionInfo { instruction: Instruction::STX, addressing_mode: AddressingMode::DirectPage, base_cycles: 3 }),
        0x87 => Some(InstructionInfo { instruction: Instruction::STA, addressing_mode: AddressingMode::DirectPageIndirectLong, base_cycles: 6 }),
        0x88 => Some(InstructionInfo { instruction: Instruction::DEY, addressing_mode: AddressingMode::Implied, base_cycles: 2 }),
        0x89 => Some(InstructionInfo { instruction: Instruction::BIT, addressing_mode: AddressingMode::Immediate, base_cycles: 2 }),
        0x8A => Some(InstructionInfo { instruction: Instruction::TXA, addressing_mode: AddressingMode::Implied, base_cycles: 2 }),
        0x8B => Some(InstructionInfo { instruction: Instruction::PHB, addressing_mode: AddressingMode::Implied, base_cycles: 3 }),
        0x8C => Some(InstructionInfo { instruction: Instruction::STY, addressing_mode: AddressingMode::Absolute, base_cycles: 4 }),
        0x8D => Some(InstructionInfo { instruction: Instruction::STA, addressing_mode: AddressingMode::Absolute, base_cycles: 4 }),
        0x8E => Some(InstructionInfo { instruction: Instruction::STX, addressing_mode: AddressingMode::Absolute, base_cycles: 4 }),
        0x8F => Some(InstructionInfo { instruction: Instruction::STA, addressing_mode: AddressingMode::AbsoluteLong, base_cycles: 5 }),
        0x90 => Some(InstructionInfo { instruction: Instruction::BCC, addressing_mode: AddressingMode::Relative, base_cycles: 2 }),
        0x91 => Some(InstructionInfo { instruction: Instruction::STA, addressing_mode: AddressingMode::DirectPageIndirectY, base_cycles: 6 }),
        0x92 => Some(InstructionInfo { instruction: Instruction::STA, addressing_mode: AddressingMode::DirectPageIndirect, base_cycles: 5 }),
        0x93 => Some(InstructionInfo { instruction: Instruction::STA, addressing_mode: AddressingMode::StackRelativeIndirectY, base_cycles: 7 }),
        0x94 => Some(InstructionInfo { instruction: Instruction::STY, addressing_mode: AddressingMode::DirectPageX, base_cycles: 4 }),
        0x95 => Some(InstructionInfo { instruction: Instruction::STA, addressing_mode: AddressingMode::DirectPageX, base_cycles: 4 }),
        0x96 => Some(InstructionInfo { instruction: Instruction::STX, addressing_mode: AddressingMode::DirectPageY, base_cycles: 4 }),
        0x97 => Some(InstructionInfo { instruction: Instruction::STA, addressing_mode: AddressingMode::DirectPageIndirectLongY, base_cycles: 6 }),
        0x98 => Some(InstructionInfo { instruction: Instruction::TYA, addressing_mode: AddressingMode::Implied, base_cycles: 2 }),
        0x99 => Some(InstructionInfo { instruction: Instruction::STA, addressing_mode: AddressingMode::AbsoluteY, base_cycles: 5 }),
        0x9A => Some(InstructionInfo { instruction: Instruction::TXS, addressing_mode: AddressingMode::Implied, base_cycles: 2 }),
        0x9B => Some(InstructionInfo { instruction: Instruction::TXY, addressing_mode: AddressingMode::Implied, base_cycles: 2 }),
        0x9C => Some(InstructionInfo { instruction: Instruction::STZ, addressing_mode: AddressingMode::Absolute, base_cycles: 4 }),
        0x9D => Some(InstructionInfo { instruction: Instruction::STA, addressing_mode: AddressingMode::AbsoluteX, base_cycles: 5 }),
        0x9E => Some(InstructionInfo { instruction: Instruction::STZ, addressing_mode: AddressingMode::AbsoluteX, base_cycles: 5 }),
        0x9F => Some(InstructionInfo { instruction: Instruction::STA, addressing_mode: AddressingMode::AbsoluteLongX, base_cycles: 5 }),
        0xA0 => Some(InstructionInfo { instruction: Instruction::LDY, addressing_mode: AddressingMode::Immediate, base_cycles: 2 }),
        0xA1 => Some(InstructionInfo { instruction: Instruction::LDA, addressing_mode: AddressingMode::DirectPageIndirectX, base_cycles: 6 }),
        0xA2 => Some(InstructionInfo { instruction: Instruction::LDX, addressing_mode: AddressingMode::Immediate, base_cycles: 2 }),
        0xA3 => Some(InstructionInfo { instruction: Instruction::LDA, addressing_mode: AddressingMode::StackRelative, base_cycles: 4 }),
        0xA4 => Some(InstructionInfo { instruction: Instruction::LDY, addressing_mode: AddressingMode::DirectPage, base_cycles: 3 }),
        0xA5 => Some(InstructionInfo { instruction: Instruction::LDA, addressing_mode: AddressingMode::DirectPage, base_cycles: 3 }),
        0xA6 => Some(InstructionInfo { instruction: Instruction::LDX, addressing_mode: AddressingMode::DirectPage, base_cycles: 3 }),
        0xA7 => Some(InstructionInfo { instruction: Instruction::LDA, addressing_mode: AddressingMode::DirectPageIndirectLong, base_cycles: 6 }),
        0xA8 => Some(InstructionInfo { instruction: Instruction::TAY, addressing_mode: AddressingMode::Implied, base_cycles: 2 }),
        0xA9 => Some(InstructionInfo { instruction: Instruction::LDA, addressing_mode: AddressingMode::Immediate, base_cycles: 2 }),
        0xAA => Some(InstructionInfo { instruction: Instruction::TAX, addressing_mode: AddressingMode::Implied, base_cycles: 2 }),
        0xAB => Some(InstructionInfo { instruction: Instruction::PLB, addressing_mode: AddressingMode::Implied, base_cycles: 4 }),
        0xAC => Some(InstructionInfo { instruction: Instruction::LDY, addressing_mode: AddressingMode::Absolute, base_cycles: 4 }),
        0xAD => Some(InstructionInfo { instruction: Instruction::LDA, addressing_mode: AddressingMode::Absolute, base_cycles: 4 }),
        0xAE => Some(InstructionInfo { instruction: Instruction::LDX, addressing_mode: AddressingMode::Absolute, base_cycles: 4 }),
        0xAF => Some(InstructionInfo { instruction: Instruction::LDA, addressing_mode: AddressingMode::AbsoluteLong, base_cycles: 5 }),
        0xB0 => Some(InstructionInfo { instruction: Instruction::BCS, addressing_mode: AddressingMode::Relative, base_cycles: 2 }),
        0xB1 => Some(InstructionInfo { instruction: Instruction::LDA, addressing_mode: AddressingMode::DirectPageIndirectY, base_cycles: 5 }),
        0xB2 => Some(InstructionInfo { instruction: Instruction::LDA, addressing_mode: AddressingMode::DirectPageIndirect, base_cycles: 5 }),
        0xB3 => Some(InstructionInfo { instruction: Instruction::LDA, addressing_mode: AddressingMode::StackRelativeIndirectY, base_cycles: 7 }),
        0xB4 => Some(InstructionInfo { instruction: Instruction::LDY, addressing_mode: AddressingMode::DirectPageX, base_cycles: 4 }),
        0xB5 => Some(InstructionInfo { instruction: Instruction::LDA, addressing_mode: AddressingMode::DirectPageX, base_cycles: 4 }),
        0xB6 => Some(InstructionInfo { instruction: Instruction::LDX, addressing_mode: AddressingMode::DirectPageY, base_cycles: 4 }),
        0xB7 => Some(InstructionInfo { instruction: Instruction::LDA, addressing_mode: AddressingMode::DirectPageIndirectLongY, base_cycles: 6 }),
        0xB8 => Some(InstructionInfo { instruction: Instruction::CLV, addressing_mode: AddressingMode::Implied, base_cycles: 2 }),
        0xB9 => Some(InstructionInfo { instruction: Instruction::LDA, addressing_mode: AddressingMode::AbsoluteY, base_cycles: 4 }),
        0xBA => Some(InstructionInfo { instruction: Instruction::TSX, addressing_mode: AddressingMode::Implied, base_cycles: 2 }),
        0xBB => Some(InstructionInfo { instruction: Instruction::TYX, addressing_mode: AddressingMode::Implied, base_cycles: 2 }),
        0xBC => Some(InstructionInfo { instruction: Instruction::LDY, addressing_mode: AddressingMode::AbsoluteX, base_cycles: 4 }),
        0xBD => Some(InstructionInfo { instruction: Instruction::LDA, addressing_mode: AddressingMode::AbsoluteX, base_cycles: 4 }),
        0xBE => Some(InstructionInfo { instruction: Instruction::LDX, addressing_mode: AddressingMode::AbsoluteY, base_cycles: 4 }),
        0xBF => Some(InstructionInfo { instruction: Instruction::LDA, addressing_mode: AddressingMode::AbsoluteLongX, base_cycles: 5 }),
        0xC0 => Some(InstructionInfo { instruction: Instruction::CPY, addressing_mode: AddressingMode::Immediate, base_cycles: 2 }),
        0xC1 => Some(InstructionInfo { instruction: Instruction::CMP, addressing_mode: AddressingMode::DirectPageIndirectX, base_cycles: 6 }),
        0xC2 => Some(InstructionInfo { instruction: Instruction::REP, addressing_mode: AddressingMode::Immediate, base_cycles: 3 }),
        0xC3 => Some(InstructionInfo { instruction: Instruction::CMP, addressing_mode: AddressingMode::StackRelative, base_cycles: 4 }),
        0xC4 => Some(InstructionInfo { instruction: Instruction::CPY, addressing_mode: AddressingMode::DirectPage, base_cycles: 3 }),
        0xC5 => Some(InstructionInfo { instruction: Instruction::CMP, addressing_mode: AddressingMode::DirectPage, base_cycles: 3 }),
        0xC6 => Some(InstructionInfo { instruction: Instruction::DEC, addressing_mode: AddressingMode::DirectPage, base_cycles: 5 }),
        0xC7 => Some(InstructionInfo { instruction: Instruction::CMP, addressing_mode: AddressingMode::DirectPageIndirectLong, base_cycles: 6 }),
        0xC8 => Some(InstructionInfo { instruction: Instruction::INY, addressing_mode: AddressingMode::Implied, base_cycles: 2 }),
        0xC9 => Some(InstructionInfo { instruction: Instruction::CMP, addressing_mode: AddressingMode::Immediate, base_cycles: 2 }),
        0xCA => Some(InstructionInfo { instruction: Instruction::DEX, addressing_mode: AddressingMode::Implied, base_cycles: 2 }),
        0xCB => Some(InstructionInfo { instruction: Instruction::WAI, addressing_mode: AddressingMode::Implied, base_cycles: 3 }),
        0xCC => Some(InstructionInfo { instruction: Instruction::CPY, addressing_mode: AddressingMode::Absolute, base_cycles: 4 }),
        0xCD => Some(InstructionInfo { instruction: Instruction::CMP, addressing_mode: AddressingMode::Absolute, base_cycles: 4 }),
        0xCE => Some(InstructionInfo { instruction: Instruction::DEC, addressing_mode: AddressingMode::Absolute, base_cycles: 6 }),
        0xCF => Some(InstructionInfo { instruction: Instruction::CMP, addressing_mode: AddressingMode::AbsoluteLong, base_cycles: 5 }),
        0xD0 => Some(InstructionInfo { instruction: Instruction::BNE, addressing_mode: AddressingMode::Relative, base_cycles: 2 }),
        0xD1 => Some(InstructionInfo { instruction: Instruction::CMP, addressing_mode: AddressingMode::DirectPageIndirectY, base_cycles: 5 }),
        0xD2 => Some(InstructionInfo { instruction: Instruction::CMP, addressing_mode: AddressingMode::DirectPageIndirect, base_cycles: 5 }),
        0xD3 => Some(InstructionInfo { instruction: Instruction::CMP, addressing_mode: AddressingMode::StackRelativeIndirectY, base_cycles: 7 }),
        0xD4 => Some(InstructionInfo { instruction: Instruction::PEI, addressing_mode: AddressingMode::DirectPage, base_cycles: 6 }),
        0xD5 => Some(InstructionInfo { instruction: Instruction::CMP, addressing_mode: AddressingMode::DirectPageX, base_cycles: 4 }),
        0xD6 => Some(InstructionInfo { instruction: Instruction::DEC, addressing_mode: AddressingMode::DirectPageX, base_cycles: 6 }),
        0xD7 => Some(InstructionInfo { instruction: Instruction::CMP, addressing_mode: AddressingMode::DirectPageIndirectLongY, base_cycles: 6 }),
        0xD8 => Some(InstructionInfo { instruction: Instruction::CLD, addressing_mode: AddressingMode::Implied, base_cycles: 2 }),
        0xD9 => Some(InstructionInfo { instruction: Instruction::CMP, addressing_mode: AddressingMode::AbsoluteY, base_cycles: 4 }),
        0xDA => Some(InstructionInfo { instruction: Instruction::PHX, addressing_mode: AddressingMode::Implied, base_cycles: 3 }),
        0xDB => Some(InstructionInfo { instruction: Instruction::STP, addressing_mode: AddressingMode::Implied, base_cycles: 3 }),
        0xDC => Some(InstructionInfo { instruction: Instruction::JML, addressing_mode: AddressingMode::AbsoluteIndirectLong, base_cycles: 6 }),
        0xDD => Some(InstructionInfo { instruction: Instruction::CMP, addressing_mode: AddressingMode::AbsoluteX, base_cycles: 4 }),
        0xDE => Some(InstructionInfo { instruction: Instruction::DEC, addressing_mode: AddressingMode::AbsoluteX, base_cycles: 7 }),
        0xDF => Some(InstructionInfo { instruction: Instruction::CMP, addressing_mode: AddressingMode::AbsoluteLongX, base_cycles: 5 }),
        0xE0 => Some(InstructionInfo { instruction: Instruction::CPX, addressing_mode: AddressingMode::Immediate, base_cycles: 2 }),
        0xE1 => Some(InstructionInfo { instruction: Instruction::SBC, addressing_mode: AddressingMode::DirectPageIndirectX, base_cycles: 6 }),
        0xE2 => Some(InstructionInfo { instruction: Instruction::SEP, addressing_mode: AddressingMode::Immediate, base_cycles: 3 }),
        0xE3 => Some(InstructionInfo { instruction: Instruction::SBC, addressing_mode: AddressingMode::StackRelative, base_cycles: 4 }),
        0xE4 => Some(InstructionInfo { instruction: Instruction::CPX, addressing_mode: AddressingMode::DirectPage, base_cycles: 3 }),
        0xE5 => Some(InstructionInfo { instruction: Instruction::SBC, addressing_mode: AddressingMode::DirectPage, base_cycles: 3 }),
        0xE6 => Some(InstructionInfo { instruction: Instruction::INC, addressing_mode: AddressingMode::DirectPage, base_cycles: 5 }),
        0xE7 => Some(InstructionInfo { instruction: Instruction::SBC, addressing_mode: AddressingMode::DirectPageIndirectLong, base_cycles: 6 }),
        0xE8 => Some(InstructionInfo { instruction: Instruction::INX, addressing_mode: AddressingMode::Implied, base_cycles: 2 }),
        0xE9 => Some(InstructionInfo { instruction: Instruction::SBC, addressing_mode: AddressingMode::Immediate, base_cycles: 2 }),
        0xEA => Some(InstructionInfo { instruction: Instruction::NOP, addressing_mode: AddressingMode::Implied, base_cycles: 2 }),
        0xEB => Some(InstructionInfo { instruction: Instruction::XBA, addressing_mode: AddressingMode::Implied, base_cycles: 3 }),
        0xEC => Some(InstructionInfo { instruction: Instruction::CPX, addressing_mode: AddressingMode::Absolute, base_cycles: 4 }),
        0xED => Some(InstructionInfo { instruction: Instruction::SBC, addressing_mode: AddressingMode::Absolute, base_cycles: 4 }),
        0xEE => Some(InstructionInfo { instruction: Instruction::INC, addressing_mode: AddressingMode::Absolute, base_cycles: 6 }),
        0xEF => Some(InstructionInfo { instruction: Instruction::SBC, addressing_mode: AddressingMode::AbsoluteLong, base_cycles: 5 }),
        0xF0 => Some(InstructionInfo { instruction: Instruction::BEQ, addressing_mode: AddressingMode::Relative, base_cycles: 2 }),
        0xF1 => Some(InstructionInfo { instruction: Instruction::SBC, addressing_mode: AddressingMode::DirectPageIndirectY, base_cycles: 5 }),
        0xF2 => Some(InstructionInfo { instruction: Instruction::SBC, addressing_mode: AddressingMode::DirectPageIndirect, base_cycles: 5 }),
        0xF3 => Some(InstructionInfo { instruction: Instruction::SBC, addressing_mode: AddressingMode::StackRelativeIndirectY, base_cycles: 7 }),
        0xF4 => Some(InstructionInfo { instruction: Instruction::PEA, addressing_mode: AddressingMode::Absolute, base_cycles: 5 }),
        0xF5 => Some(InstructionInfo { instruction: Instruction::SBC, addressing_mode: AddressingMode::DirectPageX, base_cycles: 4 }),
        0xF6 => Some(InstructionInfo { instruction: Instruction::INC, addressing_mode: AddressingMode::DirectPageX, base_cycles: 6 }),
        0xF7 => Some(InstructionInfo { instruction: Instruction::SBC, addressing_mode: AddressingMode::DirectPageIndirectLongY, base_cycles: 6 }),
        0xF8 => Some(InstructionInfo { instruction: Instruction::SED, addressing_mode: AddressingMode::Implied, base_cycles: 2 }),
        0xF9 => Some(InstructionInfo { instruction: Instruction::SBC, addressing_mode: AddressingMode::AbsoluteY, base_cycles: 4 }),
        0xFA => Some(InstructionInfo { instruction: Instruction::PLX, addressing_mode: AddressingMode::Implied, base_cycles: 4 }),
        0xFB => Some(InstructionInfo { instruction: Instruction::XCE, addressing_mode: AddressingMode::Implied, base_cycles: 2 }),
        0xFC => Some(InstructionInfo { instruction: Instruction::JSR, addressing_mode: AddressingMode::AbsoluteIndirectX, base_cycles: 8 }),
        0xFD => Some(InstructionInfo { instruction: Instruction::SBC, addressing_mode: AddressingMode::AbsoluteX, base_cycles: 4 }),
        0xFE => Some(InstructionInfo { instruction: Instruction::INC, addressing_mode: AddressingMode::AbsoluteX, base_cycles: 7 }),
        0xFF => Some(InstructionInfo { instruction: Instruction::SBC, addressing_mode: AddressingMode::AbsoluteLongX, base_cycles: 5 }),
    }
}

/// Decodes one opcode byte. Decoding is total: every byte is defined,
/// so the lookup never fails and never raises an error.
#[verifier::rlimit(50)]
pub fn decode_opcode(opcode: u8) -> (r: Option<InstructionInfo>)
    ensures
        r == spec_decode(opcode),
        r is Some,
{
    match opcode {
        0x00 => Some(InstructionInfo::new(Instruction::BRK, AddressingMode::Implied, 7)),
        0x01 => Some(InstructionInfo::new(Instruction::ORA, AddressingMode::DirectPageIndirectX, 6)),
        0x02 => Some(InstructionInfo::new(Instruction::COP, AddressingMode::Immediate, 7)),
        0x03 => Some(InstructionInfo::new(Instruction::ORA, AddressingMode::StackRelative, 4)),
        0x04 => Some(InstructionInfo::new(Instruction::TSB, AddressingMode::DirectPage, 5)),
        0x05 => Some(InstructionInfo::new(Instruction::ORA, AddressingMode::DirectPage, 3)),
        0x06 => Some(InstructionInfo::new(Instruction::ASL, AddressingMode::DirectPage, 5)),
        0x07 => Some(InstructionInfo::new(Instruction::ORA, AddressingMode::DirectPageIndirectLong, 6)),
        0x08 => Some(InstructionInfo::new(Instruction::PHP, AddressingMode::Implied, 3)),
        0x09 => Some(InstructionInfo::new(Instruction::ORA, AddressingMode::Immediate, 2)),
        0x0A => Some(InstructionInfo::new(Instruction::ASL, AddressingMode::Accumulator, 2)),
        0x0B => Some(InstructionInfo::new(Instruction::PHD, AddressingMode::Implied, 4)),
        0x0C => Some(InstructionInfo::new(Instruction::TSB, AddressingMode::Absolute, 6)),
        0x0D => Some(InstructionInfo::new(Instruction::ORA, AddressingMode::Absolute, 4)),
        0x0E => Some(InstructionInfo::new(Instruction::ASL, AddressingMode::Absolute, 6)),
        0x0F => Some(InstructionInfo::new(Instruction::ORA, AddressingMode::AbsoluteLong, 5)),
        0x10 => Some(InstructionInfo::new(Instruction::BPL, AddressingMode::Relative, 2)),
        0x11 => Some(InstructionInfo::new(Instruction::ORA, AddressingMode::DirectPageIndirectY, 5)),
        0x12 => Some(InstructionInfo::new(Instruction::ORA, AddressingMode::DirectPageIndirect, 5)),
        0x13 => Some(InstructionInfo::new(Instruction::ORA, AddressingMode::StackRelativeIndirectY, 7)),
        0x14 => Some(InstructionInfo::new(Instruction::TRB, AddressingMode::DirectPage, 5)),
        0x15 => Some(InstructionInfo::new(Instruction::ORA, AddressingMode::DirectPageX, 4)),
        0x16 => Some(InstructionInfo::new(Instruction::ASL, AddressingMode::DirectPageX, 6)),
        0x17 => Some(InstructionInfo::new(Instruction::ORA, AddressingMode::DirectPageIndirectLongY, 6)),
        0x18 => Some(InstructionInfo::new(Instruction::CLC, AddressingMode::Implied, 2)),
        0x19 => Some(InstructionInfo::new(Instruction::ORA, AddressingMode::AbsoluteY, 4)),
        0x1A => Some(InstructionInfo::new(Instruction::INC, AddressingMode::Accumulator, 2)),
        0x1B => Some(InstructionInfo::new(Instruction::TCS, AddressingMode::Implied, 2)),
        0x1C => Some(InstructionInfo::new(Instruction::TRB, AddressingMode::Absolute, 6)),
        0x1D => Some(InstructionInfo::new(Instruction::ORA, AddressingMode::AbsoluteX, 4)),
        0x1E => Some(InstructionInfo::new(Instruction::ASL, AddressingMode::AbsoluteX, 7)),
        0x1F => Some(InstructionInfo::new(Instruction::ORA, AddressingMode::AbsoluteLongX, 5)),
        0x20 => Some(InstructionInfo::new(Instruction::JSR, AddressingMode::Absolute, 6)),
        0x21 => Some(InstructionInfo::new(Instruction::AND, AddressingMode::DirectPageIndirectX, 6)),
        0x22 => Some(InstructionInfo::new(Instruction::JSL, AddressingMode::AbsoluteLong, 8)),
        0x23 => Some(InstructionInfo::new(Instruction::AND, AddressingMode::StackRelative, 4)),
        0x24 => Some(InstructionInfo::new(Instruction::BIT, AddressingMode::DirectPage, 3)),
        0x25 => Some(InstructionInfo::new(Instruction::AND, AddressingMode::DirectPage, 3)),
        0x26 => Some(InstructionInfo::new(Instruction::ROL, AddressingMode::DirectPage, 5)),
        0x27 => Some(InstructionInfo::new(Instruction::AND, AddressingMode::DirectPageIndirectLong, 6)),
        0x28 => Some(InstructionInfo::new(Instruction::PLP, AddressingMode::Implied, 4)),
        0x29 => Some(InstructionInfo::new(Instruction::AND, AddressingMode::Immediate, 2)),
        0x2A => Some(InstructionInfo::new(Instruction::ROL, AddressingMode::Accumulator, 2)),
        0x2B => Some(InstructionInfo::new(Instruction::PLD, AddressingMode::Implied, 5)),
        0x2C => Some(InstructionInfo::new(Instruction::BIT, AddressingMode::Absolute, 4)),
        0x2D => Some(InstructionInfo::new(Instruction::AND, AddressingMode::Absolute, 4)),
        0x2E => Some(InstructionInfo::new(Instruction::ROL, AddressingMode::Absolute, 6)),
        0x2F => Some(InstructionInfo::new(Instruction::AND, AddressingMode::AbsoluteLong, 5)),
        0x30 => Some(InstructionInfo::new(Instruction::BMI, AddressingMode::Relative, 2)),
        0x31 => Some(InstructionInfo::new(Instruction::AND, AddressingMode::DirectPageIndirectY, 5)),
        0x32 => Some(InstructionInfo::new(Instruction::AND, AddressingMode::DirectPageIndirect, 5)),
        0x33 => Some(InstructionInfo::new(Instruction::AND, AddressingMode::StackRelativeIndirectY, 7)),
        0x34 => Some(InstructionInfo::new(Instruction::BIT, AddressingMode::DirectPageX, 4)),
        0x35 => Some(InstructionInfo::new(Instruction::AND, AddressingMode::DirectPageX, 4)),
        0x36 => Some(InstructionInfo::new(Instruction::ROL, AddressingMode::DirectPageX, 6)),
        0x37 => Some(InstructionInfo::new(Instruction::AND, AddressingMode::DirectPageIndirectLongY, 6)),
        0x38 => Some(InstructionInfo::new(Instruction::SEC, AddressingMode::Implied, 2)),
        0x39 => Some(InstructionInfo::new(Instruction::AND, AddressingMode::AbsoluteY, 4)),
        0x3A => Some(InstructionInfo::new(Instruction::DEC, AddressingMode::Accumulator, 2)),
        0x3B => Some(InstructionInfo::new(Instruction::TSC, AddressingMode::Implied, 2)),
        0x3C => Some(InstructionInfo::new(Instruction::BIT, AddressingMode::AbsoluteX, 4)),
        0x3D => Some(InstructionInfo::new(Instruction::AND, AddressingMode::AbsoluteX, 4)),
        0x3E => Some(InstructionInfo::new(Instruction::ROL, AddressingMode::AbsoluteX, 7)),
        0x3F => Some(InstructionInfo::new(Instruction::AND, AddressingMode::AbsoluteLongX, 5)),
        0x40 => Some(InstructionInfo::new(Instruction::RTI, AddressingMode::Implied, 6)),
        0x41 => Some(InstructionInfo::new(Instruction::EOR, AddressingMode::DirectPageIndirectX, 6)),
        0x42 => Some(InstructionInfo::new(Instruction::WDM, AddressingMode::Immediate, 2)),
        0x43 => Some(InstructionInfo::new(Instruction::EOR, AddressingMode::StackRelative, 4)),
        0x44 => Some(InstructionInfo::new(Instruction::MVP, AddressingMode::BlockMove, 7)),
        0x45 => Some(InstructionInfo::new(Instruction::EOR, AddressingMode::DirectPage, 3)),
        0x46 => Some(InstructionInfo::new(Instruction::LSR, AddressingMode::DirectPage, 5)),
        0x47 => Some(InstructionInfo::new(Instruction::EOR, AddressingMode::DirectPageIndirectLong, 6)),
        0x48 => Some(InstructionInfo::new(Instruction::PHA, AddressingMode::Implied, 3)),
        0x49 => Some(InstructionInfo::new(Instruction::EOR, AddressingMode::Immediate, 2)),
        0x4A => Some(InstructionInfo::new(Instruction::LSR, AddressingMode::Accumulator, 2)),
        0x4B => Some(InstructionInfo::new(Instruction::PHK, AddressingMode::Implied, 3)),
        0x4C => Some(InstructionInfo::new(Instruction::JMP, AddressingMode::Absolute, 3)),
        0x4D => Some(InstructionInfo::new(Instruction::EOR, AddressingMode::Absolute, 4)),
        0x4E => Some(InstructionInfo::new(Instruction::LSR, AddressingMode::Absolute, 6)),
        0x4F => Some(InstructionInfo::new(Instruction::EOR, AddressingMode::AbsoluteLong, 5)),
        0x50 => Some(InstructionInfo::new(Instruction::BVC, AddressingMode::Relative, 2)),
        0x51 => Some(InstructionInfo::new(Instruction::EOR, AddressingMode::DirectPageIndirectY, 5)),
        0x52 => Some(InstructionInfo::new(Instruction::EOR, AddressingMode::DirectPageIndirect, 5)),
        0x53 => Some(InstructionInfo::new(Instruction::EOR, AddressingMode::StackRelativeIndirectY, 7)),
        0x54 => Some(InstructionInfo::new(Instruction::MVN, AddressingMode::BlockMove, 7)),
        0x55 => Some(InstructionInfo::new(Instruction::EOR, AddressingMode::DirectPageX, 4)),
        0x56 => Some(InstructionInfo::new(Instruction::LSR, AddressingMode::DirectPageX, 6)),
        0x57 => Some(InstructionInfo::new(Instruction::EOR, AddressingMode::DirectPageIndirectLongY, 6)),
        0x58 => Some(InstructionInfo::new(Instruction::CLI, AddressingMode::Implied, 2)),
        0x59 => Some(InstructionInfo::new(Instruction::EOR, AddressingMode::AbsoluteY, 4)),
        0x5A => Some(InstructionInfo::new(Instruction::PHY, AddressingMode::Implied, 3)),
        0x5B => Some(InstructionInfo::new(Instruction::TCD, AddressingMode::Implied, 2)),
        0x5C => Some(InstructionInfo::new(Instruction::JML, AddressingMode::AbsoluteLong, 4)),
        0x5D => Some(InstructionInfo::new(Instruction::EOR, AddressingMode::AbsoluteX, 4)),
        0x5E => Some(InstructionInfo::new(Instruction::LSR, AddressingMode::AbsoluteX, 7)),
        0x5F => Some(InstructionInfo::new(Instruction::EOR, AddressingMode::AbsoluteLongX, 5)),
        0x60 => Some(InstructionInfo::new(Instruction::RTS, AddressingMode::Implied, 6)),
        0x61 => Some(InstructionInfo::new(Instruction::ADC, AddressingMode::DirectPageIndirectX, 6)),
        0x62 => Some(InstructionInfo::new(Instruction::PER, AddressingMode::RelativeLong, 6)),
        0x63 => Some(InstructionInfo::new(Instruction::ADC, AddressingMode::StackRelative, 4)),
        0x64 => Some(InstructionInfo::new(Instruction::STZ, AddressingMode::DirectPage, 3)),
        0x65 => Some(InstructionInfo::new(Instruction::ADC, AddressingMode::DirectPage, 3)),
        0x66 => Some(InstructionInfo::new(Instruction::ROR, AddressingMode::DirectPage, 5)),
        0x67 => Some(InstructionInfo::new(Instruction::ADC, AddressingMode::DirectPageIndirectLong, 6)),
        0x68 => Some(InstructionInfo::new(Instruction::PLA, AddressingMode::Implied, 4)),
        0x69 => Some(InstructionInfo::new(Instruction::ADC, AddressingMode::Immediate, 2)),
        0x6A => Some(InstructionInfo::new(Instruction::ROR, AddressingMode::Accumulator, 2)),
        0x6B => Some(InstructionInfo::new(Instruction::RTL, AddressingMode::Implied, 6)),
        0x6C => Some(InstructionInfo::new(Instruction::JMP, AddressingMode::AbsoluteIndirect, 5)),
        0x6D => Some(InstructionInfo::new(Instruction::ADC, AddressingMode::Absolute, 4)),
        0x6E => Some(InstructionInfo::new(Instruction::ROR, AddressingMode::Absolute, 6)),
        0x6F => Some(InstructionInfo::new(Instruction::ADC, AddressingMode::AbsoluteLong, 5)),
        0x70 => Some(InstructionInfo::new(Instruction::BVS, AddressingMode::Relative, 2)),
        0x71 => Some(InstructionInfo::new(Instruction::ADC, AddressingMode::DirectPageIndirectY, 5)),
        0x72 => Some(InstructionInfo::new(Instruction::ADC, AddressingMode::DirectPageIndirect, 5)),
        0x73 => Some(InstructionInfo::new(Instruction::ADC, AddressingMode::StackRelativeIndirectY, 7)),
        0x74 => Some(InstructionInfo::new(Instruction::STZ, AddressingMode::DirectPageX, 4)),
        0x75 => Some(InstructionInfo::new(Instruction::ADC, AddressingMode::DirectPageX, 4)),
        0x76 => Some(InstructionInfo::new(Instruction::ROR, AddressingMode::DirectPageX, 6)),
        0x77 => Some(InstructionInfo::new(Instruction::ADC, AddressingMode::DirectPageIndirectLongY, 6)),
        0x78 => Some(InstructionInfo::new(Instruction::SEI, AddressingMode::Implied, 2)),
        0x79 => Some(InstructionInfo::new(Instruction::ADC, AddressingMode::AbsoluteY, 4)),
        0x7A => Some(InstructionInfo::new(Instruction::PLY, AddressingMode::Implied, 4)),
        0x7B => Some(InstructionInfo::new(Instruction::TDC, AddressingMode::Implied, 2)),
        0x7C => Some(InstructionInfo::new(Instruction::JMP, AddressingMode::AbsoluteIndirectX, 6)),
        0x7D => Some(InstructionInfo::new(Instruction::ADC, AddressingMode::AbsoluteX, 4)),
        0x7E => Some(InstructionInfo::new(Instruction::ROR, AddressingMode::AbsoluteX, 7)),
        0x7F => Some(InstructionInfo::new(Instruction::ADC, AddressingMode::AbsoluteLongX, 5)),
        0x80 => Some(InstructionInfo::new(Instruction::BRA, AddressingMode::Relative, 3)),
        0x81 => Some(InstructionInfo::new(Instruction::STA, AddressingMode::DirectPageIndirectX, 6)),
        0x82 => Some(InstructionInfo::new(Instruction::BRL, AddressingMode::RelativeLong, 4)),
        0x83 => Some(InstructionInfo::new(Instruction::STA, AddressingMode::StackRelative, 4)),
        0x84 => Some(InstructionInfo::new(Instruction::STY, AddressingMode::DirectPage, 3)),
        0x85 => Some(InstructionInfo::new(Instruction::STA, AddressingMode::DirectPage, 3)),
        0x86 => Some(InstructionInfo::new(Instruction::STX, AddressingMode::DirectPage, 3)),
        0x87 => Some(InstructionInfo::new(Instruction::STA, AddressingMode::DirectPageIndirectLong, 6)),
        0x88 => Some(InstructionInfo::new(Instruction::DEY, AddressingMode::Implied, 2)),
        0x89 => Some(InstructionInfo::new(Instruction::BIT, AddressingMode::Immediate, 2)),
        0x8A => Some(InstructionInfo::new(Instruction::TXA, AddressingMode::Implied, 2)),
        0x8B => Some(InstructionInfo::new(Instruction::PHB, AddressingMode::Implied, 3)),
        0x8C => Some(InstructionInfo::new(Instruction::STY, AddressingMode::Absolute, 4)),
        0x8D => Some(InstructionInfo::new(Instruction::STA, AddressingMode::Absolute, 4)),
        0x8E => Some(InstructionInfo::new(Instruction::STX, AddressingMode::Absolute, 4)),
        0x8F => Some(InstructionInfo::new(Instruction::STA, AddressingMode::AbsoluteLong, 5)),
        0x90 => Some(InstructionInfo::new(Instruction::BCC, AddressingMode::Relative, 2)),
        0x91 => Some(InstructionInfo::new(Instruction::STA, AddressingMode::DirectPageIndirectY, 6)),
        0x92 => Some(InstructionInfo::new(Instruction::STA, AddressingMode::DirectPageIndirect, 5)),
        0x93 => Some(InstructionInfo::new(Instruction::STA, AddressingMode::StackRelativeIndirectY, 7)),
        0x94 => Some(InstructionInfo::new(Instruction::STY, AddressingMode::DirectPageX, 4)),
        0x95 => Some(InstructionInfo::new(Instruction::STA, AddressingMode::DirectPageX, 4)),
        0x96 => Some(InstructionInfo::new(Instruction::STX, AddressingMode::DirectPageY, 4)),
        0x97 => Some(InstructionInfo::new(Instruction::STA, AddressingMode::DirectPageIndirectLongY, 6)),
        0x98 => Some(InstructionInfo::new(Instruction::TYA, AddressingMode::Implied, 2)),
        0x99 => Some(InstructionInfo::new(Instruction::STA, AddressingMode::AbsoluteY, 5)),
        0x9A => Some(InstructionInfo::new(Instruction::TXS, AddressingMode::Implied, 2)),
        0x9B => Some(InstructionInfo::new(Instruction::TXY, AddressingMode::Implied, 2)),
        0x9C => Some(InstructionInfo::new(Instruction::STZ, AddressingMode::Absolute, 4)),
        0x9D => Some(InstructionInfo::new(Instruction::STA, AddressingMode::AbsoluteX, 5)),
        0x9E => Some(InstructionInfo::new(Instruction::STZ, AddressingMode::AbsoluteX, 5)),
        0x9F => Some(InstructionInfo::new(Instruction::STA, AddressingMode::AbsoluteLongX, 5)),
        0xA0 => Some(InstructionInfo::new(Instruction::LDY, AddressingMode::Immediate, 2)),
        0xA1 => Some(InstructionInfo::new(Instruction::LDA, AddressingMode::DirectPageIndirectX, 6)),
        0xA2 => Some(InstructionInfo::new(Instruction::LDX, AddressingMode::Immediate, 2)),
        0xA3 => Some(InstructionInfo::new(Instruction::LDA, AddressingMode::StackRelative, 4)),
        0xA4 => Some(InstructionInfo::new(Instruction::LDY, AddressingMode::DirectPage, 3)),
        0xA5 => Some(InstructionInfo::new(Instruction::LDA, AddressingMode::DirectPage, 3)),
        0xA6 => Some(InstructionInfo::new(Instruction::LDX, AddressingMode::DirectPage, 3)),
        0xA7 => Some(InstructionInfo::new(Instruction::LDA, AddressingMode::DirectPageIndirectLong, 6)),
        0xA8 => Some(InstructionInfo::new(Instruction::TAY, AddressingMode::Implied, 2)),
        0xA9 => Some(InstructionInfo::new(Instruction::LDA, AddressingMode::Immediate, 2)),
        0xAA => Some(InstructionInfo::new(Instruction::TAX, AddressingMode::Implied, 2)),
        0xAB => Some(InstructionInfo::new(Instruction::PLB, AddressingMode::Implied, 4)),
        0xAC => Some(InstructionInfo::new(Instruction::LDY, AddressingMode::Absolute, 4)),
        0xAD => Some(InstructionInfo::new(Instruction::LDA, AddressingMode::Absolute, 4)),
        0xAE => Some(InstructionInfo::new(Instruction::LDX, AddressingMode::Absolute, 4)),
        0xAF => Some(InstructionInfo::new(Instruction::LDA, AddressingMode::AbsoluteLong, 5)),
        0xB0 => Some(InstructionInfo::new(Instruction::BCS, AddressingMode::Relative, 2)),
        0xB1 => Some(InstructionInfo::new(Instruction::LDA, AddressingMode::DirectPageIndirectY, 5)),
        0xB2 => Some(InstructionInfo::new(Instruction::LDA, AddressingMode::DirectPageIndirect, 5)),
        0xB3 => Some(InstructionInfo::new(Instruction::LDA, AddressingMode::StackRelativeIndirectY, 7)),
        0xB4 => Some(InstructionInfo::new(Instruction::LDY, AddressingMode::DirectPageX, 4)),
        0xB5 => Some(InstructionInfo::new(Instruction::LDA, AddressingMode::DirectPageX, 4)),
        0xB6 => Some(InstructionInfo::new(Instruction::LDX, AddressingMode::DirectPageY, 4)),
        0xB7 => Some(InstructionInfo::new(Instruction::LDA, AddressingMode::DirectPageIndirectLongY, 6)),
        0xB8 => Some(InstructionInfo::new(Instruction::CLV, AddressingMode::Implied, 2)),
        0xB9 => Some(InstructionInfo::new(Instruction::LDA, AddressingMode::AbsoluteY, 4)),
        0xBA => Some(InstructionInfo::new(Instruction::TSX, AddressingMode::Implied, 2)),
        0xBB => Some(InstructionInfo::new(Instruction::TYX, AddressingMode::Implied, 2)),
        0xBC => Some(InstructionInfo::new(Instruction::LDY, AddressingMode::AbsoluteX, 4)),
        0xBD => Some(InstructionInfo::new(Instruction::LDA, AddressingMode::AbsoluteX, 4)),
        0xBE => Some(InstructionInfo::new(Instruction::LDX, AddressingMode::AbsoluteY, 4)),
        0xBF => Some(InstructionInfo::new(Instruction::LDA, AddressingMode::AbsoluteLongX, 5)),
        0xC0 => Some(InstructionInfo::new(Instruction::CPY, AddressingMode::Immediate, 2)),
        0xC1 => Some(InstructionInfo::new(Instruction::CMP, AddressingMode::DirectPageIndirectX, 6)),
        0xC2 => Some(InstructionInfo::new(Instruction::REP, AddressingMode::Immediate, 3)),
        0xC3 => Some(InstructionInfo::new(Instruction::CMP, AddressingMode::StackRelative, 4)),
        0xC4 => Some(InstructionInfo::new(Instruction::CPY, AddressingMode::DirectPage, 3)),
        0xC5 => Some(InstructionInfo::new(Instruction::CMP, AddressingMode::DirectPage, 3)),
        0xC6 => Some(InstructionInfo::new(Instruction::DEC, AddressingMode::DirectPage, 5)),
        0xC7 => Some(InstructionInfo::new(Instruction::CMP, AddressingMode::DirectPageIndirectLong, 6)),
        0xC8 => Some(InstructionInfo::new(Instruction::INY, AddressingMode::Implied, 2)),
        0xC9 => Some(InstructionInfo::new(Instruction::CMP, AddressingMode::Immediate, 2)),
        0xCA => Some(InstructionInfo::new(Instruction::DEX, AddressingMode::Implied, 2)),
        0xCB => Some(InstructionInfo::new(Instruction::WAI, AddressingMode::Implied, 3)),
        0xCC => Some(InstructionInfo::new(Instruction::CPY, AddressingMode::Absolute, 4)),
        0xCD => Some(InstructionInfo::new(Instruction::CMP, AddressingMode::Absolute, 4)),
        0xCE => Some(InstructionInfo::new(Instruction::DEC, AddressingMode::Absolute, 6)),
        0xCF => Some(InstructionInfo::new(Instruction::CMP, AddressingMode::AbsoluteLong, 5)),
        0xD0 => Some(InstructionInfo::new(Instruction::BNE, AddressingMode::Relative, 2)),
        0xD1 => Some(InstructionInfo::new(Instruction::CMP, AddressingMode::DirectPageIndirectY, 5)),
        0xD2 => Some(InstructionInfo::new(Instruction::CMP, AddressingMode::DirectPageIndirect, 5)),
        0xD3 => Some(InstructionInfo::new(Instruction::CMP, AddressingMode::StackRelativeIndirectY, 7)),
        0xD4 => Some(InstructionInfo::new(Instruction::PEI, AddressingMode::DirectPage, 6)),
        0xD5 => Some(InstructionInfo::new(Instruction::CMP, AddressingMode::DirectPageX, 4)),
        0xD6 => Some(InstructionInfo::new(Instruction::DEC, AddressingMode::DirectPageX, 6)),
        0xD7 => Some(InstructionInfo::new(Instruction::CMP, AddressingMode::DirectPageIndirectLongY, 6)),
        0xD8 => Some(InstructionInfo::new(Instruction::CLD, AddressingMode::Implied, 2)),
        0xD9 => Some(InstructionInfo::new(Instruction::CMP, AddressingMode::AbsoluteY, 4)),
        0xDA => Some(InstructionInfo::new(Instruction::PHX, AddressingMode::Implied, 3)),
        0xDB => Some(InstructionInfo::new(Instruction::STP, AddressingMode::Implied, 3)),
        0xDC => Some(InstructionInfo::new(Instruction::JML, AddressingMode::AbsoluteIndirectLong, 6)),
        0xDD => Some(InstructionInfo::new(Instruction::CMP, AddressingMode::AbsoluteX, 4)),
        0xDE => Some(InstructionInfo::new(Instruction::DEC, AddressingMode::AbsoluteX, 7)),
        0xDF => Some(InstructionInfo::new(Instruction::CMP, AddressingMode::AbsoluteLongX, 5)),
        0xE0 => Some(InstructionInfo::new(Instruction::CPX, AddressingMode::Immediate, 2)),
        0xE1 => Some(InstructionInfo::new(Instruction::SBC, AddressingMode::DirectPageIndirectX, 6)),
        0xE2 => Some(InstructionInfo::new(Instruction::SEP, AddressingMode::Immediate, 3)),
        0xE3 => Some(InstructionInfo::new(Instruction::SBC, AddressingMode::StackRelative, 4)),
        0xE4 => Some(InstructionInfo::new(Instruction::CPX, AddressingMode::DirectPage, 3)),
        0xE5 => Some(InstructionInfo::new(Instruction::SBC, AddressingMode::DirectPage, 3)),
        0xE6 => Some(InstructionInfo::new(Instruction::INC, AddressingMode::DirectPage, 5)),
        0xE7 => Some(InstructionInfo::new(Instruction::SBC, AddressingMode::DirectPageIndirectLong, 6)),
        0xE8 => Some(InstructionInfo::new(Instruction::INX, AddressingMode::Implied, 2)),
        0xE9 => Some(InstructionInfo::new(Instruction::SBC, AddressingMode::Immediate, 2)),
        0xEA => Some(InstructionInfo::new(Instruction::NOP, AddressingMode::Implied, 2)),
        0xEB => Some(InstructionInfo::new(Instruction::XBA, AddressingMode::Implied, 3)),
        0xEC => Some(InstructionInfo::new(Instruction::CPX, AddressingMode::Absolute, 4)),
        0xED => Some(InstructionInfo::new(Instruction::SBC, AddressingMode::Absolute, 4)),
        0xEE => Some(InstructionInfo::new(Instruction::INC, AddressingMode::Absolute, 6)),
        0xEF => Some(InstructionInfo::new(Instruction::SBC, AddressingMode::AbsoluteLong, 5)),
        0xF0 => Some(InstructionInfo::new(Instruction::BEQ, AddressingMode::Relative, 2)),
        0xF1 => Some(InstructionInfo::new(Instruction::SBC, AddressingMode::DirectPageIndirectY, 5)),
        0xF2 => Some(InstructionInfo::new(Instruction::SBC, AddressingMode::DirectPageIndirect, 5)),
        0xF3 => Some(InstructionInfo::new(Instruction::SBC, AddressingMode::StackRelativeIndirectY, 7)),
        0xF4 => Some(InstructionInfo::new(Instruction::PEA, AddressingMode::Absolute, 5)),
        0xF5 => Some(InstructionInfo::new(Instruction::SBC, AddressingMode::DirectPageX, 4)),
        0xF6 => Some(InstructionInfo::new(Instruction::INC, AddressingMode::DirectPageX, 6)),
        0xF7 => Some(InstructionInfo::new(Instruction::SBC, AddressingMode::DirectPageIndirectLongY, 6)),
        0xF8 => Some(InstructionInfo::new(Instruction::SED, AddressingMode::Implied, 2)),
        0xF9 => Some(InstructionInfo::new(Instruction::SBC, AddressingMode::AbsoluteY, 4)),
        0xFA => Some(InstructionInfo::new(Instruction::PLX, AddressingMode::Implied, 4)),
        0xFB => Some(InstructionInfo::new(Instruction::XCE, AddressingMode::Implied, 2)),
        0xFC => Some(InstructionInfo::new(Instruction::JSR, AddressingMode::AbsoluteIndirectX, 8)),
        0xFD => Some(InstructionInfo::new(Instruction::SBC, AddressingMode::AbsoluteX, 4)),
        0xFE => Some(InstructionInfo::new(Instruction::INC, AddressingMode::AbsoluteX, 7)),
        0xFF => Some(InstructionInfo::new(Instruction::SBC, AddressingMode::AbsoluteLongX, 5)),
    }
}

/// Decoding yields a defined entry for every byte, and its base cycle
/// count is a real cost: at least two cycles, at most eight.
#[verifier::rlimit(100)]
#[verifier::spinoff_prover]
pub proof fn lemma_decode_total(opcode: u8)
    ensures
        spec_decode(opcode) is Some,
        spec_decode(opcode)->0.base_cycles >= 2,
        spec_decode(opcode)->0.base_cycles <= 8,
{
}

} // verus!
