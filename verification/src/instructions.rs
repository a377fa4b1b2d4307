//! The opcode table of the first CPU core: the official 6502 opcodes, each with its addressing
//! mode and cycle count; every other opcode is invalid.
//!
//! Opcodes are eight bits of the form AAABBBCC, where AAA and CC define the operation and BBB
//! defines the addressing mode.
use vstd::prelude::*;

verus! {

#[derive(Copy, Clone, Debug, PartialEq, Eq, Structural)]
pub enum AddressingMode {
    ZeroPage,
    ZeroPageX,
    ZeroPageY,
    Absolute,
    AbsoluteX,
    AbsoluteY,
    Indirect,
    IndirectX,
    IndirectY,
    Relative,
    Accumulator,
    Immediate,
    Invalid,
}

#[derive(Copy, Clone, Debug, PartialEq, Eq, Structural)]
pub enum InstrName {
    ORA,
    AND,
    EOR,
    ADC,
    STA,
    LDA,
    CMP,
    SBC,
    ASL,
    ROL,
    LSR,
    ROR,
    STX,
    LDX,
    DEC,
    INC,
    BIT,
    JMP,
    STY,
    LDY,
    CPY,
    CPX,
    BPL,
    BMI,
    BVC,
    BVS,
    BCC,
    BCS,
    BNE,
    BEQ,
    BRK,
    JSR,
    RTI,
    RTS,
    NOP,
    TYA,
    TXA,
    TAY,
    TAX,
    TXS,
    TSX,
    PLP,
    PLA,
    PHP,
    PHA,
    INX,
    INY,
    DEX,
    DEY,
    SEI,
    SED,
    SEC,
    CLV,
    CLI,
    CLC,
    CLD,
    INV,
}

#[derive(Copy, Clone, Debug, PartialEq, Eq, Structural)]
pub struct Instruction {
    pub name: InstrName,
    pub mode: AddressingMode,
    pub cycles: u8,
}

/// What each of the 256 opcodes decodes to: the official 6502 opcodes, LDY absolute and
/// absolute,X at $AC/$BC beside LDX at $AE/$BE; every other opcode is invalid.
pub open spec fn instruction_table(opcode: u8) -> Instruction {
    match opcode {
        0x00 => Instruction { name: InstrName::BRK, mode: AddressingMode::Invalid, cycles: 7 },
        0x01 => Instruction { name: InstrName::ORA, mode: AddressingMode::IndirectX, cycles: 6 },
        0x05 => Instruction { name: InstrName::ORA, mode: AddressingMode::ZeroPage, cycles: 3 },
        0x06 => Instruction { name: InstrName::ASL, mode: AddressingMode::ZeroPage, cycles: 5 },
        0x08 => Instruction { name: InstrName::PHP, mode: AddressingMode::Invalid, cycles: 3 },
        0x09 => Instruction { name: InstrName::ORA, mode: AddressingMode::Immediate, cycles: 2 },
        0x0A => Instruction { name: InstrName::ASL, mode: AddressingMode::Accumulator, cycles: 2 },
        0x0D => Instruction { name: InstrName::ORA, mode: AddressingMode::Absolute, cycles: 4 },
        0x0E => Instruction { name: InstrName::ASL, mode: AddressingMode::Absolute, cycles: 6 },
        0x10 => Instruction { name: InstrName::BPL, mode: AddressingMode::Relative, cycles: 2 },
        0x11 => Instruction { name: InstrName::ORA, mode: AddressingMode::IndirectY, cycles: 5 },
        0x15 => Instruction { name: InstrName::ORA, mode: AddressingMode::ZeroPageX, cycles: 4 },
        0x16 => Instruction { name: InstrName::ASL, mode: AddressingMode::ZeroPageX, cycles: 6 },
        0x18 => Instruction { name: InstrName::CLC, mode: AddressingMode::Invalid, cycles: 2 },
        0x19 => Instruction { name: InstrName::ORA, mode: AddressingMode::AbsoluteY, cycles: 4 },
        0x1D => Instruction { name: InstrName::ORA, mode: AddressingMode::AbsoluteX, cycles: 4 },
        0x1E => Instruction { name: InstrName::ASL, mode: AddressingMode::AbsoluteX, cycles: 7 },
        0x20 => Instruction { name: InstrName::JSR, mode: AddressingMode::Absolute, cycles: 6 },
        0x21 => Instruction { name: InstrName::AND, mode: AddressingMode::IndirectX, cycles: 6 },
        0x24 => Instruction { name: InstrName::BIT, mode: AddressingMode::ZeroPage, cycles: 3 },
        0x25 => Instruction { name: InstrName::AND, mode: AddressingMode::ZeroPage, cycles: 3 },
        0x26 => Instruction { name: InstrName::ROL, mode: AddressingMode::ZeroPage, cycles: 5 },
        0x28 => Instruction { name: InstrName::PLP, mode: AddressingMode::Invalid, cycles: 4 },
        0x29 => Instruction { name: InstrName::AND, mode: AddressingMode::Immediate, cycles: 2 },
        0x2A => Instruction { name: InstrName::ROL, mode: AddressingMode::Accumulator, cycles: 2 },
        0x2C => Instruction { name: InstrName::BIT, mode: AddressingMode::Absolute, cycles: 4 },
        0x2D => Instruction { name: InstrName::AND, mode: AddressingMode::Absolute, cycles: 4 },
        0x2E => Instruction { name: InstrName::ROL, mode: AddressingMode::Absolute, cycles: 6 },
        0x30 => Instruction { name: InstrName::BMI, mode: AddressingMode::Relative, cycles: 2 },
        0x31 => Instruction { name: InstrName::AND, mode: AddressingMode::IndirectY, cycles: 5 },
        0x35 => Instruction { name: InstrName::AND, mode: AddressingMode::ZeroPageX, cycles: 4 },
        0x36 => Instruction { name: InstrName::ROL, mode: AddressingMode::ZeroPageX, cycles: 6 },
        0x38 => Instruction { name: InstrName::SEC, mode: AddressingMode::Invalid, cycles: 2 },
        0x39 => Instruction { name: InstrName::AND, mode: AddressingMode::AbsoluteY, cycles: 4 },
        0x3D => Instruction { name: InstrName::AND, mode: AddressingMode::AbsoluteX, cycles: 4 },
        0x3E => Instruction { name: InstrName::ROL, mode: AddressingMode::AbsoluteX, cycles: 7 },
        0x40 => Instruction { name: InstrName::RTI, mode: AddressingMode::Invalid, cycles: 6 },
        0x41 => Instruction { name: InstrName::EOR, mode: AddressingMode::IndirectX, cycles: 6 },
        0x45 => Instruction { name: InstrName::EOR, mode: AddressingMode::ZeroPage, cycles: 3 },
        0x46 => Instruction { name: InstrName::LSR, mode: AddressingMode::ZeroPage, cycles: 5 },
        0x48 => Instruction { name: InstrName::PHA, mode: AddressingMode::Invalid, cycles: 3 },
        0x49 => Instruction { name: InstrName::EOR, mode: AddressingMode::Immediate, cycles: 2 },
        0x4A => Instruction { name: InstrName::LSR, mode: AddressingMode::Accumulator, cycles: 2 },
        0x4C => Instruction { name: InstrName::JMP, mode: AddressingMode::Absolute, cycles: 3 },
        0x4D => Instruction { name: InstrName::EOR, mode: AddressingMode::Absolute, cycles: 4 },
        0x4E => Instruction { name: InstrName::LSR, mode: AddressingMode::Absolute, cycles: 6 },
        0x50 => Instruction { name: InstrName::BVC, mode: AddressingMode::Relative, cycles: 2 },
        0x51 => Instruction { name: InstrName::EOR, mode: AddressingMode::IndirectY, cycles: 5 },
        0x55 => Instruction { name: InstrName::EOR, mode: AddressingMode::ZeroPageX, cycles: 4 },
        0x56 => Instruction { name: InstrName::LSR, mode: AddressingMode::ZeroPageX, cycles: 6 },
        0x58 => Instruction { name: InstrName::CLI, mode: AddressingMode::Invalid, cycles: 2 },
        0x59 => Instruction { name: InstrName::EOR, mode: AddressingMode::AbsoluteY, cycles: 4 },
        0x5D => Instruction { name: InstrName::EOR, mode: AddressingMode::AbsoluteX, cycles: 4 },
        0x5E => Instruction { name: InstrName::LSR, mode: AddressingMode::AbsoluteX, cycles: 7 },
        0x60 => Instruction { name: InstrName::RTS, mode: AddressingMode::Invalid, cycles: 6 },
        0x61 => Instruction { name: InstrName::ADC, mode: AddressingMode::IndirectX, cycles: 6 },
        0x65 => Instruction { name: InstrName::ADC, mode: AddressingMode::ZeroPage, cycles: 3 },
        0x66 => Instruction { name: InstrName::ROR, mode: AddressingMode::ZeroPage, cycles: 5 },
        0x68 => Instruction { name: InstrName::PLA, mode: AddressingMode::Invalid, cycles: 4 },
        0x69 => Instruction { name: InstrName::ADC, mode: AddressingMode::Immediate, cycles: 2 },
        0x6A => Instruction { name: InstrName::ROR, mode: AddressingMode::Accumulator, cycles: 2 },
        0x6C => Instruction { name: InstrName::JMP, mode: AddressingMode::Indirect, cycles: 5 },
        0x6D => Instruction { name: InstrName::ADC, mode: AddressingMode::Absolute, cycles: 4 },
        0x6E => Instruction { name: InstrName::ROR, mode: AddressingMode::Absolute, cycles: 6 },
        0x70 => Instruction { name: InstrName::BVS, mode: AddressingMode::Relative, cycles: 2 },
        0x71 => Instruction { name: InstrName::ADC, mode: AddressingMode::IndirectY, cycles: 5 },
        0x75 => Instruction { name: InstrName::ADC, mode: AddressingMode::ZeroPageX, cycles: 4 },
        0x76 => Instruction { name: InstrName::ROR, mode: AddressingMode::ZeroPageX, cycles: 6 },
        0x78 => Instruction { name: InstrName::SEI, mode: AddressingMode::Invalid, cycles: 2 },
        0x79 => Instruction { name: InstrName::ADC, mode: AddressingMode::AbsoluteY, cycles: 4 },
        0x7D => Instruction { name: InstrName::ADC, mode: AddressingMode::AbsoluteX, cycles: 4 },
        0x7E => Instruction { name: InstrName::ROR, mode: AddressingMode::AbsoluteX, cycles: 7 },
        0x81 => Instruction { name: InstrName::STA, mode: AddressingMode::IndirectX, cycles: 6 },
        0x84 => Instruction { name: InstrName::STY, mode: AddressingMode::ZeroPage, cycles: 3 },
        0x85 => Instruction { name: InstrName::STA, mode: AddressingMode::ZeroPage, cycles: 3 },
        0x86 => Instruction { name: InstrName::STX, mode: AddressingMode::ZeroPage, cycles: 3 },
        0x88 => Instruction { name: InstrName::DEY, mode: AddressingMode::Invalid, cycles: 2 },
        0x8A => Instruction { name: InstrName::TXA, mode: AddressingMode::Invalid, cycles: 2 },
        0x8C => Instruction { name: InstrName::STY, mode: AddressingMode::Absolute, cycles: 4 },
        0x8D => Instruction { name: InstrName::STA, mode: AddressingMode::Absolute, cycles: 4 },
        0x8E => Instruction { name: InstrName::STX, mode: AddressingMode::Absolute, cycles: 4 },
        0x90 => Instruction { name: InstrName::BCC, mode: AddressingMode::Relative, cycles: 2 },
        0x91 => Instruction { name: InstrName::STA, mode: AddressingMode::IndirectY, cycles: 5 },
        0x94 => Instruction { name: InstrName::STY, mode: AddressingMode::ZeroPageX, cycles: 4 },
        0x95 => Instruction { name: InstrName::STA, mode: AddressingMode::ZeroPageX, cycles: 4 },
        0x96 => Instruction { name: InstrName::STX, mode: AddressingMode::ZeroPageY, cycles: 4 },
        0x98 => Instruction { name: InstrName::TYA, mode: AddressingMode::Invalid, cycles: 2 },
        0x99 => Instruction { name: InstrName::STA, mode: AddressingMode::AbsoluteY, cycles: 4 },
        0x9A => Instruction { name: InstrName::TXS, mode: AddressingMode::Invalid, cycles: 2 },
        0x9D => Instruction { name: InstrName::STA, mode: AddressingMode::AbsoluteX, cycles: 4 },
        0xA0 => Instruction { name: InstrName::LDY, mode: AddressingMode::Immediate, cycles: 2 },
        0xA1 => Instruction { name: InstrName::LDA, mode: AddressingMode::IndirectX, cycles: 6 },
        0xA2 => Instruction { name: InstrName::LDX, mode: AddressingMode::Immediate, cycles: 2 },
        0xA4 => Instruction { name: InstrName::LDY, mode: AddressingMode::ZeroPage, cycles: 3 },
        0xA5 => Instruction { name: InstrName::LDA, mode: AddressingMode::ZeroPage, cycles: 3 },
        0xA6 => Instruction { name: InstrName::LDX, mode: AddressingMode::ZeroPage, cycles: 3 },
        0xA8 => Instruction { name: InstrName::TAY, mode: AddressingMode::Invalid, cycles: 2 },
        0xA9 => Instruction { name: InstrName::LDA, mode: AddressingMode::Immediate, cycles: 2 },
        0xAA => Instruction { name: InstrName::TAX, mode: AddressingMode::Invalid, cycles: 2 },
        0xAD => Instruction { name: InstrName::LDA, mode: AddressingMode::Absolute, cycles: 4 },
        0xAC => Instruction { name: InstrName::LDY, mode: AddressingMode::Absolute, cycles: 4 },
        0xAE => Instruction { name: InstrName::LDX, mode: AddressingMode::Absolute, cycles: 4 },
        0xB0 => Instruction { name: InstrName::BCS, mode: AddressingMode::Relative, cycles: 2 },
        0xB1 => Instruction { name: InstrName::LDA, mode: AddressingMode::IndirectY, cycles: 5 },
        0xB4 => Instruction { name: InstrName::LDY, mode: AddressingMode::ZeroPageX, cycles: 4 },
        0xB5 => Instruction { name: InstrName::LDA, mode: AddressingMode::ZeroPageX, cycles: 4 },
        0xB6 => Instruction { name: InstrName::LDX, mode: AddressingMode::ZeroPageX, cycles: 4 },
        0xB8 => Instruction { name: InstrName::CLV, mode: AddressingMode::Invalid, cycles: 2 },
        0xB9 => Instruction { name: InstrName::LDA, mode: AddressingMode::AbsoluteY, cycles: 4 },
        0xBA => Instruction { name: InstrName::TSX, mode: AddressingMode::Invalid, cycles: 2 },
        0xBD => Instruction { name: InstrName::LDA, mode: AddressingMode::AbsoluteX, cycles: 4 },
        0xBC => Instruction { name: InstrName::LDY, mode: AddressingMode::AbsoluteX, cycles: 4 },
        0xBE => Instruction { name: InstrName::LDX, mode: AddressingMode::AbsoluteX, cycles: 4 },
        0xC0 => Instruction { name: InstrName::CPY, mode: AddressingMode::Immediate, cycles: 2 },
        0xC1 => Instruction { name: InstrName::CMP, mode: AddressingMode::IndirectX, cycles: 6 },
        0xC4 => Instruction { name: InstrName::CPY, mode: AddressingMode::ZeroPage, cycles: 3 },
        0xC5 => Instruction { name: InstrName::CMP, mode: AddressingMode::ZeroPage, cycles: 3 },
        0xC6 => Instruction { name: InstrName::DEC, mode: AddressingMode::ZeroPage, cycles: 5 },
        0xC8 => Instruction { name: InstrName::INY, mode: AddressingMode::Invalid, cycles: 2 },
        0xC9 => Instruction { name: InstrName::CMP, mode: AddressingMode::Immediate, cycles: 2 },
        0xCA => Instruction { name: InstrName::DEX, mode: AddressingMode::Invalid, cycles: 2 },
        0xCC => Instruction { name: InstrName::CPY, mode: AddressingMode::Absolute, cycles: 4 },
        0xCD => Instruction { name: InstrName::CMP, mode: AddressingMode::Absolute, cycles: 4 },
        0xCE => Instruction { name: InstrName::DEC, mode: AddressingMode::Absolute, cycles: 6 },
        0xD0 => Instruction { name: InstrName::BNE, mode: AddressingMode::Relative, cycles: 2 },
        0xD1 => Instruction { name: InstrName::CMP, mode: AddressingMode::IndirectY, cycles: 5 },
        0xD5 => Instruction { name: InstrName::CMP, mode: AddressingMode::ZeroPageX, cycles: 4 },
        0xD6 => Instruction { name: InstrName::DEC, mode: AddressingMode::ZeroPageX, cycles: 6 },
        0xD8 => Instruction { name: InstrName::CLD, mode: AddressingMode::Invalid, cycles: 2 },
        0xD9 => Instruction { name: InstrName::CMP, mode: AddressingMode::AbsoluteY, cycles: 4 },
        0xDD => Instruction { name: InstrName::CMP, mode: AddressingMode::AbsoluteX, cycles: 4 },
        0xDE => Instruction { name: InstrName::DEC, mode: AddressingMode::AbsoluteX, cycles: 7 },
        0xE0 => Instruction { name: InstrName::CPX, mode: AddressingMode::Immediate, cycles: 2 },
        0xE1 => Instruction { name: InstrName::SBC, mode: AddressingMode::IndirectX, cycles: 6 },
        0xE4 => Instruction { name: InstrName::CPX, mode: AddressingMode::ZeroPage, cycles: 3 },
        0xE5 => Instruction { name: InstrName::SBC, mode: AddressingMode::ZeroPage, cycles: 3 },
        0xE6 => Instruction { name: InstrName::INC, mode: AddressingMode::ZeroPage, cycles: 5 },
        0xE8 => Instruction { name: InstrName::INX, mode: AddressingMode::Invalid, cycles: 2 },
        0xE9 => Instruction { name: InstrName::SBC, mode: AddressingMode::Immediate, cycles: 2 },
        0xEA => Instruction { name: InstrName::NOP, mode: AddressingMode::Invalid, cycles: 2 },
        0xEC => Instruction { name: InstrName::CPX, mode: AddressingMode::Absolute, cycles: 4 },
        0xED => Instruction { name: InstrName::SBC, mode: AddressingMode::Absolute, cycles: 4 },
        0xEE => Instruction { name: InstrName::INC, mode: AddressingMode::Absolute, cycles: 6 },
        0xF0 => Instruction { name: InstrName::BEQ, mode: AddressingMode::Relative, cycles: 2 },
        0xF1 => Instruction { name: InstrName::SBC, mode: AddressingMode::IndirectY, cycles: 5 },
        0xF5 => Instruction { name: InstrName::SBC, mode: AddressingMode::ZeroPageX, cycles: 4 },
        0xF6 => Instruction { name: InstrName::INC, mode: AddressingMode::ZeroPageX, cycles: 6 },
        0xF8 => Instruction { name: InstrName::SED, mode: AddressingMode::Invalid, cycles: 2 },
        0xF9 => Instruction { name: InstrName::SBC, mode: AddressingMode::AbsoluteY, cycles: 4 },
        0xFD => Instruction { name: InstrName::SBC, mode: AddressingMode::AbsoluteX, cycles: 4 },
        0xFE => Instruction { name: InstrName::INC, mode: AddressingMode::AbsoluteX, cycles: 7 },
        _ => Instruction { name: InstrName::INV, mode: AddressingMode::Invalid, cycles: 0 },
    }
}

/// The opcode's instruction.
pub fn get_from(opcode: u8) -> (r: Instruction)
    ensures
        r == instruction_table(opcode),
{
    match opcode {
        0x00 => Instruction { name: InstrName::BRK, mode: AddressingMode::Invalid, cycles: 7 },
        0x01 => Instruction { name: InstrName::ORA, mode: AddressingMode::IndirectX, cycles: 6 },
        0x05 => Instruction { name: InstrName::ORA, mode: AddressingMode::ZeroPage, cycles: 3 },
        0x06 => Instruction { name: InstrName::ASL, mode: AddressingMode::ZeroPage, cycles: 5 },
        0x08 => Instruction { name: InstrName::PHP, mode: AddressingMode::Invalid, cycles: 3 },
        0x09 => Instruction { name: InstrName::ORA, mode: AddressingMode::Immediate, cycles: 2 },
        0x0A => Instruction { name: InstrName::ASL, mode: AddressingMode::Accumulator, cycles: 2 },
        0x0D => Instruction { name: InstrName::ORA, mode: AddressingMode::Absolute, cycles: 4 },
        0x0E => Instruction { name: InstrName::ASL, mode: AddressingMode::Absolute, cycles: 6 },
        0x10 => Instruction { name: InstrName::BPL, mode: AddressingMode::Relative, cycles: 2 },
        0x11 => Instruction { name: InstrName::ORA, mode: AddressingMode::IndirectY, cycles: 5 },
        0x15 => Instruction { name: InstrName::ORA, mode: AddressingMode::ZeroPageX, cycles: 4 },
        0x16 => Instruction { name: InstrName::ASL, mode: AddressingMode::ZeroPageX, cycles: 6 },
        0x18 => Instruction { name: InstrName::CLC, mode: AddressingMode::Invalid, cycles: 2 },
        0x19 => Instruction { name: InstrName::ORA, mode: AddressingMode::AbsoluteY, cycles: 4 },
        0x1D => Instruction { name: InstrName::ORA, mode: AddressingMode::AbsoluteX, cycles: 4 },
        0x1E => Instruction { name: InstrName::ASL, mode: AddressingMode::AbsoluteX, cycles: 7 },
        0x20 => Instruction { name: InstrName::JSR, mode: AddressingMode::Absolute, cycles: 6 },
        0x21 => Instruction { name: InstrName::AND, mode: AddressingMode::IndirectX, cycles: 6 },
        0x24 => Instruction { name: InstrName::BIT, mode: AddressingMode::ZeroPage, cycles: 3 },
        0x25 => Instruction { name: InstrName::AND, mode: AddressingMode::ZeroPage, cycles: 3 },
        0x26 => Instruction { name: InstrName::ROL, mode: AddressingMode::ZeroPage, cycles: 5 },
        0x28 => Instruction { name: InstrName::PLP, mode: AddressingMode::Invalid, cycles: 4 },
        0x29 => Instruction { name: InstrName::AND, mode: AddressingMode::Immediate, cycles: 2 },
        0x2A => Instruction { name: InstrName::ROL, mode: AddressingMode::Accumulator, cycles: 2 },
        0x2C => Instruction { name: InstrName::BIT, mode: AddressingMode::Absolute, cycles: 4 },
        0x2D => Instruction { name: InstrName::AND, mode: AddressingMode::Absolute, cycles: 4 },
        0x2E => Instruction { name: InstrName::ROL, mode: AddressingMode::Absolute, cycles: 6 },
        0x30 => Instruction { name: InstrName::BMI, mode: AddressingMode::Relative, cycles: 2 },
        0x31 => Instruction { name: InstrName::AND, mode: AddressingMode::IndirectY, cycles: 5 },
        0x35 => Instruction { name: InstrName::AND, mode: AddressingMode::ZeroPageX, cycles: 4 },
        0x36 => Instruction { name: InstrName::ROL, mode: AddressingMode::ZeroPageX, cycles: 6 },
        0x38 => Instruction { name: InstrName::SEC, mode: AddressingMode::Invalid, cycles: 2 },
        0x39 => Instruction { name: InstrName::AND, mode: AddressingMode::AbsoluteY, cycles: 4 },
        0x3D => Instruction { name: InstrName::AND, mode: AddressingMode::AbsoluteX, cycles: 4 },
        0x3E => Instruction { name: InstrName::ROL, mode: AddressingMode::AbsoluteX, cycles: 7 },
        0x40 => Instruction { name: InstrName::RTI, mode: AddressingMode::Invalid, cycles: 6 },
        0x41 => Instruction { name: InstrName::EOR, mode: AddressingMode::IndirectX, cycles: 6 },
        0x45 => Instruction { name: InstrName::EOR, mode: AddressingMode::ZeroPage, cycles: 3 },
        0x46 => Instruction { name: InstrName::LSR, mode: AddressingMode::ZeroPage, cycles: 5 },
        0x48 => Instruction { name: InstrName::PHA, mode: AddressingMode::Invalid, cycles: 3 },
        0x49 => Instruction { name: InstrName::EOR, mode: AddressingMode::Immediate, cycles: 2 },
        0x4A => Instruction { name: InstrName::LSR, mode: AddressingMode::Accumulator, cycles: 2 },
        0x4C => Instruction { name: InstrName::JMP, mode: AddressingMode::Absolute, cycles: 3 },
        0x4D => Instruction { name: InstrName::EOR, mode: AddressingMode::Absolute, cycles: 4 },
        0x4E => Instruction { name: InstrName::LSR, mode: AddressingMode::Absolute, cycles: 6 },
        0x50 => Instruction { name: InstrName::BVC, mode: AddressingMode::Relative, cycles: 2 },
        0x51 => Instruction { name: InstrName::EOR, mode: AddressingMode::IndirectY, cycles: 5 },
        0x55 => Instruction { name: InstrName::EOR, mode: AddressingMode::ZeroPageX, cycles: 4 },
        0x56 => Instruction { name: InstrName::LSR, mode: AddressingMode::ZeroPageX, cycles: 6 },
        0x58 => Instruction { name: InstrName::CLI, mode: AddressingMode::Invalid, cycles: 2 },
        0x59 => Instruction { name: InstrName::EOR, mode: AddressingMode::AbsoluteY, cycles: 4 },
        0x5D => Instruction { name: InstrName::EOR, mode: AddressingMode::AbsoluteX, cycles: 4 },
        0x5E => Instruction { name: InstrName::LSR, mode: AddressingMode::AbsoluteX, cycles: 7 },
        0x60 => Instruction { name: InstrName::RTS, mode: AddressingMode::Invalid, cycles: 6 },
        0x61 => Instruction { name: InstrName::ADC, mode: AddressingMode::IndirectX, cycles: 6 },
        0x65 => Instruction { name: InstrName::ADC, mode: AddressingMode::ZeroPage, cycles: 3 },
        0x66 => Instruction { name: InstrName::ROR, mode: AddressingMode::ZeroPage, cycles: 5 },
        0x68 => Instruction { name: InstrName::PLA, mode: AddressingMode::Invalid, cycles: 4 },
        0x69 => Instruction { name: InstrName::ADC, mode: AddressingMode::Immediate, cycles: 2 },
        0x6A => Instruction { name: InstrName::ROR, mode: AddressingMode::Accumulator, cycles: 2 },
        0x6C => Instruction { name: InstrName::JMP, mode: AddressingMode::Indirect, cycles: 5 },
        0x6D => Instruction { name: InstrName::ADC, mode: AddressingMode::Absolute, cycles: 4 },
        0x6E => Instruction { name: InstrName::ROR, mode: AddressingMode::Absolute, cycles: 6 },
        0x70 => Instruction { name: InstrName::BVS, mode: AddressingMode::Relative, cycles: 2 },
        0x71 => Instruction { name: InstrName::ADC, mode: AddressingMode::IndirectY, cycles: 5 },
        0x75 => Instruction { name: InstrName::ADC, mode: AddressingMode::ZeroPageX, cycles: 4 },
        0x76 => Instruction { name: InstrName::ROR, mode: AddressingMode::ZeroPageX, cycles: 6 },
        0x78 => Instruction { name: InstrName::SEI, mode: AddressingMode::Invalid, cycles: 2 },
        0x79 => Instruction { name: InstrName::ADC, mode: AddressingMode::AbsoluteY, cycles: 4 },
        0x7D => Instruction { name: InstrName::ADC, mode: AddressingMode::AbsoluteX, cycles: 4 },
        0x7E => Instruction { name: InstrName::ROR, mode: AddressingMode::AbsoluteX, cycles: 7 },
        0x81 => Instruction { name: InstrName::STA, mode: AddressingMode::IndirectX, cycles: 6 },
        0x84 => Instruction { name: InstrName::STY, mode: AddressingMode::ZeroPage, cycles: 3 },
        0x85 => Instruction { name: InstrName::STA, mode: AddressingMode::ZeroPage, cycles: 3 },
        0x86 => Instruction { name: InstrName::STX, mode: AddressingMode::ZeroPage, cycles: 3 },
        0x88 => Instruction { name: InstrName::DEY, mode: AddressingMode::Invalid, cycles: 2 },
        0x8A => Instruction { name: InstrName::TXA, mode: AddressingMode::Invalid, cycles: 2 },
        0x8C => Instruction { name: InstrName::STY, mode: AddressingMode::Absolute, cycles: 4 },
        0x8D => Instruction { name: InstrName::STA, mode: AddressingMode::Absolute, cycles: 4 },
        0x8E => Instruction { name: InstrName::STX, mode: AddressingMode::Absolute, cycles: 4 },
        0x90 => Instruction { name: InstrName::BCC, mode: AddressingMode::Relative, cycles: 2 },
        0x91 => Instruction { name: InstrName::STA, mode: AddressingMode::IndirectY, cycles: 5 },
        0x94 => Instruction { name: InstrName::STY, mode: AddressingMode::ZeroPageX, cycles: 4 },
        0x95 => Instruction { name: InstrName::STA, mode: AddressingMode::ZeroPageX, cycles: 4 },
        0x96 => Instruction { name: InstrName::STX, mode: AddressingMode::ZeroPageY, cycles: 4 },
        0x98 => Instruction { name: InstrName::TYA, mode: AddressingMode::Invalid, cycles: 2 },
        0x99 => Instruction { name: InstrName::STA, mode: AddressingMode::AbsoluteY, cycles: 4 },
        0x9A => Instruction { name: InstrName::TXS, mode: AddressingMode::Invalid, cycles: 2 },
        0x9D => Instruction { name: InstrName::STA, mode: AddressingMode::AbsoluteX, cycles: 4 },
        0xA0 => Instruction { name: InstrName::LDY, mode: AddressingMode::Immediate, cycles: 2 },
        0xA1 => Instruction { name: InstrName::LDA, mode: AddressingMode::IndirectX, cycles: 6 },
        0xA2 => Instruction { name: InstrName::LDX, mode: AddressingMode::Immediate, cycles: 2 },
        0xA4 => Instruction { name: InstrName::LDY, mode: AddressingMode::ZeroPage, cycles: 3 },
        0xA5 => Instruction { name: InstrName::LDA, mode: AddressingMode::ZeroPage, cycles: 3 },
        0xA6 => Instruction { name: InstrName::LDX, mode: AddressingMode::ZeroPage, cycles: 3 },
        0xA8 => Instruction { name: InstrName::TAY, mode: AddressingMode::Invalid, cycles: 2 },
        0xA9 => Instruction { name: InstrName::LDA, mode: AddressingMode::Immediate, cycles: 2 },
        0xAA => Instruction { name: InstrName::TAX, mode: AddressingMode::Invalid, cycles: 2 },
        0xAD => Instruction { name: InstrName::LDA, mode: AddressingMode::Absolute, cycles: 4 },
        0xAC => Instruction { name: InstrName::LDY, mode: AddressingMode::Absolute, cycles: 4 },
        0xAE => Instruction { name: InstrName::LDX, mode: AddressingMode::Absolute, cycles: 4 },
        0xB0 => Instruction { name: InstrName::BCS, mode: AddressingMode::Relative, cycles: 2 },
        0xB1 => Instruction { name: InstrName::LDA, mode: AddressingMode::IndirectY, cycles: 5 },
        0xB4 => Instruction { name: InstrName::LDY, mode: AddressingMode::ZeroPageX, cycles: 4 },
        0xB5 => Instruction { name: InstrName::LDA, mode: AddressingMode::ZeroPageX, cycles: 4 },
        0xB6 => Instruction { name: InstrName::LDX, mode: AddressingMode::ZeroPageX, cycles: 4 },
        0xB8 => Instruction { name: InstrName::CLV, mode: AddressingMode::Invalid, cycles: 2 },
        0xB9 => Instruction { name: InstrName::LDA, mode: AddressingMode::AbsoluteY, cycles: 4 },
        0xBA => Instruction { name: InstrName::TSX, mode: AddressingMode::Invalid, cycles: 2 },
        0xBD => Instruction { name: InstrName::LDA, mode: AddressingMode::AbsoluteX, cycles: 4 },
        0xBC => Instruction { name: InstrName::LDY, mode: AddressingMode::AbsoluteX, cycles: 4 },
        0xBE => Instruction { name: InstrName::LDX, mode: AddressingMode::AbsoluteX, cycles: 4 },
        0xC0 => Instruction { name: InstrName::CPY, mode: AddressingMode::Immediate, cycles: 2 },
        0xC1 => Instruction { name: InstrName::CMP, mode: AddressingMode::IndirectX, cycles: 6 },
        0xC4 => Instruction { name: InstrName::CPY, mode: AddressingMode::ZeroPage, cycles: 3 },
        0xC5 => Instruction { name: InstrName::CMP, mode: AddressingMode::ZeroPage, cycles: 3 },
        0xC6 => Instruction { name: InstrName::DEC, mode: AddressingMode::ZeroPage, cycles: 5 },
        0xC8 => Instruction { name: InstrName::INY, mode: AddressingMode::Invalid, cycles: 2 },
        0xC9 => Instruction { name: InstrName::CMP, mode: AddressingMode::Immediate, cycles: 2 },
        0xCA => Instruction { name: InstrName::DEX, mode: AddressingMode::Invalid, cycles: 2 },
        0xCC => Instruction { name: InstrName::CPY, mode: AddressingMode::Absolute, cycles: 4 },
        0xCD => Instruction { name: InstrName::CMP, mode: AddressingMode::Absolute, cycles: 4 },
        0xCE => Instruction { name: InstrName::DEC, mode: AddressingMode::Absolute, cycles: 6 },
        0xD0 => Instruction { name: InstrName::BNE, mode: AddressingMode::Relative, cycles: 2 },
        0xD1 => Instruction { name: InstrName::CMP, mode: AddressingMode::IndirectY, cycles: 5 },
        0xD5 => Instruction { name: InstrName::CMP, mode: AddressingMode::ZeroPageX, cycles: 4 },
        0xD6 => Instruction { name: InstrName::DEC, mode: AddressingMode::ZeroPageX, cycles: 6 },
        0xD8 => Instruction { name: InstrName::CLD, mode: AddressingMode::Invalid, cycles: 2 },
        0xD9 => Instruction { name: InstrName::CMP, mode: AddressingMode::AbsoluteY, cycles: 4 },
        0xDD => Instruction { name: InstrName::CMP, mode: AddressingMode::AbsoluteX, cycles: 4 },
        0xDE => Instruction { name: InstrName::DEC, mode: AddressingMode::AbsoluteX, cycles: 7 },
        0xE0 => Instruction { name: InstrName::CPX, mode: AddressingMode::Immediate, cycles: 2 },
        0xE1 => Instruction { name: InstrName::SBC, mode: AddressingMode::IndirectX, cycles: 6 },
        0xE4 => Instruction { name: InstrName::CPX, mode: AddressingMode::ZeroPage, cycles: 3 },
        0xE5 => Instruction { name: InstrName::SBC, mode: AddressingMode::ZeroPage, cycles: 3 },
        0xE6 => Instruction { name: InstrName::INC, mode: AddressingMode::ZeroPage, cycles: 5 },
        0xE8 => Instruction { name: InstrName::INX, mode: AddressingMode::Invalid, cycles: 2 },
        0xE9 => Instruction { name: InstrName::SBC, mode: AddressingMode::Immediate, cycles: 2 },
        0xEA => Instruction { name: InstrName::NOP, mode: AddressingMode::Invalid, cycles: 2 },
        0xEC => Instruction { name: InstrName::CPX, mode: AddressingMode::Absolute, cycles: 4 },
        0xED => Instruction { name: InstrName::SBC, mode: AddressingMode::Absolute, cycles: 4 },
        0xEE => Instruction { name: InstrName::INC, mode: AddressingMode::Absolute, cycles: 6 },
        0xF0 => Instruction { name: InstrName::BEQ, mode: AddressingMode::Relative, cycles: 2 },
        0xF1 => Instruction { name: InstrName::SBC, mode: AddressingMode::IndirectY, cycles: 5 },
        0xF5 => Instruction { name: InstrName::SBC, mode: AddressingMode::ZeroPageX, cycles: 4 },
        0xF6 => Instruction { name: InstrName::INC, mode: AddressingMode::ZeroPageX, cycles: 6 },
        0xF8 => Instruction { name: InstrName::SED, mode: AddressingMode::Invalid, cycles: 2 },
        0xF9 => Instruction { name: InstrName::SBC, mode: AddressingMode::AbsoluteY, cycles: 4 },
        0xFD => Instruction { name: InstrName::SBC, mode: AddressingMode::AbsoluteX, cycles: 4 },
        0xFE => Instruction { name: InstrName::INC, mode: AddressingMode::AbsoluteX, cycles: 7 },
        _ => Instruction { name: InstrName::INV, mode: AddressingMode::Invalid, cycles: 0 },
    }
}

/// The operations that read an operand through their addressing mode.
pub open spec fn reads_operand(name: InstrName) -> bool {
    match name {
        InstrName::BPL | InstrName::BMI | InstrName::BVC | InstrName::BVS | InstrName::BCC
        | InstrName::BCS | InstrName::BNE | InstrName::BEQ | InstrName::ADC | InstrName::AND
        | InstrName::SBC | InstrName::ORA | InstrName::LDY | InstrName::LDX | InstrName::LDA
        | InstrName::EOR | InstrName::CPY | InstrName::CPX | InstrName::CMP | InstrName::BIT => true,
        _ => false,
    }
}

/// The operations that write their result through their addressing mode.
pub open spec fn writes_operand(name: InstrName) -> bool {
    match name {
        InstrName::ASL | InstrName::LSR | InstrName::ROL | InstrName::ROR | InstrName::INC
        | InstrName::DEC | InstrName::STA | InstrName::STX | InstrName::STY => true,
        _ => false,
    }
}

/// What the CPU core relies on of an entry: invalid opcodes and only they take no cycle;
/// operations that read have a mode to read through; those that write have a place to
/// write to; jumps go through memory.
pub open spec fn entry_ok(i: Instruction) -> bool {
    &&& (i.name == InstrName::INV) == (i.cycles == 0)
    &&& 1 <= i.cycles || i.name == InstrName::INV
    &&& i.cycles <= 7
    &&& reads_operand(i.name) ==> i.mode != AddressingMode::Invalid
    &&& writes_operand(i.name) ==> (i.mode != AddressingMode::Invalid && i.mode
        != AddressingMode::Immediate && i.mode != AddressingMode::Relative)
    &&& (i.name == InstrName::JMP || i.name == InstrName::JSR) ==> (i.mode
        == AddressingMode::Absolute || i.mode == AddressingMode::Indirect)
    &&& (i.name == InstrName::BPL || i.name == InstrName::BMI || i.name == InstrName::BVC
        || i.name == InstrName::BVS || i.name == InstrName::BCC || i.name == InstrName::BCS
        || i.name == InstrName::BNE || i.name == InstrName::BEQ) ==> i.mode
        == AddressingMode::Relative
}

/// Every entry of the table is one the CPU core can run.
#[verifier::rlimit(100)]
pub proof fn lemma_table_entries_ok(opcode: u8)
    ensures
        entry_ok(instruction_table(opcode)),
{
}

impl Instruction {
    pub fn new(name: InstrName, mode: AddressingMode, cycles: u8) -> (r: Instruction)
        ensures
            r == (Instruction { name, mode, cycles }),
    {
        Instruction { name, mode, cycles }
    }

    /// The entry of an opcode the table does not hold.
    pub fn invalid() -> (r: Instruction)
        ensures
            r == (Instruction { name: InstrName::INV, mode: AddressingMode::Invalid, cycles: 0 }),
    {
        Instruction { name: InstrName::INV, mode: AddressingMode::Invalid, cycles: 0 }
    }

    pub fn mode(&self) -> (r: &AddressingMode)
        ensures
            *r == self.mode,
    {
        &self.mode
    }

    pub fn name(&self) -> (r: &InstrName)
        ensures
            *r == self.name,
    {
        &self.name
    }

    pub fn cycles(&self) -> (r: u8)
        ensures
            r == self.cycles,
    {
        self.cycles
    }
}

} // verus!
