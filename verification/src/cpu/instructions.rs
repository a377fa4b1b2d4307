//! Decoding of the 6502 opcodes, the official ones and the undocumented ones.
//!
//! Each opcode is eight bits of the form AAABBBCC: AAA and CC select the operation and BBB selects
//! the addressing mode. The table below gives the operation, addressing mode and base cycle count
//! of every one of the 256 opcodes.
#![allow(non_camel_case_types)]

use vstd::prelude::*;

verus! {

/// The way an instruction finds its operand.
#[derive(Copy, Clone, Debug, PartialEq, Eq, Structural)]
pub enum AddressingMode {
    ZeroPage,
    ZeroPageX,
    ZeroPageY,
    Absolute,
    AbsoluteX,
    AbsoluteY,
    Indirect,
    IndirectX,
    IndirectY,
    Relative,
    Accumulator,
    Immediate,
    Implied,
}

/// The operation an instruction performs. Names that start with `ILLEGAL_` are the undocumented
/// opcodes of the NMOS 6502.
#[derive(Copy, Clone, Debug, PartialEq, Eq, Structural)]
pub enum InstrName {
    ORA,
    AND,
    EOR,
    ADC,
    STA,
    LDA,
    CMP,
    SBC,
    ASL,
    ROL,
    LSR,
    ROR,
    STX,
    LDX,
    DEC,
    INC,
    BIT,
    JMP,
    STY,
    LDY,
    CPY,
    CPX,
    BPL,
    BMI,
    BVC,
    BVS,
    BCC,
    BCS,
    BNE,
    BEQ,
    BRK,
    JSR,
    RTI,
    RTS,
    NOP,
    TYA,
    TXA,
    TAY,
    TAX,
    TXS,
    TSX,
    PLP,
    PLA,
    PHP,
    PHA,
    INX,
    INY,
    DEX,
    DEY,
    SEI,
    SED,
    SEC,
    CLV,
    CLI,
    CLC,
    CLD,
    ILLEGAL_NOP,
    ILLEGAL_JAM,
    ILLEGAL_SLO,
    ILLEGAL_RLA,
    ILLEGAL_SRE,
    ILLEGAL_RRA,
    ILLEGAL_SAX,
    ILLEGAL_SHA,
    ILLEGAL_LAX,
    ILLEGAL_DCP,
    ILLEGAL_ISC,
    ILLEGAL_ANC,
    ILLEGAL_ALR,
    ILLEGAL_ARR,
    ILLEGAL_ANE,
    ILLEGAL_TAS,
    ILLEGAL_LXA,
    ILLEGAL_LAS,
    ILLEGAL_SBX,
    ILLEGAL_USBC,
    ILLEGAL_SHY,
    ILLEGAL_SHX,
}

/// A decoded instruction: its opcode, operation, addressing mode and base cycle count.
#[derive(Copy, Clone, Debug, PartialEq, Eq, Structural)]
pub struct Instruction {
    pub opcode: u8,
    pub name: InstrName,
    pub mode: AddressingMode,
    pub cycles: u8,
}

/// Number of bytes an instruction with the addressing mode takes, the opcode included.
pub open spec fn mode_size(mode: AddressingMode) -> u16 {
    match mode {
        AddressingMode::ZeroPage | AddressingMode::ZeroPageX | AddressingMode::ZeroPageY => 2,
        AddressingMode::IndirectY | AddressingMode::IndirectX | AddressingMode::Relative
        | AddressingMode::Immediate => 2,
        AddressingMode::Indirect | AddressingMode::Absolute | AddressingMode::AbsoluteX
        | AddressingMode::AbsoluteY => 3,
        AddressingMode::Accumulator | AddressingMode::Implied => 1,
    }
}

/// Whether the operation sets the program counter itself instead of stepping past its operands.
pub open spec fn is_flow_name(name: InstrName) -> bool {
    is_branch_name(name) || name == InstrName::JMP || name == InstrName::JSR || name
        == InstrName::RTS || name == InstrName::RTI || name == InstrName::BRK || name
        == InstrName::ILLEGAL_JAM
}

/// Whether the operation is one of the eight conditional branches.
pub open spec fn is_branch_name(name: InstrName) -> bool {
    match name {
        InstrName::BPL | InstrName::BMI | InstrName::BVC | InstrName::BVS | InstrName::BCC
        | InstrName::BCS | InstrName::BNE | InstrName::BEQ => true,
        _ => false,
    }
}

/// What every entry of the opcode table satisfies, and the interpreter relies on: at most eight
/// base cycles, branches take a relative operand, shifts and rotates never take an immediate or
/// relative one, and JSR takes an absolute address.
pub open spec fn instr_ok(i: Instruction) -> bool {
    &&& i.cycles <= 8
    &&& is_branch_name(i.name) ==> i.mode == AddressingMode::Relative
    &&& (i.name == InstrName::ASL || i.name == InstrName::LSR || i.name == InstrName::ROL
        || i.name == InstrName::ROR) ==> (i.mode != AddressingMode::Immediate && i.mode
        != AddressingMode::Relative)
    &&& i.name == InstrName::JSR ==> i.mode == AddressingMode::Absolute
    &&& is_implied_name(i.name) ==> i.mode == AddressingMode::Implied
    &&& i.name == InstrName::ILLEGAL_TAS ==> i.mode == AddressingMode::AbsoluteY
}

/// The operations that have no operand at all.
pub open spec fn is_implied_name(name: InstrName) -> bool {
    match name {
        InstrName::CLC | InstrName::CLD | InstrName::CLI | InstrName::CLV | InstrName::SEC
        | InstrName::SED | InstrName::SEI | InstrName::DEX | InstrName::DEY | InstrName::INX
        | InstrName::INY | InstrName::TAX | InstrName::TAY | InstrName::TSX | InstrName::TXA
        | InstrName::TYA | InstrName::TXS | InstrName::PHA | InstrName::PHP | InstrName::PLA
        | InstrName::PLP | InstrName::BRK | InstrName::RTS | InstrName::RTI
        | InstrName::ILLEGAL_JAM => true,
        _ => false,
    }
}

/// Every opcode decodes to an instruction the interpreter can run.
#[verifier::rlimit(100)]
pub proof fn lemma_opcode_table_ok(opcode: u8)
    ensures
        instr_ok(opcode_table(opcode)),
{
}

/// The opcode table: what each of the 256 opcodes decodes to.
pub open spec fn opcode_table(opcode: u8) -> Instruction {
    match opcode {
        0x00 => Instruction { opcode: 0x00, name: InstrName::BRK, mode: AddressingMode::Implied, cycles: 7 },
        0x01 => Instruction { opcode: 0x01, name: InstrName::ORA, mode: AddressingMode::IndirectX, cycles: 6 },
        0x02 => Instruction { opcode: 0x02, name: InstrName::ILLEGAL_JAM, mode: AddressingMode::Implied, cycles: 1 },
        0x03 => Instruction { opcode: 0x03, name: InstrName::ILLEGAL_SLO, mode: AddressingMode::IndirectX, cycles: 8 },
        0x04 => Instruction { opcode: 0x04, name: InstrName::ILLEGAL_NOP, mode: AddressingMode::ZeroPage, cycles: 3 },
        0x05 => Instruction { opcode: 0x05, name: InstrName::ORA, mode: AddressingMode::ZeroPage, cycles: 3 },
        0x06 => Instruction { opcode: 0x06, name: InstrName::ASL, mode: AddressingMode::ZeroPage, cycles: 5 },
        0x07 => Instruction { opcode: 0x07, name: InstrName::ILLEGAL_SLO, mode: AddressingMode::ZeroPage, cycles: 5 },
        0x08 => Instruction { opcode: 0x08, name: InstrName::PHP, mode: AddressingMode::Implied, cycles: 3 },
        0x09 => Instruction { opcode: 0x09, name: InstrName::ORA, mode: AddressingMode::Immediate, cycles: 2 },
        0x0A => Instruction { opcode: 0x0A, name: InstrName::ASL, mode: AddressingMode::Accumulator, cycles: 2 },
        0x0B => Instruction { opcode: 0x0B, name: InstrName::ILLEGAL_ANC, mode: AddressingMode::Immediate, cycles: 2 },
        0x0C => Instruction { opcode: 0x0C, name: InstrName::ILLEGAL_NOP, mode: AddressingMode::Absolute, cycles: 4 },
        0x0D => Instruction { opcode: 0x0D, name: InstrName::ORA, mode: AddressingMode::Absolute, cycles: 4 },
        0x0E => Instruction { opcode: 0x0E, name: InstrName::ASL, mode: AddressingMode::Absolute, cycles: 6 },
        0x0F => Instruction { opcode: 0x0F, name: InstrName::ILLEGAL_SLO, mode: AddressingMode::Absolute, cycles: 6 },
        0x10 => Instruction { opcode: 0x10, name: InstrName::BPL, mode: AddressingMode::Relative, cycles: 2 },
        0x11 => Instruction { opcode: 0x11, name: InstrName::ORA, mode: AddressingMode::IndirectY, cycles: 5 },
        0x12 => Instruction { opcode: 0x12, name: InstrName::ILLEGAL_JAM, mode: AddressingMode::Implied, cycles: 1 },
        0x13 => Instruction { opcode: 0x13, name: InstrName::ILLEGAL_SLO, mode: AddressingMode::IndirectY, cycles: 8 },
        0x14 => Instruction { opcode: 0x14, name: InstrName::ILLEGAL_NOP, mode: AddressingMode::ZeroPageX, cycles: 4 },
        0x15 => Instruction { opcode: 0x15, name: InstrName::ORA, mode: AddressingMode::ZeroPageX, cycles: 4 },
        0x16 => Instruction { opcode: 0x16, name: InstrName::ASL, mode: AddressingMode::ZeroPageX, cycles: 6 },
        0x17 => Instruction { opcode: 0x17, name: InstrName::ILLEGAL_SLO, mode: AddressingMode::ZeroPageX, cycles: 6 },
        0x18 => Instruction { opcode: 0x18, name: InstrName::CLC, mode: AddressingMode::Implied, cycles: 2 },
        0x19 => Instruction { opcode: 0x19, name: InstrName::ORA, mode: AddressingMode::AbsoluteY, cycles: 4 },
        0x1A => Instruction { opcode: 0x1A, name: InstrName::ILLEGAL_NOP, mode: AddressingMode::Implied, cycles: 2 },
        0x1B => Instruction { opcode: 0x1B, name: InstrName::ILLEGAL_SLO, mode: AddressingMode::AbsoluteY, cycles: 7 },
        0x1C => Instruction { opcode: 0x1C, name: InstrName::ILLEGAL_NOP, mode: AddressingMode::AbsoluteX, cycles: 4 },
        0x1D => Instruction { opcode: 0x1D, name: InstrName::ORA, mode: AddressingMode::AbsoluteX, cycles: 4 },
        0x1E => Instruction { opcode: 0x1E, name: InstrName::ASL, mode: AddressingMode::AbsoluteX, cycles: 7 },
        0x1F => Instruction { opcode: 0x1F, name: InstrName::ILLEGAL_SLO, mode: AddressingMode::AbsoluteX, cycles: 7 },
        0x20 => Instruction { opcode: 0x20, name: InstrName::JSR, mode: AddressingMode::Absolute, cycles: 6 },
        0x21 => Instruction { opcode: 0x21, name: InstrName::AND, mode: AddressingMode::IndirectX, cycles: 6 },
        0x22 => Instruction { opcode: 0x22, name: InstrName::ILLEGAL_JAM, mode: AddressingMode::Implied, cycles: 1 },
        0x23 => Instruction { opcode: 0x23, name: InstrName::ILLEGAL_RLA, mode: AddressingMode::IndirectX, cycles: 8 },
        0x24 => Instruction { opcode: 0x24, name: InstrName::BIT, mode: AddressingMode::ZeroPage, cycles: 3 },
        0x25 => Instruction { opcode: 0x25, name: InstrName::AND, mode: AddressingMode::ZeroPage, cycles: 3 },
        0x26 => Instruction { opcode: 0x26, name: InstrName::ROL, mode: AddressingMode::ZeroPage, cycles: 5 },
        0x27 => Instruction { opcode: 0x27, name: InstrName::ILLEGAL_RLA, mode: AddressingMode::ZeroPage, cycles: 5 },
        0x28 => Instruction { opcode: 0x28, name: InstrName::PLP, mode: AddressingMode::Implied, cycles: 4 },
        0x29 => Instruction { opcode: 0x29, name: InstrName::AND, mode: AddressingMode::Immediate, cycles: 2 },
        0x2A => Instruction { opcode: 0x2A, name: InstrName::ROL, mode: AddressingMode::Accumulator, cycles: 2 },
        0x2B => Instruction { opcode: 0x2B, name: InstrName::ILLEGAL_ANC, mode: AddressingMode::Immediate, cycles: 2 },
        0x2C => Instruction { opcode: 0x2C, name: InstrName::BIT, mode: AddressingMode::Absolute, cycles: 4 },
        0x2D => Instruction { opcode: 0x2D, name: InstrName::AND, mode: AddressingMode::Absolute, cycles: 4 },
        0x2E => Instruction { opcode: 0x2E, name: InstrName::ROL, mode: AddressingMode::Absolute, cycles: 6 },
        0x2F => Instruction { opcode: 0x2F, name: InstrName::ILLEGAL_RLA, mode: AddressingMode::Absolute, cycles: 6 },
        0x30 => Instruction { opcode: 0x30, name: InstrName::BMI, mode: AddressingMode::Relative, cycles: 2 },
        0x31 => Instruction { opcode: 0x31, name: InstrName::AND, mode: AddressingMode::IndirectY, cycles: 5 },
        0x32 => Instruction { opcode: 0x32, name: InstrName::ILLEGAL_JAM, mode: AddressingMode::Implied, cycles: 1 },
        0x33 => Instruction { opcode: 0x33, name: InstrName::ILLEGAL_RLA, mode: AddressingMode::IndirectY, cycles: 8 },
        0x34 => Instruction { opcode: 0x34, name: InstrName::ILLEGAL_NOP, mode: AddressingMode::ZeroPageX, cycles: 4 },
        0x35 => Instruction { opcode: 0x35, name: InstrName::AND, mode: AddressingMode::ZeroPageX, cycles: 4 },
        0x36 => Instruction { opcode: 0x36, name: InstrName::ROL, mode: AddressingMode::ZeroPageX, cycles: 6 },
        0x37 => Instruction { opcode: 0x37, name: InstrName::ILLEGAL_RLA, mode: AddressingMode::ZeroPageX, cycles: 6 },
        0x38 => Instruction { opcode: 0x38, name: InstrName::SEC, mode: AddressingMode::Implied, cycles: 2 },
        0x39 => Instruction { opcode: 0x39, name: InstrName::AND, mode: AddressingMode::AbsoluteY, cycles: 4 },
        0x3A => Instruction { opcode: 0x3A, name: InstrName::ILLEGAL_NOP, mode: AddressingMode::Implied, cycles: 2 },
        0x3B => Instruction { opcode: 0x3B, name: InstrName::ILLEGAL_RLA, mode: AddressingMode::AbsoluteY, cycles: 7 },
        0x3C => Instruction { opcode: 0x3C, name: InstrName::ILLEGAL_NOP, mode: AddressingMode::AbsoluteX, cycles: 4 },
        0x3D => Instruction { opcode: 0x3D, name: InstrName::AND, mode: AddressingMode::AbsoluteX, cycles: 4 },
        0x3E => Instruction { opcode: 0x3E, name: InstrName::ROL, mode: AddressingMode::AbsoluteX, cycles: 7 },
        0x3F => Instruction { opcode: 0x3F, name: InstrName::ILLEGAL_RLA, mode: AddressingMode::AbsoluteX, cycles: 7 },
        0x40 => Instruction { opcode: 0x40, name: InstrName::RTI, mode: AddressingMode::Implied, cycles: 6 },
        0x41 => Instruction { opcode: 0x41, name: InstrName::EOR, mode: AddressingMode::IndirectX, cycles: 6 },
        0x42 => Instruction { opcode: 0x42, name: InstrName::ILLEGAL_JAM, mode: AddressingMode::Implied, cycles: 1 },
        0x43 => Instruction { opcode: 0x43, name: InstrName::ILLEGAL_SRE, mode: AddressingMode::IndirectX, cycles: 8 },
        0x44 => Instruction { opcode: 0x44, name: InstrName::ILLEGAL_NOP, mode: AddressingMode::ZeroPage, cycles: 3 },
        0x45 => Instruction { opcode: 0x45, name: InstrName::EOR, mode: AddressingMode::ZeroPage, cycles: 3 },
        0x46 => Instruction { opcode: 0x46, name: InstrName::LSR, mode: AddressingMode::ZeroPage, cycles: 5 },
        0x47 => Instruction { opcode: 0x47, name: InstrName::ILLEGAL_SRE, mode: AddressingMode::ZeroPage, cycles: 5 },
        0x48 => Instruction { opcode: 0x48, name: InstrName::PHA, mode: AddressingMode::Implied, cycles: 3 },
        0x49 => Instruction { opcode: 0x49, name: InstrName::EOR, mode: AddressingMode::Immediate, cycles: 2 },
        0x4A => Instruction { opcode: 0x4A, name: InstrName::LSR, mode: AddressingMode::Accumulator, cycles: 2 },
        0x4B => Instruction { opcode: 0x4B, name: InstrName::ILLEGAL_ALR, mode: AddressingMode::Immediate, cycles: 2 },
        0x4C => Instruction { opcode: 0x4C, name: InstrName::JMP, mode: AddressingMode::Absolute, cycles: 3 },
        0x4D => Instruction { opcode: 0x4D, name: InstrName::EOR, mode: AddressingMode::Absolute, cycles: 4 },
        0x4E => Instruction { opcode: 0x4E, name: InstrName::LSR, mode: AddressingMode::Absolute, cycles: 6 },
        0x4F => Instruction { opcode: 0x4F, name: InstrName::ILLEGAL_SRE, mode: AddressingMode::Absolute, cycles: 6 },
        0x50 => Instruction { opcode: 0x50, name: InstrName::BVC, mode: AddressingMode::Relative, cycles: 2 },
        0x51 => Instruction { opcode: 0x51, name: InstrName::EOR, mode: AddressingMode::IndirectY, cycles: 5 },
        0x52 => Instruction { opcode: 0x52, name: InstrName::ILLEGAL_JAM, mode: AddressingMode::Implied, cycles: 1 },
        0x53 => Instruction { opcode: 0x53, name: InstrName::ILLEGAL_SRE, mode: AddressingMode::IndirectY, cycles: 8 },
        0x54 => Instruction { opcode: 0x54, name: InstrName::ILLEGAL_NOP, mode: AddressingMode::ZeroPageX, cycles: 4 },
        0x55 => Instruction { opcode: 0x55, name: InstrName::EOR, mode: AddressingMode::ZeroPageX, cycles: 4 },
        0x56 => Instruction { opcode: 0x56, name: InstrName::LSR, mode: AddressingMode::ZeroPageX, cycles: 6 },
        0x57 => Instruction { opcode: 0x57, name: InstrName::ILLEGAL_SRE, mode: AddressingMode::ZeroPageX, cycles: 6 },
        0x58 => Instruction { opcode: 0x58, name: InstrName::CLI, mode: AddressingMode::Implied, cycles: 2 },
        0x59 => Instruction { opcode: 0x59, name: InstrName::EOR, mode: AddressingMode::AbsoluteY, cycles: 4 },
        0x5A => Instruction { opcode: 0x5A, name: InstrName::ILLEGAL_NOP, mode: AddressingMode::Implied, cycles: 2 },
        0x5B => Instruction { opcode: 0x5B, name: InstrName::ILLEGAL_SRE, mode: AddressingMode::AbsoluteY, cycles: 7 },
        0x5C => Instruction { opcode: 0x5C, name: InstrName::ILLEGAL_NOP, mode: AddressingMode::AbsoluteX, cycles: 4 },
        0x5D => Instruction { opcode: 0x5D, name: InstrName::EOR, mode: AddressingMode::AbsoluteX, cycles: 4 },
        0x5E => Instruction { opcode: 0x5E, name: InstrName::LSR, mode: AddressingMode::AbsoluteX, cycles: 7 },
        0x5F => Instruction { opcode: 0x5F, name: InstrName::ILLEGAL_SRE, mode: AddressingMode::AbsoluteX, cycles: 7 },
        0x60 => Instruction { opcode: 0x60, name: InstrName::RTS, mode: AddressingMode::Implied, cycles: 6 },
        0x61 => Instruction { opcode: 0x61, name: InstrName::ADC, mode: AddressingMode::IndirectX, cycles: 6 },
        0x62 => Instruction { opcode: 0x62, name: InstrName::ILLEGAL_JAM, mode: AddressingMode::Implied, cycles: 1 },
        0x63 => Instruction { opcode: 0x63, name: InstrName::ILLEGAL_RRA, mode: AddressingMode::IndirectX, cycles: 8 },
        0x64 => Instruction { opcode: 0x64, name: InstrName::ILLEGAL_NOP, mode: AddressingMode::ZeroPage, cycles: 3 },
        0x65 => Instruction { opcode: 0x65, name: InstrName::ADC, mode: AddressingMode::ZeroPage, cycles: 3 },
        0x66 => Instruction { opcode: 0x66, name: InstrName::ROR, mode: AddressingMode::ZeroPage, cycles: 5 },
        0x67 => Instruction { opcode: 0x67, name: InstrName::ILLEGAL_RRA, mode: AddressingMode::ZeroPage, cycles: 5 },
        0x68 => Instruction { opcode: 0x68, name: InstrName::PLA, mode: AddressingMode::Implied, cycles: 4 },
        0x69 => Instruction { opcode: 0x69, name: InstrName::ADC, mode: AddressingMode::Immediate, cycles: 2 },
        0x6A => Instruction { opcode: 0x6A, name: InstrName::ROR, mode: AddressingMode::Accumulator, cycles: 2 },
        0x6B => Instruction { opcode: 0x6B, name: InstrName::ILLEGAL_ARR, mode: AddressingMode::Immediate, cycles: 2 },
        0x6C => Instruction { opcode: 0x6C, name: InstrName::JMP, mode: AddressingMode::Indirect, cycles: 5 },
        0x6D => Instruction { opcode: 0x6D, name: InstrName::ADC, mode: AddressingMode::Absolute, cycles: 4 },
        0x6E => Instruction { opcode: 0x6E, name: InstrName::ROR, mode: AddressingMode::Absolute, cycles: 6 },
        0x6F => Instruction { opcode: 0x6F, name: InstrName::ILLEGAL_RRA, mode: AddressingMode::Absolute, cycles: 6 },
        0x70 => Instruction { opcode: 0x70, name: InstrName::BVS, mode: AddressingMode::Relative, cycles: 2 },
        0x71 => Instruction { opcode: 0x71, name: InstrName::ADC, mode: AddressingMode::IndirectY, cycles: 5 },
        0x72 => Instruction { opcode: 0x72, name: InstrName::ILLEGAL_JAM, mode: AddressingMode::Implied, cycles: 1 },
        0x73 => Instruction { opcode: 0x73, name: InstrName::ILLEGAL_RRA, mode: AddressingMode::IndirectY, cycles: 8 },
        0x74 => Instruction { opcode: 0x74, name: InstrName::ILLEGAL_NOP, mode: AddressingMode::ZeroPageX, cycles: 4 },
        0x75 => Instruction { opcode: 0x75, name: InstrName::ADC, mode: AddressingMode::ZeroPageX, cycles: 4 },
        0x76 => Instruction { opcode: 0x76, name: InstrName::ROR, mode: AddressingMode::ZeroPageX, cycles: 6 },
        0x77 => Instruction { opcode: 0x77, name: InstrName::ILLEGAL_RRA, mode: AddressingMode::ZeroPageX, cycles: 6 },
        0x78 => Instruction { opcode: 0x78, name: InstrName::SEI, mode: AddressingMode::Implied, cycles: 2 },
        0x79 => Instruction { opcode: 0x79, name: InstrName::ADC, mode: AddressingMode::AbsoluteY, cycles: 4 },
        0x7A => Instruction { opcode: 0x7A, name: InstrName::ILLEGAL_NOP, mode: AddressingMode::Implied, cycles: 2 },
        0x7B => Instruction { opcode: 0x7B, name: InstrName::ILLEGAL_RRA, mode: AddressingMode::AbsoluteY, cycles: 7 },
        0x7C => Instruction { opcode: 0x7C, name: InstrName::ILLEGAL_NOP, mode: AddressingMode::AbsoluteX, cycles: 4 },
        0x7D => Instruction { opcode: 0x7D, name: InstrName::ADC, mode: AddressingMode::AbsoluteX, cycles: 4 },
        0x7E => Instruction { opcode: 0x7E, name: InstrName::ROR, mode: AddressingMode::AbsoluteX, cycles: 7 },
        0x7F => Instruction { opcode: 0x7F, name: InstrName::ILLEGAL_RRA, mode: AddressingMode::AbsoluteX, cycles: 7 },
        0x80 => Instruction { opcode: 0x80, name: InstrName::ILLEGAL_NOP, mode: AddressingMode::Immediate, cycles: 2 },
        0x81 => Instruction { opcode: 0x81, name: InstrName::STA, mode: AddressingMode::IndirectX, cycles: 6 },
        0x82 => Instruction { opcode: 0x82, name: InstrName::ILLEGAL_NOP, mode: AddressingMode::Immediate, cycles: 2 },
        0x83 => Instruction { opcode: 0x83, name: InstrName::ILLEGAL_SAX, mode: AddressingMode::IndirectX, cycles: 6 },
        0x84 => Instruction { opcode: 0x84, name: InstrName::STY, mode: AddressingMode::ZeroPage, cycles: 3 },
        0x85 => Instruction { opcode: 0x85, name: InstrName::STA, mode: AddressingMode::ZeroPage, cycles: 3 },
        0x86 => Instruction { opcode: 0x86, name: InstrName::STX, mode: AddressingMode::ZeroPage, cycles: 3 },
        0x87 => Instruction { opcode: 0x87, name: InstrName::ILLEGAL_SAX, mode: AddressingMode::ZeroPage, cycles: 3 },
        0x88 => Instruction { opcode: 0x88, name: InstrName::DEY, mode: AddressingMode::Implied, cycles: 2 },
        0x89 => Instruction { opcode: 0x89, name: InstrName::ILLEGAL_NOP, mode: AddressingMode::Immediate, cycles: 2 },
        0x8A => Instruction { opcode: 0x8A, name: InstrName::TXA, mode: AddressingMode::Implied, cycles: 2 },
        0x8B => Instruction { opcode: 0x8B, name: InstrName::ILLEGAL_ANE, mode: AddressingMode::Immediate, cycles: 2 },
        0x8C => Instruction { opcode: 0x8C, name: InstrName::STY, mode: AddressingMode::Absolute, cycles: 4 },
        0x8D => Instruction { opcode: 0x8D, name: InstrName::STA, mode: AddressingMode::Absolute, cycles: 4 },
        0x8E => Instruction { opcode: 0x8E, name: InstrName::STX, mode: AddressingMode::Absolute, cycles: 4 },
        0x8F => Instruction { opcode: 0x8F, name: InstrName::ILLEGAL_SAX, mode: AddressingMode::Absolute, cycles: 4 },
        0x90 => Instruction { opcode: 0x90, name: InstrName::BCC, mode: AddressingMode::Relative, cycles: 2 },
        0x91 => Instruction { opcode: 0x91, name: InstrName::STA, mode: AddressingMode::IndirectY, cycles: 6 },
        0x92 => Instruction { opcode: 0x92, name: InstrName::ILLEGAL_JAM, mode: AddressingMode::Implied, cycles: 1 },
        0x93 => Instruction { opcode: 0x93, name: InstrName::ILLEGAL_SHA, mode: AddressingMode::IndirectY, cycles: 6 },
        0x94 => Instruction { opcode: 0x94, name: InstrName::STY, mode: AddressingMode::ZeroPageX, cycles: 4 },
        0x95 => Instruction { opcode: 0x95, name: InstrName::STA, mode: AddressingMode::ZeroPageX, cycles: 4 },
        0x96 => Instruction { opcode: 0x96, name: InstrName::STX, mode: AddressingMode::ZeroPageY, cycles: 4 },
        0x97 => Instruction { opcode: 0x97, name: InstrName::ILLEGAL_SAX, mode: AddressingMode::ZeroPageY, cycles: 4 },
        0x98 => Instruction { opcode: 0x98, name: InstrName::TYA, mode: AddressingMode::Implied, cycles: 2 },
        0x99 => Instruction { opcode: 0x99, name: InstrName::STA, mode: AddressingMode::AbsoluteY, cycles: 5 },
        0x9A => Instruction { opcode: 0x9A, name: InstrName::TXS, mode: AddressingMode::Implied, cycles: 2 },
        0x9B => Instruction { opcode: 0x9B, name: InstrName::ILLEGAL_TAS, mode: AddressingMode::AbsoluteY, cycles: 5 },
        0x9C => Instruction { opcode: 0x9C, name: InstrName::ILLEGAL_SHY, mode: AddressingMode::AbsoluteX, cycles: 5 },
        0x9D => Instruction { opcode: 0x9D, name: InstrName::STA, mode: AddressingMode::AbsoluteX, cycles: 5 },
        0x9E => Instruction { opcode: 0x9E, name: InstrName::ILLEGAL_SHX, mode: AddressingMode::AbsoluteY, cycles: 5 },
        0x9F => Instruction { opcode: 0x9F, name: InstrName::ILLEGAL_SHA, mode: AddressingMode::AbsoluteY, cycles: 5 },
        0xA0 => Instruction { opcode: 0xA0, name: InstrName::LDY, mode: AddressingMode::Immediate, cycles: 2 },
        0xA1 => Instruction { opcode: 0xA1, name: InstrName::LDA, mode: AddressingMode::IndirectX, cycles: 6 },
        0xA2 => Instruction { opcode: 0xA2, name: InstrName::LDX, mode: AddressingMode::Immediate, cycles: 2 },
        0xA3 => Instruction { opcode: 0xA3, name: InstrName::ILLEGAL_LAX, mode: AddressingMode::IndirectX, cycles: 6 },
        0xA4 => Instruction { opcode: 0xA4, name: InstrName::LDY, mode: AddressingMode::ZeroPage, cycles: 3 },
        0xA5 => Instruction { opcode: 0xA5, name: InstrName::LDA, mode: AddressingMode::ZeroPage, cycles: 3 },
        0xA6 => Instruction { opcode: 0xA6, name: InstrName::LDX, mode: AddressingMode::ZeroPage, cycles: 3 },
        0xA7 => Instruction { opcode: 0xA7, name: InstrName::ILLEGAL_LAX, mode: AddressingMode::ZeroPage, cycles: 3 },
        0xA8 => Instruction { opcode: 0xA8, name: InstrName::TAY, mode: AddressingMode::Implied, cycles: 2 },
        0xA9 => Instruction { opcode: 0xA9, name: InstrName::LDA, mode: AddressingMode::Immediate, cycles: 2 },
        0xAA => Instruction { opcode: 0xAA, name: InstrName::TAX, mode: AddressingMode::Implied, cycles: 2 },
        0xAB => Instruction { opcode: 0xAB, name: InstrName::ILLEGAL_LXA, mode: AddressingMode::Immediate, cycles: 2 },
        0xAC => Instruction { opcode: 0xAC, name: InstrName::LDY, mode: AddressingMode::Absolute, cycles: 4 },
        0xAD => Instruction { opcode: 0xAD, name: InstrName::LDA, mode: AddressingMode::Absolute, cycles: 4 },
        0xAE => Instruction { opcode: 0xAE, name: InstrName::LDX, mode: AddressingMode::Absolute, cycles: 4 },
        0xAF => Instruction { opcode: 0xAF, name: InstrName::ILLEGAL_LAX, mode: AddressingMode::Absolute, cycles: 4 },
        0xB0 => Instruction { opcode: 0xB0, name: InstrName::BCS, mode: AddressingMode::Relative, cycles: 2 },
        0xB1 => Instruction { opcode: 0xB1, name: InstrName::LDA, mode: AddressingMode::IndirectY, cycles: 5 },
        0xB2 => Instruction { opcode: 0xB2, name: InstrName::ILLEGAL_JAM, mode: AddressingMode::Implied, cycles: 1 },
        0xB3 => Instruction { opcode: 0xB3, name: InstrName::ILLEGAL_LAX, mode: AddressingMode::IndirectY, cycles: 5 },
        0xB4 => Instruction { opcode: 0xB4, name: InstrName::LDY, mode: AddressingMode::ZeroPageX, cycles: 4 },
        0xB5 => Instruction { opcode: 0xB5, name: InstrName::LDA, mode: AddressingMode::ZeroPageX, cycles: 4 },
        0xB6 => Instruction { opcode: 0xB6, name: InstrName::LDX, mode: AddressingMode::ZeroPageY, cycles: 4 },
        0xB7 => Instruction { opcode: 0xB7, name: InstrName::ILLEGAL_LAX, mode: AddressingMode::ZeroPageY, cycles: 4 },
        0xB8 => Instruction { opcode: 0xB8, name: InstrName::CLV, mode: AddressingMode::Implied, cycles: 2 },
        0xB9 => Instruction { opcode: 0xB9, name: InstrName::LDA, mode: AddressingMode::AbsoluteY, cycles: 4 },
        0xBA => Instruction { opcode: 0xBA, name: InstrName::TSX, mode: AddressingMode::Implied, cycles: 2 },
        0xBB => Instruction { opcode: 0xBB, name: InstrName::ILLEGAL_LAS, mode: AddressingMode::AbsoluteY, cycles: 4 },
        0xBC => Instruction { opcode: 0xBC, name: InstrName::LDY, mode: AddressingMode::AbsoluteX, cycles: 4 },
        0xBD => Instruction { opcode: 0xBD, name: InstrName::LDA, mode: AddressingMode::AbsoluteX, cycles: 4 },
        0xBE => Instruction { opcode: 0xBE, name: InstrName::LDX, mode: AddressingMode::AbsoluteY, cycles: 4 },
        0xBF => Instruction { opcode: 0xBF, name: InstrName::ILLEGAL_LAX, mode: AddressingMode::AbsoluteY, cycles: 4 },
        0xC0 => Instruction { opcode: 0xC0, name: InstrName::CPY, mode: AddressingMode::Immediate, cycles: 2 },
        0xC1 => Instruction { opcode: 0xC1, name: InstrName::CMP, mode: AddressingMode::IndirectX, cycles: 6 },
        0xC2 => Instruction { opcode: 0xC2, name: InstrName::ILLEGAL_NOP, mode: AddressingMode::Immediate, cycles: 2 },
        0xC3 => Instruction { opcode: 0xC3, name: InstrName::ILLEGAL_DCP, mode: AddressingMode::IndirectX, cycles: 8 },
        0xC4 => Instruction { opcode: 0xC4, name: InstrName::CPY, mode: AddressingMode::ZeroPage, cycles: 3 },
        0xC5 => Instruction { opcode: 0xC5, name: InstrName::CMP, mode: AddressingMode::ZeroPage, cycles: 3 },
        0xC6 => Instruction { opcode: 0xC6, name: InstrName::DEC, mode: AddressingMode::ZeroPage, cycles: 5 },
        0xC7 => Instruction { opcode: 0xC7, name: InstrName::ILLEGAL_DCP, mode: AddressingMode::ZeroPage, cycles: 5 },
        0xC8 => Instruction { opcode: 0xC8, name: InstrName::INY, mode: AddressingMode::Implied, cycles: 2 },
        0xC9 => Instruction { opcode: 0xC9, name: InstrName::CMP, mode: AddressingMode::Immediate, cycles: 2 },
        0xCA => Instruction { opcode: 0xCA, name: InstrName::DEX, mode: AddressingMode::Implied, cycles: 2 },
        0xCB => Instruction { opcode: 0xCB, name: InstrName::ILLEGAL_SBX, mode: AddressingMode::Immediate, cycles: 2 },
        0xCC => Instruction { opcode: 0xCC, name: InstrName::CPY, mode: AddressingMode::Absolute, cycles: 4 },
        0xCD => Instruction { opcode: 0xCD, name: InstrName::CMP, mode: AddressingMode::Absolute, cycles: 4 },
        0xCE => Instruction { opcode: 0xCE, name: InstrName::DEC, mode: AddressingMode::Absolute, cycles: 6 },
        0xCF => Instruction { opcode: 0xCF, name: InstrName::ILLEGAL_DCP, mode: AddressingMode::Absolute, cycles: 6 },
        0xD0 => Instruction { opcode: 0xD0, name: InstrName::BNE, mode: AddressingMode::Relative, cycles: 2 },
        0xD1 => Instruction { opcode: 0xD1, name: InstrName::CMP, mode: AddressingMode::IndirectY, cycles: 5 },
        0xD2 => Instruction { opcode: 0xD2, name: InstrName::ILLEGAL_JAM, mode: AddressingMode::Implied, cycles: 1 },
        0xD3 => Instruction { opcode: 0xD3, name: InstrName::ILLEGAL_DCP, mode: AddressingMode::IndirectY, cycles: 8 },
        0xD4 => Instruction { opcode: 0xD4, name: InstrName::ILLEGAL_NOP, mode: AddressingMode::ZeroPageX, cycles: 4 },
        0xD5 => Instruction { opcode: 0xD5, name: InstrName::CMP, mode: AddressingMode::ZeroPageX, cycles: 4 },
        0xD6 => Instruction { opcode: 0xD6, name: InstrName::DEC, mode: AddressingMode::ZeroPageX, cycles: 6 },
        0xD7 => Instruction { opcode: 0xD7, name: InstrName::ILLEGAL_DCP, mode: AddressingMode::ZeroPageX, cycles: 6 },
        0xD8 => Instruction { opcode: 0xD8, name: InstrName::CLD, mode: AddressingMode::Implied, cycles: 2 },
        0xD9 => Instruction { opcode: 0xD9, name: InstrName::CMP, mode: AddressingMode::AbsoluteY, cycles: 4 },
        0xDA => Instruction { opcode: 0xDA, name: InstrName::ILLEGAL_NOP, mode: AddressingMode::Implied, cycles: 2 },
        0xDB => Instruction { opcode: 0xDB, name: InstrName::ILLEGAL_DCP, mode: AddressingMode::AbsoluteY, cycles: 7 },
        0xDC => Instruction { opcode: 0xDC, name: InstrName::ILLEGAL_NOP, mode: AddressingMode::AbsoluteX, cycles: 4 },
        0xDD => Instruction { opcode: 0xDD, name: InstrName::CMP, mode: AddressingMode::AbsoluteX, cycles: 4 },
        0xDE => Instruction { opcode: 0xDE, name: InstrName::DEC, mode: AddressingMode::AbsoluteX, cycles: 7 },
        0xDF => Instruction { opcode: 0xDF, name: InstrName::ILLEGAL_DCP, mode: AddressingMode::AbsoluteX, cycles: 7 },
        0xE0 => Instruction { opcode: 0xE0, name: InstrName::CPX, mode: AddressingMode::Immediate, cycles: 2 },
        0xE1 => Instruction { opcode: 0xE1, name: InstrName::SBC, mode: AddressingMode::IndirectX, cycles: 6 },
        0xE2 => Instruction { opcode: 0xE2, name: InstrName::ILLEGAL_NOP, mode: AddressingMode::Immediate, cycles: 2 },
        0xE3 => Instruction { opcode: 0xE3, name: InstrName::ILLEGAL_ISC, mode: AddressingMode::IndirectX, cycles: 8 },
        0xE4 => Instruction { opcode: 0xE4, name: InstrName::CPX, mode: AddressingMode::ZeroPage, cycles: 3 },
        0xE5 => Instruction { opcode: 0xE5, name: InstrName::SBC, mode: AddressingMode::ZeroPage, cycles: 3 },
        0xE6 => Instruction { opcode: 0xE6, name: InstrName::INC, mode: AddressingMode::ZeroPage, cycles: 5 },
        0xE7 => Instruction { opcode: 0xE7, name: InstrName::ILLEGAL_ISC, mode: AddressingMode::ZeroPage, cycles: 5 },
        0xE8 => Instruction { opcode: 0xE8, name: InstrName::INX, mode: AddressingMode::Implied, cycles: 2 },
        0xE9 => Instruction { opcode: 0xE9, name: InstrName::SBC, mode: AddressingMode::Immediate, cycles: 2 },
        0xEA => Instruction { opcode: 0xEA, name: InstrName::NOP, mode: AddressingMode::Implied, cycles: 2 },
        0xEB => Instruction { opcode: 0xEB, name: InstrName::ILLEGAL_USBC, mode: AddressingMode::Immediate, cycles: 2 },
        0xEC => Instruction { opcode: 0xEC, name: InstrName::CPX, mode: AddressingMode::Absolute, cycles: 4 },
        0xED => Instruction { opcode: 0xED, name: InstrName::SBC, mode: AddressingMode::Absolute, cycles: 4 },
        0xEE => Instruction { opcode: 0xEE, name: InstrName::INC, mode: AddressingMode::Absolute, cycles: 6 },
        0xEF => Instruction { opcode: 0xEF, name: InstrName::ILLEGAL_ISC, mode: AddressingMode::Absolute, cycles: 6 },
        0xF0 => Instruction { opcode: 0xF0, name: InstrName::BEQ, mode: AddressingMode::Relative, cycles: 2 },
        0xF1 => Instruction { opcode: 0xF1, name: InstrName::SBC, mode: AddressingMode::IndirectY, cycles: 5 },
        0xF2 => Instruction { opcode: 0xF2, name: InstrName::ILLEGAL_JAM, mode: AddressingMode::Implied, cycles: 1 },
        0xF3 => Instruction { opcode: 0xF3, name: InstrName::ILLEGAL_ISC, mode: AddressingMode::IndirectY, cycles: 8 },
        0xF4 => Instruction { opcode: 0xF4, name: InstrName::ILLEGAL_NOP, mode: AddressingMode::ZeroPageX, cycles: 4 },
        0xF5 => Instruction { opcode: 0xF5, name: InstrName::SBC, mode: AddressingMode::ZeroPageX, cycles: 4 },
        0xF6 => Instruction { opcode: 0xF6, name: InstrName::INC, mode: AddressingMode::ZeroPageX, cycles: 6 },
        0xF7 => Instruction { opcode: 0xF7, name: InstrName::ILLEGAL_ISC, mode: AddressingMode::ZeroPageX, cycles: 6 },
        0xF8 => Instruction { opcode: 0xF8, name: InstrName::SED, mode: AddressingMode::Implied, cycles: 2 },
        0xF9 => Instruction { opcode: 0xF9, name: InstrName::SBC, mode: AddressingMode::AbsoluteY, cycles: 4 },
        0xFA => Instruction { opcode: 0xFA, name: InstrName::ILLEGAL_NOP, mode: AddressingMode::Implied, cycles: 2 },
        0xFB => Instruction { opcode: 0xFB, name: InstrName::ILLEGAL_ISC, mode: AddressingMode::AbsoluteY, cycles: 7 },
        0xFC => Instruction { opcode: 0xFC, name: InstrName::ILLEGAL_NOP, mode: AddressingMode::AbsoluteX, cycles: 4 },
        0xFD => Instruction { opcode: 0xFD, name: InstrName::SBC, mode: AddressingMode::AbsoluteX, cycles: 4 },
        0xFE => Instruction { opcode: 0xFE, name: InstrName::INC, mode: AddressingMode::AbsoluteX, cycles: 7 },
        0xFF => Instruction { opcode: 0xFF, name: InstrName::ILLEGAL_ISC, mode: AddressingMode::AbsoluteX, cycles: 7 },
    }
}

/// Decode an opcode into its instruction.
#[verifier::rlimit(100)]
pub fn decode_instruction(opcode: u8) -> (r: Instruction)
    ensures
        r == opcode_table(opcode),
{
    match opcode {
        0x00 => Instruction { opcode: 0x00, name: InstrName::BRK, mode: AddressingMode::Implied, cycles: 7 },
        0x01 => Instruction { opcode: 0x01, name: InstrName::ORA, mode: AddressingMode::IndirectX, cycles: 6 },
        0x02 => Instruction { opcode: 0x02, name: InstrName::ILLEGAL_JAM, mode: AddressingMode::Implied, cycles: 1 },
        0x03 => Instruction { opcode: 0x03, name: InstrName::ILLEGAL_SLO, mode: AddressingMode::IndirectX, cycles: 8 },
        0x04 => Instruction { opcode: 0x04, name: InstrName::ILLEGAL_NOP, mode: AddressingMode::ZeroPage, cycles: 3 },
        0x05 => Instruction { opcode: 0x05, name: InstrName::ORA, mode: AddressingMode::ZeroPage, cycles: 3 },
        0x06 => Instruction { opcode: 0x06, name: InstrName::ASL, mode: AddressingMode::ZeroPage, cycles: 5 },
        0x07 => Instruction { opcode: 0x07, name: InstrName::ILLEGAL_SLO, mode: AddressingMode::ZeroPage, cycles: 5 },
        0x08 => Instruction { opcode: 0x08, name: InstrName::PHP, mode: AddressingMode::Implied, cycles: 3 },
        0x09 => Instruction { opcode: 0x09, name: InstrName::ORA, mode: AddressingMode::Immediate, cycles: 2 },
        0x0A => Instruction { opcode: 0x0A, name: InstrName::ASL, mode: AddressingMode::Accumulator, cycles: 2 },
        0x0B => Instruction { opcode: 0x0B, name: InstrName::ILLEGAL_ANC, mode: AddressingMode::Immediate, cycles: 2 },
        0x0C => Instruction { opcode: 0x0C, name: InstrName::ILLEGAL_NOP, mode: AddressingMode::Absolute, cycles: 4 },
        0x0D => Instruction { opcode: 0x0D, name: InstrName::ORA, mode: AddressingMode::Absolute, cycles: 4 },
        0x0E => Instruction { opcode: 0x0E, name: InstrName::ASL, mode: AddressingMode::Absolute, cycles: 6 },
        0x0F => Instruction { opcode: 0x0F, name: InstrName::ILLEGAL_SLO, mode: AddressingMode::Absolute, cycles: 6 },
        0x10 => Instruction { opcode: 0x10, name: InstrName::BPL, mode: AddressingMode::Relative, cycles: 2 },
        0x11 => Instruction { opcode: 0x11, name: InstrName::ORA, mode: AddressingMode::IndirectY, cycles: 5 },
        0x12 => Instruction { opcode: 0x12, name: InstrName::ILLEGAL_JAM, mode: AddressingMode::Implied, cycles: 1 },
        0x13 => Instruction { opcode: 0x13, name: InstrName::ILLEGAL_SLO, mode: AddressingMode::IndirectY, cycles: 8 },
        0x14 => Instruction { opcode: 0x14, name: InstrName::ILLEGAL_NOP, mode: AddressingMode::ZeroPageX, cycles: 4 },
        0x15 => Instruction { opcode: 0x15, name: InstrName::ORA, mode: AddressingMode::ZeroPageX, cycles: 4 },
        0x16 => Instruction { opcode: 0x16, name: InstrName::ASL, mode: AddressingMode::ZeroPageX, cycles: 6 },
        0x17 => Instruction { opcode: 0x17, name: InstrName::ILLEGAL_SLO, mode: AddressingMode::ZeroPageX, cycles: 6 },
        0x18 => Instruction { opcode: 0x18, name: InstrName::CLC, mode: AddressingMode::Implied, cycles: 2 },
        0x19 => Instruction { opcode: 0x19, name: InstrName::ORA, mode: AddressingMode::AbsoluteY, cycles: 4 },
        0x1A => Instruction { opcode: 0x1A, name: InstrName::ILLEGAL_NOP, mode: AddressingMode::Implied, cycles: 2 },
        0x1B => Instruction { opcode: 0x1B, name: InstrName::ILLEGAL_SLO, mode: AddressingMode::AbsoluteY, cycles: 7 },
        0x1C => Instruction { opcode: 0x1C, name: InstrName::ILLEGAL_NOP, mode: AddressingMode::AbsoluteX, cycles: 4 },
        0x1D => Instruction { opcode: 0x1D, name: InstrName::ORA, mode: AddressingMode::AbsoluteX, cycles: 4 },
        0x1E => Instruction { opcode: 0x1E, name: InstrName::ASL, mode: AddressingMode::AbsoluteX, cycles: 7 },
        0x1F => Instruction { opcode: 0x1F, name: InstrName::ILLEGAL_SLO, mode: AddressingMode::AbsoluteX, cycles: 7 },
        0x20 => Instruction { opcode: 0x20, name: InstrName::JSR, mode: AddressingMode::Absolute, cycles: 6 },
        0x21 => Instruction { opcode: 0x21, name: InstrName::AND, mode: AddressingMode::IndirectX, cycles: 6 },
        0x22 => Instruction { opcode: 0x22, name: InstrName::ILLEGAL_JAM, mode: AddressingMode::Implied, cycles: 1 },
        0x23 => Instruction { opcode: 0x23, name: InstrName::ILLEGAL_RLA, mode: AddressingMode::IndirectX, cycles: 8 },
        0x24 => Instruction { opcode: 0x24, name: InstrName::BIT, mode: AddressingMode::ZeroPage, cycles: 3 },
        0x25 => Instruction { opcode: 0x25, name: InstrName::AND, mode: AddressingMode::ZeroPage, cycles: 3 },
        0x26 => Instruction { opcode: 0x26, name: InstrName::ROL, mode: AddressingMode::ZeroPage, cycles: 5 },
        0x27 => Instruction { opcode: 0x27, name: InstrName::ILLEGAL_RLA, mode: AddressingMode::ZeroPage, cycles: 5 },
        0x28 => Instruction { opcode: 0x28, name: InstrName::PLP, mode: AddressingMode::Implied, cycles: 4 },
        0x29 => Instruction { opcode: 0x29, name: InstrName::AND, mode: AddressingMode::Immediate, cycles: 2 },
        0x2A => Instruction { opcode: 0x2A, name: InstrName::ROL, mode: AddressingMode::Accumulator, cycles: 2 },
        0x2B => Instruction { opcode: 0x2B, name: InstrName::ILLEGAL_ANC, mode: AddressingMode::Immediate, cycles: 2 },
        0x2C => Instruction { opcode: 0x2C, name: InstrName::BIT, mode: AddressingMode::Absolute, cycles: 4 },
        0x2D => Instruction { opcode: 0x2D, name: InstrName::AND, mode: AddressingMode::Absolute, cycles: 4 },
        0x2E => Instruction { opcode: 0x2E, name: InstrName::ROL, mode: AddressingMode::Absolute, cycles: 6 },
        0x2F => Instruction { opcode: 0x2F, name: InstrName::ILLEGAL_RLA, mode: AddressingMode::Absolute, cycles: 6 },
        0x30 => Instruction { opcode: 0x30, name: InstrName::BMI, mode: AddressingMode::Relative, cycles: 2 },
        0x31 => Instruction { opcode: 0x31, name: InstrName::AND, mode: AddressingMode::IndirectY, cycles: 5 },
        0x32 => Instruction { opcode: 0x32, name: InstrName::ILLEGAL_JAM, mode: AddressingMode::Implied, cycles: 1 },
        0x33 => Instruction { opcode: 0x33, name: InstrName::ILLEGAL_RLA, mode: AddressingMode::IndirectY, cycles: 8 },
        0x34 => Instruction { opcode: 0x34, name: InstrName::ILLEGAL_NOP, mode: AddressingMode::ZeroPageX, cycles: 4 },
        0x35 => Instruction { opcode: 0x35, name: InstrName::AND, mode: AddressingMode::ZeroPageX, cycles: 4 },
        0x36 => Instruction { opcode: 0x36, name: InstrName::ROL, mode: AddressingMode::ZeroPageX, cycles: 6 },
        0x37 => Instruction { opcode: 0x37, name: InstrName::ILLEGAL_RLA, mode: AddressingMode::ZeroPageX, cycles: 6 },
        0x38 => Instruction { opcode: 0x38, name: InstrName::SEC, mode: AddressingMode::Implied, cycles: 2 },
        0x39 => Instruction { opcode: 0x39, name: InstrName::AND, mode: AddressingMode::AbsoluteY, cycles: 4 },
        0x3A => Instruction { opcode: 0x3A, name: InstrName::ILLEGAL_NOP, mode: AddressingMode::Implied, cycles: 2 },
        0x3B => Instruction { opcode: 0x3B, name: InstrName::ILLEGAL_RLA, mode: AddressingMode::AbsoluteY, cycles: 7 },
        0x3C => Instruction { opcode: 0x3C, name: InstrName::ILLEGAL_NOP, mode: AddressingMode::AbsoluteX, cycles: 4 },
        0x3D => Instruction { opcode: 0x3D, name: InstrName::AND, mode: AddressingMode::AbsoluteX, cycles: 4 },
        0x3E => Instruction { opcode: 0x3E, name: InstrName::ROL, mode: AddressingMode::AbsoluteX, cycles: 7 },
        0x3F => Instruction { opcode: 0x3F, name: InstrName::ILLEGAL_RLA, mode: AddressingMode::AbsoluteX, cycles: 7 },
        0x40 => Instruction { opcode: 0x40, name: InstrName::RTI, mode: AddressingMode::Implied, cycles: 6 },
        0x41 => Instruction { opcode: 0x41, name: InstrName::EOR, mode: AddressingMode::IndirectX, cycles: 6 },
        0x42 => Instruction { opcode: 0x42, name: InstrName::ILLEGAL_JAM, mode: AddressingMode::Implied, cycles: 1 },
        0x43 => Instruction { opcode: 0x43, name: InstrName::ILLEGAL_SRE, mode: AddressingMode::IndirectX, cycles: 8 },
        0x44 => Instruction { opcode: 0x44, name: InstrName::ILLEGAL_NOP, mode: AddressingMode::ZeroPage, cycles: 3 },
        0x45 => Instruction { opcode: 0x45, name: InstrName::EOR, mode: AddressingMode::ZeroPage, cycles: 3 },
        0x46 => Instruction { opcode: 0x46, name: InstrName::LSR, mode: AddressingMode::ZeroPage, cycles: 5 },
        0x47 => Instruction { opcode: 0x47, name: InstrName::ILLEGAL_SRE, mode: AddressingMode::ZeroPage, cycles: 5 },
        0x48 => Instruction { opcode: 0x48, name: InstrName::PHA, mode: AddressingMode::Implied, cycles: 3 },
        0x49 => Instruction { opcode: 0x49, name: InstrName::EOR, mode: AddressingMode::Immediate, cycles: 2 },
        0x4A => Instruction { opcode: 0x4A, name: InstrName::LSR, mode: AddressingMode::Accumulator, cycles: 2 },
        0x4B => Instruction { opcode: 0x4B, name: InstrName::ILLEGAL_ALR, mode: AddressingMode::Immediate, cycles: 2 },
        0x4C => Instruction { opcode: 0x4C, name: InstrName::JMP, mode: AddressingMode::Absolute, cycles: 3 },
        0x4D => Instruction { opcode: 0x4D, name: InstrName::EOR, mode: AddressingMode::Absolute, cycles: 4 },
        0x4E => Instruction { opcode: 0x4E, name: InstrName::LSR, mode: AddressingMode::Absolute, cycles: 6 },
        0x4F => Instruction { opcode: 0x4F, name: InstrName::ILLEGAL_SRE, mode: AddressingMode::Absolute, cycles: 6 },
        0x50 => Instruction { opcode: 0x50, name: InstrName::BVC, mode: AddressingMode::Relative, cycles: 2 },
        0x51 => Instruction { opcode: 0x51, name: InstrName::EOR, mode: AddressingMode::IndirectY, cycles: 5 },
        0x52 => Instruction { opcode: 0x52, name: InstrName::ILLEGAL_JAM, mode: AddressingMode::Implied, cycles: 1 },
        0x53 => Instruction { opcode: 0x53, name: InstrName::ILLEGAL_SRE, mode: AddressingMode::IndirectY, cycles: 8 },
        0x54 => Instruction { opcode: 0x54, name: InstrName::ILLEGAL_NOP, mode: AddressingMode::ZeroPageX, cycles: 4 },
        0x55 => Instruction { opcode: 0x55, name: InstrName::EOR, mode: AddressingMode::ZeroPageX, cycles: 4 },
        0x56 => Instruction { opcode: 0x56, name: InstrName::LSR, mode: AddressingMode::ZeroPageX, cycles: 6 },
        0x57 => Instruction { opcode: 0x57, name: InstrName::ILLEGAL_SRE, mode: AddressingMode::ZeroPageX, cycles: 6 },
        0x58 => Instruction { opcode: 0x58, name: InstrName::CLI, mode: AddressingMode::Implied, cycles: 2 },
        0x59 => Instruction { opcode: 0x59, name: InstrName::EOR, mode: AddressingMode::AbsoluteY, cycles: 4 },
        0x5A => Instruction { opcode: 0x5A, name: InstrName::ILLEGAL_NOP, mode: AddressingMode::Implied, cycles: 2 },
        0x5B => Instruction { opcode: 0x5B, name: InstrName::ILLEGAL_SRE, mode: AddressingMode::AbsoluteY, cycles: 7 },
        0x5C => Instruction { opcode: 0x5C, name: InstrName::ILLEGAL_NOP, mode: AddressingMode::AbsoluteX, cycles: 4 },
        0x5D => Instruction { opcode: 0x5D, name: InstrName::EOR, mode: AddressingMode::AbsoluteX, cycles: 4 },
        0x5E => Instruction { opcode: 0x5E, name: InstrName::LSR, mode: AddressingMode::AbsoluteX, cycles: 7 },
        0x5F => Instruction { opcode: 0x5F, name: InstrName::ILLEGAL_SRE, mode: AddressingMode::AbsoluteX, cycles: 7 },
        0x60 => Instruction { opcode: 0x60, name: InstrName::RTS, mode: AddressingMode::Implied, cycles: 6 },
        0x61 => Instruction { opcode: 0x61, name: InstrName::ADC, mode: AddressingMode::IndirectX, cycles: 6 },
        0x62 => Instruction { opcode: 0x62, name: InstrName::ILLEGAL_JAM, mode: AddressingMode::Implied, cycles: 1 },
        0x63 => Instruction { opcode: 0x63, name: InstrName::ILLEGAL_RRA, mode: AddressingMode::IndirectX, cycles: 8 },
        0x64 => Instruction { opcode: 0x64, name: InstrName::ILLEGAL_NOP, mode: AddressingMode::ZeroPage, cycles: 3 },
        0x65 => Instruction { opcode: 0x65, name: InstrName::ADC, mode: AddressingMode::ZeroPage, cycles: 3 },
        0x66 => Instruction { opcode: 0x66, name: InstrName::ROR, mode: AddressingMode::ZeroPage, cycles: 5 },
        0x67 => Instruction { opcode: 0x67, name: InstrName::ILLEGAL_RRA, mode: AddressingMode::ZeroPage, cycles: 5 },
        0x68 => Instruction { opcode: 0x68, name: InstrName::PLA, mode: AddressingMode::Implied, cycles: 4 },
        0x69 => Instruction { opcode: 0x69, name: InstrName::ADC, mode: AddressingMode::Immediate, cycles: 2 },
        0x6A => Instruction { opcode: 0x6A, name: InstrName::ROR, mode: AddressingMode::Accumulator, cycles: 2 },
        0x6B => Instruction { opcode: 0x6B, name: InstrName::ILLEGAL_ARR, mode: AddressingMode::Immediate, cycles: 2 },
        0x6C => Instruction { opcode: 0x6C, name: InstrName::JMP, mode: AddressingMode::Indirect, cycles: 5 },
        0x6D => Instruction { opcode: 0x6D, name: InstrName::ADC, mode: AddressingMode::Absolute, cycles: 4 },
        0x6E => Instruction { opcode: 0x6E, name: InstrName::ROR, mode: AddressingMode::Absolute, cycles: 6 },
        0x6F => Instruction { opcode: 0x6F, name: InstrName::ILLEGAL_RRA, mode: AddressingMode::Absolute, cycles: 6 },
        0x70 => Instruction { opcode: 0x70, name: InstrName::BVS, mode: AddressingMode::Relative, cycles: 2 },
        0x71 => Instruction { opcode: 0x71, name: InstrName::ADC, mode: AddressingMode::IndirectY, cycles: 5 },
        0x72 => Instruction { opcode: 0x72, name: InstrName::ILLEGAL_JAM, mode: AddressingMode::Implied, cycles: 1 },
        0x73 => Instruction { opcode: 0x73, name: InstrName::ILLEGAL_RRA, mode: AddressingMode::IndirectY, cycles: 8 },
        0x74 => Instruction { opcode: 0x74, name: InstrName::ILLEGAL_NOP, mode: AddressingMode::ZeroPageX, cycles: 4 },
        0x75 => Instruction { opcode: 0x75, name: InstrName::ADC, mode: AddressingMode::ZeroPageX, cycles: 4 },
        0x76 => Instruction { opcode: 0x76, name: InstrName::ROR, mode: AddressingMode::ZeroPageX, cycles: 6 },
        0x77 => Instruction { opcode: 0x77, name: InstrName::ILLEGAL_RRA, mode: AddressingMode::ZeroPageX, cycles: 6 },
        0x78 => Instruction { opcode: 0x78, name: InstrName::SEI, mode: AddressingMode::Implied, cycles: 2 },
        0x79 => Instruction { opcode: 0x79, name: InstrName::ADC, mode: AddressingMode::AbsoluteY, cycles: 4 },
        0x7A => Instruction { opcode: 0x7A, name: InstrName::ILLEGAL_NOP, mode: AddressingMode::Implied, cycles: 2 },
        0x7B => Instruction { opcode: 0x7B, name: InstrName::ILLEGAL_RRA, mode: AddressingMode::AbsoluteY, cycles: 7 },
        0x7C => Instruction { opcode: 0x7C, name: InstrName::ILLEGAL_NOP, mode: AddressingMode::AbsoluteX, cycles: 4 },
        0x7D => Instruction { opcode: 0x7D, name: InstrName::ADC, mode: AddressingMode::AbsoluteX, cycles: 4 },
        0x7E => Instruction { opcode: 0x7E, name: InstrName::ROR, mode: AddressingMode::AbsoluteX, cycles: 7 },
        0x7F => Instruction { opcode: 0x7F, name: InstrName::ILLEGAL_RRA, mode: AddressingMode::AbsoluteX, cycles: 7 },
        0x80 => Instruction { opcode: 0x80, name: InstrName::ILLEGAL_NOP, mode: AddressingMode::Immediate, cycles: 2 },
        0x81 => Instruction { opcode: 0x81, name: InstrName::STA, mode: AddressingMode::IndirectX, cycles: 6 },
        0x82 => Instruction { opcode: 0x82, name: InstrName::ILLEGAL_NOP, mode: AddressingMode::Immediate, cycles: 2 },
        0x83 => Instruction { opcode: 0x83, name: InstrName::ILLEGAL_SAX, mode: AddressingMode::IndirectX, cycles: 6 },
        0x84 => Instruction { opcode: 0x84, name: InstrName::STY, mode: AddressingMode::ZeroPage, cycles: 3 },
        0x85 => Instruction { opcode: 0x85, name: InstrName::STA, mode: AddressingMode::ZeroPage, cycles: 3 },
        0x86 => Instruction { opcode: 0x86, name: InstrName::STX, mode: AddressingMode::ZeroPage, cycles: 3 },
        0x87 => Instruction { opcode: 0x87, name: InstrName::ILLEGAL_SAX, mode: AddressingMode::ZeroPage, cycles: 3 },
        0x88 => Instruction { opcode: 0x88, name: InstrName::DEY, mode: AddressingMode::Implied, cycles: 2 },
        0x89 => Instruction { opcode: 0x89, name: InstrName::ILLEGAL_NOP, mode: AddressingMode::Immediate, cycles: 2 },
        0x8A => Instruction { opcode: 0x8A, name: InstrName::TXA, mode: AddressingMode::Implied, cycles: 2 },
        0x8B => Instruction { opcode: 0x8B, name: InstrName::ILLEGAL_ANE, mode: AddressingMode::Immediate, cycles: 2 },
        0x8C => Instruction { opcode: 0x8C, name: InstrName::STY, mode: AddressingMode::Absolute, cycles: 4 },
        0x8D => Instruction { opcode: 0x8D, name: InstrName::STA, mode: AddressingMode::Absolute, cycles: 4 },
        0x8E => Instruction { opcode: 0x8E, name: InstrName::STX, mode: AddressingMode::Absolute, cycles: 4 },
        0x8F => Instruction { opcode: 0x8F, name: InstrName::ILLEGAL_SAX, mode: AddressingMode::Absolute, cycles: 4 },
        0x90 => Instruction { opcode: 0x90, name: InstrName::BCC, mode: AddressingMode::Relative, cycles: 2 },
        0x91 => Instruction { opcode: 0x91, name: InstrName::STA, mode: AddressingMode::IndirectY, cycles: 6 },
        0x92 => Instruction { opcode: 0x92, name: InstrName::ILLEGAL_JAM, mode: AddressingMode::Implied, cycles: 1 },
        0x93 => Instruction { opcode: 0x93, name: InstrName::ILLEGAL_SHA, mode: AddressingMode::IndirectY, cycles: 6 },
        0x94 => Instruction { opcode: 0x94, name: InstrName::STY, mode: AddressingMode::ZeroPageX, cycles: 4 },
        0x95 => Instruction { opcode: 0x95, name: InstrName::STA, mode: AddressingMode::ZeroPageX, cycles: 4 },
        0x96 => Instruction { opcode: 0x96, name: InstrName::STX, mode: AddressingMode::ZeroPageY, cycles: 4 },
        0x97 => Instruction { opcode: 0x97, name: InstrName::ILLEGAL_SAX, mode: AddressingMode::ZeroPageY, cycles: 4 },
        0x98 => Instruction { opcode: 0x98, name: InstrName::TYA, mode: AddressingMode::Implied, cycles: 2 },
        0x99 => Instruction { opcode: 0x99, name: InstrName::STA, mode: AddressingMode::AbsoluteY, cycles: 5 },
        0x9A => Instruction { opcode: 0x9A, name: InstrName::TXS, mode: AddressingMode::Implied, cycles: 2 },
        0x9B => Instruction { opcode: 0x9B, name: InstrName::ILLEGAL_TAS, mode: AddressingMode::AbsoluteY, cycles: 5 },
        0x9C => Instruction { opcode: 0x9C, name: InstrName::ILLEGAL_SHY, mode: AddressingMode::AbsoluteX, cycles: 5 },
        0x9D => Instruction { opcode: 0x9D, name: InstrName::STA, mode: AddressingMode::AbsoluteX, cycles: 5 },
        0x9E => Instruction { opcode: 0x9E, name: InstrName::ILLEGAL_SHX, mode: AddressingMode::AbsoluteY, cycles: 5 },
        0x9F => Instruction { opcode: 0x9F, name: InstrName::ILLEGAL_SHA, mode: AddressingMode::AbsoluteY, cycles: 5 },
        0xA0 => Instruction { opcode: 0xA0, name: InstrName::LDY, mode: AddressingMode::Immediate, cycles: 2 },
        0xA1 => Instruction { opcode: 0xA1, name: InstrName::LDA, mode: AddressingMode::IndirectX, cycles: 6 },
        0xA2 => Instruction { opcode: 0xA2, name: InstrName::LDX, mode: AddressingMode::Immediate, cycles: 2 },
        0xA3 => Instruction { opcode: 0xA3, name: InstrName::ILLEGAL_LAX, mode: AddressingMode::IndirectX, cycles: 6 },
        0xA4 => Instruction { opcode: 0xA4, name: InstrName::LDY, mode: AddressingMode::ZeroPage, cycles: 3 },
        0xA5 => Instruction { opcode: 0xA5, name: InstrName::LDA, mode: AddressingMode::ZeroPage, cycles: 3 },
        0xA6 => Instruction { opcode: 0xA6, name: InstrName::LDX, mode: AddressingMode::ZeroPage, cycles: 3 },
        0xA7 => Instruction { opcode: 0xA7, name: InstrName::ILLEGAL_LAX, mode: AddressingMode::ZeroPage, cycles: 3 },
        0xA8 => Instruction { opcode: 0xA8, name: InstrName::TAY, mode: AddressingMode::Implied, cycles: 2 },
        0xA9 => Instruction { opcode: 0xA9, name: InstrName::LDA, mode: AddressingMode::Immediate, cycles: 2 },
        0xAA => Instruction { opcode: 0xAA, name: InstrName::TAX, mode: AddressingMode::Implied, cycles: 2 },
        0xAB => Instruction { opcode: 0xAB, name: InstrName::ILLEGAL_LXA, mode: AddressingMode::Immediate, cycles: 2 },
        0xAC => Instruction { opcode: 0xAC, name: InstrName::LDY, mode: AddressingMode::Absolute, cycles: 4 },
        0xAD => Instruction { opcode: 0xAD, name: InstrName::LDA, mode: AddressingMode::Absolute, cycles: 4 },
        0xAE => Instruction { opcode: 0xAE, name: InstrName::LDX, mode: AddressingMode::Absolute, cycles: 4 },
        0xAF => Instruction { opcode: 0xAF, name: InstrName::ILLEGAL_LAX, mode: AddressingMode::Absolute, cycles: 4 },
        0xB0 => Instruction { opcode: 0xB0, name: InstrName::BCS, mode: AddressingMode::Relative, cycles: 2 },
        0xB1 => Instruction { opcode: 0xB1, name: InstrName::LDA, mode: AddressingMode::IndirectY, cycles: 5 },
        0xB2 => Instruction { opcode: 0xB2, name: InstrName::ILLEGAL_JAM, mode: AddressingMode::Implied, cycles: 1 },
        0xB3 => Instruction { opcode: 0xB3, name: InstrName::ILLEGAL_LAX, mode: AddressingMode::IndirectY, cycles: 5 },
        0xB4 => Instruction { opcode: 0xB4, name: InstrName::LDY, mode: AddressingMode::ZeroPageX, cycles: 4 },
        0xB5 => Instruction { opcode: 0xB5, name: InstrName::LDA, mode: AddressingMode::ZeroPageX, cycles: 4 },
        0xB6 => Instruction { opcode: 0xB6, name: InstrName::LDX, mode: AddressingMode::ZeroPageY, cycles: 4 },
        0xB7 => Instruction { opcode: 0xB7, name: InstrName::ILLEGAL_LAX, mode: AddressingMode::ZeroPageY, cycles: 4 },
        0xB8 => Instruction { opcode: 0xB8, name: InstrName::CLV, mode: AddressingMode::Implied, cycles: 2 },
        0xB9 => Instruction { opcode: 0xB9, name: InstrName::LDA, mode: AddressingMode::AbsoluteY, cycles: 4 },
        0xBA => Instruction { opcode: 0xBA, name: InstrName::TSX, mode: AddressingMode::Implied, cycles: 2 },
        0xBB => Instruction { opcode: 0xBB, name: InstrName::ILLEGAL_LAS, mode: AddressingMode::AbsoluteY, cycles: 4 },
        0xBC => Instruction { opcode: 0xBC, name: InstrName::LDY, mode: AddressingMode::AbsoluteX, cycles: 4 },
        0xBD => Instruction { opcode: 0xBD, name: InstrName::LDA, mode: AddressingMode::AbsoluteX, cycles: 4 },
        0xBE => Instruction { opcode: 0xBE, name: InstrName::LDX, mode: AddressingMode::AbsoluteY, cycles: 4 },
        0xBF => Instruction { opcode: 0xBF, name: InstrName::ILLEGAL_LAX, mode: AddressingMode::AbsoluteY, cycles: 4 },
        0xC0 => Instruction { opcode: 0xC0, name: InstrName::CPY, mode: AddressingMode::Immediate, cycles: 2 },
        0xC1 => Instruction { opcode: 0xC1, name: InstrName::CMP, mode: AddressingMode::IndirectX, cycles: 6 },
        0xC2 => Instruction { opcode: 0xC2, name: InstrName::ILLEGAL_NOP, mode: AddressingMode::Immediate, cycles: 2 },
        0xC3 => Instruction { opcode: 0xC3, name: InstrName::ILLEGAL_DCP, mode: AddressingMode::IndirectX, cycles: 8 },
        0xC4 => Instruction { opcode: 0xC4, name: InstrName::CPY, mode: AddressingMode::ZeroPage, cycles: 3 },
        0xC5 => Instruction { opcode: 0xC5, name: InstrName::CMP, mode: AddressingMode::ZeroPage, cycles: 3 },
        0xC6 => Instruction { opcode: 0xC6, name: InstrName::DEC, mode: AddressingMode::ZeroPage, cycles: 5 },
        0xC7 => Instruction { opcode: 0xC7, name: InstrName::ILLEGAL_DCP, mode: AddressingMode::ZeroPage, cycles: 5 },
        0xC8 => Instruction { opcode: 0xC8, name: InstrName::INY, mode: AddressingMode::Implied, cycles: 2 },
        0xC9 => Instruction { opcode: 0xC9, name: InstrName::CMP, mode: AddressingMode::Immediate, cycles: 2 },
        0xCA => Instruction { opcode: 0xCA, name: InstrName::DEX, mode: AddressingMode::Implied, cycles: 2 },
        0xCB => Instruction { opcode: 0xCB, name: InstrName::ILLEGAL_SBX, mode: AddressingMode::Immediate, cycles: 2 },
        0xCC => Instruction { opcode: 0xCC, name: InstrName::CPY, mode: AddressingMode::Absolute, cycles: 4 },
        0xCD => Instruction { opcode: 0xCD, name: InstrName::CMP, mode: AddressingMode::Absolute, cycles: 4 },
        0xCE => Instruction { opcode: 0xCE, name: InstrName::DEC, mode: AddressingMode::Absolute, cycles: 6 },
        0xCF => Instruction { opcode: 0xCF, name: InstrName::ILLEGAL_DCP, mode: AddressingMode::Absolute, cycles: 6 },
        0xD0 => Instruction { opcode: 0xD0, name: InstrName::BNE, mode: AddressingMode::Relative, cycles: 2 },
        0xD1 => Instruction { opcode: 0xD1, name: InstrName::CMP, mode: AddressingMode::IndirectY, cycles: 5 },
        0xD2 => Instruction { opcode: 0xD2, name: InstrName::ILLEGAL_JAM, mode: AddressingMode::Implied, cycles: 1 },
        0xD3 => Instruction { opcode: 0xD3, name: InstrName::ILLEGAL_DCP, mode: AddressingMode::IndirectY, cycles: 8 },
        0xD4 => Instruction { opcode: 0xD4, name: InstrName::ILLEGAL_NOP, mode: AddressingMode::ZeroPageX, cycles: 4 },
        0xD5 => Instruction { opcode: 0xD5, name: InstrName::CMP, mode: AddressingMode::ZeroPageX, cycles: 4 },
        0xD6 => Instruction { opcode: 0xD6, name: InstrName::DEC, mode: AddressingMode::ZeroPageX, cycles: 6 },
        0xD7 => Instruction { opcode: 0xD7, name: InstrName::ILLEGAL_DCP, mode: AddressingMode::ZeroPageX, cycles: 6 },
        0xD8 => Instruction { opcode: 0xD8, name: InstrName::CLD, mode: AddressingMode::Implied, cycles: 2 },
        0xD9 => Instruction { opcode: 0xD9, name: InstrName::CMP, mode: AddressingMode::AbsoluteY, cycles: 4 },
        0xDA => Instruction { opcode: 0xDA, name: InstrName::ILLEGAL_NOP, mode: AddressingMode::Implied, cycles: 2 },
        0xDB => Instruction { opcode: 0xDB, name: InstrName::ILLEGAL_DCP, mode: AddressingMode::AbsoluteY, cycles: 7 },
        0xDC => Instruction { opcode: 0xDC, name: InstrName::ILLEGAL_NOP, mode: AddressingMode::AbsoluteX, cycles: 4 },
        0xDD => Instruction { opcode: 0xDD, name: InstrName::CMP, mode: AddressingMode::AbsoluteX, cycles: 4 },
        0xDE => Instruction { opcode: 0xDE, name: InstrName::DEC, mode: AddressingMode::AbsoluteX, cycles: 7 },
        0xDF => Instruction { opcode: 0xDF, name: InstrName::ILLEGAL_DCP, mode: AddressingMode::AbsoluteX, cycles: 7 },
        0xE0 => Instruction { opcode: 0xE0, name: InstrName::CPX, mode: AddressingMode::Immediate, cycles: 2 },
        0xE1 => Instruction { opcode: 0xE1, name: InstrName::SBC, mode: AddressingMode::IndirectX, cycles: 6 },
        0xE2 => Instruction { opcode: 0xE2, name: InstrName::ILLEGAL_NOP, mode: AddressingMode::Immediate, cycles: 2 },
        0xE3 => Instruction { opcode: 0xE3, name: InstrName::ILLEGAL_ISC, mode: AddressingMode::IndirectX, cycles: 8 },
        0xE4 => Instruction { opcode: 0xE4, name: InstrName::CPX, mode: AddressingMode::ZeroPage, cycles: 3 },
        0xE5 => Instruction { opcode: 0xE5, name: InstrName::SBC, mode: AddressingMode::ZeroPage, cycles: 3 },
        0xE6 => Instruction { opcode: 0xE6, name: InstrName::INC, mode: AddressingMode::ZeroPage, cycles: 5 },
        0xE7 => Instruction { opcode: 0xE7, name: InstrName::ILLEGAL_ISC, mode: AddressingMode::ZeroPage, cycles: 5 },
        0xE8 => Instruction { opcode: 0xE8, name: InstrName::INX, mode: AddressingMode::Implied, cycles: 2 },
        0xE9 => Instruction { opcode: 0xE9, name: InstrName::SBC, mode: AddressingMode::Immediate, cycles: 2 },
        0xEA => Instruction { opcode: 0xEA, name: InstrName::NOP, mode: AddressingMode::Implied, cycles: 2 },
        0xEB => Instruction { opcode: 0xEB, name: InstrName::ILLEGAL_USBC, mode: AddressingMode::Immediate, cycles: 2 },
        0xEC => Instruction { opcode: 0xEC, name: InstrName::CPX, mode: AddressingMode::Absolute, cycles: 4 },
        0xED => Instruction { opcode: 0xED, name: InstrName::SBC, mode: AddressingMode::Absolute, cycles: 4 },
        0xEE => Instruction { opcode: 0xEE, name: InstrName::INC, mode: AddressingMode::Absolute, cycles: 6 },
        0xEF => Instruction { opcode: 0xEF, name: InstrName::ILLEGAL_ISC, mode: AddressingMode::Absolute, cycles: 6 },
        0xF0 => Instruction { opcode: 0xF0, name: InstrName::BEQ, mode: AddressingMode::Relative, cycles: 2 },
        0xF1 => Instruction { opcode: 0xF1, name: InstrName::SBC, mode: AddressingMode::IndirectY, cycles: 5 },
        0xF2 => Instruction { opcode: 0xF2, name: InstrName::ILLEGAL_JAM, mode: AddressingMode::Implied, cycles: 1 },
        0xF3 => Instruction { opcode: 0xF3, name: InstrName::ILLEGAL_ISC, mode: AddressingMode::IndirectY, cycles: 8 },
        0xF4 => Instruction { opcode: 0xF4, name: InstrName::ILLEGAL_NOP, mode: AddressingMode::ZeroPageX, cycles: 4 },
        0xF5 => Instruction { opcode: 0xF5, name: InstrName::SBC, mode: AddressingMode::ZeroPageX, cycles: 4 },
        0xF6 => Instruction { opcode: 0xF6, name: InstrName::INC, mode: AddressingMode::ZeroPageX, cycles: 6 },
        0xF7 => Instruction { opcode: 0xF7, name: InstrName::ILLEGAL_ISC, mode: AddressingMode::ZeroPageX, cycles: 6 },
        0xF8 => Instruction { opcode: 0xF8, name: InstrName::SED, mode: AddressingMode::Implied, cycles: 2 },
        0xF9 => Instruction { opcode: 0xF9, name: InstrName::SBC, mode: AddressingMode::AbsoluteY, cycles: 4 },
        0xFA => Instruction { opcode: 0xFA, name: InstrName::ILLEGAL_NOP, mode: AddressingMode::Implied, cycles: 2 },
        0xFB => Instruction { opcode: 0xFB, name: InstrName::ILLEGAL_ISC, mode: AddressingMode::AbsoluteY, cycles: 7 },
        0xFC => Instruction { opcode: 0xFC, name: InstrName::ILLEGAL_NOP, mode: AddressingMode::AbsoluteX, cycles: 4 },
        0xFD => Instruction { opcode: 0xFD, name: InstrName::SBC, mode: AddressingMode::AbsoluteX, cycles: 4 },
        0xFE => Instruction { opcode: 0xFE, name: InstrName::INC, mode: AddressingMode::AbsoluteX, cycles: 7 },
        0xFF => Instruction { opcode: 0xFF, name: InstrName::ILLEGAL_ISC, mode: AddressingMode::AbsoluteX, cycles: 7 },
    }
}

/// Whether the instruction is one of the eight conditional branches.
pub fn is_branch(inst: &Instruction) -> (r: bool)
    ensures
        r == is_branch_name(inst.name),
{
    match inst.name() {
        InstrName::BPL | InstrName::BMI | InstrName::BVC | InstrName::BVS | InstrName::BCC
        | InstrName::BCS | InstrName::BNE | InstrName::BEQ => true,
        _ => false,
    }
}

impl InstrName {
    /// The mnemonic the instruction is listed under in a trace, `*` marking the undocumented
    /// opcodes that have no common mnemonic.
    pub open spec fn spec_mnemonic(self) -> Seq<char> {
        match self {
            InstrName::ORA => "ORA"@,
            InstrName::AND => "AND"@,
            InstrName::EOR => "EOR"@,
            InstrName::ADC => "ADC"@,
            InstrName::STA => "STA"@,
            InstrName::LDA => "LDA"@,
            InstrName::CMP => "CMP"@,
            InstrName::SBC => "SBC"@,
            InstrName::ASL => "ASL"@,
            InstrName::ROL => "ROL"@,
            InstrName::LSR => "LSR"@,
            InstrName::ROR => "ROR"@,
            InstrName::STX => "STX"@,
            InstrName::LDX => "LDX"@,
            InstrName::DEC => "DEC"@,
            InstrName::INC => "INC"@,
            InstrName::BIT => "BIT"@,
            InstrName::JMP => "JMP"@,
            InstrName::STY => "STY"@,
            InstrName::LDY => "LDY"@,
            InstrName::CPY => "CPY"@,
            InstrName::CPX => "CPX"@,
            InstrName::BPL => "BPL"@,
            InstrName::BMI => "BMI"@,
            InstrName::BVC => "BVC"@,
            InstrName::BVS => "BVS"@,
            InstrName::BCC => "BCC"@,
            InstrName::BCS => "BCS"@,
            InstrName::BNE => "BNE"@,
            InstrName::BEQ => "BEQ"@,
            InstrName::BRK => "BRK"@,
            InstrName::JSR => "JSR"@,
            InstrName::RTI => "RTI"@,
            InstrName::RTS => "RTS"@,
            InstrName::NOP => "NOP"@,
            InstrName::TYA => "TYA"@,
            InstrName::TXA => "TXA"@,
            InstrName::TAY => "TAY"@,
            InstrName::TAX => "TAX"@,
            InstrName::TXS => "TXS"@,
            InstrName::TSX => "TSX"@,
            InstrName::PLP => "PLP"@,
            InstrName::PLA => "PLA"@,
            InstrName::PHP => "PHP"@,
            InstrName::PHA => "PHA"@,
            InstrName::INX => "INX"@,
            InstrName::INY => "INY"@,
            InstrName::DEX => "DEX"@,
            InstrName::DEY => "DEY"@,
            InstrName::SEI => "SEI"@,
            InstrName::SED => "SED"@,
            InstrName::SEC => "SEC"@,
            InstrName::CLV => "CLV"@,
            InstrName::CLI => "CLI"@,
            InstrName::CLC => "CLC"@,
            InstrName::CLD => "CLD"@,
            InstrName::ILLEGAL_NOP => "NOP"@,
            InstrName::ILLEGAL_JAM => "*JAM"@,
            InstrName::ILLEGAL_SLO => "SLO"@,
            InstrName::ILLEGAL_RLA => "RLA"@,
            InstrName::ILLEGAL_SRE => "SRE"@,
            InstrName::ILLEGAL_RRA => "RRA"@,
            InstrName::ILLEGAL_SAX => "SAX"@,
            InstrName::ILLEGAL_SHA => "*SHA"@,
            InstrName::ILLEGAL_LAX => "LAX"@,
            InstrName::ILLEGAL_DCP => "DCP"@,
            InstrName::ILLEGAL_ISC => "ISB"@,
            InstrName::ILLEGAL_ANC => "*ANC"@,
            InstrName::ILLEGAL_ALR => "*ALR"@,
            InstrName::ILLEGAL_ARR => "*ARR"@,
            InstrName::ILLEGAL_ANE => "*ANE"@,
            InstrName::ILLEGAL_TAS => "*TAS"@,
            InstrName::ILLEGAL_LXA => "*LXA"@,
            InstrName::ILLEGAL_LAS => "*LAS"@,
            InstrName::ILLEGAL_SBX => "*SBX"@,
            InstrName::ILLEGAL_USBC => "SBC"@,
            InstrName::ILLEGAL_SHY => "*SHY"@,
            InstrName::ILLEGAL_SHX => "*SHX"@,
        }
    }

    /// The mnemonic the instruction is listed under in a trace.
    pub fn mnemonic(&self) -> (r: &'static str)
        ensures
            r@ == self.spec_mnemonic(),
    {
        match self {
            InstrName::ORA => "ORA",
            InstrName::AND => "AND",
            InstrName::EOR => "EOR",
            InstrName::ADC => "ADC",
            InstrName::STA => "STA",
            InstrName::LDA => "LDA",
            InstrName::CMP => "CMP",
            InstrName::SBC => "SBC",
            InstrName::ASL => "ASL",
            InstrName::ROL => "ROL",
            InstrName::LSR => "LSR",
            InstrName::ROR => "ROR",
            InstrName::STX => "STX",
            InstrName::LDX => "LDX",
            InstrName::DEC => "DEC",
            InstrName::INC => "INC",
            InstrName::BIT => "BIT",
            InstrName::JMP => "JMP",
            InstrName::STY => "STY",
            InstrName::LDY => "LDY",
            InstrName::CPY => "CPY",
            InstrName::CPX => "CPX",
            InstrName::BPL => "BPL",
            InstrName::BMI => "BMI",
            InstrName::BVC => "BVC",
            InstrName::BVS => "BVS",
            InstrName::BCC => "BCC",
            InstrName::BCS => "BCS",
            InstrName::BNE => "BNE",
            InstrName::BEQ => "BEQ",
            InstrName::BRK => "BRK",
            InstrName::JSR => "JSR",
            InstrName::RTI => "RTI",
            InstrName::RTS => "RTS",
            InstrName::NOP => "NOP",
            InstrName::TYA => "TYA",
            InstrName::TXA => "TXA",
            InstrName::TAY => "TAY",
            InstrName::TAX => "TAX",
            InstrName::TXS => "TXS",
            InstrName::TSX => "TSX",
            InstrName::PLP => "PLP",
            InstrName::PLA => "PLA",
            InstrName::PHP => "PHP",
            InstrName::PHA => "PHA",
            InstrName::INX => "INX",
            InstrName::INY => "INY",
            InstrName::DEX => "DEX",
            InstrName::DEY => "DEY",
            InstrName::SEI => "SEI",
            InstrName::SED => "SED",
            InstrName::SEC => "SEC",
            InstrName::CLV => "CLV",
            InstrName::CLI => "CLI",
            InstrName::CLC => "CLC",
            InstrName::CLD => "CLD",
            InstrName::ILLEGAL_NOP => "NOP",
            InstrName::ILLEGAL_JAM => "*JAM",
            InstrName::ILLEGAL_SLO => "SLO",
            InstrName::ILLEGAL_RLA => "RLA",
            InstrName::ILLEGAL_SRE => "SRE",
            InstrName::ILLEGAL_RRA => "RRA",
            InstrName::ILLEGAL_SAX => "SAX",
            InstrName::ILLEGAL_SHA => "*SHA",
            InstrName::ILLEGAL_LAX => "LAX",
            InstrName::ILLEGAL_DCP => "DCP",
            InstrName::ILLEGAL_ISC => "ISB",
            InstrName::ILLEGAL_ANC => "*ANC",
            InstrName::ILLEGAL_ALR => "*ALR",
            InstrName::ILLEGAL_ARR => "*ARR",
            InstrName::ILLEGAL_ANE => "*ANE",
            InstrName::ILLEGAL_TAS => "*TAS",
            InstrName::ILLEGAL_LXA => "*LXA",
            InstrName::ILLEGAL_LAS => "*LAS",
            InstrName::ILLEGAL_SBX => "*SBX",
            InstrName::ILLEGAL_USBC => "SBC",
            InstrName::ILLEGAL_SHY => "*SHY",
            InstrName::ILLEGAL_SHX => "*SHX",
        }
    }
}

impl Instruction {
    pub open spec fn nop_spec() -> Instruction {
        Instruction { opcode: 0, name: InstrName::NOP, mode: AddressingMode::Implied, cycles: 0 }
    }

    pub fn new(opcode: u8, name: InstrName, mode: AddressingMode, cycles: u8) -> (r: Instruction)
        ensures
            r == (Instruction { opcode, name, mode, cycles }),
    {
        Instruction { opcode, name, mode, cycles }
    }

    /// The instruction that does nothing and takes no time; it stands for "no instruction yet".
    pub fn nop() -> (r: Instruction)
        ensures
            r == Instruction::nop_spec(),
    {
        Instruction { opcode: 0, name: InstrName::NOP, mode: AddressingMode::Implied, cycles: 0 }
    }

    pub fn opcode(&self) -> (r: u8)
        ensures
            r == self.opcode,
    {
        self.opcode
    }

    pub fn mode(&self) -> (r: &AddressingMode)
        ensures
            *r == self.mode,
    {
        &self.mode
    }

    pub fn name(&self) -> (r: &InstrName)
        ensures
            *r == self.name,
    {
        &self.name
    }

    pub fn cycles(&self) -> (r: u8)
        ensures
            r == self.cycles,
    {
        self.cycles
    }

    /// Number of bytes the instruction occupies, the opcode included.
    pub fn size(&self) -> (r: u16)
        ensures
            r == mode_size(self.mode),
            1 <= r <= 3,
    {
        match self.mode() {
            AddressingMode::ZeroPage | AddressingMode::ZeroPageX | AddressingMode::ZeroPageY => 2,
            AddressingMode::IndirectY | AddressingMode::IndirectX | AddressingMode::Relative
            | AddressingMode::Immediate => 2,
            AddressingMode::Indirect | AddressingMode::Absolute | AddressingMode::AbsoluteX
            | AddressingMode::AbsoluteY => 3,
            AddressingMode::Accumulator | AddressingMode::Implied => 1,
        }
    }
}

} // verus!
