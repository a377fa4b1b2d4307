//! The first CPU core: a 6502 that runs one bus cycle per clock, with the status flags at
//! their own bit positions and the stack growing upwards.
//!
//! References:
//! https://en.wikipedia.org/wiki/MOS_Technology_6502#Registers
//! http://nparker.llx.com/a2/opcodes.html
//! https://www.masswerk.at/6502/6502_instruction_set.html
//!
//! - Branch instructions are a signed 8-bit offset from the address of the instruction following
//!   the branch
//! - Accumulator mode uses the accumulator as an effective address and does not need any
//!   operand data
//! - Immediate mode uses an 8-bit literal operand
//! - With the 5/6 cycle "(indirect),y" mode, the 8-bit Y register is added to a 16-bit base
//!   address read from zero page, which is located by a single byte following the opcode
//! - "(indirect,x)" mode the effective address for the operation is found at the zero page
//!   address formed by adding the second byte of the instruction to the contents of the X
//!   register
use crate::common::{reads_word_at, Bus, Clocked, RESET_VECTOR_START};
use crate::instructions::{
    entry_ok, get_from, instruction_table, lemma_table_entries_ok, AddressingMode, InstrName,
    Instruction,
};
use vstd::prelude::*;

verus! {

pub const STACK_BEGIN: u16 = 0x0100;

/// `flags` with bit `idx` set to `bit`.
pub open spec fn set_bit(flags: u8, bit: bool, idx: u8) -> u8 {
    ((flags & !(1u8 << idx)) | ((if bit {
        1u8
    } else {
        0u8
    }) << idx)) as u8
}

/// Whether bit `idx` of `flags` is set.
pub open spec fn bit_of(flags: u8, idx: u8) -> bool {
    flags & (1u8 << idx) != 0
}

/// Setting a flag leaves it at the value set and every other flag as it was.
pub proof fn lemma_set_bit(flags: u8, bit: bool, idx: u8, other: u8)
    by (bit_vector)
    requires
        idx < 8,
        other < 8,
        other != idx,
    ensures
        bit_of(set_bit(flags, bit, idx), idx) == bit,
        bit_of(set_bit(flags, bit, idx), other) == bit_of(flags, other),
{
}

#[derive(Copy, Clone, Debug, PartialEq, Eq, Structural)]
pub struct Status {
    pub flags: u8,
}

impl Status {
    pub const NEGATIVE: u8 = 5;
    pub const ZERO: u8 = 4;
    pub const CARRY: u8 = 3;
    pub const IRQ: u8 = 2;
    pub const DECIMAL: u8 = 1;
    pub const OVERFLOW: u8 = 0;

    pub fn set(&mut self, bit: bool, idx: u8)
        requires
            idx < 8,
        ensures
            final(self).flags == set_bit(old(self).flags, bit, idx),
    {
        let b: u8 = if bit {
            1
        } else {
            0
        };
        self.flags = (self.flags & !(1u8 << idx)) | (b << idx);
    }

    pub fn get(&self, idx: u8) -> (r: bool)
        requires
            idx < 8,
        ensures
            r == bit_of(self.flags, idx),
    {
        (self.flags & (1u8 << idx)) != 0
    }

    pub fn from_flags(flags: u8) -> (r: Status)
        ensures
            r.flags == flags,
    {
        Status { flags }
    }

    pub fn to_u8(self) -> (r: u8)
        ensures
            r == self.flags,
    {
        self.flags
    }
}

pub struct Ricoh2A03 {
    // CPU State
    pub pc: u16,
    pub acc: u8,
    pub x: u8,
    pub y: u8,
    pub sp: u8,
    pub status: Status,
    pub noop_cycles: u8,
    pub cycle: usize,
}

/// A CPU connected to a bus for the length of one operation.
pub struct ConnectedCPU<'a, BusType: Bus> {
    pub cpu: &'a mut Ricoh2A03,
    pub bus: &'a mut BusType,
}

pub open spec fn spec_is_negative(v: u8) -> bool {
    v & 0x80 != 0
}

pub fn is_negative(v: u8) -> (r: bool)
    ensures
        r == spec_is_negative(v),
{
    (v & 0x80) != 0
}

pub open spec fn spec_crosses_page(src: u16, dst: u16) -> bool {
    (src & 0xFF00) ^ (dst & 0xFF00) != 0
}

/// If the address is on a separate page, return true
pub fn crosses_page(src: u16, dst: u16) -> (r: bool)
    ensures
        r == spec_crosses_page(src, dst),
{
    ((src & 0xFF00) ^ (dst & 0xFF00)) != 0
}

/// Where a branch by the signed offset `dst` from `pc` lands.
pub open spec fn branch_dest(pc: u16, dst: u8) -> u16 {
    if spec_is_negative(dst) {
        pc.wrapping_sub(0u8.wrapping_sub(dst) as u16)
    } else {
        pc.wrapping_add(dst as u16)
    }
}

/// The bytes that follow the opcode for each addressing mode.
pub open spec fn operand_bytes(mode: AddressingMode) -> u16 {
    match mode {
        AddressingMode::ZeroPage | AddressingMode::ZeroPageX | AddressingMode::ZeroPageY
        | AddressingMode::IndirectX | AddressingMode::IndirectY | AddressingMode::Immediate
        | AddressingMode::Relative => 1,
        AddressingMode::Absolute | AddressingMode::AbsoluteX | AddressingMode::AbsoluteY
        | AddressingMode::Indirect => 2,
        AddressingMode::Accumulator | AddressingMode::Invalid => 0,
    }
}

/// `a` is the operand address of a memory mode for `cpu`, read through the bytes at the PC
/// from `b`, which those reads leave as `next`. Zero page indexing does not wrap in the zero
/// page here, and the indirect JMP pointer's high byte is read from the next address.
pub open spec fn addressed<B: Bus>(mode: AddressingMode, cpu: Ricoh2A03, b: B, a: u16, next: B) -> bool {
    let ptr = cpu.pc as usize;
    match mode {
        AddressingMode::ZeroPage => exists|v: u8| #[trigger] b.reads(ptr, v, next) && a == v as u16,
        AddressingMode::ZeroPageX => exists|v: u8|
            #[trigger] b.reads(ptr, v, next) && a == (v as u16).wrapping_add(cpu.x as u16),
        AddressingMode::ZeroPageY => exists|v: u8|
            #[trigger] b.reads(ptr, v, next) && a == (v as u16).wrapping_add(cpu.y as u16),
        AddressingMode::Absolute => reads_word_at(b, ptr, a, next),
        AddressingMode::AbsoluteX => exists|base: u16|
            #[trigger] reads_word_at(b, ptr, base, next) && a == base.wrapping_add(cpu.x as u16),
        AddressingMode::AbsoluteY => exists|base: u16|
            #[trigger] reads_word_at(b, ptr, base, next) && a == base.wrapping_add(cpu.y as u16),
        AddressingMode::Indirect => exists|p: u16, mid: B|
            #[trigger] reads_word_at(b, ptr, p, mid) && reads_word_at(mid, p as usize, a, next),
        AddressingMode::IndirectX => exists|v: u8, mid: B|
            #[trigger] b.reads(ptr, v, mid) && reads_word_at(mid, v.wrapping_add(cpu.x) as usize, a, next),
        AddressingMode::IndirectY => exists|v: u8, mid: B, base: u16|
            #![trigger b.reads(ptr, v, mid), reads_word_at(mid, v as usize, base, next)]
            b.reads(ptr, v, mid) && reads_word_at(mid, v as usize, base, next) && a == base.wrapping_add(
                cpu.y as u16,
            ),
        _ => a == 0 && next == b,
    }
}

/// Reading the operand of `mode` for `cpu` from the bus `b` gives `v` and leaves the bus as
/// `next`: the accumulator, a read of the byte at the PC, or a read at the effective
/// address that the bytes at the PC give.
pub open spec fn operand_read<B: Bus>(mode: AddressingMode, cpu: Ricoh2A03, b: B, v: u8, next: B) -> bool {
    match mode {
        AddressingMode::Accumulator => v == cpu.acc && next == b,
        AddressingMode::Immediate | AddressingMode::Relative => b.reads(cpu.pc as usize, v, next),
        AddressingMode::Invalid => next == b,
        _ => exists|a: u16, mid: B|
            #![trigger addressed(mode, cpu, b, a, mid)]
            addressed(mode, cpu, b, a, mid) && mid.reads(a as usize, v, next),
    }
}

/// Storing `val` where `mode` puts results, for `cpu` on the bus `b`, leaves the bus as
/// `next`: nothing for the accumulator, else a write at the effective address.
pub open spec fn stored_at<B: Bus>(mode: AddressingMode, cpu: Ricoh2A03, b: B, val: u8, next: B) -> bool {
    if mode == AddressingMode::Accumulator {
        next == b
    } else {
        exists|a: u16, mid: B|
            #![trigger addressed(mode, cpu, b, a, mid)]
            addressed(mode, cpu, b, a, mid) && mid.writes(a as usize, val, next)
    }
}

/// A read-modify-write: reading the operand gives `v` and storing `val` back takes the bus
/// `b` to `next`.
pub open spec fn modified_at<B: Bus>(mode: AddressingMode, cpu: Ricoh2A03, b: B, v: u8, val: u8, next: B) -> bool {
    exists|mid: B|
        #![trigger operand_read(mode, cpu, b, v, mid)]
        operand_read(mode, cpu, b, v, mid) && stored_at(mode, cpu, mid, val, next)
}

/// Pushing the word `w` with the stack pointer at `sp` (high byte first, the stack growing
/// up) takes `b` to `next`.
pub open spec fn pushed_word<B: Bus>(sp: u8, b: B, w: u16, next: B) -> bool {
    exists|mid: B|
        #![trigger b.writes(spec_stack_addr(sp), (w >> 8u16) as u8, mid)]
        b.writes(spec_stack_addr(sp), (w >> 8u16) as u8, mid) && mid.writes(
            spec_stack_addr(sp.wrapping_add(1)),
            (0xFF & w) as u8,
            next,
        )
}

/// Pulling a word with the stack pointer at `sp` (low byte first) gives `w` and takes `b`
/// to `next`.
pub open spec fn pulled_word<B: Bus>(sp: u8, b: B, w: u16, next: B) -> bool {
    exists|mid: B, lo: u8, hi: u8|
        #![trigger b.reads(spec_stack_addr(sp.wrapping_sub(1)), lo, mid), mid.reads(spec_stack_addr(sp.wrapping_sub(1).wrapping_sub(1)), hi, next)]
        b.reads(spec_stack_addr(sp.wrapping_sub(1)), lo, mid) && mid.reads(
            spec_stack_addr(sp.wrapping_sub(1).wrapping_sub(1)),
            hi,
            next,
        ) && w == ((hi as u16) << 8u16) | (lo as u16)
}

/// What the operation `name` in `mode` does to the bus for `cpu` (on the byte after the
/// opcode), taking `b` to `next`, where `v` is the byte and `w` the word it works on: the
/// operand read; the read and write-back of a read-modify-write; a store; the stack
/// accesses of a push, a pull, a call, a return or a break; the target read of a jump;
/// nothing for the others.
pub open spec fn bus_step<B: Bus>(name: InstrName, mode: AddressingMode, cpu: Ricoh2A03, b: B, v: u8, w: u16, next: B) -> bool {
    let cin: u8 = if cpu.flag(3) {
        1
    } else {
        0
    };
    match name {
        InstrName::BPL | InstrName::BMI | InstrName::BVC | InstrName::BVS | InstrName::BCC
        | InstrName::BCS | InstrName::BNE | InstrName::BEQ | InstrName::ADC | InstrName::AND
        | InstrName::BIT | InstrName::CMP | InstrName::CPX | InstrName::CPY | InstrName::EOR
        | InstrName::LDA | InstrName::LDX | InstrName::LDY | InstrName::ORA | InstrName::SBC
            => operand_read(mode, cpu, b, v, next),
        InstrName::ASL => modified_at(mode, cpu, b, v, v << 1u8, next),
        InstrName::LSR => modified_at(mode, cpu, b, v, v >> 1u8, next),
        InstrName::ROL => modified_at(mode, cpu, b, v, (v << 1u8) | cin, next),
        InstrName::ROR => modified_at(mode, cpu, b, v, (v >> 1u8) | (cin << 7u8), next),
        InstrName::INC => modified_at(mode, cpu, b, v, v.wrapping_add(1), next),
        InstrName::DEC => modified_at(mode, cpu, b, v, v.wrapping_sub(1), next),
        InstrName::STA => stored_at(mode, cpu, b, cpu.acc, next),
        InstrName::STX => stored_at(mode, cpu, b, cpu.x, next),
        InstrName::STY => stored_at(mode, cpu, b, cpu.y, next),
        InstrName::PHA => b.writes(spec_stack_addr(cpu.sp), cpu.acc, next),
        InstrName::PHP => b.writes(spec_stack_addr(cpu.sp), cpu.status.flags, next),
        InstrName::PLA | InstrName::PLP => b.reads(spec_stack_addr(cpu.sp.wrapping_sub(1)), v, next),
        InstrName::JMP => exists|a: u16, mid: B|
            #![trigger addressed(mode, cpu, b, a, mid)]
            addressed(mode, cpu, b, a, mid) && reads_word_at(mid, a as usize, w, next),
        InstrName::JSR => exists|m1: B, a: u16, m2: B|
            #![trigger pushed_word(cpu.sp, b, cpu.pc, m1), addressed(mode, cpu.sp_plus(2), m1, a, m2)]
            pushed_word(cpu.sp, b, cpu.pc, m1) && addressed(mode, cpu.sp_plus(2), m1, a, m2)
                && reads_word_at(m2, a as usize, w, next),
        InstrName::RTS => pulled_word(cpu.sp, b, w, next),
        InstrName::RTI => exists|m: B|
            #![trigger b.reads(spec_stack_addr(cpu.sp.wrapping_sub(1)), v, m)]
            b.reads(spec_stack_addr(cpu.sp.wrapping_sub(1)), v, m) && pulled_word(
                cpu.sp.wrapping_sub(1),
                m,
                w,
                next,
            ),
        InstrName::BRK => exists|m: B|
            #![trigger pushed_word(cpu.sp, b, cpu.pc.wrapping_add(2), m)]
            pushed_word(cpu.sp, b, cpu.pc.wrapping_add(2), m) && m.writes(
                spec_stack_addr(cpu.sp.wrapping_add(2)),
                cpu.status.flags,
                next,
            ),
        _ => next == b,
    }
}

/// `v` is the operand of `mode` for `cpu` on the bus `b`: the accumulator, a read of the
/// byte at the PC, or a read at the effective address that the bytes at the PC give.
pub open spec fn operand_at<B: Bus>(mode: AddressingMode, cpu: Ricoh2A03, b: B, v: u8) -> bool {
    match mode {
        AddressingMode::Accumulator => v == cpu.acc,
        AddressingMode::Immediate | AddressingMode::Relative => exists|nb: B|
            #[trigger] b.reads(cpu.pc as usize, v, nb),
        AddressingMode::Invalid => true,
        _ => exists|a: u16, mid: B, nb: B|
            #![trigger addressed(mode, cpu, b, a, mid), mid.reads(a as usize, v, nb)]
            addressed(mode, cpu, b, a, mid) && mid.reads(a as usize, v, nb),
    }
}

/// The operations whose byte is their operand (see `operand_at`).
pub open spec fn takes_operand(name: InstrName) -> bool {
    match name {
        InstrName::BPL | InstrName::BMI | InstrName::BVC | InstrName::BVS | InstrName::BCC
        | InstrName::BCS | InstrName::BNE | InstrName::BEQ | InstrName::ADC | InstrName::AND
        | InstrName::ASL | InstrName::BIT | InstrName::CMP | InstrName::CPX | InstrName::CPY
        | InstrName::DEC | InstrName::INC | InstrName::EOR | InstrName::LDA | InstrName::LDX
        | InstrName::LDY | InstrName::LSR | InstrName::ORA | InstrName::ROL | InstrName::ROR
        | InstrName::SBC => true,
        _ => false,
    }
}

/// A store depends on the PC and the index registers alone.
proof fn lemma_stored_at_cpu<B: Bus>(mode: AddressingMode, c: Ricoh2A03, d: Ricoh2A03, b: B, val: u8, n: B)
    requires
        c.pc == d.pc,
        c.x == d.x,
        c.y == d.y,
    ensures
        stored_at(mode, c, b, val, n) == stored_at(mode, d, b, val, n),
{
    assert forall|a: u16, mid: B| addressed(mode, c, b, a, mid) == addressed(mode, d, b, a, mid) by {}
}

/// The operand depends on the registers alone, not on the cycle counters.
proof fn lemma_operand_at_regs<B: Bus>(mode: AddressingMode, c: Ricoh2A03, d: Ricoh2A03, b: B, v: u8)
    requires
        c.regs() == d.regs(),
    ensures
        operand_at(mode, c, b, v) == operand_at(mode, d, b, v),
{
    assert forall|a: u16, mid: B| addressed(mode, c, b, a, mid) == addressed(mode, d, b, a, mid) by {}
}

/// The indexed modes, whose address can cross a page and cost a wait cycle.
pub open spec fn is_indexed_mode(mode: AddressingMode) -> bool {
    mode == AddressingMode::AbsoluteX || mode == AddressingMode::AbsoluteY || mode
        == AddressingMode::IndirectY
}

/// The conditional branches.
pub open spec fn is_branch_op(name: InstrName) -> bool {
    match name {
        InstrName::BPL | InstrName::BMI | InstrName::BVC | InstrName::BVS | InstrName::BCC
        | InstrName::BCS | InstrName::BNE | InstrName::BEQ => true,
        _ => false,
    }
}

/// Whether the branch `name` is taken with the flags of `cpu`.
pub open spec fn branch_cond(name: InstrName, cpu: Ricoh2A03) -> bool {
    match name {
        InstrName::BPL => !cpu.flag(5),
        InstrName::BMI => cpu.flag(5),
        InstrName::BVC => !cpu.flag(0),
        InstrName::BVS => cpu.flag(0),
        InstrName::BCC => !cpu.flag(3),
        InstrName::BCS => cpu.flag(3),
        InstrName::BNE => !cpu.flag(4),
        _ => cpu.flag(4),
    }
}

/// The wait cycles a taken branch by `dst` from `pc` adds: one, two when it lands on
/// another page.
pub open spec fn branch_wait(pc: u16, dst: u8) -> int {
    if spec_crosses_page(pc, branch_dest(pc, dst)) {
        2
    } else {
        1
    }
}

/// The address of stack slot `sp`, in page 1.
pub open spec fn spec_stack_addr(sp: u8) -> usize {
    (STACK_BEGIN + sp) as usize
}

pub open spec fn is_memory_mode(mode: AddressingMode) -> bool {
    !(mode == AddressingMode::Accumulator || mode == AddressingMode::Immediate || mode
        == AddressingMode::Relative || mode == AddressingMode::Invalid)
}

impl Ricoh2A03 {
    /// The programmer-visible registers.
    pub open spec fn regs(self) -> (u16, u8, u8, u8, u8, u8) {
        (self.pc, self.acc, self.x, self.y, self.sp, self.status.flags)
    }

    pub open spec fn flag(self, idx: u8) -> bool {
        bit_of(self.status.flags, idx)
    }

    pub open spec fn with_flag(self, bit: bool, idx: u8) -> Ricoh2A03 {
        Ricoh2A03 { status: Status { flags: set_bit(self.status.flags, bit, idx) }, ..self }
    }

    /// The negative and zero flags set from `v`.
    pub open spec fn nz(self, v: u8) -> Ricoh2A03 {
        self.with_flag(spec_is_negative(v), 5).with_flag(v == 0, 4)
    }

    pub open spec fn with_acc(self, v: u8) -> Ricoh2A03 {
        Ricoh2A03 { acc: v, ..self }
    }

    /// The result written back through `mode`: only the accumulator mode keeps it here.
    pub open spec fn store(self, mode: AddressingMode, v: u8) -> Ricoh2A03 {
        if mode == AddressingMode::Accumulator {
            self.with_acc(v)
        } else {
            self
        }
    }

    pub open spec fn branch(self, taken: bool, dst: u8) -> Ricoh2A03 {
        if taken {
            Ricoh2A03 { pc: branch_dest(self.pc, dst), ..self }
        } else {
            self
        }
    }

    /// Compare `reg` with `v`: the carry is the borrow of `reg - v`.
    pub open spec fn compare(self, reg: u8, v: u8) -> Ricoh2A03 {
        self.with_flag(reg < v, 3).nz(reg.wrapping_sub(v))
    }

    /// ADC: carry and overflow are both the carry out of `acc + v + C`.
    pub open spec fn adc(self, v: u8) -> Ricoh2A03 {
        let c: int = if self.flag(3) {
            1
        } else {
            0
        };
        let over = self.acc + v + c > 255;
        let result = ((self.acc + v + c) % 256) as u8;
        self.with_flag(over, 3).with_flag(over, 0).with_acc(result).nz(result)
    }

    /// SBC: carry and overflow are both the borrow of `acc - v - C`.
    pub open spec fn sbc(self, v: u8) -> Ricoh2A03 {
        let c: int = if self.flag(3) {
            1
        } else {
            0
        };
        let over = self.acc < v + c;
        let result = ((self.acc - v - c + 512) % 256) as u8;
        self.with_flag(over, 3).with_flag(over, 0).with_acc(result).nz(result)
    }

    pub open spec fn sp_plus(self, n: u8) -> Ricoh2A03 {
        Ricoh2A03 { sp: self.sp.wrapping_add(n), ..self }
    }

    pub open spec fn sp_minus(self, n: u8) -> Ricoh2A03 {
        Ricoh2A03 { sp: self.sp.wrapping_sub(n), ..self }
    }

    /// What instruction `name` in `mode` does to the registers, given the byte `v` it read
    /// and the word `w` it fetched (a jump target or a pulled return address), with the PC
    /// on the byte after the opcode.
    pub open spec fn execute(self, name: InstrName, mode: AddressingMode, v: u8, w: u16) -> Ricoh2A03 {
        match name {
            InstrName::BPL => self.branch(!self.flag(5), v),
            InstrName::BMI => self.branch(self.flag(5), v),
            InstrName::BVC => self.branch(!self.flag(0), v),
            InstrName::BVS => self.branch(self.flag(0), v),
            InstrName::BCC => self.branch(!self.flag(3), v),
            InstrName::BCS => self.branch(self.flag(3), v),
            InstrName::BNE => self.branch(!self.flag(4), v),
            InstrName::BEQ => self.branch(self.flag(4), v),
            InstrName::ADC => self.adc(v),
            InstrName::AND => self.with_acc(self.acc & v).nz(self.acc & v),
            InstrName::SBC => self.sbc(v),
            InstrName::ORA => self.with_acc(self.acc | v).nz(self.acc | v),
            InstrName::LDY => Ricoh2A03 { y: v, ..self }.nz(v),
            InstrName::LDX => Ricoh2A03 { x: v, ..self }.nz(v),
            InstrName::LDA => self.with_acc(v).nz(v),
            InstrName::EOR => self.with_acc(self.acc ^ v).nz(self.acc ^ v),
            InstrName::CPY => self.compare(self.y, v),
            InstrName::CPX => self.compare(self.x, v),
            InstrName::CMP => self.compare(self.acc, v),
            InstrName::BIT => self.with_flag(v & 0x40 != 0, 0).with_flag(spec_is_negative(v), 5).with_flag(
                self.acc & v == 0,
                4,
            ),
            InstrName::ASL => self.store(mode, (v << 1u8) as u8).nz(v).with_flag(spec_is_negative(v), 3),
            InstrName::LSR => self.store(mode, v >> 1u8).nz(v >> 1u8).with_flag(v & 0x01 != 0, 3),
            InstrName::ROL => {
                let cin: u8 = if self.flag(3) {
                    1
                } else {
                    0
                };
                let r = ((v << 1u8) | cin) as u8;
                self.with_flag(v & 0x80 != 0, 3).store(mode, r).nz(r)
            },
            InstrName::ROR => {
                let cin: u8 = if self.flag(3) {
                    1
                } else {
                    0
                };
                let r = ((v >> 1u8) | ((cin << 7u8) as u8)) as u8;
                self.with_flag(v & 0x01 != 0, 3).store(mode, r).nz(r)
            },
            InstrName::INC => self.store(mode, v.wrapping_add(1)).nz(v.wrapping_add(1)),
            InstrName::DEC => self.store(mode, v.wrapping_sub(1)).nz(v.wrapping_sub(1)),
            InstrName::STA => self.store(mode, self.acc),
            InstrName::STX => self.store(mode, self.x),
            InstrName::STY => self.store(mode, self.y),
            InstrName::JMP => Ricoh2A03 { pc: w, ..self },
            InstrName::JSR => Ricoh2A03 { pc: w, ..self.sp_plus(2) },
            InstrName::CLV => self.with_flag(false, 0),
            InstrName::CLI => self.with_flag(false, 2),
            InstrName::CLC => self.with_flag(false, 3),
            InstrName::CLD => self.with_flag(false, 1),
            InstrName::DEX => Ricoh2A03 { x: self.x.wrapping_sub(1), ..self }.nz(self.x.wrapping_sub(1)),
            InstrName::DEY => Ricoh2A03 { y: self.y.wrapping_sub(1), ..self }.nz(self.y.wrapping_sub(1)),
            InstrName::INY => Ricoh2A03 { y: self.y.wrapping_add(1), ..self }.nz(self.y.wrapping_add(1)),
            InstrName::INX => Ricoh2A03 { x: self.x.wrapping_add(1), ..self }.nz(self.x.wrapping_add(1)),
            InstrName::TAY => Ricoh2A03 { y: self.acc, ..self }.nz(self.acc),
            InstrName::TAX => Ricoh2A03 { x: self.acc, ..self }.nz(self.acc),
            InstrName::TYA => self.with_acc(self.y).nz(self.y),
            InstrName::TXA => self.with_acc(self.x).nz(self.x),
            InstrName::TXS => Ricoh2A03 { sp: self.x, ..self },
            InstrName::TSX => Ricoh2A03 { x: self.sp, ..self }.nz(self.sp),
            InstrName::SEI => self.with_flag(true, 2),
            InstrName::SED => self.with_flag(true, 1),
            InstrName::SEC => self.with_flag(true, 3),
            InstrName::RTS => Ricoh2A03 { pc: w.wrapping_add(1), ..self.sp_minus(2) },
            InstrName::RTI => Ricoh2A03 { pc: w, status: Status { flags: v }, ..self.sp_minus(3) },
            InstrName::PLP => Ricoh2A03 { status: Status { flags: v }, ..self.sp_minus(1) },
            InstrName::PLA => self.sp_minus(1).with_acc(v),
            InstrName::PHP => self.sp_plus(1),
            InstrName::PHA => self.sp_plus(1),
            InstrName::BRK => self.sp_plus(3).with_flag(true, 2),
            InstrName::NOP => self,
            InstrName::INV => self,
        }
    }

    /// One instruction from the opcode fetch: step past the opcode, run the instruction,
    /// step past its operand bytes. An opcode the table does not hold only steps past itself.
    pub open spec fn step(self, i: Instruction, v: u8, w: u16) -> Ricoh2A03 {
        let at_operand = Ricoh2A03 { pc: self.pc.wrapping_add(1), ..self };
        if i.name == InstrName::INV {
            at_operand
        } else {
            let done = at_operand.execute(i.name, i.mode, v, w);
            Ricoh2A03 { pc: done.pc.wrapping_add(operand_bytes(i.mode)), ..done }
        }
    }

    pub fn new() -> (r: Ricoh2A03)
        ensures
            r.regs() == (0u16, 0u8, 0u8, 0u8, 0u8, 0u8),
            r.cycle == 0,
            r.noop_cycles == 0,
    {
        Ricoh2A03 {
            pc: 0,
            acc: 0,
            x: 0,
            y: 0,
            sp: 0,
            status: Status::from_flags(0),
            cycle: 0,
            noop_cycles: 0,
        }
    }

    /// The core runs for as long as it is clocked.
    pub fn done(&self) -> (r: bool)
        ensures
            !r,
    {
        false
    }

    pub fn connect<'a, BusType: Bus>(&'a mut self, bus: &'a mut BusType) -> (r: ConnectedCPU<
        'a,
        BusType,
    >)
        ensures
            *r.cpu == *old(self),
            *r.bus == *old(bus),
            *final(self) == *final(r.cpu),
            *final(bus) == *final(r.bus),
    {
        ConnectedCPU { cpu: self, bus }
    }

    fn incr_pc(&mut self, v: u16)
        ensures
            *final(self) == (Ricoh2A03 { pc: old(self).pc.wrapping_add(v), ..*old(self) }),
    {
        self.pc = self.pc.wrapping_add(v);
    }
}

/// `a + b` and whether it carried out of eight bits.
fn overflowing_add(a: u8, b: u8) -> (r: (u8, bool))
    ensures
        r.0 == (a + b) % 256,
        r.1 == (a + b > 255),
{
    if a as u16 + b as u16 > 255 {
        ((a as u16 + b as u16 - 256) as u8, true)
    } else {
        (a + b, false)
    }
}

/// `a - b` and whether it borrowed.
fn overflowing_sub(a: u8, b: u8) -> (r: (u8, bool))
    ensures
        r.0 == (a - b + 256) % 256,
        r.1 == (a < b),
{
    if a < b {
        ((a as u16 + 256 - b as u16) as u8, true)
    } else {
        (a - b, false)
    }
}

/// The address of stack slot `sp`.
fn stack_addr(sp: u8) -> (r: usize)
    ensures
        r == STACK_BEGIN + sp,
{
    (sp as u16).wrapping_add(STACK_BEGIN) as usize
}

impl<'a, BusType: Bus> ConnectedCPU<'a, BusType> {
    pub fn init(&mut self)
        ensures
            *final(final(self).cpu) == *final(old(self).cpu),
            *final(final(self).bus) == *final(old(self).bus),
            *final(self).cpu == (Ricoh2A03 { pc: final(self).cpu.pc, ..*old(self).cpu }),
    {
        self.reset();
    }

    /// Start at the address in the reset vector.
    fn reset(&mut self)
        ensures
            *final(final(self).cpu) == *final(old(self).cpu),
            *final(final(self).bus) == *final(old(self).bus),
            *final(self).cpu == (Ricoh2A03 { pc: final(self).cpu.pc, ..*old(self).cpu }),
            reads_word_at(*old(self).bus, 0xFFFC, final(self).cpu.pc, *final(self).bus),
    {
        let ghost b0 = *self.bus;
        let w = self.bus.read16(RESET_VECTOR_START as usize);
        assert(reads_word_at(b0, 0xFFFC, w, *self.bus));
        self.cpu.pc = w;
    }

    /// The operand address of a memory mode, read through the bytes at the PC. The indexed
    /// modes count an extra cycle when the index crosses a page.
    fn get_addr(&mut self, addr_mode: &AddressingMode) -> (r: u16)
        requires
            is_memory_mode(*addr_mode),
            old(self).cpu.noop_cycles <= 254,
        ensures
            *final(final(self).cpu) == *final(old(self).cpu),
            *final(final(self).bus) == *final(old(self).bus),
            final(self).cpu.regs() == old(self).cpu.regs(),
            final(self).cpu.cycle == old(self).cpu.cycle,
            old(self).cpu.noop_cycles <= final(self).cpu.noop_cycles <= old(self).cpu.noop_cycles + 1,
            addressed(*addr_mode, *old(self).cpu, *old(self).bus, r, *final(self).bus),
            !(*addr_mode == AddressingMode::AbsoluteX || *addr_mode == AddressingMode::AbsoluteY
                || *addr_mode == AddressingMode::IndirectY)
                ==> final(self).cpu.noop_cycles == old(self).cpu.noop_cycles,
            *addr_mode == AddressingMode::AbsoluteX || *addr_mode == AddressingMode::AbsoluteY
                ==> exists|base: u16|
                #![trigger reads_word_at(*old(self).bus, old(self).cpu.pc as usize, base, *final(self).bus)]
                reads_word_at(*old(self).bus, old(self).cpu.pc as usize, base, *final(self).bus)
                    && final(self).cpu.noop_cycles == old(self).cpu.noop_cycles + (if spec_crosses_page(
                    base,
                    r,
                ) {
                    1int
                } else {
                    0int
                }),
            *addr_mode == AddressingMode::IndirectY ==> exists|v: u8, mid: BusType, base: u16|
                #![trigger old(self).bus.reads(old(self).cpu.pc as usize, v, mid), reads_word_at(mid, v as usize, base, *final(self).bus)]
                old(self).bus.reads(old(self).cpu.pc as usize, v, mid) && reads_word_at(
                    mid,
                    v as usize,
                    base,
                    *final(self).bus,
                ) && r == base.wrapping_add(old(self).cpu.y as u16)
                    && final(self).cpu.noop_cycles == old(self).cpu.noop_cycles + (if spec_crosses_page(base, r) {
                    1int
                } else {
                    0int
                }),
    {
        let ghost b0 = *self.bus;
        let ptr = self.cpu.pc as usize;
        match addr_mode {
            AddressingMode::ZeroPage => self.bus.read(ptr) as u16,
            AddressingMode::ZeroPageX => {
                let low = self.bus.read(ptr) as u16;
                low.wrapping_add(self.cpu.x as u16)
            },
            AddressingMode::ZeroPageY => (self.bus.read(ptr) as u16).wrapping_add(self.cpu.y as u16),
            AddressingMode::Absolute => {
                let a = self.bus.read16(ptr);
                assert(reads_word_at(b0, ptr, a, *self.bus));
                a
            },
            AddressingMode::AbsoluteX => {
                let base = self.bus.read16(ptr);
                assert(reads_word_at(b0, ptr, base, *self.bus));
                let addr = base.wrapping_add(self.cpu.x as u16);
                if crosses_page(base, addr) {
                    self.cpu.noop_cycles = self.cpu.noop_cycles + 1;
                }
                addr
            },
            AddressingMode::AbsoluteY => {
                let base = self.bus.read16(ptr);
                assert(reads_word_at(b0, ptr, base, *self.bus));
                let addr = base.wrapping_add(self.cpu.y as u16);
                if crosses_page(base, addr) {
                    self.cpu.noop_cycles = self.cpu.noop_cycles + 1;
                }
                addr
            },
            AddressingMode::Indirect => {
                let p = self.bus.read16(ptr);
                assert(reads_word_at(b0, ptr, p, *self.bus));
                let ghost mid = *self.bus;
                let addr = p as usize;
                let a = self.bus.read16(addr);
                assert(reads_word_at(mid, p as usize, a, *self.bus));
                a
            },
            AddressingMode::IndirectX => {
                let v = self.bus.read(ptr);
                let ghost mid = *self.bus;
                let addr = v.wrapping_add(self.cpu.x) as usize;
                let a = self.bus.read16(addr);
                assert(reads_word_at(mid, addr, a, *self.bus));
                a
            },
            AddressingMode::IndirectY => {
                let v = self.bus.read(ptr);
                let ghost mid = *self.bus;
                let low = v as usize;
                let base = self.bus.read16(low);
                assert(reads_word_at(mid, low, base, *self.bus));
                let addr = base.wrapping_add(self.cpu.y as u16);
                if crosses_page(base, addr) {
                    self.cpu.noop_cycles = self.cpu.noop_cycles + 1;
                }
                addr
            },
            _ => 0,
        }
    }

    /// Write `val` where `mode` puts results: memory, or the accumulator.
    fn write_mem(&mut self, mode: &AddressingMode, val: u8)
        requires
            *mode != AddressingMode::Invalid && *mode != AddressingMode::Immediate && *mode
                != AddressingMode::Relative,
            old(self).cpu.noop_cycles <= 254,
        ensures
            *final(final(self).cpu) == *final(old(self).cpu),
            *final(final(self).bus) == *final(old(self).bus),
            final(self).cpu.regs() == old(self).cpu.store(*mode, val).regs(),
            final(self).cpu.cycle == old(self).cpu.cycle,
            old(self).cpu.noop_cycles <= final(self).cpu.noop_cycles <= old(self).cpu.noop_cycles + 1,
            *mode == AddressingMode::Accumulator ==> *final(self).bus == *old(self).bus,
            !is_indexed_mode(*mode) ==> final(self).cpu.noop_cycles == old(self).cpu.noop_cycles,
            *mode != AddressingMode::Accumulator ==> exists|a: u16, mid: BusType|
                #[trigger] addressed(*mode, *old(self).cpu, *old(self).bus, a, mid) && mid.writes(
                    a as usize,
                    val,
                    *final(self).bus,
                ),
            stored_at(*mode, *old(self).cpu, *old(self).bus, val, *final(self).bus),
    {
        if *mode == AddressingMode::Accumulator {
            self.cpu.acc = val;
        } else {
            let addr = self.get_addr(mode) as usize;
            self.bus.write(addr, val);
        }
    }

    /// Read the operand of `mode`: from memory, the accumulator, or the byte at the PC.
    fn read_mem(&mut self, mode: &AddressingMode) -> (r: u8)
        requires
            *mode != AddressingMode::Invalid,
            old(self).cpu.noop_cycles <= 254,
        ensures
            *final(final(self).cpu) == *final(old(self).cpu),
            *final(final(self).bus) == *final(old(self).bus),
            final(self).cpu.regs() == old(self).cpu.regs(),
            final(self).cpu.cycle == old(self).cpu.cycle,
            old(self).cpu.noop_cycles <= final(self).cpu.noop_cycles <= old(self).cpu.noop_cycles + 1,
            *mode == AddressingMode::Accumulator ==> r == old(self).cpu.acc,
            operand_at(*mode, *old(self).cpu, *old(self).bus, r),
            operand_read(*mode, *old(self).cpu, *old(self).bus, r, *final(self).bus),
            !is_indexed_mode(*mode) ==> final(self).cpu.noop_cycles == old(self).cpu.noop_cycles,
    {
        if *mode == AddressingMode::Accumulator {
            self.cpu.acc
        } else if *mode == AddressingMode::Immediate || *mode == AddressingMode::Relative {
            let v = self.bus.read(self.cpu.pc as usize);
            assert(old(self).bus.reads(old(self).cpu.pc as usize, v, *self.bus));
            v
        } else {
            let a = self.get_addr(mode);
            let ghost mid = *self.bus;
            let v = self.bus.read(a as usize);
            assert(addressed(*mode, *old(self).cpu, *old(self).bus, a, mid));
            assert(mid.reads(a as usize, v, *self.bus));
            v
        }
    }

    /// Branch by the signed offset `dst`: one extra cycle, two when the target is on another
    /// page.
    fn do_branch(&mut self, dst: u8)
        requires
            old(self).cpu.noop_cycles <= 253,
        ensures
            *final(self).bus == *old(self).bus,
            *final(final(self).cpu) == *final(old(self).cpu),
            *final(final(self).bus) == *final(old(self).bus),
            final(self).cpu.regs() == (Ricoh2A03 { pc: branch_dest(old(self).cpu.pc, dst), ..*old(self).cpu }).regs(),
            final(self).cpu.cycle == old(self).cpu.cycle,
            final(self).cpu.noop_cycles == old(self).cpu.noop_cycles + branch_wait(
                old(self).cpu.pc,
                dst,
            ),
    {
        let pc = if is_negative(dst) {
            self.cpu.pc.wrapping_sub(0u8.wrapping_sub(dst) as u16)
        } else {
            self.cpu.pc.wrapping_add(dst as u16)
        };
        // add 1 if same page, 2 if different
        let extra: u8 = if crosses_page(self.cpu.pc, pc) {
            2
        } else {
            1
        };
        self.cpu.noop_cycles = self.cpu.noop_cycles + extra;
        self.cpu.pc = pc;
    }

    /// The byte at the top of the stack.
    fn peek(&mut self) -> (r: u8)
        ensures
            *final(final(self).cpu) == *final(old(self).cpu),
            *final(final(self).bus) == *final(old(self).bus),
            *final(self).cpu == *old(self).cpu,
            (*old(self).bus).reads(spec_stack_addr(old(self).cpu.sp), r, *final(self).bus),
    {
        let ptr = stack_addr(self.cpu.sp);
        self.bus.read(ptr)
    }

    fn poke(&mut self, val: u8)
        ensures
            *final(final(self).cpu) == *final(old(self).cpu),
            *final(final(self).bus) == *final(old(self).bus),
            *final(self).cpu == *old(self).cpu,
            (*old(self).bus).writes(spec_stack_addr(old(self).cpu.sp), val, *final(self).bus),
    {
        let ptr = stack_addr(self.cpu.sp);
        self.bus.write(ptr, val);
    }

    /// Update the CPU flags based on the accumulator
    fn update_flags(&mut self, v: u8)
        ensures
            *final(self).bus == *old(self).bus,
            *final(final(self).cpu) == *final(old(self).cpu),
            *final(final(self).bus) == *final(old(self).bus),
            *final(self).cpu == old(self).cpu.nz(v),
    {
        // NOTE: anything greater than 127 is negative since it is a 2's compliment format
        self.cpu.status.set(is_negative(v), Status::NEGATIVE);
        self.cpu.status.set(v == 0, Status::ZERO);
    }

    /// Push the high byte of `v`, then its low byte.
    fn push16(&mut self, v: u16)
        ensures
            *final(final(self).cpu) == *final(old(self).cpu),
            *final(final(self).bus) == *final(old(self).bus),
            *final(self).cpu == old(self).cpu.sp_plus(2),
            pushed_word(old(self).cpu.sp, *old(self).bus, v, *final(self).bus),
    {
        let ghost c0 = *self.cpu;
        self.push8((v >> 8u16) as u8);
        let ghost mid = *self.bus;
        self.push8((0xFF & v) as u8);
        assert(mid.writes(spec_stack_addr(c0.sp.wrapping_add(1)), (0xFF & v) as u8, *self.bus));
    }

    /// Write `v` at the stack pointer, then move the pointer up; it wraps from $FF to 0.
    fn push8(&mut self, v: u8)
        ensures
            *final(final(self).cpu) == *final(old(self).cpu),
            *final(final(self).bus) == *final(old(self).bus),
            *final(self).cpu == old(self).cpu.sp_plus(1),
            (*old(self).bus).writes(spec_stack_addr(old(self).cpu.sp), v, *final(self).bus),
    {
        self.poke(v);
        self.cpu.sp = self.cpu.sp.wrapping_add(1);
    }

    fn pop16(&mut self) -> (r: u16)
        ensures
            *final(final(self).cpu) == *final(old(self).cpu),
            *final(final(self).bus) == *final(old(self).bus),
            *final(self).cpu == old(self).cpu.sp_minus(2),
            pulled_word(old(self).cpu.sp, *old(self).bus, r, *final(self).bus),
    {
        let ghost c0 = *self.cpu;
        let lo = self.pop8();
        let ghost mid = *self.bus;
        let hi = self.pop8();
        assert(mid.reads(spec_stack_addr(c0.sp.wrapping_sub(1).wrapping_sub(1)), hi, *self.bus));
        let low = lo as u16;
        let high = hi as u16;
        (high << 8u16) | low
    }

    /// Move the stack pointer down, then read the byte there; it wraps from 0 to $FF.
    fn pop8(&mut self) -> (r: u8)
        ensures
            *final(final(self).cpu) == *final(old(self).cpu),
            *final(final(self).bus) == *final(old(self).bus),
            *final(self).cpu == old(self).cpu.sp_minus(1),
            (*old(self).bus).reads(
                spec_stack_addr(old(self).cpu.sp.wrapping_sub(1)),
                r,
                *final(self).bus,
            ),
    {
        self.cpu.sp = self.cpu.sp.wrapping_sub(1);
        self.peek()
    }

    /// PLP's pull, giving the byte that became the status.
    fn pull_status_byte(&mut self) -> (r: u8)
        ensures
            *final(final(self).cpu) == *final(old(self).cpu),
            *final(final(self).bus) == *final(old(self).bus),
            *final(self).cpu == (Ricoh2A03 { status: Status { flags: r }, ..old(self).cpu.sp_minus(1) }),
            (*old(self).bus).reads(
                spec_stack_addr(old(self).cpu.sp.wrapping_sub(1)),
                r,
                *final(self).bus,
            ),
    {
        let v = self.pop8();
        self.cpu.status = Status::from_flags(v);
        v
    }

    /// BPL
    fn branch_if_pos(&mut self, mode: &AddressingMode)
        requires
            old(self).cpu.noop_cycles <= 252,
            *mode == AddressingMode::Relative,
        ensures
            *final(final(self).cpu) == *final(old(self).cpu),
            *final(final(self).bus) == *final(old(self).bus),
            final(self).cpu.cycle == old(self).cpu.cycle,
            old(self).cpu.noop_cycles <= final(self).cpu.noop_cycles <= old(self).cpu.noop_cycles + 3,
            exists|v: u8|
                #![auto]
                final(self).cpu.regs() == (*old(self).cpu).execute(InstrName::BPL, *mode, v, 0).regs()
                    && bus_step(InstrName::BPL, *mode, *old(self).cpu, *old(self).bus, v, 0, *final(self).bus)
                    && operand_at(*mode, *old(self).cpu, *old(self).bus, v)
                    && final(self).cpu.noop_cycles == old(self).cpu.noop_cycles + (if branch_cond(
                    InstrName::BPL,
                    *old(self).cpu,
                ) {
                    branch_wait(old(self).cpu.pc, v)
                } else {
                    0
                }),
    {
        let ghost c0 = *self.cpu;
        let dst = self.read_mem(mode);
        if !self.cpu.status.get(Status::NEGATIVE) {
            self.do_branch(dst);
        }
        assert(self.cpu.regs() == c0.execute(InstrName::BPL, *mode, dst, 0).regs());
        assert(bus_step(InstrName::BPL, *mode, c0, *old(self).bus, dst, 0, *self.bus));
    }

    /// BMI
    fn branch_if_neg(&mut self, mode: &AddressingMode)
        requires
            old(self).cpu.noop_cycles <= 252,
            *mode == AddressingMode::Relative,
        ensures
            *final(final(self).cpu) == *final(old(self).cpu),
            *final(final(self).bus) == *final(old(self).bus),
            final(self).cpu.cycle == old(self).cpu.cycle,
            old(self).cpu.noop_cycles <= final(self).cpu.noop_cycles <= old(self).cpu.noop_cycles + 3,
            exists|v: u8|
                #![auto]
                final(self).cpu.regs() == (*old(self).cpu).execute(InstrName::BMI, *mode, v, 0).regs()
                    && bus_step(InstrName::BMI, *mode, *old(self).cpu, *old(self).bus, v, 0, *final(self).bus)
                    && operand_at(*mode, *old(self).cpu, *old(self).bus, v)
                    && final(self).cpu.noop_cycles == old(self).cpu.noop_cycles + (if branch_cond(
                    InstrName::BMI,
                    *old(self).cpu,
                ) {
                    branch_wait(old(self).cpu.pc, v)
                } else {
                    0
                }),
    {
        let ghost c0 = *self.cpu;
        let dst = self.read_mem(mode);
        if self.cpu.status.get(Status::NEGATIVE) {
            self.do_branch(dst);
        }
        assert(self.cpu.regs() == c0.execute(InstrName::BMI, *mode, dst, 0).regs());
        assert(bus_step(InstrName::BMI, *mode, c0, *old(self).bus, dst, 0, *self.bus));
    }

    /// BVC
    fn branch_if_overflow_clear(&mut self, mode: &AddressingMode)
        requires
            old(self).cpu.noop_cycles <= 252,
            *mode == AddressingMode::Relative,
        ensures
            *final(final(self).cpu) == *final(old(self).cpu),
            *final(final(self).bus) == *final(old(self).bus),
            final(self).cpu.cycle == old(self).cpu.cycle,
            old(self).cpu.noop_cycles <= final(self).cpu.noop_cycles <= old(self).cpu.noop_cycles + 3,
            exists|v: u8|
                #![auto]
                final(self).cpu.regs() == (*old(self).cpu).execute(InstrName::BVC, *mode, v, 0).regs()
                    && bus_step(InstrName::BVC, *mode, *old(self).cpu, *old(self).bus, v, 0, *final(self).bus)
                    && operand_at(*mode, *old(self).cpu, *old(self).bus, v)
                    && final(self).cpu.noop_cycles == old(self).cpu.noop_cycles + (if branch_cond(
                    InstrName::BVC,
                    *old(self).cpu,
                ) {
                    branch_wait(old(self).cpu.pc, v)
                } else {
                    0
                }),
    {
        let ghost c0 = *self.cpu;
        let dst = self.read_mem(mode);
        if !self.cpu.status.get(Status::OVERFLOW) {
            self.do_branch(dst);
        }
        assert(self.cpu.regs() == c0.execute(InstrName::BVC, *mode, dst, 0).regs());
        assert(bus_step(InstrName::BVC, *mode, c0, *old(self).bus, dst, 0, *self.bus));
    }

    /// BVS
    fn branch_if_overflow_set(&mut self, mode: &AddressingMode)
        requires
            old(self).cpu.noop_cycles <= 252,
            *mode == AddressingMode::Relative,
        ensures
            *final(final(self).cpu) == *final(old(self).cpu),
            *final(final(self).bus) == *final(old(self).bus),
            final(self).cpu.cycle == old(self).cpu.cycle,
            old(self).cpu.noop_cycles <= final(self).cpu.noop_cycles <= old(self).cpu.noop_cycles + 3,
            exists|v: u8|
                #![auto]
                final(self).cpu.regs() == (*old(self).cpu).execute(InstrName::BVS, *mode, v, 0).regs()
                    && bus_step(InstrName::BVS, *mode, *old(self).cpu, *old(self).bus, v, 0, *final(self).bus)
                    && operand_at(*mode, *old(self).cpu, *old(self).bus, v)
                    && final(self).cpu.noop_cycles == old(self).cpu.noop_cycles + (if branch_cond(
                    InstrName::BVS,
                    *old(self).cpu,
                ) {
                    branch_wait(old(self).cpu.pc, v)
                } else {
                    0
                }),
    {
        let ghost c0 = *self.cpu;
        let dst = self.read_mem(mode);
        if self.cpu.status.get(Status::OVERFLOW) {
            self.do_branch(dst);
        }
        assert(self.cpu.regs() == c0.execute(InstrName::BVS, *mode, dst, 0).regs());
        assert(bus_step(InstrName::BVS, *mode, c0, *old(self).bus, dst, 0, *self.bus));
    }

    /// BCC
    fn branch_if_carry_clear(&mut self, mode: &AddressingMode)
        requires
            old(self).cpu.noop_cycles <= 252,
            *mode == AddressingMode::Relative,
        ensures
            *final(final(self).cpu) == *final(old(self).cpu),
            *final(final(self).bus) == *final(old(self).bus),
            final(self).cpu.cycle == old(self).cpu.cycle,
            old(self).cpu.noop_cycles <= final(self).cpu.noop_cycles <= old(self).cpu.noop_cycles + 3,
            exists|v: u8|
                #![auto]
                final(self).cpu.regs() == (*old(self).cpu).execute(InstrName::BCC, *mode, v, 0).regs()
                    && bus_step(InstrName::BCC, *mode, *old(self).cpu, *old(self).bus, v, 0, *final(self).bus)
                    && operand_at(*mode, *old(self).cpu, *old(self).bus, v)
                    && final(self).cpu.noop_cycles == old(self).cpu.noop_cycles + (if branch_cond(
                    InstrName::BCC,
                    *old(self).cpu,
                ) {
                    branch_wait(old(self).cpu.pc, v)
                } else {
                    0
                }),
    {
        let ghost c0 = *self.cpu;
        let dst = self.read_mem(mode);
        if !self.cpu.status.get(Status::CARRY) {
            self.do_branch(dst);
        }
        assert(self.cpu.regs() == c0.execute(InstrName::BCC, *mode, dst, 0).regs());
        assert(bus_step(InstrName::BCC, *mode, c0, *old(self).bus, dst, 0, *self.bus));
    }

    /// BCS
    fn branch_if_carry_set(&mut self, mode: &AddressingMode)
        requires
            old(self).cpu.noop_cycles <= 252,
            *mode == AddressingMode::Relative,
        ensures
            *final(final(self).cpu) == *final(old(self).cpu),
            *final(final(self).bus) == *final(old(self).bus),
            final(self).cpu.cycle == old(self).cpu.cycle,
            old(self).cpu.noop_cycles <= final(self).cpu.noop_cycles <= old(self).cpu.noop_cycles + 3,
            exists|v: u8|
                #![auto]
                final(self).cpu.regs() == (*old(self).cpu).execute(InstrName::BCS, *mode, v, 0).regs()
                    && bus_step(InstrName::BCS, *mode, *old(self).cpu, *old(self).bus, v, 0, *final(self).bus)
                    && operand_at(*mode, *old(self).cpu, *old(self).bus, v)
                    && final(self).cpu.noop_cycles == old(self).cpu.noop_cycles + (if branch_cond(
                    InstrName::BCS,
                    *old(self).cpu,
                ) {
                    branch_wait(old(self).cpu.pc, v)
                } else {
                    0
                }),
    {
        let ghost c0 = *self.cpu;
        let dst = self.read_mem(mode);
        if self.cpu.status.get(Status::CARRY) {
            self.do_branch(dst);
        }
        assert(self.cpu.regs() == c0.execute(InstrName::BCS, *mode, dst, 0).regs());
        assert(bus_step(InstrName::BCS, *mode, c0, *old(self).bus, dst, 0, *self.bus));
    }

    /// BNE
    fn branch_if_not_zero(&mut self, mode: &AddressingMode)
        requires
            old(self).cpu.noop_cycles <= 252,
            *mode == AddressingMode::Relative,
        ensures
            *final(final(self).cpu) == *final(old(self).cpu),
            *final(final(self).bus) == *final(old(self).bus),
            final(self).cpu.cycle == old(self).cpu.cycle,
            old(self).cpu.noop_cycles <= final(self).cpu.noop_cycles <= old(self).cpu.noop_cycles + 3,
            exists|v: u8|
                #![auto]
                final(self).cpu.regs() == (*old(self).cpu).execute(InstrName::BNE, *mode, v, 0).regs()
                    && bus_step(InstrName::BNE, *mode, *old(self).cpu, *old(self).bus, v, 0, *final(self).bus)
                    && operand_at(*mode, *old(self).cpu, *old(self).bus, v)
                    && final(self).cpu.noop_cycles == old(self).cpu.noop_cycles + (if branch_cond(
                    InstrName::BNE,
                    *old(self).cpu,
                ) {
                    branch_wait(old(self).cpu.pc, v)
                } else {
                    0
                }),
    {
        let ghost c0 = *self.cpu;
        let dst = self.read_mem(mode);
        if !self.cpu.status.get(Status::ZERO) {
            self.do_branch(dst);
        }
        assert(self.cpu.regs() == c0.execute(InstrName::BNE, *mode, dst, 0).regs());
        assert(bus_step(InstrName::BNE, *mode, c0, *old(self).bus, dst, 0, *self.bus));
    }

    /// BEQ
    fn branch_if_zero(&mut self, mode: &AddressingMode)
        requires
            old(self).cpu.noop_cycles <= 252,
            *mode == AddressingMode::Relative,
        ensures
            *final(final(self).cpu) == *final(old(self).cpu),
            *final(final(self).bus) == *final(old(self).bus),
            final(self).cpu.cycle == old(self).cpu.cycle,
            old(self).cpu.noop_cycles <= final(self).cpu.noop_cycles <= old(self).cpu.noop_cycles + 3,
            exists|v: u8|
                #![auto]
                final(self).cpu.regs() == (*old(self).cpu).execute(InstrName::BEQ, *mode, v, 0).regs()
                    && bus_step(InstrName::BEQ, *mode, *old(self).cpu, *old(self).bus, v, 0, *final(self).bus)
                    && operand_at(*mode, *old(self).cpu, *old(self).bus, v)
                    && final(self).cpu.noop_cycles == old(self).cpu.noop_cycles + (if branch_cond(
                    InstrName::BEQ,
                    *old(self).cpu,
                ) {
                    branch_wait(old(self).cpu.pc, v)
                } else {
                    0
                }),
    {
        let ghost c0 = *self.cpu;
        let dst = self.read_mem(mode);
        if self.cpu.status.get(Status::ZERO) {
            self.do_branch(dst);
        }
        assert(self.cpu.regs() == c0.execute(InstrName::BEQ, *mode, dst, 0).regs());
        assert(bus_step(InstrName::BEQ, *mode, c0, *old(self).bus, dst, 0, *self.bus));
    }

    /// ADC: the overflow flag takes the carry.
    fn add_with_carry(&mut self, mode: &AddressingMode)
        requires
            old(self).cpu.noop_cycles <= 252,
            *mode != AddressingMode::Invalid,
        ensures
            *final(final(self).cpu) == *final(old(self).cpu),
            *final(final(self).bus) == *final(old(self).bus),
            final(self).cpu.cycle == old(self).cpu.cycle,
            old(self).cpu.noop_cycles <= final(self).cpu.noop_cycles <= old(self).cpu.noop_cycles + 3,
            exists|v: u8|
                #![auto]
                final(self).cpu.regs() == (*old(self).cpu).execute(InstrName::ADC, *mode, v, 0).regs()
                    && bus_step(InstrName::ADC, *mode, *old(self).cpu, *old(self).bus, v, 0, *final(self).bus)
                    && operand_at(*mode, *old(self).cpu, *old(self).bus, v),
            !is_indexed_mode(*mode) ==> final(self).cpu.noop_cycles == old(self).cpu.noop_cycles,
    {
        let ghost c0 = *self.cpu;
        let operand = self.read_mem(mode);
        let c: u8 = if self.cpu.status.get(Status::CARRY) {
            1
        } else {
            0
        };
        let (result, over1) = overflowing_add(operand, self.cpu.acc);
        let (result, over2) = overflowing_add(result, c);
        let over_carry = over1 || over2;
        self.cpu.status.set(over_carry, Status::CARRY);
        self.cpu.status.set(over_carry, Status::OVERFLOW);
        self.cpu.acc = result;
        self.update_flags(self.cpu.acc);
        assert(self.cpu.regs() == c0.execute(InstrName::ADC, *mode, operand, 0).regs());
        assert(bus_step(InstrName::ADC, *mode, c0, *old(self).bus, operand, 0, *self.bus));
    }

    /// AND
    fn and_with_acc(&mut self, mode: &AddressingMode)
        requires
            old(self).cpu.noop_cycles <= 252,
            *mode != AddressingMode::Invalid,
        ensures
            *final(final(self).cpu) == *final(old(self).cpu),
            *final(final(self).bus) == *final(old(self).bus),
            final(self).cpu.cycle == old(self).cpu.cycle,
            old(self).cpu.noop_cycles <= final(self).cpu.noop_cycles <= old(self).cpu.noop_cycles + 3,
            exists|v: u8|
                #![auto]
                final(self).cpu.regs() == (*old(self).cpu).execute(InstrName::AND, *mode, v, 0).regs()
                    && bus_step(InstrName::AND, *mode, *old(self).cpu, *old(self).bus, v, 0, *final(self).bus)
                    && operand_at(*mode, *old(self).cpu, *old(self).bus, v),
            !is_indexed_mode(*mode) ==> final(self).cpu.noop_cycles == old(self).cpu.noop_cycles,
    {
        let ghost c0 = *self.cpu;
        let operand = self.read_mem(mode);
        self.cpu.acc = self.cpu.acc & operand;
        self.update_flags(self.cpu.acc);
        assert(self.cpu.regs() == c0.execute(InstrName::AND, *mode, operand, 0).regs());
        assert(bus_step(InstrName::AND, *mode, c0, *old(self).bus, operand, 0, *self.bus));
    }

    /// ASL: the zero and negative flags come from the value before the shift.
    fn shift_left(&mut self, mode: &AddressingMode)
        requires
            old(self).cpu.noop_cycles <= 252,
            *mode != AddressingMode::Invalid && *mode != AddressingMode::Immediate && *mode
                != AddressingMode::Relative,
        ensures
            *final(final(self).cpu) == *final(old(self).cpu),
            *final(final(self).bus) == *final(old(self).bus),
            final(self).cpu.cycle == old(self).cpu.cycle,
            old(self).cpu.noop_cycles <= final(self).cpu.noop_cycles <= old(self).cpu.noop_cycles + 3,
            exists|v: u8|
                #![auto]
                final(self).cpu.regs() == (*old(self).cpu).execute(InstrName::ASL, *mode, v, 0).regs()
                    && bus_step(InstrName::ASL, *mode, *old(self).cpu, *old(self).bus, v, 0, *final(self).bus)
                    && operand_at(*mode, *old(self).cpu, *old(self).bus, v),
            !is_indexed_mode(*mode) ==> final(self).cpu.noop_cycles == old(self).cpu.noop_cycles,
    {
        let ghost c0 = *self.cpu;
        let val = self.read_mem(mode);
        let ghost mid = *self.bus;
        let ghost cw = *self.cpu;
        self.write_mem(mode, val << 1u8);
        proof {
            lemma_stored_at_cpu(*mode, cw, *old(self).cpu, mid, val << 1u8, *self.bus);
            assert(operand_read(*mode, *old(self).cpu, *old(self).bus, val, mid));
        }
        self.update_flags(val);
        self.cpu.status.set(is_negative(val), Status::CARRY);
        assert(self.cpu.regs() == c0.execute(InstrName::ASL, *mode, val, 0).regs());
        assert(bus_step(InstrName::ASL, *mode, c0, *old(self).bus, val, 0, *self.bus));
    }

    /// BIT
    fn test_bits(&mut self, mode: &AddressingMode)
        requires
            old(self).cpu.noop_cycles <= 252,
            *mode != AddressingMode::Invalid,
        ensures
            *final(final(self).cpu) == *final(old(self).cpu),
            *final(final(self).bus) == *final(old(self).bus),
            final(self).cpu.cycle == old(self).cpu.cycle,
            old(self).cpu.noop_cycles <= final(self).cpu.noop_cycles <= old(self).cpu.noop_cycles + 3,
            exists|v: u8|
                #![auto]
                final(self).cpu.regs() == (*old(self).cpu).execute(InstrName::BIT, *mode, v, 0).regs()
                    && bus_step(InstrName::BIT, *mode, *old(self).cpu, *old(self).bus, v, 0, *final(self).bus)
                    && operand_at(*mode, *old(self).cpu, *old(self).bus, v),
            !is_indexed_mode(*mode) ==> final(self).cpu.noop_cycles == old(self).cpu.noop_cycles,
    {
        let ghost c0 = *self.cpu;
        let operand = self.read_mem(mode);
        self.cpu.status.set((operand & 0x40) != 0, Status::OVERFLOW);
        self.cpu.status.set(is_negative(operand), Status::NEGATIVE);
        self.cpu.status.set((self.cpu.acc & operand) == 0, Status::ZERO);
        assert(self.cpu.regs() == c0.execute(InstrName::BIT, *mode, operand, 0).regs());
        assert(bus_step(InstrName::BIT, *mode, c0, *old(self).bus, operand, 0, *self.bus));
    }

    /// BRK: push PC + 2 and the status, then disable interrupts.
    fn force_break(&mut self)
        requires
            old(self).cpu.noop_cycles <= 252,
        ensures
            *final(final(self).cpu) == *final(old(self).cpu),
            *final(final(self).bus) == *final(old(self).bus),
            final(self).cpu.cycle == old(self).cpu.cycle,
            old(self).cpu.noop_cycles <= final(self).cpu.noop_cycles <= old(self).cpu.noop_cycles + 3,
            final(self).cpu.regs() == (*old(self).cpu).execute(InstrName::BRK, AddressingMode::Invalid, 0, 0).regs()
                    && bus_step(InstrName::BRK, AddressingMode::Invalid, *old(self).cpu, *old(self).bus, 0, 0, *final(self).bus),
            final(self).cpu.noop_cycles == old(self).cpu.noop_cycles,
    {
        let ghost c0 = *self.cpu;
        self.push16(self.cpu.pc.wrapping_add(2));
        let ghost m = *self.bus;
        self.push_status();
        assert(pushed_word(c0.sp, *old(self).bus, c0.pc.wrapping_add(2), m));
        self.cpu.status.set(true, Status::IRQ);
        assert(self.cpu.regs() == c0.execute(InstrName::BRK, AddressingMode::Invalid, 0, 0).regs());
        assert(bus_step(InstrName::BRK, AddressingMode::Invalid, c0, *old(self).bus, 0, 0, *self.bus));
    }

    /// CLC
    fn clear_carry(&mut self)
        requires
            old(self).cpu.noop_cycles <= 252,
        ensures
            *final(final(self).cpu) == *final(old(self).cpu),
            *final(final(self).bus) == *final(old(self).bus),
            final(self).cpu.cycle == old(self).cpu.cycle,
            old(self).cpu.noop_cycles <= final(self).cpu.noop_cycles <= old(self).cpu.noop_cycles + 3,
            final(self).cpu.regs() == (*old(self).cpu).execute(InstrName::CLC, AddressingMode::Invalid, 0, 0).regs()
                    && bus_step(InstrName::CLC, AddressingMode::Invalid, *old(self).cpu, *old(self).bus, 0, 0, *final(self).bus),
            final(self).cpu.noop_cycles == old(self).cpu.noop_cycles,
    {
        self.cpu.status.set(false, Status::CARRY);
    }

    /// CLD
    fn clear_decimal(&mut self)
        requires
            old(self).cpu.noop_cycles <= 252,
        ensures
            *final(final(self).cpu) == *final(old(self).cpu),
            *final(final(self).bus) == *final(old(self).bus),
            final(self).cpu.cycle == old(self).cpu.cycle,
            old(self).cpu.noop_cycles <= final(self).cpu.noop_cycles <= old(self).cpu.noop_cycles + 3,
            final(self).cpu.regs() == (*old(self).cpu).execute(InstrName::CLD, AddressingMode::Invalid, 0, 0).regs()
                    && bus_step(InstrName::CLD, AddressingMode::Invalid, *old(self).cpu, *old(self).bus, 0, 0, *final(self).bus),
            final(self).cpu.noop_cycles == old(self).cpu.noop_cycles,
    {
        self.cpu.status.set(false, Status::DECIMAL);
    }

    /// CLI
    fn clear_interrupt(&mut self)
        requires
            old(self).cpu.noop_cycles <= 252,
        ensures
            *final(final(self).cpu) == *final(old(self).cpu),
            *final(final(self).bus) == *final(old(self).bus),
            final(self).cpu.cycle == old(self).cpu.cycle,
            old(self).cpu.noop_cycles <= final(self).cpu.noop_cycles <= old(self).cpu.noop_cycles + 3,
            final(self).cpu.regs() == (*old(self).cpu).execute(InstrName::CLI, AddressingMode::Invalid, 0, 0).regs()
                    && bus_step(InstrName::CLI, AddressingMode::Invalid, *old(self).cpu, *old(self).bus, 0, 0, *final(self).bus),
            final(self).cpu.noop_cycles == old(self).cpu.noop_cycles,
    {
        self.cpu.status.set(false, Status::IRQ);
    }

    /// CLV
    fn clear_overflow(&mut self)
        requires
            old(self).cpu.noop_cycles <= 252,
        ensures
            *final(final(self).cpu) == *final(old(self).cpu),
            *final(final(self).bus) == *final(old(self).bus),
            final(self).cpu.cycle == old(self).cpu.cycle,
            old(self).cpu.noop_cycles <= final(self).cpu.noop_cycles <= old(self).cpu.noop_cycles + 3,
            final(self).cpu.regs() == (*old(self).cpu).execute(InstrName::CLV, AddressingMode::Invalid, 0, 0).regs()
                    && bus_step(InstrName::CLV, AddressingMode::Invalid, *old(self).cpu, *old(self).bus, 0, 0, *final(self).bus),
            final(self).cpu.noop_cycles == old(self).cpu.noop_cycles,
    {
        self.cpu.status.set(false, Status::OVERFLOW);
    }

    /// SEC
    fn set_carry(&mut self)
        requires
            old(self).cpu.noop_cycles <= 252,
        ensures
            *final(final(self).cpu) == *final(old(self).cpu),
            *final(final(self).bus) == *final(old(self).bus),
            final(self).cpu.cycle == old(self).cpu.cycle,
            old(self).cpu.noop_cycles <= final(self).cpu.noop_cycles <= old(self).cpu.noop_cycles + 3,
            final(self).cpu.regs() == (*old(self).cpu).execute(InstrName::SEC, AddressingMode::Invalid, 0, 0).regs()
                    && bus_step(InstrName::SEC, AddressingMode::Invalid, *old(self).cpu, *old(self).bus, 0, 0, *final(self).bus),
            final(self).cpu.noop_cycles == old(self).cpu.noop_cycles,
    {
        self.cpu.status.set(true, Status::CARRY);
    }

    /// SED
    fn set_decimal(&mut self)
        requires
            old(self).cpu.noop_cycles <= 252,
        ensures
            *final(final(self).cpu) == *final(old(self).cpu),
            *final(final(self).bus) == *final(old(self).bus),
            final(self).cpu.cycle == old(self).cpu.cycle,
            old(self).cpu.noop_cycles <= final(self).cpu.noop_cycles <= old(self).cpu.noop_cycles + 3,
            final(self).cpu.regs() == (*old(self).cpu).execute(InstrName::SED, AddressingMode::Invalid, 0, 0).regs()
                    && bus_step(InstrName::SED, AddressingMode::Invalid, *old(self).cpu, *old(self).bus, 0, 0, *final(self).bus),
            final(self).cpu.noop_cycles == old(self).cpu.noop_cycles,
    {
        self.cpu.status.set(true, Status::DECIMAL);
    }

    /// SEI
    fn set_interrupt(&mut self)
        requires
            old(self).cpu.noop_cycles <= 252,
        ensures
            *final(final(self).cpu) == *final(old(self).cpu),
            *final(final(self).bus) == *final(old(self).bus),
            final(self).cpu.cycle == old(self).cpu.cycle,
            old(self).cpu.noop_cycles <= final(self).cpu.noop_cycles <= old(self).cpu.noop_cycles + 3,
            final(self).cpu.regs() == (*old(self).cpu).execute(InstrName::SEI, AddressingMode::Invalid, 0, 0).regs()
                    && bus_step(InstrName::SEI, AddressingMode::Invalid, *old(self).cpu, *old(self).bus, 0, 0, *final(self).bus),
            final(self).cpu.noop_cycles == old(self).cpu.noop_cycles,
    {
        self.cpu.status.set(true, Status::IRQ);
    }

    /// CMP: the carry is the borrow.
    fn compare_with_acc(&mut self, mode: &AddressingMode)
        requires
            old(self).cpu.noop_cycles <= 252,
            *mode != AddressingMode::Invalid,
        ensures
            *final(final(self).cpu) == *final(old(self).cpu),
            *final(final(self).bus) == *final(old(self).bus),
            final(self).cpu.cycle == old(self).cpu.cycle,
            old(self).cpu.noop_cycles <= final(self).cpu.noop_cycles <= old(self).cpu.noop_cycles + 3,
            exists|v: u8|
                #![auto]
                final(self).cpu.regs() == (*old(self).cpu).execute(InstrName::CMP, *mode, v, 0).regs()
                    && bus_step(InstrName::CMP, *mode, *old(self).cpu, *old(self).bus, v, 0, *final(self).bus)
                    && operand_at(*mode, *old(self).cpu, *old(self).bus, v),
            !is_indexed_mode(*mode) ==> final(self).cpu.noop_cycles == old(self).cpu.noop_cycles,
    {
        let ghost c0 = *self.cpu;
        let operand = self.read_mem(mode);
        let reg = self.cpu.acc;
        let result = reg.wrapping_sub(operand);
        let carry = reg < operand;
        self.cpu.status.set(carry, Status::CARRY);
        self.update_flags(result);
        assert(self.cpu.regs() == c0.execute(InstrName::CMP, *mode, operand, 0).regs());
        assert(bus_step(InstrName::CMP, *mode, c0, *old(self).bus, operand, 0, *self.bus));
    }

    /// CPX: the carry is the borrow.
    fn compare_with_x(&mut self, mode: &AddressingMode)
        requires
            old(self).cpu.noop_cycles <= 252,
            *mode != AddressingMode::Invalid,
        ensures
            *final(final(self).cpu) == *final(old(self).cpu),
            *final(final(self).bus) == *final(old(self).bus),
            final(self).cpu.cycle == old(self).cpu.cycle,
            old(self).cpu.noop_cycles <= final(self).cpu.noop_cycles <= old(self).cpu.noop_cycles + 3,
            exists|v: u8|
                #![auto]
                final(self).cpu.regs() == (*old(self).cpu).execute(InstrName::CPX, *mode, v, 0).regs()
                    && bus_step(InstrName::CPX, *mode, *old(self).cpu, *old(self).bus, v, 0, *final(self).bus)
                    && operand_at(*mode, *old(self).cpu, *old(self).bus, v),
            !is_indexed_mode(*mode) ==> final(self).cpu.noop_cycles == old(self).cpu.noop_cycles,
    {
        let ghost c0 = *self.cpu;
        let operand = self.read_mem(mode);
        let reg = self.cpu.x;
        let result = reg.wrapping_sub(operand);
        let carry = reg < operand;
        self.cpu.status.set(carry, Status::CARRY);
        self.update_flags(result);
        assert(self.cpu.regs() == c0.execute(InstrName::CPX, *mode, operand, 0).regs());
        assert(bus_step(InstrName::CPX, *mode, c0, *old(self).bus, operand, 0, *self.bus));
    }

    /// CPY: the carry is the borrow.
    fn compare_with_y(&mut self, mode: &AddressingMode)
        requires
            old(self).cpu.noop_cycles <= 252,
            *mode != AddressingMode::Invalid,
        ensures
            *final(final(self).cpu) == *final(old(self).cpu),
            *final(final(self).bus) == *final(old(self).bus),
            final(self).cpu.cycle == old(self).cpu.cycle,
            old(self).cpu.noop_cycles <= final(self).cpu.noop_cycles <= old(self).cpu.noop_cycles + 3,
            exists|v: u8|
                #![auto]
                final(self).cpu.regs() == (*old(self).cpu).execute(InstrName::CPY, *mode, v, 0).regs()
                    && bus_step(InstrName::CPY, *mode, *old(self).cpu, *old(self).bus, v, 0, *final(self).bus)
                    && operand_at(*mode, *old(self).cpu, *old(self).bus, v),
            !is_indexed_mode(*mode) ==> final(self).cpu.noop_cycles == old(self).cpu.noop_cycles,
    {
        let ghost c0 = *self.cpu;
        let operand = self.read_mem(mode);
        let reg = self.cpu.y;
        let result = reg.wrapping_sub(operand);
        let carry = reg < operand;
        self.cpu.status.set(carry, Status::CARRY);
        self.update_flags(result);
        assert(self.cpu.regs() == c0.execute(InstrName::CPY, *mode, operand, 0).regs());
        assert(bus_step(InstrName::CPY, *mode, c0, *old(self).bus, operand, 0, *self.bus));
    }

    /// DEC
    fn dec_mem(&mut self, mode: &AddressingMode)
        requires
            old(self).cpu.noop_cycles <= 252,
            *mode != AddressingMode::Invalid && *mode != AddressingMode::Immediate && *mode
                != AddressingMode::Relative,
        ensures
            *final(final(self).cpu) == *final(old(self).cpu),
            *final(final(self).bus) == *final(old(self).bus),
            final(self).cpu.cycle == old(self).cpu.cycle,
            old(self).cpu.noop_cycles <= final(self).cpu.noop_cycles <= old(self).cpu.noop_cycles + 3,
            exists|v: u8|
                #![auto]
                final(self).cpu.regs() == (*old(self).cpu).execute(InstrName::DEC, *mode, v, 0).regs()
                    && bus_step(InstrName::DEC, *mode, *old(self).cpu, *old(self).bus, v, 0, *final(self).bus)
                    && operand_at(*mode, *old(self).cpu, *old(self).bus, v),
            !is_indexed_mode(*mode) ==> final(self).cpu.noop_cycles == old(self).cpu.noop_cycles,
    {
        let ghost c0 = *self.cpu;
        let v = self.read_mem(mode);
        let ghost mid = *self.bus;
        let val = v.wrapping_sub(1);
        let ghost cw = *self.cpu;
        self.write_mem(mode, val);
        proof {
            lemma_stored_at_cpu(*mode, cw, *old(self).cpu, mid, val, *self.bus);
            assert(operand_read(*mode, *old(self).cpu, *old(self).bus, v, mid));
        }
        self.update_flags(val);
        assert(self.cpu.regs() == c0.execute(InstrName::DEC, *mode, v, 0).regs());
        assert(bus_step(InstrName::DEC, *mode, c0, *old(self).bus, v, 0, *self.bus));
    }

    /// INC
    fn inc_mem(&mut self, mode: &AddressingMode)
        requires
            old(self).cpu.noop_cycles <= 252,
            *mode != AddressingMode::Invalid && *mode != AddressingMode::Immediate && *mode
                != AddressingMode::Relative,
        ensures
            *final(final(self).cpu) == *final(old(self).cpu),
            *final(final(self).bus) == *final(old(self).bus),
            final(self).cpu.cycle == old(self).cpu.cycle,
            old(self).cpu.noop_cycles <= final(self).cpu.noop_cycles <= old(self).cpu.noop_cycles + 3,
            exists|v: u8|
                #![auto]
                final(self).cpu.regs() == (*old(self).cpu).execute(InstrName::INC, *mode, v, 0).regs()
                    && bus_step(InstrName::INC, *mode, *old(self).cpu, *old(self).bus, v, 0, *final(self).bus)
                    && operand_at(*mode, *old(self).cpu, *old(self).bus, v),
            !is_indexed_mode(*mode) ==> final(self).cpu.noop_cycles == old(self).cpu.noop_cycles,
    {
        let ghost c0 = *self.cpu;
        let v = self.read_mem(mode);
        let ghost mid = *self.bus;
        let val = v.wrapping_add(1);
        let ghost cw = *self.cpu;
        self.write_mem(mode, val);
        proof {
            lemma_stored_at_cpu(*mode, cw, *old(self).cpu, mid, val, *self.bus);
            assert(operand_read(*mode, *old(self).cpu, *old(self).bus, v, mid));
        }
        self.update_flags(val);
        assert(self.cpu.regs() == c0.execute(InstrName::INC, *mode, v, 0).regs());
        assert(bus_step(InstrName::INC, *mode, c0, *old(self).bus, v, 0, *self.bus));
    }

    /// DEX
    fn dec_x(&mut self)
        requires
            old(self).cpu.noop_cycles <= 252,
        ensures
            *final(final(self).cpu) == *final(old(self).cpu),
            *final(final(self).bus) == *final(old(self).bus),
            final(self).cpu.cycle == old(self).cpu.cycle,
            old(self).cpu.noop_cycles <= final(self).cpu.noop_cycles <= old(self).cpu.noop_cycles + 3,
            final(self).cpu.regs() == (*old(self).cpu).execute(InstrName::DEX, AddressingMode::Invalid, 0, 0).regs()
                    && bus_step(InstrName::DEX, AddressingMode::Invalid, *old(self).cpu, *old(self).bus, 0, 0, *final(self).bus),
            final(self).cpu.noop_cycles == old(self).cpu.noop_cycles,
    {
        self.cpu.x = self.cpu.x.wrapping_sub(1);
        self.update_flags(self.cpu.x);
    }

    /// DEY
    fn dec_y(&mut self)
        requires
            old(self).cpu.noop_cycles <= 252,
        ensures
            *final(final(self).cpu) == *final(old(self).cpu),
            *final(final(self).bus) == *final(old(self).bus),
            final(self).cpu.cycle == old(self).cpu.cycle,
            old(self).cpu.noop_cycles <= final(self).cpu.noop_cycles <= old(self).cpu.noop_cycles + 3,
            final(self).cpu.regs() == (*old(self).cpu).execute(InstrName::DEY, AddressingMode::Invalid, 0, 0).regs()
                    && bus_step(InstrName::DEY, AddressingMode::Invalid, *old(self).cpu, *old(self).bus, 0, 0, *final(self).bus),
            final(self).cpu.noop_cycles == old(self).cpu.noop_cycles,
    {
        self.cpu.y = self.cpu.y.wrapping_sub(1);
        self.update_flags(self.cpu.y);
    }

    /// INX
    fn inc_x(&mut self)
        requires
            old(self).cpu.noop_cycles <= 252,
        ensures
            *final(final(self).cpu) == *final(old(self).cpu),
            *final(final(self).bus) == *final(old(self).bus),
            final(self).cpu.cycle == old(self).cpu.cycle,
            old(self).cpu.noop_cycles <= final(self).cpu.noop_cycles <= old(self).cpu.noop_cycles + 3,
            final(self).cpu.regs() == (*old(self).cpu).execute(InstrName::INX, AddressingMode::Invalid, 0, 0).regs()
                    && bus_step(InstrName::INX, AddressingMode::Invalid, *old(self).cpu, *old(self).bus, 0, 0, *final(self).bus),
            final(self).cpu.noop_cycles == old(self).cpu.noop_cycles,
    {
        self.cpu.x = self.cpu.x.wrapping_add(1);
        self.update_flags(self.cpu.x);
    }

    /// INY
    fn inc_y(&mut self)
        requires
            old(self).cpu.noop_cycles <= 252,
        ensures
            *final(final(self).cpu) == *final(old(self).cpu),
            *final(final(self).bus) == *final(old(self).bus),
            final(self).cpu.cycle == old(self).cpu.cycle,
            old(self).cpu.noop_cycles <= final(self).cpu.noop_cycles <= old(self).cpu.noop_cycles + 3,
            final(self).cpu.regs() == (*old(self).cpu).execute(InstrName::INY, AddressingMode::Invalid, 0, 0).regs()
                    && bus_step(InstrName::INY, AddressingMode::Invalid, *old(self).cpu, *old(self).bus, 0, 0, *final(self).bus),
            final(self).cpu.noop_cycles == old(self).cpu.noop_cycles,
    {
        self.cpu.y = self.cpu.y.wrapping_add(1);
        self.update_flags(self.cpu.y);
    }

    /// EOR
    fn xor_acc(&mut self, mode: &AddressingMode)
        requires
            old(self).cpu.noop_cycles <= 252,
            *mode != AddressingMode::Invalid,
        ensures
            *final(final(self).cpu) == *final(old(self).cpu),
            *final(final(self).bus) == *final(old(self).bus),
            final(self).cpu.cycle == old(self).cpu.cycle,
            old(self).cpu.noop_cycles <= final(self).cpu.noop_cycles <= old(self).cpu.noop_cycles + 3,
            exists|v: u8|
                #![auto]
                final(self).cpu.regs() == (*old(self).cpu).execute(InstrName::EOR, *mode, v, 0).regs()
                    && bus_step(InstrName::EOR, *mode, *old(self).cpu, *old(self).bus, v, 0, *final(self).bus)
                    && operand_at(*mode, *old(self).cpu, *old(self).bus, v),
            !is_indexed_mode(*mode) ==> final(self).cpu.noop_cycles == old(self).cpu.noop_cycles,
    {
        let ghost c0 = *self.cpu;
        let mem = self.read_mem(mode);
        self.cpu.acc = self.cpu.acc ^ mem;
        self.update_flags(self.cpu.acc);
        assert(self.cpu.regs() == c0.execute(InstrName::EOR, *mode, mem, 0).regs());
        assert(bus_step(InstrName::EOR, *mode, c0, *old(self).bus, mem, 0, *self.bus));
    }

    /// JMP: the target is the word at the operand address.
    fn jump_to(&mut self, mode: &AddressingMode)
        requires
            old(self).cpu.noop_cycles <= 252,
            *mode == AddressingMode::Absolute || *mode == AddressingMode::Indirect,
        ensures
            *final(final(self).cpu) == *final(old(self).cpu),
            *final(final(self).bus) == *final(old(self).bus),
            final(self).cpu.cycle == old(self).cpu.cycle,
            old(self).cpu.noop_cycles <= final(self).cpu.noop_cycles <= old(self).cpu.noop_cycles + 3,
            exists|w: u16|
                #![auto]
                final(self).cpu.regs() == (*old(self).cpu).execute(InstrName::JMP, *mode, 0, w).regs()
                    && bus_step(InstrName::JMP, *mode, *old(self).cpu, *old(self).bus, 0, w, *final(self).bus),
            !is_indexed_mode(*mode) ==> final(self).cpu.noop_cycles == old(self).cpu.noop_cycles,
    {
        let ghost c0 = *self.cpu;
        let a = self.get_addr(mode);
        let ghost mid = *self.bus;
        let addr = a as usize;
        let w = self.bus.read16(addr);
        assert(addressed(*mode, c0, *old(self).bus, a, mid));
        assert(reads_word_at(mid, a as usize, w, *self.bus));
        self.cpu.pc = w;
        assert(self.cpu.regs() == c0.execute(InstrName::JMP, *mode, 0, w).regs());
        assert(bus_step(InstrName::JMP, *mode, c0, *old(self).bus, 0, w, *self.bus));
    }

    /// JSR: push the PC, then jump as JMP does.
    fn jump_save_ret(&mut self, mode: &AddressingMode)
        requires
            old(self).cpu.noop_cycles <= 252,
            *mode == AddressingMode::Absolute || *mode == AddressingMode::Indirect,
        ensures
            *final(final(self).cpu) == *final(old(self).cpu),
            *final(final(self).bus) == *final(old(self).bus),
            final(self).cpu.cycle == old(self).cpu.cycle,
            old(self).cpu.noop_cycles <= final(self).cpu.noop_cycles <= old(self).cpu.noop_cycles + 3,
            exists|w: u16|
                #![auto]
                final(self).cpu.regs() == (*old(self).cpu).execute(InstrName::JSR, *mode, 0, w).regs()
                    && bus_step(InstrName::JSR, *mode, *old(self).cpu, *old(self).bus, 0, w, *final(self).bus),
            !is_indexed_mode(*mode) ==> final(self).cpu.noop_cycles == old(self).cpu.noop_cycles,
    {
        let ghost c0 = *self.cpu;
        let pc = self.cpu.pc;
        self.push16(pc);
        let ghost m1 = *self.bus;
        let a = self.get_addr(mode);
        let ghost m2 = *self.bus;
        let addr = a as usize;
        let w = self.bus.read16(addr);
        assert(pushed_word(c0.sp, *old(self).bus, c0.pc, m1));
        assert(addressed(*mode, c0.sp_plus(2), m1, a, m2));
        assert(reads_word_at(m2, a as usize, w, *self.bus));
        self.cpu.pc = w;
        assert(self.cpu.regs() == c0.execute(InstrName::JSR, *mode, 0, w).regs());
        assert(bus_step(InstrName::JSR, *mode, c0, *old(self).bus, 0, w, *self.bus));
    }

    /// LDA
    fn load_acc_with_mem(&mut self, mode: &AddressingMode)
        requires
            old(self).cpu.noop_cycles <= 252,
            *mode != AddressingMode::Invalid,
        ensures
            *final(final(self).cpu) == *final(old(self).cpu),
            *final(final(self).bus) == *final(old(self).bus),
            final(self).cpu.cycle == old(self).cpu.cycle,
            old(self).cpu.noop_cycles <= final(self).cpu.noop_cycles <= old(self).cpu.noop_cycles + 3,
            exists|v: u8|
                #![auto]
                final(self).cpu.regs() == (*old(self).cpu).execute(InstrName::LDA, *mode, v, 0).regs()
                    && bus_step(InstrName::LDA, *mode, *old(self).cpu, *old(self).bus, v, 0, *final(self).bus)
                    && operand_at(*mode, *old(self).cpu, *old(self).bus, v),
            !is_indexed_mode(*mode) ==> final(self).cpu.noop_cycles == old(self).cpu.noop_cycles,
    {
        let ghost c0 = *self.cpu;
        let mem = self.read_mem(mode);
        self.cpu.acc = mem;
        self.update_flags(self.cpu.acc);
        assert(self.cpu.regs() == c0.execute(InstrName::LDA, *mode, mem, 0).regs());
        assert(bus_step(InstrName::LDA, *mode, c0, *old(self).bus, mem, 0, *self.bus));
    }

    /// LDX
    fn load_x_with_mem(&mut self, mode: &AddressingMode)
        requires
            old(self).cpu.noop_cycles <= 252,
            *mode != AddressingMode::Invalid,
        ensures
            *final(final(self).cpu) == *final(old(self).cpu),
            *final(final(self).bus) == *final(old(self).bus),
            final(self).cpu.cycle == old(self).cpu.cycle,
            old(self).cpu.noop_cycles <= final(self).cpu.noop_cycles <= old(self).cpu.noop_cycles + 3,
            exists|v: u8|
                #![auto]
                final(self).cpu.regs() == (*old(self).cpu).execute(InstrName::LDX, *mode, v, 0).regs()
                    && bus_step(InstrName::LDX, *mode, *old(self).cpu, *old(self).bus, v, 0, *final(self).bus)
                    && operand_at(*mode, *old(self).cpu, *old(self).bus, v),
            !is_indexed_mode(*mode) ==> final(self).cpu.noop_cycles == old(self).cpu.noop_cycles,
    {
        let ghost c0 = *self.cpu;
        let mem = self.read_mem(mode);
        self.cpu.x = mem;
        self.update_flags(self.cpu.x);
        assert(self.cpu.regs() == c0.execute(InstrName::LDX, *mode, mem, 0).regs());
        assert(bus_step(InstrName::LDX, *mode, c0, *old(self).bus, mem, 0, *self.bus));
    }

    /// LDY
    fn load_y_with_mem(&mut self, mode: &AddressingMode)
        requires
            old(self).cpu.noop_cycles <= 252,
            *mode != AddressingMode::Invalid,
        ensures
            *final(final(self).cpu) == *final(old(self).cpu),
            *final(final(self).bus) == *final(old(self).bus),
            final(self).cpu.cycle == old(self).cpu.cycle,
            old(self).cpu.noop_cycles <= final(self).cpu.noop_cycles <= old(self).cpu.noop_cycles + 3,
            exists|v: u8|
                #![auto]
                final(self).cpu.regs() == (*old(self).cpu).execute(InstrName::LDY, *mode, v, 0).regs()
                    && bus_step(InstrName::LDY, *mode, *old(self).cpu, *old(self).bus, v, 0, *final(self).bus)
                    && operand_at(*mode, *old(self).cpu, *old(self).bus, v),
            !is_indexed_mode(*mode) ==> final(self).cpu.noop_cycles == old(self).cpu.noop_cycles,
    {
        let ghost c0 = *self.cpu;
        let mem = self.read_mem(mode);
        self.cpu.y = mem;
        self.update_flags(self.cpu.y);
        assert(self.cpu.regs() == c0.execute(InstrName::LDY, *mode, mem, 0).regs());
        assert(bus_step(InstrName::LDY, *mode, c0, *old(self).bus, mem, 0, *self.bus));
    }

    /// LSR
    fn shift_right(&mut self, mode: &AddressingMode)
        requires
            old(self).cpu.noop_cycles <= 252,
            *mode != AddressingMode::Invalid && *mode != AddressingMode::Immediate && *mode
                != AddressingMode::Relative,
        ensures
            *final(final(self).cpu) == *final(old(self).cpu),
            *final(final(self).bus) == *final(old(self).bus),
            final(self).cpu.cycle == old(self).cpu.cycle,
            old(self).cpu.noop_cycles <= final(self).cpu.noop_cycles <= old(self).cpu.noop_cycles + 3,
            exists|v: u8|
                #![auto]
                final(self).cpu.regs() == (*old(self).cpu).execute(InstrName::LSR, *mode, v, 0).regs()
                    && bus_step(InstrName::LSR, *mode, *old(self).cpu, *old(self).bus, v, 0, *final(self).bus)
                    && operand_at(*mode, *old(self).cpu, *old(self).bus, v),
            !is_indexed_mode(*mode) ==> final(self).cpu.noop_cycles == old(self).cpu.noop_cycles,
    {
        let ghost c0 = *self.cpu;
        let v = self.read_mem(mode);
        let ghost mid = *self.bus;
        let carry = (v & 0x01) != 0;
        let mem = v >> 1u8;
        let ghost cw = *self.cpu;
        self.write_mem(mode, mem);
        proof {
            lemma_stored_at_cpu(*mode, cw, *old(self).cpu, mid, mem, *self.bus);
            assert(operand_read(*mode, *old(self).cpu, *old(self).bus, v, mid));
        }
        self.update_flags(mem);
        self.cpu.status.set(carry, Status::CARRY);
        assert(self.cpu.regs() == c0.execute(InstrName::LSR, *mode, v, 0).regs());
        assert(bus_step(InstrName::LSR, *mode, c0, *old(self).bus, v, 0, *self.bus));
    }

    /// ORA
    fn or_acc(&mut self, mode: &AddressingMode)
        requires
            old(self).cpu.noop_cycles <= 252,
            *mode != AddressingMode::Invalid,
        ensures
            *final(final(self).cpu) == *final(old(self).cpu),
            *final(final(self).bus) == *final(old(self).bus),
            final(self).cpu.cycle == old(self).cpu.cycle,
            old(self).cpu.noop_cycles <= final(self).cpu.noop_cycles <= old(self).cpu.noop_cycles + 3,
            exists|v: u8|
                #![auto]
                final(self).cpu.regs() == (*old(self).cpu).execute(InstrName::ORA, *mode, v, 0).regs()
                    && bus_step(InstrName::ORA, *mode, *old(self).cpu, *old(self).bus, v, 0, *final(self).bus)
                    && operand_at(*mode, *old(self).cpu, *old(self).bus, v),
            !is_indexed_mode(*mode) ==> final(self).cpu.noop_cycles == old(self).cpu.noop_cycles,
    {
        let ghost c0 = *self.cpu;
        let mem = self.read_mem(mode);
        self.cpu.acc = self.cpu.acc | mem;
        self.update_flags(self.cpu.acc);
        assert(self.cpu.regs() == c0.execute(InstrName::ORA, *mode, mem, 0).regs());
        assert(bus_step(InstrName::ORA, *mode, c0, *old(self).bus, mem, 0, *self.bus));
    }

    /// PHA
    fn push_acc(&mut self)
        requires
            old(self).cpu.noop_cycles <= 252,
        ensures
            *final(final(self).cpu) == *final(old(self).cpu),
            *final(final(self).bus) == *final(old(self).bus),
            final(self).cpu.cycle == old(self).cpu.cycle,
            old(self).cpu.noop_cycles <= final(self).cpu.noop_cycles <= old(self).cpu.noop_cycles + 3,
            final(self).cpu.regs() == (*old(self).cpu).execute(InstrName::PHA, AddressingMode::Invalid, 0, 0).regs()
                    && bus_step(InstrName::PHA, AddressingMode::Invalid, *old(self).cpu, *old(self).bus, 0, 0, *final(self).bus),
            final(self).cpu.noop_cycles == old(self).cpu.noop_cycles,
    {
        self.push8(self.cpu.acc);
    }

    /// PHP
    fn push_status(&mut self)
        requires
            old(self).cpu.noop_cycles <= 252,
        ensures
            *final(final(self).cpu) == *final(old(self).cpu),
            *final(final(self).bus) == *final(old(self).bus),
            final(self).cpu.cycle == old(self).cpu.cycle,
            old(self).cpu.noop_cycles <= final(self).cpu.noop_cycles <= old(self).cpu.noop_cycles + 3,
            final(self).cpu.regs() == (*old(self).cpu).execute(InstrName::PHP, AddressingMode::Invalid, 0, 0).regs()
                    && bus_step(InstrName::PHP, AddressingMode::Invalid, *old(self).cpu, *old(self).bus, 0, 0, *final(self).bus),
            final(self).cpu.noop_cycles == old(self).cpu.noop_cycles,
    {
        self.push8(self.cpu.status.to_u8());
    }

    /// PLA: the flags are left as they are.
    fn pull_acc(&mut self)
        requires
            old(self).cpu.noop_cycles <= 252,
        ensures
            *final(final(self).cpu) == *final(old(self).cpu),
            *final(final(self).bus) == *final(old(self).bus),
            final(self).cpu.cycle == old(self).cpu.cycle,
            old(self).cpu.noop_cycles <= final(self).cpu.noop_cycles <= old(self).cpu.noop_cycles + 3,
            exists|v: u8|
                #![auto]
                final(self).cpu.regs() == (*old(self).cpu).execute(InstrName::PLA, AddressingMode::Invalid, v, 0).regs()
                    && bus_step(InstrName::PLA, AddressingMode::Invalid, *old(self).cpu, *old(self).bus, v, 0, *final(self).bus),
            final(self).cpu.noop_cycles == old(self).cpu.noop_cycles,
    {
        let ghost c0 = *self.cpu;
        let v = self.pop8();
        self.cpu.acc = v;
        assert(self.cpu.regs() == c0.execute(InstrName::PLA, AddressingMode::Invalid, v, 0).regs());
        assert(bus_step(InstrName::PLA, AddressingMode::Invalid, c0, *old(self).bus, v, 0, *self.bus));
    }

    /// PLP
    fn pull_status(&mut self)
        requires
            old(self).cpu.noop_cycles <= 252,
        ensures
            *final(final(self).cpu) == *final(old(self).cpu),
            *final(final(self).bus) == *final(old(self).bus),
            final(self).cpu.cycle == old(self).cpu.cycle,
            old(self).cpu.noop_cycles <= final(self).cpu.noop_cycles <= old(self).cpu.noop_cycles + 3,
            exists|v: u8|
                #![auto]
                final(self).cpu.regs() == (*old(self).cpu).execute(InstrName::PLP, AddressingMode::Invalid, v, 0).regs()
                    && bus_step(InstrName::PLP, AddressingMode::Invalid, *old(self).cpu, *old(self).bus, v, 0, *final(self).bus),
            final(self).cpu.noop_cycles == old(self).cpu.noop_cycles,
    {
        let ghost c0 = *self.cpu;
        let v = self.pop8();
        self.cpu.status = Status::from_flags(v);
        assert(self.cpu.regs() == c0.execute(InstrName::PLP, AddressingMode::Invalid, v, 0).regs());
        assert(bus_step(InstrName::PLP, AddressingMode::Invalid, c0, *old(self).bus, v, 0, *self.bus));
    }

    /// ROL
    fn rotate_left(&mut self, mode: &AddressingMode)
        requires
            old(self).cpu.noop_cycles <= 252,
            *mode != AddressingMode::Invalid && *mode != AddressingMode::Immediate && *mode
                != AddressingMode::Relative,
        ensures
            *final(final(self).cpu) == *final(old(self).cpu),
            *final(final(self).bus) == *final(old(self).bus),
            final(self).cpu.cycle == old(self).cpu.cycle,
            old(self).cpu.noop_cycles <= final(self).cpu.noop_cycles <= old(self).cpu.noop_cycles + 3,
            exists|v: u8|
                #![auto]
                final(self).cpu.regs() == (*old(self).cpu).execute(InstrName::ROL, *mode, v, 0).regs()
                    && bus_step(InstrName::ROL, *mode, *old(self).cpu, *old(self).bus, v, 0, *final(self).bus)
                    && operand_at(*mode, *old(self).cpu, *old(self).bus, v),
            !is_indexed_mode(*mode) ==> final(self).cpu.noop_cycles == old(self).cpu.noop_cycles,
    {
        let ghost c0 = *self.cpu;
        let carry = self.cpu.status.get(Status::CARRY);
        let mem = self.read_mem(mode);
        let ghost mid = *self.bus;
        self.cpu.status.set((mem & 0x80) != 0, Status::CARRY);
        let cin: u8 = if carry {
            1
        } else {
            0
        };
        let val = (mem << 1u8) | cin;
        let ghost cw = *self.cpu;
        self.write_mem(mode, val);
        proof {
            lemma_stored_at_cpu(*mode, cw, *old(self).cpu, mid, val, *self.bus);
            assert(operand_read(*mode, *old(self).cpu, *old(self).bus, mem, mid));
        }
        self.update_flags(val);
        assert(self.cpu.regs() == c0.execute(InstrName::ROL, *mode, mem, 0).regs());
        assert(bus_step(InstrName::ROL, *mode, c0, *old(self).bus, mem, 0, *self.bus));
    }

    /// ROR
    fn rotate_right(&mut self, mode: &AddressingMode)
        requires
            old(self).cpu.noop_cycles <= 252,
            *mode != AddressingMode::Invalid && *mode != AddressingMode::Immediate && *mode
                != AddressingMode::Relative,
        ensures
            *final(final(self).cpu) == *final(old(self).cpu),
            *final(final(self).bus) == *final(old(self).bus),
            final(self).cpu.cycle == old(self).cpu.cycle,
            old(self).cpu.noop_cycles <= final(self).cpu.noop_cycles <= old(self).cpu.noop_cycles + 3,
            exists|v: u8|
                #![auto]
                final(self).cpu.regs() == (*old(self).cpu).execute(InstrName::ROR, *mode, v, 0).regs()
                    && bus_step(InstrName::ROR, *mode, *old(self).cpu, *old(self).bus, v, 0, *final(self).bus)
                    && operand_at(*mode, *old(self).cpu, *old(self).bus, v),
            !is_indexed_mode(*mode) ==> final(self).cpu.noop_cycles == old(self).cpu.noop_cycles,
    {
        let ghost c0 = *self.cpu;
        let carry = self.cpu.status.get(Status::CARRY);
        let mem = self.read_mem(mode);
        let ghost mid = *self.bus;
        self.cpu.status.set((mem & 0x01) != 0, Status::CARRY);
        let cin: u8 = if carry {
            1
        } else {
            0
        };
        let val = (mem >> 1u8) | (cin << 7u8);
        let ghost cw = *self.cpu;
        self.write_mem(mode, val);
        proof {
            lemma_stored_at_cpu(*mode, cw, *old(self).cpu, mid, val, *self.bus);
            assert(operand_read(*mode, *old(self).cpu, *old(self).bus, mem, mid));
        }
        self.update_flags(val);
        assert(self.cpu.regs() == c0.execute(InstrName::ROR, *mode, mem, 0).regs());
        assert(bus_step(InstrName::ROR, *mode, c0, *old(self).bus, mem, 0, *self.bus));
    }

    /// RTI: pull the status, then the PC.
    fn ret_from_interrupt(&mut self)
        requires
            old(self).cpu.noop_cycles <= 252,
        ensures
            *final(final(self).cpu) == *final(old(self).cpu),
            *final(final(self).bus) == *final(old(self).bus),
            final(self).cpu.cycle == old(self).cpu.cycle,
            old(self).cpu.noop_cycles <= final(self).cpu.noop_cycles <= old(self).cpu.noop_cycles + 3,
            exists|v: u8, w: u16|
                #![auto]
                final(self).cpu.regs() == (*old(self).cpu).execute(InstrName::RTI, AddressingMode::Invalid, v, w).regs()
                    && bus_step(InstrName::RTI, AddressingMode::Invalid, *old(self).cpu, *old(self).bus, v, w, *final(self).bus),
            final(self).cpu.noop_cycles == old(self).cpu.noop_cycles,
    {
        let ghost c0 = *self.cpu;
        let v = self.pull_status_byte();
        let w = self.pop16();
        self.cpu.pc = w;
        assert(self.cpu.regs() == c0.execute(InstrName::RTI, AddressingMode::Invalid, v, w).regs());
        assert(bus_step(InstrName::RTI, AddressingMode::Invalid, c0, *old(self).bus, v, w, *self.bus));
    }

    /// RTS
    fn ret_from_subr(&mut self)
        requires
            old(self).cpu.noop_cycles <= 252,
        ensures
            *final(final(self).cpu) == *final(old(self).cpu),
            *final(final(self).bus) == *final(old(self).bus),
            final(self).cpu.cycle == old(self).cpu.cycle,
            old(self).cpu.noop_cycles <= final(self).cpu.noop_cycles <= old(self).cpu.noop_cycles + 3,
            exists|v: u8, w: u16|
                #![auto]
                final(self).cpu.regs() == (*old(self).cpu).execute(InstrName::RTS, AddressingMode::Invalid, v, w).regs()
                    && bus_step(InstrName::RTS, AddressingMode::Invalid, *old(self).cpu, *old(self).bus, v, w, *final(self).bus),
            final(self).cpu.noop_cycles == old(self).cpu.noop_cycles,
    {
        let ghost c0 = *self.cpu;
        let w = self.pop16();
        self.cpu.pc = w.wrapping_add(1);
        assert(self.cpu.regs() == c0.execute(InstrName::RTS, AddressingMode::Invalid, 0, w).regs());
        assert(bus_step(InstrName::RTS, AddressingMode::Invalid, c0, *old(self).bus, 0, w, *self.bus));
    }

    /// SBC: the overflow flag takes the borrow.
    fn sub_with_carry(&mut self, mode: &AddressingMode)
        requires
            old(self).cpu.noop_cycles <= 252,
            *mode != AddressingMode::Invalid,
        ensures
            *final(final(self).cpu) == *final(old(self).cpu),
            *final(final(self).bus) == *final(old(self).bus),
            final(self).cpu.cycle == old(self).cpu.cycle,
            old(self).cpu.noop_cycles <= final(self).cpu.noop_cycles <= old(self).cpu.noop_cycles + 3,
            exists|v: u8|
                #![auto]
                final(self).cpu.regs() == (*old(self).cpu).execute(InstrName::SBC, *mode, v, 0).regs()
                    && bus_step(InstrName::SBC, *mode, *old(self).cpu, *old(self).bus, v, 0, *final(self).bus)
                    && operand_at(*mode, *old(self).cpu, *old(self).bus, v),
            !is_indexed_mode(*mode) ==> final(self).cpu.noop_cycles == old(self).cpu.noop_cycles,
    {
        let ghost c0 = *self.cpu;
        let mem = self.read_mem(mode);
        let c: u8 = if self.cpu.status.get(Status::CARRY) {
            1
        } else {
            0
        };
        let (result, over1) = overflowing_sub(self.cpu.acc, mem);
        let (result, over2) = overflowing_sub(result, c);
        let over_carry = over1 || over2;
        self.cpu.status.set(over_carry, Status::CARRY);
        self.cpu.status.set(over_carry, Status::OVERFLOW);
        self.cpu.acc = result;
        self.update_flags(self.cpu.acc);
        assert(self.cpu.regs() == c0.execute(InstrName::SBC, *mode, mem, 0).regs());
        assert(bus_step(InstrName::SBC, *mode, c0, *old(self).bus, mem, 0, *self.bus));
    }

    /// STA
    fn store_acc_mem(&mut self, mode: &AddressingMode)
        requires
            old(self).cpu.noop_cycles <= 252,
            *mode != AddressingMode::Invalid && *mode != AddressingMode::Immediate && *mode
                != AddressingMode::Relative,
        ensures
            *final(final(self).cpu) == *final(old(self).cpu),
            *final(final(self).bus) == *final(old(self).bus),
            final(self).cpu.cycle == old(self).cpu.cycle,
            old(self).cpu.noop_cycles <= final(self).cpu.noop_cycles <= old(self).cpu.noop_cycles + 3,
            final(self).cpu.regs() == (*old(self).cpu).execute(InstrName::STA, *mode, 0, 0).regs()
                    && bus_step(InstrName::STA, *mode, *old(self).cpu, *old(self).bus, 0, 0, *final(self).bus),
            *mode != AddressingMode::Accumulator ==> exists|a: u16, mid: BusType|
                #[trigger] addressed(*mode, *old(self).cpu, *old(self).bus, a, mid) && mid.writes(
                    a as usize,
                    old(self).cpu.acc,
                    *final(self).bus,
                ),
            !is_indexed_mode(*mode) ==> final(self).cpu.noop_cycles == old(self).cpu.noop_cycles,
    {
        let v = self.cpu.acc;
        self.write_mem(mode, v);
    }

    /// STX
    fn store_x_mem(&mut self, mode: &AddressingMode)
        requires
            old(self).cpu.noop_cycles <= 252,
            *mode != AddressingMode::Invalid && *mode != AddressingMode::Immediate && *mode
                != AddressingMode::Relative,
        ensures
            *final(final(self).cpu) == *final(old(self).cpu),
            *final(final(self).bus) == *final(old(self).bus),
            final(self).cpu.cycle == old(self).cpu.cycle,
            old(self).cpu.noop_cycles <= final(self).cpu.noop_cycles <= old(self).cpu.noop_cycles + 3,
            final(self).cpu.regs() == (*old(self).cpu).execute(InstrName::STX, *mode, 0, 0).regs()
                    && bus_step(InstrName::STX, *mode, *old(self).cpu, *old(self).bus, 0, 0, *final(self).bus),
            !is_indexed_mode(*mode) ==> final(self).cpu.noop_cycles == old(self).cpu.noop_cycles,
    {
        let v = self.cpu.x;
        self.write_mem(mode, v);
    }

    /// STY
    fn store_y_mem(&mut self, mode: &AddressingMode)
        requires
            old(self).cpu.noop_cycles <= 252,
            *mode != AddressingMode::Invalid && *mode != AddressingMode::Immediate && *mode
                != AddressingMode::Relative,
        ensures
            *final(final(self).cpu) == *final(old(self).cpu),
            *final(final(self).bus) == *final(old(self).bus),
            final(self).cpu.cycle == old(self).cpu.cycle,
            old(self).cpu.noop_cycles <= final(self).cpu.noop_cycles <= old(self).cpu.noop_cycles + 3,
            final(self).cpu.regs() == (*old(self).cpu).execute(InstrName::STY, *mode, 0, 0).regs()
                    && bus_step(InstrName::STY, *mode, *old(self).cpu, *old(self).bus, 0, 0, *final(self).bus),
            !is_indexed_mode(*mode) ==> final(self).cpu.noop_cycles == old(self).cpu.noop_cycles,
    {
        let v = self.cpu.y;
        self.write_mem(mode, v);
    }

    /// TAX
    fn tx_acc_to_x(&mut self)
        requires
            old(self).cpu.noop_cycles <= 252,
        ensures
            *final(final(self).cpu) == *final(old(self).cpu),
            *final(final(self).bus) == *final(old(self).bus),
            final(self).cpu.cycle == old(self).cpu.cycle,
            old(self).cpu.noop_cycles <= final(self).cpu.noop_cycles <= old(self).cpu.noop_cycles + 3,
            final(self).cpu.regs() == (*old(self).cpu).execute(InstrName::TAX, AddressingMode::Invalid, 0, 0).regs()
                    && bus_step(InstrName::TAX, AddressingMode::Invalid, *old(self).cpu, *old(self).bus, 0, 0, *final(self).bus),
            final(self).cpu.noop_cycles == old(self).cpu.noop_cycles,
    {
        self.cpu.x = self.cpu.acc;
        self.update_flags(self.cpu.x);
    }

    /// TAY
    fn tx_acc_to_y(&mut self)
        requires
            old(self).cpu.noop_cycles <= 252,
        ensures
            *final(final(self).cpu) == *final(old(self).cpu),
            *final(final(self).bus) == *final(old(self).bus),
            final(self).cpu.cycle == old(self).cpu.cycle,
            old(self).cpu.noop_cycles <= final(self).cpu.noop_cycles <= old(self).cpu.noop_cycles + 3,
            final(self).cpu.regs() == (*old(self).cpu).execute(InstrName::TAY, AddressingMode::Invalid, 0, 0).regs()
                    && bus_step(InstrName::TAY, AddressingMode::Invalid, *old(self).cpu, *old(self).bus, 0, 0, *final(self).bus),
            final(self).cpu.noop_cycles == old(self).cpu.noop_cycles,
    {
        self.cpu.y = self.cpu.acc;
        self.update_flags(self.cpu.y);
    }

    /// TSX
    fn tx_sp_to_x(&mut self)
        requires
            old(self).cpu.noop_cycles <= 252,
        ensures
            *final(final(self).cpu) == *final(old(self).cpu),
            *final(final(self).bus) == *final(old(self).bus),
            final(self).cpu.cycle == old(self).cpu.cycle,
            old(self).cpu.noop_cycles <= final(self).cpu.noop_cycles <= old(self).cpu.noop_cycles + 3,
            final(self).cpu.regs() == (*old(self).cpu).execute(InstrName::TSX, AddressingMode::Invalid, 0, 0).regs()
                    && bus_step(InstrName::TSX, AddressingMode::Invalid, *old(self).cpu, *old(self).bus, 0, 0, *final(self).bus),
            final(self).cpu.noop_cycles == old(self).cpu.noop_cycles,
    {
        self.cpu.x = self.cpu.sp;
        self.update_flags(self.cpu.x);
    }

    /// TXA
    fn tx_x_to_acc(&mut self)
        requires
            old(self).cpu.noop_cycles <= 252,
        ensures
            *final(final(self).cpu) == *final(old(self).cpu),
            *final(final(self).bus) == *final(old(self).bus),
            final(self).cpu.cycle == old(self).cpu.cycle,
            old(self).cpu.noop_cycles <= final(self).cpu.noop_cycles <= old(self).cpu.noop_cycles + 3,
            final(self).cpu.regs() == (*old(self).cpu).execute(InstrName::TXA, AddressingMode::Invalid, 0, 0).regs()
                    && bus_step(InstrName::TXA, AddressingMode::Invalid, *old(self).cpu, *old(self).bus, 0, 0, *final(self).bus),
            final(self).cpu.noop_cycles == old(self).cpu.noop_cycles,
    {
        self.cpu.acc = self.cpu.x;
        self.update_flags(self.cpu.acc);
    }

    /// TXS
    fn tx_x_to_sp(&mut self)
        requires
            old(self).cpu.noop_cycles <= 252,
        ensures
            *final(final(self).cpu) == *final(old(self).cpu),
            *final(final(self).bus) == *final(old(self).bus),
            final(self).cpu.cycle == old(self).cpu.cycle,
            old(self).cpu.noop_cycles <= final(self).cpu.noop_cycles <= old(self).cpu.noop_cycles + 3,
            final(self).cpu.regs() == (*old(self).cpu).execute(InstrName::TXS, AddressingMode::Invalid, 0, 0).regs()
                    && bus_step(InstrName::TXS, AddressingMode::Invalid, *old(self).cpu, *old(self).bus, 0, 0, *final(self).bus),
            final(self).cpu.noop_cycles == old(self).cpu.noop_cycles,
    {
        self.cpu.sp = self.cpu.x;
    }

    /// TYA
    fn tx_y_to_acc(&mut self)
        requires
            old(self).cpu.noop_cycles <= 252,
        ensures
            *final(final(self).cpu) == *final(old(self).cpu),
            *final(final(self).bus) == *final(old(self).bus),
            final(self).cpu.cycle == old(self).cpu.cycle,
            old(self).cpu.noop_cycles <= final(self).cpu.noop_cycles <= old(self).cpu.noop_cycles + 3,
            final(self).cpu.regs() == (*old(self).cpu).execute(InstrName::TYA, AddressingMode::Invalid, 0, 0).regs()
                    && bus_step(InstrName::TYA, AddressingMode::Invalid, *old(self).cpu, *old(self).bus, 0, 0, *final(self).bus),
            final(self).cpu.noop_cycles == old(self).cpu.noop_cycles,
    {
        self.cpu.acc = self.cpu.y;
        self.update_flags(self.cpu.acc);
    }

    /// NOP
    fn nop(&mut self)
        requires
            old(self).cpu.noop_cycles <= 252,
        ensures
            *final(final(self).cpu) == *final(old(self).cpu),
            *final(final(self).bus) == *final(old(self).bus),
            final(self).cpu.cycle == old(self).cpu.cycle,
            old(self).cpu.noop_cycles <= final(self).cpu.noop_cycles <= old(self).cpu.noop_cycles + 3,
            final(self).cpu.regs() == (*old(self).cpu).execute(InstrName::NOP, AddressingMode::Invalid, 0, 0).regs()
                    && bus_step(InstrName::NOP, AddressingMode::Invalid, *old(self).cpu, *old(self).bus, 0, 0, *final(self).bus),
            final(self).cpu.noop_cycles == old(self).cpu.noop_cycles,
    {
    }

}

impl<BusType: Bus> Clocked<BusType> for Ricoh2A03 {
    /// One clock cycle: finish the cycles of the current instruction, or fetch, decode and
    /// run the next one. An opcode the table does not hold is stepped over.
    #[verifier::rlimit(100)]
    #[verifier::spinoff_prover]
    fn clock(&mut self, bus: &mut BusType)
        ensures
            final(self).cycle == old(self).cycle.wrapping_add(1),
            old(self).noop_cycles > 0 ==> *final(self) == (Ricoh2A03 {
                cycle: old(self).cycle.wrapping_add(1),
                noop_cycles: (old(self).noop_cycles - 1) as u8,
                ..*old(self)
            }),
            old(self).noop_cycles == 0 ==> exists|op: u8, b1: BusType|
                #![trigger old(bus).reads(old(self).pc as usize, op, b1)]
                old(bus).reads(old(self).pc as usize, op, b1) && (instruction_table(op).name
                    == InstrName::INV ==> final(self).noop_cycles == 0) && (instruction_table(
                    op,
                ).name != InstrName::INV ==> final(self).noop_cycles >= instruction_table(
                    op,
                ).cycles - 1) && (instruction_table(op).name != InstrName::INV && !is_branch_op(
                    instruction_table(op).name,
                ) && !is_indexed_mode(instruction_table(op).mode) ==> final(self).noop_cycles
                    == instruction_table(op).cycles - 1) && exists|v: u8, w: u16|
                    #![trigger old(self).step(instruction_table(op), v, w)]
                    final(self).regs() == old(self).step(instruction_table(op), v, w).regs() && (
                    takes_operand(instruction_table(op).name) ==> operand_at(
                        instruction_table(op).mode,
                        Ricoh2A03 { pc: old(self).pc.wrapping_add(1), ..*old(self) },
                        b1,
                        v,
                    )) && (instruction_table(op).name != InstrName::INV ==> bus_step(
                        instruction_table(op).name,
                        instruction_table(op).mode,
                        Ricoh2A03 {
                            pc: old(self).pc.wrapping_add(1),
                            cycle: old(self).cycle.wrapping_add(1),
                            noop_cycles: (instruction_table(op).cycles - 1) as u8,
                            ..*old(self)
                        },
                        b1,
                        v,
                        w,
                        *final(bus),
                    )) && (instruction_table(op).name == InstrName::INV ==> *final(bus) == b1)
                    && (is_branch_op(instruction_table(op).name) ==> final(self).noop_cycles
                        == instruction_table(op).cycles - 1 + (if branch_cond(
                        instruction_table(op).name,
                        *old(self),
                    ) {
                        branch_wait(old(self).pc.wrapping_add(1), v)
                    } else {
                        0
                    })),
    {
        let ghost c0 = *self;
        self.cycle = self.cycle.wrapping_add(1);
        if self.noop_cycles > 0 {
            self.noop_cycles = self.noop_cycles - 1;
            return;
        }
        let ghost b0 = *bus;
        let opcode = bus.read(self.pc as usize);
        let ghost b1 = *bus;
        let instr = get_from(opcode);
        proof {
            lemma_table_entries_ok(opcode);
        }
        if instr.name == InstrName::INV {
            self.incr_pc(1);
            assert(self.regs() == c0.step(instruction_table(opcode), 0, 0).regs());
            assert(b0.reads(c0.pc as usize, opcode, b1));
            return;
        }
        // 1 cycle we use to execute the instruction
        self.noop_cycles = instr.cycles() - 1;
        self.incr_pc(1);
        let mode = *instr.mode();
        let ghost c1 = *self;
        match instr.name() {
            // BRANCHES
            InstrName::BPL => self.connect(bus).branch_if_pos(&mode),
            InstrName::BMI => self.connect(bus).branch_if_neg(&mode),
            InstrName::BVC => self.connect(bus).branch_if_overflow_clear(&mode),
            InstrName::BVS => self.connect(bus).branch_if_overflow_set(&mode),
            InstrName::BCC => self.connect(bus).branch_if_carry_clear(&mode),
            InstrName::BCS => self.connect(bus).branch_if_carry_set(&mode),
            InstrName::BNE => self.connect(bus).branch_if_not_zero(&mode),
            InstrName::BEQ => self.connect(bus).branch_if_zero(&mode),
            InstrName::ADC => self.connect(bus).add_with_carry(&mode),
            InstrName::AND => self.connect(bus).and_with_acc(&mode),
            InstrName::SBC => self.connect(bus).sub_with_carry(&mode),
            InstrName::ORA => self.connect(bus).or_acc(&mode),
            InstrName::LDY => self.connect(bus).load_y_with_mem(&mode),
            InstrName::LDX => self.connect(bus).load_x_with_mem(&mode),
            InstrName::LDA => self.connect(bus).load_acc_with_mem(&mode),
            InstrName::EOR => self.connect(bus).xor_acc(&mode),
            InstrName::CPY => self.connect(bus).compare_with_y(&mode),
            InstrName::CPX => self.connect(bus).compare_with_x(&mode),
            InstrName::CMP => self.connect(bus).compare_with_acc(&mode),
            InstrName::BIT => self.connect(bus).test_bits(&mode),
            InstrName::ASL => self.connect(bus).shift_left(&mode),
            InstrName::LSR => self.connect(bus).shift_right(&mode),
            InstrName::JSR => self.connect(bus).jump_save_ret(&mode),
            InstrName::JMP => self.connect(bus).jump_to(&mode),
            InstrName::STY => self.connect(bus).store_y_mem(&mode),
            InstrName::STX => self.connect(bus).store_x_mem(&mode),
            InstrName::STA => self.connect(bus).store_acc_mem(&mode),
            InstrName::ROL => self.connect(bus).rotate_left(&mode),
            InstrName::ROR => self.connect(bus).rotate_right(&mode),
            InstrName::INC => self.connect(bus).inc_mem(&mode),
            InstrName::DEC => self.connect(bus).dec_mem(&mode),
            InstrName::CLV => self.connect(bus).clear_overflow(),
            InstrName::CLI => self.connect(bus).clear_interrupt(),
            InstrName::CLC => self.connect(bus).clear_carry(),
            InstrName::CLD => self.connect(bus).clear_decimal(),
            InstrName::DEX => self.connect(bus).dec_x(),
            InstrName::DEY => self.connect(bus).dec_y(),
            InstrName::INY => self.connect(bus).inc_y(),
            InstrName::INX => self.connect(bus).inc_x(),
            InstrName::TAY => self.connect(bus).tx_acc_to_y(),
            InstrName::TAX => self.connect(bus).tx_acc_to_x(),
            InstrName::TYA => self.connect(bus).tx_y_to_acc(),
            InstrName::TXA => self.connect(bus).tx_x_to_acc(),
            InstrName::TXS => self.connect(bus).tx_x_to_sp(),
            InstrName::TSX => self.connect(bus).tx_sp_to_x(),
            InstrName::SEI => self.connect(bus).set_interrupt(),
            InstrName::SED => self.connect(bus).set_decimal(),
            InstrName::SEC => self.connect(bus).set_carry(),
            InstrName::RTS => self.connect(bus).ret_from_subr(),
            InstrName::RTI => self.connect(bus).ret_from_interrupt(),
            InstrName::PLP => self.connect(bus).pull_status(),
            InstrName::PLA => self.connect(bus).pull_acc(),
            InstrName::PHP => self.connect(bus).push_status(),
            InstrName::PHA => self.connect(bus).push_acc(),
            InstrName::BRK => self.connect(bus).force_break(),
            InstrName::NOP => self.connect(bus).nop(),
            InstrName::INV => {},
        }
        proof {
            assert(exists|v: u8, w: u16| #![auto] self.regs() == c1.execute(instr.name, mode, v, w).regs()
                && (takes_operand(instr.name) ==> operand_at(mode, c1, b1, v))
                && (is_branch_op(instr.name) ==> self.noop_cycles == c1.noop_cycles + (if branch_cond(instr.name, c1) { branch_wait(c1.pc, v) } else { 0 }))
                && bus_step(instr.name, mode, c1, b1, v, w, *bus));
            let (v, w) = choose|v: u8, w: u16| #![auto] self.regs() == c1.execute(instr.name, mode, v, w).regs()
                && (takes_operand(instr.name) ==> operand_at(mode, c1, b1, v))
                && (is_branch_op(instr.name) ==> self.noop_cycles == c1.noop_cycles + (if branch_cond(instr.name, c1) { branch_wait(c1.pc, v) } else { 0 }))
                && bus_step(instr.name, mode, c1, b1, v, w, *bus);
            lemma_execute_regs(c1, Ricoh2A03 { pc: c0.pc.wrapping_add(1), ..c0 }, instr.name, mode, v, w);
            assert(instruction_table(opcode) == instr);
        }
        let ghost after_op = *self;
        let n: u16 = match mode {
            AddressingMode::ZeroPage | AddressingMode::ZeroPageX | AddressingMode::ZeroPageY
            | AddressingMode::IndirectX | AddressingMode::IndirectY | AddressingMode::Immediate
            | AddressingMode::Relative => 1,
            AddressingMode::Absolute | AddressingMode::AbsoluteX | AddressingMode::AbsoluteY
            | AddressingMode::Indirect => 2,
            AddressingMode::Accumulator | AddressingMode::Invalid => 0,
        };
        self.incr_pc(n);
        proof {
            let (v, w) = choose|v: u8, w: u16| #![auto] after_op.regs() == c1.execute(instr.name, mode, v, w).regs()
                && (takes_operand(instr.name) ==> operand_at(mode, c1, b1, v))
                && (is_branch_op(instr.name) ==> self.noop_cycles == c1.noop_cycles + (if branch_cond(instr.name, c1) { branch_wait(c1.pc, v) } else { 0 }))
                && bus_step(instr.name, mode, c1, b1, v, w, *bus);
            assert(self.regs() == c0.step(instruction_table(opcode), v, w).regs());
            lemma_operand_at_regs(mode, c1, Ricoh2A03 { pc: c0.pc.wrapping_add(1), ..c0 }, b1, v);
            assert(b0.reads(c0.pc as usize, opcode, b1));
        }
    }
}

/// What an instruction does to the registers depends on the registers alone.
#[verifier::rlimit(100)]
proof fn lemma_execute_regs(a: Ricoh2A03, b: Ricoh2A03, name: InstrName, mode: AddressingMode, v: u8, w: u16)
    requires
        a.regs() == b.regs(),
    ensures
        a.execute(name, mode, v, w).regs() == b.execute(name, mode, v, w).regs(),
{
    match name {
        InstrName::ORA => {},
        InstrName::AND => {},
        InstrName::EOR => {},
        InstrName::ADC => {},
        InstrName::STA => {},
        InstrName::LDA => {},
        InstrName::CMP => {},
        InstrName::SBC => {},
        InstrName::ASL => {},
        InstrName::ROL => {},
        InstrName::LSR => {},
        InstrName::ROR => {},
        InstrName::STX => {},
        InstrName::LDX => {},
        InstrName::DEC => {},
        InstrName::INC => {},
        InstrName::BIT => {},
        InstrName::JMP => {},
        InstrName::STY => {},
        InstrName::LDY => {},
        InstrName::CPY => {},
        InstrName::CPX => {},
        InstrName::BPL => {},
        InstrName::BMI => {},
        InstrName::BVC => {},
        InstrName::BVS => {},
        InstrName::BCC => {},
        InstrName::BCS => {},
        InstrName::BNE => {},
        InstrName::BEQ => {},
        InstrName::BRK => {},
        InstrName::JSR => {},
        InstrName::RTI => {},
        InstrName::RTS => {},
        InstrName::NOP => {},
        InstrName::TYA => {},
        InstrName::TXA => {},
        InstrName::TAY => {},
        InstrName::TAX => {},
        InstrName::TXS => {},
        InstrName::TSX => {},
        InstrName::PLP => {},
        InstrName::PLA => {},
        InstrName::PHP => {},
        InstrName::PHA => {},
        InstrName::INX => {},
        InstrName::INY => {},
        InstrName::DEX => {},
        InstrName::DEY => {},
        InstrName::SEI => {},
        InstrName::SED => {},
        InstrName::SEC => {},
        InstrName::CLV => {},
        InstrName::CLI => {},
        InstrName::CLC => {},
        InstrName::CLD => {},
        InstrName::INV => {},
    }
}

} // verus!
