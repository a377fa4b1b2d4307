//! Fetch, decode and execute of one instruction at a time.
use super::{
    branch_target, crosses_page, signed, decode_instruction, instr_ok, is_bit_set, is_flow_name,
    is_branch_name,
    is_negative, lemma_opcode_table_ok, mode_size, opcode_table, spec_crosses_page, xor, Bus,
    CpuState, Status, AddressingMode, InstrName, Instruction, TargetAddress, IRQ_VECTOR_START,
    NMI_VECTOR_START, RESET_VECTOR_START, STACK_BEGIN,
};
use crate::bus::reads_word;
use vstd::prelude::*;

verus! {

/// The operations that never pay the extra cycle for an indexed access crossing a page.
pub open spec fn no_page_penalty(name: InstrName) -> bool {
    match name {
        InstrName::STA | InstrName::ILLEGAL_ALR | InstrName::ILLEGAL_ANC | InstrName::ILLEGAL_ANE
        | InstrName::ILLEGAL_ARR | InstrName::ILLEGAL_DCP | InstrName::ILLEGAL_ISC
        | InstrName::ILLEGAL_LXA | InstrName::ILLEGAL_RLA | InstrName::ILLEGAL_RRA
        | InstrName::ILLEGAL_SAX | InstrName::ILLEGAL_SBX | InstrName::ILLEGAL_SHA
        | InstrName::ILLEGAL_SHX | InstrName::ILLEGAL_SHY | InstrName::ILLEGAL_SLO
        | InstrName::ILLEGAL_SRE | InstrName::ILLEGAL_TAS | InstrName::ILLEGAL_USBC => true,
        _ => false,
    }
}

/// Reducing a value near the 16-bit range modulo 2^16 adds or removes at most one 2^16.
proof fn lemma_wrap16(t: int)
    requires
        -0x10000 <= t < 2 * 0x10000,
    ensures
        t % 0x10000 == (if t < 0 {
            t + 0x10000
        } else if t >= 0x10000 {
            t - 0x10000
        } else {
            t
        }),
{
    if t < 0 {
        assert((t + 0x10000) % 0x10000 == t % 0x10000) by (nonlinear_arith);
    }
}

/// Whether the operation works on its operand (the accumulator, the operand byte or the byte
/// at the effective address) rather than on a byte it modifies in memory or pulls.
pub open spec fn reads_operand(name: InstrName) -> bool {
    match name {
        InstrName::ADC | InstrName::AND | InstrName::BIT | InstrName::CMP | InstrName::CPX
        | InstrName::CPY | InstrName::EOR | InstrName::LDA | InstrName::LDX | InstrName::LDY
        | InstrName::LSR | InstrName::ASL | InstrName::ROL | InstrName::ROR | InstrName::ORA
        | InstrName::SBC | InstrName::ILLEGAL_ALR | InstrName::ILLEGAL_ANC | InstrName::ILLEGAL_ANE
        | InstrName::ILLEGAL_ARR | InstrName::ILLEGAL_LAS | InstrName::ILLEGAL_LXA
        | InstrName::ILLEGAL_SBX | InstrName::ILLEGAL_USBC => true,
        _ => false,
    }
}

/// The registers after the operation `name` in addressing mode `mode` from `s`, where `v` is
/// the byte it works on: its operand, the byte it reads and modifies in memory, or the byte it
/// pulls from the stack. The program counter and the instruction count are set by the caller.
pub open spec fn spec_effect(name: InstrName, mode: AddressingMode, s: CpuState, v: u8) -> CpuState {
    let in_acc = mode == AddressingMode::Accumulator;
    match name {
        InstrName::ADC => s.spec_adc(v),
        InstrName::AND => s.spec_and(v),
        InstrName::BIT => s.spec_bit(v),
        InstrName::CLC => s.set_flag(Status::CARRY, false),
        InstrName::CLD => s.set_flag(Status::DECIMAL, false),
        InstrName::CLI => s.set_flag(Status::INT_DISABLE, false),
        InstrName::CLV => s.set_flag(Status::OVERFLOW, false),
        InstrName::SEC => s.set_flag(Status::CARRY, true),
        InstrName::SED => s.set_flag(Status::DECIMAL, true),
        InstrName::SEI => s.set_flag(Status::INT_DISABLE, true),
        InstrName::CMP => s.spec_compare(s.acc, v),
        InstrName::CPX => s.spec_compare(s.x, v),
        InstrName::CPY => s.spec_compare(s.y, v),
        InstrName::DEC => s.spec_dec_mem(v),
        InstrName::INC => s.spec_inc_mem(v),
        InstrName::DEX => s.with_x(s.x.wrapping_sub(1)).nz(s.x.wrapping_sub(1)),
        InstrName::DEY => s.with_y(s.y.wrapping_sub(1)).nz(s.y.wrapping_sub(1)),
        InstrName::INX => s.with_x(s.x.wrapping_add(1)).nz(s.x.wrapping_add(1)),
        InstrName::INY => s.with_y(s.y.wrapping_add(1)).nz(s.y.wrapping_add(1)),
        InstrName::EOR => s.spec_eor(v),
        InstrName::LDA => s.spec_lda(v),
        InstrName::LDX => s.spec_ldx(v),
        InstrName::LDY => s.spec_ldy(v),
        InstrName::LSR => s.spec_lsr(in_acc, v),
        InstrName::ASL => s.spec_asl(in_acc, v),
        InstrName::ROL => s.spec_rol(in_acc, v),
        InstrName::ROR => s.spec_ror(in_acc, v),
        InstrName::ORA => s.spec_ora(v),
        InstrName::PHA | InstrName::PHP | InstrName::ILLEGAL_TAS => s.with_sp(s.sp.wrapping_sub(1)),
        InstrName::PLA => s.spec_pla(v),
        InstrName::PLP => s.spec_plp(v),
        InstrName::SBC | InstrName::ILLEGAL_USBC => s.spec_sbc(v),
        InstrName::TAX => s.with_x(s.acc).nz(s.acc),
        InstrName::TAY => s.with_y(s.acc).nz(s.acc),
        InstrName::TSX => s.with_x(s.sp).nz(s.sp),
        InstrName::TXA => s.with_acc(s.x).nz(s.x),
        InstrName::TYA => s.with_acc(s.y).nz(s.y),
        InstrName::TXS => s.with_sp(s.x),
        InstrName::ILLEGAL_ALR => s.spec_alr(v),
        InstrName::ILLEGAL_ANC => s.spec_anc(v),
        InstrName::ILLEGAL_ANE => s.spec_ane(v),
        InstrName::ILLEGAL_ARR => s.spec_arr(v),
        InstrName::ILLEGAL_DCP => s.spec_dcp(v),
        InstrName::ILLEGAL_ISC => s.spec_isc(v),
        InstrName::ILLEGAL_LAS => s.spec_las(v),
        InstrName::ILLEGAL_LAX | InstrName::ILLEGAL_LXA => s.spec_lax(v),
        InstrName::ILLEGAL_RLA => s.spec_rla(v),
        InstrName::ILLEGAL_RRA => s.spec_rra(v),
        InstrName::ILLEGAL_SBX => s.spec_sbx(v),
        InstrName::ILLEGAL_SLO => s.spec_slo(v),
        InstrName::ILLEGAL_SRE => s.spec_sre(v),
        InstrName::BRK => s.with_sp(s.sp.wrapping_sub(3)).set_flag(Status::INT_DISABLE, true),
        InstrName::JSR => s.with_sp(s.sp.wrapping_sub(2)),
        InstrName::RTS => s.with_sp(s.sp.wrapping_add(2)),
        InstrName::RTI => s.spec_rti(v),
        _ => s,
    }
}

/// Whether the conditional branch `name` is taken with the flags `status`.
pub open spec fn branch_taken(name: InstrName, status: Status) -> bool {
    match name {
        InstrName::BPL => !status.has(Status::NEGATIVE),
        InstrName::BMI => status.has(Status::NEGATIVE),
        InstrName::BVC => !status.has(Status::OVERFLOW),
        InstrName::BVS => status.has(Status::OVERFLOW),
        InstrName::BCC => !status.has(Status::CARRY),
        InstrName::BCS => status.has(Status::CARRY),
        InstrName::BNE => !status.has(Status::ZERO),
        InstrName::BEQ => status.has(Status::ZERO),
        _ => false,
    }
}

/// The state after an instruction, with the program counter and instruction count of the
/// state before it, so that the register effect alone is compared.
pub open spec fn regs_of(after: CpuState, before: CpuState) -> CpuState {
    CpuState { pc: before.pc, instructions_executed: before.instructions_executed, ..after }
}

/// The address of stack slot `sp`, in page 1.
pub open spec fn stack_addr(sp: u8) -> u16 {
    (sp as u16).wrapping_add(STACK_BEGIN)
}

/// Pushing the word `v` with the stack pointer at `sp` takes `b` to `next`: the high byte
/// goes to slot `sp`, the low byte to slot `sp - 1`.
pub open spec fn pushes_word<T: Bus>(b: T, sp: u8, v: u16, next: T) -> bool {
    exists|mid: T|
        #![trigger b.writes(stack_addr(sp), (v >> 8u16) as u8, mid)]
        b.writes(stack_addr(sp), (v >> 8u16) as u8, mid) && mid.writes(
            stack_addr(sp.wrapping_sub(1)),
            (0xFF & v) as u8,
            next,
        )
}

/// Pulling a word with the stack pointer at `sp` gives `v` and takes `b` to `next`: the low
/// byte from slot `sp + 1`, then the high byte from slot `sp + 2`.
pub open spec fn pops_word<T: Bus>(b: T, sp: u8, v: u16, next: T) -> bool {
    exists|mid: T, lo: u8, hi: u8|
        #![trigger b.reads(stack_addr(sp.wrapping_add(1)), lo, mid), mid.reads(stack_addr(sp.wrapping_add(1).wrapping_add(1)), hi, next)]
        b.reads(stack_addr(sp.wrapping_add(1)), lo, mid) && mid.reads(
            stack_addr(sp.wrapping_add(1).wrapping_add(1)),
            hi,
            next,
        ) && v == word(lo, hi)
}

/// The high byte of `a`, plus one.
pub open spec fn high_plus_one(a: u16) -> u8 {
    ((a >> 8u16) as u8).wrapping_add(1)
}

/// Where SHX and SHY store when indexing by `index` took `a` into a new page: the high byte is
/// replaced by the stored value's high byte plus one.
pub open spec fn unstable_addr(a: u16, index: u8) -> u16 {
    if spec_crosses_page(a, a.wrapping_sub(index as u16)) {
        ((high_plus_one(a) as u16) << 8u16) | (a & 0xff)
    } else {
        a
    }
}

/// The word with high byte `hi` and low byte `lo`.
pub open spec fn word(lo: u8, hi: u8) -> u16 {
    ((hi as u16) << 8) | (lo as u16)
}

/// Reading the operand bytes `ops`, at most two, from `pc + 1` on takes the bus `b` to
/// `next`.
pub open spec fn operands_read<T: Bus>(b: T, pc: u16, ops: Seq<u8>, next: T) -> bool {
    if ops.len() == 0 {
        next == b
    } else if ops.len() == 1 {
        b.reads(pc.wrapping_add(1), ops[0], next)
    } else {
        &&& ops.len() == 2
        &&& exists|m: T|
            #[trigger] b.reads(pc.wrapping_add(1), ops[0], m) && m.reads(
                pc.wrapping_add(1).wrapping_add(1),
                ops[1],
                next,
            )
    }
}

/// The interpreter: the bus, and the instruction being executed with its operand bytes.
pub struct Interpreter<T: Bus> {
    pub bus: T,
    pub instruction: Instruction,
    pub operands: Vec<u8>,
    pub extra_cycles: usize,
}

impl<T: Bus> Interpreter<T> {
    /// The instruction is one the table can produce and its operand bytes are all there.
    pub open spec fn wf(self) -> bool {
        &&& instr_ok(self.instruction)
        &&& self.operands@.len() == mode_size(self.instruction.mode) - 1
        &&& self.bus.inv()
    }

    /// Well formed, and no extra cycle counted yet for the current instruction.
    pub open spec fn ready(self) -> bool {
        self.wf() && self.extra_cycles == 0
    }

    /// What executing one operation from `before` keeps: the decoded instruction; and the
    /// extra cycles it counts, which are those `charged` gives.
    pub open spec fn frame(self, prev: Self, before: CpuState) -> bool {
        &&& self.instruction == prev.instruction
        &&& self.operands@ == prev.operands@
        &&& prev.extra_cycles <= self.extra_cycles
        &&& prev.charged(before, self.extra_cycles - prev.extra_cycles)
    }

    /// The extra cycle of the address calculation from `before`: one when an indexed mode
    /// (absolute,X, absolute,Y or (indirect),Y) crosses a page, except for the operations
    /// that never pay it; none for the other modes.
    pub open spec fn addr_charge(self, before: CpuState, k: int) -> bool {
        let name = self.instruction.name;
        let base = word(self.op_or_zero(0), self.op_or_zero(1));
        match self.instruction.mode {
            AddressingMode::AbsoluteX => k == (if !no_page_penalty(name) && spec_crosses_page(
                base,
                base.wrapping_add(before.x as u16),
            ) {
                1int
            } else {
                0int
            }),
            AddressingMode::AbsoluteY => k == (if !no_page_penalty(name) && spec_crosses_page(
                base,
                base.wrapping_add(before.y as u16),
            ) {
                1int
            } else {
                0int
            }),
            AddressingMode::IndirectY => exists|p: u16, nb: T|
                #[trigger] reads_word(self.bus, self.op_or_zero(0) as u16, p, nb) && k == (if !no_page_penalty(
                    name,
                ) && spec_crosses_page(p, p.wrapping_add(before.y as u16)) {
                    1int
                } else {
                    0int
                }),
            _ => k == 0,
        }
    }

    /// The extra cycles the current instruction takes from `before`: for a branch, one when
    /// it is taken and one more when the target is in another page; otherwise the address
    /// calculation's (see `addr_charge`).
    pub open spec fn charged(self, before: CpuState, k: int) -> bool {
        let name = self.instruction.name;
        if is_branch_name(name) {
            k == (if branch_taken(name, before.status) {
                1 + (if spec_crosses_page(
                    before.pc.wrapping_add(self.size()),
                    branch_target(before.pc, self.size(), self.operands@[0]),
                ) {
                    1int
                } else {
                    0int
                })
            } else {
                0int
            })
        } else {
            self.addr_charge(before, k)
        }
    }

    pub open spec fn size(self) -> u16 {
        mode_size(self.instruction.mode)
    }

    pub open spec fn mode(self) -> AddressingMode {
        self.instruction.mode
    }

    /// `v` is the operand of the current instruction from `state`: the accumulator, the
    /// operand byte, or what a read of the bus at the effective address gives.
    pub open spec fn operand_of(self, state: CpuState, v: u8) -> bool {
        match self.instruction.mode {
            AddressingMode::Accumulator => v == state.acc,
            AddressingMode::Immediate | AddressingMode::Relative => v == self.operands@[0],
            _ => exists|a: u16, mid: T, next: T|
                #![trigger self.addressed(state, a, mid), mid.reads(a, v, next)]
                self.addressed(state, a, mid) && mid.reads(a, v, next),
        }
    }

    /// The current instruction reads `v` at its effective address from `before` and writes
    /// `val` back there, leaving the bus as `next`.
    pub open spec fn modified(self, before: CpuState, v: u8, val: u8, next: T) -> bool {
        exists|a: u16, m1: T, m2: T|
            #![trigger self.addressed(before, a, m1), m1.reads(a, v, m2)]
            self.addressed(before, a, m1) && m1.reads(a, v, m2) && m2.writes(a, val, next)
    }

    /// `next` is the interpreter after fetching the instruction at `pc` from this one's bus:
    /// the opcode byte read at `pc` decoded by the table, its operand bytes read from
    /// `pc + 1` on, and no extra cycle counted yet.
    pub open spec fn fetches(self, pc: u16, next: Self) -> bool {
        Self::fetched_from(self.bus, pc, next)
    }

    /// `next` is an interpreter that fetched the instruction at `pc` from the bus `b`.
    pub open spec fn fetched_from(b: T, pc: u16, next: Self) -> bool {
        exists|op: u8, b1: T|
            #![trigger b.reads(pc, op, b1)]
            b.reads(pc, op, b1) && next.instruction == opcode_table(op)
                && next.operands@.len() == mode_size(next.instruction.mode) - 1
                && operands_read(b1, pc, next.operands@, next.bus) && next.extra_cycles == 0
    }

    /// The NMI entry from `before`: the NMI taken off the line, PC and status pushed, and
    /// `pc` read from the NMI vector, leaving the bus as `next`.
    pub open spec fn nmi_entered(self, before: CpuState, pc: u16, next: T) -> bool {
        exists|b0: T, b1: T, b2: T|
            #![trigger self.bus.nmi_popped(b0), pushes_word(b0, before.sp, before.pc, b1), b1.writes(stack_addr(before.sp.wrapping_sub(2)), before.status.bits, b2)]
            self.bus.nmi_popped(b0) && pushes_word(b0, before.sp, before.pc, b1) && b1.writes(
                stack_addr(before.sp.wrapping_sub(2)),
                before.status.bits,
                b2,
            ) && reads_word(b2, NMI_VECTOR_START, pc, next)
    }

    pub open spec fn op_or_zero(self, i: int) -> u8 {
        if self.operands@.len() > i {
            self.operands@[i]
        } else {
            0
        }
    }

    /// The effective address of the modes that need no memory read to find it.
    pub open spec fn direct_addr(self, state: CpuState) -> Option<u16> {
        let lo = self.op_or_zero(0);
        let addr = word(lo, self.op_or_zero(1));
        match self.instruction.mode {
            AddressingMode::ZeroPage => Some(lo as u16),
            AddressingMode::ZeroPageX => Some(lo.wrapping_add(state.x) as u16),
            AddressingMode::ZeroPageY => Some(lo.wrapping_add(state.y) as u16),
            AddressingMode::Absolute => Some(addr),
            AddressingMode::AbsoluteX => Some(addr.wrapping_add(state.x as u16)),
            AddressingMode::AbsoluteY => Some(addr.wrapping_add(state.y as u16)),
            AddressingMode::Indirect | AddressingMode::IndirectX | AddressingMode::IndirectY => None,
            _ => Some(0xFFFF),
        }
    }

    /// `a` is the effective address of the current instruction from `state`, and `next` the
    /// bus after the reads that found it: the pointer word for the indirect modes, nothing
    /// for the others.
    pub open spec fn addressed(self, state: CpuState, a: u16, next: T) -> bool {
        let lo = self.op_or_zero(0);
        match self.instruction.mode {
            AddressingMode::Indirect => reads_word(self.bus, word(lo, self.op_or_zero(1)), a, next),
            AddressingMode::IndirectX => reads_word(
                self.bus,
                lo.wrapping_add(state.x) as u16,
                a,
                next,
            ),
            AddressingMode::IndirectY => exists|base: u16|
                #[trigger] reads_word(self.bus, lo as u16, base, next) && a == base.wrapping_add(
                    state.y as u16,
                ),
            _ => next == self.bus && self.direct_addr(state) == Some(a),
        }
    }

    /// The current instruction stores `val_of(a)` at `store_at(a)`, where `a` is its effective
    /// address from `before`, leaving the bus as `next`.
    pub open spec fn stored(
        self,
        before: CpuState,
        store_at: spec_fn(u16) -> u16,
        val_of: spec_fn(u16) -> u8,
        next: T,
    ) -> bool {
        exists|a: u16, mid: T|
            #![trigger self.addressed(before, a, mid)]
            self.addressed(before, a, mid) && mid.writes(store_at(a), val_of(a), next)
    }

    /// What executing the current instruction from this interpreter did, from `before` to
    /// `after`, leaving the bus as `next`: one more instruction counted; the register effect
    /// of the operation for the byte it worked on (its operand, read from the bus, when it
    /// takes one; the byte it read and wrote back, for a read-modify-write in memory); the
    /// store of a store operation; and the next PC, which is the following instruction unless
    /// the operation is a jump, a call, a return, an interrupt or a taken branch.
    pub open spec fn executed(self, before: CpuState, after: CpuState, next: T) -> bool {
        let name = self.instruction.name;
        let mem = self.instruction.mode != AddressingMode::Accumulator;
        &&& after.instructions_executed == before.instructions_executed.wrapping_add(1)
        &&& !is_flow_name(name) ==> after.pc == before.pc.wrapping_add(self.size())
        &&& exists|v: u8|
            #[trigger] spec_effect(name, self.instruction.mode, before, v) == regs_of(after, before)
                && (reads_operand(name) ==> self.operand_of(before, v))
                && (name == InstrName::DEC ==> self.modified(before, v, v.wrapping_sub(1), next))
                && (name == InstrName::INC ==> self.modified(before, v, v.wrapping_add(1), next))
                && (name == InstrName::ASL && mem ==> self.modified(before, v, v << 1u8, next))
                && (name == InstrName::LSR && mem ==> self.modified(before, v, v >> 1u8, next))
                && (name == InstrName::ROL && mem ==> self.modified(
                    before,
                    v,
                    (v << 1u8) | (if before.status.has(Status::CARRY) {
                        1u8
                    } else {
                        0u8
                    }),
                    next,
                )) && (name == InstrName::ROR && mem ==> self.modified(
                    before,
                    v,
                    (v >> 1u8) | (if before.status.has(Status::CARRY) {
                        0x80u8
                    } else {
                        0u8
                    }),
                    next,
                )) && (name == InstrName::ILLEGAL_DCP ==> self.modified(before, v, v.wrapping_sub(1), next))
                && (name == InstrName::ILLEGAL_ISC ==> self.modified(before, v, v.wrapping_add(1), next))
                && (name == InstrName::ILLEGAL_SLO ==> self.modified(before, v, v << 1u8, next))
                && (name == InstrName::ILLEGAL_SRE ==> self.modified(before, v, v >> 1u8, next))
                && (name == InstrName::ILLEGAL_RLA ==> self.modified(before, v, (v << 1u8) | (if before.status.has(Status::CARRY) { 1u8 } else { 0u8 }), next))
                && (name == InstrName::ILLEGAL_RRA ==> self.modified(before, v, (v >> 1u8) | (if before.status.has(Status::CARRY) { 0x80u8 } else { 0u8 }), next))
        &&& (name == InstrName::PLA || name == InstrName::PLP) ==> exists|v: u8|
            #[trigger] spec_effect(name, self.instruction.mode, before, v) == regs_of(after, before)
                && self.bus.reads(stack_addr(before.sp.wrapping_add(1)), v, next)
        &&& name == InstrName::RTI ==> exists|v: u8, m: T|
            #![trigger self.bus.reads(stack_addr(before.sp.wrapping_add(1)), v, m)]
            before.spec_rti(v) == regs_of(after, before) && self.bus.reads(
                stack_addr(before.sp.wrapping_add(1)),
                v,
                m,
            ) && pops_word(m, before.sp.wrapping_add(1), after.pc, next)
        &&& name == InstrName::PHA ==> self.bus.writes(stack_addr(before.sp), before.acc, next)
        &&& name == InstrName::PHP ==> self.bus.writes(
            stack_addr(before.sp),
            before.status.bits | Status::BRK,
            next,
        )
        &&& name == InstrName::JSR ==> pushes_word(
            self.bus,
            before.sp,
            before.pc.wrapping_add(2),
            next,
        )
        &&& name == InstrName::RTS ==> exists|w: u16|
            #[trigger] pops_word(self.bus, before.sp, w, next) && after.pc == w.wrapping_add(1)
        &&& name == InstrName::BRK ==> exists|b1: T, b2: T|
            #![trigger pushes_word(self.bus, before.sp, before.pc.wrapping_add(2), b1), b1.writes(stack_addr(before.sp.wrapping_sub(2)), before.status.bits | Status::BRK | Status::PUSH_IRQ, b2)]
            pushes_word(self.bus, before.sp, before.pc.wrapping_add(2), b1) && b1.writes(
                stack_addr(before.sp.wrapping_sub(2)),
                before.status.bits | Status::BRK | Status::PUSH_IRQ,
                b2,
            ) && reads_word(b2, IRQ_VECTOR_START, after.pc, next)
        &&& name == InstrName::JMP && self.instruction.mode == AddressingMode::Indirect
            ==> self.addressed(before, after.pc, next)
        &&& name == InstrName::STA ==> self.stored(before, |a: u16| a, |a: u16| before.acc, next)
        &&& name == InstrName::STX ==> self.stored(before, |a: u16| a, |a: u16| before.x, next)
        &&& name == InstrName::STY ==> self.stored(before, |a: u16| a, |a: u16| before.y, next)
        &&& name == InstrName::ILLEGAL_SHA ==> self.stored(
            before,
            |a: u16| a,
            |a: u16| (before.acc & before.x) & (((a >> 8u16) + 1) as u8),
            next,
        )
        &&& name == InstrName::ILLEGAL_SHX ==> self.stored(
            before,
            |a: u16| unstable_addr(a, before.x),
            |a: u16| before.x & high_plus_one(a),
            next,
        )
        &&& name == InstrName::ILLEGAL_SHY ==> self.stored(
            before,
            |a: u16| unstable_addr(a, before.y),
            |a: u16| before.y & high_plus_one(a),
            next,
        )
        &&& name == InstrName::ILLEGAL_SAX ==> self.stored(
            before,
            |a: u16| a,
            |a: u16| before.acc & before.x,
            next,
        )
        &&& is_branch_name(name) ==> after.pc == (if branch_taken(name, before.status) {
            branch_target(before.pc, 2, self.operands@[0])
        } else {
            before.pc.wrapping_add(2)
        })
        &&& name == InstrName::JSR ==> after.pc == word(self.operands@[0], self.operands@[1])
        &&& name == InstrName::JMP && self.instruction.mode == AddressingMode::Absolute ==> after.pc
            == word(self.operands@[0], self.operands@[1])
        &&& name == InstrName::ILLEGAL_JAM ==> after.pc == before.pc
    }

    pub fn new(bus: T) -> (r: Self)
        requires
            bus.inv(),
        ensures
            r.wf(),
            r.bus == bus,
            r.instruction == Instruction::nop_spec(),
            r.operands@.len() == 0,
            r.extra_cycles == 0,
    {
        Interpreter { bus, instruction: Instruction::nop(), operands: Vec::new(), extra_cycles: 0 }
    }

    /// Fetch the instruction at PC and execute it; the result is the number of cycles it
    /// took.
    pub fn interpret(&mut self, state: &mut CpuState) -> (r: usize)
        requires
            old(self).wf(),
        ensures
            final(self).wf(),
            r == final(self).extra_cycles + final(self).instruction.cycles,
            r <= 10,
            exists|mid: Self|
                #![trigger old(self).fetches(old(state).pc, mid)]
                old(self).fetches(old(state).pc, mid) && mid.executed(
                    *old(state),
                    *final(state),
                    final(self).bus,
                ) && final(self).instruction == mid.instruction && final(self).operands@
                    == mid.operands@ && mid.charged(*old(state), final(self).extra_cycles as int),
            !is_branch_name(final(self).instruction.name) ==> final(self).extra_cycles <= 1,
    {
        self.fetch_instruction(state);
        let ghost mid = *self;
        let r = self.execute_instruction(state);
        assert(mid == (Interpreter { extra_cycles: 0, ..mid }));
        assert(old(self).fetches(old(state).pc, mid));
        r
    }

    pub fn clock_bus(&mut self, ticks: usize)
        requires
            old(self).bus.inv(),
            ticks < 256,
        ensures
            final(self).bus.inv(),
            final(self).instruction == old(self).instruction,
            final(self).operands@ == old(self).operands@,
            final(self).extra_cycles == old(self).extra_cycles,
            old(self).bus.clocked(ticks as u8, final(self).bus),
    {
        self.bus.clock(ticks as u8)
    }

    pub fn instruction(&self) -> (r: &Instruction)
        ensures
            *r == self.instruction,
    {
        &self.instruction
    }

    pub fn operands(&self) -> (r: &[u8])
        ensures
            r@ == self.operands@,
    {
        self.operands.as_slice()
    }

    /// Read the opcode at PC, decode it, and read its operand bytes.
    fn fetch_instruction(&mut self, state: &mut CpuState)
        requires
            old(self).wf(),
        ensures
            final(self).ready(),
            *final(state) == *old(state),
            old(self).fetches(old(state).pc, *final(self)),
    {
        let pc = state.pc;
        let opcode = self.bus.read(pc);
        let ghost b1 = self.bus;
        self.instruction = decode_instruction(opcode);
        proof {
            lemma_opcode_table_ok(opcode);
        }
        let num_operands = (self.instruction.size() - 1) as usize;
        self.operands.clear();
        let mut i: usize = 0;
        while i < num_operands
            invariant
                i <= num_operands,
                num_operands <= 2,
                self.operands@.len() == i,
                self.instruction == opcode_table(opcode),
                num_operands == mode_size(self.instruction.mode) - 1,
                self.bus.inv(),
                operands_read(b1, pc, self.operands@, self.bus),
            decreases num_operands - i,
        {
            let ghost m = self.bus;
            let b = self.bus.read(pc.wrapping_add(i as u16).wrapping_add(1));
            self.operands.push(b);
            proof {
                assert(pc.wrapping_add(0) == pc);
                if i == 1 {
                    assert(b1.reads(pc.wrapping_add(1), self.operands@[0], m));
                }
            }
            i = i + 1;
        }
        self.extra_cycles = 0;
        assert(old(self).bus.reads(pc, opcode, b1));
    }

    #[verifier::rlimit(100)]
    #[verifier::spinoff_prover]
    fn execute_instruction(&mut self, state: &mut CpuState) -> (r: usize)
        requires
            old(self).wf(),
        ensures
            final(self).wf(),
            final(self).instruction == old(self).instruction,
            r == final(self).extra_cycles + final(self).instruction.cycles,
            r <= 10,
            final(self).operands@ == old(self).operands@,
            (Interpreter { extra_cycles: 0, ..*old(self) }).executed(
                *old(state),
                *final(state),
                final(self).bus,
            ),
            (Interpreter { extra_cycles: 0, ..*old(self) }).charged(
                *old(state),
                final(self).extra_cycles as int,
            ),
            !is_branch_name(old(self).instruction.name) ==> final(self).extra_cycles <= 1,
    {
        self.extra_cycles = 0;
        let ghost s0 = *state;
        let ghost me = *self;
        let next_pc = match self.instruction.name {
            // BRANCHES
            InstrName::BPL => self.bpl(state),
            InstrName::BMI => self.bmi(state),
            InstrName::BVC => self.bvc(state),
            InstrName::BVS => self.bvs(state),
            InstrName::BCC => self.bcc(state),
            InstrName::BCS => self.bcs(state),
            InstrName::BNE => self.bne(state),
            InstrName::BEQ => self.beq(state),
            InstrName::ADC => {
                let r = self.adc(state);
                proof {
                    let w = choose|v: u8| me.operand_of(s0, v) && *state == s0.spec_adc(v);
                    assert(*state == spec_effect(me.instruction.name, me.instruction.mode, s0, w));
                }
                r
            },
            InstrName::AND => {
                let r = self.and(state);
                proof {
                    let w = choose|v: u8| me.operand_of(s0, v) && *state == s0.spec_and(v);
                    assert(*state == spec_effect(me.instruction.name, me.instruction.mode, s0, w));
                }
                r
            },
            InstrName::SBC => {
                let r = self.sbc(state);
                proof {
                    let w = choose|v: u8| me.operand_of(s0, v) && *state == s0.spec_sbc(v);
                    assert(*state == spec_effect(me.instruction.name, me.instruction.mode, s0, w));
                }
                r
            },
            InstrName::ORA => {
                let r = self.ora(state);
                proof {
                    let w = choose|v: u8| me.operand_of(s0, v) && *state == s0.spec_ora(v);
                    assert(*state == spec_effect(me.instruction.name, me.instruction.mode, s0, w));
                }
                r
            },
            InstrName::LDY => {
                let r = self.ldy(state);
                proof {
                    let w = choose|v: u8| me.operand_of(s0, v) && *state == s0.spec_ldy(v);
                    assert(*state == spec_effect(me.instruction.name, me.instruction.mode, s0, w));
                }
                r
            },
            InstrName::LDX => {
                let r = self.ldx(state);
                proof {
                    let w = choose|v: u8| me.operand_of(s0, v) && *state == s0.spec_ldx(v);
                    assert(*state == spec_effect(me.instruction.name, me.instruction.mode, s0, w));
                }
                r
            },
            InstrName::LDA => {
                let r = self.lda(state);
                proof {
                    let w = choose|v: u8| me.operand_of(s0, v) && *state == s0.spec_lda(v);
                    assert(*state == spec_effect(me.instruction.name, me.instruction.mode, s0, w));
                }
                r
            },
            InstrName::EOR => {
                let r = self.eor(state);
                proof {
                    let w = choose|v: u8| me.operand_of(s0, v) && *state == s0.spec_eor(v);
                    assert(*state == spec_effect(me.instruction.name, me.instruction.mode, s0, w));
                }
                r
            },
            InstrName::CPY => {
                let r = self.cpy(state);
                proof {
                    let w = choose|v: u8| me.operand_of(s0, v) && *state == s0.spec_compare(s0.y, v);
                    assert(*state == spec_effect(me.instruction.name, me.instruction.mode, s0, w));
                }
                r
            },
            InstrName::CPX => {
                let r = self.cpx(state);
                proof {
                    let w = choose|v: u8| me.operand_of(s0, v) && *state == s0.spec_compare(s0.x, v);
                    assert(*state == spec_effect(me.instruction.name, me.instruction.mode, s0, w));
                }
                r
            },
            InstrName::CMP => {
                let r = self.compare(state);
                proof {
                    let w = choose|v: u8| me.operand_of(s0, v) && *state == s0.spec_compare(s0.acc, v);
                    assert(*state == spec_effect(me.instruction.name, me.instruction.mode, s0, w));
                }
                r
            },
            InstrName::BIT => {
                let r = self.bit(state);
                proof {
                    let w = choose|v: u8| me.operand_of(s0, v) && *state == s0.spec_bit(v);
                    assert(*state == spec_effect(me.instruction.name, me.instruction.mode, s0, w));
                }
                r
            },
            InstrName::ASL => {
                let r = self.asl(state);
                proof {
                    let w = choose|v: u8| me.operand_of(s0, v) && *state == s0.spec_asl(me.mode() == AddressingMode::Accumulator, v) && (me.mode() != AddressingMode::Accumulator ==> me.modified(s0, v, v << 1u8, self.bus));
                    assert(*state == spec_effect(me.instruction.name, me.instruction.mode, s0, w));
                }
                r
            },
            InstrName::LSR => {
                let r = self.lsr(state);
                proof {
                    let w = choose|v: u8| me.operand_of(s0, v) && *state == s0.spec_lsr(me.mode() == AddressingMode::Accumulator, v) && (me.mode() != AddressingMode::Accumulator ==> me.modified(s0, v, v >> 1u8, self.bus));
                    assert(*state == spec_effect(me.instruction.name, me.instruction.mode, s0, w));
                }
                r
            },
            InstrName::JSR => {
                let r = self.jsr(state);
                proof {
                    assert(*state == spec_effect(me.instruction.name, me.instruction.mode, s0, 0));
                }
                r
            },
            InstrName::JMP => {
                let r = self.jmp(state);
                proof {
                    assert(*state == spec_effect(me.instruction.name, me.instruction.mode, s0, 0));
                }
                r
            },
            InstrName::STY => {
                let r = self.sty(state);
                proof {
                    assert(*state == spec_effect(me.instruction.name, me.instruction.mode, s0, 0));
                }
                r
            },
            InstrName::STX => {
                let r = self.stx(state);
                proof {
                    assert(*state == spec_effect(me.instruction.name, me.instruction.mode, s0, 0));
                }
                r
            },
            InstrName::STA => {
                let r = self.sta(state);
                proof {
                    assert(*state == spec_effect(me.instruction.name, me.instruction.mode, s0, 0));
                }
                r
            },
            InstrName::ROL => {
                let r = self.rol(state);
                proof {
                    let w = choose|v: u8| me.operand_of(s0, v) && *state == s0.spec_rol(me.mode() == AddressingMode::Accumulator, v) && (me.mode() != AddressingMode::Accumulator ==> me.modified(s0, v, (v << 1u8) | (if s0.status.has(Status::CARRY) { 1u8 } else { 0u8 }), self.bus));
                    assert(*state == spec_effect(me.instruction.name, me.instruction.mode, s0, w));
                }
                r
            },
            InstrName::ROR => {
                let r = self.ror(state);
                proof {
                    let w = choose|v: u8| me.operand_of(s0, v) && *state == s0.spec_ror(me.mode() == AddressingMode::Accumulator, v) && (me.mode() != AddressingMode::Accumulator ==> me.modified(s0, v, (v >> 1u8) | (if s0.status.has(Status::CARRY) { 0x80u8 } else { 0u8 }), self.bus));
                    assert(*state == spec_effect(me.instruction.name, me.instruction.mode, s0, w));
                }
                r
            },
            InstrName::INC => {
                let r = self.inc(state);
                proof {
                    let w = choose|v: u8| *state == s0.spec_inc_mem(v) && me.modified(s0, v, v.wrapping_add(1), self.bus);
                    assert(*state == spec_effect(me.instruction.name, me.instruction.mode, s0, w));
                }
                r
            },
            InstrName::DEC => {
                let r = self.dec(state);
                proof {
                    let w = choose|v: u8| *state == s0.spec_dec_mem(v) && me.modified(s0, v, v.wrapping_sub(1), self.bus);
                    assert(*state == spec_effect(me.instruction.name, me.instruction.mode, s0, w));
                }
                r
            },
            InstrName::CLV => {
                let r = self.clv(state);
                proof {
                    assert(*state == spec_effect(me.instruction.name, me.instruction.mode, s0, 0));
                }
                r
            },
            InstrName::CLI => {
                let r = self.cli(state);
                proof {
                    assert(*state == spec_effect(me.instruction.name, me.instruction.mode, s0, 0));
                }
                r
            },
            InstrName::CLC => {
                let r = self.clc(state);
                proof {
                    assert(*state == spec_effect(me.instruction.name, me.instruction.mode, s0, 0));
                }
                r
            },
            InstrName::CLD => {
                let r = self.cld(state);
                proof {
                    assert(*state == spec_effect(me.instruction.name, me.instruction.mode, s0, 0));
                }
                r
            },
            InstrName::DEX => {
                let r = self.dex(state);
                proof {
                    assert(*state == spec_effect(me.instruction.name, me.instruction.mode, s0, 0));
                }
                r
            },
            InstrName::DEY => {
                let r = self.dey(state);
                proof {
                    assert(*state == spec_effect(me.instruction.name, me.instruction.mode, s0, 0));
                }
                r
            },
            InstrName::INY => {
                let r = self.iny(state);
                proof {
                    assert(*state == spec_effect(me.instruction.name, me.instruction.mode, s0, 0));
                }
                r
            },
            InstrName::INX => {
                let r = self.inx(state);
                proof {
                    assert(*state == spec_effect(me.instruction.name, me.instruction.mode, s0, 0));
                }
                r
            },
            InstrName::TAY => {
                let r = self.tay(state);
                proof {
                    assert(*state == spec_effect(me.instruction.name, me.instruction.mode, s0, 0));
                }
                r
            },
            InstrName::TAX => {
                let r = self.tax(state);
                proof {
                    assert(*state == spec_effect(me.instruction.name, me.instruction.mode, s0, 0));
                }
                r
            },
            InstrName::TYA => {
                let r = self.tya(state);
                proof {
                    assert(*state == spec_effect(me.instruction.name, me.instruction.mode, s0, 0));
                }
                r
            },
            InstrName::TXA => {
                let r = self.txa(state);
                proof {
                    assert(*state == spec_effect(me.instruction.name, me.instruction.mode, s0, 0));
                }
                r
            },
            InstrName::TXS => {
                let r = self.txs(state);
                proof {
                    assert(*state == spec_effect(me.instruction.name, me.instruction.mode, s0, 0));
                }
                r
            },
            InstrName::TSX => {
                let r = self.tsx(state);
                proof {
                    assert(*state == spec_effect(me.instruction.name, me.instruction.mode, s0, 0));
                }
                r
            },
            InstrName::SEI => {
                let r = self.sei(state);
                proof {
                    assert(*state == spec_effect(me.instruction.name, me.instruction.mode, s0, 0));
                }
                r
            },
            InstrName::SED => {
                let r = self.sed(state);
                proof {
                    assert(*state == spec_effect(me.instruction.name, me.instruction.mode, s0, 0));
                }
                r
            },
            InstrName::SEC => {
                let r = self.sec(state);
                proof {
                    assert(*state == spec_effect(me.instruction.name, me.instruction.mode, s0, 0));
                }
                r
            },
            InstrName::RTS => {
                let r = self.rts(state);
                proof {
                    assert(*state == spec_effect(me.instruction.name, me.instruction.mode, s0, 0));
                }
                r
            },
            InstrName::RTI => {
                let r = self.rti(state);
                proof {
                    let (w, m) = choose|p: u8, m: T| *state == s0.spec_rti(p) && me.bus.reads(stack_addr(s0.sp.wrapping_add(1)), p, m) && pops_word(m, s0.sp.wrapping_add(1), r->0, self.bus);
                    assert(*state == spec_effect(me.instruction.name, me.instruction.mode, s0, w));
                }
                r
            },
            InstrName::PLP => {
                let r = self.plp(state);
                proof {
                    let w = choose|p: u8| *state == s0.spec_plp(p) && me.bus.reads(stack_addr(s0.sp.wrapping_add(1)), p, self.bus);
                    assert(*state == spec_effect(me.instruction.name, me.instruction.mode, s0, w));
                }
                r
            },
            InstrName::PLA => {
                let r = self.pla(state);
                proof {
                    let w = choose|p: u8| *state == s0.spec_pla(p) && me.bus.reads(stack_addr(s0.sp.wrapping_add(1)), p, self.bus);
                    assert(*state == spec_effect(me.instruction.name, me.instruction.mode, s0, w));
                }
                r
            },
            InstrName::PHP => {
                let r = self.php(state);
                proof {
                    assert(*state == spec_effect(me.instruction.name, me.instruction.mode, s0, 0));
                }
                r
            },
            InstrName::PHA => {
                let r = self.pha(state);
                proof {
                    assert(*state == spec_effect(me.instruction.name, me.instruction.mode, s0, 0));
                }
                r
            },
            InstrName::BRK => {
                let r = self.brk(state);
                proof {
                    assert(*state == spec_effect(me.instruction.name, me.instruction.mode, s0, 0));
                }
                r
            },
            InstrName::ILLEGAL_JAM => {
                let r = self.hlt(state);
                proof {
                    assert(*state == spec_effect(me.instruction.name, me.instruction.mode, s0, 0));
                }
                r
            },
            InstrName::ILLEGAL_SLO => {
                let r = self.slo(state);
                proof {
                    let w = choose|v: u8| *state == s0.spec_slo(v) && me.modified(s0, v, v << 1u8, self.bus);
                    assert(*state == spec_effect(me.instruction.name, me.instruction.mode, s0, w));
                }
                r
            },
            InstrName::ILLEGAL_RLA => {
                let r = self.rla(state);
                proof {
                    let w = choose|v: u8| *state == s0.spec_rla(v) && me.modified(s0, v, (v << 1u8) | (if s0.status.has(Status::CARRY) { 1u8 } else { 0u8 }), self.bus);
                    assert(*state == spec_effect(me.instruction.name, me.instruction.mode, s0, w));
                }
                r
            },
            InstrName::ILLEGAL_SRE => {
                let r = self.sre(state);
                proof {
                    let w = choose|v: u8| *state == s0.spec_sre(v) && me.modified(s0, v, v >> 1u8, self.bus);
                    assert(*state == spec_effect(me.instruction.name, me.instruction.mode, s0, w));
                }
                r
            },
            InstrName::ILLEGAL_RRA => {
                let r = self.rra(state);
                proof {
                    let w = choose|v: u8| *state == s0.spec_rra(v) && me.modified(s0, v, (v >> 1u8) | (if s0.status.has(Status::CARRY) { 0x80u8 } else { 0u8 }), self.bus);
                    assert(*state == spec_effect(me.instruction.name, me.instruction.mode, s0, w));
                }
                r
            },
            InstrName::ILLEGAL_SAX => {
                let r = self.sax(state);
                proof {
                    assert(*state == spec_effect(me.instruction.name, me.instruction.mode, s0, 0));
                }
                r
            },
            InstrName::ILLEGAL_SHA => {
                let r = self.sha(state);
                proof {
                    assert(*state == spec_effect(me.instruction.name, me.instruction.mode, s0, 0));
                }
                r
            },
            InstrName::ILLEGAL_LAX => {
                let r = self.lax(state);
                proof {
                    let w = choose|v: u8| *state == s0.spec_lax(v);
                    assert(*state == spec_effect(me.instruction.name, me.instruction.mode, s0, w));
                }
                r
            },
            InstrName::ILLEGAL_DCP => {
                let r = self.dcp(state);
                proof {
                    let w = choose|v: u8| *state == s0.spec_dcp(v) && me.modified(s0, v, v.wrapping_sub(1), self.bus);
                    assert(*state == spec_effect(me.instruction.name, me.instruction.mode, s0, w));
                }
                r
            },
            InstrName::ILLEGAL_ISC => {
                let r = self.isc(state);
                proof {
                    let w = choose|v: u8| *state == s0.spec_isc(v) && me.modified(s0, v, v.wrapping_add(1), self.bus);
                    assert(*state == spec_effect(me.instruction.name, me.instruction.mode, s0, w));
                }
                r
            },
            InstrName::ILLEGAL_ANC => {
                let r = self.anc(state);
                proof {
                    let w = choose|v: u8| me.operand_of(s0, v) && *state == s0.spec_anc(v);
                    assert(*state == spec_effect(me.instruction.name, me.instruction.mode, s0, w));
                }
                r
            },
            InstrName::ILLEGAL_ALR => {
                let r = self.alr(state);
                proof {
                    let w = choose|v: u8| me.operand_of(s0, v) && *state == s0.spec_alr(v);
                    assert(*state == spec_effect(me.instruction.name, me.instruction.mode, s0, w));
                }
                r
            },
            InstrName::ILLEGAL_ARR => {
                let r = self.arr(state);
                proof {
                    let w = choose|v: u8| me.operand_of(s0, v) && *state == s0.spec_arr(v);
                    assert(*state == spec_effect(me.instruction.name, me.instruction.mode, s0, w));
                }
                r
            },
            InstrName::ILLEGAL_ANE => {
                let r = self.ane(state);
                proof {
                    let w = choose|v: u8| me.operand_of(s0, v) && *state == s0.spec_ane(v);
                    assert(*state == spec_effect(me.instruction.name, me.instruction.mode, s0, w));
                }
                r
            },
            InstrName::ILLEGAL_TAS => {
                let r = self.tas(state);
                proof {
                    assert(*state == spec_effect(me.instruction.name, me.instruction.mode, s0, 0));
                }
                r
            },
            InstrName::ILLEGAL_LXA => {
                let r = self.lxa(state);
                proof {
                    let w = choose|v: u8| me.operand_of(s0, v) && *state == s0.spec_lax(v);
                    assert(*state == spec_effect(me.instruction.name, me.instruction.mode, s0, w));
                }
                r
            },
            InstrName::ILLEGAL_LAS => {
                let r = self.las(state);
                proof {
                    let w = choose|v: u8| me.operand_of(s0, v) && *state == s0.spec_las(v);
                    assert(*state == spec_effect(me.instruction.name, me.instruction.mode, s0, w));
                }
                r
            },
            InstrName::ILLEGAL_SBX => {
                let r = self.sbx(state);
                proof {
                    let w = choose|v: u8| me.operand_of(s0, v) && *state == s0.spec_sbx(v);
                    assert(*state == spec_effect(me.instruction.name, me.instruction.mode, s0, w));
                }
                r
            },
            InstrName::ILLEGAL_USBC => {
                let r = self.usbc(state);
                proof {
                    let w = choose|v: u8| me.operand_of(s0, v) && *state == s0.spec_sbc(v);
                    assert(*state == spec_effect(me.instruction.name, me.instruction.mode, s0, w));
                }
                r
            },
            InstrName::ILLEGAL_SHY => {
                let r = self.shy(state);
                proof {
                    assert(*state == spec_effect(me.instruction.name, me.instruction.mode, s0, 0));
                }
                r
            },
            InstrName::ILLEGAL_SHX => {
                let r = self.shx(state);
                proof {
                    assert(*state == spec_effect(me.instruction.name, me.instruction.mode, s0, 0));
                }
                r
            },
            InstrName::ILLEGAL_NOP | InstrName::NOP => {
                let r = self.nop(state);
                proof {
                    assert(*state == spec_effect(me.instruction.name, me.instruction.mode, s0, 0));
                }
                r
            },
        };
        proof {
            if is_branch_name(me.instruction.name) {
                assert(*state == spec_effect(me.instruction.name, me.instruction.mode, s0, 0));
            }
        }
        state.instructions_executed = state.instructions_executed.wrapping_add(1);
        state.pc =
        match next_pc {
            Some(pc) => pc,
            None => state.pc.wrapping_add(self.instruction.size()),
        };
        self.extra_cycles + self.instruction.cycles as usize
    }

    /// The jam opcodes lock the processor: PC stays on the jam and the caller stops the CPU.
    fn hlt(&mut self, state: &mut CpuState) -> (r: Option<u16>)
        requires
            old(self).ready(),
            old(self).instruction.mode == AddressingMode::Implied,
            !is_branch_name(old(self).instruction.name),
        ensures
            final(self).wf(),
            final(self).frame(*old(self), *old(state)),
            *final(state) == *old(state),
            r == Some(old(state).pc),
    {
        Some(state.pc)
    }

    fn takes_extra_cycle(&mut self, start_addr: u16, end_addr: u16) -> (r: bool)
        ensures
            *final(self) == *old(self),
            r == (!no_page_penalty(old(self).instruction.name) && spec_crosses_page(
                start_addr,
                end_addr,
            )),
    {
        match self.instruction.name {
            InstrName::STA | InstrName::ILLEGAL_ALR | InstrName::ILLEGAL_ANC
            | InstrName::ILLEGAL_ANE | InstrName::ILLEGAL_ARR | InstrName::ILLEGAL_DCP
            | InstrName::ILLEGAL_ISC | InstrName::ILLEGAL_LXA | InstrName::ILLEGAL_RLA
            | InstrName::ILLEGAL_RRA | InstrName::ILLEGAL_SAX | InstrName::ILLEGAL_SBX
            | InstrName::ILLEGAL_SHA | InstrName::ILLEGAL_SHX | InstrName::ILLEGAL_SHY
            | InstrName::ILLEGAL_SLO | InstrName::ILLEGAL_SRE | InstrName::ILLEGAL_TAS
            | InstrName::ILLEGAL_USBC => false,
            _ => crosses_page(start_addr, end_addr),
        }
    }

    /// Take a branch by the signed offset `dst`: one extra cycle, two when the target is in
    /// another page.
    fn do_branch(&mut self, state: &mut CpuState, dst: u8) -> (r: u16)
        requires
            old(self).extra_cycles <= usize::MAX - 2,
        ensures
            *final(state) == *old(state),
            final(self).instruction == old(self).instruction,
            final(self).operands@ == old(self).operands@,
            final(self).bus == old(self).bus,
            r == branch_target(old(state).pc, old(self).size(), dst),
            final(self).extra_cycles == old(self).extra_cycles + 1 + (if spec_crosses_page(
                old(state).pc.wrapping_add(old(self).size()),
                r,
            ) {
                1int
            } else {
                0int
            }),
    {
        let pc_before = state.pc.wrapping_add(self.instruction.size());
        let next_pc = if is_negative(dst) {
            pc_before.wrapping_sub(0u8.wrapping_sub(dst) as u16)
        } else {
            pc_before.wrapping_add(dst as u16)
        };
        proof {
            let t = state.pc + mode_size(self.instruction.mode) + signed(dst);
            lemma_wrap16(t);
        }
        let crossed_page = crosses_page(pc_before, next_pc);
        self.extra_cycles += 1;
        if crossed_page {
            self.extra_cycles += 1;
        }
        next_pc
    }

    /// The effective address of the current instruction; indexed modes that cross a page count
    /// an extra cycle.
    fn calc_addr(&mut self, state: &CpuState) -> (r: u16)
        requires
            old(self).bus.inv(),
            old(self).extra_cycles < usize::MAX,
        ensures
            final(self).bus.inv(),
            final(self).instruction == old(self).instruction,
            final(self).operands@ == old(self).operands@,
            old(self).extra_cycles <= final(self).extra_cycles <= old(self).extra_cycles + 1,
            old(self).direct_addr(*state) is Some ==> r == old(self).direct_addr(*state)->0,
            (old(self).mode() == AddressingMode::AbsoluteX || old(self).mode()
                == AddressingMode::AbsoluteY) ==> final(self).extra_cycles == old(
                self,
            ).extra_cycles + (if !no_page_penalty(old(self).instruction.name)
                && spec_crosses_page(word(old(self).op_or_zero(0), old(self).op_or_zero(1)), r) {
                1int
            } else {
                0int
            }),
            !(old(self).mode() == AddressingMode::AbsoluteX || old(self).mode()
                == AddressingMode::AbsoluteY || old(self).mode() == AddressingMode::IndirectY)
                ==> final(self).extra_cycles == old(self).extra_cycles,
            old(self).addressed(*state, r, final(self).bus),
            old(self).addr_charge(*state, final(self).extra_cycles - old(self).extra_cycles),
    {
        let addr_lo = if self.operands.len() > 0 {
            self.operands[0]
        } else {
            0
        };
        let addr_hi = if self.operands.len() > 1 {
            self.operands[1]
        } else {
            0
        };
        let addr = ((addr_hi as u16) << 8) | addr_lo as u16;

        match self.instruction.mode {
            AddressingMode::ZeroPage => addr_lo as u16,
            AddressingMode::ZeroPageX => addr_lo.wrapping_add(state.x) as u16,
            AddressingMode::ZeroPageY => addr_lo.wrapping_add(state.y) as u16,
            AddressingMode::Absolute => addr,
            AddressingMode::AbsoluteX => {
                let addr_x = addr.wrapping_add(state.x as u16);
                if self.takes_extra_cycle(addr, addr_x) {
                    self.extra_cycles += 1;
                }
                addr_x
            },
            AddressingMode::AbsoluteY => {
                let addr_y = addr.wrapping_add(state.y as u16);
                if self.takes_extra_cycle(addr, addr_y) {
                    self.extra_cycles += 1;
                }
                addr_y
            },
            AddressingMode::Indirect => {
                let ghost b0 = self.bus;
                let a = self.bus.read16(addr);
                assert(reads_word(b0, addr, a, self.bus));
                assert(old(self).addressed(*state, a, self.bus));
                a
            },
            AddressingMode::IndirectX => {
                let ghost b0 = self.bus;
                let ptr = addr_lo.wrapping_add(state.x) as u16;
                let a = self.bus.read16(ptr);
                assert(reads_word(b0, ptr, a, self.bus));
                assert(old(self).addressed(*state, a, self.bus));
                a
            },
            AddressingMode::IndirectY => {
                let ghost b0 = self.bus;
                let addr_without_offset = self.bus.read16(addr_lo as u16);
                assert(reads_word(b0, addr_lo as u16, addr_without_offset, self.bus));
                let addr = addr_without_offset.wrapping_add(state.y as u16);
                if self.takes_extra_cycle(addr_without_offset, addr) {
                    self.extra_cycles += 1;
                }
                assert(reads_word(old(self).bus, old(self).op_or_zero(0) as u16, addr_without_offset, self.bus));
                assert(old(self).addressed(*state, addr, self.bus));
                assert(old(self).addr_charge(*state, self.extra_cycles - old(self).extra_cycles));
                addr
            },
            _ => u16::MAX,
        }
    }

    /// The operand of the current instruction: the accumulator, the operand byte, or the byte
    /// at the effective address.
    fn get_operand(&mut self, state: &mut CpuState) -> (r: u8)
        requires
            old(self).wf(),
            old(self).extra_cycles < usize::MAX,
        ensures
            final(self).wf(),
            *final(state) == *old(state),
            final(self).instruction == old(self).instruction,
            final(self).operands@ == old(self).operands@,
            old(self).extra_cycles <= final(self).extra_cycles <= old(self).extra_cycles + 1,
            old(self).mode() == AddressingMode::Relative ==> final(self).extra_cycles == old(
                self,
            ).extra_cycles,
            old(self).addr_charge(*old(state), final(self).extra_cycles - old(self).extra_cycles),
            old(self).operand_of(*old(state), r),
    {
        match self.instruction.mode {
            AddressingMode::Accumulator => state.acc,
            AddressingMode::Immediate | AddressingMode::Relative => self.operands[0],
            _ => {
                let addr = self.calc_addr(state);
                let ghost mid = self.bus;
                let v = self.bus.read(addr);
                assert(mid.reads(addr, v, self.bus));
                v
            },
        }
    }

    fn write_memory(&mut self, state: &mut CpuState, addr: TargetAddress, val: u8)
        requires
            old(self).bus.inv(),
            !(addr is Nowhere),
        ensures
            final(self).bus.inv(),
            final(self).instruction == old(self).instruction,
            final(self).operands@ == old(self).operands@,
            final(self).extra_cycles == old(self).extra_cycles,
            addr is Accumulator ==> *final(state) == old(state).with_acc(val),
            addr is Memory ==> *final(state) == *old(state),
            addr matches TargetAddress::Memory(a) ==> old(self).bus.writes(a, val, final(self).bus),
            addr is Accumulator ==> final(self).bus == old(self).bus,
    {
        match addr {
            TargetAddress::Memory(addr) => self.bus.write(addr, val),
            TargetAddress::Accumulator => state.acc = val,
            TargetAddress::Nowhere => {},
        }
    }

    /// The operand of a read-modify-write instruction and where its result goes.
    fn read_memory(&mut self, state: &mut CpuState) -> (r: (TargetAddress, u8))
        requires
            old(self).wf(),
            old(self).extra_cycles < usize::MAX,
        ensures
            final(self).wf(),
            *final(state) == *old(state),
            final(self).instruction == old(self).instruction,
            final(self).operands@ == old(self).operands@,
            old(self).extra_cycles <= final(self).extra_cycles <= old(self).extra_cycles + 1,
            old(self).addr_charge(*old(state), final(self).extra_cycles - old(self).extra_cycles),
            old(self).operand_of(*old(state), r.1),
            r.0 is Memory ==> exists|mid: T|
                #![trigger old(self).addressed(*old(state), r.0->0, mid)]
                old(self).addressed(*old(state), r.0->0, mid) && mid.reads(
                    r.0->0,
                    r.1,
                    final(self).bus,
                ),
            !(r.0 is Memory) ==> final(self).bus == old(self).bus,
            (r.0 is Accumulator) == (old(self).mode() == AddressingMode::Accumulator),
            (r.0 is Nowhere) == (old(self).mode() == AddressingMode::Immediate || old(self).mode()
                == AddressingMode::Relative),
    {
        match self.instruction.mode {
            AddressingMode::Accumulator => (TargetAddress::Accumulator, state.acc),
            AddressingMode::Immediate | AddressingMode::Relative => (
                TargetAddress::Nowhere,
                self.operands[0],
            ),
            _ => {
                let addr = self.calc_addr(state);
                let ghost mid = self.bus;
                let v = self.bus.read(addr);
                assert(mid.reads(addr, v, self.bus));
                assert(old(self).addressed(*old(state), addr, mid));
                let r = (TargetAddress::Memory(addr), v);
                assert(r.0->0 == addr);
                assert(exists|m: T|
                    #![trigger old(self).addressed(*old(state), r.0->0, m)]
                    old(self).addressed(*old(state), r.0->0, m) && m.reads(r.0->0, r.1, self.bus));
                r
            },
        }
    }

    /// Add `op` and the carry to the accumulator, setting carry and overflow; the sum is
    /// returned and the accumulator left as it was.
    fn add_with_carry_and_overflow(&mut self, state: &mut CpuState, op: u8) -> (r: u8)
        ensures
            *final(self) == *old(self),
            r == old(state).adc_value(op),
            *final(state) == old(state).with_adc(op).with_acc(old(state).acc),
    {
        let carry: u16 = if state.status.contains(Status::CARRY) {
            1
        } else {
            0
        };
        let sum: u16 = state.acc as u16 + op as u16 + carry;
        let result = (sum % 256) as u8;
        let overflow = (state.acc ^ op) & 0x80 == 0 && (op ^ result) & 0x80 != 0;
        state.status.set(Status::OVERFLOW, overflow);
        state.status.set(Status::CARRY, sum > 0xFF);
        result
    }

    /// Subtract `op` and the borrow from the accumulator, setting carry and overflow; the
    /// difference is returned and the accumulator left as it was.
    fn sub_with_carry_and_overflow(&mut self, state: &mut CpuState, op: u8) -> (r: u8)
        ensures
            *final(self) == *old(self),
            r == old(state).sbc_value(op),
            *final(state) == old(state).with_sbc(op).with_acc(old(state).acc),
    {
        let carry = state.status.contains(Status::CARRY);
        let borrow: u8 = if carry {
            0
        } else {
            1
        };
        let result = state.acc.wrapping_sub(op).wrapping_sub(borrow);
        let overflow = ((result ^ op) & 0x80) == 0 && ((op ^ state.acc) & 0x80) != 0;
        let carry = state.acc > op || (state.acc == op && carry);
        state.status.set(Status::CARRY, carry);
        state.status.set(Status::OVERFLOW, overflow);
        result
    }

    // BRANCHES:
    fn bpl(&mut self, state: &mut CpuState) -> (r: Option<u16>)
        requires
            old(self).ready(),
            old(self).instruction.name == InstrName::BPL,
            old(self).mode() == AddressingMode::Relative,
        ensures
            final(self).wf(),
            final(self).frame(*old(self), *old(state)),
            *final(state) == *old(state),
            r == (if !old(state).status.has(Status::NEGATIVE) {
                Some(branch_target(old(state).pc, 2, old(self).operands@[0]))
            } else {
                None
            }),
    {
        let dst = self.get_operand(state);
        if !state.status.contains(Status::NEGATIVE) {
            return Some(self.do_branch(state, dst));
        }
        None
    }

    fn bmi(&mut self, state: &mut CpuState) -> (r: Option<u16>)
        requires
            old(self).ready(),
            old(self).instruction.name == InstrName::BMI,
            old(self).mode() == AddressingMode::Relative,
        ensures
            final(self).wf(),
            final(self).frame(*old(self), *old(state)),
            *final(state) == *old(state),
            r == (if old(state).status.has(Status::NEGATIVE) {
                Some(branch_target(old(state).pc, 2, old(self).operands@[0]))
            } else {
                None
            }),
    {
        let dst = self.get_operand(state);
        if state.status.contains(Status::NEGATIVE) {
            return Some(self.do_branch(state, dst));
        }
        None
    }

    fn bvc(&mut self, state: &mut CpuState) -> (r: Option<u16>)
        requires
            old(self).ready(),
            old(self).instruction.name == InstrName::BVC,
            old(self).mode() == AddressingMode::Relative,
        ensures
            final(self).wf(),
            final(self).frame(*old(self), *old(state)),
            *final(state) == *old(state),
            r == (if !old(state).status.has(Status::OVERFLOW) {
                Some(branch_target(old(state).pc, 2, old(self).operands@[0]))
            } else {
                None
            }),
    {
        let dst = self.get_operand(state);
        if !state.status.contains(Status::OVERFLOW) {
            return Some(self.do_branch(state, dst));
        }
        None
    }

    fn bvs(&mut self, state: &mut CpuState) -> (r: Option<u16>)
        requires
            old(self).ready(),
            old(self).instruction.name == InstrName::BVS,
            old(self).mode() == AddressingMode::Relative,
        ensures
            final(self).wf(),
            final(self).frame(*old(self), *old(state)),
            *final(state) == *old(state),
            r == (if old(state).status.has(Status::OVERFLOW) {
                Some(branch_target(old(state).pc, 2, old(self).operands@[0]))
            } else {
                None
            }),
    {
        let dst = self.get_operand(state);
        if state.status.contains(Status::OVERFLOW) {
            return Some(self.do_branch(state, dst));
        }
        None
    }

    fn bcc(&mut self, state: &mut CpuState) -> (r: Option<u16>)
        requires
            old(self).ready(),
            old(self).instruction.name == InstrName::BCC,
            old(self).mode() == AddressingMode::Relative,
        ensures
            final(self).wf(),
            final(self).frame(*old(self), *old(state)),
            *final(state) == *old(state),
            r == (if !old(state).status.has(Status::CARRY) {
                Some(branch_target(old(state).pc, 2, old(self).operands@[0]))
            } else {
                None
            }),
    {
        let dst = self.get_operand(state);
        if !state.status.contains(Status::CARRY) {
            return Some(self.do_branch(state, dst));
        }
        None
    }

    fn bcs(&mut self, state: &mut CpuState) -> (r: Option<u16>)
        requires
            old(self).ready(),
            old(self).instruction.name == InstrName::BCS,
            old(self).mode() == AddressingMode::Relative,
        ensures
            final(self).wf(),
            final(self).frame(*old(self), *old(state)),
            *final(state) == *old(state),
            r == (if old(state).status.has(Status::CARRY) {
                Some(branch_target(old(state).pc, 2, old(self).operands@[0]))
            } else {
                None
            }),
    {
        let dst = self.get_operand(state);
        if state.status.contains(Status::CARRY) {
            return Some(self.do_branch(state, dst));
        }
        None
    }

    fn bne(&mut self, state: &mut CpuState) -> (r: Option<u16>)
        requires
            old(self).ready(),
            old(self).instruction.name == InstrName::BNE,
            old(self).mode() == AddressingMode::Relative,
        ensures
            final(self).wf(),
            final(self).frame(*old(self), *old(state)),
            *final(state) == *old(state),
            r == (if !old(state).status.has(Status::ZERO) {
                Some(branch_target(old(state).pc, 2, old(self).operands@[0]))
            } else {
                None
            }),
    {
        let dst = self.get_operand(state);
        if !state.status.contains(Status::ZERO) {
            return Some(self.do_branch(state, dst));
        }
        None
    }

    fn beq(&mut self, state: &mut CpuState) -> (r: Option<u16>)
        requires
            old(self).ready(),
            old(self).instruction.name == InstrName::BEQ,
            old(self).mode() == AddressingMode::Relative,
        ensures
            final(self).wf(),
            final(self).frame(*old(self), *old(state)),
            *final(state) == *old(state),
            r == (if old(state).status.has(Status::ZERO) {
                Some(branch_target(old(state).pc, 2, old(self).operands@[0]))
            } else {
                None
            }),
    {
        let dst = self.get_operand(state);
        if state.status.contains(Status::ZERO) {
            return Some(self.do_branch(state, dst));
        }
        None
    }

    fn adc(&mut self, state: &mut CpuState) -> (r: Option<u16>)
        requires
            old(self).ready(),
            !is_branch_name(old(self).instruction.name),
        ensures
            final(self).wf(),
            final(self).frame(*old(self), *old(state)),
            r is None,
            exists|v: u8| #[trigger] old(self).operand_of(*old(state), v) && *final(state) == old(state).spec_adc(v),
    {
        let operand = self.get_operand(state);
        state.acc = self.add_with_carry_and_overflow(state, operand);
        state.update_nz(state.acc);
        None
    }

    fn and(&mut self, state: &mut CpuState) -> (r: Option<u16>)
        requires
            old(self).ready(),
            !is_branch_name(old(self).instruction.name),
        ensures
            final(self).wf(),
            final(self).frame(*old(self), *old(state)),
            r is None,
            exists|v: u8| #[trigger] old(self).operand_of(*old(state), v) && *final(state) == old(state).spec_and(v),
    {
        let operand = self.get_operand(state);
        state.acc = state.acc & operand;
        state.update_nz(state.acc);
        None
    }

    fn bit(&mut self, state: &mut CpuState) -> (r: Option<u16>)
        requires
            old(self).ready(),
            !is_branch_name(old(self).instruction.name),
        ensures
            final(self).wf(),
            final(self).frame(*old(self), *old(state)),
            r is None,
            exists|v: u8| #[trigger] old(self).operand_of(*old(state), v) && *final(state) == old(state).spec_bit(v),
    {
        let operand = self.get_operand(state);
        proof {
            assert((operand & (1u8 << 6u8)) == (operand & 0x40)) by (bit_vector);
        }
        state.status.set(Status::OVERFLOW, is_bit_set(operand, 6));
        state.status.set(Status::NEGATIVE, is_negative(operand));
        state.status.set(Status::ZERO, (state.acc & operand) == 0);
        None
    }

    fn clc(&mut self, state: &mut CpuState) -> (r: Option<u16>)
        requires
            old(self).ready(),
            old(self).instruction.mode == AddressingMode::Implied,
            !is_branch_name(old(self).instruction.name),
        ensures
            final(self).wf(),
            final(self).frame(*old(self), *old(state)),
            r is None,
            *final(state) == old(state).set_flag(Status::CARRY, false),
    {
        state.status.set(Status::CARRY, false);
        None
    }

    fn cld(&mut self, state: &mut CpuState) -> (r: Option<u16>)
        requires
            old(self).ready(),
            old(self).instruction.mode == AddressingMode::Implied,
            !is_branch_name(old(self).instruction.name),
        ensures
            final(self).wf(),
            final(self).frame(*old(self), *old(state)),
            r is None,
            *final(state) == old(state).set_flag(Status::DECIMAL, false),
    {
        state.status.set(Status::DECIMAL, false);
        None
    }

    fn cli(&mut self, state: &mut CpuState) -> (r: Option<u16>)
        requires
            old(self).ready(),
            old(self).instruction.mode == AddressingMode::Implied,
            !is_branch_name(old(self).instruction.name),
        ensures
            final(self).wf(),
            final(self).frame(*old(self), *old(state)),
            r is None,
            *final(state) == old(state).set_flag(Status::INT_DISABLE, false),
    {
        state.status.set(Status::INT_DISABLE, false);
        None
    }

    fn clv(&mut self, state: &mut CpuState) -> (r: Option<u16>)
        requires
            old(self).ready(),
            old(self).instruction.mode == AddressingMode::Implied,
            !is_branch_name(old(self).instruction.name),
        ensures
            final(self).wf(),
            final(self).frame(*old(self), *old(state)),
            r is None,
            *final(state) == old(state).set_flag(Status::OVERFLOW, false),
    {
        state.status.set(Status::OVERFLOW, false);
        None
    }

    fn sec(&mut self, state: &mut CpuState) -> (r: Option<u16>)
        requires
            old(self).ready(),
            old(self).instruction.mode == AddressingMode::Implied,
            !is_branch_name(old(self).instruction.name),
        ensures
            final(self).wf(),
            final(self).frame(*old(self), *old(state)),
            r is None,
            *final(state) == old(state).set_flag(Status::CARRY, true),
    {
        state.status.set(Status::CARRY, true);
        None
    }

    fn sed(&mut self, state: &mut CpuState) -> (r: Option<u16>)
        requires
            old(self).ready(),
            old(self).instruction.mode == AddressingMode::Implied,
            !is_branch_name(old(self).instruction.name),
        ensures
            final(self).wf(),
            final(self).frame(*old(self), *old(state)),
            r is None,
            *final(state) == old(state).set_flag(Status::DECIMAL, true),
    {
        state.status.set(Status::DECIMAL, true);
        None
    }

    fn sei(&mut self, state: &mut CpuState) -> (r: Option<u16>)
        requires
            old(self).ready(),
            old(self).instruction.mode == AddressingMode::Implied,
            !is_branch_name(old(self).instruction.name),
        ensures
            final(self).wf(),
            final(self).frame(*old(self), *old(state)),
            r is None,
            *final(state) == old(state).set_flag(Status::INT_DISABLE, true),
    {
        state.status.set(Status::INT_DISABLE, true);
        None
    }

    fn compare(&mut self, state: &mut CpuState) -> (r: Option<u16>)
        requires
            old(self).ready(),
            !is_branch_name(old(self).instruction.name),
        ensures
            final(self).wf(),
            final(self).frame(*old(self), *old(state)),
            r is None,
            exists|v: u8| #[trigger] old(self).operand_of(*old(state), v) && *final(state) == old(state).spec_compare(old(state).acc, v),
    {
        let operand = self.get_operand(state);
        state.status.set(Status::CARRY, state.acc >= operand);
        let result = state.acc.wrapping_sub(operand);
        state.update_nz(result);
        None
    }

    fn cpx(&mut self, state: &mut CpuState) -> (r: Option<u16>)
        requires
            old(self).ready(),
            !is_branch_name(old(self).instruction.name),
        ensures
            final(self).wf(),
            final(self).frame(*old(self), *old(state)),
            r is None,
            exists|v: u8| #[trigger] old(self).operand_of(*old(state), v) && *final(state) == old(state).spec_compare(old(state).x, v),
    {
        let operand = self.get_operand(state);
        state.status.set(Status::CARRY, state.x >= operand);
        let result = state.x.wrapping_sub(operand);
        state.update_nz(result);
        None
    }

    fn cpy(&mut self, state: &mut CpuState) -> (r: Option<u16>)
        requires
            old(self).ready(),
            !is_branch_name(old(self).instruction.name),
        ensures
            final(self).wf(),
            final(self).frame(*old(self), *old(state)),
            r is None,
            exists|v: u8| #[trigger] old(self).operand_of(*old(state), v) && *final(state) == old(state).spec_compare(old(state).y, v),
    {
        let operand = self.get_operand(state);
        state.status.set(Status::CARRY, state.y >= operand);
        let result = state.y.wrapping_sub(operand);
        state.update_nz(result);
        None
    }

    fn dec(&mut self, state: &mut CpuState) -> (r: Option<u16>)
        requires
            old(self).ready(),
            !is_branch_name(old(self).instruction.name),
        ensures
            final(self).wf(),
            final(self).frame(*old(self), *old(state)),
            r is None,
            exists|v: u8|
                *final(state) == #[trigger] old(state).spec_dec_mem(v) && old(self).modified(
                    *old(state),
                    v,
                    v.wrapping_sub(1),
                    final(self).bus,
                ),
    {
        let addr = self.calc_addr(state);
        let ghost m1 = self.bus;
        let value = self.bus.read(addr);
        let ghost m2 = self.bus;
        let result = value.wrapping_sub(1);
        self.bus.write(addr, result);
        state.update_nz(result);
        assert(*state == old(state).spec_dec_mem(value));
        assert(m1.reads(addr, value, m2));
        assert(old(self).modified(*old(state), value, value.wrapping_sub(1), self.bus));
        None
    }

    fn inc(&mut self, state: &mut CpuState) -> (r: Option<u16>)
        requires
            old(self).ready(),
            !is_branch_name(old(self).instruction.name),
        ensures
            final(self).wf(),
            final(self).frame(*old(self), *old(state)),
            r is None,
            exists|v: u8|
                *final(state) == #[trigger] old(state).spec_inc_mem(v) && old(self).modified(
                    *old(state),
                    v,
                    v.wrapping_add(1),
                    final(self).bus,
                ),
    {
        let addr = self.calc_addr(state);
        let ghost m1 = self.bus;
        let value = self.bus.read(addr);
        let ghost m2 = self.bus;
        let result = value.wrapping_add(1);
        self.bus.write(addr, result);
        state.update_nz(result);
        assert(*state == old(state).spec_inc_mem(value));
        assert(m1.reads(addr, value, m2));
        assert(old(self).modified(*old(state), value, value.wrapping_add(1), self.bus));
        None
    }

    fn dex(&mut self, state: &mut CpuState) -> (r: Option<u16>)
        requires
            old(self).ready(),
            old(self).instruction.mode == AddressingMode::Implied,
            !is_branch_name(old(self).instruction.name),
        ensures
            final(self).wf(),
            final(self).frame(*old(self), *old(state)),
            r is None,
            *final(state) == old(state).with_x(old(state).x.wrapping_sub(1)).nz(old(state).x.wrapping_sub(1)),
    {
        state.x = state.x.wrapping_sub(1);
        state.update_nz(state.x);
        None
    }

    fn dey(&mut self, state: &mut CpuState) -> (r: Option<u16>)
        requires
            old(self).ready(),
            old(self).instruction.mode == AddressingMode::Implied,
            !is_branch_name(old(self).instruction.name),
        ensures
            final(self).wf(),
            final(self).frame(*old(self), *old(state)),
            r is None,
            *final(state) == old(state).with_y(old(state).y.wrapping_sub(1)).nz(old(state).y.wrapping_sub(1)),
    {
        state.y = state.y.wrapping_sub(1);
        state.update_nz(state.y);
        None
    }

    fn inx(&mut self, state: &mut CpuState) -> (r: Option<u16>)
        requires
            old(self).ready(),
            old(self).instruction.mode == AddressingMode::Implied,
            !is_branch_name(old(self).instruction.name),
        ensures
            final(self).wf(),
            final(self).frame(*old(self), *old(state)),
            r is None,
            *final(state) == old(state).with_x(old(state).x.wrapping_add(1)).nz(old(state).x.wrapping_add(1)),
    {
        state.x = state.x.wrapping_add(1);
        state.update_nz(state.x);
        None
    }

    fn iny(&mut self, state: &mut CpuState) -> (r: Option<u16>)
        requires
            old(self).ready(),
            old(self).instruction.mode == AddressingMode::Implied,
            !is_branch_name(old(self).instruction.name),
        ensures
            final(self).wf(),
            final(self).frame(*old(self), *old(state)),
            r is None,
            *final(state) == old(state).with_y(old(state).y.wrapping_add(1)).nz(old(state).y.wrapping_add(1)),
    {
        state.y = state.y.wrapping_add(1);
        state.update_nz(state.y);
        None
    }

    fn eor(&mut self, state: &mut CpuState) -> (r: Option<u16>)
        requires
            old(self).ready(),
            !is_branch_name(old(self).instruction.name),
        ensures
            final(self).wf(),
            final(self).frame(*old(self), *old(state)),
            r is None,
            exists|v: u8| #[trigger] old(self).operand_of(*old(state), v) && *final(state) == old(state).spec_eor(v),
    {
        let operand = self.get_operand(state);
        state.acc = state.acc ^ operand;
        state.update_nz(state.acc);
        None
    }

    fn lda(&mut self, state: &mut CpuState) -> (r: Option<u16>)
        requires
            old(self).ready(),
            !is_branch_name(old(self).instruction.name),
        ensures
            final(self).wf(),
            final(self).frame(*old(self), *old(state)),
            r is None,
            exists|v: u8| #[trigger] old(self).operand_of(*old(state), v) && *final(state) == old(state).spec_lda(v),
    {
        let operand = self.get_operand(state);
        state.acc = operand;
        state.update_nz(state.acc);
        None
    }

    fn ldx(&mut self, state: &mut CpuState) -> (r: Option<u16>)
        requires
            old(self).ready(),
            !is_branch_name(old(self).instruction.name),
        ensures
            final(self).wf(),
            final(self).frame(*old(self), *old(state)),
            r is None,
            exists|v: u8| #[trigger] old(self).operand_of(*old(state), v) && *final(state) == old(state).spec_ldx(v),
    {
        let operand = self.get_operand(state);
        state.x = operand;
        state.update_nz(state.x);
        None
    }

    fn ldy(&mut self, state: &mut CpuState) -> (r: Option<u16>)
        requires
            old(self).ready(),
            !is_branch_name(old(self).instruction.name),
        ensures
            final(self).wf(),
            final(self).frame(*old(self), *old(state)),
            r is None,
            exists|v: u8| #[trigger] old(self).operand_of(*old(state), v) && *final(state) == old(state).spec_ldy(v),
    {
        let operand = self.get_operand(state);
        state.y = operand;
        state.update_nz(state.y);
        None
    }

    fn lsr(&mut self, state: &mut CpuState) -> (r: Option<u16>)
        requires
            old(self).ready(),
            !is_branch_name(old(self).instruction.name),
            old(self).mode() != AddressingMode::Immediate,
            old(self).mode() != AddressingMode::Relative,
        ensures
            final(self).wf(),
            final(self).frame(*old(self), *old(state)),
            r is None,
            exists|v: u8| #[trigger] old(self).operand_of(*old(state), v) && *final(state) == old(state).spec_lsr(old(self).mode() == AddressingMode::Accumulator, v)
                && (old(self).mode() != AddressingMode::Accumulator ==> old(self).modified(*old(state), v, v >> 1u8, final(self).bus)),
    {
        let (addr, operand) = self.read_memory(state);
        let ghost ga = addr;
        let ghost m2 = self.bus;
        state.status.set(Status::CARRY, operand & 0x01 != 0);
        let shift = operand >> 1;
        self.write_memory(state, addr, shift);
        state.update_nz(shift);
        proof {
            if let TargetAddress::Memory(a) = ga {
                let mid = choose|mid: T| old(self).addressed(*old(state), a, mid) && mid.reads(a, operand, m2);
                assert(old(self).modified(*old(state), operand, shift, self.bus));
            }
        }
        None
    }

    fn asl(&mut self, state: &mut CpuState) -> (r: Option<u16>)
        requires
            old(self).ready(),
            !is_branch_name(old(self).instruction.name),
            old(self).mode() != AddressingMode::Immediate,
            old(self).mode() != AddressingMode::Relative,
        ensures
            final(self).wf(),
            final(self).frame(*old(self), *old(state)),
            r is None,
            exists|v: u8| #[trigger] old(self).operand_of(*old(state), v) && *final(state) == old(state).spec_asl(old(self).mode() == AddressingMode::Accumulator, v)
                && (old(self).mode() != AddressingMode::Accumulator ==> old(self).modified(*old(state), v, v << 1u8, final(self).bus)),
    {
        let (addr, operand) = self.read_memory(state);
        let ghost ga = addr;
        let ghost m2 = self.bus;
        state.status.set(Status::CARRY, operand & 0x80 != 0);
        let shift = operand << 1;
        self.write_memory(state, addr, shift);
        state.update_nz(shift);
        proof {
            if let TargetAddress::Memory(a) = ga {
                let mid = choose|mid: T| old(self).addressed(*old(state), a, mid) && mid.reads(a, operand, m2);
                assert(old(self).modified(*old(state), operand, shift, self.bus));
            }
        }
        None
    }

    fn rol(&mut self, state: &mut CpuState) -> (r: Option<u16>)
        requires
            old(self).ready(),
            !is_branch_name(old(self).instruction.name),
            old(self).mode() != AddressingMode::Immediate,
            old(self).mode() != AddressingMode::Relative,
        ensures
            final(self).wf(),
            final(self).frame(*old(self), *old(state)),
            r is None,
            exists|v: u8| #[trigger] old(self).operand_of(*old(state), v) && *final(state) == old(state).spec_rol(old(self).mode() == AddressingMode::Accumulator, v)
                && (old(self).mode() != AddressingMode::Accumulator ==> old(self).modified(*old(state), v, (v << 1u8) | (if old(state).status.has(Status::CARRY) { 1u8 } else { 0u8 }), final(self).bus)),
    {
        let (addr, operand) = self.read_memory(state);
        let ghost ga = addr;
        let ghost m2 = self.bus;
        let carry = state.status.contains(Status::CARRY);
        state.status.set(Status::CARRY, (operand & 0x80) != 0);
        let shift = (operand << 1) | (if carry {
            1u8
        } else {
            0u8
        });
        self.write_memory(state, addr, shift);
        state.update_nz(shift);
        proof {
            if let TargetAddress::Memory(a) = ga {
                let mid = choose|mid: T| old(self).addressed(*old(state), a, mid) && mid.reads(a, operand, m2);
                assert(old(self).modified(*old(state), operand, shift, self.bus));
            }
        }
        None
    }

    fn ror(&mut self, state: &mut CpuState) -> (r: Option<u16>)
        requires
            old(self).ready(),
            !is_branch_name(old(self).instruction.name),
            old(self).mode() != AddressingMode::Immediate,
            old(self).mode() != AddressingMode::Relative,
        ensures
            final(self).wf(),
            final(self).frame(*old(self), *old(state)),
            r is None,
            exists|v: u8| #[trigger] old(self).operand_of(*old(state), v) && *final(state) == old(state).spec_ror(old(self).mode() == AddressingMode::Accumulator, v)
                && (old(self).mode() != AddressingMode::Accumulator ==> old(self).modified(*old(state), v, (v >> 1u8) | (if old(state).status.has(Status::CARRY) { 0x80u8 } else { 0u8 }), final(self).bus)),
    {
        let (addr, operand) = self.read_memory(state);
        let ghost ga = addr;
        let ghost m2 = self.bus;
        let carry = state.status.contains(Status::CARRY);
        state.status.set(Status::CARRY, (operand & 0x01) != 0);
        let shift = (operand >> 1) | (if carry {
            0x80u8
        } else {
            0u8
        });
        self.write_memory(state, addr, shift);
        state.update_nz(shift);
        proof {
            if let TargetAddress::Memory(a) = ga {
                let mid = choose|mid: T| old(self).addressed(*old(state), a, mid) && mid.reads(a, operand, m2);
                assert(old(self).modified(*old(state), operand, shift, self.bus));
            }
        }
        None
    }

    fn nop(&mut self, state: &mut CpuState) -> (r: Option<u16>)
        requires
            old(self).ready(),
            !is_branch_name(old(self).instruction.name),
        ensures
            final(self).wf(),
            final(self).frame(*old(self), *old(state)),
            r is None,
            *final(state) == *old(state),
    {
        // Some (illegal) NOPs take an extra cycle for the address calculation.
        let _ = self.calc_addr(state);
        None
    }

    fn ora(&mut self, state: &mut CpuState) -> (r: Option<u16>)
        requires
            old(self).ready(),
            !is_branch_name(old(self).instruction.name),
        ensures
            final(self).wf(),
            final(self).frame(*old(self), *old(state)),
            r is None,
            exists|v: u8| #[trigger] old(self).operand_of(*old(state), v) && *final(state) == old(state).spec_ora(v),
    {
        let operand = self.get_operand(state);
        state.acc = state.acc | operand;
        state.update_nz(state.acc);
        None
    }

    fn pha(&mut self, state: &mut CpuState) -> (r: Option<u16>)
        requires
            old(self).ready(),
            old(self).instruction.mode == AddressingMode::Implied,
            !is_branch_name(old(self).instruction.name),
        ensures
            final(self).wf(),
            final(self).frame(*old(self), *old(state)),
            r is None,
            *final(state) == old(state).with_sp(old(state).sp.wrapping_sub(1)),
            old(self).bus.writes(stack_addr(old(state).sp), old(state).acc, final(self).bus),
    {
        self.push8(state, state.acc);
        None
    }

    fn pla(&mut self, state: &mut CpuState) -> (r: Option<u16>)
        requires
            old(self).ready(),
            old(self).instruction.mode == AddressingMode::Implied,
            !is_branch_name(old(self).instruction.name),
        ensures
            final(self).wf(),
            final(self).frame(*old(self), *old(state)),
            r is None,
            exists|p: u8|
                *final(state) == #[trigger] old(state).spec_pla(p) && old(self).bus.reads(
                    stack_addr(old(state).sp.wrapping_add(1)),
                    p,
                    final(self).bus,
                ),
    {
        let p = self.pop8(state);
        state.acc = p;
        state.update_nz(state.acc);
        assert(*state == old(state).spec_pla(p));
        None
    }

    fn php(&mut self, state: &mut CpuState) -> (r: Option<u16>)
        requires
            old(self).ready(),
            old(self).instruction.mode == AddressingMode::Implied,
            !is_branch_name(old(self).instruction.name),
        ensures
            final(self).wf(),
            final(self).frame(*old(self), *old(state)),
            r is None,
            *final(state) == old(state).with_sp(old(state).sp.wrapping_sub(1)),
            old(self).bus.writes(
                stack_addr(old(state).sp),
                old(state).status.bits | Status::BRK,
                final(self).bus,
            ),
    {
        self.push8(state, state.status.bits() | Status::BRK);
        None
    }

    fn plp(&mut self, state: &mut CpuState) -> (r: Option<u16>)
        requires
            old(self).ready(),
            old(self).instruction.mode == AddressingMode::Implied,
            !is_branch_name(old(self).instruction.name),
        ensures
            final(self).wf(),
            final(self).frame(*old(self), *old(state)),
            r is None,
            exists|p: u8|
                *final(state) == #[trigger] old(state).spec_plp(p) && old(self).bus.reads(
                    stack_addr(old(state).sp.wrapping_add(1)),
                    p,
                    final(self).bus,
                ),
    {
        let p = self.pop8(state);
        state.status = Status::from_bits(p & !Status::BRK | Status::PUSH_IRQ);
        assert(*state == old(state).spec_plp(p));
        None
    }

    fn sbc(&mut self, state: &mut CpuState) -> (r: Option<u16>)
        requires
            old(self).ready(),
            !is_branch_name(old(self).instruction.name),
        ensures
            final(self).wf(),
            final(self).frame(*old(self), *old(state)),
            r is None,
            exists|v: u8| #[trigger] old(self).operand_of(*old(state), v) && *final(state) == old(state).spec_sbc(v),
    {
        let operand = self.get_operand(state);
        state.acc = self.sub_with_carry_and_overflow(state, operand);
        state.update_nz(state.acc);
        None
    }

    fn sta(&mut self, state: &mut CpuState) -> (r: Option<u16>)
        requires
            old(self).ready(),
            !is_branch_name(old(self).instruction.name),
        ensures
            final(self).wf(),
            final(self).frame(*old(self), *old(state)),
            r is None,
            *final(state) == *old(state),
            old(self).stored(*old(state), |a: u16| a, |a: u16| old(state).acc, final(self).bus),
    {
        let addr = self.calc_addr(state);
        self.bus.write(addr, state.acc);
        None
    }

    fn stx(&mut self, state: &mut CpuState) -> (r: Option<u16>)
        requires
            old(self).ready(),
            !is_branch_name(old(self).instruction.name),
        ensures
            final(self).wf(),
            final(self).frame(*old(self), *old(state)),
            r is None,
            *final(state) == *old(state),
            old(self).stored(*old(state), |a: u16| a, |a: u16| old(state).x, final(self).bus),
    {
        let addr = self.calc_addr(state);
        self.bus.write(addr, state.x);
        None
    }

    fn sty(&mut self, state: &mut CpuState) -> (r: Option<u16>)
        requires
            old(self).ready(),
            !is_branch_name(old(self).instruction.name),
        ensures
            final(self).wf(),
            final(self).frame(*old(self), *old(state)),
            r is None,
            *final(state) == *old(state),
            old(self).stored(*old(state), |a: u16| a, |a: u16| old(state).y, final(self).bus),
    {
        let addr = self.calc_addr(state);
        self.bus.write(addr, state.y);
        None
    }

    fn tax(&mut self, state: &mut CpuState) -> (r: Option<u16>)
        requires
            old(self).ready(),
            old(self).instruction.mode == AddressingMode::Implied,
            !is_branch_name(old(self).instruction.name),
        ensures
            final(self).wf(),
            final(self).frame(*old(self), *old(state)),
            r is None,
            *final(state) == old(state).with_x(old(state).acc).nz(old(state).acc),
    {
        state.x = state.acc;
        state.update_nz(state.x);
        None
    }

    fn tay(&mut self, state: &mut CpuState) -> (r: Option<u16>)
        requires
            old(self).ready(),
            old(self).instruction.mode == AddressingMode::Implied,
            !is_branch_name(old(self).instruction.name),
        ensures
            final(self).wf(),
            final(self).frame(*old(self), *old(state)),
            r is None,
            *final(state) == old(state).with_y(old(state).acc).nz(old(state).acc),
    {
        state.y = state.acc;
        state.update_nz(state.y);
        None
    }

    fn tsx(&mut self, state: &mut CpuState) -> (r: Option<u16>)
        requires
            old(self).ready(),
            old(self).instruction.mode == AddressingMode::Implied,
            !is_branch_name(old(self).instruction.name),
        ensures
            final(self).wf(),
            final(self).frame(*old(self), *old(state)),
            r is None,
            *final(state) == old(state).with_x(old(state).sp).nz(old(state).sp),
    {
        state.x = state.sp;
        state.update_nz(state.x);
        None
    }

    fn txa(&mut self, state: &mut CpuState) -> (r: Option<u16>)
        requires
            old(self).ready(),
            old(self).instruction.mode == AddressingMode::Implied,
            !is_branch_name(old(self).instruction.name),
        ensures
            final(self).wf(),
            final(self).frame(*old(self), *old(state)),
            r is None,
            *final(state) == old(state).with_acc(old(state).x).nz(old(state).x),
    {
        state.acc = state.x;
        state.update_nz(state.acc);
        None
    }

    fn tya(&mut self, state: &mut CpuState) -> (r: Option<u16>)
        requires
            old(self).ready(),
            old(self).instruction.mode == AddressingMode::Implied,
            !is_branch_name(old(self).instruction.name),
        ensures
            final(self).wf(),
            final(self).frame(*old(self), *old(state)),
            r is None,
            *final(state) == old(state).with_acc(old(state).y).nz(old(state).y),
    {
        state.acc = state.y;
        state.update_nz(state.acc);
        None
    }

    fn txs(&mut self, state: &mut CpuState) -> (r: Option<u16>)
        requires
            old(self).ready(),
            old(self).instruction.mode == AddressingMode::Implied,
            !is_branch_name(old(self).instruction.name),
        ensures
            final(self).wf(),
            final(self).frame(*old(self), *old(state)),
            r is None,
            *final(state) == old(state).with_sp(old(state).x),
    {
        state.sp = state.x;
        None
    }

    fn alr(&mut self, state: &mut CpuState) -> (r: Option<u16>)
        requires
            old(self).ready(),
            !is_branch_name(old(self).instruction.name),
        ensures
            final(self).wf(),
            final(self).frame(*old(self), *old(state)),
            r is None,
            exists|v: u8| #[trigger] old(self).operand_of(*old(state), v) && *final(state) == old(state).spec_alr(v),
    {
        let operand = self.get_operand(state);
        state.acc = state.acc & operand;
        state.status.set(Status::CARRY, (state.acc & 0x01) != 0);
        state.acc = state.acc >> 1;
        state.update_nz(state.acc);
        None
    }

    fn anc(&mut self, state: &mut CpuState) -> (r: Option<u16>)
        requires
            old(self).ready(),
            !is_branch_name(old(self).instruction.name),
        ensures
            final(self).wf(),
            final(self).frame(*old(self), *old(state)),
            r is None,
            exists|v: u8| #[trigger] old(self).operand_of(*old(state), v) && *final(state) == old(state).spec_anc(v),
    {
        let operand = self.get_operand(state);
        state.acc = state.acc & operand;
        state.status.set(Status::CARRY, (state.acc & 0x80) != 0);
        state.update_nz(state.acc);
        None
    }

    fn ane(&mut self, state: &mut CpuState) -> (r: Option<u16>)
        requires
            old(self).ready(),
            !is_branch_name(old(self).instruction.name),
        ensures
            final(self).wf(),
            final(self).frame(*old(self), *old(state)),
            r is None,
            exists|v: u8| #[trigger] old(self).operand_of(*old(state), v) && *final(state) == old(state).spec_ane(v),
    {
        let operand = self.get_operand(state);
        state.acc = state.acc & (state.x & operand);
        state.update_nz(state.acc);
        None
    }

    fn arr(&mut self, state: &mut CpuState) -> (r: Option<u16>)
        requires
            old(self).ready(),
            !is_branch_name(old(self).instruction.name),
        ensures
            final(self).wf(),
            final(self).frame(*old(self), *old(state)),
            r is None,
            exists|v: u8| #[trigger] old(self).operand_of(*old(state), v) && *final(state) == old(state).spec_arr(v),
    {
        let operand = self.get_operand(state);
        let carry = state.status.contains(Status::CARRY);
        state.acc = state.acc & operand;
        state.acc = (state.acc >> 1) | (if carry {
            0x80u8
        } else {
            0u8
        });
        let ovfl = xor((state.acc & 0x40) != 0, (state.acc & 0x20) != 0);
        state.status.set(Status::OVERFLOW, ovfl);
        state.status.set(Status::CARRY, (state.acc & 0x40) != 0);
        state.update_nz(state.acc);
        None
    }

    fn dcp(&mut self, state: &mut CpuState) -> (r: Option<u16>)
        requires
            old(self).ready(),
            !is_branch_name(old(self).instruction.name),
        ensures
            final(self).wf(),
            final(self).frame(*old(self), *old(state)),
            r is None,
            exists|v: u8|
                *final(state) == #[trigger] old(state).spec_dcp(v) && old(self).modified(
                    *old(state),
                    v,
                    v.wrapping_sub(1),
                    final(self).bus,
                ),
    {
        let addr = self.calc_addr(state);
        let ghost m1 = self.bus;
        let value = self.bus.read(addr);
        let ghost m2 = self.bus;
        let dec = value.wrapping_sub(1);
        self.bus.write(addr, dec);
        let result = state.acc.wrapping_sub(dec);
        state.update_nz(result);
        state.status.set(Status::CARRY, state.acc >= dec);
        assert(*state == old(state).spec_dcp(value));
        assert(m1.reads(addr, value, m2));
        assert(old(self).modified(*old(state), value, dec, self.bus));
        None
    }

    fn isc(&mut self, state: &mut CpuState) -> (r: Option<u16>)
        requires
            old(self).ready(),
            !is_branch_name(old(self).instruction.name),
        ensures
            final(self).wf(),
            final(self).frame(*old(self), *old(state)),
            r is None,
            exists|v: u8|
                *final(state) == #[trigger] old(state).spec_isc(v) && old(self).modified(
                    *old(state),
                    v,
                    v.wrapping_add(1),
                    final(self).bus,
                ),
    {
        let addr = self.calc_addr(state);
        let ghost m1 = self.bus;
        let value = self.bus.read(addr);
        let ghost m2 = self.bus;
        let result = value.wrapping_add(1);
        self.bus.write(addr, result);
        state.acc = self.sub_with_carry_and_overflow(state, result);
        state.update_nz(state.acc);
        assert(*state == old(state).spec_isc(value));
        assert(m1.reads(addr, value, m2));
        assert(old(self).modified(*old(state), value, result, self.bus));
        None
    }

    fn las(&mut self, state: &mut CpuState) -> (r: Option<u16>)
        requires
            old(self).ready(),
            !is_branch_name(old(self).instruction.name),
        ensures
            final(self).wf(),
            final(self).frame(*old(self), *old(state)),
            r is None,
            exists|v: u8| #[trigger] old(self).operand_of(*old(state), v) && *final(state) == old(state).spec_las(v),
    {
        let operand = self.get_operand(state);
        state.acc = operand;
        state.x = state.sp;
        state.update_nz(state.x);
        None
    }

    fn lax(&mut self, state: &mut CpuState) -> (r: Option<u16>)
        requires
            old(self).ready(),
            !is_branch_name(old(self).instruction.name),
        ensures
            final(self).wf(),
            final(self).frame(*old(self), *old(state)),
            r is None,
            exists|v: u8| *final(state) == #[trigger] old(state).spec_lax(v),
    {
        let addr = self.calc_addr(state);
        let operand = self.bus.read(addr);
        state.acc = operand;
        state.x = operand;
        state.update_nz(state.acc);
        assert(*state == old(state).spec_lax(operand));
        None
    }

    fn lxa(&mut self, state: &mut CpuState) -> (r: Option<u16>)
        requires
            old(self).ready(),
            !is_branch_name(old(self).instruction.name),
        ensures
            final(self).wf(),
            final(self).frame(*old(self), *old(state)),
            r is None,
            exists|v: u8| #[trigger] old(self).operand_of(*old(state), v) && *final(state) == old(state).spec_lax(v),
    {
        let operand = self.get_operand(state);
        state.acc = operand;
        state.x = state.acc;
        state.update_nz(state.acc);
        None
    }

    fn rla(&mut self, state: &mut CpuState) -> (r: Option<u16>)
        requires
            old(self).ready(),
            !is_branch_name(old(self).instruction.name),
        ensures
            final(self).wf(),
            final(self).frame(*old(self), *old(state)),
            r is None,
            exists|v: u8|
                *final(state) == #[trigger] old(state).spec_rla(v) && old(self).modified(
                    *old(state),
                    v,
                    (v << 1u8) | (if old(state).status.has(Status::CARRY) { 1u8 } else { 0u8 }),
                    final(self).bus,
                ),
    {
        let addr = self.calc_addr(state);
        let ghost m1 = self.bus;
        let operand = self.bus.read(addr);
        let ghost m2 = self.bus;
        let carry = state.status.contains(Status::CARRY);
        state.status.set(Status::CARRY, (operand & 0x80) != 0);
        let shift = (operand << 1) | (if carry {
            1u8
        } else {
            0u8
        });
        self.bus.write(addr, shift);
        state.acc = state.acc & shift;
        state.update_nz(state.acc);
        assert(*state == old(state).spec_rla(operand));
        assert(m1.reads(addr, operand, m2));
        assert(old(self).modified(*old(state), operand, shift, self.bus));
        None
    }

    fn rra(&mut self, state: &mut CpuState) -> (r: Option<u16>)
        requires
            old(self).ready(),
            !is_branch_name(old(self).instruction.name),
        ensures
            final(self).wf(),
            final(self).frame(*old(self), *old(state)),
            r is None,
            exists|v: u8|
                *final(state) == #[trigger] old(state).spec_rra(v) && old(self).modified(
                    *old(state),
                    v,
                    (v >> 1u8) | (if old(state).status.has(Status::CARRY) { 0x80u8 } else { 0u8 }),
                    final(self).bus,
                ),
    {
        let addr = self.calc_addr(state);
        let ghost m1 = self.bus;
        let operand = self.bus.read(addr);
        let ghost m2 = self.bus;
        let carry = state.status.contains(Status::CARRY);
        state.status.set(Status::CARRY, (operand & 0x01) != 0);
        let shift = (operand >> 1) | (if carry {
            0x80u8
        } else {
            0u8
        });
        self.bus.write(addr, shift);
        state.acc = self.add_with_carry_and_overflow(state, shift);
        state.update_nz(state.acc);
        assert(*state == old(state).spec_rra(operand));
        assert(m1.reads(addr, operand, m2));
        assert(old(self).modified(*old(state), operand, shift, self.bus));
        None
    }

    fn sax(&mut self, state: &mut CpuState) -> (r: Option<u16>)
        requires
            old(self).ready(),
            !is_branch_name(old(self).instruction.name),
        ensures
            final(self).wf(),
            final(self).frame(*old(self), *old(state)),
            r is None,
            *final(state) == *old(state),
            old(self).stored(*old(state), |a: u16| a, |a: u16| old(state).acc & old(state).x, final(self).bus),
    {
        let ax = state.acc & state.x;
        let addr = self.calc_addr(state);
        self.bus.write(addr, ax);
        None
    }

    fn sbx(&mut self, state: &mut CpuState) -> (r: Option<u16>)
        requires
            old(self).ready(),
            !is_branch_name(old(self).instruction.name),
        ensures
            final(self).wf(),
            final(self).frame(*old(self), *old(state)),
            r is None,
            exists|v: u8| #[trigger] old(self).operand_of(*old(state), v) && *final(state) == old(state).spec_sbx(v),
    {
        let operand = self.get_operand(state);
        let ax = state.acc & state.x;
        state.x = ax.wrapping_sub(operand);
        state.status.set(Status::CARRY, ax >= operand);
        state.update_nz(state.x);
        None
    }

    fn sha(&mut self, state: &mut CpuState) -> (r: Option<u16>)
        requires
            old(self).ready(),
            !is_branch_name(old(self).instruction.name),
        ensures
            final(self).wf(),
            final(self).frame(*old(self), *old(state)),
            r is None,
            *final(state) == *old(state),
            old(self).stored(*old(state), |a: u16| a, |a: u16| (old(state).acc & old(state).x) & (((a >> 8u16) + 1) as u8), final(self).bus),
    {
        let ax = state.acc & state.x;
        let addr = self.calc_addr(state);
        proof {
            assert((addr >> 8u16) <= 0xFF) by (bit_vector);
        }
        let high = ((addr >> 8u16) + 1) as u8;
        self.bus.write(addr, ax & high);
        None
    }

    fn shx(&mut self, state: &mut CpuState) -> (r: Option<u16>)
        requires
            old(self).ready(),
            !is_branch_name(old(self).instruction.name),
        ensures
            final(self).wf(),
            final(self).frame(*old(self), *old(state)),
            r is None,
            *final(state) == *old(state),
            old(self).stored(*old(state), |a: u16| unstable_addr(a, old(state).x), |a: u16| old(state).x & high_plus_one(a), final(self).bus),
    {
        // If the indexed address crosses into a new page, the high byte of the target address
        // is corrupted to (reg & (addr_high + 1)), as the sum shares the bus with the register.
        let mut addr = self.calc_addr(state);
        let hi = ((addr >> 8u16) as u8).wrapping_add(1);
        if crosses_page(addr, addr.wrapping_sub(state.x as u16)) {
            addr = ((hi as u16) << 8u16) | (addr & 0xff);
        }
        self.bus.write(addr, state.x & hi);
        None
    }

    fn shy(&mut self, state: &mut CpuState) -> (r: Option<u16>)
        requires
            old(self).ready(),
            !is_branch_name(old(self).instruction.name),
        ensures
            final(self).wf(),
            final(self).frame(*old(self), *old(state)),
            r is None,
            *final(state) == *old(state),
            old(self).stored(*old(state), |a: u16| unstable_addr(a, old(state).y), |a: u16| old(state).y & high_plus_one(a), final(self).bus),
    {
        // If the indexed address crosses into a new page, the high byte of the target address
        // is corrupted to (reg & (addr_high + 1)), as the sum shares the bus with the register.
        let mut addr = self.calc_addr(state);
        let hi = ((addr >> 8u16) as u8).wrapping_add(1);
        if crosses_page(addr, addr.wrapping_sub(state.y as u16)) {
            addr = ((hi as u16) << 8u16) | (addr & 0xff);
        }
        self.bus.write(addr, state.y & hi);
        None
    }

    fn slo(&mut self, state: &mut CpuState) -> (r: Option<u16>)
        requires
            old(self).ready(),
            !is_branch_name(old(self).instruction.name),
        ensures
            final(self).wf(),
            final(self).frame(*old(self), *old(state)),
            r is None,
            exists|v: u8|
                *final(state) == #[trigger] old(state).spec_slo(v) && old(self).modified(
                    *old(state),
                    v,
                    v << 1u8,
                    final(self).bus,
                ),
    {
        let addr = self.calc_addr(state);
        let ghost m1 = self.bus;
        let mem = self.bus.read(addr);
        let ghost m2 = self.bus;
        state.status.set(Status::CARRY, mem & 0x80 != 0);
        let shift = mem << 1;
        self.bus.write(addr, shift);
        state.acc = state.acc | shift;
        state.update_nz(state.acc);
        assert(*state == old(state).spec_slo(mem));
        assert(m1.reads(addr, mem, m2));
        assert(old(self).modified(*old(state), mem, shift, self.bus));
        None
    }

    fn sre(&mut self, state: &mut CpuState) -> (r: Option<u16>)
        requires
            old(self).ready(),
            !is_branch_name(old(self).instruction.name),
        ensures
            final(self).wf(),
            final(self).frame(*old(self), *old(state)),
            r is None,
            exists|v: u8|
                *final(state) == #[trigger] old(state).spec_sre(v) && old(self).modified(
                    *old(state),
                    v,
                    v >> 1u8,
                    final(self).bus,
                ),
    {
        let addr = self.calc_addr(state);
        let ghost m1 = self.bus;
        let mem = self.bus.read(addr);
        let ghost m2 = self.bus;
        state.status.set(Status::CARRY, mem & 0x1 != 0);
        let shift = mem >> 1;
        self.bus.write(addr, shift);
        state.acc = state.acc ^ shift;
        state.update_nz(state.acc);
        assert(*state == old(state).spec_sre(mem));
        assert(m1.reads(addr, mem, m2));
        assert(old(self).modified(*old(state), mem, shift, self.bus));
        None
    }

    fn tas(&mut self, state: &mut CpuState) -> (r: Option<u16>)
        requires
            old(self).ready(),
            old(self).instruction.mode == AddressingMode::AbsoluteY,
            !is_branch_name(old(self).instruction.name),
        ensures
            final(self).wf(),
            final(self).frame(*old(self), *old(state)),
            r is None,
            *final(state) == old(state).with_sp(old(state).sp.wrapping_sub(1)),
    {
        let ax = state.acc & state.x;
        self.push8(state, ax);
        let addr = self.calc_addr(state);
        let high = (addr.wrapping_add(1) >> 8) as u8;
        self.bus.write(addr, ax & high);
        None
    }

    fn usbc(&mut self, state: &mut CpuState) -> (r: Option<u16>)
        requires
            old(self).ready(),
            !is_branch_name(old(self).instruction.name),
        ensures
            final(self).wf(),
            final(self).frame(*old(self), *old(state)),
            r is None,
            exists|v: u8| #[trigger] old(self).operand_of(*old(state), v) && *final(state) == old(state).spec_sbc(v),
    {
        self.sbc(state)
    }

    fn brk(&mut self, state: &mut CpuState) -> (r: Option<u16>)
        requires
            old(self).ready(),
            old(self).instruction.mode == AddressingMode::Implied,
            !is_branch_name(old(self).instruction.name),
        ensures
            final(self).wf(),
            final(self).frame(*old(self), *old(state)),
            *final(state) == old(state).with_sp(old(state).sp.wrapping_sub(3)).set_flag(
                Status::INT_DISABLE,
                true,
            ),
            r matches Some(pc) && exists|b1: T, b2: T|
                #![trigger pushes_word(old(self).bus, old(state).sp, old(state).pc.wrapping_add(2), b1), b1.writes(stack_addr(old(state).sp.wrapping_sub(2)), old(state).status.bits | Status::BRK | Status::PUSH_IRQ, b2)]
                pushes_word(old(self).bus, old(state).sp, old(state).pc.wrapping_add(2), b1)
                    && b1.writes(
                    stack_addr(old(state).sp.wrapping_sub(2)),
                    old(state).status.bits | Status::BRK | Status::PUSH_IRQ,
                    b2,
                ) && reads_word(b2, IRQ_VECTOR_START, pc, final(self).bus),
    {
        self.push16(state, state.pc.wrapping_add(2));
        let ghost b1 = self.bus;
        assert(pushes_word(old(self).bus, old(state).sp, old(state).pc.wrapping_add(2), b1));
        self.push8(state, state.status.bits() | Status::BRK | Status::PUSH_IRQ);
        let ghost b2 = self.bus;
        assert(b1.writes(
            stack_addr(old(state).sp.wrapping_sub(2)),
            old(state).status.bits | Status::BRK | Status::PUSH_IRQ,
            b2,
        ));
        state.status.set(Status::INT_DISABLE, true);
        let pc = self.bus.read16(IRQ_VECTOR_START);
        assert(reads_word(b2, IRQ_VECTOR_START, pc, self.bus));
        Some(pc)
    }

    fn jmp(&mut self, state: &mut CpuState) -> (r: Option<u16>)
        requires
            old(self).ready(),
            !is_branch_name(old(self).instruction.name),
        ensures
            final(self).wf(),
            final(self).frame(*old(self), *old(state)),
            *final(state) == *old(state),
            r is Some,
            old(self).direct_addr(*old(state)) is Some ==> r == old(self).direct_addr(*old(state)),
            old(self).addressed(*old(state), r->0, final(self).bus),
    {
        Some(self.calc_addr(state))
    }

    fn jsr(&mut self, state: &mut CpuState) -> (r: Option<u16>)
        requires
            old(self).ready(),
            !is_branch_name(old(self).instruction.name),
            old(self).mode() == AddressingMode::Absolute,
        ensures
            final(self).wf(),
            final(self).frame(*old(self), *old(state)),
            *final(state) == old(state).with_sp(old(state).sp.wrapping_sub(2)),
            r == Some(word(old(self).operands@[0], old(self).operands@[1])),
            pushes_word(old(self).bus, old(state).sp, old(state).pc.wrapping_add(2), final(self).bus),
    {
        let pc = state.pc.wrapping_add(2);
        self.push16(state, pc);
        let next_pc = ((self.operands[1] as u16) << 8) | (self.operands[0] as u16);
        Some(next_pc)
    }

    fn rts(&mut self, state: &mut CpuState) -> (r: Option<u16>)
        requires
            old(self).ready(),
            old(self).instruction.mode == AddressingMode::Implied,
            !is_branch_name(old(self).instruction.name),
        ensures
            final(self).wf(),
            final(self).frame(*old(self), *old(state)),
            *final(state) == old(state).with_sp(old(state).sp.wrapping_add(2)),
            r matches Some(pc) && exists|w: u16|
                #[trigger] pops_word(old(self).bus, old(state).sp, w, final(self).bus) && pc
                    == w.wrapping_add(1),
    {
        let w = self.pop16(state);
        assert(pops_word(old(self).bus, old(state).sp, w, self.bus));
        Some(w.wrapping_add(1))
    }

    fn rti(&mut self, state: &mut CpuState) -> (r: Option<u16>)
        requires
            old(self).ready(),
            old(self).instruction.mode == AddressingMode::Implied,
            !is_branch_name(old(self).instruction.name),
        ensures
            final(self).wf(),
            final(self).frame(*old(self), *old(state)),
            r matches Some(pc) && exists|p: u8, m: T|
                #![trigger old(self).bus.reads(stack_addr(old(state).sp.wrapping_add(1)), p, m)]
                *final(state) == old(state).spec_rti(p) && old(self).bus.reads(
                    stack_addr(old(state).sp.wrapping_add(1)),
                    p,
                    m,
                ) && pops_word(m, old(state).sp.wrapping_add(1), pc, final(self).bus),
    {
        let p = self.pop8(state);
        let ghost m = self.bus;
        let ghost sp1 = state.sp;
        state.status = Status::from_bits(p & !Status::BRK);
        state.status.set(Status::PUSH_IRQ, true);
        let pc = self.pop16(state);
        assert(*state == old(state).spec_rti(p));
        assert(pops_word(m, sp1, pc, self.bus));
        Some(pc)
    }

    /// Reset: PC from the reset vector, SP at 0xFD, only bit 5 and the interrupt disable flag
    /// set.
    pub fn reset(&mut self, state: &mut CpuState)
        requires
            old(self).wf(),
        ensures
            final(self).wf(),
            final(self).instruction == old(self).instruction,
            final(self).operands@ == old(self).operands@,
            final(self).extra_cycles == old(self).extra_cycles,
            *final(state) == (CpuState {
                pc: final(state).pc,
                status: Status { bits: Status::PUSH_IRQ | Status::INT_DISABLE },
                sp: 0xFD,
                ..*old(state)
            }),
            reads_word(old(self).bus, RESET_VECTOR_START, final(state).pc, final(self).bus),
    {
        let ghost b0 = self.bus;
        let pc = self.bus.read16(RESET_VECTOR_START);
        assert(reads_word(b0, RESET_VECTOR_START, pc, self.bus));
        state.pc = pc;
        state.status = Status::default();
        state.sp = 0xFD;
    }

    /// Take a pending NMI: push PC and the status, disable interrupts and jump through the NMI
    /// vector. The result is the cycles taken, or `None` when no NMI was pending.
    pub fn handle_nmi(&mut self, state: &mut CpuState) -> (r: Option<usize>)
        requires
            old(self).wf(),
        ensures
            final(self).wf(),
            final(self).instruction == old(self).instruction,
            final(self).operands@ == old(self).operands@,
            final(self).extra_cycles == old(self).extra_cycles,
            (r is Some) == old(self).bus.nmi_pending(),
            r is None ==> old(self).bus.nmi_popped(final(self).bus),
            r is Some ==> old(self).nmi_entered(*old(state), final(state).pc, final(self).bus),
            r is None ==> *final(state) == *old(state),
            r is Some ==> r == Some(2usize) && *final(state) == (CpuState {
                pc: final(state).pc,
                ..old(state).with_sp(old(state).sp.wrapping_sub(3)).set_flag(
                    Status::INT_DISABLE,
                    true,
                )
            }),
    {
        let nmi = self.bus.pop_nmi();
        if nmi.is_none() {
            return None;
        }
        let ghost b0 = self.bus;
        self.push16(state, state.pc);
        let ghost b1 = self.bus;
        self.push8(state, state.status.bits());
        let ghost b2 = self.bus;
        state.status.set(Status::INT_DISABLE, true);

        // Load address of interrupt handler, set PC to execute there
        state.pc = self.bus.read16(NMI_VECTOR_START);
        assert(reads_word(b2, NMI_VECTOR_START, state.pc, self.bus));
        assert(old(self).bus.nmi_popped(b0));
        Some(2)
    }

    pub open spec fn keeps(self, prev: Self) -> bool {
        &&& self.bus.inv()
        &&& self.instruction == prev.instruction
        &&& self.operands@ == prev.operands@
        &&& self.extra_cycles == prev.extra_cycles
    }

    /// Push the high byte, then the low byte.
    fn push16(&mut self, state: &mut CpuState, v: u16)
        requires
            old(self).bus.inv(),
        ensures
            final(self).keeps(*old(self)),
            *final(state) == old(state).with_sp(old(state).sp.wrapping_sub(2)),
            pushes_word(old(self).bus, old(state).sp, v, final(self).bus),
    {
        self.push8(state, (v >> 8u16) as u8);
        let ghost mid = self.bus;
        self.push8(state, (0xFF & v) as u8);
        assert(mid.writes(stack_addr(old(state).sp.wrapping_sub(1)), (0xFF & v) as u8, self.bus));
    }

    /// Store at the stack pointer, then move it down; the stack lives in page 1 and wraps in it.
    fn push8(&mut self, state: &mut CpuState, v: u8)
        requires
            old(self).bus.inv(),
        ensures
            final(self).keeps(*old(self)),
            *final(state) == old(state).with_sp(old(state).sp.wrapping_sub(1)),
            old(self).bus.writes(stack_addr(old(state).sp), v, final(self).bus),
    {
        self.poke(state, v);
        state.sp = state.sp.wrapping_sub(1);
    }

    /// Pull the low byte, then the high byte.
    fn pop16(&mut self, state: &mut CpuState) -> (r: u16)
        requires
            old(self).bus.inv(),
        ensures
            final(self).keeps(*old(self)),
            *final(state) == old(state).with_sp(old(state).sp.wrapping_add(2)),
            pops_word(old(self).bus, old(state).sp, r, final(self).bus),
    {
        let lo = self.pop8(state);
        let ghost mid = self.bus;
        let hi = self.pop8(state);
        let low = lo as u16;
        let high = hi as u16;
        assert(mid.reads(stack_addr(old(state).sp.wrapping_add(1).wrapping_add(1)), hi, self.bus));
        (high << 8) | low
    }

    /// Move the stack pointer up, then read at it.
    fn pop8(&mut self, state: &mut CpuState) -> (r: u8)
        requires
            old(self).bus.inv(),
        ensures
            final(self).keeps(*old(self)),
            *final(state) == old(state).with_sp(old(state).sp.wrapping_add(1)),
            old(self).bus.reads(stack_addr(old(state).sp.wrapping_add(1)), r, final(self).bus),
    {
        state.sp = state.sp.wrapping_add(1);
        self.peek(state)
    }

    fn peek(&mut self, state: &mut CpuState) -> (r: u8)
        requires
            old(self).bus.inv(),
        ensures
            final(self).keeps(*old(self)),
            *final(state) == *old(state),
            old(self).bus.reads(stack_addr(old(state).sp), r, final(self).bus),
    {
        let ptr = (state.sp as u16).wrapping_add(STACK_BEGIN);
        self.bus.read(ptr)
    }

    fn poke(&mut self, state: &mut CpuState, val: u8)
        requires
            old(self).bus.inv(),
        ensures
            final(self).keeps(*old(self)),
            *final(state) == *old(state),
            old(self).bus.writes(stack_addr(old(state).sp), val, final(self).bus),
    {
        let ptr = (state.sp as u16).wrapping_add(STACK_BEGIN);
        self.bus.write(ptr, val);
    }
}

} // verus!
