//! The Ricoh 2A03 core: a 6502 without decimal mode.
pub mod instructions;
pub mod interpreter;
pub mod status;

use crate::bus::Bus;
use crate::ExitStatus;
use instructions::{
    decode_instruction, instr_ok, is_branch_name, is_flow_name, lemma_opcode_table_ok, mode_size, opcode_table,
    AddressingMode, InstrName, Instruction,
};
use status::Status;
use crate::bus::reads_word;
use vstd::prelude::*;

verus! {

/// Whether the byte is negative when read as a two's-complement number.
pub fn is_negative(v: u8) -> (r: bool)
    ensures
        r == (v & 0x80 != 0),
        r == (v >= 0x80),
{
    proof {
        assert((v & (1u8 << 7u8)) == (v & 0x80) && ((v & 0x80 != 0) == (v >= 0x80)))
            by (bit_vector);
    }
    is_bit_set(v, 7)
}

fn xor(a: bool, b: bool) -> (r: bool)
    ensures
        r == (a != b),
{
    (a || b) && (!a || !b)
}

fn is_bit_set(v: u8, bit: u8) -> (r: bool)
    requires
        bit < 8,
    ensures
        r == (v & (1u8 << bit) != 0),
{
    (v & (1u8 << bit)) != 0
}

/// The upper-case hexadecimal digit of `i`, as an ASCII byte.
pub open spec fn hex_upper(i: u8) -> u8 {
    if i < 10 {
        (0x30 + i) as u8
    } else {
        (0x41 + i - 10) as u8
    }
}

/// The upper-case hexadecimal digit of `i`, below 16, as an ASCII byte.
pub fn as_hex_digit(i: u8) -> (r: u8)
    requires
        i < 16,
    ensures
        r == hex_upper(i),
{
    if i < 10 {
        0x30u8 + i
    } else {
        0x41u8 + (i - 10)
    }
}

/// The operand column of a trace line: each operand byte as two hexadecimal digits, three
/// columns apart, spaces elsewhere, and a NUL in the last of its ten bytes.
pub fn trace_operands(operands: &[u8]) -> (r: [u8; 10])
    requires
        operands@.len() <= 3,
    ensures
        forall|i: int|
            0 <= i < operands@.len() ==> r@[3 * i] == hex_upper(#[trigger] operands@[i] >> 4u8)
                && r@[3 * i + 1] == hex_upper(operands@[i] & 0xF),
        r@[9] == 0,
        forall|j: int|
            0 <= j < 9 && !(j < 3 * operands@.len() && j % 3 != 2) ==> #[trigger] r@[j] == 0x20,
{
    let mut buf: [u8; 10] = [0x20u8; 10];
    let mut i: usize = 0;
    while i < operands.len()
        invariant
            i <= operands@.len() <= 3,
            buf@.len() == 10,
            forall|k: int|
                0 <= k < i ==> buf@[3 * k] == hex_upper(#[trigger] operands@[k] >> 4u8) && buf@[3 * k
                    + 1] == hex_upper(operands@[k] & 0xF),
            forall|j: int| 3 * i <= j < 10 ==> #[trigger] buf@[j] == 0x20,
            forall|j: int| 0 <= j < 3 * i && j % 3 == 2 ==> #[trigger] buf@[j] == 0x20,
        decreases operands@.len() - i,
    {
        let op = operands[i];
        assert(op >> 4u8 < 16 && op & 0xF < 16) by (bit_vector);
        buf[3 * i] = as_hex_digit(op >> 4);
        buf[3 * i + 1] = as_hex_digit(op & 0xF);
        i = i + 1;
    }
    buf[9] = 0;
    buf
}

/// Whether the two addresses lie in different 256-byte pages.
pub open spec fn spec_crosses_page(src: u16, dst: u16) -> bool {
    src & 0xFF00 != dst & 0xFF00
}

/// Whether moving from `src` to `dst` leaves the 256-byte page, which costs a cycle.
pub fn crosses_page(src: u16, dst: u16) -> (r: bool)
    ensures
        r == spec_crosses_page(src, dst),
{
    (src & 0xFF00) != (dst & 0xFF00)
}

pub const STACK_BEGIN: u16 = 0x0100;

//  ADDRESSES    |  VECTOR
// $FFFA, $FFFB  |   NMI
// $FFFC, $FFFD  |   Reset
// $FFFE, $FFFF  |   IRQ/BRK
pub const NMI_VECTOR_START: u16 = 0xFFFA;
pub const RESET_VECTOR_START: u16 = 0xFFFC;
pub const IRQ_VECTOR_START: u16 = 0xFFFE;

/// Where a read-modify-write instruction puts its result.
pub enum TargetAddress {
    Memory(u16),
    Accumulator,
    Nowhere,
}

/// A record of the machine after one instruction, as traces show it.
#[derive(Clone, Debug, PartialEq, Eq)]
pub struct NESSnapshot {
    pub total_cycles: usize,
    pub instruction: Instruction,
    pub operands: Vec<u8>,
    pub acc: u8,
    pub x: u8,
    pub y: u8,
    pub pc: u16,
    pub sp: u8,
    pub status: u8,
    // PPU
    pub scanline: i16,
    pub ppu_cycle: i16,
}

/// What a debugger or a test harness may do with a running CPU.
pub trait CpuInterface {
    /// The machine is consistent, so its memory can be read.
    spec fn interface_wf(&self) -> bool;

    fn read_state(&self) -> NESSnapshot
        requires
            self.interface_wf(),
    ;

    fn read_address(&mut self, addr: u16) -> (r: u8)
        requires
            old(self).interface_wf(),
        ensures
            final(self).interface_wf(),
    ;

    fn request_stop(&mut self, code: i32)
        requires
            old(self).interface_wf(),
        ensures
            final(self).interface_wf(),
    ;
}

/// The programmer-visible registers of the CPU.
#[derive(Clone, Copy, Debug, PartialEq, Eq, Structural)]
pub struct CpuState {
    pub acc: u8,
    pub x: u8,
    pub y: u8,
    pub pc: u16,
    pub sp: u8,
    pub status: Status,
    pub instructions_executed: usize,
}

/// `v` read as a signed byte.
pub open spec fn signed(v: u8) -> int {
    if v < 0x80 {
        v as int
    } else {
        v - 256
    }
}

/// The address a taken branch jumps to: the signed offset `dst` added to the address of the
/// instruction that follows the branch.
pub open spec fn branch_target(pc: u16, size: u16, dst: u8) -> u16 {
    ((pc + size + signed(dst)) % 0x10000) as u16
}

pub open spec fn wrap8(v: int) -> u8 {
    (v % 256) as u8
}

pub open spec fn wrap16(v: int) -> u16 {
    (v % 0x10000) as u16
}

/// The status byte a pull from the stack (PLP) installs: the break bit dropped, bit 5 set.
pub open spec fn pulled_status(p: u8) -> Status {
    Status { bits: p & !Status::BRK | Status::PUSH_IRQ }
}

impl CpuState {
    /// The state with the negative and zero flags set from `v`.
    pub open spec fn nz(self, v: u8) -> CpuState {
        CpuState {
            status: self.status.with(Status::NEGATIVE, v & 0x80 != 0).with(Status::ZERO, v == 0),
            ..self
        }
    }

    pub open spec fn set_flag(self, mask: u8, value: bool) -> CpuState {
        CpuState { status: self.status.with(mask, value), ..self }
    }

    pub open spec fn with_acc(self, v: u8) -> CpuState {
        CpuState { acc: v, ..self }
    }

    pub open spec fn with_x(self, v: u8) -> CpuState {
        CpuState { x: v, ..self }
    }

    pub open spec fn with_y(self, v: u8) -> CpuState {
        CpuState { y: v, ..self }
    }

    pub open spec fn with_sp(self, v: u8) -> CpuState {
        CpuState { sp: v, ..self }
    }

    pub open spec fn carry_in(self) -> int {
        if self.status.has(Status::CARRY) {
            1
        } else {
            0
        }
    }

    /// Accumulator + operand + carry, in full precision.
    pub open spec fn adc_sum(self, v: u8) -> int {
        self.acc + v + self.carry_in()
    }

    pub open spec fn adc_value(self, v: u8) -> u8 {
        wrap8(self.adc_sum(v))
    }

    /// Signed overflow: both addends have one sign and the result the other.
    pub open spec fn adc_overflow(self, v: u8) -> bool {
        (self.acc ^ v) & 0x80 == 0 && (v ^ self.adc_value(v)) & 0x80 != 0
    }

    /// The state after adding `v` and the carry to the accumulator, before N and Z are set.
    pub open spec fn with_adc(self, v: u8) -> CpuState {
        CpuState {
            acc: self.adc_value(v),
            status: self.status.with(Status::OVERFLOW, self.adc_overflow(v)).with(
                Status::CARRY,
                self.adc_sum(v) > 255,
            ),
            ..self
        }
    }

    /// ADC: add with carry.
    pub open spec fn spec_adc(self, v: u8) -> CpuState {
        self.with_adc(v).nz(self.adc_value(v))
    }

    pub open spec fn sbc_value(self, v: u8) -> u8 {
        wrap8(self.acc - v - (1 - self.carry_in()))
    }

    /// No borrow: the accumulator is at least the operand plus the borrow.
    pub open spec fn sbc_carry(self, v: u8) -> bool {
        self.acc > v || (self.acc == v && self.status.has(Status::CARRY))
    }

    pub open spec fn sbc_overflow(self, v: u8) -> bool {
        (self.sbc_value(v) ^ v) & 0x80 == 0 && (v ^ self.acc) & 0x80 != 0
    }

    /// The state after subtracting `v` and the borrow from the accumulator, before N and Z are
    /// set.
    pub open spec fn with_sbc(self, v: u8) -> CpuState {
        CpuState {
            acc: self.sbc_value(v),
            status: self.status.with(Status::CARRY, self.sbc_carry(v)).with(
                Status::OVERFLOW,
                self.sbc_overflow(v),
            ),
            ..self
        }
    }

    /// SBC: subtract with borrow.
    pub open spec fn spec_sbc(self, v: u8) -> CpuState {
        self.with_sbc(v).nz(self.sbc_value(v))
    }

    /// CMP, CPX, CPY: compare the register `reg` with `v`.
    pub open spec fn spec_compare(self, reg: u8, v: u8) -> CpuState {
        self.set_flag(Status::CARRY, reg >= v).nz(wrap8(reg - v))
    }

    /// BIT: overflow and negative from bits 6 and 7 of `v`, zero from `acc & v`.
    pub open spec fn spec_bit(self, v: u8) -> CpuState {
        self.set_flag(Status::OVERFLOW, v & 0x40 != 0).set_flag(
            Status::NEGATIVE,
            v & 0x80 != 0,
        ).set_flag(Status::ZERO, self.acc & v == 0)
    }

    /// The register state after a shift or rotate that produced `result` with carry out
    /// `carry`; the accumulator receives the result when it was the operand.
    pub open spec fn spec_shifted(self, in_acc: bool, carry: bool, result: u8) -> CpuState {
        let s = self.set_flag(Status::CARRY, carry);
        let s = if in_acc {
            s.with_acc(result)
        } else {
            s
        };
        s.nz(result)
    }

    pub open spec fn spec_lda(self, v: u8) -> CpuState {
        self.with_acc(v).nz(v)
    }

    pub open spec fn spec_ldx(self, v: u8) -> CpuState {
        self.with_x(v).nz(v)
    }

    pub open spec fn spec_ldy(self, v: u8) -> CpuState {
        self.with_y(v).nz(v)
    }

    pub open spec fn spec_and(self, v: u8) -> CpuState {
        self.with_acc(self.acc & v).nz(self.acc & v)
    }

    pub open spec fn spec_ora(self, v: u8) -> CpuState {
        self.with_acc(self.acc | v).nz(self.acc | v)
    }

    pub open spec fn spec_eor(self, v: u8) -> CpuState {
        self.with_acc(self.acc ^ v).nz(self.acc ^ v)
    }

    /// DEC and INC of a memory byte that held `v`: only N and Z change in the registers.
    pub open spec fn spec_dec_mem(self, v: u8) -> CpuState {
        self.nz(v.wrapping_sub(1))
    }

    pub open spec fn spec_inc_mem(self, v: u8) -> CpuState {
        self.nz(v.wrapping_add(1))
    }

    /// ALR: AND, then shift the accumulator right.
    pub open spec fn spec_alr(self, v: u8) -> CpuState {
        let a = self.acc & v;
        self.set_flag(Status::CARRY, a & 0x01 != 0).with_acc(a >> 1).nz(a >> 1)
    }

    /// ANC: AND, then copy bit 7 of the result into the carry.
    pub open spec fn spec_anc(self, v: u8) -> CpuState {
        let a = self.acc & v;
        self.with_acc(a).set_flag(Status::CARRY, a & 0x80 != 0).nz(a)
    }

    /// ANE: AND of the accumulator, X and the operand.
    pub open spec fn spec_ane(self, v: u8) -> CpuState {
        let a = self.acc & (self.x & v);
        self.with_acc(a).nz(a)
    }

    /// ARR: AND, then rotate the accumulator right; C is bit 6, V is bit 6 xor bit 5.
    pub open spec fn spec_arr(self, v: u8) -> CpuState {
        let a = self.acc & v;
        let r = (a >> 1) | (if self.status.has(Status::CARRY) {
            0x80u8
        } else {
            0u8
        });
        self.with_acc(r).set_flag(Status::OVERFLOW, (r & 0x40 != 0) != (r & 0x20 != 0)).set_flag(
            Status::CARRY,
            r & 0x40 != 0,
        ).nz(r)
    }

    /// DCP: decrement memory, then compare the accumulator with the result.
    pub open spec fn spec_dcp(self, v: u8) -> CpuState {
        let d = v.wrapping_sub(1);
        self.nz(self.acc.wrapping_sub(d)).set_flag(Status::CARRY, self.acc >= d)
    }

    /// ISC: increment memory, then subtract the result from the accumulator.
    pub open spec fn spec_isc(self, v: u8) -> CpuState {
        self.spec_sbc(v.wrapping_add(1))
    }

    /// LAS: the accumulator takes the operand and X takes SP.
    pub open spec fn spec_las(self, v: u8) -> CpuState {
        self.with_acc(v).with_x(self.sp).nz(self.sp)
    }

    /// LAX: the accumulator and X both take the operand.
    pub open spec fn spec_lax(self, v: u8) -> CpuState {
        self.with_acc(v).with_x(v).nz(v)
    }

    /// RLA: rotate memory left, then AND it into the accumulator.
    pub open spec fn spec_rla(self, v: u8) -> CpuState {
        let shift = (v << 1) | (if self.status.has(Status::CARRY) {
            1u8
        } else {
            0u8
        });
        self.set_flag(Status::CARRY, v & 0x80 != 0).with_acc(self.acc & shift).nz(
            self.acc & shift,
        )
    }

    /// RRA: rotate memory right, then add it to the accumulator with the carry it shifted out.
    pub open spec fn spec_rra(self, v: u8) -> CpuState {
        let shift = (v >> 1) | (if self.status.has(Status::CARRY) {
            0x80u8
        } else {
            0u8
        });
        self.set_flag(Status::CARRY, v & 0x01 != 0).spec_adc(shift)
    }

    /// SBX: X takes (A AND X) minus the operand, without borrow.
    pub open spec fn spec_sbx(self, v: u8) -> CpuState {
        let ax = self.acc & self.x;
        self.with_x(ax.wrapping_sub(v)).set_flag(Status::CARRY, ax >= v).nz(ax.wrapping_sub(v))
    }

    /// SLO: shift memory left, then OR it into the accumulator.
    pub open spec fn spec_slo(self, v: u8) -> CpuState {
        self.set_flag(Status::CARRY, v & 0x80 != 0).with_acc(self.acc | (v << 1)).nz(
            self.acc | (v << 1),
        )
    }

    /// SRE: shift memory right, then XOR it into the accumulator.
    pub open spec fn spec_sre(self, v: u8) -> CpuState {
        self.set_flag(Status::CARRY, v & 0x01 != 0).with_acc(self.acc ^ (v >> 1)).nz(
            self.acc ^ (v >> 1),
        )
    }

    /// ASL of `v`; the accumulator receives the result when `in_acc`.
    pub open spec fn spec_asl(self, in_acc: bool, v: u8) -> CpuState {
        self.spec_shifted(in_acc, v & 0x80 != 0, v << 1)
    }

    pub open spec fn spec_lsr(self, in_acc: bool, v: u8) -> CpuState {
        self.spec_shifted(in_acc, v & 0x01 != 0, v >> 1)
    }

    pub open spec fn spec_rol(self, in_acc: bool, v: u8) -> CpuState {
        self.spec_shifted(
            in_acc,
            v & 0x80 != 0,
            (v << 1) | (if self.status.has(Status::CARRY) {
                1u8
            } else {
                0u8
            }),
        )
    }

    pub open spec fn spec_ror(self, in_acc: bool, v: u8) -> CpuState {
        self.spec_shifted(
            in_acc,
            v & 0x01 != 0,
            (v >> 1) | (if self.status.has(Status::CARRY) {
                0x80u8
            } else {
                0u8
            }),
        )
    }

    /// PLA with `p` on top of the stack.
    pub open spec fn spec_pla(self, p: u8) -> CpuState {
        self.with_sp(self.sp.wrapping_add(1)).with_acc(p).nz(p)
    }

    /// PLP with `p` on top of the stack.
    pub open spec fn spec_plp(self, p: u8) -> CpuState {
        CpuState { sp: self.sp.wrapping_add(1), status: pulled_status(p), ..self }
    }

    /// RTI with status `p` on top of the stack.
    pub open spec fn spec_rti(self, p: u8) -> CpuState {
        CpuState { sp: self.sp.wrapping_add(3), status: pulled_status(p), ..self }
    }

    pub fn new() -> (s: CpuState)
        ensures
            s.acc == 0 && s.x == 0 && s.y == 0 && s.pc == 0,
            s.sp == 0xFD,
            s.status.bits == 0,
            s.instructions_executed == 0,
    {
        CpuState {
            acc: 0,
            x: 0,
            y: 0,
            pc: 0,
            sp: 0xFD,
            status: Status::empty(),
            instructions_executed: 0,
        }
    }

    /// Set the negative and zero flags from `v`.
    pub fn update_nz(&mut self, v: u8)
        ensures
            *final(self) == old(self).nz(v),
    {
        self.status.set(Status::NEGATIVE, is_negative(v));
        self.status.set(Status::ZERO, v == 0);
    }
}

/// The CPU: its registers, the interpreter that runs instructions over the bus, and what it
/// reports to the emulator loop.
pub struct CPU<BusType: Bus> {
    pub state: CpuState,
    pub interpreter: interpreter::Interpreter<BusType>,
    pub last_pc: u16,
    pub exit_status: ExitStatus,
}

impl<BusType: Bus> CPU<BusType> {
    pub open spec fn wf(self) -> bool {
        self.interpreter.wf()
    }

    /// `self` is `prev` after one step. With an NMI pending, the NMI is taken (PC and status
    /// pushed, interrupts disabled, PC from the NMI vector) and the bus is clocked by two
    /// cycles. Otherwise the instruction at PC is fetched and executed, and the bus is clocked
    /// by the cycles it took: its base cycles and the extra ones `charged` gives.
    pub open spec fn stepped(self, prev: Self) -> bool {
        if prev.interpreter.bus.nmi_pending() {
            &&& self.state == (CpuState {
                pc: self.state.pc,
                ..prev.state.with_sp(prev.state.sp.wrapping_sub(3)).set_flag(
                    Status::INT_DISABLE,
                    true,
                )
            })
            &&& self.interpreter.instruction == prev.interpreter.instruction
            &&& self.interpreter.operands@ == prev.interpreter.operands@
            &&& exists|b: BusType|
                #![trigger prev.interpreter.nmi_entered(prev.state, self.state.pc, b)]
                prev.interpreter.nmi_entered(prev.state, self.state.pc, b) && b.clocked(
                    2,
                    self.interpreter.bus,
                )
        } else {
            exists|b0: BusType, mid: interpreter::Interpreter<BusType>, b: BusType|
                #![trigger prev.interpreter.bus.nmi_popped(b0), mid.executed(prev.state, self.state, b)]
                prev.interpreter.bus.nmi_popped(b0) && interpreter::Interpreter::<
                    BusType,
                >::fetched_from(b0, prev.state.pc, mid) && mid.executed(
                    prev.state,
                    self.state,
                    b,
                ) && self.interpreter.instruction == mid.instruction && self.interpreter.operands@
                    == mid.operands@ && mid.charged(prev.state, self.interpreter.extra_cycles as int)
                    && b.clocked(
                    (self.interpreter.extra_cycles + mid.instruction.cycles) as u8,
                    self.interpreter.bus,
                )
        }
    }

    /// A call of `clock` on `self` can leave the CPU as `next` and return `r`: one step
    /// (see `stepped`), the PC it started from kept for traces, and the exit status kept,
    /// except that a jam opcode sets an error; `r` is the exit status after the step.
    pub open spec fn steps_to(self, next: Self, r: ExitStatus) -> bool {
        &&& next.wf()
        &&& next.last_pc == self.state.pc
        &&& r == next.exit_status
        &&& next.exit_status == self.exit_status || ((next.exit_status is ExitError)
            && next.interpreter.instruction.name == InstrName::ILLEGAL_JAM)
        &&& next.stepped(self)
    }

    pub fn new(bus: BusType) -> (r: Self)
        requires
            bus.inv(),
        ensures
            r.wf(),
            r.state == (CpuState {
                acc: 0,
                x: 0,
                y: 0,
                pc: 0,
                sp: 0xFD,
                status: Status { bits: 0 },
                instructions_executed: 0,
            }),
            r.interpreter.bus == bus,
            r.exit_status == ExitStatus::Continue,
            r.last_pc == 0,
    {
        CPU {
            state: CpuState::new(),
            interpreter: interpreter::Interpreter::new(bus),
            exit_status: ExitStatus::Continue,
            last_pc: 0,
        }
    }

    pub fn pc(&self) -> (r: u16)
        ensures
            r == self.state.pc,
    {
        self.state.pc
    }

    /// Reset, then start at `pc` with the 7 cycles that a reset takes already on the bus clock,
    /// as the nestest log expects.
    pub fn nestest_reset_override(&mut self, pc: u16)
        requires
            old(self).wf(),
        ensures
            final(self).wf(),
            final(self).state.pc == pc,
            final(self).state.sp == 0xFD,
            final(self).state.status.bits == Status::PUSH_IRQ | Status::INT_DISABLE,
            exists|b: BusType, pc0: u16|
                #![trigger reads_word(old(self).interpreter.bus, RESET_VECTOR_START, pc0, b)]
                reads_word(old(self).interpreter.bus, RESET_VECTOR_START, pc0, b) && b.clocked(
                    7,
                    final(self).interpreter.bus,
                ),
    {
        self.interpreter.reset(&mut self.state);
        let ghost b = self.interpreter.bus;
        self.state.pc = pc;
        self.interpreter.bus.clock(7);
    }

    /// Reset: PC from the reset vector, SP at 0xFD, interrupts disabled.
    pub fn reset(&mut self)
        requires
            old(self).wf(),
        ensures
            final(self).wf(),
            final(self).state.sp == 0xFD,
            final(self).state.status.bits == Status::PUSH_IRQ | Status::INT_DISABLE,
            final(self).state.acc == old(self).state.acc,
            final(self).state.x == old(self).state.x,
            final(self).state.y == old(self).state.y,
    {
        self.interpreter.reset(&mut self.state);
    }

    /// Run one step: take a pending NMI, or else fetch and execute one instruction; then clock
    /// the bus by the cycles it took. A jam opcode stops the CPU with an error.
    pub fn clock(&mut self) -> (r: ExitStatus)
        requires
            old(self).wf(),
        ensures
            old(self).steps_to(*final(self), r),
    {
        self.last_pc = self.state.pc;
        let nmi = self.interpreter.handle_nmi(&mut self.state);
        let ghost i1 = self.interpreter;
        let cycles = match nmi {
            Some(cycles) => cycles,
            None => {
                let cycles = self.interpreter.interpret(&mut self.state);
                if self.interpreter.instruction.name == InstrName::ILLEGAL_JAM {
                    self.exit_status = ExitStatus::ExitError("HLT".to_owned());
                }
                cycles
            },
        };
        let ghost i2 = self.interpreter;
        self.interpreter.clock_bus(cycles);
        proof {
            if old(self).interpreter.bus.nmi_pending() {
                assert(old(self).interpreter.nmi_entered(old(self).state, self.state.pc, i2.bus));
            } else {
                assert(old(self).interpreter.bus.nmi_popped(i1.bus));
                let mid = choose|mid: interpreter::Interpreter<BusType>|
                    i1.fetches(old(self).state.pc, mid) && mid.executed(
                        old(self).state,
                        self.state,
                        i2.bus,
                    ) && i2.instruction == mid.instruction && i2.operands@ == mid.operands@
                        && mid.charged(old(self).state, i2.extra_cycles as int);
                assert(interpreter::Interpreter::<BusType>::fetched_from(i1.bus, old(self).state.pc, mid));
                assert(mid.executed(old(self).state, self.state, i2.bus));
            }
        }
        self.exit_status.clone()
    }
}

impl<BusType: Bus> CpuInterface for CPU<BusType> {
    open spec fn interface_wf(&self) -> bool {
        self.wf()
    }

    /// The registers as the last instruction left them, with that instruction's PC, opcode
    /// and operand bytes.
    fn read_state(&self) -> (r: NESSnapshot)
        ensures
            r.instruction == self.interpreter.instruction,
            r.operands@ == self.interpreter.operands@,
            r.acc == self.state.acc,
            r.x == self.state.x,
            r.y == self.state.y,
            r.pc == self.last_pc,
            r.sp == self.state.sp,
            r.status == self.state.status.bits,
    {
        let (scanline, ppu_cycle) = self.interpreter.bus.ppu_state();
        NESSnapshot {
            total_cycles: self.interpreter.bus.cycles(),
            instruction: *self.interpreter.instruction(),
            operands: self.interpreter.operands.clone(),
            acc: self.state.acc,
            x: self.state.x,
            y: self.state.y,
            pc: self.last_pc,
            sp: self.state.sp,
            status: self.state.status.to_u8(),
            scanline,
            ppu_cycle,
        }
    }

    /// A read of the bus, as the CPU would make it; the registers do not change.
    fn read_address(&mut self, addr: u16) -> (r: u8)
        ensures
            final(self).state == old(self).state,
            final(self).interpreter.instruction == old(self).interpreter.instruction,
            final(self).exit_status == old(self).exit_status,
            final(self).last_pc == old(self).last_pc,
            old(self).interpreter.bus.reads(addr, r, final(self).interpreter.bus),
    {
        self.interpreter.bus.read(addr)
    }

    fn request_stop(&mut self, retcode: i32)
        ensures
            final(self).exit_status == ExitStatus::StopRequested(retcode),
    {
        self.exit_status = ExitStatus::StopRequested(retcode);
    }
}

proof fn lemma_sbc_bits(acc: u8, v: u8, r: u8, bits: u8, a: bool, b: bool)
    by (bit_vector)
    ensures
        !v == 255 - v,
        ((acc ^ !v) & 0x80 == 0 && (!v ^ r) & 0x80 != 0) == ((r ^ v) & 0x80 == 0 && (v ^ acc)
            & 0x80 != 0),
        (if b {
            (if a {
                bits | 0x01
            } else {
                bits & !0x01u8
            }) | 0x40
        } else {
            (if a {
                bits | 0x01
            } else {
                bits & !0x01u8
            }) & !0x40u8
        }) == (if a {
            (if b {
                bits | 0x40
            } else {
                bits & !0x40u8
            }) | 0x01
        } else {
            (if b {
                bits | 0x40
            } else {
                bits & !0x40u8
            }) & !0x01u8
        }),
{
}

/// SBC is ADC of the operand's complement: the same accumulator, carry, overflow, negative
/// and zero flags.
pub proof fn lemma_sbc_is_adc_of_complement(s: CpuState, v: u8)
    ensures
        s.spec_sbc(v) == s.spec_adc(!v),
{
    let r = s.adc_value(!v);
    lemma_sbc_bits(s.acc, v, r, s.status.bits, s.sbc_carry(v), s.sbc_overflow(v));
    assert(s.sbc_value(v) == s.adc_value(!v));
    assert(s.sbc_carry(v) == (s.adc_sum(!v) > 255));
    assert(s.sbc_overflow(v) == s.adc_overflow(!v));
    assert(s.with_sbc(v) == s.with_adc(!v));
}

proof fn lemma_load_flag_bits(bits: u8, p: u8)
    by (bit_vector)
    ensures
        ({
            let t = if p == 0 {
                (if p & 0x80 != 0 {
                    bits | 0x80
                } else {
                    bits & !0x80u8
                }) | 0x02
            } else {
                (if p & 0x80 != 0 {
                    bits | 0x80
                } else {
                    bits & !0x80u8
                }) & !0x02u8
            };
            &&& (t & 0x02 == 0x02) == (p == 0)
            &&& (t & 0x80 == 0x80) == (p >= 0x80)
            &&& t & !0x82u8 == bits & !0x82u8
        }),
{
}

/// PLA loads the accumulator like any other load: with `p` the byte on top of the stack,
/// the accumulator becomes `p`, the stack pointer moves up by one, the zero flag says
/// whether `p` is zero and the negative flag is bit 7 of `p`; the other flags and registers
/// are kept.
pub proof fn lemma_pla_loads_flags(s: CpuState, p: u8)
    ensures
        ({
            let t = s.spec_pla(p);
            &&& t.acc == p
            &&& t.sp == s.sp.wrapping_add(1)
            &&& t.status.has(Status::ZERO) == (p == 0)
            &&& t.status.has(Status::NEGATIVE) == (p >= 0x80)
            &&& t.status.bits & !0x82u8 == s.status.bits & !0x82u8
            &&& t == CpuState { acc: t.acc, sp: t.sp, status: t.status, ..s }
        }),
{
    lemma_load_flag_bits(s.status.bits, p);
}

proof fn lemma_sbc_flag_bits(a: u8, v: u8, r: u8, bits: u8, c: bool, o: bool)
    by (bit_vector)
    requires
        o == ((r ^ v) & 0x80 == 0 && (v ^ a) & 0x80 != 0),
    ensures
        o == ((a ^ v) & (a ^ r) & 0x80 != 0),
        ((if o {
            (if c {
                bits | 0x01
            } else {
                bits & !0x01u8
            }) | 0x40
        } else {
            (if c {
                bits | 0x01
            } else {
                bits & !0x01u8
            }) & !0x40u8
        }) & 0x01 == 0x01) == c,
        ((if o {
            (if c {
                bits | 0x01
            } else {
                bits & !0x01u8
            }) | 0x40
        } else {
            (if c {
                bits | 0x01
            } else {
                bits & !0x01u8
            }) & !0x40u8
        }) & 0x40 == 0x40) == o,
        (if o {
            (if c {
                bits | 0x01
            } else {
                bits & !0x01u8
            }) | 0x40
        } else {
            (if c {
                bits | 0x01
            } else {
                bits & !0x01u8
            }) & !0x40u8
        }) & !0x41u8 == bits & !0x41u8,
{
}

/// Subtraction with borrow: with `d` the accumulator minus the operand minus the borrow (one
/// less the carry), the new accumulator is `d` modulo 256, the carry says that `d` did not go
/// below zero, the overflow that the accumulator's sign differs from both the operand's and
/// the result's, and every other flag and register is kept.
pub proof fn lemma_sbc_borrow(s: CpuState, v: u8)
    ensures
        ({
            let t = s.with_sbc(v);
            let d = s.acc - v - (1 - s.carry_in());
            &&& t.acc as int == d % 256
            &&& t.status.has(Status::CARRY) == (d >= 0)
            &&& t.status.has(Status::OVERFLOW) == ((s.acc ^ v) & (s.acc ^ t.acc) & 0x80 != 0)
            &&& t.status.bits & !0x41u8 == s.status.bits & !0x41u8
            &&& t == CpuState { acc: t.acc, status: t.status, ..s }
        }),
{
    let t = s.with_sbc(v);
    lemma_sbc_flag_bits(s.acc, v, t.acc, s.status.bits, s.sbc_carry(v), s.sbc_overflow(v));
}

proof fn lemma_rotate_bits(v: u8, c: bool, bits: u8, b: bool, n: bool, z: bool)
    by (bit_vector)
    ensures
        ((((v << 1u8) | (if c {
            1u8
        } else {
            0u8
        })) >> 1u8) | (if v & 0x80 != 0 {
            0x80u8
        } else {
            0u8
        })) == v,
        ((((v << 1u8) | (if c {
            1u8
        } else {
            0u8
        })) & 0x01) != 0) == c,
        ((if z {
            (if n {
                (if b {
                    bits | 0x01
                } else {
                    bits & !0x01u8
                }) | 0x80
            } else {
                (if b {
                    bits | 0x01
                } else {
                    bits & !0x01u8
                }) & !0x80u8
            }) | 0x02
        } else {
            (if n {
                (if b {
                    bits | 0x01
                } else {
                    bits & !0x01u8
                }) | 0x80
            } else {
                (if b {
                    bits | 0x01
                } else {
                    bits & !0x01u8
                }) & !0x80u8
            }) & !0x02u8
        }) & 0x01 == 0x01) == b,
{
}

/// ROR undoes ROL: rotating the accumulator left and then right gives back the accumulator
/// and the carry it started with.
pub proof fn lemma_ror_undoes_rol(s: CpuState, v: u8)
    ensures
        ({
            let s1 = s.spec_rol(true, v);
            let s2 = s1.spec_ror(true, s1.acc);
            &&& s2.acc == v
            &&& s2.status.has(Status::CARRY) == s.status.has(Status::CARRY)
        }),
{
    let c = s.status.has(Status::CARRY);
    let cin: u8 = if c {
        1
    } else {
        0
    };
    let r1 = (v << 1u8) | cin;
    let s1 = s.spec_rol(true, v);
    assert(s1.acc == r1);
    lemma_rotate_bits(v, c, s.status.bits, v & 0x80 != 0, r1 & 0x80 != 0, r1 == 0);
    assert(s1.status.has(Status::CARRY) == (v & 0x80 != 0));
    let r2 = (r1 >> 1u8) | (if s1.status.has(Status::CARRY) {
        0x80u8
    } else {
        0u8
    });
    assert(r2 == v);
    let s2 = s1.spec_ror(true, s1.acc);
    lemma_rotate_bits(v, c, s1.status.bits, r1 & 0x01 != 0, r2 & 0x80 != 0, r2 == 0);
    assert(s2.status.has(Status::CARRY) == (r1 & 0x01 != 0));
}

} // verus!
