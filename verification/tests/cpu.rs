use venus::bus::Bus;
use venus::cpu::instructions::{decode_instruction, AddressingMode, InstrName};
use venus::cpu::status::Status;
use venus::cpu::{as_hex_digit, crosses_page, is_negative, trace_operands, CPU, RESET_VECTOR_START};
use venus::memory::{RAM, ROM};

use venus::cpu::instructions::AddressingMode::{
    Absolute, AbsoluteX, AbsoluteY, Accumulator, Immediate, Implied, Indirect, IndirectX,
    IndirectY, Relative, ZeroPage, ZeroPageX, ZeroPageY,
};
use venus::cpu::instructions::InstrName::{
    ADC, AND, ASL, BCS, BEQ, BIT, BMI, BNE, BPL, BVC, BVS, CLC, CLD, CLI, CLV, CMP, CPX, CPY, DEC,
    DEX, DEY, EOR, INC, INX, INY, JMP, JSR, LDA, LDX, LDY, LSR, NOP, ORA, ROL, ROR, SBC, SEC, SED,
    SEI, STA, STX, STY, TAX, TAY, TSX, TXA, TXS, TYA,
};

const TEST_PROGRAM_START: u16 = 0x7FF0;

/// Program ROM from `TEST_PROGRAM_START` up, 2 KiB of RAM mirrored below it.
struct TestBus {
    program: ROM,
    ram: RAM,
    cycles: usize,
}

impl TestBus {
    fn new(data: &[u8]) -> Self {
        TestBus { program: ROM::with_data(data), ram: RAM::with_size(0x800), cycles: 0 }
    }
}

impl Bus for TestBus {
    fn cycle_count(&self) -> usize {
        self.cycles
    }

    fn inv(&self) -> bool {
        true
    }

    fn reads(&self, addr: u16, r: u8, next: Self) -> bool {
        let byte = if addr >= TEST_PROGRAM_START {
            self.program.data[addr as usize]
        } else {
            self.ram.data[(addr % 0x800) as usize]
        };
        r == byte && next.ram.data == self.ram.data && next.program.data == self.program.data
    }

    fn writes(&self, addr: u16, val: u8, next: Self) -> bool {
        let mut ram = self.ram.data.clone();
        ram[(addr % 0x800) as usize] = val;
        addr < TEST_PROGRAM_START && next.ram.data == ram && next.program.data == self.program.data
    }

    fn nmi_pending(&self) -> bool {
        false
    }

    fn nmi_popped(&self, next: Self) -> bool {
        next.ram.data == self.ram.data && next.program.data == self.program.data
    }

    fn clocked(&self, _ticks: u8, next: Self) -> bool {
        next.ram.data == self.ram.data && next.program.data == self.program.data
    }

    fn read(&mut self, addr: u16) -> u8 {
        if addr >= TEST_PROGRAM_START {
            self.program.read(addr)
        } else {
            self.ram.read(addr % 0x800)
        }
    }

    fn write(&mut self, addr: u16, val: u8) {
        if addr >= TEST_PROGRAM_START {
            panic!("Cannot write to ROM");
        } else {
            self.ram.write(addr % 0x800, val)
        }
    }

    fn cycles(&self) -> usize {
        self.cycles
    }

    fn clock(&mut self, cycles: u8) {
        self.cycles = self.cycles.wrapping_add(cycles as usize);
    }

    fn pop_nmi(&mut self) -> Option<u8> {
        None
    }
}

/// A CPU at the start of `data`, with the flags cleared so that each case states all it
/// expects of them.
fn initialize_program(data: &[u8]) -> CPU<TestBus> {
    let mut program = vec![0; 0xFFFF];
    let start = TEST_PROGRAM_START as usize;
    program[start..start + data.len()].copy_from_slice(data);
    program[RESET_VECTOR_START as usize] = (TEST_PROGRAM_START & 0xFF) as u8;
    program[RESET_VECTOR_START as usize + 1] = (TEST_PROGRAM_START >> 8) as u8;

    let bus = TestBus::new(&program);
    let mut cpu = CPU::new(bus);
    cpu.reset();
    cpu.state.status = Status::empty();
    cpu
}

#[derive(Default, Clone, Copy)]
struct Regs {
    acc: Option<u8>,
    x: Option<u8>,
    y: Option<u8>,
    sp: Option<u8>,
    status: Option<u8>,
    pc: Option<u16>,
}

fn acc(v: u8) -> Regs {
    Regs { acc: Some(v), ..Regs::default() }
}

fn none() -> Regs {
    Regs::default()
}

impl Regs {
    fn acc(self, v: u8) -> Regs {
        Regs { acc: Some(v), ..self }
    }
    fn x(self, v: u8) -> Regs {
        Regs { x: Some(v), ..self }
    }
    fn y(self, v: u8) -> Regs {
        Regs { y: Some(v), ..self }
    }
    fn sp(self, v: u8) -> Regs {
        Regs { sp: Some(v), ..self }
    }
    fn st(self, v: u8) -> Regs {
        Regs { status: Some(v), ..self }
    }
    fn pc(self, v: u16) -> Regs {
        Regs { pc: Some(v), ..self }
    }
}

fn set_regs(cpu: &mut CPU<TestBus>, r: Regs) {
    if let Some(v) = r.acc {
        cpu.state.acc = v;
    }
    if let Some(v) = r.x {
        cpu.state.x = v;
    }
    if let Some(v) = r.y {
        cpu.state.y = v;
    }
    if let Some(v) = r.sp {
        cpu.state.sp = v;
    }
    if let Some(v) = r.status {
        cpu.state.status = Status::from_bits(v);
    }
    if let Some(v) = r.pc {
        cpu.state.pc = v;
    }
}

fn check_regs(cpu: &CPU<TestBus>, r: Regs) {
    if let Some(v) = r.acc {
        assert_eq!(cpu.state.acc, v, "Register mismatch acc");
    }
    if let Some(v) = r.x {
        assert_eq!(cpu.state.x, v, "Register mismatch x");
    }
    if let Some(v) = r.y {
        assert_eq!(cpu.state.y, v, "Register mismatch y");
    }
    if let Some(v) = r.sp {
        assert_eq!(cpu.state.sp, v, "Register mismatch sp");
    }
    if let Some(v) = r.status {
        assert_eq!(cpu.state.status.bits(), v, "Flag mismatch status");
    }
    if let Some(v) = r.pc {
        assert_eq!(cpu.state.pc, v, "Register mismatch pc");
    }
}

fn prepare(
    name: InstrName,
    mode: AddressingMode,
    opcode: u8,
    rom: &[u8],
    mem: &[(u16, u8)],
    init: Regs,
) -> CPU<TestBus> {
    let act_instr = decode_instruction(opcode);
    assert_eq!(act_instr.name(), &name, "Instruction mismatch for {:?}", &name);
    assert_eq!(act_instr.mode(), &mode, "Address mode mismatch for {:?}", &mode);

    let mut data = vec![opcode];
    data.extend_from_slice(rom);
    let mut cpu = initialize_program(&data);
    set_regs(&mut cpu, init);
    for &(addr, val) in mem {
        cpu.interpreter.bus.write(addr, val);
    }
    cpu
}

/// Run one instruction and check that it took its operand bytes and exactly its cycles, the
/// registers and the memory.
fn verify_op(
    name: InstrName,
    mode: AddressingMode,
    opcode: u8,
    rom: &[u8],
    mem: &[(u16, u8)],
    init: Regs,
    exp_mem: &[(u16, u8)],
    exp: Regs,
) {
    let mut cpu = prepare(name, mode, opcode, rom, mem, init);
    let pc_bef = cpu.state.pc;
    let cycles_bef = cpu.interpreter.bus.cycles();
    cpu.clock();
    assert_eq!(cpu.interpreter.extra_cycles, 0, "The instruction took more than its cycles");
    assert_eq!(
        cpu.interpreter.bus.cycles() - cycles_bef,
        decode_instruction(opcode).cycles() as usize,
        "The bus was not clocked for the instruction's cycles"
    );

    let size = decode_instruction(opcode).size();
    assert_eq!(cpu.state.pc - pc_bef, size, "PC did not retrieve the correct number of bytes");
    check_regs(&cpu, exp);
    for &(addr, val) in exp_mem {
        assert_eq!(
            cpu.interpreter.bus.read(addr),
            val,
            "Memory at {:#X} does not match {:#}",
            addr,
            val
        );
    }
}

/// Run one instruction that sets the program counter itself and check the registers and the
/// cycles it took beyond its base count.
fn verify_branch(
    name: InstrName,
    mode: AddressingMode,
    opcode: u8,
    rom: &[u8],
    mem: &[(u16, u8)],
    init: Regs,
    exp: Regs,
    extra_cycles: usize,
) {
    let mut cpu = prepare(name, mode, opcode, rom, mem, init);
    let cycles_bef = cpu.interpreter.bus.cycles();
    cpu.clock();
    check_regs(&cpu, exp);
    assert_eq!(cpu.interpreter.extra_cycles, extra_cycles, "Extra cycles mismatch");
    assert_eq!(
        cpu.interpreter.bus.cycles() - cycles_bef,
        extra_cycles + decode_instruction(opcode).cycles() as usize,
        "The bus was not clocked for the instruction's cycles"
    );
}

#[test]
fn rts_returns_past_jsr() {
    // JSR $7FF5; NOP; NOP; LDA #$05; RTS
    let mut cpu = initialize_program(&[0x20, 0xF5, 0x7F, 0xEA, 0xEA, 0xA9, 0x05, 0x60]);
    let sp = cpu.state.sp;
    cpu.clock();
    assert_eq!(cpu.state.pc, 0x7FF5);
    assert_eq!(cpu.state.sp, sp.wrapping_sub(2));
    cpu.clock();
    cpu.clock();
    assert_eq!(cpu.state.pc, S + 3);
    assert_eq!(cpu.state.sp, sp);
    assert_eq!(cpu.state.acc, 5);
}

#[test]
fn sbc_borrow_and_overflow() {
    // 0x50 - 0xB0 with no borrow in: -0x60, so 0xA0 with a borrow out and a signed overflow.
    let mut cpu = initialize_program(&[0xE9, 0xB0]);
    cpu.state.acc = 0x50;
    cpu.state.status = Status::from_bits(Status::CARRY | Status::ZERO);
    cpu.clock();
    assert_eq!(cpu.state.acc, 0xA0);
    assert_eq!(cpu.state.status.bits(), Status::NEGATIVE | Status::OVERFLOW);
}

const S: u16 = TEST_PROGRAM_START;

#[test]
fn paging() {
    assert!(crosses_page(0x7FFF, 0x8000));
}

#[test]
fn tests_negative() {
    assert!(is_negative(255));
    assert!(is_negative(128));
    assert!(!is_negative(127));
    assert!(!is_negative(0));
}

#[test]
fn tests_adc() {
    verify_op(ADC, Immediate, 0x69, &[0x03], &[], acc(2), &[], acc(5));
    verify_op(ADC, ZeroPage, 0x65, &[0x00], &[(0x00, 0x01)], acc(2), &[], acc(3));
    verify_op(ADC, ZeroPageX, 0x75, &[0x01], &[(0x07, 0x01)], acc(4).x(6), &[], acc(5));
    verify_op(ADC, Absolute, 0x6D, &[0x00, 0x10], &[(0x1000, 0x01)], acc(4), &[], acc(5));
    verify_op(ADC, AbsoluteX, 0x7D, &[0x00, 0x10], &[(0x1006, 0x01)], acc(4).x(6), &[], acc(5));
    verify_op(ADC, AbsoluteY, 0x79, &[0x00, 0x10], &[(0x1006, 0x01)], acc(4).y(6), &[], acc(5));
    verify_op(
        ADC,
        IndirectX,
        0x61,
        &[0x1],
        &[(0x08, 0x10), (0x1000, 0x02)],
        acc(4).x(6),
        &[],
        acc(6),
    );
    verify_op(
        ADC,
        IndirectY,
        0x71,
        &[0x1],
        &[(0x2, 0x10), (0x1006, 0x02)],
        acc(4).y(6),
        &[],
        acc(6),
    );
}

#[test]
fn tests_and() {
    verify_op(AND, Immediate, 0x29, &[0x03], &[], acc(2), &[], acc(2));
    verify_op(AND, ZeroPage, 0x25, &[0x00], &[(0x00, 0x01)], acc(3), &[], acc(1));
    verify_op(AND, ZeroPageX, 0x35, &[0x01], &[(0x07, 0x01)], acc(5).x(6), &[], acc(1));
    verify_op(AND, Absolute, 0x2D, &[0x00, 0x10], &[(0x1000, 0x05)], acc(5), &[], acc(5));
    verify_op(AND, AbsoluteX, 0x3D, &[0x00, 0x10], &[(0x1006, 0x05)], acc(4).x(6), &[], acc(4));
    verify_op(
        AND,
        AbsoluteY,
        0x39,
        &[0x00, 0x10],
        &[(0x1012, 0x05)],
        acc(4).y(0x12),
        &[],
        acc(4),
    );
    verify_op(
        AND,
        IndirectX,
        0x21,
        &[0x1],
        &[(0x08, 0x10), (0x1000, 0x07)],
        acc(7).x(6),
        &[],
        acc(7),
    );
    verify_op(
        AND,
        IndirectY,
        0x31,
        &[0x1],
        &[(0x2, 0x10), (0x1006, 0x07)],
        acc(7).y(6),
        &[],
        acc(7),
    );
}

#[test]
fn tests_asl() {
    verify_op(ASL, Accumulator, 0x0A, &[], &[], acc(3), &[], acc(6));
    verify_op(ASL, ZeroPage, 0x06, &[0x00], &[(0x00, 0x01)], none(), &[(0x00, 0x02)], none());
    verify_op(ASL, ZeroPageX, 0x16, &[0x01], &[(0x07, 0x01)], none().x(6), &[(0x07, 0x02)], none());
    verify_op(
        ASL,
        Absolute,
        0x0E,
        &[0x00, 0x10],
        &[(0x1000, 0x05)],
        none(),
        &[(0x1000, 0x0A)],
        none(),
    );
    verify_op(
        ASL,
        AbsoluteX,
        0x1E,
        &[0x00, 0x10],
        &[(0x1006, 0x05)],
        none().x(6),
        &[(0x1006, 0x0A)],
        none(),
    );
}

#[test]
fn bit() {
    let zvn = Status::ZERO | Status::OVERFLOW | Status::NEGATIVE;
    let vn = Status::OVERFLOW | Status::NEGATIVE;
    verify_op(BIT, ZeroPage, 0x24, &[0x00], &[(0x0, 0xFF)], none(), &[], none().st(zvn));
    verify_op(BIT, ZeroPage, 0x24, &[0x00], &[(0x0, 0xFF)], acc(1), &[], none().st(vn));
    verify_op(BIT, ZeroPage, 0x24, &[0x01], &[(0x0, 0x5F)], none(), &[], none());
    verify_op(BIT, Absolute, 0x2C, &[0x00, 0x10], &[(0x1000, 0xFF)], none(), &[], none().st(zvn));
    verify_op(BIT, Absolute, 0x2C, &[0x00, 0x10], &[(0x1000, 0xFF)], acc(1), &[], none().st(vn));
    verify_op(BIT, Absolute, 0x2C, &[0x01, 0x10], &[(0x1001, 0x5F)], none(), &[], none());
}

#[test]
fn branches() {
    let e = Status::empty().bits();
    verify_branch(BCS, Relative, 0xB0, &[0x10], &[], none().st(e), none().pc(S + 0x2), 0);
    verify_branch(BCS, Relative, 0xB0, &[0x7F], &[], none().st(Status::CARRY), none().pc(S + 0x81), 2);

    verify_branch(BEQ, Relative, 0xF0, &[0x10], &[], none().st(e), none().pc(S + 0x2), 0);
    verify_branch(BEQ, Relative, 0xF0, &[0x7F], &[], none().st(Status::ZERO), none().pc(S + 0x81), 2);

    verify_branch(BMI, Relative, 0x30, &[0x10], &[], none().st(e), none().pc(S + 0x2), 0);
    verify_branch(
        BMI,
        Relative,
        0x30,
        &[0x7F],
        &[],
        none().st(Status::NEGATIVE),
        none().pc(S + 0x81),
        2,
    );

    verify_branch(BNE, Relative, 0xD0, &[0x10], &[], none().st(Status::ZERO), none().pc(S + 0x2), 0);
    verify_branch(BNE, Relative, 0xD0, &[0x7F], &[], none().st(e), none().pc(S + 0x81), 2);

    verify_branch(
        BPL,
        Relative,
        0x10,
        &[0x10],
        &[],
        none().st(Status::NEGATIVE),
        none().pc(S + 0x2),
        0,
    );
    verify_branch(BPL, Relative, 0x10, &[0x1], &[], none().st(e), none().pc(S + 0x3), 1);

    verify_branch(
        BVC,
        Relative,
        0x50,
        &[0x10],
        &[],
        none().st(Status::OVERFLOW),
        none().pc(S + 0x2),
        0,
    );
    verify_branch(BVC, Relative, 0x50, &[0x1], &[], none().st(e), none().pc(S + 0x3), 1);

    verify_branch(BVS, Relative, 0x70, &[0x10], &[], none().st(e), none().pc(S + 0x2), 0);
    verify_branch(BVS, Relative, 0x70, &[0x1], &[], none().st(Status::OVERFLOW), none().pc(S + 0x3), 1);
}

#[test]
fn flags() {
    verify_op(CLC, Implied, 0x18, &[], &[], none().st(Status::CARRY), &[], none());
    verify_op(CLD, Implied, 0xD8, &[], &[], none().st(Status::DECIMAL), &[], none());
    verify_op(CLI, Implied, 0x58, &[], &[], none().st(Status::INT_DISABLE), &[], none());
    verify_op(CLV, Implied, 0xB8, &[], &[], none().st(Status::OVERFLOW), &[], none());

    verify_op(SEC, Implied, 0x38, &[], &[], none(), &[], none().st(Status::CARRY));
    verify_op(SED, Implied, 0xF8, &[], &[], none(), &[], none().st(Status::DECIMAL));
    verify_op(SEI, Implied, 0x78, &[], &[], none(), &[], none().st(Status::INT_DISABLE));
}

#[test]
fn cmp() {
    let zc = Status::ZERO | Status::CARRY;
    verify_op(CMP, Immediate, 0xC9, &[0x03], &[], acc(2), &[], none().st(Status::NEGATIVE));
    verify_op(CMP, ZeroPage, 0xC5, &[0x00], &[(0x00, 0x03)], acc(3), &[], none().st(zc));
    verify_op(
        CMP,
        ZeroPageX,
        0xD5,
        &[0x01],
        &[(0x07, 0x03)],
        acc(5).x(6),
        &[],
        none().st(Status::CARRY),
    );
    verify_op(CMP, Absolute, 0xCD, &[0x00, 0x10], &[(0x1000, 0x05)], acc(5), &[], none().st(zc));
    verify_op(
        CMP,
        AbsoluteX,
        0xDD,
        &[0x00, 0x10],
        &[(0x1006, 0x05)],
        acc(4).x(6),
        &[],
        none().st(Status::NEGATIVE),
    );
    verify_op(
        CMP,
        AbsoluteY,
        0xD9,
        &[0x00, 0x10],
        &[(0x1012, 0x05)],
        acc(4).y(0x12),
        &[],
        none().st(Status::NEGATIVE),
    );
    verify_op(
        CMP,
        IndirectX,
        0xC1,
        &[0x1],
        &[(0x08, 0x10), (0x1000, 0x07)],
        acc(7).x(6),
        &[],
        none().st(zc),
    );
    verify_op(
        CMP,
        IndirectY,
        0xD1,
        &[0x1],
        &[(0x2, 0x10), (0x1006, 0x07)],
        acc(7).y(6),
        &[],
        none().st(zc),
    );
}

#[test]
fn cpx() {
    let zc = Status::ZERO | Status::CARRY;
    verify_op(CPX, Immediate, 0xE0, &[0x03], &[], none().x(2), &[], none().st(Status::NEGATIVE));
    verify_op(CPX, ZeroPage, 0xE4, &[0x00], &[(0x00, 0x03)], none().x(3), &[], none().st(zc));
    verify_op(CPX, Absolute, 0xEC, &[0x00, 0x10], &[(0x1000, 0x05)], none().x(5), &[], none().st(zc));
}

#[test]
fn cpy() {
    let zc = Status::ZERO | Status::CARRY;
    verify_op(CPY, Immediate, 0xC0, &[0x03], &[], none().y(2), &[], none().st(Status::NEGATIVE));
    verify_op(CPY, ZeroPage, 0xC4, &[0x00], &[(0x00, 0x03)], none().y(3), &[], none().st(zc));
    verify_op(CPY, Absolute, 0xCC, &[0x00, 0x10], &[(0x1000, 0x05)], none().y(5), &[], none().st(zc));
}

#[test]
fn dec() {
    let z = none().st(Status::ZERO);
    let n = none().st(Status::NEGATIVE);
    verify_op(DEC, ZeroPage, 0xC6, &[0x00], &[(0x00, 0x01)], none(), &[(0x00, 0x00)], z);
    verify_op(DEC, ZeroPageX, 0xD6, &[0x00], &[(0x01, 0x00)], none().x(1), &[(0x01, 0xFF)], n);
    verify_op(DEC, Absolute, 0xCE, &[0x00, 0x10], &[(0x1000, 0x01)], none(), &[(0x1000, 0x00)], z);
    verify_op(
        DEC,
        AbsoluteX,
        0xDE,
        &[0x00, 0x10],
        &[(0x1005, 0x00)],
        none().x(5),
        &[(0x1005, 0xFF)],
        n,
    );
}

#[test]
fn dex() {
    verify_op(DEX, Implied, 0xCA, &[], &[], none().x(1), &[], none().st(Status::ZERO));
    verify_op(DEX, Implied, 0xCA, &[], &[], none().x(0), &[], none().st(Status::NEGATIVE));
}

#[test]
fn dey() {
    verify_op(DEY, Implied, 0x88, &[], &[], none().y(1), &[], none().st(Status::ZERO));
    verify_op(DEY, Implied, 0x88, &[], &[], none().y(0), &[], none().st(Status::NEGATIVE));
}

#[test]
fn eor() {
    let e = Status::empty().bits();
    verify_op(EOR, Immediate, 0x49, &[0x03], &[], acc(3), &[], acc(0).st(Status::ZERO));
    verify_op(
        EOR,
        ZeroPage,
        0x45,
        &[0x00],
        &[(0x00, 0x03)],
        acc(0x83),
        &[],
        acc(0x80).st(Status::NEGATIVE),
    );
    verify_op(EOR, ZeroPageX, 0x55, &[0x01], &[(0x07, 0x03)], acc(5).x(6), &[], acc(6).st(e));
    verify_op(
        EOR,
        Absolute,
        0x4D,
        &[0x00, 0x10],
        &[(0x1000, 0x05)],
        acc(5),
        &[],
        acc(0).st(Status::ZERO),
    );
    verify_op(EOR, AbsoluteX, 0x5D, &[0x00, 0x10], &[(0x1006, 0x05)], acc(4).x(6), &[], acc(1).st(e));
    verify_op(
        EOR,
        AbsoluteY,
        0x59,
        &[0x00, 0x10],
        &[(0x1012, 0x05)],
        acc(4).y(0x12),
        &[],
        acc(1).st(e),
    );
    verify_op(
        EOR,
        IndirectX,
        0x41,
        &[0x1],
        &[(0x08, 0x10), (0x1000, 0x07)],
        acc(7).x(6),
        &[],
        acc(0).st(Status::ZERO),
    );
    verify_op(
        EOR,
        IndirectY,
        0x51,
        &[0x1],
        &[(0x2, 0x10), (0x1006, 0x07)],
        acc(7).y(6),
        &[],
        acc(0).st(Status::ZERO),
    );
}

#[test]
fn inc() {
    let e = none().st(Status::empty().bits());
    let z = none().st(Status::ZERO);
    verify_op(INC, ZeroPage, 0xE6, &[0x00], &[(0x00, 0xFF)], none(), &[(0x00, 0x00)], z);
    verify_op(INC, ZeroPageX, 0xF6, &[0x00], &[(0x01, 0x00)], none().x(1), &[(0x01, 0x1)], e);
    verify_op(INC, Absolute, 0xEE, &[0x00, 0x10], &[(0x1000, 0xFF)], none(), &[(0x1000, 0x00)], z);
    verify_op(
        INC,
        AbsoluteX,
        0xFE,
        &[0x00, 0x10],
        &[(0x1005, 0x00)],
        none().x(5),
        &[(0x1005, 0x01)],
        e,
    );
}

#[test]
fn inx() {
    verify_op(INX, Implied, 0xE8, &[], &[], none().x(0xFF), &[], none().st(Status::ZERO));
    verify_op(INX, Implied, 0xE8, &[], &[], none().x(0xFE), &[], none().st(Status::NEGATIVE));
}

#[test]
fn iny() {
    verify_op(INY, Implied, 0xC8, &[], &[], none().y(0xFF), &[], none().st(Status::ZERO));
    verify_op(INY, Implied, 0xC8, &[], &[], none().y(0xFE), &[], none().st(Status::NEGATIVE));
}

#[test]
fn jmp() {
    verify_branch(JMP, Absolute, 0x4C, &[0x00, 0x10], &[], none(), none().pc(0x1000), 0);
    verify_branch(
        JMP,
        Indirect,
        0x6C,
        &[0x00, 0x1],
        &[(0x100, 0x01), (0x101, 0x10)],
        none(),
        none().pc(0x1001),
        0,
    );
}

#[test]
fn jsr() {
    verify_branch(JSR, Absolute, 0x20, &[0x00, 0x10], &[], none(), none().pc(0x1000), 0);
}

#[test]
fn lda() {
    let e = Status::empty().bits();
    verify_op(LDA, Immediate, 0xA9, &[0x03], &[], none(), &[], acc(3));
    verify_op(LDA, ZeroPage, 0xA5, &[0x00], &[(0x00, 0x00)], none(), &[], acc(0).st(Status::ZERO));
    verify_op(
        LDA,
        ZeroPageX,
        0xB5,
        &[0x01],
        &[(0x07, 0xF0)],
        none().x(6),
        &[],
        acc(0xF0).st(Status::NEGATIVE),
    );
    verify_op(
        LDA,
        Absolute,
        0xAD,
        &[0x00, 0x10],
        &[(0x1000, 0x00)],
        none(),
        &[],
        acc(0).st(Status::ZERO),
    );
    verify_op(LDA, AbsoluteX, 0xBD, &[0x00, 0x10], &[(0x1006, 0x05)], none().x(6), &[], acc(5).st(e));
    verify_op(
        LDA,
        AbsoluteY,
        0xB9,
        &[0x00, 0x10],
        &[(0x1012, 0x05)],
        none().y(0x12),
        &[],
        acc(5).st(e),
    );
    verify_op(
        LDA,
        IndirectX,
        0xA1,
        &[0x1],
        &[(0x08, 0x10), (0x1000, 0xF7)],
        none().x(6),
        &[],
        acc(0xF7).st(Status::NEGATIVE),
    );
    verify_op(
        LDA,
        IndirectY,
        0xB1,
        &[0x1],
        &[(0x2, 0x10), (0x1006, 0x07)],
        none().y(6),
        &[],
        acc(0x07).st(e),
    );
}

#[test]
fn ldx() {
    let e = Status::empty().bits();
    verify_op(LDX, Immediate, 0xA2, &[0x03], &[], none(), &[], none().x(3));
    verify_op(
        LDX,
        ZeroPage,
        0xA6,
        &[0x00],
        &[(0x00, 0x00)],
        none(),
        &[],
        none().x(0).st(Status::ZERO),
    );
    verify_op(
        LDX,
        ZeroPageY,
        0xB6,
        &[0x01],
        &[(0x07, 0xF0)],
        none().y(6),
        &[],
        none().x(0xF0).st(Status::NEGATIVE),
    );
    verify_op(
        LDX,
        Absolute,
        0xAE,
        &[0x00, 0x10],
        &[(0x1000, 0x00)],
        none(),
        &[],
        none().x(0).st(Status::ZERO),
    );
    verify_op(
        LDX,
        AbsoluteY,
        0xBE,
        &[0x00, 0x10],
        &[(0x1012, 0x05)],
        none().y(0x12),
        &[],
        none().x(5).st(e),
    );
}

#[test]
fn ldy() {
    let e = Status::empty().bits();
    verify_op(LDY, Immediate, 0xA0, &[0x03], &[], none(), &[], none().y(3));
    verify_op(
        LDY,
        ZeroPage,
        0xA4,
        &[0x00],
        &[(0x00, 0x00)],
        none(),
        &[],
        none().y(0).st(Status::ZERO),
    );
    verify_op(
        LDY,
        ZeroPageX,
        0xB4,
        &[0x01],
        &[(0x07, 0xF0)],
        none().x(6),
        &[],
        none().y(0xF0).st(Status::NEGATIVE),
    );
    verify_op(
        LDY,
        Absolute,
        0xAC,
        &[0x00, 0x10],
        &[(0x1000, 0x00)],
        none(),
        &[],
        none().y(0).st(Status::ZERO),
    );
    verify_op(
        LDY,
        AbsoluteX,
        0xBC,
        &[0x00, 0x10],
        &[(0x1006, 0x05)],
        none().x(6),
        &[],
        none().y(5).st(e),
    );
}

#[test]
fn lsr() {
    let e = none().st(Status::empty().bits());
    verify_op(LSR, Accumulator, 0x4A, &[], &[], acc(0xFF), &[], acc(0x7F).st(Status::CARRY));
    verify_op(
        LSR,
        ZeroPage,
        0x46,
        &[0x00],
        &[(0x00, 0x01)],
        none(),
        &[(0x00, 0x00)],
        none().st(Status::CARRY | Status::ZERO),
    );
    verify_op(LSR, ZeroPageX, 0x56, &[0x01], &[(0x07, 0xF0)], none().x(6), &[(0x07, 0x78)], e);
    verify_op(
        LSR,
        Absolute,
        0x4E,
        &[0x00, 0x10],
        &[(0x1000, 0x00)],
        none(),
        &[(0x1000, 0x00)],
        none().st(Status::ZERO),
    );
    verify_op(
        LSR,
        AbsoluteX,
        0x5E,
        &[0x00, 0x10],
        &[(0x1006, 0x05)],
        none().x(6),
        &[(0x1006, 0x02)],
        none().st(Status::CARRY),
    );
}

#[test]
fn nop() {
    verify_op(NOP, Implied, 0xEA, &[], &[], none(), &[], none());
}

#[test]
fn ora() {
    let e = Status::empty().bits();
    verify_op(ORA, Immediate, 0x09, &[0x03], &[], acc(3), &[], acc(3).st(e));
    verify_op(
        ORA,
        ZeroPage,
        0x05,
        &[0x00],
        &[(0x00, 0x03)],
        acc(0x83),
        &[],
        acc(0x83).st(Status::NEGATIVE),
    );
    verify_op(ORA, ZeroPageX, 0x15, &[0x01], &[(0x07, 0x03)], acc(5).x(6), &[], acc(7).st(e));
    verify_op(
        ORA,
        Absolute,
        0x0D,
        &[0x00, 0x10],
        &[(0x1000, 0x00)],
        acc(0),
        &[],
        acc(0).st(Status::ZERO),
    );
    verify_op(ORA, AbsoluteX, 0x1D, &[0x00, 0x10], &[(0x1006, 0x05)], acc(4).x(6), &[], acc(5).st(e));
    verify_op(
        ORA,
        AbsoluteY,
        0x19,
        &[0x00, 0x10],
        &[(0x1012, 0x05)],
        acc(4).y(0x12),
        &[],
        acc(5).st(e),
    );
    verify_op(
        ORA,
        IndirectX,
        0x01,
        &[0x1],
        &[(0x08, 0x10), (0x1000, 0x07)],
        acc(7).x(6),
        &[],
        acc(7).st(e),
    );
    verify_op(
        ORA,
        IndirectY,
        0x11,
        &[0x1],
        &[(0x2, 0x10), (0x1006, 0x07)],
        acc(7).y(6),
        &[],
        acc(7).st(e),
    );
}

#[test]
fn stack() {}

#[test]
fn rol() {
    let e = none().st(Status::empty().bits());
    verify_op(
        ROL,
        Accumulator,
        0x2A,
        &[],
        &[],
        acc(0xFF).st(Status::CARRY),
        &[],
        acc(0xFF).st(Status::NEGATIVE | Status::CARRY),
    );
    verify_op(ROL, ZeroPage, 0x26, &[0x00], &[(0x00, 0x01)], none(), &[(0x00, 0x02)], e);
    verify_op(
        ROL,
        ZeroPageX,
        0x36,
        &[0x01],
        &[(0x07, 0x80)],
        none().x(6),
        &[(0x07, 0x00)],
        none().st(Status::CARRY | Status::ZERO),
    );
    verify_op(
        ROL,
        Absolute,
        0x2E,
        &[0x00, 0x10],
        &[(0x1000, 0x70)],
        none(),
        &[(0x1000, 0xE0)],
        none().st(Status::NEGATIVE),
    );
    verify_op(
        ROL,
        AbsoluteX,
        0x3E,
        &[0x00, 0x10],
        &[(0x1006, 0x05)],
        none().x(6),
        &[(0x1006, 0x0A)],
        e,
    );
}

#[test]
fn ror() {
    let e = none().st(Status::empty().bits());
    verify_op(
        ROR,
        Accumulator,
        0x6A,
        &[],
        &[],
        acc(0xFF).st(Status::CARRY),
        &[],
        acc(0xFF).st(Status::NEGATIVE | Status::CARRY),
    );
    verify_op(
        ROR,
        ZeroPage,
        0x66,
        &[0x00],
        &[(0x00, 0x01)],
        none(),
        &[(0x00, 0x00)],
        none().st(Status::CARRY | Status::ZERO),
    );
    verify_op(ROR, ZeroPageX, 0x76, &[0x01], &[(0x07, 0x80)], none().x(6), &[(0x07, 0x40)], e);
    verify_op(ROR, Absolute, 0x6E, &[0x00, 0x10], &[(0x1000, 0x70)], none(), &[(0x1000, 0x38)], e);
    verify_op(
        ROR,
        AbsoluteX,
        0x7E,
        &[0x00, 0x10],
        &[(0x1006, 0x05)],
        none().x(6),
        &[(0x1006, 0x02)],
        none().st(Status::CARRY),
    );
}

#[test]
fn rt() {}

#[test]
fn sbc() {
    let zc = Status::ZERO | Status::CARRY;
    let e = Status::empty().bits();
    verify_op(
        SBC,
        IndirectY,
        0xF1,
        &[0x1],
        &[(0x2, 0x10), (0x1006, 0x07)],
        acc(8).y(6),
        &[],
        acc(0).st(zc),
    );
    verify_op(SBC, Immediate, 0xE9, &[0x03], &[], acc(4), &[], acc(0).st(zc));
    verify_op(
        SBC,
        ZeroPage,
        0xE5,
        &[0x00],
        &[(0x00, 0x03)],
        acc(0x84),
        &[],
        acc(0x80).st(Status::NEGATIVE | Status::CARRY),
    );
    verify_op(
        SBC,
        ZeroPageX,
        0xF5,
        &[0x01],
        &[(0x07, 0xFF)],
        acc(5).x(6).st(Status::CARRY),
        &[],
        acc(6).st(e),
    );
    verify_op(
        SBC,
        Absolute,
        0xED,
        &[0x00, 0x10],
        &[(0x1000, 0x00)],
        acc(0),
        &[],
        acc(0xFF).st(Status::NEGATIVE),
    );
    verify_op(
        SBC,
        AbsoluteX,
        0xFD,
        &[0x00, 0x10],
        &[(0x1006, 0x05)],
        acc(4).x(6),
        &[],
        acc(0xFE).st(Status::NEGATIVE),
    );
    verify_op(
        SBC,
        AbsoluteY,
        0xF9,
        &[0x00, 0x10],
        &[(0x1012, 0xFF)],
        acc(5).y(0x12),
        &[],
        acc(0x5).st(e),
    );
    verify_op(
        SBC,
        IndirectX,
        0xE1,
        &[0x1],
        &[(0x08, 0x10), (0x1000, 0x07)],
        acc(7).x(6).st(Status::CARRY),
        &[],
        acc(0).st(zc),
    );
}

#[test]
fn sta() {
    let n = Status::NEGATIVE;
    verify_op(
        STA,
        ZeroPage,
        0x85,
        &[0x00],
        &[],
        acc(0x83).st(n),
        &[(0x00, 0x83)],
        none().st(n),
    );
    verify_op(STA, ZeroPageX, 0x95, &[0x01], &[], acc(5).x(6), &[(0x07, 0x05)], acc(5));
    verify_op(STA, Absolute, 0x8D, &[0x00, 0x10], &[], acc(5), &[(0x1000, 0x05)], acc(5));
    verify_op(STA, AbsoluteX, 0x9D, &[0x00, 0x10], &[], acc(4).x(6), &[(0x1006, 0x04)], acc(4));
    verify_op(STA, AbsoluteY, 0x99, &[0x00, 0x10], &[], acc(5).y(0x12), &[(0x1012, 0x5)], acc(5));
    verify_op(STA, IndirectX, 0x81, &[0x1], &[(0x08, 0x10)], acc(7).x(6), &[(0x1000, 0x07)], acc(7));
    verify_op(STA, IndirectY, 0x91, &[0x1], &[(0x2, 0x10)], acc(7).y(6), &[(0x1006, 0x07)], acc(7));
}

#[test]
fn stx() {
    let n = Status::NEGATIVE;
    verify_op(
        STX,
        ZeroPage,
        0x86,
        &[0x00],
        &[],
        none().x(0x83).st(n),
        &[(0x00, 0x83)],
        none().st(n),
    );
    verify_op(STX, ZeroPageY, 0x96, &[0x01], &[], none().x(5).y(6), &[(0x07, 0x05)], none().x(5));
    verify_op(STX, Absolute, 0x8E, &[0x00, 0x10], &[], none().x(5), &[(0x1000, 0x05)], none().x(5));
}

#[test]
fn sty() {
    let n = Status::NEGATIVE;
    verify_op(
        STY,
        ZeroPage,
        0x84,
        &[0x00],
        &[],
        none().y(0x83).st(n),
        &[(0x00, 0x83)],
        none().st(n),
    );
    verify_op(STY, ZeroPageX, 0x94, &[0x01], &[], none().y(5).x(6), &[(0x07, 0x05)], none().y(5));
    verify_op(STY, Absolute, 0x8C, &[0x00, 0x10], &[], none().y(5), &[(0x1000, 0x05)], none().y(5));
}

#[test]
fn tax() {
    verify_op(TAX, Implied, 0xAA, &[], &[], acc(0xFF), &[], acc(0xFF).x(0xFF).st(Status::NEGATIVE));
    verify_op(TAX, Implied, 0xAA, &[], &[], acc(0x00).x(1), &[], acc(0).x(0).st(Status::ZERO));
}

#[test]
fn tay() {
    verify_op(TAY, Implied, 0xA8, &[], &[], acc(0xFF), &[], acc(0xFF).y(0xFF).st(Status::NEGATIVE));
    verify_op(TAY, Implied, 0xA8, &[], &[], acc(0x00).y(1), &[], acc(0).y(0).st(Status::ZERO));
}

#[test]
fn tsx() {
    verify_op(
        TSX,
        Implied,
        0xBA,
        &[],
        &[],
        none().sp(0x80),
        &[],
        none().sp(0x80).x(0x80).st(Status::NEGATIVE),
    );
    verify_op(
        TSX,
        Implied,
        0xBA,
        &[],
        &[],
        none().sp(0x00).x(1),
        &[],
        none().sp(0).x(0).st(Status::ZERO),
    );
}

#[test]
fn txa() {
    verify_op(
        TXA,
        Implied,
        0x8A,
        &[],
        &[],
        none().x(0xFF),
        &[],
        none().x(0xFF).acc(0xFF).st(Status::NEGATIVE),
    );
    verify_op(TXA, Implied, 0x8A, &[], &[], none().x(0).acc(1), &[], none().x(0).acc(0).st(Status::ZERO));
}

#[test]
fn txs() {
    let e = Status::empty().bits();
    verify_op(TXS, Implied, 0x9A, &[], &[], none().x(0x80), &[], none().x(0x80).sp(0x80).st(e));
    verify_op(TXS, Implied, 0x9A, &[], &[], none().x(0x00), &[], none().x(0).sp(0).st(e));
}

#[test]
fn tya() {
    verify_op(
        TYA,
        Implied,
        0x98,
        &[],
        &[],
        none().y(0xFF),
        &[],
        none().y(0xFF).acc(0xFF).st(Status::NEGATIVE),
    );
    verify_op(TYA, Implied, 0x98, &[], &[], none().y(0).acc(1), &[], none().y(0).acc(0).st(Status::ZERO));
}

#[test]
fn hex_digits_are_upper_case() {
    assert_eq!(as_hex_digit(0), b'0');
    assert_eq!(as_hex_digit(9), b'9');
    assert_eq!(as_hex_digit(10), b'A');
    assert_eq!(as_hex_digit(15), b'F');
}

#[test]
fn trace_operand_column() {
    assert_eq!(&trace_operands(&[]), b"         \0");
    assert_eq!(&trace_operands(&[0x0A]), b"0A       \0");
    assert_eq!(&trace_operands(&[0x34, 0xC2]), b"34 C2    \0");
    assert_eq!(&trace_operands(&[0xFF, 0x00, 0x7B]), b"FF 00 7B \0");
}
