use venus::common::{Bus, Clocked};
use venus::instructions::{get_from, AddressingMode, InstrName, Instruction};
use venus::mapper::{create_mapper, Board, Header, Mapper, Mapper0};
use venus::ricoh::{is_negative, Ricoh2A03, Status};

use venus::instructions::AddressingMode::{
    Absolute, AbsoluteX, AbsoluteY, Accumulator, Immediate, Indirect, IndirectX, IndirectY,
    Invalid, Relative, ZeroPage, ZeroPageX, ZeroPageY,
};
use venus::instructions::InstrName::{ADC, AND, ASL};

/// RAM below $8000, the NROM board's PRG ROM above.
struct CartBus {
    ram: Vec<u8>,
    board: Board,
}

impl Bus for CartBus {
    fn reads(&self, _addr: usize, _r: u8, _next: Self) -> bool {
        true
    }

    fn writes(&self, _addr: usize, _val: u8, _next: Self) -> bool {
        true
    }

    fn read(&mut self, addr: usize) -> u8 {
        if addr < 0x8000 {
            self.ram[addr]
        } else {
            match &self.board {
                Board::Nrom(m) => m.prg_read(addr),
                Board::Mmc1(m) => m.prg_read(addr),
            }
        }
    }

    fn write(&mut self, addr: usize, val: u8) {
        if addr < 0x8000 {
            self.ram[addr] = val;
        }
    }
}

/// The default board with `data` at the start of PRG ROM and the reset vector pointing there.
fn program(data: &[u8]) -> CartBus {
    let header = Header::default();
    let rom_start = Mapper0::ROM_START;
    let mut rom = vec![0; header.get_prg_rom_size()];
    rom[0..data.len()].clone_from_slice(data);
    let reset_loc = (0xFFFC - rom_start) as usize;
    rom[reset_loc] = (rom_start & 0xFF) as u8;
    rom[reset_loc + 1] = (rom_start >> 8) as u8;
    CartBus { ram: vec![0; 0x8000], board: create_mapper(&header, rom.as_slice()) }
}

fn bytes(instr: &Instruction) -> u16 {
    match instr.mode() {
        ZeroPage | ZeroPageX | ZeroPageY => 2,
        Absolute | AbsoluteX | AbsoluteY => 3,
        Indirect | IndirectX | IndirectY | Relative | Immediate => 2,
        Accumulator => 1,
        Invalid => 1,
    }
}

fn run_for(cpu: &mut Ricoh2A03, bus: &mut CartBus, cycles: usize) {
    for _ in 0..cycles {
        cpu.clock(bus);
    }
}

#[derive(Default, Clone, Copy)]
struct Regs {
    acc: Option<u8>,
    x: Option<u8>,
    y: Option<u8>,
}

fn acc(v: u8) -> Regs {
    Regs { acc: Some(v), ..Regs::default() }
}

impl Regs {
    fn x(self, v: u8) -> Regs {
        Regs { x: Some(v), ..self }
    }
    fn y(self, v: u8) -> Regs {
        Regs { y: Some(v), ..self }
    }
}

fn none() -> Regs {
    Regs::default()
}

/// Run one instruction for its cycles, check the registers and memory, then check that the
/// next cycle fetches again.
fn verify_op(
    name: InstrName,
    mode: AddressingMode,
    opcode: u8,
    rom: &[u8],
    mem: &[(usize, u8)],
    init: Regs,
    exp_mem: &[(usize, u8)],
    exp: Regs,
) {
    let act_instr = get_from(opcode);
    assert_eq!(act_instr.name(), &name, "Instruction mismatch for {:?}", &name);
    assert_eq!(act_instr.mode(), &mode, "Address mode mismatch for {:?}", &mode);

    let mut data = vec![opcode];
    data.extend_from_slice(rom);
    let mut bus = program(&data);
    let mut cpu = Ricoh2A03::new();
    if let Some(v) = init.acc {
        cpu.acc = v;
    }
    if let Some(v) = init.x {
        cpu.x = v;
    }
    if let Some(v) = init.y {
        cpu.y = v;
    }
    for &(addr, val) in mem {
        bus.write(addr, val);
    }

    cpu.connect(&mut bus).init();
    let pc_bef = cpu.pc;

    run_for(&mut cpu, &mut bus, act_instr.cycles() as usize);

    assert_eq!(cpu.pc - pc_bef, bytes(&act_instr), "PC did not retrieve the correct number of bytes");
    if let Some(v) = exp.acc {
        assert_eq!(cpu.acc, v);
    }
    if let Some(v) = exp.x {
        assert_eq!(cpu.x, v);
    }
    if let Some(v) = exp.y {
        assert_eq!(cpu.y, v);
    }
    for &(addr, val) in exp_mem {
        assert_eq!(bus.read(addr), val, "Memory at {:#X} does not match {:#}", addr, val);
    }

    let pc_bef = cpu.pc;
    run_for(&mut cpu, &mut bus, 1);
    assert_ne!(cpu.pc, pc_bef);
}

#[test]
fn tcpu_negative() {
    assert!(is_negative(255));
    assert!(is_negative(128));
    assert!(!is_negative(127));
    assert!(!is_negative(0));
}

#[test]
fn tcpu_adc() {
    verify_op(ADC, Immediate, 0x69, &[0x03], &[], acc(2), &[], acc(5));
    verify_op(ADC, ZeroPage, 0x65, &[0x00], &[(0x00, 0x01)], acc(2), &[], acc(3));
    verify_op(ADC, ZeroPageX, 0x75, &[0x01], &[(0x07, 0x01)], acc(4).x(6), &[], acc(5));
    verify_op(ADC, Absolute, 0x6D, &[0x00, 0x10], &[(0x1000, 0x01)], acc(4), &[], acc(5));
    verify_op(ADC, AbsoluteX, 0x7D, &[0x00, 0x10], &[(0x1006, 0x01)], acc(4).x(6), &[], acc(5));
    verify_op(ADC, AbsoluteY, 0x79, &[0x00, 0x10], &[(0x1006, 0x01)], acc(4).y(6), &[], acc(5));
    verify_op(ADC, IndirectX, 0x61, &[0x1], &[(0x08, 0x10), (0x1000, 0x02)], acc(4).x(6), &[], acc(6));
    verify_op(ADC, IndirectY, 0x71, &[0x1], &[(0x2, 0x10), (0x1006, 0x02)], acc(4).y(6), &[], acc(6));
}

#[test]
fn tcpu_and() {
    verify_op(AND, Immediate, 0x29, &[0x03], &[], acc(2), &[], acc(2));
    verify_op(AND, ZeroPage, 0x25, &[0x00], &[(0x00, 0x01)], acc(3), &[], acc(1));
    verify_op(AND, ZeroPageX, 0x35, &[0x01], &[(0x07, 0x01)], acc(5).x(6), &[], acc(1));
    verify_op(AND, Absolute, 0x2D, &[0x00, 0x10], &[(0x1000, 0x05)], acc(5), &[], acc(5));
    verify_op(AND, AbsoluteX, 0x3D, &[0x00, 0x10], &[(0x1006, 0x05)], acc(4).x(6), &[], acc(4));
    verify_op(AND, AbsoluteY, 0x39, &[0x00, 0x10], &[(0x1012, 0x05)], acc(4).y(0x12), &[], acc(4));
    verify_op(AND, IndirectX, 0x21, &[0x1], &[(0x08, 0x10), (0x1000, 0x07)], acc(7).x(6), &[], acc(7));
    verify_op(AND, IndirectY, 0x31, &[0x1], &[(0x2, 0x10), (0x1006, 0x07)], acc(7).y(6), &[], acc(7));
}

#[test]
fn tcpu_asl() {
    verify_op(ASL, Accumulator, 0x0A, &[], &[], acc(3), &[], acc(6));
    verify_op(ASL, ZeroPage, 0x06, &[0x00], &[(0x00, 0x01)], none(), &[(0x00, 0x02)], none());
    verify_op(ASL, ZeroPageX, 0x16, &[0x01], &[(0x07, 0x01)], none().x(6), &[(0x07, 0x02)], none());
    verify_op(ASL, Absolute, 0x0E, &[0x00, 0x10], &[(0x1000, 0x05)], none(), &[(0x1000, 0x0A)], none());
    verify_op(
        ASL,
        AbsoluteX,
        0x1E,
        &[0x00, 0x10],
        &[(0x1006, 0x05)],
        none().x(6),
        &[(0x1006, 0x0A)],
        none(),
    );
}

#[test]
fn tcpu_load_index_opcodes() {
    verify_op(InstrName::LDY, Absolute, 0xAC, &[0x00, 0x10], &[(0x1000, 0x05)], none(), &[], none().y(5));
    verify_op(InstrName::LDY, AbsoluteX, 0xBC, &[0x00, 0x10], &[(0x1006, 0x05)], none().x(6), &[], none().y(5));
    verify_op(InstrName::LDX, Absolute, 0xAE, &[0x00, 0x10], &[(0x1000, 0x07)], none(), &[], none().x(7));
}

/// Run the program `data` from the reset vector with the flags `flags` until the next fetch
/// after its first instruction, and give the PC there, relative to the start.
fn branch_pc(data: &[u8], flags: u8) -> u16 {
    let mut bus = program(data);
    let mut cpu = Ricoh2A03::new();
    cpu.connect(&mut bus).init();
    let start = cpu.pc;
    cpu.status.flags = flags;
    cpu.clock(&mut bus);
    while cpu.noop_cycles > 0 {
        cpu.clock(&mut bus);
    }
    cpu.pc - start
}

#[test]
fn tcpu_bcc_tests_carry() {
    // BCC +5: taken with carry clear, whatever the overflow flag says.
    assert_eq!(branch_pc(&[0x90, 0x05], 0), 7);
    assert_eq!(branch_pc(&[0x90, 0x05], 1 << Status::OVERFLOW), 7);
    assert_eq!(branch_pc(&[0x90, 0x05], 1 << Status::CARRY), 2);
    // BCS +5 is the opposite.
    assert_eq!(branch_pc(&[0xB0, 0x05], 1 << Status::CARRY), 7);
    assert_eq!(branch_pc(&[0xB0, 0x05], 0), 2);
}
