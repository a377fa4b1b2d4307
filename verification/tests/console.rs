use venus::apu::counter::Counter;
use venus::bus::Bus;
use venus::cartridge::header::Mirroring;
use venus::cartridge::{image_supported, load_cartridge_image, Cartridge, CartridgeError};
use venus::cpu::status::Status;
use venus::cpu::CpuInterface;
use venus::graphics::nop::NOPRenderer;
use venus::memory::RAM;
use venus::{run_outcome, CpuTask, ExitStatus, RunOutcome, VNES};

/// An iNES image of one 16 KiB PRG bank holding `prg` at $8000 (and mirrored at $C000, where
/// the reset vector points back to $8000) and one 8 KiB CHR bank.
fn nrom_image(prg: &[u8], flags_6: u8) -> Vec<u8> {
    let mut image = vec![0x4E, 0x45, 0x53, 0x1A, 1, 1, flags_6, 0, 0, 0, 0, 0, 0, 0, 0, 0];
    let mut bank = vec![0xEA; 0x4000];
    bank[..prg.len()].copy_from_slice(prg);
    bank[0x3FFC] = 0x00;
    bank[0x3FFD] = 0x80;
    image.extend_from_slice(&bank);
    image.extend_from_slice(&vec![0; 0x2000]);
    image
}

fn cartridge(prg: &[u8], flags_6: u8) -> Cartridge {
    let image = nrom_image(prg, flags_6);
    assert!(image_supported(&image));
    load_cartridge_image("test.nes", &image).unwrap()
}

/// Counts its calls.
struct Count {
    calls: u32,
}

impl CpuTask for Count {
    fn ran<C: CpuInterface>(&self, _cpu: C, after: Self, _cpu_after: C) -> bool {
        after.calls == self.calls + 1
    }

    fn call<C: CpuInterface>(&mut self, _cpu: &mut C) {
        self.calls += 1;
    }
}

fn console(prg: &[u8]) -> VNES<NOPRenderer, Count> {
    let mut vnes = VNES::new_headless(cartridge(prg, 0));
    vnes.reset();
    vnes
}

#[test]
fn cartridge_image_errors() {
    assert_eq!(load_cartridge_image("short.nes", &[0x4E; 10]).err(), Some(CartridgeError::UnexpectedEof));
    let image = nrom_image(&[], 0);
    assert_eq!(
        load_cartridge_image("header.nes", &image[..16]).err(),
        Some(CartridgeError::UnexpectedEof)
    );
    assert_eq!(
        load_cartridge_image("cut.nes", &image[..image.len() - 1]).err(),
        Some(CartridgeError::UnexpectedEof)
    );
    let mut mapper2 = image.clone();
    mapper2[6] = 0x20;
    assert!(!image_supported(&mapper2));
    assert!(image_supported(&[0; 3]));
}

#[test]
fn cartridge_image_loads() {
    let cart = cartridge(&[0xA9, 0x05], 1);
    assert_eq!(cart.name, "test.nes");
    assert_eq!(cart.header.prg_rom_size, 1);
    assert_eq!(cart.header.chr_ram_size, 1);
    assert_eq!(cart.header.mirroring, Mirroring::Vertical);
    assert_eq!(cart.header.mapper_num, 0);
}

#[test]
fn reset_reads_the_vector() {
    let vnes = console(&[]);
    assert_eq!(vnes.cpu.state.pc, 0x8000);
    assert_eq!(vnes.cpu.state.sp, 0xFD);
    assert_eq!(vnes.cpu.state.status.bits(), Status::PUSH_IRQ | Status::INT_DISABLE);
}

#[test]
fn cartridge_reads_through_the_bus() {
    let mut vnes = console(&[0xA9, 0x05]);
    assert_eq!(vnes.cpu.interpreter.bus.read(0x8000), 0xA9);
    assert_eq!(vnes.cpu.interpreter.bus.read(0xC001), 0x05);
}

#[test]
fn ram_mirrors_every_2k() {
    // LDA #$05; STA $0001
    let mut vnes = console(&[0xA9, 0x05, 0x8D, 0x01, 0x00]);
    assert_eq!(vnes.run_once(), ExitStatus::Continue);
    assert_eq!(vnes.cpu.state.acc, 5);
    assert_eq!(vnes.run_once(), ExitStatus::Continue);
    let bus = &mut vnes.cpu.interpreter.bus;
    assert_eq!(bus.read(0x0001), 5);
    assert_eq!(bus.read(0x0801), 5);
    assert_eq!(bus.read(0x1001), 5);
    assert_eq!(bus.read(0x1801), 5);
    bus.write(0x1803, 9);
    assert_eq!(bus.read(0x0003), 9);
}

#[test]
fn ram_read_after_write() {
    let mut ram = RAM::with_size(0x10);
    ram.write(3, 0xAB);
    assert_eq!(ram.read(3), 0xAB);
    assert_eq!(ram.read(4), 0);
    assert_eq!(ram.len(), 0x10);
}

#[test]
fn run_until_step_stops_at_the_address() {
    // NOP; NOP; NOP
    let mut vnes = console(&[0xEA, 0xEA, 0xEA]);
    assert_eq!(vnes.run_until_step(0x8000), Some(ExitStatus::Breakpoint(0x8000)));
    assert_eq!(vnes.cpu.state.pc, 0x8000);
    let mut steps = 0;
    loop {
        match vnes.run_until_step(0x8002) {
            None => steps += 1,
            Some(status) => {
                assert_eq!(status, ExitStatus::Breakpoint(0x8002));
                break;
            },
        }
    }
    assert_eq!(steps, 2);
}

#[test]
fn jam_stops_the_cpu() {
    let mut vnes = console(&[0x02]);
    assert_eq!(vnes.run_once(), ExitStatus::ExitError("HLT".to_owned()));
    assert_eq!(vnes.run_until_step(0x9000), Some(ExitStatus::ExitError("HLT".to_owned())));
}

#[test]
fn request_stop_is_reported() {
    let mut vnes = console(&[0xEA, 0xEA]);
    vnes.cpu.request_stop(3);
    assert_eq!(vnes.cpu.exit_status, ExitStatus::StopRequested(3));
    assert_eq!(vnes.run_once(), ExitStatus::StopRequested(3));
}

#[test]
fn tasks_run_around_each_step() {
    let mut vnes = console(&[0xEA, 0xEA]);
    vnes.add_pre_execute_task(Count { calls: 0 });
    vnes.add_post_execute_task(Count { calls: 0 });
    assert_eq!(vnes.pre_execute_tasks.len(), 1);
    assert_eq!(vnes.post_execute_tasks.len(), 1);
    vnes.run_once();
    assert_eq!(vnes.pre_execute_tasks[0].calls, 1);
    assert_eq!(vnes.post_execute_tasks[0].calls, 1);
    assert_eq!(vnes.cpu.state.pc, 0x8001);
}

#[test]
fn sbc_is_adc_of_the_complement() {
    // SEC; LDA #$50; SBC #$10
    let mut a = console(&[0x38, 0xA9, 0x50, 0xE9, 0x10]);
    // SEC; LDA #$50; ADC #$EF
    let mut b = console(&[0x38, 0xA9, 0x50, 0x69, 0xEF]);
    for _ in 0..3 {
        a.run_once();
        b.run_once();
    }
    assert_eq!(a.cpu.state.acc, 0x40);
    assert_eq!(a.cpu.state.acc, b.cpu.state.acc);
    assert_eq!(a.cpu.state.status.bits(), b.cpu.state.status.bits());
    assert!(a.cpu.state.status.contains(Status::CARRY));
}

#[test]
fn ror_undoes_rol() {
    // LDA #$81; CLC; ROL A; ROR A
    let mut vnes = console(&[0xA9, 0x81, 0x18, 0x2A, 0x6A]);
    vnes.run_once();
    vnes.run_once();
    vnes.run_once();
    assert_eq!(vnes.cpu.state.acc, 0x02);
    assert!(vnes.cpu.state.status.contains(Status::CARRY));
    vnes.run_once();
    assert_eq!(vnes.cpu.state.acc, 0x81);
    assert!(!vnes.cpu.state.status.contains(Status::CARRY));
}

#[test]
fn ppu_address_pair_and_nametable_mirroring() {
    // Horizontal mirroring: $2108 and $2508 are the same byte.
    let mut vnes = VNES::<NOPRenderer, Count>::new_headless(cartridge(&[], 0));
    let bus = &mut vnes.cpu.interpreter.bus;
    bus.write(0x2006, 0x21);
    bus.write(0x2006, 0x08);
    bus.write(0x2007, 0x55);
    bus.write(0x2006, 0x25);
    bus.write(0x2006, 0x08);
    let _ = bus.read(0x2007);
    assert_eq!(bus.read(0x2007), 0x55);
}

#[test]
fn ppu_palette_mirrors() {
    let mut vnes = VNES::<NOPRenderer, Count>::new_headless(cartridge(&[], 0));
    let bus = &mut vnes.cpu.interpreter.bus;
    bus.write(0x2006, 0x3F);
    bus.write(0x2006, 0x10);
    bus.write(0x2007, 0x2A);
    bus.write(0x2006, 0x3F);
    bus.write(0x2006, 0x00);
    assert_eq!(bus.read(0x2007), 0x2A);
    // Every $20 bytes the palettes repeat.
    bus.write(0x2006, 0x3F);
    bus.write(0x2006, 0x30);
    assert_eq!(bus.read(0x2007), 0x2A);
}

#[test]
fn ppu_status_read_clears_vblank() {
    let mut vnes = VNES::<NOPRenderer, Count>::new_headless(cartridge(&[], 0));
    let bus = &mut vnes.cpu.interpreter.bus;
    bus.write(0x2002, 0x80);
    assert_eq!(bus.read(0x2002) & 0x80, 0x80);
    assert_eq!(bus.read(0x2002) & 0x80, 0);
}

#[test]
fn counter_restarts_every_period_plus_one_ticks() {
    let mut counter = Counter::new(3);
    for expected in [2, 1, 0, 3, 2, 1, 0, 3] {
        counter.tick();
        assert_eq!(counter.get_count(), expected);
    }
}

#[test]
fn legacy_status_bits() {
    let mut status = venus::ricoh::Status::from_flags(0b1010_0101);
    status.set(false, 0);
    status.set(true, 1);
    assert_eq!(status.to_u8(), 0b1010_0110);
    assert!(status.get(7));
    assert!(!status.get(6));
}

#[test]
fn vblank_raises_nmi_when_enabled() {
    let mut vnes = VNES::<NOPRenderer, Count>::new_headless(cartridge(&[], 0));
    let bus = &mut vnes.cpu.interpreter.bus;
    bus.write(0x2000, 0x80);
    // 108 * 255 CPU cycles are 82620 PPU cycles: past the start of the vertical blank at
    // scanline 241, before the end of the frame.
    for _ in 0..107 {
        bus.clock(255);
        assert_eq!(bus.pop_nmi(), None);
    }
    bus.clock(255);
    assert_eq!(bus.pop_nmi(), Some(1));
    assert_eq!(bus.read(0x2002) & 0x80, 0x80);
}

#[test]
fn vblank_without_nmi_enable() {
    let mut vnes = VNES::<NOPRenderer, Count>::new_headless(cartridge(&[], 0));
    let bus = &mut vnes.cpu.interpreter.bus;
    for _ in 0..108 {
        bus.clock(255);
    }
    assert_eq!(bus.pop_nmi(), None);
    assert_eq!(bus.read(0x2002) & 0x80, 0x80);
}

#[test]
fn run_outcomes() {
    assert_eq!(run_outcome(ExitStatus::Continue), RunOutcome::KeepRunning);
    assert_eq!(run_outcome(ExitStatus::StopRequested(0)), RunOutcome::Finished);
    assert_eq!(run_outcome(ExitStatus::StopRequested(4)), RunOutcome::StopFailed(4));
    assert_eq!(run_outcome(ExitStatus::ExitError("HLT".to_owned())), RunOutcome::Failed("HLT".to_owned()));
    assert_eq!(run_outcome(ExitStatus::Breakpoint(0x8000)), RunOutcome::Finished);
    assert_eq!(run_outcome(ExitStatus::ExitSuccess), RunOutcome::Finished);
}

#[test]
fn oam_dma_copies_cartridge_and_ram_pages() {
    let prg: Vec<u8> = (0..=255u8).collect();
    let mut vnes = console(&prg);
    let bus = &mut vnes.cpu.interpreter.bus;
    // A page of the cartridge: PRG ROM at $8000.
    bus.write(0x4014, 0x80);
    assert_eq!(bus.ppu.oam_primary, prg);
    // A page of RAM.
    for i in 0..256u16 {
        bus.write(0x0200 + i, (255 - i) as u8);
    }
    bus.write(0x4014, 0x02);
    let expected: Vec<u8> = (0..=255u8).rev().collect();
    assert_eq!(bus.ppu.oam_primary, expected);
    assert_eq!(bus.read(0x0200), 255);
}

/// Records the PC of the last instruction the CPU it is called on executed.
struct Seen {
    pcs: Vec<u16>,
}

impl CpuTask for Seen {
    fn ran<C: CpuInterface>(&self, _cpu: C, after: Self, _cpu_after: C) -> bool {
        after.pcs.len() == self.pcs.len() + 1
    }

    fn call<C: CpuInterface>(&mut self, cpu: &mut C) {
        self.pcs.push(cpu.read_state().pc);
    }
}

#[test]
fn tasks_see_the_cpu_before_and_after_the_step() {
    let mut vnes = VNES::<NOPRenderer, Seen>::new_headless(cartridge(&[0xEA, 0xEA], 0));
    vnes.reset();
    vnes.add_pre_execute_task(Seen { pcs: Vec::new() });
    vnes.add_post_execute_task(Seen { pcs: Vec::new() });
    vnes.run_once();
    vnes.run_once();
    assert_eq!(vnes.post_execute_tasks[0].pcs, vec![0x8000, 0x8001]);
    assert_eq!(vnes.pre_execute_tasks[0].pcs[1], 0x8000);
}

#[test]
fn nmi_is_taken_once() {
    let mut vnes = VNES::<NOPRenderer, Count>::new_headless(cartridge(&[], 0));
    let bus = &mut vnes.cpu.interpreter.bus;
    bus.write(0x2000, 0x80);
    for _ in 0..108 {
        bus.clock(255);
    }
    assert_eq!(bus.pop_nmi(), Some(1));
    assert_eq!(bus.pop_nmi(), None);
}
