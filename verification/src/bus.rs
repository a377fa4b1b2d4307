//! The CPU address bus and the machine that hangs off it.
use crate::apu::APU;
use crate::cartridge::mapper::Mapper;
use crate::cartridge::{Cartridge, CartridgeInterface};
use crate::graphics::Renderer;
use crate::cpu::interpreter::{pops_word, pushes_word, stack_addr, word, Interpreter};
use crate::cpu::{CpuState, NMI_VECTOR_START};
use crate::memory::RAM;
use crate::ppu::{frame_end_cycle, vblank_set_cycle, Flags, PPU, VBLANK_START};
use vstd::prelude::*;

verus! {

/// What the CPU sees of the machine: one byte-wide read/write port over the 16-bit address
/// space, the clock, and the NMI line.
pub trait Bus: Sized {
    /// The bus's own consistency, which every access keeps.
    spec fn inv(&self) -> bool;

    /// A read of `addr` from this bus gives `r` and leaves the bus as `next`.
    spec fn reads(&self, addr: u16, r: u8, next: Self) -> bool;

    /// A write of `val` to `addr` leaves this bus as `next`.
    spec fn writes(&self, addr: u16, val: u8, next: Self) -> bool;

    /// A non-maskable interrupt is pending.
    spec fn nmi_pending(&self) -> bool;

    /// Taking the pending NMI, if any, leaves this bus as `next`.
    spec fn nmi_popped(&self, next: Self) -> bool;

    /// Clocking this bus by `ticks` CPU cycles leaves it as `next`.
    spec fn clocked(&self, ticks: u8, next: Self) -> bool;

    fn read(&mut self, addr: u16) -> (r: u8)
        requires
            old(self).inv(),
        ensures
            final(self).inv(),
            old(self).reads(addr, r, *final(self)),
    ;

    fn write(&mut self, addr: u16, val: u8)
        requires
            old(self).inv(),
        ensures
            final(self).inv(),
            old(self).writes(addr, val, *final(self)),
    ;

    /// Read the little-endian word at `addr`. The high byte comes from the next address in the
    /// same page: word reads wrap around page boundaries instead of crossing them.
    fn read16(&mut self, addr: u16) -> (r: u16)
        requires
            old(self).inv(),
        ensures
            final(self).inv(),
            exists|mid: Self, lo: u8, hi: u8|
                #![trigger old(self).reads(addr, lo, mid), mid.reads(page_next(addr), hi, *final(self))]
                old(self).reads(addr, lo, mid) && mid.reads(page_next(addr), hi, *final(self)) && r
                    == ((lo as u16) | ((hi as u16) << 8u16)),
    {
        let next_addr = (addr & 0xFF00) | (addr.wrapping_add(1) & 0xFF);
        let lo = self.read(addr);
        let ghost mid = *self;
        let hi = self.read(next_addr);
        assert(mid.reads(page_next(addr), hi, *self));
        (lo as u16) | ((hi as u16) << 8u16)
    }

    /// Read `n` consecutive bytes starting at `addr`; addresses past 0xFFFF wrap to 0.
    fn read_n(&mut self, addr: u16, n: u16) -> (r: Vec<u8>)
        requires
            old(self).inv(),
        ensures
            final(self).inv(),
            r@.len() == n,
            exists|buses: Seq<Self>|
                #![trigger buses.len(), buses[0], buses.last()]
                buses.len() == n + 1 && buses[0] == *old(self) && buses.last() == *final(self)
                    && forall|i: int|
                    0 <= i < n ==> #[trigger] buses[i].reads(
                        addr.wrapping_add(i as u16),
                        r@[i],
                        buses[i + 1],
                    ),
    {
        let mut v: Vec<u8> = Vec::new();
        let mut idx: u16 = 0;
        let ghost mut buses: Seq<Self> = seq![*self];
        while idx < n
            invariant
                idx <= n,
                v@.len() == idx,
                self.inv(),
                buses.len() == idx + 1,
                buses[0] == *old(self),
                buses[idx as int] == *self,
                forall|i: int|
                    0 <= i < idx ==> #[trigger] buses[i].reads(
                        addr.wrapping_add(i as u16),
                        v@[i],
                        buses[i + 1],
                    ),
            decreases n - idx,
        {
            let b = self.read(addr.wrapping_add(idx));
            proof {
                let longer = buses.push(*self);
                assert forall|i: int| 0 <= i < idx + 1 implies #[trigger] longer[i].reads(
                    addr.wrapping_add(i as u16),
                    v@.push(b)[i],
                    longer[i + 1],
                ) by {
                    if i < idx {
                        assert(longer[i] == buses[i] && longer[i + 1] == buses[i + 1]);
                    }
                }
                buses = longer;
            }
            v.push(b);
            idx = idx + 1;
        }
        assert(buses.len() == v@.len() + 1 && buses.last() == *self);
        v
    }

    /// The count of CPU cycles the bus has been clocked by.
    spec fn cycle_count(&self) -> usize;

    fn cycles(&self) -> (r: usize)
        ensures
            r == self.cycle_count(),
    ;

    fn clock(&mut self, cycles: u8)
        requires
            old(self).inv(),
        ensures
            final(self).inv(),
            old(self).clocked(cycles, *final(self)),
            final(self).cycle_count() == old(self).cycle_count().wrapping_add(cycles as usize),
    ;

    /// Take the pending non-maskable interrupt, if any; the line is clear afterwards.
    fn pop_nmi(&mut self) -> (r: Option<u8>)
        requires
            old(self).inv(),
        ensures
            final(self).inv(),
            (r is Some) == old(self).nmi_pending(),
            old(self).nmi_popped(*final(self)),
            !final(self).nmi_pending(),
    ;

    /// The PPU's scanline and cycle, for traces.
    fn ppu_state(&self) -> (i16, i16)
        requires
            self.inv(),
    {
        (0, 0)
    }
}

/// The address after `addr` in the same 256-byte page.
pub open spec fn page_next(addr: u16) -> u16 {
    (addr & 0xFF00) | (addr.wrapping_add(1) & 0xFF)
}

/// A little-endian word read of `addr` from `b` gives `r` and leaves the bus as `next`: the
/// low byte from `addr`, then the high byte from the next address in the same page.
pub open spec fn reads_word<T: Bus>(b: T, addr: u16, r: u16, next: T) -> bool {
    exists|mid: T, lo: u8, hi: u8|
        #![trigger b.reads(addr, lo, mid), mid.reads(page_next(addr), hi, next)]
        b.reads(addr, lo, mid) && mid.reads(page_next(addr), hi, next) && r == ((lo as u16) | ((
            hi as u16) << 8u16))
}

/// The console's CPU bus: 2 KiB of RAM mirrored up to $1FFF, the PPU registers mirrored up to
/// $3FFF, the APU and I/O registers, then the cartridge.
pub struct NesBus<R: Renderer> {
    pub game: Cartridge,
    pub ppu: PPU<R>,
    pub apu: APU,
    pub cpu_ram: RAM,
    pub cycles: usize,
    pub nmi: Option<u8>,
    pub cpu_test_enabled: bool,
}

/// The size of the CPU's internal RAM.
pub const CPU_RAM_SIZE: usize = 0x800;

/// The number of bytes an OAM DMA copies.
pub const PAGE_SIZE: usize = 256;

impl<R: Renderer> NesBus<R> {
    /// A console with `game` inserted, its PPU drawing to `renderer`. The cartridge must give
    /// the PPU both pattern tables.
    pub fn new(game: Cartridge, renderer: R) -> (r: Self)
        requires
            game.wf(),
            game.mapper.chr_data().len() >= 0x2000,
        ensures
            r.inv(),
            r.game == game,
            r.cycles == 0,
            r.nmi is None,
            r.cpu_ram.data@ == Seq::new(0x800, |i: int| 0u8),
    {
        let ppu = PPU::new(&game, renderer);
        let apu = APU::new(&game);
        NesBus {
            ppu,
            apu,
            game,
            cpu_ram: RAM::with_size(CPU_RAM_SIZE as u16),
            nmi: None,
            cycles: 0,
            cpu_test_enabled: false,
        }
    }

    /// The byte a read of the CPU RAM gives at `addr` (below $2000).
    pub open spec fn ram_byte(self, addr: u16) -> u8 {
        self.cpu_ram.data@[(addr & 0x7FF) as int]
    }

    /// Reading the 256 bytes of page `page` in order from this bus gives `data`, through the
    /// buses `buses`: the first is this bus, and the read of byte `i` takes `buses[i]` to
    /// `buses[i + 1]`.
    pub open spec fn dma_reads(self, page: u8, data: Seq<u8>, buses: Seq<Self>) -> bool {
        &&& data.len() == 256
        &&& buses.len() == 257
        &&& buses[0] == self
        &&& forall|i: int|
            #![trigger data[i]]
            0 <= i < 256 ==> buses[i].reads(((page as u16) << 8u16) | (i as u16), data[i], buses[i + 1])
    }

    /// The 256 bytes an OAM DMA from page `val` copies out of the CPU RAM (pages $00-$1F).
    fn ram_page(&self, val: u8) -> (r: Vec<u8>)
        requires
            self.cpu_ram.data@.len() == CPU_RAM_SIZE,
            val < 0x20,
        ensures
            r@.len() == PAGE_SIZE,
            forall|i: int|
                0 <= i < 256 ==> #[trigger] r@[i] == self.cpu_ram.data@[((((val as u16) << 8u16)
                    & 0x7FF) + i) as int],
    {
        let page = (((val as u16) << 8u16) & 0x7FF) as usize;
        assert((((val as u16) << 8u16) & 0x7FF) <= 0x700) by (bit_vector);
        let mut v: Vec<u8> = Vec::new();
        let mut i: usize = 0;
        while i < PAGE_SIZE
            invariant
                i <= PAGE_SIZE,
                page <= 0x700,
                page == (((val as u16) << 8u16) & 0x7FF),
                self.cpu_ram.data@.len() == CPU_RAM_SIZE,
                v@.len() == i,
                forall|j: int| 0 <= j < i ==> #[trigger] v@[j] == self.cpu_ram.data@[page + j],
            decreases PAGE_SIZE - i,
        {
            v.push(self.cpu_ram.data[page + i]);
            i = i + 1;
        }
        v
    }
}

impl<R: Renderer> Bus for NesBus<R> {
    open spec fn cycle_count(&self) -> usize {
        self.cycles
    }

    open spec fn inv(&self) -> bool {
        &&& self.game.wf()
        &&& self.ppu.wf()
        &&& self.apu.wf()
        &&& self.cpu_ram.data@.len() == CPU_RAM_SIZE
    }

    /// RAM through its mirrors, 0 for the controllers and test registers, the cartridge's
    /// byte (0 where the board maps none) with nothing changed; $2000-$3FFF and $4000-$4015
    /// are reads of the PPU's and the APU's registers (`reads_register`), which leave RAM,
    /// the cartridge and the other unit alone. No read touches the cycle count or the NMI.
    open spec fn reads(&self, addr: u16, r: u8, next: Self) -> bool {
        &&& addr <= 0x1FFF ==> r == self.ram_byte(addr) && next == *self
        &&& 0x4016 <= addr <= 0x401F ==> r == 0 && next == *self
        &&& 0x4020 <= addr ==> next == *self && r == (if self.game.cart_prg_readable(addr) {
            self.game.mapper.prg_byte(addr)
        } else {
            0
        })
        &&& next.cpu_ram == self.cpu_ram
        &&& next.game == self.game
        &&& next.cycles == self.cycles
        &&& next.nmi == self.nmi
        &&& next.cpu_test_enabled == self.cpu_test_enabled
        &&& 0x2000 <= addr <= 0x3FFF ==> next.apu == self.apu && self.ppu.reads_register(
            (addr - 0x2000) as u16,
            r,
            next.ppu,
        )
        &&& 0x4000 <= addr <= 0x4015 ==> next.ppu == self.ppu && self.apu.reads_register(
            (addr - 0x4000) as u16,
            r,
            next.apu,
        )
    }

    /// RAM through its mirrors, nothing for the controllers; $2000-$3FFF, $4000-$4013 and
    /// $4015 are writes of the PPU's and the APU's registers (`writes_register`), which leave
    /// the other units alone; $4014 copies a page of RAM, or of the cartridge from $4100 up,
    /// into OAM; from $4020 the cartridge takes the write where its board accepts one. No
    /// write touches the cycle count or the NMI.
    open spec fn writes(&self, addr: u16, val: u8, next: Self) -> bool {
        &&& addr <= 0x1FFF ==> next.cpu_ram.data@ == self.cpu_ram.data@.update(
            (addr & 0x7FF) as int,
            val,
        ) && next.ppu == self.ppu && next.game == self.game
        &&& 0x4016 <= addr <= 0x401F ==> next == *self
        &&& 0x4020 <= addr ==> next.cpu_ram == self.cpu_ram
        &&& 0x2000 <= addr <= 0x3FFF ==> next.cpu_ram == self.cpu_ram && next.game == self.game
            && next.apu == self.apu
        &&& (0x4000 <= addr <= 0x4013 || addr == 0x4015) ==> next.cpu_ram == self.cpu_ram
            && next.game == self.game && next.ppu == self.ppu
        &&& 0x4020 <= addr ==> next.ppu == self.ppu && next.apu == self.apu
        &&& addr == 0x4014 && val < 0x20 ==> next.ppu.oam_primary@ == Seq::new(
            256,
            |i: int| self.cpu_ram.data@[((((val as u16) << 8u16) & 0x7FF) + i) as int],
        )
        &&& addr == 0x4014 && val >= 0x41 ==> next.ppu.oam_primary@ == Seq::new(
            256,
            |i: int| self.game.cart_byte(((val as u16) << 8u16) | (i as u16)),
        )
        &&& addr == 0x4014 ==> next.cpu_ram == self.cpu_ram && next.game == self.game
        &&& addr == 0x4014 ==> exists|data: Seq<u8>, buses: Seq<Self>|
            #![trigger self.dma_reads(val, data, buses)]
            self.dma_reads(val, data, buses) && next.ppu.oam_primary@ == data && next.ppu == (PPU {
                oam_primary: next.ppu.oam_primary,
                ..buses[256].ppu
            }) && next.apu == buses[256].apu
        &&& addr == 0x4014 && (val < 0x20 || val >= 0x41) ==> next.apu == self.apu && next.ppu == (
        PPU { oam_primary: next.ppu.oam_primary, ..self.ppu })
        &&& next.cycles == self.cycles
        &&& next.nmi == self.nmi
        &&& next.cpu_test_enabled == self.cpu_test_enabled
        &&& 0x2000 <= addr <= 0x3FFF ==> self.ppu.writes_register(
            (addr - 0x2000) as u16,
            val,
            next.ppu,
        )
        &&& (0x4000 <= addr <= 0x4013 || addr == 0x4015) ==> self.apu.writes_register(
            (addr - 0x4000) as u16,
            val,
            next.apu,
        )
        &&& 0x4020 <= addr ==> (if self.game.cart_prg_writable(addr) {
            self.game.prg_written(addr, val, next.game)
        } else {
            next.game == self.game
        })
    }

    open spec fn nmi_pending(&self) -> bool {
        self.nmi is Some
    }

    open spec fn nmi_popped(&self, next: Self) -> bool {
        next == (NesBus { nmi: None, ..*self })
    }

    /// The cycle count advances, RAM and the cartridge stay; the PPU runs three cycles per
    /// tick (see `PPU::clocked_to`) and its pending NMI, if it raised one, is taken: the NMI
    /// line has one exactly when it had one or the PPU raised one. So it stays when the PPU
    /// had none and does not reach the vertical blank, and it has one when the PPU enters the
    /// vertical blank with NMIs enabled.
    open spec fn clocked(&self, ticks: u8, next: Self) -> bool {
        &&& next.cycles == self.cycles.wrapping_add(ticks as usize)
        &&& next.cpu_ram == self.cpu_ram
        &&& next.game == self.game
        &&& next.apu == self.apu
        &&& next.cpu_test_enabled == self.cpu_test_enabled
        &&& exists|p: PPU<R>|
            #![trigger self.ppu.clocked_to(3 * ticks, p)]
            self.ppu.clocked_to(3 * ticks, p) && next.ppu == (PPU {
                flags: Flags { has_nmi: false, ..p.flags },
                ..p
            }) && next.nmi == (if p.flags.has_nmi {
                Some(1u8)
            } else {
                self.nmi
            })
        &&& next.nmi == self.nmi || next.nmi == Some(1u8)
        &&& !self.ppu.flags.has_nmi && self.ppu.spec_total_cycles() + 3 * ticks < VBLANK_START
            ==> next.nmi == self.nmi
        &&& self.ppu.pos_cycles() < vblank_set_cycle() <= self.ppu.spec_total_cycles() + 3 * ticks
            < frame_end_cycle() && self.ppu.registers.ctrl & 0x80 != 0 ==> next.nmi == Some(1u8)
    }

    /// $0000-$1FFF: RAM, $2000-$3FFF: PPU registers, $4000-$4015: APU, $4016-$401F:
    /// controllers and test registers (read as 0), $4020-$FFFF: the cartridge. An address the
    /// board does not map reads as 0.
    fn read(&mut self, addr: u16) -> (r: u8)
    {
        if addr <= 0x1FFF {
            assert(addr & 0x7FF < 0x800) by (bit_vector);
            self.cpu_ram.read(addr & 0x7FF)
        } else if addr <= 0x3FFF {
            self.ppu.register_read(addr - 0x2000)
        } else if addr <= 0x4015 {
            self.apu.register_read(addr - 0x4000)
        } else if addr <= 0x401F {
            // Controllers and the APU test registers are not emulated
            0
        } else if self.game.can_read(addr) {
            // NOTE: Cartridges use absolute addresses
            self.game.prg_read(addr)
        } else {
            0
        }
    }

    /// Writes go to the same places as reads; $4014 starts an OAM DMA of the page `val`
    /// names; the controllers ignore writes, and so does the cartridge where its board takes
    /// none.
    fn write(&mut self, addr: u16, val: u8)
    {
        if addr <= 0x1FFF {
            assert(addr & 0x7FF < 0x800) by (bit_vector);
            self.cpu_ram.write(addr & 0x7FF, val);
        } else if addr <= 0x3FFF {
            self.ppu.register_write(addr - 0x2000, val);
        } else if addr < 0x4014 || addr == 0x4015 {
            self.apu.register_write(addr - 0x4000, val);
        } else if addr == 0x4014 {
            // Writing $XX will upload 256 bytes of data from CPU page $XX00-$XXFF to the
            // internal PPU OAM. This page is typically located in internal RAM, commonly
            // $0200-$02FF, but cartridge RAM or ROM can be used as well.
            //
            // https://www.nesdev.org/wiki/PPU_registers#OAMDATA
            if val < 0x20 {
                let page = self.ram_page(val);
                self.ppu.oam_dma(page.as_slice());
                assert(self.ppu.oam_primary@ =~= Seq::new(
                    256,
                    |i: int| old(self).cpu_ram.data@[((((val as u16) << 8u16) & 0x7FF) + i) as int],
                ));
                proof {
                    let o = *old(self);
                    let buses = Seq::new(257, |i: int| o);
                    assert forall|i: int| 0 <= i < 256 implies #[trigger] page@[i] == page@[i]
                        && buses[i].reads(((val as u16) << 8u16) | (i as u16), page@[i], buses[i + 1]) by {
                        let a = ((val as u16) << 8u16) | (i as u16);
                        lemma_ram_page_addr(val, i as u16);
                    }
                    assert(o.dma_reads(val, page@, buses));
                }
                return;
            }
            let mut dma_buffer: Vec<u8> = Vec::new();
            let mut lo: u16 = 0;
            let ghost mut buses: Seq<NesBus<R>> = seq![*old(self)];
            while lo < PAGE_SIZE as u16
                invariant
                    lo <= 256,
                    dma_buffer@.len() == lo,
                    buses.len() == lo + 1,
                    buses[0] == *old(self),
                    buses[lo as int] == *self,
                    forall|j: int|
                        #![trigger dma_buffer@[j]]
                        0 <= j < lo ==> buses[j].reads(
                            ((val as u16) << 8u16) | (j as u16),
                            dma_buffer@[j],
                            buses[j + 1],
                        ),
                    self.inv(),
                    self.cpu_ram == old(self).cpu_ram,
                    self.game == old(self).game,
                    self.cycles == old(self).cycles,
                    self.nmi == old(self).nmi,
                    self.cpu_test_enabled == old(self).cpu_test_enabled,
                    val >= 0x41 ==> *self == *old(self),
                    val >= 0x41 ==> forall|j: int|
                        0 <= j < lo ==> #[trigger] dma_buffer@[j] == old(self).game.cart_byte(
                            ((val as u16) << 8u16) | (j as u16),
                        ),
                decreases 256 - lo,
            {
                let a = ((val as u16) << 8u16) | lo;
                proof {
                    assert(val >= 0x41 ==> ((val as u16) << 8u16) | lo >= 0x4100) by (bit_vector)
                        requires
                            lo < 256,
                    ;
                }
                let ghost before = *self;
                let b = self.read(a);
                dma_buffer.push(b);
                proof {
                    buses = buses.push(*self);
                    assert(before.reads(((val as u16) << 8u16) | (lo as u16), dma_buffer@[lo as int], buses[lo + 1]));
                }
                lo = lo + 1;
            }
            let ghost last = *self;
            let ghost ppu0 = self.ppu;
            self.ppu.oam_dma(dma_buffer.as_slice());
            proof {
                assert(old(self).dma_reads(val, dma_buffer@, buses));
                if val >= 0x41 {
                    assert(self.ppu.oam_primary@ =~= Seq::new(
                        256,
                        |i: int| old(self).game.cart_byte(((val as u16) << 8u16) | (i as u16)),
                    ));
                }
            }
        } else if addr <= 0x401F {
            // NOTE: Controllers can be written to to enable strobe mode
        } else if self.game.can_write(addr) {
            // NOTE: Cartridges use absolute addresses
            self.game.prg_write(addr, val);
        }
    }

    fn cycles(&self) -> (r: usize)
        ensures
            r == self.cycles,
    {
        self.cycles
    }

    /// Count `cycles` CPU cycles and run the PPU three cycles for each; an NMI the PPU raised
    /// becomes pending.
    fn clock(&mut self, cycles: u8)
        ensures
            final(self).cycles == old(self).cycles.wrapping_add(cycles as usize),
            final(self).cpu_ram == old(self).cpu_ram,
            final(self).game == old(self).game,
            final(self).apu == old(self).apu,
            final(self).cpu_test_enabled == old(self).cpu_test_enabled,
            exists|p: PPU<R>|
                #![trigger old(self).ppu.clocked_to(3 * cycles, p)]
                old(self).ppu.clocked_to(3 * cycles, p) && final(self).ppu == (PPU {
                    flags: Flags { has_nmi: false, ..p.flags },
                    ..p
                }) && final(self).nmi == (if p.flags.has_nmi {
                    Some(1u8)
                } else {
                    old(self).nmi
                }),
            old(self).ppu.pos_cycles() < vblank_set_cycle() <= old(self).ppu.spec_total_cycles() + 3
                * cycles < frame_end_cycle() && old(self).ppu.registers.ctrl & 0x80 != 0
                ==> final(self).nmi == Some(1u8),
            final(self).nmi == old(self).nmi || final(self).nmi == Some(1u8),
            !old(self).ppu.flags.has_nmi && old(self).ppu.spec_total_cycles() + 3 * cycles
                < VBLANK_START ==> final(self).nmi == old(self).nmi,
    {
        self.cycles = self.cycles.wrapping_add(cycles as usize);
        self.ppu.clock(3 * cycles as usize);
        let ghost p = self.ppu;
        if self.ppu.generate_nmi() {
            self.nmi = Some(1);
        }
        assert(old(self).ppu.clocked_to(3 * cycles, p));
    }

    /// The PPU's scanline and cycle, counting the cycles it has still to run.
    fn ppu_state(&self) -> (r: (i16, i16))
        ensures
            r.0 == self.ppu.spec_total_cycles() / 341,
            r.1 == self.ppu.spec_total_cycles() % 341,
    {
        (self.ppu.scanline() as i16, self.ppu.cycle() as i16)
    }

    fn pop_nmi(&mut self) -> (r: Option<u8>)
        ensures
            r == old(self).nmi,
            final(self).nmi is None,
            *final(self) == (NesBus { nmi: None, ..*old(self) }),
    {
        let nmi = self.nmi;
        self.nmi = None;
        nmi
    }
}

/// Byte `i` of a RAM page reads through the RAM's mirroring at the page's offset plus `i`.
proof fn lemma_ram_page_addr(val: u8, i: u16)
    requires
        val < 0x20,
        i < 256,
    ensures
        ((val as u16) << 8u16) | i <= 0x1FFF,
        (((val as u16) << 8u16) | i) & 0x7FF == (((val as u16) << 8u16) & 0x7FF) + i,
{
    assert(((val as u16) << 8u16) | i <= 0x1FFF && (((val as u16) << 8u16) | i) & 0x7FF == (((
        val as u16) << 8u16) & 0x7FF) + i) by (bit_vector)
        requires
            val < 0x20,
            i < 256,
    ;
}

/// Stack slot `sp` is RAM byte `$100 + sp`.
proof fn lemma_stack_slot(sp: u8)
    ensures
        stack_addr(sp) == 0x100 + sp,
        stack_addr(sp) & 0x7FF == stack_addr(sp),
{
    let t: u16 = (0x100 + sp) as u16;
    assert(0x100 <= t < 0x200 ==> t & 0x7FF == t) by (bit_vector);
}

/// A word is its high byte and its low byte put back together.
proof fn lemma_word_bytes(v: u16)
    ensures
        word((0xFF & v) as u8, (v >> 8u16) as u8) == v,
{
    assert((((((v >> 8u16) as u8) as u16) << 8u16) | ((((0xFFu16 & v) as u8) as u16))) == v)
        by (bit_vector);
}

/// RTS returns past the JSR that called it. JSR at `pc`, with the stack pointer at `sp`,
/// pushed `pc + 2`, taking the bus from `b0` to `b1`; whatever ran since, while the two stack
/// bytes it wrote still hold what it wrote, the RTS that runs on bus `b` with the stack
/// pointer at `sp - 2` pulls `pc + 2`, so it continues at `pc + 3` and leaves the stack
/// pointer at `sp` again.
pub proof fn lemma_rts_after_jsr<R: Renderer>(
    sp: u8,
    pc: u16,
    b0: NesBus<R>,
    b1: NesBus<R>,
    b: NesBus<R>,
    w: u16,
    b2: NesBus<R>,
)
    requires
        b0.inv(),
        pushes_word(b0, sp, pc.wrapping_add(2), b1),
        b.ram_byte(stack_addr(sp)) == b1.ram_byte(stack_addr(sp)),
        b.ram_byte(stack_addr(sp.wrapping_sub(1))) == b1.ram_byte(stack_addr(sp.wrapping_sub(1))),
        pops_word(b, sp.wrapping_sub(2), w, b2),
    ensures
        w == pc.wrapping_add(2),
        w.wrapping_add(1) == pc.wrapping_add(3),
        sp.wrapping_sub(2).wrapping_add(2) == sp,
{
    let v = pc.wrapping_add(2);
    let hi = (v >> 8u16) as u8;
    let lo = (0xFF & v) as u8;
    let mid = choose|mid: NesBus<R>|
        b0.writes(stack_addr(sp), hi, mid) && mid.writes(stack_addr(sp.wrapping_sub(1)), lo, b1);
    let s2 = sp.wrapping_sub(2);
    let (m, lo2, hi2) = choose|m: NesBus<R>, lo2: u8, hi2: u8|
        b.reads(stack_addr(s2.wrapping_add(1)), lo2, m) && m.reads(
            stack_addr(s2.wrapping_add(1).wrapping_add(1)),
            hi2,
            b2,
        ) && w == word(lo2, hi2);
    lemma_stack_slot(sp);
    lemma_stack_slot(sp.wrapping_sub(1));
    assert(s2.wrapping_add(1) == sp.wrapping_sub(1));
    assert(s2.wrapping_add(1).wrapping_add(1) == sp);
    assert(lo2 == lo);
    assert(m == b);
    assert(hi2 == hi);
    lemma_word_bytes(v);
}

/// RTI returns from an NMI. The NMI entry from `before` (the bus going from `i.bus` to `b1`)
/// pushed the interrupted PC and status; whatever ran since, while the three stack bytes it
/// wrote still hold what it wrote, the RTI that runs on bus `b` with the stack pointer three
/// below `before.sp` pulls that status and PC, and leaves the stack pointer at `before.sp`.
pub proof fn lemma_rti_after_nmi<R: Renderer>(
    i: Interpreter<NesBus<R>>,
    before: CpuState,
    pc: u16,
    b1: NesBus<R>,
    b: NesBus<R>,
    p: u8,
    m: NesBus<R>,
    w: u16,
    b2: NesBus<R>,
)
    requires
        i.bus.inv(),
        i.nmi_entered(before, pc, b1),
        b.ram_byte(stack_addr(before.sp)) == b1.ram_byte(stack_addr(before.sp)),
        b.ram_byte(stack_addr(before.sp.wrapping_sub(1))) == b1.ram_byte(
            stack_addr(before.sp.wrapping_sub(1)),
        ),
        b.ram_byte(stack_addr(before.sp.wrapping_sub(2))) == b1.ram_byte(
            stack_addr(before.sp.wrapping_sub(2)),
        ),
        b.reads(stack_addr(before.sp.wrapping_sub(3).wrapping_add(1)), p, m),
        pops_word(m, before.sp.wrapping_sub(3).wrapping_add(1), w, b2),
    ensures
        p == before.status.bits,
        w == before.pc,
        before.sp.wrapping_sub(3).wrapping_add(3) == before.sp,
{
    let sp = before.sp;
    let (b0, bp, b3) = choose|b0: NesBus<R>, bp: NesBus<R>, b3: NesBus<R>|
        i.bus.nmi_popped(b0) && pushes_word(b0, sp, before.pc, bp) && bp.writes(
            stack_addr(sp.wrapping_sub(2)),
            before.status.bits,
            b3,
        ) && reads_word(b3, NMI_VECTOR_START, pc, b1);
    let hi = (before.pc >> 8u16) as u8;
    let lo = (0xFF & before.pc) as u8;
    let mid = choose|mid: NesBus<R>|
        b0.writes(stack_addr(sp), hi, mid) && mid.writes(stack_addr(sp.wrapping_sub(1)), lo, bp);
    assert((0xFFFAu16 & 0xFF00u16) | (0xFFFBu16 & 0xFFu16) == 0xFFFBu16) by (bit_vector);
    assert(page_next(NMI_VECTOR_START) == 0xFFFB);
    assert(b1 == b3);
    lemma_stack_slot(sp);
    lemma_stack_slot(sp.wrapping_sub(1));
    lemma_stack_slot(sp.wrapping_sub(2));
    let s3 = sp.wrapping_sub(3);
    assert(s3.wrapping_add(1) == sp.wrapping_sub(2));
    assert(s3.wrapping_add(1).wrapping_add(1) == sp.wrapping_sub(1));
    assert(s3.wrapping_add(1).wrapping_add(1).wrapping_add(1) == sp);
    assert(p == before.status.bits);
    assert(m == b);
    let (m2, lo2, hi2) = choose|m2: NesBus<R>, lo2: u8, hi2: u8|
        m.reads(stack_addr(s3.wrapping_add(1).wrapping_add(1)), lo2, m2) && m2.reads(
            stack_addr(s3.wrapping_add(1).wrapping_add(1).wrapping_add(1)),
            hi2,
            b2,
        ) && w == word(lo2, hi2);
    assert(lo2 == lo);
    assert(hi2 == hi);
    lemma_word_bytes(before.pc);
}

/// The 2 KiB of CPU RAM repeat every $800 bytes up to $1FFF.
pub proof fn lemma_cpu_ram_mirrors<R: Renderer>(bus: NesBus<R>, addr: u16)
    requires
        addr <= 0x17FF,
    ensures
        bus.ram_byte(addr) == bus.ram_byte((addr + 0x800) as u16),
{
    assert(addr <= 0x17FF ==> addr & 0x7FF == ((addr + 0x800) as u16) & 0x7FF) by (bit_vector);
}

} // verus!
