//! MMC1 boards, without bank switching: PRG ROM at $8000, PRG RAM at $6000, CHR RAM.
use super::Mapper;
use crate::cartridge::header::Header;
use crate::memory::{RAM, ROM};
use vstd::prelude::*;

verus! {

#[derive(Clone)]
pub struct Mapper1 {
    pub prg_rom: ROM,  // for CPU
    pub prg_ram: RAM,  // for CPU
    pub chr_ram: RAM,  // for PPU, "most emulators support ram"
}

impl Mapper1 {
    pub const ROM_START: u16 = 0x8000;

    /// The board for the header over the PRG ROM image at the start of `data`; CHR is RAM and
    /// starts zeroed.
    pub fn new(header: &Header, data: &[u8]) -> (r: Self)
        requires
            header.sizes_fit(),
            data@.len() >= header.prg_rom_bytes(),
        ensures
            header.prg_rom_size >= 2 ==> r.wf(),
            r.prg_rom.data@ == data@.subrange(0, header.prg_rom_bytes()),
            r.chr_ram.data@ == Seq::new(header.chr_bytes() as nat, |i: int| 0u8),
            r.prg_ram.data@.len() == header.prg_ram_bytes(),
    {
        Mapper1 {
            chr_ram: RAM::with_size(header.get_chr_ram_size()),
            prg_ram: RAM::with_size(header.get_prg_ram_size()),
            prg_rom: ROM::with_data_and_size(data, header.get_prg_rom_size()),
        }
    }
}

impl Mapper for Mapper1 {
    open spec fn wf(&self) -> bool {
        &&& 0x8000 <= self.prg_rom.data@.len() <= 0xFFFF
        &&& 0x2000 <= self.prg_ram.data@.len() <= 0xFFFF
        &&& self.chr_ram.data@.len() <= 0xFFFF
    }

    /// PRG RAM at $6000-$7FFF, and the PRG ROM from $8000 as far as it reaches.
    open spec fn prg_readable(&self, addr: u16) -> bool {
        0x6000 <= addr && (addr >= 0x8000 ==> addr - 0x8000 < self.prg_rom.data@.len())
    }

    open spec fn prg_writable(&self, addr: u16) -> bool {
        0x6000 <= addr <= 0x7FFF
    }

    open spec fn prg_byte(&self, addr: u16) -> u8 {
        if addr <= 0x7FFF {
            self.prg_ram.data@[addr - 0x6000]
        } else {
            self.prg_rom.data@[addr - 0x8000]
        }
    }

    open spec fn same_cell(&self, a: u16, b: u16) -> bool {
        a == b
    }

    open spec fn chr_data(&self) -> Seq<u8> {
        self.chr_ram.data@
    }

    /// What the CPU reads at $C000-$FFF0.
    open spec fn dpcm_data(&self) -> Seq<u8> {
        self.prg_rom.data@.subrange(0x4000, 0x4000 + 0xFFF1 - 0xC000)
    }

    fn number(&self) -> (r: u8)
        ensures
            r == 1,
    {
        1
    }

    fn prg_read(&self, addr: u16) -> (r: u8) {
        if addr <= 0x7FFF {
            self.prg_ram.read(addr - 0x6000)
        } else {
            self.prg_rom.read(addr - 0x8000)
        }
    }

    fn prg_write(&mut self, addr: u16, val: u8) {
        self.prg_ram.write(addr - 0x6000, val);
    }

    fn chr(&self) -> (r: ROM) {
        ROM::with_data(self.chr_ram.data.as_slice())
    }

    fn dpcm(&self) -> (r: ROM) {
        ROM::with_data(&self.prg_rom.data.as_slice()[0x4000..0x4000 + (0xFFF1 - 0xC000)])
    }
}

} // verus!
