//! NROM: PRG ROM at $8000 (a 16 KiB image mirrored at $C000), PRG RAM at $6000, CHR fixed.
use super::Mapper;
use crate::cartridge::header::Header;
use crate::memory::{RAM, ROM};
use vstd::prelude::*;

verus! {

pub struct Mapper0 {
    // for CPU
    pub prg_rom: ROM,
    pub prg_ram: RAM,
    // for PPU, "most emulators support ram"
    pub chr_ram: RAM,
}

impl Mapper0 {
    /// A board with no memory at all; it cannot serve a read.
    pub fn empty() -> (r: Self)
        ensures
            r.prg_rom.data@.len() == 0,
            r.prg_ram.data@.len() == 0,
            r.chr_ram.data@.len() == 0,
    {
        Mapper0 { prg_rom: ROM::with_size(0), prg_ram: RAM::with_size(0), chr_ram: RAM::with_size(0) }
    }

    /// The board for the header, with the PRG ROM image and the CHR data that follow each other
    /// in `data`.
    pub fn new(header: &Header, data: &[u8]) -> (r: Self)
        requires
            header.sizes_fit(),
            data@.len() >= header.prg_rom_bytes() + header.chr_bytes(),
        ensures
            header.prg_rom_size >= 1 ==> r.wf(),
            r.prg_rom.data@ == data@.subrange(0, header.prg_rom_bytes()),
            r.chr_ram.data@ == data@.subrange(
                header.prg_rom_bytes() as int,
                header.prg_rom_bytes() + header.chr_bytes(),
            ),
            r.prg_ram.data@.len() == header.prg_ram_bytes(),
    {
        let (prg, rest) = data.split_at(header.get_prg_rom_size() as usize);
        let (chr, _) = rest.split_at(header.get_chr_ram_size() as usize);
        let r = Mapper0 {
            prg_rom: ROM::with_data_and_size(prg, header.get_prg_rom_size()),
            prg_ram: RAM::with_size(header.get_prg_ram_size()),
            chr_ram: RAM::with_data_and_size(chr, header.get_chr_ram_size()),
        };
        assert(r.chr_ram.data@ =~= data@.subrange(
            header.prg_rom_bytes() as int,
            header.prg_rom_bytes() + header.chr_bytes(),
        ));
        r
    }

    fn map_range(&self, base: usize, len: usize) -> (r: &[u8])
        requires
            self.wf(),
            base <= 0xFFFF,
            len > 0,
            0x6000 <= base,
            0x6000 <= base <= 0x7FFF ==> base - 0x6000 + len < self.prg_ram.data@.len(),
            0x8000 <= base ==> ((base - 0x8000) as usize & 0x3FFF) + len < self.prg_rom.data@.len(),
        ensures
            0x6000 <= base <= 0x7FFF ==> r@ == self.prg_ram.data@.subrange(
                base - 0x6000,
                base - 0x6000 + len,
            ),
            0x8000 <= base ==> r@ == self.prg_rom.data@.subrange(
                ((base - 0x8000) as usize & 0x3FFF) as int,
                ((base - 0x8000) as usize & 0x3FFF) + len,
            ),
    {
        if base <= 0x7FFF {
            let offset = base - 0x6000;
            &self.prg_ram.data.as_slice()[offset..(offset + len)]
        } else {
            let offset = (base - 0x8000) & 0x3FFF;
            &self.prg_rom.data.as_slice()[offset..(offset + len)]
        }
    }
}

impl Mapper for Mapper0 {
    open spec fn wf(&self) -> bool {
        &&& 0x3FF1 < self.prg_rom.data@.len() <= 0xFFFF
        &&& 0x2000 <= self.prg_ram.data@.len() <= 0xFFFF
        &&& self.chr_ram.data@.len() <= 0xFFFF
    }

    open spec fn prg_readable(&self, addr: u16) -> bool {
        0x6000 <= addr
    }

    open spec fn prg_writable(&self, addr: u16) -> bool {
        0x6000 <= addr <= 0xBFFF
    }

    open spec fn prg_byte(&self, addr: u16) -> u8 {
        if addr <= 0x7FFF {
            self.prg_ram.data@[addr - 0x6000]
        } else {
            self.prg_rom.data@[(addr - 0x8000) % (self.prg_rom.data@.len() as int)]
        }
    }

    open spec fn same_cell(&self, a: u16, b: u16) -> bool {
        ||| a == b
        ||| (0x8000 <= a && 0x8000 <= b && (a - 0x8000) % (self.prg_rom.data@.len() as int) == (b
            - 0x8000) % (self.prg_rom.data@.len() as int))
    }

    open spec fn chr_data(&self) -> Seq<u8> {
        self.chr_ram.data@
    }

    /// The first 0x3FF1 bytes of the PRG ROM: the $C000 area folded into the first bank.
    open spec fn dpcm_data(&self) -> Seq<u8> {
        self.prg_rom.data@.subrange(0, 0xFFF1 - 0xC000)
    }

    fn number(&self) -> (r: u8)
        ensures
            r == 0,
    {
        0
    }

    fn prg_read(&self, addr: u16) -> (r: u8) {
        let addr = addr as usize;
        if addr <= 0x7FFF {
            self.prg_ram.data[addr - 0x6000]
        } else {
            self.prg_rom.data[(addr - 0x8000) % self.prg_rom.data.len()]
        }
    }

    fn prg_write(&mut self, addr: u16, val: u8) {
        let addr = addr as usize;
        let rom_size = self.prg_rom.data.len();
        if addr <= 0x7FFF {
            self.prg_ram.write((addr - 0x6000) as u16, val);
        } else {
            self.prg_rom.patch((addr - 0x8000) % rom_size, val);
        }
    }

    fn chr(&self) -> (r: ROM) {
        ROM::with_data(self.chr_ram.data.as_slice())
    }

    fn dpcm(&self) -> (r: ROM) {
        assert(0x4000usize & 0x3FFFusize == 0usize) by (bit_vector);
        ROM::with_data(self.map_range(0xC000, 0xFFF1 - 0xC000))
    }
}

} // verus!
