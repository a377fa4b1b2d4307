//! CNROM boards: a PRG ROM image and CHR ROM. The PRG side has no readable or writable address
//! yet.
use crate::cartridge::header::Header;
use crate::memory::{RAM, ROM};
use vstd::prelude::*;

verus! {

#[derive(Clone)]
pub struct Mapper3 {
    pub prg_rom: ROM,  // for CPU
    pub chr_ram: RAM,  // for PPU, "most emulators support ram"
}

impl Mapper3 {
    pub const ROM_START: u16 = 0x8000;

    /// The board over the PRG ROM image and the CHR data that follow each other in `data`.
    pub fn new(header: &Header, data: &[u8]) -> (r: Self)
        requires
            header.sizes_fit(),
            data@.len() == header.prg_rom_bytes() + header.chr_bytes(),
        ensures
            r.prg_rom.data@ == data@.subrange(0, header.prg_rom_bytes()),
            r.chr_ram.data@ == data@.subrange(header.prg_rom_bytes(), data@.len() as int),
    {
        let (prg, chr) = data.split_at(header.get_prg_rom_size() as usize);
        Mapper3 {
            chr_ram: RAM::with_data_and_size(chr, header.get_chr_ram_size()),
            prg_rom: ROM::with_data_and_size(prg, header.get_prg_rom_size()),
        }
    }

    pub fn get_num(&self) -> (r: u8)
        ensures
            r == 3,
    {
        3
    }
}

} // verus!
