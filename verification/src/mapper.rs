//! The boards of the first cartridge design: the mapper controls reads and writes of the
//! cartridge's memories at `usize` addresses. A cartridge should have a mapper and memory, then
//! the memory should only be accessed using the mapper.
use crate::memory::Memory;
use vstd::prelude::*;
use vstd::std_specs::convert::FromSpecImpl;

verus! {

pub trait Mapper {
    /// The board's memories have the sizes it relies on.
    spec fn wf(&self) -> bool;

    /// The CPU may read at `addr`.
    spec fn prg_readable(&self, addr: usize) -> bool;

    /// The CPU may write at `addr`.
    spec fn prg_writable(&self, addr: usize) -> bool;

    /// The PPU may access pattern memory at `addr`.
    spec fn chr_accessible(&self, addr: usize) -> bool;

    fn get_num(&self) -> u8;

    // PRG
    fn prg_read(&self, addr: usize) -> u8
        requires
            self.wf(),
            self.prg_readable(addr),
    ;

    fn prg_write(&mut self, addr: usize, val: u8)
        requires
            old(self).wf(),
            old(self).prg_writable(addr),
        ensures
            final(self).wf(),
    ;

    fn prg_size(&self) -> usize
        requires
            self.wf(),
    ;

    // CHR
    fn chr_read(&self, addr: usize) -> u8
        requires
            self.chr_accessible(addr),
    ;

    fn chr_write(&mut self, addr: usize, val: u8)
        requires
            old(self).wf(),
            old(self).chr_accessible(addr),
        ensures
            final(self).wf(),
    ;

    fn chr_size(&self) -> usize;
}

#[derive(Clone, Copy, Debug, PartialEq, Eq, Structural)]
pub enum Mirroring {
    Horizontal,
    Vertical,
}

#[derive(Clone, Copy, Debug, PartialEq, Eq, Structural)]
pub enum ROMFormat {
    INES,
    NES20,
}

#[derive(Clone, Copy, Debug, PartialEq, Eq, Structural)]
pub struct Header {
    // Byte 6
    pub prg_rom_size: u8,
    pub chr_ram_size: u8,
    pub ignore_mirror_ctrl: bool,
    pub has_trainer: bool,
    pub has_persistent_mem: bool,
    pub mirroring: Mirroring,
    // Byte 7
    pub mapper_num: u8,
    pub format: ROMFormat,
    pub prg_ram_size: u8,
}

/// The header that the 16 bytes `h` describe (https://wiki.nesdev.com/w/index.php/INES):
/// 0-3: "NES" and $1A; 4: PRG ROM size in 16 KB units; 5: CHR ROM size in 8 KB units (0 means
/// CHR RAM); 6 and 7: flags and the two nibbles of the mapper number; 8: PRG RAM size in 8 KB
/// units, where 0 means 1.
pub open spec fn header_from_bytes(h: Seq<u8>) -> Header {
    let flags_6 = h[6];
    let flags_7 = h[7];
    Header {
        prg_rom_size: h[4],
        chr_ram_size: h[5],
        ignore_mirror_ctrl: 0x8 & flags_6 != 0,
        has_trainer: 0x4 & flags_6 != 0,
        has_persistent_mem: 0x2 & flags_6 != 0,
        mirroring: if 0x1 & flags_6 != 0 {
            Mirroring::Vertical
        } else {
            Mirroring::Horizontal
        },
        mapper_num: (flags_7 & 0xF0) | (flags_6 >> 4u8),
        format: if (flags_7 >> 2u8) & 0x3 == 2 {
            ROMFormat::NES20
        } else {
            ROMFormat::INES
        },
        prg_ram_size: if h[8] > 1 {
            h[8]
        } else {
            1
        },
    }
}

impl Header {
    pub fn get_prg_rom_size(&self) -> (r: usize)
        ensures
            r == self.prg_rom_size * 16384,
    {
        self.prg_rom_size as usize * 16384
    }

    pub fn get_chr_ram_size(&self) -> (r: usize)
        ensures
            r == self.chr_ram_size * 8192,
    {
        self.chr_ram_size as usize * 8192
    }

    /// At least one 8 KB bank.
    pub fn get_prg_ram_size(&self) -> (r: usize)
        ensures
            r == (if self.prg_ram_size == 0 {
                8192
            } else {
                self.prg_ram_size * 8192
            }),
    {
        let size = self.prg_ram_size as usize * 8192;
        if size > 8192 {
            size
        } else {
            8192
        }
    }

    pub fn get_mapper_num(&self) -> (r: u8)
        ensures
            r == self.mapper_num,
    {
        self.mapper_num
    }
}

impl From<&[u8; 16]> for Header {
    fn from(header: &[u8; 16]) -> (r: Header) {
        let prg_rom_size = header[4];
        let chr_ram_size = header[5];
        let flags_6 = header[6];
        let ignore_mirror_ctrl = (0x8 & flags_6) != 0;
        let has_trainer = (0x4 & flags_6) != 0;
        let has_persistent_mem = (0x2 & flags_6) != 0;
        let mirroring = if (0x1 & flags_6) != 0 {
            Mirroring::Vertical
        } else {
            Mirroring::Horizontal
        };
        let flags_7 = header[7];
        let mapper_num = (flags_7 & 0xF0) | (flags_6 >> 4u8);
        let format = if (flags_7 >> 2u8) & 0x3 == 2 {
            ROMFormat::NES20
        } else {
            ROMFormat::INES
        };
        let prg_ram_size = if header[8] > 1 {
            header[8]
        } else {
            1
        };
        Header {
            prg_rom_size,
            chr_ram_size,
            ignore_mirror_ctrl,
            has_trainer,
            has_persistent_mem,
            mirroring,
            mapper_num,
            format,
            prg_ram_size,
        }
    }
}

impl FromSpecImpl<&[u8; 16]> for Header {
    open spec fn obeys_from_spec() -> bool {
        true
    }

    open spec fn from_spec(v: &[u8; 16]) -> Header {
        header_from_bytes(v@)
    }
}

impl Default for Header {
    /// Two 16 KB PRG ROM banks, CHR RAM, one PRG RAM bank, mapper 0, vertical mirroring.
    fn default() -> (r: Header)
        ensures
            r == (Header {
                prg_rom_size: 2,
                chr_ram_size: 0,
                ignore_mirror_ctrl: true,
                has_trainer: false,
                has_persistent_mem: false,
                mirroring: Mirroring::Vertical,
                mapper_num: 0,
                format: ROMFormat::NES20,
                prg_ram_size: 1,
            }),
    {
        Header {
            prg_rom_size: 2,
            chr_ram_size: 0,
            ignore_mirror_ctrl: true,
            has_trainer: false,
            has_persistent_mem: false,
            mirroring: Mirroring::Vertical,
            mapper_num: 0,
            format: ROMFormat::NES20,
            prg_ram_size: 1,
        }
    }
}

/// NROM: PRG ROM from $8000, PRG RAM at $6000.
pub struct Mapper0 {
    pub prg_rom: Memory<true>,
    pub prg_ram: Memory<false>,
    pub chr_ram: Memory<false>,
}

/// MMC1, with the memories of NROM and no bank switching yet.
pub struct Mapper1 {
    pub prg_rom: Memory<true>,
    pub prg_ram: Memory<false>,
    pub chr_ram: Memory<false>,
}

impl Mapper0 {
    pub const ROM_START: u16 = 0x8000;

    /// The board for `header` over the PRG ROM image at the start of `data`; PRG RAM and
    /// CHR RAM start zeroed.
    pub fn new(header: &Header, data: &[u8]) -> (r: Self)
        requires
            data@.len() >= header.prg_rom_size * 16384,
        ensures
            r.prg_rom.data@ == data@.subrange(0, header.prg_rom_size * 16384),
            r.prg_ram.data@.len() == (if header.prg_ram_size == 0 {
                8192
            } else {
                header.prg_ram_size * 8192
            }),
            r.chr_ram.data@.len() == header.chr_ram_size * 8192,
    {
        Mapper0 {
            prg_rom: Memory::with_data_and_size(data, header.get_prg_rom_size()),
            prg_ram: Memory::with_size(header.get_prg_ram_size()),
            chr_ram: Memory::with_size(header.get_chr_ram_size()),
        }
    }
}

impl Mapper1 {
    pub const ROM_START: u16 = 0x8000;

    pub fn new(header: &Header, data: &[u8]) -> (r: Self)
        requires
            data@.len() >= header.prg_rom_size * 16384,
        ensures
            r.prg_rom.data@ == data@.subrange(0, header.prg_rom_size * 16384),
            r.prg_ram.data@.len() == (if header.prg_ram_size == 0 {
                8192
            } else {
                header.prg_ram_size * 8192
            }),
            r.chr_ram.data@.len() == header.chr_ram_size * 8192,
    {
        Mapper1 {
            chr_ram: Memory::with_size(header.get_chr_ram_size()),
            prg_ram: Memory::with_size(header.get_prg_ram_size()),
            prg_rom: Memory::with_data_and_size(data, header.get_prg_rom_size()),
        }
    }
}

impl Mapper for Mapper1 {
    open spec fn wf(&self) -> bool {
        self.prg_rom.data@.len() + self.prg_ram.data@.len() <= usize::MAX
    }

    open spec fn prg_readable(&self, addr: usize) -> bool {
        ||| 0x6000 <= addr <= 0x7FFF && addr - 0x6000 < self.prg_ram.data@.len()
        ||| 0x8000 <= addr <= 0xFFFF && addr - 0x8000 < self.prg_rom.data@.len()
    }

    open spec fn prg_writable(&self, addr: usize) -> bool {
        0x6000 <= addr <= 0x7FFF && addr - 0x6000 < self.prg_ram.data@.len()
    }

    open spec fn chr_accessible(&self, addr: usize) -> bool {
        addr < self.chr_ram.data@.len()
    }

    fn get_num(&self) -> (r: u8)
        ensures
            r == 1,
    {
        1
    }

    // PRG
    fn prg_read(&self, addr: usize) -> (r: u8)
        ensures
            0x6000 <= addr <= 0x7FFF ==> r == self.prg_ram.data@[addr - 0x6000],
            0x8000 <= addr ==> r == self.prg_rom.data@[addr - 0x8000],
    {
        if addr <= 0x7FFF {
            self.prg_ram.read(addr - 0x6000)
        } else {
            self.prg_rom.read(addr - 0x8000)
        }
    }

    /// Writes reach the PRG RAM.
    fn prg_write(&mut self, addr: usize, val: u8)
        ensures
            final(self).prg_ram.data@ == old(self).prg_ram.data@.update(addr - 0x6000, val),
            final(self).prg_rom == old(self).prg_rom,
            final(self).chr_ram == old(self).chr_ram,
    {
        self.prg_ram.write(addr - 0x6000, val);
    }

    fn prg_size(&self) -> (r: usize)
        ensures
            r == self.prg_rom.data@.len() + self.prg_ram.data@.len(),
    {
        self.prg_rom.len() + self.prg_ram.len()
    }

    // CHR
    fn chr_read(&self, addr: usize) -> (r: u8)
        ensures
            r == self.chr_ram.data@[addr as int],
    {
        self.chr_ram.read(addr)
    }

    fn chr_write(&mut self, addr: usize, val: u8)
        ensures
            final(self).chr_ram.data@ == old(self).chr_ram.data@.update(addr as int, val),
            final(self).prg_rom == old(self).prg_rom,
            final(self).prg_ram == old(self).prg_ram,
    {
        self.chr_ram.write(addr, val)
    }

    fn chr_size(&self) -> (r: usize)
        ensures
            r == self.chr_ram.data@.len(),
    {
        self.chr_ram.len()
    }
}

impl Mapper for Mapper0 {
    open spec fn wf(&self) -> bool {
        self.prg_rom.data@.len() + self.prg_ram.data@.len() <= usize::MAX
    }

    open spec fn prg_readable(&self, addr: usize) -> bool {
        ||| 0x6000 <= addr <= 0x7FFF && addr - 0x6000 < self.prg_ram.data@.len()
        ||| 0x8000 <= addr <= 0xFFFF && addr - 0x8000 < self.prg_rom.data@.len()
    }

    /// A write reaches the PRG RAM's range but, as this board has always done, reads the byte
    /// there instead of storing it.
    open spec fn prg_writable(&self, addr: usize) -> bool {
        0x6000 <= addr <= 0x7FFF && addr - 0x6000 < self.prg_ram.data@.len()
    }

    open spec fn chr_accessible(&self, addr: usize) -> bool {
        addr < self.chr_ram.data@.len()
    }

    fn get_num(&self) -> (r: u8)
        ensures
            r == 0,
    {
        0
    }

    // PRG
    fn prg_read(&self, addr: usize) -> (r: u8)
        ensures
            0x6000 <= addr <= 0x7FFF ==> r == self.prg_ram.data@[addr - 0x6000],
            0x8000 <= addr ==> r == self.prg_rom.data@[addr - 0x8000],
    {
        if addr <= 0x7FFF {
            self.prg_ram.read(addr - 0x6000)
        } else {
            self.prg_rom.read(addr - 0x8000)
        }
    }

    fn prg_write(&mut self, addr: usize, val: u8)
        ensures
            final(self).prg_ram == old(self).prg_ram,
            final(self).prg_rom == old(self).prg_rom,
            final(self).chr_ram == old(self).chr_ram,
    {
        let _ = self.prg_ram.read(addr - 0x6000);
    }

    fn prg_size(&self) -> (r: usize)
        ensures
            r == self.prg_rom.data@.len() + self.prg_ram.data@.len(),
    {
        self.prg_rom.len() + self.prg_ram.len()
    }

    // CHR
    fn chr_read(&self, addr: usize) -> (r: u8)
        ensures
            r == self.chr_ram.data@[addr as int],
    {
        self.chr_ram.read(addr)
    }

    fn chr_write(&mut self, addr: usize, val: u8)
        ensures
            final(self).chr_ram.data@ == old(self).chr_ram.data@.update(addr as int, val),
            final(self).prg_rom == old(self).prg_rom,
            final(self).prg_ram == old(self).prg_ram,
    {
        self.chr_ram.write(addr, val)
    }

    fn chr_size(&self) -> (r: usize)
        ensures
            r == self.chr_ram.data@.len(),
    {
        self.chr_ram.len()
    }
}

/// The boards of this design.
pub enum Board {
    Nrom(Mapper0),
    Mmc1(Mapper1),
}

impl Board {
    pub open spec fn spec_num(&self) -> u8 {
        match self {
            Board::Nrom(_) => 0,
            Board::Mmc1(_) => 1,
        }
    }

    pub fn get_num(&self) -> (r: u8)
        ensures
            r == self.spec_num(),
    {
        match self {
            Board::Nrom(m) => m.get_num(),
            Board::Mmc1(m) => m.get_num(),
        }
    }

    pub open spec fn prg_rom(&self) -> Seq<u8> {
        match self {
            Board::Nrom(m) => m.prg_rom.data@,
            Board::Mmc1(m) => m.prg_rom.data@,
        }
    }

    pub open spec fn prg_ram(&self) -> Seq<u8> {
        match self {
            Board::Nrom(m) => m.prg_ram.data@,
            Board::Mmc1(m) => m.prg_ram.data@,
        }
    }

    pub open spec fn chr_ram(&self) -> Seq<u8> {
        match self {
            Board::Nrom(m) => m.chr_ram.data@,
            Board::Mmc1(m) => m.chr_ram.data@,
        }
    }

    pub open spec fn wf(&self) -> bool {
        match self {
            Board::Nrom(m) => m.wf(),
            Board::Mmc1(m) => m.wf(),
        }
    }

    pub open spec fn prg_readable(&self, addr: usize) -> bool {
        match self {
            Board::Nrom(m) => m.prg_readable(addr),
            Board::Mmc1(m) => m.prg_readable(addr),
        }
    }

    pub open spec fn prg_writable(&self, addr: usize) -> bool {
        match self {
            Board::Nrom(m) => m.prg_writable(addr),
            Board::Mmc1(m) => m.prg_writable(addr),
        }
    }

    /// The byte the CPU reads at `addr`: PRG ROM from $8000, PRG RAM from $6000.
    pub fn prg_read(&self, addr: usize) -> (r: u8)
        requires
            self.wf(),
            self.prg_readable(addr),
        ensures
            0x8000 <= addr ==> r == self.prg_rom()[addr - 0x8000],
    {
        match self {
            Board::Nrom(m) => m.prg_read(addr),
            Board::Mmc1(m) => m.prg_read(addr),
        }
    }

    pub fn prg_write(&mut self, addr: usize, val: u8)
        requires
            old(self).wf(),
            old(self).prg_writable(addr),
        ensures
            final(self).wf(),
            final(self).spec_num() == old(self).spec_num(),
            final(self).prg_rom() == old(self).prg_rom(),
            *old(self) is Nrom ==> *final(self) == *old(self),
            *old(self) is Mmc1 ==> final(self).prg_ram() == old(self).prg_ram().update(
                addr - 0x6000,
                val,
            ) && final(self).chr_ram() == old(self).chr_ram(),
    {
        match self {
            Board::Nrom(m) => m.prg_write(addr, val),
            Board::Mmc1(m) => m.prg_write(addr, val),
        }
    }
}

/// A cartridge of this design: the file it came from and its board.
pub struct CartridgeImpl {
    pub name: String,
    pub mapper: Board,
}

impl CartridgeImpl {
    /// The cartridge named `name` whose file holds `header` and then the PRG ROM image `data`.
    pub fn new(name: &str, header: &Header, data: &[u8]) -> (r: CartridgeImpl)
        requires
            header.mapper_num == 0 || header.mapper_num == 1,
            data@.len() >= header.prg_rom_size * 16384,
        ensures
            r.name@ == name@,
            r.mapper.spec_num() == header.mapper_num,
            r.mapper.prg_rom() == data@.subrange(0, header.prg_rom_size * 16384),
            r.mapper.wf(),
    {
        CartridgeImpl { name: name.to_string(), mapper: create_mapper(header, data) }
    }

    pub fn get_name(&self) -> (r: String)
        ensures
            r@ == self.name@,
    {
        self.name.clone()
    }

    pub fn prg_read(&self, addr: usize) -> (r: u8)
        requires
            self.mapper.wf(),
            self.mapper.prg_readable(addr),
        ensures
            0x8000 <= addr ==> r == self.mapper.prg_rom()[addr - 0x8000],
    {
        self.mapper.prg_read(addr)
    }

    pub fn prg_write(&mut self, addr: usize, val: u8)
        requires
            old(self).mapper.wf(),
            old(self).mapper.prg_writable(addr),
        ensures
            final(self).mapper.wf(),
            final(self).name == old(self).name,
            final(self).mapper.prg_rom() == old(self).mapper.prg_rom(),
    {
        self.mapper.prg_write(addr, val);
    }
}

/// The board the header's mapper number names (0 or 1), over the PRG ROM image in `data`.
pub fn create_mapper(header: &Header, data: &[u8]) -> (r: Board)
    requires
        header.mapper_num == 0 || header.mapper_num == 1,
        data@.len() >= header.prg_rom_size * 16384,
    ensures
        r.spec_num() == header.mapper_num,
        r.prg_rom() == data@.subrange(0, header.prg_rom_size * 16384),
        r.wf(),
{
    if header.get_mapper_num() == 0 {
        Board::Nrom(Mapper0::new(header, data))
    } else {
        Board::Mmc1(Mapper1::new(header, data))
    }
}

proof fn lemma_header_mapper_number_nibbles_bits(f6: u8, f7: u8, m: u8)
    by (bit_vector)
    requires
        m == (f7 & 0xF0) | (f6 >> 4u8),
    ensures
        m & 0xF == f6 >> 4u8,
        m >> 4u8 == f7 >> 4u8,
{
}

/// The mapper number of an iNES header takes its low nibble from the high nibble of byte 6
/// and its high nibble from the high nibble of byte 7.
pub proof fn lemma_header_mapper_number_nibbles(h: Seq<u8>)
    requires
        h.len() >= 8,
    ensures
        header_from_bytes(h).mapper_num & 0xF == h[6] >> 4u8,
        header_from_bytes(h).mapper_num >> 4u8 == h[7] >> 4u8,
{
    lemma_header_mapper_number_nibbles_bits(h[6], h[7], header_from_bytes(h).mapper_num);
}

} // verus!
