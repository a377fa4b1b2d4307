//! The mapper of a cartridge decides what the CPU sees at each address of the cartridge space
//! ($4020-$FFFF) and where the PPU's pattern tables come from.
pub mod mapper0;
pub mod mapper1;
pub mod mapper3;

use super::header::Header;
use crate::memory::ROM;
pub use mapper0::Mapper0;
pub use mapper1::Mapper1;
pub use mapper3::Mapper3;
use vstd::arithmetic::div_mod::lemma_small_mod;
use vstd::prelude::*;

verus! {

/// A cartridge board.
pub trait Mapper {
    /// The board's memories are consistent with one another.
    spec fn wf(&self) -> bool;

    /// The CPU may read at `addr`.
    spec fn prg_readable(&self, addr: u16) -> bool;

    /// The CPU may write at `addr`.
    spec fn prg_writable(&self, addr: u16) -> bool;

    /// The byte a CPU read at `addr` gives.
    spec fn prg_byte(&self, addr: u16) -> u8;

    /// Whether the two addresses reach the same byte of the board.
    spec fn same_cell(&self, a: u16, b: u16) -> bool;

    /// The pattern table data the board gives the PPU.
    spec fn chr_data(&self) -> Seq<u8>;

    /// The bytes the board gives the APU as its DPCM sample area.
    spec fn dpcm_data(&self) -> Seq<u8>;

    fn number(&self) -> u8;

    fn prg_read(&self, addr: u16) -> (r: u8)
        requires
            self.wf(),
            self.prg_readable(addr),
        ensures
            r == self.prg_byte(addr),
    ;

    /// Write `val` at `addr`: afterwards every address that reaches the same byte reads `val`
    /// and every other address reads what it read before.
    fn prg_write(&mut self, addr: u16, val: u8)
        requires
            old(self).wf(),
            old(self).prg_writable(addr),
        ensures
            final(self).wf(),
            final(self).chr_data() == old(self).chr_data(),
            forall|a: u16|
                #![trigger final(self).prg_readable(a)]
                final(self).prg_readable(a) == old(self).prg_readable(a),
            forall|a: u16|
                #![trigger final(self).prg_writable(a)]
                final(self).prg_writable(a) == old(self).prg_writable(a),
            forall|a: u16|
                #![trigger final(self).prg_byte(a)]
                old(self).prg_readable(a) ==> final(self).prg_byte(a) == (if old(self).same_cell(
                    a,
                    addr,
                ) {
                    val
                } else {
                    old(self).prg_byte(a)
                }),
    ;

    /// A copy of the pattern table data.
    fn chr(&self) -> (r: ROM)
        requires
            self.wf(),
        ensures
            r.data@ == self.chr_data(),
    ;

    /// A copy of the DPCM sample area, 0x3FF1 bytes.
    fn dpcm(&self) -> (r: ROM)
        requires
            self.wf(),
        ensures
            r.data@ == self.dpcm_data(),
            r.data@.len() == 0xFFF1 - 0xC000,
    ;
}

/// The boards this emulator implements.
pub enum CartridgeMapper {
    Nrom(Mapper0),
    Mmc1(Mapper1),
}

/// Whether a board exists for the mapper number.
pub open spec fn mapper_supported(num: u8) -> bool {
    num == 0 || num == 1
}

/// What the header must say for its board to be built: a supported mapper, PRG ROM of 16 to
/// 48 KiB (32 or 48 KiB for MMC1), and sizes that fit 16 bits.
pub open spec fn header_buildable(header: Header) -> bool {
    &&& header.sizes_fit()
    &&& mapper_supported(header.mapper_num)
    &&& header.prg_rom_size >= 1
    &&& header.mapper_num == 1 ==> header.prg_rom_size >= 2
}

/// Build the board the header names over the PRG ROM and CHR data in `data`. The board is
/// well formed, so that it can serve the console, when the header is buildable.
pub fn create_mapper(header: &Header, data: &[u8]) -> (r: CartridgeMapper)
    requires
        header.sizes_fit(),
        mapper_supported(header.mapper_num),
        header.mapper_num == 0 ==> data@.len() >= header.prg_rom_bytes() + header.chr_bytes(),
        header.mapper_num == 1 ==> data@.len() >= header.prg_rom_bytes(),
    ensures
        header_buildable(*header) ==> r.wf(),
        header.mapper_num == 0 ==> r is Nrom,
        header.mapper_num == 1 ==> r is Mmc1,
        forall|i: int|
            0 <= i < header.prg_rom_bytes() && i < 0x8000 ==> #[trigger] r.prg_byte((0x8000 + i) as u16)
                == data@[i],
{
    let r = if header.get_mapper_num() == 0 {
        CartridgeMapper::Nrom(Mapper0::new(header, data))
    } else {
        CartridgeMapper::Mmc1(Mapper1::new(header, data))
    };
    assert forall|i: int| 0 <= i < header.prg_rom_bytes() && i < 0x8000 implies #[trigger] r.prg_byte(
        (0x8000 + i) as u16,
    ) == data@[i] by {
        let a = (0x8000 + i) as u16;
        assert(a as int == 0x8000 + i);
        lemma_small_mod(i as nat, header.prg_rom_bytes() as nat);
        match r {
            CartridgeMapper::Nrom(m) => {
                assert(m.prg_rom.data@.len() == header.prg_rom_bytes());
                assert(m.prg_byte(a) == m.prg_rom.data@[i]);
            },
            CartridgeMapper::Mmc1(m) => {
                assert(m.prg_byte(a) == m.prg_rom.data@[i]);
            },
        }
    }
    r
}

impl Mapper for CartridgeMapper {
    open spec fn wf(&self) -> bool {
        match self {
            CartridgeMapper::Nrom(m) => m.wf(),
            CartridgeMapper::Mmc1(m) => m.wf(),
        }
    }

    open spec fn prg_readable(&self, addr: u16) -> bool {
        match self {
            CartridgeMapper::Nrom(m) => m.prg_readable(addr),
            CartridgeMapper::Mmc1(m) => m.prg_readable(addr),
        }
    }

    open spec fn prg_writable(&self, addr: u16) -> bool {
        match self {
            CartridgeMapper::Nrom(m) => m.prg_writable(addr),
            CartridgeMapper::Mmc1(m) => m.prg_writable(addr),
        }
    }

    open spec fn prg_byte(&self, addr: u16) -> u8 {
        match self {
            CartridgeMapper::Nrom(m) => m.prg_byte(addr),
            CartridgeMapper::Mmc1(m) => m.prg_byte(addr),
        }
    }

    open spec fn same_cell(&self, a: u16, b: u16) -> bool {
        match self {
            CartridgeMapper::Nrom(m) => m.same_cell(a, b),
            CartridgeMapper::Mmc1(m) => m.same_cell(a, b),
        }
    }

    open spec fn chr_data(&self) -> Seq<u8> {
        match self {
            CartridgeMapper::Nrom(m) => m.chr_data(),
            CartridgeMapper::Mmc1(m) => m.chr_data(),
        }
    }

    open spec fn dpcm_data(&self) -> Seq<u8> {
        match self {
            CartridgeMapper::Nrom(m) => m.dpcm_data(),
            CartridgeMapper::Mmc1(m) => m.dpcm_data(),
        }
    }

    /// The iNES mapper number of the board: 0 for NROM, 1 for MMC1.
    fn number(&self) -> (r: u8)
        ensures
            *self is Nrom ==> r == 0,
            *self is Mmc1 ==> r == 1,
    {
        match self {
            CartridgeMapper::Nrom(m) => m.number(),
            CartridgeMapper::Mmc1(m) => m.number(),
        }
    }

    fn prg_read(&self, addr: u16) -> (r: u8) {
        match self {
            CartridgeMapper::Nrom(m) => m.prg_read(addr),
            CartridgeMapper::Mmc1(m) => m.prg_read(addr),
        }
    }

    fn prg_write(&mut self, addr: u16, val: u8) {
        match self {
            CartridgeMapper::Nrom(m) => m.prg_write(addr, val),
            CartridgeMapper::Mmc1(m) => m.prg_write(addr, val),
        }
    }

    fn chr(&self) -> (r: ROM) {
        match self {
            CartridgeMapper::Nrom(m) => m.chr(),
            CartridgeMapper::Mmc1(m) => m.chr(),
        }
    }

    fn dpcm(&self) -> (r: ROM) {
        match self {
            CartridgeMapper::Nrom(m) => m.dpcm(),
            CartridgeMapper::Mmc1(m) => m.dpcm(),
        }
    }
}

} // verus!
