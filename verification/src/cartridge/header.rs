//! The 16-byte iNES header at the start of a ROM image.
use vstd::prelude::*;
use vstd::std_specs::convert::FromSpecImpl;

verus! {

/// How the two physical nametables are arranged in the four logical ones.
#[derive(Clone, Copy, Debug, PartialEq, Eq, Structural)]
pub enum Mirroring {
    Horizontal,
    Vertical,
}

#[derive(Clone, Copy, Debug, PartialEq, Eq, Structural)]
pub enum ROMFormat {
    INES,
    NES20,
}

#[derive(Clone, Copy, Debug, PartialEq, Eq, Structural)]
pub struct Header {
    // Byte 6
    pub prg_rom_size: u8,
    pub chr_ram_size: u8,
    pub ignore_mirror_ctrl: bool,
    pub has_trainer: bool,
    pub has_persistent_mem: bool,
    pub mirroring: Mirroring,
    // Byte 7
    pub mapper_num: u8,
    pub format: ROMFormat,
    pub prg_ram_size: u8,
}

/// The header that the 16 bytes `h` describe (https://wiki.nesdev.com/w/index.php/INES):
/// byte 4 is the PRG ROM size in 16 KiB units, byte 5 the CHR size in 8 KiB units, bytes 6 and 7
/// hold the flags and the two nibbles of the mapper number, byte 8 the PRG RAM size in 8 KiB
/// units, where 0 means 1.
pub open spec fn parse_header(h: Seq<u8>) -> Header {
    let flags_6 = h[6];
    let flags_7 = h[7];
    Header {
        prg_rom_size: h[4],
        chr_ram_size: h[5],
        ignore_mirror_ctrl: (0x8 & flags_6) != 0,
        has_trainer: (0x4 & flags_6) != 0,
        has_persistent_mem: (0x2 & flags_6) != 0,
        mirroring: if (0x1 & flags_6) != 0 {
            Mirroring::Vertical
        } else {
            Mirroring::Horizontal
        },
        mapper_num: (flags_7 & 0xF0) | (flags_6 >> 4),
        format: if (flags_7 >> 2) & 0x3 == 2 {
            ROMFormat::NES20
        } else {
            ROMFormat::INES
        },
        prg_ram_size: if h[8] > 1 {
            h[8]
        } else {
            1
        },
    }
}

/// PRG ROM comes in 16 KB banks.
pub const PRG_ROM_UNIT: u16 = 0x4000;

/// CHR and PRG RAM come in 8 KB banks.
pub const RAM_UNIT: u16 = 0x2000;

impl Header {
    /// The sizes fit the 16-bit sizes the memories use.
    pub open spec fn sizes_fit(self) -> bool {
        self.prg_rom_size < 4 && self.chr_ram_size < 8 && self.prg_ram_size < 8
    }

    pub open spec fn prg_rom_bytes(self) -> int {
        self.prg_rom_size * 16 * 1024
    }

    pub open spec fn chr_bytes(self) -> int {
        self.chr_ram_size * 8 * 1024
    }

    pub open spec fn prg_ram_bytes(self) -> int {
        if self.prg_ram_size > 1 {
            self.prg_ram_size * 8 * 1024
        } else {
            8int * 1024
        }
    }

    /// PRG ROM size in bytes.
    pub fn get_prg_rom_size(&self) -> (r: u16)
        requires
            self.prg_rom_size < 4,
        ensures
            r == self.prg_rom_bytes(),
    {
        self.prg_rom_size as u16 * PRG_ROM_UNIT
    }

    /// CHR size in bytes.
    pub fn get_chr_ram_size(&self) -> (r: u16)
        requires
            self.chr_ram_size < 8,
        ensures
            r == self.chr_bytes(),
    {
        self.chr_ram_size as u16 * RAM_UNIT
    }

    /// PRG RAM size in bytes, at least 8 KiB.
    pub fn get_prg_ram_size(&self) -> (r: u16)
        requires
            self.prg_ram_size < 8,
        ensures
            r == self.prg_ram_bytes(),
    {
        let size = self.prg_ram_size as u16 * RAM_UNIT;
        if size > RAM_UNIT {
            size
        } else {
            RAM_UNIT
        }
    }

    pub fn get_mapper_num(&self) -> (r: u8)
        ensures
            r == self.mapper_num,
    {
        self.mapper_num
    }

    pub fn get_mirroring(&self) -> (r: &Mirroring)
        ensures
            *r == self.mirroring,
    {
        &self.mirroring
    }
}

impl From<&[u8; 16]> for Header {
    fn from(header: &[u8; 16]) -> (r: Header) {
        let prg_rom_size = header[4];
        let chr_ram_size = header[5];
        let flags_6 = header[6];
        let ignore_mirror_ctrl = (0x8 & flags_6) != 0;
        let has_trainer = (0x4 & flags_6) != 0;
        let has_persistent_mem = (0x2 & flags_6) != 0;
        let mirroring = if (0x1 & flags_6) != 0 {
            Mirroring::Vertical
        } else {
            Mirroring::Horizontal
        };
        let flags_7 = header[7];
        let mapper_num = (flags_7 & 0xF0) | (flags_6 >> 4);
        let format = if (flags_7 >> 2) & 0x3 == 2 {
            ROMFormat::NES20
        } else {
            ROMFormat::INES
        };
        let prg_ram_size = if header[8] > 1 {
            header[8]
        } else {
            1
        };
        Header {
            prg_rom_size,
            chr_ram_size,
            ignore_mirror_ctrl,
            has_trainer,
            has_persistent_mem,
            mirroring,
            mapper_num,
            format,
            prg_ram_size,
        }
    }
}

impl FromSpecImpl<&[u8; 16]> for Header {
    open spec fn obeys_from_spec() -> bool {
        true
    }

    open spec fn from_spec(v: &[u8; 16]) -> Header {
        parse_header(v@)
    }
}

impl Default for Header {
    /// Two 16 KiB PRG ROM banks, CHR RAM, one 8 KiB PRG RAM bank, mapper 0.
    fn default() -> (r: Header)
        ensures
            r == (Header {
                prg_rom_size: 2,
                chr_ram_size: 0,
                ignore_mirror_ctrl: true,
                has_trainer: false,
                has_persistent_mem: false,
                mirroring: Mirroring::Vertical,
                mapper_num: 0,
                format: ROMFormat::NES20,
                prg_ram_size: 1,
            }),
    {
        Header {
            prg_rom_size: 2,
            chr_ram_size: 0,
            ignore_mirror_ctrl: true,
            has_trainer: false,
            has_persistent_mem: false,
            mirroring: Mirroring::Vertical,
            mapper_num: 0,
            format: ROMFormat::NES20,
            prg_ram_size: 1,
        }
    }
}

proof fn lemma_mapper_number_nibbles_bits(f6: u8, f7: u8, m: u8)
    by (bit_vector)
    requires
        m == (f7 & 0xF0) | (f6 >> 4u8),
    ensures
        m & 0xF == f6 >> 4u8,
        m >> 4u8 == f7 >> 4u8,
{
}

/// The mapper number of an iNES header takes its low nibble from the high nibble of byte 6
/// and its high nibble from the high nibble of byte 7.
pub proof fn lemma_mapper_number_nibbles(h: Seq<u8>)
    requires
        h.len() >= 8,
    ensures
        parse_header(h).mapper_num & 0xF == h[6] >> 4u8,
        parse_header(h).mapper_num >> 4u8 == h[7] >> 4u8,
{
    lemma_mapper_number_nibbles_bits(h[6], h[7], parse_header(h).mapper_num);
}

} // verus!
