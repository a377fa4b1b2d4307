//! Cartridges: the iNES image, its header and its board.
pub mod header;
pub mod mapper;

use crate::memory::ROM;
use header::{parse_header, Header};
use mapper::{create_mapper, header_buildable, CartridgeMapper, Mapper};
use vstd::prelude::*;

verus! {

/// What the rest of the console sees of a cartridge.
pub trait CartridgeInterface {
    spec fn cart_wf(&self) -> bool;

    spec fn cart_prg_readable(&self, addr: u16) -> bool;

    spec fn cart_prg_writable(&self, addr: u16) -> bool;

    fn get_name(&self) -> String;

    fn prg_read(&self, addr: u16) -> u8
        requires
            self.cart_wf(),
            self.cart_prg_readable(addr),
    ;

    fn prg_write(&mut self, addr: u16, val: u8)
        requires
            old(self).cart_wf(),
            old(self).cart_prg_writable(addr),
        ensures
            final(self).cart_wf(),
    ;

    fn header(&self) -> Header;

    fn dpcm(&self) -> ROM
        requires
            self.cart_wf(),
    ;

    fn chr(&self) -> ROM
        requires
            self.cart_wf(),
    ;
}

pub struct Cartridge {
    pub name: String,
    pub header: Header,
    // This may not need to be a box - we can instantiate a new type for each mapper fine
    pub mapper: CartridgeMapper,
}

impl Cartridge {
    pub open spec fn wf(self) -> bool {
        self.mapper.wf()
    }

    /// Whether the board answers a CPU read at `addr`.
    pub fn can_read(&self, addr: u16) -> (r: bool)
        ensures
            r == self.cart_prg_readable(addr),
    {
        match &self.mapper {
            CartridgeMapper::Nrom(_) => 0x6000 <= addr,
            CartridgeMapper::Mmc1(m) => 0x6000 <= addr && (addr < 0x8000 || ((addr - 0x8000) as usize)
                < m.prg_rom.data.len()),
        }
    }

    /// A CPU write of `val` at `addr` leaves the cartridge as `next`: the same name, header
    /// and pattern data; the same readable addresses; every address that reaches the written
    /// byte reads `val`, and every other reads what it read before.
    pub open spec fn prg_written(self, addr: u16, val: u8, next: Cartridge) -> bool {
        &&& next.name == self.name
        &&& next.header == self.header
        &&& next.mapper.chr_data() == self.mapper.chr_data()
        &&& forall|a: u16|
            #![trigger next.mapper.prg_readable(a)]
            next.mapper.prg_readable(a) == self.mapper.prg_readable(a)
        &&& forall|a: u16|
            #![trigger next.mapper.prg_byte(a)]
            self.mapper.prg_readable(a) ==> next.mapper.prg_byte(a) == (if self.mapper.same_cell(
                a,
                addr,
            ) {
                val
            } else {
                self.mapper.prg_byte(a)
            })
    }

    /// The byte a CPU read at `addr` gets from the cartridge: 0 where the board maps none.
    pub open spec fn cart_byte(self, addr: u16) -> u8 {
        if self.mapper.prg_readable(addr) {
            self.mapper.prg_byte(addr)
        } else {
            0
        }
    }

    /// Whether the board takes a CPU write at `addr`.
    pub fn can_write(&self, addr: u16) -> (r: bool)
        ensures
            r == self.cart_prg_writable(addr),
    {
        addr <= 0xC000 && match &self.mapper {
            CartridgeMapper::Nrom(_) => 0x6000 <= addr && addr <= 0xBFFF,
            CartridgeMapper::Mmc1(_) => 0x6000 <= addr && addr <= 0x7FFF,
        }
    }
}

impl CartridgeInterface for Cartridge {
    open spec fn cart_wf(&self) -> bool {
        self.mapper.wf()
    }

    open spec fn cart_prg_readable(&self, addr: u16) -> bool {
        self.mapper.prg_readable(addr)
    }

    /// Writes stop at $C000: the DPCM samples the APU copied are taken to stay put.
    open spec fn cart_prg_writable(&self, addr: u16) -> bool {
        addr <= 0xC000 && self.mapper.prg_writable(addr)
    }

    fn get_name(&self) -> (r: String)
        ensures
            r@ == self.name@,
    {
        self.name.clone()
    }

    fn prg_read(&self, addr: u16) -> (r: u8)
        ensures
            r == self.mapper.prg_byte(addr),
    {
        self.mapper.prg_read(addr)
    }

    fn prg_write(&mut self, addr: u16, val: u8)
        ensures
            old(self).prg_written(addr, val, *final(self)),
    {
        self.mapper.prg_write(addr, val);
    }

    fn header(&self) -> (r: Header)
        ensures
            r == self.header,
    {
        self.header
    }

    fn dpcm(&self) -> (r: ROM)
        ensures
            r.data@ == self.mapper.dpcm_data(),
            r.data@.len() == 0xFFF1 - 0xC000,
    {
        self.mapper.dpcm()
    }

    fn chr(&self) -> (r: ROM)
        ensures
            r.data@ == self.mapper.chr_data(),
    {
        self.mapper.chr()
    }
}

/// Why an image could not be read as a cartridge.
#[derive(Clone, Copy, Debug, PartialEq, Eq, Structural)]
pub enum CartridgeError {
    /// The image ends before the header, or before the PRG ROM and CHR data the header
    /// announces.
    UnexpectedEof,
}

/// The image holds at least its header.
pub open spec fn has_header(image: Seq<u8>) -> bool {
    image.len() >= 16
}

/// What the image's header announces, ROM and CHR data.
pub open spec fn image_data_len(image: Seq<u8>) -> int {
    parse_header(image.subrange(0, 16)).prg_rom_bytes() + parse_header(
        image.subrange(0, 16),
    ).chr_bytes()
}

/// The first 16 bytes of the image.
fn header_bytes(image: &[u8]) -> (raw: [u8; 16])
    requires
        has_header(image@),
    ensures
        raw@ == image@.subrange(0, 16),
{
    let mut raw: [u8; 16] = [0; 16];
    let mut i: usize = 0;
    while i < 16
        invariant
            i <= 16,
            image@.len() >= 16,
            forall|j: int| 0 <= j < i ==> raw@[j] == image@[j],
        decreases 16 - i,
    {
        raw[i] = image[i];
        i = i + 1;
    }
    assert(raw@ =~= image@.subrange(0, 16));
    raw
}

/// Whether the image's header, if it has one, names a board with sizes this emulator builds:
/// what `load_cartridge_image` asks of the image.
pub fn image_supported(image: &[u8]) -> (r: bool)
    ensures
        r == (has_header(image@) ==> header_buildable(parse_header(image@.subrange(0, 16)))),
{
    if image.len() < 16 {
        return true;
    }
    let header = Header::from(&header_bytes(image));
    let num = header.get_mapper_num();
    header.prg_rom_size < 4 && header.chr_ram_size < 8 && header.prg_ram_size < 8 && (num == 0
        || num == 1) && header.prg_rom_size >= 1 && (num != 1 || header.prg_rom_size >= 2)
}

/// Read a cartridge from the bytes of an iNES file named `filename`: the 16-byte header, then
/// the PRG ROM and the CHR data it announces. Bytes past those are ignored.
pub fn load_cartridge_image(filename: &str, image: &[u8]) -> (r: Result<Cartridge, CartridgeError>)
    requires
        has_header(image@) ==> header_buildable(parse_header(image@.subrange(0, 16))),
    ensures
        r is Err <==> (!has_header(image@) || image@.len() < 16 + image_data_len(image@)),
        r is Err ==> r == Err::<Cartridge, CartridgeError>(CartridgeError::UnexpectedEof),
        r is Ok ==> ({
            let cart = r->Ok_0;
            &&& cart.wf()
            &&& cart.name@ == filename@
            &&& cart.header == parse_header(image@.subrange(0, 16))
            &&& cart.header.mapper_num == 0 ==> cart.mapper is Nrom
            &&& cart.header.mapper_num == 1 ==> cart.mapper is Mmc1
            &&& forall|i: int|
                0 <= i < cart.header.prg_rom_bytes() && i < 0x8000 ==> #[trigger] cart.mapper.prg_byte(
                    (0x8000 + i) as u16,
                ) == image@[16 + i]
        }),
{
    if image.len() < 16 {
        return Err(CartridgeError::UnexpectedEof);
    }
    let header = Header::from(&header_bytes(image));
    let data_size = header.get_prg_rom_size() as usize + header.get_chr_ram_size() as usize;
    if image.len() - 16 < data_size {
        return Err(CartridgeError::UnexpectedEof);
    }
    let data = &image[16..16 + data_size];
    let mapper = create_mapper(&header, data);
    Ok(Cartridge { header, name: filename.to_owned(), mapper })
}

} // verus!
