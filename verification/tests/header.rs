use venus::cartridge::header::{Header, Mirroring};
use venus::cartridge::mapper::{create_mapper, CartridgeMapper};

const HEADER_RAW: [u8; 16] = [
    0x4e, 0x45, 0x53, 0x1a, 0x10, 0x12, 0x11, 0x00, 0x13, 0x00, 0x00, 0x00, 0x00, 0x00, 0x00,
    0x00,
];

#[test]
fn header_header() {
    let header = Header::from(&HEADER_RAW);
    assert_eq!(header.mirroring, Mirroring::Vertical);
    assert_eq!(header.prg_rom_size, 0x10);
    assert_eq!(header.chr_ram_size, 0x12);
    assert_eq!(header.prg_ram_size, 0x13);
    assert_eq!(header.get_mapper_num(), 0x1);
}


#[test]
fn boards_build_from_small_images() {
    // NROM without PRG ROM: 8 KiB of CHR data.
    let raw: [u8; 16] = [0x4e, 0x45, 0x53, 0x1a, 0x00, 0x01, 0x00, 0x00, 0, 0, 0, 0, 0, 0, 0, 0];
    let header = Header::from(&raw);
    let data = vec![7u8; 0x2000];
    match create_mapper(&header, &data) {
        CartridgeMapper::Nrom(m) => {
            assert_eq!(m.prg_rom.data.len(), 0);
            assert_eq!(m.chr_ram.data.len(), 0x2000);
            assert_eq!(m.chr_ram.data[0], 7);
        }
        CartridgeMapper::Mmc1(_) => panic!("expected NROM"),
    }
    // MMC1 with a single 16 KiB bank.
    let raw: [u8; 16] = [0x4e, 0x45, 0x53, 0x1a, 0x01, 0x00, 0x10, 0x00, 0, 0, 0, 0, 0, 0, 0, 0];
    let header = Header::from(&raw);
    let mut data = vec![0u8; 0x4000 + 16];
    data[0] = 0xA9;
    match create_mapper(&header, &data) {
        CartridgeMapper::Mmc1(m) => {
            assert_eq!(m.prg_rom.data.len(), 0x4000);
            assert_eq!(m.prg_rom.data[0], 0xA9);
        }
        CartridgeMapper::Nrom(_) => panic!("expected MMC1"),
    }
}
