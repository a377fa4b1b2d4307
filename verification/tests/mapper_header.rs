use venus::mapper::{CartridgeImpl, Header, Mirroring};

const HEADER_RAW: [u8; 16] = [
    0x4e, 0x45, 0x53, 0x1a, 0x10, 0x12, 0x11, 0x00, 0x13, 0x00, 0x00, 0x00, 0x00, 0x00, 0x00,
    0x00,
];

#[test]
fn mapper_header() {
    let header = Header::from(&HEADER_RAW);
    assert_eq!(header.mirroring, Mirroring::Vertical);
    assert_eq!(header.prg_rom_size, 0x10);
    assert_eq!(header.chr_ram_size, 0x12);
    assert_eq!(header.prg_ram_size, 0x13);
    assert_eq!(header.get_mapper_num(), 0x1);
}

#[test]
fn legacy_cartridge_reads_prg() {
    let header = Header::default();
    let mut data = vec![0u8; header.get_prg_rom_size()];
    data[0] = 0xA9;
    data[0x7FFC] = 0x00;
    data[0x7FFD] = 0x80;
    let mut cart = CartridgeImpl::new("game.nes", &header, &data);
    assert_eq!(cart.get_name(), "game.nes");
    assert_eq!(cart.prg_read(0x8000), 0xA9);
    assert_eq!(cart.prg_read(0xFFFD), 0x80);
    assert_eq!(cart.prg_read(0x6000), 0);
    cart.prg_write(0x6000, 7);
    assert_eq!(cart.mapper.get_num(), 0);
}
