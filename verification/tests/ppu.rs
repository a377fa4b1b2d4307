use venus::cartridge::header::Mirroring;
use venus::ppu::{mirror, tile_lohi_to_idx};

#[test]
fn nametable_mirroring() {
    assert_eq!(mirror(&Mirroring::Vertical, 0x0000), 0x0000);
    assert_eq!(mirror(&Mirroring::Vertical, 0x1400), 0x1400);
    assert_eq!(mirror(&Mirroring::Vertical, 0x3038), 0x3038);
    assert_eq!(mirror(&Mirroring::Vertical, 0x7438), 0x7438);
    assert_eq!(mirror(&Mirroring::Vertical, 0xF801), 0xF001);

    assert_eq!(mirror(&Mirroring::Horizontal, 0x0000), 0x0000);
    assert_eq!(mirror(&Mirroring::Horizontal, 0x0400), 0x0000);
    assert_eq!(mirror(&Mirroring::Horizontal, 0x0038), 0x0038);
    assert_eq!(mirror(&Mirroring::Horizontal, 0x0438), 0x0038);
    assert_eq!(mirror(&Mirroring::Horizontal, 0x0838), 0x0838);
    assert_eq!(mirror(&Mirroring::Horizontal, 0x0C38), 0x0838);
}

#[test]
fn lohi_to_index() {
    assert_eq!(tile_lohi_to_idx(0b11001100_u8, 0b11001100_u8), [3, 3, 0, 0, 3, 3, 0, 0]);
    assert_eq!(tile_lohi_to_idx(0b10001000_u8, 0b11001100_u8), [3, 2, 0, 0, 3, 2, 0, 0]);
}
