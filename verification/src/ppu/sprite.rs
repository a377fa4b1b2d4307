//! Sprites as the OAM holds them: four bytes each (Y, tile, attributes, X).
use vstd::prelude::*;

verus! {

#[derive(Clone, Copy, PartialEq, Eq, Structural)]
pub enum Priority {
    Foreground,
    Background,
}

pub type SpriteRaw = [u8; 4];

#[derive(Clone, Copy)]
pub struct Sprite {
    pub bytes: SpriteRaw,
}

impl Default for Sprite {
    /// Reading from an uninitialized secondary OAM gives 0xFF.
    fn default() -> (r: Sprite)
        ensures
            r.bytes@ == seq![0xFFu8, 0xFF, 0xFF, 0xFF],
    {
        let bytes: SpriteRaw = [0xFF, 0xFF, 0xFF, 0xFF];
        Sprite::from_bytes(&bytes)
    }
}

impl Sprite {
    pub const BYTES_PER: usize = 4;

    /// The sprite that the four OAM bytes describe.
    pub fn from_bytes(bytes: &SpriteRaw) -> (r: Sprite)
        ensures
            r == (Sprite { bytes: *bytes }),
    {
        Sprite { bytes: *bytes }
    }
    pub const PIX_HEIGHT: u8 = 8;

    pub open spec fn spec_y(self) -> int {
        self.bytes@[0] as int
    }

    pub open spec fn spec_x(self) -> int {
        self.bytes@[3] as int
    }

    /// A sprite slot that holds something other than the 0xFF filler.
    pub fn is_valid(&self) -> (r: bool)
        ensures
            r == !(self.bytes@ =~= seq![0xFFu8, 0xFF, 0xFF, 0xFF]),
    {
        !(self.bytes[0] == 0xFF && self.bytes[1] == 0xFF && self.bytes[2] == 0xFF && self.bytes[3]
            == 0xFF)
    }

    pub fn x(&self) -> (r: i16)
        ensures
            r == self.spec_x(),
    {
        self.bytes[3] as i16
    }

    pub fn y(&self) -> (r: i16)
        ensures
            r == self.spec_y(),
    {
        self.bytes[0] as i16
    }

    /// The pattern table (bit 0 of the tile byte) and the top tile of an 8x16 sprite.
    pub fn tile16(&self) -> (r: (u16, u16))
        ensures
            r.0 == (if self.bytes@[1] & 0x1 != 0 {
                0x1000u16
            } else {
                0u16
            }),
            r.1 == (self.bytes@[1] & 0xFE) as u16,
    {
        let bank: u16 = if self.bytes[1] & 0x1 != 0 {
            0x1000
        } else {
            0x0000
        };
        (bank, (self.bytes[1] & 0xFE) as u16)
    }

    pub fn tile8(&self) -> (r: u16)
        ensures
            r == self.bytes@[1] as u16,
    {
        self.bytes[1] as u16
    }

    /// The sprite's palette (attribute bits 0-1).
    pub fn color_d3_d2(&self) -> (r: u8)
        ensures
            r == self.bytes@[2] & 0x3,
            r < 4,
    {
        let a = self.bytes[2];
        assert(a & 0x3 < 4) by (bit_vector);
        a & 0x3
    }

    pub fn vert_flip(&self) -> (r: bool)
        ensures
            r == (self.bytes@[2] & 0x80 != 0),
    {
        self.bytes[2] & 0x80 != 0
    }

    pub fn horiz_flip(&self) -> (r: bool)
        ensures
            r == (self.bytes@[2] & 0x40 != 0),
    {
        self.bytes[2] & 0x40 != 0
    }

    /// A sprite in front of the background (attribute bit 5 clear).
    pub fn is_visible(&self) -> (r: bool)
        ensures
            r == (self.bytes@[2] & 0x20 == 0),
    {
        let priority = if self.bytes[2] & 0x20 != 0 {
            Priority::Background
        } else {
            Priority::Foreground
        };
        priority == Priority::Foreground
    }
}

} // verus!
