//! The picture processing unit: registers, VRAM, palettes, sprites, and the scanline state
//! machine that fetches tiles and draws the frame.
pub mod registers;
pub mod sprite;

use crate::cartridge::header::{Header, Mirroring};
use crate::cartridge::mapper::Mapper;
use crate::cartridge::{Cartridge, CartridgeInterface};
use crate::graphics::Renderer;
use crate::memory::{RAM, ROM};
use crate::{NES_FRAME_HEIGHT_PX, NES_FRAME_WIDTH_PX};
use registers::{PpuCtrl, PpuMask, PpuStatus, Registers};
use sprite::{Sprite, SpriteRaw};
use vstd::prelude::*;

verus! {

pub const SCANLINES_PER_FRAME: i32 = 262;
pub const LAST_SCANLINE: i32 = 260;
pub const VISIBLE_SCANLINES: i32 = 240;
pub const CYCLES_PER_SCANLINE: i32 = 341;
pub const VISIBLE_CYCLES: i32 = 258;
pub const CYCLES_PER_TILE: i32 = 8;
pub const TILE_HI_OFFSET_BYTES: u16 = 8;
pub const TILE_STRIDE_SHIFT: u16 = 4;
pub const PX_SIZE_BYTES: usize = 4;
pub const TILE_WIDTH_PX: usize = 8;
pub const TILE_HEIGHT_PX: usize = 8;
pub const FRAME_WIDTH_TILES: usize = 32;
pub const FRAME_HEIGHT_TILES: usize = 30;
pub const FRAME_SIZE: usize = 61440;
pub const FRAME_SIZE_BYTES: usize = 245760;
pub const PPU_VRAM_SIZE: usize = 0x2000;
pub const MAX_SPRITES: usize = 8;
pub const NUM_SPRITES: usize = 64;

/// The RGB colour of each of the 64 NES palette entries.
pub open spec fn palette_color(index: u8) -> u32 {
    match index {
        0 => 0x7C7C7Cu32,
        1 => 0x0000FC,
        2 => 0x0000BC,
        3 => 0x4428BC,
        4 => 0x940084,
        5 => 0xA80020,
        6 => 0xA81000,
        7 => 0x881400,
        8 => 0x503000,
        9 => 0x007800,
        10 => 0x006800,
        11 => 0x005800,
        12 => 0x004058,
        13 => 0x000000,
        14 => 0x000000,
        15 => 0x000000,
        16 => 0xBCBCBC,
        17 => 0x0078F8,
        18 => 0x0058F8,
        19 => 0x6844FC,
        20 => 0xD800CC,
        21 => 0xE40058,
        22 => 0xF83800,
        23 => 0xE45C10,
        24 => 0xAC7C00,
        25 => 0x00B800,
        26 => 0x00A800,
        27 => 0x00A844,
        28 => 0x008888,
        29 => 0x000000,
        30 => 0x000000,
        31 => 0x000000,
        32 => 0xF8F8F8,
        33 => 0x3CBCFC,
        34 => 0x6888FC,
        35 => 0x9878F8,
        36 => 0xF878F8,
        37 => 0xF85898,
        38 => 0xF87858,
        39 => 0xFCA044,
        40 => 0xF8B800,
        41 => 0xB8F818,
        42 => 0x58D854,
        43 => 0x58F898,
        44 => 0x00E8D8,
        45 => 0x787878,
        46 => 0x000000,
        47 => 0x000000,
        48 => 0xFCFCFC,
        49 => 0xA4E4FC,
        50 => 0xB8B8F8,
        51 => 0xD8B8F8,
        52 => 0xF8B8F8,
        53 => 0xF8A4C0,
        54 => 0xF0D0B0,
        55 => 0xFCE0A8,
        56 => 0xF8D878,
        57 => 0xD8F878,
        58 => 0xB8F8B8,
        59 => 0xB8F8D8,
        60 => 0x00FCFC,
        61 => 0xF8D8F8,
        62 => 0x000000,
        _ => 0x000000,
    }
}

fn palette_color_exec(index: u8) -> (r: u32)
    ensures
        r == palette_color(index),
{
    match index {
        0 => 0x7C7C7Cu32,
        1 => 0x0000FC,
        2 => 0x0000BC,
        3 => 0x4428BC,
        4 => 0x940084,
        5 => 0xA80020,
        6 => 0xA81000,
        7 => 0x881400,
        8 => 0x503000,
        9 => 0x007800,
        10 => 0x006800,
        11 => 0x005800,
        12 => 0x004058,
        13 => 0x000000,
        14 => 0x000000,
        15 => 0x000000,
        16 => 0xBCBCBC,
        17 => 0x0078F8,
        18 => 0x0058F8,
        19 => 0x6844FC,
        20 => 0xD800CC,
        21 => 0xE40058,
        22 => 0xF83800,
        23 => 0xE45C10,
        24 => 0xAC7C00,
        25 => 0x00B800,
        26 => 0x00A800,
        27 => 0x00A844,
        28 => 0x008888,
        29 => 0x000000,
        30 => 0x000000,
        31 => 0x000000,
        32 => 0xF8F8F8,
        33 => 0x3CBCFC,
        34 => 0x6888FC,
        35 => 0x9878F8,
        36 => 0xF878F8,
        37 => 0xF85898,
        38 => 0xF87858,
        39 => 0xFCA044,
        40 => 0xF8B800,
        41 => 0xB8F818,
        42 => 0x58D854,
        43 => 0x58F898,
        44 => 0x00E8D8,
        45 => 0x787878,
        46 => 0x000000,
        47 => 0x000000,
        48 => 0xFCFCFC,
        49 => 0xA4E4FC,
        50 => 0xB8B8F8,
        51 => 0xD8B8F8,
        52 => 0xF8B8F8,
        53 => 0xF8A4C0,
        54 => 0xF0D0B0,
        55 => 0xFCE0A8,
        56 => 0xF8D878,
        57 => 0xD8F878,
        58 => 0xB8F8B8,
        59 => 0xB8F8D8,
        60 => 0x00FCFC,
        61 => 0xF8D8F8,
        62 => 0x000000,
        _ => 0x000000,
    }
}

#[derive(Clone, Copy)]
pub struct Flags {
    pub odd: bool,
    pub has_nmi: bool,
}

impl Default for Flags {
    fn default() -> (r: Flags)
        ensures
            !r.odd && !r.has_nmi,
    {
        Flags { odd: false, has_nmi: false }
    }
}

/// The two palette bits that a tile's attribute byte gives the 2x2-tile quadrant it lies in.
pub open spec fn bg_palette_bits(t: Tile) -> u8 {
    let qx = ((t.number % 32) % 4) / 2;
    let qy = ((t.number / 32) % 4) / 2;
    let ab = t.attribute_byte;
    if qx == 0 && qy == 0 {
        ab & 0x3
    } else if qx == 1 && qy == 0 {
        (ab >> 2u8) & 0x3
    } else if qx == 0 && qy == 1 {
        (ab >> 4u8) & 0x3
    } else {
        (ab >> 6u8) & 0x3
    }
}

/// A background tile on its way to the screen.
#[derive(Clone, Copy)]
pub struct Tile {
    pub number: usize,
    pub nametable_byte: u8,
    pub attribute_byte: u8,
    pub pattern_lo: u8,
    pub pattern_hi: u8,
}

impl Default for Tile {
    fn default() -> (r: Tile)
        ensures
            r.number == 0,
    {
        Tile { number: 0, nametable_byte: 0, attribute_byte: 0, pattern_lo: 0, pattern_hi: 0 }
    }
}

/// The sprites found for the next scanline: at most eight are kept.
pub struct OamSecondary {
    pub sprites: Vec<Sprite>,
    pub has_sprite_0: bool,
    pub len: usize,
}

impl OamSecondary {
    pub open spec fn wf(self) -> bool {
        self.sprites@.len() == MAX_SPRITES && self.len <= MAX_SPRITES
    }

    pub fn default() -> (r: OamSecondary)
        ensures
            r.wf(),
            r.len == 0,
            !r.has_sprite_0,
    {
        let mut sprites: Vec<Sprite> = Vec::new();
        let mut i: usize = 0;
        while i < MAX_SPRITES
            invariant
                i <= MAX_SPRITES,
                sprites@.len() == i,
            decreases MAX_SPRITES - i,
        {
            sprites.push(Sprite::default());
            i = i + 1;
        }
        OamSecondary { sprites, has_sprite_0: false, len: 0 }
    }

    pub fn len(&self) -> (r: usize)
        ensures
            r == self.len,
    {
        self.len
    }

    /// Put a candidate in the first free slot, without counting it yet.
    pub fn add_potential_sprite(&mut self, bytes: &SpriteRaw)
        requires
            old(self).wf(),
            old(self).len < MAX_SPRITES,
        ensures
            final(self).wf(),
            final(self).len == old(self).len,
            final(self).has_sprite_0 == old(self).has_sprite_0,
            final(self).sprites@ == old(self).sprites@.update(
                old(self).len as int,
                Sprite { bytes: *bytes },
            ),
    {
        let s = Sprite::from_bytes(bytes);
        self.sprites.set(self.len, s);
    }

    pub fn get_potential_sprite(&self) -> (r: Sprite)
        requires
            self.wf(),
            self.len < MAX_SPRITES,
        ensures
            r == self.sprites@[self.len as int],
    {
        self.sprites[self.len]
    }

    /// Count the candidate.
    pub fn commit(&mut self)
        requires
            old(self).wf(),
            old(self).len < MAX_SPRITES,
        ensures
            final(self).wf(),
            final(self).len == old(self).len + 1,
            final(self).sprites == old(self).sprites,
            final(self).has_sprite_0 == old(self).has_sprite_0,
    {
        self.len = self.len + 1;
    }

    /// The counted sprites, in OAM order.
    pub fn sprites(&self) -> (r: Vec<Sprite>)
        requires
            self.wf(),
        ensures
            r@ == self.sprites@.subrange(0, self.len as int),
    {
        let mut v: Vec<Sprite> = Vec::new();
        let mut i: usize = 0;
        while i < self.len
            invariant
                self.wf(),
                i <= self.len,
                v@ == self.sprites@.subrange(0, i as int),
            decreases self.len - i,
        {
            v.push(self.sprites[i]);
            proof {
                assert(self.sprites@.subrange(0, (i + 1) as int) =~= self.sprites@.subrange(
                    0,
                    i as int,
                ).push(self.sprites@[i as int]));
            }
            i = i + 1;
        }
        v
    }
}

#[derive(Debug, PartialEq, Eq, Clone, Copy, Structural)]
pub enum PpuState {
    Idle,
    StartFrame,
    SyncY,
    ActiveTileFetch,
    DrawAndEvalSprites,
    BlankingTileFetch,
    StartHBlank,
    IdleScanline,
    StartVBlank,
    EOF,
}

/// What the PPU does at `cycle` of `scanline` (https://www.nesdev.org/wiki/PPU_rendering).
pub open spec fn state_at(scanline: int, cycle: int) -> PpuState {
    if scanline == -1 && cycle == 1 {
        PpuState::StartFrame
    } else if scanline == -1 && cycle == 280 {
        PpuState::SyncY
    } else if 0 <= scanline < 240 && 1 <= cycle < 256 {
        if (cycle - 1) % 8 != 0 {
            PpuState::Idle
        } else {
            PpuState::ActiveTileFetch
        }
    } else if 0 <= scanline < 240 && cycle == 256 {
        PpuState::Idle
    } else if 0 <= scanline < 240 && cycle == 257 {
        PpuState::DrawAndEvalSprites
    } else if 0 <= scanline < 240 && 321 <= cycle < 337 {
        if (cycle - 1) % 8 != 0 {
            PpuState::Idle
        } else {
            PpuState::BlankingTileFetch
        }
    } else if 0 <= scanline < 240 && cycle == 337 {
        PpuState::StartHBlank
    } else if scanline == 240 && cycle == 1 {
        PpuState::IdleScanline
    } else if scanline == 241 && cycle == 1 {
        PpuState::StartVBlank
    } else if scanline == 259 && cycle == 340 {
        PpuState::EOF
    } else {
        PpuState::Idle
    }
}

/// The number of PPU cycles from each state to the next one that does something.
pub open spec fn transition_cycles(s: PpuState) -> i32 {
    match s {
        PpuState::Idle => 1,
        PpuState::StartFrame => 279,
        PpuState::SyncY => 62,
        PpuState::ActiveTileFetch => 8,
        PpuState::DrawAndEvalSprites => 64,
        PpuState::BlankingTileFetch => 8,
        PpuState::StartHBlank => 5,
        PpuState::IdleScanline => 341,
        PpuState::StartVBlank => 6477,
        PpuState::EOF => 343,
    }
}

pub open spec fn state_index(s: PpuState) -> int {
    match s {
        PpuState::Idle => 0,
        PpuState::StartFrame => 1,
        PpuState::SyncY => 2,
        PpuState::ActiveTileFetch => 3,
        PpuState::DrawAndEvalSprites => 4,
        PpuState::BlankingTileFetch => 5,
        PpuState::StartHBlank => 6,
        PpuState::IdleScanline => 7,
        PpuState::StartVBlank => 8,
        PpuState::EOF => 9,
    }
}

fn state_index_exec(s: PpuState) -> (r: usize)
    ensures
        r == state_index(s),
        r < 10,
{
    match s {
        PpuState::Idle => 0,
        PpuState::StartFrame => 1,
        PpuState::SyncY => 2,
        PpuState::ActiveTileFetch => 3,
        PpuState::DrawAndEvalSprites => 4,
        PpuState::BlankingTileFetch => 5,
        PpuState::StartHBlank => 6,
        PpuState::IdleScanline => 7,
        PpuState::StartVBlank => 8,
        PpuState::EOF => 9,
    }
}

/// The position reached `cycles` PPU cycles after (`scanline`, `cycle`), wrapping from the
/// end of the frame to the pre-render scanline.
pub open spec fn advance(scanline: int, cycle: int, cycles: int) -> (int, int) {
    let c = cycle + cycles;
    if c >= 341 {
        let sl = scanline + c / 341;
        if sl > 260 {
            (sl - 262, c % 341)
        } else {
            (sl, c % 341)
        }
    } else {
        (scanline, c)
    }
}

/// The PPU cycles in one frame.
pub open spec fn frame_cycles() -> int {
    262int * 341
}

/// Moving `cycles` cycles on moves the cycle count since the pre-render scanline by exactly
/// that much, less one frame when the move wraps to the next frame.
proof fn lemma_advance_time(scanline: int, cycle: int, cycles: int)
    requires
        0 <= cycle,
        0 <= cycles,
    ensures
        ({
            let (sl, c) = advance(scanline, cycle, cycles);
            ||| (1 + sl) * 341 + c == (1 + scanline) * 341 + cycle + cycles
            ||| (1 + sl) * 341 + c == (1 + scanline) * 341 + cycle + cycles - frame_cycles()
        }),
{
    let c0 = cycle + cycles;
    if c0 >= 341 {
        vstd::arithmetic::div_mod::lemma_fundamental_div_mod(c0, 341);
        assert((scanline + c0 / 341 + 1) * 341 == (1 + scanline) * 341 + (c0 / 341) * 341)
            by (nonlinear_arith);
        assert((scanline + c0 / 341 - 262 + 1) * 341 == (1 + scanline) * 341 + (c0 / 341) * 341
            - 262 * 341) by (nonlinear_arith);
    }
}

/// A position where the state machine can rest: the power-on position, or one where some
/// state does something.
pub open spec fn resting_position(scanline: int, cycle: int) -> bool {
    (scanline == -1 && cycle == 0) || state_at(scanline, cycle) != PpuState::Idle
}

/// From every resting position, the state's transition distance leads to a position where
/// the next state does something: the state machine never lands on an idle cycle, and each
/// entry of the transition table is the distance to the next state.
pub proof fn lemma_transition_lands_on_state(scanline: int, cycle: int)
    requires
        resting_position(scanline, cycle),
    ensures
        ({
            let (sl, c) = advance(
                scanline,
                cycle,
                transition_cycles(state_at(scanline, cycle)) as int,
            );
            &&& state_at(sl, c) != PpuState::Idle
            &&& -1 <= sl <= 260
            &&& 0 <= c < 341
        }),
{
    let s = state_at(scanline, cycle);
    if s == PpuState::ActiveTileFetch {
        assert(cycle + 8 < 256 ==> (cycle + 8 - 1) % 8 == 0);
        assert(cycle + 8 >= 256 ==> cycle == 249);
    } else if s == PpuState::BlankingTileFetch {
        assert(cycle == 321 || cycle == 329);
    } else if s == PpuState::StartVBlank {
        assert(6478int / 341 == 18 && 6478int % 341 == 340);
    } else if s == PpuState::EOF {
        assert(683int / 341 == 2 && 683int % 341 == 1);
    } else if s == PpuState::StartHBlank || s == PpuState::SyncY || s == PpuState::IdleScanline {
        assert(342int / 341 == 1 && 342int % 341 == 1);
    }
}

/// Mirror a nametable address: horizontal mirroring shares $2000/$2400 and $2800/$2C00,
/// vertical mirroring shares $2000/$2800 and $2400/$2C00.
///
/// Horizontal:
///   [ A ] [ a ]
///   [ B ] [ b ]
///
/// Vertical:
///   [ A ] [ B ]
///   [ a ] [ b ]
pub open spec fn spec_mirror(m: Mirroring, addr: u16) -> u16 {
    (addr & !0xFFFu16) | (match m {
        Mirroring::Horizontal => addr & 0xBFF,
        Mirroring::Vertical => addr & 0x7FF,
    })
}

pub fn mirror(mirroring: &Mirroring, addr: u16) -> (r: usize)
    ensures
        r == spec_mirror(*mirroring, addr),
{
    let low = match mirroring {
        Mirroring::Horizontal => addr & 0xBFF,
        Mirroring::Vertical => addr & 0x7FF,
    };
    ((addr & !0xFFFu16) | low) as usize
}

/// The 2-bit colour of pixel `j` (0 = leftmost) of a tile row given by its two bit planes.
pub open spec fn pixel_index(low: u8, high: u8, j: int) -> u8 {
    (((low >> ((7 - j) as u8)) & 1) | (((high >> ((7 - j) as u8)) & 1) << 1u8)) as u8
}

/// Convert the low and the high byte to the corresponding indices from [0,3]
pub fn tile_lohi_to_idx(low: u8, high: u8) -> (r: [u8; 8])
    ensures
        forall|j: int| 0 <= j < 8 ==> #[trigger] r@[j] == pixel_index(low, high, j),
        forall|j: int| 0 <= j < 8 ==> #[trigger] r@[j] < 4,
{
    let r = [
        plane_bits(low, high, 7),
        plane_bits(low, high, 6),
        plane_bits(low, high, 5),
        plane_bits(low, high, 4),
        plane_bits(low, high, 3),
        plane_bits(low, high, 2),
        plane_bits(low, high, 1),
        plane_bits(low, high, 0),
    ];
    assert forall|j: int| 0 <= j < 8 implies #[trigger] r@[j] == pixel_index(low, high, j) by {
        assert(((7 - j) as u8) as int == 7 - j);
    }
    r
}

/// Bit `i` of each plane, the high plane's as bit 1.
fn plane_bits(low: u8, high: u8, i: u8) -> (r: u8)
    requires
        i < 8,
    ensures
        r == (((low >> i) & 1) | (((high >> i) & 1) << 1u8)) as u8,
        r < 4,
{
    let r = ((low >> i) & 1) | (((high >> i) & 1) << 1u8);
    assert(((low >> i) & 1) | (((high >> i) & 1) << 1u8) < 4) by (bit_vector);
    r
}

/// The little-endian bytes of `x`.
pub fn to_u8_slice(x: u32) -> (r: [u8; 4])
    ensures
        r@ == seq![(x & 0xFF) as u8, ((x >> 8u32) & 0xFF) as u8, ((x >> 16u32) & 0xFF) as u8, ((x >> 24u32) & 0xFF) as u8],
{
    [
        (x & 0xFF) as u8,
        ((x >> 8u32) & 0xFF) as u8,
        ((x >> 16u32) & 0xFF) as u8,
        ((x >> 24u32) & 0xFF) as u8,
    ]
}

/// Two frames of pixels: the PPU draws into one while the other is shown.
pub struct FrameBuffer {
    pub buf0: Vec<u32>,
    pub buf1: Vec<u32>,
    pub index: usize,
}

impl FrameBuffer {
    pub open spec fn wf(self) -> bool {
        self.buf0@.len() == FRAME_SIZE && self.buf1@.len() == FRAME_SIZE && self.index < 2
    }

    /// The frame being drawn.
    pub open spec fn current(self) -> Seq<u32> {
        if self.index == 0 {
            self.buf0@
        } else {
            self.buf1@
        }
    }

    /// The frame not being drawn.
    pub open spec fn shown(self) -> Seq<u32> {
        if self.index == 0 {
            self.buf1@
        } else {
            self.buf0@
        }
    }

    pub fn new() -> (r: FrameBuffer)
        ensures
            r.wf(),
            r.index == 0,
    {
        FrameBuffer { buf0: zeroed_pixels(FRAME_SIZE), buf1: zeroed_pixels(FRAME_SIZE), index: 0 }
    }

    pub fn get(&self, i: usize) -> (r: u32)
        requires
            self.wf(),
            i < FRAME_SIZE,
        ensures
            r == self.current()[i as int],
    {
        if self.index == 0 {
            self.buf0[i]
        } else {
            self.buf1[i]
        }
    }

    pub fn set(&mut self, i: usize, v: u32)
        requires
            old(self).wf(),
            i < FRAME_SIZE,
        ensures
            final(self).wf(),
            final(self).index == old(self).index,
            final(self).current() == old(self).current().update(i as int, v),
            final(self).shown() == old(self).shown(),
    {
        if self.index == 0 {
            self.buf0.set(i, v);
        } else {
            self.buf1.set(i, v);
        }
    }

    /// Draw into the other frame from now on.
    pub fn swap(&mut self)
        requires
            old(self).wf(),
        ensures
            final(self).wf(),
            final(self).index == (old(self).index + 1) % 2,
            final(self).buf0 == old(self).buf0,
            final(self).buf1 == old(self).buf1,
    {
        self.index = (self.index + 1) % 2;
    }

    /// The current frame as bytes, four per pixel, least significant first.
    pub fn to_bytes(&self) -> (r: Vec<u8>)
        requires
            self.wf(),
        ensures
            r@.len() == FRAME_SIZE_BYTES,
            forall|i: int, k: int|
                0 <= i < FRAME_SIZE && 0 <= k < 4 ==> #[trigger] r@[4 * i + k] == ((
                self.current()[i] >> ((8 * k) as u32)) & 0xFF) as u8,
    {
        let mut out: Vec<u8> = Vec::new();
        let mut i: usize = 0;
        while i < FRAME_SIZE
            invariant
                self.wf(),
                i <= FRAME_SIZE,
                out@.len() == 4 * i,
                forall|j: int, k: int|
                    0 <= j < i && 0 <= k < 4 ==> #[trigger] out@[4 * j + k] == ((
                    self.current()[j] >> ((8 * k) as u32)) & 0xFF) as u8,
            decreases FRAME_SIZE - i,
        {
            let px = self.get(i);
            let b = to_u8_slice(px);
            let ghost before = out@;
            out.push(b[0]);
            out.push(b[1]);
            out.push(b[2]);
            out.push(b[3]);
            proof {
                assert forall|j: int, k: int|
                    0 <= j < i + 1 && 0 <= k < 4 implies #[trigger] out@[4 * j + k] == ((
                    self.current()[j] >> ((8 * k) as u32)) & 0xFF) as u8 by {
                    if j < i {
                        assert(out@[4 * j + k] == before[4 * j + k]);
                    } else {
                        assert(j == i);
                        assert((px >> 0u32) == px) by (bit_vector);
                        if k == 0 {
                        } else if k == 1 {
                        } else if k == 2 {
                        } else {
                        }
                    }
                }
            }
            i = i + 1;
        }
        out
    }
}

fn zeroed_pixels(n: usize) -> (r: Vec<u32>)
    ensures
        r@.len() == n,
{
    let mut v: Vec<u32> = Vec::new();
    let mut i: usize = 0;
    while i < n
        invariant
            i <= n,
            v@.len() == i,
        decreases n - i,
    {
        v.push(0);
        i = i + 1;
    }
    v
}

/// The transition table, indexed by state.
pub open spec fn transition_table() -> Seq<i32> {
    seq![1i32, 279, 62, 8, 64, 8, 5, 341, 6477, 343]
}

pub proof fn lemma_transition_table(s: PpuState)
    ensures
        transition_table()[state_index(s)] == transition_cycles(s),
        0 <= state_index(s) < 10,
        1 <= transition_cycles(s) <= 6477,
{
}

/// The most PPU cycles the PPU lets the rest of the console run ahead between two catch-ups.
pub const MAX_BEHIND: i32 = 100_000;

/// The PPU cycle, counted from the pre-render scanline, from which a catch-up is due: the
/// start of the post-render scanline, just before the vertical blank.
pub const VBLANK_START: i32 = 82182;

/// The PPU cycle, counted from the pre-render scanline, where the vertical blank starts
/// (scanline 241, cycle 1).
pub open spec fn vblank_set_cycle() -> int {
    242int * 341 + 1
}

/// The PPU cycle, counted from the pre-render scanline, where the frame ends (scanline 259,
/// cycle 340).
pub open spec fn frame_end_cycle() -> int {
    260int * 341 + 340
}

/// Every resting position before the start of the vertical blank is followed by a resting
/// position that is not past it: the state machine never steps over the vertical blank.
proof fn lemma_transition_reaches_vblank(scanline: int, cycle: int)
    requires
        resting_position(scanline, cycle),
        -1 <= scanline <= 260,
        0 <= cycle < 341,
        (1 + scanline) * 341 + cycle < vblank_set_cycle(),
    ensures
        (1 + scanline) * 341 + cycle + transition_cycles(state_at(scanline, cycle))
            <= vblank_set_cycle(),
{
}

/// No resting position lies strictly between the start of the vertical blank and the end of
/// the frame.
proof fn lemma_vblank_is_quiet(scanline: int, cycle: int)
    requires
        resting_position(scanline, cycle),
        -1 <= scanline <= 260,
        0 <= cycle < 341,
        vblank_set_cycle() <= (1 + scanline) * 341 + cycle < frame_end_cycle(),
    ensures
        scanline == 241 && cycle == 1,
{
}

/// The highest scanline that sprites waiting in the secondary OAM may start on: the scanline
/// they are drawn on, which is the next one once this line's sprites have been evaluated, and
/// none after the last visible line.
pub open spec fn sprite_bound(scanline: int, cycle: int) -> int {
    if 0 <= scanline < 240 {
        if cycle >= 257 {
            if scanline + 1 < 240 {
                scanline + 1
            } else {
                -1
            }
        } else {
            scanline
        }
    } else {
        -1
    }
}

/// The palette byte that an address in $3F00-$3FFF reaches: 32 entries, with $3F10, $3F14,
/// $3F18 and $3F1C mirroring $3F00, $3F04, $3F08 and $3F0C.
pub open spec fn palette_index(addr: u16) -> int {
    let a = addr & 0x1F;
    if a % 4 == 0 {
        (a & !0x10u16) as int
    } else {
        a as int
    }
}

proof fn lemma_ppu_bits(v: u16, x: u16, b: u8, t: u16, r: u16)
    by (bit_vector)
    ensures
        0x2000 <= x <= 0x3EFF ==> 0x2000 <= ((x & !0xFFFu16) | (x & 0xBFF)) < 0x4000,
        0x2000 <= x <= 0x3EFF ==> 0x2000 <= ((x & !0xFFFu16) | (x & 0x7FF)) < 0x4000,
        (x & 0x1F) < 32,
        (x & 0x1F) & !0x10u16 < 32,
        b & 0x3F < 64,
        0x2000 <= (0x2000 | (v & 0xFFF)) <= 0x2FFF,
        0x2000 <= (0x23C0 | (v & 0x0C00) | ((v >> 4u16) & 0x38) | ((v >> 2u16) & 0x07)) <= 0x2FFF,
        (v >> 12u16) & 0x7 <= 7,
        t <= 0x1000 && r < 16 ==> (t | ((b as u16) << 4u16) | r) <= 0x1FFF,
        t <= 0x1000 && r < 16 ==> ((b as u16) << 4u16) | r <= 0xFFF,
        x <= 0xFF ==> 0x3F00 <= x + 0x3F00 <= 0x3FFF,
        0x3F00 <= x <= 0x3FFF ==> 0x2000 <= (x & 0x2FFF) <= 0x2FFF,
        (b >> 2u8) & 0x3 < 4 && (b >> 4u8) & 0x3 < 4 && (b >> 6u8) & 0x3 < 4 && b & 0x3 < 4,
        b < 2 && (t as u8) < 4 && (r as u8) < 4 ==> ((b << 4u8) | ((t as u8) << 2u8) | (r as u8)) < 32,
        (0x10u8 | 0x08u8) == 0x18u8,
        (0x02u8 | 0x04u8) == 0x06u8,
{
}

pub struct PPU<R: Renderer> {
    pub frame_buf: FrameBuffer,
    pub cartridge_header: Header,
    pub cartridge_chr: ROM,
    pub registers: Registers,
    pub ppudata_buffer: u8,
    pub flags: Flags,
    pub vram: RAM,
    pub renderer: R,
    // Sprites
    pub oam_primary: Vec<u8>,
    pub oam_secondary: OamSecondary,
    // Number of cycles the NES has simulated outside of the PPU. The PPU may lag behind or skip
    // frames entirely if the result of the frame is neither human nor software visible
    pub cycles_behind: i32,
    pub ppu_cycle: i32,
    pub scanline: i32,
    pub frame: usize,
    pub current_state: PpuState,
    pub transition_lut: Vec<i32>,
    // Background. Tiles are fetched 2 tiles in advance
    pub tile_q: Vec<Tile>,
    pub palette_table: Vec<u8>,
    pub needs_render: bool,
}

impl<R: Renderer> PPU<R> {
    /// The memories have their sizes and the pattern tables cover $0000-$1FFF.
    pub open spec fn mem_wf(self) -> bool {
        &&& self.frame_buf.wf()
        &&& self.cartridge_chr.data@.len() >= 0x2000
        &&& self.vram.data@.len() == PPU_VRAM_SIZE
        &&& self.oam_primary@.len() == 256
        &&& self.oam_secondary.wf()
        &&& self.palette_table@.len() == 32
        &&& self.tile_q@.len() == 3
        &&& self.transition_lut@ == transition_table()
    }

    /// The waiting sprites start close enough above `bound` to cover it.
    pub open spec fn sprites_within(self, bound: int) -> bool {
        forall|i: int|
            0 <= i < self.oam_secondary.len ==> bound - 16 < #[trigger] self.oam_secondary.sprites@[i].spec_y()
                <= bound
    }

    /// The state machine rests where its state says.
    pub open spec fn pos_wf(self) -> bool {
        &&& -1 <= self.scanline <= 260
        &&& 0 <= self.ppu_cycle < 341
        &&& resting_position(self.scanline as int, self.ppu_cycle as int)
        &&& self.current_state == state_at(self.scanline as int, self.ppu_cycle as int)
        &&& self.sprites_within(sprite_bound(self.scanline as int, self.ppu_cycle as int))
    }

    pub open spec fn wf(self) -> bool {
        &&& self.mem_wf()
        &&& self.pos_wf()
        &&& 0 <= self.cycles_behind <= MAX_BEHIND
    }

    /// What rendering never changes: the registers the CPU writes, the memories, the read
    /// buffer and the cartridge's data.
    pub open spec fn same_config(self, other: Self) -> bool {
        &&& self.registers.ctrl == other.registers.ctrl
        &&& self.registers.mask == other.registers.mask
        &&& self.registers.oamaddr == other.registers.oamaddr
        &&& self.registers.oamdata == other.registers.oamdata
        &&& self.registers.addr.tmp == other.registers.addr.tmp
        &&& self.registers.addr.fine_x == other.registers.addr.fine_x
        &&& self.registers.addr.next_wr == other.registers.addr.next_wr
        &&& self.ppudata_buffer == other.ppudata_buffer
        &&& self.palette_table@ == other.palette_table@
        &&& self.vram.data@ == other.vram.data@
        &&& self.oam_primary@ == other.oam_primary@
        &&& self.cartridge_chr.data@ == other.cartridge_chr.data@
        &&& self.cartridge_header == other.cartridge_header
    }

    /// `next` is this PPU after it has run some of the cycles it was behind.
    pub open spec fn caught_up(self, next: Self) -> bool {
        &&& next.wf()
        &&& self.same_config(next)
        &&& 0 <= next.cycles_behind <= self.cycles_behind
        &&& self.same_time(next)
        &&& self.vblank_seen(next)
    }

    /// The PPU cycle of the position reached, counted from the pre-render scanline.
    pub open spec fn pos_cycles(self) -> int {
        (1 + self.scanline) * 341 + self.ppu_cycle
    }

    /// When the cycles `self` is behind take it from before the vertical blank into it (but
    /// not to the end of the frame), `next` has the vertical blank flag set, and an NMI
    /// pending if PPUCTRL enables it.
    pub open spec fn vblank_seen(self, next: Self) -> bool {
        self.pos_cycles() < vblank_set_cycle() <= self.spec_total_cycles() < frame_end_cycle()
            ==> next.registers.status & 0x80 != 0 && (self.registers.ctrl & 0x80 != 0
            ==> next.flags.has_nmi)
    }

    /// `next` counts the same PPU time as `self`, up to whole frames it has left behind: the
    /// cycles it ran moved its position by as much.
    pub open spec fn same_time(self, next: Self) -> bool {
        &&& next.spec_total_cycles() <= self.spec_total_cycles()
        &&& (self.spec_total_cycles() - next.spec_total_cycles()) % frame_cycles() == 0
    }

    /// The byte the PPU's own bus gives at `addr` ($0000-$3FFF): pattern tables from the
    /// cartridge, nametables from VRAM through the mirroring, then the palettes.
    pub open spec fn internal_byte(self, addr: u16) -> u8 {
        if addr < 0x2000 {
            self.cartridge_chr.data@[addr as int]
        } else if addr < 0x3F00 {
            self.vram.data@[spec_mirror(self.cartridge_header.mirroring, addr) - 0x2000]
        } else {
            self.palette_table@[palette_index((addr - 0x3F00) as u16)] & 0x3F
        }
    }

    /// The VRAM address step after a PPUDATA access: 32 when PPUCTRL asks for it, else 1.
    pub open spec fn data_step(self) -> u16 {
        if self.registers.ctrl & 0x04 != 0 {
            32
        } else {
            1
        }
    }

    pub open spec fn spec_rendering_enabled(self) -> bool {
        self.registers.mask & 0x18 != 0
    }

    pub open spec fn spec_is_blanking(self) -> bool {
        !self.spec_rendering_enabled() || self.scanline > 240
    }

    pub open spec fn spec_total_cycles(self) -> int {
        (1 + self.scanline) * 341 + self.ppu_cycle + self.cycles_behind
    }

    /// A PPU for `cartridge` drawing to `renderer`, at power-on: before the pre-render
    /// scanline, every register and memory zero.
    pub fn new(cartridge: &Cartridge, renderer: R) -> (r: Self)
        requires
            cartridge.wf(),
            cartridge.mapper.chr_data().len() >= 0x2000,
        ensures
            r.wf(),
            r.scanline == -1,
            r.ppu_cycle == 0,
            r.cycles_behind == 0,
            r.current_state == PpuState::Idle,
            r.cartridge_header == cartridge.header,
            r.cartridge_chr.data@ == cartridge.mapper.chr_data(),
            r.registers.ctrl == 0 && r.registers.mask == 0 && r.registers.status == 0,
            r.vram.data@ == Seq::new(0x2000, |i: int| 0u8),
            r.palette_table@ == Seq::new(32, |i: int| 0u8),
            r.oam_primary@ == Seq::new(256, |i: int| 0u8),
            !r.flags.has_nmi,
    {
        let cartridge_header = cartridge.header();
        let cartridge_chr = cartridge.chr();
        let mut tile_q: Vec<Tile> = Vec::new();
        tile_q.push(Tile::default());
        tile_q.push(Tile::default());
        tile_q.push(Tile::default());
        PPU {
            frame_buf: FrameBuffer::new(),
            cartridge_chr,
            cartridge_header,
            palette_table: crate::memory::zeroed(32),
            registers: Registers::default(),
            flags: Flags::default(),
            renderer,
            oam_primary: crate::memory::zeroed(256),
            oam_secondary: OamSecondary::default(),
            cycles_behind: 0,
            ppu_cycle: 0,
            scanline: -1,
            frame: 0,
            current_state: PpuState::Idle,
            transition_lut: Self::create_transition_lut(),
            tile_q,
            ppudata_buffer: 0,
            vram: RAM::with_size(PPU_VRAM_SIZE as u16),
            needs_render: true,
        }
    }

    /// The cycle within the scanline that the PPU has reached, counting the cycles it is
    /// behind.
    pub fn cycle(&self) -> (r: i32)
        requires
            self.wf(),
        ensures
            r == self.spec_total_cycles() % 341,
    {
        self.total_ppu_cycles() % CYCLES_PER_SCANLINE
    }

    /// The scanline the PPU has reached, counting the cycles it is behind, from 0 for the
    /// pre-render line.
    pub fn scanline(&self) -> (r: i32)
        requires
            self.wf(),
        ensures
            r == self.spec_total_cycles() / 341,
    {
        self.total_ppu_cycles() / CYCLES_PER_SCANLINE
    }

    fn total_ppu_cycles(&self) -> (r: i32)
        requires
            self.wf(),
        ensures
            r == self.spec_total_cycles(),
            r >= 0,
    {
        (1 + self.scanline) * CYCLES_PER_SCANLINE + self.ppu_cycle + self.cycles_behind
    }

    /// A CPU read of register `addr % 8` gives `r` and leaves the PPU as `next` (see `register_read`).
    pub open spec fn reads_register(self, addr: u16, r: u8, next: Self) -> bool {
        &&& (addr % 8 == 0 ==> r == self.registers.ctrl && next == self)
        &&& (addr % 8 == 1 ==> r == self.registers.mask && next == self)
        &&& (addr % 8 == 3 ==> r == self.registers.oamaddr && next == self)
        &&& (addr % 8 == 4 ==> r == self.registers.oamdata && next == self)
        &&& (addr % 8 == 5 || addr % 8 == 6 ==> r == 0 && next == self)
        &&& (addr % 8 == 2 ==> exists|mid: Self|
                #![trigger self.caught_up(mid)]
                self.caught_up(mid) && r == mid.registers.status && next == (PPU {
                    registers: Registers {
                        status: mid.registers.status & !0x80u8,
                        addr: registers::PpuAddr {
                            next_wr: registers::AddrNextWrite::FirstWrite,
                            ..mid.registers.addr
                        },
                        ..mid.registers
                    },
                    ..mid
                }))
        &&& (addr % 8 == 7 ==> exists|mid: Self|
                #![trigger self.caught_up(mid)]
                self.caught_up(mid) && ({
                    let a = mid.registers.addr.addr & 0x3FFF;
                    &&& r == (if a < 0x3F00 {
                        mid.ppudata_buffer
                    } else {
                        mid.internal_byte(a)
                    })
                    &&& next.ppudata_buffer == (if a < 0x3F00 {
                        mid.internal_byte(a)
                    } else {
                        mid.internal_byte(a & 0x2FFF)
                    })
                    &&& next == (PPU {
                        ppudata_buffer: next.ppudata_buffer,
                        registers: Registers {
                            addr: registers::PpuAddr {
                                addr: mid.registers.addr.addr.wrapping_add(mid.data_step()),
                                ..mid.registers.addr
                            },
                            ..mid.registers
                        },
                        ..mid
                    })
                }))
    }

    /// A CPU read of register `addr % 8` ($2000-$2007). PPUSTATUS and PPUDATA first let the
    /// PPU catch up; PPUSTATUS then clears the vblank flag and the write latch; PPUDATA reads
    /// through the one-byte buffer (palettes directly) and steps the VRAM address.
    pub fn register_read(&mut self, addr: u16) -> (r: u8)
        requires
            old(self).wf(),
        ensures
            final(self).wf(),
            old(self).reads_register(addr, r, *final(self)),
    {
        let regnum = addr % 8;
        if regnum == 0 {
            self.registers.ctrl
        } else if regnum == 1 {
            self.registers.mask
        } else if regnum == 2 {
            self.tick_n();
            let ghost mid = *self;
            self.registers.addr.reset();
            let val = self.registers.status;
            self.registers.status = self.registers.status & !PpuStatus::VBLANK_STARTED;
            assert(old(self).caught_up(mid));
            val
        } else if regnum == 3 {
            self.registers.oamaddr
        } else if regnum == 4 {
            self.registers.oamdata
        } else if regnum == 5 || regnum == 6 {
            0x0
        } else {
            self.tick_n();
            let ghost mid = *self;
            let addr = self.registers.addr.to_u16();
            self.ppudata_addr_incr();
            let val = self.ppu_internal_read(addr);
            let r = if addr < 0x3F00 {
                let buffered = self.ppudata_buffer;
                self.ppudata_buffer = val;
                buffered
            } else {
                proof {
                    lemma_ppu_bits(0, addr, 0, 0, 0);
                }
                self.ppudata_buffer = self.ppu_internal_read(addr & 0x2FFF);
                val
            };
            assert(old(self).caught_up(mid));
            r
        }
    }

    /// A CPU write of `val` to register `addr % 8` leaves the PPU as `next` (see `register_write`).
    pub open spec fn writes_register(self, addr: u16, val: u8, next: Self) -> bool {
        &&& (addr % 8 == 1 ==> next == (PPU {
                registers: Registers { mask: val, ..self.registers },
                ..self
            }))
        &&& (addr % 8 == 2 ==> next == (PPU {
                registers: Registers { status: val, ..self.registers },
                ..self
            }))
        &&& (addr % 8 == 3 ==> next == (PPU {
                registers: Registers { oamaddr: val, ..self.registers },
                ..self
            }))
        &&& (addr % 8 == 4 ==> next == (PPU {
                registers: Registers {
                    oamdata: if self.scanline >= 240 {
                        val
                    } else {
                        self.registers.oamdata
                    },
                    oamaddr: self.registers.oamaddr.wrapping_add(1),
                    ..self.registers
                },
                ..self
            }))
        &&& (addr % 8 == 0 ==> exists|mid: Self|
                #![trigger self.caught_up(mid)]
                self.caught_up(mid) && next == (PPU {
                    registers: Registers {
                        ctrl: val,
                        addr: mid.registers.addr.spec_set_nametable(val),
                        ..mid.registers
                    },
                    ..mid
                }))
        &&& (addr % 8 == 5 ==> exists|mid: Self|
                #![trigger self.caught_up(mid)]
                self.caught_up(mid) && next == (PPU {
                    registers: Registers {
                        addr: mid.registers.addr.spec_scroll_write(val),
                        ..mid.registers
                    },
                    ..mid
                }))
        &&& (addr % 8 == 6 ==> exists|mid: Self|
                #![trigger self.caught_up(mid)]
                self.caught_up(mid) && next == (PPU {
                    registers: Registers {
                        addr: mid.registers.addr.spec_addr_write(val),
                        ..mid.registers
                    },
                    ..mid
                }))
        &&& (addr % 8 == 7 ==> exists|mid: Self|
                #![trigger self.caught_up(mid)]
                self.caught_up(mid) && ({
                    let a = mid.registers.addr.addr & 0x3FFF;
                    &&& next == (PPU {
                        vram: next.vram,
                        palette_table: next.palette_table,
                        registers: Registers {
                            addr: registers::PpuAddr {
                                addr: mid.registers.addr.addr.wrapping_add(mid.data_step()),
                                ..mid.registers.addr
                            },
                            ..mid.registers
                        },
                        ..mid
                    })
                    &&& forall|b: u16|
                        #![trigger next.internal_byte(b)]
                        b <= 0x3FFF ==> next.internal_byte(b) == (if mid.same_cell(a, b) {
                            if b >= 0x3F00 {
                                val & 0x3F
                            } else {
                                val
                            }
                        } else {
                            mid.internal_byte(b)
                        })
                }))
    }

    /// A CPU write of `val` to register `addr % 8`. PPUCTRL, PPUSCROLL, PPUADDR and PPUDATA
    /// first let the PPU catch up. OAMDATA only stores the byte outside the visible
    /// scanlines but always steps OAMADDR; PPUDATA writes through to VRAM or the palettes
    /// (the pattern tables are read-only) and steps the VRAM address.
    pub fn register_write(&mut self, addr: u16, val: u8)
        requires
            old(self).wf(),
        ensures
            final(self).wf(),
            old(self).writes_register(addr, val, *final(self)),
    {
        let regnum = addr % 8;
        if regnum == 0 {
            self.tick_n();
            let ghost mid = *self;
            self.registers.ctrl = val;
            self.registers.addr.set_nametable(val);
            assert(old(self).caught_up(mid));
        } else if regnum == 1 {
            self.registers.mask = val;
        } else if regnum == 2 {
            self.registers.status = val;
        } else if regnum == 3 {
            self.registers.oamaddr = val;
        } else if regnum == 4 {
            // For emulation purposes, it is probably best to completely ignore writes during
            // rendering (but the address is still updated)
            //
            // https://www.nesdev.org/wiki/PPU_registers#OAMDATA
            if self.scanline >= VISIBLE_SCANLINES {
                self.registers.oamdata = val;
            }
            self.registers.oamaddr = self.registers.oamaddr.wrapping_add(1);
        } else if regnum == 5 {
            self.tick_n();
            let ghost mid = *self;
            self.registers.addr.scroll_write(val);
            assert(old(self).caught_up(mid));
        } else if regnum == 6 {
            self.tick_n();
            let ghost mid = *self;
            self.registers.addr.addr_write(val);
            assert(old(self).caught_up(mid));
        } else {
            self.tick_n();
            let ghost mid = *self;
            let addr = self.registers.addr.to_u16();
            self.ppudata_addr_incr();
            let ghost after_incr = *self;
            self.ppu_internal_write(addr, val);
            proof {
                assert forall|b: u16| b <= 0x3FFF implies #[trigger] self.internal_byte(b) == (
                if mid.same_cell(addr, b) {
                    if b >= 0x3F00 {
                        val & 0x3F
                    } else {
                        val
                    }
                } else {
                    mid.internal_byte(b)
                }) by {
                    assert(after_incr.internal_byte(b) == mid.internal_byte(b));
                }
            }
            assert(old(self).caught_up(mid));
        }
    }

    /// Whether two addresses of the PPU bus reach the same writable byte: the same
    /// nametable cell through the mirroring, or the same palette entry.
    pub open spec fn same_cell(self, a: u16, b: u16) -> bool {
        if 0x2000 <= a < 0x3F00 && 0x2000 <= b < 0x3F00 {
            spec_mirror(self.cartridge_header.mirroring, a) == spec_mirror(
                self.cartridge_header.mirroring,
                b,
            )
        } else if 0x3F00 <= a <= 0x3FFF && 0x3F00 <= b <= 0x3FFF {
            palette_index((a - 0x3F00) as u16) == palette_index((b - 0x3F00) as u16)
        } else {
            false
        }
    }

    /// Copy a full page (256 bytes) into the primary OAM.
    pub fn oam_dma(&mut self, data: &[u8])
        requires
            old(self).wf(),
            data@.len() == 256,
        ensures
            final(self).wf(),
            final(self).oam_primary@ == data@,
            *final(self) == (PPU { oam_primary: final(self).oam_primary, ..*old(self) }),
    {
        let mut i: usize = 0;
        while i < 256
            invariant
                i <= 256,
                data@.len() == 256,
                self.oam_primary@.len() == 256,
                forall|j: int| 0 <= j < i ==> self.oam_primary@[j] == data@[j],
                *self == (PPU { oam_primary: self.oam_primary, ..*old(self) }),
            decreases 256 - i,
        {
            self.oam_primary.set(i, data[i]);
            i = i + 1;
        }
        assert(self.oam_primary@ =~= data@);
    }

    // https://www.nesdev.org/wiki/PPU_memory_map
    fn ppu_internal_write(&mut self, addr: u16, val: u8)
        requires
            old(self).mem_wf(),
            addr <= 0x3FFF,
        ensures
            final(self).mem_wf(),
            forall|b: u16|
                #![trigger final(self).internal_byte(b)]
                b <= 0x3FFF ==> final(self).internal_byte(b) == (if old(self).same_cell(addr, b) {
                    if b >= 0x3F00 {
                        val & 0x3F
                    } else {
                        val
                    }
                } else {
                    old(self).internal_byte(b)
                }),
            *final(self) == (PPU {
                vram: final(self).vram,
                palette_table: final(self).palette_table,
                ..*old(self)
            }),
            addr < 0x2000 ==> final(self).vram == old(self).vram && final(self).palette_table
                == old(self).palette_table,
    {
        proof {
            lemma_ppu_bits(0, addr, 0, 0, 0);
        }
        if addr <= 0x1FFF {
            // Pattern tables 0 and 1: writes to CHR ROM are ignored
        } else if addr <= 0x3EFF {
            let vram_offset = mirror(self.cartridge_header.get_mirroring(), addr) - PPU_VRAM_SIZE;
            self.vram.write(vram_offset as u16, val);
            proof {
                assert forall|b: u16| b <= 0x3FFF implies #[trigger] self.internal_byte(b) == (
                if old(self).same_cell(addr, b) {
                    if b >= 0x3F00 {
                        val & 0x3F
                    } else {
                        val
                    }
                } else {
                    old(self).internal_byte(b)
                }) by {
                    lemma_ppu_bits(0, b, 0, 0, 0);
                }
            }
        } else {
            self.palette_write(addr - 0x3F00, val);
            proof {
                assert forall|b: u16| b <= 0x3FFF implies #[trigger] self.internal_byte(b) == (
                if old(self).same_cell(addr, b) {
                    if b >= 0x3F00 {
                        val & 0x3F
                    } else {
                        val
                    }
                } else {
                    old(self).internal_byte(b)
                }) by {
                    lemma_palette_bits((addr - 0x3F00) as u16);
                    if b >= 0x3F00 {
                        lemma_palette_bits((b - 0x3F00) as u16);
                    }
                }
            }
        }
    }

    // https://www.nesdev.org/wiki/PPU_memory_map
    fn ppu_internal_read(&self, addr: u16) -> (r: u8)
        requires
            self.mem_wf(),
            addr <= 0x3FFF,
        ensures
            r == self.internal_byte(addr),
    {
        proof {
            lemma_ppu_bits(0, addr, 0, 0, 0);
        }
        if addr <= 0x1FFF {
            self.cartridge_chr.data[addr as usize]
        } else if addr <= 0x3EFF {
            let vram_offset = mirror(self.cartridge_header.get_mirroring(), addr) - PPU_VRAM_SIZE;
            self.vram.read(vram_offset as u16)
        } else {
            self.palette_read(addr - 0x3F00)
        }
    }

    fn ppudata_addr_incr(&mut self)
        ensures
            *final(self) == (PPU {
                registers: Registers {
                    addr: registers::PpuAddr {
                        addr: old(self).registers.addr.addr.wrapping_add(old(self).data_step()),
                        ..old(self).registers.addr
                    },
                    ..old(self).registers
                },
                ..*old(self)
            }),
    {
        let amt: u16 = if (self.registers.ctrl & PpuCtrl::VRAM_INCR) != 0 {
            32
        } else {
            1
        };
        self.registers.addr.incr(amt);
    }

    fn show_clipped_lhs(&self) -> (r: bool)
        requires
            self.oam_secondary.wf(),
        ensures
            r == (self.registers.mask & 0x06 != 0 && self.oam_secondary.has_sprite_0
                && self.oam_secondary.sprites@[0].spec_x() <= 7),
    {
        proof {
            lemma_ppu_bits(0, 0, 0, 0, 0);
        }
        self.registers.mask & (PpuMask::SHOW_LEFT_BG | PpuMask::SHOW_LEFT_SPRITES) != 0
            && self.oam_secondary.has_sprite_0 && self.oam_secondary.sprites[0].x() <= 7
    }

    fn sprite0_past_rhs(&self) -> (r: bool)
        requires
            self.oam_secondary.wf(),
        ensures
            r == (self.oam_secondary.has_sprite_0 && self.oam_secondary.sprites@[0].spec_x()
                == 255),
    {
        self.oam_secondary.has_sprite_0 && self.oam_secondary.sprites[0].x() == 255
    }

    fn background_enabled(&self) -> (r: bool)
        ensures
            r == (self.registers.mask & 0x08 != 0),
    {
        self.registers.mask & PpuMask::SHOW_BG != 0
    }

    fn sprites_enabled(&self) -> (r: bool)
        ensures
            r == (self.registers.mask & 0x10 != 0),
    {
        self.registers.mask & PpuMask::SHOW_SPRITES != 0
    }

    fn has_sprite0_hit(&self) -> (r: bool)
        ensures
            r == (self.registers.status & 0x40 != 0),
    {
        self.registers.status & PpuStatus::SPRITE_0_HIT != 0
    }

    fn rendering_enabled(&self) -> (r: bool)
        ensures
            r == self.spec_rendering_enabled(),
    {
        proof {
            lemma_ppu_bits(0, 0, 0, 0, 0);
        }
        (self.registers.mask & (PpuMask::SHOW_SPRITES | PpuMask::SHOW_BG)) != 0
    }

    /// Enter the vertical blank: clear the sprite-0 hit, raise the vblank flag, and raise
    /// the NMI when PPUCTRL enables it.
    fn do_start_vblank(&mut self)
        ensures
            *final(self) == (PPU {
                registers: Registers {
                    status: (old(self).registers.status & !0x40u8) | 0x80u8,
                    ..old(self).registers
                },
                flags: Flags {
                    has_nmi: if old(self).registers.ctrl & 0x80 != 0 {
                        true
                    } else {
                        old(self).flags.has_nmi
                    },
                    ..old(self).flags
                },
                ..*old(self)
            }),
    {
        self.registers.status = self.registers.status & !PpuStatus::SPRITE_0_HIT;
        self.registers.status = self.registers.status | PpuStatus::VBLANK_STARTED;
        if self.registers.ctrl & PpuCtrl::NMI_ENABLE != 0 {
            // NMI is generated only on the start of the VBLANK cycle
            self.flags.has_nmi = true;
        }
    }

    fn do_sync_y(&mut self)
        ensures
            old(self).spec_is_blanking() ==> *final(self) == *old(self),
            !old(self).spec_is_blanking() ==> *final(self) == (PPU {
                registers: Registers {
                    addr: registers::PpuAddr {
                        addr: (old(self).registers.addr.tmp & registers::VERT_MASK) | (old(
                            self,
                        ).registers.addr.addr & !registers::VERT_MASK),
                        ..old(self).registers.addr
                    },
                    ..old(self).registers
                },
                ..*old(self)
            }),
    {
        if !self.is_blanking() {
            self.registers.addr.sync_y()
        }
    }

    /// Start a frame: clear the sprite-0 hit, vblank and sprite overflow flags.
    fn do_start_frame(&mut self)
        ensures
            *final(self) == (PPU {
                registers: Registers {
                    status: old(self).registers.status & !0x40u8 & !0x80u8 & !0x20u8,
                    ..old(self).registers
                },
                ..*old(self)
            }),
    {
        self.registers.status = self.registers.status & !PpuStatus::SPRITE_0_HIT;
        self.registers.status = self.registers.status & !PpuStatus::VBLANK_STARTED;
        self.registers.status = self.registers.status & !PpuStatus::SPRITE_OVERFLOW;
    }

    /// End a frame: count it, drop a pending NMI, flip the odd-frame flag, and hand the
    /// picture to the renderer when rendering is on.
    fn do_end_frame(&mut self)
        requires
            old(self).mem_wf(),
        ensures
            final(self).mem_wf(),
            final(self).frame == old(self).frame.wrapping_add(1),
            !final(self).flags.has_nmi,
            final(self).flags.odd == !old(self).flags.odd,
            old(self).same_config(*final(self)),
            final(self).registers == old(self).registers,
            final(self).oam_secondary == old(self).oam_secondary,
            final(self).scanline == old(self).scanline,
            final(self).ppu_cycle == old(self).ppu_cycle,
            final(self).current_state == old(self).current_state,
            final(self).cycles_behind == old(self).cycles_behind,
            final(self).frame_buf == (if old(self).spec_rendering_enabled() && old(self).needs_render {
                FrameBuffer {
                    index: ((old(self).frame_buf.index + 1) % 2) as usize,
                    ..old(self).frame_buf
                }
            } else {
                old(self).frame_buf
            }),
    {
        self.frame = self.frame.wrapping_add(1);
        self.flags.has_nmi = false;
        self.flags.odd = !self.flags.odd;
        if self.rendering_enabled() {
            self.render_frame();
        }
    }

    fn is_blanking(&self) -> (r: bool)
        ensures
            r == self.spec_is_blanking(),
    {
        // SW can set forced-blank mode, which disables all rendering and updates. This is used
        // typically during initialization
        let forced_blank = !self.rendering_enabled();
        let in_vblank = self.scanline > VISIBLE_SCANLINES;
        forced_blank || in_vblank
    }

    fn back_tile(&self) -> (r: Tile)
        requires
            self.tile_q@.len() == 3,
        ensures
            r == self.tile_q@[2],
    {
        self.tile_q[2]
    }

    fn front_tile(&self) -> (r: Tile)
        requires
            self.tile_q@.len() == 3,
        ensures
            r == self.tile_q@[0],
    {
        self.tile_q[0]
    }

    fn set_back_tile(&mut self, t: Tile)
        requires
            old(self).tile_q@.len() == 3,
        ensures
            *final(self) == (PPU { tile_q: final(self).tile_q, ..*old(self) }),
            final(self).tile_q@ == old(self).tile_q@.update(2, t),
    {
        self.tile_q.set(2, t);
    }

    /// The colour of the pixel with palette bits `d4` (sprite or background), `d3_d2` (the
    /// palette) and `d1_d0` (the pattern's colour index).
    pub open spec fn pixel_color(self, d4: u8, d3_d2: u8, d1_d0: u8) -> u32 {
        palette_color(
            self.palette_table@[palette_index(((d4 << 4u8) | (d3_d2 << 2u8) | d1_d0) as u16)]
                & 0x3F,
        )
    }

    /// Where pixel `x` of the current scanline goes in the frame.
    pub open spec fn line_base(self, x: int) -> int {
        self.scanline * 256 + x
    }

    /// The colour of pixel `j` of the front tile's row on the current scanline.
    pub open spec fn bg_color(self, j: int) -> u32 {
        let t = self.tile_q@[0];
        self.pixel_color(0, bg_palette_bits(t), pixel_index(t.pattern_lo, t.pattern_hi, j))
    }

    /// Where the front tile's row starts in the frame: the pixel the current cycle draws.
    pub open spec fn bg_row_base(self) -> int {
        self.line_base(self.ppu_cycle - 1)
    }

    /// The frame `f` with the first `n` pixels of the front tile's row drawn.
    pub open spec fn bg_row(self, f: Seq<u32>, n: int) -> Seq<u32> {
        Seq::new(
            f.len(),
            |i: int|
                if self.bg_row_base() <= i < self.bg_row_base() + n {
                    self.bg_color(i - self.bg_row_base())
                } else {
                    f[i]
                },
        )
    }

    /// Drawing the first `n` pixels of the front tile's row changes a pixel of `f`.
    pub open spec fn bg_changes(self, f: Seq<u32>, n: int) -> bool {
        exists|j: int| 0 <= j < n && #[trigger] f[self.bg_row_base() + j] != self.bg_color(j)
    }

    /// The pattern row that `sprite` shows on the current scanline, or `None` where it is not
    /// drawn: hidden behind the background, or flipped vertically to a row outside the 16 rows
    /// of a tile pair.
    pub open spec fn sprite_row_addr(self, sprite: Sprite, large: bool) -> Option<u16> {
        if sprite.bytes@[2] & 0x20 != 0 {
            None
        } else {
            let table: u16 = if large {
                if sprite.bytes@[1] & 0x1 != 0 {
                    0x1000u16
                } else {
                    0u16
                }
            } else if self.registers.ctrl & 0x08 == 0 {
                0u16
            } else {
                0x1000u16
            };
            let tile: u16 = if large {
                (sprite.bytes@[1] & 0xFE) as u16
            } else {
                sprite.bytes@[1] as u16
            };
            let row = (self.scanline - sprite.spec_y()) as u16;
            if sprite.bytes@[2] & 0x80 != 0 {
                let height: u16 = if large {
                    16
                } else {
                    8
                };
                if row > height || height - row >= 16 {
                    None
                } else {
                    Some(table | (tile << 4u16) | ((height - row) as u16))
                }
            } else {
                Some(table | (tile << 4u16) | row)
            }
        }
    }

    /// The colour that `sprite`, with pattern bytes `lo` and `hi`, puts at position `p` of its
    /// row (mirrored when it is flipped horizontally), or `None` where the pixel is
    /// transparent or past the end of the frame.
    pub open spec fn sprite_pixel(self, sprite: Sprite, lo: u8, hi: u8, p: int) -> Option<u32> {
        let j = if sprite.bytes@[2] & 0x40 != 0 {
            7 - p
        } else {
            p
        };
        let idx = pixel_index(lo, hi, j);
        if idx != 0 && self.line_base(sprite.spec_x()) + p < FRAME_SIZE {
            Some(self.pixel_color(1, sprite.bytes@[2] & 0x3, idx))
        } else {
            None
        }
    }

    /// Whether position `p` of a sprite's row is done after `k` of the eight steps, which go
    /// right to left for a sprite flipped horizontally.
    pub open spec fn sprite_done(sprite: Sprite, p: int, k: int) -> bool {
        if sprite.bytes@[2] & 0x40 != 0 {
            8 - k <= p
        } else {
            p < k
        }
    }

    /// The frame `f` with the first `k` steps of `sprite`'s row drawn.
    pub open spec fn sprite_row(self, sprite: Sprite, lo: u8, hi: u8, f: Seq<u32>, k: int) -> Seq<u32> {
        let base = self.line_base(sprite.spec_x());
        Seq::new(
            f.len(),
            |i: int|
                if base <= i < base + 8 && Self::sprite_done(sprite, i - base, k) && self.sprite_pixel(
                    sprite,
                    lo,
                    hi,
                    i - base,
                ) is Some {
                    self.sprite_pixel(sprite, lo, hi, i - base)->0
                } else {
                    f[i]
                },
        )
    }

    /// The frame `f` with the current scanline's row of `sprite` drawn: unchanged when the
    /// sprite has no row to draw, else its eight pixels from its pattern bytes.
    pub open spec fn drawn_sprite(self, sprite: Sprite, large: bool, f: Seq<u32>) -> Seq<u32> {
        match self.sprite_row_addr(sprite, large) {
            None => f,
            Some(a) => self.sprite_row(
                sprite,
                self.internal_byte(a),
                self.internal_byte((a + 8) as u16),
                f,
                8,
            ),
        }
    }

    /// The frame `f` with the rows of `sprites[k..]` drawn, the last first, so that a lower
    /// index ends up in front.
    pub open spec fn sprites_drawn(self, sprites: Seq<Sprite>, large: bool, f: Seq<u32>, k: int) -> Seq<u32>
        decreases sprites.len() - k,
    {
        if 0 <= k < sprites.len() {
            self.drawn_sprite(sprites[k], large, self.sprites_drawn(sprites, large, f, k + 1))
        } else {
            f
        }
    }

    /// Drawing the first `k` steps of `sprite`'s row changes a pixel of `f`.
    pub open spec fn sprite_changes(self, sprite: Sprite, lo: u8, hi: u8, f: Seq<u32>, k: int) -> bool {
        exists|p: int|
            0 <= p < 8 && Self::sprite_done(sprite, p, k) && #[trigger] self.sprite_pixel(
                sprite,
                lo,
                hi,
                p,
            ) is Some && f[self.line_base(sprite.spec_x()) + p] != self.sprite_pixel(
                sprite,
                lo,
                hi,
                p,
            )->0
    }

    /// Whether sprite `m` of the primary OAM covers the next scanline.
    pub open spec fn sprite_hits(self, m: int) -> bool {
        let y = self.oam_primary@[4 * m] as int;
        self.scanline + 1 != 240 && y <= self.scanline + 1 && self.scanline + 1 < y
            + self.sprite_height()
    }

    /// How many of the first `n` sprites of the primary OAM cover the next scanline.
    pub open spec fn hits_before(self, n: int) -> nat
        decreases n,
    {
        if n <= 0 {
            0
        } else {
            self.hits_before(n - 1) + if self.sprite_hits(n - 1) {
                1nat
            } else {
                0nat
            }
        }
    }

    /// Entry `i` of the sprite queue holds the four OAM bytes of the `i`-th sprite, counting
    /// from 0, of the first `n` that cover the next scanline.
    pub open spec fn queued(self, q: OamSecondary, i: int, n: int) -> bool {
        exists|m: int|
            0 <= m < n && self.sprite_hits(m) && #[trigger] self.hits_before(m) == i
                && q.sprites@[i].bytes@ == self.oam_primary@.subrange(4 * m, 4 * m + 4)
    }

    /// The VRAM address as the PPU bus sees it.
    pub open spec fn vram_addr(self) -> u16 {
        self.registers.addr.addr & 0x3FFF
    }

    /// The background pattern table: $0000 or $1000, as PPUCTRL selects.
    pub open spec fn bg_base(self) -> u16 {
        if self.registers.ctrl & 0x10 == 0 {
            0
        } else {
            0x1000
        }
    }

    /// The row of the back tile's pattern that the VRAM address's fine Y selects.
    pub open spec fn pattern_row_addr(self) -> u16 {
        self.bg_base() | ((self.tile_q@[2].nametable_byte as u16) << 4u16) | ((self.vram_addr()
            >> 12u16) & 0x7)
    }

    /// Fetch the nametable byte the VRAM address points at into the back tile.
    fn do_nametable_fetch(&mut self)
        requires
            old(self).mem_wf(),
        ensures
            final(self).mem_wf(),
            *final(self) == (PPU { tile_q: final(self).tile_q, ..*old(self) }),
            final(self).tile_q@ == old(self).tile_q@.update(
                2,
                Tile {
                    number: ((old(self).vram_addr() & 0xFFF) % 960) as usize,
                    nametable_byte: old(self).internal_byte(0x2000 | (old(self).vram_addr() & 0xFFF)),
                    ..old(self).tile_q@[2]
                },
            ),
    {
        // Upper bits are the fine_y scrolling
        let v = self.registers.addr.to_u16();
        let tile_addr = v & 0xFFF;
        proof {
            lemma_ppu_bits(v, 0, 0, 0, 0);
        }
        let mut t = self.back_tile();
        t.number = (tile_addr % 960) as usize;
        t.nametable_byte = self.ppu_internal_read(0x2000 | tile_addr);
        self.set_back_tile(t);
    }

    /// Fetch the attribute byte of the tile the VRAM address points at into the back tile.
    fn do_attribute_fetch(&mut self)
        requires
            old(self).mem_wf(),
        ensures
            final(self).mem_wf(),
            *final(self) == (PPU { tile_q: final(self).tile_q, ..*old(self) }),
            final(self).tile_q@ == old(self).tile_q@.update(
                2,
                Tile {
                    attribute_byte: old(self).internal_byte(
                        0x23C0 | (old(self).vram_addr() & 0x0C00) | ((old(self).vram_addr() >> 4u16)
                            & 0x38) | ((old(self).vram_addr() >> 2u16) & 0x07),
                    ),
                    ..old(self).tile_q@[2]
                },
            ),
    {
        let v = self.registers.addr.to_u16();
        proof {
            lemma_ppu_bits(v, 0, 0, 0, 0);
        }
        let attribute_addr = 0x23C0 | (v & 0x0C00) | ((v >> 4u16) & 0x38) | ((v >> 2u16) & 0x07);
        let attribute_byte = self.ppu_internal_read(attribute_addr);
        let mut t = self.back_tile();
        t.attribute_byte = attribute_byte;
        self.set_back_tile(t);
    }

    /// Fetch the two pattern bytes of the back tile's current row into it.
    fn do_pattern_fetch(&mut self)
        requires
            old(self).mem_wf(),
        ensures
            final(self).mem_wf(),
            *final(self) == (PPU { tile_q: final(self).tile_q, ..*old(self) }),
            final(self).tile_q@ == old(self).tile_q@.update(
                2,
                Tile {
                    pattern_lo: old(self).internal_byte(old(self).pattern_row_addr()),
                    pattern_hi: old(self).internal_byte((old(self).pattern_row_addr() + 8) as u16),
                    ..old(self).tile_q@[2]
                },
            ),
    {
        let v = self.registers.addr.to_u16();
        let fine_y = (v >> 12u16) & 0x7;
        let base = self.bg_table_base();
        let nt = self.back_tile().nametable_byte;
        proof {
            lemma_ppu_bits(v, 0, nt, base, fine_y);
        }
        let tile_base = base | ((nt as u16) << TILE_STRIDE_SHIFT);
        let pattable_addr = tile_base | fine_y;
        assert(pattable_addr == base | ((nt as u16) << 4u16) | fine_y);
        let lo = self.ppu_internal_read(pattable_addr);
        let hi = self.ppu_internal_read(pattable_addr + TILE_HI_OFFSET_BYTES);
        let mut t = self.back_tile();
        t.pattern_lo = lo;
        t.pattern_hi = hi;
        self.set_back_tile(t);
    }

    /// Move the tile queue on by one: the fetched tile goes to the back.
    fn do_prepare_next_tile(&mut self)
        requires
            old(self).mem_wf(),
            !old(self).spec_is_blanking(),
        ensures
            final(self).mem_wf(),
            *final(self) == (PPU { tile_q: final(self).tile_q, ..*old(self) }),
            final(self).tile_q@ == seq![old(self).tile_q@[1], old(self).tile_q@[2], old(self).tile_q@[0]],
    {
        let t0 = self.tile_q[0];
        let t1 = self.tile_q[1];
        let t2 = self.tile_q[2];
        self.tile_q.set(0, t1);
        self.tile_q.set(1, t2);
        self.tile_q.set(2, t0);
        assert(self.tile_q@ =~= seq![t1, t2, t0]);
    }

    pub open spec fn sprite_height(self) -> int {
        if self.registers.ctrl & 0x20 != 0 {
            16
        } else {
            8
        }
    }

    /// Whether `sprite` covers the next scanline; sprites are never drawn on the first
    /// scanline of a frame, so nothing covers the line after the last visible one.
    pub fn sprite_hit_next_scanline(&self, sprite: &Sprite) -> (r: bool)
        requires
            -1 <= self.scanline <= 260,
        ensures
            r == (self.scanline + 1 != 240 && sprite.spec_y() <= self.scanline + 1
                && self.scanline + 1 < sprite.spec_y() + self.sprite_height()),
    {
        // NOTE: sprites on the first scanline are never rendered
        let next_scanline = self.scanline + 1;
        if next_scanline == VISIBLE_SCANLINES {
            return false;
        }
        let sprite_height: i32 = if (self.registers.ctrl & PpuCtrl::SPRITE_HEIGHT) != 0 {
            16
        } else {
            8
        };
        let y = sprite.y() as i32;
        y <= next_scanline && next_scanline < (y + sprite_height)
    }

    /// Fetch the next background tile and move coarse X on, unless the PPU is blanking.
    fn do_tile_fetches_if_needed(&mut self) -> (r: bool)
        requires
            old(self).mem_wf(),
            (old(self).ppu_cycle - 1) % 8 == 0,
        ensures
            final(self).mem_wf(),
            r == !old(self).spec_is_blanking(),
            !r ==> *final(self) == *old(self),
            r ==> *final(self) == (PPU {
                tile_q: final(self).tile_q,
                registers: Registers {
                    addr: registers::PpuAddr { addr: final(self).registers.addr.addr, ..old(self).registers.addr },
                    ..old(self).registers
                },
                ..*old(self)
            }),
    {
        if self.is_blanking() {
            return false;
        }
        self.do_prepare_next_tile();
        self.do_nametable_fetch();
        self.do_attribute_fetch();
        self.do_pattern_fetch();
        self.registers.addr.incr_x();
        return true;
    }

    /// What the PPU does at `cycle` of `scanline` (https://www.nesdev.org/wiki/PPU_rendering).
    pub fn look_up_state(scanline: i32, cycle: i32) -> (r: PpuState)
        ensures
            r == state_at(scanline as int, cycle as int),
    {
        if scanline == -1 && cycle == 1 {
            PpuState::StartFrame
        } else if scanline == -1 && cycle == 280 {
            PpuState::SyncY
        } else if 0 <= scanline && scanline < 240 && 1 <= cycle && cycle < 256 {
            // Visible scanlines (0-239)
            if ((cycle - 1) % (TILE_WIDTH_PX as i32)) != 0 {
                PpuState::Idle
            } else {
                PpuState::ActiveTileFetch
            }
        } else if 0 <= scanline && scanline < 240 && cycle == 256 {
            // Draw sprites once on the last visible cycle so they're over the background
            PpuState::Idle
        } else if 0 <= scanline && scanline < 240 && cycle == 257 {
            PpuState::DrawAndEvalSprites
        } else if 0 <= scanline && scanline < 240 && 321 <= cycle && cycle < 337 {
            if ((cycle - 1) % (TILE_WIDTH_PX as i32)) != 0 {
                PpuState::Idle
            } else {
                PpuState::BlankingTileFetch
            }
        } else if 0 <= scanline && scanline < 240 && cycle == 337 {
            PpuState::StartHBlank
        } else if scanline == 240 && cycle == 1 {
            PpuState::IdleScanline
        } else if scanline == 241 && cycle == 1 {
            PpuState::StartVBlank
        } else if scanline == 259 && cycle == 340 {
            PpuState::EOF
        } else {
            PpuState::Idle
        }
    }

    /// For each state, the PPU cycles until the next state that does something.
    fn create_transition_lut() -> (r: Vec<i32>)
        ensures
            r@ == transition_table(),
    {
        let mut transitions: Vec<i32> = Vec::new();
        transitions.push(1);
        transitions.push(279);
        transitions.push(62);
        transitions.push(8);
        transitions.push(64);
        transitions.push(8);
        transitions.push(5);
        transitions.push(341);
        transitions.push(6477);
        transitions.push(343);
        assert(transitions@ =~= transition_table());
        transitions
    }
}

impl<R: Renderer> PPU<R> {
    /// `next` is this PPU after one transition of its state machine (see
    /// `handle_transition`): the position moves on by the current state's distance, the
    /// state there is entered, and the frame changes only as that state draws: a background
    /// tile row, the sprite rows, or the flip to the finished frame at the end of a frame.
    pub closed spec fn transitioned(self, next: Self) -> bool {
        &&& (next.mem_wf())
        &&& (next.pos_wf())
        &&& ((next.scanline as int, next.ppu_cycle as int) == advance(
                self.scanline as int,
                self.ppu_cycle as int,
                transition_cycles(self.current_state) as int,
            ))
        &&& (self.same_config(next))
        &&& (next.cycles_behind == self.cycles_behind)
        &&& (next.current_state == PpuState::StartVBlank ==> next.registers.status
                & 0x80 != 0 && (next.registers.ctrl & 0x80 != 0
                ==> next.flags.has_nmi))
        &&& (next.current_state == PpuState::ActiveTileFetch
                ==> next.frame_buf.current() == (if !(PPU {
                scanline: next.scanline,
                ppu_cycle: next.ppu_cycle,
                ..self
            }).spec_is_blanking() && self.registers.mask & 0x08 != 0 {
                next.bg_row(self.frame_buf.current(), 8)
            } else {
                self.frame_buf.current()
            }))
        &&& (next.current_state == PpuState::DrawAndEvalSprites
                ==> next.frame_buf.current() == (PPU {
                scanline: next.scanline,
                ppu_cycle: next.ppu_cycle,
                ..self
            }).sprites_drawn(
                self.oam_secondary.sprites@.subrange(0, self.oam_secondary.len as int),
                self.registers.ctrl & 0x20 != 0,
                self.frame_buf.current(),
                0,
            ))
        &&& (next.current_state == PpuState::EOF ==> next.frame_buf == (if self.spec_rendering_enabled() && self.needs_render {
                FrameBuffer {
                    index: ((self.frame_buf.index + 1) % 2) as usize,
                    ..self.frame_buf
                }
            } else {
                self.frame_buf
            }))
        &&& (!(next.current_state == PpuState::ActiveTileFetch || next.current_state
                == PpuState::DrawAndEvalSprites || next.current_state == PpuState::EOF)
                ==> next.frame_buf == self.frame_buf)
        &&& (next.current_state == state_at(
                next.scanline as int,
                next.ppu_cycle as int,
            ))
    }

    /// One step of a run: `next` is this PPU after one transition, with the cycles still to
    /// run counted down by that transition's distance.
    pub open spec fn stepped_to(self, next: Self) -> bool {
        &&& self.transitioned(PPU { cycles_behind: self.cycles_behind, ..next })
        &&& next.cycles_behind == self.cycles_behind - transition_cycles(self.current_state)
    }

    /// `states` is a run of the state machine: each element is one step after the one before.
    pub open spec fn is_run(states: Seq<Self>) -> bool {
        forall|i: int| 0 <= i < states.len() - 1 ==> #[trigger] states[i].stepped_to(states[i + 1])
    }

    /// Some run of the state machine leads from this PPU to `last`.
    pub open spec fn runs_to(self, last: Self) -> bool {
        exists|states: Seq<Self>|
            #![trigger Self::is_run(states)]
            states.len() >= 1 && states[0] == self && Self::is_run(states) && states.last() == last
    }

    proof fn lemma_transitioned(a: Self, b: Self, cycles: i32)
        requires
            cycles == transition_cycles(a.current_state),
            b.mem_wf(),
            b.pos_wf(),
            (b.scanline as int, b.ppu_cycle as int) == advance(
                a.scanline as int,
                a.ppu_cycle as int,
                cycles as int,
            ),
            a.same_config(b),
            b.cycles_behind == a.cycles_behind,
            b.current_state == PpuState::StartVBlank ==> b.registers.status
                & 0x80 != 0 && (b.registers.ctrl & 0x80 != 0
                ==> b.flags.has_nmi),
            b.current_state == PpuState::ActiveTileFetch
                ==> b.frame_buf.current() == (if !(PPU {
                scanline: b.scanline,
                ppu_cycle: b.ppu_cycle,
                ..a
            }).spec_is_blanking() && a.registers.mask & 0x08 != 0 {
                b.bg_row(a.frame_buf.current(), 8)
            } else {
                a.frame_buf.current()
            }),
            b.current_state == PpuState::DrawAndEvalSprites
                ==> b.frame_buf.current() == (PPU {
                scanline: b.scanline,
                ppu_cycle: b.ppu_cycle,
                ..a
            }).sprites_drawn(
                a.oam_secondary.sprites@.subrange(0, a.oam_secondary.len as int),
                a.registers.ctrl & 0x20 != 0,
                a.frame_buf.current(),
                0,
            ),
            b.current_state == PpuState::EOF ==> b.frame_buf == (if a.spec_rendering_enabled() && a.needs_render {
                FrameBuffer {
                    index: ((a.frame_buf.index + 1) % 2) as usize,
                    ..a.frame_buf
                }
            } else {
                a.frame_buf
            }),
            !(b.current_state == PpuState::ActiveTileFetch || b.current_state
                == PpuState::DrawAndEvalSprites || b.current_state == PpuState::EOF)
                ==> b.frame_buf == a.frame_buf,
            b.current_state == state_at(
                b.scanline as int,
                b.ppu_cycle as int,
            ),
        ensures
            a.transitioned(b),
    {
    }

    /// Move the state machine to its next state, `cycles` (the current state's transition
    /// distance) later, and do what that state does.
    fn handle_transition(&mut self, cycles: i32)
        requires
            old(self).mem_wf(),
            old(self).pos_wf(),
            cycles == transition_cycles(old(self).current_state),
        ensures
            old(self).transitioned(*final(self)),
    {
        proof {
            lemma_transition_lands_on_state(self.scanline as int, self.ppu_cycle as int);
            if sprite_bound(self.scanline as int, self.ppu_cycle as int) < 0 {
                lemma_no_sprites_below_zero(*self);
            }
        }
        let mut next_cycle = self.ppu_cycle + cycles;
        let mut next_scanline = self.scanline;
        if next_cycle >= CYCLES_PER_SCANLINE {
            next_scanline = next_scanline + next_cycle / CYCLES_PER_SCANLINE;
            next_cycle = next_cycle % CYCLES_PER_SCANLINE;
            if next_scanline > LAST_SCANLINE {
                next_scanline = next_scanline - SCANLINES_PER_FRAME;
            }
        }
        self.scanline = next_scanline;
        self.ppu_cycle = next_cycle;
        let state = Self::look_up_state(next_scanline, next_cycle);
        match state {
            PpuState::Idle => {
                proof {
                    assert(false);
                }
            },
            PpuState::StartFrame => self.do_start_frame(),
            PpuState::SyncY => self.do_sync_y(),
            PpuState::ActiveTileFetch => {
                let ghost at = *self;
                let fetched = self.do_tile_fetches_if_needed();
                if fetched {
                    // Render one tile at a time. This is how frequently the real hardware is
                    // updated.
                    let ghost fetched_ppu = *self;
                    self.draw_background();
                    assert(fetched_ppu.bg_row(at.frame_buf.current(), 8) =~= self.bg_row(
                        at.frame_buf.current(),
                        8,
                    ));
                    let ghost entered = PPU { current_state: PpuState::ActiveTileFetch, ..*self };
                    assert(entered.bg_row(at.frame_buf.current(), 8) =~= self.bg_row(
                        at.frame_buf.current(),
                        8,
                    ));
                }
                assert(at == (PPU { scanline: self.scanline, ppu_cycle: self.ppu_cycle, ..*old(self) }));
            },
            PpuState::DrawAndEvalSprites => {
                let ghost at = *self;
                self.draw_sprites();
                self.evaluate_sprites_next_scanline();
                assert(at == (PPU { scanline: self.scanline, ppu_cycle: self.ppu_cycle, ..*old(self) }));
            },
            PpuState::BlankingTileFetch => {
                self.do_tile_fetches_if_needed();
            },
            PpuState::StartVBlank => {
                let ghost prev = self.registers.status;
                self.do_start_vblank();
                assert(((prev & !0x40u8) | 0x80u8) & 0x80 != 0) by (bit_vector);
            },
            PpuState::EOF => self.do_end_frame(),
            PpuState::StartHBlank | PpuState::IdleScanline => {},
        }
        self.current_state = state;
        proof {
            Self::lemma_transitioned(*old(self), *self, cycles);
        }
    }

    /// Add `ticks` PPU cycles to the ones to run, and run them once the PPU would reach the
    /// vertical blank, where the CPU can see what it did.
    /// What `clock` does with `ticks` more cycles to run: below the vertical blank they are
    /// only counted; from there on a run of the state machine (see `runs_to`) takes the PPU,
    /// with them counted, to `next`, which has no full frame of cycles left to run and shows
    /// the vertical blank where the cycles reach it.
    pub open spec fn clocked_to(self, ticks: int, next: Self) -> bool {
        &&& next.wf()
        &&& self.same_config(next)
        &&& self.spec_total_cycles() + ticks < VBLANK_START ==> next == (PPU {
            cycles_behind: (self.cycles_behind + ticks) as i32,
            ..self
        })
        &&& self.spec_total_cycles() + ticks >= VBLANK_START ==> (PPU {
            cycles_behind: (self.cycles_behind + ticks) as i32,
            ..self
        }).runs_to(next)
        &&& next.spec_total_cycles() <= self.spec_total_cycles() + ticks
        &&& (self.spec_total_cycles() + ticks - next.spec_total_cycles()) % frame_cycles() == 0
        &&& self.pos_cycles() < vblank_set_cycle() <= self.spec_total_cycles() + ticks
            < frame_end_cycle() ==> next.registers.status & 0x80 != 0 && (self.registers.ctrl
            & 0x80 != 0 ==> next.flags.has_nmi)
    }

    pub fn clock(&mut self, ticks: usize)
        requires
            old(self).wf(),
            ticks <= 0x7000_0000,
        ensures
            old(self).clocked_to(ticks as int, *final(self)),
    {
        self.cycles_behind = self.cycles_behind + ticks as i32;
        if self.total_ppu_cycles_unchecked() >= VBLANK_START {
            self.tick_n();
        }
    }

    fn total_ppu_cycles_unchecked(&self) -> (r: i32)
        requires
            -1 <= self.scanline <= 260,
            0 <= self.ppu_cycle < 341,
            0 <= self.cycles_behind <= 0x7100_0000,
        ensures
            r == self.spec_total_cycles(),
    {
        (1 + self.scanline) * CYCLES_PER_SCANLINE + self.ppu_cycle + self.cycles_behind
    }

    /// Run the cycles the PPU is behind, one state transition at a time, stopping before a
    /// transition that the remaining cycles do not reach.
    fn tick_n(&mut self)
        requires
            old(self).mem_wf(),
            old(self).pos_wf(),
            0 <= old(self).cycles_behind <= 0x7100_0000,
        ensures
            final(self).wf(),
            old(self).same_config(*final(self)),
            0 <= final(self).cycles_behind <= old(self).cycles_behind,
            old(self).same_time(*final(self)),
            old(self).vblank_seen(*final(self)),
            old(self).cycles_behind <= MAX_BEHIND ==> old(self).caught_up(*final(self)),
            old(self).runs_to(*final(self)),
    {
        let ghost mut moved = false;
        let ghost mut states: Seq<Self> = seq![*self];
        loop
            invariant
                states.len() >= 1,
                states[0] == *old(self),
                Self::is_run(states),
                states.last() == *self,
                self.mem_wf(),
                self.pos_wf(),
                0 <= self.cycles_behind <= old(self).cycles_behind,
                old(self).cycles_behind <= 0x7100_0000,
                old(self).same_config(*self),
                old(self).same_time(*self),
                !moved ==> self.scanline == old(self).scanline && self.ppu_cycle == old(
                    self,
                ).ppu_cycle,
                moved && self.current_state == PpuState::StartVBlank ==> self.registers.status
                    & 0x80 != 0 && (self.registers.ctrl & 0x80 != 0 ==> self.flags.has_nmi),
            ensures
                states.len() >= 1,
                states[0] == *old(self),
                Self::is_run(states),
                states.last() == *self,
                self.cycles_behind <= 6477,
                self.cycles_behind == 0 || self.cycles_behind < transition_cycles(
                    self.current_state,
                ),
                !moved ==> self.scanline == old(self).scanline && self.ppu_cycle == old(
                    self,
                ).ppu_cycle,
                moved && self.current_state == PpuState::StartVBlank ==> self.registers.status
                    & 0x80 != 0 && (self.registers.ctrl & 0x80 != 0 ==> self.flags.has_nmi),
            decreases self.cycles_behind,
        {
            if self.cycles_behind == 0 {
                break;
            }
            let cycles = self.transition_lut[state_index_exec(self.current_state)];
            proof {
                lemma_transition_table(self.current_state);
            }
            if self.cycles_behind < cycles {
                break;
            }
            let ghost before = *self;
            self.handle_transition(cycles);
            let ghost moved_to = *self;
            self.cycles_behind = self.cycles_behind - cycles;
            proof {
                assert(moved_to == (PPU { cycles_behind: before.cycles_behind, ..*self }));
                assert(before.stepped_to(*self));
                let longer = states.push(*self);
                assert forall|i: int| 0 <= i < longer.len() - 1 implies #[trigger] longer[i].stepped_to(
                    longer[i + 1],
                ) by {
                    if i < states.len() - 1 {
                        assert(longer[i] == states[i] && longer[i + 1] == states[i + 1]);
                    }
                }
                states = longer;
                lemma_advance_time(before.scanline as int, before.ppu_cycle as int, cycles as int);
                let d0 = old(self).spec_total_cycles() - before.spec_total_cycles();
                let d1 = old(self).spec_total_cycles() - self.spec_total_cycles();
                assert(d1 == d0 || d1 == frame_cycles() + d0);
                vstd::arithmetic::div_mod::lemma_mod_add_multiples_vanish(d0, frame_cycles());
                moved = true;
            }
        }
        proof {
            let t = old(self).spec_total_cycles();
            if old(self).pos_cycles() < vblank_set_cycle() <= t < frame_end_cycle() {
                let d = t - self.spec_total_cycles();
                vstd::arithmetic::div_mod::lemma_small_mod(d as nat, frame_cycles() as nat);
                assert(self.pos_cycles() + self.cycles_behind == t);
                if self.pos_cycles() < vblank_set_cycle() {
                    lemma_transition_reaches_vblank(self.scanline as int, self.ppu_cycle as int);
                } else {
                    lemma_vblank_is_quiet(self.scanline as int, self.ppu_cycle as int);
                }
            }
        }
    }

    fn bg_table_base(&self) -> (r: u16)
        ensures
            r == (if self.registers.ctrl & 0x10 == 0 {
                0u16
            } else {
                0x1000u16
            }),
    {
        if (self.registers.ctrl & PpuCtrl::BG_TABLE_ADDR) == 0 {
            0x0000
        } else {
            0x1000
        }
    }

    fn sprite_table_base(&self) -> (r: u16)
        ensures
            r == (if self.registers.ctrl & 0x08 == 0 {
                0u16
            } else {
                0x1000u16
            }),
    {
        if self.registers.ctrl & PpuCtrl::SPRITE_TABLE_ADDR == 0 {
            0x0000
        } else {
            0x1000
        }
    }

    /// Take the pending NMI: the result says whether one was raised, and none is pending
    /// afterwards.
    pub fn generate_nmi(&mut self) -> (r: bool)
        ensures
            r == old(self).flags.has_nmi,
            *final(self) == (PPU { flags: Flags { has_nmi: false, ..old(self).flags }, ..*old(self) }),
    {
        let nmi = self.flags.has_nmi;
        self.flags.has_nmi = false;
        nmi
    }

    fn palette_read(&self, addr: u16) -> (r: u8)
        requires
            self.palette_table@.len() == 32,
            addr <= 0xFF,
        ensures
            r == self.palette_table@[palette_index(addr)] & 0x3F,
    {
        let mut a = addr & 0x1F;
        // Addresses $3F10/$3F14/$3F18/$3F1C are mirrors of $3F00/$3F04/$3F08/$3F0C
        if a % 4 == 0 {
            a = a & !0x10u16;
        }
        proof {
            lemma_ppu_bits(0, addr, 0, 0, 0);
        }
        // $3F20-$3FFF: mirrors of palette RAM
        self.palette_table[a as usize] & 0x3F
    }

    fn palette_write(&mut self, addr: u16, val: u8)
        requires
            old(self).palette_table@.len() == 32,
            addr <= 0xFF,
        ensures
            final(self).palette_table@ == old(self).palette_table@.update(palette_index(addr), val),
            final(self).palette_table@.len() == 32,
            0 <= palette_index(addr) < 32,
            *final(self) == (PPU { palette_table: final(self).palette_table, ..*old(self) }),
    {
        let mut a = addr;
        // Addresses $3F10/$3F14/$3F18/$3F1C are mirrors of $3F00/$3F04/$3F08/$3F0C
        if a % 4 == 0 {
            a = a & !0x10u16;
        }
        proof {
            lemma_palette_bits(addr);
        }
        // $3F20-$3FFF: mirrors of palette RAM
        self.palette_table.set((a & 0x1F) as usize, val);
    }

    fn is_visible_cycle(&self) -> (r: bool)
        ensures
            r == (0 <= self.scanline < 240 && self.ppu_cycle < 258),
    {
        0 <= self.scanline && self.scanline < VISIBLE_SCANLINES && self.ppu_cycle < VISIBLE_CYCLES
    }

    /// Where pixel `x` of the current scanline goes in the frame buffer.
    fn render_base_address(&self, x: usize) -> (r: usize)
        requires
            0 <= self.scanline < 240,
            x <= 255,
        ensures
            r == self.scanline * 256 + x,
    {
        let tile_y = self.scanline as usize / TILE_HEIGHT_PX;
        let tile_row = self.scanline as usize % TILE_HEIGHT_PX;
        ((tile_y * TILE_HEIGHT_PX + tile_row) * FRAME_WIDTH_TILES) * TILE_WIDTH_PX + x
    }

    /// Draw the front tile's eight pixels of the current scanline, when the background is
    /// shown.
    fn draw_background(&mut self)
        requires
            old(self).mem_wf(),
            0 <= old(self).scanline < 240,
            1 <= old(self).ppu_cycle <= 249,
            (old(self).ppu_cycle - 1) % 8 == 0,
        ensures
            final(self).mem_wf(),
            *final(self) == (PPU {
                frame_buf: final(self).frame_buf,
                needs_render: final(self).needs_render,
                ..*old(self)
            }),
            old(self).registers.mask & 0x08 == 0 ==> *final(self) == *old(self),
            old(self).registers.mask & 0x08 != 0 ==> final(self).frame_buf.current() == old(
                self,
            ).bg_row(old(self).frame_buf.current(), 8) && final(self).frame_buf.index == old(
                self,
            ).frame_buf.index && final(self).frame_buf.shown() == old(self).frame_buf.shown()
                && final(self).needs_render == (old(self).needs_render || old(self).bg_changes(
                old(self).frame_buf.current(),
                8,
            )),
    {
        if !self.background_enabled() {
            return;
        }
        let t = self.front_tile();
        // Each attribute byte covers 4x4 tiles, two bits per 2x2 quadrant
        // (https://wiki.nesdev.org/w/index.php?title=PPU_attribute_tables)
        let tile_attr_x = t.number % FRAME_WIDTH_TILES;
        let tile_attr_y = t.number / FRAME_WIDTH_TILES;
        let attribute_byte = t.attribute_byte;
        proof {
            lemma_ppu_bits(0, 0, attribute_byte, 0, 0);
        }
        let qx = (tile_attr_x % 4) / 2;
        let qy = (tile_attr_y % 4) / 2;
        let d3_d2 = if qx == 0 && qy == 0 {
            attribute_byte & 0x3
        } else if qx == 1 && qy == 0 {
            (attribute_byte >> 2u8) & 0x3
        } else if qx == 0 && qy == 1 {
            (attribute_byte >> 4u8) & 0x3
        } else {
            (attribute_byte >> 6u8) & 0x3
        };
        // Rendering the background should be tile-aligned
        let x = (self.ppu_cycle - 1) as usize;
        let base_addr = self.render_base_address(x);
        let color_idx = tile_lohi_to_idx(t.pattern_lo, t.pattern_hi);
        assert(d3_d2 == bg_palette_bits(t));
        let ghost f0 = self.frame_buf.current();
        let mut px: usize = 0;
        while px < 8
            invariant
                self.mem_wf(),
                px <= 8,
                base_addr + 8 <= FRAME_SIZE,
                base_addr == old(self).bg_row_base(),
                t == old(self).tile_q@[0],
                d3_d2 == bg_palette_bits(t),
                d3_d2 < 4,
                forall|j: int| 0 <= j < 8 ==> #[trigger] color_idx@[j] < 4,
                forall|j: int| 0 <= j < 8 ==> #[trigger] color_idx@[j] == pixel_index(t.pattern_lo, t.pattern_hi, j),
                *self == (PPU {
                    frame_buf: self.frame_buf,
                    needs_render: self.needs_render,
                    ..*old(self)
                }),
                f0 == old(self).frame_buf.current(),
                self.frame_buf.index == old(self).frame_buf.index,
                self.frame_buf.shown() == old(self).frame_buf.shown(),
                self.frame_buf.current() == old(self).bg_row(f0, px as int),
                self.needs_render == (old(self).needs_render || old(self).bg_changes(f0, px as int)),
            decreases 8 - px,
        {
            let ghost before = self.frame_buf.current();
            self.draw_pixel(base_addr, px, 0, d3_d2, color_idx[px]);
            proof {
                let o = *old(self);
                assert(before[base_addr + px] == f0[o.bg_row_base() + px]);
                assert(o.pixel_color(0, d3_d2, color_idx@[px as int]) == o.bg_color(px as int));
                assert(self.frame_buf.current() =~= o.bg_row(f0, px + 1));
                if o.bg_changes(f0, px + 1) && !o.bg_changes(f0, px as int) {
                    assert(f0[o.bg_row_base() + px] != o.bg_color(px as int));
                }
                if f0[o.bg_row_base() + px] != o.bg_color(px as int) {
                    assert(o.bg_changes(f0, px + 1));
                }
                if o.bg_changes(f0, px as int) {
                    let j = choose|j: int| 0 <= j < px && #[trigger] f0[o.bg_row_base() + j] != o.bg_color(j);
                    assert(o.bg_changes(f0, px + 1));
                }
            }
            px = px + 1;
        }
    }

    /// Find the sprites of the primary OAM that cover the next scanline and queue up to
    /// eight of them; a ninth sets the overflow flag. Then copy the horizontal scroll into
    /// the VRAM address, unless the PPU is blanking.
    fn evaluate_sprites_next_scanline(&mut self)
        requires
            old(self).mem_wf(),
            0 <= old(self).scanline < 240,
            old(self).ppu_cycle == 257,
            old(self).oam_secondary.len == 0,
        ensures
            final(self).mem_wf(),
            final(self).sprites_within(sprite_bound(final(self).scanline as int, 257)),
            old(self).same_config(*final(self)),
            final(self).scanline == old(self).scanline,
            final(self).ppu_cycle == old(self).ppu_cycle,
            final(self).current_state == old(self).current_state,
            final(self).cycles_behind == old(self).cycles_behind,
            final(self).frame_buf == old(self).frame_buf,
            old(self).registers.mask & 0x10 == 0 ==> *final(self) == *old(self),
            old(self).registers.mask & 0x10 != 0 ==> ({
                let o = *old(self);
                let q = final(self).oam_secondary;
                &&& q.len == (if o.hits_before(64) < 8 {
                    o.hits_before(64)
                } else {
                    8
                })
                &&& forall|i: int| 0 <= i < q.len ==> o.queued(q, i, 64)
                &&& q.has_sprite_0 == (o.oam_secondary.has_sprite_0 || o.sprite_hits(0))
                &&& final(self).registers.status == (if o.hits_before(63) >= 8 {
                    o.registers.status | 0x20
                } else {
                    o.registers.status
                })
                &&& final(self).registers.addr == (if o.spec_is_blanking() {
                    o.registers.addr
                } else {
                    registers::PpuAddr {
                        addr: (o.registers.addr.tmp & registers::HORIZ_MASK) | (o.registers.addr.addr
                            & !registers::HORIZ_MASK),
                        ..o.registers.addr
                    }
                })
                &&& final(self).registers.ctrl == o.registers.ctrl
            }),
    {
        if !self.sprites_enabled() {
            return;
        }
        let ghost o = *old(self);
        let ghost bound = sprite_bound(self.scanline as int, 257);
        let mut n: usize = 0;
        while n < NUM_SPRITES
            invariant_except_break
                self.registers == o.registers,
            invariant
                self.mem_wf(),
                n <= NUM_SPRITES,
                self.sprites_within(bound),
                bound == sprite_bound(self.scanline as int, 257),
                old(self).same_config(*self),
                self.scanline == old(self).scanline,
                self.ppu_cycle == old(self).ppu_cycle,
                self.current_state == old(self).current_state,
                self.cycles_behind == old(self).cycles_behind,
                0 <= self.scanline < 240,
                o == *old(self),
                self.frame_buf == o.frame_buf,
                self.oam_secondary.len == o.hits_before(n as int),
                o.hits_before(n as int) <= 8,
                n > 0 ==> o.hits_before(n - 1) < 8,
                forall|i: int| 0 <= i < self.oam_secondary.len ==> o.queued(self.oam_secondary, i, n as int),
                self.oam_secondary.has_sprite_0 == (o.oam_secondary.has_sprite_0 || (n > 0 && o.sprite_hits(0))),
            ensures
                self.mem_wf(),
                self.sprites_within(bound),
                old(self).same_config(*self),
                self.scanline == old(self).scanline,
                self.ppu_cycle == old(self).ppu_cycle,
                self.current_state == old(self).current_state,
                self.cycles_behind == old(self).cycles_behind,
                self.oam_secondary.len == (if o.hits_before(64) < 8 {
                    o.hits_before(64)
                } else {
                    8
                }),
                forall|i: int| 0 <= i < self.oam_secondary.len ==> o.queued(self.oam_secondary, i, 64),
                self.oam_secondary.has_sprite_0 == (o.oam_secondary.has_sprite_0 || o.sprite_hits(0)),
                self.registers.status == (if o.hits_before(63) >= 8 {
                    o.registers.status | 0x20
                } else {
                    o.registers.status
                }),
                self.registers.addr == o.registers.addr,
                self.registers.ctrl == o.registers.ctrl,
                self.registers.mask == o.registers.mask,
                self.frame_buf == o.frame_buf,
            decreases NUM_SPRITES - n,
        {
            if self.oam_secondary.len() >= MAX_SPRITES {
                // Sprite found but all of them are already set. Set the overflow flag without
                // adding the sprite to be rendered
                proof {
                    lemma_hits_monotone(o, n as int, 64);
                    lemma_hits_monotone(o, n as int, 63);
                    assert forall|i: int| 0 <= i < self.oam_secondary.len implies o.queued(self.oam_secondary, i, 64) by {
                        assert(o.queued(self.oam_secondary, i, n as int));
                        let m = choose|m: int| 0 <= m < n && o.sprite_hits(m) && #[trigger] o.hits_before(m) == i
                            && self.oam_secondary.sprites@[i].bytes@ == o.oam_primary@.subrange(4 * m, 4 * m + 4);
                    }
                    if n == 0 {
                        assert(o.hits_before(0) == 0);
                    }
                }
                self.registers.status = self.registers.status | PpuStatus::SPRITE_OVERFLOW;
                break;
            }
            // Process the sprite in the primary OAM at this location. If it is in the range of
            // the next scanline being rendered, copy it to the second OAM to be rendered
            let sprite_raw: SpriteRaw = [
                self.oam_primary[4 * n],
                self.oam_primary[4 * n + 1],
                self.oam_primary[4 * n + 2],
                self.oam_primary[4 * n + 3],
            ];
            let ghost q0 = self.oam_secondary;
            self.oam_secondary.add_potential_sprite(&sprite_raw);
            let sprite = self.oam_secondary.get_potential_sprite();
            assert(sprite.bytes@ =~= o.oam_primary@.subrange(4 * n, 4 * n + 4));
            let hit = self.sprite_hit_next_scanline(&sprite);
            assert(hit == o.sprite_hits(n as int));
            if hit {
                // This is sprite 0 in the OAM
                if n == 0 {
                    self.oam_secondary.has_sprite_0 = true;
                }
                // Found a sprite we can draw: count it
                self.oam_secondary.commit();
            }
            proof {
                assert(o.hits_before(n + 1) == o.hits_before(n as int) + if o.sprite_hits(n as int) {
                    1nat
                } else {
                    0nat
                });
                let n1: int = n + 1;
                assert forall|i: int| 0 <= i < self.oam_secondary.len implies #[trigger] o.queued(self.oam_secondary, i, n1) by {
                    if i < q0.len {
                        assert(o.queued(q0, i, n as int));
                        let m = choose|m: int| 0 <= m < n && o.sprite_hits(m) && #[trigger] o.hits_before(m) == i
                            && q0.sprites@[i].bytes@ == o.oam_primary@.subrange(4 * m, 4 * m + 4);
                        assert(self.oam_secondary.sprites@[i] == q0.sprites@[i]);
                    } else {
                        assert(o.hits_before(n as int) == i);
                    }
                }
            }
            n = n + 1;
        }
        if !self.is_blanking() {
            self.registers.addr.sync_x();
        }
    }

    /// Draw the queued sprites on the current scanline, the lowest OAM index in front, and
    /// empty the queue; then step the VRAM address down a row and right a tile unless the
    /// PPU is blanking. A sprite row that a vertical flip takes out of the 16 rows of a tile
    /// pair is not drawn, nor is a pixel past the end of the frame.
    fn draw_sprites(&mut self)
        requires
            old(self).mem_wf(),
            0 <= old(self).scanline < 240,
            old(self).ppu_cycle == 257,
            old(self).sprites_within(old(self).scanline as int),
        ensures
            final(self).mem_wf(),
            final(self).oam_secondary.len == 0,
            old(self).same_config(*final(self)),
            final(self).scanline == old(self).scanline,
            final(self).ppu_cycle == old(self).ppu_cycle,
            final(self).current_state == old(self).current_state,
            final(self).cycles_behind == old(self).cycles_behind,
            final(self).frame_buf.current() == old(self).sprites_drawn(
                old(self).oam_secondary.sprites@.subrange(0, old(self).oam_secondary.len as int),
                old(self).registers.ctrl & 0x20 != 0,
                old(self).frame_buf.current(),
                0,
            ),
            final(self).frame_buf.index == old(self).frame_buf.index,
            final(self).frame_buf.shown() == old(self).frame_buf.shown(),
    {
        // This must happen when the PPU is drawing the picture, as this is the next scanline
        // from when the sprites were evaluated
        if self.show_clipped_lhs() && !self.sprite0_past_rhs() {
            self.registers.status = self.registers.status | PpuStatus::SPRITE_0_HIT;
        }
        let large_sprites = self.registers.ctrl & PpuCtrl::SPRITE_HEIGHT != 0;
        let mut sprite_queue = OamSecondary::default();
        std::mem::swap(&mut sprite_queue, &mut self.oam_secondary);
        let sprites = sprite_queue.sprites();
        let ghost scanline = self.scanline;
        assert forall|i: int| 0 <= i < sprites@.len() implies scanline - 16 < #[trigger] sprites@[i].spec_y()
            <= scanline by {
            assert(sprites@[i] == sprite_queue.sprites@[i]);
        }
        // Sprites with a lower index are drawn in front: draw them last
        let ghost o = *old(self);
        assert(sprites@ == o.oam_secondary.sprites@.subrange(0, o.oam_secondary.len as int));
        let mut k = sprites.len();
        while k > 0
            invariant
                o == *old(self),
                scanline == o.scanline,
                sprites@ == o.oam_secondary.sprites@.subrange(0, o.oam_secondary.len as int),
                large_sprites == (o.registers.ctrl & 0x20 != 0),
                self.frame_buf.current() == o.sprites_drawn(
                    sprites@,
                    large_sprites,
                    o.frame_buf.current(),
                    k as int,
                ),
                self.frame_buf.index == o.frame_buf.index,
                self.frame_buf.shown() == o.frame_buf.shown(),
                self.palette_table == o.palette_table,
                self.cartridge_chr == o.cartridge_chr,
                self.vram == o.vram,
                self.cartridge_header == o.cartridge_header,
                self.mem_wf(),
                k <= sprites@.len(),
                sprites@.len() <= MAX_SPRITES,
                forall|i: int| 0 <= i < sprites@.len() ==> scanline - 16 < #[trigger] sprites@[i].spec_y() <= scanline,
                self.scanline == scanline,
                0 <= scanline < 240,
                self.oam_secondary.len == 0,
                old(self).same_config(*self),
                self.ppu_cycle == old(self).ppu_cycle,
                self.current_state == old(self).current_state,
                self.cycles_behind == old(self).cycles_behind,
                self.registers.ctrl == old(self).registers.ctrl,
            decreases k,
        {
            k = k - 1;
            let sprite = sprites[k];
            let ghost prev = *self;
            self.draw_sprite_row(&sprite, large_sprites);
            proof {
                lemma_drawn_sprite_same(prev, o, sprite, large_sprites, prev.frame_buf.current());
            }
        }
        if !self.is_blanking() {
            if self.registers.addr.can_incr_y() {
                self.registers.addr.incr_y();
            } else {
                self.registers.addr.addr = registers::incr_y_compute(self.registers.addr.addr);
            }
            self.registers.addr.incr_x();
        }
    }

    /// Draw the current scanline's row of one sprite.
    fn draw_sprite_row(&mut self, sprite: &Sprite, large_sprites: bool)
        requires
            old(self).mem_wf(),
            0 <= old(self).scanline < 240,
            old(self).scanline - 16 < sprite.spec_y() <= old(self).scanline,
        ensures
            final(self).mem_wf(),
            *final(self) == (PPU {
                frame_buf: final(self).frame_buf,
                needs_render: final(self).needs_render,
                ..*old(self)
            }),
            old(self).sprite_row_addr(*sprite, large_sprites) is None ==> *final(self) == *old(
                self,
            ),
            old(self).sprite_row_addr(*sprite, large_sprites) matches Some(a) ==> ({
                let lo = old(self).internal_byte(a);
                let hi = old(self).internal_byte((a + 8) as u16);
                &&& final(self).frame_buf.current() == old(self).sprite_row(
                    *sprite,
                    lo,
                    hi,
                    old(self).frame_buf.current(),
                    8,
                )
                &&& final(self).frame_buf.index == old(self).frame_buf.index
                &&& final(self).frame_buf.shown() == old(self).frame_buf.shown()
                &&& final(self).needs_render == (old(self).needs_render || old(self).sprite_changes(
                    *sprite,
                    lo,
                    hi,
                    old(self).frame_buf.current(),
                    8,
                ))
            }),
    {
        if !sprite.is_visible() {
            return;
        }
        let (pattern_table_base, tile) = if large_sprites {
            sprite.tile16()
        } else {
            (self.sprite_table_base(), sprite.tile8())
        };
        let y = sprite.y() as i32;
        let mut sprite_row = (self.scanline - y) as u16;
        if sprite.vert_flip() {
            let height: u16 = if large_sprites {
                16
            } else {
                8
            };
            if sprite_row > height || height - sprite_row >= 16 {
                return;
            }
            sprite_row = height - sprite_row;
        }
        // https://www.nesdev.org/wiki/PPU_palettes
        let d4 = 1u8;  // Sprite, choose sprite palette
        let d3_d2 = sprite.color_d3_d2();
        proof {
            lemma_ppu_bits(0, 0, tile as u8, pattern_table_base, sprite_row);
            assert((tile as u8) as u16 == tile);
        }
        let tile_row_addr = pattern_table_base | (tile << TILE_STRIDE_SHIFT) | sprite_row;
        let pattern_lo = self.ppu_internal_read(tile_row_addr);
        let pattern_hi = self.ppu_internal_read(tile_row_addr + TILE_HI_OFFSET_BYTES);
        let color_idx = tile_lohi_to_idx(pattern_lo, pattern_hi);
        let flip = sprite.horiz_flip();
        let base_addr = self.render_base_address(sprite.x() as usize);
        let ghost f0 = self.frame_buf.current();
        let ghost o = *old(self);
        let ghost spr = *sprite;
        assert(o.sprite_row_addr(spr, large_sprites) == Some(tile_row_addr));
        let mut i: usize = 0;
        while i < 8
            invariant
                self.mem_wf(),
                i <= 8,
                base_addr <= 61439,
                base_addr == o.line_base(spr.spec_x()),
                o == *old(self),
                spr == *sprite,
                d4 == 1,
                d3_d2 < 4,
                d3_d2 == spr.bytes@[2] & 0x3,
                flip == (spr.bytes@[2] & 0x40 != 0),
                forall|j: int| 0 <= j < 8 ==> #[trigger] color_idx@[j] < 4,
                forall|j: int| 0 <= j < 8 ==> #[trigger] color_idx@[j] == pixel_index(pattern_lo, pattern_hi, j),
                *self == (PPU {
                    frame_buf: self.frame_buf,
                    needs_render: self.needs_render,
                    ..*old(self)
                }),
                f0 == o.frame_buf.current(),
                self.frame_buf.index == o.frame_buf.index,
                self.frame_buf.shown() == o.frame_buf.shown(),
                self.frame_buf.current() == o.sprite_row(spr, pattern_lo, pattern_hi, f0, i as int),
                self.needs_render == (o.needs_render || o.sprite_changes(spr, pattern_lo, pattern_hi, f0, i as int)),
            decreases 8 - i,
        {
            let px = if flip {
                7 - i
            } else {
                i
            };
            let lo = color_idx[i];
            let ghost before = self.frame_buf.current();
            // 0 is transparent
            if lo != 0 && base_addr + px < FRAME_SIZE {
                self.draw_pixel(base_addr, px, d4, d3_d2, lo);
            }
            proof {
                let p = px as int;
                let k = i as int;
                assert(o.sprite_pixel(spr, pattern_lo, pattern_hi, p) == (if lo != 0 && base_addr + px < FRAME_SIZE {
                    Some(o.pixel_color(1, d3_d2, lo))
                } else {
                    None
                }));
                assert(forall|q: int| 0 <= q < 8 ==> (Self::sprite_done(spr, q, k + 1) <==> (Self::sprite_done(spr, q, k) || q == p)));
                assert(!Self::sprite_done(spr, p, k));
                if base_addr + px < FRAME_SIZE {
                    assert(before[base_addr + px] == f0[base_addr + px]);
                }
                assert(self.frame_buf.current() =~= o.sprite_row(spr, pattern_lo, pattern_hi, f0, k + 1));
                if o.sprite_changes(spr, pattern_lo, pattern_hi, f0, k) {
                    let q = choose|q: int| 0 <= q < 8 && Self::sprite_done(spr, q, k) && #[trigger] o.sprite_pixel(spr, pattern_lo, pattern_hi, q) is Some && f0[o.line_base(spr.spec_x()) + q] != o.sprite_pixel(spr, pattern_lo, pattern_hi, q)->0;
                    assert(o.sprite_changes(spr, pattern_lo, pattern_hi, f0, k + 1));
                }
                if o.sprite_changes(spr, pattern_lo, pattern_hi, f0, k + 1) {
                    let q = choose|q: int| 0 <= q < 8 && Self::sprite_done(spr, q, k + 1) && #[trigger] o.sprite_pixel(spr, pattern_lo, pattern_hi, q) is Some && f0[o.line_base(spr.spec_x()) + q] != o.sprite_pixel(spr, pattern_lo, pattern_hi, q)->0;
                    if q != p {
                        assert(o.sprite_changes(spr, pattern_lo, pattern_hi, f0, k));
                    }
                }
                if lo != 0 && base_addr + px < FRAME_SIZE && f0[base_addr + px] != o.pixel_color(1, d3_d2, lo) {
                    assert(o.sprite_pixel(spr, pattern_lo, pattern_hi, p) is Some);
                    assert(o.sprite_changes(spr, pattern_lo, pattern_hi, f0, k + 1));
                }
            }
            i = i + 1;
        }
    }

    fn draw_pixel(&mut self, base: usize, px: usize, d4: u8, d3_d2: u8, d1_d0: u8)
        requires
            old(self).mem_wf(),
            base + px < FRAME_SIZE,
            d4 < 2,
            d3_d2 < 4,
            d1_d0 < 4,
        ensures
            final(self).mem_wf(),
            *final(self) == (PPU {
                frame_buf: final(self).frame_buf,
                needs_render: final(self).needs_render,
                ..*old(self)
            }),
            final(self).frame_buf.current() == old(self).frame_buf.current().update(
                base + px,
                old(self).pixel_color(d4, d3_d2, d1_d0),
            ),
            final(self).frame_buf.index == old(self).frame_buf.index,
            final(self).frame_buf.shown() == old(self).frame_buf.shown(),
            final(self).needs_render == (old(self).needs_render || old(
                self,
            ).frame_buf.current()[base + px] != old(self).pixel_color(d4, d3_d2, d1_d0)),
    {
        proof {
            lemma_ppu_bits(0, 0, d4, d3_d2 as u16, d1_d0 as u16);
        }
        let palette_addr = (d4 << 4u8) | (d3_d2 << 2u8) | d1_d0;
        let color_idx = self.palette_read(palette_addr as u16);
        let color = palette_color_exec(color_idx);
        let buf_addr = base + px;
        self.needs_render = self.needs_render || self.frame_buf.get(buf_addr) != color;
        self.frame_buf.set(buf_addr, color);
    }

    /// Hand the finished frame to the renderer when it changed, and start drawing into the
    /// other buffer.
    fn render_frame(&mut self)
        requires
            old(self).mem_wf(),
        ensures
            final(self).mem_wf(),
            old(self).same_config(*final(self)),
            final(self).registers == old(self).registers,
            final(self).oam_secondary == old(self).oam_secondary,
            final(self).scanline == old(self).scanline,
            final(self).ppu_cycle == old(self).ppu_cycle,
            final(self).current_state == old(self).current_state,
            final(self).cycles_behind == old(self).cycles_behind,
            final(self).frame == old(self).frame,
            final(self).flags == old(self).flags,
            !old(self).needs_render ==> *final(self) == *old(self),
            old(self).needs_render ==> *final(self) == (PPU {
                renderer: final(self).renderer,
                needs_render: false,
                frame_buf: FrameBuffer {
                    index: ((old(self).frame_buf.index + 1) % 2) as usize,
                    ..old(self).frame_buf
                },
                ..*old(self)
            }),
    {
        if !self.needs_render {
            return;
        }
        self.needs_render = false;
        let bytes = self.frame_buf.to_bytes();
        self.renderer.draw_frame(bytes.as_slice());
        self.frame_buf.swap();
    }
}

/// Drawing a sprite's row depends only on the scanline, PPUCTRL, the pattern and name
/// tables, the palettes and the mirroring.
proof fn lemma_drawn_sprite_same<R: Renderer>(p: PPU<R>, q: PPU<R>, sprite: Sprite, large: bool, f: Seq<u32>)
    requires
        p.scanline == q.scanline,
        p.registers.ctrl == q.registers.ctrl,
        p.palette_table == q.palette_table,
        p.cartridge_chr == q.cartridge_chr,
        p.vram == q.vram,
        p.cartridge_header == q.cartridge_header,
    ensures
        p.drawn_sprite(sprite, large, f) == q.drawn_sprite(sprite, large, f),
{
    assert(p.sprite_row_addr(sprite, large) == q.sprite_row_addr(sprite, large));
    if let Some(a) = p.sprite_row_addr(sprite, large) {
        let lo = p.internal_byte(a);
        let hi = p.internal_byte((a + 8) as u16);
        assert(lo == q.internal_byte(a));
        assert(hi == q.internal_byte((a + 8) as u16));
        assert(p.sprite_row(sprite, lo, hi, f, 8) =~= q.sprite_row(sprite, lo, hi, f, 8));
    }
}

/// Counting more sprites finds at least as many that cover the next scanline.
proof fn lemma_hits_monotone<R: Renderer>(p: PPU<R>, a: int, b: int)
    requires
        a <= b,
    ensures
        p.hits_before(a) <= p.hits_before(b),
    decreases b - a,
{
    if a < b {
        lemma_hits_monotone(p, a, b - 1);
    }
}

/// No sprite starts above scanline 0, so a negative bound leaves the queue empty.
proof fn lemma_no_sprites_below_zero<R: Renderer>(p: PPU<R>)
    requires
        p.sprites_within(sprite_bound(p.scanline as int, p.ppu_cycle as int)),
        sprite_bound(p.scanline as int, p.ppu_cycle as int) < 0,
    ensures
        p.oam_secondary.len == 0,
{
    if p.oam_secondary.len > 0 {
        assert(p.oam_secondary.sprites@[0].spec_y() >= 0);
    }
}

proof fn lemma_palette_bits(addr: u16)
    by (bit_vector)
    ensures
        (addr % 4 == 0) == ((addr & 0x1F) % 4 == 0),
        (addr & !0x10u16) & 0x1F == (addr & 0x1F) & !0x10u16,
        (addr & 0x1F) & !0x10u16 < 32,
        addr & 0x1F < 32,
{
}

proof fn lemma_mirror_bits(a: u16)
    by (bit_vector)
    ensures
        ((a & !0xFFFu16) | (a & 0xBFF)) == (((a ^ 0x400) & !0xFFFu16) | ((a ^ 0x400) & 0xBFF)),
        ((a & !0xFFFu16) | (a & 0x7FF)) == (((a ^ 0x800) & !0xFFFu16) | ((a ^ 0x800) & 0x7FF)),
        ((((a & !0xFFFu16) | (a & 0xBFF)) & !0xFFFu16) | (((a & !0xFFFu16) | (a & 0xBFF)) & 0xBFF))
            == ((a & !0xFFFu16) | (a & 0xBFF)),
        ((((a & !0xFFFu16) | (a & 0x7FF)) & !0xFFFu16) | (((a & !0xFFFu16) | (a & 0x7FF)) & 0x7FF))
            == ((a & !0xFFFu16) | (a & 0x7FF)),
        (a & 0x1F) & 0x1F == a & 0x1F,
        (a & 0x1F) % 4 == 0 && (a & 0x10) != 0 ==> ((a & 0x1F) & !0x10u16) == ((a & !0x10u16) & 0x1F),
        ((a & !0x10u16) & 0x1F) % 4 == (a & 0x1F) % 4,
        (((a & !0x10u16) & 0x1F) & !0x10u16) == ((a & 0x1F) & !0x10u16),
{
}

/// Nametable mirroring: horizontal mirroring gives $2000 and $2400 (and $2800 and $2C00) the
/// same memory, vertical mirroring $2000 and $2800 (and $2400 and $2C00); mirroring an address
/// that is already mirrored changes nothing.
pub proof fn lemma_nametable_mirrors(addr: u16)
    ensures
        spec_mirror(Mirroring::Horizontal, addr) == spec_mirror(Mirroring::Horizontal, addr ^ 0x400),
        spec_mirror(Mirroring::Vertical, addr) == spec_mirror(Mirroring::Vertical, addr ^ 0x800),
        spec_mirror(Mirroring::Horizontal, spec_mirror(Mirroring::Horizontal, addr))
            == spec_mirror(Mirroring::Horizontal, addr),
        spec_mirror(Mirroring::Vertical, spec_mirror(Mirroring::Vertical, addr)) == spec_mirror(
            Mirroring::Vertical,
            addr,
        ),
{
    lemma_mirror_bits(addr);
}

/// The 32 palette bytes repeat every $20 bytes up to $3FFF, and the background colour entries
/// $3F10, $3F14, $3F18 and $3F1C are the same bytes as $3F00, $3F04, $3F08 and $3F0C.
pub proof fn lemma_palette_mirrors(addr: u16)
    ensures
        palette_index(addr) == palette_index(addr & 0x1F),
        0 <= palette_index(addr) < 32,
        (addr & 0x1F) % 4 == 0 ==> palette_index(addr) == palette_index(addr & !0x10u16),
{
    lemma_mirror_bits(addr);
    lemma_palette_bits(addr);
    lemma_palette_bits(addr & !0x10u16);
}

/// A PPUDATA write moves the VRAM address on by 32 when PPUCTRL bit 2 is set (down a column
/// of the nametable) and by 1 when it is clear, from where the PPU's catching up left it.
pub proof fn lemma_ppudata_write_steps_address<R: Renderer>(
    p: PPU<R>,
    addr: u16,
    val: u8,
    next: PPU<R>,
)
    requires
        addr % 8 == 7,
        p.writes_register(addr, val, next),
    ensures
        exists|mid: PPU<R>|
            #![trigger p.caught_up(mid)]
            p.caught_up(mid) && next.registers.addr.addr == mid.registers.addr.addr.wrapping_add(
                if p.registers.ctrl & 0x04 != 0 {
                    32u16
                } else {
                    1u16
                },
            ),
{
}

/// A PPUDATA read moves the VRAM address on by 32 when PPUCTRL bit 2 is set and by 1 when it
/// is clear, from where the PPU's catching up left it.
pub proof fn lemma_ppudata_read_steps_address<R: Renderer>(
    p: PPU<R>,
    addr: u16,
    r: u8,
    next: PPU<R>,
)
    requires
        addr % 8 == 7,
        p.reads_register(addr, r, next),
    ensures
        exists|mid: PPU<R>|
            #![trigger p.caught_up(mid)]
            p.caught_up(mid) && next.registers.addr.addr == mid.registers.addr.addr.wrapping_add(
                if p.registers.ctrl & 0x04 != 0 {
                    32u16
                } else {
                    1u16
                },
            ),
{
}

proof fn lemma_attribute_field(ab: u8)
    by (bit_vector)
    ensures
        ab & 0x3 == (ab >> 0u8) & 0x3,
{
}

/// The palette of a background tile is the two-bit field of its attribute byte at bit
/// `2 * (2 * qy + qx)`, where `qx` is the tile's column modulo 4 halved and `qy` its row
/// modulo 4 halved: bits 1-0 for the top-left quadrant of the 4x4-tile block, 3-2 for the
/// top-right, 5-4 for the bottom-left and 7-6 for the bottom-right. Each pixel of the tile
/// takes its colour from that palette.
pub proof fn lemma_bg_palette_quadrant<R: Renderer>(t: Tile, p: PPU<R>, j: int)
    ensures
        ({
            let column = t.number % 32;
            let row = t.number / 32;
            let qx = (column % 4) / 2;
            let qy = (row % 4) / 2;
            &&& 0 <= qx <= 1 && 0 <= qy <= 1
            &&& bg_palette_bits(t) == (t.attribute_byte >> ((2 * (2 * qy + qx)) as u8)) & 0x3
        }),
        p.tile_q@.len() > 0 ==> ({
            let t0 = p.tile_q@[0];
            let qx = ((t0.number % 32) % 4) / 2;
            let qy = ((t0.number / 32) % 4) / 2;
            p.bg_color(j) == p.pixel_color(
                0,
                (t0.attribute_byte >> ((2 * (2 * qy + qx)) as u8)) & 0x3,
                pixel_index(t0.pattern_lo, t0.pattern_hi, j),
            )
        }),
{
    lemma_attribute_field(t.attribute_byte);
    if p.tile_q@.len() > 0 {
        lemma_attribute_field(p.tile_q@[0].attribute_byte);
    }
}

} // verus!
