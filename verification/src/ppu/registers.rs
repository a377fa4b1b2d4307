//! The PPU's memory-mapped registers and its internal VRAM address ("loopy" v/t/x/w).
use vstd::prelude::*;

verus! {

pub struct PpuCtrl;

impl PpuCtrl {
    pub const NMI_ENABLE: u8 = 0x80;
    pub const SLAVE_SELECT: u8 = 0x40;
    pub const SPRITE_HEIGHT: u8 = 0x20;
    pub const BG_TABLE_ADDR: u8 = 0x10;
    pub const SPRITE_TABLE_ADDR: u8 = 0x08;
    pub const VRAM_INCR: u8 = 0x04;
    pub const NAMETABLE_ADDR: u8 = 0x03;
}

pub struct PpuMask;

impl PpuMask {
    pub const EMPH_BLUE: u8 = 0x80;
    pub const EMPH_GREEN: u8 = 0x40;
    pub const EMPH_RED: u8 = 0x20;
    pub const SHOW_SPRITES: u8 = 0x10;
    pub const SHOW_BG: u8 = 0x08;
    pub const SHOW_LEFT_SPRITES: u8 = 0x04;
    pub const SHOW_LEFT_BG: u8 = 0x02;
    pub const GRAYSCALE: u8 = 0x01;
}

pub struct PpuStatus;

impl PpuStatus {
    pub const VBLANK_STARTED: u8 = 0x80;
    pub const SPRITE_0_HIT: u8 = 0x40;
    pub const SPRITE_OVERFLOW: u8 = 0x20;
    pub const PREV_LSB: u8 = 0x1F;
}

#[derive(Clone, Copy)]
pub struct Registers {
    pub ctrl: u8,
    pub mask: u8,
    pub status: u8,
    pub oamaddr: u8,
    pub oamdata: u8,
    pub addr: PpuAddr,
}

impl Default for Registers {
    fn default() -> (r: Registers)
        ensures
            r.ctrl == 0 && r.mask == 0 && r.status == 0 && r.oamaddr == 0 && r.oamdata == 0,
            r.addr == PpuAddr::spec_default(),
    {
        Registers { ctrl: 0, mask: 0, status: 0, oamaddr: 0, oamdata: 0, addr: PpuAddr::default() }
    }
}

/// Which of the two writes of PPUSCROLL or PPUADDR comes next (the `w` latch).
#[derive(Clone, Copy, Debug, PartialEq, Eq, Structural)]
pub enum AddrNextWrite {
    FirstWrite,
    SecondWrite,
}

/// The current VRAM address (`v`), the temporary address (`t`), the fine X scroll and the
/// write latch.
#[derive(Clone, Copy, Debug)]
pub struct PpuAddr {
    pub tmp: u16,
    pub addr: u16,
    pub fine_x: u16,
    pub next_wr: AddrNextWrite,
}

impl Default for PpuAddr {
    fn default() -> (r: PpuAddr)
        ensures
            r == PpuAddr::spec_default(),
    {
        PpuAddr { tmp: 0, addr: 0, fine_x: 0, next_wr: AddrNextWrite::FirstWrite }
    }
}

/// Coarse X (bits 0-4) and the horizontal nametable bit (bit 10).
pub const HORIZ_MASK: u16 = 0x041F;

/// Everything else: coarse Y, the vertical nametable bit and fine Y.
pub const VERT_MASK: u16 = 0xFBE0;

/// The coarse Y field of an address as the vertical increment sees it: bits 5-15 without the
/// horizontal nametable bit, shifted down.
pub open spec fn vert_coarse(addr: u16) -> u16 {
    (addr & VERT_MASK) >> 5u16
}

/// The address after the vertical increment, before its check that the horizontal bits kept
/// their value.
pub open spec fn incr_y_value(addr: u16) -> u16 {
    if addr & 0x7000 == 0 {
        (addr + 0x1000) as u16
    } else {
        let a = addr & !0x7000u16;
        let coarse = vert_coarse(a);
        let a2 = if coarse == 29 {
            a ^ 0x0800
        } else {
            a
        };
        let coarse2: u16 = if coarse == 29 || coarse == 31 {
            0
        } else {
            (coarse + 1) as u16
        };
        (a2 & !VERT_MASK) | ((coarse2 << 5u16) as u16)
    }
}

/// The vertical increment keeps the horizontal bits: it fails only when coarse Y is 31
/// under a set vertical nametable bit (or bit 15), where the increment carries into bit 10.
pub open spec fn incr_y_keeps_horizontal(addr: u16) -> bool {
    !(addr & 0x7000 != 0 && addr & 0x03E0 == 0x03E0 && addr & 0x8800 != 0)
}

proof fn lemma_addr_bits(addr: u16, tmp: u16, val: u8)
    by (bit_vector)
    ensures
        (addr & 0x001F) != 0x001F ==> ((addr + 1) as u16) & VERT_MASK == addr & VERT_MASK,
        (addr & 0x001F) != 0x001F ==> addr + 1 <= 0xFFFF,
        ((addr & 0xFFE0) ^ 0x0400) & VERT_MASK == addr & VERT_MASK,
        addr & 0x7000 == 0 ==> addr + 0x1000 <= 0xFFFF,
        addr & 0x7000 == 0 ==> ((addr + 0x1000) as u16) & HORIZ_MASK == addr & HORIZ_MASK,
        incr_y_keeps_horizontal(addr) ==> incr_y_value(addr) & HORIZ_MASK == addr & HORIZ_MASK,
        ((tmp & HORIZ_MASK) | (addr & !HORIZ_MASK)) & HORIZ_MASK == tmp & HORIZ_MASK,
        ((tmp & HORIZ_MASK) | (addr & !HORIZ_MASK)) & VERT_MASK == addr & VERT_MASK,
        ((tmp & VERT_MASK) | (addr & !VERT_MASK)) & VERT_MASK == tmp & VERT_MASK,
        ((tmp & VERT_MASK) | (addr & !VERT_MASK)) & HORIZ_MASK == addr & HORIZ_MASK,
        (3u16 << 10u16) == 0xC00u16,
        addr & 0x3FFF <= 0x3FFF,
{
}

impl PpuAddr {
    pub open spec fn spec_default() -> PpuAddr {
        PpuAddr { tmp: 0, addr: 0, fine_x: 0, next_wr: AddrNextWrite::FirstWrite }
    }

    pub open spec fn spec_addr_write(self, val: u8) -> PpuAddr {
        match self.next_wr {
            AddrNextWrite::FirstWrite => PpuAddr {
                tmp: ((val as u16) << 8u16) | (self.tmp & 0xFF),
                next_wr: AddrNextWrite::SecondWrite,
                ..self
            },
            AddrNextWrite::SecondWrite => PpuAddr {
                tmp: (self.tmp & 0x3F00) | (val as u16),
                addr: (self.tmp & 0x3F00) | (val as u16),
                next_wr: AddrNextWrite::FirstWrite,
                ..self
            },
        }
    }

    pub open spec fn spec_scroll_write(self, val: u8) -> PpuAddr {
        match self.next_wr {
            AddrNextWrite::FirstWrite => PpuAddr {
                tmp: ((val as u16) >> 3u16) | (self.tmp & 0xFFE0),
                fine_x: (val & 0x7) as u16,
                next_wr: AddrNextWrite::SecondWrite,
                ..self
            },
            AddrNextWrite::SecondWrite => PpuAddr {
                tmp: ((((val as u16) & 0x7) << 12u16) | (self.tmp & 0xC00) | (((val as u16)
                    >> 3u16) << 5u16)) as u16,
                next_wr: AddrNextWrite::FirstWrite,
                ..self
            },
        }
    }

    pub open spec fn spec_set_nametable(self, ctrl: u8) -> PpuAddr {
        PpuAddr {
            tmp: (self.tmp & !0xC00u16) | ((((ctrl & 0x3) as u16) << 10u16) as u16),
            ..self
        }
    }

    /// A write to PPUADDR: the high byte (kept to six bits once complete) then the low byte,
    /// which also makes the temporary address current.
    pub fn addr_write(&mut self, val: u8)
        ensures
            *final(self) == old(self).spec_addr_write(val),
    {
        match self.next_wr {
            AddrNextWrite::FirstWrite => {
                self.tmp = ((val as u16) << 8u16) | (self.tmp & 0xFF);
                self.next_wr = AddrNextWrite::SecondWrite;
            },
            AddrNextWrite::SecondWrite => {
                self.tmp = (self.tmp & 0x3F00) | val as u16;
                self.addr = self.tmp;
                self.next_wr = AddrNextWrite::FirstWrite;
            },
        }
    }

    /// A write to PPUSCROLL: X (coarse into `t`, fine into `x`) then Y (fine and coarse into
    /// `t`, keeping its nametable bits).
    pub fn scroll_write(&mut self, val: u8)
        ensures
            *final(self) == old(self).spec_scroll_write(val),
    {
        match self.next_wr {
            AddrNextWrite::FirstWrite => {
                self.tmp = ((val as u16) >> 3u16) | (self.tmp & 0xFFE0);
                self.fine_x = (val & 0x7) as u16;
                self.next_wr = AddrNextWrite::SecondWrite;
            },
            AddrNextWrite::SecondWrite => {
                let fine_y = ((val as u16) & 0x7) << 12u16;
                let coarse_y = ((val as u16) >> 3u16) << 5u16;
                let nt_select = self.tmp & 0xC00;
                self.tmp = fine_y | nt_select | coarse_y;
                self.next_wr = AddrNextWrite::FirstWrite;
            },
        }
    }

    /// Copy the nametable select bits of PPUCTRL into bits 10-11 of `t`.
    pub fn set_nametable(&mut self, ctrl: u8)
        ensures
            *final(self) == old(self).spec_set_nametable(ctrl),
    {
        let addr_nt_mask: u16 = (PpuCtrl::NAMETABLE_ADDR as u16) << 10u16;
        let nt_base = (ctrl & PpuCtrl::NAMETABLE_ADDR) as u16;
        proof {
            lemma_addr_bits(self.addr, self.tmp, ctrl);
        }
        self.tmp = (self.tmp & !addr_nt_mask) | (nt_base << 10u16);
    }

    /// Step the address by `amt` (1 or 32) after a PPUDATA access, wrapping past $FFFF.
    pub fn incr(&mut self, amt: u16)
        ensures
            *final(self) == (PpuAddr { addr: old(self).addr.wrapping_add(amt), ..*old(self) }),
    {
        self.addr = self.addr.wrapping_add(amt);
    }

    /// Move to the next tile to the right: coarse X wraps at 31 into the other horizontal
    /// nametable. The vertical bits never change.
    pub fn incr_x(&mut self)
        ensures
            final(self).addr == (if old(self).addr & 0x001F == 0x001F {
                (old(self).addr & 0xFFE0) ^ 0x0400
            } else {
                (old(self).addr + 1) as u16
            }),
            final(self).addr & VERT_MASK == old(self).addr & VERT_MASK,
            final(self).tmp == old(self).tmp,
            final(self).fine_x == old(self).fine_x,
            final(self).next_wr == old(self).next_wr,
    {
        proof {
            lemma_addr_bits(self.addr, self.tmp, 0);
        }
        if (self.addr & 0x001F) == 0x001F {
            self.addr = (self.addr & 0xFFE0) ^ 0x0400;
        } else {
            self.addr = self.addr + 1;
        }
    }

    /// Move down a row: fine Y steps from 0 to 1; otherwise fine Y is cleared and coarse Y
    /// steps, wrapping at 29 into the other vertical nametable (and at 31 without it). The
    /// horizontal bits never change; an address on which the step would carry into them is
    /// refused.
    pub fn incr_y(&mut self)
        requires
            incr_y_keeps_horizontal(old(self).addr),
        ensures
            final(self).addr == incr_y_value(old(self).addr),
            final(self).addr & HORIZ_MASK == old(self).addr & HORIZ_MASK,
            final(self).tmp == old(self).tmp,
            final(self).fine_x == old(self).fine_x,
            final(self).next_wr == old(self).next_wr,
    {
        proof {
            lemma_addr_bits(self.addr, self.tmp, 0);
        }
        self.addr = incr_y_compute(self.addr);
    }

    /// Whether the vertical increment can step this address without touching the
    /// horizontal bits.
    pub fn can_incr_y(&self) -> (r: bool)
        ensures
            r == incr_y_keeps_horizontal(self.addr),
    {
        let a = self.addr;
        !(a & 0x7000 != 0 && a & 0x03E0 == 0x03E0 && a & 0x8800 != 0)
    }

    /// The address as the PPU bus sees it: 14 bits.
    pub fn to_u16(self) -> (r: u16)
        ensures
            r == self.addr & 0x3FFF,
            r <= 0x3FFF,
    {
        proof {
            lemma_addr_bits(self.addr, self.tmp, 0);
        }
        self.addr & 0x3FFF
    }

    /// Reading PPUSTATUS resets the write latch.
    pub fn reset(&mut self)
        ensures
            *final(self) == (PpuAddr { next_wr: AddrNextWrite::FirstWrite, ..*old(self) }),
    {
        self.next_wr = AddrNextWrite::FirstWrite;
    }

    /// Copy the horizontal bits of `t` into `v`.
    pub fn sync_x(&mut self)
        ensures
            *final(self) == (PpuAddr {
                addr: (old(self).tmp & HORIZ_MASK) | (old(self).addr & !HORIZ_MASK),
                ..*old(self)
            }),
            final(self).addr & HORIZ_MASK == old(self).tmp & HORIZ_MASK,
            final(self).addr & VERT_MASK == old(self).addr & VERT_MASK,
    {
        proof {
            lemma_addr_bits(self.addr, self.tmp, 0);
        }
        self.addr = (self.tmp & HORIZ_MASK) | (self.addr & !HORIZ_MASK);
    }

    /// Copy the vertical bits of `t` into `v`.
    pub fn sync_y(&mut self)
        ensures
            *final(self) == (PpuAddr {
                addr: (old(self).tmp & VERT_MASK) | (old(self).addr & !VERT_MASK),
                ..*old(self)
            }),
            final(self).addr & VERT_MASK == old(self).tmp & VERT_MASK,
            final(self).addr & HORIZ_MASK == old(self).addr & HORIZ_MASK,
    {
        proof {
            lemma_addr_bits(self.addr, self.tmp, 0);
        }
        self.addr = (self.tmp & VERT_MASK) | (self.addr & !VERT_MASK);
    }
}

/// The vertical increment's arithmetic.
pub(crate) fn incr_y_compute(addr: u16) -> (r: u16)
    ensures
        r == incr_y_value(addr),
{
    if (addr & 0x7000) == 0 {
        assert(addr & 0x7000 == 0 ==> addr + 0x1000 <= 0xFFFF) by (bit_vector);
        return addr + 0x1000;
    }
    let mut a = addr & !0x7000u16;
    let mut coarse_y = (a & VERT_MASK) >> 5u16;
    if coarse_y == 29 {
        coarse_y = 0;
        a = a ^ 0x0800;
    } else if coarse_y == 31 {
        coarse_y = 0;
    } else {
        assert((a & VERT_MASK) >> 5u16 <= 0x7DF) by (bit_vector);
        coarse_y = coarse_y + 1;
    }
    (a & !VERT_MASK) | (coarse_y << 5u16)
}

/// Two writes to PPUADDR, high byte then low byte, make `v` the 14-bit address they spell and
/// leave the latch ready for the next pair.
pub proof fn lemma_addr_write_pair(p: PpuAddr, hi: u8, lo: u8)
    requires
        p.next_wr == AddrNextWrite::FirstWrite,
    ensures
        ({
            let q = p.spec_addr_write(hi).spec_addr_write(lo);
            &&& q.addr == (((hi & 0x3F) as u16) << 8u16) | (lo as u16)
            &&& q.addr <= 0x3FFF
            &&& q.tmp == q.addr
            &&& q.next_wr == AddrNextWrite::FirstWrite
            &&& q.fine_x == p.fine_x
        }),
{
    let t = p.tmp;
    assert(((((hi as u16) << 8u16) | (t & 0xFF)) & 0x3F00) | (lo as u16) == (((hi & 0x3F) as u16)
        << 8u16) | (lo as u16) && (((hi & 0x3F) as u16) << 8u16) | (lo as u16) <= 0x3FFF)
        by (bit_vector);
}

} // verus!
