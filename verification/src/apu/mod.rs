//! The audio processing unit: two pulse channels, a triangle, a noise channel and the delta
//! modulation channel, behind the registers at $4000-$4015.

pub mod counter;
pub mod dmc;
pub mod noise;
pub mod pulse;
pub mod triangle;
pub mod volume;

use crate::cartridge::{Cartridge, CartridgeInterface};
use crate::cartridge::mapper::Mapper;
use crate::memory::ROM;
use vstd::prelude::*;

verus! {

/// Bits of the status register $4015.
pub struct ApuStatus;

impl ApuStatus {
    pub const R_DMC_IRQ: u8 = 0x80;
    pub const R_FRAME_IRQ: u8 = 0x40;
    pub const R_DMC_ACTIVE: u8 = 0x10;
    pub const R_NOISE_ACTIVE: u8 = 0x80;
    pub const R_TRIANGLE_ACTIVE: u8 = 0x80;
    pub const R_PULSE1_ACTIVE: u8 = 0x80;
    pub const R_PULSE2_ACTIVE: u8 = 0x80;
}

pub struct APU {
    pub pulse_1: Pulse,
    pub pulse_2: Pulse,
    pub triangle: Triangle,
    pub noise: Noise,
    pub dmc: Dmc,
}

impl APU {
    pub open spec fn wf(self) -> bool {
        self.dmc.wf() && self.pulse_1.wf() && self.pulse_2.wf()
    }

    /// The APU of a console holding `game`; the DMC takes its samples from the cartridge.
    pub fn new(game: &Cartridge) -> (r: Self)
        requires
            game.wf(),
        ensures
            r.wf(),
            r.dmc.samples.data@ == game.mapper.dpcm_data(),
    {
        APU {
            pulse_1: Pulse::default(),
            pulse_2: Pulse::default(),
            triangle: Triangle::default(),
            noise: Noise::default(),
            dmc: Dmc::new(game.dpcm()),
        }
    }

    /// A read of the register at `addr` gives `r` and leaves the APU as it was (see
    /// `register_read`).
    pub open spec fn reads_register(self, addr: u16, r: u8, next: Self) -> bool {
        &&& next == self
        &&& (addr < 0x4 ==> r == 0xff)
        &&& (0x4 <= addr < 0x8 ==> r == 0xff)
        &&& (0x8 <= addr < 0xC ==> r == self.triangle.spec_read((addr - 0x8) as u16))
        &&& (0xC <= addr < 0x10 ==> r == self.noise.spec_read((addr - 0xC) as u16))
        &&& (0x10 <= addr < 0x14 ==> r == self.dmc.spec_read((addr - 0x10) as u16))
        &&& (addr == 0x14 ==> r == 0xFF)
        &&& (addr == 0x15 ==> r == (if self.dmc.irq_en {
                ApuStatus::R_DMC_IRQ
            } else {
                0
            }))
    }

    /// Read the register at `addr` ($4000 + `addr`).
    pub fn register_read(&mut self, addr: u16) -> (r: u8)
        requires
            old(self).wf(),
            addr <= 0x15,
        ensures
            final(self).wf(),
            old(self).reads_register(addr, r, *final(self)),
    {
        if addr < 0x4 {
            self.pulse_1.register_read(addr)
        } else if addr < 0x8 {
            self.pulse_2.register_read(addr - 0x4)
        } else if addr < 0xC {
            self.triangle.register_read(addr - 0x8)
        } else if addr < 0x10 {
            self.noise.register_read(addr - 0xC)
        } else if addr < 0x14 {
            self.dmc.register_read(addr - 0x10)
        } else if addr == 0x14 {
            0xFF
        } else {
            self.status_read()
        }
    }

    /// A write of `val` to the register at `addr` leaves the APU as `next` (see `register_write`).
    pub open spec fn writes_register(self, addr: u16, val: u8, next: Self) -> bool {
        &&& (addr < 0x4 ==> next.pulse_1 == self.pulse_1.spec_write(addr, val))
        &&& (0x4 <= addr < 0x8 ==> next.pulse_2 == self.pulse_2.spec_write(
                (addr - 0x4) as u16,
                val,
            ))
        &&& (0x8 <= addr < 0xC ==> next.triangle == self.triangle.spec_write(
                (addr - 0x8) as u16,
                val,
            ))
        &&& (0xC <= addr < 0x10 ==> next.noise == self.noise.spec_write(
                (addr - 0xC) as u16,
                val,
            ))
        &&& (0x10 <= addr < 0x14 ==> next.dmc == self.dmc.spec_write(
                (addr - 0x10) as u16,
                val,
            ))
        &&& (addr >= 0x4 ==> next.pulse_1 == self.pulse_1)
        &&& (!(0x4 <= addr < 0x8) ==> next.pulse_2 == self.pulse_2)
        &&& (!(0x8 <= addr < 0xC) ==> next.triangle == self.triangle)
        &&& (!(0xC <= addr < 0x10) ==> next.noise == self.noise)
        &&& (!(0x10 <= addr < 0x14) ==> next.dmc == self.dmc)
    }

    /// Write `val` to the register at `addr` ($4000 + `addr`); $4014 (OAM DMA) is not the
    /// APU's and is ignored here.
    pub fn register_write(&mut self, addr: u16, val: u8)
        requires
            old(self).wf(),
            addr <= 0x15,
        ensures
            final(self).wf(),
            old(self).writes_register(addr, val, *final(self)),
    {
        if addr < 0x4 {
            self.pulse_1.register_write(addr, val)
        } else if addr < 0x8 {
            self.pulse_2.register_write(addr - 0x4, val)
        } else if addr < 0xC {
            self.triangle.register_write(addr - 0x8, val)
        } else if addr < 0x10 {
            self.noise.register_write(addr - 0xC, val)
        } else if addr < 0x14 {
            self.dmc.register_write(addr - 0x10, val)
        } else if addr == 0x14 {
        } else {
            self.status_write(val)
        }
    }

    pub fn irq_raised(&self) -> (r: bool)
        ensures
            r == self.dmc.irq_raised,
    {
        self.dmc.irq_raised
    }

    fn status_read(&self) -> (r: u8)
        ensures
            r == (if self.dmc.irq_en {
                ApuStatus::R_DMC_IRQ
            } else {
                0
            }),
    {
        if self.dmc.irq_en {
            ApuStatus::R_DMC_IRQ
        } else {
            0
        }
    }

    /// Channel enables are decoded but not acted on yet.
    fn status_write(&self, val: u8) {
        let _pulse1_en = val & 0x1;
        let _pulse2_en = val & 0x2;
        let _triangle_en = val & 0x4;
        let _noise_en = val & 0x8;
        let _dmc_en = val & 0x10;
    }
}

/// APU clocks per output bit at each of the 16 DMC rates. The rates are given in CPU cycles
/// in https://www.nesdev.org/wiki/APU_DMC; an APU clock is two CPU cycles.
pub open spec fn dmc_rate(index: u8) -> u16 {
    (match index {
        0 => 398u16,
        1 => 354,
        2 => 316,
        3 => 298,
        4 => 276,
        5 => 236,
        6 => 210,
        7 => 198,
        8 => 176,
        9 => 148,
        10 => 132,
        11 => 118,
        12 => 98,
        13 => 78,
        14 => 66,
        _ => 50,
    }) / 2
}

/// The output level after one delta bit: up or down by two, never leaving 0..=127.
pub open spec fn dmc_step(level: u8, lsb: u8) -> u8 {
    if lsb == 0 {
        if level < 2 {
            level
        } else {
            (level - 2) as u8
        }
    } else {
        if level > 125 {
            level
        } else {
            (level + 2) as u8
        }
    }
}

/// The delta modulation channel: plays 1-bit deltas read from the cartridge.
pub struct Dmc {
    pub irq_en: bool,
    pub irq_raised: bool,
    pub dmc_loop: bool,
    pub silence: bool,
    pub rate_index: u8,
    pub output_counter: u8,
    pub current_output: u8,
    pub sample_addr: usize,
    pub current_addr: usize,
    pub sample_len: u16,
    pub bytes_remaining: u16,
    pub bits_remaining: u16,
    pub sample_shift_reg: u8,
    pub cycles_this_sample: u16,
    pub samples: ROM,
}

impl Dmc {
    /// The rate index is one of the sixteen rates, the output level is a 7-bit value, and at
    /// most eight bits of a sample byte remain.
    pub open spec fn wf(self) -> bool {
        &&& self.rate_index < 0x10
        &&& self.output_counter <= 127
        &&& self.bits_remaining <= 8
        &&& self.sample_addr <= 255 * 64
        &&& self.sample_len <= 1 + 255 * 16
    }

    /// The sample being played and the one a loop restarts lie inside the sample memory.
    pub open spec fn in_bounds(self) -> bool {
        &&& self.bytes_remaining > 0 ==> self.current_addr + self.bytes_remaining
            <= self.samples.data@.len()
        &&& self.sample_addr + self.sample_len <= self.samples.data@.len()
    }

    pub open spec fn spec_read(self, addr: u16) -> u8 {
        if addr == 0 {
            ((if self.irq_en {
                0x80u8
            } else {
                0u8
            }) | (if self.dmc_loop {
                0x40u8
            } else {
                0u8
            }) | self.rate_index) as u8
        } else if addr == 1 {
            self.output_counter
        } else if addr == 2 {
            (self.sample_addr / 64) as u8
        } else {
            (self.sample_len.wrapping_sub(1) / 16) as u8
        }
    }

    pub open spec fn spec_write(self, addr: u16, val: u8) -> Dmc {
        if addr == 0 {
            Dmc { irq_en: val & 0x80 != 0, dmc_loop: val & 0x40 != 0, rate_index: val & 0xF, ..self }
        } else if addr == 1 {
            Dmc { output_counter: val & 0x7F, ..self }
        } else if addr == 2 {
            Dmc { sample_addr: (val as usize * 64) as usize, ..self }
        } else {
            Dmc { sample_len: (1 + val as u16 * 16) as u16, ..self }
        }
    }

    /// Taking the next sample byte into the shift register: silence when the sample is
    /// over; otherwise the byte at the current address, and at the sample's end a restart
    /// when looping or the IRQ when not.
    pub open spec fn spec_fetch(self) -> Dmc {
        if self.bytes_remaining == 0 {
            Dmc { bits_remaining: 8, silence: true, ..self }
        } else {
            let taken = Dmc {
                bits_remaining: 8,
                silence: false,
                sample_shift_reg: self.samples.data@[self.current_addr as int],
                current_addr: (self.current_addr + 1) as usize,
                bytes_remaining: (self.bytes_remaining - 1) as u16,
                ..self
            };
            if taken.bytes_remaining != 0 {
                taken
            } else if self.dmc_loop {
                Dmc { current_addr: self.sample_addr, bytes_remaining: self.sample_len, ..taken }
            } else {
                Dmc { irq_raised: self.irq_en, ..taken }
            }
        }
    }

    /// Playing the next delta bit: fetch a byte when no bit is left, shift one bit out, and,
    /// unless silenced, move the level up by two for a 1 and down by two for a 0.
    pub open spec fn spec_output(self) -> Dmc {
        let f = if self.bits_remaining == 0 {
            self.spec_fetch()
        } else {
            self
        };
        let g = Dmc {
            sample_shift_reg: f.sample_shift_reg >> 1u8,
            bits_remaining: (f.bits_remaining - 1) as u16,
            cycles_this_sample: 1,
            ..f
        };
        if g.silence {
            g
        } else {
            Dmc { output_counter: dmc_step(f.output_counter, f.sample_shift_reg & 1), ..g }
        }
    }

    /// The level the DMC outputs: 0 when silenced.
    pub open spec fn spec_level(self) -> u8 {
        if self.silence {
            0
        } else {
            self.output_counter
        }
    }

    pub fn new(samples: ROM) -> (r: Self)
        ensures
            r.wf(),
            r.samples == samples,
            r.output_counter == 0,
            r.bytes_remaining == 0,
            r.bits_remaining == 0,
            r.cycles_this_sample == u16::MAX,
            !r.irq_en && !r.irq_raised && !r.dmc_loop,
    {
        Dmc {
            irq_en: false,
            irq_raised: false,
            dmc_loop: false,
            silence: false,
            rate_index: 0,
            current_output: 0,
            output_counter: 0,
            sample_addr: 0,
            current_addr: 0,
            sample_len: 0,
            bytes_remaining: 0,
            bits_remaining: 0,
            sample_shift_reg: 0,
            cycles_this_sample: u16::MAX,
            samples,
        }
    }

    /// Start playing the sample from its beginning, or stop playing.
    pub fn enable(&mut self, en: bool)
        requires
            old(self).wf(),
        ensures
            final(self).wf(),
            en ==> *final(self) == (Dmc {
                current_addr: old(self).sample_addr,
                bytes_remaining: old(self).sample_len,
                ..*old(self)
            }),
            !en ==> *final(self) == (Dmc { bytes_remaining: 0, ..*old(self) }),
    {
        if en {
            self.start_sampling();
        } else {
            self.bytes_remaining = 0;
        }
    }

    /// Raise the IRQ when `assert` holds and IRQs are enabled; lower it otherwise.
    pub fn dmc_update_irq(&mut self, assert: bool)
        ensures
            *final(self) == (Dmc { irq_raised: old(self).irq_en && assert, ..*old(self) }),
    {
        self.irq_raised = self.irq_en && assert;
    }

    pub fn register_read(&mut self, addr: u16) -> (r: u8)
        requires
            addr <= 3,
        ensures
            *final(self) == *old(self),
            r == old(self).spec_read(addr),
    {
        if addr == 0 {
            (if self.irq_en {
                0x80u8
            } else {
                0u8
            }) | (if self.dmc_loop {
                0x40u8
            } else {
                0u8
            }) | self.rate_index
        } else if addr == 1 {
            self.output_counter
        } else if addr == 2 {
            (self.sample_addr / 64) as u8
        } else {
            (self.sample_len.wrapping_sub(1) / 16) as u8
        }
    }

    pub fn register_write(&mut self, addr: u16, val: u8)
        requires
            old(self).wf(),
            addr <= 3,
        ensures
            final(self).wf(),
            *final(self) == old(self).spec_write(addr, val),
    {
        if addr == 0 {
            self.irq_en = (val & 0x80) != 0;
            self.dmc_loop = (val & 0x40) != 0;
            self.rate_index = val & 0xF;
            assert(val & 0xF < 0x10) by (bit_vector);
        } else if addr == 1 {
            self.output_counter = val & 0x7F;
            assert(val & 0x7F <= 127) by (bit_vector);
        } else if addr == 2 {
            self.sample_addr = val as usize * 64;
        } else {
            self.sample_len = 0x1 + (val as u16 * 16);
        }
    }

    /// One APU clock. The output level only moves once per period of the rate: within a
    /// period the same level is returned again.
    pub fn clock(&mut self) -> (r: u8)
        requires
            old(self).wf(),
            old(self).in_bounds(),
        ensures
            final(self).wf(),
            final(self).in_bounds(),
            r == final(self).current_output,
            old(self).cycles_this_sample < dmc_rate(old(self).rate_index) ==> *final(self) == (Dmc {
                cycles_this_sample: (old(self).cycles_this_sample + 1) as u16,
                ..*old(self)
            }),
            old(self).cycles_this_sample >= dmc_rate(old(self).rate_index) ==> *final(self) == (Dmc {
                current_output: old(self).spec_output().spec_level(),
                ..old(self).spec_output()
            }),
    {
        // The output does not change on every call to clock, but periodically based on the rate
        // index.
        if self.cycles_this_sample < self.cycles_per_sample() {
            self.cycles_this_sample += 1;
            return self.current_output;
        }
        self.current_output = self.get_current_output();
        self.current_output
    }

    /// Play the next delta bit: fetch a sample byte when the shift register is empty (silence
    /// when none is left), then move the level up or down by two.
    fn get_current_output(&mut self) -> (r: u8)
        requires
            old(self).wf(),
            old(self).in_bounds(),
        ensures
            final(self).wf(),
            final(self).in_bounds(),
            *final(self) == old(self).spec_output(),
            r == final(self).spec_level(),
    {
        if self.bits_remaining == 0 {
            self.bits_remaining = 8;
            if let Some(sample) = self.sample_byte() {
                self.sample_shift_reg = sample;
                self.silence = false;
            } else {
                self.silence = true;
            }
        }
        let old_reg = self.sample_shift_reg;
        let lsb = old_reg & 0x1;
        self.sample_shift_reg = old_reg >> 1;
        self.bits_remaining -= 1;
        self.cycles_this_sample = 1;

        if self.silence {
            return 0;
        }
        assert(lsb == 0 || lsb == 1) by (bit_vector)
            requires
                lsb == old_reg & 0x1,
        ;
        self.output_counter = if lsb == 0 {
            if self.output_counter < 2 {
                self.output_counter
            } else {
                self.output_counter - 2
            }
        } else {
            if self.output_counter > 125 {
                self.output_counter
            } else {
                self.output_counter + 2
            }
        };
        self.output_counter
    }

    fn cycles_per_sample(&self) -> (r: u16)
        requires
            self.rate_index < 0x10,
        ensures
            r == dmc_rate(self.rate_index),
    {
        // NOTE: The rates are provided in terms of CPU cycles in
        // https://www.nesdev.org/wiki/APU_DMC but they are more useful as APU clocks
        let rate: u16 = match self.rate_index {
            0 => 398,
            1 => 354,
            2 => 316,
            3 => 298,
            4 => 276,
            5 => 236,
            6 => 210,
            7 => 198,
            8 => 176,
            9 => 148,
            10 => 132,
            11 => 118,
            12 => 98,
            13 => 78,
            14 => 66,
            _ => 50,
        };
        rate / 2
    }

    /// The next byte of the sample, or `None` when the sample is over. Taking the last byte
    /// restarts the sample when looping, and raises the IRQ otherwise.
    fn sample_byte(&mut self) -> (r: Option<u8>)
        requires
            old(self).wf(),
            old(self).bytes_remaining > 0 ==> old(self).current_addr < old(self).samples.data@.len(),
        ensures
            final(self).wf(),
            old(self).in_bounds() ==> final(self).in_bounds(),
            final(self).output_counter == old(self).output_counter,
            final(self).rate_index == old(self).rate_index,
            final(self).bits_remaining == old(self).bits_remaining,
            final(self).sample_shift_reg == old(self).sample_shift_reg,
            final(self).silence == old(self).silence,
            final(self).current_output == old(self).current_output,
            final(self).cycles_this_sample == old(self).cycles_this_sample,
            old(self).bytes_remaining == 0 <==> r is None,
            old(self).bytes_remaining == 0 ==> *final(self) == *old(self),
            old(self).bytes_remaining > 0 ==> r == Some(
                old(self).samples.data@[old(self).current_addr as int],
            ),
            old(self).bytes_remaining == 1 && !old(self).dmc_loop ==> final(self).irq_raised
                == old(self).irq_en,
            old(self).bytes_remaining == 1 && old(self).dmc_loop ==> final(self).bytes_remaining
                == old(self).sample_len,
            old(self).bytes_remaining > 0 ==> *final(self) == (Dmc {
                bits_remaining: old(self).bits_remaining,
                silence: old(self).silence,
                sample_shift_reg: old(self).sample_shift_reg,
                ..old(self).spec_fetch()
            }),
    {
        if self.bytes_remaining == 0 {
            return None;
        }
        let data = self.samples.data[self.current_addr];
        let len = self.samples.data.len();
        assert(self.current_addr < len);
        self.current_addr = self.current_addr + 1;
        self.bytes_remaining -= 1;

        if self.bytes_remaining == 0 {
            if self.dmc_loop {
                self.start_sampling();
            } else {
                self.dmc_update_irq(true);
            }
        }
        Some(data)
    }

    fn start_sampling(&mut self)
        ensures
            *final(self) == (Dmc {
                current_addr: old(self).sample_addr,
                bytes_remaining: old(self).sample_len,
                ..*old(self)
            }),
    {
        self.current_addr = self.sample_addr;
        self.bytes_remaining = self.sample_len;
    }
}

/// The DMC's output level never leaves the 7-bit range, whatever the delta bits.
pub proof fn lemma_dmc_level_in_range(level: u8, lsb: u8)
    requires
        level <= 127,
    ensures
        dmc_step(level, lsb) <= 127,
{
}

/// The noise channel's registers $400C-$400F.
pub struct Noise {
    pub v_loop: bool,
    pub v_const: bool,
    pub n_loop: bool,
    pub envelope: u8,
    pub period: u8,
    pub length_load: u8,
}

impl Default for Noise {
    fn default() -> (r: Self)
        ensures
            r == (Noise {
                v_loop: false,
                v_const: false,
                n_loop: false,
                envelope: 0,
                period: 0,
                length_load: 0,
            }),
    {
        Noise { v_loop: false, v_const: false, n_loop: false, envelope: 0, period: 0, length_load: 0 }
    }
}

/// `flag` in the bit that `mask` selects, as a byte.
pub open spec fn flag_bit(flag: bool, mask: u8) -> u8 {
    if flag {
        mask
    } else {
        0
    }
}

fn flag_bit_exec(flag: bool, mask: u8) -> (r: u8)
    ensures
        r == flag_bit(flag, mask),
{
    if flag {
        mask
    } else {
        0
    }
}

impl Noise {
    pub open spec fn spec_read(self, addr: u16) -> u8 {
        if addr == 0 {
            flag_bit(self.v_loop, 0x20) | flag_bit(self.v_const, 0x10) | self.envelope
        } else if addr == 1 {
            0xff
        } else if addr == 2 {
            flag_bit(self.n_loop, 0x80) | self.period
        } else {
            (self.length_load << 3u8) as u8
        }
    }

    pub open spec fn spec_write(self, addr: u16, val: u8) -> Noise {
        if addr == 0 {
            Noise { v_loop: val & 0x20 != 0, v_const: val & 0x10 != 0, envelope: val & 0xF, ..self }
        } else if addr == 1 {
            self
        } else if addr == 2 {
            Noise { n_loop: val & 0x80 != 0, period: val & 0xF, ..self }
        } else {
            Noise { length_load: val >> 3u8, ..self }
        }
    }

    pub fn register_read(&mut self, addr: u16) -> (r: u8)
        requires
            addr <= 3,
        ensures
            *final(self) == *old(self),
            r == old(self).spec_read(addr),
    {
        if addr == 0 {
            flag_bit_exec(self.v_loop, 0x20) | flag_bit_exec(self.v_const, 0x10) | self.envelope
        } else if addr == 1 {
            0xff
        } else if addr == 2 {
            flag_bit_exec(self.n_loop, 0x80) | self.period
        } else {
            self.length_load << 3u8
        }
    }

    pub fn register_write(&mut self, addr: u16, val: u8)
        requires
            addr <= 3,
        ensures
            *final(self) == old(self).spec_write(addr, val),
    {
        if addr == 0 {
            self.v_loop = (val & 0x20) != 0;
            self.v_const = (val & 0x10) != 0;
            self.envelope = val & 0xF;
        } else if addr == 1 {
        } else if addr == 2 {
            self.n_loop = (val & 0x80) != 0;
            self.period = val & 0xF;
        } else {
            self.length_load = val >> 3u8;
        }
    }
}

/// A divider counts down from its reload value and signals each time it wraps.
pub struct Divider {
    pub reload: u16,
    pub counter: u16,
}

impl Default for Divider {
    fn default() -> (r: Self)
        ensures
            r == (Divider { reload: 0, counter: 0 }),
    {
        Divider { reload: 0, counter: 0 }
    }
}

impl Divider {
    /// One clock: count down, or reload and return 1 when the count is already zero.
    pub fn clock(&mut self) -> (r: u8)
        ensures
            old(self).counter != 0 ==> r == 0 && *final(self) == (Divider {
                counter: (old(self).counter - 1) as u16,
                ..*old(self)
            }),
            old(self).counter == 0 ==> r == 1 && *final(self) == (Divider {
                counter: old(self).reload,
                ..*old(self)
            }),
    {
        if self.counter != 0 {
            self.counter -= 1;
            return 0;
        }
        self.counter = self.reload;
        1
    }

    pub fn reload(&mut self)
        ensures
            *final(self) == (Divider { counter: old(self).reload, ..*old(self) }),
    {
        self.counter = self.reload;
    }

    pub fn set_period(&mut self, period: u16)
        ensures
            *final(self) == (Divider { reload: period, ..*old(self) }),
    {
        self.reload = period;
    }
}

/// The sweep unit of a pulse channel (https://www.nesdev.org/wiki/APU_Sweep).
pub struct SweepUnit {
    pub divider: Divider,
    pub shift: u8,
    pub reload_flag: bool,
    pub enabled: bool,
    pub negate_flag: bool,
}

impl Default for SweepUnit {
    fn default() -> (r: Self)
        ensures
            r == (SweepUnit {
                divider: Divider { reload: 0, counter: 0 },
                shift: 0,
                reload_flag: false,
                enabled: false,
                negate_flag: false,
            }),
    {
        SweepUnit {
            divider: Divider::default(),
            shift: 0,
            reload_flag: false,
            enabled: false,
            negate_flag: false,
        }
    }
}

/// The period that the sweep unit aims for from `val`: `val` shifted right by `shift` is
/// subtracted (never below zero) or added.
pub open spec fn sweep_target(val: u16, shift: u8, negate: bool) -> int {
    let change = val >> shift;
    if negate {
        if change <= val {
            val - change
        } else {
            0
        }
    } else {
        val + change
    }
}

impl SweepUnit {
    pub fn clock(&mut self) -> (r: u8)
        ensures
            old(self).divider.counter != 0 ==> r == 0 && final(self).divider.counter == (old(
                self,
            ).divider.counter - 1) as u16,
            old(self).divider.counter == 0 ==> r == 1 && final(self).divider.counter == old(
                self,
            ).divider.reload,
            final(self).divider.reload == old(self).divider.reload,
            final(self).shift == old(self).shift,
            final(self).enabled == old(self).enabled,
            final(self).negate_flag == old(self).negate_flag,
            final(self).reload_flag == old(self).reload_flag,
    {
        self.divider.clock()
    }

    /// The target period for the period `val`.
    pub fn shift(&mut self, val: u16) -> (r: u16)
        requires
            old(self).shift < 16,
            sweep_target(val, old(self).shift, old(self).negate_flag) <= u16::MAX,
        ensures
            *final(self) == *old(self),
            r == sweep_target(val, old(self).shift, old(self).negate_flag),
    {
        let change = val >> self.shift;
        if self.negate_flag {
            match val.checked_sub(change) {
                Some(v) => v,
                None => 0,
            }
        } else {
            val + change
        }
    }
}

/// The volume envelope of a channel (https://www.nesdev.org/wiki/APU_Envelope).
pub struct EnvelopeGenerator {
    pub divider: Divider,
    pub decay_counter: u8,
    pub volume: u8,
    pub start_flag: bool,
    pub const_flag: bool,
    pub loop_flag: bool,
}

impl Default for EnvelopeGenerator {
    fn default() -> (r: Self)
        ensures
            r == (EnvelopeGenerator {
                divider: Divider { reload: 0, counter: 0 },
                decay_counter: 0,
                volume: 0,
                start_flag: false,
                const_flag: false,
                loop_flag: false,
            }),
    {
        EnvelopeGenerator {
            divider: Divider::default(),
            decay_counter: 0,
            volume: 0,
            start_flag: false,
            const_flag: false,
            loop_flag: false,
        }
    }
}

impl EnvelopeGenerator {
    /// The decay level after a clock that did not restart the envelope, when the divider
    /// signalled (`wrapped`) or not.
    pub open spec fn next_decay(self, wrapped: bool) -> u8 {
        if !wrapped {
            self.decay_counter
        } else if self.decay_counter == 0 {
            if self.loop_flag {
                15
            } else {
                0
            }
        } else {
            (self.decay_counter - 1) as u8
        }
    }

    /// One clock. A pending start restarts the decay at 15 and reloads the divider; otherwise
    /// the decay level steps down each time the divider wraps, looping back to 15 when the
    /// loop flag is set. The result is the constant volume or the decay level.
    pub fn clock(&mut self) -> (r: u8)
        ensures
            old(self).start_flag ==> !final(self).start_flag && final(self).decay_counter == 15
                && final(self).divider.counter == old(self).divider.reload,
            !old(self).start_flag ==> final(self).decay_counter == old(self).next_decay(
                old(self).divider.counter == 0,
            ) && final(self).divider.counter == (if old(self).divider.counter == 0 {
                old(self).divider.reload
            } else {
                (old(self).divider.counter - 1) as u16
            }),
            !final(self).start_flag,
            final(self).divider.reload == old(self).divider.reload,
            final(self).volume == old(self).volume,
            final(self).const_flag == old(self).const_flag,
            final(self).loop_flag == old(self).loop_flag,
            r == (if old(self).const_flag {
                old(self).volume
            } else {
                final(self).decay_counter
            }),
    {
        if self.start_flag {
            self.start_flag = false;
            self.decay_counter = 0xf;
            self.divider.reload();
        } else {
            let div_val = self.divider.clock();
            if div_val == 1 {
                if self.decay_counter == 0 {
                    if self.loop_flag {
                        self.decay_counter = 0xf;
                    }
                } else {
                    self.decay_counter -= 1;
                }
            }
        }
        if self.const_flag {
            self.volume
        } else {
            self.decay_counter
        }
    }

    /// Set the volume, which is also the divider's period.
    pub fn set_v(&mut self, v: u8)
        ensures
            *final(self) == (EnvelopeGenerator {
                volume: v,
                divider: Divider { reload: v as u16, ..old(self).divider },
                ..*old(self)
            }),
    {
        self.volume = v;
        self.divider.set_period(v as u16);
    }
}

/// The length counter loads, indexed by the five bits written to a length register.
pub open spec fn length_reload(index: u8) -> u8 {
    match index {
        0 => 10u8,
        1 => 254,
        2 => 20,
        3 => 2,
        4 => 40,
        5 => 4,
        6 => 80,
        7 => 6,
        8 => 160,
        9 => 8,
        10 => 60,
        11 => 10,
        12 => 14,
        13 => 12,
        14 => 26,
        15 => 14,
        16 => 12,
        17 => 16,
        18 => 24,
        19 => 18,
        20 => 48,
        21 => 20,
        22 => 96,
        23 => 22,
        24 => 192,
        25 => 24,
        26 => 72,
        27 => 26,
        28 => 16,
        29 => 28,
        30 => 32,
        _ => 30,
    }
}

fn length_reload_exec(index: u8) -> (r: u8)
    ensures
        r == length_reload(index),
{
    match index {
        0 => 10u8,
        1 => 254,
        2 => 20,
        3 => 2,
        4 => 40,
        5 => 4,
        6 => 80,
        7 => 6,
        8 => 160,
        9 => 8,
        10 => 60,
        11 => 10,
        12 => 14,
        13 => 12,
        14 => 26,
        15 => 14,
        16 => 12,
        17 => 16,
        18 => 24,
        19 => 18,
        20 => 48,
        21 => 20,
        22 => 96,
        23 => 22,
        24 => 192,
        25 => 24,
        26 => 72,
        27 => 26,
        28 => 16,
        29 => 28,
        30 => 32,
        _ => 30,
    }
}

pub struct LengthCounter {
    pub counter: u8,
    pub enabled: bool,
}

impl Default for LengthCounter {
    fn default() -> (r: Self)
        ensures
            r == (LengthCounter { counter: 0, enabled: false }),
    {
        LengthCounter { counter: 0, enabled: false }
    }
}

impl LengthCounter {
    /// Clocking the counter is not modelled yet: it reports 0 and changes nothing.
    pub fn clock(&mut self) -> (r: u8)
        ensures
            r == 0,
            *final(self) == *old(self),
    {
        0
    }

    /// Load the counter from the table entry `val`.
    pub fn load(&mut self, val: u8)
        requires
            val < 32,
        ensures
            *final(self) == (LengthCounter { counter: length_reload(val), ..*old(self) }),
    {
        self.counter = length_reload_exec(val);
    }
}

/// A pulse channel, registers $4000-$4003 (or $4004-$4007).
pub struct Pulse {
    pub duty: u8,
    pub envelope_gen: EnvelopeGenerator,
    pub sweep: SweepUnit,
    pub length_counter: LengthCounter,
    pub target_period: u16,
    pub current_period: u16,
}

impl Default for Pulse {
    fn default() -> (r: Self)
        ensures
            r.wf(),
            r.current_period == 0,
            r.target_period == 0,
            r.duty == 0,
    {
        Pulse {
            duty: 0,
            envelope_gen: EnvelopeGenerator::default(),
            sweep: SweepUnit::default(),
            length_counter: LengthCounter::default(),
            target_period: 0,
            current_period: 0,
        }
    }
}

impl Pulse {
    /// The timer period is an 11-bit value and the sweep shift a 3-bit one, as the registers
    /// write them.
    pub open spec fn wf(self) -> bool {
        &&& self.current_period <= 0x7ff
        &&& self.sweep.shift < 8
    }

    pub open spec fn spec_write(self, addr: u16, val: u8) -> Pulse {
        if addr == 0 {
            Pulse {
                duty: val >> 6u8,
                envelope_gen: EnvelopeGenerator {
                    loop_flag: val & 0x20 != 0,
                    const_flag: val & 0x10 != 0,
                    volume: val & 0xF,
                    divider: Divider { reload: (val & 0xF) as u16, ..self.envelope_gen.divider },
                    ..self.envelope_gen
                },
                ..self
            }
        } else if addr == 1 {
            Pulse {
                sweep: SweepUnit {
                    enabled: val & 0x80 != 0,
                    divider: Divider { reload: ((val & 0x70) >> 4u8) as u16, ..self.sweep.divider },
                    negate_flag: val & 0x8 != 0,
                    shift: val & 0x7,
                    ..self.sweep
                },
                ..self
            }
        } else if addr == 2 {
            Pulse { current_period: (self.current_period & 0xff00) | (val as u16), ..self }
        } else {
            Pulse {
                envelope_gen: EnvelopeGenerator { start_flag: true, ..self.envelope_gen },
                length_counter: LengthCounter {
                    counter: length_reload(val >> 3u8),
                    ..self.length_counter
                },
                current_period: (self.current_period & 0xff) | (((val & 0x7) as u16) << 8u16),
                ..self
            }
        }
    }

    /// A channel is muted while its period is below 8 or its sweep target leaves 11 bits.
    pub open spec fn spec_muted(self) -> bool {
        self.current_period < 8 || self.target_period > 0x7ff
    }

    /// Update the sweep target; the channel's output is not modelled yet and reads 0.
    pub fn clock(&mut self) -> (r: u8)
        requires
            old(self).wf(),
        ensures
            final(self).wf(),
            *final(self) == (Pulse {
                target_period: sweep_target(
                    old(self).current_period,
                    old(self).sweep.shift,
                    old(self).sweep.negate_flag,
                ) as u16,
                ..*old(self)
            }),
            r == 0,
    {
        proof {
            let v = self.current_period;
            let s = self.sweep.shift;
            assert(v >> s <= v) by (bit_vector);
        }
        self.target_period = self.sweep.shift(self.current_period);
        if self.is_muted() {
            return 0;
        }
        0
    }

    /// The pulse registers are write-only; a read sees an open bus, 0xFF.
    pub fn register_read(&mut self, addr: u16) -> (r: u8)
        ensures
            r == 0xff,
            *final(self) == *old(self),
    {
        0xff
    }

    pub fn register_write(&mut self, addr: u16, val: u8)
        requires
            old(self).wf(),
            addr <= 3,
        ensures
            final(self).wf(),
            *final(self) == old(self).spec_write(addr, val),
    {
        if addr == 0 {
            self.duty = val >> 6u8;
            self.envelope_gen.loop_flag = (val & 0x20) != 0;
            self.envelope_gen.const_flag = (val & 0x10) != 0;
            self.envelope_gen.set_v(val & 0xF);
        } else if addr == 1 {
            self.sweep.enabled = (val & 0x80) != 0;
            self.sweep.divider.set_period(((val & 0x70) >> 4u8) as u16);
            self.sweep.negate_flag = (val & 0x8) != 0;
            self.sweep.shift = val & 0x7;
            assert(val & 0x7 < 8) by (bit_vector);
        } else if addr == 2 {
            let p = self.current_period;
            self.current_period = (p & 0xff00) | (val as u16);
            assert((p & 0xff00) | (val as u16) <= 0x7ff) by (bit_vector)
                requires
                    p <= 0x7ff,
            ;
        } else {
            self.envelope_gen.start_flag = true;
            assert(val >> 3u8 < 32) by (bit_vector);
            self.length_counter.load(val >> 3u8);
            let p = self.current_period;
            self.current_period = (p & 0xff) | (((val & 0x7) as u16) << 8u16);
            assert((p & 0xff) | (((val & 0x7) as u16) << 8u16) <= 0x7ff) by (bit_vector);
        }
    }

    fn is_muted(&self) -> (r: bool)
        ensures
            r == self.spec_muted(),
    {
        self.current_period < 8 || self.target_period > 0x7ff
    }
}

/// The triangle channel's registers $4008-$400B.
pub struct Triangle {
    pub halt: bool,
    pub linear_load: u8,
    pub length_load: u8,
    pub timer_lo: u8,
    pub timer_hi: u8,
}

impl Default for Triangle {
    fn default() -> (r: Self)
        ensures
            r == (Triangle { halt: false, linear_load: 0, length_load: 0, timer_lo: 0, timer_hi: 0 }),
    {
        Triangle { halt: false, linear_load: 0, length_load: 0, timer_lo: 0, timer_hi: 0 }
    }
}

impl Triangle {
    pub open spec fn spec_read(self, addr: u16) -> u8 {
        if addr == 0 {
            flag_bit(self.halt, 0x80) | self.linear_load
        } else if addr == 1 {
            0xff
        } else if addr == 2 {
            self.timer_lo
        } else {
            ((self.length_load << 3u8) as u8) | self.timer_hi
        }
    }

    pub open spec fn spec_write(self, addr: u16, val: u8) -> Triangle {
        if addr == 0 {
            Triangle { halt: val & 0x80 != 0, linear_load: val & 0x7F, ..self }
        } else if addr == 1 {
            self
        } else if addr == 2 {
            Triangle { timer_lo: val, ..self }
        } else {
            Triangle { length_load: val >> 3u8, timer_hi: val & 0x7, ..self }
        }
    }

    pub fn register_read(&mut self, addr: u16) -> (r: u8)
        requires
            addr <= 3,
        ensures
            *final(self) == *old(self),
            r == old(self).spec_read(addr),
    {
        if addr == 0 {
            flag_bit_exec(self.halt, 0x80) | self.linear_load
        } else if addr == 1 {
            0xff
        } else if addr == 2 {
            self.timer_lo
        } else {
            (self.length_load << 3u8) | self.timer_hi
        }
    }

    pub fn register_write(&mut self, addr: u16, val: u8)
        requires
            addr <= 3,
        ensures
            *final(self) == old(self).spec_write(addr, val),
    {
        if addr == 0 {
            self.halt = (val & 0x80) != 0;
            self.linear_load = val & 0x7F;
        } else if addr == 1 {
        } else if addr == 2 {
            self.timer_lo = val;
        } else {
            self.length_load = val >> 3u8;
            self.timer_hi = val & 0x7;
        }
    }
}

/// The DMC's output level reads back as written: after a write of `val` to $4011, a read of
/// $4011 gives its low seven bits.
pub proof fn lemma_dmc_level_read_after_write(a: APU, val: u8, next: APU, r: u8, after: APU)
    requires
        a.writes_register(0x11, val, next),
        next.reads_register(0x11, r, after),
    ensures
        r == val & 0x7F,
{
}

} // verus!
