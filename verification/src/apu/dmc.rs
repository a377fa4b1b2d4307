//! The register-level model of the delta modulation channel used by the frame-sequenced APU.
use crate::apu::counter::Sampled;
use vstd::prelude::*;

verus! {

#[derive(Clone, Copy)]
pub struct DMC {
    pub rate_index: u16,
    pub output_level: u8,
    pub irq_enabled: bool,
    pub loop_flag: bool,
    pub enabled: bool,
}

impl Default for DMC {
    fn default() -> (r: Self)
        ensures
            r == (DMC {
                rate_index: 0,
                output_level: 0,
                irq_enabled: false,
                loop_flag: false,
                enabled: false,
            }),
    {
        DMC { rate_index: 0, output_level: 0, irq_enabled: false, loop_flag: false, enabled: false }
    }
}

/// The DMC periods of an NTSC console, in CPU cycles, for the sixteen rate indices.
pub open spec fn dmc_ntsc_period(index: u8) -> u16 {
    match index {
        0 => 428u16,
        1 => 380,
        2 => 340,
        3 => 320,
        4 => 286,
        5 => 254,
        6 => 226,
        7 => 214,
        8 => 190,
        9 => 160,
        10 => 142,
        11 => 128,
        12 => 106,
        13 => 84,
        14 => 72,
        _ => 54,
    }
}

fn dmc_ntsc_period_exec(index: u8) -> (r: u16)
    ensures
        r == dmc_ntsc_period(index),
{
    match index {
        0 => 428u16,
        1 => 380,
        2 => 340,
        3 => 320,
        4 => 286,
        5 => 254,
        6 => 226,
        7 => 214,
        8 => 190,
        9 => 160,
        10 => 142,
        11 => 128,
        12 => 106,
        13 => 84,
        14 => 72,
        _ => 54,
    }
}

impl DMC {
    pub fn new() -> (r: DMC)
        ensures
            r == (DMC {
                rate_index: 0,
                output_level: 0,
                irq_enabled: false,
                loop_flag: true,
                enabled: true,
            }),
    {
        DMC { output_level: 0, rate_index: 0, irq_enabled: false, loop_flag: true, enabled: true }
    }

    /// Bit 7 enables the IRQ, bit 6 the loop; the low four bits pick the period.
    pub fn set_control_grp(&mut self, val: u8)
        ensures
            *final(self) == (DMC {
                irq_enabled: val & 0x80 != 0,
                loop_flag: val & 0x40 != 0,
                rate_index: dmc_ntsc_period(val & 0xF),
                ..*old(self)
            }),
    {
        self.irq_enabled = (val & 0x80) != 0;
        self.loop_flag = (val & 0x40) != 0;
        self.rate_index = dmc_ntsc_period_exec(val & 0xF);
    }

    /// Set the output level directly to the low seven bits of `val`.
    pub fn direct_load(&mut self, val: u8)
        ensures
            *final(self) == (DMC { output_level: val & 0x7F, ..*old(self) }),
            final(self).output_level <= 127,
    {
        self.output_level = val & 0x7F;
        assert(val & 0x7F <= 127) by (bit_vector);
    }

    /// The sample address $C000 + 64 * `val` is decoded but not kept.
    pub fn set_sample_address(&mut self, val: u8)
        ensures
            *final(self) == *old(self),
    {
        let _addr: u16 = 0xC000 | ((val as u16) << 6u16);
    }

    /// The sample length 16 * `val` + 1 is decoded but not kept.
    pub fn set_sample_length(&mut self, val: u8)
        ensures
            *final(self) == *old(self),
    {
        assert((val as u16) << 4u16 <= 0xFF0) by (bit_vector);
        let _len: u16 = ((val as u16) << 4u16) + 1;
    }

    pub fn set_enabled(&mut self, enabled: bool)
        ensures
            *final(self) == (DMC { enabled, ..*old(self) }),
    {
        self.enabled = enabled;
    }

    pub fn quarter_frame(&mut self)
        ensures
            *final(self) == *old(self),
    {
    }

    pub fn half_frame(&mut self)
        ensures
            *final(self) == *old(self),
    {
    }

    /// The channel's timer is not modelled yet: a clock changes nothing.
    pub fn clock(&mut self)
        ensures
            *final(self) == *old(self),
    {
    }
}

impl Sampled for DMC {
    type OutputType = u16;

    open spec fn can_sample(&self) -> bool {
        true
    }

    /// The output is not modelled yet and reads 0.
    fn sample(&mut self) -> (r: u16)
        ensures
            r == 0,
            *final(self) == *old(self),
    {
        0
    }
}

} // verus!
