//! The noise channel of the frame-sequenced APU: a timer, a length counter, an envelope and a
//! linear feedback shift register.
use crate::apu::counter::{Counter, LengthCounter, Sampled};
use crate::apu::volume::Envelope;
use vstd::prelude::*;

verus! {

#[derive(Clone, Copy)]
pub struct Noise {
    pub timer: Counter,
    pub length_counter: LengthCounter,
    pub lfsr: LFShiftRegister,
    pub envelope: Envelope,
    pub enabled: bool,
}

/// The 15-bit shift register that makes the noise; in mode 1 it feeds back from bit 6.
#[derive(Clone, Copy)]
pub struct LFShiftRegister {
    pub value: u16,
    pub mode_flag: bool,
}

impl Default for LFShiftRegister {
    fn default() -> (r: Self)
        ensures
            r == (LFShiftRegister { value: 0, mode_flag: false }),
    {
        LFShiftRegister { value: 0, mode_flag: false }
    }
}

impl Default for Noise {
    fn default() -> (r: Self)
        ensures
            r.timer == (Counter { current: 0, period: 0, reload: false, loop_flag: true }),
            r.length_counter == (LengthCounter {
                counter: Counter { current: 0, period: 0, reload: false, loop_flag: true },
                halt: false,
            }),
            r.lfsr == (LFShiftRegister { value: 0, mode_flag: false }),
            r.envelope == Envelope::spec_default(),
            !r.enabled,
    {
        Noise {
            timer: Counter::default(),
            length_counter: LengthCounter::default(),
            lfsr: LFShiftRegister::default(),
            envelope: Envelope::default(),
            enabled: false,
        }
    }
}

/// The noise timer periods of an NTSC console for the sixteen period indices.
pub open spec fn noise_ntsc_period(index: u8) -> u16 {
    match index {
        0 => 4u16,
        1 => 8,
        2 => 16,
        3 => 32,
        4 => 64,
        5 => 96,
        6 => 128,
        7 => 160,
        8 => 202,
        9 => 254,
        10 => 380,
        11 => 508,
        12 => 762,
        13 => 1016,
        14 => 2034,
        _ => 4068,
    }
}

fn noise_ntsc_period_exec(index: u8) -> (r: u16)
    ensures
        r == noise_ntsc_period(index),
{
    match index {
        0 => 4u16,
        1 => 8,
        2 => 16,
        3 => 32,
        4 => 64,
        5 => 96,
        6 => 128,
        7 => 160,
        8 => 202,
        9 => 254,
        10 => 380,
        11 => 508,
        12 => 762,
        13 => 1016,
        14 => 2034,
        _ => 4068,
    }
}

impl Noise {
    pub fn new() -> (r: Noise)
        ensures
            r.timer == (Counter { current: 0, period: 0, reload: false, loop_flag: true }),
            r.length_counter == (LengthCounter {
                counter: Counter { current: 0, period: 0, reload: false, loop_flag: true },
                halt: false,
            }),
            r.lfsr == (LFShiftRegister { value: 1, mode_flag: false }),
            r.envelope == Envelope::spec_default(),
            !r.enabled,
    {
        Noise {
            timer: Counter::new(0),
            length_counter: LengthCounter::new(0),
            lfsr: LFShiftRegister::new(),
            envelope: Envelope::new(),
            enabled: false,
        }
    }

    pub open spec fn spec_silenced(self) -> bool {
        self.lfsr.value & 0x1 != 0 || self.length_counter.spec_silenced()
    }

    /// Silent while the shift register's low bit is set or the length counter has run out.
    pub fn silenced(&self) -> (r: bool)
        ensures
            r == self.spec_silenced(),
    {
        self.lfsr.lsb_set() || self.length_counter.silenced()
    }

    /// $400C: the low four bits are the volume or envelope period, bit 5 halts the length
    /// counter and makes the volume constant.
    /// The channel after its control register takes `val`.
    pub open spec fn spec_volume_grp(self, val: u8) -> Noise {
        (Noise {
            envelope: Envelope {
                divider: Counter { period: (val & 0xF) as u16, ..self.envelope.divider },
                is_constant: val & 0x20 != 0,
                ..self.envelope
            },
            length_counter: LengthCounter { halt: val & 0x20 != 0, ..self.length_counter },
            ..self
        })
    }

    pub fn set_volume_grp(&mut self, val: u8)
        ensures
            *final(self) == (Noise {
                envelope: Envelope {
                    divider: Counter { period: (val & 0xF) as u16, ..old(self).envelope.divider },
                    is_constant: val & 0x20 != 0,
                    ..old(self).envelope
                },
                length_counter: LengthCounter { halt: val & 0x20 != 0, ..old(self).length_counter },
                ..*old(self)
            }),
            *final(self) == old(self).spec_volume_grp(val),
    {
        self.envelope.set_divider((val & 0xF) as u16);
        self.length_counter.set_halt((val & 0x20) != 0);
        assert(val & (1u8 << 5u8) == val & 0x20) by (bit_vector);
        self.envelope.set_constant((val & (1u8 << 5u8)) != 0);
    }

    /// $400E: bit 7 is the shift register's mode, the low four bits the timer period.
    pub fn set_mode_grp(&mut self, val: u8)
        ensures
            *final(self) == (Noise {
                lfsr: LFShiftRegister { mode_flag: val & 0x80 != 0, ..old(self).lfsr },
                timer: Counter { period: noise_ntsc_period(val & 0xF), ..old(self).timer },
                ..*old(self)
            }),
    {
        self.lfsr.set_mode((val & 0x80) != 0);
        self.timer.set_period(noise_ntsc_period_exec(val & 0xF));
    }

    /// $400F: while the channel is enabled, load the length counter from the top five bits
    /// and restart the envelope.
    pub fn set_length_counter_grp(&mut self, val: u8)
        ensures
            old(self).enabled ==> *final(self) == (Noise {
                length_counter: LengthCounter {
                    counter: Counter {
                        period: crate::apu::length_reload(val >> 3u8) as u16,
                        reload: true,
                        ..old(self).length_counter.counter
                    },
                    ..old(self).length_counter
                },
                envelope: Envelope {
                    divider: Counter { reload: true, ..old(self).envelope.divider },
                    ..old(self).envelope
                },
                ..*old(self)
            }),
            !old(self).enabled ==> *final(self) == *old(self),
    {
        if self.enabled {
            assert(val >> 3u8 < 32) by (bit_vector);
            self.length_counter.set_period(val >> 3u8);
            self.envelope.reset();
        }
    }

    /// Disabling the channel also stops its length counter.
    pub fn set_enabled(&mut self, enabled: bool)
        ensures
            final(self).enabled == enabled,
            enabled ==> final(self).length_counter == old(self).length_counter,
            !enabled ==> final(self).length_counter == (LengthCounter {
                counter: Counter { period: 0, current: 0, ..old(self).length_counter.counter },
                ..old(self).length_counter
            }),
            final(self).timer == old(self).timer,
            final(self).lfsr == old(self).lfsr,
            final(self).envelope == old(self).envelope,
    {
        self.enabled = enabled;
        if !enabled {
            self.length_counter.disable();
        }
    }

    pub fn quarter_frame(&mut self)
        ensures
            *final(self) == (Noise { envelope: old(self).envelope.spec_clock(), ..*old(self) }),
    {
        self.envelope.clock();
    }

    pub fn half_frame(&mut self)
        ensures
            *final(self) == (Noise {
                length_counter: old(self).length_counter.spec_tick(),
                ..*old(self)
            }),
    {
        self.length_counter.tick();
    }

    /// Shift the register each time the timer stands at its period.
    pub fn clock(&mut self)
        ensures
            old(self).timer.current == old(self).timer.period ==> *final(self) == (Noise {
                lfsr: old(self).lfsr.spec_clock(),
                ..*old(self)
            }),
            old(self).timer.current != old(self).timer.period ==> *final(self) == *old(self),
    {
        if self.timer.has_edge() {
            self.lfsr.clock();
        }
    }
}

impl Sampled for Noise {
    type OutputType = u16;

    open spec fn can_sample(&self) -> bool {
        true
    }

    /// The envelope's volume while the channel sounds, 0 when it is silenced.
    fn sample(&mut self) -> (r: u16)
        ensures
            *final(self) == *old(self),
            r == (if old(self).spec_silenced() {
                0
            } else {
                old(self).envelope.spec_sample()
            }),
    {
        if !self.silenced() {
            self.envelope.sample()
        } else {
            0
        }
    }
}

impl LFShiftRegister {
    pub fn new() -> (r: LFShiftRegister)
        ensures
            r == (LFShiftRegister { value: 1, mode_flag: false }),
    {
        LFShiftRegister { value: 1, mode_flag: false }
    }

    pub fn set_mode(&mut self, mode: bool)
        ensures
            *final(self) == (LFShiftRegister { mode_flag: mode, ..*old(self) }),
    {
        self.mode_flag = mode;
    }

    pub fn lsb_set(&self) -> (r: bool)
        ensures
            r == (self.value & 0x1 != 0),
    {
        (self.value & 0x1) != 0
    }

    /// The register after one shift: the feedback bit, bit 0 xor bit 1 (or bit 6 in mode 1),
    /// enters at bit 14.
    pub open spec fn spec_clock(self) -> LFShiftRegister {
        let shift: u16 = if self.mode_flag {
            6
        } else {
            1
        };
        let feedback = ((self.value >> shift) & 0x1) ^ (self.value & 0x1);
        LFShiftRegister { value: ((self.value >> 1u16) & 0x4FFF) | ((feedback << 14u16) as u16), ..self }
    }

    pub fn clock(&mut self)
        ensures
            *final(self) == old(self).spec_clock(),
    {
        let shift: u16 = if self.mode_flag {
            6
        } else {
            1
        };
        let feedback = ((self.value >> shift) & 0x1) ^ (self.value & 0x1);
        self.value = ((self.value >> 1u16) & 0x4FFF) | (feedback << 14u16);
    }
}

impl Sampled for LFShiftRegister {
    type OutputType = u16;

    open spec fn can_sample(&self) -> bool {
        true
    }

    fn sample(&mut self) -> (r: u16)
        ensures
            r == old(self).value & 0x1,
            *final(self) == *old(self),
    {
        self.value & 0x1
    }
}

/// The channel's control register ($400C) sets the volume it plays at: with the
/// constant-volume flag (bit 5) set, the envelope gives the low four
/// bits written; with it clear, the envelope's decay level, which the write leaves as it was.
pub proof fn lemma_noise_control_sets_volume(c: Noise, val: u8)
    ensures
        c.spec_volume_grp(val).envelope.spec_sample() == (if val & 0x20 != 0 {
            (val & 0xF) as u16
        } else {
            c.envelope.decay.current
        }),
{
}

} // verus!
