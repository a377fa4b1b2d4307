//! The pulse channels of the frame-sequenced APU: timer, envelope, sweep, duty sequencer and
//! length counter.
use crate::apu::counter::{Counter, LengthCounter, Sampled};
use crate::apu::volume::Envelope;
use vstd::prelude::*;

verus! {

/// How the sweep unit negates: pulse 1 subtracts one more than pulse 2.
#[derive(Clone, Copy, PartialEq, Eq, Structural)]
pub enum Arithmetic {
    OnesCompliment,
    TwosCompliment,
}

impl Default for Arithmetic {
    fn default() -> (r: Arithmetic)
        ensures
            r == Arithmetic::TwosCompliment,
    {
        Arithmetic::TwosCompliment
    }
}

#[derive(Clone, Copy)]
pub struct Pulse {
    pub timer: Counter,
    pub envelope: Envelope,
    pub sweep: Sweep,
    pub sequencer: PulseSequencer,
    pub length_counter: LengthCounter,
    pub arithmetic_type: Arithmetic,
    pub enabled: bool,
}

#[derive(Clone, Copy)]
pub struct Sweep {
    pub divider: Counter,
    pub enabled: bool,
    pub negate: bool,
    pub shift: u8,
}

/// The position in one of the four duty sequences; `duty` 0 is the empty sequence that a
/// sequencer holds before a duty is chosen.
#[derive(Clone, Copy)]
pub struct PulseSequencer {
    pub idx: usize,
    pub duty: u8,
}

pub const SEQ_LEN: usize = 8;

/// Step `idx` of duty sequence `duty`: 01000000, 01100000, 01111000 or 10011111.
pub open spec fn pulse_duty_level(duty: u8, idx: int) -> u8 {
    if duty == 1 {
        if idx == 1 {
            1
        } else {
            0
        }
    } else if duty == 2 {
        if idx == 1 || idx == 2 {
            1
        } else {
            0
        }
    } else if duty == 3 {
        if 1 <= idx <= 4 {
            1
        } else {
            0
        }
    } else {
        if idx == 1 || idx == 2 {
            0
        } else {
            1
        }
    }
}

impl Default for Sweep {
    fn default() -> (r: Sweep)
        ensures
            r == (Sweep {
                divider: Counter { current: 0, period: 0, reload: false, loop_flag: true },
                enabled: false,
                negate: false,
                shift: 0,
            }),
    {
        Sweep { divider: Counter::default(), enabled: false, negate: false, shift: 0 }
    }
}

impl Default for PulseSequencer {
    fn default() -> (r: PulseSequencer)
        ensures
            r == (PulseSequencer { idx: 0, duty: 0 }),
    {
        PulseSequencer { idx: 0, duty: 0 }
    }
}

impl Sweep {
    pub fn new() -> (r: Sweep)
        ensures
            r == (Sweep {
                divider: Counter { current: 0, period: 0, reload: false, loop_flag: true },
                enabled: true,
                negate: false,
                shift: 0,
            }),
    {
        Sweep { divider: Counter::new(0), enabled: true, negate: false, shift: 0 }
    }

    /// $4001/$4005: enable, divider period, negate and shift (kept as bits 4-6 of `val`).
    pub fn load(&mut self, val: u8)
        ensures
            *final(self) == (Sweep {
                enabled: val & 0x80 != 0,
                divider: Counter { period: ((val >> 4u8) & 0x7) as u16, ..old(self).divider },
                negate: val & 0x8 != 0,
                shift: val & 0x70,
                ..*old(self)
            }),
    {
        self.enabled = (val & 0x80) != 0;
        self.divider.set_period(((val >> 4u8) & 0x7) as u16);
        self.negate = (val & 0x8) != 0;
        self.shift = val & 0x70;
    }

    /// The divider ticks; when it restarts while the sweep is enabled, the sweep fires.
    pub open spec fn fires(self) -> bool {
        let d = self.divider.spec_tick();
        d.current == d.period && self.enabled
    }

    /// The new period when the sweep fires on the period `tmr`.
    pub open spec fn target(self, tmr: u16, offset: u16) -> int {
        let change = tmr >> self.shift;
        if self.negate {
            tmr - change - offset
        } else {
            tmr + change
        }
    }

    /// The sweep can fire on `tmr` without a shift past 15 bits or a period out of range.
    pub open spec fn can_update(self, tmr: u16, offset: u16) -> bool {
        self.fires() ==> self.shift < 16 && 0 <= self.target(tmr, offset) <= u16::MAX
    }

    /// Tick the divider and give the new period, or 0 when the sweep does not fire.
    pub fn update_tgt_period(&mut self, tmr: u16, offset: u16) -> (r: u16)
        requires
            old(self).can_update(tmr, offset),
        ensures
            *final(self) == (Sweep { divider: old(self).divider.spec_tick(), ..*old(self) }),
            r == (if old(self).fires() {
                old(self).target(tmr, offset)
            } else {
                0
            }),
    {
        self.divider.tick();
        if self.divider.has_edge() && self.enabled {
            let change = tmr >> self.shift;
            if self.negate {
                tmr - change - offset
            } else {
                tmr + change
            }
        } else {
            0
        }
    }

    pub fn reset(&mut self)
        ensures
            *final(self) == (Sweep { divider: Counter { reload: true, ..old(self).divider }, ..*old(self) }),
    {
        self.divider.set_reload();
    }
}

impl PulseSequencer {
    pub open spec fn valid(self) -> bool {
        1 <= self.duty <= 4 && self.idx < SEQ_LEN
    }

    pub fn new() -> (r: PulseSequencer)
        ensures
            r == (PulseSequencer { idx: 0, duty: 1 }),
    {
        PulseSequencer { idx: 0, duty: 1 }
    }

    pub fn reset(&mut self)
        ensures
            *final(self) == (PulseSequencer { idx: 0, ..*old(self) }),
    {
        self.idx = 0;
    }

    /// Start duty sequence `duty` (1 to 4) from its first step.
    pub fn set_duty_cycle(&mut self, duty: u8)
        requires
            1 <= duty <= 4,
        ensures
            *final(self) == (PulseSequencer { idx: 0, duty }),
    {
        self.idx = 0;
        self.duty = duty;
    }

    pub fn clock(&mut self)
        requires
            old(self).idx < SEQ_LEN,
        ensures
            *final(self) == (PulseSequencer { idx: ((old(self).idx + 1) % 8) as usize, ..*old(self) }),
            final(self).idx < SEQ_LEN,
    {
        self.idx = (self.idx + 1) % SEQ_LEN;
    }
}

impl Sampled for PulseSequencer {
    type OutputType = u16;

    open spec fn can_sample(&self) -> bool {
        self.valid()
    }

    fn sample(&mut self) -> (r: u16)
        ensures
            *final(self) == *old(self),
            r == pulse_duty_level(old(self).duty, old(self).idx as int),
    {
        let idx = self.idx;
        let level: u8 = if self.duty == 1 {
            if idx == 1 {
                1
            } else {
                0
            }
        } else if self.duty == 2 {
            if idx == 1 || idx == 2 {
                1
            } else {
                0
            }
        } else if self.duty == 3 {
            if 1 <= idx && idx <= 4 {
                1
            } else {
                0
            }
        } else {
            if idx == 1 || idx == 2 {
                0
            } else {
                1
            }
        };
        level as u16
    }
}

impl Default for Pulse {
    fn default() -> (r: Pulse)
        ensures
            r.timer == Counter::spec_default(),
            r.length_counter == (LengthCounter { counter: Counter::spec_default(), halt: false }),
            r.envelope == Envelope::spec_default(),
            r.sequencer == (PulseSequencer { idx: 0, duty: 0 }),
            r.sweep == (Sweep {
                divider: Counter::spec_default(),
                enabled: false,
                negate: false,
                shift: 0,
            }),
            r.arithmetic_type == Arithmetic::TwosCompliment,
            !r.enabled,
    {
        Pulse {
            timer: Counter::default(),
            envelope: Envelope::default(),
            sweep: Sweep::default(),
            sequencer: PulseSequencer::default(),
            length_counter: LengthCounter::default(),
            arithmetic_type: Arithmetic::default(),
            enabled: false,
        }
    }
}

impl Sampled for Pulse {
    type OutputType = u16;

    open spec fn can_sample(&self) -> bool {
        self.spec_silenced() || self.sequencer.valid()
    }

    /// The envelope's volume while the duty sequence is high, 0 while it is low or the
    /// channel is silenced.
    fn sample(&mut self) -> (r: u16)
        ensures
            *final(self) == *old(self),
            r == (if old(self).spec_silenced() {
                0
            } else {
                old(self).envelope.spec_sample() * pulse_duty_level(
                    old(self).sequencer.duty,
                    old(self).sequencer.idx as int,
                )
            }),
    {
        if !self.silenced() {
            let v = self.envelope.sample();
            let s = self.sequencer.sample();
            assert(s == 0 || s == 1);
            v * s
        } else {
            0
        }
    }
}

impl Pulse {
    /// A pulse channel whose sweep negates with one's complement (pulse 1).
    pub fn ones_complement() -> (r: Pulse)
        ensures
            r.timer == Counter::spec_default(),
            r.length_counter == (LengthCounter { counter: Counter::spec_default(), halt: false }),
            r.envelope == Envelope::spec_default(),
            r.sequencer == (PulseSequencer { idx: 0, duty: 1 }),
            r.sweep == (Sweep {
                divider: Counter::spec_default(),
                enabled: true,
                negate: false,
                shift: 0,
            }),
            r.arithmetic_type == Arithmetic::OnesCompliment,
            r.enabled,
    {
        Pulse {
            timer: Counter::new(0),
            envelope: Envelope::new(),
            sweep: Sweep::new(),
            sequencer: PulseSequencer::new(),
            length_counter: LengthCounter::new(0),
            arithmetic_type: Arithmetic::OnesCompliment,
            enabled: true,
        }
    }

    /// A pulse channel whose sweep negates with two's complement (pulse 2).
    pub fn twos_complement() -> (r: Pulse)
        ensures
            r.timer == Counter::spec_default(),
            r.length_counter == (LengthCounter { counter: Counter::spec_default(), halt: false }),
            r.envelope == Envelope::spec_default(),
            r.sequencer == (PulseSequencer { idx: 0, duty: 1 }),
            r.sweep == (Sweep {
                divider: Counter::spec_default(),
                enabled: true,
                negate: false,
                shift: 0,
            }),
            r.arithmetic_type == Arithmetic::TwosCompliment,
            r.enabled,
    {
        Pulse {
            timer: Counter::new(0),
            envelope: Envelope::new(),
            sweep: Sweep::new(),
            sequencer: PulseSequencer::new(),
            length_counter: LengthCounter::new(0),
            arithmetic_type: Arithmetic::TwosCompliment,
            enabled: true,
        }
    }

    /// Disabling the channel also stops its length counter.
    pub fn set_enabled(&mut self, enabled: bool)
        ensures
            *final(self) == (Pulse {
                enabled,
                length_counter: if enabled {
                    old(self).length_counter
                } else {
                    LengthCounter {
                        counter: Counter { period: 0, current: 0, ..old(self).length_counter.counter },
                        ..old(self).length_counter
                    }
                },
                ..*old(self)
            }),
    {
        self.enabled = enabled;
        if !enabled {
            self.length_counter.disable();
        }
    }

    /// $4000/$4004: duty in bits 6-7 (a duty of 0 selects no sequence and is refused), the
    /// halt-and-loop flag in bit 5, constant volume in bit 4, the volume or envelope period in
    /// bits 0-3.
    /// The channel after its control register takes `val`.
    pub open spec fn spec_volume_grp(self, val: u8) -> Pulse {
        (Pulse {
            sequencer: PulseSequencer { idx: 0, duty: val >> 6u8 },
            envelope: Envelope {
                divider: Counter { period: (val & 0xF) as u16, ..self.envelope.divider },
                decay: Counter { loop_flag: val & 0x20 != 0, ..self.envelope.decay },
                is_constant: val & 0x10 != 0,
                ..self.envelope
            },
            length_counter: LengthCounter { halt: val & 0x20 != 0, ..self.length_counter },
            ..self
        })
    }

    pub fn set_volume_grp(&mut self, val: u8)
        requires
            val >> 6u8 != 0,
        ensures
            *final(self) == (Pulse {
                sequencer: PulseSequencer { idx: 0, duty: val >> 6u8 },
                envelope: Envelope {
                    divider: Counter { period: (val & 0xF) as u16, ..old(self).envelope.divider },
                    decay: Counter { loop_flag: val & 0x20 != 0, ..old(self).envelope.decay },
                    is_constant: val & 0x10 != 0,
                    ..old(self).envelope
                },
                length_counter: LengthCounter { halt: val & 0x20 != 0, ..old(self).length_counter },
                ..*old(self)
            }),
            *final(self) == old(self).spec_volume_grp(val),
    {
        assert(val >> 6u8 <= 3) by (bit_vector);
        self.sequencer.set_duty_cycle(val >> 6u8);
        self.envelope.set_divider((val & 0xF) as u16);
        let halt_and_loop = (val & 0x20) != 0;
        self.length_counter.set_halt(halt_and_loop);
        self.envelope.set_loop(halt_and_loop);
        self.envelope.set_constant((val & 0x10) != 0);
    }

    pub fn set_sweep(&mut self, val: u8)
        ensures
            *final(self) == (Pulse {
                sweep: Sweep {
                    enabled: val & 0x80 != 0,
                    divider: Counter { period: ((val >> 4u8) & 0x7) as u16, ..old(self).sweep.divider },
                    negate: val & 0x8 != 0,
                    shift: val & 0x70,
                    ..old(self).sweep
                },
                ..*old(self)
            }),
    {
        self.sweep.load(val);
    }

    /// $4002/$4006: the low byte of the timer period.
    pub fn set_timer_low_grp(&mut self, val: u8)
        ensures
            *final(self) == (Pulse {
                timer: Counter { period: (old(self).timer.period & 0xFF00) | (val as u16), ..old(self).timer },
                ..*old(self)
            }),
    {
        let high = self.timer.get_period() & 0xFF00;
        self.timer.set_period(high | (val as u16));
    }

    /// $4003/$4007: the timer's high three bits and the length counter load; restarts the
    /// envelope and the duty sequence.
    pub fn set_length_counter_grp(&mut self, val: u8)
        ensures
            *final(self) == (Pulse {
                timer: Counter {
                    period: ((((val & 0x7) as u16) << 8u16) | (old(self).timer.period & 0xFF)) as u16,
                    ..old(self).timer
                },
                length_counter: LengthCounter {
                    counter: Counter {
                        period: crate::apu::length_reload(val >> 3u8) as u16,
                        reload: true,
                        ..old(self).length_counter.counter
                    },
                    ..old(self).length_counter
                },
                envelope: Envelope {
                    divider: Counter { reload: true, ..old(self).envelope.divider },
                    ..old(self).envelope
                },
                sequencer: PulseSequencer { idx: 0, ..old(self).sequencer },
                ..*old(self)
            }),
    {
        let low = self.timer.get_period() & 0xFF;
        self.timer.set_period(((val & 0x7) as u16) << 8u16 | low);
        assert(val >> 3u8 < 32) by (bit_vector);
        self.length_counter.set_period(val >> 3u8);
        self.envelope.reset();
        self.sequencer.reset();
    }

    pub open spec fn spec_silenced(self) -> bool {
        self.timer.period < 8 || self.length_counter.spec_silenced() || self.timer.period > 0x7FF
    }

    /// Silent while the period is below 8 or above 11 bits, or the length counter has run out.
    pub fn silenced(&self) -> (r: bool)
        ensures
            r == self.spec_silenced(),
    {
        self.timer.get_period() < 8 || self.length_counter.silenced() || self.timer.get_period()
            > 0x7FF
    }

    pub open spec fn sweep_offset(self) -> u16 {
        match self.arithmetic_type {
            Arithmetic::OnesCompliment => 1,
            Arithmetic::TwosCompliment => 0,
        }
    }

    fn clock_sweep(&mut self)
        requires
            old(self).sweep.can_update(old(self).timer.period, old(self).sweep_offset()),
        ensures
            *final(self) == (Pulse {
                sweep: Sweep { divider: old(self).sweep.divider.spec_tick(), ..old(self).sweep },
                timer: Counter {
                    period: (if old(self).sweep.fires() {
                        old(self).sweep.target(old(self).timer.period, old(self).sweep_offset())
                    } else {
                        0
                    }) as u16,
                    ..old(self).timer
                },
                ..*old(self)
            }),
    {
        let period = self.timer.get_period();
        let offset: u16 = match self.arithmetic_type {
            Arithmetic::OnesCompliment => 1,
            Arithmetic::TwosCompliment => 0,
        };
        let p = self.sweep.update_tgt_period(period, offset);
        self.timer.set_period(p);
    }

    pub fn quarter_frame(&mut self)
        ensures
            *final(self) == (Pulse { envelope: old(self).envelope.spec_clock(), ..*old(self) }),
    {
        self.envelope.clock();
    }

    /// Tick the length counter and the sweep; the sweep must not shift past 15 bits or take
    /// the period out of range.
    pub fn half_frame(&mut self)
        requires
            old(self).sweep.can_update(old(self).timer.period, old(self).sweep_offset()),
        ensures
            *final(self) == (Pulse {
                length_counter: old(self).length_counter.spec_tick(),
                sweep: Sweep { divider: old(self).sweep.divider.spec_tick(), ..old(self).sweep },
                timer: Counter {
                    period: (if old(self).sweep.fires() {
                        old(self).sweep.target(old(self).timer.period, old(self).sweep_offset())
                    } else {
                        0
                    }) as u16,
                    ..old(self).timer
                },
                ..*old(self)
            }),
    {
        self.length_counter.tick();
        self.clock_sweep();
    }

    /// Step the duty sequence and tick the timer.
    pub fn clock(&mut self)
        requires
            old(self).sequencer.idx < SEQ_LEN,
        ensures
            *final(self) == (Pulse {
                sequencer: PulseSequencer {
                    idx: ((old(self).sequencer.idx + 1) % 8) as usize,
                    ..old(self).sequencer
                },
                timer: old(self).timer.spec_tick(),
                ..*old(self)
            }),
    {
        self.sequencer.clock();
        self.timer.tick();
    }
}

/// The channel's control register ($4000/$4004) sets the volume it plays at: with the
/// constant-volume flag (bit 4) set, the envelope gives the low four
/// bits written; with it clear, the envelope's decay level, which the write leaves as it was.
pub proof fn lemma_pulse_control_sets_volume(c: Pulse, val: u8)
    ensures
        c.spec_volume_grp(val).envelope.spec_sample() == (if val & 0x10 != 0 {
            (val & 0xF) as u16
        } else {
            c.envelope.decay.current
        }),
{
}

} // verus!
