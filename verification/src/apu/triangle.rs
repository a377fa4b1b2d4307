//! The triangle channel of the frame-sequenced APU: a timer, a linear counter, a length
//! counter and a 32-step sequencer.
use crate::apu::counter::{Counter, LengthCounter, Sampled};
use vstd::prelude::*;

verus! {

#[derive(Clone, Copy)]
pub struct Triangle {
    pub timer: Counter,
    pub linear_counter: Counter,
    pub length_counter: LengthCounter,
    pub sequencer: TriangleSequencer,
    pub ctrl_flag: bool,
    pub enabled: bool,
}

/// The position in the 32-step triangle wave.
#[derive(Clone, Copy)]
pub struct TriangleSequencer {
    pub current: u16,
}

pub const TRIANGLE_STEPS: u16 = 32;

/// Step `i` of the wave: 15 down to 0, then 0 up to 15.
pub open spec fn triangle_level(i: int) -> int {
    if i < 16 {
        15 - i
    } else {
        i - 16
    }
}

impl Default for TriangleSequencer {
    fn default() -> (r: TriangleSequencer)
        ensures
            r.current == 0,
    {
        TriangleSequencer { current: 0 }
    }
}

impl TriangleSequencer {
    pub fn new() -> (r: TriangleSequencer)
        ensures
            r.current == 0,
    {
        TriangleSequencer { current: 0 }
    }

    /// Step on, wrapping after the last step.
    pub fn tick(&mut self)
        requires
            old(self).current < TRIANGLE_STEPS,
        ensures
            final(self).current == (old(self).current + 1) % 32,
            final(self).current < TRIANGLE_STEPS,
    {
        self.current = (self.current + 1) % TRIANGLE_STEPS;
    }
}

impl Sampled for TriangleSequencer {
    type OutputType = u16;

    open spec fn can_sample(&self) -> bool {
        self.current < TRIANGLE_STEPS
    }

    fn sample(&mut self) -> (r: u16)
        ensures
            *final(self) == *old(self),
            r == triangle_level(old(self).current as int),
    {
        if self.current < 16 {
            15 - self.current
        } else {
            self.current - 16
        }
    }
}

impl Default for Triangle {
    fn default() -> (r: Triangle)
        ensures
            r.wf(),
            r.timer == Counter::spec_default(),
            r.linear_counter == Counter::spec_default(),
            r.length_counter == (LengthCounter { counter: Counter::spec_default(), halt: false }),
            r.sequencer.current == 0,
            !r.ctrl_flag,
            !r.enabled,
    {
        Triangle {
            timer: Counter::default(),
            linear_counter: Counter::default(),
            length_counter: LengthCounter::default(),
            sequencer: TriangleSequencer::default(),
            ctrl_flag: false,
            enabled: false,
        }
    }
}

impl Triangle {
    /// The sequencer stays within the wave's 32 steps.
    pub open spec fn wf(self) -> bool {
        self.sequencer.current < TRIANGLE_STEPS
    }

    pub fn new() -> (r: Triangle)
        ensures
            r.wf(),
            r.timer == Counter::spec_default(),
            r.linear_counter == Counter::spec_default(),
            r.length_counter == (LengthCounter { counter: Counter::spec_default(), halt: false }),
            r.sequencer.current == 0,
            r.ctrl_flag,
            r.enabled,
    {
        Triangle {
            timer: Counter::new(0),
            linear_counter: Counter::new(0),
            length_counter: LengthCounter::new(0),
            sequencer: TriangleSequencer::new(),
            ctrl_flag: true,
            enabled: true,
        }
    }

    /// Tick the linear counter unless a reload is pending; the reload request is dropped
    /// once the control flag is clear.
    pub fn tick_linear_counter(&mut self)
        ensures
            final(self).linear_counter == (Counter {
                reload: if old(self).ctrl_flag {
                    old(self).linear_counter.reload
                } else {
                    false
                },
                ..(if old(self).linear_counter.reload {
                    old(self).linear_counter
                } else {
                    old(self).linear_counter.spec_tick()
                })
            }),
            final(self).timer == old(self).timer,
            final(self).length_counter == old(self).length_counter,
            final(self).sequencer == old(self).sequencer,
            final(self).ctrl_flag == old(self).ctrl_flag,
            final(self).enabled == old(self).enabled,
    {
        if !self.linear_counter.reloaded() {
            self.linear_counter.tick();
        }
        if !self.ctrl_flag {
            self.linear_counter.clear_reload();
        }
    }

    /// Step the wave unless the channel is silenced.
    pub fn tick_sequencer(&mut self)
        requires
            old(self).wf(),
        ensures
            final(self).wf(),
            old(self).spec_silenced() ==> *final(self) == *old(self),
            !old(self).spec_silenced() ==> *final(self) == (Triangle {
                sequencer: TriangleSequencer {
                    current: ((old(self).sequencer.current + 1) % 32) as u16,
                },
                ..*old(self)
            }),
    {
        if !self.silenced() {
            self.sequencer.tick();
        }
    }

    pub open spec fn spec_silenced(self) -> bool {
        self.linear_counter.current == 0 || self.length_counter.spec_silenced()
    }

    /// Silent while either the linear or the length counter is at zero.
    pub fn silenced(&self) -> (r: bool)
        ensures
            r == self.spec_silenced(),
    {
        self.linear_counter.get_count() == 0 || self.length_counter.silenced()
    }

    /// $4008: bit 7 is the control (and length halt) flag, bits 0-6 the linear counter's
    /// period.
    pub fn set_linear_counter_grp(&mut self, val: u8)
        ensures
            *final(self) == (Triangle {
                ctrl_flag: val & 0x80 != 0,
                length_counter: LengthCounter { halt: val & 0x80 != 0, ..old(self).length_counter },
                linear_counter: Counter { period: (val & 0x7F) as u16, ..old(self).linear_counter },
                ..*old(self)
            }),
    {
        self.ctrl_flag = (val & 0x80) != 0;
        self.length_counter.set_halt(self.ctrl_flag);
        self.linear_counter.set_period((val & 0x7F) as u16);
    }

    /// $400A: the low byte of the timer period.
    pub fn set_timer_low_grp(&mut self, val: u8)
        ensures
            *final(self) == (Triangle {
                timer: Counter { period: (old(self).timer.period & 0xFF00) | (val as u16), ..old(self).timer },
                ..*old(self)
            }),
    {
        let high = self.timer.get_period() & 0xFF00;
        self.timer.set_period(high | (val as u16));
    }

    /// $400B: the timer's high three bits and the length counter load; asks the linear
    /// counter to reload.
    pub fn set_length_counter_grp(&mut self, val: u8)
        ensures
            *final(self) == (Triangle {
                timer: Counter {
                    period: ((((val & 0x7) as u16) << 8u16) | (old(self).timer.period & 0xFF)) as u16,
                    ..old(self).timer
                },
                length_counter: LengthCounter {
                    counter: Counter {
                        period: crate::apu::length_reload(val >> 3u8) as u16,
                        reload: true,
                        ..old(self).length_counter.counter
                    },
                    ..old(self).length_counter
                },
                linear_counter: Counter { reload: true, ..old(self).linear_counter },
                ..*old(self)
            }),
    {
        let low = self.timer.get_period() & 0xFF;
        self.timer.set_period(((val & 0x7) as u16) << 8u16 | low);
        assert(val >> 3u8 < 32) by (bit_vector);
        self.length_counter.set_period(val >> 3u8);
        self.linear_counter.set_reload();
    }

    /// Disabling the channel also stops its length counter.
    pub fn set_enabled(&mut self, enabled: bool)
        ensures
            *final(self) == (Triangle {
                enabled,
                length_counter: if enabled {
                    old(self).length_counter
                } else {
                    LengthCounter {
                        counter: Counter { period: 0, current: 0, ..old(self).length_counter.counter },
                        ..old(self).length_counter
                    }
                },
                ..*old(self)
            }),
    {
        self.enabled = enabled;
        if !enabled {
            self.length_counter.disable();
        }
    }

    pub fn quarter_frame(&mut self)
        ensures
            *final(self) == (Triangle { linear_counter: old(self).linear_counter.spec_tick(), ..*old(self) }),
    {
        self.linear_counter.tick();
    }

    pub fn half_frame(&mut self)
        ensures
            *final(self) == (Triangle { length_counter: old(self).length_counter.spec_tick(), ..*old(self) }),
    {
        self.length_counter.tick();
    }

    pub fn tick(&mut self)
        ensures
            *final(self) == (Triangle { timer: old(self).timer.spec_tick(), ..*old(self) }),
    {
        self.timer.tick();
    }
}

impl Sampled for Triangle {
    type OutputType = u16;

    open spec fn can_sample(&self) -> bool {
        self.wf()
    }

    /// The wave's level while the channel sounds, 0 when it is silenced.
    fn sample(&mut self) -> (r: u16)
        ensures
            *final(self) == *old(self),
            r == (if old(self).spec_silenced() {
                0
            } else {
                triangle_level(old(self).sequencer.current as int)
            }),
    {
        if !self.silenced() {
            self.sequencer.sample()
        } else {
            0
        }
    }
}

} // verus!
