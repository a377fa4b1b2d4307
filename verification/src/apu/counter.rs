//! Counters shared by the sound channels: a down counter with reload and loop, the length
//! counter built on it, and the frame counter that sequences quarter and half frames.
use crate::apu::length_reload;
use vstd::prelude::*;

verus! {

/// A component whose current output can be sampled.
pub trait Sampled {
    type OutputType;

    /// When a sample can be taken.
    spec fn can_sample(&self) -> bool;

    fn sample(&mut self) -> Self::OutputType
        requires
            old(self).can_sample(),
    ;
}

/// The step of the frame sequencer reached by the frame counter.
#[derive(Debug, PartialEq, Eq, Structural)]
pub enum Frame {
    Quarter,
    Half,
    Interrupt,
    Nothing,
}

/// A down counter that restarts at its period, when told to reload or when it loops.
#[derive(Clone, Copy)]
pub struct Counter {
    pub current: u16,
    pub period: u16,
    pub reload: bool,
    pub loop_flag: bool,
}

impl Counter {
    /// The counter that `default` gives.
    pub open spec fn spec_default() -> Counter {
        Counter { current: 0, period: 0, reload: false, loop_flag: true }
    }

    /// The counter after one tick.
    pub open spec fn spec_tick(self) -> Counter {
        if self.reload {
            Counter { current: self.period, ..self }
        } else if self.current == 0 {
            if self.loop_flag {
                Counter { current: self.period, ..self }
            } else {
                self
            }
        } else {
            Counter { current: (self.current - 1) as u16, ..self }
        }
    }

    /// The counter after `n` ticks.
    pub open spec fn ticks(self, n: nat) -> Counter
        decreases n,
    {
        if n == 0 {
            self
        } else {
            self.spec_tick().ticks((n - 1) as nat)
        }
    }

    pub fn new(period: u16) -> (r: Counter)
        ensures
            r == (Counter { current: period, period, reload: false, loop_flag: true }),
    {
        Counter { current: period, period, reload: false, loop_flag: true }
    }

    pub fn clear(&mut self)
        ensures
            *final(self) == (Counter { current: 0, ..*old(self) }),
    {
        self.current = 0;
    }

    pub fn set_period(&mut self, period: u16)
        ensures
            *final(self) == (Counter { period, ..*old(self) }),
    {
        self.period = period;
    }

    pub fn get_period(&self) -> (r: u16)
        ensures
            r == self.period,
    {
        self.period
    }

    pub fn get_count(&self) -> (r: u16)
        ensures
            r == self.current,
    {
        self.current
    }

    pub fn set_reload(&mut self)
        ensures
            *final(self) == (Counter { reload: true, ..*old(self) }),
    {
        self.reload = true;
    }

    pub fn clear_reload(&mut self)
        ensures
            *final(self) == (Counter { reload: false, ..*old(self) }),
    {
        self.reload = false;
    }

    pub fn reloaded(&self) -> (r: bool)
        ensures
            r == self.reload,
    {
        self.reload
    }

    pub fn set_loop(&mut self, flag: bool)
        ensures
            *final(self) == (Counter { loop_flag: flag, ..*old(self) }),
    {
        self.loop_flag = flag;
    }

    /// The counter stands at its period: it has just restarted.
    pub fn has_edge(&self) -> (r: bool)
        ensures
            r == (self.current == self.period),
    {
        self.current == self.period
    }

    /// Count down by one; at zero, restart at the period when looping and stay otherwise. A
    /// pending reload restarts the counter whatever its count.
    pub fn tick(&mut self)
        ensures
            *final(self) == old(self).spec_tick(),
    {
        if self.reload {
            self.current = self.period;
        } else if self.current == 0 {
            if self.loop_flag {
                self.current = self.period;
            }
        } else {
            self.current -= 1;
        }
    }
}

impl Default for Counter {
    fn default() -> (r: Self)
        ensures
            r == (Counter { current: 0, period: 0, reload: false, loop_flag: true }),
    {
        Counter::new(0)
    }
}

/// `n` ticks from a counter that has not reached zero count it down by `n`.
pub proof fn lemma_counter_counts_down(c: Counter, n: nat)
    requires
        !c.reload,
        n <= c.current,
    ensures
        c.ticks(n) == (Counter { current: (c.current - n) as u16, ..c }),
    decreases n,
{
    if n > 0 {
        lemma_counter_counts_down(c.spec_tick(), (n - 1) as nat);
    }
}

/// Ticking `a` times and then `b` times is ticking `a + b` times.
pub proof fn lemma_counter_ticks_add(c: Counter, a: nat, b: nat)
    ensures
        c.ticks(a + b) == c.ticks(a).ticks(b),
    decreases a,
{
    if a > 0 {
        lemma_counter_ticks_add(c.spec_tick(), (a - 1) as nat, b);
        assert((a + b - 1) as nat == (a - 1) as nat + b);
    }
}

/// A looping counter that is not being reloaded comes back to the same state after
/// `period + 1` ticks: it counts the period down to zero, then restarts.
pub proof fn lemma_counter_period(c: Counter)
    requires
        !c.reload,
        c.loop_flag,
        c.current <= c.period,
    ensures
        c.ticks((c.period + 1) as nat) == c,
{
    let cur = c.current as nat;
    let rest = (c.period - c.current) as nat;
    lemma_counter_ticks_add(c, cur, 1 + rest);
    lemma_counter_counts_down(c, cur);
    let zero = c.ticks(cur);
    assert(zero.current == 0);
    let top = zero.spec_tick();
    assert(top == (Counter { current: c.period, ..c }));
    assert(zero.ticks(1 + rest) == top.ticks(rest));
    lemma_counter_counts_down(top, rest);
    assert(cur + (1 + rest) == c.period + 1);
}

/// The length counter silences a channel once it has counted down.
#[derive(Clone, Copy)]
pub struct LengthCounter {
    pub counter: Counter,
    pub halt: bool,
}

impl Default for LengthCounter {
    fn default() -> (r: Self)
        ensures
            r == (LengthCounter {
                counter: Counter { current: 0, period: 0, reload: false, loop_flag: true },
                halt: false,
            }),
    {
        LengthCounter { counter: Counter::default(), halt: false }
    }
}

impl LengthCounter {
    pub fn new(period: u16) -> (r: LengthCounter)
        ensures
            r == (LengthCounter {
                counter: Counter { current: period, period, reload: false, loop_flag: true },
                halt: false,
            }),
    {
        LengthCounter { counter: Counter::new(period), halt: false }
    }

    /// Stop the counter: period and count both zero.
    pub fn disable(&mut self)
        ensures
            *final(self) == (LengthCounter {
                counter: Counter { period: 0, current: 0, ..old(self).counter },
                ..*old(self)
            }),
    {
        self.counter.set_period(0);
        self.counter.clear();
    }

    pub open spec fn spec_silenced(self) -> bool {
        self.counter.current == 0
    }

    pub fn silenced(&self) -> (r: bool)
        ensures
            r == self.spec_silenced(),
    {
        self.counter.get_count() == 0
    }

    /// Load the period from the length table entry `val` and ask for a reload.
    pub fn set_period(&mut self, val: u8)
        requires
            val < 32,
        ensures
            *final(self) == (LengthCounter {
                counter: Counter {
                    period: length_reload(val) as u16,
                    reload: true,
                    ..old(self).counter
                },
                ..*old(self)
            }),
    {
        let period = crate::apu::length_reload_exec(val);
        self.counter.set_period(period as u16);
        self.counter.set_reload();
    }

    pub fn clear(&mut self)
        ensures
            *final(self) == (LengthCounter {
                counter: Counter { current: 0, ..old(self).counter },
                ..*old(self)
            }),
    {
        self.counter.clear();
    }

    pub fn set_halt(&mut self, flag: bool)
        ensures
            *final(self) == (LengthCounter { halt: flag, ..*old(self) }),
    {
        self.halt = flag;
    }

    pub fn has_edge(&self) -> (r: bool)
        ensures
            r == (self.counter.current == self.counter.period),
    {
        self.counter.has_edge()
    }

    pub open spec fn spec_tick(self) -> LengthCounter {
        if !self.spec_silenced() && !self.halt {
            LengthCounter { counter: self.counter.spec_tick(), ..self }
        } else {
            self
        }
    }

    /// Tick the counter unless it is silenced or halted.
    pub fn tick(&mut self)
        ensures
            *final(self) == old(self).spec_tick(),
            old(self).spec_silenced() ==> *final(self) == *old(self),
    {
        if !self.silenced() && !self.halt {
            self.counter.tick();
        }
    }
}

/// The frame counter steps through four (mode 0) or five (mode 1) steps.
#[derive(Clone, Copy)]
pub struct FrameCounter {
    pub counter: u8,
    pub period: u8,
    pub set_irq: bool,
}

impl Default for FrameCounter {
    fn default() -> (r: Self)
        ensures
            r == (FrameCounter { counter: 0, period: 0, set_irq: false }),
    {
        FrameCounter { counter: 0, period: 0, set_irq: false }
    }
}

/// The frame that step `counter` of a sequence with the last step `period` gives.
pub open spec fn frame_at(period: u8, counter: u8) -> Frame {
    if period == 3 {
        if counter == 0 {
            Frame::Quarter
        } else if counter == 1 {
            Frame::Half
        } else if counter == 2 {
            Frame::Quarter
        } else {
            Frame::Interrupt
        }
    } else {
        if counter == 0 {
            Frame::Quarter
        } else if counter == 1 {
            Frame::Half
        } else if counter == 2 {
            Frame::Quarter
        } else if counter == 3 {
            Frame::Nothing
        } else {
            Frame::Half
        }
    }
}

impl FrameCounter {
    pub const MODE_BIT: u8 = 7;
    pub const IRQ_INHIBIT: u8 = 6;

    pub fn new() -> (r: FrameCounter)
        ensures
            r == (FrameCounter { counter: 0, period: 3, set_irq: false }),
    {
        FrameCounter { counter: 0, period: 3, set_irq: false }
    }

    /// Bit 7 selects the five-step sequence, bit 6 inhibits the IRQ. Selecting the five-step
    /// sequence clocks a half frame at once.
    pub fn set_control(&mut self, val: u8) -> (r: Frame)
        ensures
            final(self).counter == old(self).counter,
            final(self).period == (if val & 0x80 != 0 {
                4u8
            } else {
                3u8
            }),
            final(self).set_irq == (val & 0x40 == 0),
            r == (if val & 0x80 != 0 {
                Frame::Half
            } else {
                Frame::Nothing
            }),
    {
        let mode_flag = (val & (1u8 << FrameCounter::MODE_BIT)) != 0;
        assert(1u8 << 7u8 == 0x80u8) by (bit_vector);
        assert(1u8 << 6u8 == 0x40u8) by (bit_vector);
        if mode_flag {
            self.period = 4;
        } else {
            self.period = 3;
        }
        self.set_irq = !((val & (1u8 << FrameCounter::IRQ_INHIBIT)) != 0);
        if mode_flag {
            Frame::Half
        } else {
            Frame::Nothing
        }
    }

    /// The frame of the current step.
    pub fn get_number(&mut self) -> (r: Frame)
        requires
            old(self).counter <= (if old(self).period == 3 {
                3u8
            } else {
                4u8
            }),
        ensures
            *final(self) == *old(self),
            r == frame_at(old(self).period, old(self).counter),
    {
        if self.period == 3 {
            match self.counter {
                0 => Frame::Quarter,
                1 => Frame::Half,
                2 => Frame::Quarter,
                _ => Frame::Interrupt,
            }
        } else {
            match self.counter {
                0 => Frame::Quarter,
                1 => Frame::Half,
                2 => Frame::Quarter,
                3 => Frame::Nothing,
                _ => Frame::Half,
            }
        }
    }

    /// Step on, back to the first step after the last one. A counter inside its sequence
    /// stays inside it.
    pub fn tick(&mut self)
        requires
            old(self).counter < u8::MAX || old(self).counter == old(self).period,
        ensures
            final(self).counter == (if old(self).counter == old(self).period {
                0
            } else {
                old(self).counter + 1
            }),
            final(self).period == old(self).period,
            final(self).set_irq == old(self).set_irq,
            old(self).counter <= old(self).period ==> final(self).counter <= final(self).period,
    {
        if self.counter == self.period {
            self.counter = 0;
        } else {
            self.counter += 1;
        }
    }
}

} // verus!
