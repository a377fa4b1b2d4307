//! The volume envelope of the pulse and noise channels, built on two counters.
use crate::apu::counter::{Counter, Sampled};
use vstd::prelude::*;

verus! {

#[derive(Clone, Copy)]
pub struct Envelope {
    pub decay: Counter,
    pub divider: Counter,
    pub start: bool,
    pub is_constant: bool,
}

impl Default for Envelope {
    fn default() -> (r: Self)
        ensures
            r == (Envelope {
                decay: Counter { current: 0, period: 0, reload: false, loop_flag: true },
                divider: Counter { current: 0, period: 0, reload: false, loop_flag: true },
                start: false,
                is_constant: false,
            }),
    {
        Envelope {
            decay: Counter::default(),
            divider: Counter::default(),
            start: false,
            is_constant: false,
        }
    }
}

impl Envelope {
    pub const DECAY_PERIOD: u16 = 15;

    /// The envelope that `default` and `new` give.
    pub open spec fn spec_default() -> Envelope {
        Envelope {
            decay: Counter { current: 0, period: 0, reload: false, loop_flag: true },
            divider: Counter { current: 0, period: 0, reload: false, loop_flag: true },
            start: false,
            is_constant: false,
        }
    }

    pub fn new() -> (r: Envelope)
        ensures
            r == (Envelope {
                decay: Counter { current: 0, period: 0, reload: false, loop_flag: true },
                divider: Counter { current: 0, period: 0, reload: false, loop_flag: true },
                start: false,
                is_constant: false,
            }),
    {
        Envelope::default()
    }

    pub fn set_constant(&mut self, is_constant: bool)
        ensures
            *final(self) == (Envelope { is_constant, ..*old(self) }),
    {
        self.is_constant = is_constant;
    }

    pub fn set_loop(&mut self, flag: bool)
        ensures
            *final(self) == (Envelope {
                decay: Counter { loop_flag: flag, ..old(self).decay },
                ..*old(self)
            }),
    {
        self.decay.set_loop(flag);
    }

    pub fn set_divider(&mut self, period: u16)
        ensures
            *final(self) == (Envelope {
                divider: Counter { period, ..old(self).divider },
                ..*old(self)
            }),
    {
        self.divider.set_period(period);
    }

    pub fn reset(&mut self)
        ensures
            *final(self) == (Envelope {
                divider: Counter { reload: true, ..old(self).divider },
                ..*old(self)
            }),
    {
        self.divider.set_reload();
    }

    pub open spec fn spec_clock(self) -> Envelope {
        if !self.start {
            let divider = self.divider.spec_tick();
            Envelope {
                divider,
                decay: if divider.current == divider.period {
                    self.decay.spec_tick()
                } else {
                    self.decay
                },
                ..self
            }
        } else {
            Envelope {
                start: false,
                decay: Counter { reload: true, ..self.decay },
                divider: Counter { reload: true, ..self.divider },
                ..self
            }
        }
    }

    /// One clock: the divider ticks and, each time it restarts, so does the decay counter.
    /// A pending start asks both counters to reload instead.
    pub fn clock(&mut self)
        ensures
            *final(self) == old(self).spec_clock(),
    {
        if !self.start {
            self.divider.tick();
            if self.divider.has_edge() {
                self.decay.tick();
            }
        } else {
            self.start = false;
            self.decay.set_reload();
            self.divider.set_reload();
        }
    }

    pub open spec fn spec_sample(self) -> u16 {
        if self.is_constant {
            self.divider.period
        } else {
            self.decay.current
        }
    }
}

impl Sampled for Envelope {
    type OutputType = u16;

    open spec fn can_sample(&self) -> bool {
        true
    }

    /// The constant volume (the divider's period) or the decay level.
    fn sample(&mut self) -> (r: u16)
        ensures
            r == old(self).spec_sample(),
            *final(self) == *old(self),
    {
        if self.is_constant {
            self.divider.get_period()
        } else {
            self.decay.get_count()
        }
    }
}

/// The envelope gives the volume written to it while its constant-volume flag is set, and
/// its decay level, whatever its divider's period, while the flag is clear.
pub proof fn lemma_envelope_volume(e: Envelope, volume: u16)
    ensures
        (Envelope { is_constant: true, divider: Counter { period: volume, ..e.divider }, ..e })
            .spec_sample() == volume,
        (Envelope { is_constant: false, ..e }).spec_sample() == e.decay.current,
{
}

} // verus!
