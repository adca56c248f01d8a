//! The sweep that slides the frequency of the first channel.
use crate::dmg::bits::{bit, test_bit, weight};
use crate::dmg::sound::traits::Tick;
use vstd::prelude::*;

verus! {

#[derive(Clone, Copy, Debug, PartialEq, Eq, Structural)]
pub struct FrequencySweep {
    pub enabled: bool,
    /// Set once a computed frequency has passed 2047; the channel is then
    /// switched off.
    pub overflow: bool,
    /// Set once a frequency has been computed downwards since the trigger.
    pub has_negated: bool,
    pub timer: u8,
    pub frequency: u16,
    pub shadow_frequency: u16,
    pub period: u8,
    pub negate: bool,
    pub shift: u8,
}

impl FrequencySweep {
    /// The number of sequencer steps between two sweeps: a period of 0
    /// counts as 8.
    pub open spec fn reload(self) -> u8 {
        if self.period != 0 {
            self.period
        } else {
            8
        }
    }

    /// The shadow frequency moved by its own value shifted right.
    pub open spec fn target(self) -> int {
        let delta = self.shadow_frequency as int / weight((self.shift % 8) as nat);
        if self.negate {
            self.shadow_frequency - delta
        } else {
            self.shadow_frequency + delta
        }
    }

    /// The sweep after a frequency was computed: a downward computation is
    /// remembered, and a result above 2047 is an overflow.
    pub open spec fn calculate_spec(self) -> FrequencySweep {
        FrequencySweep {
            has_negated: self.has_negated || self.negate,
            overflow: self.overflow || self.target() > 2047,
            ..self
        }
    }

    pub open spec fn nr10(self) -> u8 {
        0x80u8 | (((self.period % 8) * 16) as u8) | (if self.negate {
            0b100u8
        } else {
            0u8
        }) | self.shift
    }

    /// The sweep after a write of its register. Leaving the downward
    /// direction after it was used counts as an overflow.
    pub open spec fn set_nr10_spec(self, v: u8) -> FrequencySweep {
        FrequencySweep {
            period: (v / 16) % 8,
            negate: bit(v, 3),
            shift: v % 8,
            overflow: self.overflow || (self.has_negated && !bit(v, 3)),
            ..self
        }
    }

    pub open spec fn set_nr13_spec(self, v: u8) -> FrequencySweep {
        FrequencySweep { frequency: (((self.frequency / 256) % 8) * 256 + v) as u16, ..self }
    }

    pub open spec fn set_nr14_spec(self, v: u8) -> FrequencySweep {
        FrequencySweep { frequency: (self.frequency % 256 + (v % 8) * 256) as u16, ..self }
    }

    pub open spec fn trigger_spec(self) -> FrequencySweep {
        let armed = FrequencySweep {
            overflow: false,
            has_negated: false,
            shadow_frequency: self.frequency,
            timer: self.reload(),
            enabled: self.period != 0 || self.shift != 0,
            ..self
        };
        if self.shift > 0 {
            armed.calculate_spec()
        } else {
            armed
        }
    }

    pub open spec fn off() -> FrequencySweep {
        FrequencySweep {
            enabled: false,
            overflow: false,
            has_negated: false,
            timer: 0,
            frequency: 0,
            shadow_frequency: 0,
            period: 0,
            negate: false,
            shift: 0,
        }
    }

    /// The sweep after a step of the sequencer: when its timer runs out and
    /// the period is not 0 a new frequency is computed; unless that overflows
    /// or the shift is 0 it is taken over, and the next one is checked for
    /// overflow at once.
    pub open spec fn tick_spec(self) -> FrequencySweep {
        if !self.enabled {
            self
        } else if self.timer <= 1 {
            let reloaded = FrequencySweep { timer: self.reload(), ..self };
            if self.period != 0 {
                let first = reloaded.calculate_spec();
                if !first.overflow && self.shift != 0 {
                    (FrequencySweep {
                        shadow_frequency: reloaded.target() as u16,
                        frequency: reloaded.target() as u16,
                        ..first
                    }).calculate_spec()
                } else {
                    first
                }
            } else {
                reloaded
            }
        } else {
            FrequencySweep { timer: (self.timer - 1) as u8, ..self }
        }
    }

    pub fn new() -> (r: FrequencySweep)
        ensures
            r == Self::off(),
    {
        Self {
            negate: false,
            shadow_frequency: 0,
            has_negated: false,
            enabled: false,
            period: 0,
            shift: 0,
            timer: 0,
            overflow: false,
            frequency: 0,
        }
    }

    /// Computes the next frequency and notes an overflow.
    pub fn calculate(&mut self) -> (r: u32)
        ensures
            r == old(self).target(),
            *final(self) == old(self).calculate_spec(),
    {
        let divisor: u32 = match self.shift % 8 {
            0 => 1,
            1 => 2,
            2 => 4,
            3 => 8,
            4 => 16,
            5 => 32,
            6 => 64,
            _ => 128,
        };
        let delta: u32 = self.shadow_frequency as u32 / divisor;
        let new_freq: u32 = if self.negate {
            self.has_negated = true;
            self.shadow_frequency as u32 - delta
        } else {
            self.shadow_frequency as u32 + delta
        };
        if new_freq > 2047 {
            self.overflow = true;
        }
        new_freq
    }

    pub fn get_frequency(&self) -> (r: u32)
        ensures
            r == self.frequency,
    {
        self.frequency as u32
    }

    pub fn get_nr10(&self) -> (r: u8)
        ensures
            r == self.nr10(),
    {
        0x80 | ((self.period % 8) * 16) | (if self.negate {
            0b100
        } else {
            0
        }) | self.shift
    }

    pub fn set_nr10(&mut self, v: u8)
        ensures
            *final(self) == old(self).set_nr10_spec(v),
    {
        self.period = (v / 16) % 8;
        self.negate = test_bit(v, 3);
        self.shift = v % 8;
        if self.has_negated && !self.negate {
            self.overflow = true;
        }
    }

    /// Whether the sweep lets the channel play.
    pub fn is_enabled(&self) -> (r: bool)
        ensures
            r == !self.overflow,
    {
        !self.overflow
    }

    pub fn set_nr13(&mut self, v: u8)
        ensures
            *final(self) == old(self).set_nr13_spec(v),
    {
        self.frequency = ((self.frequency / 256) % 8) * 256 + v as u16;
    }

    pub fn set_nr14(&mut self, v: u8)
        ensures
            *final(self) == old(self).set_nr14_spec(v),
    {
        self.frequency = (self.frequency % 256) + ((v % 8) as u16) * 256;
    }

    pub fn trigger(&mut self)
        ensures
            *final(self) == old(self).trigger_spec(),
    {
        self.overflow = false;
        self.has_negated = false;
        self.shadow_frequency = self.frequency;
        self.timer = if self.period != 0 {
            self.period
        } else {
            8
        };
        self.enabled = self.period != 0 || self.shift != 0;
        if self.shift > 0 {
            self.calculate();
        }
    }

    pub fn power_off(&mut self)
        ensures
            *final(self) == Self::off(),
    {
        self.enabled = false;
        self.overflow = false;
        self.has_negated = false;
        self.timer = 0;
        self.frequency = 0;
        self.shadow_frequency = 0;
        self.period = 0;
        self.negate = false;
        self.shift = 0;
    }
}

impl Tick for FrequencySweep {
    fn tick(&mut self)
        ensures
            *final(self) == old(self).tick_spec(),
    {
        if !self.enabled {
            return ;
        }
        self.timer = self.timer.saturating_sub(1);
        if self.timer == 0 {
            self.timer = if self.period != 0 {
                self.period
            } else {
                8
            };
            if self.period != 0 {
                let new_freq: u32 = self.calculate();
                if !self.overflow && self.shift != 0 {
                    self.shadow_frequency = new_freq as u16;
                    self.frequency = new_freq as u16;
                    self.calculate();
                }
            }
        }
    }
}


impl Default for FrequencySweep {
    fn default() -> (r: FrequencySweep)
        ensures
            r == FrequencySweep::off(),
    {
        FrequencySweep::new()
    }
}

} // verus!
