//! The first channel: a square wave with a frequency sweep.
use crate::dmg::bits::{bit, test_bit};
use crate::dmg::sound::common::{duty_high, duty_table, period_of, ChannelCommon};
use crate::dmg::sound::frequency_sweep::FrequencySweep;
use crate::dmg::sound::volume_envelope::VolumeEnvelope;
use crate::dmg::traits::{Mem, Tick};
use vstd::prelude::*;

verus! {

#[derive(Clone, Copy, Debug, PartialEq, Eq, Structural)]
pub struct Channel1 {
    pub common: ChannelCommon,
    pub duty: u8,
    pub timer: u32,
    pub sequence: u8,
    pub volume_envelope: VolumeEnvelope,
    pub frequency_sweep: FrequencySweep,
}

impl Channel1 {
    pub open spec fn initial() -> Channel1 {
        Channel1 {
            common: ChannelCommon::initial(1),
            duty: 0,
            timer: 0,
            sequence: 0,
            volume_envelope: VolumeEnvelope { finished: true, ..VolumeEnvelope::off() },
            frequency_sweep: FrequencySweep::off(),
        }
    }

    pub open spec fn read_spec(self, addr: u16) -> u8 {
        if addr == 0xff10 {
            self.frequency_sweep.nr10()
        } else if addr == 0xff11 {
            ((self.duty % 4) * 64 + 0x3f) as u8
        } else if addr == 0xff12 {
            self.volume_envelope.nr12()
        } else if addr == 0xff14 {
            if self.common.length_counter.enabled {
                0xff
            } else {
                0xbf
            }
        } else {
            0xff
        }
    }

    pub open spec fn trigger_spec(self) -> Channel1 {
        let sweep = self.frequency_sweep.trigger_spec();
        Channel1 {
            timer: period_of(self.frequency_sweep.frequency, 4) as u32,
            volume_envelope: self.volume_envelope.trigger_spec(),
            frequency_sweep: sweep,
            common: ChannelCommon {
                ch_enabled: !sweep.overflow && self.common.dac_enabled,
                ..self.common
            },
            ..self
        }
    }

    pub open spec fn write_spec(self, addr: u16, v: u8) -> Channel1 {
        if addr == 0xff10 {
            let sweep = self.frequency_sweep.set_nr10_spec(v);
            Channel1 {
                frequency_sweep: sweep,
                common: ChannelCommon {
                    ch_enabled: self.common.ch_enabled && !sweep.overflow,
                    ..self.common
                },
                ..self
            }
        } else if addr == 0xff11 {
            Channel1 {
                duty: v / 64,
                common: ChannelCommon {
                    length_counter: self.common.length_counter.set_length_spec(v % 64),
                    ..self.common
                },
                ..self
            }
        } else if addr == 0xff12 {
            Channel1 {
                common: ChannelCommon {
                    dac_enabled: v >= 8,
                    ch_enabled: v >= 8 && self.common.ch_enabled,
                    ..self.common
                },
                volume_envelope: self.volume_envelope.set_nr12_spec(v),
                ..self
            }
        } else if addr == 0xff13 {
            Channel1 { frequency_sweep: self.frequency_sweep.set_nr13_spec(v), ..self }
        } else if addr == 0xff14 {
            let set = Channel1 {
                frequency_sweep: self.frequency_sweep.set_nr14_spec(v),
                common: ChannelCommon {
                    length_counter: self.common.length_counter.set_nr14_spec(v),
                    ..self.common
                },
                ..self
            };
            if set.common.stopped_by_length() {
                Channel1 { common: ChannelCommon { ch_enabled: false, ..set.common }, ..set }
            } else if bit(v, 7) {
                set.trigger_spec()
            } else {
                set
            }
        } else {
            self
        }
    }

    /// The level of the wave at the current step.
    pub open spec fn level(self) -> u8 {
        if self.common.playing() && duty_high(self.duty, self.sequence) {
            self.volume_envelope.volume_spec()
        } else {
            0
        }
    }

    pub open spec fn tick_spec(self) -> Channel1 {
        if self.timer <= 1 {
            let stepped = Channel1 {
                timer: period_of(self.frequency_sweep.frequency, 4) as u32,
                sequence: ((self.sequence % 8 + 1) % 8) as u8,
                ..self
            };
            Channel1 { common: ChannelCommon { output: stepped.level(), ..self.common }, ..stepped }
        } else {
            Channel1 { timer: (self.timer - 1) as u32, ..self }
        }
    }

    pub open spec fn tick_frequency_sweep_spec(self) -> Channel1 {
        let sweep = self.frequency_sweep.tick_spec();
        Channel1 {
            frequency_sweep: sweep,
            common: ChannelCommon {
                ch_enabled: self.common.ch_enabled && !sweep.overflow,
                ..self.common
            },
            ..self
        }
    }

    pub open spec fn power_off_spec(self) -> Channel1 {
        Channel1 {
            frequency_sweep: FrequencySweep::off(),
            volume_envelope: VolumeEnvelope::off(),
            common: self.common.power_off_spec(),
            sequence: 0,
            duty: 0,
            ..self
        }
    }

    pub fn new() -> (r: Channel1)
        ensures
            r == Self::initial(),
    {
        Self {
            common: ChannelCommon::new(1),
            duty: 0,
            timer: 0,
            sequence: 0,
            volume_envelope: VolumeEnvelope::new(),
            frequency_sweep: FrequencySweep::new(),
        }
    }

    fn reload(&self) -> (r: u32)
        ensures
            r == period_of(self.frequency_sweep.frequency, 4),
    {
        let frequency: u32 = self.frequency_sweep.get_frequency();
        if frequency <= 2048 {
            (2048 - frequency) * 4
        } else {
            0
        }
    }

    pub fn trigger(&mut self)
        ensures
            *final(self) == old(self).trigger_spec(),
    {
        self.timer = self.reload();
        self.volume_envelope.trigger();
        self.frequency_sweep.trigger();
        if self.frequency_sweep.is_enabled() {
            self.common.ch_enabled = self.common.dac_enabled;
        } else {
            self.common.ch_enabled = false;
        }
    }

    pub fn tick_frequency_sweep(&mut self)
        ensures
            *final(self) == old(self).tick_frequency_sweep_spec(),
    {
        crate::dmg::sound::traits::Tick::tick(&mut self.frequency_sweep);
        if !self.frequency_sweep.is_enabled() {
            self.common.ch_enabled = false;
        }
    }

    pub fn power_off(&mut self)
        ensures
            *final(self) == old(self).power_off_spec(),
    {
        self.frequency_sweep.power_off();
        self.volume_envelope.power_off();
        self.common.power_off();
        self.sequence = 0;
        self.duty = 0;
    }
}

impl Mem for Channel1 {
    fn read_byte(&self, addr: u16) -> (r: u8)
        ensures
            r == self.read_spec(addr),
    {
        match addr {
            0xff10 => self.frequency_sweep.get_nr10(),
            0xff11 => (self.duty % 4) * 64 + 0x3f,
            0xff12 => self.volume_envelope.get_nr12(),
            0xff13 => 0xff,
            0xff14 => {
                if self.common.length_counter.is_enabled() {
                    0xff
                } else {
                    0xbf
                }
            },
            _ => 0xff,
        }
    }

    fn write_byte(&mut self, addr: u16, v: u8)
        ensures
            *final(self) == old(self).write_spec(addr, v),
    {
        match addr {
            0xff10 => {
                self.frequency_sweep.set_nr10(v);
                if !self.frequency_sweep.is_enabled() {
                    self.common.ch_enabled = false;
                }
            },
            0xff11 => {
                self.duty = v / 64;
                self.common.length_counter.set_length(v % 64)
            },
            0xff12 => {
                self.common.dac_enabled = v >= 8;
                self.common.ch_enabled = self.common.is_channel_enabled();
                self.volume_envelope.set_nr12(v);
            },
            0xff13 => {
                self.frequency_sweep.set_nr13(v);
            },
            0xff14 => {
                self.frequency_sweep.set_nr14(v);
                self.common.length_counter.set_nr14(v);
                if self.common.length_counter.is_enabled() && self.common.length_counter.is_zero() {
                    self.common.ch_enabled = false;
                } else if test_bit(v, 7) {
                    self.trigger()
                }
            },
            _ => {},
        }
    }
}

impl Tick for Channel1 {
    fn tick(&mut self)
        ensures
            *final(self) == old(self).tick_spec(),
    {
        self.timer = self.timer.saturating_sub(1);
        if self.timer == 0 {
            self.timer = self.reload();
            self.sequence = (self.sequence % 8 + 1) % 8;
            self.common.output = if self.common.is_channel_enabled() {
                if duty_table(self.duty, self.sequence) == 1 {
                    self.volume_envelope.get_volume()
                } else {
                    0
                }
            } else {
                0
            };
        }
    }
}


impl Default for Channel1 {
    fn default() -> (r: Channel1)
        ensures
            r == Channel1::initial(),
    {
        Channel1::new()
    }
}

} // verus!
