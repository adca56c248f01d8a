//! The second channel: a square wave.
use crate::dmg::bits::{bit, test_bit};
use crate::dmg::sound::common::{duty_high, duty_table, period_of, ChannelCommon};
use crate::dmg::sound::volume_envelope::VolumeEnvelope;
use crate::dmg::traits::{Mem, Tick};
use vstd::prelude::*;

verus! {

#[derive(Clone, Copy, Debug, PartialEq, Eq, Structural)]
pub struct Channel2 {
    pub common: ChannelCommon,
    pub duty: u8,
    pub timer: u32,
    pub sequence: u8,
    pub frequency: u16,
    pub volume_envelope: VolumeEnvelope,
}

impl Channel2 {
    pub open spec fn initial() -> Channel2 {
        Channel2 {
            common: ChannelCommon::initial(2),
            duty: 0,
            timer: 0,
            sequence: 0,
            frequency: 0,
            volume_envelope: VolumeEnvelope { finished: true, ..VolumeEnvelope::off() },
        }
    }

    pub open spec fn read_spec(self, addr: u16) -> u8 {
        if addr == 0xff16 {
            ((self.duty % 4) * 64 + 0x3f) as u8
        } else if addr == 0xff17 {
            self.volume_envelope.nr12()
        } else if addr == 0xff19 {
            if self.common.length_counter.enabled {
                0xff
            } else {
                0xbf
            }
        } else {
            0xff
        }
    }

    pub open spec fn trigger_spec(self) -> Channel2 {
        Channel2 {
            timer: period_of(self.frequency, 4) as u32,
            volume_envelope: self.volume_envelope.trigger_spec(),
            common: ChannelCommon { ch_enabled: self.common.dac_enabled, ..self.common },
            ..self
        }
    }

    pub open spec fn write_spec(self, addr: u16, v: u8) -> Channel2 {
        if addr == 0xff16 {
            Channel2 {
                duty: v / 64,
                common: ChannelCommon {
                    length_counter: self.common.length_counter.set_length_spec(v % 64),
                    ..self.common
                },
                ..self
            }
        } else if addr == 0xff17 {
            Channel2 {
                common: ChannelCommon {
                    dac_enabled: v >= 8,
                    ch_enabled: v >= 8 && self.common.ch_enabled,
                    ..self.common
                },
                volume_envelope: self.volume_envelope.set_nr12_spec(v),
                ..self
            }
        } else if addr == 0xff18 {
            Channel2 { frequency: (((self.frequency / 256) % 8) * 256 + v) as u16, ..self }
        } else if addr == 0xff19 {
            let set = Channel2 {
                frequency: (self.frequency % 256 + (v % 8) * 256) as u16,
                common: ChannelCommon {
                    length_counter: self.common.length_counter.set_nr14_spec(v),
                    ..self.common
                },
                ..self
            };
            if set.common.stopped_by_length() {
                Channel2 { common: ChannelCommon { ch_enabled: false, ..set.common }, ..set }
            } else if bit(v, 7) {
                set.trigger_spec()
            } else {
                set
            }
        } else {
            self
        }
    }

    /// The level of the wave at the current step.
    pub open spec fn level(self) -> u8 {
        if self.common.ch_enabled && duty_high(self.duty, self.sequence) {
            self.volume_envelope.volume_spec()
        } else {
            0
        }
    }

    pub open spec fn tick_spec(self) -> Channel2 {
        if self.timer <= 1 {
            let stepped = Channel2 {
                timer: period_of(self.frequency, 4) as u32,
                sequence: ((self.sequence % 8 + 1) % 8) as u8,
                ..self
            };
            Channel2 { common: ChannelCommon { output: stepped.level(), ..self.common }, ..stepped }
        } else {
            Channel2 { timer: (self.timer - 1) as u32, ..self }
        }
    }

    pub open spec fn power_off_spec(self) -> Channel2 {
        Channel2 {
            volume_envelope: VolumeEnvelope::off(),
            common: self.common.power_off_spec(),
            sequence: 0,
            frequency: 0,
            duty: 0,
            ..self
        }
    }

    pub fn new() -> (r: Channel2)
        ensures
            r == Self::initial(),
    {
        Self {
            common: ChannelCommon::new(2),
            timer: 0,
            sequence: 0,
            duty: 0,
            frequency: 0,
            volume_envelope: VolumeEnvelope::new(),
        }
    }

    fn reload(&self) -> (r: u32)
        ensures
            r == period_of(self.frequency, 4),
    {
        if self.frequency <= 2048 {
            (2048 - self.frequency as u32) * 4
        } else {
            0
        }
    }

    pub fn trigger(&mut self)
        ensures
            *final(self) == old(self).trigger_spec(),
    {
        self.timer = self.reload();
        self.volume_envelope.trigger();
        self.common.ch_enabled = self.common.dac_enabled;
    }

    pub fn power_off(&mut self)
        ensures
            *final(self) == old(self).power_off_spec(),
    {
        self.volume_envelope.power_off();
        self.common.power_off();
        self.sequence = 0;
        self.frequency = 0;
        self.duty = 0;
    }
}

impl Mem for Channel2 {
    fn read_byte(&self, addr: u16) -> (r: u8)
        ensures
            r == self.read_spec(addr),
    {
        match addr {
            0xff15 => 0xff,
            0xff16 => (self.duty % 4) * 64 + 0x3f,
            0xff17 => self.volume_envelope.get_nr12(),
            0xff18 => 0xff,
            0xff19 => {
                if self.common.length_counter.is_enabled() {
                    0xff
                } else {
                    0xbf
                }
            },
            _ => 0xff,
        }
    }

    fn write_byte(&mut self, addr: u16, v: u8)
        ensures
            *final(self) == old(self).write_spec(addr, v),
    {
        match addr {
            0xff15 => {},
            0xff16 => {
                self.duty = v / 64;
                self.common.length_counter.set_length(v % 64)
            },
            0xff17 => {
                self.common.dac_enabled = v >= 8;
                self.common.ch_enabled = self.common.is_channel_enabled();
                self.volume_envelope.set_nr12(v);
            },
            0xff18 => {
                self.frequency = ((self.frequency / 256) % 8) * 256 + v as u16;
            },
            0xff19 => {
                self.frequency = (self.frequency % 256) + ((v % 8) as u16) * 256;
                self.common.length_counter.set_nr14(v);
                if self.common.length_counter.is_enabled() && self.common.length_counter.is_zero() {
                    self.common.ch_enabled = false;
                } else if test_bit(v, 7) {
                    self.trigger()
                }
            },
            _ => {},
        }
    }
}

impl Tick for Channel2 {
    fn tick(&mut self)
        ensures
            *final(self) == old(self).tick_spec(),
    {
        self.timer = self.timer.saturating_sub(1);
        if self.timer == 0 {
            self.timer = self.reload();
            self.sequence = (self.sequence % 8 + 1) % 8;
            self.common.output = if self.common.ch_enabled {
                if duty_table(self.duty, self.sequence) == 1 {
                    self.volume_envelope.get_volume()
                } else {
                    0
                }
            } else {
                0
            };
        }
    }
}


impl Default for Channel2 {
    fn default() -> (r: Channel2)
        ensures
            r == Channel2::initial(),
    {
        Channel2::new()
    }
}

} // verus!
