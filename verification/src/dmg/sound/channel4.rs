//! The fourth channel: noise from a shift register with feedback.
use crate::dmg::bits::{bit, test_bit, test_low_bit_u16};
use crate::dmg::sound::common::ChannelCommon;
use crate::dmg::sound::traits::{Mem, Tick};
use crate::dmg::sound::volume_envelope::VolumeEnvelope;
use vstd::prelude::*;

verus! {

#[derive(Clone, Copy, Debug, PartialEq, Eq, Structural)]
pub struct Channel4 {
    pub common: ChannelCommon,
    pub timer: u32,
    pub clock_shift: u8,
    /// Whether the feedback also goes into bit 6, which shortens the cycle of
    /// the register to 7 bits.
    pub width_mode: bool,
    pub divisor_code: u8,
    /// The 15-bit shift register.
    pub lfsr: u16,
    pub volume_envelope: VolumeEnvelope,
}

impl Channel4 {
    pub open spec fn initial() -> Channel4 {
        Channel4 {
            common: ChannelCommon::initial(4),
            timer: 0,
            clock_shift: 0,
            width_mode: false,
            divisor_code: 0,
            lfsr: 0x7fff,
            volume_envelope: VolumeEnvelope { finished: true, ..VolumeEnvelope::off() },
        }
    }

    /// The divisor that a code stands for: 8, 16, 32, 48, ..., 112.
    pub open spec fn divisor_of(code: u8) -> u32 {
        if code % 8 == 0 {
            8
        } else {
            ((code % 8) * 16) as u32
        }
    }

    /// The number of clocks between two steps of the shift register.
    pub open spec fn reload(self) -> u32 {
        Self::divisor_of(self.divisor_code) << ((self.clock_shift % 16) as u32)
    }

    pub open spec fn read_spec(self, addr: u16) -> u8 {
        if addr == 0xff21 {
            self.volume_envelope.nr12()
        } else if addr == 0xff22 {
            ((self.clock_shift % 16) * 16 + (if self.width_mode {
                8int
            } else {
                0
            }) + self.divisor_code % 8) as u8
        } else if addr == 0xff23 {
            if self.common.length_counter.enabled {
                0xff
            } else {
                0xbf
            }
        } else {
            0xff
        }
    }

    pub open spec fn trigger_spec(self) -> Channel4 {
        Channel4 {
            volume_envelope: self.volume_envelope.trigger_spec(),
            timer: self.reload(),
            lfsr: 0x7fff,
            common: ChannelCommon { ch_enabled: self.common.dac_enabled, ..self.common },
            ..self
        }
    }

    pub open spec fn write_spec(self, addr: u16, v: u8) -> Channel4 {
        if addr == 0xff20 {
            Channel4 {
                common: ChannelCommon {
                    length_counter: self.common.length_counter.set_length_spec(v % 64),
                    ..self.common
                },
                ..self
            }
        } else if addr == 0xff21 {
            Channel4 {
                common: ChannelCommon {
                    dac_enabled: v >= 8,
                    ch_enabled: v >= 8 && self.common.ch_enabled,
                    ..self.common
                },
                volume_envelope: self.volume_envelope.set_nr12_spec(v),
                ..self
            }
        } else if addr == 0xff22 {
            Channel4 { clock_shift: v / 16, width_mode: bit(v, 3), divisor_code: v % 8, ..self }
        } else if addr == 0xff23 {
            let set = Channel4 {
                common: ChannelCommon {
                    length_counter: self.common.length_counter.set_nr14_spec(v),
                    ..self.common
                },
                ..self
            };
            if set.common.stopped_by_length() {
                Channel4 { common: ChannelCommon { ch_enabled: false, ..set.common }, ..set }
            } else if bit(v, 7) {
                set.trigger_spec()
            } else {
                set
            }
        } else {
            self
        }
    }

    /// The feedback of a register: whether its two lowest bits differ.
    pub open spec fn feedback(lfsr: u16) -> bool {
        (lfsr % 2) != ((lfsr / 2) % 2)
    }

    /// The register one step on: shifted right, the feedback in bit 14, and
    /// in the narrow mode in bit 6 too.
    pub open spec fn shifted(lfsr: u16, narrow: bool) -> u16 {
        let wide = (lfsr % 32768) / 2 + if Self::feedback(lfsr) {
            16384int
        } else {
            0
        };
        if narrow {
            (wide - ((wide / 64) % 2) * 64 + if Self::feedback(lfsr) {
                64int
            } else {
                0
            }) as u16
        } else {
            wide as u16
        }
    }

    pub open spec fn tick_spec(self) -> Channel4 {
        if self.timer <= 1 {
            let lfsr = Self::shifted(self.lfsr, self.width_mode);
            Channel4 {
                timer: self.reload(),
                lfsr,
                common: ChannelCommon {
                    output: if self.common.playing() && lfsr % 2 == 0 {
                        self.volume_envelope.volume_spec()
                    } else {
                        0
                    },
                    ..self.common
                },
                ..self
            }
        } else {
            Channel4 { timer: (self.timer - 1) as u32, ..self }
        }
    }

    pub open spec fn power_off_spec(self) -> Channel4 {
        Channel4 {
            volume_envelope: VolumeEnvelope::off(),
            common: self.common.power_off_spec(),
            clock_shift: 0,
            width_mode: false,
            divisor_code: 0,
            ..self
        }
    }

    pub fn new() -> (r: Channel4)
        ensures
            r == Self::initial(),
    {
        Self {
            common: ChannelCommon::new(4),
            timer: 0,
            clock_shift: 0,
            width_mode: false,
            divisor_code: 0,
            lfsr: 0x7fff,
            volume_envelope: VolumeEnvelope::new(),
        }
    }

    fn period(&self) -> (r: u32)
        ensures
            r == self.reload(),
    {
        let divisor: u32 = if self.divisor_code % 8 == 0 {
            8
        } else {
            ((self.divisor_code % 8) * 16) as u32
        };
        divisor << ((self.clock_shift % 16) as u32)
    }

    pub fn trigger(&mut self)
        ensures
            *final(self) == old(self).trigger_spec(),
    {
        self.timer = self.period();
        self.volume_envelope.trigger();
        self.lfsr = 0x7fff;
        self.common.ch_enabled = self.common.dac_enabled;
    }

    pub fn power_off(&mut self)
        ensures
            *final(self) == old(self).power_off_spec(),
    {
        self.volume_envelope.power_off();
        self.common.power_off();
        self.clock_shift = 0;
        self.width_mode = false;
        self.divisor_code = 0;
    }
}

impl Mem for Channel4 {
    fn read(&self, addr: u16) -> (r: u8)
        ensures
            r == self.read_spec(addr),
    {
        match addr {
            0xff1f => 0xff,
            0xff20 => 0xff,
            0xff21 => self.volume_envelope.get_nr12(),
            0xff22 => {
                (self.clock_shift % 16) * 16 + (if self.width_mode {
                    0x08
                } else {
                    0
                }) + self.divisor_code % 8
            },
            0xff23 => {
                if self.common.length_counter.is_enabled() {
                    0xff
                } else {
                    0xbf
                }
            },
            _ => 0xff,
        }
    }

    fn write(&mut self, addr: u16, v: u8)
        ensures
            *final(self) == old(self).write_spec(addr, v),
    {
        match addr {
            0xff1f => {},
            0xff20 => self.common.length_counter.set_length(v % 64),
            0xff21 => {
                self.common.dac_enabled = v >= 8;
                self.common.ch_enabled = self.common.is_channel_enabled();
                self.volume_envelope.set_nr12(v);
            },
            0xff22 => {
                self.clock_shift = v / 16;
                self.width_mode = test_bit(v, 3);
                self.divisor_code = v % 8;
            },
            0xff23 => {
                self.common.length_counter.set_nr14(v);
                if self.common.length_counter.is_enabled() && self.common.length_counter.is_zero() {
                    self.common.ch_enabled = false;
                } else if test_bit(v, 7) {
                    self.trigger()
                }
            },
            _ => {},
        }
    }
}

impl Tick for Channel4 {
    fn tick(&mut self)
        ensures
            *final(self) == old(self).tick_spec(),
    {
        self.timer = self.timer.saturating_sub(1);
        if self.timer == 0 {
            self.timer = self.period();
            let result: bool = (self.lfsr % 2) != ((self.lfsr / 2) % 2);
            self.lfsr = (self.lfsr % 32768) / 2;
            if result {
                self.lfsr = self.lfsr + 16384;
            }
            if self.width_mode {
                self.lfsr = self.lfsr - ((self.lfsr / 64) % 2) * 64;
                if result {
                    self.lfsr = self.lfsr + 64;
                }
            }
            self.common.output = if self.common.is_channel_enabled() && !test_low_bit_u16(
                self.lfsr,
            ) {
                self.volume_envelope.get_volume()
            } else {
                0
            };
        }
    }
}


impl Default for Channel4 {
    fn default() -> (r: Channel4)
        ensures
            r == Channel4::initial(),
    {
        Channel4::new()
    }
}

} // verus!
