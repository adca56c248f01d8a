//! The sound unit: four channels, the frame sequencer that clocks their
//! lengths, sweep and envelopes, and the mixer.
use crate::dmg::bits::{bit, lemma_mask_is_bit, test_bit};
use crate::dmg::sound::channel1::Channel1;
use crate::dmg::sound::channel2::Channel2;
use crate::dmg::sound::channel3::Channel3;
use crate::dmg::sound::channel4::Channel4;
use crate::dmg::sound::common::ChannelCommon;
use crate::dmg::sound::length_counter::LengthCounter;
use crate::dmg::sound::traits::{Mem, Tick};
use vstd::prelude::*;

verus! {

/// The routing register: which channel goes to which side.
#[derive(Clone, Copy, Debug, PartialEq, Eq, Structural)]
pub struct ChannelEnabled {
    pub bits: u8,
}

impl ChannelEnabled {
    pub const LEFT_1: u8 = 0x80;

    pub const LEFT_2: u8 = 0x40;

    pub const LEFT_3: u8 = 0x20;

    pub const LEFT_4: u8 = 0x10;

    pub const RIGHT_1: u8 = 0x08;

    pub const RIGHT_2: u8 = 0x04;

    pub const RIGHT_3: u8 = 0x02;

    pub const RIGHT_4: u8 = 0x01;

    pub fn empty() -> (r: ChannelEnabled)
        ensures
            r.bits == 0,
    {
        ChannelEnabled { bits: 0 }
    }

    pub fn from_bits_truncate(value: u8) -> (r: ChannelEnabled)
        ensures
            r.bits == value,
    {
        ChannelEnabled { bits: value }
    }

    pub fn contains(&self, mask: u8) -> (r: bool)
        ensures
            r == (self.bits & mask == mask),
    {
        self.bits & mask == mask
    }
}

/// The number of clocks between two steps of the frame sequencer.
pub const SEQUENCER_PERIOD: u32 = 8192;

/// The number of clocks between two output samples.
pub const SAMPLE_PERIOD: u8 = 95;

pub struct Apu {
    pub enabled: bool,
    pub vin_left_enable: bool,
    pub vin_right_enable: bool,
    pub left_volume: u8,
    pub right_volume: u8,
    pub channel_enabled: ChannelEnabled,
    pub frequency_counter: u8,
    pub frame_sequencer_counter: u32,
    /// The step that the frame sequencer runs next, 0 to 7.
    pub frame_sequencer: u8,
    pub channel1: Channel1,
    pub channel2: Channel2,
    pub channel3: Channel3,
    pub channel4: Channel4,
}

/// A level if `routed`, else silence.
pub open spec fn routed_level(routed: bool, level: u8) -> int {
    if routed {
        level as int
    } else {
        0
    }
}

/// A channel with the sequencer step noted in its length counter.
pub open spec fn noting(common: ChannelCommon, step: u8) -> ChannelCommon {
    ChannelCommon {
        length_counter: LengthCounter { frame_sequencer: step, ..common.length_counter },
        ..common
    }
}

impl Apu {
    /// The state at power-on.
    pub open spec fn initial(self) -> bool {
        &&& !self.enabled && !self.vin_left_enable && !self.vin_right_enable
        &&& self.left_volume == 0 && self.right_volume == 0
        &&& self.channel_enabled.bits == 0
        &&& self.frequency_counter == 95
        &&& self.frame_sequencer_counter == 8192
        &&& self.frame_sequencer == 0
        &&& self.channel1 == Channel1::initial()
        &&& self.channel2 == Channel2::initial()
        &&& self.channel3.initial()
        &&& self.channel4 == Channel4::initial()
    }

    /// The sums of the levels of the channels that are routed to the left
    /// and to the right.
    pub open spec fn sample_spec(self) -> (u16, u16) {
        let to = self.channel_enabled.bits;
        (
            (routed_level(bit(to, 7), self.channel1.common.output) + routed_level(
                bit(to, 6),
                self.channel2.common.output,
            ) + routed_level(bit(to, 5), self.channel3.common.output) + routed_level(
                bit(to, 4),
                self.channel4.common.output,
            )) as u16,
            (routed_level(bit(to, 3), self.channel1.common.output) + routed_level(
                bit(to, 2),
                self.channel2.common.output,
            ) + routed_level(bit(to, 1), self.channel3.common.output) + routed_level(
                bit(to, 0),
                self.channel4.common.output,
            )) as u16,
        )
    }

    pub open spec fn tick_all_channel_lengths_spec(self) -> Apu {
        Apu {
            channel1: Channel1 {
                common: self.channel1.common.tick_channel_length_spec(),
                ..self.channel1
            },
            channel2: Channel2 {
                common: self.channel2.common.tick_channel_length_spec(),
                ..self.channel2
            },
            channel3: Channel3 {
                common: self.channel3.common.tick_channel_length_spec(),
                ..self.channel3
            },
            channel4: Channel4 {
                common: self.channel4.common.tick_channel_length_spec(),
                ..self.channel4
            },
            ..self
        }
    }

    pub open spec fn tick_all_channels_spec(self) -> Apu {
        Apu {
            channel1: self.channel1.tick_spec(),
            channel2: self.channel2.tick_spec(),
            channel3: self.channel3.tick_spec(),
            channel4: self.channel4.tick_spec(),
            ..self
        }
    }

    /// The unit after the work of sequencer step `step`: the even steps
    /// clock the length counters, steps 2 and 6 the sweep before that, and
    /// step 7 the envelopes.
    pub open spec fn sequenced(self, step: u8) -> Apu {
        if step == 0 || step == 4 {
            self.tick_all_channel_lengths_spec()
        } else if step == 2 || step == 6 {
            (Apu {
                channel1: self.channel1.tick_frequency_sweep_spec(),
                ..self
            }).tick_all_channel_lengths_spec()
        } else if step == 7 {
            Apu {
                channel1: Channel1 {
                    volume_envelope: self.channel1.volume_envelope.tick_spec(),
                    ..self.channel1
                },
                channel2: Channel2 {
                    volume_envelope: self.channel2.volume_envelope.tick_spec(),
                    ..self.channel2
                },
                channel4: Channel4 {
                    volume_envelope: self.channel4.volume_envelope.tick_spec(),
                    ..self.channel4
                },
                ..self
            }
        } else {
            self
        }
    }

    /// The unit with the sequencer moved on to `step`, which every length
    /// counter notes.
    pub open spec fn at_step(self, step: u8) -> Apu {
        Apu {
            frame_sequencer: step,
            channel1: Channel1 { common: noting(self.channel1.common, step), ..self.channel1 },
            channel2: Channel2 { common: noting(self.channel2.common, step), ..self.channel2 },
            channel3: Channel3 { common: noting(self.channel3.common, step), ..self.channel3 },
            channel4: Channel4 { common: noting(self.channel4.common, step), ..self.channel4 },
            ..self
        }
    }

    /// The unit after one clock. A unit that is switched off stands still.
    pub open spec fn tick_spec(self) -> Apu {
        if !self.enabled {
            self
        } else {
            let framed = if self.frame_sequencer_counter <= 1 {
                (Apu { frame_sequencer_counter: 8192, ..self }).sequenced(
                    self.frame_sequencer % 8,
                ).at_step(((self.frame_sequencer % 8 + 1) % 8) as u8)
            } else {
                Apu {
                    frame_sequencer_counter: (self.frame_sequencer_counter - 1) as u32,
                    ..self
                }
            };
            Apu {
                frequency_counter: if self.frequency_counter <= 1 {
                    95
                } else {
                    (self.frequency_counter - 1) as u8
                },
                ..framed.tick_all_channels_spec()
            }
        }
    }

    /// The unit after it is switched off: every register is cleared and
    /// every output is silent; the steps of the length counters stay.
    pub open spec fn clear_all_registers_spec(self) -> Apu {
        Apu {
            vin_left_enable: false,
            vin_right_enable: false,
            left_volume: 0,
            right_volume: 0,
            enabled: false,
            channel1: self.channel1.power_off_spec(),
            channel2: self.channel2.power_off_spec(),
            channel3: self.channel3.power_off_spec(),
            channel4: self.channel4.power_off_spec(),
            channel_enabled: ChannelEnabled { bits: 0 },
            ..self
        }
    }

    /// The master volume register as a read reports it.
    pub open spec fn nr50(self) -> u8 {
        ((if self.vin_left_enable {
            0x80int
        } else {
            0
        }) + (self.left_volume % 8) * 16 + (if self.vin_right_enable {
            0x08int
        } else {
            0
        }) + self.right_volume % 8) as u8
    }

    /// The power register as a read reports it: bit 7 is the master switch,
    /// bits 0 to 3 tell which channels are switched on, bits 4 to 6 read 1.
    pub open spec fn nr52(self) -> u8 {
        (0x70 + (if self.enabled {
            0x80int
        } else {
            0
        }) + (if self.channel1.common.ch_enabled {
            1int
        } else {
            0
        }) + (if self.channel2.common.ch_enabled {
            2int
        } else {
            0
        }) + (if self.channel3.common.ch_enabled {
            4int
        } else {
            0
        }) + (if self.channel4.common.ch_enabled {
            8int
        } else {
            0
        })) as u8
    }

    pub open spec fn read_spec(self, addr: u16) -> u8 {
        if 0xff10 <= addr <= 0xff14 {
            self.channel1.read_spec(addr)
        } else if 0xff15 <= addr <= 0xff19 {
            self.channel2.read_spec(addr)
        } else if 0xff1a <= addr <= 0xff1e {
            self.channel3.read_spec(addr)
        } else if 0xff1f <= addr <= 0xff23 {
            self.channel4.read_spec(addr)
        } else if addr == 0xff24 {
            self.nr50()
        } else if addr == 0xff25 {
            self.channel_enabled.bits
        } else if addr == 0xff26 {
            self.nr52()
        } else if 0xff30 <= addr <= 0xff3f {
            self.channel3.read_spec(addr)
        } else {
            0xff
        }
    }

    /// The unit after a write. While the unit is off a write to a length
    /// register sets the length only.
    pub open spec fn write_spec(self, addr: u16, v: u8) -> Apu {
        if addr == 0xff26 {
            let wanted = bit(v, 7);
            if self.enabled && !wanted {
                self.clear_all_registers_spec()
            } else if !self.enabled && wanted {
                Apu { frame_sequencer: 0, enabled: true, ..self }
            } else {
                self
            }
        } else if 0xff30 <= addr <= 0xff3f {
            Apu { channel3: self.channel3.write_spec(addr, v), ..self }
        } else if addr == 0xff11 && !self.enabled {
            Apu { channel1: self.channel1.write_spec(addr, v % 64), ..self }
        } else if addr == 0xff16 && !self.enabled {
            Apu { channel2: self.channel2.write_spec(addr, v % 64), ..self }
        } else if addr == 0xff20 && !self.enabled {
            Apu { channel4: self.channel4.write_spec(addr, v % 64), ..self }
        } else if 0xff10 <= addr <= 0xff14 {
            Apu { channel1: self.channel1.write_spec(addr, v), ..self }
        } else if 0xff15 <= addr <= 0xff19 {
            Apu { channel2: self.channel2.write_spec(addr, v), ..self }
        } else if 0xff1a <= addr <= 0xff1e {
            Apu { channel3: self.channel3.write_spec(addr, v), ..self }
        } else if 0xff1f <= addr <= 0xff23 {
            Apu { channel4: self.channel4.write_spec(addr, v), ..self }
        } else if addr == 0xff24 {
            Apu {
                right_volume: v % 8,
                vin_right_enable: bit(v, 3),
                left_volume: (v / 16) % 8,
                vin_left_enable: bit(v, 7),
                ..self
            }
        } else if addr == 0xff25 {
            Apu { channel_enabled: ChannelEnabled { bits: v }, ..self }
        } else {
            self
        }
    }

    pub fn new() -> (r: Apu)
        ensures
            r.initial(),
    {
        Self {
            enabled: false,
            left_volume: 0,
            right_volume: 0,
            vin_left_enable: false,
            vin_right_enable: false,
            channel_enabled: ChannelEnabled::empty(),
            frame_sequencer: 0,
            frame_sequencer_counter: SEQUENCER_PERIOD,
            frequency_counter: SAMPLE_PERIOD,
            channel1: Channel1::new(),
            channel2: Channel2::new(),
            channel3: Channel3::new(),
            channel4: Channel4::new(),
        }
    }

    /// Mixes the channels: for each side the sum of the levels of the
    /// channels that are routed to it, in sixteenths of full scale.
    pub fn sample(&self) -> (r: (u16, u16))
        ensures
            r == self.sample_spec(),
    {
        proof {
            lemma_mask_is_bit(self.channel_enabled.bits);
        }
        let mut left: u16 = 0;
        let mut right: u16 = 0;
        if self.channel_enabled.contains(ChannelEnabled::LEFT_1) {
            left += self.channel1.common.output as u16;
        }
        if self.channel_enabled.contains(ChannelEnabled::LEFT_2) {
            left += self.channel2.common.output as u16;
        }
        if self.channel_enabled.contains(ChannelEnabled::LEFT_3) {
            left += self.channel3.common.output as u16;
        }
        if self.channel_enabled.contains(ChannelEnabled::LEFT_4) {
            left += self.channel4.common.output as u16;
        }
        if self.channel_enabled.contains(ChannelEnabled::RIGHT_1) {
            right += self.channel1.common.output as u16;
        }
        if self.channel_enabled.contains(ChannelEnabled::RIGHT_2) {
            right += self.channel2.common.output as u16;
        }
        if self.channel_enabled.contains(ChannelEnabled::RIGHT_3) {
            right += self.channel3.common.output as u16;
        }
        if self.channel_enabled.contains(ChannelEnabled::RIGHT_4) {
            right += self.channel4.common.output as u16;
        }
        (left, right)
    }

    pub fn clear_all_registers(&mut self)
        ensures
            *final(self) == old(self).clear_all_registers_spec(),
    {
        self.vin_left_enable = false;
        self.vin_right_enable = false;
        self.left_volume = 0;
        self.right_volume = 0;
        self.enabled = false;
        self.channel1.power_off();
        self.channel2.power_off();
        self.channel3.power_off();
        self.channel4.power_off();
        self.channel_enabled = ChannelEnabled::empty();
    }

    pub fn tick_all_channels(&mut self)
        ensures
            *final(self) == old(self).tick_all_channels_spec(),
    {
        crate::dmg::traits::Tick::tick(&mut self.channel1);
        crate::dmg::traits::Tick::tick(&mut self.channel2);
        self.channel3.tick();
        self.channel4.tick();
    }

    pub fn tick_all_channel_lengths(&mut self)
        ensures
            *final(self) == old(self).tick_all_channel_lengths_spec(),
    {
        self.channel1.common.tick_channel_length();
        self.channel2.common.tick_channel_length();
        self.channel3.common.tick_channel_length();
        self.channel4.common.tick_channel_length();
    }

    /// Does the work of sequencer step `step`.
    fn run_step(&mut self, step: u8)
        ensures
            *final(self) == old(self).sequenced(step),
    {
        if step == 0 || step == 4 {
            self.tick_all_channel_lengths();
        } else if step == 2 || step == 6 {
            self.channel1.tick_frequency_sweep();
            self.tick_all_channel_lengths();
        } else if step == 7 {
            crate::dmg::traits::Tick::tick(&mut self.channel1.volume_envelope);
            crate::dmg::traits::Tick::tick(&mut self.channel2.volume_envelope);
            crate::dmg::traits::Tick::tick(&mut self.channel4.volume_envelope);
        }
    }

    /// Moves the sequencer on to `step` and lets the length counters note it.
    fn note_step(&mut self, step: u8)
        ensures
            *final(self) == old(self).at_step(step),
    {
        self.frame_sequencer = step;
        self.channel1.common.length_counter.frame_sequencer = step;
        self.channel2.common.length_counter.frame_sequencer = step;
        self.channel3.common.length_counter.frame_sequencer = step;
        self.channel4.common.length_counter.frame_sequencer = step;
    }
}

impl Tick for Apu {
    fn tick(&mut self)
        ensures
            *final(self) == old(self).tick_spec(),
    {
        if !self.enabled {
            return ;
        }
        if self.frame_sequencer_counter <= 1 {
            self.frame_sequencer_counter = SEQUENCER_PERIOD;
            let step: u8 = self.frame_sequencer % 8;
            self.run_step(step);
            self.note_step((step + 1) % 8);
        } else {
            self.frame_sequencer_counter -= 1;
        }
        self.tick_all_channels();
        if self.frequency_counter <= 1 {
            self.frequency_counter = SAMPLE_PERIOD;
        } else {
            self.frequency_counter -= 1;
        }
    }
}

impl Mem for Apu {
    fn read(&self, addr: u16) -> (r: u8)
        ensures
            r == self.read_spec(addr),
            addr == 0xff26 ==> {
                &&& bit(r, 7) == self.enabled
                &&& bit(r, 0) == self.channel1.common.ch_enabled
                &&& bit(r, 1) == self.channel2.common.ch_enabled
                &&& bit(r, 2) == self.channel3.common.ch_enabled
                &&& bit(r, 3) == self.channel4.common.ch_enabled
                &&& bit(r, 4) && bit(r, 5) && bit(r, 6)
            },
    {
        match addr {
            0xff10..=0xff14 => crate::dmg::traits::Mem::read_byte(&self.channel1, addr),
            0xff15..=0xff19 => crate::dmg::traits::Mem::read_byte(&self.channel2, addr),
            0xff1a..=0xff1e => self.channel3.read(addr),
            0xff1f..=0xff23 => self.channel4.read(addr),
            0xff24 => {
                let b7: u8 = if self.vin_left_enable {
                    0x80
                } else {
                    0
                };
                let b654: u8 = (self.left_volume % 8) * 16;
                let b3: u8 = if self.vin_right_enable {
                    0x08
                } else {
                    0
                };
                let b210: u8 = self.right_volume % 8;
                b7 + b654 + b3 + b210
            },
            0xff25 => self.channel_enabled.bits,
            0xff26 => {
                let mut b: u8 = 0x70;
                if self.enabled {
                    b = b + 0x80;
                }
                if self.channel1.common.ch_enabled {
                    b = b + 1;
                }
                if self.channel2.common.ch_enabled {
                    b = b + 2;
                }
                if self.channel3.common.ch_enabled {
                    b = b + 4;
                }
                if self.channel4.common.ch_enabled {
                    b = b + 8;
                }
                b
            },
            0xff27..=0xff2f => 0xff,
            0xff30..=0xff3f => self.channel3.read(addr),
            _ => 0xff,
        }
    }

    fn write(&mut self, addr: u16, v: u8)
        ensures
            *final(self) == old(self).write_spec(addr, v),
    {
        match addr {
            0xff26 => {
                let enable_apu: bool = test_bit(v, 7);
                if self.enabled && !enable_apu {
                    self.clear_all_registers()
                } else if !self.enabled && enable_apu {
                    self.frame_sequencer = 0;
                }
                self.enabled = enable_apu;
            },
            0xff30..=0xff3f => self.channel3.write(addr, v),
            0xff10..=0xff14 => {
                if addr == 0xff11 && !self.enabled {
                    crate::dmg::traits::Mem::write_byte(&mut self.channel1, addr, v % 64)
                } else {
                    crate::dmg::traits::Mem::write_byte(&mut self.channel1, addr, v)
                }
            },
            0xff15..=0xff19 => {
                if addr == 0xff16 && !self.enabled {
                    crate::dmg::traits::Mem::write_byte(&mut self.channel2, addr, v % 64)
                } else {
                    crate::dmg::traits::Mem::write_byte(&mut self.channel2, addr, v)
                }
            },
            0xff1a..=0xff1e => self.channel3.write(addr, v),
            0xff1f..=0xff23 => {
                if addr == 0xff20 && !self.enabled {
                    self.channel4.write(addr, v % 64)
                } else {
                    self.channel4.write(addr, v)
                }
            },
            0xff27..=0xff2f => {},
            0xff24 => {
                self.right_volume = v % 8;
                self.vin_right_enable = test_bit(v, 3);
                self.left_volume = (v / 16) % 8;
                self.vin_left_enable = test_bit(v, 7);
            },
            0xff25 => {
                self.channel_enabled = ChannelEnabled::from_bits_truncate(v);
            },
            _ => {},
        }
    }
}


impl Default for Apu {
    fn default() -> (r: Apu)
        ensures
            r.initial(),
    {
        Apu::new()
    }
}

/// The power register shows the master switch in bit 7 and the switch of
/// each channel in bits 0 to 3; bits 4 to 6 are set.
pub proof fn lemma_power_register(apu: Apu)
    ensures
        bit(apu.read_spec(0xff26), 7) == apu.enabled,
        bit(apu.read_spec(0xff26), 0) == apu.channel1.common.ch_enabled,
        bit(apu.read_spec(0xff26), 1) == apu.channel2.common.ch_enabled,
        bit(apu.read_spec(0xff26), 2) == apu.channel3.common.ch_enabled,
        bit(apu.read_spec(0xff26), 3) == apu.channel4.common.ch_enabled,
        bit(apu.read_spec(0xff26), 4) && bit(apu.read_spec(0xff26), 5) && bit(
            apu.read_spec(0xff26),
            6,
        ),
{
}

} // verus!
