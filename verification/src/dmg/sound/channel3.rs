//! The third channel: 32 four-bit samples played from a table.
use crate::dmg::bits::{bit, test_bit};
use crate::dmg::sound::common::{period_of, ChannelCommon};
use crate::dmg::sound::traits::{Mem, Tick};
use vstd::array::spec_array_update;
use vstd::prelude::*;

verus! {

pub struct Channel3 {
    pub common: ChannelCommon,
    pub timer: u32,
    /// The sample that is played next, 0 to 31.
    pub position: u8,
    pub ticks_since_read: u32,
    pub frequency: u16,
    pub volume_code: u8,
    /// The byte of the table that was played last, 0 to 15.
    pub last_address: u8,
    pub wave_table: [u8; 16],
}

impl Channel3 {
    pub open spec fn initial(self) -> bool {
        &&& self.common == ChannelCommon::initial(3)
        &&& self.timer == 0
        &&& self.position == 4
        &&& self.ticks_since_read == 0
        &&& self.frequency == 0
        &&& self.volume_code == 0
        &&& self.last_address == 0
        &&& forall|i: int| 0 <= i < 16 ==> self.wave_table[i] == 0
    }

    /// Whether the table can be reached through the byte that the channel
    /// has just played, which is the only way while it plays.
    pub open spec fn table_open(self) -> bool {
        self.ticks_since_read < 2
    }

    pub open spec fn read_spec(self, addr: u16) -> u8 {
        if 0xff30 <= addr <= 0xff3f {
            if self.common.playing() {
                if self.table_open() {
                    self.wave_table[(self.last_address % 16) as int]
                } else {
                    0xff
                }
            } else {
                self.wave_table[addr - 0xff30]
            }
        } else if addr == 0xff1a {
            if self.common.dac_enabled {
                0xff
            } else {
                0x7f
            }
        } else if addr == 0xff1c {
            ((self.volume_code % 4) * 32) as u8 | 0x9f
        } else if addr == 0xff1e {
            if self.common.length_counter.enabled {
                0xff
            } else {
                0xbf
            }
        } else {
            0xff
        }
    }

    /// The table as a trigger leaves it. A trigger just before the channel
    /// fetches a byte overwrites the start of the table: the first byte with
    /// the byte that is being fetched, if that is one of the first four; else
    /// the first four bytes with the aligned four that hold it.
    pub open spec fn table_after_trigger(self) -> [u8; 16] {
        let pos = (self.position % 32) / 2;
        if self.common.playing() && self.timer == 2 {
            if pos < 4 {
                spec_array_update(self.wave_table, 0, self.wave_table[pos as int])
            } else {
                let base = pos - pos % 4;
                spec_array_update(
                    spec_array_update(
                        spec_array_update(
                            spec_array_update(self.wave_table, 0, self.wave_table[base as int]),
                            1,
                            self.wave_table[base + 1],
                        ),
                        2,
                        self.wave_table[base + 2],
                    ),
                    3,
                    self.wave_table[base + 3],
                )
            }
        } else {
            self.wave_table
        }
    }

    pub open spec fn trigger_spec(self) -> Channel3 {
        Channel3 {
            wave_table: self.table_after_trigger(),
            timer: 6,
            position: 0,
            last_address: 0,
            common: ChannelCommon { ch_enabled: self.common.dac_enabled, ..self.common },
            ..self
        }
    }

    pub open spec fn write_spec(self, addr: u16, v: u8) -> Channel3 {
        if 0xff30 <= addr <= 0xff3f {
            if self.common.playing() {
                if self.table_open() {
                    Channel3 {
                        wave_table: spec_array_update(
                            self.wave_table,
                            (self.last_address % 16) as int,
                            v,
                        ),
                        ..self
                    }
                } else {
                    self
                }
            } else {
                Channel3 { wave_table: spec_array_update(self.wave_table, addr - 0xff30, v), ..self }
            }
        } else if addr == 0xff1a {
            Channel3 {
                common: ChannelCommon {
                    dac_enabled: bit(v, 7),
                    ch_enabled: bit(v, 7) && self.common.ch_enabled,
                    ..self.common
                },
                ..self
            }
        } else if addr == 0xff1b {
            Channel3 {
                common: ChannelCommon {
                    length_counter: self.common.length_counter.set_length_spec(v),
                    ..self.common
                },
                ..self
            }
        } else if addr == 0xff1c {
            Channel3 { volume_code: (v / 32) % 4, ..self }
        } else if addr == 0xff1d {
            Channel3 { frequency: (((self.frequency / 256) % 8) * 256 + v) as u16, ..self }
        } else if addr == 0xff1e {
            let set = Channel3 {
                common: ChannelCommon {
                    length_counter: self.common.length_counter.set_nr14_spec(v),
                    ..self.common
                },
                frequency: (self.frequency % 256 + (v % 8) * 256) as u16,
                ..self
            };
            if set.common.stopped_by_length() {
                Channel3 { common: ChannelCommon { ch_enabled: false, ..set.common }, ..set }
            } else if bit(v, 7) {
                set.trigger_spec()
            } else {
                set
            }
        } else {
            self
        }
    }

    /// The sample at `position`: the high nibble of its byte for an even
    /// position, the low nibble for an odd one.
    pub open spec fn sample_at(self, position: u8) -> u8 {
        let byte = self.wave_table[((position % 32) / 2) as int];
        if position % 2 == 1 {
            byte % 16
        } else {
            byte / 16
        }
    }

    /// A sample at the volume of the channel: muted, whole, halved or
    /// quartered.
    pub open spec fn scaled(self, sample: u8) -> u8 {
        if self.volume_code % 4 == 0 {
            0
        } else if self.volume_code % 4 == 1 {
            sample
        } else if self.volume_code % 4 == 2 {
            sample / 2
        } else {
            sample / 4
        }
    }

    pub open spec fn tick_spec(self) -> Channel3 {
        let waited = if self.ticks_since_read < u32::MAX {
            (self.ticks_since_read + 1) as u32
        } else {
            self.ticks_since_read
        };
        if self.timer <= 1 {
            if self.common.playing() {
                Channel3 {
                    timer: period_of(self.frequency, 2) as u32,
                    ticks_since_read: 0,
                    last_address: (self.position % 32) / 2,
                    common: ChannelCommon {
                        output: self.scaled(self.sample_at(self.position)),
                        ..self.common
                    },
                    position: ((self.position % 32 + 1) % 32) as u8,
                    ..self
                }
            } else {
                Channel3 {
                    timer: period_of(self.frequency, 2) as u32,
                    ticks_since_read: waited,
                    common: ChannelCommon { output: 0, ..self.common },
                    ..self
                }
            }
        } else {
            Channel3 { timer: (self.timer - 1) as u32, ticks_since_read: waited, ..self }
        }
    }

    pub open spec fn power_off_spec(self) -> Channel3 {
        Channel3 {
            common: self.common.power_off_spec(),
            position: 0,
            frequency: 0,
            volume_code: 0,
            ticks_since_read: 0,
            last_address: 0,
            ..self
        }
    }

    pub fn new() -> (r: Channel3)
        ensures
            r.initial(),
    {
        Self {
            common: ChannelCommon::new(3),
            timer: 0,
            position: 4,
            ticks_since_read: 0,
            frequency: 0,
            volume_code: 0,
            last_address: 0,
            wave_table: [0u8;16],
        }
    }

    pub fn trigger(&mut self)
        ensures
            *final(self) == old(self).trigger_spec(),
    {
        if self.common.is_channel_enabled() && self.timer == 2 {
            let pos: usize = ((self.position % 32) / 2) as usize;
            if pos < 4 {
                self.wave_table[0] = self.wave_table[pos];
            } else {
                let base: usize = pos - pos % 4;
                let b0: u8 = self.wave_table[base];
                let b1: u8 = self.wave_table[base + 1];
                let b2: u8 = self.wave_table[base + 2];
                let b3: u8 = self.wave_table[base + 3];
                self.wave_table[0] = b0;
                self.wave_table[1] = b1;
                self.wave_table[2] = b2;
                self.wave_table[3] = b3;
            }
        }
        self.timer = 6;
        self.position = 0;
        self.last_address = 0;
        self.common.ch_enabled = self.common.dac_enabled;
    }

    pub fn power_off(&mut self)
        ensures
            *final(self) == old(self).power_off_spec(),
    {
        self.common.power_off();
        self.position = 0;
        self.frequency = 0;
        self.volume_code = 0;
        self.ticks_since_read = 0;
        self.last_address = 0;
    }
}

impl Mem for Channel3 {
    fn read(&self, addr: u16) -> (r: u8)
        ensures
            r == self.read_spec(addr),
    {
        match addr {
            0xff30..=0xff3f => {
                if self.common.is_channel_enabled() {
                    if self.ticks_since_read < 2 {
                        self.wave_table[(self.last_address % 16) as usize]
                    } else {
                        0xff
                    }
                } else {
                    self.wave_table[(addr - 0xff30) as usize]
                }
            },
            0xff1a => {
                if self.common.dac_enabled {
                    0xff
                } else {
                    0x7f
                }
            },
            0xff1b => 0xff,
            0xff1c => ((self.volume_code % 4) * 32) | 0x9f,
            0xff1d => 0xff,
            0xff1e => {
                if self.common.length_counter.is_enabled() {
                    0xff
                } else {
                    0xbf
                }
            },
            _ => 0xff,
        }
    }

    fn write(&mut self, addr: u16, v: u8)
        ensures
            *final(self) == old(self).write_spec(addr, v),
    {
        match addr {
            0xff30..=0xff3f => {
                if self.common.is_channel_enabled() {
                    if self.ticks_since_read < 2 {
                        self.wave_table[(self.last_address % 16) as usize] = v;
                    }
                } else {
                    self.wave_table[(addr - 0xff30) as usize] = v;
                }
            },
            0xff1a => {
                self.common.dac_enabled = test_bit(v, 7);
                self.common.ch_enabled = self.common.is_channel_enabled();
            },
            0xff1b => {
                self.common.length_counter.set_length(v);
            },
            0xff1c => {
                self.volume_code = (v / 32) % 4;
            },
            0xff1d => {
                self.frequency = ((self.frequency / 256) % 8) * 256 + v as u16;
            },
            0xff1e => {
                self.common.length_counter.set_nr14(v);
                self.frequency = (self.frequency % 256) + ((v % 8) as u16) * 256;
                if self.common.length_counter.is_enabled() && self.common.length_counter.is_zero() {
                    self.common.ch_enabled = false;
                } else if test_bit(v, 7) {
                    self.trigger()
                }
            },
            _ => {},
        }
    }
}

impl Tick for Channel3 {
    fn tick(&mut self)
        ensures
            *final(self) == old(self).tick_spec(),
    {
        if self.ticks_since_read < u32::MAX {
            self.ticks_since_read += 1;
        }
        self.timer = self.timer.saturating_sub(1);
        if self.timer == 0 {
            self.timer = if self.frequency <= 2048 {
                (2048 - self.frequency as u32) * 2
            } else {
                0
            };
            if self.common.is_channel_enabled() {
                self.ticks_since_read = 0;
                self.last_address = (self.position % 32) / 2;
                let byte: u8 = self.wave_table[self.last_address as usize];
                let sample: u8 = if test_bit(self.position, 0) {
                    byte % 16
                } else {
                    byte / 16
                };
                self.common.output = match self.volume_code % 4 {
                    0 => 0,
                    1 => sample,
                    2 => sample / 2,
                    _ => sample / 4,
                };
                self.position = (self.position % 32 + 1) % 32;
            } else {
                self.common.output = 0;
            }
        }
    }
}


impl Default for Channel3 {
    fn default() -> (r: Channel3)
        ensures
            r.initial(),
    {
        Channel3::new()
    }
}

} // verus!
