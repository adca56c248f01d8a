//! What the four channels share.
use crate::dmg::sound::length_counter::LengthCounter;
use crate::dmg::sound::traits::Tick;
use vstd::prelude::*;

verus! {

#[derive(Clone, Copy, Debug, PartialEq, Eq, Structural)]
pub struct ChannelCommon {
    pub channel_no: u8,
    pub ch_enabled: bool,
    pub dac_enabled: bool,
    /// The level that the channel puts out, 0 to 15.
    pub output: u8,
    pub length_counter: LengthCounter,
}

impl ChannelCommon {
    /// The steps of a full run of the length counter of a channel: 256 for
    /// the wave channel, 64 for the others.
    pub open spec fn full_length(channel_no: u8) -> u16 {
        if channel_no == 3 {
            256
        } else {
            64
        }
    }

    pub open spec fn initial(channel_no: u8) -> ChannelCommon {
        ChannelCommon {
            dac_enabled: false,
            channel_no,
            output: 0,
            ch_enabled: false,
            length_counter: LengthCounter {
                length: 0,
                full_length: Self::full_length(channel_no),
                enabled: false,
                frame_sequencer: 0,
            },
        }
    }

    /// The channel after a step of its length counter: it is switched off
    /// when the enabled counter has run out.
    pub open spec fn tick_channel_length_spec(self) -> ChannelCommon {
        let counter = self.length_counter.tick_spec();
        ChannelCommon {
            length_counter: counter,
            ch_enabled: self.ch_enabled && !(counter.enabled && counter.length == 0),
            ..self
        }
    }

    /// The channel plays when it is switched on and its converter has power.
    pub open spec fn playing(self) -> bool {
        self.dac_enabled && self.ch_enabled
    }

    /// The channel after a write of the control register took effect on the
    /// length counter: a counter that is enabled and has run out switches it
    /// off; otherwise a set bit 7 triggers it.
    pub open spec fn stopped_by_length(self) -> bool {
        self.length_counter.enabled && self.length_counter.length == 0
    }

    /// The channel with everything but the steps of its length counter
    /// cleared.
    pub open spec fn power_off_spec(self) -> ChannelCommon {
        ChannelCommon {
            ch_enabled: false,
            dac_enabled: false,
            output: 0,
            length_counter: LengthCounter { enabled: false, ..self.length_counter },
            ..self
        }
    }

    pub fn new(channel_no: u8) -> (r: ChannelCommon)
        ensures
            r == Self::initial(channel_no),
    {
        Self {
            dac_enabled: false,
            channel_no,
            output: 0,
            ch_enabled: false,
            length_counter: LengthCounter::new(
                if channel_no == 3 {
                    256
                } else {
                    64
                },
            ),
        }
    }

    pub fn tick_channel_length(&mut self)
        ensures
            *final(self) == old(self).tick_channel_length_spec(),
    {
        self.length_counter.tick();
        if self.length_counter.is_enabled() && self.length_counter.is_zero() {
            self.ch_enabled = false;
        }
    }

    pub fn is_channel_enabled(&self) -> (r: bool)
        ensures
            r == self.playing(),
    {
        self.dac_enabled && self.ch_enabled
    }

    pub fn power_off(&mut self)
        ensures
            *final(self) == old(self).power_off_spec(),
    {
        self.length_counter.power_off();
        self.ch_enabled = false;
        self.dac_enabled = false;
        self.output = 0;
    }
}

/// Whether a square wave of duty `duty` is high at step `step` of its eight
/// steps.
pub open spec fn duty_high(duty: u8, step: u8) -> bool {
    if duty % 4 == 0 {
        step % 8 == 7
    } else if duty % 4 == 1 {
        step % 8 == 0 || step % 8 == 7
    } else if duty % 4 == 2 {
        step % 8 == 0 || step % 8 >= 5
    } else {
        1 <= step % 8 <= 6
    }
}

/// Reads the duty table.
pub fn duty_table(duty: u8, step: u8) -> (r: u8)
    ensures
        r == if duty_high(duty, step) {
            1u8
        } else {
            0u8
        },
{
    let s: u8 = step % 8;
    let high: bool = match duty % 4 {
        0 => s == 7,
        1 => s == 0 || s == 7,
        2 => s == 0 || s >= 5,
        _ => 1 <= s && s <= 6,
    };
    if high {
        1
    } else {
        0
    }
}

/// The number of clocks between two steps of a channel of frequency `freq`,
/// `scale` clocks per unit.
pub open spec fn period_of(freq: u16, scale: int) -> int {
    if freq <= 2048 {
        (2048 - freq) * scale
    } else {
        0
    }
}

} // verus!
