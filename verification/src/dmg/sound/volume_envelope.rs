//! The envelope that steps the volume of a channel up or down.
use crate::dmg::bits::{bit, test_bit};
use crate::dmg::traits::Tick;
use vstd::prelude::*;

verus! {

#[derive(Clone, Copy, Debug, PartialEq, Eq, Structural)]
pub struct VolumeEnvelope {
    pub timer: u8,
    pub period: u8,
    pub add_mode: bool,
    pub starting_volume: u8,
    pub volume: u8,
    pub finished: bool,
}

impl VolumeEnvelope {
    /// The number of sequencer steps between two changes: a period of 0
    /// counts as 8.
    pub open spec fn reload(self) -> u8 {
        if self.period != 0 {
            self.period
        } else {
            8
        }
    }

    pub open spec fn set_nr12_spec(self, v: u8) -> VolumeEnvelope {
        VolumeEnvelope { starting_volume: v / 16, add_mode: bit(v, 3), period: v % 8, ..self }
    }

    pub open spec fn nr12(self) -> u8 {
        (((self.starting_volume % 16) * 16) as u8) | (if self.add_mode {
            0b100u8
        } else {
            0u8
        }) | self.period
    }

    /// The volume that the channel plays at: with a period of 0 the envelope
    /// does not move and the starting volume holds.
    pub open spec fn volume_spec(self) -> u8 {
        if self.period > 0 {
            self.volume
        } else {
            self.starting_volume
        }
    }

    pub open spec fn trigger_spec(self) -> VolumeEnvelope {
        VolumeEnvelope {
            volume: self.starting_volume,
            finished: false,
            timer: self.reload(),
            ..self
        }
    }

    pub open spec fn off() -> VolumeEnvelope {
        VolumeEnvelope {
            timer: 0,
            period: 0,
            add_mode: false,
            starting_volume: 0,
            volume: 0,
            finished: false,
        }
    }

    /// The volume one step further in the direction of the envelope, within
    /// 0 to 15.
    pub open spec fn stepped(self) -> u8 {
        if self.add_mode && self.volume < 15 {
            (self.volume + 1) as u8
        } else if !self.add_mode && self.volume > 0 {
            (self.volume - 1) as u8
        } else {
            self.volume
        }
    }

    /// The envelope after a step of the sequencer: when its timer runs out
    /// the volume moves one step, and the envelope is finished once the volume
    /// is 0 or 15.
    pub open spec fn tick_spec(self) -> VolumeEnvelope {
        if self.finished {
            self
        } else if self.timer <= 1 {
            VolumeEnvelope {
                timer: self.reload(),
                volume: self.stepped(),
                finished: self.stepped() == 0 || self.stepped() == 15,
                ..self
            }
        } else {
            VolumeEnvelope { timer: (self.timer - 1) as u8, ..self }
        }
    }

    pub fn new() -> (r: VolumeEnvelope)
        ensures
            r == (VolumeEnvelope { finished: true, ..Self::off() }),
    {
        Self {
            timer: 0,
            period: 0,
            starting_volume: 0,
            volume: 0,
            finished: true,
            add_mode: false,
        }
    }

    pub fn set_nr12(&mut self, v: u8)
        ensures
            *final(self) == old(self).set_nr12_spec(v),
    {
        self.starting_volume = v / 16;
        self.add_mode = test_bit(v, 3);
        self.period = v % 8;
    }

    pub fn get_nr12(&self) -> (r: u8)
        ensures
            r == self.nr12(),
    {
        ((self.starting_volume % 16) * 16) | if self.add_mode {
            0b100
        } else {
            0
        } | self.period
    }

    pub fn get_volume(&self) -> (r: u8)
        ensures
            r == self.volume_spec(),
    {
        if self.period > 0 {
            self.volume
        } else {
            self.starting_volume
        }
    }

    pub fn trigger(&mut self)
        ensures
            *final(self) == old(self).trigger_spec(),
    {
        self.volume = self.starting_volume;
        self.finished = false;
        self.timer = if self.period != 0 {
            self.period
        } else {
            8
        };
    }

    pub fn power_off(&mut self)
        ensures
            *final(self) == Self::off(),
    {
        self.finished = false;
        self.timer = 0;
        self.starting_volume = 0;
        self.add_mode = false;
        self.period = 0;
        self.volume = 0;
    }
}

impl Tick for VolumeEnvelope {
    fn tick(&mut self)
        ensures
            *final(self) == old(self).tick_spec(),
    {
        if self.finished {
            return ;
        }
        self.timer = self.timer.saturating_sub(1);
        if self.timer == 0 {
            self.timer = if self.period != 0 {
                self.period
            } else {
                8
            };
            if self.add_mode && self.volume < 15 {
                self.volume += 1;
            } else if !self.add_mode && self.volume > 0 {
                self.volume -= 1;
            }
            if self.volume == 0 || self.volume == 15 {
                self.finished = true;
            }
        }
    }
}


impl Default for VolumeEnvelope {
    fn default() -> (r: VolumeEnvelope)
        ensures
            r == (VolumeEnvelope { finished: true, ..VolumeEnvelope::off() }),
    {
        VolumeEnvelope::new()
    }
}

} // verus!
