//! The length counter that silences a channel after a set time.
use crate::dmg::bits::{bit, test_bit};
use crate::dmg::sound::traits::Tick;
use vstd::prelude::*;

verus! {

#[derive(Clone, Copy, Debug, PartialEq, Eq, Structural)]
pub struct LengthCounter {
    pub enabled: bool,
    /// The steps that are left.
    pub length: u16,
    /// The steps of a full run: 64, or 256 for the wave channel.
    pub full_length: u16,
    /// The step that the frame sequencer runs next.
    pub frame_sequencer: u8,
}

impl LengthCounter {
    /// A full run, or one step less.
    pub open spec fn reload(self, short: bool) -> u16 {
        if short && self.full_length > 0 {
            (self.full_length - 1) as u16
        } else {
            self.full_length
        }
    }

    /// The counter after a write of the control register: bit 6 enables it,
    /// bit 7 restarts a counter that has run out. Enabling it just after the
    /// sequencer has clocked the lengths costs one step at once.
    pub open spec fn set_nr14_spec(self, v: u8) -> LengthCounter {
        let enable = bit(v, 6);
        let trigger = bit(v, 7);
        let odd = bit(self.frame_sequencer, 0);
        let length = if self.enabled {
            if trigger && self.length == 0 {
                self.reload(enable && odd)
            } else {
                self.length
            }
        } else if enable {
            if odd {
                let stepped = if self.length != 0 {
                    (self.length - 1) as u16
                } else {
                    0u16
                };
                if trigger && stepped == 0 {
                    self.reload(true)
                } else {
                    stepped
                }
            } else {
                self.length
            }
        } else {
            if trigger && self.length == 0 {
                self.full_length
            } else {
                self.length
            }
        };
        LengthCounter { enabled: enable, length, ..self }
    }

    /// The counter after a write of the length register: a counter that has
    /// run out restarts in full, any other is set to the full run less `v`.
    pub open spec fn set_length_spec(self, v: u8) -> LengthCounter {
        LengthCounter {
            length: if self.length == 0 {
                self.full_length
            } else if self.full_length >= v {
                (self.full_length - v) as u16
            } else {
                0
            },
            ..self
        }
    }

    pub open spec fn tick_spec(self) -> LengthCounter {
        if self.enabled && self.length > 0 {
            LengthCounter { length: (self.length - 1) as u16, ..self }
        } else {
            self
        }
    }

    pub fn new(full_length: u16) -> (r: LengthCounter)
        ensures
            r == (LengthCounter { length: 0, full_length, enabled: false, frame_sequencer: 0 }),
    {
        Self { length: 0, full_length, enabled: false, frame_sequencer: 0 }
    }

    pub fn is_zero(&self) -> (r: bool)
        ensures
            r == (self.length == 0),
    {
        self.length == 0
    }

    pub fn is_enabled(&self) -> (r: bool)
        ensures
            r == self.enabled,
    {
        self.enabled
    }

    fn short_length(&self) -> (r: u16)
        ensures
            r == self.reload(true),
    {
        if self.full_length > 0 {
            self.full_length - 1
        } else {
            self.full_length
        }
    }

    pub fn set_nr14(&mut self, v: u8)
        ensures
            *final(self) == old(self).set_nr14_spec(v),
    {
        let enable: bool = test_bit(v, 6);
        let trigger: bool = test_bit(v, 7);
        if self.enabled {
            if trigger && self.is_zero() {
                self.length = if enable && test_bit(self.frame_sequencer, 0) {
                    self.short_length()
                } else {
                    self.full_length
                };
            }
        } else if enable {
            if test_bit(self.frame_sequencer, 0) {
                if self.length != 0 {
                    self.length -= 1;
                }
                if trigger && self.is_zero() {
                    self.length = self.short_length();
                }
            }
        } else {
            if trigger && self.is_zero() {
                self.length = self.full_length;
            }
        }
        self.enabled = enable;
    }

    pub fn set_length(&mut self, v: u8)
        ensures
            *final(self) == old(self).set_length_spec(v),
    {
        if self.length == 0 {
            self.length = self.full_length
        } else if self.full_length >= v as u16 {
            self.length = self.full_length - v as u16;
        } else {
            self.length = 0;
        }
    }

    /// Switches the counter off. The steps that are left stay.
    pub fn power_off(&mut self)
        ensures
            *final(self) == (LengthCounter { enabled: false, ..*old(self) }),
    {
        self.enabled = false;
    }
}

impl Tick for LengthCounter {
    fn tick(&mut self)
        ensures
            *final(self) == old(self).tick_spec(),
    {
        if self.enabled && self.length > 0 {
            self.length -= 1;
        }
    }
}


impl Default for LengthCounter {
    /// A counter with a full run of 64 steps.
    fn default() -> (r: LengthCounter)
        ensures
            r == (LengthCounter { length: 0, full_length: 64, enabled: false, frame_sequencer: 0 }),
    {
        LengthCounter::new(64)
    }
}

} // verus!
