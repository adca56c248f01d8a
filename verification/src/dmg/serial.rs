//! The serial port: it takes a data byte and a control byte, and sends
//! nothing over a cable.
use crate::dmg::bits::{bit, test_bit};
use crate::dmg::traits::Mem;
use vstd::prelude::*;

verus! {

#[derive(Clone, Copy, Debug)]
pub struct Serial {
    /// The data byte that was written last and not yet dropped.
    pub value: Option<u8>,
    pub debug_print: bool,
    /// The byte of the last transfer that was started, until the host takes it.
    pub sent: Option<u8>,
}

impl Serial {
    pub open spec fn read_spec(self, addr: u16) -> u8 {
        if addr == 0xff01 || addr == 0xff02 {
            0x00
        } else {
            0xff
        }
    }

    /// The port after a write: the data register keeps the byte; a control
    /// byte with bit 7 set starts a transfer of the kept byte, one with bit 7
    /// clear drops it.
    pub open spec fn write_spec(self, addr: u16, v: u8) -> Serial {
        if addr == 0xff01 {
            Serial { value: Some(v), ..self }
        } else if addr == 0xff02 && bit(v, 7) {
            if self.value is Some {
                Serial { sent: self.value, ..self }
            } else {
                self
            }
        } else if addr == 0xff02 {
            Serial { value: None, ..self }
        } else {
            self
        }
    }

    pub fn new() -> (r: Serial)
        ensures
            r == (Serial { value: None, debug_print: false, sent: None }),
    {
        Serial { debug_print: false, value: None, sent: None }
    }

    /// Hands the byte of the last started transfer to the host, once.
    pub fn take_sent(&mut self) -> (r: Option<u8>)
        ensures
            r == old(self).sent,
            *final(self) == (Serial { sent: None, ..*old(self) }),
    {
        let r: Option<u8> = self.sent;
        self.sent = None;
        r
    }
}

impl Mem for Serial {
    fn read_byte(&self, addr: u16) -> (r: u8)
        ensures
            r == self.read_spec(addr),
    {
        if addr == 0xff01 || addr == 0xff02 {
            0x00
        } else {
            0xff
        }
    }

    fn write_byte(&mut self, addr: u16, v: u8)
        ensures
            *final(self) == old(self).write_spec(addr, v),
    {
        if addr == 0xff01 {
            self.value = Some(v);
        } else if addr == 0xff02 {
            if test_bit(v, 7) {
                if let Some(value) = self.value {
                    self.sent = Some(value);
                }
            } else {
                self.value = None;
            }
        }
    }
}


impl Default for Serial {
    fn default() -> (r: Serial)
        ensures
            r == (Serial { value: None, debug_print: false, sent: None }),
    {
        Serial::new()
    }
}

} // verus!
