//! The divider and the programmable timer.
use crate::dmg::bits::{bit, test_bit};
use vstd::prelude::*;

verus! {

/// The divider counts every clock; its high byte is the DIV register. The
/// timer counter TIMA counts once per period while TAC enables it, and
/// reloads from TMA when it overflows.
#[derive(Clone, Copy, Debug, PartialEq, Eq, Structural)]
pub struct Timer {
    /// The 16-bit divider.
    pub counter: u16,
    pub tima: u8,
    pub tma: u8,
    pub tac: u8,
    /// The clocks counted toward the next increment of TIMA.
    pub clock: u32,
}

impl Timer {
    /// The number of clocks between two increments of TIMA, selected by the
    /// two low bits of TAC.
    pub open spec fn period_of(tac: u8) -> int {
        if tac % 4 == 1 {
            16
        } else if tac % 4 == 2 {
            64
        } else if tac % 4 == 3 {
            256
        } else {
            1024
        }
    }

    /// Whether TAC enables the timer counter.
    pub open spec fn enabled(self) -> bool {
        bit(self.tac, 2)
    }

    /// TIMA after one increment, and whether it overflowed and reloaded.
    pub open spec fn bump(tima: u8, tma: u8) -> (u8, bool) {
        if tima == 255 {
            (tma, true)
        } else {
            ((tima + 1) as u8, false)
        }
    }

    /// TIMA after `k` increments, and whether any of them overflowed.
    pub open spec fn count(tima: u8, tma: u8, k: nat) -> (u8, bool)
        decreases k,
    {
        if k == 0 {
            (tima, false)
        } else {
            let first = Self::bump(tima, tma);
            let rest = Self::count(first.0, tma, (k - 1) as nat);
            (rest.0, first.1 || rest.1)
        }
    }

    /// The timer after `cycles` clocks, and whether TIMA overflowed on the
    /// way.
    pub open spec fn advance_spec(self, cycles: u32) -> (Timer, bool) {
        let counter = ((self.counter + cycles) % 65536) as u16;
        if self.enabled() {
            let total = self.clock + cycles;
            let period = Self::period_of(self.tac);
            let counted = Self::count(self.tima, self.tma, (total / period) as nat);
            (Timer { counter, tima: counted.0, clock: (total % period) as u32, ..self }, counted.1)
        } else {
            (Timer { counter, ..self }, false)
        }
    }

    pub open spec fn read_spec(self, addr: u16) -> u8 {
        if addr == 0xff04 {
            (self.counter / 256) as u8
        } else if addr == 0xff05 {
            self.tima
        } else if addr == 0xff06 {
            self.tma
        } else if addr == 0xff07 {
            self.tac
        } else {
            0xff
        }
    }

    /// The timer after a register write: any write to DIV clears the whole
    /// divider; the other three registers take the value.
    pub open spec fn write_spec(self, addr: u16, value: u8) -> Timer {
        if addr == 0xff04 {
            Timer { counter: 0, ..self }
        } else if addr == 0xff05 {
            Timer { tima: value, ..self }
        } else if addr == 0xff06 {
            Timer { tma: value, ..self }
        } else if addr == 0xff07 {
            Timer { tac: value, ..self }
        } else {
            self
        }
    }

    pub fn new() -> (r: Timer)
        ensures
            r == (Timer { counter: 0, tima: 0, tma: 0, tac: 0, clock: 0 }),
    {
        Timer { counter: 0, tima: 0, tma: 0, tac: 0, clock: 0 }
    }

    pub fn period(&self) -> (r: u32)
        ensures
            r == Self::period_of(self.tac),
    {
        match self.tac % 4 {
            1 => 16,
            2 => 64,
            3 => 256,
            _ => 1024,
        }
    }

    /// Runs the timer for `cycles` clocks and reports an overflow of TIMA.
    pub fn advance(&mut self, cycles: u32) -> (overflow: bool)
        ensures
            (*final(self), overflow) == old(self).advance_spec(cycles),
    {
        self.counter = ((self.counter as u64 + cycles as u64) % 65536) as u16;
        let mut overflow: bool = false;
        if test_bit(self.tac, 2) {
            let period: u64 = self.period() as u64;
            let total: u64 = self.clock as u64 + cycles as u64;
            let mut left: u64 = total / period;
            let ghost start = *old(self);
            let ghost all = left as nat;
            while left > 0
                invariant
                    self.tma == start.tma,
                    self.tac == start.tac,
                    self.counter == ((start.counter + cycles) % 65536) as u16,
                    Self::count(self.tima, self.tma, left as nat).0 == Self::count(
                        start.tima,
                        start.tma,
                        all,
                    ).0,
                    (overflow || Self::count(self.tima, self.tma, left as nat).1) == Self::count(
                        start.tima,
                        start.tma,
                        all,
                    ).1,
                decreases left,
            {
                if self.tima == 255 {
                    self.tima = self.tma;
                    overflow = true;
                } else {
                    self.tima = self.tima + 1;
                }
                left = left - 1;
            }
            self.clock = (total % period) as u32;
        }
        overflow
    }

    pub fn read(&self, addr: u16) -> (r: u8)
        ensures
            r == self.read_spec(addr),
    {
        match addr {
            0xff04 => (self.counter / 256) as u8,
            0xff05 => self.tima,
            0xff06 => self.tma,
            0xff07 => self.tac,
            _ => 0xff,
        }
    }

    pub fn write(&mut self, addr: u16, value: u8)
        ensures
            *final(self) == old(self).write_spec(addr, value),
    {
        match addr {
            0xff04 => self.counter = 0,
            0xff05 => self.tima = value,
            0xff06 => self.tma = value,
            0xff07 => self.tac = value,
            _ => {},
        }
    }
}

} // verus!
