//! The five interrupt request lines and their priority.
use crate::dmg::bits::{bit, lemma_mask_is_bit};
use vstd::prelude::*;

verus! {

/// A set of interrupt lines, one per bit: bit 0 is the vertical blank, bit 4
/// the joypad. Lower bits have priority.
#[derive(Clone, Copy, Debug, PartialEq, Eq, Structural)]
pub struct InterruptFlag {
    pub bits: u8,
}

impl InterruptFlag {
    pub const V_BLANK: u8 = 0x01;

    pub const LCD_STAT: u8 = 0x02;

    pub const TIMER: u8 = 0x04;

    pub const SERIAL: u8 = 0x08;

    pub const JOYPAD: u8 = 0x10;

    /// The mask of the lowest line among the five that is raised, 0 if none is.
    pub open spec fn first_raised(v: u8) -> u8 {
        if bit(v, 0) {
            0x01
        } else if bit(v, 1) {
            0x02
        } else if bit(v, 2) {
            0x04
        } else if bit(v, 3) {
            0x08
        } else if bit(v, 4) {
            0x10
        } else {
            0
        }
    }

    /// The handler address of the line that [`Self::first_raised`] picks.
    pub open spec fn vector(v: u8) -> Option<u16> {
        if bit(v, 0) {
            Some(0x40u16)
        } else if bit(v, 1) {
            Some(0x48u16)
        } else if bit(v, 2) {
            Some(0x50u16)
        } else if bit(v, 3) {
            Some(0x58u16)
        } else if bit(v, 4) {
            Some(0x60u16)
        } else {
            None
        }
    }

    pub fn empty() -> (r: InterruptFlag)
        ensures
            r.bits == 0,
    {
        InterruptFlag { bits: 0 }
    }

    /// Keeps the five defined lines of `value` and drops the rest.
    pub fn from_bits_truncate(value: u8) -> (r: InterruptFlag)
        ensures
            r.bits == value & 0x1f,
    {
        InterruptFlag { bits: value & 0x1f }
    }

    pub fn bits(&self) -> (r: u8)
        ensures
            r == self.bits,
    {
        self.bits
    }

    /// Whether every line of `mask` is raised.
    pub fn contains(&self, mask: u8) -> (r: bool)
        ensures
            r == (self.bits & mask == mask),
    {
        self.bits & mask == mask
    }

    /// Whether the two sets share a line.
    pub fn intersects(&self, other: InterruptFlag) -> (r: bool)
        ensures
            r == (self.bits & other.bits != 0),
    {
        self.bits & other.bits != 0
    }

    pub fn insert(&mut self, mask: u8)
        ensures
            final(self).bits == old(self).bits | mask,
    {
        self.bits = self.bits | mask;
    }

    pub fn remove(&mut self, mask: u8)
        ensures
            final(self).bits == old(self).bits & !mask,
    {
        self.bits = self.bits & !mask;
    }

    pub fn highest_prio_bit(&self) -> (r: InterruptFlag)
        ensures
            r.bits == Self::first_raised(self.bits),
    {
        proof {
            lemma_mask_is_bit(self.bits);
        }
        if self.contains(InterruptFlag::V_BLANK) {
            InterruptFlag { bits: InterruptFlag::V_BLANK }
        } else if self.contains(InterruptFlag::LCD_STAT) {
            InterruptFlag { bits: InterruptFlag::LCD_STAT }
        } else if self.contains(InterruptFlag::TIMER) {
            InterruptFlag { bits: InterruptFlag::TIMER }
        } else if self.contains(InterruptFlag::SERIAL) {
            InterruptFlag { bits: InterruptFlag::SERIAL }
        } else if self.contains(InterruptFlag::JOYPAD) {
            InterruptFlag { bits: InterruptFlag::JOYPAD }
        } else {
            InterruptFlag::empty()
        }
    }

    pub fn interrupt_starting_address(&self) -> (r: Option<u16>)
        ensures
            r == Self::vector(self.bits),
    {
        let first: u8 = self.highest_prio_bit().bits;
        if first == InterruptFlag::V_BLANK {
            Some(0x40)
        } else if first == InterruptFlag::LCD_STAT {
            Some(0x48)
        } else if first == InterruptFlag::TIMER {
            Some(0x50)
        } else if first == InterruptFlag::SERIAL {
            Some(0x58)
        } else if first == InterruptFlag::JOYPAD {
            Some(0x60)
        } else {
            None
        }
    }
}

/// The mask of bit `i` of a byte.
pub open spec fn weight_of(i: nat) -> u8 {
    crate::dmg::bits::weight(i) as u8
}

/// Removing the line that has priority leaves that line clear and every other
/// line as it was.
pub proof fn lemma_remove_first_raised(v: u8)
    ensures
        (v & !InterruptFlag::first_raised(v)) & InterruptFlag::first_raised(v) == 0,
        forall|i: nat|
            i < 8 && weight_of(i) != InterruptFlag::first_raised(v) ==> bit(
                v & !InterruptFlag::first_raised(v),
                i,
            ) == bit(v, i),
{
    lemma_clear_one(v, InterruptFlag::first_raised(v));
}

proof fn lemma_clear_one(v: u8, m: u8)
    requires
        m == 0 || m == 1 || m == 2 || m == 4 || m == 8 || m == 16,
    ensures
        (v & !m) & m == 0,
        forall|i: nat| i < 8 && weight_of(i) != m ==> bit(v & !m, i) == bit(v, i),
{
    let w = v & !m;
    assert((v & !m) & m == 0) by (bit_vector);
    assert(m == 0 || m == 1 || m == 2 || m == 4 || m == 8 || m == 16 ==> {
        &&& (m != 1 ==> (w % 2 == 1) == (v % 2 == 1))
        &&& (m != 2 ==> ((w / 2) % 2 == 1) == ((v / 2) % 2 == 1))
        &&& (m != 4 ==> ((w / 4) % 2 == 1) == ((v / 4) % 2 == 1))
        &&& (m != 8 ==> ((w / 8) % 2 == 1) == ((v / 8) % 2 == 1))
        &&& (m != 16 ==> ((w / 16) % 2 == 1) == ((v / 16) % 2 == 1))
        &&& ((w / 32) % 2 == 1) == ((v / 32) % 2 == 1)
        &&& ((w / 64) % 2 == 1) == ((v / 64) % 2 == 1)
        &&& (w >= 128) == (v >= 128)
    }) by (bit_vector)
        requires
            w == v & !m,
    ;
}

} // verus!
