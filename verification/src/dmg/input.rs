//! The joypad: eight buttons behind a two-row matrix.
use crate::dmg::bits::{bit, lemma_mask_is_bit, test_bit};
use crate::dmg::traits::Mem;
use vstd::prelude::*;

verus! {

/// The buttons that are held, one per bit.
#[derive(Clone, Copy, Debug, PartialEq, Eq, Structural)]
pub struct JoypadInput {
    pub bits: u8,
}

impl JoypadInput {
    pub const DOWN: u8 = 0x01;

    pub const LEFT: u8 = 0x02;

    pub const UP: u8 = 0x04;

    pub const RIGHT: u8 = 0x08;

    pub const START: u8 = 0x10;

    pub const SELECT: u8 = 0x20;

    pub const A: u8 = 0x40;

    pub const B: u8 = 0x80;

    pub fn empty() -> (r: JoypadInput)
        ensures
            r.bits == 0,
    {
        JoypadInput { bits: 0 }
    }

    pub fn from_bits_truncate(value: u8) -> (r: JoypadInput)
        ensures
            r.bits == value,
    {
        JoypadInput { bits: value }
    }

    pub fn bits(&self) -> (r: u8)
        ensures
            r == self.bits,
    {
        self.bits
    }

    /// Whether every button of `mask` is held.
    pub fn contains(&self, mask: u8) -> (r: bool)
        ensures
            r == (self.bits & mask == mask),
    {
        self.bits & mask == mask
    }

    pub fn insert(&mut self, mask: u8)
        ensures
            final(self).bits == old(self).bits | mask,
    {
        self.bits = self.bits | mask;
    }
}

/// The four lines of the selected row, as weights in the byte that a read
/// returns. A line reads 0 while its button is held.
pub struct JoypadOutput {
    pub bits: u8,
}

impl JoypadOutput {
    pub const RIGHT_OR_A: u8 = 0x01;

    pub const LEFT_OR_B: u8 = 0x02;

    pub const UP_OR_SELECT: u8 = 0x04;

    pub const DOWN_OR_START: u8 = 0x08;

    /// All four lines released.
    pub fn all() -> (r: JoypadOutput)
        ensures
            r.bits == 0x0f,
    {
        JoypadOutput { bits: 0x0f }
    }
}

/// Which row of the matrix a read reports.
#[derive(Clone, Copy, Debug, PartialEq, Eq, Structural)]
pub enum JoypadMode {
    Action,
    Direction,
}

#[derive(Clone, Copy, Debug)]
pub struct Joypad {
    pub mode: JoypadMode,
    pub input: JoypadInput,
}

impl Joypad {
    /// The joypad at power-on: nothing held, the action row selected.
    pub open spec fn initial() -> Joypad {
        Joypad { mode: JoypadMode::Action, input: JoypadInput { bits: 0 } }
    }

    /// Whether the button wired to line `line` (0 to 3) of the selected row
    /// is held.
    pub open spec fn line_held(self, line: nat) -> bool {
        let held = self.input.bits;
        if self.mode == JoypadMode::Action {
            if line == 0 {
                bit(held, 6)
            } else if line == 1 {
                bit(held, 7)
            } else if line == 2 {
                bit(held, 5)
            } else {
                bit(held, 4)
            }
        } else {
            if line == 0 {
                bit(held, 3)
            } else if line == 1 {
                bit(held, 1)
            } else if line == 2 {
                bit(held, 2)
            } else {
                bit(held, 0)
            }
        }
    }

    /// The byte that a read of the joypad register returns.
    pub open spec fn read_spec(self) -> u8 {
        (15 - (if self.line_held(0) {
            1int
        } else {
            0
        }) - (if self.line_held(1) {
            2int
        } else {
            0
        }) - (if self.line_held(2) {
            4int
        } else {
            0
        }) - (if self.line_held(3) {
            8int
        } else {
            0
        })) as u8
    }

    /// The joypad after `value` is written to its register: a clear bit 4
    /// selects the direction row, else a clear bit 5 selects the action row.
    pub open spec fn write_spec(self, value: u8) -> Joypad {
        if !bit(value, 4) {
            Joypad { mode: JoypadMode::Direction, ..self }
        } else if !bit(value, 5) {
            Joypad { mode: JoypadMode::Action, ..self }
        } else {
            self
        }
    }

    pub fn new() -> (r: Joypad)
        ensures
            r == Self::initial(),
    {
        Joypad { mode: JoypadMode::Action, input: JoypadInput::empty() }
    }

    /// Latches the buttons that are held now.
    pub fn update(&mut self, input: JoypadInput)
        ensures
            *final(self) == (Joypad { input, ..*old(self) }),
    {
        self.input = input;
    }
}

impl Mem for Joypad {
    fn read_byte(&self, _addr: u16) -> (r: u8)
        ensures
            r == self.read_spec(),
            r < 16,
            forall|line: nat| line < 4 ==> bit(r, line) == !self.line_held(line),
    {
        proof {
            lemma_mask_is_bit(self.input.bits);
        }
        let mut output: u8 = JoypadOutput::all().bits;
        if self.mode == JoypadMode::Action {
            if self.input.contains(JoypadInput::START) {
                output = output - JoypadOutput::DOWN_OR_START;
            }
            if self.input.contains(JoypadInput::SELECT) {
                output = output - JoypadOutput::UP_OR_SELECT;
            }
            if self.input.contains(JoypadInput::A) {
                output = output - JoypadOutput::RIGHT_OR_A;
            }
            if self.input.contains(JoypadInput::B) {
                output = output - JoypadOutput::LEFT_OR_B;
            }
        } else {
            if self.input.contains(JoypadInput::DOWN) {
                output = output - JoypadOutput::DOWN_OR_START;
            }
            if self.input.contains(JoypadInput::UP) {
                output = output - JoypadOutput::UP_OR_SELECT;
            }
            if self.input.contains(JoypadInput::RIGHT) {
                output = output - JoypadOutput::RIGHT_OR_A;
            }
            if self.input.contains(JoypadInput::LEFT) {
                output = output - JoypadOutput::LEFT_OR_B;
            }
        }
        output
    }

    fn write_byte(&mut self, _addr: u16, value: u8)
        ensures
            *final(self) == old(self).write_spec(value),
    {
        let set_direction: bool = test_bit(value, 4) == false;
        let set_action: bool = test_bit(value, 5) == false;
        if set_direction {
            self.mode = JoypadMode::Direction;
        } else if set_action {
            self.mode = JoypadMode::Action;
        }
    }
}


impl Default for Joypad {
    fn default() -> (r: Joypad)
        ensures
            r == Joypad::initial(),
    {
        Joypad::new()
    }
}

} // verus!
