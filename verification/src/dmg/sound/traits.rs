use vstd::prelude::*;

verus! {

/// A part of the sound unit that advances by one clock.
pub trait Tick {
    fn tick(&mut self);
}

/// A part of the sound unit that answers reads and writes of its registers.
pub trait Mem {
    fn read(&self, addr: u16) -> u8;

    fn write(&mut self, addr: u16, value: u8);
}

} // verus!
