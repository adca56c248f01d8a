use vstd::prelude::*;

verus! {

/// A component that advances by one clock.
pub trait Tick {
    fn tick(&mut self);
}

/// A component that answers reads and writes on the bus at its own addresses.
pub trait Mem {
    fn read_byte(&self, addr: u16) -> u8;

    fn write_byte(&mut self, addr: u16, value: u8);
}

} // verus!
