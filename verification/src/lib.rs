//! An emulation core for the first, monochrome Game Boy: processor, picture
//! unit, sound unit, cartridge banking, timer and joypad behind one memory bus.
pub mod dmg;
