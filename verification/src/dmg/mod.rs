pub mod bits;
pub mod traits;
pub mod intf;
pub mod cpu;
pub mod input;
pub mod serial;
pub mod mbc;
pub mod timer;
pub mod gpu;
pub mod sound;
pub mod mem;
pub mod console;
