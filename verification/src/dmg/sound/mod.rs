pub mod traits;
pub mod length_counter;
pub mod volume_envelope;
pub mod frequency_sweep;
pub mod common;
pub mod channel1;
pub mod channel2;
pub mod channel3;
pub mod channel4;
pub mod apu;
pub mod sampler;
