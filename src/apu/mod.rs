pub mod apu;
pub mod components;
pub mod delta_modulation_channel;
pub mod noise_channel;
pub mod pulse_channel;
pub mod registers;
pub mod triangle_channel;
