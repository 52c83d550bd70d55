//! The core of a cycle-stepped 8-bit console emulator: a 6502 CPU driven
//! by a micro-state machine, the picture unit (scanline and dot pipeline,
//! sprites, palette), the audio unit (pulse, triangle, noise and
//! delta-modulation channels with their frame sequencer), the address
//! decoders, the NROM cartridge board, the pads and the OAM-DMA engine,
//! interleaved by a master clock.

use vstd::prelude::*;

pub mod apu;
pub mod bus;
pub mod controller;
pub mod cpu;
pub mod nes;
pub mod ppu;

verus! {

/// Width of the picture in pixels.
pub const WIDTH: usize = 256;

/// Height of the picture in pixels.
pub const HEIGHT: usize = 240;

/// Bytes per pixel of the frame buffer (red, green, blue).
pub const PIXEL_SIZE: usize = 3;

} // verus!
