//! A Nintendo Entertainment System emulator core whose parts are specified
//! and verified: the controllers, the 6502 register file, arithmetic and
//! interpreter, the PPU register file, address space and rendering
//! pipeline, the APU channels and frame sequencer, the iNES cartridge
//! loader, the cartridge boards, and the console that steps them together
//! on one bus.
use vstd::prelude::*;

pub mod apu;
pub mod cartridge;
pub mod controller;
pub mod cpu;
pub mod mapper;
pub mod mmc1;
pub mod mmc3;
pub mod nes;
pub mod ppu;

verus! {

} // verus!
