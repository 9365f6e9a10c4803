//! A verified core for an 8-bit game-console emulator: the CPU instruction
//! engine, the address-decoding bus and the graphics timing unit, with the
//! register files of the audio unit and the controller latch around them.

pub mod apu;
pub mod bitfield;
pub mod bus;
pub mod cartridge;
pub mod cpu;
pub mod interrupt;
pub mod joypad;
pub mod mem;
pub mod opcodes;
pub mod ppu;
pub mod renderer;
