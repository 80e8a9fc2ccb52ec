//! A cycle-stepped NES emulator core: CPU, PPU, APU channels, mappers,
//! memory map and movie formats.
use vstd::prelude::*;

pub mod bit_facts;
pub mod bits;
pub mod internal_registers;
pub mod ppu_ctrl;
pub mod ppu_mask;
pub mod joypad;
pub mod delayed;
pub mod text;
pub mod rom;
pub mod memory;
pub mod nes_memory;
pub mod ppu2;
pub mod dot_laws;
pub mod mappers;
pub mod apu;
pub mod fm2;
pub mod bk2;
pub mod cpu;
pub mod constants;
pub mod rom_list;
pub mod rom_filter;
pub mod pattern;
pub mod sprite;
pub mod config_file;
pub mod app;
pub mod listview;
pub mod emulator;
pub mod args;

verus! {
} // verus!
