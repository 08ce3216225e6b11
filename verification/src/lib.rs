//! A cycle-stepped NES emulator core: iNES cartridge parsing, the 2A03 CPU,
//! the CPU memory bus and the 2C02 PPU, with their behaviour stated and proved.
pub mod utils;
pub mod cartridge;
pub mod controller;
pub mod laws;
pub mod nnes;
pub mod trace;
