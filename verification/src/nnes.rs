//! The emulated console and its chips.
pub mod bus;
pub mod console;
pub mod flags;
pub mod memory;
pub mod opcodes;
pub mod cpu;
pub mod ppu;
pub mod registers;
pub mod rom;
pub mod utils;

pub use console::NNES;
