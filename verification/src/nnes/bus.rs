//! A flat memory bus over internal RAM and a [`Rom`]'s PRG ROM, without
//! memory-mapped devices.
use super::cpu::{add16, word};
use super::rom::{Rom, PRG_ROM_PAGE_SIZE};
use crate::utils::{lemma_join_bytes, lemma_word_bits};
use vstd::prelude::*;

verus! {

/// Internal RAM and the cartridge ROM.
pub struct Bus {
    pub ram: [u8; 0x0800],
    pub rom: Rom,
}

pub const PRG_ROM_MEM_START: u16 = 0x8000;

/// Offset in PRG ROM of CPU address `addr` (0x8000 and up): a single
/// 16 KiB page is mirrored into the upper half.
pub open spec fn prg_offset(len: int, addr: u16) -> int {
    let a = addr - 0x8000;
    if len == 0x4000 && a >= 0x4000 { a % 0x4000 } else { a }
}

impl Bus {
    /// A read of `addr` is supported: internal RAM, or PRG ROM where the
    /// offset lies inside it.
    pub open spec fn read_ok(&self, addr: u16) -> bool {
        addr < 0x2000 || (addr >= 0x8000 && prg_offset(self.rom.prg_rom@.len() as int, addr) < self.rom.prg_rom@.len())
    }

    /// The byte a read of `addr` gives.
    pub open spec fn value_at(&self, addr: u16) -> u8 {
        if addr < 0x2000 {
            self.ram@[addr as int % 0x800]
        } else {
            self.rom.prg_rom@[prg_offset(self.rom.prg_rom@.len() as int, addr)]
        }
    }

    /// A bus over `rom` with RAM cleared.
    pub fn new(rom: Rom) -> (b: Self)
        ensures
            forall|i: int| 0 <= i < 0x800 ==> b.ram@[i] == 0,
            b.rom == rom,
    {
        Bus { ram: [0; 0x0800], rom: rom }
    }

    fn read_prg_rom(&self, addr: u16) -> (r: u8)
        requires
            addr >= 0x8000,
            prg_offset(self.rom.prg_rom@.len() as int, addr) < self.rom.prg_rom@.len(),
        ensures
            r == self.rom.prg_rom@[prg_offset(self.rom.prg_rom@.len() as int, addr)],
    {
        let mut addr = addr;
        addr -= PRG_ROM_MEM_START;
        if (self.rom.prg_rom.len() == PRG_ROM_PAGE_SIZE as usize) && (addr >= PRG_ROM_PAGE_SIZE as u16) {
            addr %= PRG_ROM_PAGE_SIZE as u16;
        }
        self.rom.prg_rom[addr as usize]
    }

    /// Reads a byte: RAM mirrored every 2 KiB below 0x2000, PRG ROM from 0x8000.
    pub fn memory_read_u8(&self, addr: u16) -> (r: u8)
        requires
            self.read_ok(addr),
        ensures
            r == self.value_at(addr),
    {
        if addr < 0x2000 {
            let mirrored: u16 = addr & 0b111_1111_1111;
            proof {
                lemma_word_bits(addr);
            }
            self.ram[mirrored as usize]
        } else {
            self.read_prg_rom(addr)
        }
    }

    /// Writes a byte to RAM (mirrored every 2 KiB below 0x2000).
    pub fn memory_write_u8(&mut self, addr: u16, data: u8)
        requires
            addr < 0x2000,
        ensures
            final(self).ram@ == old(self).ram@.update(addr as int % 0x800, data),
            final(self).rom == old(self).rom,
    {
        let mirrored: u16 = addr & 0b111_1111_1111;
        proof {
            lemma_word_bits(addr);
        }
        self.ram[mirrored as usize] = data;
    }

    /// The little-endian word at `addr` and `addr + 1` (wrapping).
    pub fn memory_read_u16(&self, addr: u16) -> (r: u16)
        requires
            self.read_ok(addr),
            self.read_ok(add16(addr, 1)),
        ensures
            r == word(self.value_at(addr), self.value_at(add16(addr, 1))),
    {
        let low: u8 = self.memory_read_u8(addr);
        let high: u8 = self.memory_read_u8(addr.wrapping_add(1));
        proof {
            lemma_join_bytes(low, high);
        }
        ((high as u16) << 8) | (low as u16)
    }

    /// Writes `data` little-endian at `addr` and `addr + 1` (wrapping).
    pub fn memory_write_u16(&mut self, addr: u16, data: u16)
        requires
            addr < 0x2000,
            add16(addr, 1) < 0x2000,
        ensures
            final(self).ram@ == old(self).ram@.update(addr as int % 0x800, (data % 256) as u8).update(
                add16(addr, 1) as int % 0x800,
                (data / 256) as u8,
            ),
            final(self).rom == old(self).rom,
    {
        let low: u16 = data & 0x00FF;
        let high: u16 = (data & 0xFF00) >> 8;
        proof {
            lemma_word_bits(data);
        }
        self.memory_write_u8(addr, low as u8);
        self.memory_write_u8(addr.wrapping_add(1), high as u8);
    }
}

} // verus!
