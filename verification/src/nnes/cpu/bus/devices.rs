//! The devices on the CPU bus: internal RAM (with the OAM DMA port), the PPU
//! registers, the APU/IO registers, expansion ROM, cartridge SRAM and PRG ROM.
#![allow(non_camel_case_types)]
use super::BusDevice;
use crate::cartridge::Cartridge;
use crate::nnes::ppu::PPU;
use vstd::prelude::*;

verus! {

/// 2 KiB of internal RAM mirrored over 0x0000 to 0x1FFF, plus two bytes
/// (0x800, 0x801) that latch a write to the OAM DMA port 0x4014: a marker
/// (42) and the page written.
pub struct RAM {
    pub ram: [u8; 0x0802],
    pub oam_dma_running: bool,
}

impl BusDevice for RAM {
    open spec fn covers(&self, addr: u16) -> bool {
        addr < 0x2000 || addr == 0x4014
    }

    open spec fn read_ok(&self, addr: u16) -> bool {
        addr != 0x4014
    }

    open spec fn write_ok(&self, addr: u16) -> bool {
        true
    }

    open spec fn peek_ok(&self, addr: u16) -> bool {
        true
    }

    fn contains(&self, addr: u16) -> (b: bool) {
        (0x0000 <= addr && addr < 0x2000) || addr == 0x4014
    }

    fn mem_read(&mut self, addr: u16) -> (r: u8)
        ensures
            r == old(self).ram@[addr as int % 0x800],
            *final(self) == *old(self),
    {
        proof { lemma_ram_mirror(addr); }
        self.ram[(addr & 0x07FF) as usize]
    }

    fn mem_write(&mut self, addr: u16, data: u8)
        ensures
            *final(self) == old(self).write_spec(addr, data),
    {
        if addr == 0x4014 {
            self.ram[0x0800] = 42;
            self.ram[0x0801] = data;
        } else {
            proof { lemma_ram_mirror(addr); }
            self.ram[(addr & 0x07FF) as usize] = data;
        }
    }

    fn peek(&self, addr: u16) -> (r: u8)
        ensures
            r == self.peek_spec(addr),
    {
        if addr == 0x4014 {
            self.ram[0x0801]
        } else {
            proof { lemma_ram_mirror(addr); }
            self.ram[(addr & 0x07FF) as usize]
        }
    }

    fn oam_dma_pending(&self) -> (b: bool)
        ensures
            b == (self.ram@[0x800] == 42),
    {
        self.ram[0x0800] == 42
    }

    fn oam_dma_start(&mut self)
        ensures
            *final(self) == (RAM {
                ram: vstd::array::spec_array_update(vstd::array::spec_array_update(old(self).ram, 0x800, 0u8), 0x801, 0u8),
                oam_dma_running: true,
            }),
    {
        self.ram[0x0800] = 0;
        self.ram[0x0801] = 0;
        self.oam_dma_running = true;
    }

    fn oam_dma_running(&self) -> (b: bool)
        ensures
            b == self.oam_dma_running,
    {
        self.oam_dma_running
    }

    fn oam_dma_finish(&mut self)
        ensures
            *final(self) == (RAM { oam_dma_running: false, ..*old(self) }),
    {
        self.oam_dma_running = false;
    }
}

impl RAM {
    /// RAM after a CPU write: the DMA port latches marker 42 and the page;
    /// other addresses write the mirrored RAM byte.
    pub open spec fn write_spec(self, addr: u16, data: u8) -> RAM {
        if addr == 0x4014 {
            RAM { ram: vstd::array::spec_array_update(vstd::array::spec_array_update(self.ram, 0x800, 42u8), 0x801, data), ..self }
        } else {
            RAM { ram: vstd::array::spec_array_update(self.ram, addr as int % 0x800, data), ..self }
        }
    }

    /// What a side-effect-free read gives: the latched DMA page for 0x4014,
    /// else the mirrored RAM byte.
    pub open spec fn peek_spec(self, addr: u16) -> u8 {
        if addr == 0x4014 { self.ram@[0x801] } else { self.ram@[addr as int % 0x800] }
    }
}

/// Masking a CPU address with 0x7FF gives its offset in 2 KiB RAM.
pub proof fn lemma_ram_mirror(addr: u16)
    ensures
        (addr & 0x07FF) == addr as int % 0x800,
{
    assert((addr & 0x07FFu16) == addr % 0x800) by (bit_vector);
}

/// The PPU registers, mirrored every 8 bytes over 0x2000 to 0x3FFF.
pub struct PPU_Regs {
    pub ppu: PPU,
}

impl BusDevice for PPU_Regs {
    open spec fn covers(&self, addr: u16) -> bool {
        0x2000 <= addr < 0x4000
    }

    open spec fn read_ok(&self, addr: u16) -> bool {
        self.ppu.inv() && (addr % 8 == 7 ==> self.ppu.memory_ok())
    }

    open spec fn write_ok(&self, addr: u16) -> bool {
        self.ppu.inv() && (addr % 8 == 7 ==> self.ppu.memory_ok())
    }

    open spec fn peek_ok(&self, addr: u16) -> bool {
        true
    }

    fn contains(&self, addr: u16) -> (b: bool) {
        0x2000 <= addr && addr < 0x4000
    }

    fn mem_read(&mut self, addr: u16) -> (r: u8)
        ensures
            (r, final(self).ppu) == old(self).ppu.reg_read_spec((addr % 8) as u8),
            final(self).ppu.inv(),
    {
        let reg = (addr % 8) as u8;
        proof { lemma_reg_keeps_phase(self.ppu); }
        self.ppu.reg_read(reg)
    }

    fn mem_write(&mut self, addr: u16, data: u8)
        ensures
            final(self).ppu == old(self).ppu.reg_write_spec((addr % 8) as u8, data),
            final(self).ppu.inv(),
    {
        let reg = (addr % 8) as u8;
        proof { lemma_reg_keeps_phase(self.ppu); }
        self.ppu.reg_write(reg, data);
    }

    fn peek(&self, addr: u16) -> (r: u8)
        ensures
            r == 0,
    {
        0
    }

    fn ppu_debug_cycle(&self) -> (r: Option<u16>)
        ensures
            r == Some(self.ppu.cycle),
    {
        Some(self.ppu.cycle)
    }

    fn ppu_debug_scanline(&self) -> (r: Option<u16>)
        ensures
            r == Some(self.ppu.scanline),
    {
        Some(self.ppu.scanline)
    }
}

/// Register accesses leave the dot and the sprite cursors alone, so the
/// PPU's between-dot invariant survives them.
pub proof fn lemma_reg_keeps_phase(p: PPU)
    requires
        p.inv(),
    ensures
        forall|reg: u8| #[trigger] p.reg_read_spec(reg).1.sprite_fetch_phase_ok(),
        forall|reg: u8, data: u8| #[trigger] p.reg_write_spec(reg, data).sprite_fetch_phase_ok(),
{
}

/// The APU and I/O registers at 0x4000 to 0x401F; reads give 0, writes are ignored.
pub struct APU_Regs {
    pub apu_regs: [u8; 0x0020],
}

impl BusDevice for APU_Regs {
    open spec fn covers(&self, addr: u16) -> bool {
        0x4000 <= addr < 0x4020
    }

    open spec fn read_ok(&self, addr: u16) -> bool {
        true
    }

    open spec fn write_ok(&self, addr: u16) -> bool {
        true
    }

    open spec fn peek_ok(&self, addr: u16) -> bool {
        true
    }

    fn contains(&self, addr: u16) -> (b: bool) {
        0x4000 <= addr && addr < 0x4020
    }

    fn mem_read(&mut self, addr: u16) -> (r: u8)
        ensures
            r == 0,
            *final(self) == *old(self),
    {
        0
    }

    fn mem_write(&mut self, addr: u16, data: u8)
        ensures
            *final(self) == *old(self),
    {
    }

    fn peek(&self, addr: u16) -> (r: u8)
        ensures
            r == 0,
    {
        0
    }
}

/// Expansion ROM at 0x4020 to 0x5FFF (not mapped by any cartridge handled here).
pub struct Expansion_ROM {
    pub expansion_rom: [u8; 0x1FE0],
}

impl Expansion_ROM {
    /// Whether `addr` falls in the expansion ROM window.
    pub fn contains(&self, addr: u16) -> (b: bool)
        ensures
            b == (0x4020 <= addr < 0x6000),
    {
        0x4020 <= addr && addr < 0x6000
    }
}

/// Cartridge save RAM at 0x6000 to 0x7FFF. Accessing it is not supported:
/// the bus keeps CPU accesses away from it (see `Bus::read_ok`).
pub struct SRAM {
    pub sram: Vec<u8>,
}

impl SRAM {
    /// Whether `addr` falls in the SRAM window.
    pub fn contains(&self, addr: u16) -> (b: bool)
        ensures
            b == (0x6000 <= addr < 0x8000),
    {
        0x6000 <= addr && addr < 0x8000
    }
}

/// PRG ROM at 0x8000 to 0xFFFF: one 16 KiB bank mirrored twice, or two banks.
pub struct PRG_ROM {
    pub num_banks: u8,
    pub prg_rom: Vec<u8>,
}

impl PRG_ROM {
    /// The bank count matches the ROM size where the count is one the
    /// mapping supports.
    pub open spec fn wf(&self) -> bool {
        &&& self.num_banks == 1 ==> self.prg_rom@.len() >= 0x4000
        &&& self.num_banks == 2 ==> self.prg_rom@.len() >= 0x8000
    }

    /// The ROM byte at CPU address `addr` (0x8000 and up).
    pub open spec fn read_spec(self, addr: u16) -> u8 {
        if self.num_banks == 1 {
            self.prg_rom@[(addr - 0x8000) % 0x4000]
        } else {
            self.prg_rom@[addr - 0x8000]
        }
    }
}

impl BusDevice for PRG_ROM {
    open spec fn covers(&self, addr: u16) -> bool {
        0x8000 <= addr
    }

    open spec fn read_ok(&self, addr: u16) -> bool {
        self.wf() && (self.num_banks == 1 || self.num_banks == 2)
    }

    open spec fn write_ok(&self, addr: u16) -> bool {
        true
    }

    open spec fn peek_ok(&self, addr: u16) -> bool {
        self.wf() && (self.num_banks == 1 || self.num_banks == 2)
    }

    fn contains(&self, addr: u16) -> (b: bool) {
        0x8000 <= addr
    }

    fn mem_read(&mut self, addr: u16) -> (r: u8)
        ensures
            old(self).covers(addr) ==> r == old(self).read_spec(addr),
            *final(self) == *old(self),
    {
        self.peek(addr)
    }

    fn mem_write(&mut self, addr: u16, data: u8)
        ensures
            *final(self) == *old(self),
    {
    }

    fn peek(&self, addr: u16) -> (r: u8)
        ensures
            self.covers(addr) ==> r == self.read_spec(addr),
    {
        if addr < 0x8000 {
            0
        } else if self.num_banks == 1 {
            let off = addr as usize - 0x8000;
            proof { assert((off & 0x3FFFusize) == off % 0x4000) by (bit_vector); }
            self.prg_rom[off & 0x3FFF]
        } else {
            self.prg_rom[addr as usize - 0x8000]
        }
    }
}

/// The devices of the CPU address space, in lookup order: RAM, PPU
/// registers, APU registers, SRAM (only with a trainer or battery RAM), PRG ROM.
pub struct MemoryHandlers {
    pub ram: RAM,
    pub ppu_regs: PPU_Regs,
    pub apu_regs: APU_Regs,
    pub sram: Option<SRAM>,
    pub prg_rom: PRG_ROM,
}

/// Maps the memory devices into the CPU's address space for the inserted
/// cartridge: zeroed RAM, the given PPU, the APU registers, SRAM when the
/// cartridge has a trainer or SRAM, and its PRG ROM, whose bank count is the
/// ROM size in 16 KiB units (kept to 8 bits).
pub fn memory_map(ppu: PPU, cartridge: &Cartridge) -> (h: MemoryHandlers)
    ensures
        forall|i: int| 0 <= i < 0x802 ==> h.ram.ram@[i] == 0,
        !h.ram.oam_dma_running,
        h.ppu_regs.ppu == ppu,
        h.sram is Some <==> (cartridge.has_trainer || cartridge.has_sram),
        h.sram matches Some(s) ==> s.sram@ == cartridge.sram@,
        h.prg_rom.prg_rom@ == cartridge.prg_rom@,
        h.prg_rom.num_banks == (cartridge.prg_rom@.len() / 0x4000) % 256,
        h.prg_rom.wf(),
{
    let sram = if cartridge.has_trainer || cartridge.has_sram {
        let s = cartridge.sram.clone();
        proof { assert(s@ =~= cartridge.sram@); }
        Some(SRAM { sram: s })
    } else {
        None
    };
    let prg_rom = cartridge.prg_rom.clone();
    proof { assert(prg_rom@ =~= cartridge.prg_rom@); }
    let num_banks = ((prg_rom.len() / 0x4000) % 256) as u8;
    MemoryHandlers {
        ram: RAM { ram: [0; 0x0802], oam_dma_running: false },
        ppu_regs: PPU_Regs { ppu },
        apu_regs: APU_Regs { apu_regs: [0; 0x0020] },
        sram,
        prg_rom: PRG_ROM { prg_rom, num_banks },
    }
}

} // verus!
