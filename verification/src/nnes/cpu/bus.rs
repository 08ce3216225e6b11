//! The CPU memory bus: address decoding over the mapped devices, with the
//! last value transferred kept as the open-bus value.
pub mod devices;

use crate::cartridge::Cartridge;
use crate::controller::Joypad;
use crate::nnes::ppu::PPU;
use devices::{memory_map, MemoryHandlers, PPU_Regs, RAM};
use vstd::prelude::*;

verus! {

/// A device on the CPU bus: the addresses it answers, and reads, writes and
/// side-effect-free peeks at them. `read_ok`, `write_ok` and `peek_ok` tell
/// which accesses the device supports.
pub trait BusDevice {
    spec fn covers(&self, addr: u16) -> bool;

    spec fn read_ok(&self, addr: u16) -> bool;

    spec fn write_ok(&self, addr: u16) -> bool;

    spec fn peek_ok(&self, addr: u16) -> bool;

    fn contains(&self, addr: u16) -> (b: bool)
        ensures
            b == self.covers(addr);

    fn mem_read(&mut self, addr: u16) -> u8
        requires
            old(self).read_ok(addr);

    fn mem_write(&mut self, addr: u16, data: u8)
        requires
            old(self).write_ok(addr);

    fn peek(&self, addr: u16) -> u8
        requires
            self.peek_ok(addr);

    fn oam_dma_pending(&self) -> bool {
        false
    }

    fn oam_dma_start(&mut self) {
    }

    fn oam_dma_running(&self) -> bool {
        false
    }

    fn oam_dma_finish(&mut self) {
    }

    fn ppu_debug_cycle(&self) -> Option<u16> {
        None
    }

    fn get_joypad_ref(&mut self) -> Option<&mut Joypad> {
        None
    }

    fn ppu_debug_scanline(&self) -> Option<u16> {
        None
    }
}

/// The CPU bus: the mapped devices and the open-bus latch.
pub struct Bus {
    pub memory_handlers: MemoryHandlers,
    pub open_bus: u8,
}

impl Bus {
    /// The PPU behind the register window.
    pub open spec fn ppu(self) -> PPU {
        self.memory_handlers.ppu_regs.ppu
    }

    /// Structural invariant: the PPU keeps its invariant and PRG ROM is as
    /// large as its bank count says.
    #[verifier::opaque]
    pub open spec fn wf(&self) -> bool {
        self.memory_handlers.ppu_regs.ppu.inv() && self.memory_handlers.prg_rom.wf()
    }

    /// PRG ROM has a bank count the mapping supports (one or two).
    pub open spec fn prg_ok(&self) -> bool {
        self.memory_handlers.prg_rom.num_banks == 1 || self.memory_handlers.prg_rom.num_banks == 2
    }

    /// SRAM is mapped and `addr` is in its window.
    pub open spec fn in_sram(&self, addr: u16) -> bool {
        self.memory_handlers.sram is Some && 0x6000 <= addr < 0x8000
    }

    /// `addr` is PPUDATA (0x2007 or one of its mirrors), which reads or
    /// writes PPU memory.
    pub open spec fn is_ppu_data(addr: u16) -> bool {
        0x2000 <= addr < 0x4000 && addr % 8 == 7
    }

    /// A CPU read of `addr` is supported: not the write-only DMA port, not
    /// SRAM, not PRG ROM with an unsupported bank count, and not PPUDATA
    /// while PPU memory has unreachable addresses.
    pub open spec fn read_ok(&self, addr: u16) -> bool {
        &&& addr != 0x4014
        &&& !self.in_sram(addr)
        &&& addr >= 0x8000 ==> self.prg_ok()
        &&& Self::is_ppu_data(addr) ==> self.memory_handlers.ppu_regs.ppu.memory_ok()
    }

    /// A CPU write of `addr` is supported: anywhere but SRAM, and not
    /// PPUDATA while PPU memory has unreachable addresses.
    pub open spec fn write_ok(&self, addr: u16) -> bool {
        &&& !self.in_sram(addr)
        &&& Self::is_ppu_data(addr) ==> self.memory_handlers.ppu_regs.ppu.memory_ok()
    }

    /// A peek of `addr` is supported: not SRAM, nor PRG ROM with an
    /// unsupported bank count.
    pub open spec fn peek_ok(&self, addr: u16) -> bool {
        &&& !self.in_sram(addr)
        &&& addr >= 0x8000 ==> self.prg_ok()
    }

    /// The value a CPU read of `addr` yields and the bus after it: RAM
    /// (mirrored), a PPU register (address modulo 8, with its side
    /// effects), 0 from the APU registers, PRG ROM; an unmapped address
    /// gives the open-bus value. A mapped read leaves its value on the open bus.
    #[verifier::opaque]
    pub open spec fn read_spec(self, addr: u16) -> (u8, Bus) {
        let h = self.memory_handlers;
        if addr < 0x2000 || addr == 0x4014 {
            let v = h.ram.ram@[addr as int % 0x800];
            (v, Bus { open_bus: v, ..self })
        } else if addr < 0x4000 {
            let (v, p) = h.ppu_regs.ppu.reg_read_spec((addr % 8) as u8);
            (v, Bus { memory_handlers: MemoryHandlers { ppu_regs: PPU_Regs { ppu: p }, ..h }, open_bus: v })
        } else if addr < 0x4020 {
            (0, Bus { open_bus: 0, ..self })
        } else if addr < 0x8000 {
            (self.open_bus, self)
        } else {
            let v = h.prg_rom.read_spec(addr);
            (v, Bus { open_bus: v, ..self })
        }
    }

    /// The bus after a CPU write of `data` to `addr`: RAM or the DMA port, a
    /// PPU register (address modulo 8); APU and ROM ignore writes. A mapped
    /// write leaves `data` on the open bus.
    #[verifier::opaque]
    pub open spec fn write_spec(self, addr: u16, data: u8) -> Bus {
        let h = self.memory_handlers;
        if addr < 0x2000 || addr == 0x4014 {
            Bus { memory_handlers: MemoryHandlers { ram: h.ram.write_spec(addr, data), ..h }, open_bus: data }
        } else if addr < 0x4000 {
            let p = h.ppu_regs.ppu.reg_write_spec((addr % 8) as u8, data);
            Bus { memory_handlers: MemoryHandlers { ppu_regs: PPU_Regs { ppu: p }, ..h }, open_bus: data }
        } else if addr < 0x4020 {
            Bus { open_bus: data, ..self }
        } else if addr < 0x8000 {
            self
        } else {
            Bus { open_bus: data, ..self }
        }
    }

    /// What a peek at `addr` sees: RAM (0x4014: the latched DMA page), 0 for
    /// the PPU and APU registers, PRG ROM, else the open-bus value.
    pub open spec fn peek_spec(self, addr: u16) -> u8 {
        let h = self.memory_handlers;
        if addr < 0x2000 || addr == 0x4014 {
            h.ram.peek_spec(addr)
        } else if addr < 0x4020 {
            0
        } else if addr < 0x8000 {
            self.open_bus
        } else {
            h.prg_rom.read_spec(addr)
        }
    }

    /// A bus for the given PPU and cartridge, open bus 0; well formed when
    /// the PPU keeps its invariant.
    pub fn new(ppu: PPU, cartridge: &Cartridge) -> (b: Self)
        ensures
            ppu.inv() ==> b.wf(),
            b.open_bus == 0,
            b.ppu() == ppu,
            forall|i: int| 0 <= i < 0x802 ==> b.memory_handlers.ram.ram@[i] == 0,
            !b.memory_handlers.ram.oam_dma_running,
            b.memory_handlers.sram is Some <==> (cartridge.has_trainer || cartridge.has_sram),
            b.memory_handlers.sram matches Some(s) ==> s.sram@ == cartridge.sram@,
            b.memory_handlers.prg_rom.prg_rom@ == cartridge.prg_rom@,
            b.memory_handlers.prg_rom.num_banks == (cartridge.prg_rom@.len() / 0x4000) % 256,
    {
        proof {
            reveal(Bus::wf);
        }
        let memory_handlers = memory_map(ppu, cartridge);
        Bus { memory_handlers, open_bus: 0 }
    }

    /// Reads `addr` through the first device that answers it.
    pub fn mem_read(&mut self, addr: u16) -> (r: u8)
        requires
            old(self).wf(),
            old(self).read_ok(addr),
        ensures
            final(self).wf(),
            (r, *final(self)) == old(self).read_spec(addr),
            final(self).memory_handlers.sram == old(self).memory_handlers.sram,
            final(self).memory_handlers.prg_rom == old(self).memory_handlers.prg_rom,
    {
        proof {
            reveal(Bus::wf);
            reveal(Bus::read_spec);
        }
        if self.memory_handlers.ram.contains(addr) {
            let v = self.memory_handlers.ram.mem_read(addr);
            proof {
                assert((addr & 0x07FFu16) == addr % 0x800) by (bit_vector);
            }
            self.open_bus = v;
            return v;
        }
        if self.memory_handlers.ppu_regs.contains(addr) {
            let v = self.memory_handlers.ppu_regs.mem_read(addr);
            self.open_bus = v;
            return v;
        }
        if self.memory_handlers.apu_regs.contains(addr) {
            let v = self.memory_handlers.apu_regs.mem_read(addr);
            self.open_bus = v;
            return v;
        }
        if self.memory_handlers.prg_rom.contains(addr) {
            let v = self.memory_handlers.prg_rom.mem_read(addr);
            self.open_bus = v;
            return v;
        }
        self.open_bus
    }

    /// Writes `data` to `addr` through the first device that answers it.
    pub fn mem_write(&mut self, addr: u16, data: u8)
        requires
            old(self).wf(),
            old(self).write_ok(addr),
        ensures
            final(self).wf(),
            *final(self) == old(self).write_spec(addr, data),
            final(self).memory_handlers.sram == old(self).memory_handlers.sram,
            final(self).memory_handlers.prg_rom == old(self).memory_handlers.prg_rom,
    {
        proof {
            reveal(Bus::wf);
            reveal(Bus::write_spec);
        }
        if self.memory_handlers.ram.contains(addr) {
            self.memory_handlers.ram.mem_write(addr, data);
            self.open_bus = data;
            return;
        }
        if self.memory_handlers.ppu_regs.contains(addr) {
            self.memory_handlers.ppu_regs.mem_write(addr, data);
            self.open_bus = data;
            return;
        }
        if self.memory_handlers.apu_regs.contains(addr) {
            self.memory_handlers.apu_regs.mem_write(addr, data);
            self.open_bus = data;
            return;
        }
        if self.memory_handlers.prg_rom.contains(addr) {
            self.memory_handlers.prg_rom.mem_write(addr, data);
            self.open_bus = data;
            return;
        }
    }

    /// Looks at `addr` without side effects.
    pub fn peek(&self, addr: u16) -> (r: u8)
        requires
            self.wf(),
            self.peek_ok(addr),
        ensures
            r == self.peek_spec(addr),
    {
        proof {
            reveal(Bus::wf);
        }
        if self.memory_handlers.ram.contains(addr) {
            return self.memory_handlers.ram.peek(addr);
        }
        if self.memory_handlers.ppu_regs.contains(addr) {
            return self.memory_handlers.ppu_regs.peek(addr);
        }
        if self.memory_handlers.apu_regs.contains(addr) {
            return self.memory_handlers.apu_regs.peek(addr);
        }
        if self.memory_handlers.prg_rom.contains(addr) {
            return self.memory_handlers.prg_rom.peek(addr);
        }
        self.open_bus
    }

    /// Whether the bus supports a CPU read of `addr` (see [`Self::read_ok`]).
    pub fn can_read(&self, addr: u16) -> (b: bool)
        ensures
            b == self.read_ok(addr),
    {
        let banks = self.memory_handlers.prg_rom.num_banks;
        let ppu_data = 0x2000 <= addr && addr < 0x4000 && addr % 8 == 7;
        addr != 0x4014 && !(self.memory_handlers.sram.is_some() && 0x6000 <= addr && addr < 0x8000)
            && (addr < 0x8000 || banks == 1 || banks == 2) && (!ppu_data
            || self.memory_handlers.ppu_regs.ppu.has_memory())
    }

    /// Whether the bus supports a CPU write of `addr` (see [`Self::write_ok`]).
    pub fn can_write(&self, addr: u16) -> (b: bool)
        ensures
            b == self.write_ok(addr),
    {
        let ppu_data = 0x2000 <= addr && addr < 0x4000 && addr % 8 == 7;
        !(self.memory_handlers.sram.is_some() && 0x6000 <= addr && addr < 0x8000) && (!ppu_data
            || self.memory_handlers.ppu_regs.ppu.has_memory())
    }

    /// The byte a CPU read of `addr` would return, without the read's side
    /// effects on the devices or the open bus.
    pub fn read_value(&self, addr: u16) -> (r: u8)
        requires
            self.wf(),
            self.read_ok(addr),
        ensures
            r == self.read_spec(addr).0,
    {
        proof {
            reveal(Bus::wf);
            reveal(Bus::read_spec);
        }
        if addr < 0x2000 {
            self.memory_handlers.ram.peek(addr)
        } else if addr < 0x4000 {
            self.memory_handlers.ppu_regs.ppu.reg_peek((addr % 8) as u8)
        } else if addr < 0x4020 {
            0
        } else if addr < 0x8000 {
            self.open_bus
        } else {
            self.memory_handlers.prg_rom.peek(addr)
        }
    }

    /// The bus after an OAM DMA start: the DMA latch cleared and the
    /// transfer marked running.
    pub open spec fn dma_started(self) -> Bus {
        Bus {
            memory_handlers: MemoryHandlers {
                ram: RAM {
                    ram: vstd::array::spec_array_update(
                        vstd::array::spec_array_update(self.memory_handlers.ram.ram, 0x800, 0u8), 0x801, 0u8),
                    oam_dma_running: true,
                },
                ..self.memory_handlers
            },
            ..self
        }
    }

    /// The controller behind 0x4016, if the device there exposes one; the
    /// APU/IO registers do not, so there is none.
    pub fn get_joypad_ref(&mut self) -> (r: Option<&mut Joypad>)
        ensures
            r is None,
            *final(self) == *old(self),
    {
        None
    }

    /// An OAM DMA was requested: the DMA port latched its marker.
    pub fn oam_dma_pending(&self) -> (b: bool)
        ensures
            b == (self.memory_handlers.ram.ram@[0x800] == 42),
    {
        self.memory_handlers.ram.oam_dma_pending()
    }

    /// Starts the OAM DMA: clears the DMA latch and marks the transfer running.
    pub fn oam_dma_start(&mut self)
        requires
            old(self).wf(),
        ensures
            final(self).wf(),
            *final(self) == old(self).dma_started(),
    {
        proof {
            reveal(Bus::wf);
        }
        self.memory_handlers.ram.oam_dma_start();
    }

    /// An OAM DMA transfer is in progress.
    pub fn oam_dma_running(&self) -> (b: bool)
        ensures
            b == self.memory_handlers.ram.oam_dma_running,
    {
        self.memory_handlers.ram.oam_dma_running()
    }

    /// Ends the OAM DMA transfer.
    pub fn oam_dma_finish(&mut self)
        requires
            old(self).wf(),
        ensures
            final(self).wf(),
            *final(self) == (Bus {
                memory_handlers: MemoryHandlers {
                    ram: RAM { oam_dma_running: false, ..old(self).memory_handlers.ram },
                    ..old(self).memory_handlers
                },
                ..*old(self)
            }),
    {
        proof {
            reveal(Bus::wf);
        }
        self.memory_handlers.ram.oam_dma_finish();
    }

    /// Takes the PPU's pending NMI signal, clearing it.
    pub fn take_nmi(&mut self) -> (fired: bool)
        requires
            old(self).wf(),
        ensures
            final(self).wf(),
            fired == old(self).ppu().nmi_signal,
            *final(self) == old(self).with_ppu(PPU { nmi_signal: false, ..old(self).ppu() }),
    {
        proof {
            reveal(Bus::wf);
        }
        let fired = self.memory_handlers.ppu_regs.ppu.nmi_signal;
        self.memory_handlers.ppu_regs.ppu.nmi_signal = false;
        fired
    }

    /// Clears the 2 KiB of internal RAM (the DMA latch is kept).
    pub fn clear_ram(&mut self)
        requires
            old(self).wf(),
        ensures
            final(self).wf(),
            forall|i: int| 0 <= i < 0x800 ==> final(self).memory_handlers.ram.ram@[i] == 0,
            final(self).memory_handlers.ram.ram@[0x800] == old(self).memory_handlers.ram.ram@[0x800],
            final(self).memory_handlers.ram.ram@[0x801] == old(self).memory_handlers.ram.ram@[0x801],
            final(self).memory_handlers.ram.oam_dma_running == old(self).memory_handlers.ram.oam_dma_running,
            final(self).memory_handlers.ppu_regs == old(self).memory_handlers.ppu_regs,
            final(self).memory_handlers.apu_regs == old(self).memory_handlers.apu_regs,
            final(self).memory_handlers.sram == old(self).memory_handlers.sram,
            final(self).memory_handlers.prg_rom == old(self).memory_handlers.prg_rom,
            final(self).open_bus == old(self).open_bus,
    {
        proof {
            reveal(Bus::wf);
        }
        let mut i: usize = 0;
        while i < 0x800
            invariant
                i <= 0x800,
                self.wf(),
                forall|j: int| 0 <= j < i ==> self.memory_handlers.ram.ram@[j] == 0,
                self.memory_handlers.ram.ram@[0x800] == old(self).memory_handlers.ram.ram@[0x800],
                self.memory_handlers.ram.ram@[0x801] == old(self).memory_handlers.ram.ram@[0x801],
                self.memory_handlers.ram.oam_dma_running == old(self).memory_handlers.ram.oam_dma_running,
                self.memory_handlers.ppu_regs == old(self).memory_handlers.ppu_regs,
                self.memory_handlers.apu_regs == old(self).memory_handlers.apu_regs,
                self.memory_handlers.sram == old(self).memory_handlers.sram,
                self.memory_handlers.prg_rom == old(self).memory_handlers.prg_rom,
                self.open_bus == old(self).open_bus,
            decreases 0x800 - i,
        {
            proof {
                reveal(Bus::wf);
            }
            self.memory_handlers.ram.ram[i] = 0;
            i = i + 1;
        }
    }

    /// The bus with the PPU behind the register window replaced by `p`.
    pub open spec fn with_ppu(self, p: PPU) -> Bus {
        Bus { memory_handlers: MemoryHandlers { ppu_regs: PPU_Regs { ppu: p }, ..self.memory_handlers }, ..self }
    }

    /// The PPU behind the register window.
    pub fn ppu_ref(&self) -> (p: &PPU)
        ensures
            *p == self.ppu(),
    {
        &self.memory_handlers.ppu_regs.ppu
    }

    /// Whether the PPU can run its next dot (see [`PPU::tick_ok`]) and its
    /// dot counter has room.
    pub fn ppu_can_tick(&self) -> (b: bool)
        ensures
            b == (self.ppu().tick_ok() && self.ppu().total_cycles < u64::MAX),
    {
        self.memory_handlers.ppu_regs.ppu.can_tick() && self.memory_handlers.ppu_regs.ppu.total_cycles < u64::MAX
    }

    /// Advances the PPU by one dot.
    pub fn tick_ppu(&mut self)
        requires
            old(self).wf(),
            old(self).ppu().tick_ok(),
            old(self).ppu().total_cycles < u64::MAX,
        ensures
            final(self).wf(),
            *final(self) == old(self).with_ppu(old(self).ppu().tick_spec()),
    {
        proof {
            reveal(Bus::wf);
        }
        self.memory_handlers.ppu_regs.ppu.tick();
    }

    /// Resets the PPU (dot 0 of the pre-render line).
    pub fn reset_ppu(&mut self)
        requires
            old(self).wf(),
        ensures
            final(self).wf(),
            *final(self) == old(self).with_ppu(PPU { cycle: 0, scanline: 261, ..old(self).ppu() }),
    {
        proof {
            reveal(Bus::wf);
        }
        self.memory_handlers.ppu_regs.ppu.reset();
    }
}

/// Reading any address but the DMA port sees the same byte, with the same
/// support, before and after an OAM DMA start.
pub proof fn lemma_dma_keeps_reads(b: Bus, addr: u16)
    requires
        b.wf(),
        addr != 0x4014,
    ensures
        b.dma_started().wf(),
        b.dma_started().read_ok(addr) == b.read_ok(addr),
        b.dma_started().write_ok(addr) == b.write_ok(addr),
        b.dma_started().read_spec(addr).0 == b.read_spec(addr).0,
{
    reveal(Bus::wf);
    reveal(Bus::read_spec);
    if addr < 0x2000 {
        assert(addr as int % 0x800 < 0x800);
    }
}

/// A well-formed bus holds a PPU that keeps its invariant.
pub proof fn lemma_wf_ppu(b: Bus)
    requires
        b.wf(),
    ensures
        b.ppu().inv(),
{
    reveal(Bus::wf);
}

} // verus!
