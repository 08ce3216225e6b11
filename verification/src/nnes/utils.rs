//! Whole-console register reset.
use super::console::NNES;
use super::cpu::cycle::{lemma_inv_bus, lemma_inv_bus_swap};
use super::cpu::CPU;
use vstd::prelude::*;

verus! {

impl NNES {
    /// Clears pc, sp, the data registers, the status register and internal RAM.
    pub fn reset_nnes(&mut self)
        requires
            old(self).inv(),
        ensures
            final(self).inv(),
            final(self).cpu == (CPU { pc: 0, sp: 0, a: 0, x: 0, y: 0, p: 0, bus: final(self).cpu.bus, ..old(self).cpu }),
            final(self).master_clock == old(self).master_clock,
            forall|i: int| 0 <= i < 0x800 ==> final(self).cpu.bus.memory_handlers.ram.ram@[i] == 0,
            final(self).cpu.bus.memory_handlers.ram.ram@[0x800] == old(self).cpu.bus.memory_handlers.ram.ram@[0x800],
            final(self).cpu.bus.memory_handlers.ram.ram@[0x801] == old(self).cpu.bus.memory_handlers.ram.ram@[0x801],
            final(self).cpu.bus.memory_handlers.ram.oam_dma_running == old(self).cpu.bus.memory_handlers.ram.oam_dma_running,
            final(self).cpu.bus.memory_handlers.ppu_regs == old(self).cpu.bus.memory_handlers.ppu_regs,
            final(self).cpu.bus.memory_handlers.apu_regs == old(self).cpu.bus.memory_handlers.apu_regs,
            final(self).cpu.bus.memory_handlers.sram == old(self).cpu.bus.memory_handlers.sram,
            final(self).cpu.bus.memory_handlers.prg_rom == old(self).cpu.bus.memory_handlers.prg_rom,
            final(self).cpu.bus.open_bus == old(self).cpu.bus.open_bus,
    {
        self.set_program_counter(0);
        self.set_stack_pointer(0);
        self.reset_registers();
        self.reset_flags();
        self.reset_memory();
    }

    /// Clears internal RAM.
    fn reset_memory(&mut self)
        requires
            old(self).inv(),
        ensures
            final(self).inv(),
            final(self).cpu == (CPU { bus: final(self).cpu.bus, ..old(self).cpu }),
            final(self).master_clock == old(self).master_clock,
            forall|i: int| 0 <= i < 0x800 ==> final(self).cpu.bus.memory_handlers.ram.ram@[i] == 0,
            final(self).cpu.bus.memory_handlers.ram.ram@[0x800] == old(self).cpu.bus.memory_handlers.ram.ram@[0x800],
            final(self).cpu.bus.memory_handlers.ram.ram@[0x801] == old(self).cpu.bus.memory_handlers.ram.ram@[0x801],
            final(self).cpu.bus.memory_handlers.ram.oam_dma_running == old(self).cpu.bus.memory_handlers.ram.oam_dma_running,
            final(self).cpu.bus.memory_handlers.ppu_regs == old(self).cpu.bus.memory_handlers.ppu_regs,
            final(self).cpu.bus.memory_handlers.apu_regs == old(self).cpu.bus.memory_handlers.apu_regs,
            final(self).cpu.bus.memory_handlers.sram == old(self).cpu.bus.memory_handlers.sram,
            final(self).cpu.bus.memory_handlers.prg_rom == old(self).cpu.bus.memory_handlers.prg_rom,
            final(self).cpu.bus.open_bus == old(self).cpu.bus.open_bus,
    {
        proof {
            lemma_inv_bus(self.cpu);
        }
        self.cpu.bus.clear_ram();
        proof {
            lemma_inv_bus_swap(old(self).cpu, self.cpu.bus);
        }
    }
}

} // verus!
