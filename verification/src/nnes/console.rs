//! The console: the CPU (which owns the memory bus and, through it, the
//! PPU), clocked from one master clock.
use crate::cartridge::{Cartridge, Mirroring};
use super::cpu::bus::Bus;
use super::cpu::cycle::{lemma_inv_bus, lemma_inv_bus_swap};
use super::cpu::{CPUState, CPU, UNUSED};
use super::ppu::PPU;
use vstd::prelude::*;

verus! {

/// The console: the master clock and the CPU, whose bus holds the PPU.
pub struct NNES {
    pub master_clock: u64,
    pub cpu: CPU,
}

impl NNES {
    /// The console's invariant: the CPU's.
    pub open spec fn inv(self) -> bool {
        self.cpu.inv()
    }

    /// The CPU after the PPU's NMI signal is delivered to it: a raised
    /// signal is cleared and makes the NMI pending.
    pub open spec fn nmi_delivered(cpu: CPU) -> CPU {
        CPU {
            bus: cpu.bus.with_ppu(PPU { nmi_signal: false, ..cpu.bus.ppu() }),
            nmi_pending: cpu.nmi_pending || cpu.bus.ppu().nmi_signal,
            ..cpu
        }
    }

    /// The PPU's share of a master tick: one dot every fourth tick, its
    /// NMI then delivered to the CPU.
    pub open spec fn ppu_phase(self) -> NNES {
        if self.master_clock % 4 == 0 {
            let cpu = CPU { bus: self.cpu.bus.with_ppu(self.cpu.bus.ppu().tick_spec()), ..self.cpu };
            NNES { cpu: Self::nmi_delivered(cpu), ..self }
        } else {
            self
        }
    }

    /// The CPU's share of a master tick: one cycle every twelfth tick, an
    /// NMI its register accesses raised then delivered. Also tells whether
    /// the cycle started an OAM DMA.
    pub open spec fn cpu_phase(self) -> (bool, NNES) {
        if self.master_clock % 12 == 0 {
            let (notice, cpu) = self.cpu.tick_spec();
            (notice, NNES { cpu: Self::nmi_delivered(cpu), ..self })
        } else {
            (false, self)
        }
    }

    /// One master tick: the PPU's share, the CPU's share, then the master
    /// clock moves on (wrapping).
    pub open spec fn tick_spec(self) -> (bool, NNES) {
        let (notice, n) = self.ppu_phase().cpu_phase();
        (notice, NNES { master_clock: vstd::wrapping::u64_specs::wrapping_add(self.master_clock, 1), ..n })
    }

    /// The PPU can run the dot this tick owes it.
    pub open spec fn ppu_phase_ok(self) -> bool {
        self.master_clock % 4 == 0 ==> (self.cpu.bus.ppu().tick_ok() && self.cpu.bus.ppu().total_cycles < u64::MAX)
    }

    /// Both the PPU and, after it, the CPU can run what this tick owes them.
    pub open spec fn tick_ok(self) -> bool {
        &&& self.ppu_phase_ok()
        &&& self.master_clock % 12 == 0 ==> self.ppu_phase().cpu.tick_ok()
    }

    /// A console for the cartridge: the PPU over its CHR memory, the bus
    /// over its PRG ROM, the CPU waiting to be reset, master clock 0. Its
    /// PPU memory is reachable throughout when the cartridge fills the
    /// pattern-table window and its mirroring is one the PPU implements.
    pub fn new(cartridge: Cartridge) -> (n: Self)
        ensures
            n.inv(),
            n.cpu.bus.ppu().memory_ok() <==> (cartridge.chr_rom@.len() >= 0x2000 && cartridge.mirroring
                != Mirroring::ALTERNATIVE),
            n.master_clock == 0,
            n.cpu.pc == 0 && n.cpu.sp == 0 && n.cpu.a == 0 && n.cpu.x == 0 && n.cpu.y == 0,
            n.cpu.p == UNUSED,
            n.cpu.state == CPUState::Fetch,
            n.cpu.ins is None,
            !n.cpu.nmi_pending && !n.cpu.irq_pending,
            n.cpu.total_ticks == 0,
            n.cpu.servicing_interrupt && !n.cpu.software_interrupt && !n.cpu.hijacked,
            n.cpu.curr_ins_ticks == 0 && n.cpu.required_ins_ticks == 0,
            n.cpu.bus.open_bus == 0,
            forall|i: int| 0 <= i < 0x802 ==> n.cpu.bus.memory_handlers.ram.ram@[i] == 0,
            !n.cpu.bus.memory_handlers.ram.oam_dma_running,
            n.cpu.bus.memory_handlers.sram is Some <==> (cartridge.has_trainer || cartridge.has_sram),
            n.cpu.bus.memory_handlers.prg_rom.prg_rom@ == cartridge.prg_rom@,
            n.cpu.bus.memory_handlers.prg_rom.num_banks == (cartridge.prg_rom@.len() / 0x4000) % 256,
            n.cpu.bus.ppu().chr_size == cartridge.chr_rom@.len(),
            forall|i: int|
                0 <= i < 0x2000 ==> n.cpu.bus.ppu().chr_rom@[i] == if i < cartridge.chr_rom@.len() {
                    cartridge.chr_rom@[i]
                } else {
                    0
                },
            n.cpu.bus.ppu().mirroring == cartridge.mirroring,
            n.cpu.bus.ppu().v == 0 && n.cpu.bus.ppu().t == 0 && n.cpu.bus.ppu().x == 0,
            n.cpu.bus.ppu().w == 0 && n.cpu.bus.ppu().f == 0,
            n.cpu.bus.ppu().cycle == 0 && n.cpu.bus.ppu().scanline == 0,
            n.cpu.bus.ppu().ppu_ctrl == 0 && n.cpu.bus.ppu().ppu_mask == 0 && n.cpu.bus.ppu().ppu_status == 0,
            forall|i: int| 0 <= i < 0x800 ==> n.cpu.bus.ppu().vram@[i] == 0,
            forall|i: int| 0 <= i < 0x20 ==> n.cpu.bus.ppu().palette@[i] == 0,
            forall|i: int| 0 <= i < 256 ==> n.cpu.bus.ppu().oam@[i] == 0,
            forall|i: int| 0 <= i < 61440 ==> n.cpu.bus.ppu().front@[i] == 0 && n.cpu.bus.ppu().back@[i] == 0,
            !n.cpu.bus.ppu().nmi_signal && !n.cpu.bus.ppu().nmi_prev,
            n.cpu.bus.ppu().total_cycles == 0 && n.cpu.bus.ppu().total_scanlines == 0,
            n.cpu.bus.ppu().total_frames == 0,
    {
        let ppu = PPU::new(&cartridge);
        let bus = Bus::new(ppu, &cartridge);
        let cpu = CPU::new(bus);
        NNES { master_clock: 0, cpu }
    }

    /// Resets the PPU, then the CPU.
    pub fn reset(&mut self)
        requires
            old(self).inv(),
            old(self).cpu.bus.prg_ok(),
        ensures
            final(self).inv(),
            *final(self) == (NNES {
                cpu: (CPU {
                    bus: old(self).cpu.bus.with_ppu(PPU { cycle: 0, scanline: 261, ..old(self).cpu.bus.ppu() }),
                    ..old(self).cpu
                }).reset_spec(),
                ..*old(self)
            }),
    {
        proof {
            lemma_inv_bus(self.cpu);
        }
        self.cpu.bus.reset_ppu();
        proof {
            lemma_inv_bus_swap(old(self).cpu, self.cpu.bus);
        }
        self.cpu.reset();
    }

    /// The PPU behind the CPU's bus.
    pub fn ppu(&self) -> (p: &PPU)
        ensures
            *p == self.cpu.bus.ppu(),
    {
        self.cpu.bus.ppu_ref()
    }

    fn deliver_nmi(&mut self)
        requires
            old(self).inv(),
        ensures
            final(self).inv(),
            *final(self) == (NNES { cpu: Self::nmi_delivered(old(self).cpu), ..*old(self) }),
    {
        proof {
            lemma_inv_bus(self.cpu);
        }
        if self.cpu.bus.take_nmi() {
            self.cpu.nmi_pending = true;
        }
        proof {
            reveal(CPU::inv);
        }
    }

    fn run_ppu_phase(&mut self)
        requires
            old(self).inv(),
            old(self).master_clock % 4 == 0,
            old(self).ppu_phase_ok(),
        ensures
            final(self).inv(),
            *final(self) == old(self).ppu_phase(),
    {
        proof {
            lemma_inv_bus(self.cpu);
        }
        self.cpu.bus.tick_ppu();
        proof {
            lemma_inv_bus_swap(old(self).cpu, self.cpu.bus);
        }
        self.deliver_nmi();
    }

    fn run_cpu_phase(&mut self) -> (dma_notice: bool)
        requires
            old(self).inv(),
            old(self).master_clock % 12 == 0,
            old(self).cpu.tick_ok(),
        ensures
            final(self).inv(),
            (dma_notice, *final(self)) == old(self).cpu_phase(),
    {
        let dma_notice = self.cpu.tick();
        self.deliver_nmi();
        dma_notice
    }

    /// Runs one master tick where both chips can run their share; where
    /// one cannot, stops there and returns `None`: untouched when the PPU
    /// cannot run its dot, after the PPU's share when the CPU cannot run
    /// its cycle. Otherwise returns whether the CPU started an OAM DMA.
    pub fn try_tick(&mut self) -> (r: Option<bool>)
        requires
            old(self).inv(),
        ensures
            final(self).inv(),
            r is Some <==> old(self).tick_ok(),
            r matches Some(notice) ==> (notice, *final(self)) == old(self).tick_spec(),
            r is None ==> *final(self) == (if old(self).ppu_phase_ok() { old(self).ppu_phase() } else { *old(self) }),
    {
        // PPU runs at master/4
        if self.master_clock % 4 == 0 {
            if !self.cpu.bus.ppu_can_tick() {
                return None;
            }
            self.run_ppu_phase();
        }
        assert(*self == old(self).ppu_phase());
        // CPU runs at master/12
        let mut dma_notice = false;
        if self.master_clock % 12 == 0 {
            if !self.cpu.can_tick() {
                return None;
            }
            dma_notice = self.run_cpu_phase();
        }
        self.master_clock = self.master_clock.wrapping_add(1);
        Some(dma_notice)
    }

    /// Runs one master tick (see [`Self::tick_spec`]). Returns whether the
    /// CPU started an OAM DMA.
    pub fn tick(&mut self) -> (dma_notice: bool)
        requires
            old(self).inv(),
            old(self).tick_ok(),
        ensures
            final(self).inv(),
            (dma_notice, *final(self)) == old(self).tick_spec(),
    {
        let r = self.try_tick();
        r.unwrap()
    }
}

} // verus!
