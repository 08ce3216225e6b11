//! The cycle state machine: fetch, decode, execute and the interrupt
//! sequence, one CPU cycle per tick, with interrupt and hijack polling.
use super::bus::{lemma_dma_keeps_reads, Bus};
use super::opcodes::{lemma_brk_entry, lemma_opcode_table, opcode_spec, opcodes_list, DecodeFn, ExecuteFn};
use super::{
    le_word, max_int, Access, CPUState, CPU, INTERRUPT_DISABLE, IRQ_VECTOR, NMI_VECTOR, RESET_CYCLES, RESET_FLAGS,
    RESET_SP, RESET_VECTOR,
};
use vstd::prelude::*;


verus! {

/// What a decode step leaves alone, and how it moves the cycle accounting:
/// the required count grows by at most the one extra cycle, an unfinished
/// step leaves a further subcycle, and a step past the base length owes
/// that extra cycle.
pub proof fn lemma_decode_step(c: CPU, s: u8)
    requires
        c.ready(),
        c.op().decode_fn is Some,
        s < c.op().decode_cycles_max(),
        c.required_ins_ticks < 255,
    ensures
        ({
            let (done, c2) = c.decode_spec(c.op().decode_fn->Some_0, s);
            &&& c2.ins == c.ins
            &&& c2.state == c.state
            &&& c2.curr_ins_ticks == c.curr_ins_ticks
            &&& c2.total_ticks == c.total_ticks
            &&& c2.store.vector == c.store.vector
            &&& c2.servicing_interrupt == c.servicing_interrupt
            &&& c.required_ins_ticks <= c2.required_ins_ticks <= c.required_ins_ticks + 1
            &&& !done ==> s + 1 < c.op().decode_cycles_max()
            &&& (!done && s + 1 >= c.op().decode_cycles()) ==> c2.required_ins_ticks == c.required_ins_ticks + 1
            &&& (!done && s + 1 < c.op().decode_cycles()) ==> c2.required_ins_ticks == c.required_ins_ticks
            &&& done ==> s + 1 >= c.op().decode_cycles() && c2.required_ins_ticks == c.required_ins_ticks
        }),
{
    reveal(CPU::decode_spec);
}

/// What an execute step leaves alone, and how it moves the cycle accounting
/// (see [`lemma_decode_step`]).
#[verifier::rlimit(100)]
#[verifier::spinoff_prover]
pub proof fn lemma_execute_step(c: CPU, s: u8)
    requires
        c.ready(),
        s < c.op().execute_cycles_max(),
        c.required_ins_ticks < 255,
    ensures
        ({
            let (done, c2) = c.execute_spec(s);
            &&& c2.ins == c.ins
            &&& c2.state == c.state
            &&& c2.curr_ins_ticks == c.curr_ins_ticks
            &&& c2.total_ticks == c.total_ticks
            &&& c2.store.vector == c.store.vector
            &&& c.required_ins_ticks <= c2.required_ins_ticks <= c.required_ins_ticks + 1
            &&& !done ==> s + 1 < c.op().execute_cycles_max()
            &&& (!done && s + 1 >= c.op().execute_cycles()) ==> c2.required_ins_ticks == c.required_ins_ticks + 1
            &&& (!done && s + 1 < c.op().execute_cycles()) ==> c2.required_ins_ticks == c.required_ins_ticks
            &&& done ==> s + 1 >= c.op().execute_cycles() && c2.required_ins_ticks == c.required_ins_ticks
        }),
{
    reveal(CPU::execute_spec);
    lemma_one_cycle_keeps(c, c.op().execute_fn);
}

/// A one-cycle instruction always finishes, and touches neither the held
/// instruction, the cycle state and counters, nor the interrupt vector.
pub proof fn lemma_one_cycle_keeps(c: CPU, f: ExecuteFn)
    ensures
        ({
            let (done, c2) = c.one_cycle_spec(f);
            &&& done
            &&& c2.ins == c.ins
            &&& c2.state == c.state
            &&& c2.curr_ins_ticks == c.curr_ins_ticks
            &&& c2.total_ticks == c.total_ticks
            &&& c2.store.vector == c.store.vector
            &&& c2.required_ins_ticks == c.required_ins_ticks
        }),
{
}

/// The invariant keeps the bus well formed.
pub proof fn lemma_inv_bus(c: CPU)
    requires
        c.inv(),
    ensures
        c.bus.wf(),
{
    reveal(CPU::inv);
}

/// The invariant does not depend on what a well-formed bus holds.
pub proof fn lemma_inv_bus_swap(c: CPU, b: Bus)
    requires
        c.inv(),
        b.wf(),
    ensures
        (CPU { bus: b, ..c }).inv(),
{
    reveal(CPU::inv);
}

/// A decode step leaves the total cycle counter alone.
proof fn lemma_decode_keeps_total(c: CPU, d: DecodeFn, s: u8)
    ensures
        c.decode_spec(d, s).1.total_ticks == c.total_ticks,
{
    reveal(CPU::decode_spec);
}

/// An execute step leaves the total cycle counter alone.
#[verifier::rlimit(60)]
#[verifier::spinoff_prover]
proof fn lemma_execute_keeps_total(c: CPU, s: u8)
    ensures
        c.execute_spec(s).1.total_ticks == c.total_ticks,
{
    reveal(CPU::execute_spec);
    lemma_one_cycle_keeps(c, c.op().execute_fn);
}

/// A state machine step leaves the total cycle counter to the tick.
pub proof fn lemma_step_keeps_total(c: CPU)
    ensures
        c.step_spec().total_ticks == c.total_ticks,
{
    reveal(CPU::step_spec);
    match c.state {
        CPUState::Decode { subcycle } => lemma_decode_keeps_total(c, c.op().decode_fn->Some_0, subcycle),
        CPUState::Execute { subcycle } => lemma_execute_keeps_total(c, subcycle),
        _ => {},
    }
}

/// The bus access of the next step depends on the CPU's registers and
/// cycle state only, not on what the bus holds.
pub proof fn lemma_access_ignores_bus(c: CPU, b: Bus)
    ensures
        (CPU { bus: b, ..c }).next_access_spec() == c.next_access_spec(),
{
    reveal(CPU::exec_access);
    reveal(CPU::decode_access);
}

impl CPU {
    /// Runs the reset sequence.
    pub fn reset(&mut self)
        requires
            old(self).inv(),
            old(self).bus.prg_ok(),
        ensures
            final(self).inv(),
            *final(self) == old(self).reset_spec(),
    {
        proof {
            reveal(CPU::inv);
        }
        self.servicing_interrupt = false;
        self.store.lo = self.bus.mem_read(RESET_VECTOR);
        self.store.hi = self.bus.mem_read(RESET_VECTOR + 1);
        self.pc = le_word(self.store.lo, self.store.hi);
        self.sp = RESET_SP;
        self.p = RESET_FLAGS;
        self.total_ticks = RESET_CYCLES as u64;
    }

    fn fetch(&mut self)
        requires
            old(self).bus.wf(),
            old(self).bus.read_ok(old(self).pc),
            opcode_spec(old(self).bus.read_spec(old(self).pc).0) is Some,
        ensures
            final(self).bus.wf(),
            *final(self) == old(self).fetch_spec(),
    {
        self.store.data = self.bus.mem_read(self.pc);
        self.pc = self.pc.wrapping_add(1);

        if let Some(opcode) = opcodes_list(self.store.data) {
            self.ins = Some(opcode);
            self.required_ins_ticks = opcode.cycles;
        }

        if self.ins.unwrap().code == 0x00 {
            self.store.vector = IRQ_VECTOR;
            self.software_interrupt = true;
        }
    }

    fn poll_interrupts(&mut self)
        requires
            0 <= old(self).curr_ins_ticks <= old(self).required_ins_ticks,
        ensures
            *final(self) == old(self).poll_interrupts_spec(),
    {
        // Poll for interrupts if the second to last cycle has ended
        if self.required_ins_ticks - self.curr_ins_ticks as u8 == 2 {
            self.servicing_interrupt = if self.nmi_pending {
                true
            } else if self.irq_pending && self.p & INTERRUPT_DISABLE == 0 {
                true
            } else {
                false
            };
        }
    }

    fn poll_hijacks(&mut self)
        ensures
            *final(self) == old(self).poll_hijacks_spec(),
    {
        if self.curr_ins_ticks <= 3 {
            if self.nmi_pending {
                // NMI hijacking IRQ/BRK
                self.hijacked = true;
                self.store.vector = NMI_VECTOR;
            } else if self.irq_pending {
                // IRQ hijacking BRK
                self.hijacked = true;
                self.store.vector = IRQ_VECTOR;
            }
        }
    }

    fn set_next_state(&mut self, finished_subcycles: bool)
        requires
            old(self).ins is Some,
            0 <= old(self).curr_ins_ticks <= old(self).required_ins_ticks,
            old(self).state matches CPUState::Decode { subcycle } ==> subcycle < 255,
            old(self).state matches CPUState::Execute { subcycle } ==> subcycle < 255,
        ensures
            *final(self) == old(self).next_state_spec(finished_subcycles),
    {
        // Interrupts being serviced do not poll for other interrupts
        if !self.servicing_interrupt {
            self.poll_interrupts();
        }
        if self.ins.unwrap().code == 0x00 {
            self.poll_hijacks();
        }
        assert(*self == old(self).polled_spec());
        self.state = self.next_state(finished_subcycles);
    }

    fn next_state(&self, finished_subcycles: bool) -> (s: CPUState)
        requires
            self.ins is Some,
            self.state matches CPUState::Decode { subcycle } ==> subcycle < 255,
            self.state matches CPUState::Execute { subcycle } ==> subcycle < 255,
        ensures
            s == self.transition(finished_subcycles),
    {
        match self.state {
            CPUState::Fetch => if self.ins.unwrap().decode_fn.is_none() {
                CPUState::Execute { subcycle: 0 }
            } else {
                CPUState::Decode { subcycle: 0 }
            },
            CPUState::Decode { subcycle } => if finished_subcycles {
                CPUState::Execute { subcycle: 0 }
            } else {
                CPUState::Decode { subcycle: subcycle + 1 }
            },
            CPUState::Execute { subcycle } => if finished_subcycles && self.servicing_interrupt {
                CPUState::Interrupt
            } else if finished_subcycles {
                CPUState::Fetch
            } else {
                CPUState::Execute { subcycle: subcycle + 1 }
            },
            CPUState::Interrupt => CPUState::Execute { subcycle: 0 },
        }
    }

    fn step_fetch(&mut self)
        requires
            old(self).inv(),
            old(self).state == CPUState::Fetch,
            old(self).step_ok(),
        ensures
            final(self).counted().inv(),
            *final(self) == old(self).step_spec(),
            -1 <= final(self).curr_ins_ticks < 9,
            final(self).total_ticks == old(self).total_ticks,
    {
        proof {
            reveal(CPU::inv);
            reveal(CPU::step_spec);
        }
        proof {
            lemma_opcode_table(old(self).bus.read_spec(old(self).pc).0);
        }
        self.fetch();
        self.set_next_state(true);
    }

    #[verifier::rlimit(60)]
    #[verifier::spinoff_prover]
    fn step_decode(&mut self, subcycle: u8)
        requires
            old(self).inv(),
            old(self).state == (CPUState::Decode { subcycle }),
            old(self).step_ok(),
        ensures
            final(self).counted().inv(),
            *final(self) == old(self).step_spec(),
            -1 <= final(self).curr_ins_ticks < 9,
            final(self).total_ticks == old(self).total_ticks,
    {
        proof {
            reveal(CPU::inv);
            reveal(CPU::step_spec);
        }
        proof {
            lemma_opcode_table(old(self).op().code);
            lemma_decode_step(*old(self), subcycle);
        }
        let done = self.decode(subcycle);
        self.set_next_state(done);
    }

    #[verifier::rlimit(100)]
    #[verifier::spinoff_prover]
    fn step_execute(&mut self, subcycle: u8)
        requires
            old(self).inv(),
            old(self).state == (CPUState::Execute { subcycle }),
            old(self).step_ok(),
        ensures
            final(self).counted().inv(),
            *final(self) == old(self).step_spec(),
            -1 <= final(self).curr_ins_ticks < 9,
            final(self).total_ticks == old(self).total_ticks,
    {
        proof {
            reveal(CPU::inv);
            reveal(CPU::step_spec);
        }
        proof {
            lemma_opcode_table(old(self).op().code);
            lemma_execute_step(*old(self), subcycle);
        }
        let done = self.execute(subcycle);
        self.set_next_state(done);
        if done {
            self.end_instruction();
        }
    }

    /// After an instruction's last cycle: the interrupt sequence holds BRK,
    /// otherwise no instruction is held; the cycle count restarts.
    fn end_instruction(&mut self)
        ensures
            *final(self) == (if old(self).state == CPUState::Interrupt {
                CPU { curr_ins_ticks: -1i8, ins: opcode_spec(0), required_ins_ticks: 7, ..*old(self) }
            } else {
                CPU { curr_ins_ticks: -1i8, ins: None, required_ins_ticks: 0, ..*old(self) }
            }),
            final(self).counted().inv() <== (old(self).bus.wf() && (old(self).state == CPUState::Interrupt
                || old(self).state == CPUState::Fetch)),
    {
        proof {
            reveal(CPU::inv);
            lemma_brk_entry();
        }
        self.curr_ins_ticks = -1;
        if self.state == CPUState::Interrupt {
            self.ins = opcodes_list(0x00);
            self.required_ins_ticks = self.ins.unwrap().cycles;
        } else {
            self.ins = None;
            self.required_ins_ticks = 0;
        }
    }

    fn step_interrupt(&mut self)
        requires
            old(self).inv(),
            old(self).state == CPUState::Interrupt,
            old(self).step_ok(),
        ensures
            final(self).counted().inv(),
            *final(self) == old(self).step_spec(),
            -1 <= final(self).curr_ins_ticks < 9,
            final(self).total_ticks == old(self).total_ticks,
    {
        proof {
            reveal(CPU::inv);
            reveal(CPU::step_spec);
        }
        proof {
            lemma_brk_entry();
        }
        if self.nmi_pending {
            self.store.vector = NMI_VECTOR;
        } else {
            self.store.vector = IRQ_VECTOR;
        }
        let _ = self.bus.mem_read(self.pc);
        self.set_next_state(true);
    }

    /// Acts on an OAM DMA request: when a peek at the DMA port gives 42, the
    /// transfer is started. Returns whether it was.
    fn dma_check(&mut self) -> (notice: bool)
        requires
            old(self).inv(),
        ensures
            final(self).inv(),
            notice == old(self).dma_notice(),
            *final(self) == old(self).after_dma(),
    {
        proof {
            lemma_inv_bus(*old(self));
        }
        let notice = self.bus.peek(0x4014) == 42;
        if notice {
            self.bus.oam_dma_start();
            proof {
                lemma_inv_bus_swap(*old(self), self.bus);
            }
        }
        notice
    }

    /// One step of the state machine.
    fn step(&mut self)
        requires
            old(self).inv(),
            old(self).step_ok(),
        ensures
            final(self).counted().inv(),
            *final(self) == old(self).step_spec(),
            -1 <= final(self).curr_ins_ticks < 9,
            final(self).total_ticks == old(self).total_ticks,
    {
        //  {Fetch OR Interrupt} -> Decode -> Execute -> {Fetch OR Interrupt}
        match self.state {
            CPUState::Fetch => self.step_fetch(),
            CPUState::Decode { subcycle } => self.step_decode(subcycle),
            CPUState::Execute { subcycle } => self.step_execute(subcycle),
            CPUState::Interrupt => self.step_interrupt(),
        }
    }

    /// Advances the CPU by one cycle. Returns whether a peek at the DMA port
    /// gave 42 (see [`CPU::dma_notice`]), in which case the transfer was started.
    pub fn tick(&mut self) -> (dma_notice: bool)
        requires
            old(self).inv(),
            old(self).tick_ok(),
        ensures
            final(self).inv(),
            (dma_notice, *final(self)) == old(self).tick_spec(),
    {
        let dma_notice = self.dma_check();
        self.step();

        //  Timing calculations
        self.curr_ins_ticks += 1;
        self.total_ticks += 1;
        dma_notice
    }

    /// Whether the next cycle is one [`Self::tick`] can run (see [`Self::tick_ok`]).
    pub fn can_tick(&self) -> (b: bool)
        requires
            self.inv(),
        ensures
            b == self.tick_ok(),
    {
        proof {
            reveal(CPU::inv);
        }
        if self.total_ticks == u64::MAX {
            return false;
        }
        let access = self.next_access();
        proof {
            lemma_access_ignores_bus(*self, self.bus.dma_started());
        }
        let supported = match access {
            Access::Read(addr) => self.bus.can_read(addr),
            Access::Write(addr) => self.bus.can_write(addr),
            Access::Nothing => true,
        };
        proof {
            match access {
                Access::Read(addr) => if addr != 0x4014 { lemma_dma_keeps_reads(self.bus, addr); },
                Access::Write(addr) => if addr != 0x4014 { lemma_dma_keeps_reads(self.bus, addr); },
                Access::Nothing => {},
            }
        }
        if !supported {
            return false;
        }
        if self.state == CPUState::Fetch {
            proof {
                lemma_dma_keeps_reads(self.bus, self.pc);
            }
            opcodes_list(self.bus.read_value(self.pc)).is_some()
        } else {
            true
        }
    }
}

} // verus!
