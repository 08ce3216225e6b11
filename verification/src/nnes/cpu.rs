//! The 2A03 CPU core, stepped one CPU cycle per tick: each instruction is
//! fetched, its addressing mode decoded over one or more cycles, then
//! executed over one or more cycles, with NMI/IRQ polling on the
//! second-to-last cycle and BRK-style interrupt sequences.
pub mod bus;
pub mod cycle;
pub mod trace;
pub mod opcodes;

use crate::utils::{hi_byte, lo_byte};
use bus::Bus;
use opcodes::{lemma_opcode_table, opcode_spec, opcodes_list, AddressingMode, DecodeFn, ExecuteFn, OpCode};
use vstd::prelude::*;

verus! {

// Status register bits.
pub const CARRY: u8 = 0b0000_0001;
pub const ZERO: u8 = 0b0000_0010;
pub const INTERRUPT_DISABLE: u8 = 0b0000_0100;
pub const DECIMAL_MODE: u8 = 0b0000_1000;
pub const BREAK: u8 = 0b0001_0000;
pub const UNUSED: u8 = 0b0010_0000;
pub const OVERFLOW: u8 = 0b0100_0000;
pub const NEGATIVE: u8 = 0b1000_0000;

/// pc is fetched from 0xFFFC/0xFFFD on startup
pub const RESET_VECTOR: u16 = 0xFFFC;
/// on reset, three pushes occur changing this from 0 to 0xfd
pub const RESET_SP: u8 = 0xFD;
/// unused flag always starts on, interrupt disable is turned on for reset sequence
pub const RESET_FLAGS: u8 = 0b0010_0100;
/// reset sequence requires 7 cpu cycles
pub const RESET_CYCLES: u8 = 7;
/// pc is fetched from 0xFFFA/0xFFFB on NMI
pub const NMI_VECTOR: u16 = 0xFFFA;
/// pc is fetched from 0xFFFE/0xFFFF on IRQ/BRK
pub const IRQ_VECTOR: u16 = 0xFFFE;
/// stack page is [0x100, 0x200)
pub const STACK_OFFSET: u16 = 0x100;

/// Where the CPU is in the current instruction.
#[derive(Debug, Copy, Clone, PartialEq, Eq, Structural)]
pub enum CPUState {
    Fetch,
    Decode { subcycle: u8 },
    Execute { subcycle: u8 },
    Interrupt,
}

/// The one bus access a CPU cycle makes.
pub enum Access {
    Read(u16),
    Write(u16),
    Nothing,
}

/// Values carried between the cycles of an instruction.
#[derive(Clone, Copy)]
pub struct CPUStore {
    pub lo: u8,
    pub hi: u8,
    pub addr: u16,
    pub data: u8,
    pub offset: i8,
    pub vector: u16,
}

/// The CPU: registers, its bus, and the cycle state machine.
pub struct CPU {
    // Architectural state
    pub pc: u16,
    pub sp: u8,
    pub a: u8,
    pub x: u8,
    pub y: u8,
    pub p: u8,

    // Memory bus
    pub bus: Bus,

    // FSM metadata
    pub state: CPUState,
    pub ins: Option<OpCode>,
    pub curr_ins_ticks: i8,
    pub required_ins_ticks: u8,
    pub store: CPUStore,
    pub software_interrupt: bool,
    pub nmi_pending: bool,
    pub irq_pending: bool,
    pub servicing_interrupt: bool,
    pub hijacked: bool,
    pub page_crossed: bool,

    // Debugging counter
    pub total_ticks: u64,
}

/// Wrapping 8-bit addition.
pub open spec fn add8(x: u8, y: u8) -> u8 {
    vstd::wrapping::u8_specs::wrapping_add(x, y)
}

/// Wrapping 8-bit subtraction.
pub open spec fn sub8(x: u8, y: u8) -> u8 {
    vstd::wrapping::u8_specs::wrapping_sub(x, y)
}

/// Wrapping 16-bit addition.
pub open spec fn add16(x: u16, y: u16) -> u16 {
    vstd::wrapping::u16_specs::wrapping_add(x, y)
}

/// The little-endian word of two bytes.
pub open spec fn word(lo: u8, hi: u8) -> u16 {
    (lo + 256 * hi) as u16
}

/// `p` with the flag bits `f` set when `b` holds and cleared otherwise.
pub open spec fn setf(p: u8, f: u8, b: bool) -> u8 {
    if b { p | f } else { p & !f }
}

/// `p` with ZERO and NEGATIVE describing `d`.
pub open spec fn nz(p: u8, d: u8) -> u8 {
    setf(setf(p, ZERO, d == 0), NEGATIVE, d >= 128)
}

/// The flag bits `f` are set in `p`.
pub open spec fn flag_set(p: u8, f: u8) -> bool {
    p & f != 0
}

/// Little-endian word from two bytes.
pub fn le_word(lo: u8, hi: u8) -> (w: u16)
    ensures
        w == word(lo, hi),
{
    proof {
        crate::utils::lemma_join_bytes(lo, hi);
    }
    ((hi as u16) << 8) | (lo as u16)
}

impl CPU {
    /// The instruction in flight.
    pub open spec fn op(self) -> OpCode {
        self.ins->Some_0
    }

    /// The CPU after reading `addr`, with the value read.
    pub open spec fn read(self, addr: u16) -> (u8, CPU) {
        let (v, b) = self.bus.read_spec(addr);
        (v, CPU { bus: b, ..self })
    }

    /// The CPU after writing `data` to `addr`.
    pub open spec fn write(self, addr: u16, data: u8) -> CPU {
        CPU { bus: self.bus.write_spec(addr, data), ..self }
    }

    /// A push: write at 0x100 + sp, then sp - 1 (wrapping).
    pub open spec fn push_spec(self, data: u8) -> CPU {
        CPU { sp: sub8(self.sp, 1), ..self.write((STACK_OFFSET + self.sp) as u16, data) }
    }

    /// A pop: sp + 1 (wrapping), then read at 0x100 + sp.
    pub open spec fn pop_spec(self) -> (u8, CPU) {
        let sp = add8(self.sp, 1);
        CPU { sp: sp, ..self }.read((STACK_OFFSET + sp) as u16)
    }

    /// A read of the stack top without moving sp.
    pub open spec fn peek_stack_spec(self) -> (u8, CPU) {
        self.read((STACK_OFFSET + self.sp) as u16)
    }

    /// Address the operand of the current instruction is read from: pc for
    /// implied, accumulator, immediate and relative modes; else the
    /// decoded address.
    pub open spec fn operand_addr(self) -> u16 {
        match self.op().mode {
            AddressingMode::IMP | AddressingMode::ACC | AddressingMode::IMM | AddressingMode::REL => self.pc,
            _ => self.store.addr,
        }
    }

    /// The operand read: immediate and relative operands also advance pc.
    pub open spec fn operand_spec(self) -> (u8, CPU) {
        match self.op().mode {
            AddressingMode::IMM | AddressingMode::REL => CPU { pc: add16(self.pc, 1), ..self }.read(self.pc),
            _ => self.read(self.operand_addr()),
        }
    }

    /// The result of a read-modify-write goes back to A in accumulator mode,
    /// else to memory at the decoded address.
    pub open spec fn set_result_spec(self) -> CPU {
        match self.op().mode {
            AddressingMode::ACC => CPU { a: self.store.data, ..self },
            _ => self.write(self.store.addr, self.store.data),
        }
    }

    /// The accesses the CPU can make now that its bus supports.
    pub open spec fn access_ok(self, acc: Access) -> bool {
        match acc {
            Access::Read(a) => self.bus.read_ok(a),
            Access::Write(a) => self.bus.write_ok(a),
            Access::Nothing => true,
        }
    }

    /// Ready to run a step of the instruction in flight.
    pub open spec fn ready(self) -> bool {
        self.bus.wf() && self.ins is Some
    }

    /// A CPU on the given bus, registers cleared, waiting to fetch (reset not yet run).
    pub fn new(bus: Bus) -> (c: Self)
        ensures
            bus.wf() ==> c.inv(),
            c.bus == bus,
            c.pc == 0 && c.sp == 0 && c.a == 0 && c.x == 0 && c.y == 0,
            c.p == UNUSED,
            c.state == CPUState::Fetch,
            c.ins is None,
            c.curr_ins_ticks == 0 && c.required_ins_ticks == 0,
            !c.software_interrupt && !c.nmi_pending && !c.irq_pending,
            c.servicing_interrupt,
            !c.hijacked && !c.page_crossed,
            c.store == (CPUStore { lo: 0, hi: 0, addr: 0, data: 0, offset: 0, vector: 0 }),
            c.total_ticks == 0,
    {
        proof {
            reveal(CPU::inv);
        }
        CPU {
            pc: 0,
            sp: 0,
            a: 0,
            x: 0,
            y: 0,
            p: UNUSED,
            bus,
            state: CPUState::Fetch,
            ins: None,
            curr_ins_ticks: 0,
            required_ins_ticks: 0,
            store: CPUStore { lo: 0, hi: 0, addr: 0, data: 0, offset: 0, vector: 0 },
            software_interrupt: false,
            nmi_pending: false,
            irq_pending: false,
            servicing_interrupt: true,
            hijacked: false,
            page_crossed: false,
            total_ticks: 0,
        }
    }

    fn stack_push(&mut self, data: u8)
        requires
            old(self).bus.wf(),
        ensures
            final(self).bus.wf(),
            *final(self) == old(self).push_spec(data),
    {
        self.bus.mem_write(STACK_OFFSET + self.sp as u16, data);
        self.sp = self.sp.wrapping_sub(1);
    }

    fn stack_pop(&mut self) -> (r: u8)
        requires
            old(self).bus.wf(),
        ensures
            final(self).bus.wf(),
            (r, *final(self)) == old(self).pop_spec(),
    {
        self.sp = self.sp.wrapping_add(1);
        self.bus.mem_read(STACK_OFFSET + self.sp as u16)
    }

    fn stack_peek(&mut self) -> (r: u8)
        requires
            old(self).bus.wf(),
        ensures
            final(self).bus.wf(),
            (r, *final(self)) == old(self).peek_stack_spec(),
    {
        self.bus.mem_read(STACK_OFFSET + self.sp as u16)
    }
}

/// The larger of two integers.
pub open spec fn max_int(a: int, b: int) -> int {
    if a >= b { a } else { b }
}

impl CPU {
    /// Cycles the instruction in flight needs from now on, this one
    /// included, when no further extra cycle is owed.
    pub open spec fn cycles_left(self) -> int {
        match self.state {
            CPUState::Decode { subcycle } => max_int(self.op().decode_cycles() - subcycle, 1)
                + self.op().execute_cycles(),
            CPUState::Execute { subcycle } => max_int(self.op().execute_cycles() - subcycle, 1),
            _ => 0,
        }
    }

    /// Cycles the instruction in flight can still take at most, this one included.
    pub open spec fn cycles_left_max(self) -> int {
        match self.state {
            CPUState::Decode { subcycle } => self.op().decode_cycles_max() - subcycle + self.op().execute_cycles_max(),
            CPUState::Execute { subcycle } => self.op().execute_cycles_max() - subcycle,
            _ => 0,
        }
    }

    /// An instruction of the table is in flight, and the cycle counters
    /// account for it exactly: the cycles spent plus the fewest still needed
    /// are the cycles required, less the table's count of an indexed write's
    /// fixed extra cycle, which the decoder charges again (so the polling
    /// arithmetic cannot underflow); and an instruction never runs past nine
    /// cycles.
    pub open spec fn in_flight(self) -> bool {
        &&& self.ins is Some
        &&& opcode_spec(self.op().code) == self.ins
        &&& 1 <= self.curr_ins_ticks
        &&& self.curr_ins_ticks + self.cycles_left() == self.required_ins_ticks - self.op().slack()
        &&& self.op().slack() >= 0
        &&& self.curr_ins_ticks + self.cycles_left_max() <= 9
        &&& self.required_ins_ticks <= 7 + self.curr_ins_ticks
    }

    /// The CPU's invariant between ticks: the bus is well formed; waiting to
    /// fetch, no instruction is held; about to start an interrupt, BRK is
    /// held with its seven cycles; decoding or executing, the subcycle is
    /// one the instruction has, and BRK has an interrupt vector to read.
    #[verifier::opaque]
    pub open spec fn inv(self) -> bool {
        &&& self.bus.wf()
        &&& match self.state {
            CPUState::Fetch => self.ins is None && self.curr_ins_ticks == 0,
            CPUState::Interrupt => self.ins == opcode_spec(0) && self.curr_ins_ticks == 0
                && self.required_ins_ticks == 7,
            CPUState::Decode { subcycle } => self.in_flight() && self.op().decode_fn is Some
                && subcycle < self.op().decode_cycles_max(),
            CPUState::Execute { subcycle } => self.in_flight() && subcycle < self.op().execute_cycles_max()
                && (self.op().execute_fn == ExecuteFn::Brk ==> (self.store.vector == NMI_VECTOR
                || self.store.vector == IRQ_VECTOR)),
        }
    }

    /// The CPU after the reset sequence: pc from the reset vector, stack
    /// pointer 0xFD, I and the unused flag set, seven cycles counted, and
    /// interrupt servicing cleared.
    pub open spec fn reset_spec(self) -> CPU {
        let (lo, c1) = CPU { servicing_interrupt: false, ..self }.read(RESET_VECTOR);
        let c2 = CPU { store: CPUStore { lo: lo, ..c1.store }, ..c1 };
        let (hi, c3) = c2.read((RESET_VECTOR + 1) as u16);
        CPU {
            store: CPUStore { hi: hi, ..c3.store },
            pc: word(lo, hi),
            sp: RESET_SP,
            p: RESET_FLAGS,
            total_ticks: RESET_CYCLES as u64,
            ..c3
        }
    }

    /// Fetch: read the opcode at pc into `store.data`, advance pc, hold the
    /// table entry and its cycle count; BRK also selects the IRQ vector and
    /// marks a software interrupt.
    pub open spec fn fetch_spec(self) -> CPU {
        let (v, c) = self.read(self.pc);
        let op = opcode_spec(v)->Some_0;
        let c1 = CPU {
            store: CPUStore { data: v, ..c.store },
            pc: add16(c.pc, 1),
            ins: Some(op),
            required_ins_ticks: op.cycles,
            ..c
        };
        if op.code == 0 {
            CPU { store: CPUStore { vector: IRQ_VECTOR, ..c1.store }, software_interrupt: true, ..c1 }
        } else {
            c1
        }
    }

    /// Interrupt polling: at the end of the second-to-last cycle, a pending
    /// NMI, or a pending IRQ with I clear, makes the CPU service an
    /// interrupt after this instruction; otherwise it will not.
    pub open spec fn poll_interrupts_spec(self) -> CPU {
        if self.required_ins_ticks - self.curr_ins_ticks == 2 {
            CPU {
                servicing_interrupt: self.nmi_pending || (self.irq_pending && !flag_set(self.p, INTERRUPT_DISABLE)),
                ..self
            }
        } else {
            self
        }
    }

    /// Hijacking: within a BRK's first four cycles a pending NMI takes over
    /// its vector, else a pending IRQ does.
    pub open spec fn poll_hijacks_spec(self) -> CPU {
        if self.curr_ins_ticks <= 3 && self.nmi_pending {
            CPU { hijacked: true, store: CPUStore { vector: NMI_VECTOR, ..self.store }, ..self }
        } else if self.curr_ins_ticks <= 3 && self.irq_pending {
            CPU { hijacked: true, store: CPUStore { vector: IRQ_VECTOR, ..self.store }, ..self }
        } else {
            self
        }
    }

    /// The CPU after the polling that precedes a state change: interrupts
    /// unless one is being serviced, and hijacks during BRK.
    pub open spec fn polled_spec(self) -> CPU {
        let c1 = if !self.servicing_interrupt { self.poll_interrupts_spec() } else { self };
        if c1.op().code == 0 { c1.poll_hijacks_spec() } else { c1 }
    }

    /// The state that follows a step that did (`finished`) or did not
    /// complete its phase: fetch goes to decode, or straight to execute for
    /// modes without a decoder; decode and execute advance their subcycle
    /// until done; a finished execution goes to the interrupt sequence when
    /// one is to be serviced, else to the next fetch; the interrupt sequence
    /// runs BRK's execution.
    pub open spec fn transition(self, finished: bool) -> CPUState {
        match self.state {
            CPUState::Fetch => if self.op().decode_fn is None {
                CPUState::Execute { subcycle: 0 }
            } else {
                CPUState::Decode { subcycle: 0 }
            },
            CPUState::Decode { subcycle } => if finished {
                CPUState::Execute { subcycle: 0 }
            } else {
                CPUState::Decode { subcycle: (subcycle + 1) as u8 }
            },
            CPUState::Execute { subcycle } => if finished && self.servicing_interrupt {
                CPUState::Interrupt
            } else if finished {
                CPUState::Fetch
            } else {
                CPUState::Execute { subcycle: (subcycle + 1) as u8 }
            },
            CPUState::Interrupt => CPUState::Execute { subcycle: 0 },
        }
    }

    /// The CPU after polling and moving to the next state.
    pub open spec fn next_state_spec(self, finished: bool) -> CPU {
        let c = self.polled_spec();
        CPU { state: c.transition(finished), ..c }
    }

    /// One CPU cycle of the state machine, before the cycle counters move.
    #[verifier::opaque]
    pub open spec fn step_spec(self) -> CPU {
        match self.state {
            CPUState::Fetch => self.fetch_spec().next_state_spec(true),
            CPUState::Decode { subcycle } => {
                let (done, c) = self.decode_spec(self.op().decode_fn->Some_0, subcycle);
                c.next_state_spec(done)
            },
            CPUState::Execute { subcycle } => {
                let (done, c) = self.execute_spec(subcycle);
                let c2 = c.next_state_spec(done);
                if !done {
                    c2
                } else if c2.state == CPUState::Interrupt {
                    CPU { curr_ins_ticks: -1i8, ins: opcode_spec(0), required_ins_ticks: 7, ..c2 }
                } else {
                    CPU { curr_ins_ticks: -1i8, ins: None, required_ins_ticks: 0, ..c2 }
                }
            },
            CPUState::Interrupt => {
                let vector = if self.nmi_pending { NMI_VECTOR } else { IRQ_VECTOR };
                let c1 = CPU { store: CPUStore { vector: vector, ..self.store }, ..self };
                c1.read(c1.pc).1.next_state_spec(true)
            },
        }
    }

    /// A peek at the DMA port (which shows the last page written to it)
    /// gives 42, the value the CPU takes as an OAM DMA request.
    pub open spec fn dma_notice(self) -> bool {
        self.bus.peek_spec(0x4014) == 42
    }

    /// The CPU after acting on a DMA request (the transfer is started).
    pub open spec fn after_dma(self) -> CPU {
        if self.dma_notice() { CPU { bus: self.bus.dma_started(), ..self } } else { self }
    }

    /// Both cycle counters moved on by one.
    pub open spec fn counted(self) -> CPU {
        CPU {
            curr_ins_ticks: (self.curr_ins_ticks + 1) as i8,
            total_ticks: (self.total_ticks + 1) as u64,
            ..self
        }
    }

    /// One CPU cycle: the DMA notice, then the state machine step, then
    /// both cycle counters move on.
    pub open spec fn tick_spec(self) -> (bool, CPU) {
        (self.dma_notice(), self.after_dma().step_spec().counted())
    }

    /// The bus access the next state machine step makes.
    pub open spec fn next_access_spec(self) -> Access {
        match self.state {
            CPUState::Decode { subcycle } => self.decode_access(self.op().decode_fn->Some_0, subcycle),
            CPUState::Execute { subcycle } => self.exec_access(subcycle),
            _ => Access::Read(self.pc),
        }
    }

    /// The next step is one the CPU can run: the bus supports its access
    /// and, at a fetch, the byte read is an opcode of the table.
    pub open spec fn step_ok(self) -> bool {
        &&& self.access_ok(self.next_access_spec())
        &&& self.state == CPUState::Fetch ==> opcode_spec(self.bus.read_spec(self.pc).0) is Some
    }

    /// The next tick is one [`Self::tick`] can run: its step is supported and
    /// the cycle counter has room.
    pub open spec fn tick_ok(self) -> bool {
        self.after_dma().step_ok() && self.total_ticks < u64::MAX
    }
}

} // verus!
