//! The debugging trace: what the CPU is about to execute, decoded from
//! memory by peeking, with the registers and the PPU position, in the
//! fields a nestest-style log line is printed from.
use super::opcodes::{opcode_spec, opcodes_list, AddressingMode, ExecuteFn, OpCode};
use super::{add16, add8, le_word, word, CPUStore, CPU};
use crate::utils::{hi_byte, lo_byte};
use vstd::prelude::*;

pub mod text;

verus! {

/// One trace line's fields.
pub struct TraceLine {
    /// Address of the instruction.
    pub pc: u16,
    /// Its opcode byte.
    pub code: u8,
    /// Its mnemonic.
    pub name: &'static str,
    pub mode: AddressingMode,
    /// Its length in bytes.
    pub bytes: u8,
    /// The operand bytes after the opcode (0 where the mode has none).
    pub lo: u8,
    pub hi: u8,
    /// The value shown after `=`: the byte at the effective address.
    pub value: u8,
    /// The effective address (the jump target for relative and indirect modes).
    pub addr: u16,
    /// The pointer the indirect modes go through (for (Indirect,X), the
    /// zero-page pointer after X is added).
    pub pointer: u16,
    pub a: u8,
    pub x: u8,
    pub y: u8,
    pub p: u8,
    pub sp: u8,
    pub ppu_scanline: u16,
    pub ppu_cycle: u16,
    pub total_ticks: u64,
}

impl CPU {
    /// The byte a peek at `addr` sees.
    pub open spec fn peek8(self, addr: u16) -> u8 {
        self.bus.peek_spec(addr)
    }

    /// The table entry of the opcode at pc.
    pub open spec fn traced_op(self) -> OpCode {
        opcode_spec(self.peek8(self.pc))->Some_0
    }

    /// The trace can be taken: the byte at pc is a known opcode and every
    /// address the trace looks at supports a peek (the pointer's high byte
    /// for JMP indirect is read, so it must support a read).
    pub open spec fn trace_ok(self) -> bool {
        let pc = self.pc;
        let p1 = add16(pc, 1);
        let p2 = add16(pc, 2);
        let lo = self.peek8(p1);
        let hi = self.peek8(p2);
        let op = self.traced_op();
        &&& self.bus.peek_ok(pc)
        &&& opcode_spec(self.peek8(pc)) is Some
        &&& match op.mode {
            AddressingMode::IMP | AddressingMode::ACC => true,
            AddressingMode::IMM | AddressingMode::REL => self.bus.peek_ok(p1),
            AddressingMode::ZPG => self.bus.peek_ok(p1) && self.bus.peek_ok(lo as u16),
            AddressingMode::ZPX => self.bus.peek_ok(p1) && self.bus.peek_ok(add8(self.x, lo) as u16),
            AddressingMode::ZPY => self.bus.peek_ok(p1) && self.bus.peek_ok(add8(self.y, lo) as u16),
            AddressingMode::ABS => self.bus.peek_ok(p1) && self.bus.peek_ok(p2) && (op.execute_fn == ExecuteFn::Jmp
                || op.execute_fn == ExecuteFn::Jsr || self.bus.peek_ok(word(lo, hi))),
            AddressingMode::ABX => self.bus.peek_ok(p1) && self.bus.peek_ok(p2) && self.bus.peek_ok(
                add16(word(lo, hi), self.x as u16),
            ),
            AddressingMode::ABY => self.bus.peek_ok(p1) && self.bus.peek_ok(p2) && self.bus.peek_ok(
                add16(word(lo, hi), self.y as u16),
            ),
            AddressingMode::IND => {
                let ptr = word(lo, hi);
                &&& self.bus.peek_ok(p1) && self.bus.peek_ok(p2) && self.bus.peek_ok(ptr)
                &&& self.bus.read_ok(word(((ptr as int + 1) % 256) as u8, (ptr / 256) as u8))
            },
            AddressingMode::INX => {
                let ptr = add8(self.x, lo);
                let target = word(self.peek8(ptr as u16), self.peek8(add8(ptr, 1) as u16));
                self.bus.peek_ok(p1) && self.bus.peek_ok(ptr as u16) && self.bus.peek_ok(add8(ptr, 1) as u16)
                    && self.bus.peek_ok(target)
            },
            AddressingMode::INY => {
                let ptr = word(self.peek8(lo as u16), self.peek8(add8(lo, 1) as u16));
                self.bus.peek_ok(p1) && self.bus.peek_ok(lo as u16) && self.bus.peek_ok(add8(lo, 1) as u16)
                    && self.bus.peek_ok(add16(ptr, self.y as u16))
            },
        }
    }

    /// Operands of the implied, accumulator, immediate, zero-page and
    /// relative modes: (lo, hi, value, pointer) and the CPU after.
    pub open spec fn trace_direct_spec(self) -> (u8, u8, u8, u16, CPU) {
        let op = self.traced_op();
        let lo = self.peek8(add16(self.pc, 1));
        let s = self.store;
        match op.mode {
            AddressingMode::IMM => (lo, 0, 0, 0, self),
            AddressingMode::ZPG => (lo, 0, self.peek8(lo as u16), 0, self),
            AddressingMode::ZPX | AddressingMode::ZPY => {
                let index = if op.mode == AddressingMode::ZPX { self.x } else { self.y };
                let addr = add8(index, lo) as u16;
                let data = self.peek8(addr);
                (lo, 0, data, 0, CPU { store: CPUStore { addr: addr, data: data, ..s }, ..self })
            },
            AddressingMode::REL => {
                let addr = ((self.pc as int + 2 + (lo as i8) as int + 0x10000) % 0x10000) as u16;
                (lo, 0, 0, 0, CPU { store: CPUStore { offset: lo as i8, addr: addr, ..s }, ..self })
            },
            _ => (0, 0, 0, 0, self),
        }
    }

    /// Operands of the absolute modes (JMP and JSR show no value).
    pub open spec fn trace_absolute_spec(self) -> (u8, u8, u8, u16, CPU) {
        let op = self.traced_op();
        let lo = self.peek8(add16(self.pc, 1));
        let hi = self.peek8(add16(self.pc, 2));
        let s = self.store;
        let base = word(lo, hi);
        if op.mode == AddressingMode::ABS {
            if op.execute_fn == ExecuteFn::Jmp || op.execute_fn == ExecuteFn::Jsr {
                (lo, hi, 0, 0, CPU { store: CPUStore { addr: base, ..s }, ..self })
            } else {
                let data = self.peek8(base);
                (lo, hi, data, 0, CPU { store: CPUStore { addr: base, data: data, ..s }, ..self })
            }
        } else {
            let index = if op.mode == AddressingMode::ABX { self.x } else { self.y };
            let addr = add16(base, index as u16);
            let data = self.peek8(addr);
            (lo, hi, data, base, CPU { store: CPUStore { addr: addr, data: data, ..s }, ..self })
        }
    }

    /// Operands of the indirect modes; JMP indirect reads the pointer's
    /// high byte through the bus.
    pub open spec fn trace_indirect_spec(self) -> (u8, u8, u8, u16, CPU) {
        let op = self.traced_op();
        let lo = self.peek8(add16(self.pc, 1));
        let s = self.store;
        if op.mode == AddressingMode::IND {
            let hi = self.peek8(add16(self.pc, 2));
            let ptr = word(lo, hi);
            let target_lo = self.peek8(ptr);
            let hi_addr = word(((ptr as int + 1) % 256) as u8, (ptr / 256) as u8);
            let (target_hi, b) = self.bus.read_spec(hi_addr);
            (lo, hi, 0, ptr, CPU {
                store: CPUStore { lo: target_lo, hi: target_hi, addr: word(target_lo, target_hi), ..s },
                bus: b,
                ..self
            })
        } else if op.mode == AddressingMode::INX {
            let ptr = add8(self.x, lo);
            let tlo = self.peek8(ptr as u16);
            let thi = self.peek8(add8(ptr, 1) as u16);
            let addr = word(tlo, thi);
            let data = self.peek8(addr);
            (lo, 0, data, ptr as u16, CPU { store: CPUStore { lo: tlo, hi: thi, addr: addr, data: data, ..s }, ..self })
        } else {
            let tlo = self.peek8(lo as u16);
            let thi = self.peek8(add8(lo, 1) as u16);
            let ptr = word(tlo, thi);
            let addr = add16(ptr, self.y as u16);
            let data = self.peek8(addr);
            (lo, 0, data, ptr, CPU { store: CPUStore { lo: tlo, hi: thi, addr: addr, data: data, ..s }, ..self })
        }
    }

    /// The trace line, and the CPU after taking it: the operand bytes are
    /// peeked per addressing mode, the decoded address and value are left
    /// in the CPU's store, and JMP indirect reads the pointer's high byte
    /// through the bus (with that read's effects).
    pub open spec fn trace_spec(self) -> (TraceLine, CPU) {
        let op = self.traced_op();
        let (lo, hi, value, pointer, c) = match op.mode {
            AddressingMode::ABS | AddressingMode::ABX | AddressingMode::ABY => self.trace_absolute_spec(),
            AddressingMode::IND | AddressingMode::INX | AddressingMode::INY => self.trace_indirect_spec(),
            _ => self.trace_direct_spec(),
        };
        (TraceLine {
            pc: self.pc,
            code: op.code,
            name: op.name,
            mode: op.mode,
            bytes: op.bytes,
            lo: lo,
            hi: hi,
            value: value,
            addr: c.store.addr,
            pointer: pointer,
            a: self.a,
            x: self.x,
            y: self.y,
            p: self.p,
            sp: self.sp,
            ppu_scanline: c.bus.ppu().scanline,
            ppu_cycle: c.bus.ppu().cycle,
            total_ticks: self.total_ticks,
        }, c)
    }

    /// Takes a trace line of the instruction at pc.
    pub fn trace(&mut self) -> (t: TraceLine)
        requires
            old(self).bus.wf(),
            old(self).trace_ok(),
        ensures
            final(self).bus.wf(),
            (t, *final(self)) == old(self).trace_spec(),
    {
        let data = self.bus.peek(self.pc);
        let ins = opcodes_list(data).unwrap();
        let (lo, hi, value, pointer) = match ins.mode {
            AddressingMode::ABS | AddressingMode::ABX | AddressingMode::ABY => self.trace_absolute(ins),
            AddressingMode::IND | AddressingMode::INX | AddressingMode::INY => self.trace_indirect(ins),
            _ => self.trace_direct(ins),
        };
        let ppu = self.bus.ppu_ref();
        TraceLine {
            pc: self.pc,
            code: ins.code,
            name: ins.name,
            mode: ins.mode,
            bytes: ins.bytes,
            lo,
            hi,
            value,
            addr: self.store.addr,
            pointer,
            a: self.a,
            x: self.x,
            y: self.y,
            p: self.p,
            sp: self.sp,
            ppu_scanline: ppu.scanline,
            ppu_cycle: ppu.cycle,
            total_ticks: self.total_ticks,
        }
    }

    fn trace_direct(&mut self, ins: OpCode) -> (r: (u8, u8, u8, u16))
        requires
            old(self).bus.wf(),
            old(self).trace_ok(),
            ins == old(self).traced_op(),
        ensures
            final(self).bus.wf(),
            (r.0, r.1, r.2, r.3, *final(self)) == old(self).trace_direct_spec(),
    {
        match ins.mode {
            AddressingMode::IMM => (self.bus.peek(self.pc.wrapping_add(1)), 0, 0, 0),
            AddressingMode::ZPG => {
                let lo = self.bus.peek(self.pc.wrapping_add(1));
                (lo, 0, self.bus.peek(lo as u16), 0)
            },
            AddressingMode::ZPX | AddressingMode::ZPY => {
                let lo = self.bus.peek(self.pc.wrapping_add(1));
                let index = if ins.mode == AddressingMode::ZPX { self.x } else { self.y };
                self.store.addr = index.wrapping_add(lo) as u16;
                self.store.data = self.bus.peek(self.store.addr);
                (lo, 0, self.store.data, 0)
            },
            AddressingMode::REL => {
                let lo = self.bus.peek(self.pc.wrapping_add(1));
                self.store.offset = lo as i8;
                proof {
                    let pc = self.pc;
                    let o = lo as i8;
                    assert(vstd::wrapping::u16_specs::wrapping_add(vstd::wrapping::u16_specs::wrapping_add(pc, 2),
                        (o as i16) as u16) == ((pc as int + 2 + o as int + 0x10000) % 0x10000) as u16) by (bit_vector);
                }
                self.store.addr = self.pc.wrapping_add(2).wrapping_add(self.store.offset as i16 as u16);
                (lo, 0, 0, 0)
            },
            _ => (0, 0, 0, 0),
        }
    }

    fn trace_absolute(&mut self, ins: OpCode) -> (r: (u8, u8, u8, u16))
        requires
            old(self).bus.wf(),
            old(self).trace_ok(),
            ins == old(self).traced_op(),
            ins.mode == AddressingMode::ABS || ins.mode == AddressingMode::ABX || ins.mode == AddressingMode::ABY,
        ensures
            final(self).bus.wf(),
            (r.0, r.1, r.2, r.3, *final(self)) == old(self).trace_absolute_spec(),
    {
        let lo = self.bus.peek(self.pc.wrapping_add(1));
        let hi = self.bus.peek(self.pc.wrapping_add(2));
        self.store.addr = le_word(lo, hi);
        if ins.mode == AddressingMode::ABS {
            if ins.execute_fn != ExecuteFn::Jmp && ins.execute_fn != ExecuteFn::Jsr {
                self.store.data = self.bus.peek(self.store.addr);
                (lo, hi, self.store.data, 0)
            } else {
                (lo, hi, 0, 0)
            }
        } else {
            let base = self.store.addr;
            let index = if ins.mode == AddressingMode::ABX { self.x } else { self.y };
            self.store.addr = self.store.addr.wrapping_add(index as u16);
            self.store.data = self.bus.peek(self.store.addr);
            (lo, hi, self.store.data, base)
        }
    }

    fn trace_indirect(&mut self, ins: OpCode) -> (r: (u8, u8, u8, u16))
        requires
            old(self).bus.wf(),
            old(self).trace_ok(),
            ins == old(self).traced_op(),
            ins.mode == AddressingMode::IND || ins.mode == AddressingMode::INX || ins.mode == AddressingMode::INY,
        ensures
            final(self).bus.wf(),
            (r.0, r.1, r.2, r.3, *final(self)) == old(self).trace_indirect_spec(),
    {
        let lo = self.bus.peek(self.pc.wrapping_add(1));
        if ins.mode == AddressingMode::IND {
            let hi = self.bus.peek(self.pc.wrapping_add(2));
            let indirect = le_word(lo, hi);
            self.store.addr = indirect;
            self.store.lo = self.bus.peek(indirect);
            self.store.addr = le_word(lo_byte(self.store.addr).wrapping_add(1), hi_byte(self.store.addr));
            self.store.hi = self.bus.mem_read(self.store.addr);
            self.store.addr = le_word(self.store.lo, self.store.hi);
            (lo, hi, 0, indirect)
        } else if ins.mode == AddressingMode::INX {
            let indexed = self.x.wrapping_add(lo);
            self.store.lo = self.bus.peek(indexed as u16);
            self.store.hi = self.bus.peek(indexed.wrapping_add(1) as u16);
            self.store.addr = le_word(self.store.lo, self.store.hi);
            self.store.data = self.bus.peek(self.store.addr);
            (lo, 0, self.store.data, indexed as u16)
        } else {
            self.store.lo = self.bus.peek(lo as u16);
            self.store.hi = self.bus.peek(lo.wrapping_add(1) as u16);
            let indirect = le_word(self.store.lo, self.store.hi);
            self.store.addr = indirect.wrapping_add(self.y as u16);
            self.store.data = self.bus.peek(self.store.addr);
            (lo, 0, self.store.data, indirect)
        }
    }
}

} // verus!
