//! Instruction-level memory access on the console: the stack, and operand
//! fetching per addressing mode, each completed at once rather than cycle
//! by cycle. Reads here are side-effect-free peeks at the bus.
use super::console::NNES;
use super::cpu::cycle::{lemma_inv_bus, lemma_inv_bus_swap};
use super::cpu::{add16, add8, sub8, word, CPU};
use super::registers::Register;
use crate::utils::{lemma_join_bytes, lemma_word_bits};
use vstd::prelude::*;

verus! {

/// Addressing modes of the instruction-level interface.
#[derive(Debug, Copy, Clone, PartialEq, Eq, Structural)]
pub enum AddressingMode {
    Implied,
    Accumulator,
    Immediate,
    Relative,
    ZeroPage,
    ZeroPageX,
    ZeroPageY,
    Absolute,
    AbsoluteX,
    AbsoluteY,
    Indirect,
    IndirectX,
    IndirectY,
}

/// The stack page is [0x100, 0x200).
pub const STACK_OFFSET: u16 = 0x100;

/// The index register an addressing mode adds, if any.
enum RegisterOffset {
    NoIndex,
    XIndex,
    YIndex,
}

impl NNES {
    /// `addr` can be read: internal RAM (mirrored below 0x2000), or PRG ROM
    /// from 0x8000 with a bank count the mapping supports. The device
    /// registers and the unmapped space are not part of this interface.
    pub open spec fn readable(self, addr: u16) -> bool {
        addr < 0x2000 || (addr >= 0x8000 && self.cpu.bus.prg_ok())
    }

    /// `addr` can be written: internal RAM only (PRG ROM is read-only).
    pub open spec fn writable(self, addr: u16) -> bool {
        addr < 0x2000
    }

    /// A read of `addr` is supported.
    pub open spec fn can_read_at(self, addr: u16) -> bool {
        self.inv() && self.readable(addr)
    }

    /// The byte a read of `addr` gives (a peek: no side effects).
    pub open spec fn value_at(self, addr: u16) -> u8 {
        self.cpu.bus.peek_spec(addr)
    }

    /// A write of `addr` is supported.
    pub open spec fn can_write_at(self, addr: u16) -> bool {
        self.inv() && self.writable(addr)
    }

    /// The console after writing `data` at `addr` through the bus.
    pub open spec fn written(self, addr: u16, data: u8) -> NNES {
        NNES { cpu: CPU { bus: self.cpu.bus.write_spec(addr, data), ..self.cpu }, ..self }
    }

    /// Reads the byte at `addr`.
    pub fn memory_read_u8(&self, addr: u16) -> (r: u8)
        requires
            self.can_read_at(addr),
        ensures
            r == self.value_at(addr),
    {
        proof {
            lemma_inv_bus(self.cpu);
        }
        self.cpu.bus.peek(addr)
    }

    /// Writes `data` at `addr`.
    pub fn memory_write_u8(&mut self, addr: u16, data: u8)
        requires
            old(self).can_write_at(addr),
        ensures
            final(self).inv(),
            *final(self) == old(self).written(addr, data),
            final(self).cpu.bus.memory_handlers.sram == old(self).cpu.bus.memory_handlers.sram,
            final(self).cpu.bus.memory_handlers.prg_rom == old(self).cpu.bus.memory_handlers.prg_rom,
    {
        proof {
            lemma_inv_bus(self.cpu);
        }
        self.cpu.bus.mem_write(addr, data);
        proof {
            lemma_inv_bus_swap(old(self).cpu, self.cpu.bus);
        }
    }

    /// The little-endian word at `addr` and `addr + 1` (wrapping).
    pub fn memory_read_u16(&self, addr: u16) -> (r: u16)
        requires
            self.can_read_at(addr),
            self.can_read_at(add16(addr, 1)),
        ensures
            r == word(self.value_at(addr), self.value_at(add16(addr, 1))),
    {
        let low: u8 = self.memory_read_u8(addr);
        let high: u8 = self.memory_read_u8(addr.wrapping_add(1));
        proof {
            lemma_join_bytes(low, high);
        }
        ((high as u16) << 8) | (low as u16)
    }

    /// Writes `data` little-endian at `addr` and `addr + 1` (wrapping).
    pub fn memory_write_u16(&mut self, addr: u16, data: u16)
        requires
            old(self).can_write_at(addr),
            old(self).writable(add16(addr, 1)),
        ensures
            final(self).inv(),
            *final(self) == old(self).written(addr, (data % 256) as u8).written(add16(addr, 1), (data / 256) as u8),
    {
        let low: u16 = data & 0x00FF;
        let high: u16 = (data & 0xFF00) >> 8;
        proof {
            lemma_word_bits(data);
        }
        self.memory_write_u8(addr, low as u8);
        self.memory_write_u8(addr.wrapping_add(1), high as u8);
    }
}

impl NNES {
    /// The console after a push of `data`: written at 0x100 + sp, then sp
    /// moves down (wrapping).
    pub open spec fn pushed(self, data: u8) -> NNES {
        let n = self.written((STACK_OFFSET + self.cpu.sp) as u16, data);
        NNES { cpu: CPU { sp: sub8(self.cpu.sp, 1), ..n.cpu }, ..n }
    }

    /// Pushes a byte onto the stack.
    pub fn stack_push_u8(&mut self, data: u8)
        requires
            old(self).inv(),
        ensures
            final(self).inv(),
            *final(self) == old(self).pushed(data),
    {
        let mut stk_ptr: u8 = self.get_stack_pointer();
        self.memory_write_u8(STACK_OFFSET + stk_ptr as u16, data);
        if stk_ptr == 0 {
            stk_ptr = 0xff;
        } else {
            stk_ptr -= 1;
        }
        self.set_stack_pointer(stk_ptr);
    }

    /// Pulls a byte from the stack: sp moves up (wrapping), then the byte
    /// at 0x100 + sp is read.
    pub fn stack_pop_u8(&mut self) -> (r: u8)
        requires
            old(self).inv(),
        ensures
            final(self).inv(),
            *final(self) == old(self).popped(),
            r == old(self).popped_value(),
    {
        let mut stk_ptr: u8 = self.get_stack_pointer();
        if stk_ptr == 0xff {
            stk_ptr = 0;
        } else {
            stk_ptr += 1;
        }
        self.set_stack_pointer(stk_ptr);
        self.memory_read_u8(STACK_OFFSET + stk_ptr as u16)
    }

    /// The console after a pull: sp moved up (wrapping).
    pub open spec fn popped(self) -> NNES {
        NNES { cpu: CPU { sp: add8(self.cpu.sp, 1), ..self.cpu }, ..self }
    }

    /// The byte a pull reads: the one at 0x100 + sp after sp moved up.
    pub open spec fn popped_value(self) -> u8 {
        self.value_at((STACK_OFFSET + add8(self.cpu.sp, 1)) as u16)
    }

    /// Pushes a word: high byte first, then low byte.
    pub fn stack_push_u16(&mut self, data: u16)
        requires
            old(self).inv(),
        ensures
            final(self).inv(),
            *final(self) == old(self).pushed((data / 256) as u8).pushed((data % 256) as u8),
    {
        proof {
            lemma_word_bits(data);
        }
        self.stack_push_u8((data >> 8) as u8);
        self.stack_push_u8((data & 0x00FF) as u8);
    }

    /// Pulls a word: low byte first, then high byte.
    pub fn stack_pop_u16(&mut self) -> (r: u16)
        requires
            old(self).inv(),
        ensures
            final(self).inv(),
            *final(self) == (NNES { cpu: CPU { sp: add8(add8(old(self).cpu.sp, 1), 1), ..old(self).cpu }, ..*old(self) }),
            r == word(
                old(self).value_at((STACK_OFFSET + add8(old(self).cpu.sp, 1)) as u16),
                old(self).value_at((STACK_OFFSET + add8(add8(old(self).cpu.sp, 1), 1)) as u16),
            ),
    {
        let lower_byte: u8 = self.stack_pop_u8();
        let upper_byte: u8 = self.stack_pop_u8();
        proof {
            lemma_join_bytes(lower_byte, upper_byte);
        }
        ((upper_byte as u16) << 8) | (lower_byte as u16)
    }

    /// The operand an addressing mode yields and the program counter after
    /// its bytes: immediate and relative modes give the byte at pc; zero
    /// page the byte as an address (plus X or Y, wrapping in the page);
    /// absolute the word at pc (plus X or Y, wrapping); (indirect,X) the
    /// word at the zero-page pointer plus X; (indirect),Y the word at the
    /// zero-page pointer, plus Y. Plain indirect consumes its pointer byte
    /// and yields 0, as do implied and accumulator modes, which consume none.
    pub open spec fn operand(self, mode: AddressingMode) -> (u16, u16) {
        let pc = self.cpu.pc;
        let b = self.value_at(pc);
        let pc1 = add16(pc, 1);
        let pc2 = add16(pc, 2);
        let w = word(b, self.value_at(pc1));
        match mode {
            AddressingMode::Immediate | AddressingMode::Relative | AddressingMode::ZeroPage => (b as u16, pc1),
            AddressingMode::ZeroPageX => (add8(b, self.cpu.x) as u16, pc1),
            AddressingMode::ZeroPageY => (add8(b, self.cpu.y) as u16, pc1),
            AddressingMode::Absolute => (w, pc2),
            AddressingMode::AbsoluteX => (add16(w, self.cpu.x as u16), pc2),
            AddressingMode::AbsoluteY => (add16(w, self.cpu.y as u16), pc2),
            AddressingMode::Indirect => (0, pc1),
            AddressingMode::IndirectX => {
                let eff = add8(b, self.cpu.x);
                (word(self.value_at(eff as u16), self.value_at(add8(eff, 1) as u16)), pc1)
            },
            AddressingMode::IndirectY => {
                let base = word(self.value_at(b as u16), self.value_at(add8(b, 1) as u16));
                (add16(base, self.cpu.y as u16), pc1)
            },
            _ => (0, pc),
        }
    }

    /// Every byte that fetching the operand of `mode` reads is readable:
    /// the operand bytes at pc, and for the indirect indexed modes the two
    /// zero-page pointer bytes.
    pub open spec fn operand_reads_ok(self, mode: AddressingMode) -> bool {
        let pc = self.cpu.pc;
        let b = self.value_at(pc);
        match mode {
            AddressingMode::Immediate | AddressingMode::Relative | AddressingMode::ZeroPage
            | AddressingMode::ZeroPageX | AddressingMode::ZeroPageY | AddressingMode::Indirect => self.readable(pc),
            AddressingMode::Absolute | AddressingMode::AbsoluteX | AddressingMode::AbsoluteY => {
                self.readable(pc) && self.readable(add16(pc, 1))
            },
            AddressingMode::IndirectX => {
                let eff = add8(b, self.cpu.x);
                self.readable(pc) && self.readable(eff as u16) && self.readable(add8(eff, 1) as u16)
            },
            AddressingMode::IndirectY => self.readable(pc) && self.readable(b as u16) && self.readable(add8(b, 1) as u16),
            _ => true,
        }
    }

    /// Every byte that fetching the data of `mode` reads is readable: the
    /// operand's bytes and, but for immediate mode, the byte at the operand
    /// address.
    pub open spec fn data_reads_ok(self, mode: AddressingMode) -> bool {
        &&& self.operand_reads_ok(mode)
        &&& mode != AddressingMode::Immediate ==> self.readable(self.operand(mode).0)
    }

    /// The console with the program counter at `pc`.
    pub open spec fn at_pc(self, pc: u16) -> NNES {
        NNES { cpu: CPU { pc: pc, ..self.cpu }, ..self }
    }

    fn handle_immediate(&mut self) -> (r: u16)
        requires
            old(self).inv(),
            old(self).operand_reads_ok(AddressingMode::Immediate),
        ensures
            final(self).inv(),
            (r, final(self).cpu.pc) == old(self).operand(AddressingMode::Immediate),
            *final(self) == old(self).at_pc(final(self).cpu.pc),
    {
        let pc: u16 = self.get_program_counter();
        let op: u8 = self.memory_read_u8(pc);
        self.set_program_counter(pc.wrapping_add(1));
        op as u16
    }

    fn handle_zero_page(&mut self, index: RegisterOffset) -> (r: u16)
        requires
            old(self).inv(),
            old(self).operand_reads_ok(match index {
                RegisterOffset::NoIndex => AddressingMode::ZeroPage,
                RegisterOffset::XIndex => AddressingMode::ZeroPageX,
                RegisterOffset::YIndex => AddressingMode::ZeroPageY,
            }),
        ensures
            final(self).inv(),
            (r, final(self).cpu.pc) == old(self).operand(match index {
                RegisterOffset::NoIndex => AddressingMode::ZeroPage,
                RegisterOffset::XIndex => AddressingMode::ZeroPageX,
                RegisterOffset::YIndex => AddressingMode::ZeroPageY,
            }),
            *final(self) == old(self).at_pc(final(self).cpu.pc),
    {
        let pc: u16 = self.get_program_counter();
        let addr: u8 = self.memory_read_u8(pc);
        self.set_program_counter(pc.wrapping_add(1));
        match index {
            RegisterOffset::NoIndex => addr as u16,
            RegisterOffset::XIndex => addr.wrapping_add(self.get_register(Register::XIndex)) as u16,
            RegisterOffset::YIndex => addr.wrapping_add(self.get_register(Register::YIndex)) as u16,
        }
    }

    fn handle_relative(&mut self) -> (r: u16)
        requires
            old(self).inv(),
            old(self).operand_reads_ok(AddressingMode::Relative),
        ensures
            final(self).inv(),
            (r, final(self).cpu.pc) == old(self).operand(AddressingMode::Relative),
            *final(self) == old(self).at_pc(final(self).cpu.pc),
    {
        let pc: u16 = self.get_program_counter();
        let offset: u8 = self.memory_read_u8(pc);
        self.set_program_counter(pc.wrapping_add(1));
        offset as u16
    }

    fn handle_absolute(&mut self, index: RegisterOffset) -> (r: u16)
        requires
            old(self).inv(),
            old(self).operand_reads_ok(match index {
                RegisterOffset::NoIndex => AddressingMode::Absolute,
                RegisterOffset::XIndex => AddressingMode::AbsoluteX,
                RegisterOffset::YIndex => AddressingMode::AbsoluteY,
            }),
        ensures
            final(self).inv(),
            (r, final(self).cpu.pc) == old(self).operand(match index {
                RegisterOffset::NoIndex => AddressingMode::Absolute,
                RegisterOffset::XIndex => AddressingMode::AbsoluteX,
                RegisterOffset::YIndex => AddressingMode::AbsoluteY,
            }),
            *final(self) == old(self).at_pc(final(self).cpu.pc),
    {
        let pc: u16 = self.get_program_counter();
        let addr: u16 = self.memory_read_u16(pc);
        self.set_program_counter(pc.wrapping_add(2));
        match index {
            RegisterOffset::NoIndex => addr,
            RegisterOffset::XIndex => addr.wrapping_add(self.get_register(Register::XIndex) as u16),
            RegisterOffset::YIndex => addr.wrapping_add(self.get_register(Register::YIndex) as u16),
        }
    }

    fn handle_indirect_xy(&mut self, index: RegisterOffset) -> (r: u16)
        requires
            old(self).inv(),
            old(self).operand_reads_ok(match index {
                RegisterOffset::NoIndex => AddressingMode::Indirect,
                RegisterOffset::XIndex => AddressingMode::IndirectX,
                RegisterOffset::YIndex => AddressingMode::IndirectY,
            }),
        ensures
            final(self).inv(),
            (r, final(self).cpu.pc) == old(self).operand(match index {
                RegisterOffset::NoIndex => AddressingMode::Indirect,
                RegisterOffset::XIndex => AddressingMode::IndirectX,
                RegisterOffset::YIndex => AddressingMode::IndirectY,
            }),
            *final(self) == old(self).at_pc(final(self).cpu.pc),
    {
        let pc: u16 = self.get_program_counter();
        let indirect: u8 = self.memory_read_u8(pc);
        self.set_program_counter(pc.wrapping_add(1));
        match index {
            RegisterOffset::XIndex => {
                let offset: u8 = self.get_register(Register::XIndex);
                let eff_addr: u8 = indirect.wrapping_add(offset);
                let low: u8 = self.memory_read_u8(eff_addr as u16);
                let high: u8 = self.memory_read_u8(eff_addr.wrapping_add(1) as u16);
                proof {
                    lemma_join_bytes(low, high);
                }
                ((high as u16) << 8) | (low as u16)
            },
            RegisterOffset::YIndex => {
                let offset: u8 = self.get_register(Register::YIndex);
                let eff_addrl: u8 = self.memory_read_u8(indirect as u16);
                let eff_addrh: u8 = self.memory_read_u8(indirect.wrapping_add(1) as u16);
                proof {
                    lemma_join_bytes(eff_addrl, eff_addrh);
                }
                let eff_addr: u16 = ((eff_addrh as u16) << 8) | (eff_addrl as u16);
                eff_addr.wrapping_add(offset as u16)
            },
            _ => 0,
        }
    }

    /// Fetches the operand of `mode` (see [`Self::operand`]), moving pc past it.
    pub fn get_operand(&mut self, mode: AddressingMode) -> (r: u16)
        requires
            old(self).inv(),
            old(self).operand_reads_ok(mode),
        ensures
            final(self).inv(),
            (r, final(self).cpu.pc) == old(self).operand(mode),
            *final(self) == old(self).at_pc(final(self).cpu.pc),
    {
        match mode {
            AddressingMode::Immediate => self.handle_immediate(),
            AddressingMode::Relative => self.handle_relative(),
            AddressingMode::ZeroPage => self.handle_zero_page(RegisterOffset::NoIndex),
            AddressingMode::ZeroPageX => self.handle_zero_page(RegisterOffset::XIndex),
            AddressingMode::ZeroPageY => self.handle_zero_page(RegisterOffset::YIndex),
            AddressingMode::Absolute => self.handle_absolute(RegisterOffset::NoIndex),
            AddressingMode::AbsoluteX => self.handle_absolute(RegisterOffset::XIndex),
            AddressingMode::AbsoluteY => self.handle_absolute(RegisterOffset::YIndex),
            AddressingMode::Indirect => self.handle_indirect_xy(RegisterOffset::NoIndex),
            AddressingMode::IndirectX => self.handle_indirect_xy(RegisterOffset::XIndex),
            AddressingMode::IndirectY => self.handle_indirect_xy(RegisterOffset::YIndex),
            _ => 0,
        }
    }

    /// The data an instruction of `mode` works on: the immediate byte
    /// itself, else the byte at the operand address.
    pub open spec fn data_of(self, mode: AddressingMode) -> u8 {
        let (op, pc) = self.operand(mode);
        if mode == AddressingMode::Immediate { op as u8 } else { self.at_pc(pc).value_at(op) }
    }

    /// Fetches the data of `mode` (see [`Self::data_of`]), moving pc past
    /// the operand.
    pub fn get_data(&mut self, mode: AddressingMode) -> (r: u8)
        requires
            old(self).inv(),
            old(self).data_reads_ok(mode),
        ensures
            final(self).inv(),
            r == old(self).data_of(mode),
            *final(self) == old(self).at_pc(old(self).operand(mode).1),
    {
        let op: u16 = self.get_operand(mode);
        let mut data: u16 = op;
        if mode != AddressingMode::Immediate {
            data = self.memory_read_u8(op) as u16;
        }
        data as u8
    }
}

} // verus!
