//! Cycle-level semantics of execution: the arithmetic and flag helpers,
//! and the step each instruction performs at each execute subcycle.
use super::{AddressingMode, ExecuteFn};
use crate::nnes::cpu::{
    add16, add8, flag_set, nz, setf, sub8, word, le_word, Access, CPUStore, CPU, BREAK, CARRY, DECIMAL_MODE,
    INTERRUPT_DISABLE, IRQ_VECTOR, NEGATIVE, NMI_VECTOR, OVERFLOW, ZERO, STACK_OFFSET,
};
use crate::utils::{bit_0, bit_7, hi_byte, lo_byte};
use vstd::prelude::*;

verus! {

/// Sum of `n`, `m` and the carry for ADC, or `n` minus `m` with borrow for
/// SBC (added as the complement of `m`), and the new status: carry is the
/// ninth bit of the sum (for SBC: no borrow); overflow is set when the
/// result's sign differs from both addends' signs.
pub open spec fn add_spec(p: u8, n: u8, m: u8, subtract: bool) -> (u8, u8) {
    let c: int = if flag_set(p, CARRY) { 1 } else { 0 };
    let m2: u8 = if subtract { !m } else { m };
    let sum: int = n + m2 + c;
    let r = (sum % 256) as u8;
    let p1 = setf(p, CARRY, sum > 255);
    (r, setf(p1, OVERFLOW, ((n ^ r) & (m2 ^ r)) & 0x80 != 0))
}

/// A one-bit shift of `data` and the new status: left (ASL/ROL) takes bit
/// 7 into carry, right (LSR/ROR) bit 0; with `with_carry` the old carry
/// `cf` enters the vacated bit.
pub open spec fn shift_data_spec(p: u8, left: bool, with_carry: bool, cf: bool, data: u8) -> (u8, u8) {
    if left {
        let d = data << 1u8;
        (if with_carry && cf { d | 1 } else { d }, setf(p, CARRY, data >= 128))
    } else {
        let d = data >> 1u8;
        (if with_carry && cf { d | 128 } else { d }, setf(p, CARRY, data % 2 == 1))
    }
}

/// Status after comparing `n` with `m`: N and Z from `n - m`, carry when `n >= m`.
pub open spec fn compare_spec(p: u8, n: u8, m: u8) -> u8 {
    setf(nz(p, sub8(n, m)), CARRY, n >= m)
}

/// Status after a pull of `v` by PLP or RTI: carry, zero, interrupt
/// disable, decimal, overflow and negative come from `v`; break and the
/// unused bit stay.
pub open spec fn pulled_flags(p: u8, v: u8) -> u8 {
    setf(setf(setf(setf(setf(setf(p, CARRY, flag_set(v, CARRY)), ZERO, flag_set(v, ZERO)), INTERRUPT_DISABLE,
        flag_set(v, INTERRUPT_DISABLE)), DECIMAL_MODE, flag_set(v, DECIMAL_MODE)), OVERFLOW, flag_set(v, OVERFLOW)),
        NEGATIVE, flag_set(v, NEGATIVE))
}

impl CPU {
    // Helpers
    pub(crate) fn add(&mut self, n: u8, m: u8, subtract: bool) -> (r: u8)
        ensures
            (r, final(self).p) == add_spec(old(self).p, n, m, subtract),
            *final(self) == (CPU { p: final(self).p, ..*old(self) }),
    {
        let cbit: u8 = if self.p & CARRY != 0 { 1 } else { 0 };
        let mut m = m;
        if subtract {
            m = !m;
        }
        let mut res: u16 = n as u16 + m as u16 + cbit as u16;
        if res > 0xff {
            self.p = self.p | CARRY;
        } else {
            self.p = self.p & !CARRY;
        }
        proof {
            crate::utils::lemma_word_bits(res);
        }
        res &= 0xFF;
        if bit_7((n ^ res as u8) & (m ^ res as u8)) != 0 {
            self.p = self.p | OVERFLOW;
        } else {
            self.p = self.p & !OVERFLOW;
        }
        res as u8
    }

    pub(crate) fn shift_data(&mut self, left: bool, with_carry: bool, cf: bool, data: u8) -> (r: u8)
        ensures
            (r, final(self).p) == shift_data_spec(old(self).p, left, with_carry, cf, data),
            *final(self) == (CPU { p: final(self).p, ..*old(self) }),
    {
        let mut data = data;
        if left {
            self.p = if bit_7(data) != 0 { self.p | CARRY } else { self.p & !CARRY };
            data = data << 1;
            if with_carry && cf {
                data |= 1;
            }
        } else {
            self.p = if bit_0(data) != 0 { self.p | CARRY } else { self.p & !CARRY };
            data = data >> 1;
            if with_carry && cf {
                data |= 128;
            }
        }
        data
    }

    pub(crate) fn compare(&mut self, n: u8, m: u8)
        ensures
            *final(self) == (CPU { p: compare_spec(old(self).p, n, m), ..*old(self) }),
    {
        self.set_nz(n.wrapping_sub(m));
        self.p = if n >= m { self.p | CARRY } else { self.p & !CARRY };
    }

    pub(crate) fn set_nz(&mut self, data: u8)
        ensures
            *final(self) == (CPU { p: nz(old(self).p, data), ..*old(self) }),
    {
        self.p = if data == 0 { self.p | ZERO } else { self.p & !ZERO };
        self.p = if bit_7(data) != 0 { self.p | NEGATIVE } else { self.p & !NEGATIVE };
    }

    pub(crate) fn get_operand(&mut self) -> (r: u8)
        requires
            old(self).ready(),
            old(self).bus.read_ok(old(self).operand_addr()),
        ensures
            final(self).ready(),
            (r, *final(self)) == old(self).operand_spec(),
    {
        let mode = self.ins.unwrap().mode;
        match mode {
            AddressingMode::IMP | AddressingMode::ACC => self.bus.mem_read(self.pc),
            AddressingMode::IMM | AddressingMode::REL => {
                self.pc = self.pc.wrapping_add(1);
                self.bus.mem_read(self.pc.wrapping_sub(1))
            },
            _ => self.bus.mem_read(self.store.addr),
        }
    }

    pub(crate) fn set_result(&mut self)
        requires
            old(self).ready(),
            old(self).op().mode != AddressingMode::ACC ==> old(self).bus.write_ok(old(self).store.addr),
        ensures
            final(self).ready(),
            *final(self) == old(self).set_result_spec(),
    {
        match self.ins.unwrap().mode {
            AddressingMode::ACC => {
                self.a = self.store.data;
            },
            _ => self.bus.mem_write(self.store.addr, self.store.data),
        }
    }
}

/// Address of the high byte of a JMP (indirect) target: the pointer's low
/// byte wraps within its page.
pub open spec fn indirect_hi_addr(addr: u16) -> u16 {
    word(((addr as int + 1) % 256) as u8, (addr / 256) as u8)
}

impl CPU {
    /// The bus access of the instruction in flight at execute `subcycle`.
    #[verifier::opaque]
    pub open spec fn exec_access(self, subcycle: u8) -> Access {
        let stack = (STACK_OFFSET + self.sp) as u16;
        let stack_next = (STACK_OFFSET + add8(self.sp, 1)) as u16;
        match self.op().execute_fn {
            ExecuteFn::Sta | ExecuteFn::Stx | ExecuteFn::Sty => Access::Write(self.store.addr),
            ExecuteFn::Asl | ExecuteFn::Lsr | ExecuteFn::Rol | ExecuteFn::Ror =>
                if self.op().mode == AddressingMode::ACC || subcycle == 0 {
                    Access::Read(self.operand_addr())
                } else {
                    Access::Write(self.store.addr)
                },
            ExecuteFn::Inc | ExecuteFn::Dec =>
                if subcycle == 0 { Access::Read(self.operand_addr()) } else { Access::Write(self.store.addr) },
            ExecuteFn::Php | ExecuteFn::Pha =>
                if subcycle == 0 { Access::Read(self.operand_addr()) } else { Access::Write(stack) },
            ExecuteFn::Plp | ExecuteFn::Pla =>
                if subcycle == 0 {
                    Access::Read(self.operand_addr())
                } else if subcycle == 1 {
                    Access::Read(stack)
                } else {
                    Access::Read(stack_next)
                },
            ExecuteFn::Brk =>
                if subcycle == 0 {
                    Access::Read(self.pc)
                } else if subcycle <= 3 {
                    Access::Write(stack)
                } else if subcycle == 4 {
                    Access::Read(self.store.vector)
                } else {
                    Access::Read((self.store.vector + 1) as u16)
                },
            ExecuteFn::Jsr =>
                if subcycle == 0 || subcycle == 4 {
                    Access::Read(self.pc)
                } else if subcycle == 1 {
                    Access::Read(stack)
                } else {
                    Access::Write(stack)
                },
            ExecuteFn::Rti =>
                if subcycle == 0 {
                    Access::Read(self.operand_addr())
                } else if subcycle == 1 {
                    Access::Read(stack)
                } else {
                    Access::Read(stack_next)
                },
            ExecuteFn::Rts =>
                if subcycle == 0 {
                    Access::Read(self.operand_addr())
                } else if subcycle == 1 {
                    Access::Read(stack)
                } else if subcycle <= 3 {
                    Access::Read(stack_next)
                } else {
                    Access::Read(self.pc)
                },
            ExecuteFn::Jmp =>
                if subcycle <= 1 {
                    Access::Read(self.pc)
                } else if subcycle == 2 {
                    Access::Read(self.store.addr)
                } else {
                    Access::Read(indirect_hi_addr(self.store.addr))
                },
            ExecuteFn::Bcc | ExecuteFn::Bcs | ExecuteFn::Beq | ExecuteFn::Bmi | ExecuteFn::Bne | ExecuteFn::Bpl
            | ExecuteFn::Bvc | ExecuteFn::Bvs => if subcycle == 0 { Access::Read(self.operand_addr()) } else { Access::Read(self.pc) },
            _ => Access::Read(self.operand_addr()),
        }
    }

    /// BRK and the interrupt sequence: dummy read (skipping the padding
    /// byte for a software BRK), push pc high, pc low and status (B set only
    /// for a software BRK), set I and acknowledge the pending NMI (or a
    /// hijacking IRQ) while reading the vector's low byte, then its high
    /// byte into pc.
    pub open spec fn brk_spec(self, subcycle: u8) -> (bool, CPU) {
        if subcycle == 0 {
            let (_, c) = self.read(self.pc);
            (false, if self.software_interrupt { CPU { pc: add16(c.pc, 1), ..c } } else { c })
        } else if subcycle == 1 {
            (false, self.push_spec((self.pc / 256) as u8))
        } else if subcycle == 2 {
            (false, self.push_spec((self.pc % 256) as u8))
        } else if subcycle == 3 {
            (false, self.push_spec(if self.software_interrupt { self.p | BREAK } else { self.p & !BREAK }))
        } else if subcycle == 4 {
            let c1 = CPU {
                p: self.p | INTERRUPT_DISABLE,
                nmi_pending: if self.store.vector == NMI_VECTOR { false } else { self.nmi_pending },
                irq_pending: if self.store.vector == IRQ_VECTOR && self.hijacked { false } else { self.irq_pending },
                ..self
            };
            let (v, c2) = c1.read(self.store.vector);
            (false, CPU { store: CPUStore { lo: v, ..c2.store }, ..c2 })
        } else {
            let (v, c) = self.read((self.store.vector + 1) as u16);
            let target = word(c.store.lo, v);
            (true, CPU {
                store: CPUStore { hi: v, addr: target, ..c.store },
                pc: target,
                software_interrupt: false,
                servicing_interrupt: false,
                ..c
            })
        }
    }

    /// Effect of the one-cycle instruction `f` on the CPU after its operand `d` was read.
    pub open spec fn one_cycle_effect(c: CPU, f: ExecuteFn, d: u8) -> CPU {
        match f {
            ExecuteFn::Ora => { let a = c.a | d; CPU { a: a, p: nz(c.p, a), ..c } },
            ExecuteFn::And => { let a = c.a & d; CPU { a: a, p: nz(c.p, a), ..c } },
            ExecuteFn::Eor => { let a = c.a ^ d; CPU { a: a, p: nz(c.p, a), ..c } },
            ExecuteFn::Adc => { let (r, p) = add_spec(c.p, c.a, d, false); CPU { a: r, p: nz(p, r), ..c } },
            ExecuteFn::Sbc => { let (r, p) = add_spec(c.p, c.a, d, true); CPU { a: r, p: nz(p, r), ..c } },
            ExecuteFn::Lda => CPU { a: d, p: nz(c.p, d), ..c },
            ExecuteFn::Ldx => CPU { x: d, p: nz(c.p, d), ..c },
            ExecuteFn::Ldy => CPU { y: d, p: nz(c.p, d), ..c },
            ExecuteFn::Cmp => CPU { p: compare_spec(c.p, c.a, d), ..c },
            ExecuteFn::Cpx => CPU { p: compare_spec(c.p, c.x, d), ..c },
            ExecuteFn::Cpy => CPU { p: compare_spec(c.p, c.y, d), ..c },
            ExecuteFn::Bit => CPU {
                p: setf(setf(setf(c.p, ZERO, c.a & d == 0), OVERFLOW, d & 0x40 != 0), NEGATIVE, d & 0x80 != 0),
                ..c
            },
            ExecuteFn::Clc => CPU { p: c.p & !CARRY, ..c },
            ExecuteFn::Sec => CPU { p: c.p | CARRY, ..c },
            ExecuteFn::Cli => CPU { p: c.p & !INTERRUPT_DISABLE, ..c },
            ExecuteFn::Sei => CPU { p: c.p | INTERRUPT_DISABLE, ..c },
            ExecuteFn::Cld => CPU { p: c.p & !DECIMAL_MODE, ..c },
            ExecuteFn::Sed => CPU { p: c.p | DECIMAL_MODE, ..c },
            ExecuteFn::Clv => CPU { p: c.p & !OVERFLOW, ..c },
            ExecuteFn::Tax => CPU { x: c.a, p: nz(c.p, c.a), ..c },
            ExecuteFn::Tay => CPU { y: c.a, p: nz(c.p, c.a), ..c },
            ExecuteFn::Txa => CPU { a: c.x, p: nz(c.p, c.x), ..c },
            ExecuteFn::Tya => CPU { a: c.y, p: nz(c.p, c.y), ..c },
            ExecuteFn::Tsx => CPU { x: c.sp, p: nz(c.p, c.sp), ..c },
            ExecuteFn::Txs => CPU { sp: c.x, ..c },
            ExecuteFn::Inx => { let x = add8(c.x, 1); CPU { x: x, p: nz(c.p, x), ..c } },
            ExecuteFn::Iny => { let y = add8(c.y, 1); CPU { y: y, p: nz(c.p, y), ..c } },
            ExecuteFn::Dex => { let x = sub8(c.x, 1); CPU { x: x, p: nz(c.p, x), ..c } },
            ExecuteFn::Dey => { let y = sub8(c.y, 1); CPU { y: y, p: nz(c.p, y), ..c } },
            _ => c,
        }
    }

    /// The one-cycle instructions whose operand value is kept in `store.data`.
    pub open spec fn keeps_operand(f: ExecuteFn) -> bool {
        match f {
            ExecuteFn::Ora | ExecuteFn::And | ExecuteFn::Eor | ExecuteFn::Adc | ExecuteFn::Sbc | ExecuteFn::Lda
            | ExecuteFn::Ldx | ExecuteFn::Ldy | ExecuteFn::Cmp | ExecuteFn::Cpx | ExecuteFn::Cpy | ExecuteFn::Bit => true,
            _ => false,
        }
    }

    /// A one-cycle instruction `f`: read the operand, then apply `f`.
    pub open spec fn one_cycle_spec(self, f: ExecuteFn) -> (bool, CPU) {
        let (d, c) = self.operand_spec();
        let c1 = if Self::keeps_operand(f) { CPU { store: CPUStore { data: d, ..c.store }, ..c } } else { c };
        (true, Self::one_cycle_effect(c1, f, d))
    }

    /// A store: the register is written to the decoded address.
    pub open spec fn store_spec(self, v: u8) -> (bool, CPU) {
        (true, self.write(self.store.addr, v))
    }

    /// ASL/LSR/ROL/ROR: in accumulator mode one cycle (dummy read, shift A);
    /// on memory three: read, write back the old value while shifting, write
    /// the new value and set N and Z.
    pub open spec fn shift_spec(self, left: bool, with_carry: bool, subcycle: u8) -> (bool, CPU) {
        let cf = flag_set(self.p, CARRY);
        if self.op().mode == AddressingMode::ACC {
            let (_, c) = self.operand_spec();
            let (r, p) = shift_data_spec(c.p, left, with_carry, cf, c.a);
            (true, CPU { a: r, p: nz(p, r), ..c })
        } else if subcycle == 0 {
            let (d, c) = self.operand_spec();
            (false, CPU { store: CPUStore { data: d, ..c.store }, ..c })
        } else if subcycle == 1 {
            let c = self.set_result_spec();
            let (r, p) = shift_data_spec(c.p, left, with_carry, cf, c.store.data);
            (false, CPU { store: CPUStore { data: r, ..c.store }, p: p, ..c })
        } else {
            let c = self.set_result_spec();
            (true, CPU { p: nz(c.p, c.store.data), ..c })
        }
    }

    /// INC/DEC on memory: read, write back the old value while stepping it,
    /// write the new value and set N and Z.
    pub open spec fn step_memory_spec(self, up: bool, subcycle: u8) -> (bool, CPU) {
        if subcycle == 0 {
            let (d, c) = self.operand_spec();
            (false, CPU { store: CPUStore { data: d, ..c.store }, ..c })
        } else if subcycle == 1 {
            let c = self.set_result_spec();
            let d = if up { add8(c.store.data, 1) } else { sub8(c.store.data, 1) };
            (false, CPU { store: CPUStore { data: d, ..c.store }, ..c })
        } else {
            let c = self.set_result_spec();
            (true, CPU { p: nz(c.p, c.store.data), ..c })
        }
    }

    /// PHP/PHA: dummy read, then push (PHP pushes status with B set).
    pub open spec fn push_op_spec(self, v: u8, subcycle: u8) -> (bool, CPU) {
        if subcycle == 0 {
            (false, self.operand_spec().1)
        } else {
            (true, self.push_spec(v))
        }
    }

    /// PLP/PLA: dummy read, dummy stack read, then pull into status (keeping
    /// B and the unused bit) or into A (setting N and Z).
    pub open spec fn pull_op_spec(self, into_a: bool, subcycle: u8) -> (bool, CPU) {
        if subcycle == 0 {
            (false, self.operand_spec().1)
        } else if subcycle == 1 {
            (false, self.peek_stack_spec().1)
        } else {
            let (v, c) = self.pop_spec();
            if into_a { (true, CPU { a: v, p: nz(c.p, v), ..c }) } else { (true, CPU { p: pulled_flags(c.p, v), ..c }) }
        }
    }

    /// JSR: target low byte, dummy stack read, push pc high and low (pc
    /// points at the target's high byte), then target high byte into pc.
    pub open spec fn jsr_spec(self, subcycle: u8) -> (bool, CPU) {
        if subcycle == 0 {
            let (v, c) = self.read(self.pc);
            (false, CPU { store: CPUStore { lo: v, ..c.store }, pc: add16(c.pc, 1), ..c })
        } else if subcycle == 1 {
            (false, self.peek_stack_spec().1)
        } else if subcycle == 2 {
            (false, self.push_spec((self.pc / 256) as u8))
        } else if subcycle == 3 {
            (false, self.push_spec((self.pc % 256) as u8))
        } else {
            let (v, c) = self.read(self.pc);
            (true, CPU { store: CPUStore { hi: v, ..c.store }, pc: word(c.store.lo, v), ..c })
        }
    }

    /// RTI: dummy read, dummy stack read, pull status, pull pc low, pull pc high.
    pub open spec fn rti_spec(self, subcycle: u8) -> (bool, CPU) {
        if subcycle == 0 {
            (false, self.operand_spec().1)
        } else if subcycle == 1 {
            (false, self.peek_stack_spec().1)
        } else if subcycle == 2 {
            let (v, c) = self.pop_spec();
            (false, CPU { p: pulled_flags(c.p, v), ..c })
        } else if subcycle == 3 {
            let (v, c) = self.pop_spec();
            (false, CPU { pc: word(v, (c.pc / 256) as u8), ..c })
        } else {
            let (v, c) = self.pop_spec();
            (true, CPU { pc: word((c.pc % 256) as u8, v), ..c })
        }
    }

    /// RTS: dummy read, dummy stack read, pull pc low and high, then a dummy
    /// read at pc and pc + 1.
    pub open spec fn rts_spec(self, subcycle: u8) -> (bool, CPU) {
        if subcycle == 0 {
            (false, self.operand_spec().1)
        } else if subcycle == 1 {
            (false, self.peek_stack_spec().1)
        } else if subcycle == 2 {
            let (v, c) = self.pop_spec();
            (false, CPU { store: CPUStore { lo: v, ..c.store }, ..c })
        } else if subcycle == 3 {
            let (v, c) = self.pop_spec();
            (false, CPU { store: CPUStore { hi: v, ..c.store }, pc: word(c.store.lo, v), ..c })
        } else {
            let (_, c) = self.read(self.pc);
            (true, CPU { pc: add16(c.pc, 1), ..c })
        }
    }

    /// JMP: target low and high byte; absolute jumps there, indirect reads
    /// the target from that pointer, whose high byte comes from the same page.
    pub open spec fn jmp_spec(self, subcycle: u8) -> (bool, CPU) {
        if subcycle == 0 {
            let (v, c) = self.read(self.pc);
            (false, CPU { store: CPUStore { lo: v, ..c.store }, pc: add16(c.pc, 1), ..c })
        } else if subcycle == 1 {
            let (v, c) = self.read(self.pc);
            let addr = word(c.store.lo, v);
            let c1 = CPU { store: CPUStore { hi: v, addr: addr, ..c.store }, ..c };
            if self.op().mode == AddressingMode::ABS {
                (true, CPU { pc: addr, ..c1 })
            } else {
                (false, CPU { pc: add16(c.pc, 1), ..c1 })
            }
        } else if subcycle == 2 {
            let (v, c) = self.read(self.store.addr);
            (false, CPU { store: CPUStore { lo: v, ..c.store }, ..c })
        } else {
            let addr = indirect_hi_addr(self.store.addr);
            let (v, c) = self.read(addr);
            (true, CPU { store: CPUStore { addr: addr, hi: v, ..c.store }, pc: word(c.store.lo, v), ..c })
        }
    }

    /// A conditional branch: operand read (a taken branch costs a cycle),
    /// then a dummy read while the low byte of pc moves (crossing a page
    /// costs another), then a dummy read and the fixed-up target.
    pub open spec fn branch_spec(self, jmp: bool, subcycle: u8) -> (bool, CPU) {
        if subcycle == 0 {
            let (d, c) = self.operand_spec();
            (!jmp, CPU {
                store: CPUStore { offset: d as i8, ..c.store },
                required_ins_ticks: if jmp { (c.required_ins_ticks + 1) as u8 } else { c.required_ins_ticks },
                ..c
            })
        } else if subcycle == 1 {
            let (_, c) = self.read(self.pc);
            let target = ((c.pc as int + c.store.offset as int + 0x10000) % 0x10000) as u16;
            let pc = word((target % 256) as u8, (c.pc / 256) as u8);
            let same = c.pc / 256 == target / 256;
            (same, CPU {
                store: CPUStore { addr: target, ..c.store },
                pc: pc,
                required_ins_ticks: if !same { (c.required_ins_ticks + 1) as u8 } else { c.required_ins_ticks },
                ..c
            })
        } else {
            let (_, c) = self.read(self.pc);
            (true, CPU { pc: c.store.addr, ..c })
        }
    }

    /// The branch condition of a branch instruction.
    pub open spec fn branch_taken(self, f: ExecuteFn) -> bool {
        match f {
            ExecuteFn::Bpl => !flag_set(self.p, NEGATIVE),
            ExecuteFn::Bmi => flag_set(self.p, NEGATIVE),
            ExecuteFn::Bvc => !flag_set(self.p, OVERFLOW),
            ExecuteFn::Bvs => flag_set(self.p, OVERFLOW),
            ExecuteFn::Bcc => !flag_set(self.p, CARRY),
            ExecuteFn::Bcs => flag_set(self.p, CARRY),
            ExecuteFn::Bne => !flag_set(self.p, ZERO),
            _ => flag_set(self.p, ZERO),
        }
    }

    /// The step of the instruction in flight at execute `subcycle`.
    #[verifier::opaque]
    pub open spec fn execute_spec(self, subcycle: u8) -> (bool, CPU) {
        let f = self.op().execute_fn;
        match f {
            ExecuteFn::Brk => self.brk_spec(subcycle),
            ExecuteFn::Sta => self.store_spec(self.a),
            ExecuteFn::Stx => self.store_spec(self.x),
            ExecuteFn::Sty => self.store_spec(self.y),
            ExecuteFn::Asl => self.shift_spec(true, false, subcycle),
            ExecuteFn::Rol => self.shift_spec(true, true, subcycle),
            ExecuteFn::Lsr => self.shift_spec(false, false, subcycle),
            ExecuteFn::Ror => self.shift_spec(false, true, subcycle),
            ExecuteFn::Inc => self.step_memory_spec(true, subcycle),
            ExecuteFn::Dec => self.step_memory_spec(false, subcycle),
            ExecuteFn::Php => self.push_op_spec(self.p | BREAK, subcycle),
            ExecuteFn::Pha => self.push_op_spec(self.a, subcycle),
            ExecuteFn::Plp => self.pull_op_spec(false, subcycle),
            ExecuteFn::Pla => self.pull_op_spec(true, subcycle),
            ExecuteFn::Jsr => self.jsr_spec(subcycle),
            ExecuteFn::Rti => self.rti_spec(subcycle),
            ExecuteFn::Rts => self.rts_spec(subcycle),
            ExecuteFn::Jmp => self.jmp_spec(subcycle),
            ExecuteFn::Bcc | ExecuteFn::Bcs | ExecuteFn::Beq | ExecuteFn::Bmi | ExecuteFn::Bne | ExecuteFn::Bpl
            | ExecuteFn::Bvc | ExecuteFn::Bvs => self.branch_spec(self.branch_taken(f), subcycle),
            _ => self.one_cycle_spec(f),
        }
    }
}

impl CPU {
    pub(crate) fn pull_flags(&mut self, flags: u8)
        ensures
            *final(self) == (CPU { p: pulled_flags(old(self).p, flags), ..*old(self) }),
    {
        self.p = if flags & CARRY != 0 { self.p | CARRY } else { self.p & !CARRY };
        self.p = if flags & ZERO != 0 { self.p | ZERO } else { self.p & !ZERO };
        self.p = if flags & INTERRUPT_DISABLE != 0 { self.p | INTERRUPT_DISABLE } else { self.p & !INTERRUPT_DISABLE };
        self.p = if flags & DECIMAL_MODE != 0 { self.p | DECIMAL_MODE } else { self.p & !DECIMAL_MODE };
        self.p = if flags & OVERFLOW != 0 { self.p | OVERFLOW } else { self.p & !OVERFLOW };
        self.p = if flags & NEGATIVE != 0 { self.p | NEGATIVE } else { self.p & !NEGATIVE };
    }

    #[verifier::rlimit(40)]
    #[verifier::spinoff_prover]
    pub(crate) fn shift(&mut self, left: bool, with_carry: bool, subcycle: u8) -> (done: bool)
        requires
            old(self).ready(),
            old(self).op().mode == AddressingMode::ACC || subcycle <= 2,
            old(self).op().mode == AddressingMode::ACC || subcycle == 0 ==> old(self).bus.read_ok(old(self).operand_addr()),
            old(self).op().mode != AddressingMode::ACC && subcycle >= 1 ==> old(self).bus.write_ok(old(self).store.addr),
        ensures
            final(self).ready(),
            (done, *final(self)) == old(self).shift_spec(left, with_carry, subcycle),
    {
        let cf = self.p & CARRY != 0;
        if self.ins.unwrap().mode == AddressingMode::ACC {
            let _ = self.get_operand();
            self.a = self.shift_data(left, with_carry, cf, self.a);
            self.set_nz(self.a);
            true
        } else {
            if subcycle == 0 {
                self.store.data = self.get_operand();
                false
            } else if subcycle == 1 {
                self.set_result();
                self.store.data = self.shift_data(left, with_carry, cf, self.store.data);
                false
            } else {
                self.set_result();
                self.set_nz(self.store.data);
                true
            }
        }
    }

    pub(crate) fn branch(&mut self, jmp: bool, subcycle: u8) -> (done: bool)
        requires
            old(self).ready(),
            subcycle <= 2,
            subcycle == 0 ==> old(self).bus.read_ok(old(self).operand_addr()),
            subcycle >= 1 ==> old(self).bus.read_ok(old(self).pc),
            old(self).required_ins_ticks < 254,
        ensures
            final(self).ready(),
            (done, *final(self)) == old(self).branch_spec(jmp, subcycle),
    {
        if subcycle == 0 {
            self.store.offset = self.get_operand() as i8;
            if jmp {
                self.required_ins_ticks += 1;
            }
            !jmp
        } else if subcycle == 1 {
            let _ = self.bus.mem_read(self.pc);
            let off = self.store.offset as i16 as u16;
            proof {
                let o = self.store.offset;
                let pc = self.pc;
                assert(vstd::wrapping::u16_specs::wrapping_add(pc, (o as i16) as u16)
                    == ((pc as int + o as int + 0x10000) % 0x10000) as u16) by (bit_vector);
            }
            self.store.addr = self.pc.wrapping_add(off);
            self.pc = le_word(lo_byte(self.store.addr), hi_byte(self.pc));
            if hi_byte(self.pc) != hi_byte(self.store.addr) {
                self.required_ins_ticks += 1;
            }
            hi_byte(self.pc) == hi_byte(self.store.addr)
        } else {
            let _ = self.bus.mem_read(self.pc);
            self.pc = self.store.addr;
            true
        }
    }
}

} // verus!
