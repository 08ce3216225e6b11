//! The official instructions, one method per mnemonic, each stepping one
//! execute subcycle.
use super::{AddressingMode, ExecuteFn};
use super::execute::indirect_hi_addr;
use crate::nnes::cpu::{
    le_word, CPU, BREAK, CARRY, DECIMAL_MODE, INTERRUPT_DISABLE, IRQ_VECTOR, NEGATIVE, NMI_VECTOR, OVERFLOW, ZERO,
};
use crate::utils::{bit_6, bit_7, hi_byte, lo_byte};
use vstd::prelude::*;

verus! {

// Official execute functions
impl CPU {
    pub(crate) fn adc(&mut self, subcycle: u8) -> (done: bool)
        requires
            old(self).ready(),
            old(self).bus.read_ok(old(self).operand_addr()),
        ensures
            final(self).ready(),
            (done, *final(self)) == old(self).one_cycle_spec(ExecuteFn::Adc),
    {
        self.store.data = self.get_operand();
        self.a = self.add(self.a, self.store.data, false);
        self.set_nz(self.a);
        true
    }

    pub(crate) fn and(&mut self, subcycle: u8) -> (done: bool)
        requires
            old(self).ready(),
            old(self).bus.read_ok(old(self).operand_addr()),
        ensures
            final(self).ready(),
            (done, *final(self)) == old(self).one_cycle_spec(ExecuteFn::And),
    {
        self.store.data = self.get_operand();
        self.a &= self.store.data;
        self.set_nz(self.a);
        true
    }

    pub(crate) fn asl(&mut self, subcycle: u8) -> (done: bool)
        requires
            old(self).ready(),
            old(self).op().mode == AddressingMode::ACC || subcycle <= 2,
            old(self).op().mode == AddressingMode::ACC || subcycle == 0 ==> old(self).bus.read_ok(old(self).operand_addr()),
            old(self).op().mode != AddressingMode::ACC && subcycle >= 1 ==> old(self).bus.write_ok(old(self).store.addr),
        ensures
            final(self).ready(),
            (done, *final(self)) == old(self).shift_spec(true, false, subcycle),
    {
        self.shift(true, false, subcycle)
    }

    pub(crate) fn bcc(&mut self, subcycle: u8) -> (done: bool)
        requires
            old(self).ready(),
            subcycle <= 2,
            subcycle == 0 ==> old(self).bus.read_ok(old(self).operand_addr()),
            subcycle >= 1 ==> old(self).bus.read_ok(old(self).pc),
            old(self).required_ins_ticks < 254,
        ensures
            final(self).ready(),
            (done, *final(self)) == old(self).branch_spec(old(self).branch_taken(ExecuteFn::Bcc), subcycle),
    {
        let taken = self.p & CARRY == 0;
        self.branch(taken, subcycle)
    }

    pub(crate) fn bcs(&mut self, subcycle: u8) -> (done: bool)
        requires
            old(self).ready(),
            subcycle <= 2,
            subcycle == 0 ==> old(self).bus.read_ok(old(self).operand_addr()),
            subcycle >= 1 ==> old(self).bus.read_ok(old(self).pc),
            old(self).required_ins_ticks < 254,
        ensures
            final(self).ready(),
            (done, *final(self)) == old(self).branch_spec(old(self).branch_taken(ExecuteFn::Bcs), subcycle),
    {
        let taken = self.p & CARRY != 0;
        self.branch(taken, subcycle)
    }

    pub(crate) fn beq(&mut self, subcycle: u8) -> (done: bool)
        requires
            old(self).ready(),
            subcycle <= 2,
            subcycle == 0 ==> old(self).bus.read_ok(old(self).operand_addr()),
            subcycle >= 1 ==> old(self).bus.read_ok(old(self).pc),
            old(self).required_ins_ticks < 254,
        ensures
            final(self).ready(),
            (done, *final(self)) == old(self).branch_spec(old(self).branch_taken(ExecuteFn::Beq), subcycle),
    {
        let taken = self.p & ZERO != 0;
        self.branch(taken, subcycle)
    }

    pub(crate) fn bit(&mut self, subcycle: u8) -> (done: bool)
        requires
            old(self).ready(),
            old(self).bus.read_ok(old(self).operand_addr()),
        ensures
            final(self).ready(),
            (done, *final(self)) == old(self).one_cycle_spec(ExecuteFn::Bit),
    {
        self.store.data = self.get_operand();
        let res = self.a & self.store.data;
        self.p = if res == 0 { self.p | ZERO } else { self.p & !ZERO };
        self.p = if bit_6(self.store.data) != 0 { self.p | OVERFLOW } else { self.p & !OVERFLOW };
        self.p = if bit_7(self.store.data) != 0 { self.p | NEGATIVE } else { self.p & !NEGATIVE };
        true
    }

    pub(crate) fn bmi(&mut self, subcycle: u8) -> (done: bool)
        requires
            old(self).ready(),
            subcycle <= 2,
            subcycle == 0 ==> old(self).bus.read_ok(old(self).operand_addr()),
            subcycle >= 1 ==> old(self).bus.read_ok(old(self).pc),
            old(self).required_ins_ticks < 254,
        ensures
            final(self).ready(),
            (done, *final(self)) == old(self).branch_spec(old(self).branch_taken(ExecuteFn::Bmi), subcycle),
    {
        let taken = self.p & NEGATIVE != 0;
        self.branch(taken, subcycle)
    }

    pub(crate) fn bne(&mut self, subcycle: u8) -> (done: bool)
        requires
            old(self).ready(),
            subcycle <= 2,
            subcycle == 0 ==> old(self).bus.read_ok(old(self).operand_addr()),
            subcycle >= 1 ==> old(self).bus.read_ok(old(self).pc),
            old(self).required_ins_ticks < 254,
        ensures
            final(self).ready(),
            (done, *final(self)) == old(self).branch_spec(old(self).branch_taken(ExecuteFn::Bne), subcycle),
    {
        let taken = self.p & ZERO == 0;
        self.branch(taken, subcycle)
    }

    pub(crate) fn bpl(&mut self, subcycle: u8) -> (done: bool)
        requires
            old(self).ready(),
            subcycle <= 2,
            subcycle == 0 ==> old(self).bus.read_ok(old(self).operand_addr()),
            subcycle >= 1 ==> old(self).bus.read_ok(old(self).pc),
            old(self).required_ins_ticks < 254,
        ensures
            final(self).ready(),
            (done, *final(self)) == old(self).branch_spec(old(self).branch_taken(ExecuteFn::Bpl), subcycle),
    {
        let taken = self.p & NEGATIVE == 0;
        self.branch(taken, subcycle)
    }

    pub(crate) fn bvc(&mut self, subcycle: u8) -> (done: bool)
        requires
            old(self).ready(),
            subcycle <= 2,
            subcycle == 0 ==> old(self).bus.read_ok(old(self).operand_addr()),
            subcycle >= 1 ==> old(self).bus.read_ok(old(self).pc),
            old(self).required_ins_ticks < 254,
        ensures
            final(self).ready(),
            (done, *final(self)) == old(self).branch_spec(old(self).branch_taken(ExecuteFn::Bvc), subcycle),
    {
        let taken = self.p & OVERFLOW == 0;
        self.branch(taken, subcycle)
    }

    pub(crate) fn bvs(&mut self, subcycle: u8) -> (done: bool)
        requires
            old(self).ready(),
            subcycle <= 2,
            subcycle == 0 ==> old(self).bus.read_ok(old(self).operand_addr()),
            subcycle >= 1 ==> old(self).bus.read_ok(old(self).pc),
            old(self).required_ins_ticks < 254,
        ensures
            final(self).ready(),
            (done, *final(self)) == old(self).branch_spec(old(self).branch_taken(ExecuteFn::Bvs), subcycle),
    {
        let taken = self.p & OVERFLOW != 0;
        self.branch(taken, subcycle)
    }

    pub(crate) fn clc(&mut self, subcycle: u8) -> (done: bool)
        requires
            old(self).ready(),
            old(self).bus.read_ok(old(self).operand_addr()),
        ensures
            final(self).ready(),
            (done, *final(self)) == old(self).one_cycle_spec(ExecuteFn::Clc),
    {
        let _ = self.get_operand();
        self.p = self.p & !CARRY;
        true
    }

    pub(crate) fn cld(&mut self, subcycle: u8) -> (done: bool)
        requires
            old(self).ready(),
            old(self).bus.read_ok(old(self).operand_addr()),
        ensures
            final(self).ready(),
            (done, *final(self)) == old(self).one_cycle_spec(ExecuteFn::Cld),
    {
        let _ = self.get_operand();
        self.p = self.p & !DECIMAL_MODE;
        true
    }

    pub(crate) fn cli(&mut self, subcycle: u8) -> (done: bool)
        requires
            old(self).ready(),
            old(self).bus.read_ok(old(self).operand_addr()),
        ensures
            final(self).ready(),
            (done, *final(self)) == old(self).one_cycle_spec(ExecuteFn::Cli),
    {
        let _ = self.get_operand();
        self.p = self.p & !INTERRUPT_DISABLE;
        true
    }

    pub(crate) fn clv(&mut self, subcycle: u8) -> (done: bool)
        requires
            old(self).ready(),
            old(self).bus.read_ok(old(self).operand_addr()),
        ensures
            final(self).ready(),
            (done, *final(self)) == old(self).one_cycle_spec(ExecuteFn::Clv),
    {
        let _ = self.get_operand();
        self.p = self.p & !OVERFLOW;
        true
    }

    pub(crate) fn cmp(&mut self, subcycle: u8) -> (done: bool)
        requires
            old(self).ready(),
            old(self).bus.read_ok(old(self).operand_addr()),
        ensures
            final(self).ready(),
            (done, *final(self)) == old(self).one_cycle_spec(ExecuteFn::Cmp),
    {
        self.store.data = self.get_operand();
        self.compare(self.a, self.store.data);
        true
    }

    pub(crate) fn cpx(&mut self, subcycle: u8) -> (done: bool)
        requires
            old(self).ready(),
            old(self).bus.read_ok(old(self).operand_addr()),
        ensures
            final(self).ready(),
            (done, *final(self)) == old(self).one_cycle_spec(ExecuteFn::Cpx),
    {
        self.store.data = self.get_operand();
        self.compare(self.x, self.store.data);
        true
    }

    pub(crate) fn cpy(&mut self, subcycle: u8) -> (done: bool)
        requires
            old(self).ready(),
            old(self).bus.read_ok(old(self).operand_addr()),
        ensures
            final(self).ready(),
            (done, *final(self)) == old(self).one_cycle_spec(ExecuteFn::Cpy),
    {
        self.store.data = self.get_operand();
        self.compare(self.y, self.store.data);
        true
    }

    #[verifier::rlimit(40)]
    #[verifier::spinoff_prover]
    pub(crate) fn dec(&mut self, subcycle: u8) -> (done: bool)
        requires
            old(self).ready(),
            subcycle <= 2,
            subcycle == 0 ==> old(self).bus.read_ok(old(self).operand_addr()),
            subcycle >= 1 ==> old(self).op().mode != AddressingMode::ACC && old(self).bus.write_ok(old(self).store.addr),
        ensures
            final(self).ready(),
            (done, *final(self)) == old(self).step_memory_spec(false, subcycle),
    {
        if subcycle == 0 {
            self.store.data = self.get_operand();
            false
        } else if subcycle == 1 {
            self.set_result();
            self.store.data = self.store.data.wrapping_sub(1);
            false
        } else {
            self.set_result();
            self.set_nz(self.store.data);
            true
        }
    }

    pub(crate) fn dex(&mut self, subcycle: u8) -> (done: bool)
        requires
            old(self).ready(),
            old(self).bus.read_ok(old(self).operand_addr()),
        ensures
            final(self).ready(),
            (done, *final(self)) == old(self).one_cycle_spec(ExecuteFn::Dex),
    {
        let _ = self.get_operand();
        self.x = self.x.wrapping_sub(1);
        self.set_nz(self.x);
        true
    }

    pub(crate) fn dey(&mut self, subcycle: u8) -> (done: bool)
        requires
            old(self).ready(),
            old(self).bus.read_ok(old(self).operand_addr()),
        ensures
            final(self).ready(),
            (done, *final(self)) == old(self).one_cycle_spec(ExecuteFn::Dey),
    {
        let _ = self.get_operand();
        self.y = self.y.wrapping_sub(1);
        self.set_nz(self.y);
        true
    }

    pub(crate) fn eor(&mut self, subcycle: u8) -> (done: bool)
        requires
            old(self).ready(),
            old(self).bus.read_ok(old(self).operand_addr()),
        ensures
            final(self).ready(),
            (done, *final(self)) == old(self).one_cycle_spec(ExecuteFn::Eor),
    {
        self.store.data = self.get_operand();
        self.a ^= self.store.data;
        self.set_nz(self.a);
        true
    }

    #[verifier::rlimit(40)]
    #[verifier::spinoff_prover]
    pub(crate) fn inc(&mut self, subcycle: u8) -> (done: bool)
        requires
            old(self).ready(),
            subcycle <= 2,
            subcycle == 0 ==> old(self).bus.read_ok(old(self).operand_addr()),
            subcycle >= 1 ==> old(self).op().mode != AddressingMode::ACC && old(self).bus.write_ok(old(self).store.addr),
        ensures
            final(self).ready(),
            (done, *final(self)) == old(self).step_memory_spec(true, subcycle),
    {
        if subcycle == 0 {
            self.store.data = self.get_operand();
            false
        } else if subcycle == 1 {
            self.set_result();
            self.store.data = self.store.data.wrapping_add(1);
            false
        } else {
            self.set_result();
            self.set_nz(self.store.data);
            true
        }
    }

    pub(crate) fn inx(&mut self, subcycle: u8) -> (done: bool)
        requires
            old(self).ready(),
            old(self).bus.read_ok(old(self).operand_addr()),
        ensures
            final(self).ready(),
            (done, *final(self)) == old(self).one_cycle_spec(ExecuteFn::Inx),
    {
        let _ = self.get_operand();
        self.x = self.x.wrapping_add(1);
        self.set_nz(self.x);
        true
    }

    pub(crate) fn iny(&mut self, subcycle: u8) -> (done: bool)
        requires
            old(self).ready(),
            old(self).bus.read_ok(old(self).operand_addr()),
        ensures
            final(self).ready(),
            (done, *final(self)) == old(self).one_cycle_spec(ExecuteFn::Iny),
    {
        let _ = self.get_operand();
        self.y = self.y.wrapping_add(1);
        self.set_nz(self.y);
        true
    }

    pub(crate) fn jmp(&mut self, subcycle: u8) -> (done: bool)
        requires
            old(self).ready(),
            subcycle <= 3,
            subcycle <= 1 ==> old(self).bus.read_ok(old(self).pc),
            subcycle == 2 ==> old(self).bus.read_ok(old(self).store.addr),
            subcycle == 3 ==> old(self).bus.read_ok(indirect_hi_addr(old(self).store.addr)),
        ensures
            final(self).ready(),
            (done, *final(self)) == old(self).jmp_spec(subcycle),
    {
        if subcycle == 0 {
            self.store.lo = self.bus.mem_read(self.pc);
            self.pc = self.pc.wrapping_add(1);
            false
        } else if subcycle == 1 {
            self.store.hi = self.bus.mem_read(self.pc);
            self.store.addr = le_word(self.store.lo, self.store.hi);
            if self.ins.unwrap().mode == AddressingMode::ABS {
                self.pc = self.store.addr;
                true
            } else {
                self.pc = self.pc.wrapping_add(1);
                false
            }
        } else if subcycle == 2 {
            self.store.lo = self.bus.mem_read(self.store.addr);
            false
        } else {
            self.store.addr = le_word(lo_byte(self.store.addr.wrapping_add(1)), hi_byte(self.store.addr));
            self.store.hi = self.bus.mem_read(self.store.addr);
            self.pc = le_word(self.store.lo, self.store.hi);
            true
        }
    }

    pub(crate) fn jsr(&mut self, subcycle: u8) -> (done: bool)
        requires
            old(self).ready(),
            subcycle <= 4,
            subcycle == 0 || subcycle == 4 ==> old(self).bus.read_ok(old(self).pc),
        ensures
            final(self).ready(),
            (done, *final(self)) == old(self).jsr_spec(subcycle),
    {
        if subcycle == 0 {
            self.store.lo = self.bus.mem_read(self.pc);
            self.pc = self.pc.wrapping_add(1);
            false
        } else if subcycle == 1 {
            let _ = self.stack_peek();
            false
        } else if subcycle == 2 {
            self.stack_push(hi_byte(self.pc));
            false
        } else if subcycle == 3 {
            self.stack_push(lo_byte(self.pc));
            false
        } else {
            self.store.hi = self.bus.mem_read(self.pc);
            self.pc = le_word(self.store.lo, self.store.hi);
            true
        }
    }

    pub(crate) fn lda(&mut self, subcycle: u8) -> (done: bool)
        requires
            old(self).ready(),
            old(self).bus.read_ok(old(self).operand_addr()),
        ensures
            final(self).ready(),
            (done, *final(self)) == old(self).one_cycle_spec(ExecuteFn::Lda),
    {
        self.store.data = self.get_operand();
        self.a = self.store.data;
        self.set_nz(self.a);
        true
    }

    pub(crate) fn ldx(&mut self, subcycle: u8) -> (done: bool)
        requires
            old(self).ready(),
            old(self).bus.read_ok(old(self).operand_addr()),
        ensures
            final(self).ready(),
            (done, *final(self)) == old(self).one_cycle_spec(ExecuteFn::Ldx),
    {
        self.store.data = self.get_operand();
        self.x = self.store.data;
        self.set_nz(self.x);
        true
    }

    pub(crate) fn ldy(&mut self, subcycle: u8) -> (done: bool)
        requires
            old(self).ready(),
            old(self).bus.read_ok(old(self).operand_addr()),
        ensures
            final(self).ready(),
            (done, *final(self)) == old(self).one_cycle_spec(ExecuteFn::Ldy),
    {
        self.store.data = self.get_operand();
        self.y = self.store.data;
        self.set_nz(self.y);
        true
    }

    pub(crate) fn lsr(&mut self, subcycle: u8) -> (done: bool)
        requires
            old(self).ready(),
            old(self).op().mode == AddressingMode::ACC || subcycle <= 2,
            old(self).op().mode == AddressingMode::ACC || subcycle == 0 ==> old(self).bus.read_ok(old(self).operand_addr()),
            old(self).op().mode != AddressingMode::ACC && subcycle >= 1 ==> old(self).bus.write_ok(old(self).store.addr),
        ensures
            final(self).ready(),
            (done, *final(self)) == old(self).shift_spec(false, false, subcycle),
    {
        self.shift(false, false, subcycle)
    }

    pub(crate) fn nop(&mut self, subcycle: u8) -> (done: bool)
        requires
            old(self).ready(),
            old(self).bus.read_ok(old(self).operand_addr()),
        ensures
            final(self).ready(),
            (done, *final(self)) == old(self).one_cycle_spec(ExecuteFn::Nop),
    {
        let _ = self.get_operand();
        true
    }

    pub(crate) fn ora(&mut self, subcycle: u8) -> (done: bool)
        requires
            old(self).ready(),
            old(self).bus.read_ok(old(self).operand_addr()),
        ensures
            final(self).ready(),
            (done, *final(self)) == old(self).one_cycle_spec(ExecuteFn::Ora),
    {
        self.store.data = self.get_operand();
        self.a |= self.store.data;
        self.set_nz(self.a);
        true
    }

    pub(crate) fn pha(&mut self, subcycle: u8) -> (done: bool)
        requires
            old(self).ready(),
            subcycle <= 1,
            subcycle == 0 ==> old(self).bus.read_ok(old(self).operand_addr()),
        ensures
            final(self).ready(),
            (done, *final(self)) == old(self).push_op_spec(old(self).a, subcycle),
    {
        if subcycle == 0 {
            let _ = self.get_operand();
            false
        } else {
            self.stack_push(self.a);
            true
        }
    }

    pub(crate) fn php(&mut self, subcycle: u8) -> (done: bool)
        requires
            old(self).ready(),
            subcycle <= 1,
            subcycle == 0 ==> old(self).bus.read_ok(old(self).operand_addr()),
        ensures
            final(self).ready(),
            (done, *final(self)) == old(self).push_op_spec(old(self).p | BREAK, subcycle),
    {
        if subcycle == 0 {
            let _ = self.get_operand();
            false
        } else {
            self.stack_push(self.p | BREAK);
            true
        }
    }

    pub(crate) fn pla(&mut self, subcycle: u8) -> (done: bool)
        requires
            old(self).ready(),
            subcycle <= 2,
            subcycle == 0 ==> old(self).bus.read_ok(old(self).operand_addr()),
        ensures
            final(self).ready(),
            (done, *final(self)) == old(self).pull_op_spec(true, subcycle),
    {
        if subcycle == 0 {
            let _ = self.get_operand();
            false
        } else if subcycle == 1 {
            let _ = self.stack_peek();
            false
        } else {
            self.a = self.stack_pop();
            self.set_nz(self.a);
            true
        }
    }

    pub(crate) fn plp(&mut self, subcycle: u8) -> (done: bool)
        requires
            old(self).ready(),
            subcycle <= 2,
            subcycle == 0 ==> old(self).bus.read_ok(old(self).operand_addr()),
        ensures
            final(self).ready(),
            (done, *final(self)) == old(self).pull_op_spec(false, subcycle),
    {
        if subcycle == 0 {
            let _ = self.get_operand();
            false
        } else if subcycle == 1 {
            let _ = self.stack_peek();
            false
        } else {
            let flags = self.stack_pop();
            self.pull_flags(flags);
            true
        }
    }

    pub(crate) fn rol(&mut self, subcycle: u8) -> (done: bool)
        requires
            old(self).ready(),
            old(self).op().mode == AddressingMode::ACC || subcycle <= 2,
            old(self).op().mode == AddressingMode::ACC || subcycle == 0 ==> old(self).bus.read_ok(old(self).operand_addr()),
            old(self).op().mode != AddressingMode::ACC && subcycle >= 1 ==> old(self).bus.write_ok(old(self).store.addr),
        ensures
            final(self).ready(),
            (done, *final(self)) == old(self).shift_spec(true, true, subcycle),
    {
        self.shift(true, true, subcycle)
    }

    pub(crate) fn ror(&mut self, subcycle: u8) -> (done: bool)
        requires
            old(self).ready(),
            old(self).op().mode == AddressingMode::ACC || subcycle <= 2,
            old(self).op().mode == AddressingMode::ACC || subcycle == 0 ==> old(self).bus.read_ok(old(self).operand_addr()),
            old(self).op().mode != AddressingMode::ACC && subcycle >= 1 ==> old(self).bus.write_ok(old(self).store.addr),
        ensures
            final(self).ready(),
            (done, *final(self)) == old(self).shift_spec(false, true, subcycle),
    {
        self.shift(false, true, subcycle)
    }

    pub(crate) fn rti(&mut self, subcycle: u8) -> (done: bool)
        requires
            old(self).ready(),
            subcycle <= 4,
            subcycle == 0 ==> old(self).bus.read_ok(old(self).operand_addr()),
        ensures
            final(self).ready(),
            (done, *final(self)) == old(self).rti_spec(subcycle),
    {
        if subcycle == 0 {
            let _ = self.get_operand();
            false
        } else if subcycle == 1 {
            let _ = self.stack_peek();
            false
        } else if subcycle == 2 {
            let flags = self.stack_pop();
            self.pull_flags(flags);
            false
        } else if subcycle == 3 {
            let lo = self.stack_pop();
            self.pc = le_word(lo, hi_byte(self.pc));
            false
        } else {
            let hi = self.stack_pop();
            self.pc = le_word(lo_byte(self.pc), hi);
            true
        }
    }

    pub(crate) fn rts(&mut self, subcycle: u8) -> (done: bool)
        requires
            old(self).ready(),
            subcycle <= 4,
            subcycle == 0 ==> old(self).bus.read_ok(old(self).operand_addr()),
            subcycle == 4 ==> old(self).bus.read_ok(old(self).pc),
        ensures
            final(self).ready(),
            (done, *final(self)) == old(self).rts_spec(subcycle),
    {
        if subcycle == 0 {
            let _ = self.get_operand();
            false
        } else if subcycle == 1 {
            let _ = self.stack_peek();
            false
        } else if subcycle == 2 {
            self.store.lo = self.stack_pop();
            false
        } else if subcycle == 3 {
            self.store.hi = self.stack_pop();
            self.pc = le_word(self.store.lo, self.store.hi);
            false
        } else {
            let _ = self.bus.mem_read(self.pc);
            self.pc = self.pc.wrapping_add(1);
            true
        }
    }

    pub(crate) fn sbc(&mut self, subcycle: u8) -> (done: bool)
        requires
            old(self).ready(),
            old(self).bus.read_ok(old(self).operand_addr()),
        ensures
            final(self).ready(),
            (done, *final(self)) == old(self).one_cycle_spec(ExecuteFn::Sbc),
    {
        self.store.data = self.get_operand();
        self.a = self.add(self.a, self.store.data, true);
        self.set_nz(self.a);
        true
    }

    pub(crate) fn sec(&mut self, subcycle: u8) -> (done: bool)
        requires
            old(self).ready(),
            old(self).bus.read_ok(old(self).operand_addr()),
        ensures
            final(self).ready(),
            (done, *final(self)) == old(self).one_cycle_spec(ExecuteFn::Sec),
    {
        let _ = self.get_operand();
        self.p = self.p | CARRY;
        true
    }

    pub(crate) fn sed(&mut self, subcycle: u8) -> (done: bool)
        requires
            old(self).ready(),
            old(self).bus.read_ok(old(self).operand_addr()),
        ensures
            final(self).ready(),
            (done, *final(self)) == old(self).one_cycle_spec(ExecuteFn::Sed),
    {
        let _ = self.get_operand();
        self.p = self.p | DECIMAL_MODE;
        true
    }

    pub(crate) fn sei(&mut self, subcycle: u8) -> (done: bool)
        requires
            old(self).ready(),
            old(self).bus.read_ok(old(self).operand_addr()),
        ensures
            final(self).ready(),
            (done, *final(self)) == old(self).one_cycle_spec(ExecuteFn::Sei),
    {
        let _ = self.get_operand();
        self.p = self.p | INTERRUPT_DISABLE;
        true
    }

    pub(crate) fn sta(&mut self, subcycle: u8) -> (done: bool)
        requires
            old(self).ready(),
            old(self).bus.write_ok(old(self).store.addr),
        ensures
            final(self).ready(),
            (done, *final(self)) == old(self).store_spec(old(self).a),
    {
        self.bus.mem_write(self.store.addr, self.a);
        true
    }

    pub(crate) fn stx(&mut self, subcycle: u8) -> (done: bool)
        requires
            old(self).ready(),
            old(self).bus.write_ok(old(self).store.addr),
        ensures
            final(self).ready(),
            (done, *final(self)) == old(self).store_spec(old(self).x),
    {
        self.bus.mem_write(self.store.addr, self.x);
        true
    }

    pub(crate) fn sty(&mut self, subcycle: u8) -> (done: bool)
        requires
            old(self).ready(),
            old(self).bus.write_ok(old(self).store.addr),
        ensures
            final(self).ready(),
            (done, *final(self)) == old(self).store_spec(old(self).y),
    {
        self.bus.mem_write(self.store.addr, self.y);
        true
    }

    pub(crate) fn tax(&mut self, subcycle: u8) -> (done: bool)
        requires
            old(self).ready(),
            old(self).bus.read_ok(old(self).operand_addr()),
        ensures
            final(self).ready(),
            (done, *final(self)) == old(self).one_cycle_spec(ExecuteFn::Tax),
    {
        let _ = self.get_operand();
        self.x = self.a;
        self.set_nz(self.x);
        true
    }

    pub(crate) fn tay(&mut self, subcycle: u8) -> (done: bool)
        requires
            old(self).ready(),
            old(self).bus.read_ok(old(self).operand_addr()),
        ensures
            final(self).ready(),
            (done, *final(self)) == old(self).one_cycle_spec(ExecuteFn::Tay),
    {
        let _ = self.get_operand();
        self.y = self.a;
        self.set_nz(self.y);
        true
    }

    pub(crate) fn tsx(&mut self, subcycle: u8) -> (done: bool)
        requires
            old(self).ready(),
            old(self).bus.read_ok(old(self).operand_addr()),
        ensures
            final(self).ready(),
            (done, *final(self)) == old(self).one_cycle_spec(ExecuteFn::Tsx),
    {
        let _ = self.get_operand();
        self.x = self.sp;
        self.set_nz(self.x);
        true
    }

    pub(crate) fn txa(&mut self, subcycle: u8) -> (done: bool)
        requires
            old(self).ready(),
            old(self).bus.read_ok(old(self).operand_addr()),
        ensures
            final(self).ready(),
            (done, *final(self)) == old(self).one_cycle_spec(ExecuteFn::Txa),
    {
        let _ = self.get_operand();
        self.a = self.x;
        self.set_nz(self.a);
        true
    }

    pub(crate) fn txs(&mut self, subcycle: u8) -> (done: bool)
        requires
            old(self).ready(),
            old(self).bus.read_ok(old(self).operand_addr()),
        ensures
            final(self).ready(),
            (done, *final(self)) == old(self).one_cycle_spec(ExecuteFn::Txs),
    {
        let _ = self.get_operand();
        self.sp = self.x;
        true
    }

    pub(crate) fn tya(&mut self, subcycle: u8) -> (done: bool)
        requires
            old(self).ready(),
            old(self).bus.read_ok(old(self).operand_addr()),
        ensures
            final(self).ready(),
            (done, *final(self)) == old(self).one_cycle_spec(ExecuteFn::Tya),
    {
        let _ = self.get_operand();
        self.a = self.y;
        self.set_nz(self.a);
        true
    }

}

} // verus!
