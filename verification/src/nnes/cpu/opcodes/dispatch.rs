//! Dispatch of one decode or execute subcycle to the step of the
//! instruction in flight.
use super::{AddressingMode, DecodeFn, ExecuteFn};
use super::execute::indirect_hi_addr;
use crate::nnes::cpu::{le_word, Access, CPUState, CPU, IRQ_VECTOR, NMI_VECTOR, STACK_OFFSET};
use crate::utils::{hi_byte, lo_byte};
use vstd::prelude::*;

verus! {

impl CPU {
    /// Runs decode `subcycle` of the instruction in flight.
    pub(crate) fn decode(&mut self, subcycle: u8) -> (done: bool)
        requires
            old(self).ready(),
            old(self).op().decode_fn is Some,
            subcycle < old(self).op().decode_cycles_max(),
            old(self).access_ok(old(self).decode_access(old(self).op().decode_fn->Some_0, subcycle)),
            old(self).required_ins_ticks < 255,
        ensures
            final(self).ready(),
            (done, *final(self)) == old(self).decode_spec(old(self).op().decode_fn->Some_0, subcycle),
    {
        proof {
            reveal(CPU::decode_spec);
            reveal(CPU::decode_access);
        }
        match self.ins.unwrap().decode_fn.unwrap() {
            DecodeFn::AddrZpg => self.addr_zpg(subcycle),
            DecodeFn::AddrZpx => self.addr_zpx(subcycle),
            DecodeFn::AddrZpy => self.addr_zpy(subcycle),
            DecodeFn::AddrAbs => self.addr_abs(subcycle),
            DecodeFn::AddrAbx => self.addr_abx(subcycle),
            DecodeFn::AddrAby => self.addr_aby(subcycle),
            DecodeFn::AddrInx => self.addr_inx(subcycle),
            DecodeFn::AddrIny => self.addr_iny(subcycle),
        }
    }

    /// Runs execute `subcycle` of the instruction in flight.
    #[verifier::rlimit(60)]
    #[verifier::spinoff_prover]
    pub(crate) fn execute(&mut self, subcycle: u8) -> (done: bool)
        requires
            old(self).ready(),
            old(self).op().well_shaped(),
            subcycle < old(self).op().execute_cycles_max(),
            old(self).access_ok(old(self).exec_access(subcycle)),
            old(self).required_ins_ticks < 254,
            old(self).op().execute_fn == ExecuteFn::Brk ==> (old(self).store.vector == NMI_VECTOR
                || old(self).store.vector == IRQ_VECTOR),
        ensures
            final(self).ready(),
            (done, *final(self)) == old(self).execute_spec(subcycle),
    {
        proof {
            reveal(CPU::execute_spec);
            reveal(CPU::exec_access);
        }
        match self.ins.unwrap().execute_fn {
            ExecuteFn::Adc => self.adc(subcycle),
            ExecuteFn::And => self.and(subcycle),
            ExecuteFn::Asl => self.asl(subcycle),
            ExecuteFn::Bcc => self.bcc(subcycle),
            ExecuteFn::Bcs => self.bcs(subcycle),
            ExecuteFn::Beq => self.beq(subcycle),
            ExecuteFn::Bit => self.bit(subcycle),
            ExecuteFn::Bmi => self.bmi(subcycle),
            ExecuteFn::Bne => self.bne(subcycle),
            ExecuteFn::Bpl => self.bpl(subcycle),
            ExecuteFn::Brk => self.brk(subcycle),
            ExecuteFn::Bvc => self.bvc(subcycle),
            ExecuteFn::Bvs => self.bvs(subcycle),
            ExecuteFn::Clc => self.clc(subcycle),
            ExecuteFn::Cld => self.cld(subcycle),
            ExecuteFn::Cli => self.cli(subcycle),
            ExecuteFn::Clv => self.clv(subcycle),
            ExecuteFn::Cmp => self.cmp(subcycle),
            ExecuteFn::Cpx => self.cpx(subcycle),
            ExecuteFn::Cpy => self.cpy(subcycle),
            ExecuteFn::Dec => self.dec(subcycle),
            ExecuteFn::Dex => self.dex(subcycle),
            ExecuteFn::Dey => self.dey(subcycle),
            ExecuteFn::Eor => self.eor(subcycle),
            ExecuteFn::Inc => self.inc(subcycle),
            ExecuteFn::Inx => self.inx(subcycle),
            ExecuteFn::Iny => self.iny(subcycle),
            ExecuteFn::Jmp => self.jmp(subcycle),
            ExecuteFn::Jsr => self.jsr(subcycle),
            ExecuteFn::Lda => self.lda(subcycle),
            ExecuteFn::Ldx => self.ldx(subcycle),
            ExecuteFn::Ldy => self.ldy(subcycle),
            ExecuteFn::Lsr => self.lsr(subcycle),
            ExecuteFn::Nop => self.nop(subcycle),
            ExecuteFn::Ora => self.ora(subcycle),
            ExecuteFn::Pha => self.pha(subcycle),
            ExecuteFn::Php => self.php(subcycle),
            ExecuteFn::Pla => self.pla(subcycle),
            ExecuteFn::Plp => self.plp(subcycle),
            ExecuteFn::Rol => self.rol(subcycle),
            ExecuteFn::Ror => self.ror(subcycle),
            ExecuteFn::Rti => self.rti(subcycle),
            ExecuteFn::Rts => self.rts(subcycle),
            ExecuteFn::Sbc => self.sbc(subcycle),
            ExecuteFn::Sec => self.sec(subcycle),
            ExecuteFn::Sed => self.sed(subcycle),
            ExecuteFn::Sei => self.sei(subcycle),
            ExecuteFn::Sta => self.sta(subcycle),
            ExecuteFn::Stx => self.stx(subcycle),
            ExecuteFn::Sty => self.sty(subcycle),
            ExecuteFn::Tax => self.tax(subcycle),
            ExecuteFn::Tay => self.tay(subcycle),
            ExecuteFn::Tsx => self.tsx(subcycle),
            ExecuteFn::Txa => self.txa(subcycle),
            ExecuteFn::Txs => self.txs(subcycle),
            ExecuteFn::Tya => self.tya(subcycle),
        }
    }

    /// The address the operand of the instruction in flight is read from.
    fn operand_address(&self) -> (a: u16)
        requires
            self.ins is Some,
        ensures
            a == self.operand_addr(),
    {
        match self.ins.unwrap().mode {
            AddressingMode::IMP | AddressingMode::ACC | AddressingMode::IMM | AddressingMode::REL => self.pc,
            _ => self.store.addr,
        }
    }

    /// The bus access the next step of the state machine makes.
    pub fn next_access(&self) -> (a: Access)
        requires
            self.inv(),
        ensures
            a == self.next_access_spec(),
    {
        proof {
            reveal(CPU::inv);
        }
        match self.state {
            CPUState::Decode { subcycle } => self.decode_access_at(subcycle),
            CPUState::Execute { subcycle } => self.exec_access_at(subcycle),
            _ => Access::Read(self.pc),
        }
    }

    fn decode_access_at(&self, subcycle: u8) -> (a: Access)
        requires
            self.ins is Some,
            self.op().decode_fn is Some,
        ensures
            a == self.decode_access(self.op().decode_fn->Some_0, subcycle),
    {
        proof {
            reveal(CPU::decode_access);
        }
        match self.ins.unwrap().decode_fn.unwrap() {
            DecodeFn::AddrZpg | DecodeFn::AddrAbs => Access::Read(self.pc),
            DecodeFn::AddrZpx | DecodeFn::AddrZpy => if subcycle == 0 {
                Access::Read(self.pc)
            } else {
                Access::Read(self.store.addr)
            },
            DecodeFn::AddrAbx | DecodeFn::AddrAby => if subcycle <= 1 {
                Access::Read(self.pc)
            } else {
                Access::Read(self.store.addr)
            },
            DecodeFn::AddrInx => if subcycle == 0 {
                Access::Read(self.pc)
            } else if subcycle <= 2 {
                Access::Read(self.store.data as u16)
            } else {
                Access::Read(self.store.data.wrapping_add(1) as u16)
            },
            DecodeFn::AddrIny => if subcycle == 0 {
                Access::Read(self.pc)
            } else if subcycle == 1 {
                Access::Read(self.store.data as u16)
            } else if subcycle == 2 {
                Access::Read(self.store.data.wrapping_add(1) as u16)
            } else {
                Access::Read(self.store.addr)
            },
        }
    }

    #[verifier::rlimit(40)]
    fn exec_access_at(&self, subcycle: u8) -> (a: Access)
        requires
            self.ins is Some,
            self.op().execute_fn == ExecuteFn::Brk ==> (self.store.vector == NMI_VECTOR
                || self.store.vector == IRQ_VECTOR),
        ensures
            a == self.exec_access(subcycle),
    {
        proof {
            reveal(CPU::exec_access);
        }
        let stack = STACK_OFFSET + self.sp as u16;
        let stack_next = STACK_OFFSET + self.sp.wrapping_add(1) as u16;
        let operand = self.operand_address();
        let mode = self.ins.unwrap().mode;
        match self.ins.unwrap().execute_fn {
            ExecuteFn::Sta | ExecuteFn::Stx | ExecuteFn::Sty => Access::Write(self.store.addr),
            ExecuteFn::Asl | ExecuteFn::Lsr | ExecuteFn::Rol | ExecuteFn::Ror =>
                if mode == AddressingMode::ACC || subcycle == 0 {
                    Access::Read(operand)
                } else {
                    Access::Write(self.store.addr)
                },
            ExecuteFn::Inc | ExecuteFn::Dec =>
                if subcycle == 0 { Access::Read(operand) } else { Access::Write(self.store.addr) },
            ExecuteFn::Php | ExecuteFn::Pha =>
                if subcycle == 0 { Access::Read(operand) } else { Access::Write(stack) },
            ExecuteFn::Plp | ExecuteFn::Pla | ExecuteFn::Rti =>
                if subcycle == 0 {
                    Access::Read(operand)
                } else if subcycle == 1 {
                    Access::Read(stack)
                } else {
                    Access::Read(stack_next)
                },
            ExecuteFn::Brk =>
                if subcycle == 0 {
                    Access::Read(self.pc)
                } else if subcycle <= 3 {
                    Access::Write(stack)
                } else if subcycle == 4 {
                    Access::Read(self.store.vector)
                } else {
                    Access::Read(self.store.vector + 1)
                },
            ExecuteFn::Jsr =>
                if subcycle == 0 || subcycle == 4 {
                    Access::Read(self.pc)
                } else if subcycle == 1 {
                    Access::Read(stack)
                } else {
                    Access::Write(stack)
                },
            ExecuteFn::Rts =>
                if subcycle == 0 {
                    Access::Read(operand)
                } else if subcycle == 1 {
                    Access::Read(stack)
                } else if subcycle <= 3 {
                    Access::Read(stack_next)
                } else {
                    Access::Read(self.pc)
                },
            ExecuteFn::Jmp =>
                if subcycle <= 1 {
                    Access::Read(self.pc)
                } else if subcycle == 2 {
                    Access::Read(self.store.addr)
                } else {
                    let addr = self.store.addr;
                    let hi_addr = le_word(lo_byte(addr).wrapping_add(1), hi_byte(addr));
                    proof {
                        assert(hi_addr == indirect_hi_addr(addr));
                    }
                    Access::Read(hi_addr)
                },
            ExecuteFn::Bcc | ExecuteFn::Bcs | ExecuteFn::Beq | ExecuteFn::Bmi | ExecuteFn::Bne | ExecuteFn::Bpl
            | ExecuteFn::Bvc | ExecuteFn::Bvs => if subcycle == 0 { Access::Read(operand) } else { Access::Read(self.pc) },
            _ => Access::Read(operand),
        }
    }
}

} // verus!
