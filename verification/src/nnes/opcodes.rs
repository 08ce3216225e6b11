//! Instruction-level execution on the console: each handler performs a
//! whole instruction at once, through the register, flag and memory
//! interfaces.
use super::console::NNES;
use super::cpu::{add8, setf, CPU};
use super::flags::{flag_bit, Flag, NF, ZF};
use super::memory::AddressingMode;
use super::registers::Register;
use vstd::prelude::*;

verus! {

/// An instruction-level opcode entry: byte, mnemonic, length, cycle count
/// and addressing mode.
pub struct OpCode {
    pub code: u8,
    pub instruction: String,
    pub bytes: u8,
    pub cycles: u8,
    pub mode: AddressingMode,
}

impl OpCode {
    /// An entry with the given fields.
    pub fn new(code: u8, instruction: String, bytes: u8, cycles: u8, mode: AddressingMode) -> (op: Self)
        ensures
            op.code == code && op.instruction@ == instruction@ && op.bytes == bytes && op.cycles == cycles
                && op.mode == mode,
    {
        OpCode { code, instruction, bytes, cycles, mode }
    }

    /// The entry's addressing mode.
    pub fn get_addressing_mode(&self) -> (m: AddressingMode)
        ensures
            m == self.mode,
    {
        self.mode
    }
}

/// Status `p` with Zero and Negative describing `v`.
pub open spec fn op_flags(p: u8, v: u8) -> u8 {
    setf(setf(p, ZF, v == 0), NF, v & NF != 0)
}

impl NNES {
    /// TAX: X takes A; N and Z follow it.
    pub fn handle_tax(&mut self)
        requires
            old(self).inv(),
        ensures
            final(self).inv(),
            *final(self) == old(self).with_register(Register::XIndex, old(self).cpu.a).with_status(op_flags(old(self).cpu.p, old(self).cpu.a)),
    {
        let v: u8 = self.get_register(Register::Accumulator);
        self.set_register(Register::XIndex, v);
        self.update_op_flags(v);
    }

    /// TAY: Y takes A; N and Z follow it.
    pub fn handle_tay(&mut self)
        requires
            old(self).inv(),
        ensures
            final(self).inv(),
            *final(self) == old(self).with_register(Register::YIndex, old(self).cpu.a).with_status(op_flags(old(self).cpu.p, old(self).cpu.a)),
    {
        let v: u8 = self.get_register(Register::Accumulator);
        self.set_register(Register::YIndex, v);
        self.update_op_flags(v);
    }

    /// TSX: X takes the stack pointer; N and Z follow it.
    pub fn handle_tsx(&mut self)
        requires
            old(self).inv(),
        ensures
            final(self).inv(),
            *final(self) == old(self).with_register(Register::XIndex, old(self).cpu.sp).with_status(op_flags(old(self).cpu.p, old(self).cpu.sp)),
    {
        let v: u8 = self.get_stack_pointer();
        self.set_register(Register::XIndex, v);
        self.update_op_flags(v);
    }

    /// TXA: A takes X; N and Z follow it.
    pub fn handle_txa(&mut self)
        requires
            old(self).inv(),
        ensures
            final(self).inv(),
            *final(self) == old(self).with_register(Register::Accumulator, old(self).cpu.x).with_status(op_flags(old(self).cpu.p, old(self).cpu.x)),
    {
        let v: u8 = self.get_register(Register::XIndex);
        self.set_register(Register::Accumulator, v);
        self.update_op_flags(v);
    }

    /// TXS: the stack pointer takes X; no flag changes.
    pub fn handle_txs(&mut self)
        requires
            old(self).inv(),
        ensures
            final(self).inv(),
            *final(self) == (NNES { cpu: CPU { sp: old(self).cpu.x, ..old(self).cpu }, ..*old(self) }),
    {
        let v: u8 = self.get_register(Register::XIndex);
        self.set_stack_pointer(v);
    }

    /// TYA: A takes Y; N and Z follow it.
    pub fn handle_tya(&mut self)
        requires
            old(self).inv(),
        ensures
            final(self).inv(),
            *final(self) == old(self).with_register(Register::Accumulator, old(self).cpu.y).with_status(op_flags(old(self).cpu.p, old(self).cpu.y)),
    {
        let v: u8 = self.get_register(Register::YIndex);
        self.set_register(Register::Accumulator, v);
        self.update_op_flags(v);
    }

    /// CLC: clears carry.
    pub fn handle_clc(&mut self)
        requires
            old(self).inv(),
        ensures
            final(self).inv(),
            *final(self) == old(self).with_status(setf(old(self).cpu.p, flag_bit(Flag::Carry), false)),
    {
        self.set_flag(Flag::Carry, false);
    }

    /// CLD: clears decimal mode.
    pub fn handle_cld(&mut self)
        requires
            old(self).inv(),
        ensures
            final(self).inv(),
            *final(self) == old(self).with_status(setf(old(self).cpu.p, flag_bit(Flag::DecimalMode), false)),
    {
        self.set_flag(Flag::DecimalMode, false);
    }

    /// CLI: clears interrupt disable.
    pub fn handle_cli(&mut self)
        requires
            old(self).inv(),
        ensures
            final(self).inv(),
            *final(self) == old(self).with_status(setf(old(self).cpu.p, flag_bit(Flag::InterruptDisable), false)),
    {
        self.set_flag(Flag::InterruptDisable, false);
    }

    /// CLV: clears overflow.
    pub fn handle_clv(&mut self)
        requires
            old(self).inv(),
        ensures
            final(self).inv(),
            *final(self) == old(self).with_status(setf(old(self).cpu.p, flag_bit(Flag::Overflow), false)),
    {
        self.set_flag(Flag::Overflow, false);
    }

    /// SEC: sets carry.
    pub fn handle_sec(&mut self)
        requires
            old(self).inv(),
        ensures
            final(self).inv(),
            *final(self) == old(self).with_status(setf(old(self).cpu.p, flag_bit(Flag::Carry), true)),
    {
        self.set_flag(Flag::Carry, true);
    }

    /// SED: sets decimal mode.
    pub fn handle_sed(&mut self)
        requires
            old(self).inv(),
        ensures
            final(self).inv(),
            *final(self) == old(self).with_status(setf(old(self).cpu.p, flag_bit(Flag::DecimalMode), true)),
    {
        self.set_flag(Flag::DecimalMode, true);
    }

    /// SEI: sets interrupt disable.
    pub fn handle_sei(&mut self)
        requires
            old(self).inv(),
        ensures
            final(self).inv(),
            *final(self) == old(self).with_status(setf(old(self).cpu.p, flag_bit(Flag::InterruptDisable), true)),
    {
        self.set_flag(Flag::InterruptDisable, true);
    }

    /// BRK: sets the break flag.
    pub fn handle_brk(&mut self)
        requires
            old(self).inv(),
        ensures
            final(self).inv(),
            *final(self) == old(self).with_status(setf(old(self).cpu.p, flag_bit(Flag::Break), true)),
    {
        self.set_flag(Flag::Break, true);
    }

    /// LDA: A takes the data of `mode`; N and Z follow it.
    pub fn handle_lda(&mut self, mode: AddressingMode)
        requires
            old(self).inv(),
            old(self).data_reads_ok(mode),
        ensures
            final(self).inv(),
            *final(self) == old(self).at_pc(old(self).operand(mode).1).with_register(Register::Accumulator, old(self).data_of(mode)).with_status(op_flags(old(self).cpu.p, old(self).data_of(mode))),
    {
        let op: u16 = self.get_operand(mode);
        let mut data: u16 = op;
        if mode != AddressingMode::Immediate {
            data = self.memory_read_u8(op) as u16;
        }
        self.set_register(Register::Accumulator, data as u8);
        self.update_op_flags(data as u8);
    }

    /// LDX: X takes the data of `mode`; N and Z follow it.
    pub fn handle_ldx(&mut self, mode: AddressingMode)
        requires
            old(self).inv(),
            old(self).data_reads_ok(mode),
        ensures
            final(self).inv(),
            *final(self) == old(self).at_pc(old(self).operand(mode).1).with_register(Register::XIndex, old(self).data_of(mode)).with_status(op_flags(old(self).cpu.p, old(self).data_of(mode))),
    {
        let op: u16 = self.get_operand(mode);
        let mut data: u16 = op;
        if mode != AddressingMode::Immediate {
            data = self.memory_read_u8(op) as u16;
        }
        self.set_register(Register::XIndex, data as u8);
        self.update_op_flags(data as u8);
    }

    /// LDY: Y takes the data of `mode`; N and Z follow it.
    pub fn handle_ldy(&mut self, mode: AddressingMode)
        requires
            old(self).inv(),
            old(self).data_reads_ok(mode),
        ensures
            final(self).inv(),
            *final(self) == old(self).at_pc(old(self).operand(mode).1).with_register(Register::YIndex, old(self).data_of(mode)).with_status(op_flags(old(self).cpu.p, old(self).data_of(mode))),
    {
        let op: u16 = self.get_operand(mode);
        let mut data: u16 = op;
        if mode != AddressingMode::Immediate {
            data = self.memory_read_u8(op) as u16;
        }
        self.set_register(Register::YIndex, data as u8);
        self.update_op_flags(data as u8);
    }

    /// STA: writes A to the operand address of `mode`.
    pub fn handle_sta(&mut self, mode: AddressingMode)
        requires
            old(self).inv(),
            old(self).operand_reads_ok(mode),
            old(self).writable(old(self).operand(mode).0),
        ensures
            final(self).inv(),
            *final(self) == old(self).at_pc(old(self).operand(mode).1).written(old(self).operand(mode).0, old(self).cpu.a),
    {
        let data: u8 = self.get_register(Register::Accumulator);
        let addr: u16 = self.get_operand(mode);
        self.memory_write_u8(addr, data);
    }

    /// STX: writes X to the operand address of `mode`.
    pub fn handle_stx(&mut self, mode: AddressingMode)
        requires
            old(self).inv(),
            old(self).operand_reads_ok(mode),
            old(self).writable(old(self).operand(mode).0),
        ensures
            final(self).inv(),
            *final(self) == old(self).at_pc(old(self).operand(mode).1).written(old(self).operand(mode).0, old(self).cpu.x),
    {
        let data: u8 = self.get_register(Register::XIndex);
        let addr: u16 = self.get_operand(mode);
        self.memory_write_u8(addr, data);
    }

    /// STY: writes Y to the operand address of `mode`.
    pub fn handle_sty(&mut self, mode: AddressingMode)
        requires
            old(self).inv(),
            old(self).operand_reads_ok(mode),
            old(self).writable(old(self).operand(mode).0),
        ensures
            final(self).inv(),
            *final(self) == old(self).at_pc(old(self).operand(mode).1).written(old(self).operand(mode).0, old(self).cpu.y),
    {
        let data: u8 = self.get_register(Register::YIndex);
        let addr: u16 = self.get_operand(mode);
        self.memory_write_u8(addr, data);
    }

    /// PHA: pushes A.
    pub fn handle_pha(&mut self)
        requires
            old(self).inv(),
        ensures
            final(self).inv(),
            *final(self) == old(self).pushed(old(self).cpu.a),
    {
        self.stack_push_u8(self.get_register(Register::Accumulator));
    }

    /// PHP: pushes the status register.
    pub fn handle_php(&mut self)
        requires
            old(self).inv(),
        ensures
            final(self).inv(),
            *final(self) == old(self).pushed(old(self).cpu.p),
    {
        self.stack_push_u8(self.get_flags());
    }

    /// PLA: pulls A; N and Z follow it.
    pub fn handle_pla(&mut self)
        requires
            old(self).inv(),
        ensures
            final(self).inv(),
            *final(self) == old(self).popped().with_register(Register::Accumulator, old(self).popped_value()).with_status(
                op_flags(old(self).cpu.p, old(self).popped_value()),
            ),
    {
        let data: u8 = self.stack_pop_u8();
        self.set_register(Register::Accumulator, data);
        self.update_op_flags(data);
    }

    /// PLP: pulls the status register.
    pub fn handle_plp(&mut self)
        requires
            old(self).inv(),
        ensures
            final(self).inv(),
            *final(self) == old(self).popped().with_status(old(self).popped_value()),
    {
        let data: u8 = self.stack_pop_u8();
        self.set_flags(data);
    }

    /// INX: X goes up by one (wrapping); N and Z follow it.
    pub fn handle_inx(&mut self)
        requires
            old(self).inv(),
        ensures
            final(self).inv(),
            *final(self) == old(self).with_register(Register::XIndex, add8(old(self).cpu.x, 1)).with_status(
                op_flags(old(self).cpu.p, add8(old(self).cpu.x, 1)),
            ),
    {
        let reg_x: u8 = self.get_register(Register::XIndex);
        if reg_x == 0xff {
            self.set_register(Register::XIndex, 0);
            self.update_op_flags(0);
        } else {
            self.set_register(Register::XIndex, reg_x + 1);
            self.update_op_flags(reg_x + 1);
        }
    }
}

} // verus!
