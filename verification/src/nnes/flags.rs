//! Flag-level access to the console's CPU status register.
use super::console::NNES;
use super::cpu::{setf, CPU};
use vstd::prelude::*;

verus! {

/// The status flags.
#[derive(Debug, Copy, Clone, PartialEq, Eq, Structural)]
pub enum Flag {
    Carry,
    Zero,
    InterruptDisable,
    DecimalMode,
    Break,
    Overflow,
    Negative,
}

pub const CF: u8 = 0b00000001;
pub const NEG_CF: u8 = 0b11111110;
pub const ZF: u8 = 0b00000010;
pub const NEG_ZF: u8 = 0b11111101;
pub const IF: u8 = 0b00000100;
pub const NEG_IF: u8 = 0b11111011;
pub const DF: u8 = 0b00001000;
pub const NEG_DF: u8 = 0b11110111;
pub const BF: u8 = 0b00010000;
pub const NEG_BF: u8 = 0b11101111;
pub const VF: u8 = 0b01000000;
pub const NEG_VF: u8 = 0b10111111;
pub const NF: u8 = 0b10000000;
pub const NEG_NF: u8 = 0b01111111;

/// The status bit of a flag.
pub open spec fn flag_bit(flag: Flag) -> u8 {
    match flag {
        Flag::Carry => CF,
        Flag::Zero => ZF,
        Flag::InterruptDisable => IF,
        Flag::DecimalMode => DF,
        Flag::Break => BF,
        Flag::Overflow => VF,
        Flag::Negative => NF,
    }
}

impl NNES {
    /// The console with the status register `p`.
    pub open spec fn with_status(self, p: u8) -> NNES {
        NNES { cpu: CPU { p: p, ..self.cpu }, ..self }
    }

    /// Whether `flag` is set.
    pub fn get_flag(&self, flag: Flag) -> (b: bool)
        ensures
            b == (self.cpu.p & flag_bit(flag) != 0),
    {
        match flag {
            Flag::Carry => (self.cpu.p & CF) != 0,
            Flag::Zero => (self.cpu.p & ZF) != 0,
            Flag::InterruptDisable => (self.cpu.p & IF) != 0,
            Flag::DecimalMode => (self.cpu.p & DF) != 0,
            Flag::Break => (self.cpu.p & BF) != 0,
            Flag::Overflow => (self.cpu.p & VF) != 0,
            Flag::Negative => (self.cpu.p & NF) != 0,
        }
    }

    /// The whole status register.
    pub fn get_flags(&self) -> (r: u8)
        ensures
            r == self.cpu.p,
    {
        self.cpu.p
    }

    /// Sets (`status`) or clears `flag`, leaving the other bits.
    pub fn set_flag(&mut self, flag: Flag, status: bool)
        requires
            old(self).inv(),
        ensures
            final(self).inv(),
            *final(self) == old(self).with_status(setf(old(self).cpu.p, flag_bit(flag), status)),
    {
        let bit: u8 = match flag {
            Flag::Carry => CF,
            Flag::Zero => ZF,
            Flag::InterruptDisable => IF,
            Flag::DecimalMode => DF,
            Flag::Break => BF,
            Flag::Overflow => VF,
            Flag::Negative => NF,
        };
        let clear: u8 = match flag {
            Flag::Carry => NEG_CF,
            Flag::Zero => NEG_ZF,
            Flag::InterruptDisable => NEG_IF,
            Flag::DecimalMode => NEG_DF,
            Flag::Break => NEG_BF,
            Flag::Overflow => NEG_VF,
            Flag::Negative => NEG_NF,
        };
        assert(clear == !bit) by {
            assert(!CF == NEG_CF && !ZF == NEG_ZF && !IF == NEG_IF && !DF == NEG_DF && !BF == NEG_BF && !VF == NEG_VF
                && !NF == NEG_NF) by (bit_vector);
        }
        if status {
            self.cpu.p |= bit;
        } else {
            self.cpu.p &= clear;
        }
        proof {
            reveal(CPU::inv);
        }
    }

    /// Sets the whole status register.
    pub fn set_flags(&mut self, flags: u8)
        requires
            old(self).inv(),
        ensures
            final(self).inv(),
            *final(self) == old(self).with_status(flags),
    {
        self.cpu.p = flags;
        proof {
            reveal(CPU::inv);
        }
    }

    /// Sets Zero when `res` is zero and Negative when its bit 7 is set,
    /// clearing each otherwise.
    pub fn update_op_flags(&mut self, res: u8)
        requires
            old(self).inv(),
        ensures
            final(self).inv(),
            *final(self) == old(self).with_status(setf(setf(old(self).cpu.p, ZF, res == 0), NF, res & NF != 0)),
    {
        if res == 0 {
            self.set_flag(Flag::Zero, true);
        } else {
            self.set_flag(Flag::Zero, false);
        }

        if res & NF != 0 {
            self.set_flag(Flag::Negative, true);
        } else {
            self.set_flag(Flag::Negative, false);
        }
    }

    /// Clears the status register.
    pub fn reset_flags(&mut self)
        requires
            old(self).inv(),
        ensures
            final(self).inv(),
            *final(self) == old(self).with_status(0),
    {
        self.cpu.p = 0;
        proof {
            reveal(CPU::inv);
        }
    }
}

} // verus!
