//! Register-level access to the console's CPU: program counter, stack
//! pointer and the three data registers.
use super::console::NNES;
use super::cpu::cycle::lemma_inv_bus;
use super::cpu::CPU;
use vstd::prelude::*;

verus! {

/// The CPU's data registers.
#[derive(Debug, Copy, Clone, PartialEq, Eq, Structural)]
pub enum Register {
    Accumulator,
    XIndex,
    YIndex,
}

impl NNES {
    /// The value of `register`.
    pub open spec fn register_value(self, register: Register) -> u8 {
        match register {
            Register::Accumulator => self.cpu.a,
            Register::XIndex => self.cpu.x,
            Register::YIndex => self.cpu.y,
        }
    }

    /// The console with `register` holding `value`.
    pub open spec fn with_register(self, register: Register, value: u8) -> NNES {
        match register {
            Register::Accumulator => NNES { cpu: CPU { a: value, ..self.cpu }, ..self },
            Register::XIndex => NNES { cpu: CPU { x: value, ..self.cpu }, ..self },
            Register::YIndex => NNES { cpu: CPU { y: value, ..self.cpu }, ..self },
        }
    }

    /// The program counter.
    pub fn get_program_counter(&self) -> (r: u16)
        ensures
            r == self.cpu.pc,
    {
        self.cpu.pc
    }

    /// Sets the program counter.
    pub fn set_program_counter(&mut self, value: u16)
        requires
            old(self).inv(),
        ensures
            final(self).inv(),
            *final(self) == (NNES { cpu: CPU { pc: value, ..old(self).cpu }, ..*old(self) }),
    {
        self.cpu.pc = value;
        proof {
            reveal(CPU::inv);
        }
    }

    /// The stack pointer.
    pub fn get_stack_pointer(&self) -> (r: u8)
        ensures
            r == self.cpu.sp,
    {
        self.cpu.sp
    }

    /// Sets the stack pointer.
    pub fn set_stack_pointer(&mut self, value: u8)
        requires
            old(self).inv(),
        ensures
            final(self).inv(),
            *final(self) == (NNES { cpu: CPU { sp: value, ..old(self).cpu }, ..*old(self) }),
    {
        self.cpu.sp = value;
        proof {
            reveal(CPU::inv);
        }
    }

    /// The value of a data register.
    pub fn get_register(&self, register: Register) -> (r: u8)
        ensures
            r == self.register_value(register),
    {
        match register {
            Register::Accumulator => self.cpu.a,
            Register::XIndex => self.cpu.x,
            Register::YIndex => self.cpu.y,
        }
    }

    /// Sets a data register.
    pub fn set_register(&mut self, register: Register, value: u8)
        requires
            old(self).inv(),
        ensures
            final(self).inv(),
            *final(self) == old(self).with_register(register, value),
    {
        match register {
            Register::Accumulator => {
                self.cpu.a = value;
            },
            Register::XIndex => {
                self.cpu.x = value;
            },
            Register::YIndex => {
                self.cpu.y = value;
            },
        }
        proof {
            reveal(CPU::inv);
        }
    }

    /// Clears the three data registers.
    pub fn reset_registers(&mut self)
        requires
            old(self).inv(),
        ensures
            final(self).inv(),
            *final(self) == (NNES { cpu: CPU { a: 0, x: 0, y: 0, ..old(self).cpu }, ..*old(self) }),
    {
        self.cpu.a = 0;
        self.cpu.x = 0;
        self.cpu.y = 0;
        proof {
            reveal(CPU::inv);
        }
    }
}

} // verus!
