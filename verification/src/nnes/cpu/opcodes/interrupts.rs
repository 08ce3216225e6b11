//! BRK and the hardware interrupt sequence that shares its cycles.
use crate::nnes::cpu::{le_word, CPU, BREAK, INTERRUPT_DISABLE, IRQ_VECTOR, NMI_VECTOR};
use crate::utils::{hi_byte, lo_byte};
use vstd::prelude::*;

verus! {

impl CPU {
    pub(crate) fn brk(&mut self, subcycle: u8) -> (done: bool)
        requires
            old(self).ready(),
            subcycle <= 5,
            subcycle == 0 ==> old(self).bus.read_ok(old(self).pc),
            old(self).store.vector == NMI_VECTOR || old(self).store.vector == IRQ_VECTOR,
            subcycle == 4 ==> old(self).bus.read_ok(old(self).store.vector),
            subcycle == 5 ==> old(self).bus.read_ok((old(self).store.vector + 1) as u16),
        ensures
            final(self).ready(),
            (done, *final(self)) == old(self).brk_spec(subcycle),
    {
        if subcycle == 0 {
            let _ = self.bus.mem_read(self.pc);
            if self.software_interrupt {
                self.pc = self.pc.wrapping_add(1);
            }
            false
        } else if subcycle <= 3 {
            self.brk_push(subcycle);
            false
        } else if subcycle == 4 {
            self.brk_vector_lo();
            false
        } else {
            self.brk_vector_hi();
            true
        }
    }

    /// Subcycles 1 to 3: push pc high, pc low, then the status.
    fn brk_push(&mut self, subcycle: u8)
        requires
            old(self).ready(),
            1 <= subcycle <= 3,
        ensures
            final(self).ready(),
            *final(self) == old(self).brk_spec(subcycle).1,
    {
        if subcycle == 1 {
            self.stack_push(hi_byte(self.pc));
        } else if subcycle == 2 {
            self.stack_push(lo_byte(self.pc));
        } else {
            let p = if self.software_interrupt { self.p | BREAK } else { self.p & !BREAK };
            self.stack_push(p);
        }
    }

    /// Subcycle 4: set I, acknowledge the interrupt, read the vector's low byte.
    fn brk_vector_lo(&mut self)
        requires
            old(self).ready(),
            old(self).store.vector == NMI_VECTOR || old(self).store.vector == IRQ_VECTOR,
            old(self).bus.read_ok(old(self).store.vector),
        ensures
            final(self).ready(),
            *final(self) == old(self).brk_spec(4).1,
    {
        self.p = self.p | INTERRUPT_DISABLE;
        if self.store.vector == NMI_VECTOR {
            self.nmi_pending = false;
        } else {
            if self.hijacked {
                self.irq_pending = false;
            }
        }
        self.store.lo = self.bus.mem_read(self.store.vector);
    }

    /// Subcycle 5: read the vector's high byte and jump there.
    fn brk_vector_hi(&mut self)
        requires
            old(self).ready(),
            old(self).store.vector == NMI_VECTOR || old(self).store.vector == IRQ_VECTOR,
            old(self).bus.read_ok((old(self).store.vector + 1) as u16),
        ensures
            final(self).ready(),
            *final(self) == old(self).brk_spec(5).1,
    {
        self.store.hi = self.bus.mem_read(self.store.vector + 1);
        self.store.addr = le_word(self.store.lo, self.store.hi);
        self.pc = self.store.addr;
        self.software_interrupt = false;
        self.servicing_interrupt = false;
    }
}

} // verus!
