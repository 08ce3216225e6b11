//! The standard controller: an 8-bit button register.
use vstd::prelude::*;

verus! {

/// Controller state: `active` holds the buttons currently pressed, one bit
/// each (bit 0 to 7: right, left, down, up, start, select, B, A).
pub struct Joypad {
    pub active: u8,
    pub state: u8,
}

/// The button byte for eight pressed flags, given in bit order 0 to 7.
pub open spec fn buttons_byte(pressed: [bool; 8]) -> u8 {
    (if pressed@[0] { 1u8 } else { 0u8 }) | (if pressed@[1] { 2u8 } else { 0u8 })
        | (if pressed@[2] { 4u8 } else { 0u8 }) | (if pressed@[3] { 8u8 } else { 0u8 })
        | (if pressed@[4] { 16u8 } else { 0u8 }) | (if pressed@[5] { 32u8 } else { 0u8 })
        | (if pressed@[6] { 64u8 } else { 0u8 }) | (if pressed@[7] { 128u8 } else { 0u8 })
}

impl Joypad {
    /// Rebuilds `active` from the pressed state of the eight buttons, in
    /// bit order: right, left, down, up, start, select, B, A.
    pub fn update_state(&mut self, pressed: [bool; 8])
        ensures
            final(self).active == buttons_byte(pressed),
            final(self).state == old(self).state,
            forall|i: int| 0 <= i < 8 ==> (pressed@[i] <==> (final(self).active >> (i as u8)) & 1 == 1),
    {
        let right: u8 = if pressed[0] { 0b0000_0001 } else { 0 };
        let left: u8 = if pressed[1] { 0b0000_0010 } else { 0 };
        let down: u8 = if pressed[2] { 0b0000_0100 } else { 0 };
        let up: u8 = if pressed[3] { 0b0000_1000 } else { 0 };
        let start: u8 = if pressed[4] { 0b0001_0000 } else { 0 };
        let select: u8 = if pressed[5] { 0b0010_0000 } else { 0 };
        let b: u8 = if pressed[6] { 0b0100_0000 } else { 0 };
        let a: u8 = if pressed[7] { 0b1000_0000 } else { 0 };
        self.active = right | left | down | up | start | select | b | a;
        proof {
            let p0 = pressed@[0]; let p1 = pressed@[1]; let p2 = pressed@[2]; let p3 = pressed@[3];
            let p4 = pressed@[4]; let p5 = pressed@[5]; let p6 = pressed@[6]; let p7 = pressed@[7];
            let a = self.active;
            assert(a == buttons_byte(pressed));
            assert(a == (if p0 { 1u8 } else { 0u8 }) | (if p1 { 2u8 } else { 0u8 })
                | (if p2 { 4u8 } else { 0u8 }) | (if p3 { 8u8 } else { 0u8 })
                | (if p4 { 16u8 } else { 0u8 }) | (if p5 { 32u8 } else { 0u8 })
                | (if p6 { 64u8 } else { 0u8 }) | (if p7 { 128u8 } else { 0u8 })
                ==> (p0 <==> (a >> 0u8) & 1 == 1) && (p1 <==> (a >> 1u8) & 1 == 1)
                && (p2 <==> (a >> 2u8) & 1 == 1) && (p3 <==> (a >> 3u8) & 1 == 1)
                && (p4 <==> (a >> 4u8) & 1 == 1) && (p5 <==> (a >> 5u8) & 1 == 1)
                && (p6 <==> (a >> 6u8) & 1 == 1) && (p7 <==> (a >> 7u8) & 1 == 1)) by (bit_vector);
            assert forall|i: int| 0 <= i < 8 implies (pressed@[i] <==> (a >> (i as u8)) & 1 == 1) by {
                if i == 0 {} else if i == 1 {} else if i == 2 {} else if i == 3 {}
                else if i == 4 {} else if i == 5 {} else if i == 6 {} else {}
            }
        }
    }
}

} // verus!
