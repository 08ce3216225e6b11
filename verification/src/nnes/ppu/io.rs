//! The CPU-visible PPU registers at 0x2000 to 0x2007.
use super::{PPU, CTRL_NMI_ON_VBLANK, CTRL_VRAM_INCREMENT, STATUS_IS_VBLANK};
use crate::utils::{bit_0, bit_1, bit_2, bit_3, bit_4};
use vstd::prelude::*;

verus! {

/// The value PPUSTATUS reads as: vblank, sprite-0 hit and overflow in bits
/// 7 to 5, and bits 4 to 0 of the open bus below them.
pub open spec fn status_read_value(status: u8, open_bus: u8) -> u8 {
    (status & 0xE0) | (open_bus & 0x1F)
}

impl PPU {
    /// `v` after a PPUDATA access: +32 when PPUCTRL selects vertical
    /// increment, else +1, wrapping at 16 bits.
    pub open spec fn incremented_v(self) -> u16 {
        if self.ppu_ctrl & CTRL_VRAM_INCREMENT != 0 {
            ((self.v + 32) % 0x10000) as u16
        } else {
            ((self.v + 1) % 0x10000) as u16
        }
    }

    /// Effect of a PPUCTRL write: the register takes `data`, bits 1..0 become
    /// the nametable select of `t`, and enabling NMI during vblank raises an
    /// NMI at once.
    pub open spec fn write_ppu_ctrl_spec(self, data: u8) -> PPU {
        let prev = self.ppu_ctrl & CTRL_NMI_ON_VBLANK != 0;
        let now = data & CTRL_NMI_ON_VBLANK != 0 && self.ppu_status & STATUS_IS_VBLANK != 0;
        let fire = !prev && now;
        PPU {
            ppu_ctrl: data,
            nmi_signal: if fire { true } else { self.nmi_signal },
            nmi_prev: if fire { true } else { self.nmi_prev },
            t: (self.t & 0xF3FF) | (((data & 0b11) as u16) << 10u16),
            ..self
        }
    }

    /// Effect of a PPUSTATUS read: vblank cleared, write toggle reset, NMI edge re-armed.
    pub open spec fn read_ppu_status_spec(self) -> PPU {
        PPU { ppu_status: self.ppu_status & !STATUS_IS_VBLANK, w: 0, nmi_prev: false, ..self }
    }

    /// The value an OAMDATA read yields: attribute bytes read with bits 2..4 clear.
    pub open spec fn oam_data_value(self) -> u8 {
        let d = self.oam@[self.oam_addr as int];
        if self.oam_addr & 0b11 == 0b10 { d & 0b11100011 } else { d }
    }

    /// Effect of a PPUSCROLL write: first write sets fine and coarse x, second
    /// sets coarse and fine y; the write toggle flips.
    pub open spec fn write_ppu_scroll_spec(self, data: u8) -> PPU {
        if self.w == 0 {
            PPU { x: data & 0b111, t: (self.t & 0xFFE0) | ((data >> 3u8) as u16), w: self.w ^ 1, ..self }
        } else {
            PPU {
                t: (self.t & 0x8C1F) | (((data >> 3u8) as u16) << 5u16) | (((data & 0b111) as u16) << 12u16),
                w: self.w ^ 1,
                ..self
            }
        }
    }

    /// Effect of a PPUADDR write: first write sets the high six bits of `t`
    /// (clearing bit 14), second the low byte, after which `v` takes `t`.
    pub open spec fn write_ppu_addr_spec(self, data: u8) -> PPU {
        if self.w == 0 {
            PPU { t: (self.t & 0x80FF) | (((data & 0b111111) as u16) << 8u16), w: self.w ^ 1, ..self }
        } else {
            let t = (self.t & 0xFF00) | (data as u16);
            PPU { t: t, v: t, w: self.w ^ 1, ..self }
        }
    }

    /// The value and new state of a PPUDATA read: below the palette the read
    /// goes through the one-byte buffer; palette reads are direct and refill
    /// the buffer from the nametable byte 0x1000 below.
    pub open spec fn read_ppu_data_spec(self) -> (u8, PPU) {
        let data = self.mem_read_spec(self.v);
        if self.v as int % 0x4000 < 0x3F00 {
            (self.read_buffer, PPU { read_buffer: data, v: self.incremented_v(), ..self })
        } else {
            (data, PPU { read_buffer: self.mem_read_spec((self.v - 0x1000) as u16), v: self.incremented_v(), ..self })
        }
    }

    /// Effect of a PPUDATA write: PPU memory at `v` takes `data`, then `v` advances.
    pub open spec fn write_ppu_data_spec(self, data: u8) -> PPU {
        let written = self.mem_write_spec(self.v, data);
        PPU { v: self.incremented_v(), ..written }
    }

    /// Value and new state of a read of register `reg` (0 to 7); registers
    /// without a read side answer with the open bus, which then holds the value read.
    pub open spec fn reg_read_spec(self, reg: u8) -> (u8, PPU) {
        let (data, next) = if reg == 2 {
            (status_read_value(self.ppu_status, self.open_bus), self.read_ppu_status_spec())
        } else if reg == 4 {
            (self.oam_data_value(), self)
        } else if reg == 7 {
            self.read_ppu_data_spec()
        } else {
            (self.open_bus, self)
        };
        (data, PPU { open_bus: data, ..next })
    }

    /// New state after writing `data` to register `reg`; the open bus keeps `data`.
    pub open spec fn reg_write_spec(self, reg: u8, data: u8) -> PPU {
        let next = if reg == 0 {
            self.write_ppu_ctrl_spec(data)
        } else if reg == 1 {
            PPU { ppu_mask: data, ..self }
        } else if reg == 3 {
            PPU { oam_addr: data, ..self }
        } else if reg == 4 {
            PPU {
                oam: vstd::array::spec_array_update(self.oam, self.oam_addr as int, data),
                oam_addr: ((self.oam_addr + 1) % 256) as u8,
                ..self
            }
        } else if reg == 5 {
            self.write_ppu_scroll_spec(data)
        } else if reg == 6 {
            self.write_ppu_addr_spec(data)
        } else if reg == 7 {
            self.write_ppu_data_spec(data)
        } else {
            self
        };
        PPU { open_bus: data, ..next }
    }

    // 0x2000: PPUCTRL - W
    fn write_ppu_ctrl(&mut self, data: u8)
        requires
            old(self).wf(),
        ensures
            final(self).wf(),
            *final(self) == old(self).write_ppu_ctrl_spec(data),
    {
        let prev = self.ppu_ctrl & CTRL_NMI_ON_VBLANK != 0;
        self.ppu_ctrl = data;

        // fire an NMI if NMI_ON_VBLANK is set during VBlank
        let now = self.ppu_ctrl & CTRL_NMI_ON_VBLANK != 0 && self.ppu_status & STATUS_IS_VBLANK != 0;
        if !prev && now {
            self.nmi_signal = true;
            self.nmi_prev = true;
        }

        // get nametable select from data[1:0]: ... NN ..... .....
        let nametable = (data as u16 & 0b11) << 10;
        // final address: ttt NN ttttt ttttt
        self.t = (self.t & 0b1_111_00_11111_11111) | nametable;
    }

    // 0x2001: PPUMASK - W
    fn write_ppu_mask(&mut self, data: u8)
        requires
            old(self).wf(),
        ensures
            final(self).wf(),
            *final(self) == (PPU { ppu_mask: data, ..*old(self) }),
    {
        self.ppu_mask = data;
    }

    // 0x2002: PPUSTATUS - R
    fn read_ppu_status(&mut self) -> (r: u8)
        requires
            old(self).wf(),
        ensures
            final(self).wf(),
            r == status_read_value(old(self).ppu_status, old(self).open_bus),
            *final(self) == old(self).read_ppu_status_spec(),
    {
        let data = self.status_value();

        // side effects of reading PPUSTATUS
        self.ppu_status = self.ppu_status & !STATUS_IS_VBLANK;
        self.w = 0;
        self.nmi_prev = false;

        data
    }

    /// The byte a PPUSTATUS read returns: the three flags over the low open-bus bits.
    fn status_value(&self) -> (r: u8)
        ensures
            r == status_read_value(self.ppu_status, self.open_bus),
    {
        let flags: u8 = self.ppu_status & 0xE0;
        let ob = self.open_bus;
        let low: u8 = bit_4(ob) | bit_3(ob) | bit_2(ob) | bit_1(ob) | bit_0(ob);
        assert((ob & 0x10) | (ob & 0x08) | (ob & 0x04) | (ob & 0x02) | (ob & 0x01) == ob & 0x1F) by (bit_vector);
        flags | low
    }

    // 0x2003: OAMADDR - W
    fn write_oam_addr(&mut self, data: u8)
        requires
            old(self).wf(),
        ensures
            final(self).wf(),
            *final(self) == (PPU { oam_addr: data, ..*old(self) }),
    {
        self.oam_addr = data;
    }

    // 0x2004: OAMDATA - R
    fn read_oam_data(&self) -> (r: u8)
        requires
            self.wf(),
        ensures
            r == self.oam_data_value(),
    {
        let mut data = self.oam[self.oam_addr as usize];
        if (self.oam_addr & 0b11) == 0b10 {
            data &= 0b11100011;
        }
        data
    }

    // 0x2004: OAMDATA - W
    fn write_oam_data(&mut self, data: u8)
        requires
            old(self).wf(),
        ensures
            final(self).wf(),
            *final(self) == (PPU {
                oam: vstd::array::spec_array_update(old(self).oam, old(self).oam_addr as int, data),
                oam_addr: ((old(self).oam_addr + 1) % 256) as u8,
                ..*old(self)
            }),
    {
        self.oam[self.oam_addr as usize] = data;
        self.oam_addr = self.oam_addr.wrapping_add(1);
    }

    // 0x2005: PPUSCROLL - W
    fn write_ppu_scroll(&mut self, data: u8)
        requires
            old(self).wf(),
        ensures
            final(self).wf(),
            *final(self) == old(self).write_ppu_scroll_spec(data),
    {
        if self.w == 0 {
            // get fine x from data[2:0]: xxx
            self.x = data & 0b111;
            // get coarse x from data[7:3]: ... .. ..... XXXXX
            let coarse_x = (data >> 3) as u16;
            // final address: ttt tt ttttt XXXXX
            self.t = (self.t & 0b1_111_11_11111_00000) | coarse_x;
        } else {
            // get coarse y from data[7:3]: ... .. YYYYY .....
            let coarse_y = ((data >> 3) as u16) << 5;
            // get fine y from data[2:0]: yyy .. ..... .....
            let fine_y = ((data & 0b111) as u16) << 12;
            // final address: yyy tt YYYYY ttttt
            self.t = (self.t & 0b1_000_11_00000_11111) | coarse_y | fine_y;
        }
        proof {
            let d = data;
            assert((d & 0b111u8) <= 7) by (bit_vector);
        }
        self.w ^= 1;
        proof {
            let w0 = old(self).w;
            assert(w0 <= 1 ==> (w0 ^ 1u8) <= 1) by (bit_vector);
        }
    }

    // 0x2006: PPUADDR - W
    fn write_ppu_addr(&mut self, data: u8)
        requires
            old(self).wf(),
        ensures
            final(self).wf(),
            *final(self) == old(self).write_ppu_addr_spec(data),
    {
        if self.w == 0 {
            // get hi "byte" of addr from data[5:0]: .hh hh hh... .....
            let hi = ((data & 0b111111) as u16) << 8;
            // pull bit 14 to 0, final address: 0hh hh hh... .....
            self.t = (self.t & 0b1_000_00_00111_11111) | hi;
        } else {
            // get lo byte of addr from data[7:0]: ... .. ..lll lllll
            let lo = data as u16;
            // final address: ttt tt ttlll lllll
            self.t = (self.t & 0b1_111_11_11000_00000) | lo;
            // copy finalized temporary address into vram address
            self.v = self.t;
        }
        self.w ^= 1;
        proof {
            let w0 = old(self).w;
            assert(w0 <= 1 ==> (w0 ^ 1u8) <= 1) by (bit_vector);
        }
    }

    // 0x2007: PPUDATA - R
    fn read_ppu_data(&mut self) -> (r: u8)
        requires
            old(self).wf(),
            old(self).memory_ok(),
        ensures
            final(self).wf(),
            (r, *final(self)) == old(self).read_ppu_data_spec(),
    {
        let mut data = self.mem_read(self.v);
        let low = self.v & 0x3FFF;
        proof {
            let v = self.v;
            crate::utils::lemma_word_bits(v);
        }
        if low < 0x3F00 {
            // buffer non-palette reads
            let buf = self.read_buffer;
            self.read_buffer = data;
            data = buf;
        } else {
            // access palette directly
            self.read_buffer = self.mem_read(self.v - 0x1000);
        }
        self.increment_v();
        data
    }

    // 0x2007: PPUDATA - W
    fn write_ppu_data(&mut self, data: u8)
        requires
            old(self).wf(),
            old(self).memory_ok(),
        ensures
            final(self).wf(),
            *final(self) == old(self).write_ppu_data_spec(data),
    {
        self.mem_write(self.v, data);
        self.increment_v();
    }

    /// Reads CPU-visible register `reg` (the address modulo 8); the value
    /// read is left on the PPU open bus.
    pub fn reg_read(&mut self, reg: u8) -> (r: u8)
        requires
            old(self).wf(),
            reg == 7 ==> old(self).memory_ok(),
        ensures
            final(self).wf(),
            (r, *final(self)) == old(self).reg_read_spec(reg),
    {
        let data = if reg == 2 {
            self.read_ppu_status()
        } else if reg == 4 {
            self.read_oam_data()
        } else if reg == 7 {
            self.read_ppu_data()
        } else {
            self.open_bus
        };
        self.open_bus = data;
        data
    }

    /// The byte a read of register `reg` would return, without the read's side effects.
    pub fn reg_peek(&self, reg: u8) -> (r: u8)
        requires
            self.wf(),
            reg == 7 ==> self.memory_ok(),
        ensures
            r == self.reg_read_spec(reg).0,
    {
        if reg == 2 {
            self.status_value()
        } else if reg == 4 {
            self.read_oam_data()
        } else if reg == 7 {
            proof {
                let v = self.v;
                crate::utils::lemma_word_bits(v);
            }
            if self.v & 0x3FFF < 0x3F00 {
                self.read_buffer
            } else {
                self.mem_read(self.v)
            }
        } else {
            self.open_bus
        }
    }

    /// Writes `data` to CPU-visible register `reg` (the address modulo 8);
    /// the value written is left on the PPU open bus.
    pub fn reg_write(&mut self, reg: u8, data: u8)
        requires
            old(self).wf(),
            reg == 7 ==> old(self).memory_ok(),
        ensures
            final(self).wf(),
            *final(self) == old(self).reg_write_spec(reg, data),
    {
        if reg == 0 {
            self.write_ppu_ctrl(data);
        } else if reg == 1 {
            self.write_ppu_mask(data);
        } else if reg == 3 {
            self.write_oam_addr(data);
        } else if reg == 4 {
            self.write_oam_data(data);
        } else if reg == 5 {
            self.write_ppu_scroll(data);
        } else if reg == 6 {
            self.write_ppu_addr(data);
        } else if reg == 7 {
            self.write_ppu_data(data);
        }
        self.open_bus = data;
    }

    // Helpers
    fn increment_v(&mut self)
        requires
            old(self).wf(),
        ensures
            final(self).wf(),
            *final(self) == (PPU { v: old(self).incremented_v(), ..*old(self) }),
    {
        if self.ppu_ctrl & CTRL_VRAM_INCREMENT != 0 {
            self.v = self.v.wrapping_add(32);
        } else {
            self.v = self.v.wrapping_add(1);
        }
    }
}

} // verus!
