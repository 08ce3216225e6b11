//! The background rendering pipeline of the PPU: tile fetches, the scroll
//! counter updates of `v`, the shift-register reload and pixel output.
use super::{PPU, NAMETABLE_START, CTRL_BACKGROUND_PATTERN_TABLE, MASK_SHOW_BACKGROUND,
    MASK_NO_CLIP_BACKGROUND, palette_index};
use vstd::prelude::*;

verus! {

/// Nametable address of the tile `v` points at: 0x2000 | v[11:0].
pub open spec fn nametable_fetch_addr(v: u16) -> u16 {
    NAMETABLE_START | (v & 0b11_11111_11111)
}

/// Attribute-table address for `v`: 0x2000 | NN | 0x3C0 | high three bits
/// of coarse y | high three bits of coarse x.
pub open spec fn attribute_fetch_addr(v: u16) -> u16 {
    NAMETABLE_START | (v & 0b11_0000_000_000) | 0b1111_000_000 | ((v >> 4u16) & 0b111_000) | ((v >> 2u16) & 0b111)
}

/// Shift selecting the 2-bit palette of the tile's quadrant in an attribute
/// byte: quadrant = v[6] v[1], shift = 2 * quadrant.
pub open spec fn attribute_shift(v: u16) -> u16 {
    (((v >> 5u16) & 0b10) | ((v >> 1u16) & 0b1)) << 1u16
}

/// `v` after a coarse-x increment: +1, or at coarse x 31 wrap to 0 and
/// switch the horizontal nametable.
pub open spec fn incremented_x(v: u16) -> u16 {
    if (v & 0b11111) != 0b11111 {
        (v + 1) as u16
    } else {
        (v & 0b1_111_11_11111_00000) ^ 0b1_00000_00000
    }
}

/// `v` after a y increment: fine y + 1, or at fine y 7 reset it and advance
/// coarse y, which wraps at 29 (switching the vertical nametable) and at 31
/// (without switching).
pub open spec fn incremented_y(v: u16) -> u16 {
    if (v & 0b111_00_00000_00000) != 0b111_00_00000_00000 {
        (v + 0b1_00_00000_00000) as u16
    } else {
        let v1 = v & 0b1_000_11_11111_11111;
        let coarse_y = (v1 & 0b11111_00000) >> 5u16;
        let (coarse_y2, v2) = if coarse_y == 0b11101 {
            (0u16, v1 ^ 0b10_00000_00000)
        } else if coarse_y == 0b11111 {
            (0u16, v1)
        } else {
            ((coarse_y + 1) as u16, v1)
        };
        (v2 & 0b1_111_11_00000_11111) | (coarse_y2 << 5u16)
    }
}

/// `v` after copying the vertical scroll bits (fine y, vertical nametable,
/// coarse y) from `t`.
pub open spec fn copied_y(v: u16, t: u16) -> u16 {
    (v & 0b000_01_00000_11111) | (t & 0b111_10_11111_00000)
}

/// `v` after copying the horizontal scroll bits (horizontal nametable,
/// coarse x) from `t`.
pub open spec fn copied_x(v: u16, t: u16) -> u16 {
    (v & 0b111_10_11111_00000) | (t & 0b000_01_00000_11111)
}

impl PPU {

    /// State after [`Self::draw_pixel`].
    pub open spec fn draw_pixel_spec(self) -> PPU {
        PPU {
            back: vstd::array::spec_array_update(
                self.back,
                self.scanline * 256 + (self.cycle - 1),
                (self.palette@[palette_index(self.background_pixel((self.cycle - 1) as u16) as int)] % 64) as u8,
            ),
            ..self
        }
    }

    /// State after [`Self::fetch_nametable`].
    pub open spec fn fetch_nametable_spec(self) -> PPU {
        PPU {
            store: super::PPUStore { nametable_byte: self.mem_read_spec(nametable_fetch_addr(self.v)), ..self.store },
            ..self
        }
    }

    /// State after [`Self::fetch_attribute`].
    pub open spec fn fetch_attribute_spec(self) -> PPU {
        PPU {
            store: super::PPUStore {
                attribute_byte: (self.mem_read_spec(attribute_fetch_addr(self.v)) >> (attribute_shift(self.v) as u8)) & 0b11,
                ..self.store
            },
            ..self
        }
    }

    /// Pattern-table address of the low byte of the current tile row.
    pub open spec fn tile_lo_addr(self) -> u16 {
        let base: u16 = if self.ppu_ctrl & CTRL_BACKGROUND_PATTERN_TABLE != 0 { 0x1000 } else { 0 };
        (base + self.store.nametable_byte as u16 * 16 + ((self.v >> 12u16) & 0b111)) as u16
    }

    /// State after [`Self::fetch_tile_lo`].
    pub open spec fn fetch_tile_lo_spec(self) -> PPU {
        PPU {
            store: super::PPUStore {
                tile_addr: self.tile_lo_addr(),
                tile_lo_byte: self.mem_read_spec(self.tile_lo_addr()),
                ..self.store
            },
            ..self
        }
    }

    /// State after [`Self::fetch_tile_hi`].
    pub open spec fn fetch_tile_hi_spec(self) -> PPU {
        PPU {
            store: super::PPUStore { tile_hi_byte: self.mem_read_spec((self.store.tile_addr + 8) as u16), ..self.store },
            ..self
        }
    }

    /// State after [`Self::store_tiles`].
    pub open spec fn store_tiles_spec(self) -> PPU {
        PPU {
            pattern_lo: (self.pattern_lo & 0xFF00) | (self.store.tile_lo_byte as u16),
            pattern_hi: (self.pattern_hi & 0xFF00) | (self.store.tile_hi_byte as u16),
            attribute_lo: (self.attribute_lo & 0xFF00) | (if self.store.attribute_byte & 0b01 != 0 { 0xFFu16 } else { 0x00u16 }),
            attribute_hi: (self.attribute_hi & 0xFF00) | (if self.store.attribute_byte & 0b10 != 0 { 0xFFu16 } else { 0x00u16 }),
            ..self
        }
    }
    /// The 4-bit background color index at screen column `x`: zero when the
    /// background is hidden, clipped in the leftmost 8 columns, or its
    /// pattern bits are 0; else attribute bits then pattern bits, selected
    /// from the shift registers by fine x.
    pub open spec fn background_pixel(self, x: u16) -> u8 {
        if self.ppu_mask & MASK_SHOW_BACKGROUND != 0 && (x >= 8 || self.ppu_mask & MASK_NO_CLIP_BACKGROUND != 0) {
            let bit_mux: u16 = 0x8000u16 >> (self.x as u16);
            let p1: u8 = if (self.pattern_lo & bit_mux) > 0 { 1 } else { 0 };
            let p2: u8 = if (self.pattern_hi & bit_mux) > 0 { 1 } else { 0 };
            let a1: u8 = if (self.attribute_lo & bit_mux) > 0 { 1 } else { 0 };
            let a2: u8 = if (self.attribute_hi & bit_mux) > 0 { 1 } else { 0 };
            let pattern = (p2 << 1u8) | p1;
            let attribute = (a2 << 1u8) | a1;
            if pattern != 0 { (attribute << 2u8) | pattern } else { 0 }
        } else {
            0
        }
    }

    /// Outputs the pixel of the current dot (column cycle - 1, row scanline)
    /// to the back buffer: the palette entry of the background color index,
    /// reduced to the 64-color range.
    pub fn draw_pixel(&mut self)
        requires
            old(self).wf(),
            1 <= old(self).cycle <= 256,
            old(self).scanline <= 239,
        ensures
            final(self).wf(),
            *final(self) == old(self).draw_pixel_spec(),
    {
        let x = self.cycle - 1; // this is called during cycles [1,256]
        let y = self.scanline;
        let idx = (y * 256 + x) as usize;

        let mut background: u8 = 0;
        if self.ppu_mask & MASK_SHOW_BACKGROUND != 0 {
            if x >= 8 || self.ppu_mask & MASK_NO_CLIP_BACKGROUND != 0 {
                // Select pixel from pattern table shift registers using fine x scroll
                let bit_mux: u16 = 0x8000u16 >> (self.x as u16);
                let p1: u8 = if (self.pattern_lo & bit_mux) > 0 { 1 } else { 0 };
                let p2: u8 = if (self.pattern_hi & bit_mux) > 0 { 1 } else { 0 };

                // Select palette from attribute table shift registers
                let a1: u8 = if (self.attribute_lo & bit_mux) > 0 { 1 } else { 0 };
                let a2: u8 = if (self.attribute_hi & bit_mux) > 0 { 1 } else { 0 };

                let pattern = (p2 << 1) | p1;
                let attribute = (a2 << 1) | a1;

                // A pattern of 0 means the background color is used
                if pattern != 0 {
                    background = (attribute << 2) | pattern;
                }
            }
        }

        // Sprites are not yet multiplexed in.
        let color = background;

        let palette_addr = self.get_palette_addr(color as u16);
        self.back[idx] = self.palette[palette_addr as usize] % 64;
    }

    /// Latches the nametable byte of the tile `v` points at.
    pub fn fetch_nametable(&mut self)
        requires
            old(self).wf(),
            old(self).memory_ok(),
        ensures
            final(self).wf(),
            *final(self) == old(self).fetch_nametable_spec(),
    {
        // get nametable offset from v[12:0]: ... NN YYYYY XXXXX
        let offset = self.v & 0b11_11111_11111;
        // final address: .10 NN YYYYY XXXXX
        let addr = NAMETABLE_START | offset;
        self.store.nametable_byte = self.mem_read(addr);
    }

    /// Latches the 2-bit palette number of the current tile from its attribute byte.
    pub fn fetch_attribute(&mut self)
        requires
            old(self).wf(),
            old(self).memory_ok(),
        ensures
            final(self).wf(),
            *final(self) == old(self).fetch_attribute_spec(),
    {
        // get nametable select from v[12:11]: ... NN .... ... ...
        let nametable = self.v & 0b11_0000_000_000;
        // set attribute offset from nametable: ... .. 1111 ... ...
        let offset: u16 = 0b1111_000_000;
        // get high 3 bits of coarse y: ... .. .... YYY ...
        let coarse_y = (self.v >> 4) & 0b111_000;
        // get high 3 bits of coarse x: ... .. .... ... XXX
        let coarse_x = (self.v >> 2) & 0b111;
        // final address: .10 NN 1111 YYY XXX
        let addr = NAMETABLE_START | nametable | offset | coarse_y | coarse_x;
        let attr_byte = self.mem_read(addr);

        // Each attribute packs four 2-bit tiles:
        //     attr_byte[1:0]: top left
        //     attr_byte[3:2]: top right
        //     attr_byte[5:4]: bottom left
        //     attr_byte[7:6]: bottom right

        // get x quadrant from v[1]: .X
        let x_quad = (self.v >> 1) & 0b1;
        // get y quadrant from v[6]: Y.
        let y_quad = (self.v >> 5) & 0b10;
        // final quadrant index: YX
        let idx = y_quad | x_quad; // [0,3]

        let shift = idx << 1; // {0,2,4,6}
        proof {
            let v = self.v;
            assert((((v >> 5u16) & 0b10u16) | ((v >> 1u16) & 0b1u16)) << 1u16 <= 6) by (bit_vector);
        }
        // final attribute: AA ..
        self.store.attribute_byte = (attr_byte >> (shift as u8)) & 0b11;
    }

    /// Latches the low pattern byte of the current tile row: pattern table
    /// chosen by PPUCTRL, 16 bytes per tile, row = fine y.
    pub fn fetch_tile_lo(&mut self)
        requires
            old(self).wf(),
            old(self).memory_ok(),
        ensures
            final(self).wf(),
            *final(self) == old(self).fetch_tile_lo_spec(),
    {
        // get fine y from v[15:13]
        let fine_y = (self.v >> 12) & 0b111;
        proof {
            let v = self.v;
            assert(((v >> 12u16) & 0b111u16) <= 7) by (bit_vector);
        }
        // get base addr from the background pattern table bit: 0: 0x0000, 1: 0x1000
        let background_pattern_table_start: u16 =
            if self.ppu_ctrl & CTRL_BACKGROUND_PATTERN_TABLE != 0 { 0x1000 } else { 0 };
        // each entry in the nametable is a tile index, tiles are 16 bytes each (8 lo, 8 hi)
        let tile_offset = self.store.nametable_byte as u16 * 16;
        // final address: pattern_table_base + start of current tile data + fine_y for lo byte
        self.store.tile_addr = background_pattern_table_start + tile_offset + fine_y;
        self.store.tile_lo_byte = self.mem_read(self.store.tile_addr);
    }

    /// Latches the high pattern byte: 8 bytes after the low one.
    pub fn fetch_tile_hi(&mut self)
        requires
            old(self).wf(),
            old(self).memory_ok(),
        ensures
            final(self).wf(),
            *final(self) == old(self).fetch_tile_hi_spec(),
    {
        // final address: prev lo address + 8 for hi byte
        self.store.tile_hi_byte = self.mem_read(self.store.tile_addr + 8);
    }

    /// Copies the vertical scroll bits of `t` into `v`.
    pub fn copy_y(&mut self)
        requires
            old(self).wf(),
        ensures
            final(self).wf(),
            *final(self) == (PPU { v: copied_y(old(self).v, old(self).t), ..*old(self) }),
    {
        // set v: ttt t. ttttt ..... from t: ttt t. ttttt .....
        self.v &= 0b000_01_00000_11111;
        self.v |= self.t & 0b111_10_11111_00000;
    }

    /// Copies the horizontal scroll bits of `t` into `v`.
    pub fn copy_x(&mut self)
        requires
            old(self).wf(),
        ensures
            final(self).wf(),
            *final(self) == (PPU { v: copied_x(old(self).v, old(self).t), ..*old(self) }),
    {
        // set v: ... .t ..... ttttt from t: ... .t ..... ttttt
        self.v &= 0b111_10_11111_00000;
        self.v |= self.t & 0b000_01_00000_11111;
    }

    /// Advances coarse x in `v`.
    pub fn increment_x(&mut self)
        requires
            old(self).wf(),
        ensures
            final(self).wf(),
            *final(self) == (PPU { v: incremented_x(old(self).v), ..*old(self) }),
    {
        // check if all coarse x bits are set
        if (self.v & 0b11111) != 0b11111 {
            proof {
                let v = self.v;
                assert((v & 0b11111u16) != 0b11111u16 ==> v < 0xFFFF) by (bit_vector);
            }
            // if not, simple increment
            self.v += 1;
        } else {
            // if yes, zero out coarse x
            self.v &= 0b1_111_11_11111_00000;
            // switch horizontal nametable (wrapping add logic)
            self.v ^= 0b1_00000_00000;
        }
    }

    /// Advances fine y, and coarse y when fine y wraps.
    pub fn increment_y(&mut self)
        requires
            old(self).wf(),
        ensures
            final(self).wf(),
            *final(self) == (PPU { v: incremented_y(old(self).v), ..*old(self) }),
    {
        // check if all fine y bits are set
        if (self.v & 0b111_00_00000_00000) != 0b111_00_00000_00000 {
            proof {
                let v = self.v;
                assert((v & 0x7000u16) != 0x7000u16 ==> v <= 0xEFFF) by (bit_vector);
            }
            // if not, simple increment
            self.v += 0b1_00_00000_00000;
        } else {
            // if yes, zero out fine y
            self.v &= 0b1_000_11_11111_11111;
            // get coarse y from v[9:5]
            let mut coarse_y = (self.v & 0b11111_00000) >> 5;
            proof {
                let v = self.v;
                assert(((v & 0b11111_00000u16) >> 5u16) <= 31) by (bit_vector);
            }
            // increment coarse y (wrapping add logic)
            if coarse_y == 0b11101 {
                coarse_y = 0; // 30 rows of tiles, so max(coarse_y) = 0b11101
                self.v ^= 0b10_00000_00000; // switch vertical nametable
            } else if coarse_y == 0b11111 {
                coarse_y = 0; // coarse Y reset to 0, no switching
            } else {
                coarse_y += 1; // simple increment
            }
            // OR in coarse y to get final address
            self.v = (self.v & 0b1_111_11_00000_11111) | (coarse_y << 5);
        }
    }

    /// Reloads the low bytes of the shift registers from the fetched tile:
    /// pattern bytes as fetched, attribute bits widened to 0x00 or 0xFF.
    pub fn store_tiles(&mut self)
        requires
            old(self).wf(),
        ensures
            final(self).wf(),
            *final(self) == old(self).store_tiles_spec(),
    {
        self.pattern_lo = (self.pattern_lo & 0xFF00) | self.store.tile_lo_byte as u16;
        self.pattern_hi = (self.pattern_hi & 0xFF00) | self.store.tile_hi_byte as u16;
        self.attribute_lo = (self.attribute_lo & 0xFF00)
            | if self.store.attribute_byte & 0b01 != 0 { 0xFF } else { 0x00 };
        self.attribute_hi = (self.attribute_hi & 0xFF00)
            | if self.store.attribute_byte & 0b10 != 0 { 0xFF } else { 0x00 };
    }
}

} // verus!
