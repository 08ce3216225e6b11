//! The 2C02 picture processing unit: memory map (pattern tables, mirrored
//! nametables, palette), the per-dot pipeline of the visible and pre-render
//! scanlines, sprite evaluation, vertical blank and NMI generation.
pub mod render;
pub mod io;

use crate::cartridge::{Cartridge, Mirroring};
use render::{incremented_x, incremented_y, copied_x, copied_y};
use vstd::prelude::*;

verus! {

pub const PATTERN_TABLE_START: u16 = 0x0000;
pub const PATTERN_TABLE_END: u16 = 0x1FFF;
pub const NAMETABLE_START: u16 = 0x2000;
pub const NAMETABLE_END: u16 = 0x3EFF;
pub const PALETTE_START: u16 = 0x3F00;
pub const PALETTE_END: u16 = 0x3FFF;

pub const PRE_RENDER_LINE: u16 = 261;

// PPUCTRL bits.
pub const CTRL_HORZ_NAMETABLE: u8 = 0b0000_0001;
pub const CTRL_VERT_NAMETABLE: u8 = 0b0000_0010;
pub const CTRL_VRAM_INCREMENT: u8 = 0b0000_0100;
pub const CTRL_SPRITE_PATTERN_TABLE: u8 = 0b0000_1000;
pub const CTRL_BACKGROUND_PATTERN_TABLE: u8 = 0b0001_0000;
pub const CTRL_SPRITE_SIZE: u8 = 0b0010_0000;
pub const CTRL_MASTER_SLAVE: u8 = 0b0100_0000;
pub const CTRL_NMI_ON_VBLANK: u8 = 0b1000_0000;

// PPUMASK bits.
pub const MASK_GRAYSCALE: u8 = 0b0000_0001;
pub const MASK_NO_CLIP_BACKGROUND: u8 = 0b0000_0010;
pub const MASK_NO_CLIP_SPRITES: u8 = 0b0000_0100;
pub const MASK_SHOW_BACKGROUND: u8 = 0b0000_1000;
pub const MASK_SHOW_SPRITES: u8 = 0b0001_0000;
pub const MASK_EMPH_RED: u8 = 0b0010_0000;
pub const MASK_EMPH_GREEN: u8 = 0b0100_0000;
pub const MASK_EMPH_BLUE: u8 = 0b1000_0000;

// PPUSTATUS bits (bits 0 to 4 come from the PPU open bus).
pub const STATUS_SPRITE_OVERFLOW: u8 = 0b0010_0000;
pub const STATUS_SPRITE0_HIT: u8 = 0b0100_0000;
pub const STATUS_IS_VBLANK: u8 = 0b1000_0000;

/// Which byte of the current OAM entry sprite evaluation reads next.
#[derive(PartialEq, Eq, Structural, Clone, Copy, Debug)]
pub enum SpriteEvalState {
    YCoordinate,
    TileNumber,
    Attributes,
    XCoordinate,
    Done,
}

/// Latches of the background fetch pipeline and the sprite evaluation cursor.
#[derive(Clone, Copy)]
pub struct PPUStore {
    // Background state
    pub nametable_byte: u8,
    pub attribute_byte: u8,
    pub tile_lo_byte: u8,
    pub tile_hi_byte: u8,
    pub tile_addr: u16,

    // Sprite state
    pub sprite_eval_state: SpriteEvalState,
    pub sprite_height: u8,
    pub curr_sprite: u8,
    pub accepted_sprite: u8,
    pub read_sprite: u8,
    pub curr_sprite_byte: u8,
    pub read_sprite_byte: u8,
    pub found_empty: bool,
    pub y_coordinate: u8,
    pub tile_number: u8,
    pub attributes: u8,
    pub x_coordinate: u8,
}

/// One sprite as fetched for the next scanline.
#[derive(Debug, Copy, Clone)]
pub struct Sprite {
    pub y_coordinate: u8,
    pub tile_number: u8,
    pub attributes: u8,
    pub x_coordinate: u8,
}

/// The PPU. `v`, `t`, `x` and `w` are the internal scroll registers (`v` and
/// `t`: yyy NN YYYYY XXXXX = fine y, nametable, coarse y, coarse x); `f` the
/// odd-frame bit. When an NMI edge occurs, `nmi_signal` is raised for the CPU
/// side to collect.
pub struct PPU {
    pub v: u16,
    pub t: u16,
    pub x: u8,
    pub w: u8,
    pub f: u8,
    /// The pattern-table window of the cartridge's CHR memory: the 8 KiB
    /// that PPU addresses 0x0000 to 0x1FFF reach.
    pub chr_rom: [u8; 0x2000],
    /// How many bytes of CHR memory the cartridge provides.
    pub chr_size: usize,
    pub vram: [u8; 0x800],
    pub palette: [u8; 0x20],
    // Sprites are 4 bytes each: y coordinate, tile number, attributes, x coordinate.
    pub oam: [u8; 256],
    pub secondary_oam: [u8; 32],

    // Background shift registers
    pub pattern_lo: u16,
    pub pattern_hi: u16,
    pub attribute_lo: u16,
    pub attribute_hi: u16,

    // Fetched sprites
    pub sprites: [Sprite; 8],

    // Open bus
    pub open_bus: u8,

    // Image buffers
    pub front: [u8; 61440],
    pub back: [u8; 61440],

    // I/O registers
    pub ppu_ctrl: u8,
    pub ppu_mask: u8,
    pub ppu_status: u8,
    pub oam_addr: u8,
    pub read_buffer: u8,
    pub nmi_signal: bool,

    // PPU metadata
    pub mirroring: Mirroring,
    pub cycle: u16,
    pub scanline: u16,
    pub store: PPUStore,
    pub nmi_prev: bool,

    // Debugging counters
    pub total_cycles: u64,
    pub total_scanlines: u64,
    pub total_frames: u64,
}

/// Index into the 2 KiB of nametable RAM that a nametable address maps to:
/// vertical mirroring folds tables 2 and 3 onto 0 and 1, horizontal folds
/// tables 1 and 3 onto 0 and 2.
pub open spec fn vram_index(mirroring: Mirroring, addr: int) -> int {
    let a = addr % 0x1000;
    let table = a / 0x400;
    let offset = a % 0x400;
    let mirrored = if mirroring == Mirroring::VERTICAL { table % 2 } else { table / 2 };
    mirrored * 0x400 + offset
}

/// Index into palette RAM: 32 entries, with 0x10/0x14/0x18/0x1C mirroring
/// 0x00/0x04/0x08/0x0C.
pub open spec fn palette_index(addr: int) -> int {
    let a = addr % 0x20;
    if a >= 0x10 && a % 4 == 0 { a % 0x10 } else { a }
}

/// The scanline is one of the 240 visible ones.
pub open spec fn is_visible_line(scanline: u16) -> bool {
    scanline <= 239
}

impl PPU {
    /// Structural invariant: the timing and scroll registers are in range,
    /// the sprite cursors stay inside OAM, and the debugging counters are
    /// ordered.
    pub open spec fn wf(&self) -> bool {
        &&& self.cycle <= 340
        &&& self.scanline <= 261
        &&& self.f <= 1
        &&& self.w <= 1
        &&& self.x <= 7
        &&& self.store.tile_addr <= 0x1FF7
        &&& self.store.accepted_sprite <= 8
        &&& self.store.curr_sprite_byte <= 3
        &&& self.store.read_sprite <= 8
        &&& self.store.read_sprite_byte <= 3
        &&& self.total_frames <= self.total_scanlines
        &&& self.total_scanlines <= self.total_cycles
    }

    /// Every PPU address can be reached: the cartridge fills the whole
    /// pattern-table window, and the nametable mirroring is one the PPU
    /// implements. Reads and writes of PPU memory need it.
    pub open spec fn memory_ok(&self) -> bool {
        &&& self.chr_size >= 0x2000
        &&& self.mirroring != Mirroring::ALTERNATIVE
    }

    /// The invariant kept between dots: [`Self::wf`] and the sprite fetch phase.
    pub open spec fn inv(&self) -> bool {
        self.wf() && self.sprite_fetch_phase_ok()
    }

    /// During the sprite fetch window (dots 257 to 320 of a visible line),
    /// the byte cursor follows the dot: dots 2 to 4 of each 8-dot group come
    /// right after bytes 0 to 2 were fetched, dots 5 to 8 after a sprite was
    /// completed.
    pub open spec fn sprite_fetch_phase_ok(&self) -> bool {
        (is_visible_line(self.scanline) && 257 <= self.cycle <= 320 && self.store.read_sprite < 8) ==> {
            let phase = self.cycle % 8;
            if phase == 1 {
                true
            } else if 2 <= phase <= 4 {
                self.store.read_sprite_byte == phase - 1
            } else {
                self.store.read_sprite_byte == 0 && self.store.read_sprite >= 1
            }
        }
    }

    /// The next dot does not reach a sprite-evaluation write while the
    /// evaluation has already finished with fewer than eight sprites (a
    /// state the evaluator has no value to write for), and a dot that may
    /// fetch from PPU memory finds every address reachable.
    pub open spec fn tick_ok(&self) -> bool {
        &&& !(is_visible_line(self.scanline) && 65 <= self.cycle <= 256 && self.cycle % 2 == 0
            && self.store.accepted_sprite < 8 && self.store.sprite_eval_state == SpriteEvalState::Done)
        &&& self.fetches_memory() ==> self.memory_ok()
    }

    /// The dot may fetch from PPU memory: rendering is enabled on the
    /// pre-render line or a visible line.
    pub open spec fn fetches_memory(&self) -> bool {
        &&& self.ppu_mask & (MASK_SHOW_BACKGROUND | MASK_SHOW_SPRITES) != 0
        &&& (self.scanline == PRE_RENDER_LINE || is_visible_line(self.scanline))
    }

    /// What a read of PPU address `addr` (taken modulo 0x4000) yields.
    pub open spec fn mem_read_spec(&self, addr: u16) -> u8 {
        let a = addr as int % 0x4000;
        if a <= PATTERN_TABLE_END {
            self.chr_rom@[a]
        } else if a <= NAMETABLE_END {
            self.vram@[vram_index(self.mirroring, a)]
        } else {
            self.palette@[palette_index(a)]
        }
    }

    /// The PPU after a write of `data` to PPU address `addr` (modulo 0x4000):
    /// pattern-table writes land in the cartridge's CHR memory.
    pub open spec fn mem_write_spec(self, addr: u16, data: u8) -> PPU {
        let a = addr as int % 0x4000;
        if a <= PATTERN_TABLE_END {
            PPU { chr_rom: vstd::array::spec_array_update(self.chr_rom, a, data), ..self }
        } else if a <= NAMETABLE_END {
            PPU { vram: vstd::array::spec_array_update(self.vram, vram_index(self.mirroring, a), data), ..self }
        } else {
            PPU { palette: vstd::array::spec_array_update(self.palette, palette_index(a), data), ..self }
        }
    }

    /// A PPU for the given cartridge: the pattern-table window of its CHR
    /// memory (zero where the cartridge provides less), its CHR size and
    /// mirroring, every register, memory and counter zero, evaluation at its
    /// start.
    pub fn new(cartridge: &Cartridge) -> (p: Self)
        ensures
            p.inv(),
            p.chr_size == cartridge.chr_rom@.len(),
            forall|i: int|
                0 <= i < 0x2000 ==> p.chr_rom@[i] == if i < cartridge.chr_rom@.len() { cartridge.chr_rom@[i] } else { 0 },
            p.mirroring == cartridge.mirroring,
            p.v == 0 && p.t == 0 && p.x == 0 && p.w == 0 && p.f == 0,
            p.cycle == 0 && p.scanline == 0,
            p.ppu_ctrl == 0 && p.ppu_mask == 0 && p.ppu_status == 0,
            forall|i: int| 0 <= i < 0x800 ==> p.vram@[i] == 0,
            forall|i: int| 0 <= i < 0x20 ==> p.palette@[i] == 0,
            forall|i: int| 0 <= i < 256 ==> p.oam@[i] == 0,
            forall|i: int| 0 <= i < 61440 ==> p.front@[i] == 0 && p.back@[i] == 0,
            !p.nmi_signal && !p.nmi_prev,
            forall|i: int| 0 <= i < 32 ==> p.secondary_oam@[i] == 0,
            p.pattern_lo == 0 && p.pattern_hi == 0 && p.attribute_lo == 0 && p.attribute_hi == 0,
            forall|i: int| 0 <= i < 8 ==> p.sprites@[i] == (Sprite { y_coordinate: 0, tile_number: 0, attributes: 0, x_coordinate: 0 }),
            p.open_bus == 0 && p.oam_addr == 0 && p.read_buffer == 0,
            p.store == (PPUStore {
                nametable_byte: 0,
                attribute_byte: 0,
                tile_lo_byte: 0,
                tile_hi_byte: 0,
                tile_addr: 0,
                sprite_eval_state: SpriteEvalState::YCoordinate,
                sprite_height: 0,
                curr_sprite: 0,
                accepted_sprite: 0,
                read_sprite: 0,
                curr_sprite_byte: 0,
                read_sprite_byte: 0,
                found_empty: false,
                y_coordinate: 0,
                tile_number: 0,
                attributes: 0,
                x_coordinate: 0,
            }),
            p.total_cycles == 0 && p.total_scanlines == 0 && p.total_frames == 0,
    {
        let size: usize = cartridge.chr_rom.len();
        let mut chr_rom: [u8; 0x2000] = [0; 0x2000];
        let mut i: usize = 0;
        while i < 0x2000 && i < size
            invariant
                i <= 0x2000,
                i <= size,
                size == cartridge.chr_rom@.len(),
                forall|j: int| 0 <= j < 0x2000 ==> chr_rom@[j] == if j < i { cartridge.chr_rom@[j] } else { 0 },
            decreases 0x2000 - i,
        {
            chr_rom[i] = cartridge.chr_rom[i];
            i = i + 1;
        }
        assert forall|j: int| 0 <= j < 0x2000 implies chr_rom@[j] == if j < cartridge.chr_rom@.len() {
            cartridge.chr_rom@[j]
        } else {
            0
        } by {
            assert(i == 0x2000 || i == size);
        }
        let empty = Sprite { y_coordinate: 0, tile_number: 0, attributes: 0, x_coordinate: 0 };
        PPU {
            v: 0,
            t: 0,
            x: 0,
            w: 0,
            f: 0,
            chr_rom,
            chr_size: size,
            vram: [0; 0x800],
            palette: [0; 0x20],
            oam: [0; 256],
            secondary_oam: [0; 32],
            pattern_lo: 0,
            pattern_hi: 0,
            attribute_lo: 0,
            attribute_hi: 0,
            sprites: [empty; 8],
            open_bus: 0,
            front: [0; 61440],
            back: [0; 61440],
            ppu_ctrl: 0,
            ppu_mask: 0,
            ppu_status: 0,
            oam_addr: 0,
            read_buffer: 0,
            nmi_signal: false,
            mirroring: cartridge.mirroring,
            cycle: 0,
            scanline: 0,
            store: PPUStore {
                nametable_byte: 0,
                attribute_byte: 0,
                tile_lo_byte: 0,
                tile_hi_byte: 0,
                tile_addr: 0,
                sprite_eval_state: SpriteEvalState::YCoordinate,
                sprite_height: 0,
                curr_sprite: 0,
                accepted_sprite: 0,
                read_sprite: 0,
                curr_sprite_byte: 0,
                read_sprite_byte: 0,
                found_empty: false,
                y_coordinate: 0,
                tile_number: 0,
                attributes: 0,
                x_coordinate: 0,
            },
            nmi_prev: false,
            total_cycles: 0,
            total_scanlines: 0,
            total_frames: 0,
        }
    }

    /// Puts the PPU at dot 0 of the pre-render scanline.
    pub fn reset(&mut self)
        requires
            old(self).inv(),
        ensures
            final(self).inv(),
            *final(self) == (PPU { cycle: 0, scanline: 261, ..*old(self) }),
    {
        self.cycle = 0;
        self.scanline = 261;
    }

    /// Reads PPU memory at `addr` (modulo 0x4000).
    pub fn mem_read(&self, addr: u16) -> (r: u8)
        requires
            self.memory_ok(),
        ensures
            r == self.mem_read_spec(addr),
    {
        let masked = addr & 0x3FFF;
        proof {
            crate::utils::lemma_word_bits(addr);
        }
        let addr = masked;
        if addr <= PATTERN_TABLE_END {
            self.chr_rom[addr as usize]
        } else if addr <= NAMETABLE_END {
            let a = self.get_vram_addr(addr);
            self.vram[a as usize]
        } else {
            let a = self.get_palette_addr(addr);
            self.palette[a as usize]
        }
    }

    /// Writes `data` to PPU memory at `addr` (modulo 0x4000).
    pub fn mem_write(&mut self, addr: u16, data: u8)
        requires
            old(self).wf(),
            old(self).memory_ok(),
        ensures
            final(self).wf(),
            *final(self) == old(self).mem_write_spec(addr, data),
    {
        let masked = addr & 0x3FFF;
        proof {
            crate::utils::lemma_word_bits(addr);
        }
        let addr = masked;
        if addr <= PATTERN_TABLE_END {
            self.chr_rom[addr as usize] = data;
        } else if addr <= NAMETABLE_END {
            let a = self.get_vram_addr(addr);
            self.vram[a as usize] = data;
        } else {
            let a = self.get_palette_addr(addr);
            self.palette[a as usize] = data;
        }
    }

    /// Reads PPU memory without side effects.
    pub fn peek(&self, addr: u16) -> (r: u8)
        requires
            self.memory_ok(),
        ensures
            r == self.mem_read_spec(addr),
    {
        self.mem_read(addr)
    }

    /// Nametable RAM index of a nametable address under the cartridge's mirroring.
    pub fn get_vram_addr(&self, addr: u16) -> (r: u16)
        requires
            self.mirroring != Mirroring::ALTERNATIVE,
        ensures
            r == vram_index(self.mirroring, addr as int),
            r < 0x800,
    {
        let a = addr & 0xFFF;
        let table = a / 0x400;
        let offset = a & 0x3FF;
        proof {
            assert((addr & 0xFFFu16) == addr % 0x1000) by (bit_vector);
            assert((a & 0x3FFu16) == a % 0x400) by (bit_vector);
        }
        let mirrored = match self.mirroring {
            Mirroring::VERTICAL => table & 1,
            _ => table >> 1,
        };
        proof {
            assert((table & 1u16) == table % 2) by (bit_vector);
            assert((table >> 1u16) == table / 2) by (bit_vector);
            assert(mirrored <= 1);
            assert((mirrored << 10u16) == mirrored * 0x400) by (bit_vector) requires mirrored <= 1;
        }
        (mirrored << 10) + offset
    }

    /// Palette RAM index of a palette address.
    pub fn get_palette_addr(&self, addr: u16) -> (r: u16)
        ensures
            r == palette_index(addr as int),
            r < 0x20,
    {
        let mut a = addr & 0x1F;
        proof {
            assert((addr & 0x1Fu16) == addr % 0x20) by (bit_vector);
        }
        // Mirror $3F10/$3F14/$3F18/$3F1C to $3F00/$3F04/$3F08/$3F0C
        if a >= 0x10 && a % 4 == 0 {
            proof {
                assert((a & 0x0Fu16) == a % 0x10) by (bit_vector);
            }
            a = a & 0x0F;
        }
        a
    }
}

/// A sprite-fetch dot followed by the dot advance keeps the fetch phase.
proof fn lemma_fetch_phase(s: PPU)
    requires
        s.wf(),
        s.sprite_fetch_phase_ok(),
        is_visible_line(s.scanline),
        257 <= s.cycle <= 319,
    ensures
        ({
            let e = s.evaluation_spec();
            PPU { cycle: (s.cycle + 1) as u16, ..e }.sprite_fetch_phase_ok()
        }),
{
}

/// Wrapping 8-bit addition.
pub open spec fn add8(x: u8, y: u8) -> u8 {
    vstd::wrapping::u8_specs::wrapping_add(x, y)
}

impl PPU {
    /// Background or sprite rendering is enabled in PPUMASK.
    pub open spec fn rendering_enabled(self) -> bool {
        self.ppu_mask & (MASK_SHOW_BACKGROUND | MASK_SHOW_SPRITES) != 0
    }

    /// The four background shift registers moved one bit to the left.
    pub open spec fn shifted_spec(self) -> PPU {
        PPU {
            pattern_lo: self.pattern_lo << 1u16,
            pattern_hi: self.pattern_hi << 1u16,
            attribute_lo: self.attribute_lo << 1u16,
            attribute_hi: self.attribute_hi << 1u16,
            ..self
        }
    }

    /// One dot of background fetching: on dots 1 to 256 and 321 to 336 the
    /// shift registers advance and the 8-dot fetch schedule runs
    /// (nametable, attribute, low and high pattern byte, then coarse-x
    /// increment with a shift-register reload); dot 256 also increments y,
    /// dot 257 copies the horizontal scroll from `t`.
    pub open spec fn fetch_cycles_spec(self) -> PPU {
        if (321 <= self.cycle <= 336) || (1 <= self.cycle <= 256) {
            let s1 = self.shifted_spec();
            let s2 = if self.cycle % 8 == 1 {
                s1.fetch_nametable_spec()
            } else if self.cycle % 8 == 3 {
                s1.fetch_attribute_spec()
            } else if self.cycle % 8 == 5 {
                s1.fetch_tile_lo_spec()
            } else if self.cycle % 8 == 7 {
                s1.fetch_tile_hi_spec()
            } else if self.cycle % 8 == 0 {
                PPU { v: incremented_x(s1.v), ..s1 }.store_tiles_spec()
            } else {
                s1
            };
            if self.cycle == 256 { PPU { v: incremented_y(s2.v), ..s2 } } else { s2 }
        } else if self.cycle == 257 {
            PPU { v: copied_x(self.v, self.t), ..self }
        } else {
            self
        }
    }

    /// The pre-render line: with rendering on, dots 280 to 304 copy the
    /// vertical scroll from `t`, and the background fetches run.
    pub open spec fn pre_render_spec(self) -> PPU {
        if self.rendering_enabled() {
            let s1 = if 280 <= self.cycle <= 304 { PPU { v: copied_y(self.v, self.t), ..self } } else { self };
            s1.fetch_cycles_spec()
        } else {
            self
        }
    }

    /// A visible line: with rendering on, dots 1 to 256 output a pixel, and
    /// the background fetches run.
    pub open spec fn render_lines_spec(self) -> PPU {
        if self.rendering_enabled() {
            let s1 = if 1 <= self.cycle <= 256 { self.draw_pixel_spec() } else { self };
            s1.fetch_cycles_spec()
        } else {
            self
        }
    }

    /// The OAM latch selected by the evaluation state.
    pub open spec fn eval_latch(self) -> u8 {
        match self.store.sprite_eval_state {
            SpriteEvalState::YCoordinate => self.store.y_coordinate,
            SpriteEvalState::TileNumber => self.store.tile_number,
            SpriteEvalState::Attributes => self.store.attributes,
            _ => self.store.x_coordinate,
        }
    }

    /// One dot of sprite evaluation (dots 65 to 256). Odd dots read the OAM
    /// byte under the cursor into the latch the state selects; even dots
    /// copy the latch into secondary OAM while it has room, then either
    /// advance through the four bytes of an in-range sprite (counting it when
    /// its last byte is copied, or flagging overflow once eight are taken) or
    /// skip to the next sprite (also stepping the byte cursor once eight are
    /// taken). The sprite cursor counts modulo 256 and the evaluation ends
    /// when it wraps to 0. 8-bit index arithmetic wraps.
    pub open spec fn sprite_eval_spec(self) -> PPU {
        if self.cycle % 2 == 1 { self.sprite_eval_read_spec() } else { self.sprite_eval_write_spec() }
    }

    /// OAM index of the evaluation cursor (sprite times four plus byte,
    /// wrapping at 8 bits).
    pub open spec fn eval_oam_index(self) -> u8 {
        let st = self.store;
        add8(add8(add8(add8(st.curr_sprite, st.curr_sprite), st.curr_sprite), st.curr_sprite), st.curr_sprite_byte)
    }

    /// Odd evaluation dot: the OAM byte under the cursor goes to the latch
    /// the state selects.
    pub open spec fn sprite_eval_read_spec(self) -> PPU {
        let st = self.store;
        let d = self.oam@[self.eval_oam_index() as int];
        match st.sprite_eval_state {
            SpriteEvalState::YCoordinate => PPU { store: PPUStore { y_coordinate: d, ..st }, ..self },
            SpriteEvalState::TileNumber => PPU { store: PPUStore { tile_number: d, ..st }, ..self },
            SpriteEvalState::Attributes => PPU { store: PPUStore { attributes: d, ..st }, ..self },
            SpriteEvalState::XCoordinate => PPU { store: PPUStore { x_coordinate: d, ..st }, ..self },
            SpriteEvalState::Done => self,
        }
    }

    /// Even evaluation dot: the latch goes to secondary OAM while it has
    /// room, then the cursor advances.
    pub open spec fn sprite_eval_write_spec(self) -> PPU {
        let st = self.store;
        let s1 = if st.accepted_sprite < 8 {
            PPU {
                secondary_oam: vstd::array::spec_array_update(
                    self.secondary_oam,
                    4 * st.accepted_sprite + st.curr_sprite_byte,
                    self.eval_latch(),
                ),
                ..self
            }
        } else {
            self
        };
        s1.sprite_eval_advance_spec()
    }

    /// Cursor movement of an even evaluation dot (see [`Self::sprite_eval_spec`]).
    pub open spec fn sprite_eval_advance_spec(self) -> PPU {
        let st = self.store;
        if st.sprite_eval_state != SpriteEvalState::Done {
            if self.scanline >= st.y_coordinate as u16 && self.scanline < add8(st.y_coordinate, st.sprite_height) as u16 {
                let (csb, state) = if st.curr_sprite_byte == 0 {
                    (1u8, SpriteEvalState::TileNumber)
                } else if st.curr_sprite_byte == 1 {
                    (2u8, SpriteEvalState::Attributes)
                } else if st.curr_sprite_byte == 2 {
                    (3u8, SpriteEvalState::XCoordinate)
                } else {
                    (0u8, SpriteEvalState::YCoordinate)
                };
                let cs = if csb == 0 { add8(st.curr_sprite, 1) } else { st.curr_sprite };
                let state2 = if csb == 0 && cs == 0 { SpriteEvalState::Done } else { state };
                let status = if st.accepted_sprite >= 8 { self.ppu_status | STATUS_SPRITE_OVERFLOW } else { self.ppu_status };
                let acc = if st.accepted_sprite < 8 && csb == 0 { (st.accepted_sprite + 1) as u8 } else { st.accepted_sprite };
                PPU {
                    ppu_status: status,
                    store: PPUStore {
                        curr_sprite_byte: csb,
                        sprite_eval_state: state2,
                        curr_sprite: cs,
                        accepted_sprite: acc,
                        ..st
                    },
                    ..self
                }
            } else {
                let cs = add8(st.curr_sprite, 1);
                let state2 = if cs == 0 { SpriteEvalState::Done } else { st.sprite_eval_state };
                let csb = if st.accepted_sprite >= 8 { ((st.curr_sprite_byte + 1) % 4) as u8 } else { st.curr_sprite_byte };
                PPU {
                    store: PPUStore { curr_sprite: cs, sprite_eval_state: state2, curr_sprite_byte: csb, ..st },
                    ..self
                }
            }
        } else {
            self
        }
    }

    /// One dot of sprite fetching (dots 257 to 320), for the next sprite not
    /// yet fetched (of eight): dot 1 of each 8-dot group takes its y (for an
    /// empty slot, sprite 63's y the first time, 0xFF after), dots 2 to 4 tile,
    /// attributes and x; the last moves to the next sprite.
    pub open spec fn sprite_fetch_spec(self) -> PPU {
        let st = self.store;
        let rs = st.read_sprite as int;
        let idx = 4 * st.read_sprite + st.read_sprite_byte;
        if st.read_sprite != 8 {
            let sp = self.sprites@[rs];
            if self.cycle % 8 == 1 {
                let is_empty = st.read_sprite >= st.accepted_sprite;
                let (y, found) = if is_empty {
                    if st.found_empty { (0xFFu8, true) } else { (self.oam@[252int], true) }
                } else {
                    (self.secondary_oam@[idx], st.found_empty)
                };
                PPU {
                    sprites: vstd::array::spec_array_update(self.sprites, rs, Sprite { y_coordinate: y, ..sp }),
                    store: PPUStore { found_empty: found, read_sprite_byte: 1, ..st },
                    ..self
                }
            } else if self.cycle % 8 == 2 {
                PPU {
                    sprites: vstd::array::spec_array_update(self.sprites, rs, Sprite { tile_number: self.secondary_oam@[idx], ..sp }),
                    store: PPUStore { read_sprite_byte: 2, ..st },
                    ..self
                }
            } else if self.cycle % 8 == 3 {
                PPU {
                    sprites: vstd::array::spec_array_update(self.sprites, rs, Sprite { attributes: self.secondary_oam@[idx], ..sp }),
                    store: PPUStore { read_sprite_byte: 3, ..st },
                    ..self
                }
            } else if self.cycle % 8 == 4 {
                PPU {
                    sprites: vstd::array::spec_array_update(self.sprites, rs, Sprite { x_coordinate: self.secondary_oam@[idx], ..sp }),
                    store: PPUStore { read_sprite: (st.read_sprite + 1) as u8, read_sprite_byte: 0, ..st },
                    ..self
                }
            } else {
                self
            }
        } else {
            self
        }
    }

    /// One dot of the sprite pipeline on a visible line: sprite height taken
    /// from PPUCTRL; dots 1 to 64 clear secondary OAM (one byte every other
    /// dot), 65 to 256 evaluate, 257 to 320 fetch.
    pub open spec fn evaluation_spec(self) -> PPU {
        let h: u8 = if self.ppu_ctrl & CTRL_SPRITE_SIZE != 0 { 16 } else { 8 };
        let s = PPU { store: PPUStore { sprite_height: h, ..self.store }, ..self };
        if self.cycle == 0 {
            s
        } else if self.cycle <= 64 {
            if (self.cycle - 1) % 2 == 0 {
                PPU { secondary_oam: vstd::array::spec_array_update(s.secondary_oam, (self.cycle - 1) / 2, 0xFFu8), ..s }
            } else {
                s
            }
        } else if self.cycle <= 256 {
            s.sprite_eval_spec()
        } else if self.cycle <= 320 {
            s.sprite_fetch_spec()
        } else {
            s
        }
    }

    /// Vertical blank: at dot 1 of line 241 the vblank flag is set and the
    /// finished frame becomes the front buffer (front and back swap); at dot
    /// 1 of the pre-render line vblank, sprite-0 hit and overflow clear and
    /// the NMI edge re-arms.
    pub open spec fn vblank_spec(self) -> PPU {
        let s1 = if self.scanline == 241 && self.cycle == 1 {
            PPU { ppu_status: self.ppu_status | STATUS_IS_VBLANK, front: self.back, back: self.front, ..self }
        } else {
            self
        };
        if s1.scanline == PRE_RENDER_LINE && s1.cycle == 1 {
            PPU {
                ppu_status: s1.ppu_status & !STATUS_IS_VBLANK & !STATUS_SPRITE0_HIT & !STATUS_SPRITE_OVERFLOW,
                nmi_prev: false,
                ..s1
            }
        } else {
            s1
        }
    }

    /// NMI output is (NMI enabled and in vblank); its rising edge raises `nmi_signal`.
    pub open spec fn nmi_polling_spec(self) -> PPU {
        let nmi_now = self.ppu_ctrl & CTRL_NMI_ON_VBLANK != 0 && self.ppu_status & STATUS_IS_VBLANK != 0;
        PPU { nmi_signal: if nmi_now && !self.nmi_prev { true } else { self.nmi_signal }, nmi_prev: nmi_now, ..self }
    }

    /// Advances the dot: 341 dots per line (340 on the pre-render line of odd
    /// frames), 262 lines per frame, the odd-frame bit toggling per frame.
    pub open spec fn timing_spec(self) -> PPU {
        let c = (self.cycle + 1) as u16;
        let wrap = (self.f == 1 && self.scanline == 261 && c == 340) || c == 341;
        let c2: u16 = if wrap { 0 } else { c };
        let sl: u16 = if wrap { (self.scanline + 1) as u16 } else { self.scanline };
        let ts: u64 = if wrap { (self.total_scanlines + 1) as u64 } else { self.total_scanlines };
        if sl == 262 {
            PPU {
                cycle: c2,
                scanline: 0,
                f: self.f ^ 1,
                total_cycles: (self.total_cycles + 1) as u64,
                total_scanlines: ts,
                total_frames: (self.total_frames + 1) as u64,
                ..self
            }
        } else {
            PPU { cycle: c2, scanline: sl, total_cycles: (self.total_cycles + 1) as u64, total_scanlines: ts, ..self }
        }
    }

    /// One PPU dot: pre-render work, rendering and sprite evaluation on
    /// visible lines, vblank, NMI polling, then timing.
    pub open spec fn tick_spec(self) -> PPU {
        let s1 = if self.scanline == PRE_RENDER_LINE { self.pre_render_spec() } else { self };
        let s2 = if is_visible_line(self.scanline) { s1.render_lines_spec().evaluation_spec() } else { s1 };
        s2.vblank_spec().nmi_polling_spec().timing_spec()
    }

    /// Advances the PPU by one dot.
    #[verifier::rlimit(60)]
    #[verifier::spinoff_prover]
    pub fn tick(&mut self)
        requires
            old(self).inv(),
            old(self).tick_ok(),
            old(self).total_cycles < u64::MAX,
        ensures
            final(self).inv(),
            *final(self) == old(self).tick_spec(),
    {
        let ghost s0 = *self;
        //  Pre-render -> {Render AND Evaluate} -> VBlank -> NMI
        if self.scanline == PRE_RENDER_LINE {
            self.handle_pre_render_line();
        }
        let ghost s1 = *self;
        assert(s1.ppu_mask == s0.ppu_mask && s1.chr_size == s0.chr_size && s1.mirroring == s0.mirroring);
        assert(s1.store.read_sprite == s0.store.read_sprite && s1.store.read_sprite_byte == s0.store.read_sprite_byte
            && s1.cycle == s0.cycle && s1.scanline == s0.scanline && s1.store.accepted_sprite == s0.store.accepted_sprite
            && s1.store.sprite_eval_state == s0.store.sprite_eval_state);

        if self.scanline <= 239 {
            // current scanline rendering
            self.handle_render_lines();
            // next scanline evaluation
            self.handle_evaluation_lines();
        }
        let ghost s2 = *self;
        assert(s2.cycle == s0.cycle && s2.scanline == s0.scanline);
        proof {
            if is_visible_line(s0.scanline) && 257 <= s0.cycle <= 319 {
                lemma_fetch_phase(s1);
            }
        }

        // vblank entrance/exit and NMI detection
        self.handle_vblank_lines();

        // NMI polling
        self.handle_nmi_polling();

        //  Timing calculations
        self.update_timing();
    }

    /// Whether the next dot is one [`Self::tick`] can run (see [`Self::tick_ok`]).
    pub fn can_tick(&self) -> (b: bool)
        ensures
            b == self.tick_ok(),
    {
        let fetches = self.ppu_mask & (MASK_SHOW_BACKGROUND | MASK_SHOW_SPRITES) != 0 && (self.scanline
            == PRE_RENDER_LINE || self.scanline <= 239);
        !(self.scanline <= 239 && 65 <= self.cycle && self.cycle <= 256 && self.cycle % 2 == 0
            && self.store.accepted_sprite < 8 && self.store.sprite_eval_state == SpriteEvalState::Done) && (!fetches
            || self.has_memory())
    }

    /// Whether every PPU address can be reached (see [`Self::memory_ok`]).
    pub fn has_memory(&self) -> (b: bool)
        ensures
            b == self.memory_ok(),
    {
        self.chr_size >= 0x2000 && self.mirroring != Mirroring::ALTERNATIVE
    }

    fn handle_pre_render_line(&mut self)
        requires
            old(self).wf(),
            old(self).rendering_enabled() ==> old(self).memory_ok(),
        ensures
            final(self).wf(),
            *final(self) == old(self).pre_render_spec(),
    {
        if self.ppu_mask & (MASK_SHOW_BACKGROUND | MASK_SHOW_SPRITES) != 0 {
            if 280 <= self.cycle && self.cycle <= 304 {
                self.copy_y();
            }
            self.handle_fetch_cycles();
        }
    }

    fn handle_render_lines(&mut self)
        requires
            old(self).wf(),
            old(self).rendering_enabled() ==> old(self).memory_ok(),
            old(self).scanline <= 239,
        ensures
            final(self).wf(),
            *final(self) == old(self).render_lines_spec(),
    {
        if self.ppu_mask & (MASK_SHOW_BACKGROUND | MASK_SHOW_SPRITES) != 0 {
            if 1 <= self.cycle && self.cycle <= 256 {
                self.draw_pixel();
            }
            self.handle_fetch_cycles();
        }
    }

    fn handle_fetch_cycles(&mut self)
        requires
            old(self).wf(),
            old(self).memory_ok(),
        ensures
            final(self).wf(),
            *final(self) == old(self).fetch_cycles_spec(),
    {
        if (321 <= self.cycle && self.cycle <= 336) || (1 <= self.cycle && self.cycle <= 256) {
            self.pattern_lo = self.pattern_lo << 1;
            self.pattern_hi = self.pattern_hi << 1;
            self.attribute_lo = self.attribute_lo << 1;
            self.attribute_hi = self.attribute_hi << 1;

            let phase = self.cycle % 8;
            if phase == 1 {
                self.fetch_nametable();
            } else if phase == 3 {
                self.fetch_attribute();
            } else if phase == 5 {
                self.fetch_tile_lo();
            } else if phase == 7 {
                self.fetch_tile_hi();
            } else if phase == 0 {
                self.increment_x();
                self.store_tiles();
            }

            if self.cycle == 256 {
                self.increment_y();
            }
        } else if self.cycle == 257 {
            self.copy_x();
        }
    }
}

impl PPU {
    fn handle_evaluation_lines(&mut self)
        requires
            old(self).wf(),
            old(self).sprite_fetch_phase_ok(),
            old(self).tick_ok(),
            old(self).scanline <= 239,
        ensures
            final(self).wf(),
            *final(self) == old(self).evaluation_spec(),
    {
        self.store.sprite_height = if self.ppu_ctrl & CTRL_SPRITE_SIZE != 0 { 16 } else { 8 };
        if self.cycle == 0 {
        } else if self.cycle <= 64 {
            // clear secondary OAM, one byte every other dot (one cycle read, one cycle write)
            if (self.cycle - 1) % 2 == 0 {
                let idx = (self.cycle - 1) / 2;
                self.secondary_oam[idx as usize] = 0xFF;
            }
        } else if self.cycle <= 256 {
            self.evaluate_sprites();
        } else if self.cycle <= 320 {
            self.fetch_sprites();
        } else {
            // dots 321 to 340: the first byte of secondary OAM is read; nothing is kept
        }
    }

    // note: oam[n][m] = oam[4*n + m]
    // 1. starting at n = 0, read oam[n][0] (y coordinate) and copy to
    //    secondary oam if not full; if the y coordinate is in range, copy the
    //    remaining 3 bytes of oam[n]
    // 2. increment n; if n == 0, go to step 4; with fewer than 8 sprites
    //    found go to step 1; with 8 found, secondary OAM writes stop
    // 3. evaluate oam[n][m] as y coordinate: in range sets sprite overflow
    //    and reads the next 3 entries; out of range increments n and m
    //    without carry
    // 4. fail to copy oam[n][0] into secondary OAM and increment n until hblank
    fn evaluate_sprites(&mut self)
        requires
            old(self).wf(),
            old(self).tick_ok(),
            old(self).scanline <= 239,
            65 <= old(self).cycle <= 256,
        ensures
            final(self).wf(),
            *final(self) == old(self).sprite_eval_spec(),
    {
        if self.cycle % 2 == 1 {
            self.eval_read_oam();
        } else {
            self.eval_write_secondary();
            self.eval_advance();
        }
    }

    // read from primary OAM
    fn eval_read_oam(&mut self)
        requires
            old(self).wf(),
        ensures
            final(self).wf(),
            *final(self) == old(self).sprite_eval_read_spec(),
    {
        let cs = self.store.curr_sprite;
        let csb = self.store.curr_sprite_byte;
        let oam_idx = cs.wrapping_add(cs).wrapping_add(cs).wrapping_add(cs).wrapping_add(csb);
        let d = self.oam[oam_idx as usize];
        match self.store.sprite_eval_state {
            SpriteEvalState::YCoordinate => {
                self.store.y_coordinate = d;
            },
            SpriteEvalState::TileNumber => {
                self.store.tile_number = d;
            },
            SpriteEvalState::Attributes => {
                self.store.attributes = d;
            },
            SpriteEvalState::XCoordinate => {
                self.store.x_coordinate = d;
            },
            SpriteEvalState::Done => {},
        }
    }

    // if secondary oam is not full, write to it
    fn eval_write_secondary(&mut self)
        requires
            old(self).wf(),
            old(self).store.accepted_sprite < 8 ==> old(self).store.sprite_eval_state != SpriteEvalState::Done,
        ensures
            final(self).wf(),
            *final(self) == (if old(self).store.accepted_sprite < 8 {
                PPU {
                    secondary_oam: vstd::array::spec_array_update(
                        old(self).secondary_oam,
                        4 * old(self).store.accepted_sprite + old(self).store.curr_sprite_byte,
                        old(self).eval_latch(),
                    ),
                    ..*old(self)
                }
            } else {
                *old(self)
            }),
    {
        if self.store.accepted_sprite < 8 {
            let secondary_oam_idx = 4 * self.store.accepted_sprite + self.store.curr_sprite_byte;
            let latch = match self.store.sprite_eval_state {
                SpriteEvalState::YCoordinate => self.store.y_coordinate,
                SpriteEvalState::TileNumber => self.store.tile_number,
                SpriteEvalState::Attributes => self.store.attributes,
                _ => self.store.x_coordinate,
            };
            self.secondary_oam[secondary_oam_idx as usize] = latch;
        }
    }

    fn eval_advance(&mut self)
        requires
            old(self).wf(),
        ensures
            final(self).wf(),
            *final(self) == old(self).sprite_eval_advance_spec(),
    {
        if self.store.sprite_eval_state != SpriteEvalState::Done {
            // if y coordinate is in range
            if self.scanline >= self.store.y_coordinate as u16
                && self.scanline < self.store.y_coordinate.wrapping_add(self.store.sprite_height) as u16
            {
                if self.store.curr_sprite_byte == 0 {
                    self.store.sprite_eval_state = SpriteEvalState::TileNumber;
                    self.store.curr_sprite_byte = 1;
                } else if self.store.curr_sprite_byte == 1 {
                    self.store.sprite_eval_state = SpriteEvalState::Attributes;
                    self.store.curr_sprite_byte = 2;
                } else if self.store.curr_sprite_byte == 2 {
                    self.store.sprite_eval_state = SpriteEvalState::XCoordinate;
                    self.store.curr_sprite_byte = 3;
                } else {
                    self.store.sprite_eval_state = SpriteEvalState::YCoordinate;
                    self.store.curr_sprite_byte = 0;
                }

                // if m 3 -> 0, n += 1
                if self.store.curr_sprite_byte == 0 {
                    self.store.curr_sprite = self.store.curr_sprite.wrapping_add(1);
                    // if done reading from oam
                    if self.store.curr_sprite == 0 {
                        self.store.sprite_eval_state = SpriteEvalState::Done;
                    }
                }

                // if overflow, flag. else, if m 3 -> 0, num sprites += 1
                if self.store.accepted_sprite >= 8 {
                    self.ppu_status = self.ppu_status | STATUS_SPRITE_OVERFLOW;
                } else {
                    if self.store.curr_sprite_byte == 0 {
                        self.store.accepted_sprite = self.store.accepted_sprite + 1;
                    }
                }
            } else {
                // check next sprite
                self.store.curr_sprite = self.store.curr_sprite.wrapping_add(1);
                // if done reading from oam
                if self.store.curr_sprite == 0 {
                    self.store.sprite_eval_state = SpriteEvalState::Done;
                }
                if self.store.accepted_sprite >= 8 {
                    // m += 1 bug if overflow and y in range
                    self.store.curr_sprite_byte = if self.store.curr_sprite_byte == 3 {
                        0
                    } else {
                        self.store.curr_sprite_byte + 1
                    };
                }
            }
        }
    }

    // cycles 1-4 of each group: read the y coordinate, tile number,
    //   attributes, and x coordinate from secondary OAM
    // cycles 5-8: dummy reads of the x coordinate from secondary OAM
    // for the first empty sprite slot, sprite 63's y coordinate is read,
    // for subsequent empty sprite slots, 0xFF
    fn fetch_sprites(&mut self)
        requires
            old(self).wf(),
            old(self).scanline <= 239,
            257 <= old(self).cycle <= 320,
            old(self).sprite_fetch_phase_ok(),
        ensures
            final(self).wf(),
            *final(self) == old(self).sprite_fetch_spec(),
    {
        let rs = self.store.read_sprite;
        if rs != 8 {
            let idx = 4 * rs + self.store.read_sprite_byte;
            let is_empty = rs >= self.store.accepted_sprite;
            let phase = self.cycle % 8;
            let mut sp = self.sprites[rs as usize];
            if phase == 1 {
                if is_empty {
                    if self.store.found_empty {
                        sp.y_coordinate = 0xFF;
                    } else {
                        self.store.found_empty = true;
                        sp.y_coordinate = self.oam[4 * 63]; // sprite 63 y
                    }
                } else {
                    sp.y_coordinate = self.secondary_oam[idx as usize];
                }
                self.sprites[rs as usize] = sp;
                self.store.read_sprite_byte = 1;
            } else if phase == 2 {
                sp.tile_number = self.secondary_oam[idx as usize];
                self.sprites[rs as usize] = sp;
                self.store.read_sprite_byte = 2;
            } else if phase == 3 {
                sp.attributes = self.secondary_oam[idx as usize];
                self.sprites[rs as usize] = sp;
                self.store.read_sprite_byte = 3;
            } else if phase == 4 {
                sp.x_coordinate = self.secondary_oam[idx as usize];
                self.sprites[rs as usize] = sp;
                self.store.read_sprite = rs + 1;
                self.store.read_sprite_byte = 0;
            } else {
                // dummy read of the previous x coordinate
                let _ = self.secondary_oam[(idx - 1) as usize];
            }
        }
    }

    fn handle_vblank_lines(&mut self)
        requires
            old(self).wf(),
        ensures
            final(self).wf(),
            *final(self) == old(self).vblank_spec(),
    {
        if self.scanline == 241 && self.cycle == 1 {
            // enter VBlank
            self.ppu_status = self.ppu_status | STATUS_IS_VBLANK;
            // present completed frame
            core::mem::swap(&mut self.front, &mut self.back);
        }

        if self.scanline == PRE_RENDER_LINE && self.cycle == 1 {
            // exit VBlank
            self.ppu_status = self.ppu_status & !STATUS_IS_VBLANK;
            self.nmi_prev = false;
            self.ppu_status = self.ppu_status & !STATUS_SPRITE0_HIT;
            self.ppu_status = self.ppu_status & !STATUS_SPRITE_OVERFLOW;
        }
    }

    fn handle_nmi_polling(&mut self)
        requires
            old(self).wf(),
        ensures
            final(self).wf(),
            *final(self) == old(self).nmi_polling_spec(),
    {
        let nmi_now = self.ppu_ctrl & CTRL_NMI_ON_VBLANK != 0 && self.ppu_status & STATUS_IS_VBLANK != 0;
        if nmi_now && !self.nmi_prev {
            self.nmi_signal = true;
        }
        self.nmi_prev = nmi_now;
    }

    fn update_timing(&mut self)
        requires
            old(self).wf(),
            old(self).total_cycles < u64::MAX,
        ensures
            final(self).wf(),
            *final(self) == old(self).timing_spec(),
    {
        self.cycle += 1;
        self.total_cycles += 1;

        // skip the last cycle of the pre-render line on odd frames
        if (self.f == 1 && self.scanline == 261 && self.cycle == 340) || self.cycle == 341 {
            self.cycle = 0;
            self.scanline += 1;
            self.total_scanlines += 1;
        }

        // finalize frame
        if self.scanline == 262 {
            self.scanline = 0;
            self.f ^= 1;
            self.total_frames += 1;
        }
        proof {
            let f0 = old(self).f;
            assert(f0 <= 1 ==> (f0 ^ 1u8) <= 1) by (bit_vector);
        }
    }
}

} // verus!
