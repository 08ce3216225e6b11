//! A plain iNES image reader: PRG and CHR ROM pages, mapper number and
//! screen mirroring.
use vstd::prelude::*;

verus! {

/// Screen mirroring as the iNES header gives it.
#[derive(Debug, Copy, Clone, PartialEq, Eq, Structural)]
pub enum Mirroring {
    Vertical,
    Horizontal,
    FourScreen,
}

/// A ROM image's sections.
pub struct Rom {
    pub prg_rom: Vec<u8>,
    pub chr_rom: Vec<u8>,
    pub mapper: u8,
    pub screen_mirroring: Mirroring,
}

pub const HEADER_SIZE: u8 = 0x10;
pub const TRAINER_SIZE: u16 = 0x200;
pub const PRG_ROM_PAGE_SIZE: u16 = 0x4000;
pub const CHR_ROM_PAGE_SIZE: u16 = 0x2000;

/// The image starts with "NES" and 0x1A.
pub open spec fn has_ines_tag(raw: Seq<u8>) -> bool {
    raw[0] == 0x4E && raw[1] == 0x45 && raw[2] == 0x53 && raw[3] == 0x1A
}

/// The header announces NES 2.0 (version bits 2 and 3 of byte 7).
pub open spec fn is_nes2(raw: Seq<u8>) -> bool {
    (raw[7] / 4) % 4 != 0
}

/// Offset of PRG ROM: after the header and the trainer, if present.
pub open spec fn rom_prg_start(raw: Seq<u8>) -> int {
    16 + if raw[6] & 0b100 != 0 { 0x200int } else { 0 }
}

/// Offset of CHR ROM: right after the announced PRG ROM pages.
pub open spec fn rom_chr_start(raw: Seq<u8>) -> int {
    rom_prg_start(raw) + raw[4] * 0x4000
}

/// The reader can look at every byte it needs: the tag, and for a tagged
/// iNES image the header and both announced sections.
pub open spec fn rom_readable(raw: Seq<u8>) -> bool {
    &&& raw.len() >= 4
    &&& has_ines_tag(raw) ==> raw.len() >= 8
    &&& (has_ines_tag(raw) && !is_nes2(raw)) ==> raw.len() >= rom_chr_start(raw) + raw[5] * 0x2000
}

/// The mirroring header byte 6 gives: bit 3 four-screen, else bit 0 vertical.
pub open spec fn rom_mirroring(flags6: u8) -> Mirroring {
    if flags6 & 0b1000 != 0 {
        Mirroring::FourScreen
    } else if flags6 & 1 != 0 {
        Mirroring::Vertical
    } else {
        Mirroring::Horizontal
    }
}

impl Rom {
    /// Reads an iNES image: fails on a missing tag or an NES 2.0 header;
    /// otherwise PRG ROM is byte 4 pages of 16 KiB after the header (and
    /// the trainer, which is skipped), CHR ROM byte 5 pages of 8 KiB after
    /// it, the mapper the high nibbles of bytes 7 and 6.
    pub fn new(raw: &Vec<u8>) -> (r: Result<Rom, String>)
        requires
            rom_readable(raw@),
        ensures
            !has_ines_tag(raw@) ==> r is Err && r->Err_0@ == "File not in iNES format"@,
            has_ines_tag(raw@) && is_nes2(raw@) ==> r is Err && r->Err_0@ == "NES2.0 is not supported yet"@,
            has_ines_tag(raw@) && !is_nes2(raw@) ==> r is Ok && ({
                let rom = r->Ok_0;
                let prg = rom_prg_start(raw@);
                let chr = rom_chr_start(raw@);
                &&& rom.prg_rom@ == raw@.subrange(prg, chr)
                &&& rom.chr_rom@ == raw@.subrange(chr, chr + raw@[5] * 0x2000)
                &&& rom.mapper == (raw@[7] / 16) * 16 + raw@[6] / 16
                &&& rom.screen_mirroring == rom_mirroring(raw@[6])
            }),
    {
        if raw[0] != 0x4E || raw[1] != 0x45 || raw[2] != 0x53 || raw[3] != 0x1A {
            proof {
                reveal_strlit("File not in iNES format");
            }
            return Err("File not in iNES format".to_string());
        }
        let version: u8 = (raw[7] >> 2) & 0b11;
        proof {
            let b = raw@[7];
            assert(((b >> 2u8) & 0b11u8) == (b / 4) % 4) by (bit_vector);
        }
        if version != 0 {
            proof {
                reveal_strlit("NES2.0 is not supported yet");
            }
            return Err("NES2.0 is not supported yet".to_string());
        }

        let prg_rom_size: usize = raw[4] as usize * PRG_ROM_PAGE_SIZE as usize;
        let chr_rom_size: usize = raw[5] as usize * CHR_ROM_PAGE_SIZE as usize;
        let mapper: u8 = (raw[7] & 0xF0) | ((raw[6] & 0xF0) >> 4);
        proof {
            let b6 = raw@[6];
            let b7 = raw@[7];
            assert(((b7 & 0xF0u8) | ((b6 & 0xF0u8) >> 4u8)) == (b7 / 16) * 16 + b6 / 16) by (bit_vector);
        }
        let four_screen: bool = raw[6] & 0b1000 != 0;
        let vertical_mirroring: bool = raw[6] & 0b1 != 0;
        let screen_mirroring: Mirroring = if four_screen {
            Mirroring::FourScreen
        } else if vertical_mirroring {
            Mirroring::Vertical
        } else {
            Mirroring::Horizontal
        };

        let trainer: bool = raw[6] & 0b100 != 0;
        // The trainer is not used; when present it is skipped.
        let prg_rom_start: usize = HEADER_SIZE as usize + if trainer { TRAINER_SIZE as usize } else { 0 };
        let chr_rom_start: usize = prg_rom_start + prg_rom_size;

        let prg_rom = copy_range(raw, prg_rom_start, chr_rom_start);
        let chr_rom = copy_range(raw, chr_rom_start, chr_rom_start + chr_rom_size);
        Ok(Rom { prg_rom, chr_rom, mapper, screen_mirroring })
    }

    /// Number of PRG ROM bytes.
    pub fn get_prg_rom_length(&self) -> (n: usize)
        ensures
            n == self.prg_rom@.len(),
    {
        self.prg_rom.len()
    }

    /// The PRG ROM byte at offset `addr`.
    pub fn read_prg_rom(&self, addr: u16) -> (r: u8)
        requires
            addr < self.prg_rom@.len(),
        ensures
            r == self.prg_rom@[addr as int],
    {
        self.prg_rom[addr as usize]
    }
}

/// The bytes of `raw` in `[start, end)`, copied.
fn copy_range(raw: &Vec<u8>, start: usize, end: usize) -> (out: Vec<u8>)
    requires
        start <= end <= raw@.len(),
    ensures
        out@ == raw@.subrange(start as int, end as int),
{
    let mut out: Vec<u8> = Vec::new();
    let mut i: usize = start;
    while i < end
        invariant
            start <= i <= end <= raw@.len(),
            out@ == raw@.subrange(start as int, i as int),
        decreases end - i,
    {
        out.push(raw[i]);
        i = i + 1;
        assert(out@ =~= raw@.subrange(start as int, i as int));
    }
    out
}

} // verus!
