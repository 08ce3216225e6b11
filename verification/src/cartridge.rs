//! iNES cartridge images: header validation and the split into PRG ROM,
//! CHR ROM, trainer-backed SRAM, mapper number and nametable mirroring.
use crate::utils::{bit_0, bit_1, bit_3, byte_from_nibbles, hi_nibble};
use vstd::prelude::*;

verus! {

/// Nametable mirroring arrangement of a cartridge.
#[derive(Debug, Clone, Copy, PartialEq, Eq, Structural)]
pub enum Mirroring {
    VERTICAL,
    HORIZONTAL,
    ALTERNATIVE,
}

/// The four bytes every iNES image starts with: "NES" and 0x1A.
pub open spec fn nes_magic() -> Seq<u8> {
    seq![0x4Eu8, 0x45u8, 0x53u8, 0x1Au8]
}

/// The first `min(len, 4)` bytes of `rom` agree with the iNES magic.
pub open spec fn magic_prefix_matches(rom: Seq<u8>) -> bool {
    forall|i: int| 0 <= i < 4 && i < rom.len() ==> rom[i] == #[trigger] nes_magic()[i]
}

/// `rom` starts with the full iNES magic.
pub open spec fn has_nes_magic(rom: Seq<u8>) -> bool {
    rom.len() >= 4 && magic_prefix_matches(rom)
}

/// The mapper number held in the high nibbles of header bytes 6 (low half)
/// and 7 (high half).
pub open spec fn header_mapper(rom: Seq<u8>) -> u8 {
    ((rom[7] / 16) * 16 + rom[6] / 16) as u8
}

/// The inputs on which validation runs to completion: the image is long
/// enough for every header byte it inspects.
pub open spec fn validate_rom_defined(rom: Seq<u8>) -> bool {
    rom.len() >= 8 || !magic_prefix_matches(rom)
}

/// The verdict that header validation gives, as the error message or `None`.
pub open spec fn validate_rom_error(rom: Seq<u8>) -> Option<Seq<char>> {
    if !has_nes_magic(rom) {
        Some("error: not a nes rom"@)
    } else if rom[7] & 0xc != 0 {
        Some("error: unsupported file format"@)
    } else if header_mapper(rom) != 0 {
        Some("error: unsupported mapper"@)
    } else {
        None
    }
}

// Currently only supports iNES file format, mapper 0.
// Validation is not rigorous yet, so be careful with rom selection.
/// Checks an iNES image header: magic number, plain iNES (not NES 2.0)
/// format, and mapper 0. Returns `Ok(0)` or the first failing check's message.
pub fn validate_rom(rom: &Vec<u8>) -> (r: Result<u8, String>)
    requires
        validate_rom_defined(rom@),
    ensures
        match validate_rom_error(rom@) {
            None => r == Ok::<u8, String>(0u8),
            Some(msg) => r is Err && r->Err_0@ == msg,
        },
{
    let magic: [u8; 4] = [0x4E, 0x45, 0x53, 0x1A];
    // No magic number
    let mut i: usize = 0;
    while i < 4
        invariant
            0 <= i <= 4,
            magic@ == nes_magic(),
            validate_rom_defined(rom@),
            forall|j: int| 0 <= j < i ==> j < rom@.len() && rom@[j] == #[trigger] nes_magic()[j],
        decreases 4 - i,
    {
        proof {
            if rom@.len() < 8 && i >= rom@.len() {
                assert(magic_prefix_matches(rom@));
            }
        }
        if rom[i] != magic[i] {
            proof {
                assert(!magic_prefix_matches(rom@)) by {
                    assert(rom@[i as int] != nes_magic()[i as int]);
                }
                reveal_strlit("error: not a nes rom");
            }
            return Err("error: not a nes rom".to_string());
        }
        i = i + 1;
    }
    assert(has_nes_magic(rom@));

    // Not iNES file format
    if rom[7] & 0xc != 0 {
        return Err("error: unsupported file format".to_string());
    }

    // Not mapper 0
    let lo = hi_nibble(rom[6]);
    let hi = hi_nibble(rom[7]);
    let mapper = byte_from_nibbles(lo, hi);
    assert(mapper == header_mapper(rom@)) by {
        assert(hi % 16 == hi);
    }
    if mapper != 0 {
        return Err("error: unsupported mapper".to_string());
    }

    Ok(0)
}


/// A loaded cartridge: its memories, mapper number and mirroring.
pub struct Cartridge {
    pub has_trainer: bool,
    pub has_sram: bool,
    pub sram: Vec<u8>,
    pub prg_rom: Vec<u8>,
    pub chr_rom: Vec<u8>,
    pub mapper: u8,
    pub mirroring: Mirroring,
}

/// Size in bytes of PRG ROM: header byte 4 counts 16 KiB banks, at least one.
pub open spec fn prg_rom_size(rom: Seq<u8>) -> int {
    0x4000 * (if rom[4] == 0 { 1 } else { rom[4] as int })
}

/// Size in bytes of CHR ROM: header byte 5 counts 8 KiB banks, at least one.
pub open spec fn chr_rom_size(rom: Seq<u8>) -> int {
    0x2000 * (if rom[5] == 0 { 1 } else { rom[5] as int })
}

/// Size in bytes of the trainer: 512 when bit 2 of header byte 6 is set.
pub open spec fn trainer_size(rom: Seq<u8>) -> int {
    if rom[6] & 0b100 != 0 { 512 } else { 0 }
}

/// Offset of PRG ROM in the image: after the 16-byte header and the trainer.
pub open spec fn prg_start(rom: Seq<u8>) -> int {
    16 + trainer_size(rom)
}

/// Offset of CHR ROM in the image: right after PRG ROM.
pub open spec fn chr_start(rom: Seq<u8>) -> int {
    prg_start(rom) + prg_rom_size(rom)
}

/// The image holds the header and every section its header announces.
pub open spec fn rom_complete(rom: Seq<u8>) -> bool {
    rom.len() >= 16 && rom.len() >= chr_start(rom) + chr_rom_size(rom)
}

/// Whether the image holds the header and every section its header
/// announces (see [`rom_complete`]).
pub fn is_rom_complete(rom: &Vec<u8>) -> (r: bool)
    ensures
        r == rom_complete(rom@),
{
    if rom.len() < 16 {
        return false;
    }
    let prg_banks: usize = if rom[4] == 0 { 1 } else { rom[4] as usize };
    let chr_banks: usize = if rom[5] == 0 { 1 } else { rom[5] as usize };
    let trainer: usize = if rom[6] & 0b100 != 0 { 512 } else { 0 };
    rom.len() >= 16 + trainer + 0x4000 * prg_banks + 0x2000 * chr_banks
}

/// The 8 KiB of save RAM a cartridge maps at 0x6000: zero except for the
/// trainer, which sits at offset 0x1000 (0x7000 on the bus).
pub open spec fn initial_sram(rom: Seq<u8>) -> Seq<u8> {
    Seq::new(0x1000, |i: int| 0u8) + rom.subrange(16, 16 + trainer_size(rom))
        + Seq::new((0x2000 - 0x1000 - trainer_size(rom)) as nat, |i: int| 0u8)
}

/// Copies `len` bytes of `rom` from `start` into a new vector.
fn copy_section(rom: &Vec<u8>, start: usize, len: usize) -> (out: Vec<u8>)
    requires
        start + len <= rom@.len(),
    ensures
        out@ == rom@.subrange(start as int, start + len),
{
    let mut out: Vec<u8> = Vec::new();
    let mut i: usize = 0;
    while i < len
        invariant
            start + len <= rom@.len(),
            i <= len,
            out@ == rom@.subrange(start as int, start + i),
        decreases len - i,
    {
        assert(start + i < rom.len());
        out.push(rom[start + i]);
        i = i + 1;
        assert(out@ =~= rom@.subrange(start as int, start + i));
    }
    out
}

/// Appends `n` zero bytes to `v`.
fn push_zeros(v: &mut Vec<u8>, n: usize)
    requires
        old(v)@.len() + n <= usize::MAX,
    ensures
        final(v)@ == old(v)@ + Seq::new(n as nat, |i: int| 0u8),
{
    let ghost start = v@;
    let mut i: usize = 0;
    while i < n
        invariant
            i <= n,
            v@ == start + Seq::new(i as nat, |k: int| 0u8),
        decreases n - i,
    {
        v.push(0u8);
        i = i + 1;
        assert(v@ =~= start + Seq::new(i as nat, |k: int| 0u8));
    }
}

impl Cartridge {
    /// Splits an iNES image into its sections:
    /// header (16 B), optional trainer (512 B), PRG ROM (16 KiB banks, at
    /// least one), CHR ROM (8 KiB banks, at least one). Header byte 6 gives
    /// mirroring (bit 0), SRAM presence (bit 1), trainer (bit 2), the
    /// alternative nametable layout (bit 3, which overrides bit 0) and the
    /// low mapper nibble; byte 7 the high mapper nibble.
    pub fn new(rom: &Vec<u8>) -> (c: Self)
        requires
            rom_complete(rom@),
        ensures
            c.has_trainer == (trainer_size(rom@) != 0),
            c.has_sram == (rom@[6] & 0b10 != 0),
            c.sram@ == initial_sram(rom@),
            c.prg_rom@ == rom@.subrange(prg_start(rom@), prg_start(rom@) + prg_rom_size(rom@)),
            c.chr_rom@ == rom@.subrange(chr_start(rom@), chr_start(rom@) + chr_rom_size(rom@)),
            c.mapper == header_mapper(rom@),
            c.mirroring == (if rom@[6] & 0b1000 != 0 {
                Mirroring::ALTERNATIVE
            } else if rom@[6] % 2 == 0 {
                Mirroring::HORIZONTAL
            } else {
                Mirroring::VERTICAL
            }),
    {
        let prg_banks: usize = if rom[4] as usize > 1 { rom[4] as usize } else { 1 };
        let chr_banks: usize = if rom[5] as usize > 1 { rom[5] as usize } else { 1 };
        let prg_rom_size: usize = 0x4000 * prg_banks;
        let chr_rom_size: usize = 0x2000 * chr_banks;
        let sram_size: usize = 0x2000;
        let trainer_size: usize = if rom[6] & 0b100 != 0 { 512 } else { 0 };
        let prg_start = 16 + trainer_size;
        let chr_start = prg_start + prg_rom_size;
        let mapper_lo = hi_nibble(rom[6]);
        let mapper_hi = hi_nibble(rom[7]);

        let mut sram: Vec<u8> = Vec::new();
        push_zeros(&mut sram, 0x1000);
        let trainer = copy_section(rom, 16, trainer_size);
        let mut i: usize = 0;
        let ghost head = sram@;
        while i < trainer_size
            invariant
                i <= trainer_size,
                trainer_size <= 512,
                head.len() == 0x1000,
                trainer@.len() == trainer_size,
                sram@ == head + trainer@.subrange(0, i as int),
            decreases trainer_size - i,
        {
            sram.push(trainer[i]);
            i = i + 1;
            assert(sram@ =~= head + trainer@.subrange(0, i as int));
        }
        assert(trainer@.subrange(0, trainer_size as int) =~= trainer@);
        push_zeros(&mut sram, sram_size - 0x1000 - trainer_size);
        let prg_rom = copy_section(rom, prg_start, prg_rom_size);
        let chr_rom = copy_section(rom, chr_start, chr_rom_size);
        let mapper = byte_from_nibbles(mapper_lo, mapper_hi);

        let b3 = bit_3(rom[6]);
        let mirroring = if b3 != 0 {
            Mirroring::ALTERNATIVE
        } else if bit_0(rom[6]) == 0 {
            Mirroring::HORIZONTAL
        } else {
            Mirroring::VERTICAL
        };
        assert(sram@ =~= initial_sram(rom@));

        Cartridge {
            has_trainer: trainer_size != 0,
            has_sram: bit_1(rom[6]) != 0,
            sram,
            prg_rom,
            chr_rom,
            mapper,
            mirroring,
        }
    }
}

} // verus!
