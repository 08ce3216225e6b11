//! Byte, nibble and bit helpers shared by the cartridge parser, the CPU and the PPU.
use vstd::prelude::*;

verus! {

/// Bit-level facts about a byte: each bit kept in place, and the nibbles.
pub proof fn lemma_byte_bits(n: u8)
    by (bit_vector)
    ensures
        (n & 0x80) == (if n >= 128 { 128u8 } else { 0u8 }),
        (n & 0x40) == (if (n / 64) % 2 == 1 { 64u8 } else { 0u8 }),
        (n & 0x20) == (if (n / 32) % 2 == 1 { 32u8 } else { 0u8 }),
        (n & 0x10) == (if (n / 16) % 2 == 1 { 16u8 } else { 0u8 }),
        (n & 0x08) == (if (n / 8) % 2 == 1 { 8u8 } else { 0u8 }),
        (n & 0x04) == (if (n / 4) % 2 == 1 { 4u8 } else { 0u8 }),
        (n & 0x02) == (if (n / 2) % 2 == 1 { 2u8 } else { 0u8 }),
        (n & 0x01) == n % 2,
        (n >> 4u8) == n / 16,
        (n & 0xFu8) == n % 16,
{
}

/// Bit-level facts about a word: its bytes, and the masks that reduce it
/// modulo 2 KiB and 16 KiB.
pub proof fn lemma_word_bits(n: u16)
    by (bit_vector)
    ensures
        ((n >> 8u16) as u8) == n / 256,
        ((n & 0xFFu16) as u8) == n % 256,
        (n & 0x00FFu16) == n % 256,
        ((n & 0xFF00u16) >> 8u16) == n / 256,
        (n & 0x07FFu16) == n % 0x800,
        (n & 0x3FFFu16) == n % 0x4000,
{
}

/// Joining a low and a high byte into a word.
pub proof fn lemma_join_bytes(lo: u8, hi: u8)
    by (bit_vector)
    ensures
        (((hi as u16) << 8u16) | (lo as u16)) == lo + 256 * hi,
{
}

/// High byte of a 16-bit word.
pub fn hi_byte(n: u16) -> (r: u8)
    ensures
        r == n / 256,
{
    proof { lemma_word_bits(n); }
    (n >> 8) as u8
}

/// Low byte of a 16-bit word.
pub fn lo_byte(n: u16) -> (r: u8)
    ensures
        r == n % 256,
{
    proof { lemma_word_bits(n); }
    (n & 0xFF) as u8
}

/// High nibble of a byte.
pub fn hi_nibble(n: u8) -> (r: u8)
    ensures
        r == n / 16,
{
    proof { lemma_byte_bits(n); }
    n >> 4
}

/// Low nibble of a byte.
pub fn lo_nibble(n: u8) -> (r: u8)
    ensures
        r == n % 16,
{
    proof { lemma_byte_bits(n); }
    n & 0xF
}

/// The byte `(hi << 4) | lo`; the shift drops the high nibble of `hi`.
pub fn byte_from_nibbles(lo: u8, hi: u8) -> (r: u8)
    ensures
        r == (((hi % 16) * 16) as u8 | lo),
        lo < 16 ==> r == (hi % 16) * 16 + lo,
{
    proof {
        assert((hi << 4u8) == (((hi % 16) * 16) as u8)) by (bit_vector);
        assert(lo < 16 ==> (((hi % 16) * 16) as u8 | lo) == (hi % 16) * 16 + lo) by (bit_vector);
    }
    (hi << 4) | lo
}

/// Packs eight bit arguments into a byte, `b7` the most significant; each
/// argument is shifted into place, so only its low bit survives the shift
/// except for `b0`, which is OR-ed in whole.
pub fn byte_from_bits(b7: u8, b6: u8, b5: u8, b4: u8, b3: u8, b2: u8, b1: u8, b0: u8) -> (r: u8)
    ensures
        r == ((b7 << 7u8) | (b6 << 6u8) | (b5 << 5u8) | (b4 << 4u8) | (b3 << 3u8) | (b2 << 2u8) | (b1 << 1u8) | b0),
        b7 < 2 && b6 < 2 && b5 < 2 && b4 < 2 && b3 < 2 && b2 < 2 && b1 < 2 && b0 < 2 ==>
            r == 128 * b7 + 64 * b6 + 32 * b5 + 16 * b4 + 8 * b3 + 4 * b2 + 2 * b1 + b0,
{
    proof {
        assert(b7 < 2 && b6 < 2 && b5 < 2 && b4 < 2 && b3 < 2 && b2 < 2 && b1 < 2 && b0 < 2 ==>
            ((b7 << 7u8) | (b6 << 6u8) | (b5 << 5u8) | (b4 << 4u8) | (b3 << 3u8) | (b2 << 2u8) | (b1 << 1u8) | b0)
            == 128 * b7 + 64 * b6 + 32 * b5 + 16 * b4 + 8 * b3 + 4 * b2 + 2 * b1 + b0) by (bit_vector);
    }
    (b7 << 7) | (b6 << 6) | (b5 << 5) | (b4 << 4) | (b3 << 3) | (b2 << 2) | (b1 << 1) | b0
}

/// Bit 7 of `n`, kept in place (`0` or `0x80`).
pub fn bit_7(n: u8) -> (r: u8)
    ensures
        r == n & 0x80,
        r == (if n >= 128 { 128u8 } else { 0u8 }),
{
    proof { lemma_byte_bits(n); }
    n & 0b1000_0000
}

/// Bit 6 of `n`, kept in place (`0` or `0x40`).
pub fn bit_6(n: u8) -> (r: u8)
    ensures
        r == n & 0x40,
        r == (if (n / 64) % 2 == 1 { 64u8 } else { 0u8 }),
{
    proof { lemma_byte_bits(n); }
    n & 0b0100_0000
}

/// Bit 5 of `n`, kept in place (`0` or `0x20`).
pub fn bit_5(n: u8) -> (r: u8)
    ensures
        r == n & 0x20,
        r == (if (n / 32) % 2 == 1 { 32u8 } else { 0u8 }),
{
    proof { lemma_byte_bits(n); }
    n & 0b0010_0000
}

/// Bit 4 of `n`, kept in place (`0` or `0x10`).
pub fn bit_4(n: u8) -> (r: u8)
    ensures
        r == n & 0x10,
        r == (if (n / 16) % 2 == 1 { 16u8 } else { 0u8 }),
{
    proof { lemma_byte_bits(n); }
    n & 0b0001_0000
}

/// Bit 3 of `n`, kept in place (`0` or `0x08`).
pub fn bit_3(n: u8) -> (r: u8)
    ensures
        r == n & 0x08,
        r == (if (n / 8) % 2 == 1 { 8u8 } else { 0u8 }),
{
    proof { lemma_byte_bits(n); }
    n & 0b0000_1000
}

/// Bit 2 of `n`, kept in place (`0` or `0x04`).
pub fn bit_2(n: u8) -> (r: u8)
    ensures
        r == n & 0x04,
        r == (if (n / 4) % 2 == 1 { 4u8 } else { 0u8 }),
{
    proof { lemma_byte_bits(n); }
    n & 0b0000_0100
}

/// Bit 1 of `n`, kept in place (`0` or `0x02`).
pub fn bit_1(n: u8) -> (r: u8)
    ensures
        r == n & 0x02,
        r == (if (n / 2) % 2 == 1 { 2u8 } else { 0u8 }),
{
    proof { lemma_byte_bits(n); }
    n & 0b0000_0010
}

/// Bit 0 of `n` (`0` or `1`).
pub fn bit_0(n: u8) -> (r: u8)
    ensures
        r == n & 0x01,
        r == n % 2,
{
    proof { lemma_byte_bits(n); }
    n & 0b0000_0001
}

} // verus!
