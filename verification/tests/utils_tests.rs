use nnes::nnes::cpu::le_word;
use nnes::utils::{
    bit_0, bit_1, bit_2, bit_3, bit_4, bit_5, bit_6, bit_7, byte_from_bits, byte_from_nibbles, hi_byte, hi_nibble,
    lo_byte, lo_nibble,
};

#[test]
fn bytes_of_a_word_round_trip() {
    for w in [0x0000u16, 0x1234, 0x80FF, 0xFFFF] {
        assert_eq!(le_word(lo_byte(w), hi_byte(w)), w);
    }
    assert_eq!(hi_byte(0xABCD), 0xAB);
    assert_eq!(lo_byte(0xABCD), 0xCD);
}

#[test]
fn nibbles_of_a_byte_round_trip() {
    for b in [0x00u8, 0x0F, 0xA5, 0xFF] {
        assert_eq!(byte_from_nibbles(lo_nibble(b), hi_nibble(b)), b);
    }
    assert_eq!(hi_nibble(0xC3), 0x0C);
    assert_eq!(lo_nibble(0xC3), 0x03);
    // Only the low nibble of the high half survives the shift.
    assert_eq!(byte_from_nibbles(0x01, 0x12), 0x21);
}

#[test]
fn bits_stay_in_place() {
    let n = 0b1010_0101u8;
    assert_eq!(bit_7(n), 0x80);
    assert_eq!(bit_6(n), 0);
    assert_eq!(bit_5(n), 0x20);
    assert_eq!(bit_4(n), 0);
    assert_eq!(bit_3(n), 0);
    assert_eq!(bit_2(n), 0x04);
    assert_eq!(bit_1(n), 0);
    assert_eq!(bit_0(n), 1);
}

#[test]
fn byte_from_bits_packs_msb_first() {
    assert_eq!(byte_from_bits(1, 0, 1, 0, 0, 1, 0, 1), 0b1010_0101);
    // Each argument but the last is shifted, so a placed bit (0x10 for bit 4)
    // lands elsewhere, as it does when a register bit is passed unshifted.
    assert_eq!(byte_from_bits(0, 0, 0, 0x10, 0, 0, 0, 0), 0x00);
    assert_eq!(byte_from_bits(0, 0, 0, 0, 0, 0, 0, 0xFF), 0xFF);
}
