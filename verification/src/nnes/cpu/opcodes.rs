//! The opcode table of the official 6502 instructions and the per-cycle
//! steps of every addressing mode.
pub mod dispatch;
pub mod execute;
pub mod instructions;
pub mod interrupts;

use super::{add16, add8, word, le_word, Access, CPUStore, CPU};
use vstd::prelude::*;

verus! {

/// Addressing modes of the official instruction set.
#[derive(Debug, Copy, Clone, PartialEq, Eq, Structural)]
pub enum AddressingMode {
    IMP,
    ACC,
    IMM,
    ZPG,
    ZPX,
    ZPY,
    ABS,
    ABX,
    ABY,
    IND,
    INX,
    INY,
    REL,
}

/// The cycle-stepped address decoder an instruction uses.
#[derive(Debug, Copy, Clone, PartialEq, Eq, Structural)]
pub enum DecodeFn {
    AddrZpg,
    AddrZpx,
    AddrZpy,
    AddrAbs,
    AddrAbx,
    AddrAby,
    AddrInx,
    AddrIny,
}

/// The cycle-stepped operation an instruction executes.
#[derive(Debug, Copy, Clone, PartialEq, Eq, Structural)]
pub enum ExecuteFn {
    Adc, And, Asl, Bcc, Bcs, Beq, Bit, Bmi, Bne, Bpl, Brk, Bvc, Bvs, Clc, Cld, Cli, Clv, Cmp, Cpx, Cpy, Dec, Dex, Dey, Eor, Inc, Inx, Iny, Jmp, Jsr, Lda, Ldx, Ldy, Lsr, Nop, Ora, Pha, Php, Pla, Plp, Rol, Ror, Rti, Rts, Sbc, Sec, Sed, Sei, Sta, Stx, Sty, Tax, Tay, Tsx, Txa, Txs, Tya
}

/// One entry of the opcode table.
#[derive(Copy, Clone)]
pub struct OpCode {
    pub code: u8,
    pub name: &'static str,
    pub mode: AddressingMode,
    pub decode_fn: Option<DecodeFn>,
    pub execute_fn: ExecuteFn,
    pub cycles: u8,
    pub bytes: u8,
}

impl OpCode {
    /// An opcode table entry with the given fields.
    pub fn new(
        code: u8,
        name: &'static str,
        mode: AddressingMode,
        decode_fn: Option<DecodeFn>,
        execute_fn: ExecuteFn,
        cycles: u8,
        bytes: u8,
    ) -> (op: Self)
        ensures
            op == (OpCode { code, name, mode, decode_fn, execute_fn, cycles, bytes }),
    {
        OpCode { code, name, mode, decode_fn, execute_fn, cycles, bytes }
    }
}

/// The opcode table: the 151 official opcodes; every other byte is unknown.
#[verifier::opaque]
pub open spec fn opcode_spec(code: u8) -> Option<OpCode> {
    match code {
        0x00 => Some(OpCode { code: 0x00, name: "BRK", mode: AddressingMode::IMM, decode_fn: None, execute_fn: ExecuteFn::Brk, cycles: 7, bytes: 2 }),
        0x01 => Some(OpCode { code: 0x01, name: "ORA", mode: AddressingMode::INX, decode_fn: Some(DecodeFn::AddrInx), execute_fn: ExecuteFn::Ora, cycles: 6, bytes: 2 }),
        0x05 => Some(OpCode { code: 0x05, name: "ORA", mode: AddressingMode::ZPG, decode_fn: Some(DecodeFn::AddrZpg), execute_fn: ExecuteFn::Ora, cycles: 3, bytes: 2 }),
        0x06 => Some(OpCode { code: 0x06, name: "ASL", mode: AddressingMode::ZPG, decode_fn: Some(DecodeFn::AddrZpg), execute_fn: ExecuteFn::Asl, cycles: 5, bytes: 2 }),
        0x08 => Some(OpCode { code: 0x08, name: "PHP", mode: AddressingMode::IMP, decode_fn: None, execute_fn: ExecuteFn::Php, cycles: 3, bytes: 1 }),
        0x09 => Some(OpCode { code: 0x09, name: "ORA", mode: AddressingMode::IMM, decode_fn: None, execute_fn: ExecuteFn::Ora, cycles: 2, bytes: 2 }),
        0x0A => Some(OpCode { code: 0x0A, name: "ASL", mode: AddressingMode::ACC, decode_fn: None, execute_fn: ExecuteFn::Asl, cycles: 2, bytes: 1 }),
        0x0D => Some(OpCode { code: 0x0D, name: "ORA", mode: AddressingMode::ABS, decode_fn: Some(DecodeFn::AddrAbs), execute_fn: ExecuteFn::Ora, cycles: 4, bytes: 3 }),
        0x0E => Some(OpCode { code: 0x0E, name: "ASL", mode: AddressingMode::ABS, decode_fn: Some(DecodeFn::AddrAbs), execute_fn: ExecuteFn::Asl, cycles: 6, bytes: 3 }),
        0x10 => Some(OpCode { code: 0x10, name: "BPL", mode: AddressingMode::REL, decode_fn: None, execute_fn: ExecuteFn::Bpl, cycles: 2, bytes: 2 }),
        0x11 => Some(OpCode { code: 0x11, name: "ORA", mode: AddressingMode::INY, decode_fn: Some(DecodeFn::AddrIny), execute_fn: ExecuteFn::Ora, cycles: 5, bytes: 2 }),
        0x15 => Some(OpCode { code: 0x15, name: "ORA", mode: AddressingMode::ZPX, decode_fn: Some(DecodeFn::AddrZpx), execute_fn: ExecuteFn::Ora, cycles: 4, bytes: 2 }),
        0x16 => Some(OpCode { code: 0x16, name: "ASL", mode: AddressingMode::ZPX, decode_fn: Some(DecodeFn::AddrZpx), execute_fn: ExecuteFn::Asl, cycles: 6, bytes: 2 }),
        0x18 => Some(OpCode { code: 0x18, name: "CLC", mode: AddressingMode::IMP, decode_fn: None, execute_fn: ExecuteFn::Clc, cycles: 2, bytes: 1 }),
        0x19 => Some(OpCode { code: 0x19, name: "ORA", mode: AddressingMode::ABY, decode_fn: Some(DecodeFn::AddrAby), execute_fn: ExecuteFn::Ora, cycles: 4, bytes: 3 }),
        0x1D => Some(OpCode { code: 0x1D, name: "ORA", mode: AddressingMode::ABX, decode_fn: Some(DecodeFn::AddrAbx), execute_fn: ExecuteFn::Ora, cycles: 4, bytes: 3 }),
        0x1E => Some(OpCode { code: 0x1E, name: "ASL", mode: AddressingMode::ABX, decode_fn: Some(DecodeFn::AddrAbx), execute_fn: ExecuteFn::Asl, cycles: 7, bytes: 3 }),
        0x20 => Some(OpCode { code: 0x20, name: "JSR", mode: AddressingMode::ABS, decode_fn: None, execute_fn: ExecuteFn::Jsr, cycles: 6, bytes: 3 }),
        0x21 => Some(OpCode { code: 0x21, name: "AND", mode: AddressingMode::INX, decode_fn: Some(DecodeFn::AddrInx), execute_fn: ExecuteFn::And, cycles: 6, bytes: 2 }),
        0x24 => Some(OpCode { code: 0x24, name: "BIT", mode: AddressingMode::ZPG, decode_fn: Some(DecodeFn::AddrZpg), execute_fn: ExecuteFn::Bit, cycles: 3, bytes: 2 }),
        0x25 => Some(OpCode { code: 0x25, name: "AND", mode: AddressingMode::ZPG, decode_fn: Some(DecodeFn::AddrZpg), execute_fn: ExecuteFn::And, cycles: 3, bytes: 2 }),
        0x26 => Some(OpCode { code: 0x26, name: "ROL", mode: AddressingMode::ZPG, decode_fn: Some(DecodeFn::AddrZpg), execute_fn: ExecuteFn::Rol, cycles: 5, bytes: 2 }),
        0x28 => Some(OpCode { code: 0x28, name: "PLP", mode: AddressingMode::IMP, decode_fn: None, execute_fn: ExecuteFn::Plp, cycles: 4, bytes: 1 }),
        0x29 => Some(OpCode { code: 0x29, name: "AND", mode: AddressingMode::IMM, decode_fn: None, execute_fn: ExecuteFn::And, cycles: 2, bytes: 2 }),
        0x2A => Some(OpCode { code: 0x2A, name: "ROL", mode: AddressingMode::ACC, decode_fn: None, execute_fn: ExecuteFn::Rol, cycles: 2, bytes: 1 }),
        0x2C => Some(OpCode { code: 0x2C, name: "BIT", mode: AddressingMode::ABS, decode_fn: Some(DecodeFn::AddrAbs), execute_fn: ExecuteFn::Bit, cycles: 4, bytes: 3 }),
        0x2D => Some(OpCode { code: 0x2D, name: "AND", mode: AddressingMode::ABS, decode_fn: Some(DecodeFn::AddrAbs), execute_fn: ExecuteFn::And, cycles: 4, bytes: 3 }),
        0x2E => Some(OpCode { code: 0x2E, name: "ROL", mode: AddressingMode::ABS, decode_fn: Some(DecodeFn::AddrAbs), execute_fn: ExecuteFn::Rol, cycles: 6, bytes: 3 }),
        0x30 => Some(OpCode { code: 0x30, name: "BMI", mode: AddressingMode::REL, decode_fn: None, execute_fn: ExecuteFn::Bmi, cycles: 2, bytes: 2 }),
        0x31 => Some(OpCode { code: 0x31, name: "AND", mode: AddressingMode::INY, decode_fn: Some(DecodeFn::AddrIny), execute_fn: ExecuteFn::And, cycles: 5, bytes: 2 }),
        0x35 => Some(OpCode { code: 0x35, name: "AND", mode: AddressingMode::ZPX, decode_fn: Some(DecodeFn::AddrZpx), execute_fn: ExecuteFn::And, cycles: 4, bytes: 2 }),
        0x36 => Some(OpCode { code: 0x36, name: "ROL", mode: AddressingMode::ZPX, decode_fn: Some(DecodeFn::AddrZpx), execute_fn: ExecuteFn::Rol, cycles: 6, bytes: 2 }),
        0x38 => Some(OpCode { code: 0x38, name: "SEC", mode: AddressingMode::IMP, decode_fn: None, execute_fn: ExecuteFn::Sec, cycles: 2, bytes: 1 }),
        0x39 => Some(OpCode { code: 0x39, name: "AND", mode: AddressingMode::ABY, decode_fn: Some(DecodeFn::AddrAby), execute_fn: ExecuteFn::And, cycles: 4, bytes: 3 }),
        0x3D => Some(OpCode { code: 0x3D, name: "AND", mode: AddressingMode::ABX, decode_fn: Some(DecodeFn::AddrAbx), execute_fn: ExecuteFn::And, cycles: 4, bytes: 3 }),
        0x3E => Some(OpCode { code: 0x3E, name: "ROL", mode: AddressingMode::ABX, decode_fn: Some(DecodeFn::AddrAbx), execute_fn: ExecuteFn::Rol, cycles: 7, bytes: 3 }),
        0x40 => Some(OpCode { code: 0x40, name: "RTI", mode: AddressingMode::IMP, decode_fn: None, execute_fn: ExecuteFn::Rti, cycles: 6, bytes: 1 }),
        0x41 => Some(OpCode { code: 0x41, name: "EOR", mode: AddressingMode::INX, decode_fn: Some(DecodeFn::AddrInx), execute_fn: ExecuteFn::Eor, cycles: 6, bytes: 2 }),
        0x45 => Some(OpCode { code: 0x45, name: "EOR", mode: AddressingMode::ZPG, decode_fn: Some(DecodeFn::AddrZpg), execute_fn: ExecuteFn::Eor, cycles: 3, bytes: 2 }),
        0x46 => Some(OpCode { code: 0x46, name: "LSR", mode: AddressingMode::ZPG, decode_fn: Some(DecodeFn::AddrZpg), execute_fn: ExecuteFn::Lsr, cycles: 5, bytes: 2 }),
        0x48 => Some(OpCode { code: 0x48, name: "PHA", mode: AddressingMode::IMP, decode_fn: None, execute_fn: ExecuteFn::Pha, cycles: 3, bytes: 1 }),
        0x49 => Some(OpCode { code: 0x49, name: "EOR", mode: AddressingMode::IMM, decode_fn: None, execute_fn: ExecuteFn::Eor, cycles: 2, bytes: 2 }),
        0x4A => Some(OpCode { code: 0x4A, name: "LSR", mode: AddressingMode::ACC, decode_fn: None, execute_fn: ExecuteFn::Lsr, cycles: 2, bytes: 1 }),
        0x4C => Some(OpCode { code: 0x4C, name: "JMP", mode: AddressingMode::ABS, decode_fn: None, execute_fn: ExecuteFn::Jmp, cycles: 3, bytes: 3 }),
        0x4D => Some(OpCode { code: 0x4D, name: "EOR", mode: AddressingMode::ABS, decode_fn: Some(DecodeFn::AddrAbs), execute_fn: ExecuteFn::Eor, cycles: 4, bytes: 3 }),
        0x4E => Some(OpCode { code: 0x4E, name: "LSR", mode: AddressingMode::ABS, decode_fn: Some(DecodeFn::AddrAbs), execute_fn: ExecuteFn::Lsr, cycles: 6, bytes: 3 }),
        0x50 => Some(OpCode { code: 0x50, name: "BVC", mode: AddressingMode::REL, decode_fn: None, execute_fn: ExecuteFn::Bvc, cycles: 2, bytes: 2 }),
        0x51 => Some(OpCode { code: 0x51, name: "EOR", mode: AddressingMode::INY, decode_fn: Some(DecodeFn::AddrIny), execute_fn: ExecuteFn::Eor, cycles: 5, bytes: 2 }),
        0x55 => Some(OpCode { code: 0x55, name: "EOR", mode: AddressingMode::ZPX, decode_fn: Some(DecodeFn::AddrZpx), execute_fn: ExecuteFn::Eor, cycles: 4, bytes: 2 }),
        0x56 => Some(OpCode { code: 0x56, name: "LSR", mode: AddressingMode::ZPX, decode_fn: Some(DecodeFn::AddrZpx), execute_fn: ExecuteFn::Lsr, cycles: 6, bytes: 2 }),
        0x58 => Some(OpCode { code: 0x58, name: "CLI", mode: AddressingMode::IMP, decode_fn: None, execute_fn: ExecuteFn::Cli, cycles: 2, bytes: 1 }),
        0x59 => Some(OpCode { code: 0x59, name: "EOR", mode: AddressingMode::ABY, decode_fn: Some(DecodeFn::AddrAby), execute_fn: ExecuteFn::Eor, cycles: 4, bytes: 3 }),
        0x5D => Some(OpCode { code: 0x5D, name: "EOR", mode: AddressingMode::ABX, decode_fn: Some(DecodeFn::AddrAbx), execute_fn: ExecuteFn::Eor, cycles: 4, bytes: 3 }),
        0x5E => Some(OpCode { code: 0x5E, name: "LSR", mode: AddressingMode::ABX, decode_fn: Some(DecodeFn::AddrAbx), execute_fn: ExecuteFn::Lsr, cycles: 7, bytes: 3 }),
        0x60 => Some(OpCode { code: 0x60, name: "RTS", mode: AddressingMode::IMP, decode_fn: None, execute_fn: ExecuteFn::Rts, cycles: 6, bytes: 1 }),
        0x61 => Some(OpCode { code: 0x61, name: "ADC", mode: AddressingMode::INX, decode_fn: Some(DecodeFn::AddrInx), execute_fn: ExecuteFn::Adc, cycles: 6, bytes: 2 }),
        0x65 => Some(OpCode { code: 0x65, name: "ADC", mode: AddressingMode::ZPG, decode_fn: Some(DecodeFn::AddrZpg), execute_fn: ExecuteFn::Adc, cycles: 3, bytes: 2 }),
        0x66 => Some(OpCode { code: 0x66, name: "ROR", mode: AddressingMode::ZPG, decode_fn: Some(DecodeFn::AddrZpg), execute_fn: ExecuteFn::Ror, cycles: 5, bytes: 2 }),
        0x68 => Some(OpCode { code: 0x68, name: "PLA", mode: AddressingMode::IMP, decode_fn: None, execute_fn: ExecuteFn::Pla, cycles: 4, bytes: 1 }),
        0x69 => Some(OpCode { code: 0x69, name: "ADC", mode: AddressingMode::IMM, decode_fn: None, execute_fn: ExecuteFn::Adc, cycles: 2, bytes: 2 }),
        0x6A => Some(OpCode { code: 0x6A, name: "ROR", mode: AddressingMode::ACC, decode_fn: None, execute_fn: ExecuteFn::Ror, cycles: 2, bytes: 1 }),
        0x6C => Some(OpCode { code: 0x6C, name: "JMP", mode: AddressingMode::IND, decode_fn: None, execute_fn: ExecuteFn::Jmp, cycles: 5, bytes: 3 }),
        0x6D => Some(OpCode { code: 0x6D, name: "ADC", mode: AddressingMode::ABS, decode_fn: Some(DecodeFn::AddrAbs), execute_fn: ExecuteFn::Adc, cycles: 4, bytes: 3 }),
        0x6E => Some(OpCode { code: 0x6E, name: "ROR", mode: AddressingMode::ABS, decode_fn: Some(DecodeFn::AddrAbs), execute_fn: ExecuteFn::Ror, cycles: 6, bytes: 3 }),
        0x70 => Some(OpCode { code: 0x70, name: "BVS", mode: AddressingMode::REL, decode_fn: None, execute_fn: ExecuteFn::Bvs, cycles: 2, bytes: 2 }),
        0x71 => Some(OpCode { code: 0x71, name: "ADC", mode: AddressingMode::INY, decode_fn: Some(DecodeFn::AddrIny), execute_fn: ExecuteFn::Adc, cycles: 5, bytes: 2 }),
        0x75 => Some(OpCode { code: 0x75, name: "ADC", mode: AddressingMode::ZPX, decode_fn: Some(DecodeFn::AddrZpx), execute_fn: ExecuteFn::Adc, cycles: 4, bytes: 2 }),
        0x76 => Some(OpCode { code: 0x76, name: "ROR", mode: AddressingMode::ZPX, decode_fn: Some(DecodeFn::AddrZpx), execute_fn: ExecuteFn::Ror, cycles: 6, bytes: 2 }),
        0x78 => Some(OpCode { code: 0x78, name: "SEI", mode: AddressingMode::IMP, decode_fn: None, execute_fn: ExecuteFn::Sei, cycles: 2, bytes: 1 }),
        0x79 => Some(OpCode { code: 0x79, name: "ADC", mode: AddressingMode::ABY, decode_fn: Some(DecodeFn::AddrAby), execute_fn: ExecuteFn::Adc, cycles: 4, bytes: 3 }),
        0x7D => Some(OpCode { code: 0x7D, name: "ADC", mode: AddressingMode::ABX, decode_fn: Some(DecodeFn::AddrAbx), execute_fn: ExecuteFn::Adc, cycles: 4, bytes: 3 }),
        0x7E => Some(OpCode { code: 0x7E, name: "ROR", mode: AddressingMode::ABX, decode_fn: Some(DecodeFn::AddrAbx), execute_fn: ExecuteFn::Ror, cycles: 7, bytes: 3 }),
        0x81 => Some(OpCode { code: 0x81, name: "STA", mode: AddressingMode::INX, decode_fn: Some(DecodeFn::AddrInx), execute_fn: ExecuteFn::Sta, cycles: 6, bytes: 2 }),
        0x84 => Some(OpCode { code: 0x84, name: "STY", mode: AddressingMode::ZPG, decode_fn: Some(DecodeFn::AddrZpg), execute_fn: ExecuteFn::Sty, cycles: 3, bytes: 2 }),
        0x85 => Some(OpCode { code: 0x85, name: "STA", mode: AddressingMode::ZPG, decode_fn: Some(DecodeFn::AddrZpg), execute_fn: ExecuteFn::Sta, cycles: 3, bytes: 2 }),
        0x86 => Some(OpCode { code: 0x86, name: "STX", mode: AddressingMode::ZPG, decode_fn: Some(DecodeFn::AddrZpg), execute_fn: ExecuteFn::Stx, cycles: 3, bytes: 2 }),
        0x88 => Some(OpCode { code: 0x88, name: "DEY", mode: AddressingMode::IMP, decode_fn: None, execute_fn: ExecuteFn::Dey, cycles: 2, bytes: 1 }),
        0x8A => Some(OpCode { code: 0x8A, name: "TXA", mode: AddressingMode::IMP, decode_fn: None, execute_fn: ExecuteFn::Txa, cycles: 2, bytes: 1 }),
        0x8C => Some(OpCode { code: 0x8C, name: "STY", mode: AddressingMode::ABS, decode_fn: Some(DecodeFn::AddrAbs), execute_fn: ExecuteFn::Sty, cycles: 4, bytes: 3 }),
        0x8D => Some(OpCode { code: 0x8D, name: "STA", mode: AddressingMode::ABS, decode_fn: Some(DecodeFn::AddrAbs), execute_fn: ExecuteFn::Sta, cycles: 4, bytes: 3 }),
        0x8E => Some(OpCode { code: 0x8E, name: "STX", mode: AddressingMode::ABS, decode_fn: Some(DecodeFn::AddrAbs), execute_fn: ExecuteFn::Stx, cycles: 4, bytes: 3 }),
        0x90 => Some(OpCode { code: 0x90, name: "BCC", mode: AddressingMode::REL, decode_fn: None, execute_fn: ExecuteFn::Bcc, cycles: 2, bytes: 2 }),
        0x91 => Some(OpCode { code: 0x91, name: "STA", mode: AddressingMode::INY, decode_fn: Some(DecodeFn::AddrIny), execute_fn: ExecuteFn::Sta, cycles: 5, bytes: 2 }),
        0x94 => Some(OpCode { code: 0x94, name: "STY", mode: AddressingMode::ZPX, decode_fn: Some(DecodeFn::AddrZpx), execute_fn: ExecuteFn::Sty, cycles: 4, bytes: 2 }),
        0x95 => Some(OpCode { code: 0x95, name: "STA", mode: AddressingMode::ZPX, decode_fn: Some(DecodeFn::AddrZpx), execute_fn: ExecuteFn::Sta, cycles: 4, bytes: 2 }),
        0x96 => Some(OpCode { code: 0x96, name: "STX", mode: AddressingMode::ZPY, decode_fn: Some(DecodeFn::AddrZpy), execute_fn: ExecuteFn::Stx, cycles: 4, bytes: 2 }),
        0x98 => Some(OpCode { code: 0x98, name: "TYA", mode: AddressingMode::IMP, decode_fn: None, execute_fn: ExecuteFn::Tya, cycles: 2, bytes: 1 }),
        0x99 => Some(OpCode { code: 0x99, name: "STA", mode: AddressingMode::ABY, decode_fn: Some(DecodeFn::AddrAby), execute_fn: ExecuteFn::Sta, cycles: 5, bytes: 3 }),
        0x9A => Some(OpCode { code: 0x9A, name: "TXS", mode: AddressingMode::IMP, decode_fn: None, execute_fn: ExecuteFn::Txs, cycles: 2, bytes: 1 }),
        0x9D => Some(OpCode { code: 0x9D, name: "STA", mode: AddressingMode::ABX, decode_fn: Some(DecodeFn::AddrAbx), execute_fn: ExecuteFn::Sta, cycles: 5, bytes: 3 }),
        0xA0 => Some(OpCode { code: 0xA0, name: "LDY", mode: AddressingMode::IMM, decode_fn: None, execute_fn: ExecuteFn::Ldy, cycles: 2, bytes: 2 }),
        0xA1 => Some(OpCode { code: 0xA1, name: "LDA", mode: AddressingMode::INX, decode_fn: Some(DecodeFn::AddrInx), execute_fn: ExecuteFn::Lda, cycles: 6, bytes: 2 }),
        0xA2 => Some(OpCode { code: 0xA2, name: "LDX", mode: AddressingMode::IMM, decode_fn: None, execute_fn: ExecuteFn::Ldx, cycles: 2, bytes: 2 }),
        0xA4 => Some(OpCode { code: 0xA4, name: "LDY", mode: AddressingMode::ZPG, decode_fn: Some(DecodeFn::AddrZpg), execute_fn: ExecuteFn::Ldy, cycles: 3, bytes: 2 }),
        0xA5 => Some(OpCode { code: 0xA5, name: "LDA", mode: AddressingMode::ZPG, decode_fn: Some(DecodeFn::AddrZpg), execute_fn: ExecuteFn::Lda, cycles: 3, bytes: 2 }),
        0xA6 => Some(OpCode { code: 0xA6, name: "LDX", mode: AddressingMode::ZPG, decode_fn: Some(DecodeFn::AddrZpg), execute_fn: ExecuteFn::Ldx, cycles: 3, bytes: 2 }),
        0xA8 => Some(OpCode { code: 0xA8, name: "TAY", mode: AddressingMode::IMP, decode_fn: None, execute_fn: ExecuteFn::Tay, cycles: 2, bytes: 1 }),
        0xA9 => Some(OpCode { code: 0xA9, name: "LDA", mode: AddressingMode::IMM, decode_fn: None, execute_fn: ExecuteFn::Lda, cycles: 2, bytes: 2 }),
        0xAA => Some(OpCode { code: 0xAA, name: "TAX", mode: AddressingMode::IMP, decode_fn: None, execute_fn: ExecuteFn::Tax, cycles: 2, bytes: 1 }),
        0xAC => Some(OpCode { code: 0xAC, name: "LDY", mode: AddressingMode::ABS, decode_fn: Some(DecodeFn::AddrAbs), execute_fn: ExecuteFn::Ldy, cycles: 4, bytes: 3 }),
        0xAD => Some(OpCode { code: 0xAD, name: "LDA", mode: AddressingMode::ABS, decode_fn: Some(DecodeFn::AddrAbs), execute_fn: ExecuteFn::Lda, cycles: 4, bytes: 3 }),
        0xAE => Some(OpCode { code: 0xAE, name: "LDX", mode: AddressingMode::ABS, decode_fn: Some(DecodeFn::AddrAbs), execute_fn: ExecuteFn::Ldx, cycles: 4, bytes: 3 }),
        0xB0 => Some(OpCode { code: 0xB0, name: "BCS", mode: AddressingMode::REL, decode_fn: None, execute_fn: ExecuteFn::Bcs, cycles: 2, bytes: 2 }),
        0xB1 => Some(OpCode { code: 0xB1, name: "LDA", mode: AddressingMode::INY, decode_fn: Some(DecodeFn::AddrIny), execute_fn: ExecuteFn::Lda, cycles: 5, bytes: 2 }),
        0xB4 => Some(OpCode { code: 0xB4, name: "LDY", mode: AddressingMode::ZPX, decode_fn: Some(DecodeFn::AddrZpx), execute_fn: ExecuteFn::Ldy, cycles: 4, bytes: 2 }),
        0xB5 => Some(OpCode { code: 0xB5, name: "LDA", mode: AddressingMode::ZPX, decode_fn: Some(DecodeFn::AddrZpx), execute_fn: ExecuteFn::Lda, cycles: 4, bytes: 2 }),
        0xB6 => Some(OpCode { code: 0xB6, name: "LDX", mode: AddressingMode::ZPY, decode_fn: Some(DecodeFn::AddrZpy), execute_fn: ExecuteFn::Ldx, cycles: 4, bytes: 2 }),
        0xB8 => Some(OpCode { code: 0xB8, name: "CLV", mode: AddressingMode::IMP, decode_fn: None, execute_fn: ExecuteFn::Clv, cycles: 2, bytes: 1 }),
        0xB9 => Some(OpCode { code: 0xB9, name: "LDA", mode: AddressingMode::ABY, decode_fn: Some(DecodeFn::AddrAby), execute_fn: ExecuteFn::Lda, cycles: 4, bytes: 3 }),
        0xBA => Some(OpCode { code: 0xBA, name: "TSX", mode: AddressingMode::IMP, decode_fn: None, execute_fn: ExecuteFn::Tsx, cycles: 2, bytes: 1 }),
        0xBC => Some(OpCode { code: 0xBC, name: "LDY", mode: AddressingMode::ABX, decode_fn: Some(DecodeFn::AddrAbx), execute_fn: ExecuteFn::Ldy, cycles: 4, bytes: 3 }),
        0xBD => Some(OpCode { code: 0xBD, name: "LDA", mode: AddressingMode::ABX, decode_fn: Some(DecodeFn::AddrAbx), execute_fn: ExecuteFn::Lda, cycles: 4, bytes: 3 }),
        0xBE => Some(OpCode { code: 0xBE, name: "LDX", mode: AddressingMode::ABY, decode_fn: Some(DecodeFn::AddrAby), execute_fn: ExecuteFn::Ldx, cycles: 4, bytes: 3 }),
        0xC0 => Some(OpCode { code: 0xC0, name: "CPY", mode: AddressingMode::IMM, decode_fn: None, execute_fn: ExecuteFn::Cpy, cycles: 2, bytes: 2 }),
        0xC1 => Some(OpCode { code: 0xC1, name: "CMP", mode: AddressingMode::INX, decode_fn: Some(DecodeFn::AddrInx), execute_fn: ExecuteFn::Cmp, cycles: 6, bytes: 2 }),
        0xC4 => Some(OpCode { code: 0xC4, name: "CPY", mode: AddressingMode::ZPG, decode_fn: Some(DecodeFn::AddrZpg), execute_fn: ExecuteFn::Cpy, cycles: 3, bytes: 2 }),
        0xC5 => Some(OpCode { code: 0xC5, name: "CMP", mode: AddressingMode::ZPG, decode_fn: Some(DecodeFn::AddrZpg), execute_fn: ExecuteFn::Cmp, cycles: 3, bytes: 2 }),
        0xC6 => Some(OpCode { code: 0xC6, name: "DEC", mode: AddressingMode::ZPG, decode_fn: Some(DecodeFn::AddrZpg), execute_fn: ExecuteFn::Dec, cycles: 5, bytes: 2 }),
        0xC8 => Some(OpCode { code: 0xC8, name: "INY", mode: AddressingMode::IMP, decode_fn: None, execute_fn: ExecuteFn::Iny, cycles: 2, bytes: 1 }),
        0xC9 => Some(OpCode { code: 0xC9, name: "CMP", mode: AddressingMode::IMM, decode_fn: None, execute_fn: ExecuteFn::Cmp, cycles: 2, bytes: 2 }),
        0xCA => Some(OpCode { code: 0xCA, name: "DEX", mode: AddressingMode::IMP, decode_fn: None, execute_fn: ExecuteFn::Dex, cycles: 2, bytes: 1 }),
        0xCC => Some(OpCode { code: 0xCC, name: "CPY", mode: AddressingMode::ABS, decode_fn: Some(DecodeFn::AddrAbs), execute_fn: ExecuteFn::Cpy, cycles: 4, bytes: 3 }),
        0xCD => Some(OpCode { code: 0xCD, name: "CMP", mode: AddressingMode::ABS, decode_fn: Some(DecodeFn::AddrAbs), execute_fn: ExecuteFn::Cmp, cycles: 4, bytes: 3 }),
        0xCE => Some(OpCode { code: 0xCE, name: "DEC", mode: AddressingMode::ABS, decode_fn: Some(DecodeFn::AddrAbs), execute_fn: ExecuteFn::Dec, cycles: 6, bytes: 3 }),
        0xD0 => Some(OpCode { code: 0xD0, name: "BNE", mode: AddressingMode::REL, decode_fn: None, execute_fn: ExecuteFn::Bne, cycles: 2, bytes: 2 }),
        0xD1 => Some(OpCode { code: 0xD1, name: "CMP", mode: AddressingMode::INY, decode_fn: Some(DecodeFn::AddrIny), execute_fn: ExecuteFn::Cmp, cycles: 5, bytes: 2 }),
        0xD5 => Some(OpCode { code: 0xD5, name: "CMP", mode: AddressingMode::ZPX, decode_fn: Some(DecodeFn::AddrZpx), execute_fn: ExecuteFn::Cmp, cycles: 4, bytes: 2 }),
        0xD6 => Some(OpCode { code: 0xD6, name: "DEC", mode: AddressingMode::ZPX, decode_fn: Some(DecodeFn::AddrZpx), execute_fn: ExecuteFn::Dec, cycles: 6, bytes: 2 }),
        0xD8 => Some(OpCode { code: 0xD8, name: "CLD", mode: AddressingMode::IMP, decode_fn: None, execute_fn: ExecuteFn::Cld, cycles: 2, bytes: 1 }),
        0xD9 => Some(OpCode { code: 0xD9, name: "CMP", mode: AddressingMode::ABY, decode_fn: Some(DecodeFn::AddrAby), execute_fn: ExecuteFn::Cmp, cycles: 4, bytes: 3 }),
        0xDD => Some(OpCode { code: 0xDD, name: "CMP", mode: AddressingMode::ABX, decode_fn: Some(DecodeFn::AddrAbx), execute_fn: ExecuteFn::Cmp, cycles: 4, bytes: 3 }),
        0xDE => Some(OpCode { code: 0xDE, name: "DEC", mode: AddressingMode::ABX, decode_fn: Some(DecodeFn::AddrAbx), execute_fn: ExecuteFn::Dec, cycles: 7, bytes: 3 }),
        0xE0 => Some(OpCode { code: 0xE0, name: "CPX", mode: AddressingMode::IMM, decode_fn: None, execute_fn: ExecuteFn::Cpx, cycles: 2, bytes: 2 }),
        0xE1 => Some(OpCode { code: 0xE1, name: "SBC", mode: AddressingMode::INX, decode_fn: Some(DecodeFn::AddrInx), execute_fn: ExecuteFn::Sbc, cycles: 6, bytes: 2 }),
        0xE4 => Some(OpCode { code: 0xE4, name: "CPX", mode: AddressingMode::ZPG, decode_fn: Some(DecodeFn::AddrZpg), execute_fn: ExecuteFn::Cpx, cycles: 3, bytes: 2 }),
        0xE5 => Some(OpCode { code: 0xE5, name: "SBC", mode: AddressingMode::ZPG, decode_fn: Some(DecodeFn::AddrZpg), execute_fn: ExecuteFn::Sbc, cycles: 3, bytes: 2 }),
        0xE6 => Some(OpCode { code: 0xE6, name: "INC", mode: AddressingMode::ZPG, decode_fn: Some(DecodeFn::AddrZpg), execute_fn: ExecuteFn::Inc, cycles: 5, bytes: 2 }),
        0xE8 => Some(OpCode { code: 0xE8, name: "INX", mode: AddressingMode::IMP, decode_fn: None, execute_fn: ExecuteFn::Inx, cycles: 2, bytes: 1 }),
        0xE9 => Some(OpCode { code: 0xE9, name: "SBC", mode: AddressingMode::IMM, decode_fn: None, execute_fn: ExecuteFn::Sbc, cycles: 2, bytes: 2 }),
        0xEA => Some(OpCode { code: 0xEA, name: "NOP", mode: AddressingMode::IMP, decode_fn: None, execute_fn: ExecuteFn::Nop, cycles: 2, bytes: 1 }),
        0xEC => Some(OpCode { code: 0xEC, name: "CPX", mode: AddressingMode::ABS, decode_fn: Some(DecodeFn::AddrAbs), execute_fn: ExecuteFn::Cpx, cycles: 4, bytes: 3 }),
        0xED => Some(OpCode { code: 0xED, name: "SBC", mode: AddressingMode::ABS, decode_fn: Some(DecodeFn::AddrAbs), execute_fn: ExecuteFn::Sbc, cycles: 4, bytes: 3 }),
        0xEE => Some(OpCode { code: 0xEE, name: "INC", mode: AddressingMode::ABS, decode_fn: Some(DecodeFn::AddrAbs), execute_fn: ExecuteFn::Inc, cycles: 6, bytes: 3 }),
        0xF0 => Some(OpCode { code: 0xF0, name: "BEQ", mode: AddressingMode::REL, decode_fn: None, execute_fn: ExecuteFn::Beq, cycles: 2, bytes: 2 }),
        0xF1 => Some(OpCode { code: 0xF1, name: "SBC", mode: AddressingMode::INY, decode_fn: Some(DecodeFn::AddrIny), execute_fn: ExecuteFn::Sbc, cycles: 5, bytes: 2 }),
        0xF5 => Some(OpCode { code: 0xF5, name: "SBC", mode: AddressingMode::ZPX, decode_fn: Some(DecodeFn::AddrZpx), execute_fn: ExecuteFn::Sbc, cycles: 4, bytes: 2 }),
        0xF6 => Some(OpCode { code: 0xF6, name: "INC", mode: AddressingMode::ZPX, decode_fn: Some(DecodeFn::AddrZpx), execute_fn: ExecuteFn::Inc, cycles: 6, bytes: 2 }),
        0xF8 => Some(OpCode { code: 0xF8, name: "SED", mode: AddressingMode::IMP, decode_fn: None, execute_fn: ExecuteFn::Sed, cycles: 2, bytes: 1 }),
        0xF9 => Some(OpCode { code: 0xF9, name: "SBC", mode: AddressingMode::ABY, decode_fn: Some(DecodeFn::AddrAby), execute_fn: ExecuteFn::Sbc, cycles: 4, bytes: 3 }),
        0xFD => Some(OpCode { code: 0xFD, name: "SBC", mode: AddressingMode::ABX, decode_fn: Some(DecodeFn::AddrAbx), execute_fn: ExecuteFn::Sbc, cycles: 4, bytes: 3 }),
        0xFE => Some(OpCode { code: 0xFE, name: "INC", mode: AddressingMode::ABX, decode_fn: Some(DecodeFn::AddrAbx), execute_fn: ExecuteFn::Inc, cycles: 7, bytes: 3 }),
        _ => None,
    }
}

/// Looks up an opcode byte in the table.
pub fn opcodes_list(code: u8) -> (r: Option<OpCode>)
    ensures
        r == opcode_spec(code),
{
    proof {
        reveal(opcode_spec);
    }
    match code {
        0x00 => Some(OpCode::new(0x00, "BRK", AddressingMode::IMM, None, ExecuteFn::Brk, 7, 2)),
        0x01 => Some(OpCode::new(0x01, "ORA", AddressingMode::INX, Some(DecodeFn::AddrInx), ExecuteFn::Ora, 6, 2)),
        0x05 => Some(OpCode::new(0x05, "ORA", AddressingMode::ZPG, Some(DecodeFn::AddrZpg), ExecuteFn::Ora, 3, 2)),
        0x06 => Some(OpCode::new(0x06, "ASL", AddressingMode::ZPG, Some(DecodeFn::AddrZpg), ExecuteFn::Asl, 5, 2)),
        0x08 => Some(OpCode::new(0x08, "PHP", AddressingMode::IMP, None, ExecuteFn::Php, 3, 1)),
        0x09 => Some(OpCode::new(0x09, "ORA", AddressingMode::IMM, None, ExecuteFn::Ora, 2, 2)),
        0x0A => Some(OpCode::new(0x0A, "ASL", AddressingMode::ACC, None, ExecuteFn::Asl, 2, 1)),
        0x0D => Some(OpCode::new(0x0D, "ORA", AddressingMode::ABS, Some(DecodeFn::AddrAbs), ExecuteFn::Ora, 4, 3)),
        0x0E => Some(OpCode::new(0x0E, "ASL", AddressingMode::ABS, Some(DecodeFn::AddrAbs), ExecuteFn::Asl, 6, 3)),
        0x10 => Some(OpCode::new(0x10, "BPL", AddressingMode::REL, None, ExecuteFn::Bpl, 2, 2)),
        0x11 => Some(OpCode::new(0x11, "ORA", AddressingMode::INY, Some(DecodeFn::AddrIny), ExecuteFn::Ora, 5, 2)),
        0x15 => Some(OpCode::new(0x15, "ORA", AddressingMode::ZPX, Some(DecodeFn::AddrZpx), ExecuteFn::Ora, 4, 2)),
        0x16 => Some(OpCode::new(0x16, "ASL", AddressingMode::ZPX, Some(DecodeFn::AddrZpx), ExecuteFn::Asl, 6, 2)),
        0x18 => Some(OpCode::new(0x18, "CLC", AddressingMode::IMP, None, ExecuteFn::Clc, 2, 1)),
        0x19 => Some(OpCode::new(0x19, "ORA", AddressingMode::ABY, Some(DecodeFn::AddrAby), ExecuteFn::Ora, 4, 3)),
        0x1D => Some(OpCode::new(0x1D, "ORA", AddressingMode::ABX, Some(DecodeFn::AddrAbx), ExecuteFn::Ora, 4, 3)),
        0x1E => Some(OpCode::new(0x1E, "ASL", AddressingMode::ABX, Some(DecodeFn::AddrAbx), ExecuteFn::Asl, 7, 3)),
        0x20 => Some(OpCode::new(0x20, "JSR", AddressingMode::ABS, None, ExecuteFn::Jsr, 6, 3)),
        0x21 => Some(OpCode::new(0x21, "AND", AddressingMode::INX, Some(DecodeFn::AddrInx), ExecuteFn::And, 6, 2)),
        0x24 => Some(OpCode::new(0x24, "BIT", AddressingMode::ZPG, Some(DecodeFn::AddrZpg), ExecuteFn::Bit, 3, 2)),
        0x25 => Some(OpCode::new(0x25, "AND", AddressingMode::ZPG, Some(DecodeFn::AddrZpg), ExecuteFn::And, 3, 2)),
        0x26 => Some(OpCode::new(0x26, "ROL", AddressingMode::ZPG, Some(DecodeFn::AddrZpg), ExecuteFn::Rol, 5, 2)),
        0x28 => Some(OpCode::new(0x28, "PLP", AddressingMode::IMP, None, ExecuteFn::Plp, 4, 1)),
        0x29 => Some(OpCode::new(0x29, "AND", AddressingMode::IMM, None, ExecuteFn::And, 2, 2)),
        0x2A => Some(OpCode::new(0x2A, "ROL", AddressingMode::ACC, None, ExecuteFn::Rol, 2, 1)),
        0x2C => Some(OpCode::new(0x2C, "BIT", AddressingMode::ABS, Some(DecodeFn::AddrAbs), ExecuteFn::Bit, 4, 3)),
        0x2D => Some(OpCode::new(0x2D, "AND", AddressingMode::ABS, Some(DecodeFn::AddrAbs), ExecuteFn::And, 4, 3)),
        0x2E => Some(OpCode::new(0x2E, "ROL", AddressingMode::ABS, Some(DecodeFn::AddrAbs), ExecuteFn::Rol, 6, 3)),
        0x30 => Some(OpCode::new(0x30, "BMI", AddressingMode::REL, None, ExecuteFn::Bmi, 2, 2)),
        0x31 => Some(OpCode::new(0x31, "AND", AddressingMode::INY, Some(DecodeFn::AddrIny), ExecuteFn::And, 5, 2)),
        0x35 => Some(OpCode::new(0x35, "AND", AddressingMode::ZPX, Some(DecodeFn::AddrZpx), ExecuteFn::And, 4, 2)),
        0x36 => Some(OpCode::new(0x36, "ROL", AddressingMode::ZPX, Some(DecodeFn::AddrZpx), ExecuteFn::Rol, 6, 2)),
        0x38 => Some(OpCode::new(0x38, "SEC", AddressingMode::IMP, None, ExecuteFn::Sec, 2, 1)),
        0x39 => Some(OpCode::new(0x39, "AND", AddressingMode::ABY, Some(DecodeFn::AddrAby), ExecuteFn::And, 4, 3)),
        0x3D => Some(OpCode::new(0x3D, "AND", AddressingMode::ABX, Some(DecodeFn::AddrAbx), ExecuteFn::And, 4, 3)),
        0x3E => Some(OpCode::new(0x3E, "ROL", AddressingMode::ABX, Some(DecodeFn::AddrAbx), ExecuteFn::Rol, 7, 3)),
        0x40 => Some(OpCode::new(0x40, "RTI", AddressingMode::IMP, None, ExecuteFn::Rti, 6, 1)),
        0x41 => Some(OpCode::new(0x41, "EOR", AddressingMode::INX, Some(DecodeFn::AddrInx), ExecuteFn::Eor, 6, 2)),
        0x45 => Some(OpCode::new(0x45, "EOR", AddressingMode::ZPG, Some(DecodeFn::AddrZpg), ExecuteFn::Eor, 3, 2)),
        0x46 => Some(OpCode::new(0x46, "LSR", AddressingMode::ZPG, Some(DecodeFn::AddrZpg), ExecuteFn::Lsr, 5, 2)),
        0x48 => Some(OpCode::new(0x48, "PHA", AddressingMode::IMP, None, ExecuteFn::Pha, 3, 1)),
        0x49 => Some(OpCode::new(0x49, "EOR", AddressingMode::IMM, None, ExecuteFn::Eor, 2, 2)),
        0x4A => Some(OpCode::new(0x4A, "LSR", AddressingMode::ACC, None, ExecuteFn::Lsr, 2, 1)),
        0x4C => Some(OpCode::new(0x4C, "JMP", AddressingMode::ABS, None, ExecuteFn::Jmp, 3, 3)),
        0x4D => Some(OpCode::new(0x4D, "EOR", AddressingMode::ABS, Some(DecodeFn::AddrAbs), ExecuteFn::Eor, 4, 3)),
        0x4E => Some(OpCode::new(0x4E, "LSR", AddressingMode::ABS, Some(DecodeFn::AddrAbs), ExecuteFn::Lsr, 6, 3)),
        0x50 => Some(OpCode::new(0x50, "BVC", AddressingMode::REL, None, ExecuteFn::Bvc, 2, 2)),
        0x51 => Some(OpCode::new(0x51, "EOR", AddressingMode::INY, Some(DecodeFn::AddrIny), ExecuteFn::Eor, 5, 2)),
        0x55 => Some(OpCode::new(0x55, "EOR", AddressingMode::ZPX, Some(DecodeFn::AddrZpx), ExecuteFn::Eor, 4, 2)),
        0x56 => Some(OpCode::new(0x56, "LSR", AddressingMode::ZPX, Some(DecodeFn::AddrZpx), ExecuteFn::Lsr, 6, 2)),
        0x58 => Some(OpCode::new(0x58, "CLI", AddressingMode::IMP, None, ExecuteFn::Cli, 2, 1)),
        0x59 => Some(OpCode::new(0x59, "EOR", AddressingMode::ABY, Some(DecodeFn::AddrAby), ExecuteFn::Eor, 4, 3)),
        0x5D => Some(OpCode::new(0x5D, "EOR", AddressingMode::ABX, Some(DecodeFn::AddrAbx), ExecuteFn::Eor, 4, 3)),
        0x5E => Some(OpCode::new(0x5E, "LSR", AddressingMode::ABX, Some(DecodeFn::AddrAbx), ExecuteFn::Lsr, 7, 3)),
        0x60 => Some(OpCode::new(0x60, "RTS", AddressingMode::IMP, None, ExecuteFn::Rts, 6, 1)),
        0x61 => Some(OpCode::new(0x61, "ADC", AddressingMode::INX, Some(DecodeFn::AddrInx), ExecuteFn::Adc, 6, 2)),
        0x65 => Some(OpCode::new(0x65, "ADC", AddressingMode::ZPG, Some(DecodeFn::AddrZpg), ExecuteFn::Adc, 3, 2)),
        0x66 => Some(OpCode::new(0x66, "ROR", AddressingMode::ZPG, Some(DecodeFn::AddrZpg), ExecuteFn::Ror, 5, 2)),
        0x68 => Some(OpCode::new(0x68, "PLA", AddressingMode::IMP, None, ExecuteFn::Pla, 4, 1)),
        0x69 => Some(OpCode::new(0x69, "ADC", AddressingMode::IMM, None, ExecuteFn::Adc, 2, 2)),
        0x6A => Some(OpCode::new(0x6A, "ROR", AddressingMode::ACC, None, ExecuteFn::Ror, 2, 1)),
        0x6C => Some(OpCode::new(0x6C, "JMP", AddressingMode::IND, None, ExecuteFn::Jmp, 5, 3)),
        0x6D => Some(OpCode::new(0x6D, "ADC", AddressingMode::ABS, Some(DecodeFn::AddrAbs), ExecuteFn::Adc, 4, 3)),
        0x6E => Some(OpCode::new(0x6E, "ROR", AddressingMode::ABS, Some(DecodeFn::AddrAbs), ExecuteFn::Ror, 6, 3)),
        0x70 => Some(OpCode::new(0x70, "BVS", AddressingMode::REL, None, ExecuteFn::Bvs, 2, 2)),
        0x71 => Some(OpCode::new(0x71, "ADC", AddressingMode::INY, Some(DecodeFn::AddrIny), ExecuteFn::Adc, 5, 2)),
        0x75 => Some(OpCode::new(0x75, "ADC", AddressingMode::ZPX, Some(DecodeFn::AddrZpx), ExecuteFn::Adc, 4, 2)),
        0x76 => Some(OpCode::new(0x76, "ROR", AddressingMode::ZPX, Some(DecodeFn::AddrZpx), ExecuteFn::Ror, 6, 2)),
        0x78 => Some(OpCode::new(0x78, "SEI", AddressingMode::IMP, None, ExecuteFn::Sei, 2, 1)),
        0x79 => Some(OpCode::new(0x79, "ADC", AddressingMode::ABY, Some(DecodeFn::AddrAby), ExecuteFn::Adc, 4, 3)),
        0x7D => Some(OpCode::new(0x7D, "ADC", AddressingMode::ABX, Some(DecodeFn::AddrAbx), ExecuteFn::Adc, 4, 3)),
        0x7E => Some(OpCode::new(0x7E, "ROR", AddressingMode::ABX, Some(DecodeFn::AddrAbx), ExecuteFn::Ror, 7, 3)),
        0x81 => Some(OpCode::new(0x81, "STA", AddressingMode::INX, Some(DecodeFn::AddrInx), ExecuteFn::Sta, 6, 2)),
        0x84 => Some(OpCode::new(0x84, "STY", AddressingMode::ZPG, Some(DecodeFn::AddrZpg), ExecuteFn::Sty, 3, 2)),
        0x85 => Some(OpCode::new(0x85, "STA", AddressingMode::ZPG, Some(DecodeFn::AddrZpg), ExecuteFn::Sta, 3, 2)),
        0x86 => Some(OpCode::new(0x86, "STX", AddressingMode::ZPG, Some(DecodeFn::AddrZpg), ExecuteFn::Stx, 3, 2)),
        0x88 => Some(OpCode::new(0x88, "DEY", AddressingMode::IMP, None, ExecuteFn::Dey, 2, 1)),
        0x8A => Some(OpCode::new(0x8A, "TXA", AddressingMode::IMP, None, ExecuteFn::Txa, 2, 1)),
        0x8C => Some(OpCode::new(0x8C, "STY", AddressingMode::ABS, Some(DecodeFn::AddrAbs), ExecuteFn::Sty, 4, 3)),
        0x8D => Some(OpCode::new(0x8D, "STA", AddressingMode::ABS, Some(DecodeFn::AddrAbs), ExecuteFn::Sta, 4, 3)),
        0x8E => Some(OpCode::new(0x8E, "STX", AddressingMode::ABS, Some(DecodeFn::AddrAbs), ExecuteFn::Stx, 4, 3)),
        0x90 => Some(OpCode::new(0x90, "BCC", AddressingMode::REL, None, ExecuteFn::Bcc, 2, 2)),
        0x91 => Some(OpCode::new(0x91, "STA", AddressingMode::INY, Some(DecodeFn::AddrIny), ExecuteFn::Sta, 5, 2)),
        0x94 => Some(OpCode::new(0x94, "STY", AddressingMode::ZPX, Some(DecodeFn::AddrZpx), ExecuteFn::Sty, 4, 2)),
        0x95 => Some(OpCode::new(0x95, "STA", AddressingMode::ZPX, Some(DecodeFn::AddrZpx), ExecuteFn::Sta, 4, 2)),
        0x96 => Some(OpCode::new(0x96, "STX", AddressingMode::ZPY, Some(DecodeFn::AddrZpy), ExecuteFn::Stx, 4, 2)),
        0x98 => Some(OpCode::new(0x98, "TYA", AddressingMode::IMP, None, ExecuteFn::Tya, 2, 1)),
        0x99 => Some(OpCode::new(0x99, "STA", AddressingMode::ABY, Some(DecodeFn::AddrAby), ExecuteFn::Sta, 5, 3)),
        0x9A => Some(OpCode::new(0x9A, "TXS", AddressingMode::IMP, None, ExecuteFn::Txs, 2, 1)),
        0x9D => Some(OpCode::new(0x9D, "STA", AddressingMode::ABX, Some(DecodeFn::AddrAbx), ExecuteFn::Sta, 5, 3)),
        0xA0 => Some(OpCode::new(0xA0, "LDY", AddressingMode::IMM, None, ExecuteFn::Ldy, 2, 2)),
        0xA1 => Some(OpCode::new(0xA1, "LDA", AddressingMode::INX, Some(DecodeFn::AddrInx), ExecuteFn::Lda, 6, 2)),
        0xA2 => Some(OpCode::new(0xA2, "LDX", AddressingMode::IMM, None, ExecuteFn::Ldx, 2, 2)),
        0xA4 => Some(OpCode::new(0xA4, "LDY", AddressingMode::ZPG, Some(DecodeFn::AddrZpg), ExecuteFn::Ldy, 3, 2)),
        0xA5 => Some(OpCode::new(0xA5, "LDA", AddressingMode::ZPG, Some(DecodeFn::AddrZpg), ExecuteFn::Lda, 3, 2)),
        0xA6 => Some(OpCode::new(0xA6, "LDX", AddressingMode::ZPG, Some(DecodeFn::AddrZpg), ExecuteFn::Ldx, 3, 2)),
        0xA8 => Some(OpCode::new(0xA8, "TAY", AddressingMode::IMP, None, ExecuteFn::Tay, 2, 1)),
        0xA9 => Some(OpCode::new(0xA9, "LDA", AddressingMode::IMM, None, ExecuteFn::Lda, 2, 2)),
        0xAA => Some(OpCode::new(0xAA, "TAX", AddressingMode::IMP, None, ExecuteFn::Tax, 2, 1)),
        0xAC => Some(OpCode::new(0xAC, "LDY", AddressingMode::ABS, Some(DecodeFn::AddrAbs), ExecuteFn::Ldy, 4, 3)),
        0xAD => Some(OpCode::new(0xAD, "LDA", AddressingMode::ABS, Some(DecodeFn::AddrAbs), ExecuteFn::Lda, 4, 3)),
        0xAE => Some(OpCode::new(0xAE, "LDX", AddressingMode::ABS, Some(DecodeFn::AddrAbs), ExecuteFn::Ldx, 4, 3)),
        0xB0 => Some(OpCode::new(0xB0, "BCS", AddressingMode::REL, None, ExecuteFn::Bcs, 2, 2)),
        0xB1 => Some(OpCode::new(0xB1, "LDA", AddressingMode::INY, Some(DecodeFn::AddrIny), ExecuteFn::Lda, 5, 2)),
        0xB4 => Some(OpCode::new(0xB4, "LDY", AddressingMode::ZPX, Some(DecodeFn::AddrZpx), ExecuteFn::Ldy, 4, 2)),
        0xB5 => Some(OpCode::new(0xB5, "LDA", AddressingMode::ZPX, Some(DecodeFn::AddrZpx), ExecuteFn::Lda, 4, 2)),
        0xB6 => Some(OpCode::new(0xB6, "LDX", AddressingMode::ZPY, Some(DecodeFn::AddrZpy), ExecuteFn::Ldx, 4, 2)),
        0xB8 => Some(OpCode::new(0xB8, "CLV", AddressingMode::IMP, None, ExecuteFn::Clv, 2, 1)),
        0xB9 => Some(OpCode::new(0xB9, "LDA", AddressingMode::ABY, Some(DecodeFn::AddrAby), ExecuteFn::Lda, 4, 3)),
        0xBA => Some(OpCode::new(0xBA, "TSX", AddressingMode::IMP, None, ExecuteFn::Tsx, 2, 1)),
        0xBC => Some(OpCode::new(0xBC, "LDY", AddressingMode::ABX, Some(DecodeFn::AddrAbx), ExecuteFn::Ldy, 4, 3)),
        0xBD => Some(OpCode::new(0xBD, "LDA", AddressingMode::ABX, Some(DecodeFn::AddrAbx), ExecuteFn::Lda, 4, 3)),
        0xBE => Some(OpCode::new(0xBE, "LDX", AddressingMode::ABY, Some(DecodeFn::AddrAby), ExecuteFn::Ldx, 4, 3)),
        0xC0 => Some(OpCode::new(0xC0, "CPY", AddressingMode::IMM, None, ExecuteFn::Cpy, 2, 2)),
        0xC1 => Some(OpCode::new(0xC1, "CMP", AddressingMode::INX, Some(DecodeFn::AddrInx), ExecuteFn::Cmp, 6, 2)),
        0xC4 => Some(OpCode::new(0xC4, "CPY", AddressingMode::ZPG, Some(DecodeFn::AddrZpg), ExecuteFn::Cpy, 3, 2)),
        0xC5 => Some(OpCode::new(0xC5, "CMP", AddressingMode::ZPG, Some(DecodeFn::AddrZpg), ExecuteFn::Cmp, 3, 2)),
        0xC6 => Some(OpCode::new(0xC6, "DEC", AddressingMode::ZPG, Some(DecodeFn::AddrZpg), ExecuteFn::Dec, 5, 2)),
        0xC8 => Some(OpCode::new(0xC8, "INY", AddressingMode::IMP, None, ExecuteFn::Iny, 2, 1)),
        0xC9 => Some(OpCode::new(0xC9, "CMP", AddressingMode::IMM, None, ExecuteFn::Cmp, 2, 2)),
        0xCA => Some(OpCode::new(0xCA, "DEX", AddressingMode::IMP, None, ExecuteFn::Dex, 2, 1)),
        0xCC => Some(OpCode::new(0xCC, "CPY", AddressingMode::ABS, Some(DecodeFn::AddrAbs), ExecuteFn::Cpy, 4, 3)),
        0xCD => Some(OpCode::new(0xCD, "CMP", AddressingMode::ABS, Some(DecodeFn::AddrAbs), ExecuteFn::Cmp, 4, 3)),
        0xCE => Some(OpCode::new(0xCE, "DEC", AddressingMode::ABS, Some(DecodeFn::AddrAbs), ExecuteFn::Dec, 6, 3)),
        0xD0 => Some(OpCode::new(0xD0, "BNE", AddressingMode::REL, None, ExecuteFn::Bne, 2, 2)),
        0xD1 => Some(OpCode::new(0xD1, "CMP", AddressingMode::INY, Some(DecodeFn::AddrIny), ExecuteFn::Cmp, 5, 2)),
        0xD5 => Some(OpCode::new(0xD5, "CMP", AddressingMode::ZPX, Some(DecodeFn::AddrZpx), ExecuteFn::Cmp, 4, 2)),
        0xD6 => Some(OpCode::new(0xD6, "DEC", AddressingMode::ZPX, Some(DecodeFn::AddrZpx), ExecuteFn::Dec, 6, 2)),
        0xD8 => Some(OpCode::new(0xD8, "CLD", AddressingMode::IMP, None, ExecuteFn::Cld, 2, 1)),
        0xD9 => Some(OpCode::new(0xD9, "CMP", AddressingMode::ABY, Some(DecodeFn::AddrAby), ExecuteFn::Cmp, 4, 3)),
        0xDD => Some(OpCode::new(0xDD, "CMP", AddressingMode::ABX, Some(DecodeFn::AddrAbx), ExecuteFn::Cmp, 4, 3)),
        0xDE => Some(OpCode::new(0xDE, "DEC", AddressingMode::ABX, Some(DecodeFn::AddrAbx), ExecuteFn::Dec, 7, 3)),
        0xE0 => Some(OpCode::new(0xE0, "CPX", AddressingMode::IMM, None, ExecuteFn::Cpx, 2, 2)),
        0xE1 => Some(OpCode::new(0xE1, "SBC", AddressingMode::INX, Some(DecodeFn::AddrInx), ExecuteFn::Sbc, 6, 2)),
        0xE4 => Some(OpCode::new(0xE4, "CPX", AddressingMode::ZPG, Some(DecodeFn::AddrZpg), ExecuteFn::Cpx, 3, 2)),
        0xE5 => Some(OpCode::new(0xE5, "SBC", AddressingMode::ZPG, Some(DecodeFn::AddrZpg), ExecuteFn::Sbc, 3, 2)),
        0xE6 => Some(OpCode::new(0xE6, "INC", AddressingMode::ZPG, Some(DecodeFn::AddrZpg), ExecuteFn::Inc, 5, 2)),
        0xE8 => Some(OpCode::new(0xE8, "INX", AddressingMode::IMP, None, ExecuteFn::Inx, 2, 1)),
        0xE9 => Some(OpCode::new(0xE9, "SBC", AddressingMode::IMM, None, ExecuteFn::Sbc, 2, 2)),
        0xEA => Some(OpCode::new(0xEA, "NOP", AddressingMode::IMP, None, ExecuteFn::Nop, 2, 1)),
        0xEC => Some(OpCode::new(0xEC, "CPX", AddressingMode::ABS, Some(DecodeFn::AddrAbs), ExecuteFn::Cpx, 4, 3)),
        0xED => Some(OpCode::new(0xED, "SBC", AddressingMode::ABS, Some(DecodeFn::AddrAbs), ExecuteFn::Sbc, 4, 3)),
        0xEE => Some(OpCode::new(0xEE, "INC", AddressingMode::ABS, Some(DecodeFn::AddrAbs), ExecuteFn::Inc, 6, 3)),
        0xF0 => Some(OpCode::new(0xF0, "BEQ", AddressingMode::REL, None, ExecuteFn::Beq, 2, 2)),
        0xF1 => Some(OpCode::new(0xF1, "SBC", AddressingMode::INY, Some(DecodeFn::AddrIny), ExecuteFn::Sbc, 5, 2)),
        0xF5 => Some(OpCode::new(0xF5, "SBC", AddressingMode::ZPX, Some(DecodeFn::AddrZpx), ExecuteFn::Sbc, 4, 2)),
        0xF6 => Some(OpCode::new(0xF6, "INC", AddressingMode::ZPX, Some(DecodeFn::AddrZpx), ExecuteFn::Inc, 6, 2)),
        0xF8 => Some(OpCode::new(0xF8, "SED", AddressingMode::IMP, None, ExecuteFn::Sed, 2, 1)),
        0xF9 => Some(OpCode::new(0xF9, "SBC", AddressingMode::ABY, Some(DecodeFn::AddrAby), ExecuteFn::Sbc, 4, 3)),
        0xFD => Some(OpCode::new(0xFD, "SBC", AddressingMode::ABX, Some(DecodeFn::AddrAbx), ExecuteFn::Sbc, 4, 3)),
        0xFE => Some(OpCode::new(0xFE, "INC", AddressingMode::ABX, Some(DecodeFn::AddrAbx), ExecuteFn::Inc, 7, 3)),
        _ => None,
    }
}

impl OpCode {
    /// Cycles its addressing mode takes to decode when no extra cycle is owed.
    pub open spec fn decode_cycles(self) -> int {
        match self.decode_fn {
            None => 0,
            Some(DecodeFn::AddrZpg) => 1,
            Some(DecodeFn::AddrInx) => 4,
            Some(DecodeFn::AddrIny) => 3,
            Some(_) => 2,
        }
    }

    /// Cycles its addressing mode takes to decode at most (a page cross or
    /// a write through an indexed mode costs one more).
    pub open spec fn decode_cycles_max(self) -> int {
        match self.decode_fn {
            Some(DecodeFn::AddrAbx) | Some(DecodeFn::AddrAby) | Some(DecodeFn::AddrIny) => self.decode_cycles() + 1,
            _ => self.decode_cycles(),
        }
    }

    /// Cycles its execution takes at least.
    pub open spec fn execute_cycles(self) -> int {
        match self.execute_fn {
            ExecuteFn::Brk => 6,
            ExecuteFn::Jsr | ExecuteFn::Rti | ExecuteFn::Rts => 5,
            ExecuteFn::Php | ExecuteFn::Pha => 2,
            ExecuteFn::Plp | ExecuteFn::Pla | ExecuteFn::Inc | ExecuteFn::Dec => 3,
            ExecuteFn::Asl | ExecuteFn::Lsr | ExecuteFn::Rol | ExecuteFn::Ror =>
                if self.mode == AddressingMode::ACC { 1 } else { 3 },
            ExecuteFn::Jmp => if self.mode == AddressingMode::ABS { 2 } else { 4 },
            _ => 1,
        }
    }

    /// Cycles its execution takes at most (a taken branch costs one more,
    /// and one more again when it crosses a page).
    pub open spec fn execute_cycles_max(self) -> int {
        match self.execute_fn {
            ExecuteFn::Bcc | ExecuteFn::Bcs | ExecuteFn::Beq | ExecuteFn::Bmi | ExecuteFn::Bne | ExecuteFn::Bpl
            | ExecuteFn::Bvc | ExecuteFn::Bvs => 3,
            _ => self.execute_cycles(),
        }
    }

    /// The cycles the table counts beyond the fetch and the shortest decode
    /// and execution.
    pub open spec fn slack(self) -> int {
        self.cycles - (1 + self.decode_cycles() + self.execute_cycles())
    }

    /// The absolute-indexed stores and read-modify-writes, whose decode
    /// always takes the extra cycle that the table's count already includes.
    pub open spec fn indexed_write(self) -> bool {
        ||| self.decode_fn == Some(DecodeFn::AddrAbx) && abx_write_code(self.code)
        ||| self.decode_fn == Some(DecodeFn::AddrAby) && self.code == 0x99
    }

    /// The shape facts the cycle machine relies on: the table's cycle count
    /// is the fetch plus the shortest decode and execution, plus the fixed
    /// extra cycle of an absolute-indexed write; the longest instruction fits in nine
    /// cycles; INC/DEC never work on the accumulator; and BRK has no operand
    /// to decode.
    pub open spec fn well_shaped(self) -> bool {
        &&& self.slack() == (if self.indexed_write() { 1int } else { 0 })
        &&& 1 + self.decode_cycles_max() + self.execute_cycles_max() <= 9
        &&& self.cycles <= 7
        &&& (self.execute_fn == ExecuteFn::Inc || self.execute_fn == ExecuteFn::Dec) ==> self.mode != AddressingMode::ACC
        &&& self.execute_fn == ExecuteFn::Brk ==> self.decode_fn is None
    }
}

/// Every entry of the table is stored under its own code and is well
/// shaped, and BRK is the entry of code 0x00 alone.
pub open spec fn table_entry_ok(code: u8) -> bool {
    match opcode_spec(code) {
        None => true,
        Some(op) => op.code == code && op.well_shaped() && (op.execute_fn == ExecuteFn::Brk) == (code == 0),
    }
}

/// The whole opcode table is well shaped, checked entry by entry.
pub proof fn lemma_opcode_table(code: u8)
    ensures
        table_entry_ok(code),
{
    reveal(opcode_spec);
}

/// BRK is stored under code 0x00: implied mode, no decoder, seven cycles.
pub proof fn lemma_brk_entry()
    ensures
        opcode_spec(0) is Some,
        opcode_spec(0)->Some_0.code == 0,
        opcode_spec(0)->Some_0.decode_fn is None,
        opcode_spec(0)->Some_0.execute_fn == ExecuteFn::Brk,
        opcode_spec(0)->Some_0.cycles == 7,
{
    reveal(opcode_spec);
}

/// Opcodes whose absolute,X form always takes the extra decode cycle (they write).
pub open spec fn abx_write_code(code: u8) -> bool {
    code == 0x9D || code == 0x1E || code == 0x3E || code == 0x5E || code == 0x7E || code == 0xDE || code == 0xFE
}

impl CPU {
    /// Zero page: the operand byte is the address.
    pub open spec fn addr_zpg_spec(self) -> (bool, CPU) {
        let (v, c) = self.read(self.pc);
        (true, CPU { store: CPUStore { addr: v as u16, ..c.store }, pc: add16(c.pc, 1), ..c })
    }

    /// Zero page indexed by `index`: operand byte, then a dummy read of it
    /// and the wrapped sum.
    pub open spec fn addr_zp_indexed_spec(self, index: u8, subcycle: u8) -> (bool, CPU) {
        if subcycle == 0 {
            (false, self.addr_zpg_spec().1)
        } else {
            let (_, c) = self.read(self.store.addr);
            (true, CPU { store: CPUStore { addr: add8(index, self.store.addr as u8) as u16, ..c.store }, ..c })
        }
    }

    /// Absolute: low then high address byte.
    pub open spec fn addr_abs_spec(self, subcycle: u8) -> (bool, CPU) {
        let (v, c) = self.read(self.pc);
        if subcycle == 0 {
            (false, CPU { store: CPUStore { lo: v, ..c.store }, pc: add16(c.pc, 1), ..c })
        } else {
            (true, CPU { store: CPUStore { hi: v, addr: word(c.store.lo, v), ..c.store }, pc: add16(c.pc, 1), ..c })
        }
    }

    /// Absolute indexed by `index`: low byte, then high byte with the index
    /// added to the low byte; a carry out of the low byte (page cross) or a
    /// writing instruction costs one more cycle, a dummy read of the
    /// unfixed address after which a crossed page is fixed up.
    pub open spec fn addr_abs_indexed_spec(self, index: u8, write_ins: bool, subcycle: u8) -> (bool, CPU) {
        if subcycle == 0 {
            self.addr_abs_spec(0)
        } else if subcycle == 1 {
            let (hi, c) = self.read(self.pc);
            let lo2 = add8(c.store.lo, index);
            let crossed = c.store.lo > lo2;
            let extra = crossed || write_ins;
            (!extra, CPU {
                store: CPUStore { hi: hi, data: c.store.lo, lo: lo2, addr: word(lo2, hi), ..c.store },
                pc: add16(c.pc, 1),
                page_crossed: crossed,
                required_ins_ticks: if extra { (c.required_ins_ticks + 1) as u8 } else { c.required_ins_ticks },
                ..c
            })
        } else {
            let (_, c) = self.read(self.store.addr);
            (true, CPU {
                store: CPUStore { addr: if c.page_crossed { add16(c.store.addr, 0x100) } else { c.store.addr }, ..c.store },
                ..c
            })
        }
    }

    /// (Indirect,X): pointer byte, dummy read while X is added, then the
    /// address's low and high bytes from the zero page (wrapping).
    pub open spec fn addr_inx_spec(self, subcycle: u8) -> (bool, CPU) {
        if subcycle == 0 {
            let (v, c) = self.read(self.pc);
            (false, CPU { store: CPUStore { data: v, ..c.store }, pc: add16(c.pc, 1), ..c })
        } else if subcycle == 1 {
            let (_, c) = self.read(self.store.data as u16);
            (false, CPU { store: CPUStore { data: add8(c.store.data, c.x), ..c.store }, ..c })
        } else if subcycle == 2 {
            let (v, c) = self.read(self.store.data as u16);
            (false, CPU { store: CPUStore { lo: v, ..c.store }, ..c })
        } else {
            let (v, c) = self.read(add8(self.store.data, 1) as u16);
            (true, CPU { store: CPUStore { hi: v, addr: word(c.store.lo, v), ..c.store }, ..c })
        }
    }

    /// (Indirect),Y: pointer byte, the address's low and high bytes from the
    /// zero page, Y added to the low byte; a page cross or the storing
    /// instruction costs a further cycle with the high byte fixed up.
    pub open spec fn addr_iny_spec(self, subcycle: u8) -> (bool, CPU) {
        if subcycle == 0 {
            let (v, c) = self.read(self.pc);
            (false, CPU { store: CPUStore { data: v, ..c.store }, pc: add16(c.pc, 1), ..c })
        } else if subcycle == 1 {
            let (v, c) = self.read(self.store.data as u16);
            (false, CPU { store: CPUStore { lo: v, ..c.store }, ..c })
        } else if subcycle == 2 {
            let (hi, c) = self.read(add8(self.store.data, 1) as u16);
            let lo2 = add8(c.store.lo, c.y);
            let crossed = c.store.lo > lo2;
            let extra = crossed || c.op().code == 0x91;
            (!extra, CPU {
                store: CPUStore { hi: hi, data: c.store.lo, lo: lo2, addr: word(lo2, hi), ..c.store },
                page_crossed: crossed,
                required_ins_ticks: if extra { (c.required_ins_ticks + 1) as u8 } else { c.required_ins_ticks },
                ..c
            })
        } else {
            let (_, c) = self.read(self.store.addr);
            (true, CPU {
                store: CPUStore { addr: if c.page_crossed { add16(c.store.addr, 0x100) } else { c.store.addr }, ..c.store },
                ..c
            })
        }
    }

    /// The step of decoder `d` at `subcycle`.
    #[verifier::opaque]
    pub open spec fn decode_spec(self, d: DecodeFn, subcycle: u8) -> (bool, CPU) {
        match d {
            DecodeFn::AddrZpg => self.addr_zpg_spec(),
            DecodeFn::AddrZpx => self.addr_zp_indexed_spec(self.x, subcycle),
            DecodeFn::AddrZpy => self.addr_zp_indexed_spec(self.y, subcycle),
            DecodeFn::AddrAbs => self.addr_abs_spec(subcycle),
            DecodeFn::AddrAbx => self.addr_abs_indexed_spec(self.x, abx_write_code(self.op().code), subcycle),
            DecodeFn::AddrAby => self.addr_abs_indexed_spec(self.y, self.op().code == 0x99, subcycle),
            DecodeFn::AddrInx => self.addr_inx_spec(subcycle),
            DecodeFn::AddrIny => self.addr_iny_spec(subcycle),
        }
    }

    /// The bus access of decoder `d` at `subcycle`.
    #[verifier::opaque]
    pub open spec fn decode_access(self, d: DecodeFn, subcycle: u8) -> Access {
        match d {
            DecodeFn::AddrZpg => Access::Read(self.pc),
            DecodeFn::AddrZpx | DecodeFn::AddrZpy => if subcycle == 0 { Access::Read(self.pc) } else { Access::Read(self.store.addr) },
            DecodeFn::AddrAbs => Access::Read(self.pc),
            DecodeFn::AddrAbx | DecodeFn::AddrAby => if subcycle <= 1 { Access::Read(self.pc) } else { Access::Read(self.store.addr) },
            DecodeFn::AddrInx => if subcycle == 0 {
                Access::Read(self.pc)
            } else if subcycle <= 2 {
                Access::Read(self.store.data as u16)
            } else {
                Access::Read(add8(self.store.data, 1) as u16)
            },
            DecodeFn::AddrIny => if subcycle == 0 {
                Access::Read(self.pc)
            } else if subcycle == 1 {
                Access::Read(self.store.data as u16)
            } else if subcycle == 2 {
                Access::Read(add8(self.store.data, 1) as u16)
            } else {
                Access::Read(self.store.addr)
            },
        }
    }

    // Official addressing functions
    pub(crate) fn addr_zpg(&mut self, _subcycle: u8) -> (done: bool)
        requires
            old(self).ready(),
            old(self).bus.read_ok(old(self).pc),
        ensures
            final(self).ready(),
            (done, *final(self)) == old(self).addr_zpg_spec(),
    {
        self.store.addr = self.bus.mem_read(self.pc) as u16;
        self.pc = self.pc.wrapping_add(1);
        true
    }

    pub(crate) fn addr_zpx(&mut self, subcycle: u8) -> (done: bool)
        requires
            old(self).ready(),
            subcycle <= 1,
            old(self).access_ok(old(self).decode_access(DecodeFn::AddrZpx, subcycle)),
        ensures
            final(self).ready(),
            (done, *final(self)) == old(self).addr_zp_indexed_spec(old(self).x, subcycle),
    {
        proof {
            reveal(CPU::decode_access);
        }
        if subcycle == 0 {
            self.addr_zpg(subcycle);
            false
        } else {
            let _ = self.bus.mem_read(self.store.addr);
            self.store.addr = self.x.wrapping_add(self.store.addr as u8) as u16;
            true
        }
    }

    pub(crate) fn addr_zpy(&mut self, subcycle: u8) -> (done: bool)
        requires
            old(self).ready(),
            subcycle <= 1,
            old(self).access_ok(old(self).decode_access(DecodeFn::AddrZpy, subcycle)),
        ensures
            final(self).ready(),
            (done, *final(self)) == old(self).addr_zp_indexed_spec(old(self).y, subcycle),
    {
        proof {
            reveal(CPU::decode_access);
        }
        if subcycle == 0 {
            self.addr_zpg(subcycle);
            false
        } else {
            let _ = self.bus.mem_read(self.store.addr);
            self.store.addr = self.y.wrapping_add(self.store.addr as u8) as u16;
            true
        }
    }

    pub(crate) fn addr_abs(&mut self, subcycle: u8) -> (done: bool)
        requires
            old(self).ready(),
            subcycle <= 1,
            old(self).bus.read_ok(old(self).pc),
        ensures
            final(self).ready(),
            (done, *final(self)) == old(self).addr_abs_spec(subcycle),
    {
        if subcycle == 0 {
            self.store.lo = self.bus.mem_read(self.pc);
            self.pc = self.pc.wrapping_add(1);
            false
        } else {
            self.store.hi = self.bus.mem_read(self.pc);
            self.pc = self.pc.wrapping_add(1);
            self.store.addr = le_word(self.store.lo, self.store.hi);
            true
        }
    }

    pub(crate) fn addr_abx(&mut self, subcycle: u8) -> (done: bool)
        requires
            old(self).ready(),
            subcycle <= 2,
            old(self).access_ok(old(self).decode_access(DecodeFn::AddrAbx, subcycle)),
            old(self).required_ins_ticks < 255,
        ensures
            final(self).ready(),
            (done, *final(self)) == old(self).addr_abs_indexed_spec(old(self).x, abx_write_code(old(self).op().code), subcycle),
    {
        proof {
            reveal(CPU::decode_access);
        }
        if subcycle == 0 {
            self.store.lo = self.bus.mem_read(self.pc);
            self.pc = self.pc.wrapping_add(1);
            false
        } else if subcycle == 1 {
            self.store.hi = self.bus.mem_read(self.pc);
            self.pc = self.pc.wrapping_add(1);
            self.store.data = self.store.lo;
            self.store.lo = self.store.lo.wrapping_add(self.x);
            self.store.addr = le_word(self.store.lo, self.store.hi);

            self.page_crossed = self.store.data > self.store.lo;
            let code = self.ins.unwrap().code;
            let write_ins = code == 0x9D || code == 0x1E || code == 0x3E || code == 0x5E || code == 0x7E
                || code == 0xDE || code == 0xFE;
            if self.page_crossed || write_ins {
                self.required_ins_ticks += 1;
            }
            !(self.page_crossed || write_ins)
        } else {
            let _ = self.bus.mem_read(self.store.addr);
            if self.page_crossed {
                self.store.addr = self.store.addr.wrapping_add(0x100);
            }
            true
        }
    }

    pub(crate) fn addr_aby(&mut self, subcycle: u8) -> (done: bool)
        requires
            old(self).ready(),
            subcycle <= 2,
            old(self).access_ok(old(self).decode_access(DecodeFn::AddrAby, subcycle)),
            old(self).required_ins_ticks < 255,
        ensures
            final(self).ready(),
            (done, *final(self)) == old(self).addr_abs_indexed_spec(old(self).y, old(self).op().code == 0x99, subcycle),
    {
        proof {
            reveal(CPU::decode_access);
        }
        if subcycle == 0 {
            self.store.lo = self.bus.mem_read(self.pc);
            self.pc = self.pc.wrapping_add(1);
            false
        } else if subcycle == 1 {
            self.store.hi = self.bus.mem_read(self.pc);
            self.pc = self.pc.wrapping_add(1);
            self.store.data = self.store.lo;
            self.store.lo = self.store.lo.wrapping_add(self.y);
            self.store.addr = le_word(self.store.lo, self.store.hi);

            self.page_crossed = self.store.data > self.store.lo;
            let write_ins = self.ins.unwrap().code == 0x99;
            if self.page_crossed || write_ins {
                self.required_ins_ticks += 1;
            }
            !(self.page_crossed || write_ins)
        } else {
            let _ = self.bus.mem_read(self.store.addr);
            if self.page_crossed {
                self.store.addr = self.store.addr.wrapping_add(0x100);
            }
            true
        }
    }

    pub(crate) fn addr_inx(&mut self, subcycle: u8) -> (done: bool)
        requires
            old(self).ready(),
            subcycle <= 3,
            old(self).access_ok(old(self).decode_access(DecodeFn::AddrInx, subcycle)),
        ensures
            final(self).ready(),
            (done, *final(self)) == old(self).addr_inx_spec(subcycle),
    {
        proof {
            reveal(CPU::decode_access);
        }
        if subcycle == 0 {
            self.store.data = self.bus.mem_read(self.pc);
            self.pc = self.pc.wrapping_add(1);
            false
        } else if subcycle == 1 {
            let _ = self.bus.mem_read(self.store.data as u16);
            self.store.data = self.store.data.wrapping_add(self.x);
            false
        } else if subcycle == 2 {
            self.store.lo = self.bus.mem_read(self.store.data as u16);
            false
        } else {
            self.store.hi = self.bus.mem_read(self.store.data.wrapping_add(1) as u16);
            self.store.addr = le_word(self.store.lo, self.store.hi);
            true
        }
    }

    pub(crate) fn addr_iny(&mut self, subcycle: u8) -> (done: bool)
        requires
            old(self).ready(),
            subcycle <= 3,
            old(self).access_ok(old(self).decode_access(DecodeFn::AddrIny, subcycle)),
            old(self).required_ins_ticks < 255,
        ensures
            final(self).ready(),
            (done, *final(self)) == old(self).addr_iny_spec(subcycle),
    {
        proof {
            reveal(CPU::decode_access);
        }
        if subcycle == 0 {
            self.store.data = self.bus.mem_read(self.pc);
            self.pc = self.pc.wrapping_add(1);
            false
        } else if subcycle == 1 {
            self.store.lo = self.bus.mem_read(self.store.data as u16);
            false
        } else if subcycle == 2 {
            self.store.hi = self.bus.mem_read(self.store.data.wrapping_add(1) as u16);
            self.store.data = self.store.lo;
            self.store.lo = self.store.lo.wrapping_add(self.y);
            self.store.addr = le_word(self.store.lo, self.store.hi);

            self.page_crossed = self.store.data > self.store.lo;
            let write_ins = self.ins.unwrap().code == 0x91;
            if self.page_crossed || write_ins {
                self.required_ins_ticks += 1;
            }
            !(self.page_crossed || write_ins)
        } else {
            let _ = self.bus.mem_read(self.store.addr);
            if self.page_crossed {
                self.store.addr = self.store.addr.wrapping_add(0x100);
            }
            true
        }
    }
}

} // verus!
