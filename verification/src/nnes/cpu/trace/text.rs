//! The printed form of a trace line, in the nestest log layout: ASCII text
//! built from uppercase hexadecimal fields, fixed-width columns and, for
//! the PPU position, right-aligned decimal numbers.
use super::TraceLine;
use crate::nnes::cpu::CPU;
use crate::nnes::cpu::opcodes::AddressingMode;
use vstd::prelude::*;
use vstd::string::StringSliceAdditionalSpecFns;

verus! {

/// The ASCII character of digit `d` (0 to 15): `0`..`9`, then `A`..`F`.
pub open spec fn digit_char(d: nat) -> u8 {
    if d < 10 { (48 + d) as u8 } else { (55 + d) as u8 }
}

/// The hexadecimal digits of `n`, most significant first, without leading zeros.
pub open spec fn hex_digits(n: nat) -> Seq<u8>
    decreases n,
{
    if n < 16 { seq![digit_char(n)] } else { hex_digits(n / 16).push(digit_char(n % 16)) }
}

/// The decimal digits of `n`, most significant first, without leading zeros.
pub open spec fn dec_digits(n: nat) -> Seq<u8>
    decreases n,
{
    if n < 10 { seq![digit_char(n)] } else { dec_digits(n / 10).push(digit_char(n % 10)) }
}

/// `n` copies of byte `c`.
pub open spec fn fill(n: nat, c: u8) -> Seq<u8> {
    Seq::new(n, |i: int| c)
}

/// `s` padded on the left with `c` to at least `width` characters.
pub open spec fn pad_left(s: Seq<u8>, width: nat, c: u8) -> Seq<u8> {
    if s.len() < width { fill((width - s.len()) as nat, c) + s } else { s }
}

/// `n` in uppercase hexadecimal, zero-padded to at least `width` digits
/// (the `{:0wX}` form).
pub open spec fn hex(n: nat, width: nat) -> Seq<u8> {
    pad_left(hex_digits(n), width, 48)
}

/// `n` in decimal, right-aligned with spaces in `width` columns (the `{:w}` form).
pub open spec fn dec(n: nat, width: nat) -> Seq<u8> {
    pad_left(dec_digits(n), width, 32)
}

/// `n` spaces.
pub open spec fn spaces(n: nat) -> Seq<u8> {
    fill(n, 32)
}

/// The bytes of a string.
pub open spec fn text(s: &str) -> Seq<u8> {
    s.spec_bytes()
}

/// The operand bytes column: one or two operand bytes, or blanks, always
/// seven characters for bytes below 0x100.
pub open spec fn operand_column(t: TraceLine) -> Seq<u8> {
    if t.bytes > 1 {
        hex(t.lo as nat, 2) + text(" ") + if t.bytes > 2 { hex(t.hi as nat, 2) + text("  ") } else { text("    ") }
    } else {
        text("       ")
    }
}

/// The disassembly after the mnemonic and its space: the operand in the
/// mode's notation, the effective address (`@`) and the values (`=`) the
/// mode shows, padded with the mode's run of spaces. JMP and JSR absolute
/// (opcodes 0x4C and 0x20) show no value.
pub open spec fn operand_text(t: TraceLine) -> Seq<u8> {
    match t.mode {
        AddressingMode::IMP => spaces(28),
        AddressingMode::ACC => text("A") + spaces(27),
        AddressingMode::IMM => text("#$") + hex(t.lo as nat, 2) + spaces(24),
        AddressingMode::ZPG => text("$") + hex(t.lo as nat, 2) + text(" = ") + hex(t.value as nat, 2) + spaces(20),
        AddressingMode::ZPX => text("$") + hex(t.lo as nat, 2) + text(",X @ ") + hex(t.addr as nat, 2) + text(" = ")
            + hex(t.value as nat, 2) + spaces(13),
        AddressingMode::ZPY => text("$") + hex(t.lo as nat, 2) + text(",Y @ ") + hex(t.addr as nat, 2) + text(" = ")
            + hex(t.value as nat, 2) + spaces(13),
        AddressingMode::ABS => if t.code == 0x4C || t.code == 0x20 {
            text("$") + hex(t.addr as nat, 4) + text(" ") + spaces(22)
        } else {
            text("$") + hex(t.addr as nat, 4) + text(" = ") + hex(t.value as nat, 2) + spaces(18)
        },
        AddressingMode::ABX => text("$") + hex(t.pointer as nat, 4) + text(",X @ ") + hex(t.addr as nat, 4) + text(" = ")
            + hex(t.value as nat, 2) + spaces(9),
        AddressingMode::ABY => text("$") + hex(t.pointer as nat, 4) + text(",Y @ ") + hex(t.addr as nat, 4) + text(" = ")
            + hex(t.value as nat, 2) + spaces(9),
        AddressingMode::IND => text("($") + hex(t.pointer as nat, 4) + text(") = ") + hex(t.addr as nat, 4) + spaces(14),
        AddressingMode::INX => text("($") + hex(t.lo as nat, 2) + text(",X) @ ") + hex(t.pointer as nat, 2) + text(" = ")
            + hex(t.addr as nat, 4) + text(" = ") + hex(t.value as nat, 2) + spaces(4),
        AddressingMode::INY => text("($") + hex(t.lo as nat, 2) + text("),Y = ") + hex(t.pointer as nat, 4) + text(" @ ")
            + hex(t.addr as nat, 4) + text(" = ") + hex(t.value as nat, 2) + spaces(2),
        AddressingMode::REL => text("$") + hex(t.addr as nat, 4) + spaces(23),
    }
}

/// The register columns, then, with `timing`, the PPU scanline and dot
/// (right-aligned in three columns) and the CPU cycle count.
pub open spec fn register_text(t: TraceLine, timing: bool) -> Seq<u8> {
    let regs = text("A:") + hex(t.a as nat, 2) + text(" X:") + hex(t.x as nat, 2) + text(" Y:") + hex(t.y as nat, 2)
        + text(" P:") + hex(t.p as nat, 2) + text(" SP:") + hex(t.sp as nat, 2);
    if timing {
        regs + text(" PPU:") + dec(t.ppu_scanline as nat, 3) + text(",") + dec(t.ppu_cycle as nat, 3) + text(" CYC:")
            + dec(t.total_ticks as nat, 0)
    } else {
        regs
    }
}

/// A whole log line: the address, two spaces, the opcode byte, a space,
/// the operand bytes column, the mnemonic, a space, the disassembly, and
/// the register columns.
pub open spec fn trace_text(t: TraceLine, timing: bool) -> Seq<u8> {
    hex(t.pc as nat, 4) + text("  ") + hex(t.code as nat, 2) + text(" ") + operand_column(t) + text(t.name) + text(" ")
        + operand_text(t) + register_text(t, timing)
}

/// Appends the bytes of `s`.
fn push_text(v: &mut Vec<u8>, s: &str)
    ensures
        final(v)@ == old(v)@ + text(s),
{
    let b = s.as_bytes();
    let ghost start = v@;
    let mut i: usize = 0;
    while i < b.len()
        invariant
            i <= b@.len(),
            b@ == text(s),
            v@ == start + b@.subrange(0, i as int),
        decreases b@.len() - i,
    {
        v.push(b[i]);
        i = i + 1;
        assert(v@ =~= start + b@.subrange(0, i as int));
    }
    assert(b@.subrange(0, i as int) =~= b@);
}

/// Appends `n` copies of `c`.
fn push_fill(v: &mut Vec<u8>, n: usize, c: u8)
    ensures
        final(v)@ == old(v)@ + fill(n as nat, c),
{
    let ghost start = v@;
    let mut i: usize = 0;
    while i < n
        invariant
            i <= n,
            v@ == start + fill(i as nat, c),
        decreases n - i,
    {
        v.push(c);
        i = i + 1;
        assert(v@ =~= start + fill(i as nat, c));
    }
}

/// Appends the digits of `n` in `base` (16 or 10).
fn push_digits(v: &mut Vec<u8>, n: u64, base: u64)
    requires
        base == 16 || base == 10,
    ensures
        final(v)@ == old(v)@ + if base == 16 { hex_digits(n as nat) } else { dec_digits(n as nat) },
    decreases n,
{
    let ghost start = v@;
    let d: u64 = n % base;
    if n >= base {
        push_digits(v, n / base, base);
    }
    let c: u8 = if d < 10 { 48 + d as u8 } else { 55 + d as u8 };
    v.push(c);
    proof {
        if base == 16 {
            assert(v@ =~= start + hex_digits(n as nat));
        } else {
            assert(v@ =~= start + dec_digits(n as nat));
        }
    }
}

/// Appends `n` in `base` (16 or 10), padded on the left with `c` to `width`.
fn push_number(v: &mut Vec<u8>, n: u64, base: u64, width: usize, c: u8)
    requires
        base == 16 || base == 10,
    ensures
        final(v)@ == old(v)@ + pad_left(if base == 16 { hex_digits(n as nat) } else { dec_digits(n as nat) }, width as nat, c),
{
    let mut digits: Vec<u8> = Vec::new();
    push_digits(&mut digits, n, base);
    assert(digits@ =~= Seq::<u8>::empty() + digits@);
    if digits.len() < width {
        push_fill(v, width - digits.len(), c);
    }
    let ghost mid = v@;
    let mut i: usize = 0;
    while i < digits.len()
        invariant
            i <= digits@.len(),
            v@ == mid + digits@.subrange(0, i as int),
        decreases digits@.len() - i,
    {
        v.push(digits[i]);
        i = i + 1;
        assert(v@ =~= mid + digits@.subrange(0, i as int));
    }
    assert(digits@.subrange(0, i as int) =~= digits@);
}

/// Appends `n` in uppercase hexadecimal, zero-padded to `width` digits.
fn push_hex(v: &mut Vec<u8>, n: u64, width: usize)
    ensures
        final(v)@ == old(v)@ + hex(n as nat, width as nat),
{
    push_number(v, n, 16, width, 48);
}

/// Appends `n` in decimal, right-aligned in `width` columns.
fn push_dec(v: &mut Vec<u8>, n: u64, width: usize)
    ensures
        final(v)@ == old(v)@ + dec(n as nat, width as nat),
{
    push_number(v, n, 10, width, 32);
}

/// Appends the bytes of `w`.
fn push_all(v: &mut Vec<u8>, w: &Vec<u8>)
    ensures
        final(v)@ == old(v)@ + w@,
{
    let ghost start = v@;
    let mut i: usize = 0;
    while i < w.len()
        invariant
            i <= w@.len(),
            v@ == start + w@.subrange(0, i as int),
        decreases w@.len() - i,
    {
        v.push(w[i]);
        i = i + 1;
        assert(v@ =~= start + w@.subrange(0, i as int));
    }
    assert(w@.subrange(0, i as int) =~= w@);
}

/// A vector holding the bytes of `s`.
fn text_vec(s: &str) -> (r: Vec<u8>)
    ensures
        r@ == text(s),
{
    let mut r: Vec<u8> = Vec::new();
    push_text(&mut r, s);
    assert(r@ =~= text(s));
    r
}

/// A vector holding `n` in uppercase hexadecimal, zero-padded to `width` digits.
fn hex_vec(n: u64, width: usize) -> (r: Vec<u8>)
    ensures
        r@ == hex(n as nat, width as nat),
{
    let mut r: Vec<u8> = Vec::new();
    push_hex(&mut r, n, width);
    assert(r@ =~= hex(n as nat, width as nat));
    r
}

fn operand_column_vec(t: &TraceLine) -> (r: Vec<u8>)
    ensures
        r@ == operand_column(*t),
{
    if t.bytes > 1 {
        let mut r = hex_vec(t.lo as u64, 2);
        push_text(&mut r, " ");
        if t.bytes > 2 {
            let mut tail = hex_vec(t.hi as u64, 2);
            push_text(&mut tail, "  ");
            push_all(&mut r, &tail);
        } else {
            let tail = text_vec("    ");
            push_all(&mut r, &tail);
        }
        r
    } else {
        text_vec("       ")
    }
}

#[verifier::rlimit(40)]
fn operand_text_vec(t: &TraceLine) -> (r: Vec<u8>)
    ensures
        r@ == operand_text(*t),
{
    match t.mode {
        AddressingMode::IMP => {
            let mut r: Vec<u8> = Vec::new();
            push_fill(&mut r, 28, 32);
            assert(r@ =~= spaces(28));
            r
        },
        AddressingMode::ACC => {
            let mut r = text_vec("A");
            push_fill(&mut r, 27, 32);
            r
        },
        AddressingMode::IMM => {
            let mut r = text_vec("#$");
            push_hex(&mut r, t.lo as u64, 2);
            push_fill(&mut r, 24, 32);
            r
        },
        AddressingMode::ZPG => {
            let mut r = text_vec("$");
            push_hex(&mut r, t.lo as u64, 2);
            push_text(&mut r, " = ");
            push_hex(&mut r, t.value as u64, 2);
            push_fill(&mut r, 20, 32);
            r
        },
        AddressingMode::ZPX => {
            let mut r = text_vec("$");
            push_hex(&mut r, t.lo as u64, 2);
            push_text(&mut r, ",X @ ");
            push_hex(&mut r, t.addr as u64, 2);
            push_text(&mut r, " = ");
            push_hex(&mut r, t.value as u64, 2);
            push_fill(&mut r, 13, 32);
            r
        },
        AddressingMode::ZPY => {
            let mut r = text_vec("$");
            push_hex(&mut r, t.lo as u64, 2);
            push_text(&mut r, ",Y @ ");
            push_hex(&mut r, t.addr as u64, 2);
            push_text(&mut r, " = ");
            push_hex(&mut r, t.value as u64, 2);
            push_fill(&mut r, 13, 32);
            r
        },
        AddressingMode::ABS => {
            let mut r = text_vec("$");
            push_hex(&mut r, t.addr as u64, 4);
            if t.code == 0x4C || t.code == 0x20 {
                push_text(&mut r, " ");
                push_fill(&mut r, 22, 32);
            } else {
                push_text(&mut r, " = ");
                push_hex(&mut r, t.value as u64, 2);
                push_fill(&mut r, 18, 32);
            }
            r
        },
        AddressingMode::ABX => {
            let mut r = text_vec("$");
            push_hex(&mut r, t.pointer as u64, 4);
            push_text(&mut r, ",X @ ");
            push_hex(&mut r, t.addr as u64, 4);
            push_text(&mut r, " = ");
            push_hex(&mut r, t.value as u64, 2);
            push_fill(&mut r, 9, 32);
            r
        },
        AddressingMode::ABY => {
            let mut r = text_vec("$");
            push_hex(&mut r, t.pointer as u64, 4);
            push_text(&mut r, ",Y @ ");
            push_hex(&mut r, t.addr as u64, 4);
            push_text(&mut r, " = ");
            push_hex(&mut r, t.value as u64, 2);
            push_fill(&mut r, 9, 32);
            r
        },
        AddressingMode::IND => {
            let mut r = text_vec("($");
            push_hex(&mut r, t.pointer as u64, 4);
            push_text(&mut r, ") = ");
            push_hex(&mut r, t.addr as u64, 4);
            push_fill(&mut r, 14, 32);
            r
        },
        AddressingMode::INX => {
            let mut r = text_vec("($");
            push_hex(&mut r, t.lo as u64, 2);
            push_text(&mut r, ",X) @ ");
            push_hex(&mut r, t.pointer as u64, 2);
            push_text(&mut r, " = ");
            push_hex(&mut r, t.addr as u64, 4);
            push_text(&mut r, " = ");
            push_hex(&mut r, t.value as u64, 2);
            push_fill(&mut r, 4, 32);
            r
        },
        AddressingMode::INY => {
            let mut r = text_vec("($");
            push_hex(&mut r, t.lo as u64, 2);
            push_text(&mut r, "),Y = ");
            push_hex(&mut r, t.pointer as u64, 4);
            push_text(&mut r, " @ ");
            push_hex(&mut r, t.addr as u64, 4);
            push_text(&mut r, " = ");
            push_hex(&mut r, t.value as u64, 2);
            push_fill(&mut r, 2, 32);
            r
        },
        AddressingMode::REL => {
            let mut r = text_vec("$");
            push_hex(&mut r, t.addr as u64, 4);
            push_fill(&mut r, 23, 32);
            r
        },
    }
}

fn register_text_vec(t: &TraceLine, timing: bool) -> (r: Vec<u8>)
    ensures
        r@ == register_text(*t, timing),
{
    let mut r = text_vec("A:");
    push_hex(&mut r, t.a as u64, 2);
    push_text(&mut r, " X:");
    push_hex(&mut r, t.x as u64, 2);
    push_text(&mut r, " Y:");
    push_hex(&mut r, t.y as u64, 2);
    push_text(&mut r, " P:");
    push_hex(&mut r, t.p as u64, 2);
    push_text(&mut r, " SP:");
    push_hex(&mut r, t.sp as u64, 2);
    if timing {
        push_text(&mut r, " PPU:");
        push_dec(&mut r, t.ppu_scanline as u64, 3);
        push_text(&mut r, ",");
        push_dec(&mut r, t.ppu_cycle as u64, 3);
        push_text(&mut r, " CYC:");
        push_dec(&mut r, t.total_ticks, 0);
    }
    r
}

/// The printed line of `t` as ASCII bytes (see [`trace_text`]); with
/// `timing`, the PPU position and cycle count close the line.
pub fn format_trace(t: &TraceLine, timing: bool) -> (s: Vec<u8>)
    ensures
        s@ == trace_text(*t, timing),
{
    let mut v = hex_vec(t.pc as u64, 4);
    push_text(&mut v, "  ");
    push_hex(&mut v, t.code as u64, 2);
    push_text(&mut v, " ");
    let column = operand_column_vec(t);
    push_all(&mut v, &column);
    push_text(&mut v, t.name);
    push_text(&mut v, " ");
    let operand = operand_text_vec(t);
    push_all(&mut v, &operand);
    let registers = register_text_vec(t, timing);
    push_all(&mut v, &registers);
    v
}

impl CPU {
    /// The log line of the instruction at pc, with the PPU position and
    /// cycle count: the text of [`CPU::trace`]'s fields.
    pub fn log_line(&mut self) -> (s: Vec<u8>)
        requires
            old(self).bus.wf(),
            old(self).trace_ok(),
        ensures
            final(self).bus.wf(),
            *final(self) == old(self).trace_spec().1,
            s@ == trace_text(old(self).trace_spec().0, true),
    {
        let t = self.trace();
        format_trace(&t, true)
    }
}

} // verus!
