//! Properties of the library as a whole, stated over the specifications
//! its functions are proved against.
use crate::nnes::console::NNES;
use crate::nnes::cpu::bus::{lemma_dma_keeps_reads, lemma_wf_ppu, Bus};
use crate::nnes::cpu::cycle::{lemma_decode_step, lemma_execute_step, lemma_inv_bus, lemma_step_keeps_total};
use crate::nnes::cpu::opcodes::{lemma_opcode_table, opcode_spec, AddressingMode, DecodeFn, ExecuteFn, OpCode};
use crate::nnes::cpu::{add16, add8, nz, sub8, word, CPUState, BREAK, CPU, INTERRUPT_DISABLE, IRQ_VECTOR};
use crate::nnes::ppu::PPU;
use crate::nnes::cpu::opcodes::execute::add_spec;
use crate::nnes::ppu::render::{incremented_x, incremented_y};
use vstd::prelude::*;

verus! {

/// Splitting a word into its low byte (`lo_byte`) and high byte
/// (`hi_byte`) and joining them again (`le_word`) gives the word back.
pub proof fn law_word_bytes_roundtrip(n: u16)
    ensures
        word((n % 256) as u8, (n / 256) as u8) == n,
{
}

/// Splitting a byte into its nibbles (`lo_nibble`, `hi_nibble`) and joining
/// them again (`byte_from_nibbles`) gives the byte back.
pub proof fn law_nibbles_roundtrip(b: u8)
    ensures
        ((((b / 16) % 16) * 16) as u8 | (b % 16)) == b,
{
    assert(((((b / 16) % 16) * 16) as u8 | (b % 16)) == b) by (bit_vector);
}

/// Internal RAM is mirrored every 2 KiB below 0x2000: a CPU read sees the
/// last byte written to any mirror of its address, and a write to one
/// address leaves the others as they were.
pub proof fn law_ram_read_after_write(b: Bus, written: u16, read: u16, data: u8)
    requires
        b.wf(),
        written < 0x2000,
        read < 0x2000,
    ensures
        b.write_spec(written, data).read_spec(read).0 == (if written as int % 0x800 == read as int % 0x800 {
            data
        } else {
            b.read_spec(read).0
        }),
{
    reveal(Bus::read_spec);
    reveal(Bus::write_spec);
}

/// A push followed by a pull gives back the byte pushed and restores the
/// stack pointer (the stack lives in internal RAM at 0x100 to 0x1FF).
pub proof fn law_stack_push_pop(c: CPU, data: u8)
    ensures
        c.push_spec(data).pop_spec().0 == data,
        c.push_spec(data).pop_spec().1.sp == c.sp,
{
    reveal(Bus::read_spec);
    reveal(Bus::write_spec);
    let addr = (0x100 + c.sp) as u16;
    assert(addr as int % 0x800 == addr as int);
    assert(vstd::wrapping::u8_specs::wrapping_add(vstd::wrapping::u8_specs::wrapping_sub(c.sp, 1), 1) == c.sp);
}

/// Two writes to PPUADDR, starting with the write toggle clear, set the
/// VRAM address to the first byte's low six bits followed by the second
/// byte (bit 15 of the temporary address, which no register write sets,
/// is carried along), and leave the toggle clear again.
pub proof fn law_ppuaddr_sets_v(p: PPU, hi: u8, lo: u8)
    requires
        p.w == 0,
    ensures
        p.reg_write_spec(6, hi).reg_write_spec(6, lo).v == (p.t & 0x8000) as int + (hi % 64) as int * 256 + lo,
        p.reg_write_spec(6, hi).reg_write_spec(6, lo).w == 0,
{
    let t = p.t;
    let p1 = p.reg_write_spec(6, hi);
    assert((0u8 ^ 1u8) == 1u8 && (1u8 ^ 1u8) == 0u8) by (bit_vector);
    assert(p1.w == 1);
    assert(p1.t == ((t & 0x80FFu16) | (((hi & 0b111111u8) as u16) << 8u16)));
    assert((((((t & 0x80FFu16) | (((hi & 0b111111u8) as u16) << 8u16)) & 0xFF00u16) | (lo as u16)) as int)
        == (t & 0x8000u16) as int + (hi % 64) as int * 256 + lo) by (bit_vector);
}

/// PPU memory gives back the last byte written at an address (pattern
/// tables, nametables under the cartridge's mirroring, and palette).
pub proof fn law_ppu_memory_read_after_write(p: PPU, addr: u16, data: u8)
    requires
        p.wf(),
    ensures
        p.mem_write_spec(addr, data).mem_read_spec(addr) == data,
{
}

/// The position of the dot after `p`'s: 341 dots a line, 340 on the
/// pre-render line (261) of odd frames, 262 lines a frame.
pub open spec fn next_dot(p: PPU) -> (u16, u16) {
    let last: u16 = if p.f == 1 && p.scanline == 261 { 339 } else { 340 };
    if p.cycle >= last {
        (if p.scanline == 261 { 0 } else { (p.scanline + 1) as u16 }, 0)
    } else {
        (p.scanline, (p.cycle + 1) as u16)
    }
}

/// The rendering, evaluation, vblank and NMI steps of a dot leave the dot
/// position, the odd-frame bit and the dot counter alone.
proof fn lemma_dot_steps_keep_position(p: PPU)
    ensures
        p.pre_render_spec().cycle == p.cycle && p.pre_render_spec().scanline == p.scanline,
        p.pre_render_spec().f == p.f && p.pre_render_spec().total_cycles == p.total_cycles,
        p.render_lines_spec().cycle == p.cycle && p.render_lines_spec().scanline == p.scanline,
        p.render_lines_spec().f == p.f && p.render_lines_spec().total_cycles == p.total_cycles,
        p.evaluation_spec().cycle == p.cycle && p.evaluation_spec().scanline == p.scanline,
        p.evaluation_spec().f == p.f && p.evaluation_spec().total_cycles == p.total_cycles,
        p.vblank_spec().cycle == p.cycle && p.vblank_spec().scanline == p.scanline,
        p.vblank_spec().f == p.f && p.vblank_spec().total_cycles == p.total_cycles,
        p.nmi_polling_spec().cycle == p.cycle && p.nmi_polling_spec().scanline == p.scanline,
        p.nmi_polling_spec().f == p.f && p.nmi_polling_spec().total_cycles == p.total_cycles,
{
}

/// Each PPU tick moves to the next dot in raster order, counts one dot,
/// and flips the odd-frame bit exactly when a new frame starts.
#[verifier::rlimit(100)]
#[verifier::spinoff_prover]
pub proof fn law_ppu_tick_next_dot(p: PPU)
    requires
        p.wf(),
        p.total_cycles < u64::MAX,
    ensures
        (p.tick_spec().scanline, p.tick_spec().cycle) == next_dot(p),
        p.tick_spec().total_cycles == p.total_cycles + 1,
        p.tick_spec().f == (if p.scanline == 261 && p.cycle >= (if p.f == 1 { 339int } else { 340 }) {
            p.f ^ 1
        } else {
            p.f
        }),
{
    let s1 = if p.scanline == 261 { p.pre_render_spec() } else { p };
    lemma_dot_steps_keep_position(p);
    let s2 = if p.scanline <= 239 { s1.render_lines_spec().evaluation_spec() } else { s1 };
    lemma_dot_steps_keep_position(s1);
    lemma_dot_steps_keep_position(s1.render_lines_spec());
    lemma_dot_steps_keep_position(s2);
    lemma_dot_steps_keep_position(s2.vblank_spec());
    let s3 = s2.vblank_spec().nmi_polling_spec();
    assert(s3.cycle == p.cycle && s3.scanline == p.scanline && s3.f == p.f && s3.total_cycles == p.total_cycles);
    assert(p.tick_spec() == s3.timing_spec());
}

/// The PPU runs one dot on every fourth master tick and the CPU one cycle
/// on every twelfth; the master clock counts every tick (wrapping).
pub proof fn law_master_clock_division(n: NNES)
    requires
        n.inv(),
        n.cpu.bus.ppu().total_cycles < u64::MAX,
        n.cpu.total_ticks < u64::MAX,
    ensures
        n.ppu_phase().cpu.bus.ppu().total_cycles == n.cpu.bus.ppu().total_cycles + (if n.master_clock % 4 == 0 {
            1int
        } else {
            0
        }),
        n.tick_spec().1.cpu.total_ticks == n.cpu.total_ticks + (if n.master_clock % 12 == 0 { 1int } else { 0 }),
        n.tick_spec().1.master_clock == vstd::wrapping::u64_specs::wrapping_add(n.master_clock, 1),
{
    lemma_inv_bus(n.cpu);
    lemma_wf_ppu(n.cpu.bus);
    law_ppu_tick_next_dot(n.cpu.bus.ppu());
    let m = n.ppu_phase();
    assert(m.cpu.total_ticks == n.cpu.total_ticks);
    lemma_step_keeps_total(m.cpu.after_dma());
}

/// Instructions are cycle exact: when an instruction's last execute step
/// runs, the cycles the instruction has taken, this one included, are the
/// cycles required: the table's count, plus one for a taken branch, plus
/// one for each page crossed by an indexed read or a branch target, plus
/// the decoder's fixed extra cycle of an indexed write, except that for the
/// absolute-indexed writes, whose table count already includes that cycle,
/// it counts once.
pub proof fn law_instruction_cycles(c: CPU, s: u8)
    requires
        c.inv(),
        c.state == (CPUState::Execute { subcycle: s }),
        c.execute_spec(s).0,
    ensures
        c.curr_ins_ticks + 1 == c.required_ins_ticks - c.op().slack(),
        c.op().slack() == (if c.op().indexed_write() { 1int } else { 0 }),
        c.execute_spec(s).1.required_ins_ticks == c.required_ins_ticks,
{
    reveal(CPU::inv);
    lemma_opcode_table(c.op().code);
    lemma_execute_step(c, s);
}

/// An instruction's cycle count starts from the opcode table: the tick
/// that fetches an opcode puts its table entry in flight, sets the cycles
/// required to the table's count, counts the fetch as the instruction's
/// first cycle, and moves pc past the opcode. From there each tick counts
/// one more cycle, and [`law_instruction_cycles`] gives the count when the
/// instruction ends.
pub proof fn law_fetch_starts_table_count(c: CPU)
    requires
        c.inv(),
        c.state == CPUState::Fetch,
        c.total_ticks < u64::MAX,
        opcode_spec(c.after_dma().bus.read_spec(c.pc).0) is Some,
    ensures
        ({
            let c2 = c.tick_spec().1;
            &&& c2.ins == opcode_spec(c.after_dma().bus.read_spec(c.pc).0)
            &&& c2.required_ins_ticks == c2.op().cycles
            &&& c2.curr_ins_ticks == 1
            &&& c2.pc == add16(c.pc, 1)
            &&& c2.total_ticks == c.total_ticks + 1
        }),
{
    reveal(CPU::inv);
    reveal(CPU::step_spec);
    let c1 = c.after_dma();
    let f = c1.fetch_spec();
    assert(f.ins == opcode_spec(c1.bus.read_spec(c.pc).0));
    assert(f.required_ins_ticks == f.op().cycles);
    let p = f.polled_spec();
    assert(p.ins == f.ins && p.required_ins_ticks == f.required_ins_ticks && p.pc == f.pc);
    assert(c1.curr_ins_ticks == 0);
}

/// `cs` is a run of CPU ticks: each state keeps the invariant and is
/// followed by what one tick makes of it.
pub open spec fn tick_run(cs: Seq<CPU>) -> bool {
    forall|i: int|
        0 <= i < cs.len() - 1 ==> #[trigger] cs[i].inv() && cs[i].total_ticks < u64::MAX && cs[i + 1]
            == cs[i].tick_spec().1
}

/// The CPU is decoding or executing an instruction.
pub open spec fn in_instruction(c: CPU) -> bool {
    c.state is Decode || c.state is Execute
}

/// A tick of an instruction in flight counts one more cycle of it while
/// it stays in flight, and the instruction only ends on its last execute
/// step.
#[verifier::rlimit(50)]
#[verifier::spinoff_prover]
proof fn lemma_tick_in_flight(c: CPU)
    requires
        c.inv(),
        in_instruction(c),
    ensures
        ({
            let c2 = c.tick_spec().1;
            &&& in_instruction(c2) ==> c2.curr_ins_ticks == c.curr_ins_ticks + 1 && c2.ins == c.ins
            &&& c2.state == CPUState::Fetch ==> (c.state matches CPUState::Execute { subcycle }
                && c.after_dma().execute_spec(subcycle).0)
            &&& c.after_dma().inv()
        }),
{
    reveal(CPU::inv);
    reveal(CPU::step_spec);
    let c1 = c.after_dma();
    lemma_dma_keeps_reads(c.bus, 0);
    assert(c1.bus.wf());
    match c.state {
        CPUState::Decode { subcycle } => lemma_decode_step(c1, subcycle),
        CPUState::Execute { subcycle } => lemma_execute_step(c1, subcycle),
        _ => {},
    }
}

/// Along a run that starts with a fetch and stays within the instruction,
/// the k-th state has counted k cycles of the fetched instruction.
proof fn lemma_run_counts(cs: Seq<CPU>, k: int)
    requires
        cs.len() >= 2,
        tick_run(cs),
        cs[0].state == CPUState::Fetch,
        opcode_spec(cs[0].after_dma().bus.read_spec(cs[0].pc).0) is Some,
        forall|i: int| 0 < i < cs.len() - 1 ==> in_instruction(#[trigger] cs[i]),
        1 <= k <= cs.len() - 2,
    ensures
        cs[k].curr_ins_ticks == k,
        cs[k].ins == cs[1].ins,
    decreases k,
{
    assert(cs[0].inv());
    if k == 1 {
        law_fetch_starts_table_count(cs[0]);
    } else {
        lemma_run_counts(cs, k - 1);
        assert(cs[k - 1].inv());
        assert(in_instruction(cs[k - 1]) && in_instruction(cs[k]));
        lemma_tick_in_flight(cs[k - 1]);
    }
}

/// Instructions take the cycles their count requires: over a run of ticks
/// from one fetch to the next, with the instruction in flight in between
/// (no interrupt sequence), the fetch sets the required count to the
/// table's count, and the number of ticks is the count required when the
/// instruction ends (the table's count plus a taken branch's and each
/// crossed page's extra cycle), less the fixed extra cycle that an
/// absolute-indexed write's table count already holds.
pub proof fn law_instruction_length(cs: Seq<CPU>)
    requires
        cs.len() >= 2,
        tick_run(cs),
        cs[0].state == CPUState::Fetch,
        cs[cs.len() - 1].state == CPUState::Fetch,
        opcode_spec(cs[0].after_dma().bus.read_spec(cs[0].pc).0) is Some,
        forall|i: int| 0 < i < cs.len() - 1 ==> in_instruction(#[trigger] cs[i]),
    ensures
        cs.len() >= 3,
        cs[1].required_ins_ticks == cs[1].op().cycles,
        cs.len() - 1 == cs[cs.len() - 2].required_ins_ticks - cs[cs.len() - 2].op().slack(),
{
    let n = cs.len();
    assert(cs[0].inv());
    law_fetch_starts_table_count(cs[0]);
    reveal(CPU::step_spec);
    if n == 2 {
        assert(cs[1].state != CPUState::Fetch);
    }
    let k = n - 2;
    lemma_run_counts(cs, k);
    assert(cs[k].inv());
    assert(in_instruction(cs[k]));
    lemma_tick_in_flight(cs[k]);
    let c1 = cs[k].after_dma();
    if let CPUState::Execute { subcycle } = cs[k].state {
        law_instruction_cycles(c1, subcycle);
    }
}

/// An address whose reads have no effect but on the open bus: internal
/// RAM or PRG ROM.
pub open spec fn plain_address(addr: u16) -> bool {
    addr < 0x2000 || addr >= 0x8000
}

/// A read of a plain address gives what a peek there sees and leaves every
/// device as it was.
proof fn lemma_plain_read(b: Bus, addr: u16)
    requires
        plain_address(addr),
    ensures
        b.read_spec(addr).0 == b.peek_spec(addr),
        b.read_spec(addr).1.memory_handlers == b.memory_handlers,
{
    reveal(Bus::read_spec);
}

/// The table entry of LDA absolute,X.
proof fn lemma_lda_abx_entry()
    ensures
        opcode_spec(0xBD) == Some(
            OpCode {
                code: 0xBD,
                name: "LDA",
                mode: AddressingMode::ABX,
                decode_fn: Some(DecodeFn::AddrAbx),
                execute_fn: ExecuteFn::Lda,
                cycles: 4,
                bytes: 3,
            },
        ),
{
    reveal(opcode_spec);
}

/// LDA absolute,X over its cycles, from its first decode step: the two
/// bytes at pc give a base address, X is added to it (wrapping at 16
/// bits), and A takes the byte there, with N and Z set from it; pc ends
/// past the two bytes. The decoder takes two cycles, and a third (a read
/// of the address before the carry into the high byte) exactly when
/// adding X carries out of the low byte. The reads are of internal RAM or
/// PRG ROM.
pub proof fn law_lda_absolute_x(c: CPU)
    requires
        c.ins == opcode_spec(0xBD),
        plain_address(c.pc),
        plain_address(add16(c.pc, 1)),
        ({
            let lo = c.bus.peek_spec(c.pc);
            let hi = c.bus.peek_spec(add16(c.pc, 1));
            &&& plain_address(add16(word(lo, hi), c.x as u16))
            &&& plain_address(word(add8(lo, c.x), hi))
        }),
    ensures
        ({
            let lo = c.bus.peek_spec(c.pc);
            let hi = c.bus.peek_spec(add16(c.pc, 1));
            let target = add16(word(lo, hi), c.x as u16);
            let v = c.bus.peek_spec(target);
            let (d0, c1) = c.decode_spec(DecodeFn::AddrAbx, 0);
            let (d1, c2) = c1.decode_spec(DecodeFn::AddrAbx, 1);
            let (d2, c3) = c2.decode_spec(DecodeFn::AddrAbx, 2);
            let c4 = if d1 { c2 } else { c3 };
            let (d5, c5) = c4.execute_spec(0);
            &&& !d0
            &&& d1 == (lo as int + c.x < 256)
            &&& !d1 ==> d2
            &&& d5
            &&& c5.a == v
            &&& c5.p == nz(c.p, v)
            &&& c5.pc == add16(c.pc, 2)
            &&& c5.x == c.x && c5.y == c.y && c5.sp == c.sp
        }),
{
    lemma_lda_abx_entry();
    reveal(CPU::decode_spec);
    reveal(CPU::execute_spec);
    let lo = c.bus.peek_spec(c.pc);
    let hi = c.bus.peek_spec(add16(c.pc, 1));
    let x = c.x;
    lemma_plain_read(c.bus, c.pc);
    let (d0, c1) = c.decode_spec(DecodeFn::AddrAbx, 0);
    assert(c1.store.lo == lo && c1.pc == add16(c.pc, 1) && c1.bus.memory_handlers == c.bus.memory_handlers);
    assert(c1.bus.peek_spec(add16(c.pc, 1)) == hi);
    lemma_plain_read(c1.bus, c1.pc);
    let (d1, c2) = c1.decode_spec(DecodeFn::AddrAbx, 1);
    let lo2 = add8(lo, x);
    assert(c2.store.addr == word(lo2, hi) && c2.store.hi == hi && c2.page_crossed == (lo > lo2));
    assert(c2.bus.memory_handlers == c.bus.memory_handlers);
    assert((lo > lo2) == !(lo as int + x < 256));
    assert(word(lo2, hi) as int == hi as int * 256 + lo2 as int);
    assert(word(lo, hi) as int == hi as int * 256 + lo as int);
    lemma_plain_read(c2.bus, c2.store.addr);
    let (d2, c3) = c2.decode_spec(DecodeFn::AddrAbx, 2);
    assert(c3.bus.memory_handlers == c.bus.memory_handlers);
    let target = add16(word(lo, hi), x as u16);
    if lo as int + x < 256 {
        assert(c2.store.addr == target);
    } else {
        assert(c3.store.addr == target);
    }
    let c4 = if d1 { c2 } else { c3 };
    assert(c4.store.addr == target && c4.bus.memory_handlers == c.bus.memory_handlers);
    lemma_plain_read(c4.bus, target);
}

/// The table entry of STA absolute.
proof fn lemma_sta_abs_entry()
    ensures
        opcode_spec(0x8D) == Some(
            OpCode {
                code: 0x8D,
                name: "STA",
                mode: AddressingMode::ABS,
                decode_fn: Some(DecodeFn::AddrAbs),
                execute_fn: ExecuteFn::Sta,
                cycles: 4,
                bytes: 3,
            },
        ),
{
    reveal(opcode_spec);
}

/// STA absolute over its cycles, from its first decode step, storing into
/// internal RAM: the two bytes at pc give the address, two decode steps
/// read them, and the execute step writes A to that address's RAM byte
/// (mirrored every 2 KiB) and ends the instruction; pc ends past the two
/// bytes and the registers stay.
pub proof fn law_sta_absolute(c: CPU)
    requires
        c.ins == opcode_spec(0x8D),
        plain_address(c.pc),
        plain_address(add16(c.pc, 1)),
        word(c.bus.peek_spec(c.pc), c.bus.peek_spec(add16(c.pc, 1))) < 0x2000,
    ensures
        ({
            let target = word(c.bus.peek_spec(c.pc), c.bus.peek_spec(add16(c.pc, 1)));
            let (d0, c1) = c.decode_spec(DecodeFn::AddrAbs, 0);
            let (d1, c2) = c1.decode_spec(DecodeFn::AddrAbs, 1);
            let (d3, c3) = c2.execute_spec(0);
            &&& !d0 && d1 && d3
            &&& c3.bus.memory_handlers.ram.ram@[target as int % 0x800] == c.a
            &&& c3.pc == add16(c.pc, 2)
            &&& c3.a == c.a && c3.x == c.x && c3.y == c.y && c3.sp == c.sp && c3.p == c.p
        }),
{
    lemma_sta_abs_entry();
    reveal(CPU::decode_spec);
    reveal(CPU::execute_spec);
    reveal(Bus::write_spec);
    lemma_plain_read(c.bus, c.pc);
    let (d0, c1) = c.decode_spec(DecodeFn::AddrAbs, 0);
    lemma_plain_read(c1.bus, c1.pc);
}

/// A byte read as a two's-complement number.
pub open spec fn signed(b: u8) -> int {
    if b < 128 { b as int } else { b as int - 256 }
}

/// ADC and SBC as arithmetic: ADC adds the operand and the carry, SBC
/// subtracts the operand and the borrow (the clear carry). The result is
/// the sum or difference modulo 256; carry is set when the unsigned sum
/// exceeds 255, or when the unsigned difference does not go below zero (no
/// borrow); overflow is set exactly when the same operation on the signed
/// values leaves -128..127; every other status bit stays.
pub proof fn law_add_with_carry(p: u8, n: u8, m: u8, subtract: bool)
    ensures
        ({
            let (r, q) = add_spec(p, n, m, subtract);
            let c: int = if p & 1 != 0 { 1 } else { 0 };
            let u: int = if subtract { n - m - (1 - c) } else { n + m + c };
            let s: int = if subtract { signed(n) - signed(m) - (1 - c) } else { signed(n) + signed(m) + c };
            &&& r as int == (u + 256) % 256
            &&& (q & 1 != 0) == if subtract { u >= 0 } else { u > 255 }
            &&& (q & 0x40 != 0) == (s < -128 || s > 127)
            &&& q & 0xBE == p & 0xBE
        }),
{
    let (r, q) = add_spec(p, n, m, subtract);
    if subtract {
        assert({
            let c: u8 = if p & 1u8 != 0 { 1u8 } else { 0u8 };
            let m2: u8 = !m;
            let sum: int = n + m2 + c;
            let r2 = (sum % 256) as u8;
            let p1: u8 = if sum > 255 { p | 1u8 } else { p & !1u8 };
            let q2: u8 = if ((n ^ r2) & (m2 ^ r2)) & 0x80u8 != 0 { p1 | 0x40u8 } else { p1 & !0x40u8 };
            let sn: int = if n < 128 { n as int } else { n as int - 256 };
            let sm: int = if m < 128 { m as int } else { m as int - 256 };
            &&& r2 as int == (n - m - (1 - c) + 256) % 256
            &&& (q2 & 1u8 != 0) == (n - m - (1 - c) >= 0)
            &&& (q2 & 0x40u8 != 0) == (sn - sm - (1 - c) < -128 || sn - sm - (1 - c) > 127)
            &&& q2 & 0xBEu8 == p & 0xBEu8
        }) by (bit_vector);
    } else {
        assert({
            let c: u8 = if p & 1u8 != 0 { 1u8 } else { 0u8 };
            let sum: int = n + m + c;
            let r2 = (sum % 256) as u8;
            let p1: u8 = if sum > 255 { p | 1u8 } else { p & !1u8 };
            let q2: u8 = if ((n ^ r2) & (m ^ r2)) & 0x80u8 != 0 { p1 | 0x40u8 } else { p1 & !0x40u8 };
            let sn: int = if n < 128 { n as int } else { n as int - 256 };
            let sm: int = if m < 128 { m as int } else { m as int - 256 };
            &&& r2 as int == (n + m + c + 256) % 256
            &&& (q2 & 1u8 != 0) == (n + m + c > 255)
            &&& (q2 & 0x40u8 != 0) == (sn + sm + c < -128 || sn + sm + c > 127)
            &&& q2 & 0xBEu8 == p & 0xBEu8
        }) by (bit_vector);
    }
}

/// Moving the VRAM address right one tile: below coarse x 31 the address
/// just counts up; at coarse x 31, coarse x wraps to 0 and the horizontal
/// nametable select (bit 10) flips, every other bit staying.
pub proof fn law_incremented_x(v: u16)
    ensures
        v % 32 < 31 ==> incremented_x(v) == v + 1,
        v % 32 == 31 ==> {
            let w = incremented_x(v);
            &&& w % 32 == 0
            &&& (w / 0x400) % 2 != (v / 0x400) % 2
            &&& w & 0xFBE0 == v & 0xFBE0
        },
{
    let w = incremented_x(v);
    if (v & 0b11111u16) != 0b11111u16 {
        assert(v % 32 < 31 && v + 1 < 0x10000 && ((v + 1) as u16) as int == v + 1) by (bit_vector)
            requires
                (v & 0b11111u16) != 0b11111u16,
        ;
    } else {
        assert({
            let w2 = (v & 0b1_111_11_11111_00000u16) ^ 0b1_00000_00000u16;
            &&& v % 32 == 31
            &&& w2 % 32 == 0
            &&& (w2 / 0x400) % 2 != (v / 0x400) % 2
            &&& w2 & 0xFBE0u16 == v & 0xFBE0u16
        }) by (bit_vector)
            requires
                (v & 0b11111u16) == 0b11111u16,
        ;
    }
}

/// A PPUDATA access, read or write, moves the VRAM address on by 32 when
/// PPUCTRL bit 2 is set and by 1 otherwise (wrapping at 16 bits); a
/// PPUCTRL write leaves the address where it was, so its bit 2 chooses the
/// step of the accesses after it.
pub proof fn law_ppudata_steps_v(p: PPU, ctrl: u8, data: u8)
    ensures
        p.reg_write_spec(7, data).v as int == (p.v + if p.ppu_ctrl & 4 != 0 { 32int } else { 1int }) % 0x10000,
        p.reg_read_spec(7).1.v as int == (p.v + if p.ppu_ctrl & 4 != 0 { 32int } else { 1int }) % 0x10000,
        p.reg_write_spec(0, ctrl).reg_write_spec(7, data).v as int == (p.v + if ctrl & 4 != 0 {
            32int
        } else {
            1int
        }) % 0x10000,
{
}

/// PPUSCROLL: the first write (toggle clear) puts bits 7..3 of the byte in
/// coarse x (bits 0 to 4 of `t`) and bits 2..0 in fine x; the second write
/// (toggle set) puts bits 7..3 in coarse y (bits 5 to 9 of `t`) and bits
/// 2..0 in fine y (bits 12 to 14). Each keeps the rest of `t` and flips
/// the toggle.
pub proof fn law_ppuscroll_fields(p: PPU, data: u8)
    ensures
        p.w == 0 ==> {
            let q = p.reg_write_spec(5, data);
            &&& q.t % 32 == data / 8
            &&& q.t & 0xFFE0 == p.t & 0xFFE0
            &&& q.x == data % 8
            &&& q.w == 1
        },
        p.w == 1 ==> {
            let q = p.reg_write_spec(5, data);
            &&& (q.t / 32) % 32 == data / 8
            &&& (q.t / 0x1000) % 8 == data % 8
            &&& q.t & 0x8C1F == p.t & 0x8C1F
            &&& q.x == p.x
            &&& q.w == 0
        },
{
    let t = p.t;
    assert((0u8 ^ 1u8) == 1u8 && (1u8 ^ 1u8) == 0u8) by (bit_vector);
    assert({
        let t1 = (t & 0xFFE0u16) | ((data >> 3u8) as u16);
        &&& t1 % 32 == data / 8
        &&& t1 & 0xFFE0u16 == t & 0xFFE0u16
        &&& data & 0b111u8 == data % 8
    }) by (bit_vector);
    assert({
        let t2 = (t & 0x8C1Fu16) | (((data >> 3u8) as u16) << 5u16) | (((data & 0b111u8) as u16) << 12u16);
        &&& (t2 / 32) % 32 == data / 8
        &&& (t2 / 0x1000) % 8 == data % 8
        &&& t2 & 0x8C1Fu16 == t & 0x8C1Fu16
    }) by (bit_vector);
}

/// The byte of internal RAM at stack offset `sp` (address 0x100 + sp).
pub open spec fn stack_byte(c: CPU, sp: u8) -> u8 {
    c.bus.memory_handlers.ram.ram@[0x100 + sp]
}

/// BRK over its six execute steps, entered with pc at the byte after the
/// opcode: it skips the padding byte, pushes the return address (the
/// opcode's address plus two), high byte first, then the status with B
/// set, sets I and jumps through the vector at 0xFFFE (low byte first);
/// only the last step ends the instruction. The stack pointer moves down
/// three bytes (wrapping) and the other registers stay.
pub proof fn law_brk_sequence(c: CPU)
    requires
        c.software_interrupt,
        c.store.vector == IRQ_VECTOR,
    ensures
        ({
            let (d0, c1) = c.brk_spec(0);
            let (d1, c2) = c1.brk_spec(1);
            let (d2, c3) = c2.brk_spec(2);
            let (d3, c4) = c3.brk_spec(3);
            let (d4, c5) = c4.brk_spec(4);
            let (d5, c6) = c5.brk_spec(5);
            let ret = add16(c.pc, 1);
            let s = c.sp;
            &&& !d0 && !d1 && !d2 && !d3 && !d4 && d5
            &&& stack_byte(c6, s) == (ret / 256) as u8
            &&& stack_byte(c6, sub8(s, 1)) == (ret % 256) as u8
            &&& stack_byte(c6, sub8(sub8(s, 1), 1)) == c.p | BREAK
            &&& c6.sp == sub8(sub8(sub8(s, 1), 1), 1)
            &&& c6.p == c.p | INTERRUPT_DISABLE
            &&& c6.pc == word(
                c.bus.memory_handlers.prg_rom.read_spec(0xFFFE),
                c.bus.memory_handlers.prg_rom.read_spec(0xFFFF),
            )
            &&& c6.a == c.a && c6.x == c.x && c6.y == c.y
            &&& !c6.software_interrupt && !c6.servicing_interrupt
        }),
{
    let (d0, c1) = c.brk_spec(0);
    let (d1, c2) = c1.brk_spec(1);
    let (d2, c3) = c2.brk_spec(2);
    let (d3, c4) = c3.brk_spec(3);
    let (d4, c5) = c4.brk_spec(4);
    let (d5, c6) = c5.brk_spec(5);
    let ret = add16(c.pc, 1);
    let s = c.sp;
    lemma_read_keeps_memory(c.bus, c.pc);
    assert(c1.pc == ret && c1.sp == s && c1.p == c.p && c1.store.vector == IRQ_VECTOR);
    assert(c1.bus.memory_handlers.ram == c.bus.memory_handlers.ram);
    lemma_stack_write(c1.bus, s, (ret / 256) as u8);
    lemma_stack_write(c2.bus, sub8(s, 1), (ret % 256) as u8);
    lemma_stack_write(c3.bus, sub8(sub8(s, 1), 1), c.p | BREAK);
    assert(c4.sp == sub8(sub8(sub8(s, 1), 1), 1) && c4.pc == ret && c4.store.vector == IRQ_VECTOR);
    let c4a = CPU { p: c4.p | INTERRUPT_DISABLE, irq_pending: if c4.hijacked { false } else { c4.irq_pending }, ..c4 };
    lemma_read_keeps_memory(c4a.bus, 0xFFFE);
    assert(c5.store.lo == c.bus.memory_handlers.prg_rom.read_spec(0xFFFE));
    lemma_read_keeps_memory(c5.bus, 0xFFFF);
    assert(c5.bus.memory_handlers.ram == c4.bus.memory_handlers.ram);
    assert(c6.bus.memory_handlers.ram == c4.bus.memory_handlers.ram);
    assert(sub8(s, 1) != s && sub8(sub8(s, 1), 1) != s && sub8(sub8(s, 1), 1) != sub8(s, 1));
}

/// A read through the bus leaves internal RAM and PRG ROM as they were,
/// and a read of 0x8000 or above gives the PRG ROM byte.
proof fn lemma_read_keeps_memory(b: Bus, addr: u16)
    ensures
        b.read_spec(addr).1.memory_handlers.ram == b.memory_handlers.ram,
        b.read_spec(addr).1.memory_handlers.prg_rom == b.memory_handlers.prg_rom,
        addr >= 0x8000 ==> b.read_spec(addr).0 == b.memory_handlers.prg_rom.read_spec(addr),
{
    reveal(Bus::read_spec);
}

/// A write to stack address 0x100 + `sp` stores `data` at that RAM byte
/// and leaves PRG ROM as it was.
proof fn lemma_stack_write(b: Bus, sp: u8, data: u8)
    ensures
        b.write_spec((0x100 + sp) as u16, data).memory_handlers.ram.ram@ == b.memory_handlers.ram.ram@.update(
            0x100 + sp,
            data,
        ),
        b.write_spec((0x100 + sp) as u16, data).memory_handlers.prg_rom == b.memory_handlers.prg_rom,
{
    reveal(Bus::write_spec);
    assert(((0x100 + sp) as u16) as int % 0x800 == 0x100 + sp);
}

/// Fine y scroll of a VRAM address (bits 12 to 14).
pub open spec fn fine_y(v: u16) -> int {
    (v / 0x1000) as int % 8
}

/// Coarse y scroll, the tile row (bits 5 to 9).
pub open spec fn coarse_y(v: u16) -> int {
    (v / 32) as int % 32
}

/// The vertical nametable select (bit 11).
pub open spec fn nametable_y(v: u16) -> int {
    (v / 0x800) as int % 2
}

/// Moving the VRAM address down one pixel row: below fine y 7 only fine y
/// counts up; from fine y 7 it restarts at 0 and coarse y moves down a
/// tile row, where row 29 (the last of a nametable) wraps to 0 and
/// switches to the other vertical nametable, and row 31 wraps to 0 without
/// switching. Coarse x, the horizontal nametable and bit 15 stay.
pub proof fn law_incremented_y(v: u16)
    ensures
        fine_y(v) < 7 ==> incremented_y(v) == v + 0x1000,
        fine_y(v) == 7 ==> {
            let w = incremented_y(v);
            &&& fine_y(w) == 0
            &&& coarse_y(w) == if coarse_y(v) == 29 || coarse_y(v) == 31 { 0 } else { coarse_y(v) + 1 }
            &&& nametable_y(w) == if coarse_y(v) == 29 { 1 - nametable_y(v) } else { nametable_y(v) }
            &&& w % 32 == v % 32
            &&& (w / 0x400) % 2 == (v / 0x400) % 2
            &&& w / 0x8000 == v / 0x8000
        },
{
    let w = incremented_y(v);
    let v1 = v & 0b1_000_11_11111_11111u16;
    let cy = (v1 & 0b11111_00000u16) >> 5u16;
    assert(fine_y(v) == 7 <==> (v & 0b111_00_00000_00000u16) == 0b111_00_00000_00000u16) by (bit_vector);
    assert(coarse_y(v) == cy as int && cy < 32) by (bit_vector)
        requires
            v1 == v & 0b1_000_11_11111_11111u16,
            cy == (v1 & 0b11111_00000u16) >> 5u16,
    ;
    if fine_y(v) < 7 {
        assert(v + 0x1000 < 0x10000 && ((v + 0b1_00_00000_00000u16) as u16) as int == v + 0x1000) by (bit_vector)
            requires
                (v & 0b111_00_00000_00000u16) != 0b111_00_00000_00000u16,
        ;
    } else if cy == 0b11101 {
        assert(w == ((v1 ^ 0b10_00000_00000u16) & 0b1_111_11_00000_11111u16) | (0u16 << 5u16));
        assert({
            let w2 = ((v1 ^ 0b10_00000_00000u16) & 0b1_111_11_00000_11111u16) | (0u16 << 5u16);
            &&& fine_y(w2) == 0
            &&& coarse_y(w2) == 0
            &&& nametable_y(w2) == 1 - nametable_y(v)
            &&& w2 % 32 == v % 32
            &&& (w2 / 0x400) % 2 == (v / 0x400) % 2
            &&& w2 / 0x8000 == v / 0x8000
        }) by (bit_vector)
            requires
                v1 == v & 0b1_000_11_11111_11111u16,
        ;
    } else if cy == 0b11111 {
        assert(w == (v1 & 0b1_111_11_00000_11111u16) | (0u16 << 5u16));
        assert({
            let w2 = (v1 & 0b1_111_11_00000_11111u16) | (0u16 << 5u16);
            &&& fine_y(w2) == 0
            &&& coarse_y(w2) == 0
            &&& nametable_y(w2) == nametable_y(v)
            &&& w2 % 32 == v % 32
            &&& (w2 / 0x400) % 2 == (v / 0x400) % 2
            &&& w2 / 0x8000 == v / 0x8000
        }) by (bit_vector)
            requires
                v1 == v & 0b1_000_11_11111_11111u16,
        ;
    } else {
        assert(w == (v1 & 0b1_111_11_00000_11111u16) | (((cy + 1) as u16) << 5u16));
        assert({
            let w2 = (v1 & 0b1_111_11_00000_11111u16) | (((cy + 1) as u16) << 5u16);
            &&& fine_y(w2) == 0
            &&& coarse_y(w2) == cy + 1
            &&& nametable_y(w2) == nametable_y(v)
            &&& w2 % 32 == v % 32
            &&& (w2 / 0x400) % 2 == (v / 0x400) % 2
            &&& w2 / 0x8000 == v / 0x8000
        }) by (bit_vector)
            requires
                v1 == v & 0b1_000_11_11111_11111u16,
                cy == (v1 & 0b11111_00000u16) >> 5u16,
                cy != 0b11111u16,
        ;
    }
}

} // verus!
