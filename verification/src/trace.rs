//! The instruction-level trace: the instruction at the console's pc,
//! decoded from memory by peeking, with the registers, in the fields a
//! nestest-style log line is printed from (without the PPU position and
//! cycle count).
use crate::nnes::console::NNES;
use crate::nnes::cpu::opcodes::execute::indirect_hi_addr;
use crate::nnes::cpu::opcodes::{opcode_spec, opcodes_list, AddressingMode, ExecuteFn, OpCode};
use crate::nnes::cpu::trace::text::{format_trace, trace_text};
use crate::nnes::cpu::trace::TraceLine;
use crate::nnes::cpu::{add16, add8, word};
use crate::utils::{hi_byte, lemma_join_bytes, lo_byte};
use vstd::prelude::*;

verus! {

/// The table entry of the opcode at the console's pc.
pub open spec fn traced_entry(n: NNES) -> OpCode {
    opcode_spec(n.value_at(n.cpu.pc))->Some_0
}

/// The operand fields of the instruction at pc: (lo, hi, value, addr,
/// pointer), as [`TraceLine`] names them.
pub open spec fn trace_operands(n: NNES) -> (u8, u8, u8, u16, u16) {
    let pc = n.cpu.pc;
    let op = traced_entry(n);
    let lo = n.value_at(add16(pc, 1));
    let hi = n.value_at(add16(pc, 2));
    let base = word(lo, hi);
    match op.mode {
        AddressingMode::IMP | AddressingMode::ACC => (0, 0, 0, 0, 0),
        AddressingMode::IMM => (lo, 0, 0, 0, 0),
        AddressingMode::ZPG => (lo, 0, n.value_at(lo as u16), 0, 0),
        AddressingMode::ZPX | AddressingMode::ZPY => {
            let index = if op.mode == AddressingMode::ZPX { n.cpu.x } else { n.cpu.y };
            let addr = add8(lo, index) as u16;
            (lo, 0, n.value_at(addr), addr, 0)
        },
        AddressingMode::ABS => if op.execute_fn == ExecuteFn::Jmp || op.execute_fn == ExecuteFn::Jsr {
            (lo, hi, 0, base, 0)
        } else {
            (lo, hi, n.value_at(base), base, 0)
        },
        AddressingMode::ABX | AddressingMode::ABY => {
            let index = if op.mode == AddressingMode::ABX { n.cpu.x } else { n.cpu.y };
            let addr = add16(base, index as u16);
            (lo, hi, n.value_at(addr), addr, base)
        },
        AddressingMode::REL => (lo, 0, 0, ((pc as int + (lo as i8) as int + 2 + 0x10000) % 0x10000) as u16, 0),
        AddressingMode::IND => (lo, hi, 0, word(n.value_at(base), n.value_at(indirect_hi_addr(base))), base),
        AddressingMode::INX => {
            let ptr = add8(lo, n.cpu.x);
            let addr = word(n.value_at(ptr as u16), n.value_at(add8(ptr, 1) as u16));
            (lo, 0, n.value_at(addr), addr, ptr as u16)
        },
        AddressingMode::INY => {
            let ptr = word(n.value_at(lo as u16), n.value_at(add8(lo, 1) as u16));
            let addr = add16(ptr, n.cpu.y as u16);
            (lo, 0, n.value_at(addr), addr, ptr)
        },
    }
}

/// Every address the trace of the instruction at pc looks at is readable
/// (see [`NNES::readable`]): the opcode, the operand bytes the mode has, and the addresses
/// its operand leads to (JMP and JSR absolute look at no value).
pub open spec fn trace_reads_ok(n: NNES) -> bool {
    let pc = n.cpu.pc;
    let op = traced_entry(n);
    let lo = n.value_at(add16(pc, 1));
    let hi = n.value_at(add16(pc, 2));
    let base = word(lo, hi);
    &&& n.readable(pc)
    &&& match op.mode {
        AddressingMode::IMP | AddressingMode::ACC => true,
        AddressingMode::IMM | AddressingMode::REL => n.readable(add16(pc, 1)),
        AddressingMode::ZPG => n.readable(add16(pc, 1)) && n.readable(lo as u16),
        AddressingMode::ZPX => n.readable(add16(pc, 1)) && n.readable(add8(lo, n.cpu.x) as u16),
        AddressingMode::ZPY => n.readable(add16(pc, 1)) && n.readable(add8(lo, n.cpu.y) as u16),
        AddressingMode::ABS => n.readable(add16(pc, 1)) && n.readable(add16(pc, 2)) && (op.execute_fn == ExecuteFn::Jmp
            || op.execute_fn == ExecuteFn::Jsr || n.readable(base)),
        AddressingMode::ABX => n.readable(add16(pc, 1)) && n.readable(add16(pc, 2)) && n.readable(
            add16(base, n.cpu.x as u16),
        ),
        AddressingMode::ABY => n.readable(add16(pc, 1)) && n.readable(add16(pc, 2)) && n.readable(
            add16(base, n.cpu.y as u16),
        ),
        AddressingMode::IND => n.readable(add16(pc, 1)) && n.readable(add16(pc, 2)) && n.readable(base) && n.readable(
            indirect_hi_addr(base),
        ),
        AddressingMode::INX => {
            let ptr = add8(lo, n.cpu.x);
            &&& n.readable(add16(pc, 1)) && n.readable(ptr as u16) && n.readable(add8(ptr, 1) as u16)
            &&& n.readable(word(n.value_at(ptr as u16), n.value_at(add8(ptr, 1) as u16)))
        },
        AddressingMode::INY => {
            let ptr = word(n.value_at(lo as u16), n.value_at(add8(lo, 1) as u16));
            &&& n.readable(add16(pc, 1)) && n.readable(lo as u16) && n.readable(add8(lo, 1) as u16)
            &&& n.readable(add16(ptr, n.cpu.y as u16))
        },
    }
}

/// The trace line of the instruction at pc.
pub open spec fn trace_line(n: NNES) -> TraceLine {
    let op = traced_entry(n);
    let (lo, hi, value, addr, pointer) = trace_operands(n);
    TraceLine {
        pc: n.cpu.pc,
        code: op.code,
        name: op.name,
        mode: op.mode,
        bytes: op.bytes,
        lo: lo,
        hi: hi,
        value: value,
        addr: addr,
        pointer: pointer,
        a: n.cpu.a,
        x: n.cpu.x,
        y: n.cpu.y,
        p: n.cpu.p,
        sp: n.cpu.sp,
        ppu_scanline: n.cpu.bus.ppu().scanline,
        ppu_cycle: n.cpu.bus.ppu().cycle,
        total_ticks: n.cpu.total_ticks,
    }
}

/// Decodes the instruction at pc for a log line, looking at memory only
/// through side-effect-free peeks.
pub fn trace(nnes: &mut NNES) -> (t: TraceLine)
    requires
        old(nnes).inv(),
        opcode_spec(old(nnes).value_at(old(nnes).cpu.pc)) is Some,
        trace_reads_ok(*old(nnes)),
    ensures
        *final(nnes) == *old(nnes),
        t == trace_line(*old(nnes)),
{
    let pc: u16 = nnes.get_program_counter();
    let code: u8 = nnes.memory_read_u8(pc);
    let opcode = opcodes_list(code).unwrap();
    let (lo, hi, value, addr, pointer) = trace_fields(nnes, opcode);
    let ppu = nnes.ppu();
    TraceLine {
        pc,
        code: opcode.code,
        name: opcode.name,
        mode: opcode.mode,
        bytes: opcode.bytes,
        lo,
        hi,
        value,
        addr,
        pointer,
        a: nnes.cpu.a,
        x: nnes.cpu.x,
        y: nnes.cpu.y,
        p: nnes.get_flags(),
        sp: nnes.get_stack_pointer(),
        ppu_scanline: ppu.scanline,
        ppu_cycle: ppu.cycle,
        total_ticks: nnes.cpu.total_ticks,
    }
}

#[verifier::rlimit(40)]
fn trace_fields(nnes: &NNES, opcode: OpCode) -> (r: (u8, u8, u8, u16, u16))
    requires
        nnes.inv(),
        opcode_spec(nnes.value_at(nnes.cpu.pc)) is Some,
        trace_reads_ok(*nnes),
        opcode == traced_entry(*nnes),
    ensures
        r == trace_operands(*nnes),
{
    let pc: u16 = nnes.get_program_counter();
    let byte1: u8 = if opcode.mode == AddressingMode::IMP || opcode.mode == AddressingMode::ACC {
        0
    } else {
        nnes.memory_read_u8(pc.wrapping_add(1))
    };
    let byte2: u8 = if opcode.mode == AddressingMode::ABS || opcode.mode == AddressingMode::ABX || opcode.mode
        == AddressingMode::ABY || opcode.mode == AddressingMode::IND {
        nnes.memory_read_u8(pc.wrapping_add(2))
    } else {
        0
    };
    proof {
        lemma_join_bytes(byte1, byte2);
    }
    let base: u16 = ((byte2 as u16) << 8) | (byte1 as u16);
    match opcode.mode {
        AddressingMode::IMP | AddressingMode::ACC => (0, 0, 0, 0, 0),
        AddressingMode::IMM => (byte1, 0, 0, 0, 0),
        AddressingMode::ZPG => (byte1, 0, nnes.memory_read_u8(byte1 as u16), 0, 0),
        AddressingMode::ZPX | AddressingMode::ZPY => {
            let index = if opcode.mode == AddressingMode::ZPX { nnes.cpu.x } else { nnes.cpu.y };
            let zp_addr: u8 = byte1.wrapping_add(index);
            (byte1, 0, nnes.memory_read_u8(zp_addr as u16), zp_addr as u16, 0)
        },
        AddressingMode::ABS => {
            if opcode.execute_fn != ExecuteFn::Jmp && opcode.execute_fn != ExecuteFn::Jsr {
                (byte1, byte2, nnes.memory_read_u8(base), base, 0)
            } else {
                (byte1, byte2, 0, base, 0)
            }
        },
        AddressingMode::ABX | AddressingMode::ABY => {
            let index = if opcode.mode == AddressingMode::ABX { nnes.cpu.x } else { nnes.cpu.y };
            let addr: u16 = base.wrapping_add(index as u16);
            (byte1, byte2, nnes.memory_read_u8(addr), addr, base)
        },
        AddressingMode::REL => {
            let offset: i8 = byte1 as i8;
            proof {
                let pc0 = pc;
                let o = offset;
                assert(vstd::wrapping::u16_specs::wrapping_add(vstd::wrapping::u16_specs::wrapping_add(pc0, 2),
                    (o as i16) as u16) == ((pc0 as int + o as int + 2 + 0x10000) % 0x10000) as u16) by (bit_vector);
            }
            (byte1, 0, 0, pc.wrapping_add(2).wrapping_add(offset as i16 as u16), 0)
        },
        AddressingMode::IND => {
            let addrl: u8 = nnes.memory_read_u8(base);
            let hi_addr: u16 = crate::nnes::cpu::le_word(lo_byte(base).wrapping_add(1), hi_byte(base));
            let addrh: u8 = nnes.memory_read_u8(hi_addr);
            proof {
                lemma_join_bytes(addrl, addrh);
            }
            (byte1, byte2, 0, ((addrh as u16) << 8) | (addrl as u16), base)
        },
        AddressingMode::INX => {
            let indirect: u8 = byte1.wrapping_add(nnes.cpu.x);
            let addrl: u8 = nnes.memory_read_u8(indirect as u16);
            let addrh: u8 = nnes.memory_read_u8(indirect.wrapping_add(1) as u16);
            proof {
                lemma_join_bytes(addrl, addrh);
            }
            let addr: u16 = ((addrh as u16) << 8) | (addrl as u16);
            (byte1, 0, nnes.memory_read_u8(addr), addr, indirect as u16)
        },
        AddressingMode::INY => {
            let addrl: u8 = nnes.memory_read_u8(byte1 as u16);
            let addrh: u8 = nnes.memory_read_u8(byte1.wrapping_add(1) as u16);
            proof {
                lemma_join_bytes(addrl, addrh);
            }
            let addr: u16 = ((addrh as u16) << 8) | (addrl as u16);
            let indexed: u16 = addr.wrapping_add(nnes.cpu.y as u16);
            (byte1, 0, nnes.memory_read_u8(indexed), indexed, addr)
        },
    }
}

/// The log line of the instruction at pc: the text of [`trace`]'s fields,
/// registers last.
pub fn trace_log_line(nnes: &mut NNES) -> (s: Vec<u8>)
    requires
        old(nnes).inv(),
        opcode_spec(old(nnes).value_at(old(nnes).cpu.pc)) is Some,
        trace_reads_ok(*old(nnes)),
    ensures
        *final(nnes) == *old(nnes),
        s@ == trace_text(trace_line(*old(nnes)), false),
{
    let t = trace(nnes);
    format_trace(&t, false)
}

} // verus!
