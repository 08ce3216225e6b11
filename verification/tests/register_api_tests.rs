use nnes::cartridge::Cartridge;
use nnes::nnes::bus::Bus;
use nnes::nnes::flags::Flag;
use nnes::nnes::memory::AddressingMode;
use nnes::nnes::opcodes::OpCode;
use nnes::nnes::registers::Register;
use nnes::nnes::rom::{Mirroring, Rom};
use nnes::nnes::NNES;

fn image(program: &[u8]) -> Vec<u8> {
    let mut rom = vec![0x4E, 0x45, 0x53, 0x1A, 1, 1, 0, 0, 0, 0, 0, 0, 0, 0, 0, 0];
    let mut prg = vec![0u8; 0x4000];
    prg[..program.len()].copy_from_slice(program);
    prg[0x3FFC] = 0x00;
    prg[0x3FFD] = 0x80;
    rom.extend_from_slice(&prg);
    rom.extend_from_slice(&vec![0u8; 0x2000]);
    rom
}

fn console(program: &[u8]) -> NNES {
    let mut nnes = NNES::new(Cartridge::new(&image(program)));
    nnes.reset();
    nnes
}

#[test]
fn registers_read_back() {
    let mut nnes = console(&[]);
    nnes.set_program_counter(0x1234);
    nnes.set_stack_pointer(0x80);
    nnes.set_register(Register::Accumulator, 1);
    nnes.set_register(Register::XIndex, 2);
    nnes.set_register(Register::YIndex, 3);
    assert_eq!(nnes.get_program_counter(), 0x1234);
    assert_eq!(nnes.get_stack_pointer(), 0x80);
    assert_eq!(nnes.get_register(Register::Accumulator), 1);
    assert_eq!(nnes.get_register(Register::XIndex), 2);
    assert_eq!(nnes.get_register(Register::YIndex), 3);
    nnes.reset_registers();
    assert_eq!(nnes.cpu.a + nnes.cpu.x + nnes.cpu.y, 0);
}

#[test]
fn flags_set_and_clear() {
    let mut nnes = console(&[]);
    nnes.set_flags(0);
    nnes.set_flag(Flag::Carry, true);
    nnes.set_flag(Flag::Negative, true);
    assert_eq!(nnes.get_flags(), 0b1000_0001);
    assert!(nnes.get_flag(Flag::Carry));
    assert!(!nnes.get_flag(Flag::Zero));
    nnes.set_flag(Flag::Carry, false);
    assert_eq!(nnes.get_flags(), 0b1000_0000);
    nnes.update_op_flags(0);
    assert_eq!(nnes.get_flags(), 0b0000_0010);
    nnes.update_op_flags(0x80);
    assert_eq!(nnes.get_flags(), 0b1000_0000);
    nnes.reset_flags();
    assert_eq!(nnes.get_flags(), 0);
}

#[test]
fn stack_words_round_trip() {
    let mut nnes = console(&[]);
    nnes.set_stack_pointer(0xFF);
    nnes.stack_push_u16(0xBEEF);
    assert_eq!(nnes.get_stack_pointer(), 0xFD);
    assert_eq!(nnes.memory_read_u8(0x01FF), 0xBE);
    assert_eq!(nnes.memory_read_u8(0x01FE), 0xEF);
    assert_eq!(nnes.stack_pop_u16(), 0xBEEF);
    assert_eq!(nnes.get_stack_pointer(), 0xFF);
    // The stack pointer wraps at both ends.
    nnes.set_stack_pointer(0);
    nnes.stack_push_u8(7);
    assert_eq!(nnes.get_stack_pointer(), 0xFF);
    assert_eq!(nnes.stack_pop_u8(), 7);
    assert_eq!(nnes.get_stack_pointer(), 0);
}

#[test]
fn operands_per_addressing_mode() {
    // Operand bytes at 0x8000: 0x10, 0x20, 0x30
    let mut nnes = console(&[0x10, 0x20, 0x30]);
    nnes.set_register(Register::XIndex, 0xF5);
    nnes.set_register(Register::YIndex, 2);
    assert_eq!(nnes.get_operand(AddressingMode::Immediate), 0x10);
    assert_eq!(nnes.get_program_counter(), 0x8001);
    nnes.set_program_counter(0x8000);
    assert_eq!(nnes.get_operand(AddressingMode::ZeroPageX), 0x05);
    nnes.set_program_counter(0x8000);
    assert_eq!(nnes.get_operand(AddressingMode::Absolute), 0x2010);
    assert_eq!(nnes.get_program_counter(), 0x8002);
    nnes.set_program_counter(0x8000);
    assert_eq!(nnes.get_operand(AddressingMode::AbsoluteY), 0x2012);
    // (indirect),Y: pointer at $10/$11.
    nnes.memory_write_u8(0x0010, 0x00);
    nnes.memory_write_u8(0x0011, 0x03);
    nnes.set_program_counter(0x8000);
    assert_eq!(nnes.get_operand(AddressingMode::IndirectY), 0x0302);
    nnes.set_program_counter(0x8000);
    assert_eq!(nnes.get_operand(AddressingMode::Indirect), 0);
    assert_eq!(nnes.get_program_counter(), 0x8001);
    nnes.set_program_counter(0x8000);
    assert_eq!(nnes.get_operand(AddressingMode::Implied), 0);
    assert_eq!(nnes.get_program_counter(), 0x8000);
}

#[test]
fn instruction_handlers() {
    let mut nnes = console(&[0x00, 0x44]);
    nnes.memory_write_u8(0x0044, 0x80);
    nnes.set_program_counter(0x8001);
    nnes.handle_lda(AddressingMode::ZeroPage);
    assert_eq!(nnes.get_register(Register::Accumulator), 0x80);
    assert!(nnes.get_flag(Flag::Negative));
    nnes.handle_tax();
    assert_eq!(nnes.get_register(Register::XIndex), 0x80);
    nnes.handle_inx();
    assert_eq!(nnes.get_register(Register::XIndex), 0x81);
    nnes.set_register(Register::XIndex, 0xFF);
    nnes.handle_inx();
    assert_eq!(nnes.get_register(Register::XIndex), 0);
    assert!(nnes.get_flag(Flag::Zero));
    nnes.handle_sec();
    assert!(nnes.get_flag(Flag::Carry));
    nnes.handle_clc();
    assert!(!nnes.get_flag(Flag::Carry));
    nnes.handle_brk();
    assert!(nnes.get_flag(Flag::Break));
    nnes.handle_pha();
    nnes.set_register(Register::Accumulator, 0);
    nnes.handle_pla();
    assert_eq!(nnes.get_register(Register::Accumulator), 0x80);
    nnes.set_program_counter(0x8001);
    nnes.handle_sta(AddressingMode::ZeroPage);
    assert_eq!(nnes.memory_read_u8(0x0044), 0x80);
    let op = OpCode::new(0xA9, "LDA".to_string(), 2, 2, AddressingMode::Immediate);
    assert!(op.get_addressing_mode() == AddressingMode::Immediate);
}

#[test]
fn reset_nnes_clears_registers_and_ram() {
    let mut nnes = console(&[]);
    nnes.memory_write_u8(0x0123, 9);
    nnes.set_register(Register::YIndex, 4);
    nnes.reset_nnes();
    assert_eq!(nnes.get_program_counter(), 0);
    assert_eq!(nnes.get_stack_pointer(), 0);
    assert_eq!(nnes.get_register(Register::YIndex), 0);
    assert_eq!(nnes.get_flags(), 0);
    assert_eq!(nnes.memory_read_u8(0x0123), 0);
}

#[test]
fn rom_reader_sections_and_errors() {
    let mut raw = image(&[0x11]);
    raw[6] = 0b0000_1001;
    raw[7] = 0x20;
    let rom = Rom::new(&raw).ok().unwrap();
    assert_eq!(rom.get_prg_rom_length(), 0x4000);
    assert_eq!(rom.read_prg_rom(0), 0x11);
    assert_eq!(rom.chr_rom.len(), 0x2000);
    assert_eq!(rom.mapper, 0x20);
    assert!(rom.screen_mirroring == Mirroring::FourScreen);
    let mut bad = image(&[]);
    bad[0] = 0;
    assert_eq!(Rom::new(&bad).err(), Some("File not in iNES format".to_string()));
    let mut nes2 = image(&[]);
    nes2[7] = 0x08;
    assert_eq!(Rom::new(&nes2).err(), Some("NES2.0 is not supported yet".to_string()));
}

#[test]
fn flat_bus_reads_ram_and_mirrored_rom() {
    let rom = Rom::new(&image(&[0xAB, 0xCD])).ok().unwrap();
    let mut bus = Bus::new(rom);
    bus.memory_write_u16(0x0800, 0x1234);
    assert_eq!(bus.memory_read_u8(0x0000), 0x34);
    assert_eq!(bus.memory_read_u16(0x1000), 0x1234);
    assert_eq!(bus.memory_read_u16(0x8000), 0xCDAB);
    assert_eq!(bus.memory_read_u16(0xC000), 0xCDAB);
}

#[test]
fn instruction_trace_fields() {
    let mut nnes = console(&[0xBD, 0x34, 0x12]);
    nnes.set_register(Register::XIndex, 0x10);
    nnes.memory_write_u8(0x0244, 0x77);
    let t = nnes::trace::trace(&mut nnes);
    assert_eq!(t.pc, 0x8000);
    assert_eq!(t.code, 0xBD);
    assert_eq!(t.name, "LDA");
    assert_eq!((t.lo, t.hi), (0x34, 0x12));
    assert_eq!(t.pointer, 0x1234);
    assert_eq!(t.addr, 0x1244);
    // 0x1244 mirrors RAM byte 0x244.
    assert_eq!(t.value, 0x77);
    assert_eq!(t.x, 0x10);
    assert_eq!(nnes.get_program_counter(), 0x8000);
}

#[test]
fn jmp_indirect_pointer_wraps_within_its_page() {
    // JMP ($02FF): the target's high byte comes from $0200, not $0300.
    let mut nnes = console(&[0x6C, 0xFF, 0x02]);
    nnes.memory_write_u8(0x02FF, 0x34);
    nnes.memory_write_u8(0x0200, 0x12);
    nnes.memory_write_u8(0x0300, 0x99);
    let t = nnes::trace::trace(&mut nnes);
    assert_eq!(t.addr, 0x1234);
    let line = String::from_utf8(nnes::trace::trace_log_line(&mut nnes)).unwrap();
    assert_eq!(line, format!("8000  6C FF 02  JMP ($02FF) = 1234{}A:00 X:00 Y:00 P:24 SP:FD", " ".repeat(14)));
    let t2 = nnes.cpu.trace();
    assert_eq!(t2.addr, 0x1234);
    assert_eq!(t2.pointer, 0x02FF);
    // Running the instruction jumps there.
    while nnes.cpu.total_ticks < 7 + 5 {
        assert!(nnes.try_tick().is_some());
    }
    assert_eq!(nnes.cpu.pc, 0x1234);
}

#[test]
fn loads_and_pull_set_zero_and_negative() {
    // Operand bytes at 0x8000: 0x00, 0x80
    let mut nnes = console(&[0x00, 0x80]);
    nnes.handle_ldx(AddressingMode::Immediate);
    assert_eq!(nnes.get_register(Register::XIndex), 0);
    assert!(nnes.get_flag(Flag::Zero));
    assert!(!nnes.get_flag(Flag::Negative));
    nnes.handle_ldy(AddressingMode::Immediate);
    assert_eq!(nnes.get_register(Register::YIndex), 0x80);
    assert!(!nnes.get_flag(Flag::Zero));
    assert!(nnes.get_flag(Flag::Negative));
    nnes.set_register(Register::Accumulator, 0);
    nnes.handle_pha();
    nnes.set_register(Register::Accumulator, 0x55);
    nnes.handle_pla();
    assert_eq!(nnes.get_register(Register::Accumulator), 0);
    assert!(nnes.get_flag(Flag::Zero));
    assert!(!nnes.get_flag(Flag::Negative));
}

#[test]
fn txs_changes_no_flag() {
    let mut nnes = console(&[]);
    nnes.set_register(Register::XIndex, 0);
    let flags = nnes.get_flags();
    nnes.handle_txs();
    assert_eq!(nnes.get_stack_pointer(), 0);
    assert_eq!(nnes.get_flags(), flags);
    assert!(!nnes.get_flag(Flag::Zero));
}
