use nnes::cartridge::Cartridge;
use nnes::nnes::cpu::bus::Bus;
use nnes::nnes::cpu::opcodes::AddressingMode;
use nnes::nnes::cpu::trace::text::format_trace;
use nnes::nnes::cpu::trace::TraceLine;
use nnes::nnes::cpu::CPU;
use nnes::nnes::ppu::PPU;

fn text(bytes: Vec<u8>) -> String {
    String::from_utf8(bytes).unwrap()
}

fn line(mode: AddressingMode, code: u8, name: &'static str, bytes: u8) -> TraceLine {
    TraceLine {
        pc: 0xC000,
        code,
        name,
        mode,
        bytes,
        lo: 0,
        hi: 0,
        value: 0,
        addr: 0,
        pointer: 0,
        a: 0,
        x: 0,
        y: 0,
        p: 0x24,
        sp: 0xFD,
        ppu_scanline: 0,
        ppu_cycle: 0,
        total_ticks: 7,
    }
}

#[test]
fn jmp_indirect_line_reads_the_pointer_within_its_page() {
    let mut prg = vec![0u8; 0x4000];
    prg[0x0000] = 0x12;
    prg[0x0010..0x0013].copy_from_slice(&[0x6C, 0xFF, 0x80]);
    prg[0x00FF] = 0x34;
    prg[0x0100] = 0x56;
    prg[0x3FFC] = 0x10;
    prg[0x3FFD] = 0x80;
    let mut rom = vec![0x4E, 0x45, 0x53, 0x1A, 1, 1, 0, 0, 0, 0, 0, 0, 0, 0, 0, 0];
    rom.extend_from_slice(&prg);
    rom.extend_from_slice(&vec![0u8; 0x2000]);
    let cart = Cartridge::new(&rom);
    let mut cpu = CPU::new(Bus::new(PPU::new(&cart), &cart));
    cpu.reset();
    let t = cpu.trace();
    let expected = format!(
        "8010  6C FF 80  JMP ($80FF) = 1234{}A:00 X:00 Y:00 P:24 SP:FD PPU:  0,  0 CYC:7",
        " ".repeat(14)
    );
    assert_eq!(text(format_trace(&t, true)), expected);
    assert_eq!(text(cpu.log_line()), expected);
}

#[test]
fn implied_line_pads_the_disassembly_column() {
    let t = line(AddressingMode::IMP, 0xEA, "NOP", 1);
    let expected = format!("C000  EA        NOP {}A:00 X:00 Y:00 P:24 SP:FD", " ".repeat(28));
    assert_eq!(text(format_trace(&t, false)), expected);
}

#[test]
fn immediate_line_shows_the_operand_byte() {
    let mut t = line(AddressingMode::IMM, 0xA9, "LDA", 2);
    t.lo = 0x0A;
    t.ppu_scanline = 241;
    t.ppu_cycle = 21;
    t.total_ticks = 123456;
    let expected = format!(
        "C000  A9 0A     LDA #$0A{}A:00 X:00 Y:00 P:24 SP:FD PPU:241, 21 CYC:123456",
        " ".repeat(24)
    );
    assert_eq!(text(format_trace(&t, true)), expected);
}

#[test]
fn absolute_jump_shows_no_value() {
    let mut t = line(AddressingMode::ABS, 0x4C, "JMP", 3);
    t.lo = 0xF5;
    t.hi = 0xC5;
    t.addr = 0xC5F5;
    let expected = format!("C000  4C F5 C5  JMP $C5F5 {}A:00 X:00 Y:00 P:24 SP:FD", " ".repeat(22));
    assert_eq!(text(format_trace(&t, false)), expected);
}

#[test]
fn indirect_y_line_shows_pointer_address_and_value() {
    let mut t = line(AddressingMode::INY, 0xB1, "LDA", 2);
    t.lo = 0x89;
    t.pointer = 0x0300;
    t.addr = 0x0300;
    t.value = 0x89;
    t.a = 0xFF;
    let expected = "C000  B1 89     LDA ($89),Y = 0300 @ 0300 = 89  A:FF X:00 Y:00 P:24 SP:FD";
    assert_eq!(text(format_trace(&t, false)), expected);
}

#[test]
fn zero_page_indexed_line_shows_the_wrapped_address() {
    let mut t = line(AddressingMode::ZPX, 0xB5, "LDA", 2);
    t.lo = 0xFF;
    t.addr = 0x0F;
    t.value = 0xAB;
    t.x = 0x10;
    let expected = format!("C000  B5 FF     LDA $FF,X @ 0F = AB{}A:00 X:10 Y:00 P:24 SP:FD", " ".repeat(13));
    assert_eq!(text(format_trace(&t, false)), expected);
}
