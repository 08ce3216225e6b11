use nnes::cartridge::{validate_rom, Cartridge, Mirroring};
use nnes::controller::Joypad;
use nnes::nnes::cpu::CPUState;
use nnes::nnes::ppu::PPU;
use nnes::nnes::NNES;

/// An iNES image with one PRG bank holding `program` at 0x8000, the reset
/// vector pointing there, and one zeroed CHR bank.
fn image(program: &[u8], flags6: u8, flags7: u8) -> Vec<u8> {
    let mut rom = vec![0x4E, 0x45, 0x53, 0x1A, 1, 1, flags6, flags7, 0, 0, 0, 0, 0, 0, 0, 0];
    let mut prg = vec![0u8; 0x4000];
    prg[..program.len()].copy_from_slice(program);
    prg[0x3FFC] = 0x00;
    prg[0x3FFD] = 0x80;
    rom.extend_from_slice(&prg);
    rom.extend_from_slice(&vec![0u8; 0x2000]);
    rom
}

fn console(program: &[u8]) -> NNES {
    let rom = image(program, 0, 0);
    assert_eq!(validate_rom(&rom), Ok(0));
    let cartridge = Cartridge::new(&rom);
    let mut nnes = NNES::new(cartridge);
    nnes.reset();
    nnes
}

/// Runs master ticks until the CPU has counted `cpu_ticks` cycles in all.
fn run_until(nnes: &mut NNES, cpu_ticks: u64) {
    while nnes.cpu.total_ticks < cpu_ticks {
        assert!(nnes.try_tick().is_some());
    }
}

#[test]
fn validate_rom_accepts_mapper_zero_ines() {
    assert_eq!(validate_rom(&image(&[], 0, 0)), Ok(0));
}

#[test]
fn validate_rom_rejects_bad_magic() {
    let mut rom = image(&[], 0, 0);
    rom[1] = b'X';
    assert_eq!(validate_rom(&rom), Err("error: not a nes rom".to_string()));
}

#[test]
fn validate_rom_rejects_short_non_rom() {
    assert_eq!(validate_rom(&vec![0x00]), Err("error: not a nes rom".to_string()));
}

#[test]
fn validate_rom_rejects_nes2_format() {
    let rom = image(&[], 0, 0x08);
    assert_eq!(validate_rom(&rom), Err("error: unsupported file format".to_string()));
}

#[test]
fn validate_rom_rejects_other_mappers() {
    let rom = image(&[], 0x10, 0);
    assert_eq!(validate_rom(&rom), Err("error: unsupported mapper".to_string()));
}

#[test]
fn cartridge_splits_sections() {
    let mut rom = image(&[0xEA], 0x01, 0);
    let chr_start = 16 + 0x4000;
    rom[chr_start] = 0x77;
    let c = Cartridge::new(&rom);
    assert_eq!(c.prg_rom.len(), 0x4000);
    assert_eq!(c.prg_rom[0], 0xEA);
    assert_eq!(c.chr_rom.len(), 0x2000);
    assert_eq!(c.chr_rom[0], 0x77);
    assert_eq!(c.mapper, 0);
    assert!(c.mirroring == Mirroring::VERTICAL);
    assert!(!c.has_trainer);
    assert!(!c.has_sram);
    assert_eq!(c.sram.len(), 0x2000);
}

#[test]
fn cartridge_bit_3_selects_alternative_layout() {
    let mut rom = image(&[], 0x01, 0);
    rom[6] = 0b0000_1001;
    let c = Cartridge::new(&rom);
    assert!(c.mirroring == Mirroring::ALTERNATIVE);
}

#[test]
fn cartridge_horizontal_mirroring_and_trainer() {
    // A trainer image: 512 bytes between header and PRG ROM.
    let mut rom = vec![0x4E, 0x45, 0x53, 0x1A, 1, 1, 0b0000_0100, 0, 0, 0, 0, 0, 0, 0, 0, 0];
    let mut trainer = vec![0u8; 512];
    trainer[0] = 0x5A;
    rom.extend_from_slice(&trainer);
    let mut prg = vec![0u8; 0x4000];
    prg[0] = 0x42;
    rom.extend_from_slice(&prg);
    rom.extend_from_slice(&vec![0u8; 0x2000]);
    let c = Cartridge::new(&rom);
    assert!(c.mirroring == Mirroring::HORIZONTAL);
    assert!(c.has_trainer);
    assert_eq!(c.prg_rom[0], 0x42);
    assert_eq!(c.sram[0x1000], 0x5A);
    assert_eq!(c.sram[0], 0);
}

#[test]
fn joypad_packs_buttons() {
    let mut pad = Joypad { active: 0, state: 7 };
    pad.update_state([true, false, false, true, false, false, false, true]);
    assert_eq!(pad.active, 0b1000_1001);
    assert_eq!(pad.state, 7);
}

#[test]
fn reset_loads_vector_and_registers() {
    let nnes = console(&[0xEA]);
    assert_eq!(nnes.cpu.pc, 0x8000);
    assert_eq!(nnes.cpu.sp, 0xFD);
    assert_eq!(nnes.cpu.p, 0b0010_0100);
    assert_eq!(nnes.cpu.total_ticks, 7);
    assert_eq!(nnes.ppu().scanline, 261);
    assert_eq!(nnes.ppu().cycle, 0);
}

#[test]
fn program_runs_cycle_by_cycle() {
    // LDA #$42; STA $0200; LDX #$05; INX; JMP $8008
    let program = [0xA9, 0x42, 0x8D, 0x00, 0x02, 0xA2, 0x05, 0xE8, 0x4C, 0x08, 0x80];
    let mut nnes = console(&program);
    // LDA takes 2 cycles.
    run_until(&mut nnes, 7 + 2);
    assert_eq!(nnes.cpu.a, 0x42);
    assert_eq!(nnes.cpu.pc, 0x8002);
    // STA absolute takes 4.
    run_until(&mut nnes, 7 + 6);
    assert_eq!(nnes.cpu.bus.peek(0x0200), 0x42);
    assert_eq!(nnes.cpu.bus.peek(0x0A00), 0x42);
    // LDX #$05 and INX take 2 each.
    run_until(&mut nnes, 7 + 10);
    assert_eq!(nnes.cpu.x, 6);
    assert_eq!(nnes.cpu.p & 0b1000_0010, 0);
    assert!(nnes.cpu.state == CPUState::Fetch);
    // JMP absolute takes 3 and lands on itself.
    run_until(&mut nnes, 7 + 13);
    assert_eq!(nnes.cpu.pc, 0x8008);
}

#[test]
fn sbc_carry_means_no_borrow() {
    // SEC; LDA #$90; SBC #$01; SBC #$90; JMP $8007
    let program = [0x38, 0xA9, 0x90, 0xE9, 0x01, 0xE9, 0x90, 0x4C, 0x07, 0x80];
    let mut nnes = console(&program);
    run_until(&mut nnes, 7 + 6);
    assert_eq!(nnes.cpu.a, 0x8F);
    assert_eq!(nnes.cpu.p & 0x01, 0x01);
    run_until(&mut nnes, 7 + 8);
    assert_eq!(nnes.cpu.a, 0xFF);
    assert_eq!(nnes.cpu.p & 0x01, 0x00);
}

#[test]
fn master_clock_divides_ppu_and_cpu() {
    let mut nnes = console(&[0x4C, 0x00, 0x80]);
    for _ in 0..24 {
        assert!(nnes.try_tick().is_some());
    }
    assert_eq!(nnes.master_clock, 24);
    assert_eq!(nnes.cpu.total_ticks, 7 + 2);
    assert_eq!(nnes.ppu().total_cycles, 6);
}

#[test]
fn trace_decodes_the_next_instruction() {
    let program = [0xBD, 0x34, 0x12];
    let mut nnes = console(&program);
    nnes.cpu.x = 0x10;
    let t = nnes.cpu.trace();
    assert_eq!(t.pc, 0x8000);
    assert_eq!(t.code, 0xBD);
    assert_eq!(t.name, "LDA");
    assert_eq!(t.bytes, 3);
    assert_eq!(t.lo, 0x34);
    assert_eq!(t.hi, 0x12);
    assert_eq!(t.pointer, 0x1234);
    assert_eq!(t.addr, 0x1244);
    assert_eq!(t.sp, 0xFD);
    assert_eq!(t.total_ticks, 7);
}

#[test]
fn ppu_address_and_data_ports() {
    let cartridge = Cartridge::new(&image(&[], 0, 0));
    let mut ppu = PPU::new(&cartridge);
    ppu.reg_write(6, 0x21);
    ppu.reg_write(6, 0x08);
    assert_eq!(ppu.v, 0x2108);
    ppu.reg_write(7, 0xAB);
    assert_eq!(ppu.v, 0x2109);
    assert_eq!(ppu.peek(0x2108), 0xAB);
    // Reading back is buffered: the first read returns the stale buffer.
    ppu.reg_write(6, 0x21);
    ppu.reg_write(6, 0x08);
    let first = ppu.reg_read(7);
    let second = ppu.reg_read(7);
    assert_eq!(first, 0);
    assert_eq!(second, 0xAB);
}

#[test]
fn ram_mirrors_every_2k() {
    // STA $0801 with A = $5A; then the byte reads back at $0001, $1001 and $1801.
    let program = [0xA9, 0x5A, 0x8D, 0x01, 0x08, 0x4C, 0x05, 0x80];
    let mut nnes = console(&program);
    run_until(&mut nnes, 7 + 6);
    for addr in [0x0001u16, 0x0801, 0x1001, 0x1801] {
        assert_eq!(nnes.cpu.bus.peek(addr), 0x5A);
    }
    assert_eq!(nnes.cpu.bus.peek(0x0002), 0);
}

#[test]
fn stack_push_then_pull_round_trips() {
    // LDA #$99; PHA; LDA #$00; PLA
    let program = [0xA9, 0x99, 0x48, 0xA9, 0x00, 0x68, 0x4C, 0x06, 0x80];
    let mut nnes = console(&program);
    run_until(&mut nnes, 7 + 2 + 3);
    assert_eq!(nnes.cpu.sp, 0xFC);
    assert_eq!(nnes.cpu.bus.peek(0x01FD), 0x99);
    run_until(&mut nnes, 7 + 2 + 3 + 2 + 4);
    assert_eq!(nnes.cpu.a, 0x99);
    assert_eq!(nnes.cpu.sp, 0xFD);
    assert_eq!(nnes.cpu.p & 0b1000_0000, 0b1000_0000);
}

#[test]
fn ppu_dot_order_and_frames() {
    let cartridge = Cartridge::new(&image(&[], 0, 0));
    let mut ppu = PPU::new(&cartridge);
    // Dot 340 of a line wraps to dot 0 of the next.
    ppu.scanline = 10;
    ppu.cycle = 340;
    ppu.tick();
    assert_eq!((ppu.scanline, ppu.cycle), (11, 0));
    assert_eq!(ppu.total_cycles, 1);
    // The pre-render line of an odd frame is one dot shorter.
    ppu.scanline = 261;
    ppu.cycle = 339;
    ppu.f = 1;
    ppu.tick();
    assert_eq!((ppu.scanline, ppu.cycle), (0, 0));
    assert_eq!(ppu.f, 0);
    assert_eq!(ppu.total_frames, 1);
    // On an even frame it runs to dot 340.
    ppu.scanline = 261;
    ppu.cycle = 339;
    ppu.tick();
    assert_eq!((ppu.scanline, ppu.cycle), (261, 340));
}

#[test]
fn vblank_raises_nmi_for_the_cpu() {
    let mut nnes = console(&[0x4C, 0x00, 0x80]);
    // Enable NMI on vblank.
    nnes.cpu.bus.mem_write(0x2000, 0x80);
    while !nnes.cpu.nmi_pending {
        assert!(nnes.try_tick().is_some());
    }
    assert_eq!(nnes.ppu().scanline, 241);
    assert!(nnes.ppu().ppu_status & 0x80 != 0);
}

#[test]
fn ppu_register_writes_through_the_bus() {
    let mut nnes = console(&[0xEA]);
    nnes.cpu.bus.mem_write(0x2006, 0x3F);
    nnes.cpu.bus.mem_write(0x2006, 0x01);
    nnes.cpu.bus.mem_write(0x2007, 0x2C);
    assert_eq!(nnes.ppu().palette[1], 0x2C);
    assert_eq!(nnes.cpu.bus.open_bus, 0x2C);
    // A mirror of PPUADDR eight bytes up behaves the same.
    nnes.cpu.bus.mem_write(0x200E, 0x3F);
    nnes.cpu.bus.mem_write(0x200E, 0x01);
    assert_eq!(nnes.cpu.bus.mem_read(0x2007), 0x2C);
}

#[test]
fn unknown_opcode_stops_the_console() {
    // 0x02 is not an official opcode.
    let mut nnes = console(&[0x02]);
    let mut stopped = false;
    for _ in 0..100 {
        if nnes.try_tick().is_none() {
            stopped = true;
            break;
        }
    }
    assert!(stopped);
    assert_eq!(nnes.cpu.pc, 0x8000);
}

#[test]
fn oam_dma_request_is_noticed() {
    // LDA #42; STA $4014 (a peek at the port then shows 42); then loop.
    let program = [0xA9, 42, 0x8D, 0x14, 0x40, 0x4C, 0x05, 0x80];
    let mut nnes = console(&program);
    let mut noticed = 0;
    while nnes.cpu.total_ticks < 7 + 12 {
        if nnes.try_tick() == Some(true) {
            noticed += 1;
        }
    }
    assert_eq!(noticed, 1);
    assert!(nnes.cpu.bus.oam_dma_running());
    assert!(!nnes.cpu.bus.oam_dma_pending());
}

#[test]
fn ppustatus_read_clears_vblank_and_toggle() {
    let cartridge = Cartridge::new(&image(&[], 0, 0));
    let mut ppu = PPU::new(&cartridge);
    ppu.ppu_status = 0x80;
    ppu.open_bus = 0x1F;
    ppu.w = 1;
    // Bits 7 to 5 come from the status flags, bits 4 to 0 from the open bus.
    assert_eq!(ppu.reg_read(2), 0x9F);
    assert_eq!(ppu.ppu_status & 0x80, 0);
    assert_eq!(ppu.w, 0);
    assert_eq!(ppu.open_bus, 0x9F);
}

#[test]
fn ppustatus_read_keeps_open_bus_bits_in_place() {
    let cartridge = Cartridge::new(&image(&[], 0, 0));
    let mut ppu = PPU::new(&cartridge);
    ppu.ppu_status = 0x40;
    ppu.open_bus = 0x08;
    assert_eq!(ppu.reg_read(2), 0x48);
}

/// Runs until the CPU has counted `cpu_ticks` cycles and reports whether it
/// is at an instruction boundary (about to fetch).
fn boundary_at(nnes: &mut NNES, cpu_ticks: u64) -> bool {
    run_until(nnes, cpu_ticks);
    nnes.cpu.state == CPUState::Fetch
}

#[test]
fn indexed_read_crossing_a_page_takes_one_more_cycle() {
    // LDX #$20; LDA $80F0,X (crosses into page $81); loop
    let program = [0xA2, 0x20, 0xBD, 0xF0, 0x80, 0x4C, 0x05, 0x80];
    let mut nnes = console(&program);
    assert!(boundary_at(&mut nnes, 7 + 2));
    assert!(!boundary_at(&mut nnes, 7 + 2 + 4));
    assert!(boundary_at(&mut nnes, 7 + 2 + 5));
    assert_eq!(nnes.cpu.a, nnes.cpu.bus.peek(0x8110));
}

#[test]
fn indexed_read_within_a_page_takes_the_table_count() {
    // LDX #$01; LDA $8000,X; loop
    let program = [0xA2, 0x01, 0xBD, 0x00, 0x80, 0x4C, 0x05, 0x80];
    let mut nnes = console(&program);
    assert!(boundary_at(&mut nnes, 7 + 2));
    assert!(boundary_at(&mut nnes, 7 + 2 + 4));
    assert_eq!(nnes.cpu.a, 0x01);
}

#[test]
fn indexed_store_takes_the_table_count() {
    // LDA #$11; LDX #$01; STA $0200,X (5 cycles whether or not a page is crossed); loop
    let program = [0xA9, 0x11, 0xA2, 0x01, 0x9D, 0x00, 0x02, 0x4C, 0x07, 0x80];
    let mut nnes = console(&program);
    assert!(boundary_at(&mut nnes, 7 + 4));
    assert!(!boundary_at(&mut nnes, 7 + 4 + 4));
    assert!(boundary_at(&mut nnes, 7 + 4 + 5));
    assert_eq!(nnes.cpu.bus.peek(0x0201), 0x11);
}

#[test]
fn taken_branch_across_a_page_takes_four_cycles() {
    // $8000: JMP $80FD; $80FD: BNE +2 (to $8101, Z is clear after reset); $8101: JMP $8101
    let mut program = vec![0u8; 0x104];
    program[..3].copy_from_slice(&[0x4C, 0xFD, 0x80]);
    program[0xFD..0xFF].copy_from_slice(&[0xD0, 0x02]);
    program[0x101..0x104].copy_from_slice(&[0x4C, 0x01, 0x81]);
    let mut nnes = console(&program);
    assert!(boundary_at(&mut nnes, 7 + 3));
    assert_eq!(nnes.cpu.pc, 0x80FD);
    assert!(!boundary_at(&mut nnes, 7 + 3 + 3));
    assert!(boundary_at(&mut nnes, 7 + 3 + 4));
    assert_eq!(nnes.cpu.pc, 0x8101);
}

#[test]
fn branch_not_taken_takes_two_cycles() {
    // BEQ +2 (Z is clear after reset, so not taken); loop
    let program = [0xF0, 0x02, 0x4C, 0x02, 0x80];
    let mut nnes = console(&program);
    assert!(boundary_at(&mut nnes, 7 + 2));
    assert_eq!(nnes.cpu.pc, 0x8002);
}

/// An image whose PRG bank holds `program` at 0x8000 and `handler` at
/// 0x9000, with the NMI and IRQ/BRK vectors both pointing at the handler.
fn image_with_handler(program: &[u8], handler: &[u8]) -> Vec<u8> {
    let mut rom = image(program, 0, 0);
    let prg = 16;
    rom[prg + 0x1000..prg + 0x1000 + handler.len()].copy_from_slice(handler);
    rom[prg + 0x3FFA] = 0x00;
    rom[prg + 0x3FFB] = 0x90;
    rom[prg + 0x3FFE] = 0x00;
    rom[prg + 0x3FFF] = 0x90;
    rom
}

#[test]
fn vblank_nmi_is_serviced() {
    // LDA #$80; STA $2000 (NMI on vblank); loop. Handler: loop.
    let rom = image_with_handler(&[0xA9, 0x80, 0x8D, 0x00, 0x20, 0x4C, 0x05, 0x80], &[0x4C, 0x00, 0x90]);
    let mut nnes = NNES::new(Cartridge::new(&rom));
    nnes.reset();
    let mut ticks = 0u64;
    while !(0x9000..0x9003).contains(&nnes.cpu.pc) {
        assert!(nnes.try_tick().is_some());
        ticks += 1;
        assert!(ticks < 2_000_000);
    }
    // Three pushes: pc high, pc low, status with B clear; I is then set.
    assert_eq!(nnes.cpu.sp, 0xFA);
    let pushed_status = nnes.cpu.bus.peek(0x01FB);
    assert_eq!(pushed_status & 0b0001_0000, 0);
    assert!(nnes.cpu.p & 0b0000_0100 != 0);
    let ret = (nnes.cpu.bus.peek(0x01FD) as u16) << 8 | nnes.cpu.bus.peek(0x01FC) as u16;
    assert!((0x8005..0x8008).contains(&ret));
    assert!(!nnes.cpu.nmi_pending);
}

#[test]
fn brk_and_rti_round_trip() {
    // $8000: BRK (padding byte $EA); $8002: loop. Handler: RTI.
    let rom = image_with_handler(&[0x00, 0xEA, 0x4C, 0x02, 0x80], &[0x40]);
    let mut nnes = NNES::new(Cartridge::new(&rom));
    nnes.reset();
    let sp = nnes.cpu.sp;
    // BRK takes 7 cycles and lands on the handler.
    run_until(&mut nnes, 7 + 7);
    assert_eq!(nnes.cpu.pc, 0x9000);
    assert_eq!(nnes.cpu.sp, sp.wrapping_sub(3));
    assert!(nnes.cpu.bus.peek(0x0100 + sp as u16 - 2) & 0b0001_0000 != 0);
    // RTI takes 6 and returns past the padding byte.
    run_until(&mut nnes, 7 + 7 + 6);
    assert_eq!(nnes.cpu.pc, 0x8002);
    assert_eq!(nnes.cpu.sp, sp);
}

#[test]
fn ppu_takes_the_pattern_window_of_chr_memory() {
    let mut cartridge = Cartridge::new(&image(&[], 0, 0));
    cartridge.chr_rom = vec![0x11; 0x1000];
    let ppu = PPU::new(&cartridge);
    assert_eq!(ppu.chr_size, 0x1000);
    assert_eq!(ppu.chr_rom[0x0FFF], 0x11);
    assert_eq!(ppu.chr_rom[0x1000], 0);
    let mut big = Cartridge::new(&image(&[], 0, 0));
    big.chr_rom = vec![0x22; 0x4000];
    big.mirroring = Mirroring::ALTERNATIVE;
    let ppu = PPU::new(&big);
    assert_eq!(ppu.chr_size, 0x4000);
    assert_eq!(ppu.chr_rom[0x1FFF], 0x22);
    assert!(ppu.mirroring == Mirroring::ALTERNATIVE);
}

#[test]
fn documented_cycle_counts() {
    // 8000: JSR $8010; 8003: JMP ($0300)
    // 8010: PHA; PLA; STA ($10),Y; ASL $0200,X; RTS
    // JMP ($0300) lands on $0000, where the STA left a BRK (0x00).
    let mut program = vec![0u8; 0x20];
    program[0x00..0x03].copy_from_slice(&[0x20, 0x10, 0x80]);
    program[0x03..0x06].copy_from_slice(&[0x6C, 0x00, 0x03]);
    program[0x10..0x19].copy_from_slice(&[0x48, 0x68, 0x91, 0x10, 0x1E, 0x00, 0x02, 0x60, 0xEA]);
    let mut nnes = console(&program);
    // JSR 6, PHA 3, PLA 4, STA (zp),Y 6, ASL abs,X 7, RTS 6, JMP (ind) 5, BRK 7.
    let mut t = 7;
    for cycles in [6u64, 3, 4, 6, 7, 6, 5, 7] {
        assert!(!boundary_at(&mut nnes, t + cycles - 1));
        t += cycles;
        assert!(boundary_at(&mut nnes, t));
    }
    // BRK jumps through the vector at 0xFFFE, which is zero here.
    assert_eq!(nnes.cpu.pc, 0x0000);
}

#[test]
fn increment_y_walks_fine_then_coarse_rows() {
    let mut ppu = PPU::new(&Cartridge::new(&image(&[], 0, 0)));
    // Fine y 3 -> 4.
    ppu.v = 0x3000 | 0x0005;
    ppu.increment_y();
    assert_eq!(ppu.v, 0x4005);
    // Fine y 7, coarse y 29: wraps to row 0 of the other vertical nametable.
    ppu.v = 0x7000 | (29 << 5) | 0x0405;
    ppu.increment_y();
    assert_eq!(ppu.v, 0x0800 | 0x0405);
    // Fine y 7, coarse y 31: wraps to row 0 of the same nametable.
    ppu.v = 0x7000 | (31 << 5) | 0x0800;
    ppu.increment_y();
    assert_eq!(ppu.v, 0x0800);
    // Fine y 7, coarse y 10: next row.
    ppu.v = 0x7000 | (10 << 5);
    ppu.increment_y();
    assert_eq!(ppu.v, 11 << 5);
}

#[test]
fn alternative_layout_runs_until_rendering_needs_nametables() {
    // LDA #$18; STA $2001 (enable rendering); JMP $8005
    let mut cartridge = Cartridge::new(&image(&[0xA9, 0x18, 0x8D, 0x01, 0x20, 0x4C, 0x05, 0x80], 0, 0));
    cartridge.mirroring = Mirroring::ALTERNATIVE;
    let mut nnes = NNES::new(cartridge);
    nnes.reset();
    let mut stopped = false;
    for _ in 0..12 * 100 {
        if nnes.try_tick().is_none() {
            stopped = true;
            break;
        }
    }
    assert!(stopped);
    // The CPU got as far as the PPUMASK write.
    assert!(nnes.cpu.total_ticks >= 7 + 6);
    assert_eq!(nnes.ppu().ppu_mask, 0x18);
}
