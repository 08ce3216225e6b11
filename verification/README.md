# nnes

A cycle-stepped NES emulator core written in Verus: iNES cartridge parsing,
the 2A03 CPU as a per-cycle state machine (fetch, decode, execute, interrupt
sequence), its memory bus with mirrored RAM, the PPU register window and PRG
ROM, and the 2C02 PPU (background fetches, sprite evaluation, vblank and NMI).
Every function of the library carries a contract that Verus proves; `src/laws.rs`
states properties of the whole (RAM mirroring, stack round trips, PPU dot order,
the master clock's division between PPU and CPU, instruction lengths, the
BRK, LDA absolute,X and STA absolute sequences, the PPU's vertical scroll
increment). Trace lines in the nestest log layout are built,
and proved against their layout, by `nnes::cpu::trace::text`.

Layout:

- `src/` — the verified library (`cartridge`, `controller`, `utils`, `nnes::cpu`,
  `nnes::ppu`, `nnes::console`, the register-level interface in `nnes::registers`,
  `nnes::flags`, `nnes::memory`, `nnes::opcodes`, and the flat `nnes::bus` with
  `nnes::rom`).
- `tests/` — executable tests of the library.
- `app/` — the SDL2 front end: window, ROM loading, keyboard, log printing.
