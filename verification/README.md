# craterboy

A Game Boy (DMG/CGB) emulator core whose behaviour is stated in Verus contracts and proved.

## Layout

- `src/domain/` — the emulated hardware: ROM header parsing (`rom`), cartridges and bank
  controllers (`cartridge`, `mbc/`), the memory bus with its I/O registers, LCD timing and
  DMA/HDMA copies (`bus/`), the SM83 CPU (`cpu/`), timer, serial port, audio channels, the
  scanline renderer (`ppu/`), the framebuffer and the emulator that drives them, plus header
  integrity checks (`rom_check`).
- `src/interface/` — the arithmetic of the audio queue and its player, and joypad input.
- `src/infrastructure/` — when battery RAM is due to be saved, and the last-session record.
- `src/bits.rs`, `src/util.rs`, `src/clock.rs` — bit-level facts, shared spec helpers, and
  the host wall clock.
- `app/` — the command-line program: file I/O, printing, bincode persistence and rodio
  playback around the library.
- `tests/` — executable tests of the library.

Laws that relate several operations (what a read returns after a write, push/pop, clock
arithmetic, frame timing, save scheduling) are public proof functions next to the code they
speak of, for example `src/domain/bus/laws.rs` and `src/domain/mbc/laws.rs`.
