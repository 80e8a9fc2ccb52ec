# CedNES

A NES emulator whose core is verified with Verus.

- `src/` is the library: the 6502 processor (`cpu/`), the PPU (`ppu2.rs`) with its
  registers, the APU (`apu/`), the cartridge boards (`mappers/`), the CPU bus
  (`nes_memory.rs`), the controller, the ROM and movie formats (`rom.rs`, `fm2.rs`,
  `bk2.rs`), and the machine that ties them together cycle by cycle (`emulator.rs`).
  Every function carries a contract that Verus proves; `dot_laws.rs` states what a PPU
  dot keeps and reports, and what a line's sprite evaluation leaves in secondary OAM.
- `app/` is the program around it: the command line, the settings file, finding ROMs on
  disk, reading files, and the emulator loop with its timing.
- `tests/` runs the library on concrete values.

Run it with `--rom-dir <directory>` once, then `-r <rom>.nes`. While it runs, the console
takes `pause`, `resume`, `reboot`, `debug`, and a sound channel (`all`, `pulse1`, `pulse2`,
`triangle`, `noise`, `dmc`) followed by `on` or `off`.
