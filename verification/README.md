# figs

A Game Boy (DMG) emulator whose core is verified with Verus.

- `src/` is the verified library: the cartridge header parser and memory bank
  controllers (`cartridge`), the register file (`registers`), the instruction set
  as a mathematical model (`isa`) and the CPU that implements it (`cpu`), the
  memory bus (`bus`), OAM DMA (`dma`), the timer, the serial port, the joypad,
  interrupts, and the picture processing unit (`ppu`, `pixel`). Every type has a
  view, and every public function states its result over those views; the laws
  that relate several operations (RAM and registers giving back writes, DMA blocking and
  copying, the length of a serial transfer, timer reloads, vertical blank timing,
  the stack) are public proof functions beside the code they speak of. Cartridges
  start with empty cartridge RAM, so the law on cartridge RAM speaks of controller states that no built cartridge reaches.
- `app/` is the program around it: argument parsing, reading the ROM file, the
  window and keyboard, printing the state log, and pacing the emulation to real
  time.
- `tests/` runs the library on concrete ROM images and values.
