# gba_emulator

A Game Boy Advance emulator core whose logic is verified with Verus.

- `src/arm7tdmi/`: the ARM7TDMI processor: registers and their banks, the
  program status registers, the ARM and THUMB decoders, every implemented
  instruction, exceptions and the fetch/decode/execute cycle.
- `src/memory/`: the memory map, its blocks and mirrors, the I/O registers
  with their masks and write side effects, DMA channels, and typed views of
  the display, blending, window and timer control registers.
- `src/graphics/`: OAM attributes, tiles, palettes, background and object
  layers, priorities and colour effects.
- `src/io/`: the four hardware timers.
- `src/gba.rs`: the machine, whose step runs a DMA unit or a CPU cycle,
  then the timers, then the commands that register writes left for the CPU.
- `app/main.rs`: a command-line front end that reads the BIOS and cartridge
  images and runs the machine.

Each public function states its behaviour in `requires`/`ensures`; the
`lemma_*` proof functions state properties that span several operations
(reads after writes, exception entry and return, pushing and popping
registers, register banking, DMA completion, mirrored memory).
