# gamboy

A Game Boy (DMG) emulator whose core is written in Verus and proved against
its contracts.

- `src/` is the verified library: the ALU, the CPU registers, the instruction
  table and the semantics of every opcode, the memory map with its I/O
  registers, cartridge headers and bank controllers (MBC1, MBC3), the timer,
  interrupts, the pixel processing unit (mode state machine, background,
  window and sprite lines, OAM DMA), the console tick (which reports a fault,
  rather than stopping, on a memory access the memory map does not define),
  the debugger's text dumps, the disassembler and its text, the command-line
  flags, the ROM browser's listing and moves, and the mapping of host key
  events to joypad buttons.
- `app/` is the program around it: SDL2 window and keyboard, file access,
  ROM selection, the frame loop and the debug printouts.
- `tests/` exercises the library on concrete programs and values.

Run: `gamboy [<path/to/rom>|norom] [skipboot] [debug] [printcpu]`, with the
boot ROM at `./roms/bootrom/dmg.bin`.
