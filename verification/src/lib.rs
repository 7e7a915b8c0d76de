//! A Game Boy (DMG) emulator core: CPU, memory map, cartridge banking,
//! timer, interrupts and pixel processing unit, with their behaviour
//! stated as contracts and proved.
pub mod bits;
pub mod text;
pub mod alu;
pub mod cpu_registers;
pub mod cartridge_header;
pub mod mbc;
pub mod cartridge;
pub mod input;
pub mod sprite_attribute;
pub mod tilemap;
pub mod ppu;
pub mod gpu;
pub mod memory_bus;
pub mod mmu;
pub mod register;
pub mod interrupts;
pub mod timer;
pub mod cpu;
pub mod instruction;
pub mod instruction_table;
pub mod opcodes;
pub mod debugger;
pub mod disassembler;
pub mod console;
pub mod cli;
