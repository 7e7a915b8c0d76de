use gamboy::cartridge::Cartridge;
use gamboy::cpu::Cpu;
use gamboy::debugger::{Debugger, TraceLog};
use gamboy::cpu_registers::{CpuRegIndex, CpuRegisters, Flags};
use gamboy::input::JoypadInput;
use gamboy::instruction::{Instruction, Op, Src};
use gamboy::mmu::{Caller, Endianness, Mmu, DIV_REG, IE_REG, IF_REG, JOYPAD_REG, LCD_STATUS_REG, LY_REG, BANK_REG};

fn blank_mmu() -> Mmu {
    Mmu::new(None, true, &[])
}

/// A machine running a program placed at 0x0100 of a cartridge without a controller.
fn machine(program: &[u8]) -> (Cpu, Mmu) {
    let mut rom = vec![0u8; 0x8000];
    for (i, b) in program.iter().enumerate() {
        rom[0x100 + i] = *b;
    }
    let cartridge = Cartridge::from_bytes(rom);
    let mut mmu = Mmu::new(Some(cartridge), true, &[]);
    mmu.is_booting = false;
    let mut cpu = Cpu::new(false);
    cpu.registers.set_word(CpuRegIndex::PC, 0x0100);
    cpu.registers.set_word(CpuRegIndex::SP, 0xDFFE);
    (cpu, mmu)
}

#[test]
fn word_registers_are_byte_pairs() {
    let mut regs = CpuRegisters::new();
    regs.set_word(CpuRegIndex::BC, 0x1234);
    assert_eq!(regs.get_byte(CpuRegIndex::B), 0x12);
    assert_eq!(regs.get_byte(CpuRegIndex::C), 0x34);
    assert_eq!(regs.get_word(CpuRegIndex::BC), 0x1234);
    assert_eq!(regs.get_word(CpuRegIndex::DE), 0x0000);
    regs.set_byte(CpuRegIndex::E, 0x99);
    assert_eq!(regs.get_word(CpuRegIndex::DE), 0x0099);
    assert_eq!(regs.bytes_to_word(0xAB, 0xCD), 0xABCD);
}

#[test]
fn flags_live_in_the_top_nibble_of_f() {
    let mut regs = CpuRegisters::new();
    let f = Flags { zero: true, subtract: false, half_carry: true, carry: true };
    regs.set_flags(f);
    assert_eq!(regs.get_byte(CpuRegIndex::F), 0xB0);
    assert_eq!(regs.get_flags(), f);
}

#[test]
fn increment_then_decrement_restores_registers() {
    let mut regs = CpuRegisters::new();
    regs.set_word(CpuRegIndex::SP, 0x0001);
    let before = regs;
    regs.decrement(CpuRegIndex::SP, 2);
    assert_eq!(regs.get_word(CpuRegIndex::SP), 0xFFFF);
    regs.increment(CpuRegIndex::SP, 2);
    assert_eq!(regs, before);
    regs.set_byte(CpuRegIndex::A, 0xFF);
    regs.increment(CpuRegIndex::A, 1);
    assert_eq!(regs.get_byte(CpuRegIndex::A), 0x00);
}

#[test]
fn work_ram_and_high_ram_read_back() {
    let mut mmu = blank_mmu();
    mmu.write_8(0xC000, 0x42, Caller::CPU);
    mmu.write_8(0xFF80, 0x24, Caller::CPU);
    assert_eq!(mmu.read_8(0xC000, Caller::CPU), 0x42);
    assert_eq!(mmu.read_8(0xFF80, Caller::CPU), 0x24);
    assert_eq!(mmu.read_8(0xC001, Caller::CPU), 0x00);
    mmu.write_16(0xC100, 0xBEEF, Endianness::BIG, Caller::CPU);
    assert_eq!(mmu.read_8(0xC100, Caller::CPU), 0xEF);
    assert_eq!(mmu.read_16(0xC100, Endianness::BIG, Caller::CPU), 0xBEEF);
    assert_eq!(mmu.read_16(0xC100, Endianness::LITTLE, Caller::CPU), 0xEFBE);
}

#[test]
fn echo_ram_reads_mirror_c000() {
    let mut mmu = blank_mmu();
    mmu.write_8(0xC005, 0x77, Caller::CPU);
    assert_eq!(mmu.read_8(0xE005, Caller::CPU), 0x77);
    // A write to echo RAM lands in its own byte, which reads do not see.
    mmu.write_8(0xE006, 0x99, Caller::CPU);
    assert_eq!(mmu.read_8(0xE006, Caller::CPU), 0x00);
}

#[test]
fn joypad_register_reports_held_buttons() {
    let mut mmu = blank_mmu();
    assert_eq!(mmu.read_8(JOYPAD_REG, Caller::CPU), 0xFF);
    mmu.active_input.set(JoypadInput::InputKeyA, true);
    assert_eq!(mmu.read_8(JOYPAD_REG, Caller::CPU), 0xFE);
    // Selecting the direction keys (bit 4 low, bit 5 high).
    mmu.write_8(JOYPAD_REG, 0x20, Caller::CPU);
    assert_eq!(mmu.ram[(JOYPAD_REG - 0x8000) as usize], 0x2F);
    mmu.active_input.set(JoypadInput::InputKeyDown, true);
    assert_eq!(mmu.read_8(JOYPAD_REG, Caller::CPU), 0xF7);
}

#[test]
fn div_write_resets_the_counter() {
    let mut mmu = blank_mmu();
    mmu.sysclock = 0x1234;
    mmu.write_8(DIV_REG, 0x55, Caller::TIMER);
    assert_eq!(mmu.read_8(DIV_REG, Caller::CPU), 0x55);
    mmu.write_8(DIV_REG, 0x55, Caller::CPU);
    assert_eq!(mmu.read_8(DIV_REG, Caller::CPU), 0x00);
    assert_eq!(mmu.sysclock, 0);
}

#[test]
fn cpu_cannot_write_ly_or_stat_mode_bits() {
    let mut mmu = blank_mmu();
    mmu.write_8(LY_REG, 5, Caller::CPU);
    assert_eq!(mmu.read_8(LY_REG, Caller::CPU), 0);
    mmu.write_8(LY_REG, 5, Caller::PPU);
    assert_eq!(mmu.read_8(LY_REG, Caller::CPU), 5);
    mmu.write_8(LCD_STATUS_REG, 0xFF, Caller::CPU);
    assert_eq!(mmu.read_8(LCD_STATUS_REG, Caller::CPU), 0xF8);
}

#[test]
fn boot_rom_is_unmapped_by_bank_register() {
    let bootrom = [0x31u8, 0xFE, 0xFF];
    let mut mmu = Mmu::new(None, false, &bootrom);
    assert!(mmu.is_booting);
    assert_eq!(mmu.read_8(0x0000, Caller::CPU), 0x31);
    assert_eq!(mmu.read_8(0x0002, Caller::CPU), 0xFF);
    mmu.write_8(BANK_REG, 0x01, Caller::CPU);
    assert!(!mmu.is_booting);
    mmu.write_8(BANK_REG, 0x00, Caller::CPU);
    assert!(!mmu.is_booting);
}

#[test]
fn instruction_table_entries() {
    let nop = Instruction::get_instruction(0x0000);
    assert_eq!((nop.mnemonic, nop.size, nop.cycles), ("NOP", 1, 4));
    let ld = Instruction::get_instruction(0x0031);
    assert_eq!((ld.mnemonic, ld.size, ld.cycles), ("LD SP,d16", 3, 12));
    let swap = Instruction::get_instruction(0xCB37);
    assert_eq!((swap.mnemonic, swap.size, swap.cycles), ("SWAP A", 2, 8));
    assert!(swap.is_cbprefixed());
    let invalid = Instruction::get_instruction(0x00D3);
    assert_eq!(invalid.cycles, -1);
    let missing = Instruction::get_instruction(0x1234);
    assert_eq!((missing.mnemonic, missing.cycles), ("Unimplemented", -1));
}

#[test]
fn cpu_runs_loads_and_stack_operations() {
    // NOP; LD A,0x42; LD BC,0x1234; PUSH BC; POP DE; SWAP A
    let (mut cpu, mut mmu) = machine(&[0x00, 0x3E, 0x42, 0x01, 0x34, 0x12, 0xC5, 0xD1, 0xCB, 0x37]);
    assert_eq!(cpu.step(&mut mmu), 4);
    assert_eq!(cpu.registers.get_word(CpuRegIndex::PC), 0x0101);
    assert_eq!(cpu.step(&mut mmu), 8);
    assert_eq!(cpu.registers.get_byte(CpuRegIndex::A), 0x42);
    assert_eq!(cpu.step(&mut mmu), 12);
    assert_eq!(cpu.registers.get_word(CpuRegIndex::BC), 0x1234);
    assert_eq!(cpu.step(&mut mmu), 16);
    assert_eq!(cpu.registers.get_word(CpuRegIndex::SP), 0xDFFC);
    assert_eq!(mmu.read_16(0xDFFC, Endianness::BIG, Caller::CPU), 0x1234);
    assert_eq!(cpu.step(&mut mmu), 12);
    assert_eq!(cpu.registers.get_word(CpuRegIndex::DE), 0x1234);
    assert_eq!(cpu.registers.get_word(CpuRegIndex::SP), 0xDFFE);
    assert_eq!(cpu.step(&mut mmu), 8);
    assert_eq!(cpu.registers.get_byte(CpuRegIndex::A), 0x24);
    assert_eq!(cpu.registers.get_word(CpuRegIndex::PC), 0x010A);
    let trace = cpu.trace.unwrap();
    assert_eq!((trace.start_pc, trace.opcode, trace.num_args), (0x0108, 0xCB37, 0));
}

#[test]
fn relative_jump_takes_twelve_cycles() {
    // JR -2 jumps back onto itself.
    let (mut cpu, mut mmu) = machine(&[0x18, 0xFE]);
    assert_eq!(cpu.step(&mut mmu), 12);
    assert_eq!(cpu.registers.get_word(CpuRegIndex::PC), 0x0100);
    let trace = cpu.trace.unwrap();
    assert_eq!((trace.num_args, trace.arg0), (1, 0xFE));
}

#[test]
fn conditional_jump_not_taken() {
    // JR NZ,+5 with the zero flag set falls through.
    let (mut cpu, mut mmu) = machine(&[0x20, 0x05]);
    cpu.registers.set_flags(Flags { zero: true, subtract: false, half_carry: false, carry: false });
    assert_eq!(cpu.step(&mut mmu), 8);
    assert_eq!(cpu.registers.get_word(CpuRegIndex::PC), 0x0102);
}

#[test]
fn halted_cpu_idles() {
    let (mut cpu, mut mmu) = machine(&[0x76, 0x00]);
    assert_eq!(cpu.step(&mut mmu), 4);
    assert!(cpu.is_halted);
    let pc = cpu.registers.get_word(CpuRegIndex::PC);
    assert_eq!(cpu.step(&mut mmu), 4);
    assert_eq!(cpu.registers.get_word(CpuRegIndex::PC), pc);
}

#[test]
fn invalid_opcode_reports_a_negative_count() {
    let (mut cpu, mut mmu) = machine(&[0xD3]);
    assert_eq!(cpu.step(&mut mmu), -1);
}

#[test]
fn interrupt_is_dispatched_to_its_handler() {
    let (mut cpu, mut mmu) = machine(&[0x00]);
    cpu.interrupts.set_ime(true);
    mmu.write_8(IE_REG, 0x1F, Caller::CPU);
    mmu.write_8(IF_REG, 0x06, Caller::CPU);
    assert_eq!(cpu.handle_interrupts(&mut mmu), 20);
    assert_eq!(cpu.registers.get_word(CpuRegIndex::PC), 0x0048);
    assert!(!cpu.interrupts.ime);
    assert_eq!(mmu.read_8(IF_REG, Caller::CPU), 0x04);
    assert_eq!(mmu.read_16(0xDFFC, Endianness::BIG, Caller::CPU), 0x0100);
}

#[test]
fn requested_interrupt_wakes_halted_cpu_without_ime() {
    let (mut cpu, mut mmu) = machine(&[0x00]);
    cpu.halt();
    assert_eq!(cpu.handle_interrupts(&mut mmu), 0);
    assert!(cpu.is_halted);
    mmu.write_8(IF_REG, 0x01, Caller::CPU);
    assert_eq!(cpu.handle_interrupts(&mut mmu), 0);
    assert!(!cpu.is_halted);
    assert_eq!(cpu.registers.get_word(CpuRegIndex::PC), 0x0100);
}

#[test]
fn swap_twice_restores_the_byte() {
    // LD A,0x5C; SWAP A; SWAP A
    let (mut cpu, mut mmu) = machine(&[0x3E, 0x5C, 0xCB, 0x37, 0xCB, 0x37]);
    cpu.step(&mut mmu);
    cpu.step(&mut mmu);
    assert_eq!(cpu.registers.get_byte(CpuRegIndex::A), 0xC5);
    cpu.step(&mut mmu);
    assert_eq!(cpu.registers.get_byte(CpuRegIndex::A), 0x5C);
}

#[test]
fn call_and_return_restore_the_program_counter() {
    // CALL 0x0110; ...; at 0x0110: RET
    let mut program = vec![0xCD, 0x10, 0x01];
    program.resize(0x10, 0x00);
    program.push(0xC9);
    let (mut cpu, mut mmu) = machine(&program);
    assert_eq!(cpu.step(&mut mmu), 24);
    assert_eq!(cpu.registers.get_word(CpuRegIndex::PC), 0x0110);
    assert_eq!(cpu.registers.get_word(CpuRegIndex::SP), 0xDFFC);
    assert_eq!(cpu.step(&mut mmu), 16);
    assert_eq!(cpu.registers.get_word(CpuRegIndex::PC), 0x0103);
    assert_eq!(cpu.registers.get_word(CpuRegIndex::SP), 0xDFFE);
}

#[test]
fn executed_instruction_text_and_step_checks() {
    let bootrom = [0x3Eu8, 0x42, 0xD3];
    let mut mmu = Mmu::new(None, false, &bootrom);
    let mut cpu = Cpu::new(false);
    assert!(cpu.can_step(&mmu));
    assert_eq!(cpu.step(&mut mmu), 8);
    assert_eq!(cpu.registers.get_byte(CpuRegIndex::A), 0x42);
    let trace = cpu.trace.unwrap();
    assert_eq!(Debugger::cpu_exec_text(&trace), "0x0000\t0x003E\tLD A,d8       \t0x42\n");
    assert!(cpu.can_handle_interrupts(&mmu));
    // A push below address 0x0002 would write the boot ROM.
    cpu.registers.set_word(CpuRegIndex::SP, 0x0002);
    assert!(!Instruction::can_push(&cpu, &mmu, CpuRegIndex::BC));
    cpu.registers.set_word(CpuRegIndex::SP, 0xC002);
    assert!(Instruction::can_push(&cpu, &mmu, CpuRegIndex::BC));
    assert!(Instruction::can_pop(&cpu, &mmu, CpuRegIndex::BC));
}

#[test]
fn opcodes_decode_by_their_bit_fields() {
    assert_eq!(Instruction::operation_of(0xCB7E), Op::Bit(Src::HLa, 7));
    assert_eq!(Instruction::operation_of(0xCB11), Op::Rotate(Src::C, true, false));
    assert_eq!(Instruction::operation_of(0xCB37), Op::Swap(Src::A));
    assert_eq!(Instruction::operation_of(0xCB9A), Op::SetBit(Src::D, 3, false));
    assert_eq!(Instruction::operation_of(0xCBFF), Op::SetBit(Src::A, 7, true));
    assert_eq!(Instruction::operation_of(0x0041), Op::Ld8(Src::B, Src::C));
    assert_eq!(Instruction::operation_of(0x0076), Op::Halt);
    assert_eq!(Instruction::operation_of(0x008E), Op::Adc8(Src::A, Src::HLa));
    assert_eq!(Instruction::operation_of(0x00BF), Op::Cp(Src::A));
    assert_eq!(Instruction::operation_of(0x00D3), Op::Invalid);
    assert_eq!(Instruction::operation_of(0x1234), Op::Invalid);
}

#[test]
fn each_address_is_traced_once() {
    let bootrom = [0x00u8, 0x00, 0x18, 0xFD];
    let mut mmu = Mmu::new(None, false, &bootrom);
    let mut cpu = Cpu::new(true);
    let mut log = TraceLog::new();
    let mut printed: Vec<String> = Vec::new();
    for _ in 0..9 {
        cpu.step(&mut mmu);
        if let Some(text) = log.trace_once(&cpu.trace.unwrap()) {
            printed.push(text);
        }
    }
    assert_eq!(printed, vec![
        "0x0000\t0x0000\tNOP           \n".to_string(),
        "0x0001\t0x0000\tNOP           \n".to_string(),
        "0x0002\t0x0018\tJR r8         \t0xFD\n".to_string(),
    ]);
}

#[test]
fn taken_conditional_relative_jump_takes_four_more_cycles() {
    // JR NZ,-2 with the zero flag clear jumps back onto itself.
    let (mut cpu, mut mmu) = machine(&[0x20, 0xFE]);
    cpu.registers.set_flags(Flags { zero: false, subtract: false, half_carry: false, carry: false });
    assert_eq!(cpu.step(&mut mmu), 12);
    assert_eq!(cpu.registers.get_word(CpuRegIndex::PC), 0x0100);
}

#[test]
fn add_sp_clears_the_zero_flag() {
    // ADD SP,-1 from SP = 1 gives 0, and still clears zero.
    let (mut cpu, mut mmu) = machine(&[0xE8, 0xFF]);
    cpu.registers.set_word(CpuRegIndex::SP, 0x0001);
    assert_eq!(cpu.step(&mut mmu), 16);
    assert_eq!(cpu.registers.get_word(CpuRegIndex::SP), 0x0000);
    assert!(!cpu.registers.get_flags().zero);
}

#[test]
fn table_rows_follow_the_opcode_descriptions() {
    let ld = Instruction::get_instruction(0x0046);
    assert_eq!((ld.mnemonic, ld.size, ld.cycles), ("LD B,(HL)", 1, 8));
    assert_eq!(Instruction::get_instruction(0x00A6).cycles, 8);
    assert_eq!(Instruction::get_instruction(0x00A7).cycles, 4);
    assert_eq!(Instruction::get_instruction(0x00AE).cycles, 4);
    assert_eq!(Instruction::get_instruction(0x00B6).cycles, 4);
    assert_eq!(Instruction::get_instruction(0xCB8C).mnemonic, "RES 1,H");
    assert_eq!(Instruction::get_instruction(0xCB8D).mnemonic, "RES 1,L");
    assert_eq!(Instruction::get_instruction(0xCBFC).mnemonic, "SET 7,H");
    assert_eq!(Instruction::get_instruction(0xCBFD).mnemonic, "SET 7,L");
}

#[test]
fn every_opcode_has_a_sane_entry() {
    let unused = [0x00CBu16, 0x00D3, 0x00DB, 0x00DD, 0x00E3, 0x00E4, 0x00EB, 0x00EC, 0x00ED, 0x00F4, 0x00FC, 0x00FD];
    for op in 0..=0xFFFFu16 {
        let i = Instruction::get_instruction(op);
        assert_eq!(i.opcode, op);
        let missing = unused.contains(&op) || (0x0100..0xCB00).contains(&op) || op > 0xCBFF;
        assert_eq!(i.cycles < 0, missing);
        if missing {
            assert_eq!((i.size, i.cycles), (1, -1));
            assert!(i.mnemonic == "Invalid" || i.mnemonic == "Unimplemented");
        }
        if (0xCB00..=0xCBFF).contains(&op) {
            assert_eq!(i.size, 2);
            assert_eq!(i.cycles, if op % 8 == 6 { 16 } else { 8 });
            assert!(i.mnemonic != "Invalid" && i.mnemonic != "Unimplemented");
        }
    }
}
