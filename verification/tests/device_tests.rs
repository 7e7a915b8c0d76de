use gamboy::cartridge::Cartridge;
use gamboy::cartridge_header::{ram_size_of, CartridgeHeader, CartridgeType};
use gamboy::cli::{browser_listing, browser_move, BrowserEntry, BrowserMove, EmuArgs};
use gamboy::console::{CallbackOutcome, Console, TickError};
use gamboy::cpu::Cpu;
use gamboy::cpu_registers::{CpuRegIndex, CpuRegisters};
use gamboy::debugger::Debugger;
use gamboy::disassembler::{decode_listing, disassemble, disassemble_line};
use gamboy::gpu::PixelColor;
use gamboy::input::{input_event, input_events, Callback, HostEvent, HostKey, JoypadButtons};
use gamboy::memory_bus::MemoryBus;
use gamboy::mmu::{Caller, Mmu, IF_REG, LCD_CONTROL_REG, LCD_STATUS_REG, LY_REG, TAC_REG, TIMA_REG, TMA_REG, DIV_REG, BGP_REG, OAM_START};
use gamboy::ppu::{Lcd, Ppu};
use gamboy::tilemap::{pixel_color, read_tile};
use gamboy::timer::Timer;

#[test]
fn timer_overflow_reloads_from_tma() {
    let mut mmu = Mmu::new(None, true, &[]);
    let mut timer = Timer::new();
    mmu.write_8(TAC_REG, 0x05, Caller::CPU);
    mmu.write_8(TIMA_REG, 0xFF, Caller::CPU);
    mmu.write_8(TMA_REG, 0xAB, Caller::CPU);
    assert!(!timer.step(&mut mmu, 8));
    assert_eq!(mmu.read_8(TIMA_REG, Caller::CPU), 0x00);
    assert!(timer.tima_overflow);
    assert!(timer.step(&mut mmu, 4));
    assert_eq!(mmu.read_8(TIMA_REG, Caller::CPU), 0xAB);
    assert!(!timer.tima_overflow);
    assert_eq!(mmu.sysclock, 12);
}

#[test]
fn timer_div_follows_the_counter() {
    let mut mmu = Mmu::new(None, true, &[]);
    let mut timer = Timer::new();
    assert!(!timer.step(&mut mmu, 0x0300));
    assert_eq!(mmu.read_8(DIV_REG, Caller::CPU), 0x03);
    assert_eq!(mmu.read_8(TIMA_REG, Caller::CPU), 0x00);
    assert!(Timer::is_counter_bit_flipped(0x0200, 0x00));
    assert!(!Timer::is_counter_bit_flipped(0x0100, 0x00));
    assert!(Timer::is_counter_bit_flipped(0x0080, 0x03));
    assert!(Timer::is_tac_enabled(0x04));
    assert!(!Timer::is_tac_enabled(0x03));
}

#[test]
fn palette_and_tile_decoding() {
    assert_eq!(Ppu::read_palette(0xE4), [0, 1, 2, 3]);
    assert_eq!(Ppu::read_palette(0x1B), [3, 2, 1, 0]);
    assert_eq!(pixel_color(0x3C, 0x7E, 0), 0);
    assert_eq!(pixel_color(0x3C, 0x7E, 1), 1);
    assert_eq!(pixel_color(0x3C, 0x7E, 2), 3);
    assert_eq!(pixel_color(0x80, 0x00, 0), 2);
    let mut bytes = [0u8; 16];
    bytes[2] = 0xFF;
    bytes[3] = 0x01;
    let tile = read_tile(bytes);
    assert_eq!(tile[0], 0);
    assert_eq!(tile[8], 2);
    assert_eq!(tile[15], 3);
}

#[test]
fn ppu_moves_from_hblank_to_oam_search() {
    let mut mmu = Mmu::new(None, true, &[]);
    let cpu = Cpu::new(false);
    let mut ppu = Ppu::new();
    mmu.write_8(LCD_CONTROL_REG, 0x80, Caller::CPU);
    ppu.step(0, &cpu.interrupts, &mut mmu);
    // LY (0) equals LYC (0): STAT bit 2 set.
    assert_eq!(mmu.read_8(LCD_STATUS_REG, Caller::CPU), 0x04);
    ppu.step(204, &cpu.interrupts, &mut mmu);
    assert_eq!(ppu.mode_cycle_count, 204);
    ppu.step(0, &cpu.interrupts, &mut mmu);
    assert_eq!(mmu.read_8(LY_REG, Caller::CPU), 1);
    assert_eq!(mmu.read_8(LCD_STATUS_REG, Caller::CPU) & 0x07, 0x02);
    assert_eq!(ppu.mode_cycle_count, 0);
}

#[test]
fn ppu_wraps_ly_after_line_153() {
    let mut mmu = Mmu::new(None, true, &[]);
    let ppu = Ppu::new();
    mmu.write_8(LY_REG, 153, Caller::PPU);
    assert_eq!(ppu.increment_ly(&mut mmu), 0);
    assert_eq!(mmu.read_8(LY_REG, Caller::CPU), 0);
    assert_eq!(ppu.increment_ly(&mut mmu), 1);
}

#[test]
fn ppu_vblank_requests_its_interrupt() {
    let mut mmu = Mmu::new(None, true, &[]);
    let cpu = Cpu::new(false);
    let mut ppu = Ppu::new();
    mmu.write_8(LCD_CONTROL_REG, 0x80, Caller::CPU);
    mmu.write_8(LY_REG, 143, Caller::PPU);
    ppu.mode_cycle_count = 204;
    ppu.step(0, &cpu.interrupts, &mut mmu);
    assert_eq!(mmu.read_8(LY_REG, Caller::CPU), 144);
    assert_eq!(mmu.read_8(LCD_STATUS_REG, Caller::CPU) & 0x03, 0x01);
    assert_eq!(mmu.read_8(IF_REG, Caller::CPU) & 0x01, 0x01);
}

#[test]
fn background_and_sprite_lines_are_drawn() {
    let mut mmu = Mmu::new(None, true, &[]);
    let mut ppu = Ppu::new();
    // LCD on, tile data at 0x8000, sprites and background on.
    mmu.write_8(LCD_CONTROL_REG, 0x93, Caller::CPU);
    mmu.write_8(BGP_REG, 0xE4, Caller::CPU);
    // Tile 0, row 0: colour 2 everywhere.
    mmu.write_8(0x8000, 0xFF, Caller::CPU);
    // Tile 1, row 0: colour 3 in column 0.
    mmu.write_8(0x8010, 0x80, Caller::CPU);
    mmu.write_8(0x8011, 0x80, Caller::CPU);
    // Sprite 0 at the top-left corner, tile 1.
    mmu.write_8(OAM_START, 16, Caller::CPU);
    mmu.write_8(OAM_START + 1, 8, Caller::CPU);
    mmu.write_8(OAM_START + 2, 1, Caller::CPU);
    ppu.oam_search(&mmu);
    assert_eq!(ppu.sprite_attributes[0].tile_index, 1);
    ppu.pixel_transfer(&mmu);
    assert_eq!(ppu.lcd.pixel(0, 0), 11);
    assert_eq!(ppu.lcd.pixel(1, 0), 2);
    assert_eq!(ppu.lcd.pixel(159, 0), 2);
    assert_eq!(ppu.lcd.pixel(0, 1), 0);
}

#[test]
fn screen_dump_frames_the_screen() {
    let lcd = Lcd::new();
    let text = Debugger::screen_dump(&lcd);
    assert_eq!(text.len(), 146 * 163);
    assert_eq!(text[0], b'_');
    assert_eq!(text[162], b'\n');
    assert_eq!(text[163], b'|');
    assert_eq!(text[164], b' ');
    assert_eq!(text[163 + 161], b'|');
    assert_eq!(text[145 * 163], b'_');
}

#[test]
fn debugger_break_toggles_and_dumps_on_pause() {
    let mut d = Debugger::new();
    assert!(!d.is_active());
    assert!(d.break_or_cont());
    assert!(d.is_active());
    assert!(!d.break_or_cont());
    assert!(!d.is_active());
    assert!(d.peek());
    let mut off = Debugger { enabled: false, active: false };
    assert!(!off.break_or_cont());
    assert!(!off.peek());
}

#[test]
fn disassembly_lists_each_instruction() {
    let rom = vec![0x00, 0x3E, 0x42, 0xCB, 0x37, 0xC3, 0x00, 0x01];
    let lines = decode_listing(&rom);
    assert_eq!(lines.len(), 4);
    assert_eq!((lines[0].pc, lines[0].opcode, lines[0].mnemonic, lines[0].num_args), (0, 0x0000, "NOP", 0));
    assert_eq!((lines[1].pc, lines[1].mnemonic, lines[1].num_args, lines[1].arg0), (1, "LD A,d8", 1, 0x42));
    assert_eq!((lines[2].pc, lines[2].opcode, lines[2].mnemonic), (3, 0xCB37, "SWAP A"));
    assert_eq!((lines[3].pc, lines[3].mnemonic, lines[3].arg0, lines[3].arg1), (5, "JP a16", 0x00, 0x01));
}

#[test]
fn command_line_flags() {
    let args: Vec<String> = vec!["gamboy".to_string(), "roms/x.gb".to_string(), "skipboot".to_string(),
        "printcpu".to_string()];
    let parsed = EmuArgs::parse_args(&args);
    assert_eq!(parsed.rom_filepath, "roms/x.gb");
    assert!(parsed.skip_boot);
    assert!(!parsed.debug_enabled);
    assert!(parsed.print_cpu_instrs);
    let none = EmuArgs::parse_args(&vec!["gamboy".to_string()]);
    assert_eq!(none.rom_filepath, "");
    assert!(!none.skip_boot && !none.debug_enabled && !none.print_cpu_instrs);
}

#[test]
fn host_events_map_to_callbacks_and_buttons() {
    let mut buttons = JoypadButtons::new();
    assert_eq!(input_event(&mut buttons, HostEvent::KeyDown(HostKey::S)), Some(Callback::InputKeyStart));
    assert!(buttons.start);
    assert_eq!(input_event(&mut buttons, HostEvent::KeyUp(HostKey::S)), None);
    assert!(!buttons.start);
    assert_eq!(input_event(&mut buttons, HostEvent::KeyDown(HostKey::Z)), Some(Callback::InputKeyB));
    assert!(buttons.b);
    assert_eq!(input_event(&mut buttons, HostEvent::KeyDown(HostKey::A)), Some(Callback::InputKeySelect));
    assert!(buttons.select);
    assert_eq!(input_event(&mut buttons, HostEvent::KeyDown(HostKey::X)), Some(Callback::InputKeyA));
    assert!(buttons.a);
    assert!(!buttons.up && !buttons.down && !buttons.left && !buttons.right);
    assert_eq!(input_event(&mut buttons, HostEvent::KeyDown(HostKey::B)), Some(Callback::DebugBreak));
    assert_eq!(input_event(&mut buttons, HostEvent::KeyDown(HostKey::Escape)), Some(Callback::Exit));
    assert_eq!(input_event(&mut buttons, HostEvent::Quit), Some(Callback::Exit));
    assert_eq!(input_event(&mut buttons, HostEvent::KeyDown(HostKey::Other)), None);
}

#[test]
fn console_pauses_under_the_debugger() {
    let bootrom = [0u8; 0x100];
    let mut console = Console::new(true, false, false, None, &bootrom);
    assert_eq!(console.main_tick(), Ok(4));
    assert_eq!(console.cpu.registers.get_word(CpuRegIndex::PC), 1);
    assert_eq!(console.handle_callback(Callback::DebugBreak), CallbackOutcome::Dump);
    assert_eq!(console.main_tick(), Ok(4));
    assert_eq!(console.cpu.registers.get_word(CpuRegIndex::PC), 1);
    assert_eq!(console.handle_callback(Callback::DebugBreak), CallbackOutcome::Continue);
    assert_eq!(console.main_tick(), Ok(4));
    assert_eq!(console.cpu.registers.get_word(CpuRegIndex::PC), 2);
    assert_eq!(console.handle_callback(Callback::DebugPeek), CallbackOutcome::Dump);
    assert_eq!(console.handle_callback(Callback::DebugPrintScreen), CallbackOutcome::PrintScreen);
    assert_eq!(console.handle_callback(Callback::Exit), CallbackOutcome::Exit);
    assert_eq!(console.handle_callback(Callback::InputKeyA), CallbackOutcome::Continue);
    assert_eq!(console.mmu.read_8(IF_REG, Caller::CPU) & 0x10, 0x10);
    console.end_frame(100);
    console.end_frame(300);
    assert_eq!(console.average_cycles_per_frame(), 200);
    assert_eq!(console.average_frames_per_second(), 2);
}

#[test]
fn skipping_the_boot_sets_up_registers() {
    let mut console = Console::new(false, false, true, None, &[]);
    console.skip_boot_setup();
    assert_eq!(console.cpu.registers.get_word(CpuRegIndex::AF), 0x01B0);
    assert_eq!(console.cpu.registers.get_word(CpuRegIndex::PC), 0x0100);
    assert_eq!(console.cpu.registers.get_word(CpuRegIndex::SP), 0xFFFE);
    assert_eq!(console.mmu.read_8(LCD_CONTROL_REG, Caller::CPU), 0x91);
    assert!(!console.mmu.is_booting);
    assert_eq!(console.handle_callback(Callback::DebugBreak), CallbackOutcome::Continue);
}

#[test]
fn cartridge_loading_checks_the_header() {
    assert!(Cartridge::is_loadable(&vec![0u8; 0x10]));
    let mut mbc2 = vec![0u8; 0x8000];
    mbc2[0x147] = 0x05;
    assert!(!Cartridge::is_loadable(&mbc2));
    let mut bad_size = vec![0u8; 0x8000];
    bad_size[0x148] = 31;
    assert!(!Cartridge::is_loadable(&bad_size));
    let small = Cartridge::from_bytes(vec![0x11u8; 0x10]);
    assert_eq!(small.data.len(), 0x2000);
    assert_eq!(small.data[0x0F], 0x11);
    assert_eq!(small.data[0x10], 0x00);
    assert_eq!(ram_size_of(3), 32);
    assert_eq!(ram_size_of(9), 0);
}

#[test]
fn mbc1_switches_rom_banks() {
    let mut data = vec![0u8; 0x10000];
    data[0x147] = 0x01;
    data[0x148] = 0x01;
    data[0x4000] = 0x44;
    data[0x8000] = 0x55;
    let header = CartridgeHeader::new(&data).unwrap();
    assert_eq!(header.rom_size, 64);
    assert_eq!(header.cartridge_type, CartridgeType::Mbc1 { ram: false, battery: false, is_multicart: false });
    let mut cart = Cartridge::from_bytes(data);
    assert_eq!(cart.read_8_rom(0x4000), 0x44);
    cart.write_8_rom(0x2000, 2);
    assert_eq!(cart.read_8_rom(0x4000), 0x55);
    cart.write_8_rom(0x2000, 0);
    assert_eq!(cart.read_8_rom(0x4000), 0x44);
}

#[test]
fn memory_bus_maps_video_ram() {
    let mut bus = MemoryBus::new();
    bus.write_byte(0x8000, 0xFF);
    bus.write_byte(0x9FFF, 0x12);
    assert_eq!(bus.read_byte(0x8000), 0xFF);
    assert_eq!(bus.read_byte(0x9FFF), 0x12);
    assert_eq!(bus.read_byte(0x8001), 0x00);
    bus.gpu.update_tileset(0);
    assert_eq!(bus.gpu.tile_set[0], PixelColor::_01);
    assert_eq!(bus.gpu.tile_set[7], PixelColor::_01);
    assert_eq!(bus.gpu.tile_set[8], PixelColor::_00);
}

#[test]
fn ly_stays_in_range_while_the_ppu_runs() {
    let mut mmu = Mmu::new(None, true, &[]);
    let cpu = Cpu::new(false);
    let mut ppu = Ppu::new();
    mmu.write_8(LCD_CONTROL_REG, 0x80, Caller::CPU);
    let mut saw_vblank = false;
    for _ in 0..40000 {
        ppu.step(8, &cpu.interrupts, &mut mmu);
        let ly = mmu.read_8(LY_REG, Caller::CPU);
        let mode = mmu.read_8(LCD_STATUS_REG, Caller::CPU) & 0x03;
        assert!(ly < 154);
        if mode == 2 || mode == 3 {
            assert!(ly < 144);
        }
        if mode == 1 {
            saw_vblank = true;
            assert!(ly >= 144);
        }
    }
    assert!(saw_vblank);
}

#[test]
fn mbc1_external_ram_reads_back_when_enabled() {
    let mut data = vec![0u8; 0x8000];
    data[0x147] = 0x02;
    let mut cart = Cartridge::from_bytes(data);
    assert_eq!(cart.read_8_ram(0xA000), 0xFF);
    cart.write_8_rom(0x0000, 0x0A);
    cart.write_8_ram(0xA001, 0x77);
    assert_eq!(cart.read_8_ram(0xA001), 0x77);
    cart.write_8_rom(0x0000, 0x00);
    assert_eq!(cart.read_8_ram(0xA001), 0xFF);
}

#[test]
fn console_tick_runs_the_boot_rom() {
    let bootrom = [0u8; 0x100];
    let mut console = Console::new(false, false, false, None, &bootrom);
    assert_eq!(console.main_tick(), Ok(4));
    assert_eq!(console.cpu.registers.get_word(CpuRegIndex::PC), 1);
    assert_eq!(console.cycles, 4);
}

#[test]
fn console_tick_reports_the_status_of_an_invalid_opcode() {
    let mut bootrom = [0u8; 0x100];
    bootrom[0] = 0xD3;
    let mut console = Console::new(false, false, false, None, &bootrom);
    assert_eq!(console.main_tick(), Err(TickError::Status(-1)));
    assert_eq!(console.cycles, -1);
    assert_eq!(console.main_tick(), Err(TickError::Fault));
}

#[test]
fn console_tick_faults_without_a_cartridge() {
    let bootrom = [0u8; 0x100];
    let mut console = Console::new(false, false, true, None, &bootrom);
    console.skip_boot_setup();
    assert_eq!(console.cpu.registers.get_word(CpuRegIndex::PC), 0x0100);
    assert_eq!(console.main_tick(), Err(TickError::Fault));
}

#[test]
fn memory_checks_follow_the_memory_map() {
    let mut mmu = Mmu::new(None, false, &[0u8; 0x100]);
    assert!(mmu.can_read_8(0x0000));
    assert!(mmu.can_read_8(0x0100));
    assert!(!mmu.can_read_8(0x0101));
    assert!(!mmu.can_write_8(0x0000));
    assert!(!mmu.can_read_8(0xA000));
    assert!(mmu.can_write_8(0xA000));
    assert!(mmu.can_read_16(0xC000));
    assert!(!mmu.can_read_16(0xFFFF));
    mmu.is_booting = false;
    assert!(!mmu.can_read_8(0x0000));
}

fn browser_entry(name: &str, is_dir: bool, is_symlink: bool) -> BrowserEntry {
    BrowserEntry { name: name.as_bytes().to_vec(), is_dir, is_symlink }
}

#[test]
fn rom_browser_lists_directories_then_files_by_name() {
    let entries = vec![
        browser_entry("tetris.gb", false, false),
        browser_entry("zelda", true, false),
        browser_entry("backup.zip", false, false),
        browser_entry("alpha", true, false),
        browser_entry("link.gb", false, true),
        browser_entry("dr_mario.gb", false, false),
        browser_entry("link_dir", true, true),
    ];
    assert_eq!(browser_listing(&entries), vec![3, 6, 1, 5, 0]);
}

#[test]
fn rom_browser_orders_names_bytewise() {
    let entries = vec![
        browser_entry("b", false, false),
        browser_entry("tetris.gb", false, false),
        browser_entry("B", false, false),
        browser_entry("tetris", false, false),
        browser_entry("a", false, false),
        browser_entry("a.zip.gb", false, false),
    ];
    assert_eq!(browser_listing(&entries), vec![2, 4, 0, 3, 1]);
    assert_eq!(browser_listing(&vec![]), Vec::<usize>::new());
}

#[test]
fn rom_browser_moves_on_a_selection() {
    assert_eq!(browser_move(0, true, true, 3), BrowserMove::Refused);
    assert_eq!(browser_move(0, true, false, 3), BrowserMove::Up);
    assert_eq!(browser_move(0, false, true, 3), BrowserMove::Up);
    assert_eq!(browser_move(1, true, true, 3), BrowserMove::Enter(0));
    assert_eq!(browser_move(3, false, false, 3), BrowserMove::Enter(2));
    assert_eq!(browser_move(4, false, false, 3), BrowserMove::Stay);
}

#[test]
fn disassembly_text_matches_the_listing_format() {
    let rom = vec![0x00, 0x3E, 0x42, 0xCB, 0x37, 0xC3, 0x00, 0x01];
    assert_eq!(disassemble(&rom), "0x0000\t0x0000\tNOP           \n0x0001\t0x003E\tLD A,d8       \t0x42\n0x0003\t0xCB37\tSWAP A        \n0x0005\t0x00C3\tJP a16        \t0x00\t0x01\n");
    let (line, next) = disassemble_line(1, &rom);
    assert_eq!(line, "0x0001\t0x003E\tLD A,d8       \t0x42\n");
    assert_eq!(next, 3);
    for l in decode_listing(&rom) {
        let mut expected = format!("{:#06X}\t{:#06X}\t{:<14}", l.pc, l.opcode, l.mnemonic);
        if l.num_args > 0 {
            expected.push_str(&format!("\t{:#04X}", l.arg0));
        }
        if l.num_args > 1 {
            expected.push_str(&format!("\t{:#04X}", l.arg1));
        }
        expected.push('\n');
        assert_eq!(l.text(), expected);
    }
}

#[test]
fn disassembly_text_widens_large_addresses() {
    let mut rom = vec![0u8; 0x10003];
    rom[0x10000] = 0xFA;
    rom[0x10001] = 0x34;
    rom[0x10002] = 0x12;
    let listing = decode_listing(&rom);
    assert_eq!(listing[0x10000].text(), "0x10000\t0x00FA\tLD A,(a16)    \t0x34\t0x12\n");
}

#[test]
fn registers_text_lists_each_register() {
    let mut r = CpuRegisters::new();
    r.set_byte(CpuRegIndex::A, 0x12);
    r.set_byte(CpuRegIndex::B, 0xAB);
    r.set_word(CpuRegIndex::PC, 0x0100);
    r.set_word(CpuRegIndex::SP, 0xFFFE);
    let expected = format!(
        "\ta: {:#04X}\n\tb: {:#04X}\n\tc: {:#04X}\n\td: {:#04X}\n\te: {:#04X}\n\tf: {:#04X}\n\th: {:#04X}\n\tl: {:#04X}\n\tpc: {:#06X}\n\tsp: {:#06X}\n",
        0x12, 0xAB, 0, 0, 0, 0, 0, 0, 0x0100, 0xFFFE);
    assert_eq!(r.to_string(), expected);
    assert!(r.to_string().starts_with("\ta: 0x12\n\tb: 0xAB\n"));
}

#[test]
fn memory_dump_shows_the_start_of_video_ram() {
    let mut mmu = Mmu::new(None, true, &[]);
    mmu.write_8(0x8001, 0x3C, Caller::CPU);
    mmu.write_8(0x801F, 0x01, Caller::CPU);
    let mut expected = String::from("VRAM[0x0000..0x0020]:\t\n");
    expected.push_str("\n0x8000 :\t____\t0x3C");
    for _ in 0..14 {
        expected.push_str("\t____");
    }
    expected.push_str("\n\n0x8010 :");
    for _ in 0..15 {
        expected.push_str("\t____");
    }
    expected.push_str("\t0x01\n\n\n");
    assert_eq!(Debugger::dump_mmu_state(&mmu), expected);
}

#[test]
fn console_ticks_keep_ly_in_range() {
    let cartridge = Cartridge::from_bytes(vec![0u8; 0x8000]);
    let mut console = Console::new(false, false, true, Some(cartridge), &[0u8; 0x100]);
    console.skip_boot_setup();
    let mut lines_seen = [false; 154];
    for _ in 0..30000 {
        assert!(console.main_tick().is_ok());
        let ly = console.mmu.read_8(LY_REG, Caller::PPU);
        let mode = console.mmu.read_8(LCD_STATUS_REG, Caller::PPU) & 0x03;
        assert!(ly < 154);
        if mode == 2 || mode == 3 {
            assert!(ly < 144);
        }
        lines_seen[ly as usize] = true;
    }
    assert!(lines_seen.iter().all(|&seen| seen));
}

#[test]
fn mbc1_external_ram_ignores_writes_when_disabled() {
    let mut data = vec![0u8; 0x8000];
    data[0x147] = 0x02;
    let mut cart = Cartridge::from_bytes(data);
    let before = cart.data.clone();
    cart.write_8_ram(0xA001, 0x77);
    assert_eq!(cart.data, before);
    cart.write_8_rom(0x0000, 0x0A);
    assert_eq!(cart.read_8_ram(0xA001), 0x00);
}

#[test]
fn rom_size_codes_up_to_thirty_are_loadable() {
    let mut data = vec![0u8; 0x8000];
    data[0x148] = 30;
    assert!(Cartridge::is_loadable(&data));
    let cart = Cartridge::from_bytes(data.clone());
    assert_eq!(cart.header.unwrap().rom_size, 32usize << 30);
    data[0x148] = 31;
    assert!(!Cartridge::is_loadable(&data));
}

#[test]
fn host_events_apply_in_order() {
    let mut buttons = JoypadButtons { up: false, down: false, left: false, right: false, start: false,
        select: false, a: false, b: false };
    let events = vec![
        HostEvent::KeyDown(HostKey::X),
        HostEvent::Other,
        HostEvent::KeyDown(HostKey::Up),
        HostEvent::KeyUp(HostKey::X),
        HostEvent::KeyUp(HostKey::Other),
        HostEvent::Quit,
        HostEvent::KeyDown(HostKey::P),
    ];
    let callbacks = input_events(&mut buttons, &events);
    assert_eq!(callbacks, vec![Callback::InputKeyA, Callback::InputKeyUp, Callback::Exit, Callback::DebugPeek]);
    assert!(buttons.up && !buttons.a);
    assert!(!buttons.down && !buttons.b && !buttons.start && !buttons.select);
}

#[test]
fn callbacks_stop_at_the_first_exit() {
    let bootrom = [0u8; 0x100];
    let mut console = Console::new(true, false, false, None, &bootrom);
    let outcomes = console.handle_callbacks(&vec![
        Callback::DebugBreak, Callback::DebugPeek, Callback::Exit, Callback::InputKeyA, Callback::DebugBreak,
    ]);
    assert_eq!(outcomes, vec![CallbackOutcome::Dump, CallbackOutcome::Dump, CallbackOutcome::Exit]);
    assert!(console.debugger.unwrap().active);
    assert_eq!(console.mmu.read_8(IF_REG, Caller::CPU) & 0x10, 0);
    let outcomes = console.handle_callbacks(&vec![Callback::InputKeyA, Callback::DebugPrintScreen]);
    assert_eq!(outcomes, vec![CallbackOutcome::Continue, CallbackOutcome::PrintScreen]);
    assert_eq!(console.mmu.read_8(IF_REG, Caller::CPU) & 0x10, 0x10);
}
