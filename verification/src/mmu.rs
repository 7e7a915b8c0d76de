use vstd::prelude::*;
use crate::cartridge::{Cartridge, CartridgeView};
use crate::input::JoypadButtons;
use crate::mbc::Mbc;
use crate::ppu::{StatMode, stat_mode, stat_mode_spec};

verus! {

// OAM
pub const OAM_START: u16 = 0xFE00;
pub const OAM_END: u16 = 0xFE9F;
// IO
pub const JOYPAD_REG: u16 = 0xFF00;
// Timer
pub const DIV_REG: u16 = 0xFF04;
pub const TIMA_REG: u16 = 0xFF05;
pub const TMA_REG: u16 = 0xFF06;
pub const TAC_REG: u16 = 0xFF07;
// Interrupts
pub const IF_REG: u16 = 0xFF0F;
// PPU
pub const LCD_CONTROL_REG: u16 = 0xFF40;
pub const LCD_STATUS_REG: u16 = 0xFF41;
pub const SCY_REG: u16 = 0xFF42;
pub const SCX_REG: u16 = 0xFF43;
pub const LY_REG: u16 = 0xFF44;
pub const LYC_REG: u16 = 0xFF45;
pub const DMA_REG: u16 = 0xFF46;
pub const BGP_REG: u16 = 0xFF47;
pub const OBP0_REG: u16 = 0xFF48;
pub const OBP1_REG: u16 = 0xFF49;
pub const WY_REG: u16 = 0xFF4A;
pub const WX_REG: u16 = 0xFF4B;
// Banking, MBC
pub const BANK_REG: u16 = 0xFF50;
// Interrupts
pub const IE_REG: u16 = 0xFFFF;

/// The bits of the LCD control register (LCDC).
#[derive(Clone, Copy, PartialEq, Eq, Structural, Debug)]
pub enum LcdControlRegBit {
    /// 0: BG and Window enable/priority
    BackgroundAndWindowEnabled,
    /// 1: OBJ enable
    ObjEnabled,
    /// 2: OBJ size, 0=8x8, 1=8x16
    SpriteSizeIs16,
    /// 3: BG tile map area, 0=9800-9BFF, 1=9C00-9FFF
    BackgroundTilemapIsAt9C00,
    /// 4: BG and Window tile data area, 0=8800-97FF, 1=8000-8FFF
    AddressingMode8000,
    /// 5: Window enable
    WindowEnabled,
    /// 6: Window tile map area, 0=9800-9BFF, 1=9C00-9FFF
    WindowTilemapIsAt9C00,
    /// 7: LCD and PPU enable
    LcdAndPpuEnabled,
}

/// The bits of the LCD status register (STAT).
#[derive(Clone, Copy, PartialEq, Eq, Structural, Debug)]
pub enum LcdStatRegBit {
    ModeBit0,
    ModeBit1,
    /// 2: LYC=LY flag
    LycEqLy,
    /// 3: Mode 0 HBlank STAT interrupt source
    HBlankInterruptEnabled,
    /// 4: Mode 1 VBlank STAT interrupt source
    VBlankInterruptEnabled,
    /// 5: Mode 2 OAM STAT interrupt source
    OamInterruptEnabled,
    /// 6: LYC=LY STAT interrupt source
    LycInterruptEnabled,
}

impl LcdControlRegBit {
    pub open spec fn bit_spec(self) -> u8 {
        match self {
            LcdControlRegBit::BackgroundAndWindowEnabled => 0,
            LcdControlRegBit::ObjEnabled => 1,
            LcdControlRegBit::SpriteSizeIs16 => 2,
            LcdControlRegBit::BackgroundTilemapIsAt9C00 => 3,
            LcdControlRegBit::AddressingMode8000 => 4,
            LcdControlRegBit::WindowEnabled => 5,
            LcdControlRegBit::WindowTilemapIsAt9C00 => 6,
            LcdControlRegBit::LcdAndPpuEnabled => 7,
        }
    }

    /// The bit position (`bit as u8`).
    pub fn bit(self) -> (r: u8)
        ensures
            r == self.bit_spec(),
    {
        match self {
            LcdControlRegBit::BackgroundAndWindowEnabled => 0,
            LcdControlRegBit::ObjEnabled => 1,
            LcdControlRegBit::SpriteSizeIs16 => 2,
            LcdControlRegBit::BackgroundTilemapIsAt9C00 => 3,
            LcdControlRegBit::AddressingMode8000 => 4,
            LcdControlRegBit::WindowEnabled => 5,
            LcdControlRegBit::WindowTilemapIsAt9C00 => 6,
            LcdControlRegBit::LcdAndPpuEnabled => 7,
        }
    }
}

impl LcdStatRegBit {
    pub open spec fn bit_spec(self) -> u8 {
        match self {
            LcdStatRegBit::ModeBit0 => 0,
            LcdStatRegBit::ModeBit1 => 1,
            LcdStatRegBit::LycEqLy => 2,
            LcdStatRegBit::HBlankInterruptEnabled => 3,
            LcdStatRegBit::VBlankInterruptEnabled => 4,
            LcdStatRegBit::OamInterruptEnabled => 5,
            LcdStatRegBit::LycInterruptEnabled => 6,
        }
    }

    /// The bit position (`bit as u8`).
    pub fn bit(self) -> (r: u8)
        ensures
            r == self.bit_spec(),
    {
        match self {
            LcdStatRegBit::ModeBit0 => 0,
            LcdStatRegBit::ModeBit1 => 1,
            LcdStatRegBit::LycEqLy => 2,
            LcdStatRegBit::HBlankInterruptEnabled => 3,
            LcdStatRegBit::VBlankInterruptEnabled => 4,
            LcdStatRegBit::OamInterruptEnabled => 5,
            LcdStatRegBit::LycInterruptEnabled => 6,
        }
    }
}

#[derive(Clone, Copy, PartialEq, Eq, Structural, Debug)]
pub enum Endianness {
    BIG,
    LITTLE,
}

/// Who makes a memory access; some regions answer differently to each.
#[derive(Clone, Copy, PartialEq, Eq, Structural, Debug)]
pub enum Caller {
    CPU,
    PPU,
    TIMER,
}

/// The memory map: boot ROM, cartridge, RAM and the I/O registers.
pub struct Mmu {
    /// 16-bit internal counter whose top byte is DIV; advanced by the timer.
    pub sysclock: u16,
    pub is_booting: bool,
    pub oam_dma_src_addr: Option<u16>,
    pub active_input: JoypadButtons,
    pub cartridge: Option<Cartridge>,
    pub rom: [u8; 0x8000],
    pub ram: [u8; 0x8000],
    pub ppu_mode: StatMode,
}

/// The mathematical model of the memory map.
pub struct MmuView {
    pub sysclock: u16,
    pub is_booting: bool,
    pub oam_dma_src_addr: Option<u16>,
    pub active_input: JoypadButtons,
    pub cartridge: Option<CartridgeView>,
    /// 0x0000-0x7FFF: boot ROM, and the ROM of a cartridge without a controller.
    pub rom: Seq<u8>,
    /// 0x8000-0xFFFF.
    pub ram: Seq<u8>,
    pub ppu_mode: StatMode,
}

impl View for Mmu {
    type V = MmuView;

    open spec fn view(&self) -> MmuView {
        MmuView {
            sysclock: self.sysclock,
            is_booting: self.is_booting,
            oam_dma_src_addr: self.oam_dma_src_addr,
            active_input: self.active_input,
            cartridge: match self.cartridge {
                Some(c) => Some(c@),
                None => None,
            },
            rom: self.rom@,
            ram: self.ram@,
            ppu_mode: self.ppu_mode,
        }
    }
}

/// The value a read of the joypad register gives: the select bits of the
/// register in the top nibble, forced high, and in the low nibble a 0 for each
/// held button of the selected group.
pub open spec fn joypad_read_spec(buttons: JoypadButtons, reg_value: u8) -> u8 {
    let select_action_is_enabled = (reg_value / 32) % 2 == 0;
    let directional_is_enabled = (reg_value / 16) % 2 == 0;
    let active: int = if select_action_is_enabled {
        8 * (if buttons.start { 1int } else { 0 }) + 4 * (if buttons.select { 1int } else { 0 })
            + 2 * (if buttons.b { 1int } else { 0 }) + (if buttons.a { 1int } else { 0 })
    } else if directional_is_enabled {
        8 * (if buttons.down { 1int } else { 0 }) + 4 * (if buttons.up { 1int } else { 0 })
            + 2 * (if buttons.left { 1int } else { 0 }) + (if buttons.right { 1int } else { 0 })
    } else {
        0
    };
    (0xF0 + (15 - active)) as u8
}

impl MmuView {
    /// Both memories have their full size.
    pub open spec fn wf(self) -> bool {
        self.rom.len() == 0x8000 && self.ram.len() == 0x8000
    }

    /// The byte stored in RAM for an address of 0x8000 and above.
    pub open spec fn ram_at(self, address: u16) -> u8 {
        self.ram[address - 0x8000]
    }

    /// The memory with the RAM byte of an address of 0x8000 and above replaced.
    pub open spec fn with_ram(self, address: u16, value: u8) -> MmuView {
        MmuView { ram: self.ram.update(address - 0x8000, value), ..self }
    }

    pub open spec fn boot_rom_mapped(self, address: u16) -> bool {
        address <= 0x0100 && self.is_booting
    }

    /// Whether reading 0x0000-0x7FFF is defined: the boot ROM is mapped there or a
    /// cartridge answers.
    pub open spec fn read_rom_ok(self, address: u16) -> bool {
        address <= 0x7FFF && (self.boot_rom_mapped(address) || (self.cartridge is Some
            && self.cartridge->0.read_rom_ok(address)))
    }

    pub open spec fn read_rom(self, address: u16) -> u8 {
        if self.boot_rom_mapped(address) {
            self.rom[address as int]
        } else {
            self.cartridge->0.read_rom(address)
        }
    }

    /// Whether reading 0x8000-0xFFFF is defined: only external RAM needs a cartridge.
    pub open spec fn read_ram_ok(self, address: u16) -> bool {
        address >= 0x8000 && (0xA000 <= address <= 0xBFFF ==> (self.cartridge is Some
            && self.cartridge->0.read_ram_ok(address)))
    }

    pub open spec fn read_ram(self, address: u16, caller: Caller) -> u8 {
        if address <= 0x9FFF {
            // VRAM: locked while the PPU transfers pixels.
            if caller == Caller::PPU || self.ppu_mode != StatMode::PixelTransfer {
                self.ram_at(address)
            } else {
                0xFF
            }
        } else if address <= 0xBFFF {
            self.cartridge->0.read_ram(address)
        } else if address <= 0xDFFF {
            self.ram_at(address)
        } else if address <= 0xFDFF {
            // Echo RAM, mirroring C000-DDFF.
            self.ram[address - 0xA000]
        } else if address <= 0xFE9F {
            // OAM: locked during OAM search and pixel transfer.
            if caller == Caller::PPU || (self.ppu_mode != StatMode::OamSearch
                && self.ppu_mode != StatMode::PixelTransfer) {
                self.ram_at(address)
            } else {
                0xFF
            }
        } else if address <= 0xFEFF {
            if self.ppu_mode == StatMode::OamSearch { 0xFF } else { 0x00 }
        } else if address == JOYPAD_REG {
            joypad_read_spec(self.active_input, self.ram_at(address))
        } else {
            self.ram_at(address)
        }
    }

    pub open spec fn read_8_ok(self, address: u16) -> bool {
        if address <= 0x7FFF { self.read_rom_ok(address) } else { self.read_ram_ok(address) }
    }

    /// The byte that a read of `address` by `caller` gives.
    pub open spec fn read_8(self, address: u16, caller: Caller) -> u8 {
        if address <= 0x7FFF { self.read_rom(address) } else { self.read_ram(address, caller) }
    }

    /// Whether writing 0x0000-0x7FFF is defined: the boot ROM is not mapped there
    /// and a cartridge without a controller or with an MBC1 answers.
    pub open spec fn write_rom_ok(self, address: u16) -> bool {
        &&& address <= 0x7FFF
        &&& !self.boot_rom_mapped(address)
        &&& self.cartridge is Some
        &&& match self.cartridge->0.mbc {
            Mbc::NoMbc | Mbc::Mbc1 { .. } => true,
            _ => false,
        }
    }

    /// The memory after writing 0x0000-0x7FFF: a cartridge without a controller
    /// stores into ROM, an MBC1 takes the byte into its registers.
    pub open spec fn write_rom(self, address: u16, value: u8) -> MmuView {
        match self.cartridge->0.mbc {
            Mbc::Mbc1 { mbc } => MmuView {
                cartridge: Some(CartridgeView {
                    mbc: Mbc::Mbc1 { mbc: mbc.write_register_spec(address, value) },
                    ..self.cartridge->0
                }),
                ..self
            },
            _ => MmuView { rom: self.rom.update(address as int, value), ..self },
        }
    }

    /// Whether writing 0x8000-0xFFFF is defined: only external RAM of a cartridge may refuse.
    pub open spec fn write_ram_ok(self, address: u16) -> bool {
        address >= 0x8000 && (0xA000 <= address <= 0xBFFF && self.cartridge is Some
            ==> self.cartridge->0.write_ram_ok(address))
    }

    /// The memory after writing `value` to `address` (0x8000 and above) as `caller`.
    pub open spec fn write_ram(self, address: u16, value: u8, caller: Caller) -> MmuView {
        if address <= 0x9FFF {
            if caller == Caller::PPU || self.ppu_mode != StatMode::PixelTransfer {
                self.with_ram(address, value)
            } else {
                self
            }
        } else if address <= 0xBFFF {
            if self.cartridge is Some {
                MmuView { cartridge: Some(self.cartridge->0.write_ram(address, value)), ..self }
            } else {
                self.with_ram(address, value)
            }
        } else if address <= 0xFDFF {
            self.with_ram(address, value)
        } else if address <= 0xFE9F {
            if caller == Caller::PPU || (self.ppu_mode != StatMode::OamSearch
                && self.ppu_mode != StatMode::PixelTransfer) {
                self.with_ram(address, value)
            } else {
                self
            }
        } else if address <= 0xFEFF {
            self.with_ram(address, value)
        } else if address <= 0xFF7F {
            self.write_io(address, value, caller)
        } else {
            self.with_ram(address, value)
        }
    }

    /// The memory after writing an I/O register.
    pub open spec fn write_io(self, address: u16, value: u8, caller: Caller) -> MmuView {
        let current = self.ram_at(address);
        if address == DIV_REG {
            if caller == Caller::TIMER {
                self.with_ram(address, value)
            } else {
                // Any other write resets DIV and the internal counter.
                MmuView { sysclock: 0, ..self.with_ram(address, 0) }
            }
        } else if address == TAC_REG {
            self.with_ram(address, value % 8)
        } else if address == JOYPAD_REG {
            // The low nibble is read only.
            self.with_ram(address, (value / 16 * 16 + current % 16) as u8)
        } else if address == LY_REG {
            if caller == Caller::PPU { self.with_ram(address, value) } else { self }
        } else if address == LCD_STATUS_REG {
            if caller == Caller::PPU {
                MmuView { ppu_mode: stat_mode_spec((value % 4) as int), ..self.with_ram(address, value) }
            } else {
                // Bits 0-2 are read only.
                self.with_ram(address, (value / 8 * 8 + current % 8) as u8)
            }
        } else if address == LCD_CONTROL_REG {
            if self.ppu_mode == StatMode::VBlank {
                self.with_ram(address, value)
            } else {
                // Outside VBlank bit 7 cannot be cleared.
                self.with_ram(address, value | (current & 0x80))
            }
        } else if address == DMA_REG {
            MmuView { oam_dma_src_addr: Some((value * 256) as u16), ..self.with_ram(address, value) }
        } else if address == BANK_REG {
            let m = self.with_ram(address, value);
            if self.is_booting && value % 2 == 1 { MmuView { is_booting: false, ..m } } else { m }
        } else {
            self.with_ram(address, value)
        }
    }

    pub open spec fn write_8_ok(self, address: u16) -> bool {
        if address <= 0x7FFF { self.write_rom_ok(address) } else { self.write_ram_ok(address) }
    }

    /// The memory after `caller` writes `value` to `address`.
    pub open spec fn write_8(self, address: u16, value: u8, caller: Caller) -> MmuView {
        if address <= 0x7FFF { self.write_rom(address, value) } else { self.write_ram(address, value, caller) }
    }

    /// Whether a 16-bit read at `address` is defined.
    pub open spec fn read_16_ok(self, address: u16) -> bool {
        address < 0xFFFF && self.read_8_ok(address) && self.read_8_ok((address + 1) as u16)
    }

    /// The word read at `address`: the first byte is the low one for `BIG`, the high one for `LITTLE`.
    pub open spec fn read_16(self, address: u16, endian: Endianness, caller: Caller) -> u16 {
        let first = self.read_8(address, caller);
        let second = self.read_8((address + 1) as u16, caller);
        match endian {
            Endianness::BIG => (second * 256 + first) as u16,
            Endianness::LITTLE => (first * 256 + second) as u16,
        }
    }

    /// The two bytes a 16-bit write stores, in address order.
    pub open spec fn word_bytes(value: u16, endian: Endianness) -> (u8, u8) {
        match endian {
            Endianness::BIG => ((value % 256) as u8, (value / 256) as u8),
            Endianness::LITTLE => ((value / 256) as u8, (value % 256) as u8),
        }
    }

    pub open spec fn write_16_ok(self, address: u16, value: u16, endian: Endianness, caller: Caller) -> bool {
        &&& address < 0xFFFF
        &&& self.write_8_ok(address)
        &&& self.write_8(address, Self::word_bytes(value, endian).0, caller).write_8_ok((address + 1) as u16)
    }

    pub open spec fn write_16(self, address: u16, value: u16, endian: Endianness, caller: Caller) -> MmuView {
        let (first, second) = Self::word_bytes(value, endian);
        self.write_8(address, first, caller).write_8((address + 1) as u16, second, caller)
    }
}

impl Mmu {
    /// A memory map with the given cartridge; unless the boot is skipped the boot
    /// ROM (its first 0x100 bytes) is mapped at 0x0000.
    pub fn new(cartridge: Option<Cartridge>, skip_boot: bool, bootrom: &[u8]) -> (r: Mmu)
        ensures
            r@.wf(),
            r@.sysclock == 0,
            r@.is_booting,
            r@.oam_dma_src_addr is None,
            r@.cartridge == (match cartridge { Some(c) => Some(c@), None => None }),
            r@.ppu_mode == StatMode::HBlank,
            forall|k| !r@.active_input.holds(k),
            forall|i: int| 0 <= i < 0x8000 ==> r@.rom[i] == if !skip_boot && i < bootrom@.len()
                && i < 0x100 { bootrom@[i] } else { 0 },
            forall|i: int| 0 <= i < 0x8000 ==> r@.ram[i] == if i == JOYPAD_REG - 0x8000 { 0x1Fu8 } else { 0 },
    {
        let mut mmu = Mmu {
            sysclock: 0,
            is_booting: true,
            oam_dma_src_addr: None,
            active_input: JoypadButtons::new(),
            cartridge,
            rom: [0; 0x8000],
            ram: [0; 0x8000],
            ppu_mode: StatMode::HBlank,
        };
        if !skip_boot {
            mmu.load_bootrom(bootrom);
        }
        mmu.ram[(JOYPAD_REG - 0x8000) as usize] = 0x1F;
        mmu
    }

    /// Copies the boot ROM (at most its first 0x100 bytes) to 0x0000.
    pub fn load_bootrom(&mut self, bootrom: &[u8])
        ensures
            final(self)@ == (MmuView {
                rom: Seq::new(0x8000, |i: int| if i < bootrom@.len() && i < 0x100 {
                    bootrom@[i]
                } else {
                    old(self)@.rom[i]
                }),
                ..old(self)@
            }),
    {
        let size = if bootrom.len() < 0x100 { bootrom.len() } else { 0x100 };
        let mut i: usize = 0;
        assert(self.rom@ =~= Seq::new(0x8000, |j: int| if j < 0 { bootrom@[j] } else { old(self)@.rom[j] }));
        while i < size
            invariant
                size <= 0x100,
                size <= bootrom@.len(),
                i <= size,
                self@ == (MmuView {
                    rom: Seq::new(0x8000, |j: int| if j < i { bootrom@[j] } else { old(self)@.rom[j] }),
                    ..old(self)@
                }),
            decreases size - i,
        {
            self.rom[i] = bootrom[i];
            i += 1;
            assert(self.rom@ =~= Seq::new(0x8000, |j: int| if j < i { bootrom@[j] } else { old(self)@.rom[j] }));
        }
        assert(self.rom@ =~= Seq::new(0x8000, |j: int| if j < bootrom@.len() && j < 0x100 {
            bootrom@[j]
        } else {
            old(self)@.rom[j]
        }));
    }

    /// Whether a read of `address` is defined.
    pub fn can_read_8(&self, address: u16) -> (r: bool)
        ensures
            r == self@.read_8_ok(address),
    {
        if address <= 0x7FFF {
            if address <= 0x0100 && self.is_booting {
                true
            } else {
                match &self.cartridge {
                    Some(cartridge) => cartridge.can_read_rom(address),
                    None => false,
                }
            }
        } else if 0xA000 <= address && address <= 0xBFFF {
            match &self.cartridge {
                Some(cartridge) => cartridge.can_read_ram(address),
                None => false,
            }
        } else {
            true
        }
    }

    /// Whether a write of `address` is defined.
    pub fn can_write_8(&self, address: u16) -> (r: bool)
        ensures
            r == self@.write_8_ok(address),
    {
        if address <= 0x7FFF {
            if address <= 0x0100 && self.is_booting {
                false
            } else {
                match &self.cartridge {
                    Some(cartridge) => match cartridge.mbc {
                        Mbc::NoMbc | Mbc::Mbc1 { .. } => true,
                        _ => false,
                    },
                    None => false,
                }
            }
        } else if 0xA000 <= address && address <= 0xBFFF {
            match &self.cartridge {
                Some(cartridge) => cartridge.can_write_ram(address),
                None => true,
            }
        } else {
            true
        }
    }

    /// Whether a 16-bit read at `address` is defined.
    pub fn can_read_16(&self, address: u16) -> (r: bool)
        ensures
            r == self@.read_16_ok(address),
    {
        address < 0xFFFF && self.can_read_8(address) && self.can_read_8(address + 1)
    }

    /// Whether a 16-bit write at `address` is defined (whatever the value).
    pub fn can_write_16(&self, address: u16, value: u16, endian: Endianness, caller: Caller) -> (r: bool)
        ensures
            r == self@.write_16_ok(address, value, endian, caller),
    {
        proof { lemma_write_16_ok(self@, address, value, endian, caller); }
        address < 0xFFFF && self.can_write_8(address) && self.can_write_8(address + 1)
    }

    pub fn read_8(&self, address: u16, caller: Caller) -> (r: u8)
        requires
            self@.read_8_ok(address),
        ensures
            r == self@.read_8(address, caller),
    {
        if address <= 0x7FFF {
            self.read_8_rom(address, caller)
        } else {
            self.read_8_ram(address, caller)
        }
    }

    pub fn read_16(&self, address: u16, endian: Endianness, caller: Caller) -> (r: u16)
        requires
            self@.read_16_ok(address),
        ensures
            r == self@.read_16(address, endian, caller),
    {
        let lsb: u8 = self.read_8(address, caller);
        let msb: u8 = self.read_8(address + 1, caller);
        proof { crate::bits::lemma_byte_pair_bits(msb, lsb); crate::bits::lemma_byte_pair_bits(lsb, msb); }
        match endian {
            Endianness::BIG => (msb as u16) << 8 | lsb as u16,
            Endianness::LITTLE => (lsb as u16) << 8 | msb as u16,
        }
    }

    pub fn read_buffer(&self, start: u16, end: u16, caller: Caller) -> (r: Vec<u8>)
        requires
            start <= end,
            forall|a: u16| start <= a < end ==> self@.read_8_ok(a),
        ensures
            r@ == Seq::new((end - start) as nat, |i: int| self@.read_8((start + i) as u16, caller)),
    {
        let mut result: Vec<u8> = Vec::new();
        let mut address = start;
        while address < end
            invariant
                start <= address <= end,
                forall|a: u16| start <= a < end ==> self@.read_8_ok(a),
                result@ == Seq::new((address - start) as nat, |i: int| self@.read_8((start + i) as u16, caller)),
            decreases end - address,
        {
            let v = self.read_8(address, caller);
            result.push(v);
            address += 1;
            assert(result@ =~= Seq::new((address - start) as nat, |i: int| self@.read_8((start + i) as u16, caller)));
        }
        result
    }

    pub fn write_8(&mut self, address: u16, value: u8, caller: Caller)
        requires
            old(self)@.write_8_ok(address),
        ensures
            final(self)@ == old(self)@.write_8(address, value, caller),
    {
        if address <= 0x7FFF {
            self.write_8_rom(address, value, caller);
        } else {
            self.write_8_ram(address, value, caller);
        }
    }

    pub fn write_16(&mut self, address: u16, value: u16, endian: Endianness, caller: Caller)
        requires
            old(self)@.write_16_ok(address, value, endian, caller),
        ensures
            final(self)@ == old(self)@.write_16(address, value, endian, caller),
    {
        proof { crate::bits::lemma_word_bytes(value); }
        let mut a = ((value & 0xFF00) >> 8) as u8;
        let mut b = (value & 0x00FF) as u8;

        if endian == Endianness::BIG {
            let temp = a;
            a = b;
            b = temp;
        }

        self.write_8(address, a, caller);
        self.write_8(address + 1, b, caller);
    }

    pub fn read_8_rom(&self, address: u16, caller: Caller) -> (r: u8)
        requires
            self@.read_rom_ok(address),
        ensures
            r == self@.read_rom(address),
    {
        if address <= 0x0100 && self.is_booting {
            // BOOT ROM
            self.rom[address as usize]
        } else {
            match &self.cartridge {
                Some(cartridge) => cartridge.read_8_rom(address),
                None => 0,
            }
        }
    }

    pub fn read_8_ram(&self, address: u16, caller: Caller) -> (r: u8)
        requires
            self@.read_ram_ok(address),
        ensures
            r == self@.read_ram(address, caller),
    {
        let ram_address = address as usize - 0x8000;
        if address <= 0x9FFF {
            // VRAM
            if caller == Caller::PPU || self.ppu_mode != StatMode::PixelTransfer {
                self.ram[ram_address]
            } else {
                0xFF
            }
        } else if address <= 0xBFFF {
            // EXTERNAL RAM
            match &self.cartridge {
                Some(cartridge) => cartridge.read_8_ram(address),
                None => 0,
            }
        } else if address <= 0xDFFF {
            // INTERNAL RAM
            self.ram[ram_address]
        } else if address <= 0xFDFF {
            // ECHO RAM -- Mirrors C000-DDFF
            self.ram[address as usize - 0xA000]
        } else if address <= 0xFE9F {
            // OAM RAM
            if caller == Caller::PPU || (self.ppu_mode != StatMode::OamSearch
                && self.ppu_mode != StatMode::PixelTransfer) {
                self.ram[ram_address]
            } else {
                0xFF
            }
        } else if address <= 0xFEFF {
            // PROHIBITED -- returns $FF when OAM is blocked, otherwise $00.
            if self.ppu_mode == StatMode::OamSearch { 0xFF } else { 0x00 }
        } else if address == JOYPAD_REG {
            self.read_joypad_reg(self.ram[ram_address])
        } else {
            // IO, HRAM, IE
            self.ram[ram_address]
        }
    }

    pub fn write_8_rom(&mut self, address: u16, value: u8, caller: Caller)
        requires
            old(self)@.write_rom_ok(address),
        ensures
            final(self)@ == old(self)@.write_rom(address, value),
    {
        match &mut self.cartridge {
            Some(cartridge) => {
                match cartridge.mbc {
                    Mbc::Mbc1 { mbc } => {
                        let mut mbc1 = mbc;
                        mbc1.write_register(address, value);
                        cartridge.mbc = Mbc::Mbc1 { mbc: mbc1 };
                    }
                    _ => {
                        self.rom[address as usize] = value;
                    }
                }
            }
            None => {}
        }
    }

    /// Writes 0x8000-0xFFFF and returns the RAM byte at the address afterwards.
    #[verifier::rlimit(50)]
    pub fn write_8_ram(&mut self, address: u16, value: u8, caller: Caller) -> (r: u8)
        requires
            old(self)@.write_ram_ok(address),
        ensures
            final(self)@ == old(self)@.write_ram(address, value, caller),
            r == final(self)@.ram_at(address),
    {
        let ram_address = address as usize - 0x8000;
        if address <= 0x9FFF {
            // VRAM
            if caller == Caller::PPU || self.ppu_mode != StatMode::PixelTransfer {
                self.ram[ram_address] = value;
            }
        } else if address <= 0xBFFF {
            self.write_external_ram(address, value);
        } else if address <= 0xFDFF {
            // INTERNAL RAM, ECHO RAM
            self.ram[ram_address] = value;
        } else if address <= 0xFE9F {
            // OAM RAM
            if caller == Caller::PPU || (self.ppu_mode != StatMode::OamSearch
                && self.ppu_mode != StatMode::PixelTransfer) {
                self.ram[ram_address] = value;
            }
        } else if address <= 0xFEFF {
            // PROHIBITED -- Dr Mario explicitly clears this memory when starting
            self.ram[ram_address] = value;
        } else if address <= 0xFF7F {
            self.write_io(address, value, caller);
        } else {
            // HRAM, IE
            self.ram[ram_address] = value;
        }
        self.ram[ram_address]
    }

    /// Writes external RAM (0xA000-0xBFFF): the cartridge's, or without one the internal array.
    fn write_external_ram(&mut self, address: u16, value: u8)
        requires
            0xA000 <= address <= 0xBFFF,
            old(self)@.write_ram_ok(address),
        ensures
            final(self)@ == old(self)@.write_ram(address, value, Caller::CPU),
    {
        match &mut self.cartridge {
            Some(cartridge) => {
                cartridge.write_8_ram(address, value);
            }
            None => {
                self.ram[address as usize - 0x8000] = value;
            }
        }
    }

    /// Writes an I/O register (0xFF00-0xFF7F).
    fn write_io(&mut self, address: u16, value: u8, caller: Caller)
        requires
            0xFF00 <= address <= 0xFF7F,
        ensures
            final(self)@ == old(self)@.write_io(address, value, caller),
    {
        let ram_address = address as usize - 0x8000;
        let curr_value = self.ram[ram_address];
        if address == DIV_REG {
            if caller == Caller::TIMER {
                self.ram[ram_address] = value;
            } else {
                // All writes to timer DIV register reset it to 0, and the internal clock too.
                self.ram[ram_address] = 0;
                self.sysclock = 0;
            }
        } else if address == TAC_REG {
            proof { crate::bits::lemma_byte_bits(value); }
            self.ram[ram_address] = value & 0b0111;
        } else if address == JOYPAD_REG {
            // Bottom nibble is read only
            proof { crate::bits::lemma_byte_pair_bits(value, curr_value); }
            self.ram[ram_address] = (value & 0xF0) | (curr_value & 0x0F);
        } else if address == LY_REG {
            if caller == Caller::PPU {
                self.ram[ram_address] = value;
            }
        } else if address == LCD_STATUS_REG {
            if caller == Caller::PPU {
                self.ram[ram_address] = value;
                proof { crate::bits::lemma_byte_bits(value); }
                self.ppu_mode = stat_mode(value & 0x03);
            } else {
                // Bits 0,1,2 are read-only (only PPU can update)
                proof { crate::bits::lemma_byte_pair_bits(value, curr_value); }
                self.ram[ram_address] = (value & 0xF8) | (curr_value & 0x07);
            }
        } else if address == LCD_CONTROL_REG {
            if self.ppu_mode == StatMode::VBlank {
                self.ram[ram_address] = value;
            } else {
                // Enforce not clearing bit 7
                self.ram[ram_address] = value | (curr_value & 0x80);
            }
        } else if address == DMA_REG {
            self.ram[ram_address] = value;
            proof { crate::bits::lemma_byte_in_word(value); }
            self.oam_dma_src_addr = Some((value as u16) << 8);
        } else if address == BANK_REG {
            self.ram[ram_address] = value;
            proof { crate::bits::lemma_byte_bits(value); }
            if self.is_booting && (value & 1) == 1 {
                self.is_booting = false;
            }
        } else {
            self.ram[ram_address] = value;
        }
    }

    pub fn read_joypad_reg(&self, reg_value: u8) -> (r: u8)
        ensures
            r == joypad_read_spec(self.active_input, reg_value),
    {
        proof { crate::bits::lemma_byte_bits(reg_value); }
        let select_action_is_enabled = (reg_value & (1u8 << 5)) >> 5 == 0; // "0"==selected
        let directional_is_enabled = (reg_value & (1u8 << 4)) >> 4 == 0;
        let keys = self.active_input;
        let active_inputs: u8 = if select_action_is_enabled {
            (if keys.start { 8u8 } else { 0 }) + (if keys.select { 4u8 } else { 0 })
                + (if keys.b { 2u8 } else { 0 }) + (if keys.a { 1u8 } else { 0 })
        } else if directional_is_enabled {
            (if keys.down { 8u8 } else { 0 }) + (if keys.up { 4u8 } else { 0 })
                + (if keys.left { 2u8 } else { 0 }) + (if keys.right { 1u8 } else { 0 })
        } else {
            0
        };
        // flip because "0" == selected
        let flipped = !active_inputs;
        proof { crate::bits::lemma_byte_pair_bits(active_inputs, reg_value); }
        (reg_value & 0xF0) | flipped
    }
}

/// Work RAM (C000-DFFF) and high RAM (FF80-FFFE): memory that reads back what
/// was written to it, whoever accesses it.
pub open spec fn is_plain_ram(address: u16) -> bool {
    (0xC000 <= address <= 0xDFFF) || (0xFF80 <= address <= 0xFFFE)
}

/// A 16-bit write is defined exactly when the addresses of both its bytes are
/// writable, whatever the value.
pub proof fn lemma_write_16_ok(m: MmuView, address: u16, value: u16, endian: Endianness, caller: Caller)
    ensures
        m.write_16_ok(address, value, endian, caller)
            == (address < 0xFFFF && m.write_8_ok(address) && m.write_8_ok((address + 1) as u16)),
{
    if address < 0xFFFF && m.write_8_ok(address) {
        lemma_write_keeps_next_writable(m, address, MmuView::word_bytes(value, endian).0, caller);
    }
}

/// A defined write leaves the next address as writable as it was: the write
/// changes neither the boot mapping nor the controller kind, and changes the
/// controller registers only for an address below 0x8000, whose successor is
/// not external RAM.
pub proof fn lemma_write_keeps_next_writable(m: MmuView, address: u16, value: u8, caller: Caller)
    requires
        m.write_8_ok(address),
        address < 0xFFFF,
    ensures
        m.write_8(address, value, caller).write_8_ok((address + 1) as u16) == m.write_8_ok((address + 1) as u16),
{
    let next = (address + 1) as u16;
    let m1 = m.write_8(address, value, caller);
    if address <= 0x7FFF {
        assert(m1.is_booting == m.is_booting);
        if next <= 0x7FFF {
            assert(m1.write_8_ok(next) == m.write_8_ok(next));
        }
    } else if address <= 0xFF7F && address >= 0xFF00 {
        assert(next >= 0xFF01);
    } else {
        assert(m1.is_booting == m.is_booting);
    }
}

/// A read of plain RAM gives back what the last write stored there, and a
/// write leaves every other plain RAM byte as it was.
pub proof fn lemma_write_read_8(m: MmuView, address: u16, value: u8, other: u16, writer: Caller, reader: Caller)
    requires
        m.wf(),
        is_plain_ram(address),
    ensures
        m.write_8_ok(address),
        m.write_8(address, value, writer).read_8_ok(address),
        m.write_8(address, value, writer).read_8(address, reader) == value,
        is_plain_ram(other) && other != address ==> m.write_8(address, value, writer).read_8(other, reader)
            == m.read_8(other, reader),
{
}

/// A 16-bit read gives back what a 16-bit write of the same byte order stored,
/// when both bytes lie in plain RAM.
pub proof fn lemma_write_16_read_16(m: MmuView, address: u16, value: u16)
    requires
        m.wf(),
        is_plain_ram(address),
        is_plain_ram((address + 1) as u16),
    ensures
        m.write_16_ok(address, value, Endianness::BIG, Caller::CPU),
        m.write_16(address, value, Endianness::BIG, Caller::CPU).read_16_ok(address),
        m.write_16(address, value, Endianness::BIG, Caller::CPU).read_16(address, Endianness::BIG, Caller::CPU) == value,
        m.write_16(address, value, Endianness::LITTLE, Caller::CPU).read_16(address, Endianness::LITTLE, Caller::CPU)
            == value,
{
}

/// The low nibble of the joypad register (the buttons) cannot be written.
pub proof fn lemma_joypad_buttons_read_only(m: MmuView, value: u8)
    requires
        m.wf(),
    ensures
        m.write_8(JOYPAD_REG, value, Caller::CPU).ram_at(JOYPAD_REG) % 16 == m.ram_at(JOYPAD_REG) % 16,
        m.write_8(JOYPAD_REG, value, Caller::CPU).ram_at(JOYPAD_REG) / 16 == value / 16,
{
    let cur = m.ram_at(JOYPAD_REG);
    crate::bits::lemma_byte_pair_bits(value, cur);
}

/// The CPU cannot change the mode and LYC=LY bits of STAT (bits 0-2), nor LY.
pub proof fn lemma_cpu_cannot_write_ppu_state(m: MmuView, address: u16, value: u8)
    requires
        m.wf(),
    ensures
        m.write_8(address, value, Caller::CPU).ram_at(LCD_STATUS_REG) % 8 == m.ram_at(LCD_STATUS_REG) % 8,
        m.write_8(address, value, Caller::CPU).ram_at(LY_REG) == m.ram_at(LY_REG),
        m.write_8(address, value, Caller::CPU).ppu_mode == m.ppu_mode,
{
}

/// Any write to DIV by the CPU resets it and the internal counter.
pub proof fn lemma_div_write_resets(m: MmuView, value: u8)
    requires
        m.wf(),
    ensures
        m.write_8(DIV_REG, value, Caller::CPU).ram_at(DIV_REG) == 0,
        m.write_8(DIV_REG, value, Caller::CPU).sysclock == 0,
{
}

/// Once unmapped, the boot ROM stays unmapped whatever is written.
pub proof fn lemma_boot_rom_stays_unmapped(m: MmuView, address: u16, value: u8, caller: Caller)
    requires
        !m.is_booting,
    ensures
        !m.write_8(address, value, caller).is_booting,
{
}

/// A read of the joypad register reports the held buttons of the group that
/// its select bits choose, a 0 bit for a held button: with bit 5 clear, bit 3
/// is Start, bit 2 Select, bit 1 B and bit 0 A; with bit 5 set and bit 4 clear,
/// bit 3 is Down, bit 2 Up, bit 1 Left and bit 0 Right; with both set the read
/// gives 0xFF. The top four bits always read as 1.
pub proof fn lemma_joypad_read_reports_held_buttons(m: MmuView, caller: Caller)
    ensures
        ({
            let v = m.read_8(JOYPAD_REG, caller);
            let sel = m.ram_at(JOYPAD_REG);
            let keys = m.active_input;
            &&& v / 16 == 15
            &&& (sel / 32) % 2 == 0 ==> {
                &&& ((v / 8) % 2 == 0) == keys.start
                &&& ((v / 4) % 2 == 0) == keys.select
                &&& ((v / 2) % 2 == 0) == keys.b
                &&& (v % 2 == 0) == keys.a
            }
            &&& (sel / 32) % 2 == 1 && (sel / 16) % 2 == 0 ==> {
                &&& ((v / 8) % 2 == 0) == keys.down
                &&& ((v / 4) % 2 == 0) == keys.up
                &&& ((v / 2) % 2 == 0) == keys.left
                &&& (v % 2 == 0) == keys.right
            }
            &&& (sel / 32) % 2 == 1 && (sel / 16) % 2 == 1 ==> v == 0xFF
        }),
{
}

} // verus!
