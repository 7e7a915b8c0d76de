use vstd::prelude::*;
use crate::cartridge_header::{CartridgeType, cartridge_type_spec, is_known_cartridge_type,
    ram_size_spec, ram_size_of};

verus! {

pub const ROM_BANK_SIZE: usize = 0x4000;
pub const RAM_BANK_SIZE: usize = 0x2000;

pub const CARTRIDGE_TYPE_ADDRESS: usize = 0x0147;
pub const ROM_SIZE_ADDRESS: usize = 0x0148;
pub const RAM_SIZE_ADDRESS: usize = 0x0149;

/// State of an MBC1 memory bank controller.
#[derive(Clone, Copy, PartialEq, Eq, Structural, Debug)]
pub struct Mbc1 {
    pub ram_enabled: bool,
    /// BANK1 register: the low five bits of the ROM bank number, never 0.
    pub bank1: u8,
    /// BANK2 register: two bits selecting a RAM bank or the high ROM bank bits.
    pub bank2: u8,
    /// Mode register: when set, BANK2 also applies to 0000-3FFF and to RAM.
    pub advram_banking_mode: bool,
    pub is_multicart: bool,
}

impl Mbc1 {
    /// The ROM bank numbers mapped at 0000-3FFF and 4000-7FFF.
    pub open spec fn banks_spec(self) -> (u8, u8) {
        let upper_bits: u8 = if self.is_multicart { self.bank2 << 4u8 } else { self.bank2 << 5u8 };
        let lower_bits: u8 = if self.is_multicart { self.bank1 & 0x0F } else { self.bank1 };
        let lower_bank: u8 = if self.advram_banking_mode { upper_bits } else { 0 };
        (lower_bank, upper_bits | lower_bits)
    }

    /// Byte offsets into the ROM of the two windows.
    pub open spec fn rom_offsets_spec(self) -> (usize, usize) {
        ((ROM_BANK_SIZE * self.banks_spec().0) as usize, (ROM_BANK_SIZE * self.banks_spec().1) as usize)
    }

    /// Byte offset into the cartridge of the RAM window.
    pub open spec fn ram_offset_spec(self) -> usize {
        (RAM_BANK_SIZE * (if self.advram_banking_mode { self.bank2 } else { 0u8 })) as usize
    }

    pub fn new(is_multicart: bool) -> (r: Mbc1)
        ensures
            r == (Mbc1 { ram_enabled: false, bank1: 1, bank2: 0, advram_banking_mode: false, is_multicart }),
    {
        Mbc1 { ram_enabled: false, bank1: 1, bank2: 0, advram_banking_mode: false, is_multicart }
    }

    pub fn rom_offsets(&self) -> (r: (usize, usize))
        ensures
            r == self.rom_offsets_spec(),
            r.0 % ROM_BANK_SIZE == 0,
            r.1 % ROM_BANK_SIZE == 0,
            r.0 < 256 * ROM_BANK_SIZE,
            r.1 < 256 * ROM_BANK_SIZE,
    {
        let upper_bits: u8 = if self.is_multicart { self.bank2 << 4u8 } else { self.bank2 << 5u8 };
        let lower_bits: u8 = if self.is_multicart { self.bank1 & 0x0F } else { self.bank1 };
        let lower_bank: u8 = if self.advram_banking_mode { upper_bits } else { 0 };
        let upper_bank: u8 = upper_bits | lower_bits;
        (ROM_BANK_SIZE * lower_bank as usize, ROM_BANK_SIZE * upper_bank as usize)
    }

    pub fn ram_offset(&self) -> (r: usize)
        ensures
            r == self.ram_offset_spec(),
            r % RAM_BANK_SIZE == 0,
            r < 256 * RAM_BANK_SIZE,
    {
        let bank: u8 = if self.advram_banking_mode { self.bank2 } else { 0 };
        RAM_BANK_SIZE * bank as usize
    }
}

/// State of an MBC3 memory bank controller.
#[derive(Clone, Copy, Debug)]
pub struct Mbc3 {
    pub rom_bank: u8,
    pub map_en: bool,
    pub map_select: u8,
    pub rom_offsets: (usize, usize),
    pub ram_offset: usize,
    pub mbc30: bool,
}

impl Mbc3 {
    pub fn new(ramsize: usize) -> (r: Mbc3)
        ensures
            r == (Mbc3 {
                rom_bank: 1,
                map_en: false,
                map_select: 0,
                rom_offsets: (0x0000, 0x4000),
                ram_offset: 0x0000,
                mbc30: ramsize > 65536,
            }),
    {
        Mbc3 {
            rom_bank: 1,
            map_en: false,
            map_select: 0,
            rom_offsets: (0x0000, 0x4000),
            ram_offset: 0x0000,
            mbc30: ramsize > 65536,
        }
    }
}

/// The memory bank controller of a cartridge.
#[derive(Clone, Copy, Debug)]
#[allow(inconsistent_fields)]
pub enum Mbc {
    NoMbc,
    Mbc1 { mbc: Mbc1 },
    Mbc2,
    Mbc3 { mbc: Mbc3 },
    Mbc5,
    Huc1,
}

/// Whether the controller that a ROM declares is one this emulator models
/// (no controller, MBC1 or MBC3); a ROM shorter than a header has none.
pub open spec fn mbc_supported(data: Seq<u8>) -> bool {
    data.len() >= 0x0150 ==> {
        &&& is_known_cartridge_type(data[0x0147])
        &&& match cartridge_type_spec(data[0x0147]) {
            CartridgeType::NoMbc { .. } | CartridgeType::Mbc1 { .. } | CartridgeType::Mbc3 { .. } => true,
            _ => false,
        }
    }
}

/// The controller, in its power-on state, of a ROM.
pub open spec fn mbc_spec(data: Seq<u8>) -> Mbc {
    if data.len() < 0x0150 {
        Mbc::NoMbc
    } else {
        match cartridge_type_spec(data[0x0147]) {
            CartridgeType::Mbc1 { is_multicart, .. } => Mbc::Mbc1 {
                mbc: Mbc1 { ram_enabled: false, bank1: 1, bank2: 0, advram_banking_mode: false, is_multicart },
            },
            CartridgeType::Mbc3 { .. } => Mbc::Mbc3 {
                mbc: Mbc3 {
                    rom_bank: 1,
                    map_en: false,
                    map_select: 0,
                    rom_offsets: (0x0000, 0x4000),
                    ram_offset: 0x0000,
                    mbc30: ram_size_spec(data[0x0149]) > 65536,
                },
            },
            _ => Mbc::NoMbc,
        }
    }
}

impl Mbc {
    pub fn new(data: &[u8]) -> (r: Mbc)
        requires
            mbc_supported(data@),
        ensures
            r == mbc_spec(data@),
    {
        if data.len() < 0x0150 {
            return Mbc::NoMbc;
        }
        let ram_size = ram_size_of(data[RAM_SIZE_ADDRESS]);
        let cartridge_type = CartridgeType::from_u8(data[CARTRIDGE_TYPE_ADDRESS]);
        match cartridge_type {
            CartridgeType::Mbc1 { is_multicart, .. } => Mbc::Mbc1 { mbc: Mbc1::new(is_multicart) },
            CartridgeType::Mbc3 { .. } => Mbc::Mbc3 { mbc: Mbc3::new(ram_size) },
            _ => Mbc::NoMbc,
        }
    }
}

} // verus!
