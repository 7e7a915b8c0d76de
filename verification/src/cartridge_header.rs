use vstd::prelude::*;

verus! {

/// The hardware a cartridge declares in its header byte 0x0147.
#[derive(Clone, Copy, PartialEq, Eq, Structural, Debug)]
pub enum CartridgeType {
    NoMbc { ram: bool, battery: bool },
    Mbc1 { ram: bool, battery: bool, is_multicart: bool },
    Mbc2 { battery: bool },
    Mbc3 { ram: bool, battery: bool, rtc: bool },
    Mbc5 { ram: bool, battery: bool, rumble: bool },
    Mbc6,
    Mbc7,
    Huc1,
    Huc3,
}

/// Whether a header type byte names a known cartridge type.
pub open spec fn is_known_cartridge_type(value: u8) -> bool {
    value == 0x00 || value == 0x01 || value == 0x02 || value == 0x03 || value == 0x05
        || value == 0x06 || value == 0x08 || value == 0x09 || (0x0F <= value <= 0x13)
        || (0x19 <= value <= 0x1E) || value == 0x20 || value == 0x22 || value == 0xFE
        || value == 0xFF
}

/// The cartridge type that a header type byte names.
pub open spec fn cartridge_type_spec(value: u8) -> CartridgeType {
    if value == 0x00 {
        CartridgeType::NoMbc { ram: false, battery: false }
    } else if value == 0x01 {
        CartridgeType::Mbc1 { ram: false, battery: false, is_multicart: false }
    } else if value == 0x02 {
        CartridgeType::Mbc1 { ram: true, battery: false, is_multicart: false }
    } else if value == 0x03 {
        CartridgeType::Mbc1 { ram: true, battery: true, is_multicart: false }
    } else if value == 0x05 {
        CartridgeType::Mbc2 { battery: false }
    } else if value == 0x06 {
        CartridgeType::Mbc2 { battery: true }
    } else if value == 0x08 {
        CartridgeType::NoMbc { ram: true, battery: false }
    } else if value == 0x09 {
        CartridgeType::NoMbc { ram: true, battery: true }
    } else if value == 0x0F {
        CartridgeType::Mbc3 { ram: false, battery: true, rtc: true }
    } else if value == 0x10 {
        CartridgeType::Mbc3 { ram: true, battery: true, rtc: true }
    } else if value == 0x11 {
        CartridgeType::Mbc3 { ram: false, battery: false, rtc: false }
    } else if value == 0x12 {
        CartridgeType::Mbc3 { ram: true, battery: false, rtc: false }
    } else if value == 0x13 {
        CartridgeType::Mbc3 { ram: true, battery: true, rtc: false }
    } else if 0x19 <= value <= 0x1E {
        let v = value - 0x19;
        // 0x19..=0x1B without rumble, 0x1C..=0x1E with rumble;
        // RAM on all but 0x19 and 0x1C, battery on 0x1B and 0x1E.
        CartridgeType::Mbc5 {
            ram: v % 3 != 0,
            battery: v % 3 == 2,
            rumble: v >= 3,
        }
    } else if value == 0x20 {
        CartridgeType::Mbc6
    } else if value == 0x22 {
        CartridgeType::Mbc7
    } else if value == 0xFF {
        CartridgeType::Huc1
    } else {
        CartridgeType::Huc3
    }
}

impl CartridgeType {
    pub fn from_u8(value: u8) -> (r: CartridgeType)
        requires
            is_known_cartridge_type(value),
        ensures
            r == cartridge_type_spec(value),
    {
        match value {
            0x00 => CartridgeType::NoMbc { ram: false, battery: false },
            0x01 => CartridgeType::Mbc1 { ram: false, battery: false, is_multicart: false },
            0x02 => CartridgeType::Mbc1 { ram: true, battery: false, is_multicart: false },
            0x03 => CartridgeType::Mbc1 { ram: true, battery: true, is_multicart: false },
            0x05 => CartridgeType::Mbc2 { battery: false },
            0x06 => CartridgeType::Mbc2 { battery: true },
            0x08 => CartridgeType::NoMbc { ram: true, battery: false },
            0x09 => CartridgeType::NoMbc { ram: true, battery: true },
            0x0F => CartridgeType::Mbc3 { ram: false, battery: true, rtc: true },
            0x10 => CartridgeType::Mbc3 { ram: true, battery: true, rtc: true },
            0x11 => CartridgeType::Mbc3 { ram: false, battery: false, rtc: false },
            0x12 => CartridgeType::Mbc3 { ram: true, battery: false, rtc: false },
            0x13 => CartridgeType::Mbc3 { ram: true, battery: true, rtc: false },
            0x19 => CartridgeType::Mbc5 { ram: false, battery: false, rumble: false },
            0x1A => CartridgeType::Mbc5 { ram: true, battery: false, rumble: false },
            0x1B => CartridgeType::Mbc5 { ram: true, battery: true, rumble: false },
            0x1C => CartridgeType::Mbc5 { ram: false, battery: false, rumble: true },
            0x1D => CartridgeType::Mbc5 { ram: true, battery: false, rumble: true },
            0x1E => CartridgeType::Mbc5 { ram: true, battery: true, rumble: true },
            0x20 => CartridgeType::Mbc6,
            0x22 => CartridgeType::Mbc7,
            0xFF => CartridgeType::Huc1,
            _ => CartridgeType::Huc3,
        }
    }
}

/// RAM size in KiB that a header byte 0x0149 declares.
pub open spec fn ram_size_spec(code: u8) -> usize {
    if code == 1 { 2 } else if code == 2 { 8 } else if code == 3 { 32 } else if code == 4 { 128 }
    else if code == 5 { 64 } else { 0 }
}

pub fn ram_size_of(code: u8) -> (r: usize)
    ensures
        r == ram_size_spec(code),
{
    match code {
        0 => 0,
        1 => 2,
        2 => 8,
        3 => 32,
        4 => 128,
        5 => 64,
        _ => 0,
    }
}

/// The ROM size, in KiB, that a ROM size code gives: 32 KiB shifted left by the code.
pub open spec fn rom_size_kib(code: u8) -> int {
    32 * (1u64 << code)
}

/// Whether a ROM size code can be counted: a shift of at most 30 (larger ones
/// overflow), to a size that fits in a `usize`.
pub open spec fn rom_size_code_ok(code: u8) -> bool {
    code <= 30 && rom_size_kib(code) <= usize::MAX
}

/// Whether a ROM size code can be counted.
pub fn rom_size_code_fits(code: u8) -> (r: bool)
    ensures
        r == rom_size_code_ok(code),
{
    if code > 30 {
        return false;
    }
    assert(32 * (1u64 << code) <= 0x8_0000_0000) by (bit_vector)
        requires code <= 30;
    let kib: u64 = 32 * (1u64 << code);
    kib <= usize::MAX as u64
}

/// Whether a header (the first 0x150 bytes of a ROM) can be decoded:
/// its type byte is known and its ROM size code can be counted.
pub open spec fn header_decodable(data: Seq<u8>) -> bool {
    data.len() >= 0x0150 ==> {
        &&& is_known_cartridge_type(data[0x0147])
        &&& rom_size_code_ok(data[0x0148])
    }
}

#[derive(Clone, Copy, PartialEq, Eq, Structural, Debug)]
pub struct CartridgeHeader {
    /// In KiB.
    pub rom_size: usize,
    /// In KiB.
    pub ram_size: usize,
    pub cartridge_type: CartridgeType,
}

/// The header that the bytes of a ROM describe.
pub open spec fn header_spec(data: Seq<u8>) -> Option<CartridgeHeader> {
    if data.len() < 0x0150 {
        None
    } else {
        Some(CartridgeHeader {
            rom_size: rom_size_kib(data[0x0148]) as usize,
            ram_size: ram_size_spec(data[0x0149]),
            cartridge_type: cartridge_type_spec(data[0x0147]),
        })
    }
}

impl CartridgeHeader {
    pub fn new(data: &[u8]) -> (r: Option<CartridgeHeader>)
        requires
            header_decodable(data@),
        ensures
            r == header_spec(data@),
    {
        if data.len() < 0x0150 {
            return None;
        }
        let shift = data[0x0148];
        assert(32 * (1u64 << shift) <= 0x8_0000_0000) by (bit_vector)
            requires shift <= 30;
        let kib: u64 = 32 * (1u64 << shift);
        let rom_size = kib as usize;
        let ram_size = ram_size_of(data[0x0149]);
        let cartridge_type = CartridgeType::from_u8(data[0x0147]);
        Some(CartridgeHeader { rom_size, ram_size, cartridge_type })
    }
}

} // verus!
