use vstd::prelude::*;
use crate::cartridge_header::{CartridgeHeader, header_decodable, header_spec};
use crate::mbc::{Mbc, Mbc1, Mbc3, mbc_supported, mbc_spec, ROM_BANK_SIZE, RAM_BANK_SIZE};

verus! {

/// A ROM image shorter than this is padded with zeros, so that a boot ROM
/// can be read like a cartridge.
pub const MIN_CARTRIDGE_SIZE: usize = 0x2000;

/// The bytes of a ROM image after padding it to the minimum cartridge size.
pub open spec fn padded_spec(data: Seq<u8>) -> Seq<u8> {
    if data.len() < MIN_CARTRIDGE_SIZE {
        data + Seq::new((MIN_CARTRIDGE_SIZE - data.len()) as nat, |i: int| 0u8)
    } else {
        data
    }
}

/// Whether a ROM image can be loaded: its header decodes and names a supported controller.
pub open spec fn loadable(data: Seq<u8>) -> bool {
    header_decodable(padded_spec(data)) && mbc_supported(padded_spec(data))
}

impl Mbc1 {
    /// The controller after a write to its register window 0000-7FFF.
    pub open spec fn write_register_spec(self, address: u16, value: u8) -> Mbc1 {
        if address <= 0x1FFF {
            Mbc1 { ram_enabled: value % 16 == 0x0A, ..self }
        } else if address <= 0x3FFF {
            Mbc1 { bank1: if value % 32 < 1 { 1u8 } else { (value % 32) as u8 }, ..self }
        } else if address <= 0x5FFF {
            Mbc1 { bank2: (value % 4) as u8, ..self }
        } else {
            Mbc1 { advram_banking_mode: value % 2 == 1, ..self }
        }
    }

    pub fn write_register(&mut self, address: u16, value: u8)
        requires
            address <= 0x7FFF,
        ensures
            *final(self) == old(self).write_register_spec(address, value),
    {
        proof { crate::bits::lemma_byte_bits(value); }
        if address <= 0x1FFF {
            self.ram_enabled = (value & 0x0F) == 0x0A;
        } else if address <= 0x3FFF {
            let bank = value & 0x1F;
            self.bank1 = if bank < 1 { 1 } else { bank };
        } else if address <= 0x5FFF {
            self.bank2 = value & 0x03;
        } else {
            self.advram_banking_mode = (value & 1) == 1;
        }
    }
}

impl Mbc3 {
    /// The controller after a write to its register window 0000-7FFF.
    pub open spec fn write_register_spec(self, address: u16, value: u8) -> Mbc3 {
        if address <= 0x1FFF {
            Mbc3 { map_en: value % 16 == 0x0A, ..self }
        } else if address <= 0x3FFF {
            let bank: u8 = if value < 1 { 1u8 } else { value };
            Mbc3 { rom_bank: bank, rom_offsets: (0, (ROM_BANK_SIZE * bank) as usize), ..self }
        } else if address <= 0x5FFF {
            Mbc3 {
                map_select: (value % 16) as u8,
                ram_offset: (RAM_BANK_SIZE * (value % 16)) as usize,
                ..self
            }
        } else {
            self
        }
    }
}

/// A loaded cartridge: its header, its bank controller and its bytes.
pub struct Cartridge {
    pub header: Option<CartridgeHeader>,
    pub mbc: Mbc,
    pub data: Vec<u8>,
}

/// The mathematical model of a cartridge.
pub struct CartridgeView {
    pub header: Option<CartridgeHeader>,
    pub mbc: Mbc,
    pub data: Seq<u8>,
}

impl View for Cartridge {
    type V = CartridgeView;

    open spec fn view(&self) -> CartridgeView {
        CartridgeView { header: self.header, mbc: self.mbc, data: self.data@ }
    }
}

/// (address & 0x3FFF) | offset, for an offset that is a whole number of 16 KiB banks.
proof fn lemma_rom_window(address: u16, offset: usize)
    requires
        offset % 0x4000 == 0,
        offset < 256 * 0x4000,
    ensures
        ((address as usize & 0x3FFF) | offset) == (address % 0x4000) + offset,
{
    let a: usize = address as usize;
    assert(((a & 0x3FFF) | offset) == (a % 0x4000) + offset)
        by (bit_vector) requires offset % 0x4000 == 0, offset < 0x40_0000, a < 0x10000;
}

/// (address & 0x1FFF) | offset, for an offset that is a whole number of 8 KiB banks.
proof fn lemma_ram_window(address: u16, offset: usize)
    requires
        offset % 0x2000 == 0,
        offset < 256 * 0x2000,
    ensures
        ((address as usize & 0x1FFF) | offset) == (address % 0x2000) + offset,
{
    let a: usize = address as usize;
    assert(((a & 0x1FFF) | offset) == (a % 0x2000) + offset)
        by (bit_vector) requires offset % 0x2000 == 0, offset < 0x20_0000, a < 0x10000;
}

impl CartridgeView {
    /// Where in the cartridge bytes an MBC1 ROM read lands.
    pub open spec fn mbc1_rom_index(mbc: Mbc1, address: u16) -> int {
        if address <= 0x3FFF {
            address % 0x4000 + mbc.rom_offsets_spec().0
        } else {
            address % 0x4000 + mbc.rom_offsets_spec().1
        }
    }

    /// Where in the cartridge bytes an MBC1 RAM access lands.
    pub open spec fn mbc1_ram_index(mbc: Mbc1, address: u16) -> int {
        address % 0x2000 + mbc.ram_offset_spec()
    }

    /// Whether reading the ROM window at `address` is defined.
    pub open spec fn read_rom_ok(self, address: u16) -> bool {
        match self.mbc {
            Mbc::NoMbc => address < self.data.len(),
            Mbc::Mbc1 { mbc } => address <= 0x7FFF && Self::mbc1_rom_index(mbc, address) < self.data.len(),
            _ => false,
        }
    }

    /// The byte read from the ROM window at `address`.
    pub open spec fn read_rom(self, address: u16) -> u8 {
        match self.mbc {
            Mbc::Mbc1 { mbc } => self.data[Self::mbc1_rom_index(mbc, address)],
            _ => self.data[address as int],
        }
    }

    /// Whether writing the ROM window (the controller registers) at `address` is defined.
    pub open spec fn write_rom_ok(self, address: u16) -> bool {
        match self.mbc {
            Mbc::NoMbc => address < self.data.len(),
            Mbc::Mbc1 { .. } | Mbc::Mbc3 { .. } => address <= 0x7FFF,
            _ => false,
        }
    }

    /// The cartridge after writing the ROM window at `address`.
    pub open spec fn write_rom(self, address: u16, value: u8) -> CartridgeView {
        match self.mbc {
            Mbc::NoMbc => CartridgeView { data: self.data.update(address as int, value), ..self },
            Mbc::Mbc1 { mbc } => CartridgeView {
                mbc: Mbc::Mbc1 { mbc: mbc.write_register_spec(address, value) },
                ..self
            },
            Mbc::Mbc3 { mbc } => CartridgeView {
                mbc: Mbc::Mbc3 { mbc: mbc.write_register_spec(address, value) },
                ..self
            },
            _ => self,
        }
    }

    /// Whether reading external RAM at `address` is defined.
    pub open spec fn read_ram_ok(self, address: u16) -> bool {
        match self.mbc {
            Mbc::NoMbc => address < self.data.len(),
            Mbc::Mbc1 { mbc } => 0xA000 <= address <= 0xBFFF && (mbc.ram_enabled
                ==> Self::mbc1_ram_index(mbc, address) < self.data.len()),
            _ => false,
        }
    }

    /// The byte read from external RAM at `address`; a disabled MBC1 RAM reads 0xFF.
    pub open spec fn read_ram(self, address: u16) -> u8 {
        match self.mbc {
            Mbc::Mbc1 { mbc } => if mbc.ram_enabled {
                self.data[Self::mbc1_ram_index(mbc, address)]
            } else {
                0xFF
            },
            _ => self.data[address as int],
        }
    }

    /// Whether writing external RAM at `address` is defined.
    pub open spec fn write_ram_ok(self, address: u16) -> bool {
        match self.mbc {
            Mbc::NoMbc => address < self.data.len(),
            Mbc::Mbc1 { mbc } => 0xA000 <= address <= 0xBFFF && (mbc.ram_enabled
                ==> Self::mbc1_ram_index(mbc, address) < self.data.len()),
            _ => false,
        }
    }

    /// The cartridge after writing external RAM at `address`; a disabled MBC1
    /// RAM ignores the write.
    pub open spec fn write_ram(self, address: u16, value: u8) -> CartridgeView {
        match self.mbc {
            Mbc::Mbc1 { mbc } => if mbc.ram_enabled {
                CartridgeView { data: self.data.update(Self::mbc1_ram_index(mbc, address), value), ..self }
            } else {
                self
            },
            _ => CartridgeView { data: self.data.update(address as int, value), ..self },
        }
    }
}

impl Cartridge {
    /// Builds a cartridge from the bytes of a ROM image.
    pub fn from_bytes(data: Vec<u8>) -> (r: Cartridge)
        requires
            loadable(data@),
        ensures
            r@.data == padded_spec(data@),
            r@.header == header_spec(padded_spec(data@)),
            r@.mbc == mbc_spec(padded_spec(data@)),
    {
        let mut data = data;
        if data.len() < MIN_CARTRIDGE_SIZE {
            let mut new_data: Vec<u8> = Vec::new();
            let n = data.len();
            let mut i: usize = 0;
            while i < MIN_CARTRIDGE_SIZE
                invariant
                    n == data.len(),
                    n < MIN_CARTRIDGE_SIZE,
                    i <= MIN_CARTRIDGE_SIZE,
                    new_data@.len() == i,
                    forall|j: int| 0 <= j < i ==> new_data@[j] == padded_spec(data@)[j],
                decreases MIN_CARTRIDGE_SIZE - i,
            {
                if i < n {
                    new_data.push(data[i]);
                } else {
                    new_data.push(0);
                }
                i += 1;
            }
            assert(new_data@ =~= padded_spec(data@));
            data = new_data;
        }
        let header = CartridgeHeader::new(data.as_slice());
        let mbc = Mbc::new(data.as_slice());
        Cartridge { header, mbc, data }
    }

    /// ROM: 0x0000..=0x7FFF
    pub fn read_8_rom(&self, address: u16) -> (r: u8)
        requires
            self@.read_rom_ok(address),
        ensures
            r == self@.read_rom(address),
    {
        match &self.mbc {
            Mbc::Mbc1 { mbc: mbc1 } => {
                let (rom_lower, rom_upper) = mbc1.rom_offsets();
                if address <= 0x3FFF {
                    proof { lemma_rom_window(address, rom_lower); }
                    let adjusted_address = (address as usize & 0x3FFF) | rom_lower;
                    self.data[adjusted_address]
                } else {
                    proof { lemma_rom_window(address, rom_upper); }
                    let adjusted_address = (address as usize & 0x3FFF) | rom_upper;
                    self.data[adjusted_address]
                }
            }
            _ => self.data[address as usize],
        }
    }

    pub fn write_8_rom(&mut self, address: u16, value: u8)
        requires
            old(self)@.write_rom_ok(address),
        ensures
            final(self)@ == old(self)@.write_rom(address, value),
    {
        match self.mbc {
            Mbc::NoMbc => {
                self.data.set(address as usize, value);
            }
            Mbc::Mbc1 { mbc } => {
                let mut mbc1 = mbc;
                mbc1.write_register(address, value);
                self.mbc = Mbc::Mbc1 { mbc: mbc1 };
            }
            Mbc::Mbc3 { mbc } => {
                let mut mbc3 = mbc;
                proof { crate::bits::lemma_byte_bits(value); }
                if address <= 0x1FFF {
                    mbc3.map_en = (value & 0x0F) == 0x0A;
                } else if address <= 0x3FFF {
                    mbc3.rom_bank = if value < 1 { 1 } else { value };
                    mbc3.rom_offsets = (0, ROM_BANK_SIZE * mbc3.rom_bank as usize);
                } else if address <= 0x5FFF {
                    mbc3.map_select = value & 0x0F;
                    mbc3.ram_offset = RAM_BANK_SIZE * (mbc3.map_select as usize);
                }
                self.mbc = Mbc::Mbc3 { mbc: mbc3 };
            }
            _ => {}
        }
    }

    pub fn read_8_ram(&self, address: u16) -> (r: u8)
        requires
            self@.read_ram_ok(address),
        ensures
            r == self@.read_ram(address),
    {
        match &self.mbc {
            Mbc::Mbc1 { mbc: mbc1 } => {
                // The RAM is only accessible if RAM is enabled;
                // otherwise reads return open bus values (often $FF, but not guaranteed).
                if mbc1.ram_enabled {
                    let offset = mbc1.ram_offset();
                    proof { lemma_ram_window(address, offset); }
                    let adjusted_address = (address as usize & 0x1FFF) | offset;
                    self.data[adjusted_address]
                } else {
                    0xFF
                }
            }
            _ => self.data[address as usize],
        }
    }

    /// RAM: 0x8000+
    /// Whether a read of the ROM window at `address` is defined.
    pub fn can_read_rom(&self, address: u16) -> (r: bool)
        ensures
            r == self@.read_rom_ok(address),
    {
        match &self.mbc {
            Mbc::NoMbc => (address as usize) < self.data.len(),
            Mbc::Mbc1 { mbc: mbc1 } => {
                let (rom_lower, rom_upper) = mbc1.rom_offsets();
                let offset = if address <= 0x3FFF { rom_lower } else { rom_upper };
                address <= 0x7FFF && (address as usize % 0x4000) + offset < self.data.len()
            }
            _ => false,
        }
    }

    /// Whether a read of external RAM at `address` is defined.
    pub fn can_read_ram(&self, address: u16) -> (r: bool)
        ensures
            r == self@.read_ram_ok(address),
    {
        match &self.mbc {
            Mbc::NoMbc => (address as usize) < self.data.len(),
            Mbc::Mbc1 { mbc: mbc1 } => {
                let offset = mbc1.ram_offset();
                0xA000 <= address && address <= 0xBFFF
                    && (!mbc1.ram_enabled || (address as usize % 0x2000) + offset < self.data.len())
            }
            _ => false,
        }
    }

    /// Whether a write of external RAM at `address` is defined.
    pub fn can_write_ram(&self, address: u16) -> (r: bool)
        ensures
            r == self@.write_ram_ok(address),
    {
        match &self.mbc {
            Mbc::NoMbc => (address as usize) < self.data.len(),
            Mbc::Mbc1 { mbc: mbc1 } => {
                let offset = mbc1.ram_offset();
                0xA000 <= address && address <= 0xBFFF
                    && (!mbc1.ram_enabled || (address as usize % 0x2000) + offset < self.data.len())
            }
            _ => false,
        }
    }

    pub fn write_8_ram(&mut self, address: u16, value: u8)
        requires
            old(self)@.write_ram_ok(address),
        ensures
            final(self)@ == old(self)@.write_ram(address, value),
    {
        match self.mbc {
            Mbc::Mbc1 { mbc: mbc1 } => {
                // Writes are ignored while the RAM is disabled.
                if mbc1.ram_enabled {
                    let offset = mbc1.ram_offset();
                    proof { lemma_ram_window(address, offset); }
                    let adjusted_address = (address as usize & 0x1FFF) | offset;
                    self.data.set(adjusted_address, value);
                }
            }
            _ => {
                self.data.set(address as usize, value);
            }
        }
    }
}

/// The MBC1 ROM bank register never holds 0: a write of 0 selects bank 1.
pub proof fn lemma_mbc1_bank1_never_zero(mbc: Mbc1, address: u16, value: u8)
    requires
        mbc.bank1 != 0,
    ensures
        mbc.write_register_spec(address, value).bank1 != 0,
        0x2000 <= address <= 0x3FFF ==> mbc.write_register_spec(address, value).bank1
            == if value % 32 == 0 { 1 } else { value % 32 },
{
}

/// Whether a header type byte names a known cartridge type.
pub fn is_known_type(value: u8) -> (r: bool)
    ensures
        r == crate::cartridge_header::is_known_cartridge_type(value),
{
    value == 0x00 || value == 0x01 || value == 0x02 || value == 0x03 || value == 0x05
        || value == 0x06 || value == 0x08 || value == 0x09 || (0x0F <= value && value <= 0x13)
        || (0x19 <= value && value <= 0x1E) || value == 0x20 || value == 0x22 || value == 0xFE
        || value == 0xFF
}

impl Cartridge {
    /// Whether a ROM image can be loaded: its header decodes and names a
    /// controller that is emulated (none, MBC1 or MBC3).
    pub fn is_loadable(data: &Vec<u8>) -> (r: bool)
        ensures
            r == loadable(data@),
    {
        let n = data.len();
        let type_byte: u8 = if n > 0x0147 { data[0x0147] } else { 0 };
        let rom_code: u8 = if n > 0x0148 { data[0x0148] } else { 0 };
        proof {
            let p = padded_spec(data@);
            assert(p.len() >= 0x0150);
            assert(p[0x0147] == type_byte);
            assert(p[0x0148] == rom_code);
        }
        if !is_known_type(type_byte) || !crate::cartridge_header::rom_size_code_fits(rom_code) {
            return false;
        }
        match crate::cartridge_header::CartridgeType::from_u8(type_byte) {
            crate::cartridge_header::CartridgeType::NoMbc { .. } => true,
            crate::cartridge_header::CartridgeType::Mbc1 { .. } => true,
            crate::cartridge_header::CartridgeType::Mbc3 { .. } => true,
            _ => false,
        }
    }
}

/// MBC1 bank switching: once a bank number is written to 2000-3FFF (0 selects
/// bank 1), reads of 4000-7FFF give that bank's bytes; 0000-3FFF keeps showing
/// bank 0 (for a cartridge in the default banking mode with the upper bank bits clear).
pub proof fn lemma_mbc1_rom_bank_switch(c: CartridgeView, select: u16, value: u8, address: u16)
    requires
        c.mbc matches Mbc::Mbc1 { mbc } && !mbc.is_multicart && !mbc.advram_banking_mode && mbc.bank2 == 0,
        0x2000 <= select <= 0x3FFF,
    ensures
        0x4000 <= address <= 0x7FFF ==> c.write_rom(select, value).read_rom(address)
            == c.data[(if value % 32 == 0 { 1int } else { (value % 32) as int }) * 0x4000 + (address - 0x4000)],
        address <= 0x3FFF ==> c.write_rom(select, value).read_rom(address) == c.data[address as int],
{
    let bank1 = match c.write_rom(select, value).mbc {
        Mbc::Mbc1 { mbc } => mbc.bank1,
        _ => 0,
    };
    assert((0u8 << 5u8) == 0u8 && (0u8 | bank1) == bank1) by (bit_vector);
}

/// External RAM reads back what was written to it (an MBC1 with RAM enabled).
pub proof fn lemma_mbc1_ram_round_trip(c: CartridgeView, address: u16, value: u8)
    requires
        c.mbc matches Mbc::Mbc1 { mbc } && mbc.ram_enabled,
        c.write_ram_ok(address),
    ensures
        c.write_ram(address, value).read_ram_ok(address),
        c.write_ram(address, value).read_ram(address) == value,
{
}

/// A write to external RAM while an MBC1 has it disabled is accepted and ignored.
pub proof fn lemma_mbc1_disabled_ram_ignores_writes(c: CartridgeView, address: u16, value: u8)
    requires
        c.mbc matches Mbc::Mbc1 { mbc } && !mbc.ram_enabled,
        0xA000 <= address <= 0xBFFF,
    ensures
        c.write_ram_ok(address),
        c.write_ram(address, value) == c,
{
}

} // verus!
