use vstd::prelude::*;
use crate::text::{hex_text, push_hex, push_str};

verus! {

/// Bit positions of the four flags inside the F register.
pub const FLAG_ZERO_BYTE: u8 = 7;
pub const FLAG_SUBTRACT_BYTE: u8 = 6;
pub const FLAG_HALF_CARRY_BYTE: u8 = 5;
pub const FLAG_CARRY_BYTE: u8 = 4;

/// The four CPU condition flags.
#[derive(Clone, Copy, PartialEq, Eq, Structural, Debug)]
pub struct Flags {
    pub zero: bool,        // Z
    pub subtract: bool,    // N
    pub half_carry: bool,  // H
    pub carry: bool,       // C
}

/// Names of the CPU registers: the eight 8-bit ones, the four pairs and PC, SP.
#[derive(Clone, Copy, PartialEq, Eq, Structural, Debug)]
pub enum CpuRegIndex {
    A, B, C, D, E, F, H, L,
    AF, BC, DE, HL,
    PC, SP,
}

/// Whether the index names an 8-bit register.
pub open spec fn is_byte_reg(r: CpuRegIndex) -> bool {
    match r {
        CpuRegIndex::A | CpuRegIndex::B | CpuRegIndex::C | CpuRegIndex::D
        | CpuRegIndex::E | CpuRegIndex::F | CpuRegIndex::H | CpuRegIndex::L => true,
        _ => false,
    }
}

/// Whether the index names a 16-bit register (a pair, PC or SP).
pub open spec fn is_word_reg(r: CpuRegIndex) -> bool {
    !is_byte_reg(r)
}

/// The byte that the F register holds for the given flags.
pub open spec fn flags_byte(f: Flags) -> u8 {
    (128 * (if f.zero { 1int } else { 0 }) + 64 * (if f.subtract { 1int } else { 0 })
        + 32 * (if f.half_carry { 1int } else { 0 }) + 16 * (if f.carry { 1int } else { 0 })) as u8
}

/// The flags that an F register value holds (bits 7, 6, 5, 4).
pub open spec fn flags_of(f: u8) -> Flags {
    Flags {
        zero: (f / 128) % 2 == 1,
        subtract: (f / 64) % 2 == 1,
        half_carry: (f / 32) % 2 == 1,
        carry: (f / 16) % 2 == 1,
    }
}

/// The register file of the CPU.
#[derive(Clone, Copy, PartialEq, Eq, Structural, Debug)]
pub struct CpuRegisters {
    pub a: u8,
    pub b: u8,
    pub c: u8,
    pub d: u8,
    pub e: u8,
    pub f: u8,
    pub h: u8,
    pub l: u8,
    pub pc: u16,
    pub sp: u16,
}

impl CpuRegisters {
    /// The value of an 8-bit register.
    pub open spec fn byte(self, r: CpuRegIndex) -> u8 {
        match r {
            CpuRegIndex::A => self.a,
            CpuRegIndex::B => self.b,
            CpuRegIndex::C => self.c,
            CpuRegIndex::D => self.d,
            CpuRegIndex::E => self.e,
            CpuRegIndex::F => self.f,
            CpuRegIndex::H => self.h,
            CpuRegIndex::L => self.l,
            _ => 0,
        }
    }

    /// The value of a 16-bit register; a pair reads its first register as the high byte.
    pub open spec fn word(self, r: CpuRegIndex) -> u16 {
        match r {
            CpuRegIndex::AF => (self.a * 256 + self.f) as u16,
            CpuRegIndex::BC => (self.b * 256 + self.c) as u16,
            CpuRegIndex::DE => (self.d * 256 + self.e) as u16,
            CpuRegIndex::HL => (self.h * 256 + self.l) as u16,
            CpuRegIndex::PC => self.pc,
            CpuRegIndex::SP => self.sp,
            _ => 0,
        }
    }

    /// The registers with one 8-bit register replaced.
    pub open spec fn with_byte(self, r: CpuRegIndex, v: u8) -> CpuRegisters {
        match r {
            CpuRegIndex::A => CpuRegisters { a: v, ..self },
            CpuRegIndex::B => CpuRegisters { b: v, ..self },
            CpuRegIndex::C => CpuRegisters { c: v, ..self },
            CpuRegIndex::D => CpuRegisters { d: v, ..self },
            CpuRegIndex::E => CpuRegisters { e: v, ..self },
            CpuRegIndex::F => CpuRegisters { f: v, ..self },
            CpuRegIndex::H => CpuRegisters { h: v, ..self },
            CpuRegIndex::L => CpuRegisters { l: v, ..self },
            _ => self,
        }
    }

    /// The registers with one 16-bit register replaced; a pair takes the high byte first.
    pub open spec fn with_word(self, r: CpuRegIndex, v: u16) -> CpuRegisters {
        let hi = (v / 256) as u8;
        let lo = (v % 256) as u8;
        match r {
            CpuRegIndex::AF => CpuRegisters { a: hi, f: lo, ..self },
            CpuRegIndex::BC => CpuRegisters { b: hi, c: lo, ..self },
            CpuRegIndex::DE => CpuRegisters { d: hi, e: lo, ..self },
            CpuRegIndex::HL => CpuRegisters { h: hi, l: lo, ..self },
            CpuRegIndex::PC => CpuRegisters { pc: v, ..self },
            CpuRegIndex::SP => CpuRegisters { sp: v, ..self },
            _ => self,
        }
    }

    /// The registers after adding `by` to a register, wrapping at its width
    /// (an 8-bit register adds the low byte of `by`).
    pub open spec fn incremented(self, r: CpuRegIndex, by: u16) -> CpuRegisters {
        if is_byte_reg(r) {
            self.with_byte(r, ((self.byte(r) + by % 256) % 256) as u8)
        } else {
            self.with_word(r, ((self.word(r) + by) % 65536) as u16)
        }
    }

    /// The registers after subtracting `by` from a register, wrapping at its width.
    pub open spec fn decremented(self, r: CpuRegIndex, by: u16) -> CpuRegisters {
        if is_byte_reg(r) {
            self.with_byte(r, ((self.byte(r) - by % 256 + 256) % 256) as u8)
        } else {
            self.with_word(r, ((self.word(r) - by + 65536) % 65536) as u16)
        }
    }

    pub fn new() -> (r: CpuRegisters)
        ensures
            r == (CpuRegisters { a: 0, b: 0, c: 0, d: 0, e: 0, f: 0, h: 0, l: 0, pc: 0, sp: 0 }),
    {
        CpuRegisters { a: 0, b: 0, c: 0, d: 0, e: 0, f: 0, h: 0, l: 0, pc: 0, sp: 0 }
    }

    pub fn get_byte(&self, register: CpuRegIndex) -> (r: u8)
        requires
            is_byte_reg(register),
        ensures
            r == self.byte(register),
    {
        match register {
            CpuRegIndex::A => self.a,
            CpuRegIndex::B => self.b,
            CpuRegIndex::C => self.c,
            CpuRegIndex::D => self.d,
            CpuRegIndex::E => self.e,
            CpuRegIndex::F => self.f,
            CpuRegIndex::H => self.h,
            _ => self.l,
        }
    }

    pub fn get_word(&self, register: CpuRegIndex) -> (r: u16)
        requires
            is_word_reg(register),
        ensures
            r == self.word(register),
    {
        match register {
            CpuRegIndex::AF => self.bytes_to_word(self.a, self.f),
            CpuRegIndex::BC => self.bytes_to_word(self.b, self.c),
            CpuRegIndex::DE => self.bytes_to_word(self.d, self.e),
            CpuRegIndex::HL => self.bytes_to_word(self.h, self.l),
            CpuRegIndex::PC => self.pc,
            _ => self.sp,
        }
    }

    pub fn get_flags(&self) -> (r: Flags)
        ensures
            r == flags_of(self.f),
    {
        let f = self.f;
        proof { crate::bits::lemma_byte_bits(f); }
        Flags {
            zero: ((self.f >> FLAG_ZERO_BYTE) & 0b1) != 0,
            subtract: ((self.f >> FLAG_SUBTRACT_BYTE) & 0b1) != 0,
            half_carry: ((self.f >> FLAG_HALF_CARRY_BYTE) & 0b1) != 0,
            carry: ((self.f >> FLAG_CARRY_BYTE) & 0b1) != 0,
        }
    }

    pub fn set_byte(&mut self, register: CpuRegIndex, value: u8)
        requires
            is_byte_reg(register),
        ensures
            *final(self) == old(self).with_byte(register, value),
    {
        match register {
            CpuRegIndex::A => { self.a = value; }
            CpuRegIndex::B => { self.b = value; }
            CpuRegIndex::C => { self.c = value; }
            CpuRegIndex::D => { self.d = value; }
            CpuRegIndex::E => { self.e = value; }
            CpuRegIndex::F => { self.f = value; }
            CpuRegIndex::H => { self.h = value; }
            _ => { self.l = value; }
        }
    }

    pub fn set_flags(&mut self, flags: Flags)
        ensures
            *final(self) == (CpuRegisters { f: flags_byte(flags), ..*old(self) }),
    {
        let z: u8 = if flags.zero { 1 } else { 0 };
        let n: u8 = if flags.subtract { 1 } else { 0 };
        let h: u8 = if flags.half_carry { 1 } else { 0 };
        let c: u8 = if flags.carry { 1 } else { 0 };
        assert((z << 7 | n << 6 | h << 5 | c << 4) as int == 128 * z + 64 * n + 32 * h + 16 * c)
            by (bit_vector) requires z <= 1, n <= 1, h <= 1, c <= 1;
        self.f = z << FLAG_ZERO_BYTE | n << FLAG_SUBTRACT_BYTE | h << FLAG_HALF_CARRY_BYTE
            | c << FLAG_CARRY_BYTE;
    }

    pub fn set_word(&mut self, register: CpuRegIndex, value: u16)
        requires
            is_word_reg(register),
        ensures
            *final(self) == old(self).with_word(register, value),
    {
        proof { crate::bits::lemma_word_bytes(value); }
        match register {
            CpuRegIndex::AF => {
                self.a = ((value & 0xFF00) >> 8) as u8;
                self.f = (value & 0xFF) as u8;
            }
            CpuRegIndex::BC => {
                self.b = ((value & 0xFF00) >> 8) as u8;
                self.c = (value & 0xFF) as u8;
            }
            CpuRegIndex::DE => {
                self.d = ((value & 0xFF00) >> 8) as u8;
                self.e = (value & 0xFF) as u8;
            }
            CpuRegIndex::HL => {
                self.h = ((value & 0xFF00) >> 8) as u8;
                self.l = (value & 0xFF) as u8;
            }
            CpuRegIndex::PC => {
                self.pc = value;
            }
            _ => {
                self.sp = value;
            }
        }
    }

    pub fn increment(&mut self, register: CpuRegIndex, increment_by: u16)
        ensures
            *final(self) == old(self).incremented(register, increment_by),
    {
        let by8 = increment_by as u8;
        proof { crate::bits::lemma_word_low_byte(increment_by); }
        match register {
            CpuRegIndex::A => { self.a = self.a.wrapping_add(by8); }
            CpuRegIndex::B => { self.b = self.b.wrapping_add(by8); }
            CpuRegIndex::C => { self.c = self.c.wrapping_add(by8); }
            CpuRegIndex::D => { self.d = self.d.wrapping_add(by8); }
            CpuRegIndex::E => { self.e = self.e.wrapping_add(by8); }
            CpuRegIndex::F => { self.f = self.f.wrapping_add(by8); }
            CpuRegIndex::H => { self.h = self.h.wrapping_add(by8); }
            CpuRegIndex::L => { self.l = self.l.wrapping_add(by8); }
            CpuRegIndex::AF => {
                let af = self.get_word(CpuRegIndex::AF).wrapping_add(increment_by);
                self.set_word(CpuRegIndex::AF, af);
            }
            CpuRegIndex::BC => {
                let bc = self.get_word(CpuRegIndex::BC).wrapping_add(increment_by);
                self.set_word(CpuRegIndex::BC, bc);
            }
            CpuRegIndex::DE => {
                let de = self.get_word(CpuRegIndex::DE).wrapping_add(increment_by);
                self.set_word(CpuRegIndex::DE, de);
            }
            CpuRegIndex::HL => {
                let hl = self.get_word(CpuRegIndex::HL).wrapping_add(increment_by);
                self.set_word(CpuRegIndex::HL, hl);
            }
            CpuRegIndex::PC => { self.pc = self.pc.wrapping_add(increment_by); }
            CpuRegIndex::SP => { self.sp = self.sp.wrapping_add(increment_by); }
        }
    }

    pub fn decrement(&mut self, register: CpuRegIndex, decrement_by: u16)
        ensures
            *final(self) == old(self).decremented(register, decrement_by),
    {
        let by8 = decrement_by as u8;
        proof { crate::bits::lemma_word_low_byte(decrement_by); }
        match register {
            CpuRegIndex::A => { self.a = self.a.wrapping_sub(by8); }
            CpuRegIndex::B => { self.b = self.b.wrapping_sub(by8); }
            CpuRegIndex::C => { self.c = self.c.wrapping_sub(by8); }
            CpuRegIndex::D => { self.d = self.d.wrapping_sub(by8); }
            CpuRegIndex::E => { self.e = self.e.wrapping_sub(by8); }
            CpuRegIndex::F => { self.f = self.f.wrapping_sub(by8); }
            CpuRegIndex::H => { self.h = self.h.wrapping_sub(by8); }
            CpuRegIndex::L => { self.l = self.l.wrapping_sub(by8); }
            CpuRegIndex::AF => {
                let af = self.get_word(CpuRegIndex::AF).wrapping_sub(decrement_by);
                self.set_word(CpuRegIndex::AF, af);
            }
            CpuRegIndex::BC => {
                let bc = self.get_word(CpuRegIndex::BC).wrapping_sub(decrement_by);
                self.set_word(CpuRegIndex::BC, bc);
            }
            CpuRegIndex::DE => {
                let de = self.get_word(CpuRegIndex::DE).wrapping_sub(decrement_by);
                self.set_word(CpuRegIndex::DE, de);
            }
            CpuRegIndex::HL => {
                let hl = self.get_word(CpuRegIndex::HL).wrapping_sub(decrement_by);
                self.set_word(CpuRegIndex::HL, hl);
            }
            CpuRegIndex::PC => { self.pc = self.pc.wrapping_sub(decrement_by); }
            CpuRegIndex::SP => { self.sp = self.sp.wrapping_sub(decrement_by); }
        }
    }

    pub fn bytes_to_word(&self, reg1: u8, reg2: u8) -> (r: u16)
        ensures
            r == reg1 * 256 + reg2,
    {
        proof { crate::bits::lemma_byte_pair_bits(reg1, reg2); }
        (reg1 as u16) << 8 | (reg2 as u16)
    }
}

/// Writing the flags and reading them back gives the same flags.
pub proof fn lemma_flags_round_trip(flags: Flags)
    ensures
        flags_of(flags_byte(flags)) == flags,
{
}

/// A 16-bit register reads back what was last written to it, and writing it
/// leaves every other 16-bit register untouched (the pairs do not overlap).
pub proof fn lemma_word_round_trip(regs: CpuRegisters, r: CpuRegIndex, v: u16, other: CpuRegIndex)
    requires
        is_word_reg(r),
        is_word_reg(other),
    ensures
        regs.with_word(r, v).word(r) == v,
        r != other ==> regs.with_word(r, v).word(other) == regs.word(other),
{
}

/// An 8-bit register reads back what was last written to it, and writing it
/// leaves every other 8-bit register untouched.
pub proof fn lemma_byte_round_trip(regs: CpuRegisters, r: CpuRegIndex, v: u8, other: CpuRegIndex)
    requires
        is_byte_reg(r),
        is_byte_reg(other),
    ensures
        regs.with_byte(r, v).byte(r) == v,
        r != other ==> regs.with_byte(r, v).byte(other) == regs.byte(other),
{
}

/// Decrementing a register by what it was incremented by restores every register.
pub proof fn lemma_increment_decrement(regs: CpuRegisters, r: CpuRegIndex, by: u16)
    ensures
        regs.incremented(r, by).decremented(r, by) == regs,
        regs.decremented(r, by).incremented(r, by) == regs,
{
    if is_byte_reg(r) {
        let b = regs.byte(r) as int;
        let k = by % 256;
        assert(((b + k) % 256 - k + 256) % 256 == b);
        assert(((b - k + 256) % 256 + k) % 256 == b);
        assert(regs.with_byte(r, ((b + k) % 256) as u8).byte(r) == ((b + k) % 256) as u8);
        assert(regs.with_byte(r, ((b - k + 256) % 256) as u8).byte(r) == ((b - k + 256) % 256) as u8);
        lemma_byte_write_twice(regs, r, ((b + k) % 256) as u8, regs.byte(r));
        lemma_byte_write_twice(regs, r, ((b - k + 256) % 256) as u8, regs.byte(r));
    } else {
        let w = regs.word(r) as int;
        assert(((w + by) % 65536 - by + 65536) % 65536 == w);
        assert(((w - by + 65536) % 65536 + by) % 65536 == w);
        lemma_word_write_twice(regs, r, ((w + by) % 65536) as u16, regs.word(r));
        lemma_word_write_twice(regs, r, ((w - by + 65536) % 65536) as u16, regs.word(r));
    }
}

/// Writing a register twice leaves the second value; writing back its own value changes nothing.
proof fn lemma_byte_write_twice(regs: CpuRegisters, r: CpuRegIndex, v1: u8, v2: u8)
    requires
        is_byte_reg(r),
    ensures
        regs.with_byte(r, v1).with_byte(r, v2) == regs.with_byte(r, v2),
        regs.with_byte(r, v1).byte(r) == v1,
        regs.with_byte(r, regs.byte(r)) == regs,
{
}

proof fn lemma_word_write_twice(regs: CpuRegisters, r: CpuRegIndex, v1: u16, v2: u16)
    requires
        is_word_reg(r),
    ensures
        regs.with_word(r, v1).with_word(r, v2) == regs.with_word(r, v2),
        regs.with_word(r, v1).word(r) == v1,
        regs.with_word(r, regs.word(r)) == regs,
{
}

/// The registers as text, one per line: the 8-bit ones as two hexadecimal
/// digits, PC and SP as four.
pub open spec fn registers_text(r: CpuRegisters) -> Seq<char> {
    "\ta: "@ + hex_text(r.a as nat, 2) + "\n\tb: "@ + hex_text(r.b as nat, 2)
        + "\n\tc: "@ + hex_text(r.c as nat, 2) + "\n\td: "@ + hex_text(r.d as nat, 2)
        + "\n\te: "@ + hex_text(r.e as nat, 2) + "\n\tf: "@ + hex_text(r.f as nat, 2)
        + "\n\th: "@ + hex_text(r.h as nat, 2) + "\n\tl: "@ + hex_text(r.l as nat, 2)
        + "\n\tpc: "@ + hex_text(r.pc as nat, 4) + "\n\tsp: "@ + hex_text(r.sp as nat, 4) + "\n"@
}

impl CpuRegisters {
    /// The registers as text, for printing.
    pub fn to_string(&self) -> (r: String)
        ensures
            r@ == registers_text(*self),
    {
        let mut s = String::new();
        push_str(&mut s, "\ta: ");
        push_hex(&mut s, self.a as usize, 2);
        push_str(&mut s, "\n\tb: ");
        push_hex(&mut s, self.b as usize, 2);
        push_str(&mut s, "\n\tc: ");
        push_hex(&mut s, self.c as usize, 2);
        push_str(&mut s, "\n\td: ");
        push_hex(&mut s, self.d as usize, 2);
        push_str(&mut s, "\n\te: ");
        push_hex(&mut s, self.e as usize, 2);
        push_str(&mut s, "\n\tf: ");
        push_hex(&mut s, self.f as usize, 2);
        push_str(&mut s, "\n\th: ");
        push_hex(&mut s, self.h as usize, 2);
        push_str(&mut s, "\n\tl: ");
        push_hex(&mut s, self.l as usize, 2);
        push_str(&mut s, "\n\tpc: ");
        push_hex(&mut s, self.pc as usize, 4);
        push_str(&mut s, "\n\tsp: ");
        push_hex(&mut s, self.sp as usize, 4);
        push_str(&mut s, "\n");
        s
    }
}

} // verus!
