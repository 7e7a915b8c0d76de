use vstd::prelude::*;
use crate::cpu_registers::CpuRegIndex;
use crate::instruction::{Instruction, Op, Src, Cond};

verus! {

/// What a CB-prefixed opcode does: the top two bits choose a rotation/shift group,
/// BIT, RES or SET; bits 3-5 the rotation kind or the bit number; bits 0-2 the operand
/// (B, C, D, E, H, L, (HL), A).
pub open spec fn cb_operation(b: u8) -> Op {
    match b {
        0x00 => Op::RotateCircular(Src::B, true, false),
        0x01 => Op::RotateCircular(Src::C, true, false),
        0x02 => Op::RotateCircular(Src::D, true, false),
        0x03 => Op::RotateCircular(Src::E, true, false),
        0x04 => Op::RotateCircular(Src::H, true, false),
        0x05 => Op::RotateCircular(Src::L, true, false),
        0x06 => Op::RotateCircular(Src::HLa, true, false),
        0x07 => Op::RotateCircular(Src::A, true, false),
        0x08 => Op::RotateCircular(Src::B, false, false),
        0x09 => Op::RotateCircular(Src::C, false, false),
        0x0A => Op::RotateCircular(Src::D, false, false),
        0x0B => Op::RotateCircular(Src::E, false, false),
        0x0C => Op::RotateCircular(Src::H, false, false),
        0x0D => Op::RotateCircular(Src::L, false, false),
        0x0E => Op::RotateCircular(Src::HLa, false, false),
        0x0F => Op::RotateCircular(Src::A, false, false),
        0x10 => Op::Rotate(Src::B, true, false),
        0x11 => Op::Rotate(Src::C, true, false),
        0x12 => Op::Rotate(Src::D, true, false),
        0x13 => Op::Rotate(Src::E, true, false),
        0x14 => Op::Rotate(Src::H, true, false),
        0x15 => Op::Rotate(Src::L, true, false),
        0x16 => Op::Rotate(Src::HLa, true, false),
        0x17 => Op::Rotate(Src::A, true, false),
        0x18 => Op::Rotate(Src::B, false, false),
        0x19 => Op::Rotate(Src::C, false, false),
        0x1A => Op::Rotate(Src::D, false, false),
        0x1B => Op::Rotate(Src::E, false, false),
        0x1C => Op::Rotate(Src::H, false, false),
        0x1D => Op::Rotate(Src::L, false, false),
        0x1E => Op::Rotate(Src::HLa, false, false),
        0x1F => Op::Rotate(Src::A, false, false),
        0x20 => Op::Shift(Src::B, true, true),
        0x21 => Op::Shift(Src::C, true, true),
        0x22 => Op::Shift(Src::D, true, true),
        0x23 => Op::Shift(Src::E, true, true),
        0x24 => Op::Shift(Src::H, true, true),
        0x25 => Op::Shift(Src::L, true, true),
        0x26 => Op::Shift(Src::HLa, true, true),
        0x27 => Op::Shift(Src::A, true, true),
        0x28 => Op::Shift(Src::B, false, true),
        0x29 => Op::Shift(Src::C, false, true),
        0x2A => Op::Shift(Src::D, false, true),
        0x2B => Op::Shift(Src::E, false, true),
        0x2C => Op::Shift(Src::H, false, true),
        0x2D => Op::Shift(Src::L, false, true),
        0x2E => Op::Shift(Src::HLa, false, true),
        0x2F => Op::Shift(Src::A, false, true),
        0x30 => Op::Swap(Src::B),
        0x31 => Op::Swap(Src::C),
        0x32 => Op::Swap(Src::D),
        0x33 => Op::Swap(Src::E),
        0x34 => Op::Swap(Src::H),
        0x35 => Op::Swap(Src::L),
        0x36 => Op::Swap(Src::HLa),
        0x37 => Op::Swap(Src::A),
        0x38 => Op::Shift(Src::B, false, false),
        0x39 => Op::Shift(Src::C, false, false),
        0x3A => Op::Shift(Src::D, false, false),
        0x3B => Op::Shift(Src::E, false, false),
        0x3C => Op::Shift(Src::H, false, false),
        0x3D => Op::Shift(Src::L, false, false),
        0x3E => Op::Shift(Src::HLa, false, false),
        0x3F => Op::Shift(Src::A, false, false),
        0x40 => Op::Bit(Src::B, 0),
        0x41 => Op::Bit(Src::C, 0),
        0x42 => Op::Bit(Src::D, 0),
        0x43 => Op::Bit(Src::E, 0),
        0x44 => Op::Bit(Src::H, 0),
        0x45 => Op::Bit(Src::L, 0),
        0x46 => Op::Bit(Src::HLa, 0),
        0x47 => Op::Bit(Src::A, 0),
        0x48 => Op::Bit(Src::B, 1),
        0x49 => Op::Bit(Src::C, 1),
        0x4A => Op::Bit(Src::D, 1),
        0x4B => Op::Bit(Src::E, 1),
        0x4C => Op::Bit(Src::H, 1),
        0x4D => Op::Bit(Src::L, 1),
        0x4E => Op::Bit(Src::HLa, 1),
        0x4F => Op::Bit(Src::A, 1),
        0x50 => Op::Bit(Src::B, 2),
        0x51 => Op::Bit(Src::C, 2),
        0x52 => Op::Bit(Src::D, 2),
        0x53 => Op::Bit(Src::E, 2),
        0x54 => Op::Bit(Src::H, 2),
        0x55 => Op::Bit(Src::L, 2),
        0x56 => Op::Bit(Src::HLa, 2),
        0x57 => Op::Bit(Src::A, 2),
        0x58 => Op::Bit(Src::B, 3),
        0x59 => Op::Bit(Src::C, 3),
        0x5A => Op::Bit(Src::D, 3),
        0x5B => Op::Bit(Src::E, 3),
        0x5C => Op::Bit(Src::H, 3),
        0x5D => Op::Bit(Src::L, 3),
        0x5E => Op::Bit(Src::HLa, 3),
        0x5F => Op::Bit(Src::A, 3),
        0x60 => Op::Bit(Src::B, 4),
        0x61 => Op::Bit(Src::C, 4),
        0x62 => Op::Bit(Src::D, 4),
        0x63 => Op::Bit(Src::E, 4),
        0x64 => Op::Bit(Src::H, 4),
        0x65 => Op::Bit(Src::L, 4),
        0x66 => Op::Bit(Src::HLa, 4),
        0x67 => Op::Bit(Src::A, 4),
        0x68 => Op::Bit(Src::B, 5),
        0x69 => Op::Bit(Src::C, 5),
        0x6A => Op::Bit(Src::D, 5),
        0x6B => Op::Bit(Src::E, 5),
        0x6C => Op::Bit(Src::H, 5),
        0x6D => Op::Bit(Src::L, 5),
        0x6E => Op::Bit(Src::HLa, 5),
        0x6F => Op::Bit(Src::A, 5),
        0x70 => Op::Bit(Src::B, 6),
        0x71 => Op::Bit(Src::C, 6),
        0x72 => Op::Bit(Src::D, 6),
        0x73 => Op::Bit(Src::E, 6),
        0x74 => Op::Bit(Src::H, 6),
        0x75 => Op::Bit(Src::L, 6),
        0x76 => Op::Bit(Src::HLa, 6),
        0x77 => Op::Bit(Src::A, 6),
        0x78 => Op::Bit(Src::B, 7),
        0x79 => Op::Bit(Src::C, 7),
        0x7A => Op::Bit(Src::D, 7),
        0x7B => Op::Bit(Src::E, 7),
        0x7C => Op::Bit(Src::H, 7),
        0x7D => Op::Bit(Src::L, 7),
        0x7E => Op::Bit(Src::HLa, 7),
        0x7F => Op::Bit(Src::A, 7),
        0x80 => Op::SetBit(Src::B, 0, false),
        0x81 => Op::SetBit(Src::C, 0, false),
        0x82 => Op::SetBit(Src::D, 0, false),
        0x83 => Op::SetBit(Src::E, 0, false),
        0x84 => Op::SetBit(Src::H, 0, false),
        0x85 => Op::SetBit(Src::L, 0, false),
        0x86 => Op::SetBit(Src::HLa, 0, false),
        0x87 => Op::SetBit(Src::A, 0, false),
        0x88 => Op::SetBit(Src::B, 1, false),
        0x89 => Op::SetBit(Src::C, 1, false),
        0x8A => Op::SetBit(Src::D, 1, false),
        0x8B => Op::SetBit(Src::E, 1, false),
        0x8C => Op::SetBit(Src::H, 1, false),
        0x8D => Op::SetBit(Src::L, 1, false),
        0x8E => Op::SetBit(Src::HLa, 1, false),
        0x8F => Op::SetBit(Src::A, 1, false),
        0x90 => Op::SetBit(Src::B, 2, false),
        0x91 => Op::SetBit(Src::C, 2, false),
        0x92 => Op::SetBit(Src::D, 2, false),
        0x93 => Op::SetBit(Src::E, 2, false),
        0x94 => Op::SetBit(Src::H, 2, false),
        0x95 => Op::SetBit(Src::L, 2, false),
        0x96 => Op::SetBit(Src::HLa, 2, false),
        0x97 => Op::SetBit(Src::A, 2, false),
        0x98 => Op::SetBit(Src::B, 3, false),
        0x99 => Op::SetBit(Src::C, 3, false),
        0x9A => Op::SetBit(Src::D, 3, false),
        0x9B => Op::SetBit(Src::E, 3, false),
        0x9C => Op::SetBit(Src::H, 3, false),
        0x9D => Op::SetBit(Src::L, 3, false),
        0x9E => Op::SetBit(Src::HLa, 3, false),
        0x9F => Op::SetBit(Src::A, 3, false),
        0xA0 => Op::SetBit(Src::B, 4, false),
        0xA1 => Op::SetBit(Src::C, 4, false),
        0xA2 => Op::SetBit(Src::D, 4, false),
        0xA3 => Op::SetBit(Src::E, 4, false),
        0xA4 => Op::SetBit(Src::H, 4, false),
        0xA5 => Op::SetBit(Src::L, 4, false),
        0xA6 => Op::SetBit(Src::HLa, 4, false),
        0xA7 => Op::SetBit(Src::A, 4, false),
        0xA8 => Op::SetBit(Src::B, 5, false),
        0xA9 => Op::SetBit(Src::C, 5, false),
        0xAA => Op::SetBit(Src::D, 5, false),
        0xAB => Op::SetBit(Src::E, 5, false),
        0xAC => Op::SetBit(Src::H, 5, false),
        0xAD => Op::SetBit(Src::L, 5, false),
        0xAE => Op::SetBit(Src::HLa, 5, false),
        0xAF => Op::SetBit(Src::A, 5, false),
        0xB0 => Op::SetBit(Src::B, 6, false),
        0xB1 => Op::SetBit(Src::C, 6, false),
        0xB2 => Op::SetBit(Src::D, 6, false),
        0xB3 => Op::SetBit(Src::E, 6, false),
        0xB4 => Op::SetBit(Src::H, 6, false),
        0xB5 => Op::SetBit(Src::L, 6, false),
        0xB6 => Op::SetBit(Src::HLa, 6, false),
        0xB7 => Op::SetBit(Src::A, 6, false),
        0xB8 => Op::SetBit(Src::B, 7, false),
        0xB9 => Op::SetBit(Src::C, 7, false),
        0xBA => Op::SetBit(Src::D, 7, false),
        0xBB => Op::SetBit(Src::E, 7, false),
        0xBC => Op::SetBit(Src::H, 7, false),
        0xBD => Op::SetBit(Src::L, 7, false),
        0xBE => Op::SetBit(Src::HLa, 7, false),
        0xBF => Op::SetBit(Src::A, 7, false),
        0xC0 => Op::SetBit(Src::B, 0, true),
        0xC1 => Op::SetBit(Src::C, 0, true),
        0xC2 => Op::SetBit(Src::D, 0, true),
        0xC3 => Op::SetBit(Src::E, 0, true),
        0xC4 => Op::SetBit(Src::H, 0, true),
        0xC5 => Op::SetBit(Src::L, 0, true),
        0xC6 => Op::SetBit(Src::HLa, 0, true),
        0xC7 => Op::SetBit(Src::A, 0, true),
        0xC8 => Op::SetBit(Src::B, 1, true),
        0xC9 => Op::SetBit(Src::C, 1, true),
        0xCA => Op::SetBit(Src::D, 1, true),
        0xCB => Op::SetBit(Src::E, 1, true),
        0xCC => Op::SetBit(Src::H, 1, true),
        0xCD => Op::SetBit(Src::L, 1, true),
        0xCE => Op::SetBit(Src::HLa, 1, true),
        0xCF => Op::SetBit(Src::A, 1, true),
        0xD0 => Op::SetBit(Src::B, 2, true),
        0xD1 => Op::SetBit(Src::C, 2, true),
        0xD2 => Op::SetBit(Src::D, 2, true),
        0xD3 => Op::SetBit(Src::E, 2, true),
        0xD4 => Op::SetBit(Src::H, 2, true),
        0xD5 => Op::SetBit(Src::L, 2, true),
        0xD6 => Op::SetBit(Src::HLa, 2, true),
        0xD7 => Op::SetBit(Src::A, 2, true),
        0xD8 => Op::SetBit(Src::B, 3, true),
        0xD9 => Op::SetBit(Src::C, 3, true),
        0xDA => Op::SetBit(Src::D, 3, true),
        0xDB => Op::SetBit(Src::E, 3, true),
        0xDC => Op::SetBit(Src::H, 3, true),
        0xDD => Op::SetBit(Src::L, 3, true),
        0xDE => Op::SetBit(Src::HLa, 3, true),
        0xDF => Op::SetBit(Src::A, 3, true),
        0xE0 => Op::SetBit(Src::B, 4, true),
        0xE1 => Op::SetBit(Src::C, 4, true),
        0xE2 => Op::SetBit(Src::D, 4, true),
        0xE3 => Op::SetBit(Src::E, 4, true),
        0xE4 => Op::SetBit(Src::H, 4, true),
        0xE5 => Op::SetBit(Src::L, 4, true),
        0xE6 => Op::SetBit(Src::HLa, 4, true),
        0xE7 => Op::SetBit(Src::A, 4, true),
        0xE8 => Op::SetBit(Src::B, 5, true),
        0xE9 => Op::SetBit(Src::C, 5, true),
        0xEA => Op::SetBit(Src::D, 5, true),
        0xEB => Op::SetBit(Src::E, 5, true),
        0xEC => Op::SetBit(Src::H, 5, true),
        0xED => Op::SetBit(Src::L, 5, true),
        0xEE => Op::SetBit(Src::HLa, 5, true),
        0xEF => Op::SetBit(Src::A, 5, true),
        0xF0 => Op::SetBit(Src::B, 6, true),
        0xF1 => Op::SetBit(Src::C, 6, true),
        0xF2 => Op::SetBit(Src::D, 6, true),
        0xF3 => Op::SetBit(Src::E, 6, true),
        0xF4 => Op::SetBit(Src::H, 6, true),
        0xF5 => Op::SetBit(Src::L, 6, true),
        0xF6 => Op::SetBit(Src::HLa, 6, true),
        0xF7 => Op::SetBit(Src::A, 6, true),
        0xF8 => Op::SetBit(Src::B, 7, true),
        0xF9 => Op::SetBit(Src::C, 7, true),
        0xFA => Op::SetBit(Src::D, 7, true),
        0xFB => Op::SetBit(Src::E, 7, true),
        0xFC => Op::SetBit(Src::H, 7, true),
        0xFD => Op::SetBit(Src::L, 7, true),
        0xFE => Op::SetBit(Src::HLa, 7, true),
        _ => Op::SetBit(Src::A, 7, true),
    }
}

/// A CB-prefixed opcode read by its bit fields: below 0x40 bits 3-5 choose RLC,
/// RRC, RL, RR, SLA, SRA, SWAP or SRL; above, bits 6-7 choose BIT, RES or SET
/// and bits 3-5 the bit number.
pub open spec fn cb_fields(b: u8) -> Op {
    let t = operand_of_bits(b % 8);
    let n = ((b / 8) % 8) as u8;
    if b < 0x40 {
        match n {
            0 => Op::RotateCircular(t, true, false),
            1 => Op::RotateCircular(t, false, false),
            2 => Op::Rotate(t, true, false),
            3 => Op::Rotate(t, false, false),
            4 => Op::Shift(t, true, true),
            5 => Op::Shift(t, false, true),
            6 => Op::Swap(t),
            _ => Op::Shift(t, false, false),
        }
    } else if b < 0x80 {
        Op::Bit(t, n)
    } else {
        Op::SetBit(t, n, b >= 0xC0)
    }
}

/// Every CB-prefixed opcode does what its bit fields say.
pub proof fn lemma_cb_operation_fields(b: u8)
    ensures
        cb_operation(b) == cb_fields(b),
{
}

/// What an unprefixed opcode does.
pub open spec fn base_operation(b: u8) -> Op {
    match b {
        0x00 => Op::Nop,
        0x01 => Op::Ld16(Src::BC, Src::D16),
        0x02 => Op::Ld8(Src::BCa, Src::A),
        0x03 => Op::Inc16(Src::BC),
        0x04 => Op::Inc8(Src::B),
        0x05 => Op::Dec8(Src::B),
        0x06 => Op::Ld8(Src::B, Src::D8),
        0x07 => Op::RotateCircular(Src::A, true, true),
        0x08 => Op::Ld16(Src::A16, Src::SP),
        0x09 => Op::AddHl(Src::BC),
        0x0A => Op::Ld8(Src::A, Src::BCa),
        0x0B => Op::Dec16(Src::BC),
        0x0C => Op::Inc8(Src::C),
        0x0D => Op::Dec8(Src::C),
        0x0E => Op::Ld8(Src::C, Src::D8),
        0x0F => Op::RotateCircular(Src::A, false, true),
        0x10 => Op::Nop,
        0x11 => Op::Ld16(Src::DE, Src::D16),
        0x12 => Op::Ld8(Src::DEa, Src::A),
        0x13 => Op::Inc16(Src::DE),
        0x14 => Op::Inc8(Src::D),
        0x15 => Op::Dec8(Src::D),
        0x16 => Op::Ld8(Src::D, Src::D8),
        0x17 => Op::Rotate(Src::A, true, true),
        0x18 => Op::Jr(Cond::Always),
        0x19 => Op::AddHl(Src::DE),
        0x1A => Op::Ld8(Src::A, Src::DEa),
        0x1B => Op::Dec16(Src::DE),
        0x1C => Op::Inc8(Src::E),
        0x1D => Op::Dec8(Src::E),
        0x1E => Op::Ld8(Src::E, Src::D8),
        0x1F => Op::Rotate(Src::A, false, true),
        0x20 => Op::Jr(Cond::NZ),
        0x21 => Op::Ld16(Src::HL, Src::D16),
        0x22 => Op::LdHl(Src::HLa, Src::A, true),
        0x23 => Op::Inc16(Src::HL),
        0x24 => Op::Inc8(Src::H),
        0x25 => Op::Dec8(Src::H),
        0x26 => Op::Ld8(Src::H, Src::D8),
        0x27 => Op::Daa,
        0x28 => Op::Jr(Cond::Z),
        0x29 => Op::AddHl(Src::HL),
        0x2A => Op::LdHl(Src::A, Src::HLa, true),
        0x2B => Op::Dec16(Src::HL),
        0x2C => Op::Inc8(Src::L),
        0x2D => Op::Dec8(Src::L),
        0x2E => Op::Ld8(Src::L, Src::D8),
        0x2F => Op::Cpl,
        0x30 => Op::Jr(Cond::NC),
        0x31 => Op::Ld16(Src::SP, Src::D16),
        0x32 => Op::LdHl(Src::HLa, Src::A, false),
        0x33 => Op::Inc16(Src::SP),
        0x34 => Op::Inc8(Src::HLa),
        0x35 => Op::Dec8(Src::HLa),
        0x36 => Op::Ld8(Src::HLa, Src::D8),
        0x37 => Op::Scf,
        0x38 => Op::Jr(Cond::C),
        0x39 => Op::AddHl(Src::SP),
        0x3A => Op::LdHl(Src::A, Src::HLa, false),
        0x3B => Op::Dec16(Src::SP),
        0x3C => Op::Inc8(Src::A),
        0x3D => Op::Dec8(Src::A),
        0x3E => Op::Ld8(Src::A, Src::D8),
        0x3F => Op::Ccf,
        0x40 => Op::Ld8(Src::B, Src::B),
        0x41 => Op::Ld8(Src::B, Src::C),
        0x42 => Op::Ld8(Src::B, Src::D),
        0x43 => Op::Ld8(Src::B, Src::E),
        0x44 => Op::Ld8(Src::B, Src::H),
        0x45 => Op::Ld8(Src::B, Src::L),
        0x46 => Op::Ld8(Src::B, Src::HLa),
        0x47 => Op::Ld8(Src::B, Src::A),
        0x48 => Op::Ld8(Src::C, Src::B),
        0x49 => Op::Ld8(Src::C, Src::C),
        0x4A => Op::Ld8(Src::C, Src::D),
        0x4B => Op::Ld8(Src::C, Src::E),
        0x4C => Op::Ld8(Src::C, Src::H),
        0x4D => Op::Ld8(Src::C, Src::L),
        0x4E => Op::Ld8(Src::C, Src::HLa),
        0x4F => Op::Ld8(Src::C, Src::A),
        0x50 => Op::Ld8(Src::D, Src::B),
        0x51 => Op::Ld8(Src::D, Src::C),
        0x52 => Op::Ld8(Src::D, Src::D),
        0x53 => Op::Ld8(Src::D, Src::E),
        0x54 => Op::Ld8(Src::D, Src::H),
        0x55 => Op::Ld8(Src::D, Src::L),
        0x56 => Op::Ld8(Src::D, Src::HLa),
        0x57 => Op::Ld8(Src::D, Src::A),
        0x58 => Op::Ld8(Src::E, Src::B),
        0x59 => Op::Ld8(Src::E, Src::C),
        0x5A => Op::Ld8(Src::E, Src::D),
        0x5B => Op::Ld8(Src::E, Src::E),
        0x5C => Op::Ld8(Src::E, Src::H),
        0x5D => Op::Ld8(Src::E, Src::L),
        0x5E => Op::Ld8(Src::E, Src::HLa),
        0x5F => Op::Ld8(Src::E, Src::A),
        0x60 => Op::Ld8(Src::H, Src::B),
        0x61 => Op::Ld8(Src::H, Src::C),
        0x62 => Op::Ld8(Src::H, Src::D),
        0x63 => Op::Ld8(Src::H, Src::E),
        0x64 => Op::Ld8(Src::H, Src::H),
        0x65 => Op::Ld8(Src::H, Src::L),
        0x66 => Op::Ld8(Src::H, Src::HLa),
        0x67 => Op::Ld8(Src::H, Src::A),
        0x68 => Op::Ld8(Src::L, Src::B),
        0x69 => Op::Ld8(Src::L, Src::C),
        0x6A => Op::Ld8(Src::L, Src::D),
        0x6B => Op::Ld8(Src::L, Src::E),
        0x6C => Op::Ld8(Src::L, Src::H),
        0x6D => Op::Ld8(Src::L, Src::L),
        0x6E => Op::Ld8(Src::L, Src::HLa),
        0x6F => Op::Ld8(Src::L, Src::A),
        0x70 => Op::Ld8(Src::HLa, Src::B),
        0x71 => Op::Ld8(Src::HLa, Src::C),
        0x72 => Op::Ld8(Src::HLa, Src::D),
        0x73 => Op::Ld8(Src::HLa, Src::E),
        0x74 => Op::Ld8(Src::HLa, Src::H),
        0x75 => Op::Ld8(Src::HLa, Src::L),
        0x76 => Op::Halt,
        0x77 => Op::Ld8(Src::HLa, Src::A),
        0x78 => Op::Ld8(Src::A, Src::B),
        0x79 => Op::Ld8(Src::A, Src::C),
        0x7A => Op::Ld8(Src::A, Src::D),
        0x7B => Op::Ld8(Src::A, Src::E),
        0x7C => Op::Ld8(Src::A, Src::H),
        0x7D => Op::Ld8(Src::A, Src::L),
        0x7E => Op::Ld8(Src::A, Src::HLa),
        0x7F => Op::Ld8(Src::A, Src::A),
        0x80 => Op::Add8(Src::A, Src::B),
        0x81 => Op::Add8(Src::A, Src::C),
        0x82 => Op::Add8(Src::A, Src::D),
        0x83 => Op::Add8(Src::A, Src::E),
        0x84 => Op::Add8(Src::A, Src::H),
        0x85 => Op::Add8(Src::A, Src::L),
        0x86 => Op::Add8(Src::A, Src::HLa),
        0x87 => Op::Add8(Src::A, Src::A),
        0x88 => Op::Adc8(Src::A, Src::B),
        0x89 => Op::Adc8(Src::A, Src::C),
        0x8A => Op::Adc8(Src::A, Src::D),
        0x8B => Op::Adc8(Src::A, Src::E),
        0x8C => Op::Adc8(Src::A, Src::H),
        0x8D => Op::Adc8(Src::A, Src::L),
        0x8E => Op::Adc8(Src::A, Src::HLa),
        0x8F => Op::Adc8(Src::A, Src::A),
        0x90 => Op::Sub8(Src::A, Src::B),
        0x91 => Op::Sub8(Src::A, Src::C),
        0x92 => Op::Sub8(Src::A, Src::D),
        0x93 => Op::Sub8(Src::A, Src::E),
        0x94 => Op::Sub8(Src::A, Src::H),
        0x95 => Op::Sub8(Src::A, Src::L),
        0x96 => Op::Sub8(Src::A, Src::HLa),
        0x97 => Op::Sub8(Src::A, Src::A),
        0x98 => Op::Sbc8(Src::A, Src::B),
        0x99 => Op::Sbc8(Src::A, Src::C),
        0x9A => Op::Sbc8(Src::A, Src::D),
        0x9B => Op::Sbc8(Src::A, Src::E),
        0x9C => Op::Sbc8(Src::A, Src::H),
        0x9D => Op::Sbc8(Src::A, Src::L),
        0x9E => Op::Sbc8(Src::A, Src::HLa),
        0x9F => Op::Sbc8(Src::A, Src::A),
        0xA0 => Op::And(Src::B),
        0xA1 => Op::And(Src::C),
        0xA2 => Op::And(Src::D),
        0xA3 => Op::And(Src::E),
        0xA4 => Op::And(Src::H),
        0xA5 => Op::And(Src::L),
        0xA6 => Op::And(Src::HLa),
        0xA7 => Op::And(Src::A),
        0xA8 => Op::Xor(Src::B),
        0xA9 => Op::Xor(Src::C),
        0xAA => Op::Xor(Src::D),
        0xAB => Op::Xor(Src::E),
        0xAC => Op::Xor(Src::H),
        0xAD => Op::Xor(Src::L),
        0xAE => Op::Xor(Src::HLa),
        0xAF => Op::Xor(Src::A),
        0xB0 => Op::Or(Src::B),
        0xB1 => Op::Or(Src::C),
        0xB2 => Op::Or(Src::D),
        0xB3 => Op::Or(Src::E),
        0xB4 => Op::Or(Src::H),
        0xB5 => Op::Or(Src::L),
        0xB6 => Op::Or(Src::HLa),
        0xB7 => Op::Or(Src::A),
        0xB8 => Op::Cp(Src::B),
        0xB9 => Op::Cp(Src::C),
        0xBA => Op::Cp(Src::D),
        0xBB => Op::Cp(Src::E),
        0xBC => Op::Cp(Src::H),
        0xBD => Op::Cp(Src::L),
        0xBE => Op::Cp(Src::HLa),
        0xBF => Op::Cp(Src::A),
        0xC0 => Op::Ret(Cond::NZ),
        0xC1 => Op::Pop(CpuRegIndex::BC),
        0xC2 => Op::Jp(Cond::NZ),
        0xC3 => Op::Jp(Cond::Always),
        0xC4 => Op::Call(Cond::NZ),
        0xC5 => Op::Push(CpuRegIndex::BC),
        0xC6 => Op::Add8(Src::A, Src::D8),
        0xC7 => Op::Rst(0x00),
        0xC8 => Op::Ret(Cond::Z),
        0xC9 => Op::Ret(Cond::Always),
        0xCA => Op::Jp(Cond::Z),
        0xCC => Op::Call(Cond::Z),
        0xCD => Op::Call(Cond::Always),
        0xCE => Op::Adc8(Src::A, Src::D8),
        0xCF => Op::Rst(0x08),
        0xD0 => Op::Ret(Cond::NC),
        0xD1 => Op::Pop(CpuRegIndex::DE),
        0xD2 => Op::Jp(Cond::NC),
        0xD4 => Op::Call(Cond::NC),
        0xD5 => Op::Push(CpuRegIndex::DE),
        0xD6 => Op::Sub8(Src::A, Src::D8),
        0xD7 => Op::Rst(0x10),
        0xD8 => Op::Ret(Cond::C),
        0xD9 => Op::Reti,
        0xDA => Op::Jp(Cond::C),
        0xDC => Op::Call(Cond::C),
        0xDE => Op::Sbc8(Src::A, Src::D8),
        0xDF => Op::Rst(0x18),
        0xE0 => Op::Ld8(Src::A8, Src::A),
        0xE1 => Op::Pop(CpuRegIndex::HL),
        0xE2 => Op::Ld8(Src::Ca, Src::A),
        0xE5 => Op::Push(CpuRegIndex::HL),
        0xE6 => Op::And(Src::D8),
        0xE7 => Op::Rst(0x20),
        0xE8 => Op::AddSpR8,
        0xE9 => Op::JpHl,
        0xEA => Op::Ld8(Src::A16, Src::A),
        0xEE => Op::Xor(Src::D8),
        0xEF => Op::Rst(0x28),
        0xF0 => Op::Ld8(Src::A, Src::A8),
        0xF1 => Op::PopAf,
        0xF2 => Op::Ld8(Src::A, Src::Ca),
        0xF3 => Op::Di,
        0xF5 => Op::Push(CpuRegIndex::AF),
        0xF6 => Op::Or(Src::D8),
        0xF7 => Op::Rst(0x30),
        0xF8 => Op::LdHlSpR8,
        0xF9 => Op::Ld16(Src::SP, Src::HL),
        0xFA => Op::Ld8(Src::A, Src::A16),
        0xFB => Op::Ei,
        0xFE => Op::Cp(Src::D8),
        0xFF => Op::Rst(0x38),
        _ => Op::Invalid,
    }
}

/// What an opcode does; opcodes outside the table are invalid.
pub open spec fn operation(opcode: u16) -> Op {
    if opcode < 0x100 {
        base_operation(opcode as u8)
    } else if 0xCB00 <= opcode <= 0xCBFF {
        cb_operation((opcode - 0xCB00) as u8)
    } else {
        Op::Invalid
    }
}

/// The table entry of an opcode: mnemonic, size in bytes and base cycle count
/// (-1 for invalid and unimplemented opcodes).
pub open spec fn instruction_spec(opcode: u16) -> Instruction {
    match opcode {
        0x0000 => Instruction { opcode, mnemonic: "NOP", size: 1, cycles: 4i16 },
        0x0001 => Instruction { opcode, mnemonic: "LD BC,d16", size: 3, cycles: 12i16 },
        0x0002 => Instruction { opcode, mnemonic: "LD (BC),A", size: 1, cycles: 8i16 },
        0x0003 => Instruction { opcode, mnemonic: "INC BC", size: 1, cycles: 8i16 },
        0x0004 => Instruction { opcode, mnemonic: "INC B", size: 1, cycles: 4i16 },
        0x0005 => Instruction { opcode, mnemonic: "DEC B", size: 1, cycles: 4i16 },
        0x0006 => Instruction { opcode, mnemonic: "LD B,d8", size: 2, cycles: 8i16 },
        0x0007 => Instruction { opcode, mnemonic: "RLCA", size: 1, cycles: 4i16 },
        0x0008 => Instruction { opcode, mnemonic: "LD (a16),SP", size: 3, cycles: 20i16 },
        0x0009 => Instruction { opcode, mnemonic: "ADD HL,BC", size: 1, cycles: 8i16 },
        0x000A => Instruction { opcode, mnemonic: "LD A,(BC)", size: 1, cycles: 8i16 },
        0x000B => Instruction { opcode, mnemonic: "DEC BC", size: 1, cycles: 8i16 },
        0x000C => Instruction { opcode, mnemonic: "INC C", size: 1, cycles: 4i16 },
        0x000D => Instruction { opcode, mnemonic: "DEC C", size: 1, cycles: 4i16 },
        0x000E => Instruction { opcode, mnemonic: "LD C,d8", size: 2, cycles: 8i16 },
        0x000F => Instruction { opcode, mnemonic: "RRCA", size: 1, cycles: 4i16 },
        0x0010 => Instruction { opcode, mnemonic: "STOP", size: 2, cycles: 4i16 },
        0x0011 => Instruction { opcode, mnemonic: "LD DE,d16", size: 3, cycles: 12i16 },
        0x0012 => Instruction { opcode, mnemonic: "LD (DE),A", size: 1, cycles: 8i16 },
        0x0013 => Instruction { opcode, mnemonic: "INC DE", size: 1, cycles: 8i16 },
        0x0014 => Instruction { opcode, mnemonic: "INC D", size: 1, cycles: 4i16 },
        0x0015 => Instruction { opcode, mnemonic: "DEC D", size: 1, cycles: 4i16 },
        0x0016 => Instruction { opcode, mnemonic: "LD D,d8", size: 2, cycles: 8i16 },
        0x0017 => Instruction { opcode, mnemonic: "RLA", size: 1, cycles: 4i16 },
        0x0018 => Instruction { opcode, mnemonic: "JR r8", size: 2, cycles: 12i16 },
        0x0019 => Instruction { opcode, mnemonic: "ADD HL,DE", size: 1, cycles: 8i16 },
        0x001A => Instruction { opcode, mnemonic: "LD A,(DE)", size: 1, cycles: 8i16 },
        0x001B => Instruction { opcode, mnemonic: "DEC DE", size: 1, cycles: 8i16 },
        0x001C => Instruction { opcode, mnemonic: "INC E", size: 1, cycles: 4i16 },
        0x001D => Instruction { opcode, mnemonic: "DEC E", size: 1, cycles: 4i16 },
        0x001E => Instruction { opcode, mnemonic: "LD E,d8", size: 2, cycles: 8i16 },
        0x001F => Instruction { opcode, mnemonic: "RRA", size: 1, cycles: 4i16 },
        0x0020 => Instruction { opcode, mnemonic: "JR NZ,r8", size: 2, cycles: 8i16 },
        0x0021 => Instruction { opcode, mnemonic: "LD HL,d16", size: 3, cycles: 12i16 },
        0x0022 => Instruction { opcode, mnemonic: "LDI (HL),A", size: 1, cycles: 8i16 },
        0x0023 => Instruction { opcode, mnemonic: "INC HL", size: 1, cycles: 8i16 },
        0x0024 => Instruction { opcode, mnemonic: "INC H", size: 1, cycles: 4i16 },
        0x0025 => Instruction { opcode, mnemonic: "DEC H", size: 1, cycles: 4i16 },
        0x0026 => Instruction { opcode, mnemonic: "LD H,d8", size: 2, cycles: 8i16 },
        0x0027 => Instruction { opcode, mnemonic: "DAA", size: 1, cycles: 4i16 },
        0x0028 => Instruction { opcode, mnemonic: "JR Z,r8", size: 2, cycles: 8i16 },
        0x0029 => Instruction { opcode, mnemonic: "ADD HL,HL", size: 1, cycles: 8i16 },
        0x002A => Instruction { opcode, mnemonic: "LDI A,(HL)", size: 1, cycles: 8i16 },
        0x002B => Instruction { opcode, mnemonic: "DEC HL", size: 1, cycles: 8i16 },
        0x002C => Instruction { opcode, mnemonic: "INC L", size: 1, cycles: 4i16 },
        0x002D => Instruction { opcode, mnemonic: "DEC L", size: 1, cycles: 4i16 },
        0x002E => Instruction { opcode, mnemonic: "LD L,d8", size: 2, cycles: 8i16 },
        0x002F => Instruction { opcode, mnemonic: "CPL", size: 1, cycles: 4i16 },
        0x0030 => Instruction { opcode, mnemonic: "JR NC,r8", size: 2, cycles: 8i16 },
        0x0031 => Instruction { opcode, mnemonic: "LD SP,d16", size: 3, cycles: 12i16 },
        0x0032 => Instruction { opcode, mnemonic: "LDD (HL),A", size: 1, cycles: 8i16 },
        0x0033 => Instruction { opcode, mnemonic: "INC SP", size: 1, cycles: 8i16 },
        0x0034 => Instruction { opcode, mnemonic: "INC (HL)", size: 1, cycles: 12i16 },
        0x0035 => Instruction { opcode, mnemonic: "DEC (HL)", size: 1, cycles: 12i16 },
        0x0036 => Instruction { opcode, mnemonic: "LD (HL),d8", size: 2, cycles: 12i16 },
        0x0037 => Instruction { opcode, mnemonic: "SCF", size: 1, cycles: 4i16 },
        0x0038 => Instruction { opcode, mnemonic: "JR C,r8", size: 2, cycles: 8i16 },
        0x0039 => Instruction { opcode, mnemonic: "ADD HL,SP", size: 1, cycles: 8i16 },
        0x003A => Instruction { opcode, mnemonic: "LDD A,(HL)", size: 1, cycles: 8i16 },
        0x003B => Instruction { opcode, mnemonic: "DEC SP", size: 1, cycles: 8i16 },
        0x003C => Instruction { opcode, mnemonic: "INC A", size: 1, cycles: 4i16 },
        0x003D => Instruction { opcode, mnemonic: "DEC A", size: 1, cycles: 4i16 },
        0x003E => Instruction { opcode, mnemonic: "LD A,d8", size: 2, cycles: 8i16 },
        0x003F => Instruction { opcode, mnemonic: "CCF", size: 1, cycles: 4i16 },
        0x0040 => Instruction { opcode, mnemonic: "LD B,B", size: 1, cycles: 4i16 },
        0x0041 => Instruction { opcode, mnemonic: "LD B,C", size: 1, cycles: 4i16 },
        0x0042 => Instruction { opcode, mnemonic: "LD B,D", size: 1, cycles: 4i16 },
        0x0043 => Instruction { opcode, mnemonic: "LD B,E", size: 1, cycles: 4i16 },
        0x0044 => Instruction { opcode, mnemonic: "LD B,H", size: 1, cycles: 4i16 },
        0x0045 => Instruction { opcode, mnemonic: "LD B,L", size: 1, cycles: 4i16 },
        0x0046 => Instruction { opcode, mnemonic: "LD B,(HL)", size: 1, cycles: 8i16 },
        0x0047 => Instruction { opcode, mnemonic: "LD B,A", size: 1, cycles: 4i16 },
        0x0048 => Instruction { opcode, mnemonic: "LD C,B", size: 1, cycles: 4i16 },
        0x0049 => Instruction { opcode, mnemonic: "LD C,C", size: 1, cycles: 4i16 },
        0x004A => Instruction { opcode, mnemonic: "LD C,D", size: 1, cycles: 4i16 },
        0x004B => Instruction { opcode, mnemonic: "LD C,E", size: 1, cycles: 4i16 },
        0x004C => Instruction { opcode, mnemonic: "LD C,H", size: 1, cycles: 4i16 },
        0x004D => Instruction { opcode, mnemonic: "LD C,L", size: 1, cycles: 4i16 },
        0x004E => Instruction { opcode, mnemonic: "LD C,(HL)", size: 1, cycles: 8i16 },
        0x004F => Instruction { opcode, mnemonic: "LD C,A", size: 1, cycles: 4i16 },
        0x0050 => Instruction { opcode, mnemonic: "LD D,B", size: 1, cycles: 4i16 },
        0x0051 => Instruction { opcode, mnemonic: "LD D,C", size: 1, cycles: 4i16 },
        0x0052 => Instruction { opcode, mnemonic: "LD D,D", size: 1, cycles: 4i16 },
        0x0053 => Instruction { opcode, mnemonic: "LD D,E", size: 1, cycles: 4i16 },
        0x0054 => Instruction { opcode, mnemonic: "LD D,H", size: 1, cycles: 4i16 },
        0x0055 => Instruction { opcode, mnemonic: "LD D,L", size: 1, cycles: 4i16 },
        0x0056 => Instruction { opcode, mnemonic: "LD D,(HL)", size: 1, cycles: 8i16 },
        0x0057 => Instruction { opcode, mnemonic: "LD D,A", size: 1, cycles: 4i16 },
        0x0058 => Instruction { opcode, mnemonic: "LD E,B", size: 1, cycles: 4i16 },
        0x0059 => Instruction { opcode, mnemonic: "LD E,C", size: 1, cycles: 4i16 },
        0x005A => Instruction { opcode, mnemonic: "LD E,D", size: 1, cycles: 4i16 },
        0x005B => Instruction { opcode, mnemonic: "LD E,E", size: 1, cycles: 4i16 },
        0x005C => Instruction { opcode, mnemonic: "LD E,H", size: 1, cycles: 4i16 },
        0x005D => Instruction { opcode, mnemonic: "LD E,L", size: 1, cycles: 4i16 },
        0x005E => Instruction { opcode, mnemonic: "LD E,(HL)", size: 1, cycles: 8i16 },
        0x005F => Instruction { opcode, mnemonic: "LD E,A", size: 1, cycles: 4i16 },
        0x0060 => Instruction { opcode, mnemonic: "LD H,B", size: 1, cycles: 4i16 },
        0x0061 => Instruction { opcode, mnemonic: "LD H,C", size: 1, cycles: 4i16 },
        0x0062 => Instruction { opcode, mnemonic: "LD H,D", size: 1, cycles: 4i16 },
        0x0063 => Instruction { opcode, mnemonic: "LD H,E", size: 1, cycles: 4i16 },
        0x0064 => Instruction { opcode, mnemonic: "LD H,H", size: 1, cycles: 4i16 },
        0x0065 => Instruction { opcode, mnemonic: "LD H,L", size: 1, cycles: 4i16 },
        0x0066 => Instruction { opcode, mnemonic: "LD H,(HL)", size: 1, cycles: 8i16 },
        0x0067 => Instruction { opcode, mnemonic: "LD H,A", size: 1, cycles: 4i16 },
        0x0068 => Instruction { opcode, mnemonic: "LD L,B", size: 1, cycles: 4i16 },
        0x0069 => Instruction { opcode, mnemonic: "LD L,C", size: 1, cycles: 4i16 },
        0x006A => Instruction { opcode, mnemonic: "LD L,D", size: 1, cycles: 4i16 },
        0x006B => Instruction { opcode, mnemonic: "LD L,E", size: 1, cycles: 4i16 },
        0x006C => Instruction { opcode, mnemonic: "LD L,H", size: 1, cycles: 4i16 },
        0x006D => Instruction { opcode, mnemonic: "LD L,L", size: 1, cycles: 4i16 },
        0x006E => Instruction { opcode, mnemonic: "LD L,(HL)", size: 1, cycles: 8i16 },
        0x006F => Instruction { opcode, mnemonic: "LD L,A", size: 1, cycles: 4i16 },
        0x0070 => Instruction { opcode, mnemonic: "LD (HL),B", size: 1, cycles: 8i16 },
        0x0071 => Instruction { opcode, mnemonic: "LD (HL),C", size: 1, cycles: 8i16 },
        0x0072 => Instruction { opcode, mnemonic: "LD (HL),D", size: 1, cycles: 8i16 },
        0x0073 => Instruction { opcode, mnemonic: "LD (HL),E", size: 1, cycles: 8i16 },
        0x0074 => Instruction { opcode, mnemonic: "LD (HL),H", size: 1, cycles: 8i16 },
        0x0075 => Instruction { opcode, mnemonic: "LD (HL),L", size: 1, cycles: 8i16 },
        0x0076 => Instruction { opcode, mnemonic: "HALT", size: 1, cycles: 4i16 },
        0x0077 => Instruction { opcode, mnemonic: "LD (HL),A", size: 1, cycles: 8i16 },
        0x0078 => Instruction { opcode, mnemonic: "LD A,B", size: 1, cycles: 4i16 },
        0x0079 => Instruction { opcode, mnemonic: "LD A,C", size: 1, cycles: 4i16 },
        0x007A => Instruction { opcode, mnemonic: "LD A,D", size: 1, cycles: 4i16 },
        0x007B => Instruction { opcode, mnemonic: "LD A,E", size: 1, cycles: 4i16 },
        0x007C => Instruction { opcode, mnemonic: "LD A,H", size: 1, cycles: 4i16 },
        0x007D => Instruction { opcode, mnemonic: "LD A,L", size: 1, cycles: 4i16 },
        0x007E => Instruction { opcode, mnemonic: "LD A,(HL)", size: 1, cycles: 8i16 },
        0x007F => Instruction { opcode, mnemonic: "LD A,A", size: 1, cycles: 4i16 },
        0x0080 => Instruction { opcode, mnemonic: "ADD A,B", size: 1, cycles: 4i16 },
        0x0081 => Instruction { opcode, mnemonic: "ADD A,C", size: 1, cycles: 4i16 },
        0x0082 => Instruction { opcode, mnemonic: "ADD A,D", size: 1, cycles: 4i16 },
        0x0083 => Instruction { opcode, mnemonic: "ADD A,E", size: 1, cycles: 4i16 },
        0x0084 => Instruction { opcode, mnemonic: "ADD A,H", size: 1, cycles: 4i16 },
        0x0085 => Instruction { opcode, mnemonic: "ADD A,L", size: 1, cycles: 4i16 },
        0x0086 => Instruction { opcode, mnemonic: "ADD A,(HL)", size: 1, cycles: 8i16 },
        0x0087 => Instruction { opcode, mnemonic: "ADD A,A", size: 1, cycles: 4i16 },
        0x0088 => Instruction { opcode, mnemonic: "ADC A,B", size: 1, cycles: 4i16 },
        0x0089 => Instruction { opcode, mnemonic: "ADC A,C", size: 1, cycles: 4i16 },
        0x008A => Instruction { opcode, mnemonic: "ADC A,D", size: 1, cycles: 4i16 },
        0x008B => Instruction { opcode, mnemonic: "ADC A,E", size: 1, cycles: 4i16 },
        0x008C => Instruction { opcode, mnemonic: "ADC A,H", size: 1, cycles: 4i16 },
        0x008D => Instruction { opcode, mnemonic: "ADC A,L", size: 1, cycles: 4i16 },
        0x008E => Instruction { opcode, mnemonic: "ADC A,(HL)", size: 1, cycles: 8i16 },
        0x008F => Instruction { opcode, mnemonic: "ADC A,A", size: 1, cycles: 4i16 },
        0x0090 => Instruction { opcode, mnemonic: "SUB A,B", size: 1, cycles: 4i16 },
        0x0091 => Instruction { opcode, mnemonic: "SUB A,C", size: 1, cycles: 4i16 },
        0x0092 => Instruction { opcode, mnemonic: "SUB A,D", size: 1, cycles: 4i16 },
        0x0093 => Instruction { opcode, mnemonic: "SUB A,E", size: 1, cycles: 4i16 },
        0x0094 => Instruction { opcode, mnemonic: "SUB A,H", size: 1, cycles: 4i16 },
        0x0095 => Instruction { opcode, mnemonic: "SUB A,L", size: 1, cycles: 4i16 },
        0x0096 => Instruction { opcode, mnemonic: "SUB A,(HL)", size: 1, cycles: 8i16 },
        0x0097 => Instruction { opcode, mnemonic: "SUB A,A", size: 1, cycles: 4i16 },
        0x0098 => Instruction { opcode, mnemonic: "SBC A,B", size: 1, cycles: 4i16 },
        0x0099 => Instruction { opcode, mnemonic: "SBC A,C", size: 1, cycles: 4i16 },
        0x009A => Instruction { opcode, mnemonic: "SBC A,D", size: 1, cycles: 4i16 },
        0x009B => Instruction { opcode, mnemonic: "SBC A,E", size: 1, cycles: 4i16 },
        0x009C => Instruction { opcode, mnemonic: "SBC A,H", size: 1, cycles: 4i16 },
        0x009D => Instruction { opcode, mnemonic: "SBC A,L", size: 1, cycles: 4i16 },
        0x009E => Instruction { opcode, mnemonic: "SBC A,(HL)", size: 1, cycles: 8i16 },
        0x009F => Instruction { opcode, mnemonic: "SBC A,A", size: 1, cycles: 4i16 },
        0x00A0 => Instruction { opcode, mnemonic: "AND B", size: 1, cycles: 4i16 },
        0x00A1 => Instruction { opcode, mnemonic: "AND C", size: 1, cycles: 4i16 },
        0x00A2 => Instruction { opcode, mnemonic: "AND D", size: 1, cycles: 4i16 },
        0x00A3 => Instruction { opcode, mnemonic: "AND E", size: 1, cycles: 4i16 },
        0x00A4 => Instruction { opcode, mnemonic: "AND H", size: 1, cycles: 4i16 },
        0x00A5 => Instruction { opcode, mnemonic: "AND L", size: 1, cycles: 4i16 },
        0x00A6 => Instruction { opcode, mnemonic: "AND (HL)", size: 1, cycles: 8i16 },
        0x00A7 => Instruction { opcode, mnemonic: "AND A", size: 1, cycles: 4i16 },
        0x00A8 => Instruction { opcode, mnemonic: "XOR B", size: 1, cycles: 4i16 },
        0x00A9 => Instruction { opcode, mnemonic: "XOR C", size: 1, cycles: 4i16 },
        0x00AA => Instruction { opcode, mnemonic: "XOR D", size: 1, cycles: 4i16 },
        0x00AB => Instruction { opcode, mnemonic: "XOR E", size: 1, cycles: 4i16 },
        0x00AC => Instruction { opcode, mnemonic: "XOR H", size: 1, cycles: 4i16 },
        0x00AD => Instruction { opcode, mnemonic: "XOR L", size: 1, cycles: 4i16 },
        0x00AE => Instruction { opcode, mnemonic: "XOR (HL)", size: 1, cycles: 4i16 },
        0x00AF => Instruction { opcode, mnemonic: "XOR A", size: 1, cycles: 4i16 },
        0x00B0 => Instruction { opcode, mnemonic: "OR B", size: 1, cycles: 4i16 },
        0x00B1 => Instruction { opcode, mnemonic: "OR C", size: 1, cycles: 4i16 },
        0x00B2 => Instruction { opcode, mnemonic: "OR D", size: 1, cycles: 4i16 },
        0x00B3 => Instruction { opcode, mnemonic: "OR E", size: 1, cycles: 4i16 },
        0x00B4 => Instruction { opcode, mnemonic: "OR H", size: 1, cycles: 4i16 },
        0x00B5 => Instruction { opcode, mnemonic: "OR L", size: 1, cycles: 4i16 },
        0x00B6 => Instruction { opcode, mnemonic: "OR (HL)", size: 1, cycles: 4i16 },
        0x00B7 => Instruction { opcode, mnemonic: "OR A", size: 1, cycles: 4i16 },
        0x00B8 => Instruction { opcode, mnemonic: "CP B", size: 1, cycles: 4i16 },
        0x00B9 => Instruction { opcode, mnemonic: "CP C", size: 1, cycles: 4i16 },
        0x00BA => Instruction { opcode, mnemonic: "CP D", size: 1, cycles: 4i16 },
        0x00BB => Instruction { opcode, mnemonic: "CP E", size: 1, cycles: 4i16 },
        0x00BC => Instruction { opcode, mnemonic: "CP H", size: 1, cycles: 4i16 },
        0x00BD => Instruction { opcode, mnemonic: "CP L", size: 1, cycles: 4i16 },
        0x00BE => Instruction { opcode, mnemonic: "CP (HL)", size: 1, cycles: 8i16 },
        0x00BF => Instruction { opcode, mnemonic: "CP A", size: 1, cycles: 4i16 },
        0x00C0 => Instruction { opcode, mnemonic: "RET NZ", size: 1, cycles: 8i16 },
        0x00C1 => Instruction { opcode, mnemonic: "POP BC", size: 1, cycles: 12i16 },
        0x00C2 => Instruction { opcode, mnemonic: "JP NZ,a16", size: 3, cycles: 12i16 },
        0x00C3 => Instruction { opcode, mnemonic: "JP a16", size: 3, cycles: 16i16 },
        0x00C4 => Instruction { opcode, mnemonic: "CALL NZ,a16", size: 3, cycles: 12i16 },
        0x00C5 => Instruction { opcode, mnemonic: "PUSH BC", size: 1, cycles: 16i16 },
        0x00C6 => Instruction { opcode, mnemonic: "ADD A,d8", size: 2, cycles: 8i16 },
        0x00C7 => Instruction { opcode, mnemonic: "RST 00H", size: 1, cycles: 16i16 },
        0x00C8 => Instruction { opcode, mnemonic: "RET Z", size: 1, cycles: 8i16 },
        0x00C9 => Instruction { opcode, mnemonic: "RET", size: 1, cycles: 16i16 },
        0x00CA => Instruction { opcode, mnemonic: "JP Z,a16", size: 3, cycles: 12i16 },
        0x00CC => Instruction { opcode, mnemonic: "CALL Z,a16", size: 3, cycles: 12i16 },
        0x00CD => Instruction { opcode, mnemonic: "CALL a16", size: 3, cycles: 24i16 },
        0x00CE => Instruction { opcode, mnemonic: "ADC A,d8", size: 2, cycles: 8i16 },
        0x00CF => Instruction { opcode, mnemonic: "RST 08H", size: 1, cycles: 16i16 },
        0x00D0 => Instruction { opcode, mnemonic: "RET NC", size: 1, cycles: 8i16 },
        0x00D1 => Instruction { opcode, mnemonic: "POP DE", size: 1, cycles: 12i16 },
        0x00D2 => Instruction { opcode, mnemonic: "JP NC,a16", size: 3, cycles: 12i16 },
        0x00D3 => Instruction { opcode, mnemonic: "Invalid", size: 1, cycles: -1i16 },
        0x00D4 => Instruction { opcode, mnemonic: "CALL NC,a16", size: 3, cycles: 12i16 },
        0x00D5 => Instruction { opcode, mnemonic: "PUSH DE", size: 1, cycles: 16i16 },
        0x00D6 => Instruction { opcode, mnemonic: "SUB d8", size: 2, cycles: 8i16 },
        0x00D7 => Instruction { opcode, mnemonic: "RST 10H", size: 1, cycles: 16i16 },
        0x00D8 => Instruction { opcode, mnemonic: "RET C", size: 1, cycles: 8i16 },
        0x00D9 => Instruction { opcode, mnemonic: "RET I", size: 1, cycles: 16i16 },
        0x00DA => Instruction { opcode, mnemonic: "JP C,a16", size: 3, cycles: 12i16 },
        0x00DB => Instruction { opcode, mnemonic: "Invalid", size: 1, cycles: -1i16 },
        0x00DC => Instruction { opcode, mnemonic: "CALL C,a16", size: 3, cycles: 12i16 },
        0x00DD => Instruction { opcode, mnemonic: "Invalid", size: 1, cycles: -1i16 },
        0x00DE => Instruction { opcode, mnemonic: "SBC A,d8", size: 2, cycles: 8i16 },
        0x00DF => Instruction { opcode, mnemonic: "RST 18H", size: 1, cycles: 16i16 },
        0x00E0 => Instruction { opcode, mnemonic: "LDH (a8),A", size: 2, cycles: 12i16 },
        0x00E1 => Instruction { opcode, mnemonic: "POP HL", size: 1, cycles: 12i16 },
        0x00E2 => Instruction { opcode, mnemonic: "LDH (C),A", size: 1, cycles: 8i16 },
        0x00E3 => Instruction { opcode, mnemonic: "Invalid", size: 1, cycles: -1i16 },
        0x00E4 => Instruction { opcode, mnemonic: "Invalid", size: 1, cycles: -1i16 },
        0x00E5 => Instruction { opcode, mnemonic: "PUSH HL", size: 1, cycles: 16i16 },
        0x00E6 => Instruction { opcode, mnemonic: "AND d8", size: 2, cycles: 8i16 },
        0x00E7 => Instruction { opcode, mnemonic: "RST 20H", size: 1, cycles: 16i16 },
        0x00E8 => Instruction { opcode, mnemonic: "ADD SP,r8", size: 2, cycles: 16i16 },
        0x00E9 => Instruction { opcode, mnemonic: "JP HL", size: 1, cycles: 4i16 },
        0x00EA => Instruction { opcode, mnemonic: "LD (a16),A", size: 3, cycles: 16i16 },
        0x00EB => Instruction { opcode, mnemonic: "Invalid", size: 1, cycles: -1i16 },
        0x00EC => Instruction { opcode, mnemonic: "Invalid", size: 1, cycles: -1i16 },
        0x00ED => Instruction { opcode, mnemonic: "Invalid", size: 1, cycles: -1i16 },
        0x00EE => Instruction { opcode, mnemonic: "XOR d8", size: 2, cycles: 8i16 },
        0x00EF => Instruction { opcode, mnemonic: "RST 28H", size: 1, cycles: 16i16 },
        0x00F0 => Instruction { opcode, mnemonic: "LDH A,(a8)", size: 2, cycles: 12i16 },
        0x00F1 => Instruction { opcode, mnemonic: "POP AF", size: 1, cycles: 12i16 },
        0x00F2 => Instruction { opcode, mnemonic: "LDH A,(C)", size: 1, cycles: 8i16 },
        0x00F3 => Instruction { opcode, mnemonic: "DI", size: 1, cycles: 4i16 },
        0x00F4 => Instruction { opcode, mnemonic: "Invalid", size: 1, cycles: -1i16 },
        0x00F5 => Instruction { opcode, mnemonic: "PUSH AF", size: 1, cycles: 16i16 },
        0x00F6 => Instruction { opcode, mnemonic: "OR d8", size: 2, cycles: 8i16 },
        0x00F7 => Instruction { opcode, mnemonic: "RST 30H", size: 1, cycles: 16i16 },
        0x00F8 => Instruction { opcode, mnemonic: "LD HL,SP+r8", size: 2, cycles: 12i16 },
        0x00F9 => Instruction { opcode, mnemonic: "LD SP,HL", size: 1, cycles: 8i16 },
        0x00FA => Instruction { opcode, mnemonic: "LD A,(a16)", size: 3, cycles: 16i16 },
        0x00FB => Instruction { opcode, mnemonic: "EI", size: 1, cycles: 4i16 },
        0x00FC => Instruction { opcode, mnemonic: "Invalid", size: 1, cycles: -1i16 },
        0x00FD => Instruction { opcode, mnemonic: "Invalid", size: 1, cycles: -1i16 },
        0x00FE => Instruction { opcode, mnemonic: "CP d8", size: 2, cycles: 8i16 },
        0x00FF => Instruction { opcode, mnemonic: "RST 38H", size: 1, cycles: 16i16 },
        0xCB00 => Instruction { opcode, mnemonic: "RLC B", size: 2, cycles: 8i16 },
        0xCB01 => Instruction { opcode, mnemonic: "RLC C", size: 2, cycles: 8i16 },
        0xCB02 => Instruction { opcode, mnemonic: "RLC D", size: 2, cycles: 8i16 },
        0xCB03 => Instruction { opcode, mnemonic: "RLC E", size: 2, cycles: 8i16 },
        0xCB04 => Instruction { opcode, mnemonic: "RLC H", size: 2, cycles: 8i16 },
        0xCB05 => Instruction { opcode, mnemonic: "RLC L", size: 2, cycles: 8i16 },
        0xCB06 => Instruction { opcode, mnemonic: "RLC (HL)", size: 2, cycles: 16i16 },
        0xCB07 => Instruction { opcode, mnemonic: "RLC A", size: 2, cycles: 8i16 },
        0xCB08 => Instruction { opcode, mnemonic: "RRC B", size: 2, cycles: 8i16 },
        0xCB09 => Instruction { opcode, mnemonic: "RRC C", size: 2, cycles: 8i16 },
        0xCB0A => Instruction { opcode, mnemonic: "RRC D", size: 2, cycles: 8i16 },
        0xCB0B => Instruction { opcode, mnemonic: "RRC E", size: 2, cycles: 8i16 },
        0xCB0C => Instruction { opcode, mnemonic: "RRC H", size: 2, cycles: 8i16 },
        0xCB0D => Instruction { opcode, mnemonic: "RRC L", size: 2, cycles: 8i16 },
        0xCB0E => Instruction { opcode, mnemonic: "RRC (HL)", size: 2, cycles: 16i16 },
        0xCB0F => Instruction { opcode, mnemonic: "RRC A", size: 2, cycles: 8i16 },
        0xCB10 => Instruction { opcode, mnemonic: "RL B", size: 2, cycles: 8i16 },
        0xCB11 => Instruction { opcode, mnemonic: "RL C", size: 2, cycles: 8i16 },
        0xCB12 => Instruction { opcode, mnemonic: "RL D", size: 2, cycles: 8i16 },
        0xCB13 => Instruction { opcode, mnemonic: "RL E", size: 2, cycles: 8i16 },
        0xCB14 => Instruction { opcode, mnemonic: "RL H", size: 2, cycles: 8i16 },
        0xCB15 => Instruction { opcode, mnemonic: "RL L", size: 2, cycles: 8i16 },
        0xCB16 => Instruction { opcode, mnemonic: "RL (HL)", size: 2, cycles: 16i16 },
        0xCB17 => Instruction { opcode, mnemonic: "RL A", size: 2, cycles: 8i16 },
        0xCB18 => Instruction { opcode, mnemonic: "RR B", size: 2, cycles: 8i16 },
        0xCB19 => Instruction { opcode, mnemonic: "RR C", size: 2, cycles: 8i16 },
        0xCB1A => Instruction { opcode, mnemonic: "RR D", size: 2, cycles: 8i16 },
        0xCB1B => Instruction { opcode, mnemonic: "RR E", size: 2, cycles: 8i16 },
        0xCB1C => Instruction { opcode, mnemonic: "RR H", size: 2, cycles: 8i16 },
        0xCB1D => Instruction { opcode, mnemonic: "RR L", size: 2, cycles: 8i16 },
        0xCB1E => Instruction { opcode, mnemonic: "RR (HL)", size: 2, cycles: 16i16 },
        0xCB1F => Instruction { opcode, mnemonic: "RR A", size: 2, cycles: 8i16 },
        0xCB20 => Instruction { opcode, mnemonic: "SLA B", size: 2, cycles: 8i16 },
        0xCB21 => Instruction { opcode, mnemonic: "SLA C", size: 2, cycles: 8i16 },
        0xCB22 => Instruction { opcode, mnemonic: "SLA D", size: 2, cycles: 8i16 },
        0xCB23 => Instruction { opcode, mnemonic: "SLA E", size: 2, cycles: 8i16 },
        0xCB24 => Instruction { opcode, mnemonic: "SLA H", size: 2, cycles: 8i16 },
        0xCB25 => Instruction { opcode, mnemonic: "SLA L", size: 2, cycles: 8i16 },
        0xCB26 => Instruction { opcode, mnemonic: "SLA (HL)", size: 2, cycles: 16i16 },
        0xCB27 => Instruction { opcode, mnemonic: "SLA A", size: 2, cycles: 8i16 },
        0xCB28 => Instruction { opcode, mnemonic: "SRA B", size: 2, cycles: 8i16 },
        0xCB29 => Instruction { opcode, mnemonic: "SRA C", size: 2, cycles: 8i16 },
        0xCB2A => Instruction { opcode, mnemonic: "SRA D", size: 2, cycles: 8i16 },
        0xCB2B => Instruction { opcode, mnemonic: "SRA E", size: 2, cycles: 8i16 },
        0xCB2C => Instruction { opcode, mnemonic: "SRA H", size: 2, cycles: 8i16 },
        0xCB2D => Instruction { opcode, mnemonic: "SRA L", size: 2, cycles: 8i16 },
        0xCB2E => Instruction { opcode, mnemonic: "SRA (HL)", size: 2, cycles: 16i16 },
        0xCB2F => Instruction { opcode, mnemonic: "SRA A", size: 2, cycles: 8i16 },
        0xCB30 => Instruction { opcode, mnemonic: "SWAP B", size: 2, cycles: 8i16 },
        0xCB31 => Instruction { opcode, mnemonic: "SWAP C", size: 2, cycles: 8i16 },
        0xCB32 => Instruction { opcode, mnemonic: "SWAP D", size: 2, cycles: 8i16 },
        0xCB33 => Instruction { opcode, mnemonic: "SWAP E", size: 2, cycles: 8i16 },
        0xCB34 => Instruction { opcode, mnemonic: "SWAP H", size: 2, cycles: 8i16 },
        0xCB35 => Instruction { opcode, mnemonic: "SWAP L", size: 2, cycles: 8i16 },
        0xCB36 => Instruction { opcode, mnemonic: "SWAP (HL)", size: 2, cycles: 16i16 },
        0xCB37 => Instruction { opcode, mnemonic: "SWAP A", size: 2, cycles: 8i16 },
        0xCB38 => Instruction { opcode, mnemonic: "SRL B", size: 2, cycles: 8i16 },
        0xCB39 => Instruction { opcode, mnemonic: "SRL C", size: 2, cycles: 8i16 },
        0xCB3A => Instruction { opcode, mnemonic: "SRL D", size: 2, cycles: 8i16 },
        0xCB3B => Instruction { opcode, mnemonic: "SRL E", size: 2, cycles: 8i16 },
        0xCB3C => Instruction { opcode, mnemonic: "SRL H", size: 2, cycles: 8i16 },
        0xCB3D => Instruction { opcode, mnemonic: "SRL L", size: 2, cycles: 8i16 },
        0xCB3E => Instruction { opcode, mnemonic: "SRL (HL)", size: 2, cycles: 16i16 },
        0xCB3F => Instruction { opcode, mnemonic: "SRL A", size: 2, cycles: 8i16 },
        0xCB40 => Instruction { opcode, mnemonic: "BIT 0,B", size: 2, cycles: 8i16 },
        0xCB41 => Instruction { opcode, mnemonic: "BIT 0,C", size: 2, cycles: 8i16 },
        0xCB42 => Instruction { opcode, mnemonic: "BIT 0,D", size: 2, cycles: 8i16 },
        0xCB43 => Instruction { opcode, mnemonic: "BIT 0,E", size: 2, cycles: 8i16 },
        0xCB44 => Instruction { opcode, mnemonic: "BIT 0,H", size: 2, cycles: 8i16 },
        0xCB45 => Instruction { opcode, mnemonic: "BIT 0,L", size: 2, cycles: 8i16 },
        0xCB46 => Instruction { opcode, mnemonic: "BIT 0,(HL)", size: 2, cycles: 16i16 },
        0xCB47 => Instruction { opcode, mnemonic: "BIT 0,A", size: 2, cycles: 8i16 },
        0xCB48 => Instruction { opcode, mnemonic: "BIT 1,B", size: 2, cycles: 8i16 },
        0xCB49 => Instruction { opcode, mnemonic: "BIT 1,C", size: 2, cycles: 8i16 },
        0xCB4A => Instruction { opcode, mnemonic: "BIT 1,D", size: 2, cycles: 8i16 },
        0xCB4B => Instruction { opcode, mnemonic: "BIT 1,E", size: 2, cycles: 8i16 },
        0xCB4C => Instruction { opcode, mnemonic: "BIT 1,H", size: 2, cycles: 8i16 },
        0xCB4D => Instruction { opcode, mnemonic: "BIT 1,L", size: 2, cycles: 8i16 },
        0xCB4E => Instruction { opcode, mnemonic: "BIT 1,(HL)", size: 2, cycles: 16i16 },
        0xCB4F => Instruction { opcode, mnemonic: "BIT 1,A", size: 2, cycles: 8i16 },
        0xCB50 => Instruction { opcode, mnemonic: "BIT 2,B", size: 2, cycles: 8i16 },
        0xCB51 => Instruction { opcode, mnemonic: "BIT 2,C", size: 2, cycles: 8i16 },
        0xCB52 => Instruction { opcode, mnemonic: "BIT 2,D", size: 2, cycles: 8i16 },
        0xCB53 => Instruction { opcode, mnemonic: "BIT 2,E", size: 2, cycles: 8i16 },
        0xCB54 => Instruction { opcode, mnemonic: "BIT 2,H", size: 2, cycles: 8i16 },
        0xCB55 => Instruction { opcode, mnemonic: "BIT 2,L", size: 2, cycles: 8i16 },
        0xCB56 => Instruction { opcode, mnemonic: "BIT 2,(HL)", size: 2, cycles: 16i16 },
        0xCB57 => Instruction { opcode, mnemonic: "BIT 2,A", size: 2, cycles: 8i16 },
        0xCB58 => Instruction { opcode, mnemonic: "BIT 3,B", size: 2, cycles: 8i16 },
        0xCB59 => Instruction { opcode, mnemonic: "BIT 3,C", size: 2, cycles: 8i16 },
        0xCB5A => Instruction { opcode, mnemonic: "BIT 3,D", size: 2, cycles: 8i16 },
        0xCB5B => Instruction { opcode, mnemonic: "BIT 3,E", size: 2, cycles: 8i16 },
        0xCB5C => Instruction { opcode, mnemonic: "BIT 3,H", size: 2, cycles: 8i16 },
        0xCB5D => Instruction { opcode, mnemonic: "BIT 3,L", size: 2, cycles: 8i16 },
        0xCB5E => Instruction { opcode, mnemonic: "BIT 3,(HL)", size: 2, cycles: 16i16 },
        0xCB5F => Instruction { opcode, mnemonic: "BIT 3,A", size: 2, cycles: 8i16 },
        0xCB60 => Instruction { opcode, mnemonic: "BIT 4,B", size: 2, cycles: 8i16 },
        0xCB61 => Instruction { opcode, mnemonic: "BIT 4,C", size: 2, cycles: 8i16 },
        0xCB62 => Instruction { opcode, mnemonic: "BIT 4,D", size: 2, cycles: 8i16 },
        0xCB63 => Instruction { opcode, mnemonic: "BIT 4,E", size: 2, cycles: 8i16 },
        0xCB64 => Instruction { opcode, mnemonic: "BIT 4,H", size: 2, cycles: 8i16 },
        0xCB65 => Instruction { opcode, mnemonic: "BIT 4,L", size: 2, cycles: 8i16 },
        0xCB66 => Instruction { opcode, mnemonic: "BIT 4,(HL)", size: 2, cycles: 16i16 },
        0xCB67 => Instruction { opcode, mnemonic: "BIT 4,A", size: 2, cycles: 8i16 },
        0xCB68 => Instruction { opcode, mnemonic: "BIT 5,B", size: 2, cycles: 8i16 },
        0xCB69 => Instruction { opcode, mnemonic: "BIT 5,C", size: 2, cycles: 8i16 },
        0xCB6A => Instruction { opcode, mnemonic: "BIT 5,D", size: 2, cycles: 8i16 },
        0xCB6B => Instruction { opcode, mnemonic: "BIT 5,E", size: 2, cycles: 8i16 },
        0xCB6C => Instruction { opcode, mnemonic: "BIT 5,H", size: 2, cycles: 8i16 },
        0xCB6D => Instruction { opcode, mnemonic: "BIT 5,L", size: 2, cycles: 8i16 },
        0xCB6E => Instruction { opcode, mnemonic: "BIT 5,(HL)", size: 2, cycles: 16i16 },
        0xCB6F => Instruction { opcode, mnemonic: "BIT 5,A", size: 2, cycles: 8i16 },
        0xCB70 => Instruction { opcode, mnemonic: "BIT 6,B", size: 2, cycles: 8i16 },
        0xCB71 => Instruction { opcode, mnemonic: "BIT 6,C", size: 2, cycles: 8i16 },
        0xCB72 => Instruction { opcode, mnemonic: "BIT 6,D", size: 2, cycles: 8i16 },
        0xCB73 => Instruction { opcode, mnemonic: "BIT 6,E", size: 2, cycles: 8i16 },
        0xCB74 => Instruction { opcode, mnemonic: "BIT 6,H", size: 2, cycles: 8i16 },
        0xCB75 => Instruction { opcode, mnemonic: "BIT 6,L", size: 2, cycles: 8i16 },
        0xCB76 => Instruction { opcode, mnemonic: "BIT 6,(HL)", size: 2, cycles: 16i16 },
        0xCB77 => Instruction { opcode, mnemonic: "BIT 6,A", size: 2, cycles: 8i16 },
        0xCB78 => Instruction { opcode, mnemonic: "BIT 7,B", size: 2, cycles: 8i16 },
        0xCB79 => Instruction { opcode, mnemonic: "BIT 7,C", size: 2, cycles: 8i16 },
        0xCB7A => Instruction { opcode, mnemonic: "BIT 7,D", size: 2, cycles: 8i16 },
        0xCB7B => Instruction { opcode, mnemonic: "BIT 7,E", size: 2, cycles: 8i16 },
        0xCB7C => Instruction { opcode, mnemonic: "BIT 7,H", size: 2, cycles: 8i16 },
        0xCB7D => Instruction { opcode, mnemonic: "BIT 7,L", size: 2, cycles: 8i16 },
        0xCB7E => Instruction { opcode, mnemonic: "BIT 7,(HL)", size: 2, cycles: 16i16 },
        0xCB7F => Instruction { opcode, mnemonic: "BIT 7,A", size: 2, cycles: 8i16 },
        0xCB80 => Instruction { opcode, mnemonic: "RES 0,B", size: 2, cycles: 8i16 },
        0xCB81 => Instruction { opcode, mnemonic: "RES 0,C", size: 2, cycles: 8i16 },
        0xCB82 => Instruction { opcode, mnemonic: "RES 0,D", size: 2, cycles: 8i16 },
        0xCB83 => Instruction { opcode, mnemonic: "RES 0,E", size: 2, cycles: 8i16 },
        0xCB84 => Instruction { opcode, mnemonic: "RES 0,H", size: 2, cycles: 8i16 },
        0xCB85 => Instruction { opcode, mnemonic: "RES 0,L", size: 2, cycles: 8i16 },
        0xCB86 => Instruction { opcode, mnemonic: "RES 0,(HL)", size: 2, cycles: 16i16 },
        0xCB87 => Instruction { opcode, mnemonic: "RES 0,A", size: 2, cycles: 8i16 },
        0xCB88 => Instruction { opcode, mnemonic: "RES 1,B", size: 2, cycles: 8i16 },
        0xCB89 => Instruction { opcode, mnemonic: "RES 1,C", size: 2, cycles: 8i16 },
        0xCB8A => Instruction { opcode, mnemonic: "RES 1,D", size: 2, cycles: 8i16 },
        0xCB8B => Instruction { opcode, mnemonic: "RES 1,E", size: 2, cycles: 8i16 },
        0xCB8C => Instruction { opcode, mnemonic: "RES 1,H", size: 2, cycles: 8i16 },
        0xCB8D => Instruction { opcode, mnemonic: "RES 1,L", size: 2, cycles: 8i16 },
        0xCB8E => Instruction { opcode, mnemonic: "RES 1,(HL)", size: 2, cycles: 16i16 },
        0xCB8F => Instruction { opcode, mnemonic: "RES 1,A", size: 2, cycles: 8i16 },
        0xCB90 => Instruction { opcode, mnemonic: "RES 2,B", size: 2, cycles: 8i16 },
        0xCB91 => Instruction { opcode, mnemonic: "RES 2,C", size: 2, cycles: 8i16 },
        0xCB92 => Instruction { opcode, mnemonic: "RES 2,D", size: 2, cycles: 8i16 },
        0xCB93 => Instruction { opcode, mnemonic: "RES 2,E", size: 2, cycles: 8i16 },
        0xCB94 => Instruction { opcode, mnemonic: "RES 2,H", size: 2, cycles: 8i16 },
        0xCB95 => Instruction { opcode, mnemonic: "RES 2,L", size: 2, cycles: 8i16 },
        0xCB96 => Instruction { opcode, mnemonic: "RES 2,(HL)", size: 2, cycles: 16i16 },
        0xCB97 => Instruction { opcode, mnemonic: "RES 2,A", size: 2, cycles: 8i16 },
        0xCB98 => Instruction { opcode, mnemonic: "RES 3,B", size: 2, cycles: 8i16 },
        0xCB99 => Instruction { opcode, mnemonic: "RES 3,C", size: 2, cycles: 8i16 },
        0xCB9A => Instruction { opcode, mnemonic: "RES 3,D", size: 2, cycles: 8i16 },
        0xCB9B => Instruction { opcode, mnemonic: "RES 3,E", size: 2, cycles: 8i16 },
        0xCB9C => Instruction { opcode, mnemonic: "RES 3,H", size: 2, cycles: 8i16 },
        0xCB9D => Instruction { opcode, mnemonic: "RES 3,L", size: 2, cycles: 8i16 },
        0xCB9E => Instruction { opcode, mnemonic: "RES 3,(HL)", size: 2, cycles: 16i16 },
        0xCB9F => Instruction { opcode, mnemonic: "RES 3,A", size: 2, cycles: 8i16 },
        0xCBA0 => Instruction { opcode, mnemonic: "RES 4,B", size: 2, cycles: 8i16 },
        0xCBA1 => Instruction { opcode, mnemonic: "RES 4,C", size: 2, cycles: 8i16 },
        0xCBA2 => Instruction { opcode, mnemonic: "RES 4,D", size: 2, cycles: 8i16 },
        0xCBA3 => Instruction { opcode, mnemonic: "RES 4,E", size: 2, cycles: 8i16 },
        0xCBA4 => Instruction { opcode, mnemonic: "RES 4,H", size: 2, cycles: 8i16 },
        0xCBA5 => Instruction { opcode, mnemonic: "RES 4,L", size: 2, cycles: 8i16 },
        0xCBA6 => Instruction { opcode, mnemonic: "RES 4,(HL)", size: 2, cycles: 16i16 },
        0xCBA7 => Instruction { opcode, mnemonic: "RES 4,A", size: 2, cycles: 8i16 },
        0xCBA8 => Instruction { opcode, mnemonic: "RES 5,B", size: 2, cycles: 8i16 },
        0xCBA9 => Instruction { opcode, mnemonic: "RES 5,C", size: 2, cycles: 8i16 },
        0xCBAA => Instruction { opcode, mnemonic: "RES 5,D", size: 2, cycles: 8i16 },
        0xCBAB => Instruction { opcode, mnemonic: "RES 5,E", size: 2, cycles: 8i16 },
        0xCBAC => Instruction { opcode, mnemonic: "RES 5,H", size: 2, cycles: 8i16 },
        0xCBAD => Instruction { opcode, mnemonic: "RES 5,L", size: 2, cycles: 8i16 },
        0xCBAE => Instruction { opcode, mnemonic: "RES 5,(HL)", size: 2, cycles: 16i16 },
        0xCBAF => Instruction { opcode, mnemonic: "RES 5,A", size: 2, cycles: 8i16 },
        0xCBB0 => Instruction { opcode, mnemonic: "RES 6,B", size: 2, cycles: 8i16 },
        0xCBB1 => Instruction { opcode, mnemonic: "RES 6,C", size: 2, cycles: 8i16 },
        0xCBB2 => Instruction { opcode, mnemonic: "RES 6,D", size: 2, cycles: 8i16 },
        0xCBB3 => Instruction { opcode, mnemonic: "RES 6,E", size: 2, cycles: 8i16 },
        0xCBB4 => Instruction { opcode, mnemonic: "RES 6,H", size: 2, cycles: 8i16 },
        0xCBB5 => Instruction { opcode, mnemonic: "RES 6,L", size: 2, cycles: 8i16 },
        0xCBB6 => Instruction { opcode, mnemonic: "RES 6,(HL)", size: 2, cycles: 16i16 },
        0xCBB7 => Instruction { opcode, mnemonic: "RES 6,A", size: 2, cycles: 8i16 },
        0xCBB8 => Instruction { opcode, mnemonic: "RES 7,B", size: 2, cycles: 8i16 },
        0xCBB9 => Instruction { opcode, mnemonic: "RES 7,C", size: 2, cycles: 8i16 },
        0xCBBA => Instruction { opcode, mnemonic: "RES 7,D", size: 2, cycles: 8i16 },
        0xCBBB => Instruction { opcode, mnemonic: "RES 7,E", size: 2, cycles: 8i16 },
        0xCBBC => Instruction { opcode, mnemonic: "RES 7,H", size: 2, cycles: 8i16 },
        0xCBBD => Instruction { opcode, mnemonic: "RES 7,L", size: 2, cycles: 8i16 },
        0xCBBE => Instruction { opcode, mnemonic: "RES 7,(HL)", size: 2, cycles: 16i16 },
        0xCBBF => Instruction { opcode, mnemonic: "RES 7,A", size: 2, cycles: 8i16 },
        0xCBC0 => Instruction { opcode, mnemonic: "SET 0,B", size: 2, cycles: 8i16 },
        0xCBC1 => Instruction { opcode, mnemonic: "SET 0,C", size: 2, cycles: 8i16 },
        0xCBC2 => Instruction { opcode, mnemonic: "SET 0,D", size: 2, cycles: 8i16 },
        0xCBC3 => Instruction { opcode, mnemonic: "SET 0,E", size: 2, cycles: 8i16 },
        0xCBC4 => Instruction { opcode, mnemonic: "SET 0,H", size: 2, cycles: 8i16 },
        0xCBC5 => Instruction { opcode, mnemonic: "SET 0,L", size: 2, cycles: 8i16 },
        0xCBC6 => Instruction { opcode, mnemonic: "SET 0,(HL)", size: 2, cycles: 16i16 },
        0xCBC7 => Instruction { opcode, mnemonic: "SET 0,A", size: 2, cycles: 8i16 },
        0xCBC8 => Instruction { opcode, mnemonic: "SET 1,B", size: 2, cycles: 8i16 },
        0xCBC9 => Instruction { opcode, mnemonic: "SET 1,C", size: 2, cycles: 8i16 },
        0xCBCA => Instruction { opcode, mnemonic: "SET 1,D", size: 2, cycles: 8i16 },
        0xCBCB => Instruction { opcode, mnemonic: "SET 1,E", size: 2, cycles: 8i16 },
        0xCBCC => Instruction { opcode, mnemonic: "SET 1,H", size: 2, cycles: 8i16 },
        0xCBCD => Instruction { opcode, mnemonic: "SET 1,L", size: 2, cycles: 8i16 },
        0xCBCE => Instruction { opcode, mnemonic: "SET 1,(HL)", size: 2, cycles: 16i16 },
        0xCBCF => Instruction { opcode, mnemonic: "SET 1,A", size: 2, cycles: 8i16 },
        0xCBD0 => Instruction { opcode, mnemonic: "SET 2,B", size: 2, cycles: 8i16 },
        0xCBD1 => Instruction { opcode, mnemonic: "SET 2,C", size: 2, cycles: 8i16 },
        0xCBD2 => Instruction { opcode, mnemonic: "SET 2,D", size: 2, cycles: 8i16 },
        0xCBD3 => Instruction { opcode, mnemonic: "SET 2,E", size: 2, cycles: 8i16 },
        0xCBD4 => Instruction { opcode, mnemonic: "SET 2,H", size: 2, cycles: 8i16 },
        0xCBD5 => Instruction { opcode, mnemonic: "SET 2,L", size: 2, cycles: 8i16 },
        0xCBD6 => Instruction { opcode, mnemonic: "SET 2,(HL)", size: 2, cycles: 16i16 },
        0xCBD7 => Instruction { opcode, mnemonic: "SET 2,A", size: 2, cycles: 8i16 },
        0xCBD8 => Instruction { opcode, mnemonic: "SET 3,B", size: 2, cycles: 8i16 },
        0xCBD9 => Instruction { opcode, mnemonic: "SET 3,C", size: 2, cycles: 8i16 },
        0xCBDA => Instruction { opcode, mnemonic: "SET 3,D", size: 2, cycles: 8i16 },
        0xCBDB => Instruction { opcode, mnemonic: "SET 3,E", size: 2, cycles: 8i16 },
        0xCBDC => Instruction { opcode, mnemonic: "SET 3,H", size: 2, cycles: 8i16 },
        0xCBDD => Instruction { opcode, mnemonic: "SET 3,L", size: 2, cycles: 8i16 },
        0xCBDE => Instruction { opcode, mnemonic: "SET 3,(HL)", size: 2, cycles: 16i16 },
        0xCBDF => Instruction { opcode, mnemonic: "SET 3,A", size: 2, cycles: 8i16 },
        0xCBE0 => Instruction { opcode, mnemonic: "SET 4,B", size: 2, cycles: 8i16 },
        0xCBE1 => Instruction { opcode, mnemonic: "SET 4,C", size: 2, cycles: 8i16 },
        0xCBE2 => Instruction { opcode, mnemonic: "SET 4,D", size: 2, cycles: 8i16 },
        0xCBE3 => Instruction { opcode, mnemonic: "SET 4,E", size: 2, cycles: 8i16 },
        0xCBE4 => Instruction { opcode, mnemonic: "SET 4,H", size: 2, cycles: 8i16 },
        0xCBE5 => Instruction { opcode, mnemonic: "SET 4,L", size: 2, cycles: 8i16 },
        0xCBE6 => Instruction { opcode, mnemonic: "SET 4,(HL)", size: 2, cycles: 16i16 },
        0xCBE7 => Instruction { opcode, mnemonic: "SET 4,A", size: 2, cycles: 8i16 },
        0xCBE8 => Instruction { opcode, mnemonic: "SET 5,B", size: 2, cycles: 8i16 },
        0xCBE9 => Instruction { opcode, mnemonic: "SET 5,C", size: 2, cycles: 8i16 },
        0xCBEA => Instruction { opcode, mnemonic: "SET 5,D", size: 2, cycles: 8i16 },
        0xCBEB => Instruction { opcode, mnemonic: "SET 5,E", size: 2, cycles: 8i16 },
        0xCBEC => Instruction { opcode, mnemonic: "SET 5,H", size: 2, cycles: 8i16 },
        0xCBED => Instruction { opcode, mnemonic: "SET 5,L", size: 2, cycles: 8i16 },
        0xCBEE => Instruction { opcode, mnemonic: "SET 5,(HL)", size: 2, cycles: 16i16 },
        0xCBEF => Instruction { opcode, mnemonic: "SET 5,A", size: 2, cycles: 8i16 },
        0xCBF0 => Instruction { opcode, mnemonic: "SET 6,B", size: 2, cycles: 8i16 },
        0xCBF1 => Instruction { opcode, mnemonic: "SET 6,C", size: 2, cycles: 8i16 },
        0xCBF2 => Instruction { opcode, mnemonic: "SET 6,D", size: 2, cycles: 8i16 },
        0xCBF3 => Instruction { opcode, mnemonic: "SET 6,E", size: 2, cycles: 8i16 },
        0xCBF4 => Instruction { opcode, mnemonic: "SET 6,H", size: 2, cycles: 8i16 },
        0xCBF5 => Instruction { opcode, mnemonic: "SET 6,L", size: 2, cycles: 8i16 },
        0xCBF6 => Instruction { opcode, mnemonic: "SET 6,(HL)", size: 2, cycles: 16i16 },
        0xCBF7 => Instruction { opcode, mnemonic: "SET 6,A", size: 2, cycles: 8i16 },
        0xCBF8 => Instruction { opcode, mnemonic: "SET 7,B", size: 2, cycles: 8i16 },
        0xCBF9 => Instruction { opcode, mnemonic: "SET 7,C", size: 2, cycles: 8i16 },
        0xCBFA => Instruction { opcode, mnemonic: "SET 7,D", size: 2, cycles: 8i16 },
        0xCBFB => Instruction { opcode, mnemonic: "SET 7,E", size: 2, cycles: 8i16 },
        0xCBFC => Instruction { opcode, mnemonic: "SET 7,H", size: 2, cycles: 8i16 },
        0xCBFD => Instruction { opcode, mnemonic: "SET 7,L", size: 2, cycles: 8i16 },
        0xCBFE => Instruction { opcode, mnemonic: "SET 7,(HL)", size: 2, cycles: 16i16 },
        0xCBFF => Instruction { opcode, mnemonic: "SET 7,A", size: 2, cycles: 8i16 },
        _ => Instruction { opcode, mnemonic: "Unimplemented", size: 1, cycles: -1i16 },
    }
}

/// Every table entry takes its opcode bytes (two after the 0xCB prefix) and
/// reports fewer than 1000 cycles.
pub open spec fn entry_sane(instr: Instruction) -> bool {
    &&& instr.size >= 1
    &&& instr.cycles < 1000
    &&& instr.cycles >= 0 && instr.is_cbprefixed_spec() ==> instr.size >= 2
}

/// Every entry of the table is sane and names its own opcode.
pub proof fn lemma_entries_sane(opcode: u16)
    ensures
        entry_sane(instruction_spec(opcode)),
        instruction_spec(opcode).opcode == opcode,
{
}

/// The 8-bit operand that a group of three opcode bits names: B, C, D, E, H, L,
/// (HL), A.
pub open spec fn operand_of_bits(bits: u8) -> Src {
    match bits {
        0 => Src::B,
        1 => Src::C,
        2 => Src::D,
        3 => Src::E,
        4 => Src::H,
        5 => Src::L,
        6 => Src::HLa,
        _ => Src::A,
    }
}

/// The unprefixed opcodes 0x40-0xBF read by their bit fields: 0x40-0x7F load
/// the operand of bits 0-2 into that of bits 3-5 (0x76, which would load (HL)
/// into itself, is HALT); 0x80-0xBF combine A with the operand of bits 0-2 by
/// ADD, ADC, SUB, SBC, AND, XOR, OR or CP, chosen by bits 3-5.
pub open spec fn base_fields(b: u8) -> Op {
    let s = operand_of_bits(b % 8);
    let t = operand_of_bits((b / 8) % 8);
    if b == 0x76 {
        Op::Halt
    } else if b < 0x80 {
        Op::Ld8(t, s)
    } else {
        match (b / 8) % 8 {
            0 => Op::Add8(Src::A, s),
            1 => Op::Adc8(Src::A, s),
            2 => Op::Sub8(Src::A, s),
            3 => Op::Sbc8(Src::A, s),
            4 => Op::And(s),
            5 => Op::Xor(s),
            6 => Op::Or(s),
            _ => Op::Cp(s),
        }
    }
}

/// The load and arithmetic blocks of the unprefixed opcodes do what their bit
/// fields say.
pub proof fn lemma_base_operation_fields(b: u8)
    requires
        0x40 <= b < 0xC0,
    ensures
        base_operation(b) == base_fields(b),
{
}

/// The 16-bit register pair that two opcode bits name: BC, DE, HL, SP.
pub open spec fn pair_of_bits(p: u8) -> Src {
    match p {
        0 => Src::BC,
        1 => Src::DE,
        2 => Src::HL,
        _ => Src::SP,
    }
}

/// The register pair that PUSH and POP name by two opcode bits: BC, DE, HL, AF.
pub open spec fn stack_pair_of_bits(p: u8) -> CpuRegIndex {
    match p {
        0 => CpuRegIndex::BC,
        1 => CpuRegIndex::DE,
        2 => CpuRegIndex::HL,
        _ => CpuRegIndex::AF,
    }
}

/// The branch condition that two opcode bits name: NZ, Z, NC, C.
pub open spec fn cond_of_bits(c: u8) -> Cond {
    match c {
        0 => Cond::NZ,
        1 => Cond::Z,
        2 => Cond::NC,
        _ => Cond::C,
    }
}

/// The arithmetic or logic operation that three opcode bits name, on A and `s`:
/// ADD, ADC, SUB, SBC, AND, XOR, OR, CP.
pub open spec fn alu_of_bits(y: u8, s: Src) -> Op {
    match y {
        0 => Op::Add8(Src::A, s),
        1 => Op::Adc8(Src::A, s),
        2 => Op::Sub8(Src::A, s),
        3 => Op::Sbc8(Src::A, s),
        4 => Op::And(s),
        5 => Op::Xor(s),
        6 => Op::Or(s),
        _ => Op::Cp(s),
    }
}

/// An unprefixed opcode read by its bit fields: x (bits 6-7), y (bits 3-5), z
/// (bits 0-2), and y split into p (bits 4-5) and q (bit 3).
///
/// - x = 0: by z, relative jumps (NOP, LD (a16),SP, STOP, JR, JR cc), LD rr,d16
///   or ADD HL,rr, the indirect loads through BC, DE, HL+ and HL-, INC rr or
///   DEC rr, INC r, DEC r, LD r,d8, and the accumulator and flag operations.
/// - x = 1: LD r,r' (HALT in place of LD (HL),(HL)).
/// - x = 2: ALU A,r.
/// - x = 3: by z, RET cc and the high-page loads, POP and RET/RETI/JP HL/LD SP,HL,
///   JP cc and the (C)/(a16) loads, JP/DI/EI, CALL cc, PUSH and CALL, ALU A,d8,
///   and RST; the remaining bytes (the 0xCB prefix among them) are invalid.
pub open spec fn unprefixed_fields(b: u8) -> Op {
    let x = b / 64;
    let y = (b / 8) % 8;
    let z = b % 8;
    let p = y / 2;
    let q = y % 2;
    if x == 0 {
        if z == 0 {
            if y == 0 { Op::Nop }
            else if y == 1 { Op::Ld16(Src::A16, Src::SP) }
            else if y == 2 { Op::Nop }
            else if y == 3 { Op::Jr(Cond::Always) }
            else { Op::Jr(cond_of_bits((y - 4) as u8)) }
        } else if z == 1 {
            if q == 0 { Op::Ld16(pair_of_bits(p), Src::D16) } else { Op::AddHl(pair_of_bits(p)) }
        } else if z == 2 {
            let target = if p == 0 { Src::BCa } else if p == 1 { Src::DEa } else { Src::HLa };
            if q == 0 {
                if p < 2 { Op::Ld8(target, Src::A) } else { Op::LdHl(Src::HLa, Src::A, p == 2) }
            } else {
                if p < 2 { Op::Ld8(Src::A, target) } else { Op::LdHl(Src::A, Src::HLa, p == 2) }
            }
        } else if z == 3 {
            if q == 0 { Op::Inc16(pair_of_bits(p)) } else { Op::Dec16(pair_of_bits(p)) }
        } else if z == 4 {
            Op::Inc8(operand_of_bits(y))
        } else if z == 5 {
            Op::Dec8(operand_of_bits(y))
        } else if z == 6 {
            Op::Ld8(operand_of_bits(y), Src::D8)
        } else {
            if y == 0 { Op::RotateCircular(Src::A, true, true) }
            else if y == 1 { Op::RotateCircular(Src::A, false, true) }
            else if y == 2 { Op::Rotate(Src::A, true, true) }
            else if y == 3 { Op::Rotate(Src::A, false, true) }
            else if y == 4 { Op::Daa }
            else if y == 5 { Op::Cpl }
            else if y == 6 { Op::Scf }
            else { Op::Ccf }
        }
    } else if x == 1 {
        if b == 0x76 { Op::Halt } else { Op::Ld8(operand_of_bits(y), operand_of_bits(z)) }
    } else if x == 2 {
        alu_of_bits(y, operand_of_bits(z))
    } else {
        if z == 0 {
            if y < 4 { Op::Ret(cond_of_bits(y)) }
            else if y == 4 { Op::Ld8(Src::A8, Src::A) }
            else if y == 5 { Op::AddSpR8 }
            else if y == 6 { Op::Ld8(Src::A, Src::A8) }
            else { Op::LdHlSpR8 }
        } else if z == 1 {
            if q == 0 {
                if p == 3 { Op::PopAf } else { Op::Pop(stack_pair_of_bits(p)) }
            } else {
                if p == 0 { Op::Ret(Cond::Always) }
                else if p == 1 { Op::Reti }
                else if p == 2 { Op::JpHl }
                else { Op::Ld16(Src::SP, Src::HL) }
            }
        } else if z == 2 {
            if y < 4 { Op::Jp(cond_of_bits(y)) }
            else if y == 4 { Op::Ld8(Src::Ca, Src::A) }
            else if y == 5 { Op::Ld8(Src::A16, Src::A) }
            else if y == 6 { Op::Ld8(Src::A, Src::Ca) }
            else { Op::Ld8(Src::A, Src::A16) }
        } else if z == 3 {
            if y == 0 { Op::Jp(Cond::Always) }
            else if y == 6 { Op::Di }
            else if y == 7 { Op::Ei }
            else { Op::Invalid }
        } else if z == 4 {
            if y < 4 { Op::Call(cond_of_bits(y)) } else { Op::Invalid }
        } else if z == 5 {
            if q == 0 { Op::Push(stack_pair_of_bits(p)) }
            else if p == 0 { Op::Call(Cond::Always) }
            else { Op::Invalid }
        } else if z == 6 {
            alu_of_bits(y, Src::D8)
        } else {
            Op::Rst((y * 8) as u16)
        }
    }
}

#[verifier::spinoff_prover]
proof fn lemma_fields_low_quarter(b: u8)
    requires
        b < 0x40,
    ensures
        base_operation(b) == unprefixed_fields(b),
{
}

#[verifier::spinoff_prover]
proof fn lemma_fields_load_quarter(b: u8)
    requires
        0x40 <= b < 0x80,
    ensures
        base_operation(b) == unprefixed_fields(b),
{
}

#[verifier::spinoff_prover]
proof fn lemma_fields_alu_quarter(b: u8)
    requires
        0x80 <= b < 0xC0,
    ensures
        base_operation(b) == unprefixed_fields(b),
{
}

#[verifier::spinoff_prover]
proof fn lemma_fields_high_quarter(b: u8)
    requires
        0xC0 <= b,
    ensures
        base_operation(b) == unprefixed_fields(b),
{
}

/// Every unprefixed opcode does what its bit fields say.
pub proof fn lemma_unprefixed_operation_fields(b: u8)
    ensures
        base_operation(b) == unprefixed_fields(b),
        operation(b as u16) == unprefixed_fields(b),
{
    if b < 0x40 {
        lemma_fields_low_quarter(b);
    } else if b < 0x80 {
        lemma_fields_load_quarter(b);
    } else if b < 0xC0 {
        lemma_fields_alu_quarter(b);
    } else {
        lemma_fields_high_quarter(b);
    }
}

/// The operation of a CB-prefixed opcode, by its second byte.
fn cb_operation_of(b: u8) -> (r: Op)
    ensures
        r == cb_operation(b),
{
    match b {
        0x00 => Op::RotateCircular(Src::B, true, false),
        0x01 => Op::RotateCircular(Src::C, true, false),
        0x02 => Op::RotateCircular(Src::D, true, false),
        0x03 => Op::RotateCircular(Src::E, true, false),
        0x04 => Op::RotateCircular(Src::H, true, false),
        0x05 => Op::RotateCircular(Src::L, true, false),
        0x06 => Op::RotateCircular(Src::HLa, true, false),
        0x07 => Op::RotateCircular(Src::A, true, false),
        0x08 => Op::RotateCircular(Src::B, false, false),
        0x09 => Op::RotateCircular(Src::C, false, false),
        0x0A => Op::RotateCircular(Src::D, false, false),
        0x0B => Op::RotateCircular(Src::E, false, false),
        0x0C => Op::RotateCircular(Src::H, false, false),
        0x0D => Op::RotateCircular(Src::L, false, false),
        0x0E => Op::RotateCircular(Src::HLa, false, false),
        0x0F => Op::RotateCircular(Src::A, false, false),
        0x10 => Op::Rotate(Src::B, true, false),
        0x11 => Op::Rotate(Src::C, true, false),
        0x12 => Op::Rotate(Src::D, true, false),
        0x13 => Op::Rotate(Src::E, true, false),
        0x14 => Op::Rotate(Src::H, true, false),
        0x15 => Op::Rotate(Src::L, true, false),
        0x16 => Op::Rotate(Src::HLa, true, false),
        0x17 => Op::Rotate(Src::A, true, false),
        0x18 => Op::Rotate(Src::B, false, false),
        0x19 => Op::Rotate(Src::C, false, false),
        0x1A => Op::Rotate(Src::D, false, false),
        0x1B => Op::Rotate(Src::E, false, false),
        0x1C => Op::Rotate(Src::H, false, false),
        0x1D => Op::Rotate(Src::L, false, false),
        0x1E => Op::Rotate(Src::HLa, false, false),
        0x1F => Op::Rotate(Src::A, false, false),
        0x20 => Op::Shift(Src::B, true, true),
        0x21 => Op::Shift(Src::C, true, true),
        0x22 => Op::Shift(Src::D, true, true),
        0x23 => Op::Shift(Src::E, true, true),
        0x24 => Op::Shift(Src::H, true, true),
        0x25 => Op::Shift(Src::L, true, true),
        0x26 => Op::Shift(Src::HLa, true, true),
        0x27 => Op::Shift(Src::A, true, true),
        0x28 => Op::Shift(Src::B, false, true),
        0x29 => Op::Shift(Src::C, false, true),
        0x2A => Op::Shift(Src::D, false, true),
        0x2B => Op::Shift(Src::E, false, true),
        0x2C => Op::Shift(Src::H, false, true),
        0x2D => Op::Shift(Src::L, false, true),
        0x2E => Op::Shift(Src::HLa, false, true),
        0x2F => Op::Shift(Src::A, false, true),
        0x30 => Op::Swap(Src::B),
        0x31 => Op::Swap(Src::C),
        0x32 => Op::Swap(Src::D),
        0x33 => Op::Swap(Src::E),
        0x34 => Op::Swap(Src::H),
        0x35 => Op::Swap(Src::L),
        0x36 => Op::Swap(Src::HLa),
        0x37 => Op::Swap(Src::A),
        0x38 => Op::Shift(Src::B, false, false),
        0x39 => Op::Shift(Src::C, false, false),
        0x3A => Op::Shift(Src::D, false, false),
        0x3B => Op::Shift(Src::E, false, false),
        0x3C => Op::Shift(Src::H, false, false),
        0x3D => Op::Shift(Src::L, false, false),
        0x3E => Op::Shift(Src::HLa, false, false),
        0x3F => Op::Shift(Src::A, false, false),
        0x40 => Op::Bit(Src::B, 0),
        0x41 => Op::Bit(Src::C, 0),
        0x42 => Op::Bit(Src::D, 0),
        0x43 => Op::Bit(Src::E, 0),
        0x44 => Op::Bit(Src::H, 0),
        0x45 => Op::Bit(Src::L, 0),
        0x46 => Op::Bit(Src::HLa, 0),
        0x47 => Op::Bit(Src::A, 0),
        0x48 => Op::Bit(Src::B, 1),
        0x49 => Op::Bit(Src::C, 1),
        0x4A => Op::Bit(Src::D, 1),
        0x4B => Op::Bit(Src::E, 1),
        0x4C => Op::Bit(Src::H, 1),
        0x4D => Op::Bit(Src::L, 1),
        0x4E => Op::Bit(Src::HLa, 1),
        0x4F => Op::Bit(Src::A, 1),
        0x50 => Op::Bit(Src::B, 2),
        0x51 => Op::Bit(Src::C, 2),
        0x52 => Op::Bit(Src::D, 2),
        0x53 => Op::Bit(Src::E, 2),
        0x54 => Op::Bit(Src::H, 2),
        0x55 => Op::Bit(Src::L, 2),
        0x56 => Op::Bit(Src::HLa, 2),
        0x57 => Op::Bit(Src::A, 2),
        0x58 => Op::Bit(Src::B, 3),
        0x59 => Op::Bit(Src::C, 3),
        0x5A => Op::Bit(Src::D, 3),
        0x5B => Op::Bit(Src::E, 3),
        0x5C => Op::Bit(Src::H, 3),
        0x5D => Op::Bit(Src::L, 3),
        0x5E => Op::Bit(Src::HLa, 3),
        0x5F => Op::Bit(Src::A, 3),
        0x60 => Op::Bit(Src::B, 4),
        0x61 => Op::Bit(Src::C, 4),
        0x62 => Op::Bit(Src::D, 4),
        0x63 => Op::Bit(Src::E, 4),
        0x64 => Op::Bit(Src::H, 4),
        0x65 => Op::Bit(Src::L, 4),
        0x66 => Op::Bit(Src::HLa, 4),
        0x67 => Op::Bit(Src::A, 4),
        0x68 => Op::Bit(Src::B, 5),
        0x69 => Op::Bit(Src::C, 5),
        0x6A => Op::Bit(Src::D, 5),
        0x6B => Op::Bit(Src::E, 5),
        0x6C => Op::Bit(Src::H, 5),
        0x6D => Op::Bit(Src::L, 5),
        0x6E => Op::Bit(Src::HLa, 5),
        0x6F => Op::Bit(Src::A, 5),
        0x70 => Op::Bit(Src::B, 6),
        0x71 => Op::Bit(Src::C, 6),
        0x72 => Op::Bit(Src::D, 6),
        0x73 => Op::Bit(Src::E, 6),
        0x74 => Op::Bit(Src::H, 6),
        0x75 => Op::Bit(Src::L, 6),
        0x76 => Op::Bit(Src::HLa, 6),
        0x77 => Op::Bit(Src::A, 6),
        0x78 => Op::Bit(Src::B, 7),
        0x79 => Op::Bit(Src::C, 7),
        0x7A => Op::Bit(Src::D, 7),
        0x7B => Op::Bit(Src::E, 7),
        0x7C => Op::Bit(Src::H, 7),
        0x7D => Op::Bit(Src::L, 7),
        0x7E => Op::Bit(Src::HLa, 7),
        0x7F => Op::Bit(Src::A, 7),
        0x80 => Op::SetBit(Src::B, 0, false),
        0x81 => Op::SetBit(Src::C, 0, false),
        0x82 => Op::SetBit(Src::D, 0, false),
        0x83 => Op::SetBit(Src::E, 0, false),
        0x84 => Op::SetBit(Src::H, 0, false),
        0x85 => Op::SetBit(Src::L, 0, false),
        0x86 => Op::SetBit(Src::HLa, 0, false),
        0x87 => Op::SetBit(Src::A, 0, false),
        0x88 => Op::SetBit(Src::B, 1, false),
        0x89 => Op::SetBit(Src::C, 1, false),
        0x8A => Op::SetBit(Src::D, 1, false),
        0x8B => Op::SetBit(Src::E, 1, false),
        0x8C => Op::SetBit(Src::H, 1, false),
        0x8D => Op::SetBit(Src::L, 1, false),
        0x8E => Op::SetBit(Src::HLa, 1, false),
        0x8F => Op::SetBit(Src::A, 1, false),
        0x90 => Op::SetBit(Src::B, 2, false),
        0x91 => Op::SetBit(Src::C, 2, false),
        0x92 => Op::SetBit(Src::D, 2, false),
        0x93 => Op::SetBit(Src::E, 2, false),
        0x94 => Op::SetBit(Src::H, 2, false),
        0x95 => Op::SetBit(Src::L, 2, false),
        0x96 => Op::SetBit(Src::HLa, 2, false),
        0x97 => Op::SetBit(Src::A, 2, false),
        0x98 => Op::SetBit(Src::B, 3, false),
        0x99 => Op::SetBit(Src::C, 3, false),
        0x9A => Op::SetBit(Src::D, 3, false),
        0x9B => Op::SetBit(Src::E, 3, false),
        0x9C => Op::SetBit(Src::H, 3, false),
        0x9D => Op::SetBit(Src::L, 3, false),
        0x9E => Op::SetBit(Src::HLa, 3, false),
        0x9F => Op::SetBit(Src::A, 3, false),
        0xA0 => Op::SetBit(Src::B, 4, false),
        0xA1 => Op::SetBit(Src::C, 4, false),
        0xA2 => Op::SetBit(Src::D, 4, false),
        0xA3 => Op::SetBit(Src::E, 4, false),
        0xA4 => Op::SetBit(Src::H, 4, false),
        0xA5 => Op::SetBit(Src::L, 4, false),
        0xA6 => Op::SetBit(Src::HLa, 4, false),
        0xA7 => Op::SetBit(Src::A, 4, false),
        0xA8 => Op::SetBit(Src::B, 5, false),
        0xA9 => Op::SetBit(Src::C, 5, false),
        0xAA => Op::SetBit(Src::D, 5, false),
        0xAB => Op::SetBit(Src::E, 5, false),
        0xAC => Op::SetBit(Src::H, 5, false),
        0xAD => Op::SetBit(Src::L, 5, false),
        0xAE => Op::SetBit(Src::HLa, 5, false),
        0xAF => Op::SetBit(Src::A, 5, false),
        0xB0 => Op::SetBit(Src::B, 6, false),
        0xB1 => Op::SetBit(Src::C, 6, false),
        0xB2 => Op::SetBit(Src::D, 6, false),
        0xB3 => Op::SetBit(Src::E, 6, false),
        0xB4 => Op::SetBit(Src::H, 6, false),
        0xB5 => Op::SetBit(Src::L, 6, false),
        0xB6 => Op::SetBit(Src::HLa, 6, false),
        0xB7 => Op::SetBit(Src::A, 6, false),
        0xB8 => Op::SetBit(Src::B, 7, false),
        0xB9 => Op::SetBit(Src::C, 7, false),
        0xBA => Op::SetBit(Src::D, 7, false),
        0xBB => Op::SetBit(Src::E, 7, false),
        0xBC => Op::SetBit(Src::H, 7, false),
        0xBD => Op::SetBit(Src::L, 7, false),
        0xBE => Op::SetBit(Src::HLa, 7, false),
        0xBF => Op::SetBit(Src::A, 7, false),
        0xC0 => Op::SetBit(Src::B, 0, true),
        0xC1 => Op::SetBit(Src::C, 0, true),
        0xC2 => Op::SetBit(Src::D, 0, true),
        0xC3 => Op::SetBit(Src::E, 0, true),
        0xC4 => Op::SetBit(Src::H, 0, true),
        0xC5 => Op::SetBit(Src::L, 0, true),
        0xC6 => Op::SetBit(Src::HLa, 0, true),
        0xC7 => Op::SetBit(Src::A, 0, true),
        0xC8 => Op::SetBit(Src::B, 1, true),
        0xC9 => Op::SetBit(Src::C, 1, true),
        0xCA => Op::SetBit(Src::D, 1, true),
        0xCB => Op::SetBit(Src::E, 1, true),
        0xCC => Op::SetBit(Src::H, 1, true),
        0xCD => Op::SetBit(Src::L, 1, true),
        0xCE => Op::SetBit(Src::HLa, 1, true),
        0xCF => Op::SetBit(Src::A, 1, true),
        0xD0 => Op::SetBit(Src::B, 2, true),
        0xD1 => Op::SetBit(Src::C, 2, true),
        0xD2 => Op::SetBit(Src::D, 2, true),
        0xD3 => Op::SetBit(Src::E, 2, true),
        0xD4 => Op::SetBit(Src::H, 2, true),
        0xD5 => Op::SetBit(Src::L, 2, true),
        0xD6 => Op::SetBit(Src::HLa, 2, true),
        0xD7 => Op::SetBit(Src::A, 2, true),
        0xD8 => Op::SetBit(Src::B, 3, true),
        0xD9 => Op::SetBit(Src::C, 3, true),
        0xDA => Op::SetBit(Src::D, 3, true),
        0xDB => Op::SetBit(Src::E, 3, true),
        0xDC => Op::SetBit(Src::H, 3, true),
        0xDD => Op::SetBit(Src::L, 3, true),
        0xDE => Op::SetBit(Src::HLa, 3, true),
        0xDF => Op::SetBit(Src::A, 3, true),
        0xE0 => Op::SetBit(Src::B, 4, true),
        0xE1 => Op::SetBit(Src::C, 4, true),
        0xE2 => Op::SetBit(Src::D, 4, true),
        0xE3 => Op::SetBit(Src::E, 4, true),
        0xE4 => Op::SetBit(Src::H, 4, true),
        0xE5 => Op::SetBit(Src::L, 4, true),
        0xE6 => Op::SetBit(Src::HLa, 4, true),
        0xE7 => Op::SetBit(Src::A, 4, true),
        0xE8 => Op::SetBit(Src::B, 5, true),
        0xE9 => Op::SetBit(Src::C, 5, true),
        0xEA => Op::SetBit(Src::D, 5, true),
        0xEB => Op::SetBit(Src::E, 5, true),
        0xEC => Op::SetBit(Src::H, 5, true),
        0xED => Op::SetBit(Src::L, 5, true),
        0xEE => Op::SetBit(Src::HLa, 5, true),
        0xEF => Op::SetBit(Src::A, 5, true),
        0xF0 => Op::SetBit(Src::B, 6, true),
        0xF1 => Op::SetBit(Src::C, 6, true),
        0xF2 => Op::SetBit(Src::D, 6, true),
        0xF3 => Op::SetBit(Src::E, 6, true),
        0xF4 => Op::SetBit(Src::H, 6, true),
        0xF5 => Op::SetBit(Src::L, 6, true),
        0xF6 => Op::SetBit(Src::HLa, 6, true),
        0xF7 => Op::SetBit(Src::A, 6, true),
        0xF8 => Op::SetBit(Src::B, 7, true),
        0xF9 => Op::SetBit(Src::C, 7, true),
        0xFA => Op::SetBit(Src::D, 7, true),
        0xFB => Op::SetBit(Src::E, 7, true),
        0xFC => Op::SetBit(Src::H, 7, true),
        0xFD => Op::SetBit(Src::L, 7, true),
        0xFE => Op::SetBit(Src::HLa, 7, true),
        _ => Op::SetBit(Src::A, 7, true),
    }
}

/// The operation of an unprefixed opcode.
fn base_operation_of(b: u8) -> (r: Op)
    ensures
        r == base_operation(b),
{
    match b {
        0x00 => Op::Nop,
        0x01 => Op::Ld16(Src::BC, Src::D16),
        0x02 => Op::Ld8(Src::BCa, Src::A),
        0x03 => Op::Inc16(Src::BC),
        0x04 => Op::Inc8(Src::B),
        0x05 => Op::Dec8(Src::B),
        0x06 => Op::Ld8(Src::B, Src::D8),
        0x07 => Op::RotateCircular(Src::A, true, true),
        0x08 => Op::Ld16(Src::A16, Src::SP),
        0x09 => Op::AddHl(Src::BC),
        0x0A => Op::Ld8(Src::A, Src::BCa),
        0x0B => Op::Dec16(Src::BC),
        0x0C => Op::Inc8(Src::C),
        0x0D => Op::Dec8(Src::C),
        0x0E => Op::Ld8(Src::C, Src::D8),
        0x0F => Op::RotateCircular(Src::A, false, true),
        0x10 => Op::Nop,
        0x11 => Op::Ld16(Src::DE, Src::D16),
        0x12 => Op::Ld8(Src::DEa, Src::A),
        0x13 => Op::Inc16(Src::DE),
        0x14 => Op::Inc8(Src::D),
        0x15 => Op::Dec8(Src::D),
        0x16 => Op::Ld8(Src::D, Src::D8),
        0x17 => Op::Rotate(Src::A, true, true),
        0x18 => Op::Jr(Cond::Always),
        0x19 => Op::AddHl(Src::DE),
        0x1A => Op::Ld8(Src::A, Src::DEa),
        0x1B => Op::Dec16(Src::DE),
        0x1C => Op::Inc8(Src::E),
        0x1D => Op::Dec8(Src::E),
        0x1E => Op::Ld8(Src::E, Src::D8),
        0x1F => Op::Rotate(Src::A, false, true),
        0x20 => Op::Jr(Cond::NZ),
        0x21 => Op::Ld16(Src::HL, Src::D16),
        0x22 => Op::LdHl(Src::HLa, Src::A, true),
        0x23 => Op::Inc16(Src::HL),
        0x24 => Op::Inc8(Src::H),
        0x25 => Op::Dec8(Src::H),
        0x26 => Op::Ld8(Src::H, Src::D8),
        0x27 => Op::Daa,
        0x28 => Op::Jr(Cond::Z),
        0x29 => Op::AddHl(Src::HL),
        0x2A => Op::LdHl(Src::A, Src::HLa, true),
        0x2B => Op::Dec16(Src::HL),
        0x2C => Op::Inc8(Src::L),
        0x2D => Op::Dec8(Src::L),
        0x2E => Op::Ld8(Src::L, Src::D8),
        0x2F => Op::Cpl,
        0x30 => Op::Jr(Cond::NC),
        0x31 => Op::Ld16(Src::SP, Src::D16),
        0x32 => Op::LdHl(Src::HLa, Src::A, false),
        0x33 => Op::Inc16(Src::SP),
        0x34 => Op::Inc8(Src::HLa),
        0x35 => Op::Dec8(Src::HLa),
        0x36 => Op::Ld8(Src::HLa, Src::D8),
        0x37 => Op::Scf,
        0x38 => Op::Jr(Cond::C),
        0x39 => Op::AddHl(Src::SP),
        0x3A => Op::LdHl(Src::A, Src::HLa, false),
        0x3B => Op::Dec16(Src::SP),
        0x3C => Op::Inc8(Src::A),
        0x3D => Op::Dec8(Src::A),
        0x3E => Op::Ld8(Src::A, Src::D8),
        0x3F => Op::Ccf,
        0x40 => Op::Ld8(Src::B, Src::B),
        0x41 => Op::Ld8(Src::B, Src::C),
        0x42 => Op::Ld8(Src::B, Src::D),
        0x43 => Op::Ld8(Src::B, Src::E),
        0x44 => Op::Ld8(Src::B, Src::H),
        0x45 => Op::Ld8(Src::B, Src::L),
        0x46 => Op::Ld8(Src::B, Src::HLa),
        0x47 => Op::Ld8(Src::B, Src::A),
        0x48 => Op::Ld8(Src::C, Src::B),
        0x49 => Op::Ld8(Src::C, Src::C),
        0x4A => Op::Ld8(Src::C, Src::D),
        0x4B => Op::Ld8(Src::C, Src::E),
        0x4C => Op::Ld8(Src::C, Src::H),
        0x4D => Op::Ld8(Src::C, Src::L),
        0x4E => Op::Ld8(Src::C, Src::HLa),
        0x4F => Op::Ld8(Src::C, Src::A),
        0x50 => Op::Ld8(Src::D, Src::B),
        0x51 => Op::Ld8(Src::D, Src::C),
        0x52 => Op::Ld8(Src::D, Src::D),
        0x53 => Op::Ld8(Src::D, Src::E),
        0x54 => Op::Ld8(Src::D, Src::H),
        0x55 => Op::Ld8(Src::D, Src::L),
        0x56 => Op::Ld8(Src::D, Src::HLa),
        0x57 => Op::Ld8(Src::D, Src::A),
        0x58 => Op::Ld8(Src::E, Src::B),
        0x59 => Op::Ld8(Src::E, Src::C),
        0x5A => Op::Ld8(Src::E, Src::D),
        0x5B => Op::Ld8(Src::E, Src::E),
        0x5C => Op::Ld8(Src::E, Src::H),
        0x5D => Op::Ld8(Src::E, Src::L),
        0x5E => Op::Ld8(Src::E, Src::HLa),
        0x5F => Op::Ld8(Src::E, Src::A),
        0x60 => Op::Ld8(Src::H, Src::B),
        0x61 => Op::Ld8(Src::H, Src::C),
        0x62 => Op::Ld8(Src::H, Src::D),
        0x63 => Op::Ld8(Src::H, Src::E),
        0x64 => Op::Ld8(Src::H, Src::H),
        0x65 => Op::Ld8(Src::H, Src::L),
        0x66 => Op::Ld8(Src::H, Src::HLa),
        0x67 => Op::Ld8(Src::H, Src::A),
        0x68 => Op::Ld8(Src::L, Src::B),
        0x69 => Op::Ld8(Src::L, Src::C),
        0x6A => Op::Ld8(Src::L, Src::D),
        0x6B => Op::Ld8(Src::L, Src::E),
        0x6C => Op::Ld8(Src::L, Src::H),
        0x6D => Op::Ld8(Src::L, Src::L),
        0x6E => Op::Ld8(Src::L, Src::HLa),
        0x6F => Op::Ld8(Src::L, Src::A),
        0x70 => Op::Ld8(Src::HLa, Src::B),
        0x71 => Op::Ld8(Src::HLa, Src::C),
        0x72 => Op::Ld8(Src::HLa, Src::D),
        0x73 => Op::Ld8(Src::HLa, Src::E),
        0x74 => Op::Ld8(Src::HLa, Src::H),
        0x75 => Op::Ld8(Src::HLa, Src::L),
        0x76 => Op::Halt,
        0x77 => Op::Ld8(Src::HLa, Src::A),
        0x78 => Op::Ld8(Src::A, Src::B),
        0x79 => Op::Ld8(Src::A, Src::C),
        0x7A => Op::Ld8(Src::A, Src::D),
        0x7B => Op::Ld8(Src::A, Src::E),
        0x7C => Op::Ld8(Src::A, Src::H),
        0x7D => Op::Ld8(Src::A, Src::L),
        0x7E => Op::Ld8(Src::A, Src::HLa),
        0x7F => Op::Ld8(Src::A, Src::A),
        0x80 => Op::Add8(Src::A, Src::B),
        0x81 => Op::Add8(Src::A, Src::C),
        0x82 => Op::Add8(Src::A, Src::D),
        0x83 => Op::Add8(Src::A, Src::E),
        0x84 => Op::Add8(Src::A, Src::H),
        0x85 => Op::Add8(Src::A, Src::L),
        0x86 => Op::Add8(Src::A, Src::HLa),
        0x87 => Op::Add8(Src::A, Src::A),
        0x88 => Op::Adc8(Src::A, Src::B),
        0x89 => Op::Adc8(Src::A, Src::C),
        0x8A => Op::Adc8(Src::A, Src::D),
        0x8B => Op::Adc8(Src::A, Src::E),
        0x8C => Op::Adc8(Src::A, Src::H),
        0x8D => Op::Adc8(Src::A, Src::L),
        0x8E => Op::Adc8(Src::A, Src::HLa),
        0x8F => Op::Adc8(Src::A, Src::A),
        0x90 => Op::Sub8(Src::A, Src::B),
        0x91 => Op::Sub8(Src::A, Src::C),
        0x92 => Op::Sub8(Src::A, Src::D),
        0x93 => Op::Sub8(Src::A, Src::E),
        0x94 => Op::Sub8(Src::A, Src::H),
        0x95 => Op::Sub8(Src::A, Src::L),
        0x96 => Op::Sub8(Src::A, Src::HLa),
        0x97 => Op::Sub8(Src::A, Src::A),
        0x98 => Op::Sbc8(Src::A, Src::B),
        0x99 => Op::Sbc8(Src::A, Src::C),
        0x9A => Op::Sbc8(Src::A, Src::D),
        0x9B => Op::Sbc8(Src::A, Src::E),
        0x9C => Op::Sbc8(Src::A, Src::H),
        0x9D => Op::Sbc8(Src::A, Src::L),
        0x9E => Op::Sbc8(Src::A, Src::HLa),
        0x9F => Op::Sbc8(Src::A, Src::A),
        0xA0 => Op::And(Src::B),
        0xA1 => Op::And(Src::C),
        0xA2 => Op::And(Src::D),
        0xA3 => Op::And(Src::E),
        0xA4 => Op::And(Src::H),
        0xA5 => Op::And(Src::L),
        0xA6 => Op::And(Src::HLa),
        0xA7 => Op::And(Src::A),
        0xA8 => Op::Xor(Src::B),
        0xA9 => Op::Xor(Src::C),
        0xAA => Op::Xor(Src::D),
        0xAB => Op::Xor(Src::E),
        0xAC => Op::Xor(Src::H),
        0xAD => Op::Xor(Src::L),
        0xAE => Op::Xor(Src::HLa),
        0xAF => Op::Xor(Src::A),
        0xB0 => Op::Or(Src::B),
        0xB1 => Op::Or(Src::C),
        0xB2 => Op::Or(Src::D),
        0xB3 => Op::Or(Src::E),
        0xB4 => Op::Or(Src::H),
        0xB5 => Op::Or(Src::L),
        0xB6 => Op::Or(Src::HLa),
        0xB7 => Op::Or(Src::A),
        0xB8 => Op::Cp(Src::B),
        0xB9 => Op::Cp(Src::C),
        0xBA => Op::Cp(Src::D),
        0xBB => Op::Cp(Src::E),
        0xBC => Op::Cp(Src::H),
        0xBD => Op::Cp(Src::L),
        0xBE => Op::Cp(Src::HLa),
        0xBF => Op::Cp(Src::A),
        0xC0 => Op::Ret(Cond::NZ),
        0xC1 => Op::Pop(CpuRegIndex::BC),
        0xC2 => Op::Jp(Cond::NZ),
        0xC3 => Op::Jp(Cond::Always),
        0xC4 => Op::Call(Cond::NZ),
        0xC5 => Op::Push(CpuRegIndex::BC),
        0xC6 => Op::Add8(Src::A, Src::D8),
        0xC7 => Op::Rst(0x00),
        0xC8 => Op::Ret(Cond::Z),
        0xC9 => Op::Ret(Cond::Always),
        0xCA => Op::Jp(Cond::Z),
        0xCC => Op::Call(Cond::Z),
        0xCD => Op::Call(Cond::Always),
        0xCE => Op::Adc8(Src::A, Src::D8),
        0xCF => Op::Rst(0x08),
        0xD0 => Op::Ret(Cond::NC),
        0xD1 => Op::Pop(CpuRegIndex::DE),
        0xD2 => Op::Jp(Cond::NC),
        0xD4 => Op::Call(Cond::NC),
        0xD5 => Op::Push(CpuRegIndex::DE),
        0xD6 => Op::Sub8(Src::A, Src::D8),
        0xD7 => Op::Rst(0x10),
        0xD8 => Op::Ret(Cond::C),
        0xD9 => Op::Reti,
        0xDA => Op::Jp(Cond::C),
        0xDC => Op::Call(Cond::C),
        0xDE => Op::Sbc8(Src::A, Src::D8),
        0xDF => Op::Rst(0x18),
        0xE0 => Op::Ld8(Src::A8, Src::A),
        0xE1 => Op::Pop(CpuRegIndex::HL),
        0xE2 => Op::Ld8(Src::Ca, Src::A),
        0xE5 => Op::Push(CpuRegIndex::HL),
        0xE6 => Op::And(Src::D8),
        0xE7 => Op::Rst(0x20),
        0xE8 => Op::AddSpR8,
        0xE9 => Op::JpHl,
        0xEA => Op::Ld8(Src::A16, Src::A),
        0xEE => Op::Xor(Src::D8),
        0xEF => Op::Rst(0x28),
        0xF0 => Op::Ld8(Src::A, Src::A8),
        0xF1 => Op::PopAf,
        0xF2 => Op::Ld8(Src::A, Src::Ca),
        0xF3 => Op::Di,
        0xF5 => Op::Push(CpuRegIndex::AF),
        0xF6 => Op::Or(Src::D8),
        0xF7 => Op::Rst(0x30),
        0xF8 => Op::LdHlSpR8,
        0xF9 => Op::Ld16(Src::SP, Src::HL),
        0xFA => Op::Ld8(Src::A, Src::A16),
        0xFB => Op::Ei,
        0xFE => Op::Cp(Src::D8),
        0xFF => Op::Rst(0x38),
        _ => Op::Invalid,
    }
}

/// Every CB-prefixed opcode has an entry: two bytes, 8 cycles, or 16 when its
/// operand is (HL) (bits 0-2 equal to 6).
pub proof fn lemma_cb_entries(opcode: u16)
    requires
        0xCB00 <= opcode <= 0xCBFF,
    ensures
        instruction_spec(opcode).opcode == opcode,
        instruction_spec(opcode).is_cbprefixed_spec(),
        instruction_spec(opcode).size == 2,
        instruction_spec(opcode).cycles == (if opcode % 8 == 6 { 16i16 } else { 8i16 }),
{
}

/// The opcodes without an implementation: the eleven unused unprefixed bytes,
/// the bare 0xCB prefix, and every number outside 0x0000-0x00FF and
/// 0xCB00-0xCBFF.
pub open spec fn is_unimplemented_opcode(opcode: u16) -> bool {
    ||| opcode == 0x00CB
    ||| opcode == 0x00D3 || opcode == 0x00DB || opcode == 0x00DD || opcode == 0x00E3 || opcode == 0x00E4
    ||| opcode == 0x00EB || opcode == 0x00EC || opcode == 0x00ED || opcode == 0x00F4 || opcode == 0x00FC
    ||| opcode == 0x00FD
    ||| 0x0100 <= opcode < 0xCB00
    ||| opcode > 0xCBFF
}

/// An entry reports a negative cycle count exactly for the opcodes without an
/// implementation; those entries are one byte, -1 cycles, named "Invalid" or
/// "Unimplemented".
pub proof fn lemma_unimplemented_entries(opcode: u16)
    ensures
        instruction_spec(opcode).opcode == opcode,
        instruction_spec(opcode).size >= 1,
        (instruction_spec(opcode).cycles < 0) == is_unimplemented_opcode(opcode),
        instruction_spec(opcode).cycles < 0 ==> {
            &&& instruction_spec(opcode).cycles == -1
            &&& instruction_spec(opcode).size == 1
            &&& (instruction_spec(opcode).mnemonic == "Invalid"
                || instruction_spec(opcode).mnemonic == "Unimplemented")
        },
{
}

impl Instruction {
    pub fn get_instruction(opcode: u16) -> (r: Instruction)
        ensures
            r == instruction_spec(opcode),
    {
        match opcode {
            0x0000 => Instruction { opcode, mnemonic: "NOP", size: 1, cycles: 4i16 },
            0x0001 => Instruction { opcode, mnemonic: "LD BC,d16", size: 3, cycles: 12i16 },
            0x0002 => Instruction { opcode, mnemonic: "LD (BC),A", size: 1, cycles: 8i16 },
            0x0003 => Instruction { opcode, mnemonic: "INC BC", size: 1, cycles: 8i16 },
            0x0004 => Instruction { opcode, mnemonic: "INC B", size: 1, cycles: 4i16 },
            0x0005 => Instruction { opcode, mnemonic: "DEC B", size: 1, cycles: 4i16 },
            0x0006 => Instruction { opcode, mnemonic: "LD B,d8", size: 2, cycles: 8i16 },
            0x0007 => Instruction { opcode, mnemonic: "RLCA", size: 1, cycles: 4i16 },
            0x0008 => Instruction { opcode, mnemonic: "LD (a16),SP", size: 3, cycles: 20i16 },
            0x0009 => Instruction { opcode, mnemonic: "ADD HL,BC", size: 1, cycles: 8i16 },
            0x000A => Instruction { opcode, mnemonic: "LD A,(BC)", size: 1, cycles: 8i16 },
            0x000B => Instruction { opcode, mnemonic: "DEC BC", size: 1, cycles: 8i16 },
            0x000C => Instruction { opcode, mnemonic: "INC C", size: 1, cycles: 4i16 },
            0x000D => Instruction { opcode, mnemonic: "DEC C", size: 1, cycles: 4i16 },
            0x000E => Instruction { opcode, mnemonic: "LD C,d8", size: 2, cycles: 8i16 },
            0x000F => Instruction { opcode, mnemonic: "RRCA", size: 1, cycles: 4i16 },
            0x0010 => Instruction { opcode, mnemonic: "STOP", size: 2, cycles: 4i16 },
            0x0011 => Instruction { opcode, mnemonic: "LD DE,d16", size: 3, cycles: 12i16 },
            0x0012 => Instruction { opcode, mnemonic: "LD (DE),A", size: 1, cycles: 8i16 },
            0x0013 => Instruction { opcode, mnemonic: "INC DE", size: 1, cycles: 8i16 },
            0x0014 => Instruction { opcode, mnemonic: "INC D", size: 1, cycles: 4i16 },
            0x0015 => Instruction { opcode, mnemonic: "DEC D", size: 1, cycles: 4i16 },
            0x0016 => Instruction { opcode, mnemonic: "LD D,d8", size: 2, cycles: 8i16 },
            0x0017 => Instruction { opcode, mnemonic: "RLA", size: 1, cycles: 4i16 },
            0x0018 => Instruction { opcode, mnemonic: "JR r8", size: 2, cycles: 12i16 },
            0x0019 => Instruction { opcode, mnemonic: "ADD HL,DE", size: 1, cycles: 8i16 },
            0x001A => Instruction { opcode, mnemonic: "LD A,(DE)", size: 1, cycles: 8i16 },
            0x001B => Instruction { opcode, mnemonic: "DEC DE", size: 1, cycles: 8i16 },
            0x001C => Instruction { opcode, mnemonic: "INC E", size: 1, cycles: 4i16 },
            0x001D => Instruction { opcode, mnemonic: "DEC E", size: 1, cycles: 4i16 },
            0x001E => Instruction { opcode, mnemonic: "LD E,d8", size: 2, cycles: 8i16 },
            0x001F => Instruction { opcode, mnemonic: "RRA", size: 1, cycles: 4i16 },
            0x0020 => Instruction { opcode, mnemonic: "JR NZ,r8", size: 2, cycles: 8i16 },
            0x0021 => Instruction { opcode, mnemonic: "LD HL,d16", size: 3, cycles: 12i16 },
            0x0022 => Instruction { opcode, mnemonic: "LDI (HL),A", size: 1, cycles: 8i16 },
            0x0023 => Instruction { opcode, mnemonic: "INC HL", size: 1, cycles: 8i16 },
            0x0024 => Instruction { opcode, mnemonic: "INC H", size: 1, cycles: 4i16 },
            0x0025 => Instruction { opcode, mnemonic: "DEC H", size: 1, cycles: 4i16 },
            0x0026 => Instruction { opcode, mnemonic: "LD H,d8", size: 2, cycles: 8i16 },
            0x0027 => Instruction { opcode, mnemonic: "DAA", size: 1, cycles: 4i16 },
            0x0028 => Instruction { opcode, mnemonic: "JR Z,r8", size: 2, cycles: 8i16 },
            0x0029 => Instruction { opcode, mnemonic: "ADD HL,HL", size: 1, cycles: 8i16 },
            0x002A => Instruction { opcode, mnemonic: "LDI A,(HL)", size: 1, cycles: 8i16 },
            0x002B => Instruction { opcode, mnemonic: "DEC HL", size: 1, cycles: 8i16 },
            0x002C => Instruction { opcode, mnemonic: "INC L", size: 1, cycles: 4i16 },
            0x002D => Instruction { opcode, mnemonic: "DEC L", size: 1, cycles: 4i16 },
            0x002E => Instruction { opcode, mnemonic: "LD L,d8", size: 2, cycles: 8i16 },
            0x002F => Instruction { opcode, mnemonic: "CPL", size: 1, cycles: 4i16 },
            0x0030 => Instruction { opcode, mnemonic: "JR NC,r8", size: 2, cycles: 8i16 },
            0x0031 => Instruction { opcode, mnemonic: "LD SP,d16", size: 3, cycles: 12i16 },
            0x0032 => Instruction { opcode, mnemonic: "LDD (HL),A", size: 1, cycles: 8i16 },
            0x0033 => Instruction { opcode, mnemonic: "INC SP", size: 1, cycles: 8i16 },
            0x0034 => Instruction { opcode, mnemonic: "INC (HL)", size: 1, cycles: 12i16 },
            0x0035 => Instruction { opcode, mnemonic: "DEC (HL)", size: 1, cycles: 12i16 },
            0x0036 => Instruction { opcode, mnemonic: "LD (HL),d8", size: 2, cycles: 12i16 },
            0x0037 => Instruction { opcode, mnemonic: "SCF", size: 1, cycles: 4i16 },
            0x0038 => Instruction { opcode, mnemonic: "JR C,r8", size: 2, cycles: 8i16 },
            0x0039 => Instruction { opcode, mnemonic: "ADD HL,SP", size: 1, cycles: 8i16 },
            0x003A => Instruction { opcode, mnemonic: "LDD A,(HL)", size: 1, cycles: 8i16 },
            0x003B => Instruction { opcode, mnemonic: "DEC SP", size: 1, cycles: 8i16 },
            0x003C => Instruction { opcode, mnemonic: "INC A", size: 1, cycles: 4i16 },
            0x003D => Instruction { opcode, mnemonic: "DEC A", size: 1, cycles: 4i16 },
            0x003E => Instruction { opcode, mnemonic: "LD A,d8", size: 2, cycles: 8i16 },
            0x003F => Instruction { opcode, mnemonic: "CCF", size: 1, cycles: 4i16 },
            0x0040 => Instruction { opcode, mnemonic: "LD B,B", size: 1, cycles: 4i16 },
            0x0041 => Instruction { opcode, mnemonic: "LD B,C", size: 1, cycles: 4i16 },
            0x0042 => Instruction { opcode, mnemonic: "LD B,D", size: 1, cycles: 4i16 },
            0x0043 => Instruction { opcode, mnemonic: "LD B,E", size: 1, cycles: 4i16 },
            0x0044 => Instruction { opcode, mnemonic: "LD B,H", size: 1, cycles: 4i16 },
            0x0045 => Instruction { opcode, mnemonic: "LD B,L", size: 1, cycles: 4i16 },
            0x0046 => Instruction { opcode, mnemonic: "LD B,(HL)", size: 1, cycles: 8i16 },
            0x0047 => Instruction { opcode, mnemonic: "LD B,A", size: 1, cycles: 4i16 },
            0x0048 => Instruction { opcode, mnemonic: "LD C,B", size: 1, cycles: 4i16 },
            0x0049 => Instruction { opcode, mnemonic: "LD C,C", size: 1, cycles: 4i16 },
            0x004A => Instruction { opcode, mnemonic: "LD C,D", size: 1, cycles: 4i16 },
            0x004B => Instruction { opcode, mnemonic: "LD C,E", size: 1, cycles: 4i16 },
            0x004C => Instruction { opcode, mnemonic: "LD C,H", size: 1, cycles: 4i16 },
            0x004D => Instruction { opcode, mnemonic: "LD C,L", size: 1, cycles: 4i16 },
            0x004E => Instruction { opcode, mnemonic: "LD C,(HL)", size: 1, cycles: 8i16 },
            0x004F => Instruction { opcode, mnemonic: "LD C,A", size: 1, cycles: 4i16 },
            0x0050 => Instruction { opcode, mnemonic: "LD D,B", size: 1, cycles: 4i16 },
            0x0051 => Instruction { opcode, mnemonic: "LD D,C", size: 1, cycles: 4i16 },
            0x0052 => Instruction { opcode, mnemonic: "LD D,D", size: 1, cycles: 4i16 },
            0x0053 => Instruction { opcode, mnemonic: "LD D,E", size: 1, cycles: 4i16 },
            0x0054 => Instruction { opcode, mnemonic: "LD D,H", size: 1, cycles: 4i16 },
            0x0055 => Instruction { opcode, mnemonic: "LD D,L", size: 1, cycles: 4i16 },
            0x0056 => Instruction { opcode, mnemonic: "LD D,(HL)", size: 1, cycles: 8i16 },
            0x0057 => Instruction { opcode, mnemonic: "LD D,A", size: 1, cycles: 4i16 },
            0x0058 => Instruction { opcode, mnemonic: "LD E,B", size: 1, cycles: 4i16 },
            0x0059 => Instruction { opcode, mnemonic: "LD E,C", size: 1, cycles: 4i16 },
            0x005A => Instruction { opcode, mnemonic: "LD E,D", size: 1, cycles: 4i16 },
            0x005B => Instruction { opcode, mnemonic: "LD E,E", size: 1, cycles: 4i16 },
            0x005C => Instruction { opcode, mnemonic: "LD E,H", size: 1, cycles: 4i16 },
            0x005D => Instruction { opcode, mnemonic: "LD E,L", size: 1, cycles: 4i16 },
            0x005E => Instruction { opcode, mnemonic: "LD E,(HL)", size: 1, cycles: 8i16 },
            0x005F => Instruction { opcode, mnemonic: "LD E,A", size: 1, cycles: 4i16 },
            0x0060 => Instruction { opcode, mnemonic: "LD H,B", size: 1, cycles: 4i16 },
            0x0061 => Instruction { opcode, mnemonic: "LD H,C", size: 1, cycles: 4i16 },
            0x0062 => Instruction { opcode, mnemonic: "LD H,D", size: 1, cycles: 4i16 },
            0x0063 => Instruction { opcode, mnemonic: "LD H,E", size: 1, cycles: 4i16 },
            0x0064 => Instruction { opcode, mnemonic: "LD H,H", size: 1, cycles: 4i16 },
            0x0065 => Instruction { opcode, mnemonic: "LD H,L", size: 1, cycles: 4i16 },
            0x0066 => Instruction { opcode, mnemonic: "LD H,(HL)", size: 1, cycles: 8i16 },
            0x0067 => Instruction { opcode, mnemonic: "LD H,A", size: 1, cycles: 4i16 },
            0x0068 => Instruction { opcode, mnemonic: "LD L,B", size: 1, cycles: 4i16 },
            0x0069 => Instruction { opcode, mnemonic: "LD L,C", size: 1, cycles: 4i16 },
            0x006A => Instruction { opcode, mnemonic: "LD L,D", size: 1, cycles: 4i16 },
            0x006B => Instruction { opcode, mnemonic: "LD L,E", size: 1, cycles: 4i16 },
            0x006C => Instruction { opcode, mnemonic: "LD L,H", size: 1, cycles: 4i16 },
            0x006D => Instruction { opcode, mnemonic: "LD L,L", size: 1, cycles: 4i16 },
            0x006E => Instruction { opcode, mnemonic: "LD L,(HL)", size: 1, cycles: 8i16 },
            0x006F => Instruction { opcode, mnemonic: "LD L,A", size: 1, cycles: 4i16 },
            0x0070 => Instruction { opcode, mnemonic: "LD (HL),B", size: 1, cycles: 8i16 },
            0x0071 => Instruction { opcode, mnemonic: "LD (HL),C", size: 1, cycles: 8i16 },
            0x0072 => Instruction { opcode, mnemonic: "LD (HL),D", size: 1, cycles: 8i16 },
            0x0073 => Instruction { opcode, mnemonic: "LD (HL),E", size: 1, cycles: 8i16 },
            0x0074 => Instruction { opcode, mnemonic: "LD (HL),H", size: 1, cycles: 8i16 },
            0x0075 => Instruction { opcode, mnemonic: "LD (HL),L", size: 1, cycles: 8i16 },
            0x0076 => Instruction { opcode, mnemonic: "HALT", size: 1, cycles: 4i16 },
            0x0077 => Instruction { opcode, mnemonic: "LD (HL),A", size: 1, cycles: 8i16 },
            0x0078 => Instruction { opcode, mnemonic: "LD A,B", size: 1, cycles: 4i16 },
            0x0079 => Instruction { opcode, mnemonic: "LD A,C", size: 1, cycles: 4i16 },
            0x007A => Instruction { opcode, mnemonic: "LD A,D", size: 1, cycles: 4i16 },
            0x007B => Instruction { opcode, mnemonic: "LD A,E", size: 1, cycles: 4i16 },
            0x007C => Instruction { opcode, mnemonic: "LD A,H", size: 1, cycles: 4i16 },
            0x007D => Instruction { opcode, mnemonic: "LD A,L", size: 1, cycles: 4i16 },
            0x007E => Instruction { opcode, mnemonic: "LD A,(HL)", size: 1, cycles: 8i16 },
            0x007F => Instruction { opcode, mnemonic: "LD A,A", size: 1, cycles: 4i16 },
            0x0080 => Instruction { opcode, mnemonic: "ADD A,B", size: 1, cycles: 4i16 },
            0x0081 => Instruction { opcode, mnemonic: "ADD A,C", size: 1, cycles: 4i16 },
            0x0082 => Instruction { opcode, mnemonic: "ADD A,D", size: 1, cycles: 4i16 },
            0x0083 => Instruction { opcode, mnemonic: "ADD A,E", size: 1, cycles: 4i16 },
            0x0084 => Instruction { opcode, mnemonic: "ADD A,H", size: 1, cycles: 4i16 },
            0x0085 => Instruction { opcode, mnemonic: "ADD A,L", size: 1, cycles: 4i16 },
            0x0086 => Instruction { opcode, mnemonic: "ADD A,(HL)", size: 1, cycles: 8i16 },
            0x0087 => Instruction { opcode, mnemonic: "ADD A,A", size: 1, cycles: 4i16 },
            0x0088 => Instruction { opcode, mnemonic: "ADC A,B", size: 1, cycles: 4i16 },
            0x0089 => Instruction { opcode, mnemonic: "ADC A,C", size: 1, cycles: 4i16 },
            0x008A => Instruction { opcode, mnemonic: "ADC A,D", size: 1, cycles: 4i16 },
            0x008B => Instruction { opcode, mnemonic: "ADC A,E", size: 1, cycles: 4i16 },
            0x008C => Instruction { opcode, mnemonic: "ADC A,H", size: 1, cycles: 4i16 },
            0x008D => Instruction { opcode, mnemonic: "ADC A,L", size: 1, cycles: 4i16 },
            0x008E => Instruction { opcode, mnemonic: "ADC A,(HL)", size: 1, cycles: 8i16 },
            0x008F => Instruction { opcode, mnemonic: "ADC A,A", size: 1, cycles: 4i16 },
            0x0090 => Instruction { opcode, mnemonic: "SUB A,B", size: 1, cycles: 4i16 },
            0x0091 => Instruction { opcode, mnemonic: "SUB A,C", size: 1, cycles: 4i16 },
            0x0092 => Instruction { opcode, mnemonic: "SUB A,D", size: 1, cycles: 4i16 },
            0x0093 => Instruction { opcode, mnemonic: "SUB A,E", size: 1, cycles: 4i16 },
            0x0094 => Instruction { opcode, mnemonic: "SUB A,H", size: 1, cycles: 4i16 },
            0x0095 => Instruction { opcode, mnemonic: "SUB A,L", size: 1, cycles: 4i16 },
            0x0096 => Instruction { opcode, mnemonic: "SUB A,(HL)", size: 1, cycles: 8i16 },
            0x0097 => Instruction { opcode, mnemonic: "SUB A,A", size: 1, cycles: 4i16 },
            0x0098 => Instruction { opcode, mnemonic: "SBC A,B", size: 1, cycles: 4i16 },
            0x0099 => Instruction { opcode, mnemonic: "SBC A,C", size: 1, cycles: 4i16 },
            0x009A => Instruction { opcode, mnemonic: "SBC A,D", size: 1, cycles: 4i16 },
            0x009B => Instruction { opcode, mnemonic: "SBC A,E", size: 1, cycles: 4i16 },
            0x009C => Instruction { opcode, mnemonic: "SBC A,H", size: 1, cycles: 4i16 },
            0x009D => Instruction { opcode, mnemonic: "SBC A,L", size: 1, cycles: 4i16 },
            0x009E => Instruction { opcode, mnemonic: "SBC A,(HL)", size: 1, cycles: 8i16 },
            0x009F => Instruction { opcode, mnemonic: "SBC A,A", size: 1, cycles: 4i16 },
            0x00A0 => Instruction { opcode, mnemonic: "AND B", size: 1, cycles: 4i16 },
            0x00A1 => Instruction { opcode, mnemonic: "AND C", size: 1, cycles: 4i16 },
            0x00A2 => Instruction { opcode, mnemonic: "AND D", size: 1, cycles: 4i16 },
            0x00A3 => Instruction { opcode, mnemonic: "AND E", size: 1, cycles: 4i16 },
            0x00A4 => Instruction { opcode, mnemonic: "AND H", size: 1, cycles: 4i16 },
            0x00A5 => Instruction { opcode, mnemonic: "AND L", size: 1, cycles: 4i16 },
            0x00A6 => Instruction { opcode, mnemonic: "AND (HL)", size: 1, cycles: 8i16 },
            0x00A7 => Instruction { opcode, mnemonic: "AND A", size: 1, cycles: 4i16 },
            0x00A8 => Instruction { opcode, mnemonic: "XOR B", size: 1, cycles: 4i16 },
            0x00A9 => Instruction { opcode, mnemonic: "XOR C", size: 1, cycles: 4i16 },
            0x00AA => Instruction { opcode, mnemonic: "XOR D", size: 1, cycles: 4i16 },
            0x00AB => Instruction { opcode, mnemonic: "XOR E", size: 1, cycles: 4i16 },
            0x00AC => Instruction { opcode, mnemonic: "XOR H", size: 1, cycles: 4i16 },
            0x00AD => Instruction { opcode, mnemonic: "XOR L", size: 1, cycles: 4i16 },
            0x00AE => Instruction { opcode, mnemonic: "XOR (HL)", size: 1, cycles: 4i16 },
            0x00AF => Instruction { opcode, mnemonic: "XOR A", size: 1, cycles: 4i16 },
            0x00B0 => Instruction { opcode, mnemonic: "OR B", size: 1, cycles: 4i16 },
            0x00B1 => Instruction { opcode, mnemonic: "OR C", size: 1, cycles: 4i16 },
            0x00B2 => Instruction { opcode, mnemonic: "OR D", size: 1, cycles: 4i16 },
            0x00B3 => Instruction { opcode, mnemonic: "OR E", size: 1, cycles: 4i16 },
            0x00B4 => Instruction { opcode, mnemonic: "OR H", size: 1, cycles: 4i16 },
            0x00B5 => Instruction { opcode, mnemonic: "OR L", size: 1, cycles: 4i16 },
            0x00B6 => Instruction { opcode, mnemonic: "OR (HL)", size: 1, cycles: 4i16 },
            0x00B7 => Instruction { opcode, mnemonic: "OR A", size: 1, cycles: 4i16 },
            0x00B8 => Instruction { opcode, mnemonic: "CP B", size: 1, cycles: 4i16 },
            0x00B9 => Instruction { opcode, mnemonic: "CP C", size: 1, cycles: 4i16 },
            0x00BA => Instruction { opcode, mnemonic: "CP D", size: 1, cycles: 4i16 },
            0x00BB => Instruction { opcode, mnemonic: "CP E", size: 1, cycles: 4i16 },
            0x00BC => Instruction { opcode, mnemonic: "CP H", size: 1, cycles: 4i16 },
            0x00BD => Instruction { opcode, mnemonic: "CP L", size: 1, cycles: 4i16 },
            0x00BE => Instruction { opcode, mnemonic: "CP (HL)", size: 1, cycles: 8i16 },
            0x00BF => Instruction { opcode, mnemonic: "CP A", size: 1, cycles: 4i16 },
            0x00C0 => Instruction { opcode, mnemonic: "RET NZ", size: 1, cycles: 8i16 },
            0x00C1 => Instruction { opcode, mnemonic: "POP BC", size: 1, cycles: 12i16 },
            0x00C2 => Instruction { opcode, mnemonic: "JP NZ,a16", size: 3, cycles: 12i16 },
            0x00C3 => Instruction { opcode, mnemonic: "JP a16", size: 3, cycles: 16i16 },
            0x00C4 => Instruction { opcode, mnemonic: "CALL NZ,a16", size: 3, cycles: 12i16 },
            0x00C5 => Instruction { opcode, mnemonic: "PUSH BC", size: 1, cycles: 16i16 },
            0x00C6 => Instruction { opcode, mnemonic: "ADD A,d8", size: 2, cycles: 8i16 },
            0x00C7 => Instruction { opcode, mnemonic: "RST 00H", size: 1, cycles: 16i16 },
            0x00C8 => Instruction { opcode, mnemonic: "RET Z", size: 1, cycles: 8i16 },
            0x00C9 => Instruction { opcode, mnemonic: "RET", size: 1, cycles: 16i16 },
            0x00CA => Instruction { opcode, mnemonic: "JP Z,a16", size: 3, cycles: 12i16 },
            0x00CC => Instruction { opcode, mnemonic: "CALL Z,a16", size: 3, cycles: 12i16 },
            0x00CD => Instruction { opcode, mnemonic: "CALL a16", size: 3, cycles: 24i16 },
            0x00CE => Instruction { opcode, mnemonic: "ADC A,d8", size: 2, cycles: 8i16 },
            0x00CF => Instruction { opcode, mnemonic: "RST 08H", size: 1, cycles: 16i16 },
            0x00D0 => Instruction { opcode, mnemonic: "RET NC", size: 1, cycles: 8i16 },
            0x00D1 => Instruction { opcode, mnemonic: "POP DE", size: 1, cycles: 12i16 },
            0x00D2 => Instruction { opcode, mnemonic: "JP NC,a16", size: 3, cycles: 12i16 },
            0x00D3 => Instruction { opcode, mnemonic: "Invalid", size: 1, cycles: -1i16 },
            0x00D4 => Instruction { opcode, mnemonic: "CALL NC,a16", size: 3, cycles: 12i16 },
            0x00D5 => Instruction { opcode, mnemonic: "PUSH DE", size: 1, cycles: 16i16 },
            0x00D6 => Instruction { opcode, mnemonic: "SUB d8", size: 2, cycles: 8i16 },
            0x00D7 => Instruction { opcode, mnemonic: "RST 10H", size: 1, cycles: 16i16 },
            0x00D8 => Instruction { opcode, mnemonic: "RET C", size: 1, cycles: 8i16 },
            0x00D9 => Instruction { opcode, mnemonic: "RET I", size: 1, cycles: 16i16 },
            0x00DA => Instruction { opcode, mnemonic: "JP C,a16", size: 3, cycles: 12i16 },
            0x00DB => Instruction { opcode, mnemonic: "Invalid", size: 1, cycles: -1i16 },
            0x00DC => Instruction { opcode, mnemonic: "CALL C,a16", size: 3, cycles: 12i16 },
            0x00DD => Instruction { opcode, mnemonic: "Invalid", size: 1, cycles: -1i16 },
            0x00DE => Instruction { opcode, mnemonic: "SBC A,d8", size: 2, cycles: 8i16 },
            0x00DF => Instruction { opcode, mnemonic: "RST 18H", size: 1, cycles: 16i16 },
            0x00E0 => Instruction { opcode, mnemonic: "LDH (a8),A", size: 2, cycles: 12i16 },
            0x00E1 => Instruction { opcode, mnemonic: "POP HL", size: 1, cycles: 12i16 },
            0x00E2 => Instruction { opcode, mnemonic: "LDH (C),A", size: 1, cycles: 8i16 },
            0x00E3 => Instruction { opcode, mnemonic: "Invalid", size: 1, cycles: -1i16 },
            0x00E4 => Instruction { opcode, mnemonic: "Invalid", size: 1, cycles: -1i16 },
            0x00E5 => Instruction { opcode, mnemonic: "PUSH HL", size: 1, cycles: 16i16 },
            0x00E6 => Instruction { opcode, mnemonic: "AND d8", size: 2, cycles: 8i16 },
            0x00E7 => Instruction { opcode, mnemonic: "RST 20H", size: 1, cycles: 16i16 },
            0x00E8 => Instruction { opcode, mnemonic: "ADD SP,r8", size: 2, cycles: 16i16 },
            0x00E9 => Instruction { opcode, mnemonic: "JP HL", size: 1, cycles: 4i16 },
            0x00EA => Instruction { opcode, mnemonic: "LD (a16),A", size: 3, cycles: 16i16 },
            0x00EB => Instruction { opcode, mnemonic: "Invalid", size: 1, cycles: -1i16 },
            0x00EC => Instruction { opcode, mnemonic: "Invalid", size: 1, cycles: -1i16 },
            0x00ED => Instruction { opcode, mnemonic: "Invalid", size: 1, cycles: -1i16 },
            0x00EE => Instruction { opcode, mnemonic: "XOR d8", size: 2, cycles: 8i16 },
            0x00EF => Instruction { opcode, mnemonic: "RST 28H", size: 1, cycles: 16i16 },
            0x00F0 => Instruction { opcode, mnemonic: "LDH A,(a8)", size: 2, cycles: 12i16 },
            0x00F1 => Instruction { opcode, mnemonic: "POP AF", size: 1, cycles: 12i16 },
            0x00F2 => Instruction { opcode, mnemonic: "LDH A,(C)", size: 1, cycles: 8i16 },
            0x00F3 => Instruction { opcode, mnemonic: "DI", size: 1, cycles: 4i16 },
            0x00F4 => Instruction { opcode, mnemonic: "Invalid", size: 1, cycles: -1i16 },
            0x00F5 => Instruction { opcode, mnemonic: "PUSH AF", size: 1, cycles: 16i16 },
            0x00F6 => Instruction { opcode, mnemonic: "OR d8", size: 2, cycles: 8i16 },
            0x00F7 => Instruction { opcode, mnemonic: "RST 30H", size: 1, cycles: 16i16 },
            0x00F8 => Instruction { opcode, mnemonic: "LD HL,SP+r8", size: 2, cycles: 12i16 },
            0x00F9 => Instruction { opcode, mnemonic: "LD SP,HL", size: 1, cycles: 8i16 },
            0x00FA => Instruction { opcode, mnemonic: "LD A,(a16)", size: 3, cycles: 16i16 },
            0x00FB => Instruction { opcode, mnemonic: "EI", size: 1, cycles: 4i16 },
            0x00FC => Instruction { opcode, mnemonic: "Invalid", size: 1, cycles: -1i16 },
            0x00FD => Instruction { opcode, mnemonic: "Invalid", size: 1, cycles: -1i16 },
            0x00FE => Instruction { opcode, mnemonic: "CP d8", size: 2, cycles: 8i16 },
            0x00FF => Instruction { opcode, mnemonic: "RST 38H", size: 1, cycles: 16i16 },
            0xCB00 => Instruction { opcode, mnemonic: "RLC B", size: 2, cycles: 8i16 },
            0xCB01 => Instruction { opcode, mnemonic: "RLC C", size: 2, cycles: 8i16 },
            0xCB02 => Instruction { opcode, mnemonic: "RLC D", size: 2, cycles: 8i16 },
            0xCB03 => Instruction { opcode, mnemonic: "RLC E", size: 2, cycles: 8i16 },
            0xCB04 => Instruction { opcode, mnemonic: "RLC H", size: 2, cycles: 8i16 },
            0xCB05 => Instruction { opcode, mnemonic: "RLC L", size: 2, cycles: 8i16 },
            0xCB06 => Instruction { opcode, mnemonic: "RLC (HL)", size: 2, cycles: 16i16 },
            0xCB07 => Instruction { opcode, mnemonic: "RLC A", size: 2, cycles: 8i16 },
            0xCB08 => Instruction { opcode, mnemonic: "RRC B", size: 2, cycles: 8i16 },
            0xCB09 => Instruction { opcode, mnemonic: "RRC C", size: 2, cycles: 8i16 },
            0xCB0A => Instruction { opcode, mnemonic: "RRC D", size: 2, cycles: 8i16 },
            0xCB0B => Instruction { opcode, mnemonic: "RRC E", size: 2, cycles: 8i16 },
            0xCB0C => Instruction { opcode, mnemonic: "RRC H", size: 2, cycles: 8i16 },
            0xCB0D => Instruction { opcode, mnemonic: "RRC L", size: 2, cycles: 8i16 },
            0xCB0E => Instruction { opcode, mnemonic: "RRC (HL)", size: 2, cycles: 16i16 },
            0xCB0F => Instruction { opcode, mnemonic: "RRC A", size: 2, cycles: 8i16 },
            0xCB10 => Instruction { opcode, mnemonic: "RL B", size: 2, cycles: 8i16 },
            0xCB11 => Instruction { opcode, mnemonic: "RL C", size: 2, cycles: 8i16 },
            0xCB12 => Instruction { opcode, mnemonic: "RL D", size: 2, cycles: 8i16 },
            0xCB13 => Instruction { opcode, mnemonic: "RL E", size: 2, cycles: 8i16 },
            0xCB14 => Instruction { opcode, mnemonic: "RL H", size: 2, cycles: 8i16 },
            0xCB15 => Instruction { opcode, mnemonic: "RL L", size: 2, cycles: 8i16 },
            0xCB16 => Instruction { opcode, mnemonic: "RL (HL)", size: 2, cycles: 16i16 },
            0xCB17 => Instruction { opcode, mnemonic: "RL A", size: 2, cycles: 8i16 },
            0xCB18 => Instruction { opcode, mnemonic: "RR B", size: 2, cycles: 8i16 },
            0xCB19 => Instruction { opcode, mnemonic: "RR C", size: 2, cycles: 8i16 },
            0xCB1A => Instruction { opcode, mnemonic: "RR D", size: 2, cycles: 8i16 },
            0xCB1B => Instruction { opcode, mnemonic: "RR E", size: 2, cycles: 8i16 },
            0xCB1C => Instruction { opcode, mnemonic: "RR H", size: 2, cycles: 8i16 },
            0xCB1D => Instruction { opcode, mnemonic: "RR L", size: 2, cycles: 8i16 },
            0xCB1E => Instruction { opcode, mnemonic: "RR (HL)", size: 2, cycles: 16i16 },
            0xCB1F => Instruction { opcode, mnemonic: "RR A", size: 2, cycles: 8i16 },
            0xCB20 => Instruction { opcode, mnemonic: "SLA B", size: 2, cycles: 8i16 },
            0xCB21 => Instruction { opcode, mnemonic: "SLA C", size: 2, cycles: 8i16 },
            0xCB22 => Instruction { opcode, mnemonic: "SLA D", size: 2, cycles: 8i16 },
            0xCB23 => Instruction { opcode, mnemonic: "SLA E", size: 2, cycles: 8i16 },
            0xCB24 => Instruction { opcode, mnemonic: "SLA H", size: 2, cycles: 8i16 },
            0xCB25 => Instruction { opcode, mnemonic: "SLA L", size: 2, cycles: 8i16 },
            0xCB26 => Instruction { opcode, mnemonic: "SLA (HL)", size: 2, cycles: 16i16 },
            0xCB27 => Instruction { opcode, mnemonic: "SLA A", size: 2, cycles: 8i16 },
            0xCB28 => Instruction { opcode, mnemonic: "SRA B", size: 2, cycles: 8i16 },
            0xCB29 => Instruction { opcode, mnemonic: "SRA C", size: 2, cycles: 8i16 },
            0xCB2A => Instruction { opcode, mnemonic: "SRA D", size: 2, cycles: 8i16 },
            0xCB2B => Instruction { opcode, mnemonic: "SRA E", size: 2, cycles: 8i16 },
            0xCB2C => Instruction { opcode, mnemonic: "SRA H", size: 2, cycles: 8i16 },
            0xCB2D => Instruction { opcode, mnemonic: "SRA L", size: 2, cycles: 8i16 },
            0xCB2E => Instruction { opcode, mnemonic: "SRA (HL)", size: 2, cycles: 16i16 },
            0xCB2F => Instruction { opcode, mnemonic: "SRA A", size: 2, cycles: 8i16 },
            0xCB30 => Instruction { opcode, mnemonic: "SWAP B", size: 2, cycles: 8i16 },
            0xCB31 => Instruction { opcode, mnemonic: "SWAP C", size: 2, cycles: 8i16 },
            0xCB32 => Instruction { opcode, mnemonic: "SWAP D", size: 2, cycles: 8i16 },
            0xCB33 => Instruction { opcode, mnemonic: "SWAP E", size: 2, cycles: 8i16 },
            0xCB34 => Instruction { opcode, mnemonic: "SWAP H", size: 2, cycles: 8i16 },
            0xCB35 => Instruction { opcode, mnemonic: "SWAP L", size: 2, cycles: 8i16 },
            0xCB36 => Instruction { opcode, mnemonic: "SWAP (HL)", size: 2, cycles: 16i16 },
            0xCB37 => Instruction { opcode, mnemonic: "SWAP A", size: 2, cycles: 8i16 },
            0xCB38 => Instruction { opcode, mnemonic: "SRL B", size: 2, cycles: 8i16 },
            0xCB39 => Instruction { opcode, mnemonic: "SRL C", size: 2, cycles: 8i16 },
            0xCB3A => Instruction { opcode, mnemonic: "SRL D", size: 2, cycles: 8i16 },
            0xCB3B => Instruction { opcode, mnemonic: "SRL E", size: 2, cycles: 8i16 },
            0xCB3C => Instruction { opcode, mnemonic: "SRL H", size: 2, cycles: 8i16 },
            0xCB3D => Instruction { opcode, mnemonic: "SRL L", size: 2, cycles: 8i16 },
            0xCB3E => Instruction { opcode, mnemonic: "SRL (HL)", size: 2, cycles: 16i16 },
            0xCB3F => Instruction { opcode, mnemonic: "SRL A", size: 2, cycles: 8i16 },
            0xCB40 => Instruction { opcode, mnemonic: "BIT 0,B", size: 2, cycles: 8i16 },
            0xCB41 => Instruction { opcode, mnemonic: "BIT 0,C", size: 2, cycles: 8i16 },
            0xCB42 => Instruction { opcode, mnemonic: "BIT 0,D", size: 2, cycles: 8i16 },
            0xCB43 => Instruction { opcode, mnemonic: "BIT 0,E", size: 2, cycles: 8i16 },
            0xCB44 => Instruction { opcode, mnemonic: "BIT 0,H", size: 2, cycles: 8i16 },
            0xCB45 => Instruction { opcode, mnemonic: "BIT 0,L", size: 2, cycles: 8i16 },
            0xCB46 => Instruction { opcode, mnemonic: "BIT 0,(HL)", size: 2, cycles: 16i16 },
            0xCB47 => Instruction { opcode, mnemonic: "BIT 0,A", size: 2, cycles: 8i16 },
            0xCB48 => Instruction { opcode, mnemonic: "BIT 1,B", size: 2, cycles: 8i16 },
            0xCB49 => Instruction { opcode, mnemonic: "BIT 1,C", size: 2, cycles: 8i16 },
            0xCB4A => Instruction { opcode, mnemonic: "BIT 1,D", size: 2, cycles: 8i16 },
            0xCB4B => Instruction { opcode, mnemonic: "BIT 1,E", size: 2, cycles: 8i16 },
            0xCB4C => Instruction { opcode, mnemonic: "BIT 1,H", size: 2, cycles: 8i16 },
            0xCB4D => Instruction { opcode, mnemonic: "BIT 1,L", size: 2, cycles: 8i16 },
            0xCB4E => Instruction { opcode, mnemonic: "BIT 1,(HL)", size: 2, cycles: 16i16 },
            0xCB4F => Instruction { opcode, mnemonic: "BIT 1,A", size: 2, cycles: 8i16 },
            0xCB50 => Instruction { opcode, mnemonic: "BIT 2,B", size: 2, cycles: 8i16 },
            0xCB51 => Instruction { opcode, mnemonic: "BIT 2,C", size: 2, cycles: 8i16 },
            0xCB52 => Instruction { opcode, mnemonic: "BIT 2,D", size: 2, cycles: 8i16 },
            0xCB53 => Instruction { opcode, mnemonic: "BIT 2,E", size: 2, cycles: 8i16 },
            0xCB54 => Instruction { opcode, mnemonic: "BIT 2,H", size: 2, cycles: 8i16 },
            0xCB55 => Instruction { opcode, mnemonic: "BIT 2,L", size: 2, cycles: 8i16 },
            0xCB56 => Instruction { opcode, mnemonic: "BIT 2,(HL)", size: 2, cycles: 16i16 },
            0xCB57 => Instruction { opcode, mnemonic: "BIT 2,A", size: 2, cycles: 8i16 },
            0xCB58 => Instruction { opcode, mnemonic: "BIT 3,B", size: 2, cycles: 8i16 },
            0xCB59 => Instruction { opcode, mnemonic: "BIT 3,C", size: 2, cycles: 8i16 },
            0xCB5A => Instruction { opcode, mnemonic: "BIT 3,D", size: 2, cycles: 8i16 },
            0xCB5B => Instruction { opcode, mnemonic: "BIT 3,E", size: 2, cycles: 8i16 },
            0xCB5C => Instruction { opcode, mnemonic: "BIT 3,H", size: 2, cycles: 8i16 },
            0xCB5D => Instruction { opcode, mnemonic: "BIT 3,L", size: 2, cycles: 8i16 },
            0xCB5E => Instruction { opcode, mnemonic: "BIT 3,(HL)", size: 2, cycles: 16i16 },
            0xCB5F => Instruction { opcode, mnemonic: "BIT 3,A", size: 2, cycles: 8i16 },
            0xCB60 => Instruction { opcode, mnemonic: "BIT 4,B", size: 2, cycles: 8i16 },
            0xCB61 => Instruction { opcode, mnemonic: "BIT 4,C", size: 2, cycles: 8i16 },
            0xCB62 => Instruction { opcode, mnemonic: "BIT 4,D", size: 2, cycles: 8i16 },
            0xCB63 => Instruction { opcode, mnemonic: "BIT 4,E", size: 2, cycles: 8i16 },
            0xCB64 => Instruction { opcode, mnemonic: "BIT 4,H", size: 2, cycles: 8i16 },
            0xCB65 => Instruction { opcode, mnemonic: "BIT 4,L", size: 2, cycles: 8i16 },
            0xCB66 => Instruction { opcode, mnemonic: "BIT 4,(HL)", size: 2, cycles: 16i16 },
            0xCB67 => Instruction { opcode, mnemonic: "BIT 4,A", size: 2, cycles: 8i16 },
            0xCB68 => Instruction { opcode, mnemonic: "BIT 5,B", size: 2, cycles: 8i16 },
            0xCB69 => Instruction { opcode, mnemonic: "BIT 5,C", size: 2, cycles: 8i16 },
            0xCB6A => Instruction { opcode, mnemonic: "BIT 5,D", size: 2, cycles: 8i16 },
            0xCB6B => Instruction { opcode, mnemonic: "BIT 5,E", size: 2, cycles: 8i16 },
            0xCB6C => Instruction { opcode, mnemonic: "BIT 5,H", size: 2, cycles: 8i16 },
            0xCB6D => Instruction { opcode, mnemonic: "BIT 5,L", size: 2, cycles: 8i16 },
            0xCB6E => Instruction { opcode, mnemonic: "BIT 5,(HL)", size: 2, cycles: 16i16 },
            0xCB6F => Instruction { opcode, mnemonic: "BIT 5,A", size: 2, cycles: 8i16 },
            0xCB70 => Instruction { opcode, mnemonic: "BIT 6,B", size: 2, cycles: 8i16 },
            0xCB71 => Instruction { opcode, mnemonic: "BIT 6,C", size: 2, cycles: 8i16 },
            0xCB72 => Instruction { opcode, mnemonic: "BIT 6,D", size: 2, cycles: 8i16 },
            0xCB73 => Instruction { opcode, mnemonic: "BIT 6,E", size: 2, cycles: 8i16 },
            0xCB74 => Instruction { opcode, mnemonic: "BIT 6,H", size: 2, cycles: 8i16 },
            0xCB75 => Instruction { opcode, mnemonic: "BIT 6,L", size: 2, cycles: 8i16 },
            0xCB76 => Instruction { opcode, mnemonic: "BIT 6,(HL)", size: 2, cycles: 16i16 },
            0xCB77 => Instruction { opcode, mnemonic: "BIT 6,A", size: 2, cycles: 8i16 },
            0xCB78 => Instruction { opcode, mnemonic: "BIT 7,B", size: 2, cycles: 8i16 },
            0xCB79 => Instruction { opcode, mnemonic: "BIT 7,C", size: 2, cycles: 8i16 },
            0xCB7A => Instruction { opcode, mnemonic: "BIT 7,D", size: 2, cycles: 8i16 },
            0xCB7B => Instruction { opcode, mnemonic: "BIT 7,E", size: 2, cycles: 8i16 },
            0xCB7C => Instruction { opcode, mnemonic: "BIT 7,H", size: 2, cycles: 8i16 },
            0xCB7D => Instruction { opcode, mnemonic: "BIT 7,L", size: 2, cycles: 8i16 },
            0xCB7E => Instruction { opcode, mnemonic: "BIT 7,(HL)", size: 2, cycles: 16i16 },
            0xCB7F => Instruction { opcode, mnemonic: "BIT 7,A", size: 2, cycles: 8i16 },
            0xCB80 => Instruction { opcode, mnemonic: "RES 0,B", size: 2, cycles: 8i16 },
            0xCB81 => Instruction { opcode, mnemonic: "RES 0,C", size: 2, cycles: 8i16 },
            0xCB82 => Instruction { opcode, mnemonic: "RES 0,D", size: 2, cycles: 8i16 },
            0xCB83 => Instruction { opcode, mnemonic: "RES 0,E", size: 2, cycles: 8i16 },
            0xCB84 => Instruction { opcode, mnemonic: "RES 0,H", size: 2, cycles: 8i16 },
            0xCB85 => Instruction { opcode, mnemonic: "RES 0,L", size: 2, cycles: 8i16 },
            0xCB86 => Instruction { opcode, mnemonic: "RES 0,(HL)", size: 2, cycles: 16i16 },
            0xCB87 => Instruction { opcode, mnemonic: "RES 0,A", size: 2, cycles: 8i16 },
            0xCB88 => Instruction { opcode, mnemonic: "RES 1,B", size: 2, cycles: 8i16 },
            0xCB89 => Instruction { opcode, mnemonic: "RES 1,C", size: 2, cycles: 8i16 },
            0xCB8A => Instruction { opcode, mnemonic: "RES 1,D", size: 2, cycles: 8i16 },
            0xCB8B => Instruction { opcode, mnemonic: "RES 1,E", size: 2, cycles: 8i16 },
            0xCB8C => Instruction { opcode, mnemonic: "RES 1,H", size: 2, cycles: 8i16 },
            0xCB8D => Instruction { opcode, mnemonic: "RES 1,L", size: 2, cycles: 8i16 },
            0xCB8E => Instruction { opcode, mnemonic: "RES 1,(HL)", size: 2, cycles: 16i16 },
            0xCB8F => Instruction { opcode, mnemonic: "RES 1,A", size: 2, cycles: 8i16 },
            0xCB90 => Instruction { opcode, mnemonic: "RES 2,B", size: 2, cycles: 8i16 },
            0xCB91 => Instruction { opcode, mnemonic: "RES 2,C", size: 2, cycles: 8i16 },
            0xCB92 => Instruction { opcode, mnemonic: "RES 2,D", size: 2, cycles: 8i16 },
            0xCB93 => Instruction { opcode, mnemonic: "RES 2,E", size: 2, cycles: 8i16 },
            0xCB94 => Instruction { opcode, mnemonic: "RES 2,H", size: 2, cycles: 8i16 },
            0xCB95 => Instruction { opcode, mnemonic: "RES 2,L", size: 2, cycles: 8i16 },
            0xCB96 => Instruction { opcode, mnemonic: "RES 2,(HL)", size: 2, cycles: 16i16 },
            0xCB97 => Instruction { opcode, mnemonic: "RES 2,A", size: 2, cycles: 8i16 },
            0xCB98 => Instruction { opcode, mnemonic: "RES 3,B", size: 2, cycles: 8i16 },
            0xCB99 => Instruction { opcode, mnemonic: "RES 3,C", size: 2, cycles: 8i16 },
            0xCB9A => Instruction { opcode, mnemonic: "RES 3,D", size: 2, cycles: 8i16 },
            0xCB9B => Instruction { opcode, mnemonic: "RES 3,E", size: 2, cycles: 8i16 },
            0xCB9C => Instruction { opcode, mnemonic: "RES 3,H", size: 2, cycles: 8i16 },
            0xCB9D => Instruction { opcode, mnemonic: "RES 3,L", size: 2, cycles: 8i16 },
            0xCB9E => Instruction { opcode, mnemonic: "RES 3,(HL)", size: 2, cycles: 16i16 },
            0xCB9F => Instruction { opcode, mnemonic: "RES 3,A", size: 2, cycles: 8i16 },
            0xCBA0 => Instruction { opcode, mnemonic: "RES 4,B", size: 2, cycles: 8i16 },
            0xCBA1 => Instruction { opcode, mnemonic: "RES 4,C", size: 2, cycles: 8i16 },
            0xCBA2 => Instruction { opcode, mnemonic: "RES 4,D", size: 2, cycles: 8i16 },
            0xCBA3 => Instruction { opcode, mnemonic: "RES 4,E", size: 2, cycles: 8i16 },
            0xCBA4 => Instruction { opcode, mnemonic: "RES 4,H", size: 2, cycles: 8i16 },
            0xCBA5 => Instruction { opcode, mnemonic: "RES 4,L", size: 2, cycles: 8i16 },
            0xCBA6 => Instruction { opcode, mnemonic: "RES 4,(HL)", size: 2, cycles: 16i16 },
            0xCBA7 => Instruction { opcode, mnemonic: "RES 4,A", size: 2, cycles: 8i16 },
            0xCBA8 => Instruction { opcode, mnemonic: "RES 5,B", size: 2, cycles: 8i16 },
            0xCBA9 => Instruction { opcode, mnemonic: "RES 5,C", size: 2, cycles: 8i16 },
            0xCBAA => Instruction { opcode, mnemonic: "RES 5,D", size: 2, cycles: 8i16 },
            0xCBAB => Instruction { opcode, mnemonic: "RES 5,E", size: 2, cycles: 8i16 },
            0xCBAC => Instruction { opcode, mnemonic: "RES 5,H", size: 2, cycles: 8i16 },
            0xCBAD => Instruction { opcode, mnemonic: "RES 5,L", size: 2, cycles: 8i16 },
            0xCBAE => Instruction { opcode, mnemonic: "RES 5,(HL)", size: 2, cycles: 16i16 },
            0xCBAF => Instruction { opcode, mnemonic: "RES 5,A", size: 2, cycles: 8i16 },
            0xCBB0 => Instruction { opcode, mnemonic: "RES 6,B", size: 2, cycles: 8i16 },
            0xCBB1 => Instruction { opcode, mnemonic: "RES 6,C", size: 2, cycles: 8i16 },
            0xCBB2 => Instruction { opcode, mnemonic: "RES 6,D", size: 2, cycles: 8i16 },
            0xCBB3 => Instruction { opcode, mnemonic: "RES 6,E", size: 2, cycles: 8i16 },
            0xCBB4 => Instruction { opcode, mnemonic: "RES 6,H", size: 2, cycles: 8i16 },
            0xCBB5 => Instruction { opcode, mnemonic: "RES 6,L", size: 2, cycles: 8i16 },
            0xCBB6 => Instruction { opcode, mnemonic: "RES 6,(HL)", size: 2, cycles: 16i16 },
            0xCBB7 => Instruction { opcode, mnemonic: "RES 6,A", size: 2, cycles: 8i16 },
            0xCBB8 => Instruction { opcode, mnemonic: "RES 7,B", size: 2, cycles: 8i16 },
            0xCBB9 => Instruction { opcode, mnemonic: "RES 7,C", size: 2, cycles: 8i16 },
            0xCBBA => Instruction { opcode, mnemonic: "RES 7,D", size: 2, cycles: 8i16 },
            0xCBBB => Instruction { opcode, mnemonic: "RES 7,E", size: 2, cycles: 8i16 },
            0xCBBC => Instruction { opcode, mnemonic: "RES 7,H", size: 2, cycles: 8i16 },
            0xCBBD => Instruction { opcode, mnemonic: "RES 7,L", size: 2, cycles: 8i16 },
            0xCBBE => Instruction { opcode, mnemonic: "RES 7,(HL)", size: 2, cycles: 16i16 },
            0xCBBF => Instruction { opcode, mnemonic: "RES 7,A", size: 2, cycles: 8i16 },
            0xCBC0 => Instruction { opcode, mnemonic: "SET 0,B", size: 2, cycles: 8i16 },
            0xCBC1 => Instruction { opcode, mnemonic: "SET 0,C", size: 2, cycles: 8i16 },
            0xCBC2 => Instruction { opcode, mnemonic: "SET 0,D", size: 2, cycles: 8i16 },
            0xCBC3 => Instruction { opcode, mnemonic: "SET 0,E", size: 2, cycles: 8i16 },
            0xCBC4 => Instruction { opcode, mnemonic: "SET 0,H", size: 2, cycles: 8i16 },
            0xCBC5 => Instruction { opcode, mnemonic: "SET 0,L", size: 2, cycles: 8i16 },
            0xCBC6 => Instruction { opcode, mnemonic: "SET 0,(HL)", size: 2, cycles: 16i16 },
            0xCBC7 => Instruction { opcode, mnemonic: "SET 0,A", size: 2, cycles: 8i16 },
            0xCBC8 => Instruction { opcode, mnemonic: "SET 1,B", size: 2, cycles: 8i16 },
            0xCBC9 => Instruction { opcode, mnemonic: "SET 1,C", size: 2, cycles: 8i16 },
            0xCBCA => Instruction { opcode, mnemonic: "SET 1,D", size: 2, cycles: 8i16 },
            0xCBCB => Instruction { opcode, mnemonic: "SET 1,E", size: 2, cycles: 8i16 },
            0xCBCC => Instruction { opcode, mnemonic: "SET 1,H", size: 2, cycles: 8i16 },
            0xCBCD => Instruction { opcode, mnemonic: "SET 1,L", size: 2, cycles: 8i16 },
            0xCBCE => Instruction { opcode, mnemonic: "SET 1,(HL)", size: 2, cycles: 16i16 },
            0xCBCF => Instruction { opcode, mnemonic: "SET 1,A", size: 2, cycles: 8i16 },
            0xCBD0 => Instruction { opcode, mnemonic: "SET 2,B", size: 2, cycles: 8i16 },
            0xCBD1 => Instruction { opcode, mnemonic: "SET 2,C", size: 2, cycles: 8i16 },
            0xCBD2 => Instruction { opcode, mnemonic: "SET 2,D", size: 2, cycles: 8i16 },
            0xCBD3 => Instruction { opcode, mnemonic: "SET 2,E", size: 2, cycles: 8i16 },
            0xCBD4 => Instruction { opcode, mnemonic: "SET 2,H", size: 2, cycles: 8i16 },
            0xCBD5 => Instruction { opcode, mnemonic: "SET 2,L", size: 2, cycles: 8i16 },
            0xCBD6 => Instruction { opcode, mnemonic: "SET 2,(HL)", size: 2, cycles: 16i16 },
            0xCBD7 => Instruction { opcode, mnemonic: "SET 2,A", size: 2, cycles: 8i16 },
            0xCBD8 => Instruction { opcode, mnemonic: "SET 3,B", size: 2, cycles: 8i16 },
            0xCBD9 => Instruction { opcode, mnemonic: "SET 3,C", size: 2, cycles: 8i16 },
            0xCBDA => Instruction { opcode, mnemonic: "SET 3,D", size: 2, cycles: 8i16 },
            0xCBDB => Instruction { opcode, mnemonic: "SET 3,E", size: 2, cycles: 8i16 },
            0xCBDC => Instruction { opcode, mnemonic: "SET 3,H", size: 2, cycles: 8i16 },
            0xCBDD => Instruction { opcode, mnemonic: "SET 3,L", size: 2, cycles: 8i16 },
            0xCBDE => Instruction { opcode, mnemonic: "SET 3,(HL)", size: 2, cycles: 16i16 },
            0xCBDF => Instruction { opcode, mnemonic: "SET 3,A", size: 2, cycles: 8i16 },
            0xCBE0 => Instruction { opcode, mnemonic: "SET 4,B", size: 2, cycles: 8i16 },
            0xCBE1 => Instruction { opcode, mnemonic: "SET 4,C", size: 2, cycles: 8i16 },
            0xCBE2 => Instruction { opcode, mnemonic: "SET 4,D", size: 2, cycles: 8i16 },
            0xCBE3 => Instruction { opcode, mnemonic: "SET 4,E", size: 2, cycles: 8i16 },
            0xCBE4 => Instruction { opcode, mnemonic: "SET 4,H", size: 2, cycles: 8i16 },
            0xCBE5 => Instruction { opcode, mnemonic: "SET 4,L", size: 2, cycles: 8i16 },
            0xCBE6 => Instruction { opcode, mnemonic: "SET 4,(HL)", size: 2, cycles: 16i16 },
            0xCBE7 => Instruction { opcode, mnemonic: "SET 4,A", size: 2, cycles: 8i16 },
            0xCBE8 => Instruction { opcode, mnemonic: "SET 5,B", size: 2, cycles: 8i16 },
            0xCBE9 => Instruction { opcode, mnemonic: "SET 5,C", size: 2, cycles: 8i16 },
            0xCBEA => Instruction { opcode, mnemonic: "SET 5,D", size: 2, cycles: 8i16 },
            0xCBEB => Instruction { opcode, mnemonic: "SET 5,E", size: 2, cycles: 8i16 },
            0xCBEC => Instruction { opcode, mnemonic: "SET 5,H", size: 2, cycles: 8i16 },
            0xCBED => Instruction { opcode, mnemonic: "SET 5,L", size: 2, cycles: 8i16 },
            0xCBEE => Instruction { opcode, mnemonic: "SET 5,(HL)", size: 2, cycles: 16i16 },
            0xCBEF => Instruction { opcode, mnemonic: "SET 5,A", size: 2, cycles: 8i16 },
            0xCBF0 => Instruction { opcode, mnemonic: "SET 6,B", size: 2, cycles: 8i16 },
            0xCBF1 => Instruction { opcode, mnemonic: "SET 6,C", size: 2, cycles: 8i16 },
            0xCBF2 => Instruction { opcode, mnemonic: "SET 6,D", size: 2, cycles: 8i16 },
            0xCBF3 => Instruction { opcode, mnemonic: "SET 6,E", size: 2, cycles: 8i16 },
            0xCBF4 => Instruction { opcode, mnemonic: "SET 6,H", size: 2, cycles: 8i16 },
            0xCBF5 => Instruction { opcode, mnemonic: "SET 6,L", size: 2, cycles: 8i16 },
            0xCBF6 => Instruction { opcode, mnemonic: "SET 6,(HL)", size: 2, cycles: 16i16 },
            0xCBF7 => Instruction { opcode, mnemonic: "SET 6,A", size: 2, cycles: 8i16 },
            0xCBF8 => Instruction { opcode, mnemonic: "SET 7,B", size: 2, cycles: 8i16 },
            0xCBF9 => Instruction { opcode, mnemonic: "SET 7,C", size: 2, cycles: 8i16 },
            0xCBFA => Instruction { opcode, mnemonic: "SET 7,D", size: 2, cycles: 8i16 },
            0xCBFB => Instruction { opcode, mnemonic: "SET 7,E", size: 2, cycles: 8i16 },
            0xCBFC => Instruction { opcode, mnemonic: "SET 7,H", size: 2, cycles: 8i16 },
            0xCBFD => Instruction { opcode, mnemonic: "SET 7,L", size: 2, cycles: 8i16 },
            0xCBFE => Instruction { opcode, mnemonic: "SET 7,(HL)", size: 2, cycles: 16i16 },
            0xCBFF => Instruction { opcode, mnemonic: "SET 7,A", size: 2, cycles: 8i16 },
            _ => Instruction { opcode, mnemonic: "Unimplemented", size: 1, cycles: -1 },
        }
    }

    /// What an opcode does.
    pub fn operation_of(opcode: u16) -> (r: Op)
        ensures
            r == operation(opcode),
    {
        if opcode < 0x100 {
            base_operation_of(opcode as u8)
        } else if 0xCB00 <= opcode && opcode <= 0xCBFF {
            cb_operation_of((opcode - 0xCB00) as u8)
        } else {
            Op::Invalid
        }
    }
}

} // verus!
