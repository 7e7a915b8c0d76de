use vstd::prelude::*;
use crate::alu;
use crate::alu::{signed_value, logic_flags, shift_flags, increment_8_spec, decrement_8_spec,
    add_16_spec, subtract_16_spec, add_8_spec, adc_8_spec, subtract_8_spec, sbc_8_spec,
    rotate_left_circular_spec, rotate_right_circular_spec, rotate_left_spec, rotate_right_spec,
    shift_right_spec, daa_spec};
use crate::cpu::Cpu;
use crate::cpu_registers::{CpuRegIndex, CpuRegisters, Flags, flags_byte, flags_of};
use crate::mmu::{Caller, Endianness, Mmu, MmuView, is_plain_ram};
use crate::register::{bit_set, with_bit};

verus! {

/// Operand locations: immediates, registers and memory addressed by them.
#[derive(Clone, Copy, PartialEq, Eq, Structural, Debug)]
pub enum Src {
    D8, D16,
    A8, A16,
    A, B, C, D, E, F, H, L,
    AF, BC, DE, HL, PC, SP,
    /// (0xFF00 + C)
    Ca,
    AFa, BCa, DEa, HLa,
}

/// Branch conditions.
#[derive(Clone, Copy, PartialEq, Eq, Structural, Debug)]
pub enum Cond {
    Always,
    NZ,
    Z,
    NC,
    C,
}

/// What an opcode does, as a description over its operands.
#[derive(Clone, Copy, PartialEq, Eq, Structural, Debug)]
pub enum Op {
    /// NOP, STOP
    Nop,
    /// Invalid and unimplemented opcodes.
    Invalid,
    Ld8(Src, Src),
    Ld16(Src, Src),
    /// LDI/LDD: an 8-bit load followed by HL incremented (true) or decremented.
    LdHl(Src, Src, bool),
    Inc8(Src),
    Dec8(Src),
    Inc16(Src),
    Dec16(Src),
    AddHl(Src),
    Add8(Src, Src),
    Adc8(Src, Src),
    Sub8(Src, Src),
    Sbc8(Src, Src),
    And(Src),
    Xor(Src),
    Or(Src),
    Cp(Src),
    /// RLC/RRC (is_left, reset_zero)
    RotateCircular(Src, bool, bool),
    /// RL/RR (is_left, reset_zero)
    Rotate(Src, bool, bool),
    /// SLA/SRA/SRL (is_left, is_arithmetic)
    Shift(Src, bool, bool),
    Swap(Src),
    Bit(Src, u8),
    SetBit(Src, u8, bool),
    Jr(Cond),
    Jp(Cond),
    JpHl,
    Call(Cond),
    Ret(Cond),
    Reti,
    Rst(u16),
    Push(CpuRegIndex),
    Pop(CpuRegIndex),
    PopAf,
    Daa,
    Cpl,
    Scf,
    Ccf,
    Halt,
    Di,
    Ei,
    AddSpR8,
    LdHlSpR8,
}

/// An entry of the instruction table.
#[derive(Clone, Copy, Debug)]
pub struct Instruction {
    pub opcode: u16,
    pub mnemonic: &'static str,
    pub size: u16,
    pub cycles: i16,
}

/// The machine state an instruction acts on.
pub type State = (Cpu, MmuView);

pub open spec fn regs(cpu: Cpu) -> CpuRegisters {
    cpu.registers
}

pub open spec fn with_regs(cpu: Cpu, r: CpuRegisters) -> Cpu {
    Cpu { registers: r, ..cpu }
}

pub open spec fn flags_spec(cpu: Cpu) -> Flags {
    flags_of(cpu.registers.f)
}

pub open spec fn with_flags(cpu: Cpu, f: Flags) -> Cpu {
    with_regs(cpu, CpuRegisters { f: flags_byte(f), ..cpu.registers })
}

/// The 16-bit immediate: the first argument byte is the low byte.
pub open spec fn d16(args: Seq<u8>) -> u16 {
    (args[1] * 256 + args[0]) as u16
}

/// The register an operand names, when it names one.
pub open spec fn reg_of(s: Src) -> CpuRegIndex {
    match s {
        Src::A => CpuRegIndex::A,
        Src::B => CpuRegIndex::B,
        Src::C => CpuRegIndex::C,
        Src::D => CpuRegIndex::D,
        Src::E => CpuRegIndex::E,
        Src::F => CpuRegIndex::F,
        Src::H => CpuRegIndex::H,
        Src::L => CpuRegIndex::L,
        Src::AF | Src::AFa => CpuRegIndex::AF,
        Src::BC | Src::BCa => CpuRegIndex::BC,
        Src::DE | Src::DEa => CpuRegIndex::DE,
        Src::HL | Src::HLa => CpuRegIndex::HL,
        Src::PC => CpuRegIndex::PC,
        _ => CpuRegIndex::SP,
    }
}

pub open spec fn is_reg8(s: Src) -> bool {
    match s {
        Src::A | Src::B | Src::C | Src::D | Src::E | Src::F | Src::H | Src::L => true,
        _ => false,
    }
}

pub open spec fn is_reg16(s: Src) -> bool {
    match s {
        Src::AF | Src::BC | Src::DE | Src::HL | Src::PC | Src::SP => true,
        _ => false,
    }
}

/// The memory operands of 8-bit instructions.
pub open spec fn is_mem8(s: Src) -> bool {
    match s {
        Src::A8 | Src::A16 | Src::Ca | Src::AFa | Src::BCa | Src::DEa | Src::HLa => true,
        _ => false,
    }
}

/// How many argument bytes an operand consumes.
pub open spec fn needs_args(s: Src) -> nat {
    match s {
        Src::D8 | Src::A8 => 1,
        Src::D16 | Src::A16 => 2,
        _ => 0,
    }
}

/// The address a memory operand names.
pub open spec fn mem_address(cpu: Cpu, args: Seq<u8>, s: Src) -> u16 {
    match s {
        Src::A8 => (0xFF00 + args[0]) as u16,
        Src::A16 => d16(args),
        Src::Ca => (0xFF00 + cpu.registers.c) as u16,
        _ => cpu.registers.word(reg_of(s)),
    }
}

/// Whether an operand can be read as a byte.
pub open spec fn src8_ok(cpu: Cpu, mmu: MmuView, args: Seq<u8>, s: Src) -> bool {
    &&& (is_reg8(s) || is_mem8(s) || s == Src::D8)
    &&& args.len() >= needs_args(s)
    &&& is_mem8(s) ==> mmu.read_8_ok(mem_address(cpu, args, s))
}

/// The byte an operand holds.
pub open spec fn src8(cpu: Cpu, mmu: MmuView, args: Seq<u8>, s: Src) -> u8 {
    if s == Src::D8 {
        args[0]
    } else if is_reg8(s) {
        cpu.registers.byte(reg_of(s))
    } else {
        mmu.read_8(mem_address(cpu, args, s), Caller::CPU)
    }
}

/// Whether a byte can be stored to an operand.
pub open spec fn tgt8_ok(cpu: Cpu, mmu: MmuView, args: Seq<u8>, t: Src) -> bool {
    &&& (is_reg8(t) || is_mem8(t))
    &&& args.len() >= needs_args(t)
    &&& is_mem8(t) ==> mmu.write_8_ok(mem_address(cpu, args, t))
}

/// The state after storing a byte to an operand.
pub open spec fn set8(cpu: Cpu, mmu: MmuView, args: Seq<u8>, t: Src, v: u8) -> State {
    if is_reg8(t) {
        (with_regs(cpu, cpu.registers.with_byte(reg_of(t), v)), mmu)
    } else {
        (cpu, mmu.write_8(mem_address(cpu, args, t), v, Caller::CPU))
    }
}

pub open spec fn src16_ok(args: Seq<u8>, s: Src) -> bool {
    is_reg16(s) || (s == Src::D16 && args.len() >= 2)
}

pub open spec fn src16(cpu: Cpu, args: Seq<u8>, s: Src) -> u16 {
    if s == Src::D16 { d16(args) } else { cpu.registers.word(reg_of(s)) }
}

pub open spec fn tgt16_ok(cpu: Cpu, mmu: MmuView, args: Seq<u8>, t: Src, v: u16) -> bool {
    is_reg16(t) || (t == Src::A16 && args.len() >= 2
        && mmu.write_16_ok(d16(args), v, Endianness::BIG, Caller::CPU))
}

pub open spec fn set16(cpu: Cpu, mmu: MmuView, args: Seq<u8>, t: Src, v: u16) -> State {
    if is_reg16(t) {
        (with_regs(cpu, cpu.registers.with_word(reg_of(t), v)), mmu)
    } else {
        (cpu, mmu.write_16(d16(args), v, Endianness::BIG, Caller::CPU))
    }
}

/// Whether a branch condition holds for the flags.
pub open spec fn cond_holds(c: Cond, f: Flags) -> bool {
    match c {
        Cond::Always => true,
        Cond::NZ => !f.zero,
        Cond::Z => f.zero,
        Cond::NC => !f.carry,
        Cond::C => f.carry,
    }
}

/// The stack pointer two below, wrapping.
pub open spec fn sp_minus_2(cpu: Cpu) -> u16 {
    ((cpu.registers.sp - 2 + 65536) % 65536) as u16
}

/// PUSH: SP decreased by 2, then the register stored at SP, low byte first.
pub open spec fn push_spec(cpu: Cpu, mmu: MmuView, r: CpuRegIndex) -> State {
    let regs1 = cpu.registers.decremented(CpuRegIndex::SP, 2);
    (with_regs(cpu, regs1), mmu.write_16(regs1.sp, regs1.word(r), Endianness::BIG, Caller::CPU))
}

pub open spec fn push_ok(cpu: Cpu, mmu: MmuView, r: CpuRegIndex) -> bool {
    let regs1 = cpu.registers.decremented(CpuRegIndex::SP, 2);
    is_word_reg_idx(r) && mmu.write_16_ok(regs1.sp, regs1.word(r), Endianness::BIG, Caller::CPU)
}

pub open spec fn is_word_reg_idx(r: CpuRegIndex) -> bool {
    crate::cpu_registers::is_word_reg(r)
}

/// POP: the word at SP loaded into the register, then SP increased by 2.
pub open spec fn pop_spec(cpu: Cpu, mmu: MmuView, r: CpuRegIndex) -> Cpu {
    let v = mmu.read_16(cpu.registers.sp, Endianness::BIG, Caller::CPU);
    with_regs(cpu, cpu.registers.with_word(r, v).incremented(CpuRegIndex::SP, 2))
}

pub open spec fn pop_ok(cpu: Cpu, mmu: MmuView, r: CpuRegIndex) -> bool {
    is_word_reg_idx(r) && mmu.read_16_ok(cpu.registers.sp)
}

/// CALL: the return address pushed, then PC set to the target.
pub open spec fn call_spec(cpu: Cpu, mmu: MmuView, address: u16) -> State {
    let (c1, m1) = push_spec(cpu, mmu, CpuRegIndex::PC);
    (with_regs(c1, c1.registers.with_word(CpuRegIndex::PC, address)), m1)
}

pub open spec fn call_ok(cpu: Cpu, mmu: MmuView) -> bool {
    push_ok(cpu, mmu, CpuRegIndex::PC)
}

/// PC moved by a signed byte offset, wrapping.
pub open spec fn relative_target(cpu: Cpu, d8: u8) -> u16 {
    ((cpu.registers.pc + signed_value(d8) + 65536) % 65536) as u16
}

/// ADD SP,r8: SP moved by a signed byte; zero and subtract are cleared, half
/// carry and carry come from the low nibble and the low byte.
pub open spec fn add_sp_spec(sp: u16, d8: u8) -> (u16, Flags) {
    let s = signed_value(d8);
    if s < 0 {
        let b = -s;
        let r = (sp - b + 65536) % 65536;
        (r as u16, Flags { zero: false, subtract: false, half_carry: sp % 16 < b % 16, carry: sp - b < 0 })
    } else {
        let r = (sp + s) % 65536;
        (r as u16, Flags { zero: false, subtract: false, half_carry: sp % 16 + s % 16 > 15, carry: sp + s > 255 })
    }
}

/// LD HL,SP+r8: the 16-bit sum or difference, with zero and subtract cleared.
pub open spec fn ld_hl_sp_spec(sp: u16, d8: u8) -> (u16, Flags) {
    let s = signed_value(d8);
    let (r, f) = if s < 0 { subtract_16_spec(sp, (-s) as u16) } else { add_16_spec(sp, s as u16) };
    (r, Flags { zero: false, subtract: false, ..f })
}

/// A byte stored to an operand, then the flags set.
pub open spec fn store_with_flags(cpu: Cpu, mmu: MmuView, args: Seq<u8>, t: Src, rf: (u8, Flags)) -> State {
    let (c1, m1) = set8(cpu, mmu, args, t, rf.0);
    (with_flags(c1, rf.1), m1)
}

/// AND/OR/XOR: the result into A, with flags that report only a zero result.
pub open spec fn logic_state(cpu: Cpu, r: u8, half_carry: bool) -> Cpu {
    with_flags(with_regs(cpu, cpu.registers.with_byte(CpuRegIndex::A, r)), logic_flags(r as int, half_carry))
}

/// BIT: zero set when the bit is clear, subtract cleared, half carry set, carry kept.
pub open spec fn bit_state(cpu: Cpu, v: u8, n: u8) -> Cpu {
    let f = flags_spec(cpu);
    with_flags(cpu, Flags { zero: !bit_set(v, n), subtract: false, half_carry: true, carry: f.carry })
}

/// SWAP: the two nibbles exchanged; only the zero flag can be set.
pub open spec fn swap_spec(v: u8) -> (u8, Flags) {
    let r = ((v % 16) * 16 + v / 16) as u8;
    (r, logic_flags(r as int, false))
}

/// ADD HL,r16: the 16-bit sum into HL, the zero flag kept.
pub open spec fn add_hl_state(cpu: Cpu, args: Seq<u8>, s: Src) -> Cpu {
    let (r, f) = add_16_spec(cpu.registers.word(CpuRegIndex::HL), src16(cpu, args, s));
    let c1 = with_regs(cpu, cpu.registers.with_word(CpuRegIndex::HL, r));
    with_flags(c1, Flags { zero: flags_spec(cpu).zero, ..f })
}

/// The flags of a rotation of A (RLCA, RRCA, RLA, RRA), which always clear zero.
pub open spec fn rotation_flags(fl: Flags, reset_zero: bool) -> Flags {
    if reset_zero { Flags { zero: false, ..fl } } else { fl }
}

/// RLC/RRC on an operand.
pub open spec fn rotate_circular_state(cpu: Cpu, mmu: MmuView, args: Seq<u8>, t: Src, is_left: bool,
    reset_zero: bool) -> State {
    let v = src8(cpu, mmu, args, t);
    let (r, f) = if is_left { rotate_left_circular_spec(v) } else { rotate_right_circular_spec(v) };
    store_with_flags(cpu, mmu, args, t, (r, rotation_flags(f, reset_zero)))
}

/// RL/RR through the carry on an operand.
pub open spec fn rotate_state(cpu: Cpu, mmu: MmuView, args: Seq<u8>, t: Src, is_left: bool,
    reset_zero: bool) -> State {
    let v = src8(cpu, mmu, args, t);
    let c = flags_spec(cpu).carry;
    let (r, f) = if is_left { rotate_left_spec(v, c) } else { rotate_right_spec(v, c) };
    store_with_flags(cpu, mmu, args, t, (r, rotation_flags(f, reset_zero)))
}

/// SLA/SRA/SRL on an operand.
pub open spec fn shift_state(cpu: Cpu, mmu: MmuView, args: Seq<u8>, t: Src, is_left: bool,
    is_arithmetic: bool) -> State {
    let v = src8(cpu, mmu, args, t);
    let rf = if is_left {
        (((v as int * 2) % 256) as u8, shift_flags((v as int * 2) % 256, v >= 0x80))
    } else {
        shift_right_spec(v, is_arithmetic)
    };
    store_with_flags(cpu, mmu, args, t, rf)
}

/// Whether a read-modify-write of an operand can be carried out.
pub open spec fn rmw8_ok(cpu: Cpu, mmu: MmuView, args: Seq<u8>, t: Src) -> bool {
    src8_ok(cpu, mmu, args, t) && tgt8_ok(cpu, mmu, args, t)
}

/// Whether a two-operand ALU operation can read both operands and write the first.
pub open spec fn alu8_ok(cpu: Cpu, mmu: MmuView, args: Seq<u8>, t: Src, s: Src) -> bool {
    src8_ok(cpu, mmu, args, t) && src8_ok(cpu, mmu, args, s) && tgt8_ok(cpu, mmu, args, t)
}

pub open spec fn ld16_ok(cpu: Cpu, mmu: MmuView, args: Seq<u8>, t: Src, s: Src) -> bool {
    src16_ok(args, s) && tgt16_ok(cpu, mmu, args, t, src16(cpu, args, s))
}

pub open spec fn call_cond_ok(c: Cond, cpu: Cpu, mmu: MmuView, args: Seq<u8>) -> bool {
    args.len() >= 2 && (cond_holds(c, flags_spec(cpu)) ==> call_ok(cpu, mmu))
}

pub open spec fn ret_cond_ok(c: Cond, cpu: Cpu, mmu: MmuView) -> bool {
    cond_holds(c, flags_spec(cpu)) ==> pop_ok(cpu, mmu, CpuRegIndex::PC)
}

/// Whether an operation can be carried out on the state (it would not fault).
#[verifier::opaque]
pub open spec fn op_ok(op: Op, cpu: Cpu, mmu: MmuView, args: Seq<u8>) -> bool {
    match op {
        Op::Nop | Op::Invalid | Op::Daa | Op::Cpl | Op::Scf | Op::Ccf | Op::Halt | Op::Di
            | Op::Ei | Op::JpHl => true,
        Op::Ld8(t, s) | Op::LdHl(t, s, _) => src8_ok(cpu, mmu, args, s) && tgt8_ok(cpu, mmu, args, t),
        Op::Ld16(t, s) => ld16_ok(cpu, mmu, args, t, s),
        Op::Inc8(t) | Op::Dec8(t) | Op::RotateCircular(t, _, _) | Op::Rotate(t, _, _)
            | Op::Shift(t, _, _) | Op::Swap(t) => rmw8_ok(cpu, mmu, args, t),
        Op::SetBit(t, n, _) => rmw8_ok(cpu, mmu, args, t) && n < 8,
        Op::Add8(t, s) | Op::Adc8(t, s) | Op::Sub8(t, s) | Op::Sbc8(t, s) => alu8_ok(cpu, mmu, args, t, s),
        Op::And(s) | Op::Xor(s) | Op::Or(s) | Op::Cp(s) => src8_ok(cpu, mmu, args, s),
        Op::Bit(s, n) => src8_ok(cpu, mmu, args, s) && n < 8,
        Op::Inc16(t) | Op::Dec16(t) => src16_ok(args, t) && is_reg16(t),
        Op::AddHl(s) => src16_ok(args, s),
        Op::Jr(_) | Op::AddSpR8 | Op::LdHlSpR8 => args.len() >= 1,
        Op::Jp(_) => args.len() >= 2,
        Op::Call(c) => call_cond_ok(c, cpu, mmu, args),
        Op::Ret(c) => ret_cond_ok(c, cpu, mmu),
        Op::Reti => pop_ok(cpu, mmu, CpuRegIndex::PC),
        Op::Rst(_) => call_ok(cpu, mmu),
        Op::Push(r) => push_ok(cpu, mmu, r),
        Op::Pop(r) => pop_ok(cpu, mmu, r),
        Op::PopAf => pop_ok(cpu, mmu, CpuRegIndex::AF),
    }
}

/// LDI/LDD: the load, then HL moved by one.
pub open spec fn ld_hl_state(cpu: Cpu, mmu: MmuView, args: Seq<u8>, t: Src, s: Src, inc: bool) -> State {
    let (c1, m1) = set8(cpu, mmu, args, t, src8(cpu, mmu, args, s));
    let r = if inc { c1.registers.incremented(CpuRegIndex::HL, 1) } else {
        c1.registers.decremented(CpuRegIndex::HL, 1)
    };
    (with_regs(c1, r), m1)
}

pub open spec fn dec16_value(v: u16) -> u16 {
    if v >= 1 { (v - 1) as u16 } else { 65535 }
}

/// JR: PC moved by the signed offset when the condition holds; a conditional
/// jump taken costs 4 more cycles.
pub open spec fn jr_result(c: Cond, cycles: i16, cpu: Cpu, mmu: MmuView, args: Seq<u8>) -> (i16, Cpu, MmuView) {
    let jumped = with_regs(cpu, cpu.registers.with_word(CpuRegIndex::PC, relative_target(cpu, args[0])));
    if c == Cond::Always {
        (cycles, jumped, mmu)
    } else if cond_holds(c, flags_spec(cpu)) {
        ((cycles + 4) as i16, jumped, mmu)
    } else {
        (cycles, cpu, mmu)
    }
}

/// JP: PC set to the 16-bit immediate when the condition holds; a conditional jump taken costs 4 more cycles.
pub open spec fn jp_result(c: Cond, cycles: i16, cpu: Cpu, mmu: MmuView, args: Seq<u8>) -> (i16, Cpu, MmuView) {
    let jumped = with_regs(cpu, cpu.registers.with_word(CpuRegIndex::PC, d16(args)));
    if c == Cond::Always {
        (cycles, jumped, mmu)
    } else if cond_holds(c, flags_spec(cpu)) {
        ((cycles + 4) as i16, jumped, mmu)
    } else {
        (cycles, cpu, mmu)
    }
}

/// CALL: a call of the 16-bit immediate when the condition holds; a conditional call taken costs 12 more cycles.
pub open spec fn call_result(c: Cond, cycles: i16, cpu: Cpu, mmu: MmuView, args: Seq<u8>) -> (i16, Cpu, MmuView) {
    if c == Cond::Always {
        with_cycles(cycles, call_spec(cpu, mmu, d16(args)))
    } else if cond_holds(c, flags_spec(cpu)) {
        with_cycles((cycles + 12) as i16, call_spec(cpu, mmu, d16(args)))
    } else {
        (cycles, cpu, mmu)
    }
}

/// RET: PC popped when the condition holds; a conditional return taken costs 12 more cycles.
pub open spec fn ret_result(c: Cond, cycles: i16, cpu: Cpu, mmu: MmuView) -> (i16, Cpu, MmuView) {
    if c == Cond::Always {
        (cycles, pop_spec(cpu, mmu, CpuRegIndex::PC), mmu)
    } else if cond_holds(c, flags_spec(cpu)) {
        ((cycles + 12) as i16, pop_spec(cpu, mmu, CpuRegIndex::PC), mmu)
    } else {
        (cycles, cpu, mmu)
    }
}

pub open spec fn with_ime(cpu: Cpu, ime: bool) -> Cpu {
    Cpu { interrupts: crate::interrupts::Interrupts { ime, ..cpu.interrupts }, ..cpu }
}

/// POP AF: the word popped, with the low nibble of F cleared.
pub open spec fn pop_af_state(cpu: Cpu, mmu: MmuView) -> Cpu {
    let c1 = pop_spec(cpu, mmu, CpuRegIndex::AF);
    with_regs(c1, c1.registers.with_byte(CpuRegIndex::F, c1.registers.f & 0xF0))
}

pub open spec fn daa_state(cpu: Cpu) -> Cpu {
    let (r, f) = daa_spec(cpu.registers.a, flags_spec(cpu));
    with_flags(with_regs(cpu, cpu.registers.with_byte(CpuRegIndex::A, r)), f)
}

/// CPL: A complemented, subtract and half carry set.
pub open spec fn cpl_state(cpu: Cpu) -> Cpu {
    let f = flags_spec(cpu);
    with_flags(with_regs(cpu, cpu.registers.with_byte(CpuRegIndex::A, !cpu.registers.a)),
        Flags { zero: f.zero, subtract: true, half_carry: true, carry: f.carry })
}

/// SCF sets the carry, CCF complements it; both clear subtract and half carry.
pub open spec fn carry_flag_state(cpu: Cpu, complement: bool) -> Cpu {
    let f = flags_spec(cpu);
    with_flags(cpu, Flags { zero: f.zero, subtract: false, half_carry: false, carry: if complement { !f.carry } else { true } })
}

pub open spec fn add_sp_state(cpu: Cpu, args: Seq<u8>) -> Cpu {
    let (r, f) = add_sp_spec(cpu.registers.sp, args[0]);
    with_flags(with_regs(cpu, cpu.registers.with_word(CpuRegIndex::SP, r)), f)
}

pub open spec fn ld_hl_sp_state(cpu: Cpu, args: Seq<u8>) -> Cpu {
    let (r, f) = ld_hl_sp_spec(cpu.registers.sp, args[0]);
    with_flags(with_regs(cpu, cpu.registers.with_word(CpuRegIndex::HL, r)), f)
}

/// The cycles reported with a state.
pub open spec fn with_cycles(cycles: i16, st: State) -> (i16, Cpu, MmuView) {
    (cycles, st.0, st.1)
}

/// What an operation does: the cycles it reports (from the table entry's
/// `cycles`) and the state it leaves.
#[verifier::opaque]
pub open spec fn op_spec(op: Op, cycles: i16, cpu: Cpu, mmu: MmuView, args: Seq<u8>) -> (i16, Cpu, MmuView) {
    match op {
        Op::Nop | Op::Invalid => (cycles, cpu, mmu),
        Op::Ld8(t, s) => with_cycles(cycles, set8(cpu, mmu, args, t, src8(cpu, mmu, args, s))),
        Op::Ld16(t, s) => with_cycles(cycles, set16(cpu, mmu, args, t, src16(cpu, args, s))),
        Op::LdHl(t, s, inc) => with_cycles(cycles, ld_hl_state(cpu, mmu, args, t, s, inc)),
        Op::Inc8(t) => with_cycles(cycles, store_with_flags(cpu, mmu, args, t,
            increment_8_spec(src8(cpu, mmu, args, t), flags_spec(cpu).carry))),
        Op::Dec8(t) => with_cycles(cycles, store_with_flags(cpu, mmu, args, t,
            decrement_8_spec(src8(cpu, mmu, args, t), flags_spec(cpu).carry))),
        Op::Inc16(t) => with_cycles(cycles, set16(cpu, mmu, args, t, ((src16(cpu, args, t) + 1) % 65536) as u16)),
        Op::Dec16(t) => with_cycles(cycles, set16(cpu, mmu, args, t, dec16_value(src16(cpu, args, t)))),
        Op::AddHl(s) => (cycles, add_hl_state(cpu, args, s), mmu),
        Op::Add8(t, s) => with_cycles(cycles, store_with_flags(cpu, mmu, args, t,
            add_8_spec(src8(cpu, mmu, args, t), src8(cpu, mmu, args, s)))),
        Op::Adc8(t, s) => with_cycles(cycles, store_with_flags(cpu, mmu, args, t,
            adc_8_spec(src8(cpu, mmu, args, t), src8(cpu, mmu, args, s), flags_spec(cpu).carry))),
        Op::Sub8(t, s) => with_cycles(cycles, store_with_flags(cpu, mmu, args, t,
            subtract_8_spec(src8(cpu, mmu, args, t), src8(cpu, mmu, args, s)))),
        Op::Sbc8(t, s) => with_cycles(cycles, store_with_flags(cpu, mmu, args, t,
            sbc_8_spec(src8(cpu, mmu, args, t), src8(cpu, mmu, args, s), flags_spec(cpu).carry))),
        Op::And(s) => (cycles, logic_state(cpu, cpu.registers.a & src8(cpu, mmu, args, s), true), mmu),
        Op::Xor(s) => (cycles, logic_state(cpu, cpu.registers.a ^ src8(cpu, mmu, args, s), false), mmu),
        Op::Or(s) => (cycles, logic_state(cpu, cpu.registers.a | src8(cpu, mmu, args, s), false), mmu),
        Op::Cp(s) => (cycles, with_flags(cpu, subtract_8_spec(cpu.registers.a, src8(cpu, mmu, args, s)).1), mmu),
        Op::RotateCircular(t, is_left, reset_zero) =>
            with_cycles(cycles, rotate_circular_state(cpu, mmu, args, t, is_left, reset_zero)),
        Op::Rotate(t, is_left, reset_zero) => with_cycles(cycles, rotate_state(cpu, mmu, args, t, is_left, reset_zero)),
        Op::Shift(t, is_left, is_arithmetic) =>
            with_cycles(cycles, shift_state(cpu, mmu, args, t, is_left, is_arithmetic)),
        Op::Swap(t) => with_cycles(cycles, store_with_flags(cpu, mmu, args, t, swap_spec(src8(cpu, mmu, args, t)))),
        Op::Bit(s, n) => (cycles, bit_state(cpu, src8(cpu, mmu, args, s), n), mmu),
        Op::SetBit(t, n, set) => with_cycles(cycles, set8(cpu, mmu, args, t, with_bit(src8(cpu, mmu, args, t), n, set))),
        Op::Jr(c) => jr_result(c, cycles, cpu, mmu, args),
        Op::Jp(c) => jp_result(c, cycles, cpu, mmu, args),
        Op::JpHl => (cycles, with_regs(cpu, cpu.registers.with_word(CpuRegIndex::PC,
            cpu.registers.word(CpuRegIndex::HL))), mmu),
        Op::Call(c) => call_result(c, cycles, cpu, mmu, args),
        Op::Ret(c) => ret_result(c, cycles, cpu, mmu),
        Op::Reti => (cycles, pop_spec(with_ime(cpu, true), mmu, CpuRegIndex::PC), mmu),
        Op::Rst(address) => with_cycles(cycles, call_spec(cpu, mmu, address)),
        Op::Push(r) => with_cycles(cycles, push_spec(cpu, mmu, r)),
        Op::Pop(r) => (cycles, pop_spec(cpu, mmu, r), mmu),
        Op::PopAf => (cycles, pop_af_state(cpu, mmu), mmu),
        Op::Daa => (cycles, daa_state(cpu), mmu),
        Op::Cpl => (cycles, cpl_state(cpu), mmu),
        Op::Scf => (cycles, carry_flag_state(cpu, false), mmu),
        Op::Ccf => (cycles, carry_flag_state(cpu, true), mmu),
        Op::Halt => (cycles, Cpu { is_halted: true, ..cpu }, mmu),
        Op::Di => (cycles, with_ime(cpu, false), mmu),
        Op::Ei => (cycles, with_ime(cpu, true), mmu),
        Op::AddSpR8 => (cycles, add_sp_state(cpu, args), mmu),
        Op::LdHlSpR8 => (cycles, ld_hl_sp_state(cpu, args), mmu),
    }
}

/// The table entry after an operation: only its cycle count may have grown.
pub open spec fn cycles_reported(old_instr: Instruction, new_instr: Instruction, r: i16) -> bool {
    new_instr == (Instruction { cycles: r, ..old_instr })
}

proof fn lemma_high_page(x: u8)
    ensures
        (0xFF00u16 | x as u16) == (0xFF00 + x) as u16,
{
    crate::bits::lemma_byte_in_word(x);
}

/// A word assembled from its bytes by shifting is `hi * 256 + lo`.
pub proof fn lemma_d16(lo: u8, hi: u8)
    ensures
        (((hi as u16) << 8) | (lo as u16)) == (hi * 256 + lo) as u16,
{
    crate::bits::lemma_byte_pair_bits(hi, lo);
}

/// SWAP twice gives back the byte.
pub proof fn lemma_swap_twice(v: u8)
    ensures
        swap_spec(swap_spec(v).0).0 == v,
{
}

/// POP after PUSH gives back the pushed register and the stack pointer, when
/// the two stack bytes lie in plain RAM.
#[verifier::spinoff_prover]
#[verifier::rlimit(80)]
pub proof fn lemma_push_pop(cpu: Cpu, mmu: MmuView, r: CpuRegIndex)
    requires
        mmu.wf(),
        is_word_reg_idx(r),
        r != CpuRegIndex::SP,
        is_plain_ram(sp_minus_2(cpu)),
        is_plain_ram((sp_minus_2(cpu) + 1) as u16),
    ensures
        ({
            let (c1, m1) = push_spec(cpu, mmu, r);
            let c2 = pop_spec(c1, m1, r);
            &&& c2.registers.word(r) == cpu.registers.word(r)
            &&& c2.registers.sp == cpu.registers.sp
        }),
{
    let regs0 = cpu.registers;
    let sp1 = sp_minus_2(cpu);
    let regs1 = regs0.decremented(CpuRegIndex::SP, 2);
    assert(regs1 == regs0.with_word(CpuRegIndex::SP, sp1));
    crate::cpu_registers::lemma_word_round_trip(regs0, CpuRegIndex::SP, sp1, r);
    let v = regs1.word(r);
    assert(v == regs0.word(r));
    crate::mmu::lemma_write_16_read_16(mmu, sp1, v);
    let m1 = mmu.write_16(sp1, v, Endianness::BIG, Caller::CPU);
    assert(m1.read_16(sp1, Endianness::BIG, Caller::CPU) == v);
    let regs2 = regs1.with_word(r, v);
    crate::cpu_registers::lemma_word_round_trip(regs1, r, v, CpuRegIndex::SP);
    assert(regs2.sp == sp1);
    let regs3 = regs2.incremented(CpuRegIndex::SP, 2);
    assert(regs3 == regs2.with_word(CpuRegIndex::SP, ((sp1 + 2) % 65536) as u16));
    crate::cpu_registers::lemma_word_round_trip(regs2, CpuRegIndex::SP, ((sp1 + 2) % 65536) as u16, r);
    assert(regs3.word(r) == v);
    assert(regs3.sp == regs0.sp);
}

impl Instruction {
    pub open spec fn is_cbprefixed_spec(self) -> bool {
        self.opcode / 256 == 0xCB
    }

    pub fn is_cbprefixed(&self) -> (r: bool)
        ensures
            r == self.is_cbprefixed_spec(),
    {
        let op = self.opcode;
        assert((((op & 0xFF00) >> 8) as u8 == 0xCB) == (op / 256 == 0xCB)) by (bit_vector);
        ((self.opcode & 0xFF00) >> 8) as u8 == crate::cpu::PREFIX_BYTE
    }

    /// Reports that an opcode has no implementation; its cycle count (-1) signals the fault.
    pub(crate) fn unimplemented(&mut self, cpu: &mut Cpu, mmu: &mut Mmu, args: &[u8]) -> (r: i16)
        ensures
            cycles_reported(*old(self), *final(self), r),
            (r, *final(cpu), final(mmu)@) == op_spec(Op::Invalid, old(self).cycles, *old(cpu), old(mmu)@, args@),
    {
        proof {
            reveal(op_spec);
        }
        self.cycles
    }

    /// Reports an invalid opcode; its cycle count (-1) signals the fault.
    pub(crate) fn invalid(&mut self, cpu: &mut Cpu, mmu: &mut Mmu, args: &[u8]) -> (r: i16)
        ensures
            cycles_reported(*old(self), *final(self), r),
            (r, *final(cpu), final(mmu)@) == op_spec(Op::Invalid, old(self).cycles, *old(cpu), old(mmu)@, args@),
    {
        proof {
            reveal(op_spec);
        }
        self.cycles
    }

    /// The address a memory operand names.
    fn operand_address(cpu: &Cpu, args: &[u8], s: Src) -> (r: u16)
        requires
            is_mem8(s),
            args@.len() >= needs_args(s),
        ensures
            r == mem_address(*cpu, args@, s),
    {
        match s {
            Src::A8 => {
                proof { lemma_high_page(args@[0]); }
                0xFF00 | args[0] as u16
            }
            Src::A16 => {
                proof { lemma_d16(args@[0], args@[1]); }
                ((args[1] as u16) << 8) | (args[0] as u16)
            }
            Src::Ca => {
                let c = cpu.registers.get_byte(CpuRegIndex::C);
                proof { lemma_high_page(c); }
                0xFF00 | c as u16
            }
            Src::AFa => cpu.registers.get_word(CpuRegIndex::AF),
            Src::BCa => cpu.registers.get_word(CpuRegIndex::BC),
            Src::DEa => cpu.registers.get_word(CpuRegIndex::DE),
            _ => cpu.registers.get_word(CpuRegIndex::HL),
        }
    }

    /// Whether an operand can be read as a byte.
    fn can_read_operand_8(cpu: &Cpu, mmu: &Mmu, args: &[u8], s: Src) -> (r: bool)
        ensures
            r == src8_ok(*cpu, mmu@, args@, s),
    {
        match s {
            Src::D8 => args.len() >= 1,
            Src::A | Src::B | Src::C | Src::D | Src::E | Src::F | Src::H | Src::L => true,
            Src::A8 | Src::A16 | Src::Ca | Src::AFa | Src::BCa | Src::DEa | Src::HLa => {
                let needed: usize = match s {
                    Src::A8 => 1,
                    Src::A16 => 2,
                    _ => 0,
                };
                if args.len() < needed {
                    false
                } else {
                    let address = Self::operand_address(cpu, args, s);
                    mmu.can_read_8(address)
                }
            }
            _ => false,
        }
    }

    /// Whether a byte can be stored to an operand.
    fn can_write_operand_8(cpu: &Cpu, mmu: &Mmu, args: &[u8], t: Src) -> (r: bool)
        ensures
            r == tgt8_ok(*cpu, mmu@, args@, t),
    {
        match t {
            Src::A | Src::B | Src::C | Src::D | Src::E | Src::F | Src::H | Src::L => true,
            Src::A8 | Src::A16 | Src::Ca | Src::AFa | Src::BCa | Src::DEa | Src::HLa => {
                let needed: usize = match t {
                    Src::A8 => 1,
                    Src::A16 => 2,
                    _ => 0,
                };
                if args.len() < needed {
                    false
                } else {
                    let address = Self::operand_address(cpu, args, t);
                    mmu.can_write_8(address)
                }
            }
            _ => false,
        }
    }

    /// Whether an operand can be read as a word.
    fn can_read_operand_16(args: &[u8], s: Src) -> (r: bool)
        ensures
            r == src16_ok(args@, s),
    {
        match s {
            Src::AF | Src::BC | Src::DE | Src::HL | Src::PC | Src::SP => true,
            Src::D16 => args.len() >= 2,
            _ => false,
        }
    }

    /// Whether a 16-bit load can read its source and store to its target.
    fn can_load_16(cpu: &Cpu, mmu: &Mmu, args: &[u8], t: Src, s: Src) -> (r: bool)
        ensures
            r == ld16_ok(*cpu, mmu@, args@, t, s),
    {
        if !Self::can_read_operand_16(args, s) {
            return false;
        }
        let value = Self::get_source_value_16(cpu, args, s);
        match t {
            Src::AF | Src::BC | Src::DE | Src::HL | Src::PC | Src::SP => true,
            Src::A16 => {
                if args.len() < 2 {
                    false
                } else {
                    proof { lemma_d16(args@[0], args@[1]); }
                    let address = ((args[1] as u16) << 8) | (args[0] as u16);
                    mmu.can_write_16(address, value, Endianness::BIG, Caller::CPU)
                }
            }
            _ => false,
        }
    }

    fn is_word_register(r: CpuRegIndex) -> (b: bool)
        ensures
            b == is_word_reg_idx(r),
    {
        match r {
            CpuRegIndex::AF | CpuRegIndex::BC | CpuRegIndex::DE | CpuRegIndex::HL
                | CpuRegIndex::PC | CpuRegIndex::SP => true,
            _ => false,
        }
    }

    /// Whether a register can be pushed: the two bytes below SP are writable.
    pub fn can_push(cpu: &Cpu, mmu: &Mmu, r: CpuRegIndex) -> (b: bool)
        ensures
            b == push_ok(*cpu, mmu@, r),
    {
        if !Self::is_word_register(r) {
            return false;
        }
        let mut regs = cpu.registers;
        regs.decrement(CpuRegIndex::SP, 2);
        let value = regs.get_word(r);
        let address = regs.get_word(CpuRegIndex::SP);
        mmu.can_write_16(address, value, Endianness::BIG, Caller::CPU)
    }

    /// Whether a register can be popped: the two bytes at SP are readable.
    pub fn can_pop(cpu: &Cpu, mmu: &Mmu, r: CpuRegIndex) -> (b: bool)
        ensures
            b == pop_ok(*cpu, mmu@, r),
    {
        Self::is_word_register(r) && mmu.can_read_16(cpu.registers.get_word(CpuRegIndex::SP))
    }

    /// Whether a branch condition holds for the CPU's flags.
    fn condition_holds(cpu: &Cpu, c: Cond) -> (b: bool)
        ensures
            b == cond_holds(c, flags_spec(*cpu)),
    {
        let f = cpu.registers.get_flags();
        match c {
            Cond::Always => true,
            Cond::NZ => !f.zero,
            Cond::Z => f.zero,
            Cond::NC => !f.carry,
            Cond::C => f.carry,
        }
    }

    /// Whether a read-modify-write of an 8-bit operand can be carried out.
    fn can_modify_operand_8(cpu: &Cpu, mmu: &Mmu, args: &[u8], t: Src) -> (b: bool)
        ensures
            b == rmw8_ok(*cpu, mmu@, args@, t),
    {
        Self::can_read_operand_8(cpu, mmu, args, t) && Self::can_write_operand_8(cpu, mmu, args, t)
    }

    /// Whether a two-operand ALU operation can read both operands and write the first.
    fn can_combine_8(cpu: &Cpu, mmu: &Mmu, args: &[u8], t: Src, s: Src) -> (b: bool)
        ensures
            b == alu8_ok(*cpu, mmu@, args@, t, s),
    {
        Self::can_read_operand_8(cpu, mmu, args, t) && Self::can_read_operand_8(cpu, mmu, args, s)
            && Self::can_write_operand_8(cpu, mmu, args, t)
    }

    /// Whether an 8-bit load can read its source and write its target.
    fn can_load_8(cpu: &Cpu, mmu: &Mmu, args: &[u8], t: Src, s: Src) -> (b: bool)
        ensures
            b == (src8_ok(*cpu, mmu@, args@, s) && tgt8_ok(*cpu, mmu@, args@, t)),
    {
        Self::can_read_operand_8(cpu, mmu, args, s) && Self::can_write_operand_8(cpu, mmu, args, t)
    }

    /// Whether a conditional call can be carried out.
    fn can_call(cpu: &Cpu, mmu: &Mmu, args: &[u8], c: Cond) -> (b: bool)
        ensures
            b == call_cond_ok(c, *cpu, mmu@, args@),
    {
        args.len() >= 2 && (!Self::condition_holds(cpu, c) || Self::can_push(cpu, mmu, CpuRegIndex::PC))
    }

    /// Whether a conditional return can be carried out.
    fn can_return(cpu: &Cpu, mmu: &Mmu, c: Cond) -> (b: bool)
        ensures
            b == ret_cond_ok(c, *cpu, mmu@),
    {
        !Self::condition_holds(cpu, c) || Self::can_pop(cpu, mmu, CpuRegIndex::PC)
    }

    /// `can_execute` for the loads.
    fn can_execute_load(op: Op, cpu: &Cpu, mmu: &Mmu, args: &[u8]) -> (b: bool)
        requires
            op is Ld8 || op is LdHl || op is Ld16,
        ensures
            b == op_ok(op, *cpu, mmu@, args@),
    {
        proof { reveal(op_ok); }
        match op {
            Op::Ld8(t, s) => Self::can_load_8(cpu, mmu, args, t, s),
            Op::LdHl(t, s, _) => Self::can_load_8(cpu, mmu, args, t, s),
            Op::Ld16(t, s) => Self::can_load_16(cpu, mmu, args, t, s),
            _ => false,
        }
    }

    /// `can_execute` for the read-modify-write operations on one byte operand.
    fn can_execute_modify(op: Op, cpu: &Cpu, mmu: &Mmu, args: &[u8]) -> (b: bool)
        requires
            op is Inc8 || op is Dec8 || op is Swap || op is RotateCircular || op is Rotate
                || op is Shift || op is SetBit,
        ensures
            b == op_ok(op, *cpu, mmu@, args@),
    {
        proof { reveal(op_ok); }
        match op {
            Op::Inc8(t) | Op::Dec8(t) | Op::Swap(t) => Self::can_modify_operand_8(cpu, mmu, args, t),
            Op::RotateCircular(t, _, _) | Op::Rotate(t, _, _) | Op::Shift(t, _, _) =>
                Self::can_modify_operand_8(cpu, mmu, args, t),
            Op::SetBit(t, n, _) => n < 8 && Self::can_modify_operand_8(cpu, mmu, args, t),
            _ => false,
        }
    }

    /// `can_execute` for the arithmetic and logic operations.
    fn can_execute_arithmetic(op: Op, cpu: &Cpu, mmu: &Mmu, args: &[u8]) -> (b: bool)
        requires
            op is Add8 || op is Adc8 || op is Sub8 || op is Sbc8 || op is And || op is Xor || op is Or
                || op is Cp || op is Bit || op is Inc16 || op is Dec16 || op is AddHl,
        ensures
            b == op_ok(op, *cpu, mmu@, args@),
    {
        proof { reveal(op_ok); }
        match op {
            Op::Add8(t, s) | Op::Adc8(t, s) | Op::Sub8(t, s) | Op::Sbc8(t, s) =>
                Self::can_combine_8(cpu, mmu, args, t, s),
            Op::And(s) | Op::Xor(s) | Op::Or(s) | Op::Cp(s) => Self::can_read_operand_8(cpu, mmu, args, s),
            Op::Bit(s, n) => n < 8 && Self::can_read_operand_8(cpu, mmu, args, s),
            Op::Inc16(t) | Op::Dec16(t) => match t {
                Src::AF | Src::BC | Src::DE | Src::HL | Src::PC | Src::SP => true,
                _ => false,
            },
            Op::AddHl(s) => Self::can_read_operand_16(args, s),
            _ => false,
        }
    }

    /// `can_execute` for jumps, calls, returns and the stack.
    fn can_execute_control(op: Op, cpu: &Cpu, mmu: &Mmu, args: &[u8]) -> (b: bool)
        requires
            op is Jr || op is AddSpR8 || op is LdHlSpR8 || op is Jp || op is Call || op is Ret
                || op is Reti || op is Rst || op is Push || op is Pop || op is PopAf,
        ensures
            b == op_ok(op, *cpu, mmu@, args@),
    {
        proof { reveal(op_ok); }
        match op {
            Op::Jr(_) | Op::AddSpR8 | Op::LdHlSpR8 => args.len() >= 1,
            Op::Jp(_) => args.len() >= 2,
            Op::Call(c) => Self::can_call(cpu, mmu, args, c),
            Op::Ret(c) => Self::can_return(cpu, mmu, c),
            Op::Reti => Self::can_pop(cpu, mmu, CpuRegIndex::PC),
            Op::Rst(_) => Self::can_push(cpu, mmu, CpuRegIndex::PC),
            Op::Push(r) => Self::can_push(cpu, mmu, r),
            Op::Pop(r) => Self::can_pop(cpu, mmu, r),
            Op::PopAf => Self::can_pop(cpu, mmu, CpuRegIndex::AF),
            _ => false,
        }
    }

    /// Whether an operation can be carried out on the state: its operands can be
    /// read and written, its immediates are there, and its stack accesses are
    /// defined.
    pub fn can_execute(op: Op, cpu: &Cpu, mmu: &Mmu, args: &[u8]) -> (b: bool)
        ensures
            b == op_ok(op, *cpu, mmu@, args@),
    {
        match op {
            Op::Ld8(..) | Op::LdHl(..) | Op::Ld16(..) => Self::can_execute_load(op, cpu, mmu, args),
            Op::Inc8(..) | Op::Dec8(..) | Op::Swap(..) | Op::RotateCircular(..) | Op::Rotate(..)
                | Op::Shift(..) | Op::SetBit(..) => Self::can_execute_modify(op, cpu, mmu, args),
            Op::Add8(..) | Op::Adc8(..) | Op::Sub8(..) | Op::Sbc8(..) | Op::And(..) | Op::Xor(..)
                | Op::Or(..) | Op::Cp(..) | Op::Bit(..) | Op::Inc16(..) | Op::Dec16(..) | Op::AddHl(..) =>
                Self::can_execute_arithmetic(op, cpu, mmu, args),
            Op::Jr(..) | Op::AddSpR8 | Op::LdHlSpR8 | Op::Jp(..) | Op::Call(..) | Op::Ret(..) | Op::Reti
                | Op::Rst(..) | Op::Push(..) | Op::Pop(..) | Op::PopAf => Self::can_execute_control(op, cpu, mmu, args),
            _ => {
                proof { reveal(op_ok); }
                true
            }
        }
    }

    pub fn get_source_value_8(cpu: &Cpu, mmu: &Mmu, args: &[u8], source: Src) -> (r: u8)
        requires
            src8_ok(*cpu, mmu@, args@, source),
        ensures
            r == src8(*cpu, mmu@, args@, source),
    {
        match source {
            Src::D8 => args[0],
            Src::A8 => {
                proof { lemma_high_page(args@[0]); }
                mmu.read_8(0xFF00 | args[0] as u16, Caller::CPU)
            }
            Src::A16 => {
                proof { lemma_d16(args@[0], args@[1]); }
                mmu.read_8(((args[1] as u16) << 8) | (args[0] as u16), Caller::CPU)
            }
            Src::A => cpu.registers.get_byte(CpuRegIndex::A),
            Src::B => cpu.registers.get_byte(CpuRegIndex::B),
            Src::C => cpu.registers.get_byte(CpuRegIndex::C),
            Src::D => cpu.registers.get_byte(CpuRegIndex::D),
            Src::E => cpu.registers.get_byte(CpuRegIndex::E),
            Src::F => cpu.registers.get_byte(CpuRegIndex::F),
            Src::H => cpu.registers.get_byte(CpuRegIndex::H),
            Src::L => cpu.registers.get_byte(CpuRegIndex::L),
            Src::Ca => {
                let c = cpu.registers.get_byte(CpuRegIndex::C);
                proof { lemma_high_page(c); }
                mmu.read_8(0xFF00 | c as u16, Caller::CPU)
            }
            Src::AFa => mmu.read_8(cpu.registers.get_word(CpuRegIndex::AF), Caller::CPU),
            Src::BCa => mmu.read_8(cpu.registers.get_word(CpuRegIndex::BC), Caller::CPU),
            Src::DEa => mmu.read_8(cpu.registers.get_word(CpuRegIndex::DE), Caller::CPU),
            _ => mmu.read_8(cpu.registers.get_word(CpuRegIndex::HL), Caller::CPU),
        }
    }

    pub fn get_source_value_16(cpu: &Cpu, args: &[u8], source: Src) -> (r: u16)
        requires
            src16_ok(args@, source),
        ensures
            r == src16(*cpu, args@, source),
    {
        match source {
            Src::D16 => {
                proof { lemma_d16(args@[0], args@[1]); }
                ((args[1] as u16) << 8) | (args[0] as u16)
            }
            Src::AF => cpu.registers.get_word(CpuRegIndex::AF),
            Src::BC => cpu.registers.get_word(CpuRegIndex::BC),
            Src::DE => cpu.registers.get_word(CpuRegIndex::DE),
            Src::HL => cpu.registers.get_word(CpuRegIndex::HL),
            Src::PC => cpu.registers.get_word(CpuRegIndex::PC),
            _ => cpu.registers.get_word(CpuRegIndex::SP),
        }
    }

    pub fn set_target_value_8(cpu: &mut Cpu, mmu: &mut Mmu, args: &[u8], target: Src, value: u8)
        requires
            tgt8_ok(*old(cpu), old(mmu)@, args@, target),
        ensures
            (*final(cpu), final(mmu)@) == set8(*old(cpu), old(mmu)@, args@, target, value),
    {
        match target {
            Src::A8 => {
                proof { lemma_high_page(args@[0]); }
                mmu.write_8(0xFF00 | args[0] as u16, value, Caller::CPU)
            }
            Src::A16 => {
                proof { lemma_d16(args@[0], args@[1]); }
                mmu.write_8(((args[1] as u16) << 8) | (args[0] as u16), value, Caller::CPU)
            }
            Src::A => cpu.registers.set_byte(CpuRegIndex::A, value),
            Src::B => cpu.registers.set_byte(CpuRegIndex::B, value),
            Src::C => cpu.registers.set_byte(CpuRegIndex::C, value),
            Src::D => cpu.registers.set_byte(CpuRegIndex::D, value),
            Src::E => cpu.registers.set_byte(CpuRegIndex::E, value),
            Src::F => cpu.registers.set_byte(CpuRegIndex::F, value),
            Src::H => cpu.registers.set_byte(CpuRegIndex::H, value),
            Src::L => cpu.registers.set_byte(CpuRegIndex::L, value),
            Src::Ca => {
                let c = cpu.registers.get_byte(CpuRegIndex::C);
                proof { lemma_high_page(c); }
                mmu.write_8(0xFF00 | c as u16, value, Caller::CPU)
            }
            Src::AFa => mmu.write_8(cpu.registers.get_word(CpuRegIndex::AF), value, Caller::CPU),
            Src::BCa => mmu.write_8(cpu.registers.get_word(CpuRegIndex::BC), value, Caller::CPU),
            Src::DEa => mmu.write_8(cpu.registers.get_word(CpuRegIndex::DE), value, Caller::CPU),
            _ => mmu.write_8(cpu.registers.get_word(CpuRegIndex::HL), value, Caller::CPU),
        }
    }

    pub fn set_target_value_16(cpu: &mut Cpu, mmu: &mut Mmu, args: &[u8], target: Src, value: u16)
        requires
            tgt16_ok(*old(cpu), old(mmu)@, args@, target, value),
        ensures
            (*final(cpu), final(mmu)@) == set16(*old(cpu), old(mmu)@, args@, target, value),
    {
        match target {
            Src::A16 => {
                proof { lemma_d16(args@[0], args@[1]); }
                mmu.write_16(((args[1] as u16) << 8) | (args[0] as u16), value, Endianness::BIG, Caller::CPU)
            }
            Src::AF => cpu.registers.set_word(CpuRegIndex::AF, value),
            Src::BC => cpu.registers.set_word(CpuRegIndex::BC, value),
            Src::DE => cpu.registers.set_word(CpuRegIndex::DE, value),
            Src::HL => cpu.registers.set_word(CpuRegIndex::HL, value),
            Src::PC => cpu.registers.set_word(CpuRegIndex::PC, value),
            _ => cpu.registers.set_word(CpuRegIndex::SP, value),
        }
    }

    /// PUSH
    pub fn push(cpu: &mut Cpu, mmu: &mut Mmu, source_register: CpuRegIndex)
        requires
            push_ok(*old(cpu), old(mmu)@, source_register),
        ensures
            (*final(cpu), final(mmu)@) == push_spec(*old(cpu), old(mmu)@, source_register),
    {
        // SP=SP-2
        cpu.registers.decrement(CpuRegIndex::SP, 2);
        // (SP)=r16
        let value = cpu.registers.get_word(source_register);
        let target_address = cpu.registers.get_word(CpuRegIndex::SP);
        mmu.write_16(target_address, value, Endianness::BIG, Caller::CPU);
    }

    /// POP
    pub(crate) fn pop(&mut self, cpu: &mut Cpu, mmu: &Mmu, target_register: CpuRegIndex) -> (r: i16)
        requires
            pop_ok(*old(cpu), mmu@, target_register),
        ensures
            *final(self) == *old(self),
            r == old(self).cycles,
            *final(cpu) == pop_spec(*old(cpu), mmu@, target_register),
    {
        // r16=(SP)
        let source_address = cpu.registers.get_word(CpuRegIndex::SP);
        let value = mmu.read_16(source_address, Endianness::BIG, Caller::CPU);
        cpu.registers.set_word(target_register, value);
        // SP=SP+2
        cpu.registers.increment(CpuRegIndex::SP, 2);
        self.cycles
    }

    /// JUMP
    pub fn jump(cpu: &mut Cpu, address: u16)
        ensures
            *final(cpu) == with_regs(*old(cpu), old(cpu).registers.with_word(CpuRegIndex::PC, address)),
    {
        cpu.registers.set_word(CpuRegIndex::PC, address);
    }

    /// PC moved by a signed byte offset.
    pub fn jump_relative(cpu: &mut Cpu, d8: u8)
        ensures
            *final(cpu) == with_regs(*old(cpu), old(cpu).registers.with_word(CpuRegIndex::PC,
                relative_target(*old(cpu), d8))),
    {
        let jump_by = alu::signed_8(d8);
        let pc = cpu.registers.pc;

        if jump_by < 0 {
            let by: u16 = (0 - jump_by) as u16;
            assert(by == -signed_value(d8));
            cpu.registers.decrement(CpuRegIndex::PC, by);
        } else {
            let by: u16 = jump_by as u16;
            assert(by == signed_value(d8));
            assert((pc + by) % 65536 == (pc + by + 65536) % 65536);
            cpu.registers.increment(CpuRegIndex::PC, by);
        }
    }

    /// A taken conditional relative jump: PC moved, and 4 more cycles.
    pub(crate) fn relative_jump(&mut self, cpu: &mut Cpu, d8: u8)
        requires
            old(self).cycles <= i16::MAX - 4,
        ensures
            *final(self) == (Instruction { cycles: (old(self).cycles + 4) as i16, ..*old(self) }),
            *final(cpu) == with_regs(*old(cpu), old(cpu).registers.with_word(CpuRegIndex::PC,
                relative_target(*old(cpu), d8))),
    {
        Instruction::jump_relative(cpu, d8);
        self.cycles += 4;
    }

    /// CALL
    pub fn call(cpu: &mut Cpu, mmu: &mut Mmu, address: u16)
        requires
            call_ok(*old(cpu), old(mmu)@),
        ensures
            (*final(cpu), final(mmu)@) == call_spec(*old(cpu), old(mmu)@, address),
    {
        Instruction::push(cpu, mmu, CpuRegIndex::PC);
        Instruction::jump(cpu, address);
    }

    pub(crate) fn ld_8(&mut self, cpu: &mut Cpu, mmu: &mut Mmu, args: &[u8], target: Src, source: Src) -> (r: i16)
        requires
            src8_ok(*old(cpu), old(mmu)@, args@, source) && tgt8_ok(*old(cpu), old(mmu)@, args@, target),
        ensures
            *final(self) == *old(self),
            r == old(self).cycles,
            (*final(cpu), final(mmu)@) == set8(*old(cpu), old(mmu)@, args@, target, src8(*old(cpu), old(mmu)@, args@, source)),
    {
        let value = Instruction::get_source_value_8(cpu, mmu, args, source);
        Instruction::set_target_value_8(cpu, mmu, args, target, value);
        self.cycles
    }

    pub(crate) fn ld_16(&mut self, cpu: &mut Cpu, mmu: &mut Mmu, args: &[u8], target: Src, source: Src) -> (r: i16)
        requires
            src16_ok(args@, source) && tgt16_ok(*old(cpu), old(mmu)@, args@, target, src16(*old(cpu), args@, source)),
        ensures
            *final(self) == *old(self),
            r == old(self).cycles,
            (*final(cpu), final(mmu)@) == set16(*old(cpu), old(mmu)@, args@, target, src16(*old(cpu), args@, source)),
    {
        let value = Instruction::get_source_value_16(cpu, args, source);
        Instruction::set_target_value_16(cpu, mmu, args, target, value);
        self.cycles
    }

    /// ADD
    pub(crate) fn add_8(&mut self, cpu: &mut Cpu, mmu: &mut Mmu, args: &[u8], target: Src, source: Src) -> (r: i16)
        requires
            src8_ok(*old(cpu), old(mmu)@, args@, target) && src8_ok(*old(cpu), old(mmu)@, args@, source) && tgt8_ok(*old(cpu), old(mmu)@, args@, target),
        ensures
            *final(self) == *old(self),
            r == old(self).cycles,
            (*final(cpu), final(mmu)@) == store_with_flags(*old(cpu), old(mmu)@, args@, target, add_8_spec(src8(*old(cpu), old(mmu)@, args@, target), src8(*old(cpu), old(mmu)@, args@, source))),
    {
        let a = Instruction::get_source_value_8(cpu, mmu, args, target);
        let b = Instruction::get_source_value_8(cpu, mmu, args, source);
        let (result, flags) = alu::add_8(a, b);
        Instruction::set_target_value_8(cpu, mmu, args, target, result);
        cpu.registers.set_flags(flags);
        self.cycles
    }

    pub(crate) fn add_hl(&mut self, cpu: &mut Cpu, mmu: &mut Mmu, args: &[u8], source: Src) -> (r: i16)
        requires
            src16_ok(args@, source),
        ensures
            *final(self) == *old(self),
            r == old(self).cycles,
            final(mmu)@ == old(mmu)@ && *final(cpu) == add_hl_state(*old(cpu), args@, source),
    {
        let a = Instruction::get_source_value_16(cpu, args, Src::HL);
        let b = Instruction::get_source_value_16(cpu, args, source);
        let original_zero = cpu.registers.get_flags().zero;
        let (result, mut flags) = alu::add_16(a, b);
        flags.zero = original_zero;
        Instruction::set_target_value_16(cpu, mmu, args, Src::HL, result);
        cpu.registers.set_flags(flags);
        self.cycles
    }

    pub(crate) fn adc_8(&mut self, cpu: &mut Cpu, mmu: &mut Mmu, args: &[u8], target: Src, source: Src) -> (r: i16)
        requires
            src8_ok(*old(cpu), old(mmu)@, args@, target) && src8_ok(*old(cpu), old(mmu)@, args@, source) && tgt8_ok(*old(cpu), old(mmu)@, args@, target),
        ensures
            *final(self) == *old(self),
            r == old(self).cycles,
            (*final(cpu), final(mmu)@) == store_with_flags(*old(cpu), old(mmu)@, args@, target, adc_8_spec(src8(*old(cpu), old(mmu)@, args@, target), src8(*old(cpu), old(mmu)@, args@, source), flags_spec(*old(cpu)).carry)),
    {
        let a = Instruction::get_source_value_8(cpu, mmu, args, target);
        let b = Instruction::get_source_value_8(cpu, mmu, args, source);
        let original_flags = cpu.registers.get_flags();
        let (result, flags) = alu::adc_8(a, b, original_flags);
        Instruction::set_target_value_8(cpu, mmu, args, target, result);
        cpu.registers.set_flags(flags);
        self.cycles
    }

    /// SUB
    pub(crate) fn sub_8(&mut self, cpu: &mut Cpu, mmu: &mut Mmu, args: &[u8], target: Src, source: Src) -> (r: i16)
        requires
            src8_ok(*old(cpu), old(mmu)@, args@, target) && src8_ok(*old(cpu), old(mmu)@, args@, source) && tgt8_ok(*old(cpu), old(mmu)@, args@, target),
        ensures
            *final(self) == *old(self),
            r == old(self).cycles,
            (*final(cpu), final(mmu)@) == store_with_flags(*old(cpu), old(mmu)@, args@, target, subtract_8_spec(src8(*old(cpu), old(mmu)@, args@, target), src8(*old(cpu), old(mmu)@, args@, source))),
    {
        let a = Instruction::get_source_value_8(cpu, mmu, args, target);
        let b = Instruction::get_source_value_8(cpu, mmu, args, source);
        let (result, flags) = alu::subtract_8(a, b);
        Instruction::set_target_value_8(cpu, mmu, args, target, result);
        cpu.registers.set_flags(flags);
        self.cycles
    }

    pub(crate) fn sbc_8(&mut self, cpu: &mut Cpu, mmu: &mut Mmu, args: &[u8], target: Src, source: Src) -> (r: i16)
        requires
            src8_ok(*old(cpu), old(mmu)@, args@, target) && src8_ok(*old(cpu), old(mmu)@, args@, source) && tgt8_ok(*old(cpu), old(mmu)@, args@, target),
        ensures
            *final(self) == *old(self),
            r == old(self).cycles,
            (*final(cpu), final(mmu)@) == store_with_flags(*old(cpu), old(mmu)@, args@, target, sbc_8_spec(src8(*old(cpu), old(mmu)@, args@, target), src8(*old(cpu), old(mmu)@, args@, source), flags_spec(*old(cpu)).carry)),
    {
        let a = Instruction::get_source_value_8(cpu, mmu, args, target);
        let b = Instruction::get_source_value_8(cpu, mmu, args, source);
        let original_flags = cpu.registers.get_flags();
        let (result, flags) = alu::sbc_8(a, b, original_flags);
        Instruction::set_target_value_8(cpu, mmu, args, target, result);
        cpu.registers.set_flags(flags);
        self.cycles
    }

    /// INC/DEC 8 bit -- Affects all flags except carry flag
    pub(crate) fn increment_8(&mut self, cpu: &mut Cpu, mmu: &mut Mmu, args: &[u8], target: Src) -> (r: i16)
        requires
            src8_ok(*old(cpu), old(mmu)@, args@, target) && tgt8_ok(*old(cpu), old(mmu)@, args@, target),
        ensures
            *final(self) == *old(self),
            r == old(self).cycles,
            (*final(cpu), final(mmu)@) == store_with_flags(*old(cpu), old(mmu)@, args@, target, increment_8_spec(src8(*old(cpu), old(mmu)@, args@, target), flags_spec(*old(cpu)).carry)),
    {
        let value = Instruction::get_source_value_8(cpu, mmu, args, target);
        let original_carry = cpu.registers.get_flags().carry;
        let (result, flags) = alu::increment_8(value, original_carry);
        Instruction::set_target_value_8(cpu, mmu, args, target, result);
        cpu.registers.set_flags(flags);
        self.cycles
    }

    pub(crate) fn decrement_8(&mut self, cpu: &mut Cpu, mmu: &mut Mmu, args: &[u8], target: Src) -> (r: i16)
        requires
            src8_ok(*old(cpu), old(mmu)@, args@, target) && tgt8_ok(*old(cpu), old(mmu)@, args@, target),
        ensures
            *final(self) == *old(self),
            r == old(self).cycles,
            (*final(cpu), final(mmu)@) == store_with_flags(*old(cpu), old(mmu)@, args@, target, decrement_8_spec(src8(*old(cpu), old(mmu)@, args@, target), flags_spec(*old(cpu)).carry)),
    {
        let value = Instruction::get_source_value_8(cpu, mmu, args, target);
        let original_carry = cpu.registers.get_flags().carry;
        let (result, flags) = alu::decrement_8(value, original_carry);
        Instruction::set_target_value_8(cpu, mmu, args, target, result);
        cpu.registers.set_flags(flags);
        self.cycles
    }

    /// INC/DEC 16 bit -- Does not affect flags
    pub(crate) fn increment_16(&mut self, cpu: &mut Cpu, mmu: &mut Mmu, args: &[u8], target: Src) -> (r: i16)
        requires
            src16_ok(args@, target) && is_reg16(target),
        ensures
            *final(self) == *old(self),
            r == old(self).cycles,
            (*final(cpu), final(mmu)@) == set16(*old(cpu), old(mmu)@, args@, target, ((src16(*old(cpu), args@, target) + 1) % 65536) as u16),
    {
        let value = Instruction::get_source_value_16(cpu, args, target);
        let result = alu::increment_16(value);
        Instruction::set_target_value_16(cpu, mmu, args, target, result);
        self.cycles
    }

    pub(crate) fn decrement_16(&mut self, cpu: &mut Cpu, mmu: &mut Mmu, args: &[u8], target: Src) -> (r: i16)
        requires
            src16_ok(args@, target) && is_reg16(target),
        ensures
            *final(self) == *old(self),
            r == old(self).cycles,
            (*final(cpu), final(mmu)@) == set16(*old(cpu), old(mmu)@, args@, target, dec16_value(src16(*old(cpu), args@, target))),
    {
        let value = Instruction::get_source_value_16(cpu, args, target);
        let result = alu::decrement_16(value);
        Instruction::set_target_value_16(cpu, mmu, args, target, result);
        self.cycles
    }

    /// AND
    pub(crate) fn and(&mut self, cpu: &mut Cpu, mmu: &mut Mmu, args: &[u8], source: Src) -> (r: i16)
        requires
            src8_ok(*old(cpu), old(mmu)@, args@, source),
        ensures
            *final(self) == *old(self),
            r == old(self).cycles,
            final(mmu)@ == old(mmu)@ && *final(cpu) == logic_state(*old(cpu), old(cpu).registers.a & src8(*old(cpu), old(mmu)@, args@, source), true),
    {
        let a = cpu.registers.get_byte(CpuRegIndex::A);
        let b = Instruction::get_source_value_8(cpu, mmu, args, source);
        let (result, flags) = alu::and_8(a, b);
        cpu.registers.set_byte(CpuRegIndex::A, result);
        cpu.registers.set_flags(flags);
        self.cycles
    }

    /// OR
    pub(crate) fn or(&mut self, cpu: &mut Cpu, mmu: &mut Mmu, args: &[u8], source: Src) -> (r: i16)
        requires
            src8_ok(*old(cpu), old(mmu)@, args@, source),
        ensures
            *final(self) == *old(self),
            r == old(self).cycles,
            final(mmu)@ == old(mmu)@ && *final(cpu) == logic_state(*old(cpu), old(cpu).registers.a | src8(*old(cpu), old(mmu)@, args@, source), false),
    {
        let a = cpu.registers.get_byte(CpuRegIndex::A);
        let b = Instruction::get_source_value_8(cpu, mmu, args, source);
        let (result, flags) = alu::or_8(a, b);
        cpu.registers.set_byte(CpuRegIndex::A, result);
        cpu.registers.set_flags(flags);
        self.cycles
    }

    /// XOR
    pub(crate) fn xor(&mut self, cpu: &mut Cpu, mmu: &mut Mmu, args: &[u8], source: Src) -> (r: i16)
        requires
            src8_ok(*old(cpu), old(mmu)@, args@, source),
        ensures
            *final(self) == *old(self),
            r == old(self).cycles,
            final(mmu)@ == old(mmu)@ && *final(cpu) == logic_state(*old(cpu), old(cpu).registers.a ^ src8(*old(cpu), old(mmu)@, args@, source), false),
    {
        let a = cpu.registers.get_byte(CpuRegIndex::A);
        let b = Instruction::get_source_value_8(cpu, mmu, args, source);
        let (result, flags) = alu::xor_8(a, b);
        cpu.registers.set_byte(CpuRegIndex::A, result);
        cpu.registers.set_flags(flags);
        self.cycles
    }

    /// SLA, SRA, SRL
    pub(crate) fn shift(&mut self, cpu: &mut Cpu, mmu: &mut Mmu, args: &[u8], target: Src, is_left: bool, is_arithmetic: bool) -> (r: i16)
        requires
            src8_ok(*old(cpu), old(mmu)@, args@, target) && tgt8_ok(*old(cpu), old(mmu)@, args@, target),
        ensures
            *final(self) == *old(self),
            r == old(self).cycles,
            (*final(cpu), final(mmu)@) == shift_state(*old(cpu), old(mmu)@, args@, target, is_left, is_arithmetic),
    {
        let value = Instruction::get_source_value_8(cpu, mmu, args, target);
        let (result, flags) = if is_left {
            alu::shift_left(value)
        } else {
            alu::shift_right(value, is_arithmetic)
        };
        Instruction::set_target_value_8(cpu, mmu, args, target, result);
        cpu.registers.set_flags(flags);
        self.cycles
    }

    /// RL, RR, RLA, RRA
    pub(crate) fn rotate(&mut self, cpu: &mut Cpu, mmu: &mut Mmu, args: &[u8], target: Src, is_left: bool, reset_zero: bool) -> (r: i16)
        requires
            src8_ok(*old(cpu), old(mmu)@, args@, target) && tgt8_ok(*old(cpu), old(mmu)@, args@, target),
        ensures
            *final(self) == *old(self),
            r == old(self).cycles,
            (*final(cpu), final(mmu)@) == rotate_state(*old(cpu), old(mmu)@, args@, target, is_left, reset_zero),
    {
        let value = Instruction::get_source_value_8(cpu, mmu, args, target);
        let original_flags = cpu.registers.get_flags();
        let (result, mut flags) = if is_left {
            alu::rotate_left(value, original_flags.carry)
        } else {
            alu::rotate_right(value, original_flags.carry)
        };
        if reset_zero {
            flags.zero = false;
        }
        Instruction::set_target_value_8(cpu, mmu, args, target, result);
        cpu.registers.set_flags(flags);
        self.cycles
    }

    /// RLC, RRC, RLCA, RRCA
    pub(crate) fn rotate_circular(&mut self, cpu: &mut Cpu, mmu: &mut Mmu, args: &[u8], target: Src, is_left: bool, reset_zero: bool) -> (r: i16)
        requires
            src8_ok(*old(cpu), old(mmu)@, args@, target) && tgt8_ok(*old(cpu), old(mmu)@, args@, target),
        ensures
            *final(self) == *old(self),
            r == old(self).cycles,
            (*final(cpu), final(mmu)@) == rotate_circular_state(*old(cpu), old(mmu)@, args@, target, is_left, reset_zero),
    {
        let value = Instruction::get_source_value_8(cpu, mmu, args, target);
        let (result, mut flags) = if is_left {
            alu::rotate_left_circular(value)
        } else {
            alu::rotate_right_circular(value)
        };
        if reset_zero {
            flags.zero = false;
        }
        Instruction::set_target_value_8(cpu, mmu, args, target, result);
        cpu.registers.set_flags(flags);
        self.cycles
    }

    /// BIT
    pub(crate) fn bit(&mut self, cpu: &mut Cpu, mmu: &mut Mmu, args: &[u8], source: Src, n: u8) -> (r: i16)
        requires
            src8_ok(*old(cpu), old(mmu)@, args@, source) && n < 8,
        ensures
            *final(self) == *old(self),
            r == old(self).cycles,
            final(mmu)@ == old(mmu)@ && *final(cpu) == bit_state(*old(cpu), src8(*old(cpu), old(mmu)@, args@, source), n),
    {
        let value = Instruction::get_source_value_8(cpu, mmu, args, source);
        let mut flags = cpu.registers.get_flags();
        flags.zero = value & (1u8 << n) == 0;
        flags.subtract = false;
        flags.half_carry = true;
        cpu.registers.set_flags(flags);
        self.cycles
    }

    /// SET, RES
    pub(crate) fn set(&mut self, cpu: &mut Cpu, mmu: &mut Mmu, args: &[u8], source: Src, n: u8, set: bool) -> (r: i16)
        requires
            src8_ok(*old(cpu), old(mmu)@, args@, source) && tgt8_ok(*old(cpu), old(mmu)@, args@, source) && n < 8,
        ensures
            *final(self) == *old(self),
            r == old(self).cycles,
            (*final(cpu), final(mmu)@) == set8(*old(cpu), old(mmu)@, args@, source, with_bit(src8(*old(cpu), old(mmu)@, args@, source), n, set)),
    {
        let mut value = Instruction::get_source_value_8(cpu, mmu, args, source);
        let v0 = value;
        value ^= value & (1u8 << n);
        value |= (if set { 1u8 } else { 0u8 }) << n;
        proof { crate::bits::lemma_bit_ops(v0, n); }
        Instruction::set_target_value_8(cpu, mmu, args, source, value);
        self.cycles
    }

    /// SWAP
    pub(crate) fn swap(&mut self, cpu: &mut Cpu, mmu: &mut Mmu, args: &[u8], source: Src) -> (r: i16)
        requires
            src8_ok(*old(cpu), old(mmu)@, args@, source) && tgt8_ok(*old(cpu), old(mmu)@, args@, source),
        ensures
            *final(self) == *old(self),
            r == old(self).cycles,
            (*final(cpu), final(mmu)@) == store_with_flags(*old(cpu), old(mmu)@, args@, source, swap_spec(src8(*old(cpu), old(mmu)@, args@, source))),
    {
        let mut value = Instruction::get_source_value_8(cpu, mmu, args, source);
        let v0 = value;
        proof { crate::bits::lemma_byte_bits(v0); }
        value = ((value & 0xF0) >> 4) | ((value & 0x0F) << 4);
        Instruction::set_target_value_8(cpu, mmu, args, source, value);
        let flags = Flags {
            zero: value == 0,
            subtract: false,
            half_carry: false,
            carry: false,
        };
        cpu.registers.set_flags(flags);
        self.cycles
    }

    /// CP
    pub(crate) fn cp(&mut self, cpu: &mut Cpu, mmu: &mut Mmu, args: &[u8], source: Src) -> (r: i16)
        requires
            src8_ok(*old(cpu), old(mmu)@, args@, source),
        ensures
            *final(self) == *old(self),
            r == old(self).cycles,
            final(mmu)@ == old(mmu)@ && *final(cpu) == with_flags(*old(cpu), subtract_8_spec(old(cpu).registers.a, src8(*old(cpu), old(mmu)@, args@, source)).1),
    {
        let a = cpu.registers.get_byte(CpuRegIndex::A);
        let b = Instruction::get_source_value_8(cpu, mmu, args, source);
        let (_, flags) = alu::subtract_8(a, b);
        cpu.registers.set_flags(flags);
        self.cycles
    }

}

} // verus!
