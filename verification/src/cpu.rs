use vstd::prelude::*;
use crate::cpu_registers::{CpuRegIndex, CpuRegisters};
use crate::instruction::{Instruction, Op, Src, Cond, op_ok, op_spec, call_ok, call_spec, push_spec, set8, set16, store_with_flags,
    ld_hl_state, rotate_circular_state, rotate_state, shift_state, swap_spec, src8, call_result, d16, sp_minus_2};
use crate::instruction_table::{instruction_spec, operation};
use crate::interrupts::{Interrupts, handler_address, with_request_bit};
use crate::register::{bit_set, with_bit};
use crate::mmu::{Caller, Endianness, Mmu, MmuView, IF_REG, is_plain_ram};
use crate::ppu::ly_in_range;

verus! {

pub const PREFIX_BYTE: u8 = 0xCB;

/// What the CPU last fetched, kept for a debug trace.
#[derive(Clone, Copy, PartialEq, Eq, Structural, Debug)]
pub struct InstructionTrace {
    pub start_pc: u16,
    pub opcode: u16,
    pub num_args: u16,
    pub arg0: u8,
    pub arg1: u8,
}

/// The CPU: registers, interrupt state and halt state.
#[derive(Clone, Copy, PartialEq, Eq, Structural, Debug)]
pub struct Cpu {
    pub is_halted: bool,
    pub registers: CpuRegisters,
    pub interrupts: Interrupts,
    pub debug_print_on: bool,
    pub trace: Option<InstructionTrace>,
}

/// `pc` moved on by `n`, wrapping at 16 bits.
pub open spec fn pc_plus(pc: u16, n: int) -> u16 {
    ((pc + n) % 65536) as u16
}

/// The CPU with PC moved on by `n` bytes.
pub open spec fn pc_advanced(cpu: Cpu, n: u16) -> Cpu {
    Cpu { registers: cpu.registers.incremented(CpuRegIndex::PC, n), ..cpu }
}

/// The opcode at `pc`: a 0xCB byte prefixes a second byte.
pub open spec fn opcode_at(mmu: MmuView, pc: u16) -> u16 {
    let b = mmu.read_8(pc, Caller::CPU);
    if b == PREFIX_BYTE {
        (0xCB00 + mmu.read_8(pc_plus(pc, 1), Caller::CPU)) as u16
    } else {
        b as u16
    }
}

/// How many bytes the opcode at `pc` takes.
pub open spec fn opcode_len(mmu: MmuView, pc: u16) -> u16 {
    if mmu.read_8(pc, Caller::CPU) == PREFIX_BYTE { 2 } else { 1 }
}

/// Whether the opcode bytes at `pc` can be read.
pub open spec fn opcode_readable(mmu: MmuView, pc: u16) -> bool {
    &&& mmu.read_8_ok(pc)
    &&& mmu.read_8(pc, Caller::CPU) == PREFIX_BYTE ==> mmu.read_8_ok(pc_plus(pc, 1))
}

/// How many argument bytes follow the opcode of a table entry: none for an
/// entry without an implementation, else its size less the opcode bytes.
pub open spec fn num_args_spec(instr: Instruction) -> int {
    if instr.cycles < 0 {
        0
    } else if instr.is_cbprefixed_spec() {
        instr.size - 2
    } else {
        instr.size - 1
    }
}

/// The argument bytes read from `pc` on: at most two.
pub open spec fn args_at(mmu: MmuView, pc: u16, n: int) -> Seq<u8> {
    if n <= 0 {
        seq![]
    } else if n == 1 {
        seq![mmu.read_8(pc, Caller::CPU)]
    } else {
        seq![mmu.read_8(pc, Caller::CPU), mmu.read_8(pc_plus(pc, 1), Caller::CPU)]
    }
}

/// How many argument bytes are read for a count: at most two.
pub open spec fn args_taken(n: int) -> u16 {
    if n <= 0 { 0 } else if n == 1 { 1 } else { 2 }
}

pub open spec fn args_readable(mmu: MmuView, pc: u16, n: int) -> bool {
    &&& n > 0 ==> mmu.read_8_ok(pc)
    &&& n > 1 ==> mmu.read_8_ok(pc_plus(pc, 1))
}

/// The fetch of the instruction at PC: the CPU after its bytes were read (PC
/// past them, the trace recorded), the opcode and the arguments.
pub open spec fn fetched(cpu: Cpu, mmu: MmuView) -> (Cpu, u16, Seq<u8>) {
    let pc = cpu.registers.pc;
    let opcode = opcode_at(mmu, pc);
    let pc1 = pc_plus(pc, opcode_len(mmu, pc) as int);
    let n = num_args_spec(instruction_spec(opcode));
    let args = args_at(mmu, pc1, n);
    let c1 = pc_advanced(cpu, (opcode_len(mmu, pc) + args_taken(n)) as u16);
    let trace = InstructionTrace {
        start_pc: pc,
        opcode,
        num_args: args_taken(n),
        arg0: if n > 0 { args[0] } else { 0 },
        arg1: if n > 1 { args[1] } else { 0 },
    };
    (Cpu { trace: Some(trace), ..c1 }, opcode, args)
}

/// Whether the instruction at PC can be fetched and carried out.
pub open spec fn execute_ok(cpu: Cpu, mmu: MmuView) -> bool {
    let pc = cpu.registers.pc;
    let opcode = opcode_at(mmu, pc);
    let pc1 = pc_plus(pc, opcode_len(mmu, pc) as int);
    let (c1, op, args) = fetched(cpu, mmu);
    &&& opcode_readable(mmu, pc)
    &&& args_readable(mmu, pc1, num_args_spec(instruction_spec(opcode)))
    &&& op_ok(operation(op), c1, mmu, args)
}

/// What fetching and carrying out the instruction at PC gives: the cycles
/// reported and the machine state after.
pub open spec fn execute_spec(cpu: Cpu, mmu: MmuView) -> (i16, Cpu, MmuView) {
    let (c1, opcode, args) = fetched(cpu, mmu);
    op_spec(operation(opcode), instruction_spec(opcode).cycles, c1, mmu, args)
}

/// A step: a halted CPU idles for 4 cycles, else it runs one instruction.
pub open spec fn step_ok(cpu: Cpu, mmu: MmuView) -> bool {
    cpu.is_halted || execute_ok(cpu, mmu)
}

pub open spec fn step_spec(cpu: Cpu, mmu: MmuView) -> (i16, Cpu, MmuView) {
    if cpu.is_halted { (4, cpu, mmu) } else { execute_spec(cpu, mmu) }
}

/// Interrupt dispatch. With the master enable clear, a requested interrupt only
/// wakes a halted CPU. With it set, the pending interrupt of highest priority
/// has its request cleared, the master enable is cleared and its handler is
/// called, which takes 20 cycles.
pub open spec fn interrupts_ok(cpu: Cpu, mmu: MmuView) -> bool {
    let (v, m1) = cpu.interrupts.poll_spec(mmu);
    cpu.interrupts.ime && v > 0 ==> call_ok(Cpu { interrupts: Interrupts { ime: false, ..cpu.interrupts }, ..cpu }, m1)
}

pub open spec fn interrupts_spec(cpu: Cpu, mmu: MmuView) -> (i16, Cpu, MmuView) {
    if !cpu.interrupts.ime {
        if cpu.is_halted && mmu.ram_at(crate::mmu::IF_REG) != 0 {
            (0, Cpu { is_halted: false, ..cpu }, mmu)
        } else {
            (0, cpu, mmu)
        }
    } else {
        let (v, m1) = cpu.interrupts.poll_spec(mmu);
        if v > 0 {
            let c1 = Cpu { interrupts: Interrupts { ime: false, ..cpu.interrupts }, ..cpu };
            let (c2, m2) = call_spec(c1, m1, v as u16);
            (20, c2, m2)
        } else {
            (0, cpu, m1)
        }
    }
}

/// Carrying out an operation never changes which registers hold IE and IF.
#[verifier::spinoff_prover]
#[verifier::rlimit(100)]
pub proof fn lemma_op_keeps_interrupt_regs(op: Op, cycles: i16, cpu: Cpu, mmu: MmuView, args: Seq<u8>)
    ensures
        op_spec(op, cycles, cpu, mmu, args).1.interrupts.enabled == cpu.interrupts.enabled,
        op_spec(op, cycles, cpu, mmu, args).1.interrupts.requested == cpu.interrupts.requested,
{
    reveal(op_spec);
}

// LY stays in range through the CPU's writes: first for the state builders of
// the operations, then for each operation that writes memory, by the equation
// that gives its memory.

proof fn lemma_set8_keeps_ly_in_range(cpu: Cpu, mmu: MmuView, args: Seq<u8>, t: Src)
    requires
        mmu.wf(),
        ly_in_range(mmu),
    ensures
        forall|v: u8| #[trigger] set8(cpu, mmu, args, t, v).1.wf() && ly_in_range(set8(cpu, mmu, args, t, v).1),
{
    broadcast use crate::ppu::lemma_cpu_write_keeps_ly_in_range;
}

proof fn lemma_set16_keeps_ly_in_range(cpu: Cpu, mmu: MmuView, args: Seq<u8>, t: Src)
    requires
        mmu.wf(),
        ly_in_range(mmu),
    ensures
        forall|v: u16| #[trigger] set16(cpu, mmu, args, t, v).1.wf() && ly_in_range(set16(cpu, mmu, args, t, v).1),
{
    broadcast use crate::ppu::lemma_cpu_write_keeps_ly_in_range;
}

proof fn lemma_stack_write_keeps_ly_in_range(cpu: Cpu, mmu: MmuView)
    requires
        mmu.wf(),
        ly_in_range(mmu),
    ensures
        forall|r: CpuRegIndex| #[trigger] push_spec(cpu, mmu, r).1.wf() && ly_in_range(push_spec(cpu, mmu, r).1),
        forall|a: u16| #[trigger] call_spec(cpu, mmu, a).1.wf() && ly_in_range(call_spec(cpu, mmu, a).1),
{
    broadcast use crate::ppu::lemma_cpu_write_keeps_ly_in_range;
}

proof fn lemma_store_keeps_ly_in_range(cpu: Cpu, mmu: MmuView, args: Seq<u8>, t: Src)
    requires
        mmu.wf(),
        ly_in_range(mmu),
    ensures
        forall|rf: (u8, crate::cpu_registers::Flags)| #[trigger] store_with_flags(cpu, mmu, args, t, rf).1.wf()
            && ly_in_range(store_with_flags(cpu, mmu, args, t, rf).1),
{
    lemma_set8_keeps_ly_in_range(cpu, mmu, args, t);
    assert forall|rf: (u8, crate::cpu_registers::Flags)| #[trigger] store_with_flags(cpu, mmu, args, t, rf).1
        == set8(cpu, mmu, args, t, rf.0).1 by {}
}

proof fn lemma_ld_hl_state_keeps_ly_in_range(cpu: Cpu, mmu: MmuView, args: Seq<u8>, t: Src, s: Src, inc: bool)
    requires
        mmu.wf(),
        ly_in_range(mmu),
    ensures
        ld_hl_state(cpu, mmu, args, t, s, inc).1.wf(),
        ly_in_range(ld_hl_state(cpu, mmu, args, t, s, inc).1),
{
    lemma_set8_keeps_ly_in_range(cpu, mmu, args, t);
    assert(ld_hl_state(cpu, mmu, args, t, s, inc).1 == set8(cpu, mmu, args, t, src8(cpu, mmu, args, s)).1);
}

proof fn lemma_rotate_circular_state_keeps_ly_in_range(cpu: Cpu, mmu: MmuView, args: Seq<u8>, t: Src, l: bool, z: bool)
    requires
        mmu.wf(),
        ly_in_range(mmu),
    ensures
        rotate_circular_state(cpu, mmu, args, t, l, z).1.wf(),
        ly_in_range(rotate_circular_state(cpu, mmu, args, t, l, z).1),
{
    lemma_store_keeps_ly_in_range(cpu, mmu, args, t);
}

proof fn lemma_rotate_state_keeps_ly_in_range(cpu: Cpu, mmu: MmuView, args: Seq<u8>, t: Src, l: bool, z: bool)
    requires
        mmu.wf(),
        ly_in_range(mmu),
    ensures
        rotate_state(cpu, mmu, args, t, l, z).1.wf(),
        ly_in_range(rotate_state(cpu, mmu, args, t, l, z).1),
{
    lemma_store_keeps_ly_in_range(cpu, mmu, args, t);
}

proof fn lemma_shift_state_keeps_ly_in_range(cpu: Cpu, mmu: MmuView, args: Seq<u8>, t: Src, l: bool, a: bool)
    requires
        mmu.wf(),
        ly_in_range(mmu),
    ensures
        shift_state(cpu, mmu, args, t, l, a).1.wf(),
        ly_in_range(shift_state(cpu, mmu, args, t, l, a).1),
{
    lemma_store_keeps_ly_in_range(cpu, mmu, args, t);
}

proof fn lemma_swap_store_keeps_ly_in_range(cpu: Cpu, mmu: MmuView, args: Seq<u8>, t: Src)
    requires
        mmu.wf(),
        ly_in_range(mmu),
    ensures
        store_with_flags(cpu, mmu, args, t, swap_spec(src8(cpu, mmu, args, t))).1.wf(),
        ly_in_range(store_with_flags(cpu, mmu, args, t, swap_spec(src8(cpu, mmu, args, t))).1),
{
    lemma_store_keeps_ly_in_range(cpu, mmu, args, t);
}

proof fn lemma_call_result_keeps_ly_in_range(c: Cond, cycles: i16, cpu: Cpu, mmu: MmuView, args: Seq<u8>)
    requires
        mmu.wf(),
        ly_in_range(mmu),
    ensures
        call_result(c, cycles, cpu, mmu, args).2.wf(),
        ly_in_range(call_result(c, cycles, cpu, mmu, args).2),
{
    lemma_stack_write_keeps_ly_in_range(cpu, mmu);
    let target = d16(args);
    assert(call_result(c, cycles, cpu, mmu, args).2 == mmu
        || call_result(c, cycles, cpu, mmu, args).2 == call_spec(cpu, mmu, target).1);
}

proof fn lemma_op_spec_ld8(t: Src, s: Src, cycles: i16, cpu: Cpu, mmu: MmuView, args: Seq<u8>)
    ensures
        op_spec(Op::Ld8(t, s), cycles, cpu, mmu, args).2 == set8(cpu, mmu, args, t, src8(cpu, mmu, args, s)).1,
{
    reveal(op_spec);
}

#[verifier::spinoff_prover]
#[verifier::rlimit(80)]
proof fn lemma_ld8_keeps_ly_in_range(t: Src, s: Src, cycles: i16, cpu: Cpu, mmu: MmuView, args: Seq<u8>)
    requires
        mmu.wf(),
        ly_in_range(mmu),
    ensures
        op_spec(Op::Ld8(t, s), cycles, cpu, mmu, args).2.wf(),
        ly_in_range(op_spec(Op::Ld8(t, s), cycles, cpu, mmu, args).2),
{
    lemma_set8_keeps_ly_in_range(cpu, mmu, args, t);
    lemma_op_spec_ld8(t, s, cycles, cpu, mmu, args);
}

proof fn lemma_op_spec_ld_hl(t: Src, s: Src, inc: bool, cycles: i16, cpu: Cpu, mmu: MmuView, args: Seq<u8>)
    ensures
        op_spec(Op::LdHl(t, s, inc), cycles, cpu, mmu, args).2 == ld_hl_state(cpu, mmu, args, t, s, inc).1,
{
    reveal(op_spec);
}

#[verifier::spinoff_prover]
#[verifier::rlimit(80)]
proof fn lemma_ld_hl_keeps_ly_in_range(t: Src, s: Src, inc: bool, cycles: i16, cpu: Cpu, mmu: MmuView, args: Seq<u8>)
    requires
        mmu.wf(),
        ly_in_range(mmu),
    ensures
        op_spec(Op::LdHl(t, s, inc), cycles, cpu, mmu, args).2.wf(),
        ly_in_range(op_spec(Op::LdHl(t, s, inc), cycles, cpu, mmu, args).2),
{
    lemma_ld_hl_state_keeps_ly_in_range(cpu, mmu, args, t, s, inc);
    lemma_op_spec_ld_hl(t, s, inc, cycles, cpu, mmu, args);
}

proof fn lemma_op_spec_inc8(t: Src, cycles: i16, cpu: Cpu, mmu: MmuView, args: Seq<u8>)
    ensures
        op_spec(Op::Inc8(t), cycles, cpu, mmu, args).2 == store_with_flags(cpu, mmu, args, t, crate::alu::increment_8_spec(src8(cpu, mmu, args, t), crate::instruction::flags_spec(cpu).carry)).1,
{
    reveal(op_spec);
}

#[verifier::spinoff_prover]
#[verifier::rlimit(80)]
proof fn lemma_inc8_keeps_ly_in_range(t: Src, cycles: i16, cpu: Cpu, mmu: MmuView, args: Seq<u8>)
    requires
        mmu.wf(),
        ly_in_range(mmu),
    ensures
        op_spec(Op::Inc8(t), cycles, cpu, mmu, args).2.wf(),
        ly_in_range(op_spec(Op::Inc8(t), cycles, cpu, mmu, args).2),
{
    lemma_store_keeps_ly_in_range(cpu, mmu, args, t);
    lemma_op_spec_inc8(t, cycles, cpu, mmu, args);
}

proof fn lemma_op_spec_dec8(t: Src, cycles: i16, cpu: Cpu, mmu: MmuView, args: Seq<u8>)
    ensures
        op_spec(Op::Dec8(t), cycles, cpu, mmu, args).2 == store_with_flags(cpu, mmu, args, t, crate::alu::decrement_8_spec(src8(cpu, mmu, args, t), crate::instruction::flags_spec(cpu).carry)).1,
{
    reveal(op_spec);
}

#[verifier::spinoff_prover]
#[verifier::rlimit(80)]
proof fn lemma_dec8_keeps_ly_in_range(t: Src, cycles: i16, cpu: Cpu, mmu: MmuView, args: Seq<u8>)
    requires
        mmu.wf(),
        ly_in_range(mmu),
    ensures
        op_spec(Op::Dec8(t), cycles, cpu, mmu, args).2.wf(),
        ly_in_range(op_spec(Op::Dec8(t), cycles, cpu, mmu, args).2),
{
    lemma_store_keeps_ly_in_range(cpu, mmu, args, t);
    lemma_op_spec_dec8(t, cycles, cpu, mmu, args);
}

proof fn lemma_op_spec_add8(t: Src, s: Src, cycles: i16, cpu: Cpu, mmu: MmuView, args: Seq<u8>)
    ensures
        op_spec(Op::Add8(t, s), cycles, cpu, mmu, args).2 == store_with_flags(cpu, mmu, args, t, crate::alu::add_8_spec(src8(cpu, mmu, args, t), src8(cpu, mmu, args, s))).1,
{
    reveal(op_spec);
}

#[verifier::spinoff_prover]
#[verifier::rlimit(80)]
proof fn lemma_add8_keeps_ly_in_range(t: Src, s: Src, cycles: i16, cpu: Cpu, mmu: MmuView, args: Seq<u8>)
    requires
        mmu.wf(),
        ly_in_range(mmu),
    ensures
        op_spec(Op::Add8(t, s), cycles, cpu, mmu, args).2.wf(),
        ly_in_range(op_spec(Op::Add8(t, s), cycles, cpu, mmu, args).2),
{
    lemma_store_keeps_ly_in_range(cpu, mmu, args, t);
    lemma_op_spec_add8(t, s, cycles, cpu, mmu, args);
}

proof fn lemma_op_spec_adc8(t: Src, s: Src, cycles: i16, cpu: Cpu, mmu: MmuView, args: Seq<u8>)
    ensures
        op_spec(Op::Adc8(t, s), cycles, cpu, mmu, args).2 == store_with_flags(cpu, mmu, args, t, crate::alu::adc_8_spec(src8(cpu, mmu, args, t), src8(cpu, mmu, args, s), crate::instruction::flags_spec(cpu).carry)).1,
{
    reveal(op_spec);
}

#[verifier::spinoff_prover]
#[verifier::rlimit(80)]
proof fn lemma_adc8_keeps_ly_in_range(t: Src, s: Src, cycles: i16, cpu: Cpu, mmu: MmuView, args: Seq<u8>)
    requires
        mmu.wf(),
        ly_in_range(mmu),
    ensures
        op_spec(Op::Adc8(t, s), cycles, cpu, mmu, args).2.wf(),
        ly_in_range(op_spec(Op::Adc8(t, s), cycles, cpu, mmu, args).2),
{
    lemma_store_keeps_ly_in_range(cpu, mmu, args, t);
    lemma_op_spec_adc8(t, s, cycles, cpu, mmu, args);
}

proof fn lemma_op_spec_sub8(t: Src, s: Src, cycles: i16, cpu: Cpu, mmu: MmuView, args: Seq<u8>)
    ensures
        op_spec(Op::Sub8(t, s), cycles, cpu, mmu, args).2 == store_with_flags(cpu, mmu, args, t, crate::alu::subtract_8_spec(src8(cpu, mmu, args, t), src8(cpu, mmu, args, s))).1,
{
    reveal(op_spec);
}

#[verifier::spinoff_prover]
#[verifier::rlimit(80)]
proof fn lemma_sub8_keeps_ly_in_range(t: Src, s: Src, cycles: i16, cpu: Cpu, mmu: MmuView, args: Seq<u8>)
    requires
        mmu.wf(),
        ly_in_range(mmu),
    ensures
        op_spec(Op::Sub8(t, s), cycles, cpu, mmu, args).2.wf(),
        ly_in_range(op_spec(Op::Sub8(t, s), cycles, cpu, mmu, args).2),
{
    lemma_store_keeps_ly_in_range(cpu, mmu, args, t);
    lemma_op_spec_sub8(t, s, cycles, cpu, mmu, args);
}

proof fn lemma_op_spec_sbc8(t: Src, s: Src, cycles: i16, cpu: Cpu, mmu: MmuView, args: Seq<u8>)
    ensures
        op_spec(Op::Sbc8(t, s), cycles, cpu, mmu, args).2 == store_with_flags(cpu, mmu, args, t, crate::alu::sbc_8_spec(src8(cpu, mmu, args, t), src8(cpu, mmu, args, s), crate::instruction::flags_spec(cpu).carry)).1,
{
    reveal(op_spec);
}

#[verifier::spinoff_prover]
#[verifier::rlimit(80)]
proof fn lemma_sbc8_keeps_ly_in_range(t: Src, s: Src, cycles: i16, cpu: Cpu, mmu: MmuView, args: Seq<u8>)
    requires
        mmu.wf(),
        ly_in_range(mmu),
    ensures
        op_spec(Op::Sbc8(t, s), cycles, cpu, mmu, args).2.wf(),
        ly_in_range(op_spec(Op::Sbc8(t, s), cycles, cpu, mmu, args).2),
{
    lemma_store_keeps_ly_in_range(cpu, mmu, args, t);
    lemma_op_spec_sbc8(t, s, cycles, cpu, mmu, args);
}

proof fn lemma_op_spec_rotate_circular(t: Src, l: bool, z: bool, cycles: i16, cpu: Cpu, mmu: MmuView, args: Seq<u8>)
    ensures
        op_spec(Op::RotateCircular(t, l, z), cycles, cpu, mmu, args).2 == rotate_circular_state(cpu, mmu, args, t, l, z).1,
{
    reveal(op_spec);
}

#[verifier::spinoff_prover]
#[verifier::rlimit(80)]
proof fn lemma_rotate_circular_keeps_ly_in_range(t: Src, l: bool, z: bool, cycles: i16, cpu: Cpu, mmu: MmuView, args: Seq<u8>)
    requires
        mmu.wf(),
        ly_in_range(mmu),
    ensures
        op_spec(Op::RotateCircular(t, l, z), cycles, cpu, mmu, args).2.wf(),
        ly_in_range(op_spec(Op::RotateCircular(t, l, z), cycles, cpu, mmu, args).2),
{
    lemma_rotate_circular_state_keeps_ly_in_range(cpu, mmu, args, t, l, z);
    lemma_op_spec_rotate_circular(t, l, z, cycles, cpu, mmu, args);
}

proof fn lemma_op_spec_rotate(t: Src, l: bool, z: bool, cycles: i16, cpu: Cpu, mmu: MmuView, args: Seq<u8>)
    ensures
        op_spec(Op::Rotate(t, l, z), cycles, cpu, mmu, args).2 == rotate_state(cpu, mmu, args, t, l, z).1,
{
    reveal(op_spec);
}

#[verifier::spinoff_prover]
#[verifier::rlimit(80)]
proof fn lemma_rotate_keeps_ly_in_range(t: Src, l: bool, z: bool, cycles: i16, cpu: Cpu, mmu: MmuView, args: Seq<u8>)
    requires
        mmu.wf(),
        ly_in_range(mmu),
    ensures
        op_spec(Op::Rotate(t, l, z), cycles, cpu, mmu, args).2.wf(),
        ly_in_range(op_spec(Op::Rotate(t, l, z), cycles, cpu, mmu, args).2),
{
    lemma_rotate_state_keeps_ly_in_range(cpu, mmu, args, t, l, z);
    lemma_op_spec_rotate(t, l, z, cycles, cpu, mmu, args);
}

proof fn lemma_op_spec_shift(t: Src, l: bool, a: bool, cycles: i16, cpu: Cpu, mmu: MmuView, args: Seq<u8>)
    ensures
        op_spec(Op::Shift(t, l, a), cycles, cpu, mmu, args).2 == shift_state(cpu, mmu, args, t, l, a).1,
{
    reveal(op_spec);
}

#[verifier::spinoff_prover]
#[verifier::rlimit(80)]
proof fn lemma_shift_keeps_ly_in_range(t: Src, l: bool, a: bool, cycles: i16, cpu: Cpu, mmu: MmuView, args: Seq<u8>)
    requires
        mmu.wf(),
        ly_in_range(mmu),
    ensures
        op_spec(Op::Shift(t, l, a), cycles, cpu, mmu, args).2.wf(),
        ly_in_range(op_spec(Op::Shift(t, l, a), cycles, cpu, mmu, args).2),
{
    lemma_shift_state_keeps_ly_in_range(cpu, mmu, args, t, l, a);
    lemma_op_spec_shift(t, l, a, cycles, cpu, mmu, args);
}

proof fn lemma_op_spec_swap(t: Src, cycles: i16, cpu: Cpu, mmu: MmuView, args: Seq<u8>)
    ensures
        op_spec(Op::Swap(t), cycles, cpu, mmu, args).2 == store_with_flags(cpu, mmu, args, t, swap_spec(src8(cpu, mmu, args, t))).1,
{
    reveal(op_spec);
}

#[verifier::spinoff_prover]
#[verifier::rlimit(80)]
proof fn lemma_swap_keeps_ly_in_range(t: Src, cycles: i16, cpu: Cpu, mmu: MmuView, args: Seq<u8>)
    requires
        mmu.wf(),
        ly_in_range(mmu),
    ensures
        op_spec(Op::Swap(t), cycles, cpu, mmu, args).2.wf(),
        ly_in_range(op_spec(Op::Swap(t), cycles, cpu, mmu, args).2),
{
    lemma_swap_store_keeps_ly_in_range(cpu, mmu, args, t);
    lemma_op_spec_swap(t, cycles, cpu, mmu, args);
}

proof fn lemma_op_spec_set_bit(t: Src, n: u8, set: bool, cycles: i16, cpu: Cpu, mmu: MmuView, args: Seq<u8>)
    ensures
        op_spec(Op::SetBit(t, n, set), cycles, cpu, mmu, args).2 == set8(cpu, mmu, args, t, crate::register::with_bit(src8(cpu, mmu, args, t), n, set)).1,
{
    reveal(op_spec);
}

#[verifier::spinoff_prover]
#[verifier::rlimit(80)]
proof fn lemma_set_bit_keeps_ly_in_range(t: Src, n: u8, set: bool, cycles: i16, cpu: Cpu, mmu: MmuView, args: Seq<u8>)
    requires
        mmu.wf(),
        ly_in_range(mmu),
    ensures
        op_spec(Op::SetBit(t, n, set), cycles, cpu, mmu, args).2.wf(),
        ly_in_range(op_spec(Op::SetBit(t, n, set), cycles, cpu, mmu, args).2),
{
    lemma_set8_keeps_ly_in_range(cpu, mmu, args, t);
    lemma_op_spec_set_bit(t, n, set, cycles, cpu, mmu, args);
}

proof fn lemma_op_spec_ld16(t: Src, s: Src, cycles: i16, cpu: Cpu, mmu: MmuView, args: Seq<u8>)
    ensures
        op_spec(Op::Ld16(t, s), cycles, cpu, mmu, args).2 == set16(cpu, mmu, args, t, crate::instruction::src16(cpu, args, s)).1,
{
    reveal(op_spec);
}

#[verifier::spinoff_prover]
#[verifier::rlimit(80)]
proof fn lemma_ld16_keeps_ly_in_range(t: Src, s: Src, cycles: i16, cpu: Cpu, mmu: MmuView, args: Seq<u8>)
    requires
        mmu.wf(),
        ly_in_range(mmu),
    ensures
        op_spec(Op::Ld16(t, s), cycles, cpu, mmu, args).2.wf(),
        ly_in_range(op_spec(Op::Ld16(t, s), cycles, cpu, mmu, args).2),
{
    lemma_set16_keeps_ly_in_range(cpu, mmu, args, t);
    lemma_op_spec_ld16(t, s, cycles, cpu, mmu, args);
}

proof fn lemma_op_spec_inc16(t: Src, cycles: i16, cpu: Cpu, mmu: MmuView, args: Seq<u8>)
    ensures
        op_spec(Op::Inc16(t), cycles, cpu, mmu, args).2 == set16(cpu, mmu, args, t, ((crate::instruction::src16(cpu, args, t) + 1) % 65536) as u16).1,
{
    reveal(op_spec);
}

#[verifier::spinoff_prover]
#[verifier::rlimit(80)]
proof fn lemma_inc16_keeps_ly_in_range(t: Src, cycles: i16, cpu: Cpu, mmu: MmuView, args: Seq<u8>)
    requires
        mmu.wf(),
        ly_in_range(mmu),
    ensures
        op_spec(Op::Inc16(t), cycles, cpu, mmu, args).2.wf(),
        ly_in_range(op_spec(Op::Inc16(t), cycles, cpu, mmu, args).2),
{
    let v = ((crate::instruction::src16(cpu, args, t) + 1) % 65536) as u16;
    lemma_set16_keeps_ly_in_range(cpu, mmu, args, t);
    assert(set16(cpu, mmu, args, t, v).1.wf() && ly_in_range(set16(cpu, mmu, args, t, v).1));
    lemma_op_spec_inc16(t, cycles, cpu, mmu, args);
}

proof fn lemma_op_spec_dec16(t: Src, cycles: i16, cpu: Cpu, mmu: MmuView, args: Seq<u8>)
    ensures
        op_spec(Op::Dec16(t), cycles, cpu, mmu, args).2 == set16(cpu, mmu, args, t, crate::instruction::dec16_value(crate::instruction::src16(cpu, args, t))).1,
{
    reveal(op_spec);
}

#[verifier::spinoff_prover]
#[verifier::rlimit(80)]
proof fn lemma_dec16_keeps_ly_in_range(t: Src, cycles: i16, cpu: Cpu, mmu: MmuView, args: Seq<u8>)
    requires
        mmu.wf(),
        ly_in_range(mmu),
    ensures
        op_spec(Op::Dec16(t), cycles, cpu, mmu, args).2.wf(),
        ly_in_range(op_spec(Op::Dec16(t), cycles, cpu, mmu, args).2),
{
    let v = crate::instruction::dec16_value(crate::instruction::src16(cpu, args, t));
    lemma_set16_keeps_ly_in_range(cpu, mmu, args, t);
    assert(set16(cpu, mmu, args, t, v).1.wf() && ly_in_range(set16(cpu, mmu, args, t, v).1));
    lemma_op_spec_dec16(t, cycles, cpu, mmu, args);
}

proof fn lemma_op_spec_call(c: Cond, cycles: i16, cpu: Cpu, mmu: MmuView, args: Seq<u8>)
    ensures
        op_spec(Op::Call(c), cycles, cpu, mmu, args).2 == call_result(c, cycles, cpu, mmu, args).2,
{
    reveal(op_spec);
}

#[verifier::spinoff_prover]
#[verifier::rlimit(80)]
proof fn lemma_call_keeps_ly_in_range(c: Cond, cycles: i16, cpu: Cpu, mmu: MmuView, args: Seq<u8>)
    requires
        mmu.wf(),
        ly_in_range(mmu),
    ensures
        op_spec(Op::Call(c), cycles, cpu, mmu, args).2.wf(),
        ly_in_range(op_spec(Op::Call(c), cycles, cpu, mmu, args).2),
{
    lemma_call_result_keeps_ly_in_range(c, cycles, cpu, mmu, args);
    lemma_op_spec_call(c, cycles, cpu, mmu, args);
}

proof fn lemma_op_spec_rst(a: u16, cycles: i16, cpu: Cpu, mmu: MmuView, args: Seq<u8>)
    ensures
        op_spec(Op::Rst(a), cycles, cpu, mmu, args).2 == call_spec(cpu, mmu, a).1,
{
    reveal(op_spec);
}

#[verifier::spinoff_prover]
#[verifier::rlimit(80)]
proof fn lemma_rst_keeps_ly_in_range(a: u16, cycles: i16, cpu: Cpu, mmu: MmuView, args: Seq<u8>)
    requires
        mmu.wf(),
        ly_in_range(mmu),
    ensures
        op_spec(Op::Rst(a), cycles, cpu, mmu, args).2.wf(),
        ly_in_range(op_spec(Op::Rst(a), cycles, cpu, mmu, args).2),
{
    lemma_stack_write_keeps_ly_in_range(cpu, mmu);
    lemma_op_spec_rst(a, cycles, cpu, mmu, args);
}

proof fn lemma_op_spec_push(r: CpuRegIndex, cycles: i16, cpu: Cpu, mmu: MmuView, args: Seq<u8>)
    ensures
        op_spec(Op::Push(r), cycles, cpu, mmu, args).2 == push_spec(cpu, mmu, r).1,
{
    reveal(op_spec);
}

#[verifier::spinoff_prover]
#[verifier::rlimit(80)]
proof fn lemma_push_keeps_ly_in_range(r: CpuRegIndex, cycles: i16, cpu: Cpu, mmu: MmuView, args: Seq<u8>)
    requires
        mmu.wf(),
        ly_in_range(mmu),
    ensures
        op_spec(Op::Push(r), cycles, cpu, mmu, args).2.wf(),
        ly_in_range(op_spec(Op::Push(r), cycles, cpu, mmu, args).2),
{
    lemma_stack_write_keeps_ly_in_range(cpu, mmu);
    lemma_op_spec_push(r, cycles, cpu, mmu, args);
}

proof fn lemma_other_ops_keep_memory(op: Op, cycles: i16, cpu: Cpu, mmu: MmuView, args: Seq<u8>)
    requires
        !(op is Ld8 || op is LdHl || op is Inc8 || op is Dec8 || op is Add8 || op is Adc8 || op is Sub8
            || op is Sbc8 || op is RotateCircular || op is Rotate || op is Shift || op is Swap || op is SetBit
            || op is Ld16 || op is Inc16 || op is Dec16 || op is Call || op is Rst || op is Push),
    ensures
        op_spec(op, cycles, cpu, mmu, args).2 == mmu,
{
    reveal(op_spec);
}

/// Carrying out an operation keeps LY in range: the CPU's writes change
/// neither LY nor the PPU mode.
pub proof fn lemma_op_keeps_ly_in_range(op: Op, cycles: i16, cpu: Cpu, mmu: MmuView, args: Seq<u8>)
    requires
        mmu.wf(),
        ly_in_range(mmu),
    ensures
        op_spec(op, cycles, cpu, mmu, args).2.wf(),
        ly_in_range(op_spec(op, cycles, cpu, mmu, args).2),
{
    match op {
        Op::Ld8(t, s) => lemma_ld8_keeps_ly_in_range(t, s, cycles, cpu, mmu, args),
        Op::LdHl(t, s, inc) => lemma_ld_hl_keeps_ly_in_range(t, s, inc, cycles, cpu, mmu, args),
        Op::Inc8(t) => lemma_inc8_keeps_ly_in_range(t, cycles, cpu, mmu, args),
        Op::Dec8(t) => lemma_dec8_keeps_ly_in_range(t, cycles, cpu, mmu, args),
        Op::Add8(t, s) => lemma_add8_keeps_ly_in_range(t, s, cycles, cpu, mmu, args),
        Op::Adc8(t, s) => lemma_adc8_keeps_ly_in_range(t, s, cycles, cpu, mmu, args),
        Op::Sub8(t, s) => lemma_sub8_keeps_ly_in_range(t, s, cycles, cpu, mmu, args),
        Op::Sbc8(t, s) => lemma_sbc8_keeps_ly_in_range(t, s, cycles, cpu, mmu, args),
        Op::RotateCircular(t, l, z) => lemma_rotate_circular_keeps_ly_in_range(t, l, z, cycles, cpu, mmu, args),
        Op::Rotate(t, l, z) => lemma_rotate_keeps_ly_in_range(t, l, z, cycles, cpu, mmu, args),
        Op::Shift(t, l, a) => lemma_shift_keeps_ly_in_range(t, l, a, cycles, cpu, mmu, args),
        Op::Swap(t) => lemma_swap_keeps_ly_in_range(t, cycles, cpu, mmu, args),
        Op::SetBit(t, n, set) => lemma_set_bit_keeps_ly_in_range(t, n, set, cycles, cpu, mmu, args),
        Op::Ld16(t, s) => lemma_ld16_keeps_ly_in_range(t, s, cycles, cpu, mmu, args),
        Op::Inc16(t) => lemma_inc16_keeps_ly_in_range(t, cycles, cpu, mmu, args),
        Op::Dec16(t) => lemma_dec16_keeps_ly_in_range(t, cycles, cpu, mmu, args),
        Op::Call(c) => lemma_call_keeps_ly_in_range(c, cycles, cpu, mmu, args),
        Op::Rst(a) => lemma_rst_keeps_ly_in_range(a, cycles, cpu, mmu, args),
        Op::Push(r) => lemma_push_keeps_ly_in_range(r, cycles, cpu, mmu, args),
        _ => lemma_other_ops_keep_memory(op, cycles, cpu, mmu, args),
    }
}

/// A CPU step keeps LY in range.
pub proof fn lemma_step_keeps_ly_in_range(cpu: Cpu, mmu: MmuView)
    requires
        mmu.wf(),
        ly_in_range(mmu),
    ensures
        step_spec(cpu, mmu).2.wf(),
        ly_in_range(step_spec(cpu, mmu).2),
{
    if !cpu.is_halted {
        let (c1, opcode, args) = fetched(cpu, mmu);
        lemma_op_keeps_ly_in_range(operation(opcode), instruction_spec(opcode).cycles, c1, mmu, args);
    }
}

/// Servicing interrupts keeps LY in range: it clears a request bit and pushes
/// the return address.
pub proof fn lemma_interrupts_keep_ly_in_range(cpu: Cpu, mmu: MmuView)
    requires
        mmu.wf(),
        ly_in_range(mmu),
    ensures
        interrupts_spec(cpu, mmu).2.wf(),
        ly_in_range(interrupts_spec(cpu, mmu).2),
{
    if cpu.interrupts.ime {
        let (v, m1) = cpu.interrupts.poll_spec(mmu);
        let c1 = Cpu { interrupts: Interrupts { ime: false, ..cpu.interrupts }, ..cpu };
        assert(m1.wf() && ly_in_range(m1));
        lemma_stack_write_keeps_ly_in_range(c1, m1);
    }
}

/// Interrupt dispatch: with the master enable set and interrupt `n` the pending
/// one of highest priority (the lowest bit of IE & IF), servicing takes 20
/// cycles, clears the master enable and the request bit of `n` only, pushes PC
/// (stack bytes in plain RAM) and jumps to the handler at 0x40 + 8n; the 8-bit
/// registers are unchanged.
pub proof fn lemma_interrupt_dispatch(cpu: Cpu, mmu: MmuView, n: u8)
    requires
        mmu.wf(),
        cpu.wf(),
        cpu.interrupts.ime,
        n < 5,
        bit_set(cpu.interrupts.pending_spec(mmu), n),
        forall|k: u8| k < n ==> !bit_set(cpu.interrupts.pending_spec(mmu), k),
        is_plain_ram(sp_minus_2(cpu)),
        is_plain_ram((sp_minus_2(cpu) + 1) as u16),
    ensures
        ({
            let (r, c, m) = interrupts_spec(cpu, mmu);
            &&& r == 20
            &&& !c.interrupts.ime
            &&& c.registers.pc == handler_address(n) as u16
            &&& c.registers.sp == sp_minus_2(cpu)
            &&& m.read_16(sp_minus_2(cpu), Endianness::BIG, Caller::CPU) == cpu.registers.pc
            &&& m.ram_at(IF_REG) == with_bit(mmu.ram_at(IF_REG), n, false)
            &&& c.registers.a == cpu.registers.a && c.registers.f == cpu.registers.f
            &&& c.registers.b == cpu.registers.b && c.registers.c == cpu.registers.c
            &&& c.registers.d == cpu.registers.d && c.registers.e == cpu.registers.e
            &&& c.registers.h == cpu.registers.h && c.registers.l == cpu.registers.l
        }),
{
    crate::interrupts::lemma_poll_priority(cpu.interrupts, mmu, n);
    let m1 = with_request_bit(mmu, n, false);
    let c1 = Cpu { interrupts: Interrupts { ime: false, ..cpu.interrupts }, ..cpu };
    let regs0 = c1.registers;
    let sp1 = sp_minus_2(cpu);
    let regs1 = regs0.decremented(CpuRegIndex::SP, 2);
    assert(regs1 == regs0.with_word(CpuRegIndex::SP, sp1));
    crate::cpu_registers::lemma_word_round_trip(regs0, CpuRegIndex::SP, sp1, CpuRegIndex::PC);
    assert(regs1.word(CpuRegIndex::PC) == cpu.registers.pc);
    crate::mmu::lemma_write_16_read_16(m1, sp1, cpu.registers.pc);
    let (first, second) = MmuView::word_bytes(cpu.registers.pc, Endianness::BIG);
    let m2a = m1.write_8(sp1, first, Caller::CPU);
    assert(m2a.ram_at(IF_REG) == m1.ram_at(IF_REG));
    let m2 = m2a.write_8((sp1 + 1) as u16, second, Caller::CPU);
    assert(m2.ram_at(IF_REG) == m2a.ram_at(IF_REG));
    assert(m2 == m1.write_16(sp1, cpu.registers.pc, Endianness::BIG, Caller::CPU));
}

proof fn lemma_store_register(cpu: Cpu, mmu: MmuView, args: Seq<u8>, t: Src, rf: (u8, crate::cpu_registers::Flags))
    requires
        crate::instruction::is_reg8(t),
        t != Src::F,
    ensures
        store_with_flags(cpu, mmu, args, t, rf).0.registers.byte(crate::instruction::reg_of(t)) == rf.0,
        crate::cpu_registers::flags_of(store_with_flags(cpu, mmu, args, t, rf).0.registers.f) == rf.1,
{
    crate::cpu_registers::lemma_flags_round_trip(rf.1);
}

proof fn lemma_op_spec_dec8_register(t: Src, cycles: i16, cpu: Cpu, mmu: MmuView, args: Seq<u8>)
    requires
        crate::instruction::is_reg8(t),
        t != Src::F,
    ensures
        op_spec(Op::Dec8(t), cycles, cpu, mmu, args).1.registers.byte(crate::instruction::reg_of(t))
            == (cpu.registers.byte(crate::instruction::reg_of(t)) + 255) % 256,
        crate::cpu_registers::flags_of(op_spec(Op::Dec8(t), cycles, cpu, mmu, args).1.registers.f).subtract,
{
    let rf = crate::alu::decrement_8_spec(src8(cpu, mmu, args, t), crate::instruction::flags_spec(cpu).carry);
    assert(op_spec(Op::Dec8(t), cycles, cpu, mmu, args).1 == store_with_flags(cpu, mmu, args, t, rf).0) by {
        reveal(op_spec);
    }
    lemma_store_register(cpu, mmu, args, t, rf);
}

proof fn lemma_op_spec_inc8_register(t: Src, cycles: i16, cpu: Cpu, mmu: MmuView, args: Seq<u8>)
    requires
        crate::instruction::is_reg8(t),
        t != Src::F,
    ensures
        op_spec(Op::Inc8(t), cycles, cpu, mmu, args).1.registers.byte(crate::instruction::reg_of(t))
            == (cpu.registers.byte(crate::instruction::reg_of(t)) + 1) % 256,
        !crate::cpu_registers::flags_of(op_spec(Op::Inc8(t), cycles, cpu, mmu, args).1.registers.f).subtract,
{
    let rf = crate::alu::increment_8_spec(src8(cpu, mmu, args, t), crate::instruction::flags_spec(cpu).carry);
    assert(op_spec(Op::Inc8(t), cycles, cpu, mmu, args).1 == store_with_flags(cpu, mmu, args, t, rf).0) by {
        reveal(op_spec);
    }
    lemma_store_register(cpu, mmu, args, t, rf);
}

/// INC r and DEC r: a step on an unprefixed opcode 00yyy100 (INC) or 00yyy101
/// (DEC), with y naming a register (not (HL)), takes the register that bits 3-5
/// name up or down by one, wrapping at 8 bits; DEC sets the subtract flag and
/// INC clears it.
pub proof fn lemma_step_inc_dec_register(cpu: Cpu, mmu: MmuView)
    requires
        !cpu.is_halted,
        mmu.read_8(cpu.registers.pc, Caller::CPU) < 0x40,
        mmu.read_8(cpu.registers.pc, Caller::CPU) % 8 == 4 || mmu.read_8(cpu.registers.pc, Caller::CPU) % 8 == 5,
        (mmu.read_8(cpu.registers.pc, Caller::CPU) / 8) % 8 != 6,
    ensures
        ({
            let b = mmu.read_8(cpu.registers.pc, Caller::CPU);
            let reg = crate::instruction::reg_of(crate::instruction_table::operand_of_bits((b / 8) % 8));
            let v = cpu.registers.byte(reg);
            let c = step_spec(cpu, mmu).1;
            &&& b % 8 == 5 ==> c.registers.byte(reg) == (v + 255) % 256
                && crate::cpu_registers::flags_of(c.registers.f).subtract
            &&& b % 8 == 4 ==> c.registers.byte(reg) == (v + 1) % 256
                && !crate::cpu_registers::flags_of(c.registers.f).subtract
        }),
{
    let b = mmu.read_8(cpu.registers.pc, Caller::CPU);
    let t = crate::instruction_table::operand_of_bits((b / 8) % 8);
    let (c1, opcode, args) = fetched(cpu, mmu);
    assert(opcode == b as u16);
    crate::instruction_table::lemma_unprefixed_operation_fields(b);
    assert(c1.registers.byte(crate::instruction::reg_of(t)) == cpu.registers.byte(crate::instruction::reg_of(t)));
    if b % 8 == 5 {
        assert(operation(opcode) == Op::Dec8(t));
        lemma_op_spec_dec8_register(t, instruction_spec(opcode).cycles, c1, mmu, args);
    } else {
        assert(operation(opcode) == Op::Inc8(t));
        lemma_op_spec_inc8_register(t, instruction_spec(opcode).cycles, c1, mmu, args);
    }
}

/// A CPU step keeps the CPU well formed.
pub proof fn lemma_step_keeps_wf(cpu: Cpu, mmu: MmuView)
    requires
        cpu.wf(),
    ensures
        step_spec(cpu, mmu).1.wf(),
{
    if !cpu.is_halted {
        let (c1, opcode, args) = fetched(cpu, mmu);
        lemma_op_keeps_interrupt_regs(operation(opcode), instruction_spec(opcode).cycles, c1, mmu, args);
    }
}

/// Interrupt servicing keeps the CPU well formed.
pub proof fn lemma_interrupts_keep_wf(cpu: Cpu, mmu: MmuView)
    requires
        cpu.wf(),
    ensures
        interrupts_spec(cpu, mmu).1.wf(),
{
}

proof fn lemma_pc_advanced_zero(cpu: Cpu)
    ensures
        pc_advanced(cpu, 0) == cpu,
{
    assert(cpu.registers.incremented(CpuRegIndex::PC, 0) == cpu.registers);
}

proof fn lemma_pc_advanced_twice(cpu: Cpu)
    ensures
        pc_advanced(pc_advanced(cpu, 1), 1) == pc_advanced(cpu, 2),
        pc_advanced(cpu, 1).registers.pc == pc_plus(cpu.registers.pc, 1),
{
}

impl Cpu {
    pub open spec fn wf(self) -> bool {
        self.interrupts.wf()
    }

    pub fn new(debug_print: bool) -> (r: Cpu)
        ensures
            r.wf(),
            !r.is_halted,
            r.registers == (CpuRegisters { a: 0, b: 0, c: 0, d: 0, e: 0, f: 0, h: 0, l: 0, pc: 0, sp: 0 }),
            !r.interrupts.ime,
            r.interrupts == (Interrupts {
                enabled: crate::register::Register { address: crate::mmu::IE_REG, value: 0 },
                requested: crate::register::Register { address: crate::mmu::IF_REG, value: 0 },
                ime: false,
            }),
            r.debug_print_on == debug_print,
            r.trace is None,
    {
        Cpu {
            is_halted: false,
            registers: CpuRegisters::new(),
            interrupts: Interrupts::new(),
            debug_print_on: debug_print,
            trace: None,
        }
    }

    pub fn halt(&mut self)
        ensures
            *final(self) == (Cpu { is_halted: true, ..*old(self) }),
    {
        self.is_halted = true;
    }

    /// Whether servicing interrupts is defined: when an interrupt is to be
    /// dispatched, the return address can be pushed.
    pub fn can_handle_interrupts(&self, mmu: &Mmu) -> (r: bool)
        requires
            self.wf(),
        ensures
            r == interrupts_ok(*self, mmu@),
    {
        if !self.interrupts.ime {
            return true;
        }
        let pending = self.interrupts.peek_interrupts(mmu);
        proof {
            crate::bits::lemma_bit_ops(pending, 0);
            crate::bits::lemma_bit_ops(pending, 1);
            crate::bits::lemma_bit_ops(pending, 2);
            crate::bits::lemma_bit_ops(pending, 3);
            crate::bits::lemma_bit_ops(pending, 4);
        }
        if pending & (1u8 << 0u8) == 0 && pending & (1u8 << 1u8) == 0 && pending & (1u8 << 2u8) == 0
            && pending & (1u8 << 3u8) == 0 && pending & (1u8 << 4u8) == 0 {
            return true;
        }
        let dispatching = Cpu { interrupts: Interrupts { ime: false, ..self.interrupts }, ..*self };
        proof {
            // Clearing a request bit changes no byte's writability.
            let m1 = self.interrupts.poll_spec(mmu@).1;
            let regs1 = dispatching.registers.decremented(CpuRegIndex::SP, 2);
            crate::mmu::lemma_write_16_ok(m1, regs1.sp, regs1.word(CpuRegIndex::PC), Endianness::BIG, Caller::CPU);
            crate::mmu::lemma_write_16_ok(mmu@, regs1.sp, regs1.word(CpuRegIndex::PC), Endianness::BIG, Caller::CPU);
        }
        Instruction::can_push(&dispatching, mmu, CpuRegIndex::PC)
    }

    /// Whether a step is defined: a halted CPU idles; else the opcode and
    /// argument bytes at PC can be read and the operation can be carried out.
    pub fn can_step(&self, mmu: &Mmu) -> (r: bool)
        ensures
            r == step_ok(*self, mmu@),
    {
        if self.is_halted {
            return true;
        }
        let start_pc = self.registers.get_word(CpuRegIndex::PC);
        if !mmu.can_read_8(start_pc) {
            return false;
        }
        if mmu.read_8(start_pc, Caller::CPU) == PREFIX_BYTE {
            let next: u16 = if start_pc == 0xFFFF { 0 } else { start_pc + 1 };
            if !mmu.can_read_8(next) {
                return false;
            }
        }

        let mut fetching = *self;
        let opcode = fetching.fetch_opcode(mmu);
        let instruction = Instruction::get_instruction(opcode);
        proof {
            crate::instruction_table::lemma_entries_sane(opcode);
        }
        let num_args: u16 = if instruction.cycles < 0 {
            0
        } else if instruction.is_cbprefixed() {
            instruction.size - 2
        } else {
            instruction.size - 1
        };
        let args_pc = fetching.registers.get_word(CpuRegIndex::PC);
        if num_args > 0 && !mmu.can_read_8(args_pc) {
            return false;
        }
        if num_args > 1 {
            let next: u16 = if args_pc == 0xFFFF { 0 } else { args_pc + 1 };
            if !mmu.can_read_8(next) {
                return false;
            }
        }

        let args = fetching.fetch_args(&instruction, mmu);
        let taken: u16 = if args.len() > 1 { 2 } else if args.len() == 1 { 1 } else { 0 };
        let arg0: u8 = if args.len() > 0 { args[0] } else { 0 };
        let arg1: u8 = if args.len() > 1 { args[1] } else { 0 };
        fetching.trace = Some(InstructionTrace { start_pc, opcode, num_args: taken, arg0, arg1 });

        Instruction::can_execute(Instruction::operation_of(opcode), &fetching, mmu, args.as_slice())
    }

    /// Services interrupts and returns the cycles it took.
    pub fn handle_interrupts(&mut self, mmu: &mut Mmu) -> (r: i16)
        requires
            old(self).wf(),
            interrupts_ok(*old(self), old(mmu)@),
        ensures
            (r, *final(self), final(mmu)@) == interrupts_spec(*old(self), old(mmu)@),
    {
        let mut cycles: i16 = 0;

        if !self.interrupts.ime {
            if self.is_halted && self.interrupts.peek_requested(mmu) {
                self.is_halted = false;
            }
        } else {
            let value = self.interrupts.poll(mmu);
            if value > 0 {
                self.interrupts.set_ime(false);
                Instruction::call(self, mmu, value as u16);
                cycles = 20;
            }
        }
        cycles
    }

    /// Runs one step and returns the cycles it took.
    pub fn step(&mut self, mmu: &mut Mmu) -> (r: i16)
        requires
            step_ok(*old(self), old(mmu)@),
        ensures
            (r, *final(self), final(mmu)@) == step_spec(*old(self), old(mmu)@),
    {
        if self.is_halted {
            4
        } else {
            self.execute_instruction(mmu)
        }
    }

    /// Reads the byte at PC and moves PC past it.
    pub fn read_byte_at_pc(&mut self, mmu: &Mmu) -> (r: u8)
        requires
            mmu@.read_8_ok(old(self).registers.pc),
        ensures
            r == mmu@.read_8(old(self).registers.pc, Caller::CPU),
            *final(self) == pc_advanced(*old(self), 1),
    {
        let pc = self.registers.get_word(CpuRegIndex::PC);
        let d8 = mmu.read_8(pc, Caller::CPU);
        self.registers.increment(CpuRegIndex::PC, 1);
        d8
    }

    /// Reads the opcode at PC (two bytes after a 0xCB prefix) and moves PC past it.
    pub fn fetch_opcode(&mut self, mmu: &Mmu) -> (r: u16)
        requires
            opcode_readable(mmu@, old(self).registers.pc),
        ensures
            r == opcode_at(mmu@, old(self).registers.pc),
            *final(self) == pc_advanced(*old(self), opcode_len(mmu@, old(self).registers.pc)),
    {
        let ghost pc = self.registers.pc;
        let mut opcode: u16;

        let mut byte = self.read_byte_at_pc(mmu);

        if byte == PREFIX_BYTE {
            opcode = (byte as u16) << 8;
            byte = self.read_byte_at_pc(mmu);
            proof { crate::bits::lemma_byte_in_word(byte); }
            opcode |= byte as u16;
        } else {
            opcode = byte as u16;
        }
        proof {
            assert(self.registers.pc == pc_plus(pc, opcode_len(mmu@, pc) as int));
        }
        opcode
    }

    /// Reads the argument bytes of an instruction and moves PC past them.
    pub fn fetch_args(&mut self, instruction: &Instruction, mmu: &Mmu) -> (r: Vec<u8>)
        requires
            instruction.cycles >= 0 ==> instruction.size >= if instruction.is_cbprefixed_spec() { 2int } else { 1int },
            args_readable(mmu@, old(self).registers.pc, num_args_spec(*instruction)),
        ensures
            r@ == args_at(mmu@, old(self).registers.pc, num_args_spec(*instruction)),
            *final(self) == pc_advanced(*old(self), args_taken(num_args_spec(*instruction))),
    {
        let ghost c0 = *self;
        let mut args: Vec<u8> = vec![];

        if instruction.cycles < 0 {
            proof {
                lemma_pc_advanced_zero(c0);
                assert(args@ =~= seq![]);
            }
            return args;
        }

        let num_args = if instruction.is_cbprefixed() {
            instruction.size - 2
        } else {
            instruction.size - 1
        };
        assert(num_args == num_args_spec(*instruction));

        if num_args > 0 {
            let a = self.read_byte_at_pc(mmu);
            args.push(a);
        }
        if num_args > 1 {
            let b = self.read_byte_at_pc(mmu);
            args.push(b);
            proof {
                lemma_pc_advanced_twice(c0);
            }
        }
        proof {
            if num_args == 0 {
                lemma_pc_advanced_zero(c0);
                assert(args@ =~= seq![]);
            } else if num_args == 1 {
                assert(args@ =~= seq![mmu@.read_8(c0.registers.pc, Caller::CPU)]);
            } else {
                assert(args@ =~= seq![mmu@.read_8(c0.registers.pc, Caller::CPU),
                    mmu@.read_8(pc_plus(c0.registers.pc, 1), Caller::CPU)]);
            }
        }
        args
    }

    /// Fetches the instruction at PC, records it in the trace, and carries it out.
    #[verifier::rlimit(30)]
    pub fn execute_instruction(&mut self, mmu: &mut Mmu) -> (r: i16)
        requires
            execute_ok(*old(self), old(mmu)@),
        ensures
            (r, *final(self), final(mmu)@) == execute_spec(*old(self), old(mmu)@),
    {
        let start_pc = self.registers.get_word(CpuRegIndex::PC);

        let opcode = self.fetch_opcode(mmu);
        let mut instruction = Instruction::get_instruction(opcode);
        proof {
            crate::instruction_table::lemma_entries_sane(opcode);
        }
        let args = self.fetch_args(&instruction, mmu);

        let num_args: u16 = if args.len() > 1 { 2 } else if args.len() == 1 { 1 } else { 0 };
        let arg0: u8 = if args.len() > 0 { args[0] } else { 0 };
        let arg1: u8 = if args.len() > 1 { args[1] } else { 0 };
        self.trace = Some(InstructionTrace { start_pc, opcode, num_args, arg0, arg1 });

        let args = args.as_slice();
        instruction.execute(self, mmu, args)
    }
}

} // verus!
