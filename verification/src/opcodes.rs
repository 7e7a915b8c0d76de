use vstd::prelude::*;
use crate::alu;
use crate::cpu::Cpu;
use crate::cpu_registers::{CpuRegIndex, Flags};
use crate::instruction::{Instruction, Op, Src, Cond, op_ok, op_spec, cycles_reported, lemma_d16};
use crate::instruction_table::operation;
use crate::mmu::Mmu;

verus! {

impl Instruction {

    /// NOP
    /// 1 4
    /// - - - -
    fn op_0000(&mut self, cpu: &mut Cpu, mmu: &mut Mmu, args: &[u8]) -> (r: i16)
        requires
            old(self).cycles <= i16::MAX - 12,
            op_ok(Op::Nop, *old(cpu), old(mmu)@, args@),
        ensures
            cycles_reported(*old(self), *final(self), r),
            (r, *final(cpu), final(mmu)@) == op_spec(Op::Nop, old(self).cycles, *old(cpu), old(mmu)@, args@),
    {
        proof {
            reveal(op_ok);
            reveal(op_spec);
        }
        self.cycles
    }

    /// LD BC,d16
    /// 3 12
    /// - - - -
    fn op_0001(&mut self, cpu: &mut Cpu, mmu: &mut Mmu, args: &[u8]) -> (r: i16)
        requires
            old(self).cycles <= i16::MAX - 12,
            op_ok(Op::Ld16(Src::BC, Src::D16), *old(cpu), old(mmu)@, args@),
        ensures
            cycles_reported(*old(self), *final(self), r),
            (r, *final(cpu), final(mmu)@) == op_spec(Op::Ld16(Src::BC, Src::D16), old(self).cycles, *old(cpu), old(mmu)@, args@),
    {
        proof {
            reveal(op_ok);
            reveal(op_spec);
        }
        self.ld_16(cpu, mmu, args, Src::BC, Src::D16)
    }

    /// LD (BC),A
    /// 1 8
    /// - - - -
    fn op_0002(&mut self, cpu: &mut Cpu, mmu: &mut Mmu, args: &[u8]) -> (r: i16)
        requires
            old(self).cycles <= i16::MAX - 12,
            op_ok(Op::Ld8(Src::BCa, Src::A), *old(cpu), old(mmu)@, args@),
        ensures
            cycles_reported(*old(self), *final(self), r),
            (r, *final(cpu), final(mmu)@) == op_spec(Op::Ld8(Src::BCa, Src::A), old(self).cycles, *old(cpu), old(mmu)@, args@),
    {
        proof {
            reveal(op_ok);
            reveal(op_spec);
        }
        self.ld_8(cpu, mmu, args, Src::BCa, Src::A)
    }

    /// INC BC
    /// 1 8
    /// - - - -
    fn op_0003(&mut self, cpu: &mut Cpu, mmu: &mut Mmu, args: &[u8]) -> (r: i16)
        requires
            old(self).cycles <= i16::MAX - 12,
            op_ok(Op::Inc16(Src::BC), *old(cpu), old(mmu)@, args@),
        ensures
            cycles_reported(*old(self), *final(self), r),
            (r, *final(cpu), final(mmu)@) == op_spec(Op::Inc16(Src::BC), old(self).cycles, *old(cpu), old(mmu)@, args@),
    {
        proof {
            reveal(op_ok);
            reveal(op_spec);
        }
        self.increment_16(cpu, mmu, args, Src::BC)
    }

    /// INC B
    /// 1 4
    /// Z 0 H -
    fn op_0004(&mut self, cpu: &mut Cpu, mmu: &mut Mmu, args: &[u8]) -> (r: i16)
        requires
            old(self).cycles <= i16::MAX - 12,
            op_ok(Op::Inc8(Src::B), *old(cpu), old(mmu)@, args@),
        ensures
            cycles_reported(*old(self), *final(self), r),
            (r, *final(cpu), final(mmu)@) == op_spec(Op::Inc8(Src::B), old(self).cycles, *old(cpu), old(mmu)@, args@),
    {
        proof {
            reveal(op_ok);
            reveal(op_spec);
        }
        self.increment_8(cpu, mmu, args, Src::B)
    }

    /// DEC B
    /// 1 4
    /// Z 1 H -
    fn op_0005(&mut self, cpu: &mut Cpu, mmu: &mut Mmu, args: &[u8]) -> (r: i16)
        requires
            old(self).cycles <= i16::MAX - 12,
            op_ok(Op::Dec8(Src::B), *old(cpu), old(mmu)@, args@),
        ensures
            cycles_reported(*old(self), *final(self), r),
            (r, *final(cpu), final(mmu)@) == op_spec(Op::Dec8(Src::B), old(self).cycles, *old(cpu), old(mmu)@, args@),
    {
        proof {
            reveal(op_ok);
            reveal(op_spec);
        }
        self.decrement_8(cpu, mmu, args, Src::B)
    }

    /// LD B,d8
    /// 2 8
    /// - - - -
    fn op_0006(&mut self, cpu: &mut Cpu, mmu: &mut Mmu, args: &[u8]) -> (r: i16)
        requires
            old(self).cycles <= i16::MAX - 12,
            op_ok(Op::Ld8(Src::B, Src::D8), *old(cpu), old(mmu)@, args@),
        ensures
            cycles_reported(*old(self), *final(self), r),
            (r, *final(cpu), final(mmu)@) == op_spec(Op::Ld8(Src::B, Src::D8), old(self).cycles, *old(cpu), old(mmu)@, args@),
    {
        proof {
            reveal(op_ok);
            reveal(op_spec);
        }
        self.ld_8(cpu, mmu, args, Src::B, Src::D8)
    }

    /// RLCA
    /// 1 4
    /// 0 0 0 C
    fn op_0007(&mut self, cpu: &mut Cpu, mmu: &mut Mmu, args: &[u8]) -> (r: i16)
        requires
            old(self).cycles <= i16::MAX - 12,
            op_ok(Op::RotateCircular(Src::A, true, true), *old(cpu), old(mmu)@, args@),
        ensures
            cycles_reported(*old(self), *final(self), r),
            (r, *final(cpu), final(mmu)@) == op_spec(Op::RotateCircular(Src::A, true, true), old(self).cycles, *old(cpu), old(mmu)@, args@),
    {
        proof {
            reveal(op_ok);
            reveal(op_spec);
        }
        self.rotate_circular(cpu, mmu, args, Src::A, true, true)
    }

    /// LD (a16),SP
    /// 3 20
    /// - - - -
    fn op_0008(&mut self, cpu: &mut Cpu, mmu: &mut Mmu, args: &[u8]) -> (r: i16)
        requires
            old(self).cycles <= i16::MAX - 12,
            op_ok(Op::Ld16(Src::A16, Src::SP), *old(cpu), old(mmu)@, args@),
        ensures
            cycles_reported(*old(self), *final(self), r),
            (r, *final(cpu), final(mmu)@) == op_spec(Op::Ld16(Src::A16, Src::SP), old(self).cycles, *old(cpu), old(mmu)@, args@),
    {
        proof {
            reveal(op_ok);
            reveal(op_spec);
        }
        self.ld_16(cpu, mmu, args, Src::A16, Src::SP)
    }

    /// ADD HL,BC
    /// 1 8
    /// - 0 H C
    fn op_0009(&mut self, cpu: &mut Cpu, mmu: &mut Mmu, args: &[u8]) -> (r: i16)
        requires
            old(self).cycles <= i16::MAX - 12,
            op_ok(Op::AddHl(Src::BC), *old(cpu), old(mmu)@, args@),
        ensures
            cycles_reported(*old(self), *final(self), r),
            (r, *final(cpu), final(mmu)@) == op_spec(Op::AddHl(Src::BC), old(self).cycles, *old(cpu), old(mmu)@, args@),
    {
        proof {
            reveal(op_ok);
            reveal(op_spec);
        }
        self.add_hl(cpu, mmu, args, Src::BC)
    }

    /// LD A,(BC)
    /// 1  8
    /// - - - -
    fn op_000a(&mut self, cpu: &mut Cpu, mmu: &mut Mmu, args: &[u8]) -> (r: i16)
        requires
            old(self).cycles <= i16::MAX - 12,
            op_ok(Op::Ld8(Src::A, Src::BCa), *old(cpu), old(mmu)@, args@),
        ensures
            cycles_reported(*old(self), *final(self), r),
            (r, *final(cpu), final(mmu)@) == op_spec(Op::Ld8(Src::A, Src::BCa), old(self).cycles, *old(cpu), old(mmu)@, args@),
    {
        proof {
            reveal(op_ok);
            reveal(op_spec);
        }
        self.ld_8(cpu, mmu, args, Src::A, Src::BCa)
    }

    /// DEC BC 
    /// 1 8 
    /// - - - -
    fn op_000b(&mut self, cpu: &mut Cpu, mmu: &mut Mmu, args: &[u8]) -> (r: i16)
        requires
            old(self).cycles <= i16::MAX - 12,
            op_ok(Op::Dec16(Src::BC), *old(cpu), old(mmu)@, args@),
        ensures
            cycles_reported(*old(self), *final(self), r),
            (r, *final(cpu), final(mmu)@) == op_spec(Op::Dec16(Src::BC), old(self).cycles, *old(cpu), old(mmu)@, args@),
    {
        proof {
            reveal(op_ok);
            reveal(op_spec);
        }
        self.decrement_16(cpu, mmu, args, Src::BC)
    }

    /// INC C
    /// 1 4
    /// Z 0 H -
    fn op_000c(&mut self, cpu: &mut Cpu, mmu: &mut Mmu, args: &[u8]) -> (r: i16)
        requires
            old(self).cycles <= i16::MAX - 12,
            op_ok(Op::Inc8(Src::C), *old(cpu), old(mmu)@, args@),
        ensures
            cycles_reported(*old(self), *final(self), r),
            (r, *final(cpu), final(mmu)@) == op_spec(Op::Inc8(Src::C), old(self).cycles, *old(cpu), old(mmu)@, args@),
    {
        proof {
            reveal(op_ok);
            reveal(op_spec);
        }
        self.increment_8(cpu, mmu, args, Src::C)
    }

    /// DEC C
    /// 1 4
    /// Z 1 H -
    fn op_000d(&mut self, cpu: &mut Cpu, mmu: &mut Mmu, args: &[u8]) -> (r: i16)
        requires
            old(self).cycles <= i16::MAX - 12,
            op_ok(Op::Dec8(Src::C), *old(cpu), old(mmu)@, args@),
        ensures
            cycles_reported(*old(self), *final(self), r),
            (r, *final(cpu), final(mmu)@) == op_spec(Op::Dec8(Src::C), old(self).cycles, *old(cpu), old(mmu)@, args@),
    {
        proof {
            reveal(op_ok);
            reveal(op_spec);
        }
        self.decrement_8(cpu, mmu, args, Src::C)
    }

    /// LD C,d8
    /// 2 8
    /// - - - -
    fn op_000e(&mut self, cpu: &mut Cpu, mmu: &mut Mmu, args: &[u8]) -> (r: i16)
        requires
            old(self).cycles <= i16::MAX - 12,
            op_ok(Op::Ld8(Src::C, Src::D8), *old(cpu), old(mmu)@, args@),
        ensures
            cycles_reported(*old(self), *final(self), r),
            (r, *final(cpu), final(mmu)@) == op_spec(Op::Ld8(Src::C, Src::D8), old(self).cycles, *old(cpu), old(mmu)@, args@),
    {
        proof {
            reveal(op_ok);
            reveal(op_spec);
        }
        self.ld_8(cpu, mmu, args, Src::C, Src::D8)
    }

    /// RRCA
    /// 1 4
    /// 0 0 0 C
    fn op_000f(&mut self, cpu: &mut Cpu, mmu: &mut Mmu, args: &[u8]) -> (r: i16)
        requires
            old(self).cycles <= i16::MAX - 12,
            op_ok(Op::RotateCircular(Src::A, false, true), *old(cpu), old(mmu)@, args@),
        ensures
            cycles_reported(*old(self), *final(self), r),
            (r, *final(cpu), final(mmu)@) == op_spec(Op::RotateCircular(Src::A, false, true), old(self).cycles, *old(cpu), old(mmu)@, args@),
    {
        proof {
            reveal(op_ok);
            reveal(op_spec);
        }
        self.rotate_circular(cpu, mmu, args, Src::A, false, true)
    }

    /// STOP
    /// 2 4
    /// - - - -
    fn op_0010(&mut self, cpu: &mut Cpu, mmu: &mut Mmu, args: &[u8]) -> (r: i16)
        requires
            old(self).cycles <= i16::MAX - 12,
            op_ok(Op::Nop, *old(cpu), old(mmu)@, args@),
        ensures
            cycles_reported(*old(self), *final(self), r),
            (r, *final(cpu), final(mmu)@) == op_spec(Op::Nop, old(self).cycles, *old(cpu), old(mmu)@, args@),
    {
        proof {
            reveal(op_ok);
            reveal(op_spec);
        }
        self.cycles
    }

    /// LD DE,d16
    /// 3 12
    /// - - - -
    fn op_0011(&mut self, cpu: &mut Cpu, mmu: &mut Mmu, args: &[u8]) -> (r: i16)
        requires
            old(self).cycles <= i16::MAX - 12,
            op_ok(Op::Ld16(Src::DE, Src::D16), *old(cpu), old(mmu)@, args@),
        ensures
            cycles_reported(*old(self), *final(self), r),
            (r, *final(cpu), final(mmu)@) == op_spec(Op::Ld16(Src::DE, Src::D16), old(self).cycles, *old(cpu), old(mmu)@, args@),
    {
        proof {
            reveal(op_ok);
            reveal(op_spec);
        }
        self.ld_16(cpu, mmu, args, Src::DE, Src::D16)
    }

    /// LD (DE),A
    /// 1 8
    /// - - - -
    fn op_0012(&mut self, cpu: &mut Cpu, mmu: &mut Mmu, args: &[u8]) -> (r: i16)
        requires
            old(self).cycles <= i16::MAX - 12,
            op_ok(Op::Ld8(Src::DEa, Src::A), *old(cpu), old(mmu)@, args@),
        ensures
            cycles_reported(*old(self), *final(self), r),
            (r, *final(cpu), final(mmu)@) == op_spec(Op::Ld8(Src::DEa, Src::A), old(self).cycles, *old(cpu), old(mmu)@, args@),
    {
        proof {
            reveal(op_ok);
            reveal(op_spec);
        }
        self.ld_8(cpu, mmu, args, Src::DEa, Src::A)
    }

    /// INC DE
    /// 1 8
    /// - - - -
    fn op_0013(&mut self, cpu: &mut Cpu, mmu: &mut Mmu, args: &[u8]) -> (r: i16)
        requires
            old(self).cycles <= i16::MAX - 12,
            op_ok(Op::Inc16(Src::DE), *old(cpu), old(mmu)@, args@),
        ensures
            cycles_reported(*old(self), *final(self), r),
            (r, *final(cpu), final(mmu)@) == op_spec(Op::Inc16(Src::DE), old(self).cycles, *old(cpu), old(mmu)@, args@),
    {
        proof {
            reveal(op_ok);
            reveal(op_spec);
        }
        self.increment_16(cpu, mmu, args, Src::DE)
    }

    /// INC D
    /// 1 4
    /// Z 0 H -
    fn op_0014(&mut self, cpu: &mut Cpu, mmu: &mut Mmu, args: &[u8]) -> (r: i16)
        requires
            old(self).cycles <= i16::MAX - 12,
            op_ok(Op::Inc8(Src::D), *old(cpu), old(mmu)@, args@),
        ensures
            cycles_reported(*old(self), *final(self), r),
            (r, *final(cpu), final(mmu)@) == op_spec(Op::Inc8(Src::D), old(self).cycles, *old(cpu), old(mmu)@, args@),
    {
        proof {
            reveal(op_ok);
            reveal(op_spec);
        }
        self.increment_8(cpu, mmu, args, Src::D)
    }

    /// DEC D
    /// 1 4
    /// Z 1 H -
    fn op_0015(&mut self, cpu: &mut Cpu, mmu: &mut Mmu, args: &[u8]) -> (r: i16)
        requires
            old(self).cycles <= i16::MAX - 12,
            op_ok(Op::Dec8(Src::D), *old(cpu), old(mmu)@, args@),
        ensures
            cycles_reported(*old(self), *final(self), r),
            (r, *final(cpu), final(mmu)@) == op_spec(Op::Dec8(Src::D), old(self).cycles, *old(cpu), old(mmu)@, args@),
    {
        proof {
            reveal(op_ok);
            reveal(op_spec);
        }
        self.decrement_8(cpu, mmu, args, Src::D)
    }

    /// LD D,d8
    /// 2 8
    /// - - - -
    fn op_0016(&mut self, cpu: &mut Cpu, mmu: &mut Mmu, args: &[u8]) -> (r: i16)
        requires
            old(self).cycles <= i16::MAX - 12,
            op_ok(Op::Ld8(Src::D, Src::D8), *old(cpu), old(mmu)@, args@),
        ensures
            cycles_reported(*old(self), *final(self), r),
            (r, *final(cpu), final(mmu)@) == op_spec(Op::Ld8(Src::D, Src::D8), old(self).cycles, *old(cpu), old(mmu)@, args@),
    {
        proof {
            reveal(op_ok);
            reveal(op_spec);
        }
        self.ld_8(cpu, mmu, args, Src::D, Src::D8)
    }

    /// RLA
    /// 1 4
    /// Z 0 0 C
    fn op_0017(&mut self, cpu: &mut Cpu, mmu: &mut Mmu, args: &[u8]) -> (r: i16)
        requires
            old(self).cycles <= i16::MAX - 12,
            op_ok(Op::Rotate(Src::A, true, true), *old(cpu), old(mmu)@, args@),
        ensures
            cycles_reported(*old(self), *final(self), r),
            (r, *final(cpu), final(mmu)@) == op_spec(Op::Rotate(Src::A, true, true), old(self).cycles, *old(cpu), old(mmu)@, args@),
    {
        proof {
            reveal(op_ok);
            reveal(op_spec);
        }
        self.rotate(cpu, mmu, args, Src::A, true, true)
    }

    /// JR r8
    /// 2 12
    /// - - - -
    fn op_0018(&mut self, cpu: &mut Cpu, mmu: &mut Mmu, args: &[u8]) -> (r: i16)
        requires
            old(self).cycles <= i16::MAX - 12,
            op_ok(Op::Jr(Cond::Always), *old(cpu), old(mmu)@, args@),
        ensures
            cycles_reported(*old(self), *final(self), r),
            (r, *final(cpu), final(mmu)@) == op_spec(Op::Jr(Cond::Always), old(self).cycles, *old(cpu), old(mmu)@, args@),
    {
        proof {
            reveal(op_ok);
            reveal(op_spec);
        }
        Instruction::jump_relative(cpu, args[0]);
        self.cycles
    }

    /// ADD HL,DE
    /// 1 8
    /// - 0 H C
    fn op_0019(&mut self, cpu: &mut Cpu, mmu: &mut Mmu, args: &[u8]) -> (r: i16)
        requires
            old(self).cycles <= i16::MAX - 12,
            op_ok(Op::AddHl(Src::DE), *old(cpu), old(mmu)@, args@),
        ensures
            cycles_reported(*old(self), *final(self), r),
            (r, *final(cpu), final(mmu)@) == op_spec(Op::AddHl(Src::DE), old(self).cycles, *old(cpu), old(mmu)@, args@),
    {
        proof {
            reveal(op_ok);
            reveal(op_spec);
        }
        self.add_hl(cpu, mmu, args, Src::DE)
    }

    /// LD A,(DE)
    /// 1 8
    /// - - - -
    fn op_001a(&mut self, cpu: &mut Cpu, mmu: &mut Mmu, args: &[u8]) -> (r: i16)
        requires
            old(self).cycles <= i16::MAX - 12,
            op_ok(Op::Ld8(Src::A, Src::DEa), *old(cpu), old(mmu)@, args@),
        ensures
            cycles_reported(*old(self), *final(self), r),
            (r, *final(cpu), final(mmu)@) == op_spec(Op::Ld8(Src::A, Src::DEa), old(self).cycles, *old(cpu), old(mmu)@, args@),
    {
        proof {
            reveal(op_ok);
            reveal(op_spec);
        }
        self.ld_8(cpu, mmu, args, Src::A, Src::DEa)
    }

    /// DEC DE
    /// 1 8
    /// - - - -
    fn op_001b(&mut self, cpu: &mut Cpu, mmu: &mut Mmu, args: &[u8]) -> (r: i16)
        requires
            old(self).cycles <= i16::MAX - 12,
            op_ok(Op::Dec16(Src::DE), *old(cpu), old(mmu)@, args@),
        ensures
            cycles_reported(*old(self), *final(self), r),
            (r, *final(cpu), final(mmu)@) == op_spec(Op::Dec16(Src::DE), old(self).cycles, *old(cpu), old(mmu)@, args@),
    {
        proof {
            reveal(op_ok);
            reveal(op_spec);
        }
        self.decrement_16(cpu, mmu, args, Src::DE)
    }

    /// INC E
    /// 1 4
    /// Z 0 H -
    fn op_001c(&mut self, cpu: &mut Cpu, mmu: &mut Mmu, args: &[u8]) -> (r: i16)
        requires
            old(self).cycles <= i16::MAX - 12,
            op_ok(Op::Inc8(Src::E), *old(cpu), old(mmu)@, args@),
        ensures
            cycles_reported(*old(self), *final(self), r),
            (r, *final(cpu), final(mmu)@) == op_spec(Op::Inc8(Src::E), old(self).cycles, *old(cpu), old(mmu)@, args@),
    {
        proof {
            reveal(op_ok);
            reveal(op_spec);
        }
        self.increment_8(cpu, mmu, args, Src::E)
    }

    /// DEC E
    /// 1 4
    /// Z 1 H -
    fn op_001d(&mut self, cpu: &mut Cpu, mmu: &mut Mmu, args: &[u8]) -> (r: i16)
        requires
            old(self).cycles <= i16::MAX - 12,
            op_ok(Op::Dec8(Src::E), *old(cpu), old(mmu)@, args@),
        ensures
            cycles_reported(*old(self), *final(self), r),
            (r, *final(cpu), final(mmu)@) == op_spec(Op::Dec8(Src::E), old(self).cycles, *old(cpu), old(mmu)@, args@),
    {
        proof {
            reveal(op_ok);
            reveal(op_spec);
        }
        self.decrement_8(cpu, mmu, args, Src::E)
    }

    /// LD E,d8
    /// 2 8
    /// - - - -
    fn op_001e(&mut self, cpu: &mut Cpu, mmu: &mut Mmu, args: &[u8]) -> (r: i16)
        requires
            old(self).cycles <= i16::MAX - 12,
            op_ok(Op::Ld8(Src::E, Src::D8), *old(cpu), old(mmu)@, args@),
        ensures
            cycles_reported(*old(self), *final(self), r),
            (r, *final(cpu), final(mmu)@) == op_spec(Op::Ld8(Src::E, Src::D8), old(self).cycles, *old(cpu), old(mmu)@, args@),
    {
        proof {
            reveal(op_ok);
            reveal(op_spec);
        }
        self.ld_8(cpu, mmu, args, Src::E, Src::D8)
    }

    /// RRA
    /// 1 4
    /// 0 0 0 C
    fn op_001f(&mut self, cpu: &mut Cpu, mmu: &mut Mmu, args: &[u8]) -> (r: i16)
        requires
            old(self).cycles <= i16::MAX - 12,
            op_ok(Op::Rotate(Src::A, false, true), *old(cpu), old(mmu)@, args@),
        ensures
            cycles_reported(*old(self), *final(self), r),
            (r, *final(cpu), final(mmu)@) == op_spec(Op::Rotate(Src::A, false, true), old(self).cycles, *old(cpu), old(mmu)@, args@),
    {
        proof {
            reveal(op_ok);
            reveal(op_spec);
        }
        self.rotate(cpu, mmu, args, Src::A, false, true)
    }

    /// JR NZ,r8
    /// 2 12/8
    /// - - - -
    fn op_0020(&mut self, cpu: &mut Cpu, mmu: &mut Mmu, args: &[u8]) -> (r: i16)
        requires
            old(self).cycles <= i16::MAX - 12,
            op_ok(Op::Jr(Cond::NZ), *old(cpu), old(mmu)@, args@),
        ensures
            cycles_reported(*old(self), *final(self), r),
            (r, *final(cpu), final(mmu)@) == op_spec(Op::Jr(Cond::NZ), old(self).cycles, *old(cpu), old(mmu)@, args@),
    {
        proof {
            reveal(op_ok);
            reveal(op_spec);
        }
        if !cpu.registers.get_flags().zero {
            self.relative_jump(cpu, args[0]);
        }
        self.cycles
    }

    /// LD HL,d16
    /// 3 12
    /// - - - -
    fn op_0021(&mut self, cpu: &mut Cpu, mmu: &mut Mmu, args: &[u8]) -> (r: i16)
        requires
            old(self).cycles <= i16::MAX - 12,
            op_ok(Op::Ld16(Src::HL, Src::D16), *old(cpu), old(mmu)@, args@),
        ensures
            cycles_reported(*old(self), *final(self), r),
            (r, *final(cpu), final(mmu)@) == op_spec(Op::Ld16(Src::HL, Src::D16), old(self).cycles, *old(cpu), old(mmu)@, args@),
    {
        proof {
            reveal(op_ok);
            reveal(op_spec);
        }
        self.ld_16(cpu, mmu, args, Src::HL, Src::D16)
    }

    /// LDI (HL),A
    /// aka LD (HL+),A
    /// 1 8
    /// - - - -
    fn op_0022(&mut self, cpu: &mut Cpu, mmu: &mut Mmu, args: &[u8]) -> (r: i16)
        requires
            old(self).cycles <= i16::MAX - 12,
            op_ok(Op::LdHl(Src::HLa, Src::A, true), *old(cpu), old(mmu)@, args@),
        ensures
            cycles_reported(*old(self), *final(self), r),
            (r, *final(cpu), final(mmu)@) == op_spec(Op::LdHl(Src::HLa, Src::A, true), old(self).cycles, *old(cpu), old(mmu)@, args@),
    {
        proof {
            reveal(op_ok);
            reveal(op_spec);
        }
        self.ld_8(cpu, mmu, args, Src::HLa, Src::A);
        cpu.registers.increment(CpuRegIndex::HL, 1);
        self.cycles
    }

    /// INC HL
    /// 1 8
    /// - - - -
    fn op_0023(&mut self, cpu: &mut Cpu, mmu: &mut Mmu, args: &[u8]) -> (r: i16)
        requires
            old(self).cycles <= i16::MAX - 12,
            op_ok(Op::Inc16(Src::HL), *old(cpu), old(mmu)@, args@),
        ensures
            cycles_reported(*old(self), *final(self), r),
            (r, *final(cpu), final(mmu)@) == op_spec(Op::Inc16(Src::HL), old(self).cycles, *old(cpu), old(mmu)@, args@),
    {
        proof {
            reveal(op_ok);
            reveal(op_spec);
        }
        self.increment_16(cpu, mmu, args, Src::HL)
    }

    /// INC H
    /// 1 4
    /// Z 0 H -
    fn op_0024(&mut self, cpu: &mut Cpu, mmu: &mut Mmu, args: &[u8]) -> (r: i16)
        requires
            old(self).cycles <= i16::MAX - 12,
            op_ok(Op::Inc8(Src::H), *old(cpu), old(mmu)@, args@),
        ensures
            cycles_reported(*old(self), *final(self), r),
            (r, *final(cpu), final(mmu)@) == op_spec(Op::Inc8(Src::H), old(self).cycles, *old(cpu), old(mmu)@, args@),
    {
        proof {
            reveal(op_ok);
            reveal(op_spec);
        }
        self.increment_8(cpu, mmu, args, Src::H)
    }

    /// DEC H
    /// 1 4
    /// Z 1 H -
    fn op_0025(&mut self, cpu: &mut Cpu, mmu: &mut Mmu, args: &[u8]) -> (r: i16)
        requires
            old(self).cycles <= i16::MAX - 12,
            op_ok(Op::Dec8(Src::H), *old(cpu), old(mmu)@, args@),
        ensures
            cycles_reported(*old(self), *final(self), r),
            (r, *final(cpu), final(mmu)@) == op_spec(Op::Dec8(Src::H), old(self).cycles, *old(cpu), old(mmu)@, args@),
    {
        proof {
            reveal(op_ok);
            reveal(op_spec);
        }
        self.decrement_8(cpu, mmu, args, Src::H)
    }

    /// LD H,d8
    /// 2 8
    /// - - - -
    fn op_0026(&mut self, cpu: &mut Cpu, mmu: &mut Mmu, args: &[u8]) -> (r: i16)
        requires
            old(self).cycles <= i16::MAX - 12,
            op_ok(Op::Ld8(Src::H, Src::D8), *old(cpu), old(mmu)@, args@),
        ensures
            cycles_reported(*old(self), *final(self), r),
            (r, *final(cpu), final(mmu)@) == op_spec(Op::Ld8(Src::H, Src::D8), old(self).cycles, *old(cpu), old(mmu)@, args@),
    {
        proof {
            reveal(op_ok);
            reveal(op_spec);
        }
        self.ld_8(cpu, mmu, args, Src::H, Src::D8)
    }

    /// DAA
    /// 1 4
    /// Z - 0 C
    fn op_0027(&mut self, cpu: &mut Cpu, mmu: &mut Mmu, args: &[u8]) -> (r: i16)
        requires
            old(self).cycles <= i16::MAX - 12,
            op_ok(Op::Daa, *old(cpu), old(mmu)@, args@),
        ensures
            cycles_reported(*old(self), *final(self), r),
            (r, *final(cpu), final(mmu)@) == op_spec(Op::Daa, old(self).cycles, *old(cpu), old(mmu)@, args@),
    {
        proof {
            reveal(op_ok);
            reveal(op_spec);
        }
        let (result, flags) = alu::daa(cpu.registers.get_byte(CpuRegIndex::A), cpu.registers.get_flags());
        cpu.registers.set_byte(CpuRegIndex::A, result);
        cpu.registers.set_flags(flags);
        self.cycles
    }

    /// JR Z,r8
    /// 2 12/8
    /// - - - -
    fn op_0028(&mut self, cpu: &mut Cpu, mmu: &mut Mmu, args: &[u8]) -> (r: i16)
        requires
            old(self).cycles <= i16::MAX - 12,
            op_ok(Op::Jr(Cond::Z), *old(cpu), old(mmu)@, args@),
        ensures
            cycles_reported(*old(self), *final(self), r),
            (r, *final(cpu), final(mmu)@) == op_spec(Op::Jr(Cond::Z), old(self).cycles, *old(cpu), old(mmu)@, args@),
    {
        proof {
            reveal(op_ok);
            reveal(op_spec);
        }
        if cpu.registers.get_flags().zero {
            self.relative_jump(cpu, args[0]);
        }
        self.cycles
    }

    /// ADD HL,HL
    /// 1 8
    /// - 0 H C
    fn op_0029(&mut self, cpu: &mut Cpu, mmu: &mut Mmu, args: &[u8]) -> (r: i16)
        requires
            old(self).cycles <= i16::MAX - 12,
            op_ok(Op::AddHl(Src::HL), *old(cpu), old(mmu)@, args@),
        ensures
            cycles_reported(*old(self), *final(self), r),
            (r, *final(cpu), final(mmu)@) == op_spec(Op::AddHl(Src::HL), old(self).cycles, *old(cpu), old(mmu)@, args@),
    {
        proof {
            reveal(op_ok);
            reveal(op_spec);
        }
        self.add_hl(cpu, mmu, args, Src::HL)
    }

    /// LDI A,(HL)
    /// aka LD A, (HL+)
    /// 1 8
    /// - - - -
    fn op_002a(&mut self, cpu: &mut Cpu, mmu: &mut Mmu, args: &[u8]) -> (r: i16)
        requires
            old(self).cycles <= i16::MAX - 12,
            op_ok(Op::LdHl(Src::A, Src::HLa, true), *old(cpu), old(mmu)@, args@),
        ensures
            cycles_reported(*old(self), *final(self), r),
            (r, *final(cpu), final(mmu)@) == op_spec(Op::LdHl(Src::A, Src::HLa, true), old(self).cycles, *old(cpu), old(mmu)@, args@),
    {
        proof {
            reveal(op_ok);
            reveal(op_spec);
        }
        self.ld_8(cpu, mmu, args, Src::A, Src::HLa);
        cpu.registers.increment(CpuRegIndex::HL, 1);
        self.cycles
    }

    /// DEC HL
    /// 1 8
    /// - - - -
    fn op_002b(&mut self, cpu: &mut Cpu, mmu: &mut Mmu, args: &[u8]) -> (r: i16)
        requires
            old(self).cycles <= i16::MAX - 12,
            op_ok(Op::Dec16(Src::HL), *old(cpu), old(mmu)@, args@),
        ensures
            cycles_reported(*old(self), *final(self), r),
            (r, *final(cpu), final(mmu)@) == op_spec(Op::Dec16(Src::HL), old(self).cycles, *old(cpu), old(mmu)@, args@),
    {
        proof {
            reveal(op_ok);
            reveal(op_spec);
        }
        self.decrement_16(cpu, mmu, args, Src::HL)
    }

    /// INC L
    /// 1 4
    /// Z 0 H -
    fn op_002c(&mut self, cpu: &mut Cpu, mmu: &mut Mmu, args: &[u8]) -> (r: i16)
        requires
            old(self).cycles <= i16::MAX - 12,
            op_ok(Op::Inc8(Src::L), *old(cpu), old(mmu)@, args@),
        ensures
            cycles_reported(*old(self), *final(self), r),
            (r, *final(cpu), final(mmu)@) == op_spec(Op::Inc8(Src::L), old(self).cycles, *old(cpu), old(mmu)@, args@),
    {
        proof {
            reveal(op_ok);
            reveal(op_spec);
        }
        self.increment_8(cpu, mmu, args, Src::L)
    }

    /// DEC L
    /// 1 4
    /// Z 1 H -
    fn op_002d(&mut self, cpu: &mut Cpu, mmu: &mut Mmu, args: &[u8]) -> (r: i16)
        requires
            old(self).cycles <= i16::MAX - 12,
            op_ok(Op::Dec8(Src::L), *old(cpu), old(mmu)@, args@),
        ensures
            cycles_reported(*old(self), *final(self), r),
            (r, *final(cpu), final(mmu)@) == op_spec(Op::Dec8(Src::L), old(self).cycles, *old(cpu), old(mmu)@, args@),
    {
        proof {
            reveal(op_ok);
            reveal(op_spec);
        }
        self.decrement_8(cpu, mmu, args, Src::L)
    }

    /// LD L,d8
    /// 2 8
    /// - - - -
    fn op_002e(&mut self, cpu: &mut Cpu, mmu: &mut Mmu, args: &[u8]) -> (r: i16)
        requires
            old(self).cycles <= i16::MAX - 12,
            op_ok(Op::Ld8(Src::L, Src::D8), *old(cpu), old(mmu)@, args@),
        ensures
            cycles_reported(*old(self), *final(self), r),
            (r, *final(cpu), final(mmu)@) == op_spec(Op::Ld8(Src::L, Src::D8), old(self).cycles, *old(cpu), old(mmu)@, args@),
    {
        proof {
            reveal(op_ok);
            reveal(op_spec);
        }
        self.ld_8(cpu, mmu, args, Src::L, Src::D8)
    }

    /// CPL
    /// 1 4
    /// - 1 1 -
    /// Gives the one's complement of A, i. e. all the bits of A are reversed individually.
    fn op_002f(&mut self, cpu: &mut Cpu, mmu: &mut Mmu, args: &[u8]) -> (r: i16)
        requires
            old(self).cycles <= i16::MAX - 12,
            op_ok(Op::Cpl, *old(cpu), old(mmu)@, args@),
        ensures
            cycles_reported(*old(self), *final(self), r),
            (r, *final(cpu), final(mmu)@) == op_spec(Op::Cpl, old(self).cycles, *old(cpu), old(mmu)@, args@),
    {
        proof {
            reveal(op_ok);
            reveal(op_spec);
        }
        let a = cpu.registers.get_byte(CpuRegIndex::A);
        cpu.registers.set_byte(CpuRegIndex::A, !a);
        let flags = cpu.registers.get_flags();
        cpu.registers.set_flags(Flags {
            zero: flags.zero,
            subtract: true,
            half_carry: true,
            carry: flags.carry,
        });
        self.cycles
    }

    /// JR NC,r8
    /// 2 8/12
    /// - - - -
    fn op_0030(&mut self, cpu: &mut Cpu, mmu: &mut Mmu, args: &[u8]) -> (r: i16)
        requires
            old(self).cycles <= i16::MAX - 12,
            op_ok(Op::Jr(Cond::NC), *old(cpu), old(mmu)@, args@),
        ensures
            cycles_reported(*old(self), *final(self), r),
            (r, *final(cpu), final(mmu)@) == op_spec(Op::Jr(Cond::NC), old(self).cycles, *old(cpu), old(mmu)@, args@),
    {
        proof {
            reveal(op_ok);
            reveal(op_spec);
        }
        if !cpu.registers.get_flags().carry {
            self.relative_jump(cpu, args[0]);
        }
        self.cycles
    }

    /// LD SP,d16
    /// 3 12
    /// - - - -
    fn op_0031(&mut self, cpu: &mut Cpu, mmu: &mut Mmu, args: &[u8]) -> (r: i16)
        requires
            old(self).cycles <= i16::MAX - 12,
            op_ok(Op::Ld16(Src::SP, Src::D16), *old(cpu), old(mmu)@, args@),
        ensures
            cycles_reported(*old(self), *final(self), r),
            (r, *final(cpu), final(mmu)@) == op_spec(Op::Ld16(Src::SP, Src::D16), old(self).cycles, *old(cpu), old(mmu)@, args@),
    {
        proof {
            reveal(op_ok);
            reveal(op_spec);
        }
        self.ld_16(cpu, mmu, args, Src::SP, Src::D16)
    }

    /// LDD (HL),A
    /// aka LD (HL-),A
    /// 1 8
    /// - - - -
    fn op_0032(&mut self, cpu: &mut Cpu, mmu: &mut Mmu, args: &[u8]) -> (r: i16)
        requires
            old(self).cycles <= i16::MAX - 12,
            op_ok(Op::LdHl(Src::HLa, Src::A, false), *old(cpu), old(mmu)@, args@),
        ensures
            cycles_reported(*old(self), *final(self), r),
            (r, *final(cpu), final(mmu)@) == op_spec(Op::LdHl(Src::HLa, Src::A, false), old(self).cycles, *old(cpu), old(mmu)@, args@),
    {
        proof {
            reveal(op_ok);
            reveal(op_spec);
        }
        self.ld_8(cpu, mmu, args, Src::HLa, Src::A);
        cpu.registers.decrement(CpuRegIndex::HL, 1);
        self.cycles
    }

    /// INC SP
    /// 1 8
    /// - - - -
    fn op_0033(&mut self, cpu: &mut Cpu, mmu: &mut Mmu, args: &[u8]) -> (r: i16)
        requires
            old(self).cycles <= i16::MAX - 12,
            op_ok(Op::Inc16(Src::SP), *old(cpu), old(mmu)@, args@),
        ensures
            cycles_reported(*old(self), *final(self), r),
            (r, *final(cpu), final(mmu)@) == op_spec(Op::Inc16(Src::SP), old(self).cycles, *old(cpu), old(mmu)@, args@),
    {
        proof {
            reveal(op_ok);
            reveal(op_spec);
        }
        self.increment_16(cpu, mmu, args, Src::SP)
    }

    /// INC (HL)
    /// 1 12
    /// Z 0 H -
    fn op_0034(&mut self, cpu: &mut Cpu, mmu: &mut Mmu, args: &[u8]) -> (r: i16)
        requires
            old(self).cycles <= i16::MAX - 12,
            op_ok(Op::Inc8(Src::HLa), *old(cpu), old(mmu)@, args@),
        ensures
            cycles_reported(*old(self), *final(self), r),
            (r, *final(cpu), final(mmu)@) == op_spec(Op::Inc8(Src::HLa), old(self).cycles, *old(cpu), old(mmu)@, args@),
    {
        proof {
            reveal(op_ok);
            reveal(op_spec);
        }
        self.increment_8(cpu, mmu, args, Src::HLa)
    }

    /// DEC (HL)
    /// 1 12
    /// Z 1 H -
    fn op_0035(&mut self, cpu: &mut Cpu, mmu: &mut Mmu, args: &[u8]) -> (r: i16)
        requires
            old(self).cycles <= i16::MAX - 12,
            op_ok(Op::Dec8(Src::HLa), *old(cpu), old(mmu)@, args@),
        ensures
            cycles_reported(*old(self), *final(self), r),
            (r, *final(cpu), final(mmu)@) == op_spec(Op::Dec8(Src::HLa), old(self).cycles, *old(cpu), old(mmu)@, args@),
    {
        proof {
            reveal(op_ok);
            reveal(op_spec);
        }
        self.decrement_8(cpu, mmu, args, Src::HLa)
    }

    /// LD (HL),d8
    /// 2 12
    /// - - - -
    fn op_0036(&mut self, cpu: &mut Cpu, mmu: &mut Mmu, args: &[u8]) -> (r: i16)
        requires
            old(self).cycles <= i16::MAX - 12,
            op_ok(Op::Ld8(Src::HLa, Src::D8), *old(cpu), old(mmu)@, args@),
        ensures
            cycles_reported(*old(self), *final(self), r),
            (r, *final(cpu), final(mmu)@) == op_spec(Op::Ld8(Src::HLa, Src::D8), old(self).cycles, *old(cpu), old(mmu)@, args@),
    {
        proof {
            reveal(op_ok);
            reveal(op_spec);
        }
        self.ld_8(cpu, mmu, args, Src::HLa, Src::D8)
    }

    /// SCF
    /// 1 4
    /// - 0 0 1
    fn op_0037(&mut self, cpu: &mut Cpu, mmu: &mut Mmu, args: &[u8]) -> (r: i16)
        requires
            old(self).cycles <= i16::MAX - 12,
            op_ok(Op::Scf, *old(cpu), old(mmu)@, args@),
        ensures
            cycles_reported(*old(self), *final(self), r),
            (r, *final(cpu), final(mmu)@) == op_spec(Op::Scf, old(self).cycles, *old(cpu), old(mmu)@, args@),
    {
        proof {
            reveal(op_ok);
            reveal(op_spec);
        }
        let original_flags = cpu.registers.get_flags();
        let flags = Flags {
            zero: original_flags.zero,
            subtract: false,
            half_carry: false,
            carry: true,
        };
        cpu.registers.set_flags(flags);
        self.cycles
    }

    /// JR C,r8
    /// 2 8/12
    /// - - - -
    fn op_0038(&mut self, cpu: &mut Cpu, mmu: &mut Mmu, args: &[u8]) -> (r: i16)
        requires
            old(self).cycles <= i16::MAX - 12,
            op_ok(Op::Jr(Cond::C), *old(cpu), old(mmu)@, args@),
        ensures
            cycles_reported(*old(self), *final(self), r),
            (r, *final(cpu), final(mmu)@) == op_spec(Op::Jr(Cond::C), old(self).cycles, *old(cpu), old(mmu)@, args@),
    {
        proof {
            reveal(op_ok);
            reveal(op_spec);
        }
        if cpu.registers.get_flags().carry {
            self.relative_jump(cpu, args[0]);
        }
        self.cycles
    }

    /// ADD HL,SP
    /// 1 8
    /// - 0 H C
    fn op_0039(&mut self, cpu: &mut Cpu, mmu: &mut Mmu, args: &[u8]) -> (r: i16)
        requires
            old(self).cycles <= i16::MAX - 12,
            op_ok(Op::AddHl(Src::SP), *old(cpu), old(mmu)@, args@),
        ensures
            cycles_reported(*old(self), *final(self), r),
            (r, *final(cpu), final(mmu)@) == op_spec(Op::AddHl(Src::SP), old(self).cycles, *old(cpu), old(mmu)@, args@),
    {
        proof {
            reveal(op_ok);
            reveal(op_spec);
        }
        self.add_hl(cpu, mmu, args, Src::SP)
    }

    /// LDD A,(HL)
    /// aka LD A,(HL-)
    /// 1 8
    /// - - - -
    fn op_003a(&mut self, cpu: &mut Cpu, mmu: &mut Mmu, args: &[u8]) -> (r: i16)
        requires
            old(self).cycles <= i16::MAX - 12,
            op_ok(Op::LdHl(Src::A, Src::HLa, false), *old(cpu), old(mmu)@, args@),
        ensures
            cycles_reported(*old(self), *final(self), r),
            (r, *final(cpu), final(mmu)@) == op_spec(Op::LdHl(Src::A, Src::HLa, false), old(self).cycles, *old(cpu), old(mmu)@, args@),
    {
        proof {
            reveal(op_ok);
            reveal(op_spec);
        }
        self.ld_8(cpu, mmu, args, Src::A, Src::HLa);
        cpu.registers.decrement(CpuRegIndex::HL, 1);
        self.cycles
    }

    /// DEC SP
    /// 1 8
    /// - - - -
    fn op_003b(&mut self, cpu: &mut Cpu, mmu: &mut Mmu, args: &[u8]) -> (r: i16)
        requires
            old(self).cycles <= i16::MAX - 12,
            op_ok(Op::Dec16(Src::SP), *old(cpu), old(mmu)@, args@),
        ensures
            cycles_reported(*old(self), *final(self), r),
            (r, *final(cpu), final(mmu)@) == op_spec(Op::Dec16(Src::SP), old(self).cycles, *old(cpu), old(mmu)@, args@),
    {
        proof {
            reveal(op_ok);
            reveal(op_spec);
        }
        self.decrement_16(cpu, mmu, args, Src::SP)
    }

    /// INC A
    /// 1 4
    /// Z 0 H -
    fn op_003c(&mut self, cpu: &mut Cpu, mmu: &mut Mmu, args: &[u8]) -> (r: i16)
        requires
            old(self).cycles <= i16::MAX - 12,
            op_ok(Op::Inc8(Src::A), *old(cpu), old(mmu)@, args@),
        ensures
            cycles_reported(*old(self), *final(self), r),
            (r, *final(cpu), final(mmu)@) == op_spec(Op::Inc8(Src::A), old(self).cycles, *old(cpu), old(mmu)@, args@),
    {
        proof {
            reveal(op_ok);
            reveal(op_spec);
        }
        self.increment_8(cpu, mmu, args, Src::A)
    }

    /// DEC A
    /// 1 4
    /// Z 1 H -
    fn op_003d(&mut self, cpu: &mut Cpu, mmu: &mut Mmu, args: &[u8]) -> (r: i16)
        requires
            old(self).cycles <= i16::MAX - 12,
            op_ok(Op::Dec8(Src::A), *old(cpu), old(mmu)@, args@),
        ensures
            cycles_reported(*old(self), *final(self), r),
            (r, *final(cpu), final(mmu)@) == op_spec(Op::Dec8(Src::A), old(self).cycles, *old(cpu), old(mmu)@, args@),
    {
        proof {
            reveal(op_ok);
            reveal(op_spec);
        }
        self.decrement_8(cpu, mmu, args, Src::A)
    }

    /// LD A,d8
    /// 2 8
    /// - - - -
    fn op_003e(&mut self, cpu: &mut Cpu, mmu: &mut Mmu, args: &[u8]) -> (r: i16)
        requires
            old(self).cycles <= i16::MAX - 12,
            op_ok(Op::Ld8(Src::A, Src::D8), *old(cpu), old(mmu)@, args@),
        ensures
            cycles_reported(*old(self), *final(self), r),
            (r, *final(cpu), final(mmu)@) == op_spec(Op::Ld8(Src::A, Src::D8), old(self).cycles, *old(cpu), old(mmu)@, args@),
    {
        proof {
            reveal(op_ok);
            reveal(op_spec);
        }
        self.ld_8(cpu, mmu, args, Src::A, Src::D8)
    }

    /// CCF
    /// 1 4
    /// - 0 0 C
    fn op_003f(&mut self, cpu: &mut Cpu, mmu: &mut Mmu, args: &[u8]) -> (r: i16)
        requires
            old(self).cycles <= i16::MAX - 12,
            op_ok(Op::Ccf, *old(cpu), old(mmu)@, args@),
        ensures
            cycles_reported(*old(self), *final(self), r),
            (r, *final(cpu), final(mmu)@) == op_spec(Op::Ccf, old(self).cycles, *old(cpu), old(mmu)@, args@),
    {
        proof {
            reveal(op_ok);
            reveal(op_spec);
        }
        let original_flags = cpu.registers.get_flags();
        let flags = Flags {
            zero: original_flags.zero,
            subtract: false,
            half_carry: false,
            carry: !original_flags.carry,
        };
        cpu.registers.set_flags(flags);
        self.cycles
    }

    /// LD B,B
    /// 1 4
    /// - - - -
    fn op_0040(&mut self, cpu: &mut Cpu, mmu: &mut Mmu, args: &[u8]) -> (r: i16)
        requires
            old(self).cycles <= i16::MAX - 12,
            op_ok(Op::Ld8(Src::B, Src::B), *old(cpu), old(mmu)@, args@),
        ensures
            cycles_reported(*old(self), *final(self), r),
            (r, *final(cpu), final(mmu)@) == op_spec(Op::Ld8(Src::B, Src::B), old(self).cycles, *old(cpu), old(mmu)@, args@),
    {
        proof {
            reveal(op_ok);
            reveal(op_spec);
        }
        self.ld_8(cpu, mmu, args, Src::B, Src::B)
    }

    /// LD B,C
    /// 1 4
    /// - - - -
    fn op_0041(&mut self, cpu: &mut Cpu, mmu: &mut Mmu, args: &[u8]) -> (r: i16)
        requires
            old(self).cycles <= i16::MAX - 12,
            op_ok(Op::Ld8(Src::B, Src::C), *old(cpu), old(mmu)@, args@),
        ensures
            cycles_reported(*old(self), *final(self), r),
            (r, *final(cpu), final(mmu)@) == op_spec(Op::Ld8(Src::B, Src::C), old(self).cycles, *old(cpu), old(mmu)@, args@),
    {
        proof {
            reveal(op_ok);
            reveal(op_spec);
        }
        self.ld_8(cpu, mmu, args, Src::B, Src::C)
    }

    /// LD B,D
    /// 1 4
    /// - - - -
    fn op_0042(&mut self, cpu: &mut Cpu, mmu: &mut Mmu, args: &[u8]) -> (r: i16)
        requires
            old(self).cycles <= i16::MAX - 12,
            op_ok(Op::Ld8(Src::B, Src::D), *old(cpu), old(mmu)@, args@),
        ensures
            cycles_reported(*old(self), *final(self), r),
            (r, *final(cpu), final(mmu)@) == op_spec(Op::Ld8(Src::B, Src::D), old(self).cycles, *old(cpu), old(mmu)@, args@),
    {
        proof {
            reveal(op_ok);
            reveal(op_spec);
        }
        self.ld_8(cpu, mmu, args, Src::B, Src::D)
    }

    /// LD B,E
    /// 1 4
    /// - - - -
    fn op_0043(&mut self, cpu: &mut Cpu, mmu: &mut Mmu, args: &[u8]) -> (r: i16)
        requires
            old(self).cycles <= i16::MAX - 12,
            op_ok(Op::Ld8(Src::B, Src::E), *old(cpu), old(mmu)@, args@),
        ensures
            cycles_reported(*old(self), *final(self), r),
            (r, *final(cpu), final(mmu)@) == op_spec(Op::Ld8(Src::B, Src::E), old(self).cycles, *old(cpu), old(mmu)@, args@),
    {
        proof {
            reveal(op_ok);
            reveal(op_spec);
        }
        self.ld_8(cpu, mmu, args, Src::B, Src::E)
    }

    /// LD B,H
    /// 1 4
    /// - - - -
    fn op_0044(&mut self, cpu: &mut Cpu, mmu: &mut Mmu, args: &[u8]) -> (r: i16)
        requires
            old(self).cycles <= i16::MAX - 12,
            op_ok(Op::Ld8(Src::B, Src::H), *old(cpu), old(mmu)@, args@),
        ensures
            cycles_reported(*old(self), *final(self), r),
            (r, *final(cpu), final(mmu)@) == op_spec(Op::Ld8(Src::B, Src::H), old(self).cycles, *old(cpu), old(mmu)@, args@),
    {
        proof {
            reveal(op_ok);
            reveal(op_spec);
        }
        self.ld_8(cpu, mmu, args, Src::B, Src::H)
    }

    /// LD B,L
    /// 1 4
    /// - - - -
    fn op_0045(&mut self, cpu: &mut Cpu, mmu: &mut Mmu, args: &[u8]) -> (r: i16)
        requires
            old(self).cycles <= i16::MAX - 12,
            op_ok(Op::Ld8(Src::B, Src::L), *old(cpu), old(mmu)@, args@),
        ensures
            cycles_reported(*old(self), *final(self), r),
            (r, *final(cpu), final(mmu)@) == op_spec(Op::Ld8(Src::B, Src::L), old(self).cycles, *old(cpu), old(mmu)@, args@),
    {
        proof {
            reveal(op_ok);
            reveal(op_spec);
        }
        self.ld_8(cpu, mmu, args, Src::B, Src::L)
    }

    /// LD B,(HL)
    /// 1 8
    /// - - - -
    fn op_0046(&mut self, cpu: &mut Cpu, mmu: &mut Mmu, args: &[u8]) -> (r: i16)
        requires
            old(self).cycles <= i16::MAX - 12,
            op_ok(Op::Ld8(Src::B, Src::HLa), *old(cpu), old(mmu)@, args@),
        ensures
            cycles_reported(*old(self), *final(self), r),
            (r, *final(cpu), final(mmu)@) == op_spec(Op::Ld8(Src::B, Src::HLa), old(self).cycles, *old(cpu), old(mmu)@, args@),
    {
        proof {
            reveal(op_ok);
            reveal(op_spec);
        }
        self.ld_8(cpu, mmu, args, Src::B, Src::HLa)
    }

    /// LD B,A
    /// 1 4
    /// - - - -
    fn op_0047(&mut self, cpu: &mut Cpu, mmu: &mut Mmu, args: &[u8]) -> (r: i16)
        requires
            old(self).cycles <= i16::MAX - 12,
            op_ok(Op::Ld8(Src::B, Src::A), *old(cpu), old(mmu)@, args@),
        ensures
            cycles_reported(*old(self), *final(self), r),
            (r, *final(cpu), final(mmu)@) == op_spec(Op::Ld8(Src::B, Src::A), old(self).cycles, *old(cpu), old(mmu)@, args@),
    {
        proof {
            reveal(op_ok);
            reveal(op_spec);
        }
        self.ld_8(cpu, mmu, args, Src::B, Src::A)
    }

    /// LD C,B
    /// 1 4
    /// - - - -
    fn op_0048(&mut self, cpu: &mut Cpu, mmu: &mut Mmu, args: &[u8]) -> (r: i16)
        requires
            old(self).cycles <= i16::MAX - 12,
            op_ok(Op::Ld8(Src::C, Src::B), *old(cpu), old(mmu)@, args@),
        ensures
            cycles_reported(*old(self), *final(self), r),
            (r, *final(cpu), final(mmu)@) == op_spec(Op::Ld8(Src::C, Src::B), old(self).cycles, *old(cpu), old(mmu)@, args@),
    {
        proof {
            reveal(op_ok);
            reveal(op_spec);
        }
        self.ld_8(cpu, mmu, args, Src::C, Src::B)
    }

    /// LD C,C
    /// 1 4
    /// - - - -
    fn op_0049(&mut self, cpu: &mut Cpu, mmu: &mut Mmu, args: &[u8]) -> (r: i16)
        requires
            old(self).cycles <= i16::MAX - 12,
            op_ok(Op::Ld8(Src::C, Src::C), *old(cpu), old(mmu)@, args@),
        ensures
            cycles_reported(*old(self), *final(self), r),
            (r, *final(cpu), final(mmu)@) == op_spec(Op::Ld8(Src::C, Src::C), old(self).cycles, *old(cpu), old(mmu)@, args@),
    {
        proof {
            reveal(op_ok);
            reveal(op_spec);
        }
        self.ld_8(cpu, mmu, args, Src::C, Src::C)
    }

    /// LD C,D
    /// 1 4
    /// - - - -
    fn op_004a(&mut self, cpu: &mut Cpu, mmu: &mut Mmu, args: &[u8]) -> (r: i16)
        requires
            old(self).cycles <= i16::MAX - 12,
            op_ok(Op::Ld8(Src::C, Src::D), *old(cpu), old(mmu)@, args@),
        ensures
            cycles_reported(*old(self), *final(self), r),
            (r, *final(cpu), final(mmu)@) == op_spec(Op::Ld8(Src::C, Src::D), old(self).cycles, *old(cpu), old(mmu)@, args@),
    {
        proof {
            reveal(op_ok);
            reveal(op_spec);
        }
        self.ld_8(cpu, mmu, args, Src::C, Src::D)
    }

    /// LD C,E
    /// 1 4
    /// - - - -
    fn op_004b(&mut self, cpu: &mut Cpu, mmu: &mut Mmu, args: &[u8]) -> (r: i16)
        requires
            old(self).cycles <= i16::MAX - 12,
            op_ok(Op::Ld8(Src::C, Src::E), *old(cpu), old(mmu)@, args@),
        ensures
            cycles_reported(*old(self), *final(self), r),
            (r, *final(cpu), final(mmu)@) == op_spec(Op::Ld8(Src::C, Src::E), old(self).cycles, *old(cpu), old(mmu)@, args@),
    {
        proof {
            reveal(op_ok);
            reveal(op_spec);
        }
        self.ld_8(cpu, mmu, args, Src::C, Src::E)
    }

    /// LD C,H
    /// 1 4
    /// - - - -
    fn op_004c(&mut self, cpu: &mut Cpu, mmu: &mut Mmu, args: &[u8]) -> (r: i16)
        requires
            old(self).cycles <= i16::MAX - 12,
            op_ok(Op::Ld8(Src::C, Src::H), *old(cpu), old(mmu)@, args@),
        ensures
            cycles_reported(*old(self), *final(self), r),
            (r, *final(cpu), final(mmu)@) == op_spec(Op::Ld8(Src::C, Src::H), old(self).cycles, *old(cpu), old(mmu)@, args@),
    {
        proof {
            reveal(op_ok);
            reveal(op_spec);
        }
        self.ld_8(cpu, mmu, args, Src::C, Src::H)
    }

    /// LD C,L
    /// 1 4
    /// - - - -
    fn op_004d(&mut self, cpu: &mut Cpu, mmu: &mut Mmu, args: &[u8]) -> (r: i16)
        requires
            old(self).cycles <= i16::MAX - 12,
            op_ok(Op::Ld8(Src::C, Src::L), *old(cpu), old(mmu)@, args@),
        ensures
            cycles_reported(*old(self), *final(self), r),
            (r, *final(cpu), final(mmu)@) == op_spec(Op::Ld8(Src::C, Src::L), old(self).cycles, *old(cpu), old(mmu)@, args@),
    {
        proof {
            reveal(op_ok);
            reveal(op_spec);
        }
        self.ld_8(cpu, mmu, args, Src::C, Src::L)
    }

    /// LD C,(HL)
    /// 1 8
    /// - - - -
    fn op_004e(&mut self, cpu: &mut Cpu, mmu: &mut Mmu, args: &[u8]) -> (r: i16)
        requires
            old(self).cycles <= i16::MAX - 12,
            op_ok(Op::Ld8(Src::C, Src::HLa), *old(cpu), old(mmu)@, args@),
        ensures
            cycles_reported(*old(self), *final(self), r),
            (r, *final(cpu), final(mmu)@) == op_spec(Op::Ld8(Src::C, Src::HLa), old(self).cycles, *old(cpu), old(mmu)@, args@),
    {
        proof {
            reveal(op_ok);
            reveal(op_spec);
        }
        self.ld_8(cpu, mmu, args, Src::C, Src::HLa)
    }

    /// LD C,A
    /// 1 4
    /// - - - -
    fn op_004f(&mut self, cpu: &mut Cpu, mmu: &mut Mmu, args: &[u8]) -> (r: i16)
        requires
            old(self).cycles <= i16::MAX - 12,
            op_ok(Op::Ld8(Src::C, Src::A), *old(cpu), old(mmu)@, args@),
        ensures
            cycles_reported(*old(self), *final(self), r),
            (r, *final(cpu), final(mmu)@) == op_spec(Op::Ld8(Src::C, Src::A), old(self).cycles, *old(cpu), old(mmu)@, args@),
    {
        proof {
            reveal(op_ok);
            reveal(op_spec);
        }
        self.ld_8(cpu, mmu, args, Src::C, Src::A)
    }

    /// LD D,B
    /// 1 4
    /// - - - -
    fn op_0050(&mut self, cpu: &mut Cpu, mmu: &mut Mmu, args: &[u8]) -> (r: i16)
        requires
            old(self).cycles <= i16::MAX - 12,
            op_ok(Op::Ld8(Src::D, Src::B), *old(cpu), old(mmu)@, args@),
        ensures
            cycles_reported(*old(self), *final(self), r),
            (r, *final(cpu), final(mmu)@) == op_spec(Op::Ld8(Src::D, Src::B), old(self).cycles, *old(cpu), old(mmu)@, args@),
    {
        proof {
            reveal(op_ok);
            reveal(op_spec);
        }
        self.ld_8(cpu, mmu, args, Src::D, Src::B)
    }

    /// LD D,C
    /// 1 4
    /// - - - -
    fn op_0051(&mut self, cpu: &mut Cpu, mmu: &mut Mmu, args: &[u8]) -> (r: i16)
        requires
            old(self).cycles <= i16::MAX - 12,
            op_ok(Op::Ld8(Src::D, Src::C), *old(cpu), old(mmu)@, args@),
        ensures
            cycles_reported(*old(self), *final(self), r),
            (r, *final(cpu), final(mmu)@) == op_spec(Op::Ld8(Src::D, Src::C), old(self).cycles, *old(cpu), old(mmu)@, args@),
    {
        proof {
            reveal(op_ok);
            reveal(op_spec);
        }
        self.ld_8(cpu, mmu, args, Src::D, Src::C)
    }

    /// LD D,D
    /// 1 4
    /// - - - -
    fn op_0052(&mut self, cpu: &mut Cpu, mmu: &mut Mmu, args: &[u8]) -> (r: i16)
        requires
            old(self).cycles <= i16::MAX - 12,
            op_ok(Op::Ld8(Src::D, Src::D), *old(cpu), old(mmu)@, args@),
        ensures
            cycles_reported(*old(self), *final(self), r),
            (r, *final(cpu), final(mmu)@) == op_spec(Op::Ld8(Src::D, Src::D), old(self).cycles, *old(cpu), old(mmu)@, args@),
    {
        proof {
            reveal(op_ok);
            reveal(op_spec);
        }
        self.ld_8(cpu, mmu, args, Src::D, Src::D)
    }

    /// LD D,E
    /// 1 4
    /// - - - -
    fn op_0053(&mut self, cpu: &mut Cpu, mmu: &mut Mmu, args: &[u8]) -> (r: i16)
        requires
            old(self).cycles <= i16::MAX - 12,
            op_ok(Op::Ld8(Src::D, Src::E), *old(cpu), old(mmu)@, args@),
        ensures
            cycles_reported(*old(self), *final(self), r),
            (r, *final(cpu), final(mmu)@) == op_spec(Op::Ld8(Src::D, Src::E), old(self).cycles, *old(cpu), old(mmu)@, args@),
    {
        proof {
            reveal(op_ok);
            reveal(op_spec);
        }
        self.ld_8(cpu, mmu, args, Src::D, Src::E)
    }

    /// LD D,H
    /// 1 4
    /// - - - -
    fn op_0054(&mut self, cpu: &mut Cpu, mmu: &mut Mmu, args: &[u8]) -> (r: i16)
        requires
            old(self).cycles <= i16::MAX - 12,
            op_ok(Op::Ld8(Src::D, Src::H), *old(cpu), old(mmu)@, args@),
        ensures
            cycles_reported(*old(self), *final(self), r),
            (r, *final(cpu), final(mmu)@) == op_spec(Op::Ld8(Src::D, Src::H), old(self).cycles, *old(cpu), old(mmu)@, args@),
    {
        proof {
            reveal(op_ok);
            reveal(op_spec);
        }
        self.ld_8(cpu, mmu, args, Src::D, Src::H)
    }

    /// LD D,L
    /// 1 4
    /// - - - -
    fn op_0055(&mut self, cpu: &mut Cpu, mmu: &mut Mmu, args: &[u8]) -> (r: i16)
        requires
            old(self).cycles <= i16::MAX - 12,
            op_ok(Op::Ld8(Src::D, Src::L), *old(cpu), old(mmu)@, args@),
        ensures
            cycles_reported(*old(self), *final(self), r),
            (r, *final(cpu), final(mmu)@) == op_spec(Op::Ld8(Src::D, Src::L), old(self).cycles, *old(cpu), old(mmu)@, args@),
    {
        proof {
            reveal(op_ok);
            reveal(op_spec);
        }
        self.ld_8(cpu, mmu, args, Src::D, Src::L)
    }

    /// LD D,(HL)
    /// 1 8
    /// - - - -
    fn op_0056(&mut self, cpu: &mut Cpu, mmu: &mut Mmu, args: &[u8]) -> (r: i16)
        requires
            old(self).cycles <= i16::MAX - 12,
            op_ok(Op::Ld8(Src::D, Src::HLa), *old(cpu), old(mmu)@, args@),
        ensures
            cycles_reported(*old(self), *final(self), r),
            (r, *final(cpu), final(mmu)@) == op_spec(Op::Ld8(Src::D, Src::HLa), old(self).cycles, *old(cpu), old(mmu)@, args@),
    {
        proof {
            reveal(op_ok);
            reveal(op_spec);
        }
        self.ld_8(cpu, mmu, args, Src::D, Src::HLa)
    }

    /// LD D,A
    /// 1 4
    /// - - - -
    fn op_0057(&mut self, cpu: &mut Cpu, mmu: &mut Mmu, args: &[u8]) -> (r: i16)
        requires
            old(self).cycles <= i16::MAX - 12,
            op_ok(Op::Ld8(Src::D, Src::A), *old(cpu), old(mmu)@, args@),
        ensures
            cycles_reported(*old(self), *final(self), r),
            (r, *final(cpu), final(mmu)@) == op_spec(Op::Ld8(Src::D, Src::A), old(self).cycles, *old(cpu), old(mmu)@, args@),
    {
        proof {
            reveal(op_ok);
            reveal(op_spec);
        }
        self.ld_8(cpu, mmu, args, Src::D, Src::A)
    }

    /// LD E,B
    /// 1 4
    /// - - - -
    fn op_0058(&mut self, cpu: &mut Cpu, mmu: &mut Mmu, args: &[u8]) -> (r: i16)
        requires
            old(self).cycles <= i16::MAX - 12,
            op_ok(Op::Ld8(Src::E, Src::B), *old(cpu), old(mmu)@, args@),
        ensures
            cycles_reported(*old(self), *final(self), r),
            (r, *final(cpu), final(mmu)@) == op_spec(Op::Ld8(Src::E, Src::B), old(self).cycles, *old(cpu), old(mmu)@, args@),
    {
        proof {
            reveal(op_ok);
            reveal(op_spec);
        }
        self.ld_8(cpu, mmu, args, Src::E, Src::B)
    }

    /// LD E,C
    /// 1 4
    /// - - - -
    fn op_0059(&mut self, cpu: &mut Cpu, mmu: &mut Mmu, args: &[u8]) -> (r: i16)
        requires
            old(self).cycles <= i16::MAX - 12,
            op_ok(Op::Ld8(Src::E, Src::C), *old(cpu), old(mmu)@, args@),
        ensures
            cycles_reported(*old(self), *final(self), r),
            (r, *final(cpu), final(mmu)@) == op_spec(Op::Ld8(Src::E, Src::C), old(self).cycles, *old(cpu), old(mmu)@, args@),
    {
        proof {
            reveal(op_ok);
            reveal(op_spec);
        }
        self.ld_8(cpu, mmu, args, Src::E, Src::C)
    }

    /// LD E,D
    /// 1 4
    /// - - - -
    fn op_005a(&mut self, cpu: &mut Cpu, mmu: &mut Mmu, args: &[u8]) -> (r: i16)
        requires
            old(self).cycles <= i16::MAX - 12,
            op_ok(Op::Ld8(Src::E, Src::D), *old(cpu), old(mmu)@, args@),
        ensures
            cycles_reported(*old(self), *final(self), r),
            (r, *final(cpu), final(mmu)@) == op_spec(Op::Ld8(Src::E, Src::D), old(self).cycles, *old(cpu), old(mmu)@, args@),
    {
        proof {
            reveal(op_ok);
            reveal(op_spec);
        }
        self.ld_8(cpu, mmu, args, Src::E, Src::D)
    }

    /// LD E,E
    /// 1 4
    /// - - - -
    fn op_005b(&mut self, cpu: &mut Cpu, mmu: &mut Mmu, args: &[u8]) -> (r: i16)
        requires
            old(self).cycles <= i16::MAX - 12,
            op_ok(Op::Ld8(Src::E, Src::E), *old(cpu), old(mmu)@, args@),
        ensures
            cycles_reported(*old(self), *final(self), r),
            (r, *final(cpu), final(mmu)@) == op_spec(Op::Ld8(Src::E, Src::E), old(self).cycles, *old(cpu), old(mmu)@, args@),
    {
        proof {
            reveal(op_ok);
            reveal(op_spec);
        }
        self.ld_8(cpu, mmu, args, Src::E, Src::E)
    }

    /// LD E,H
    /// 1 4
    /// - - - -
    fn op_005c(&mut self, cpu: &mut Cpu, mmu: &mut Mmu, args: &[u8]) -> (r: i16)
        requires
            old(self).cycles <= i16::MAX - 12,
            op_ok(Op::Ld8(Src::E, Src::H), *old(cpu), old(mmu)@, args@),
        ensures
            cycles_reported(*old(self), *final(self), r),
            (r, *final(cpu), final(mmu)@) == op_spec(Op::Ld8(Src::E, Src::H), old(self).cycles, *old(cpu), old(mmu)@, args@),
    {
        proof {
            reveal(op_ok);
            reveal(op_spec);
        }
        self.ld_8(cpu, mmu, args, Src::E, Src::H)
    }

    /// LD E,L
    /// 1 4
    /// - - - -
    fn op_005d(&mut self, cpu: &mut Cpu, mmu: &mut Mmu, args: &[u8]) -> (r: i16)
        requires
            old(self).cycles <= i16::MAX - 12,
            op_ok(Op::Ld8(Src::E, Src::L), *old(cpu), old(mmu)@, args@),
        ensures
            cycles_reported(*old(self), *final(self), r),
            (r, *final(cpu), final(mmu)@) == op_spec(Op::Ld8(Src::E, Src::L), old(self).cycles, *old(cpu), old(mmu)@, args@),
    {
        proof {
            reveal(op_ok);
            reveal(op_spec);
        }
        self.ld_8(cpu, mmu, args, Src::E, Src::L)
    }

    /// LD E,(HL)
    /// 1 8
    /// - - - -
    fn op_005e(&mut self, cpu: &mut Cpu, mmu: &mut Mmu, args: &[u8]) -> (r: i16)
        requires
            old(self).cycles <= i16::MAX - 12,
            op_ok(Op::Ld8(Src::E, Src::HLa), *old(cpu), old(mmu)@, args@),
        ensures
            cycles_reported(*old(self), *final(self), r),
            (r, *final(cpu), final(mmu)@) == op_spec(Op::Ld8(Src::E, Src::HLa), old(self).cycles, *old(cpu), old(mmu)@, args@),
    {
        proof {
            reveal(op_ok);
            reveal(op_spec);
        }
        self.ld_8(cpu, mmu, args, Src::E, Src::HLa)
    }

    /// LD E,A
    /// 1 4
    /// - - - -
    fn op_005f(&mut self, cpu: &mut Cpu, mmu: &mut Mmu, args: &[u8]) -> (r: i16)
        requires
            old(self).cycles <= i16::MAX - 12,
            op_ok(Op::Ld8(Src::E, Src::A), *old(cpu), old(mmu)@, args@),
        ensures
            cycles_reported(*old(self), *final(self), r),
            (r, *final(cpu), final(mmu)@) == op_spec(Op::Ld8(Src::E, Src::A), old(self).cycles, *old(cpu), old(mmu)@, args@),
    {
        proof {
            reveal(op_ok);
            reveal(op_spec);
        }
        self.ld_8(cpu, mmu, args, Src::E, Src::A)
    }

    /// LD H,B
    /// 1 4
    /// - - - -
    fn op_0060(&mut self, cpu: &mut Cpu, mmu: &mut Mmu, args: &[u8]) -> (r: i16)
        requires
            old(self).cycles <= i16::MAX - 12,
            op_ok(Op::Ld8(Src::H, Src::B), *old(cpu), old(mmu)@, args@),
        ensures
            cycles_reported(*old(self), *final(self), r),
            (r, *final(cpu), final(mmu)@) == op_spec(Op::Ld8(Src::H, Src::B), old(self).cycles, *old(cpu), old(mmu)@, args@),
    {
        proof {
            reveal(op_ok);
            reveal(op_spec);
        }
        self.ld_8(cpu, mmu, args, Src::H, Src::B)
    }

    /// LD H,C
    /// 1 4
    /// - - - -
    fn op_0061(&mut self, cpu: &mut Cpu, mmu: &mut Mmu, args: &[u8]) -> (r: i16)
        requires
            old(self).cycles <= i16::MAX - 12,
            op_ok(Op::Ld8(Src::H, Src::C), *old(cpu), old(mmu)@, args@),
        ensures
            cycles_reported(*old(self), *final(self), r),
            (r, *final(cpu), final(mmu)@) == op_spec(Op::Ld8(Src::H, Src::C), old(self).cycles, *old(cpu), old(mmu)@, args@),
    {
        proof {
            reveal(op_ok);
            reveal(op_spec);
        }
        self.ld_8(cpu, mmu, args, Src::H, Src::C)
    }

    /// LD H,D
    /// 1 4
    /// - - - -
    fn op_0062(&mut self, cpu: &mut Cpu, mmu: &mut Mmu, args: &[u8]) -> (r: i16)
        requires
            old(self).cycles <= i16::MAX - 12,
            op_ok(Op::Ld8(Src::H, Src::D), *old(cpu), old(mmu)@, args@),
        ensures
            cycles_reported(*old(self), *final(self), r),
            (r, *final(cpu), final(mmu)@) == op_spec(Op::Ld8(Src::H, Src::D), old(self).cycles, *old(cpu), old(mmu)@, args@),
    {
        proof {
            reveal(op_ok);
            reveal(op_spec);
        }
        self.ld_8(cpu, mmu, args, Src::H, Src::D)
    }

    /// LD H,E
    /// 1 4
    /// - - - -
    fn op_0063(&mut self, cpu: &mut Cpu, mmu: &mut Mmu, args: &[u8]) -> (r: i16)
        requires
            old(self).cycles <= i16::MAX - 12,
            op_ok(Op::Ld8(Src::H, Src::E), *old(cpu), old(mmu)@, args@),
        ensures
            cycles_reported(*old(self), *final(self), r),
            (r, *final(cpu), final(mmu)@) == op_spec(Op::Ld8(Src::H, Src::E), old(self).cycles, *old(cpu), old(mmu)@, args@),
    {
        proof {
            reveal(op_ok);
            reveal(op_spec);
        }
        self.ld_8(cpu, mmu, args, Src::H, Src::E)
    }

    /// LD H,H
    /// 1 4
    /// - - - -
    fn op_0064(&mut self, cpu: &mut Cpu, mmu: &mut Mmu, args: &[u8]) -> (r: i16)
        requires
            old(self).cycles <= i16::MAX - 12,
            op_ok(Op::Ld8(Src::H, Src::H), *old(cpu), old(mmu)@, args@),
        ensures
            cycles_reported(*old(self), *final(self), r),
            (r, *final(cpu), final(mmu)@) == op_spec(Op::Ld8(Src::H, Src::H), old(self).cycles, *old(cpu), old(mmu)@, args@),
    {
        proof {
            reveal(op_ok);
            reveal(op_spec);
        }
        self.ld_8(cpu, mmu, args, Src::H, Src::H)
    }

    /// LD H,L
    /// 1 4
    /// - - - -
    fn op_0065(&mut self, cpu: &mut Cpu, mmu: &mut Mmu, args: &[u8]) -> (r: i16)
        requires
            old(self).cycles <= i16::MAX - 12,
            op_ok(Op::Ld8(Src::H, Src::L), *old(cpu), old(mmu)@, args@),
        ensures
            cycles_reported(*old(self), *final(self), r),
            (r, *final(cpu), final(mmu)@) == op_spec(Op::Ld8(Src::H, Src::L), old(self).cycles, *old(cpu), old(mmu)@, args@),
    {
        proof {
            reveal(op_ok);
            reveal(op_spec);
        }
        self.ld_8(cpu, mmu, args, Src::H, Src::L)
    }

    /// LD H,(HL)
    /// 1 8
    /// - - - -
    fn op_0066(&mut self, cpu: &mut Cpu, mmu: &mut Mmu, args: &[u8]) -> (r: i16)
        requires
            old(self).cycles <= i16::MAX - 12,
            op_ok(Op::Ld8(Src::H, Src::HLa), *old(cpu), old(mmu)@, args@),
        ensures
            cycles_reported(*old(self), *final(self), r),
            (r, *final(cpu), final(mmu)@) == op_spec(Op::Ld8(Src::H, Src::HLa), old(self).cycles, *old(cpu), old(mmu)@, args@),
    {
        proof {
            reveal(op_ok);
            reveal(op_spec);
        }
        self.ld_8(cpu, mmu, args, Src::H, Src::HLa)
    }

    /// LD H,A
    /// 1 4
    /// - - - -
    fn op_0067(&mut self, cpu: &mut Cpu, mmu: &mut Mmu, args: &[u8]) -> (r: i16)
        requires
            old(self).cycles <= i16::MAX - 12,
            op_ok(Op::Ld8(Src::H, Src::A), *old(cpu), old(mmu)@, args@),
        ensures
            cycles_reported(*old(self), *final(self), r),
            (r, *final(cpu), final(mmu)@) == op_spec(Op::Ld8(Src::H, Src::A), old(self).cycles, *old(cpu), old(mmu)@, args@),
    {
        proof {
            reveal(op_ok);
            reveal(op_spec);
        }
        self.ld_8(cpu, mmu, args, Src::H, Src::A)
    }

    /// LD L,B
    /// 1 4
    /// - - - -
    fn op_0068(&mut self, cpu: &mut Cpu, mmu: &mut Mmu, args: &[u8]) -> (r: i16)
        requires
            old(self).cycles <= i16::MAX - 12,
            op_ok(Op::Ld8(Src::L, Src::B), *old(cpu), old(mmu)@, args@),
        ensures
            cycles_reported(*old(self), *final(self), r),
            (r, *final(cpu), final(mmu)@) == op_spec(Op::Ld8(Src::L, Src::B), old(self).cycles, *old(cpu), old(mmu)@, args@),
    {
        proof {
            reveal(op_ok);
            reveal(op_spec);
        }
        self.ld_8(cpu, mmu, args, Src::L, Src::B)
    }

    /// LD L,C
    /// 1 4
    /// - - - -
    fn op_0069(&mut self, cpu: &mut Cpu, mmu: &mut Mmu, args: &[u8]) -> (r: i16)
        requires
            old(self).cycles <= i16::MAX - 12,
            op_ok(Op::Ld8(Src::L, Src::C), *old(cpu), old(mmu)@, args@),
        ensures
            cycles_reported(*old(self), *final(self), r),
            (r, *final(cpu), final(mmu)@) == op_spec(Op::Ld8(Src::L, Src::C), old(self).cycles, *old(cpu), old(mmu)@, args@),
    {
        proof {
            reveal(op_ok);
            reveal(op_spec);
        }
        self.ld_8(cpu, mmu, args, Src::L, Src::C)
    }

    /// LD L,D
    /// 1 4
    /// - - - -
    fn op_006a(&mut self, cpu: &mut Cpu, mmu: &mut Mmu, args: &[u8]) -> (r: i16)
        requires
            old(self).cycles <= i16::MAX - 12,
            op_ok(Op::Ld8(Src::L, Src::D), *old(cpu), old(mmu)@, args@),
        ensures
            cycles_reported(*old(self), *final(self), r),
            (r, *final(cpu), final(mmu)@) == op_spec(Op::Ld8(Src::L, Src::D), old(self).cycles, *old(cpu), old(mmu)@, args@),
    {
        proof {
            reveal(op_ok);
            reveal(op_spec);
        }
        self.ld_8(cpu, mmu, args, Src::L, Src::D)
    }

    /// LD L,E
    /// 1 4
    /// - - - -
    fn op_006b(&mut self, cpu: &mut Cpu, mmu: &mut Mmu, args: &[u8]) -> (r: i16)
        requires
            old(self).cycles <= i16::MAX - 12,
            op_ok(Op::Ld8(Src::L, Src::E), *old(cpu), old(mmu)@, args@),
        ensures
            cycles_reported(*old(self), *final(self), r),
            (r, *final(cpu), final(mmu)@) == op_spec(Op::Ld8(Src::L, Src::E), old(self).cycles, *old(cpu), old(mmu)@, args@),
    {
        proof {
            reveal(op_ok);
            reveal(op_spec);
        }
        self.ld_8(cpu, mmu, args, Src::L, Src::E)
    }

    /// LD L,H
    /// 1 4
    /// - - - -
    fn op_006c(&mut self, cpu: &mut Cpu, mmu: &mut Mmu, args: &[u8]) -> (r: i16)
        requires
            old(self).cycles <= i16::MAX - 12,
            op_ok(Op::Ld8(Src::L, Src::H), *old(cpu), old(mmu)@, args@),
        ensures
            cycles_reported(*old(self), *final(self), r),
            (r, *final(cpu), final(mmu)@) == op_spec(Op::Ld8(Src::L, Src::H), old(self).cycles, *old(cpu), old(mmu)@, args@),
    {
        proof {
            reveal(op_ok);
            reveal(op_spec);
        }
        self.ld_8(cpu, mmu, args, Src::L, Src::H)
    }

    /// LD L,L
    /// 1 4
    /// - - - -
    fn op_006d(&mut self, cpu: &mut Cpu, mmu: &mut Mmu, args: &[u8]) -> (r: i16)
        requires
            old(self).cycles <= i16::MAX - 12,
            op_ok(Op::Ld8(Src::L, Src::L), *old(cpu), old(mmu)@, args@),
        ensures
            cycles_reported(*old(self), *final(self), r),
            (r, *final(cpu), final(mmu)@) == op_spec(Op::Ld8(Src::L, Src::L), old(self).cycles, *old(cpu), old(mmu)@, args@),
    {
        proof {
            reveal(op_ok);
            reveal(op_spec);
        }
        self.ld_8(cpu, mmu, args, Src::L, Src::L)
    }

    /// LD L,(HL)
    /// 1 8
    /// - - - -
    fn op_006e(&mut self, cpu: &mut Cpu, mmu: &mut Mmu, args: &[u8]) -> (r: i16)
        requires
            old(self).cycles <= i16::MAX - 12,
            op_ok(Op::Ld8(Src::L, Src::HLa), *old(cpu), old(mmu)@, args@),
        ensures
            cycles_reported(*old(self), *final(self), r),
            (r, *final(cpu), final(mmu)@) == op_spec(Op::Ld8(Src::L, Src::HLa), old(self).cycles, *old(cpu), old(mmu)@, args@),
    {
        proof {
            reveal(op_ok);
            reveal(op_spec);
        }
        self.ld_8(cpu, mmu, args, Src::L, Src::HLa)
    }

    /// LD L,A
    /// 1 4
    /// - - - -
    fn op_006f(&mut self, cpu: &mut Cpu, mmu: &mut Mmu, args: &[u8]) -> (r: i16)
        requires
            old(self).cycles <= i16::MAX - 12,
            op_ok(Op::Ld8(Src::L, Src::A), *old(cpu), old(mmu)@, args@),
        ensures
            cycles_reported(*old(self), *final(self), r),
            (r, *final(cpu), final(mmu)@) == op_spec(Op::Ld8(Src::L, Src::A), old(self).cycles, *old(cpu), old(mmu)@, args@),
    {
        proof {
            reveal(op_ok);
            reveal(op_spec);
        }
        self.ld_8(cpu, mmu, args, Src::L, Src::A)
    }

    /// LD (HL),B
    /// 1 8
    /// - - - -
    fn op_0070(&mut self, cpu: &mut Cpu, mmu: &mut Mmu, args: &[u8]) -> (r: i16)
        requires
            old(self).cycles <= i16::MAX - 12,
            op_ok(Op::Ld8(Src::HLa, Src::B), *old(cpu), old(mmu)@, args@),
        ensures
            cycles_reported(*old(self), *final(self), r),
            (r, *final(cpu), final(mmu)@) == op_spec(Op::Ld8(Src::HLa, Src::B), old(self).cycles, *old(cpu), old(mmu)@, args@),
    {
        proof {
            reveal(op_ok);
            reveal(op_spec);
        }
        self.ld_8(cpu, mmu, args, Src::HLa, Src::B)
    }

    /// LD (HL),C
    /// 1 8
    /// - - - -
    fn op_0071(&mut self, cpu: &mut Cpu, mmu: &mut Mmu, args: &[u8]) -> (r: i16)
        requires
            old(self).cycles <= i16::MAX - 12,
            op_ok(Op::Ld8(Src::HLa, Src::C), *old(cpu), old(mmu)@, args@),
        ensures
            cycles_reported(*old(self), *final(self), r),
            (r, *final(cpu), final(mmu)@) == op_spec(Op::Ld8(Src::HLa, Src::C), old(self).cycles, *old(cpu), old(mmu)@, args@),
    {
        proof {
            reveal(op_ok);
            reveal(op_spec);
        }
        self.ld_8(cpu, mmu, args, Src::HLa, Src::C)
    }

    /// LD (HL),D
    /// 1 8
    /// - - - -
    fn op_0072(&mut self, cpu: &mut Cpu, mmu: &mut Mmu, args: &[u8]) -> (r: i16)
        requires
            old(self).cycles <= i16::MAX - 12,
            op_ok(Op::Ld8(Src::HLa, Src::D), *old(cpu), old(mmu)@, args@),
        ensures
            cycles_reported(*old(self), *final(self), r),
            (r, *final(cpu), final(mmu)@) == op_spec(Op::Ld8(Src::HLa, Src::D), old(self).cycles, *old(cpu), old(mmu)@, args@),
    {
        proof {
            reveal(op_ok);
            reveal(op_spec);
        }
        self.ld_8(cpu, mmu, args, Src::HLa, Src::D)
    }

    /// LD (HL),E
    /// 1 8
    /// - - - -
    fn op_0073(&mut self, cpu: &mut Cpu, mmu: &mut Mmu, args: &[u8]) -> (r: i16)
        requires
            old(self).cycles <= i16::MAX - 12,
            op_ok(Op::Ld8(Src::HLa, Src::E), *old(cpu), old(mmu)@, args@),
        ensures
            cycles_reported(*old(self), *final(self), r),
            (r, *final(cpu), final(mmu)@) == op_spec(Op::Ld8(Src::HLa, Src::E), old(self).cycles, *old(cpu), old(mmu)@, args@),
    {
        proof {
            reveal(op_ok);
            reveal(op_spec);
        }
        self.ld_8(cpu, mmu, args, Src::HLa, Src::E)
    }

    /// LD (HL),H
    /// 1 8
    /// - - - -
    fn op_0074(&mut self, cpu: &mut Cpu, mmu: &mut Mmu, args: &[u8]) -> (r: i16)
        requires
            old(self).cycles <= i16::MAX - 12,
            op_ok(Op::Ld8(Src::HLa, Src::H), *old(cpu), old(mmu)@, args@),
        ensures
            cycles_reported(*old(self), *final(self), r),
            (r, *final(cpu), final(mmu)@) == op_spec(Op::Ld8(Src::HLa, Src::H), old(self).cycles, *old(cpu), old(mmu)@, args@),
    {
        proof {
            reveal(op_ok);
            reveal(op_spec);
        }
        self.ld_8(cpu, mmu, args, Src::HLa, Src::H)
    }

    /// LD (HL),L
    /// 1 8
    /// - - - -
    fn op_0075(&mut self, cpu: &mut Cpu, mmu: &mut Mmu, args: &[u8]) -> (r: i16)
        requires
            old(self).cycles <= i16::MAX - 12,
            op_ok(Op::Ld8(Src::HLa, Src::L), *old(cpu), old(mmu)@, args@),
        ensures
            cycles_reported(*old(self), *final(self), r),
            (r, *final(cpu), final(mmu)@) == op_spec(Op::Ld8(Src::HLa, Src::L), old(self).cycles, *old(cpu), old(mmu)@, args@),
    {
        proof {
            reveal(op_ok);
            reveal(op_spec);
        }
        self.ld_8(cpu, mmu, args, Src::HLa, Src::L)
    }

    /// HALT
    /// 1 4
    /// - - - -
    fn op_0076(&mut self, cpu: &mut Cpu, mmu: &mut Mmu, args: &[u8]) -> (r: i16)
        requires
            old(self).cycles <= i16::MAX - 12,
            op_ok(Op::Halt, *old(cpu), old(mmu)@, args@),
        ensures
            cycles_reported(*old(self), *final(self), r),
            (r, *final(cpu), final(mmu)@) == op_spec(Op::Halt, old(self).cycles, *old(cpu), old(mmu)@, args@),
    {
        proof {
            reveal(op_ok);
            reveal(op_spec);
        }
        cpu.halt();
        self.cycles
    }

    /// LD (HL),A
    /// 1 8
    /// - - - -
    fn op_0077(&mut self, cpu: &mut Cpu, mmu: &mut Mmu, args: &[u8]) -> (r: i16)
        requires
            old(self).cycles <= i16::MAX - 12,
            op_ok(Op::Ld8(Src::HLa, Src::A), *old(cpu), old(mmu)@, args@),
        ensures
            cycles_reported(*old(self), *final(self), r),
            (r, *final(cpu), final(mmu)@) == op_spec(Op::Ld8(Src::HLa, Src::A), old(self).cycles, *old(cpu), old(mmu)@, args@),
    {
        proof {
            reveal(op_ok);
            reveal(op_spec);
        }
        self.ld_8(cpu, mmu, args, Src::HLa, Src::A)
    }

    /// LD A,B
    /// 1 4
    /// - - - -
    fn op_0078(&mut self, cpu: &mut Cpu, mmu: &mut Mmu, args: &[u8]) -> (r: i16)
        requires
            old(self).cycles <= i16::MAX - 12,
            op_ok(Op::Ld8(Src::A, Src::B), *old(cpu), old(mmu)@, args@),
        ensures
            cycles_reported(*old(self), *final(self), r),
            (r, *final(cpu), final(mmu)@) == op_spec(Op::Ld8(Src::A, Src::B), old(self).cycles, *old(cpu), old(mmu)@, args@),
    {
        proof {
            reveal(op_ok);
            reveal(op_spec);
        }
        self.ld_8(cpu, mmu, args, Src::A, Src::B)
    }

    /// LD A,C
    /// 1 4
    /// - - - -
    fn op_0079(&mut self, cpu: &mut Cpu, mmu: &mut Mmu, args: &[u8]) -> (r: i16)
        requires
            old(self).cycles <= i16::MAX - 12,
            op_ok(Op::Ld8(Src::A, Src::C), *old(cpu), old(mmu)@, args@),
        ensures
            cycles_reported(*old(self), *final(self), r),
            (r, *final(cpu), final(mmu)@) == op_spec(Op::Ld8(Src::A, Src::C), old(self).cycles, *old(cpu), old(mmu)@, args@),
    {
        proof {
            reveal(op_ok);
            reveal(op_spec);
        }
        self.ld_8(cpu, mmu, args, Src::A, Src::C)
    }

    /// LD A,D
    /// 1 4
    /// - - - -
    fn op_007a(&mut self, cpu: &mut Cpu, mmu: &mut Mmu, args: &[u8]) -> (r: i16)
        requires
            old(self).cycles <= i16::MAX - 12,
            op_ok(Op::Ld8(Src::A, Src::D), *old(cpu), old(mmu)@, args@),
        ensures
            cycles_reported(*old(self), *final(self), r),
            (r, *final(cpu), final(mmu)@) == op_spec(Op::Ld8(Src::A, Src::D), old(self).cycles, *old(cpu), old(mmu)@, args@),
    {
        proof {
            reveal(op_ok);
            reveal(op_spec);
        }
        self.ld_8(cpu, mmu, args, Src::A, Src::D)
    }

    /// LD A,E
    /// 1 4
    /// - - - -
    fn op_007b(&mut self, cpu: &mut Cpu, mmu: &mut Mmu, args: &[u8]) -> (r: i16)
        requires
            old(self).cycles <= i16::MAX - 12,
            op_ok(Op::Ld8(Src::A, Src::E), *old(cpu), old(mmu)@, args@),
        ensures
            cycles_reported(*old(self), *final(self), r),
            (r, *final(cpu), final(mmu)@) == op_spec(Op::Ld8(Src::A, Src::E), old(self).cycles, *old(cpu), old(mmu)@, args@),
    {
        proof {
            reveal(op_ok);
            reveal(op_spec);
        }
        self.ld_8(cpu, mmu, args, Src::A, Src::E)
    }

    /// LD A,H
    /// 1 4
    /// - - - -
    fn op_007c(&mut self, cpu: &mut Cpu, mmu: &mut Mmu, args: &[u8]) -> (r: i16)
        requires
            old(self).cycles <= i16::MAX - 12,
            op_ok(Op::Ld8(Src::A, Src::H), *old(cpu), old(mmu)@, args@),
        ensures
            cycles_reported(*old(self), *final(self), r),
            (r, *final(cpu), final(mmu)@) == op_spec(Op::Ld8(Src::A, Src::H), old(self).cycles, *old(cpu), old(mmu)@, args@),
    {
        proof {
            reveal(op_ok);
            reveal(op_spec);
        }
        self.ld_8(cpu, mmu, args, Src::A, Src::H)
    }

    /// LD A,L
    /// 1 4
    /// - - - -
    fn op_007d(&mut self, cpu: &mut Cpu, mmu: &mut Mmu, args: &[u8]) -> (r: i16)
        requires
            old(self).cycles <= i16::MAX - 12,
            op_ok(Op::Ld8(Src::A, Src::L), *old(cpu), old(mmu)@, args@),
        ensures
            cycles_reported(*old(self), *final(self), r),
            (r, *final(cpu), final(mmu)@) == op_spec(Op::Ld8(Src::A, Src::L), old(self).cycles, *old(cpu), old(mmu)@, args@),
    {
        proof {
            reveal(op_ok);
            reveal(op_spec);
        }
        self.ld_8(cpu, mmu, args, Src::A, Src::L)
    }

    /// LD A,(HL)
    /// 1 8
    /// - - - -
    fn op_007e(&mut self, cpu: &mut Cpu, mmu: &mut Mmu, args: &[u8]) -> (r: i16)
        requires
            old(self).cycles <= i16::MAX - 12,
            op_ok(Op::Ld8(Src::A, Src::HLa), *old(cpu), old(mmu)@, args@),
        ensures
            cycles_reported(*old(self), *final(self), r),
            (r, *final(cpu), final(mmu)@) == op_spec(Op::Ld8(Src::A, Src::HLa), old(self).cycles, *old(cpu), old(mmu)@, args@),
    {
        proof {
            reveal(op_ok);
            reveal(op_spec);
        }
        self.ld_8(cpu, mmu, args, Src::A, Src::HLa)
    }

    /// LD A,A
    /// 1 4
    /// - - - -
    fn op_007f(&mut self, cpu: &mut Cpu, mmu: &mut Mmu, args: &[u8]) -> (r: i16)
        requires
            old(self).cycles <= i16::MAX - 12,
            op_ok(Op::Ld8(Src::A, Src::A), *old(cpu), old(mmu)@, args@),
        ensures
            cycles_reported(*old(self), *final(self), r),
            (r, *final(cpu), final(mmu)@) == op_spec(Op::Ld8(Src::A, Src::A), old(self).cycles, *old(cpu), old(mmu)@, args@),
    {
        proof {
            reveal(op_ok);
            reveal(op_spec);
        }
        self.ld_8(cpu, mmu, args, Src::A, Src::A)
    }

    /// ADD A,B
    /// 1 4
    /// Z 0 H C
    fn op_0080(&mut self, cpu: &mut Cpu, mmu: &mut Mmu, args: &[u8]) -> (r: i16)
        requires
            old(self).cycles <= i16::MAX - 12,
            op_ok(Op::Add8(Src::A, Src::B), *old(cpu), old(mmu)@, args@),
        ensures
            cycles_reported(*old(self), *final(self), r),
            (r, *final(cpu), final(mmu)@) == op_spec(Op::Add8(Src::A, Src::B), old(self).cycles, *old(cpu), old(mmu)@, args@),
    {
        proof {
            reveal(op_ok);
            reveal(op_spec);
        }
        self.add_8(cpu, mmu, args, Src::A, Src::B)
    }

    /// ADD A,C
    /// 1 4
    /// Z 0 H C
    fn op_0081(&mut self, cpu: &mut Cpu, mmu: &mut Mmu, args: &[u8]) -> (r: i16)
        requires
            old(self).cycles <= i16::MAX - 12,
            op_ok(Op::Add8(Src::A, Src::C), *old(cpu), old(mmu)@, args@),
        ensures
            cycles_reported(*old(self), *final(self), r),
            (r, *final(cpu), final(mmu)@) == op_spec(Op::Add8(Src::A, Src::C), old(self).cycles, *old(cpu), old(mmu)@, args@),
    {
        proof {
            reveal(op_ok);
            reveal(op_spec);
        }
        self.add_8(cpu, mmu, args, Src::A, Src::C)
    }

    /// ADD A,D
    /// 1 4
    /// Z 0 H C
    fn op_0082(&mut self, cpu: &mut Cpu, mmu: &mut Mmu, args: &[u8]) -> (r: i16)
        requires
            old(self).cycles <= i16::MAX - 12,
            op_ok(Op::Add8(Src::A, Src::D), *old(cpu), old(mmu)@, args@),
        ensures
            cycles_reported(*old(self), *final(self), r),
            (r, *final(cpu), final(mmu)@) == op_spec(Op::Add8(Src::A, Src::D), old(self).cycles, *old(cpu), old(mmu)@, args@),
    {
        proof {
            reveal(op_ok);
            reveal(op_spec);
        }
        self.add_8(cpu, mmu, args, Src::A, Src::D)
    }

    /// ADD A,E
    /// 1 4
    /// Z 0 H C
    fn op_0083(&mut self, cpu: &mut Cpu, mmu: &mut Mmu, args: &[u8]) -> (r: i16)
        requires
            old(self).cycles <= i16::MAX - 12,
            op_ok(Op::Add8(Src::A, Src::E), *old(cpu), old(mmu)@, args@),
        ensures
            cycles_reported(*old(self), *final(self), r),
            (r, *final(cpu), final(mmu)@) == op_spec(Op::Add8(Src::A, Src::E), old(self).cycles, *old(cpu), old(mmu)@, args@),
    {
        proof {
            reveal(op_ok);
            reveal(op_spec);
        }
        self.add_8(cpu, mmu, args, Src::A, Src::E)
    }

    /// ADD A,H
    /// 1 4
    /// Z 0 H C
    fn op_0084(&mut self, cpu: &mut Cpu, mmu: &mut Mmu, args: &[u8]) -> (r: i16)
        requires
            old(self).cycles <= i16::MAX - 12,
            op_ok(Op::Add8(Src::A, Src::H), *old(cpu), old(mmu)@, args@),
        ensures
            cycles_reported(*old(self), *final(self), r),
            (r, *final(cpu), final(mmu)@) == op_spec(Op::Add8(Src::A, Src::H), old(self).cycles, *old(cpu), old(mmu)@, args@),
    {
        proof {
            reveal(op_ok);
            reveal(op_spec);
        }
        self.add_8(cpu, mmu, args, Src::A, Src::H)
    }

    /// ADD A,L
    /// 1 4
    /// Z 0 H C
    fn op_0085(&mut self, cpu: &mut Cpu, mmu: &mut Mmu, args: &[u8]) -> (r: i16)
        requires
            old(self).cycles <= i16::MAX - 12,
            op_ok(Op::Add8(Src::A, Src::L), *old(cpu), old(mmu)@, args@),
        ensures
            cycles_reported(*old(self), *final(self), r),
            (r, *final(cpu), final(mmu)@) == op_spec(Op::Add8(Src::A, Src::L), old(self).cycles, *old(cpu), old(mmu)@, args@),
    {
        proof {
            reveal(op_ok);
            reveal(op_spec);
        }
        self.add_8(cpu, mmu, args, Src::A, Src::L)
    }

    /// ADD A,(HL)
    /// 1 8
    /// Z 0 H C
    fn op_0086(&mut self, cpu: &mut Cpu, mmu: &mut Mmu, args: &[u8]) -> (r: i16)
        requires
            old(self).cycles <= i16::MAX - 12,
            op_ok(Op::Add8(Src::A, Src::HLa), *old(cpu), old(mmu)@, args@),
        ensures
            cycles_reported(*old(self), *final(self), r),
            (r, *final(cpu), final(mmu)@) == op_spec(Op::Add8(Src::A, Src::HLa), old(self).cycles, *old(cpu), old(mmu)@, args@),
    {
        proof {
            reveal(op_ok);
            reveal(op_spec);
        }
        self.add_8(cpu, mmu, args, Src::A, Src::HLa)
    }

    /// ADD A,A
    /// 1 4
    /// Z 0 H C
    fn op_0087(&mut self, cpu: &mut Cpu, mmu: &mut Mmu, args: &[u8]) -> (r: i16)
        requires
            old(self).cycles <= i16::MAX - 12,
            op_ok(Op::Add8(Src::A, Src::A), *old(cpu), old(mmu)@, args@),
        ensures
            cycles_reported(*old(self), *final(self), r),
            (r, *final(cpu), final(mmu)@) == op_spec(Op::Add8(Src::A, Src::A), old(self).cycles, *old(cpu), old(mmu)@, args@),
    {
        proof {
            reveal(op_ok);
            reveal(op_spec);
        }
        self.add_8(cpu, mmu, args, Src::A, Src::A)
    }

    /// ADC A,B
    /// 1 4
    /// Z 0 H C
    fn op_0088(&mut self, cpu: &mut Cpu, mmu: &mut Mmu, args: &[u8]) -> (r: i16)
        requires
            old(self).cycles <= i16::MAX - 12,
            op_ok(Op::Adc8(Src::A, Src::B), *old(cpu), old(mmu)@, args@),
        ensures
            cycles_reported(*old(self), *final(self), r),
            (r, *final(cpu), final(mmu)@) == op_spec(Op::Adc8(Src::A, Src::B), old(self).cycles, *old(cpu), old(mmu)@, args@),
    {
        proof {
            reveal(op_ok);
            reveal(op_spec);
        }
        self.adc_8(cpu, mmu, args, Src::A, Src::B)
    }

    /// ADC A,C
    /// 1 4
    /// Z 0 H C
    fn op_0089(&mut self, cpu: &mut Cpu, mmu: &mut Mmu, args: &[u8]) -> (r: i16)
        requires
            old(self).cycles <= i16::MAX - 12,
            op_ok(Op::Adc8(Src::A, Src::C), *old(cpu), old(mmu)@, args@),
        ensures
            cycles_reported(*old(self), *final(self), r),
            (r, *final(cpu), final(mmu)@) == op_spec(Op::Adc8(Src::A, Src::C), old(self).cycles, *old(cpu), old(mmu)@, args@),
    {
        proof {
            reveal(op_ok);
            reveal(op_spec);
        }
        self.adc_8(cpu, mmu, args, Src::A, Src::C)
    }

    /// ADC A,D
    /// 1 4
    /// Z 0 H C
    fn op_008a(&mut self, cpu: &mut Cpu, mmu: &mut Mmu, args: &[u8]) -> (r: i16)
        requires
            old(self).cycles <= i16::MAX - 12,
            op_ok(Op::Adc8(Src::A, Src::D), *old(cpu), old(mmu)@, args@),
        ensures
            cycles_reported(*old(self), *final(self), r),
            (r, *final(cpu), final(mmu)@) == op_spec(Op::Adc8(Src::A, Src::D), old(self).cycles, *old(cpu), old(mmu)@, args@),
    {
        proof {
            reveal(op_ok);
            reveal(op_spec);
        }
        self.adc_8(cpu, mmu, args, Src::A, Src::D)
    }

    /// ADC A,E
    /// 1 4
    /// Z 0 H C
    fn op_008b(&mut self, cpu: &mut Cpu, mmu: &mut Mmu, args: &[u8]) -> (r: i16)
        requires
            old(self).cycles <= i16::MAX - 12,
            op_ok(Op::Adc8(Src::A, Src::E), *old(cpu), old(mmu)@, args@),
        ensures
            cycles_reported(*old(self), *final(self), r),
            (r, *final(cpu), final(mmu)@) == op_spec(Op::Adc8(Src::A, Src::E), old(self).cycles, *old(cpu), old(mmu)@, args@),
    {
        proof {
            reveal(op_ok);
            reveal(op_spec);
        }
        self.adc_8(cpu, mmu, args, Src::A, Src::E)
    }

    /// ADC A,H
    /// 1 4
    /// Z 0 H C
    fn op_008c(&mut self, cpu: &mut Cpu, mmu: &mut Mmu, args: &[u8]) -> (r: i16)
        requires
            old(self).cycles <= i16::MAX - 12,
            op_ok(Op::Adc8(Src::A, Src::H), *old(cpu), old(mmu)@, args@),
        ensures
            cycles_reported(*old(self), *final(self), r),
            (r, *final(cpu), final(mmu)@) == op_spec(Op::Adc8(Src::A, Src::H), old(self).cycles, *old(cpu), old(mmu)@, args@),
    {
        proof {
            reveal(op_ok);
            reveal(op_spec);
        }
        self.adc_8(cpu, mmu, args, Src::A, Src::H)
    }

    /// ADC A,L
    /// 1 4
    /// Z 0 H C
    fn op_008d(&mut self, cpu: &mut Cpu, mmu: &mut Mmu, args: &[u8]) -> (r: i16)
        requires
            old(self).cycles <= i16::MAX - 12,
            op_ok(Op::Adc8(Src::A, Src::L), *old(cpu), old(mmu)@, args@),
        ensures
            cycles_reported(*old(self), *final(self), r),
            (r, *final(cpu), final(mmu)@) == op_spec(Op::Adc8(Src::A, Src::L), old(self).cycles, *old(cpu), old(mmu)@, args@),
    {
        proof {
            reveal(op_ok);
            reveal(op_spec);
        }
        self.adc_8(cpu, mmu, args, Src::A, Src::L)
    }

    /// ADC A,(HL)
    /// 1 8
    /// Z 0 H C
    fn op_008e(&mut self, cpu: &mut Cpu, mmu: &mut Mmu, args: &[u8]) -> (r: i16)
        requires
            old(self).cycles <= i16::MAX - 12,
            op_ok(Op::Adc8(Src::A, Src::HLa), *old(cpu), old(mmu)@, args@),
        ensures
            cycles_reported(*old(self), *final(self), r),
            (r, *final(cpu), final(mmu)@) == op_spec(Op::Adc8(Src::A, Src::HLa), old(self).cycles, *old(cpu), old(mmu)@, args@),
    {
        proof {
            reveal(op_ok);
            reveal(op_spec);
        }
        self.adc_8(cpu, mmu, args, Src::A, Src::HLa)
    }

    /// ADC A,A
    /// 1 4
    /// Z 0 H C
    fn op_008f(&mut self, cpu: &mut Cpu, mmu: &mut Mmu, args: &[u8]) -> (r: i16)
        requires
            old(self).cycles <= i16::MAX - 12,
            op_ok(Op::Adc8(Src::A, Src::A), *old(cpu), old(mmu)@, args@),
        ensures
            cycles_reported(*old(self), *final(self), r),
            (r, *final(cpu), final(mmu)@) == op_spec(Op::Adc8(Src::A, Src::A), old(self).cycles, *old(cpu), old(mmu)@, args@),
    {
        proof {
            reveal(op_ok);
            reveal(op_spec);
        }
        self.adc_8(cpu, mmu, args, Src::A, Src::A)
    }

    /// SUB A,B
    /// 1 4
    /// Z 1 H C
    fn op_0090(&mut self, cpu: &mut Cpu, mmu: &mut Mmu, args: &[u8]) -> (r: i16)
        requires
            old(self).cycles <= i16::MAX - 12,
            op_ok(Op::Sub8(Src::A, Src::B), *old(cpu), old(mmu)@, args@),
        ensures
            cycles_reported(*old(self), *final(self), r),
            (r, *final(cpu), final(mmu)@) == op_spec(Op::Sub8(Src::A, Src::B), old(self).cycles, *old(cpu), old(mmu)@, args@),
    {
        proof {
            reveal(op_ok);
            reveal(op_spec);
        }
        self.sub_8(cpu, mmu, args, Src::A, Src::B)
    }

    /// SUB A,C
    /// 1 4
    /// Z 1 H C
    fn op_0091(&mut self, cpu: &mut Cpu, mmu: &mut Mmu, args: &[u8]) -> (r: i16)
        requires
            old(self).cycles <= i16::MAX - 12,
            op_ok(Op::Sub8(Src::A, Src::C), *old(cpu), old(mmu)@, args@),
        ensures
            cycles_reported(*old(self), *final(self), r),
            (r, *final(cpu), final(mmu)@) == op_spec(Op::Sub8(Src::A, Src::C), old(self).cycles, *old(cpu), old(mmu)@, args@),
    {
        proof {
            reveal(op_ok);
            reveal(op_spec);
        }
        self.sub_8(cpu, mmu, args, Src::A, Src::C)
    }

    /// SUB A,D
    /// 1 4
    /// Z 1 H C
    fn op_0092(&mut self, cpu: &mut Cpu, mmu: &mut Mmu, args: &[u8]) -> (r: i16)
        requires
            old(self).cycles <= i16::MAX - 12,
            op_ok(Op::Sub8(Src::A, Src::D), *old(cpu), old(mmu)@, args@),
        ensures
            cycles_reported(*old(self), *final(self), r),
            (r, *final(cpu), final(mmu)@) == op_spec(Op::Sub8(Src::A, Src::D), old(self).cycles, *old(cpu), old(mmu)@, args@),
    {
        proof {
            reveal(op_ok);
            reveal(op_spec);
        }
        self.sub_8(cpu, mmu, args, Src::A, Src::D)
    }

    /// SUB A,E
    /// 1 4
    /// Z 1 H C
    fn op_0093(&mut self, cpu: &mut Cpu, mmu: &mut Mmu, args: &[u8]) -> (r: i16)
        requires
            old(self).cycles <= i16::MAX - 12,
            op_ok(Op::Sub8(Src::A, Src::E), *old(cpu), old(mmu)@, args@),
        ensures
            cycles_reported(*old(self), *final(self), r),
            (r, *final(cpu), final(mmu)@) == op_spec(Op::Sub8(Src::A, Src::E), old(self).cycles, *old(cpu), old(mmu)@, args@),
    {
        proof {
            reveal(op_ok);
            reveal(op_spec);
        }
        self.sub_8(cpu, mmu, args, Src::A, Src::E)
    }

    /// SUB A,H
    /// 1 4
    /// Z 1 H C
    fn op_0094(&mut self, cpu: &mut Cpu, mmu: &mut Mmu, args: &[u8]) -> (r: i16)
        requires
            old(self).cycles <= i16::MAX - 12,
            op_ok(Op::Sub8(Src::A, Src::H), *old(cpu), old(mmu)@, args@),
        ensures
            cycles_reported(*old(self), *final(self), r),
            (r, *final(cpu), final(mmu)@) == op_spec(Op::Sub8(Src::A, Src::H), old(self).cycles, *old(cpu), old(mmu)@, args@),
    {
        proof {
            reveal(op_ok);
            reveal(op_spec);
        }
        self.sub_8(cpu, mmu, args, Src::A, Src::H)
    }

    /// SUB A,L
    /// 1 4
    /// Z 1 H C
    fn op_0095(&mut self, cpu: &mut Cpu, mmu: &mut Mmu, args: &[u8]) -> (r: i16)
        requires
            old(self).cycles <= i16::MAX - 12,
            op_ok(Op::Sub8(Src::A, Src::L), *old(cpu), old(mmu)@, args@),
        ensures
            cycles_reported(*old(self), *final(self), r),
            (r, *final(cpu), final(mmu)@) == op_spec(Op::Sub8(Src::A, Src::L), old(self).cycles, *old(cpu), old(mmu)@, args@),
    {
        proof {
            reveal(op_ok);
            reveal(op_spec);
        }
        self.sub_8(cpu, mmu, args, Src::A, Src::L)
    }

    /// SUB A,(HL)
    /// 1 8
    /// Z 1 H C
    fn op_0096(&mut self, cpu: &mut Cpu, mmu: &mut Mmu, args: &[u8]) -> (r: i16)
        requires
            old(self).cycles <= i16::MAX - 12,
            op_ok(Op::Sub8(Src::A, Src::HLa), *old(cpu), old(mmu)@, args@),
        ensures
            cycles_reported(*old(self), *final(self), r),
            (r, *final(cpu), final(mmu)@) == op_spec(Op::Sub8(Src::A, Src::HLa), old(self).cycles, *old(cpu), old(mmu)@, args@),
    {
        proof {
            reveal(op_ok);
            reveal(op_spec);
        }
        self.sub_8(cpu, mmu, args, Src::A, Src::HLa)
    }

    /// SUB A,A
    /// 1 4
    /// Z 1 H C
    fn op_0097(&mut self, cpu: &mut Cpu, mmu: &mut Mmu, args: &[u8]) -> (r: i16)
        requires
            old(self).cycles <= i16::MAX - 12,
            op_ok(Op::Sub8(Src::A, Src::A), *old(cpu), old(mmu)@, args@),
        ensures
            cycles_reported(*old(self), *final(self), r),
            (r, *final(cpu), final(mmu)@) == op_spec(Op::Sub8(Src::A, Src::A), old(self).cycles, *old(cpu), old(mmu)@, args@),
    {
        proof {
            reveal(op_ok);
            reveal(op_spec);
        }
        self.sub_8(cpu, mmu, args, Src::A, Src::A)
    }

    /// SBC A,B
    /// 1 4
    /// Z 1 H C
    fn op_0098(&mut self, cpu: &mut Cpu, mmu: &mut Mmu, args: &[u8]) -> (r: i16)
        requires
            old(self).cycles <= i16::MAX - 12,
            op_ok(Op::Sbc8(Src::A, Src::B), *old(cpu), old(mmu)@, args@),
        ensures
            cycles_reported(*old(self), *final(self), r),
            (r, *final(cpu), final(mmu)@) == op_spec(Op::Sbc8(Src::A, Src::B), old(self).cycles, *old(cpu), old(mmu)@, args@),
    {
        proof {
            reveal(op_ok);
            reveal(op_spec);
        }
        self.sbc_8(cpu, mmu, args, Src::A, Src::B)
    }

    /// SBC A,C
    /// 1 4
    /// Z 1 H C
    fn op_0099(&mut self, cpu: &mut Cpu, mmu: &mut Mmu, args: &[u8]) -> (r: i16)
        requires
            old(self).cycles <= i16::MAX - 12,
            op_ok(Op::Sbc8(Src::A, Src::C), *old(cpu), old(mmu)@, args@),
        ensures
            cycles_reported(*old(self), *final(self), r),
            (r, *final(cpu), final(mmu)@) == op_spec(Op::Sbc8(Src::A, Src::C), old(self).cycles, *old(cpu), old(mmu)@, args@),
    {
        proof {
            reveal(op_ok);
            reveal(op_spec);
        }
        self.sbc_8(cpu, mmu, args, Src::A, Src::C)
    }

    /// SBC A,D
    /// 1 4
    /// Z 1 H C
    fn op_009a(&mut self, cpu: &mut Cpu, mmu: &mut Mmu, args: &[u8]) -> (r: i16)
        requires
            old(self).cycles <= i16::MAX - 12,
            op_ok(Op::Sbc8(Src::A, Src::D), *old(cpu), old(mmu)@, args@),
        ensures
            cycles_reported(*old(self), *final(self), r),
            (r, *final(cpu), final(mmu)@) == op_spec(Op::Sbc8(Src::A, Src::D), old(self).cycles, *old(cpu), old(mmu)@, args@),
    {
        proof {
            reveal(op_ok);
            reveal(op_spec);
        }
        self.sbc_8(cpu, mmu, args, Src::A, Src::D)
    }

    /// SBC A,E
    /// 1 4
    /// Z 1 H C
    fn op_009b(&mut self, cpu: &mut Cpu, mmu: &mut Mmu, args: &[u8]) -> (r: i16)
        requires
            old(self).cycles <= i16::MAX - 12,
            op_ok(Op::Sbc8(Src::A, Src::E), *old(cpu), old(mmu)@, args@),
        ensures
            cycles_reported(*old(self), *final(self), r),
            (r, *final(cpu), final(mmu)@) == op_spec(Op::Sbc8(Src::A, Src::E), old(self).cycles, *old(cpu), old(mmu)@, args@),
    {
        proof {
            reveal(op_ok);
            reveal(op_spec);
        }
        self.sbc_8(cpu, mmu, args, Src::A, Src::E)
    }

    /// SBC A,H
    /// 1 4
    /// Z 1 H C
    fn op_009c(&mut self, cpu: &mut Cpu, mmu: &mut Mmu, args: &[u8]) -> (r: i16)
        requires
            old(self).cycles <= i16::MAX - 12,
            op_ok(Op::Sbc8(Src::A, Src::H), *old(cpu), old(mmu)@, args@),
        ensures
            cycles_reported(*old(self), *final(self), r),
            (r, *final(cpu), final(mmu)@) == op_spec(Op::Sbc8(Src::A, Src::H), old(self).cycles, *old(cpu), old(mmu)@, args@),
    {
        proof {
            reveal(op_ok);
            reveal(op_spec);
        }
        self.sbc_8(cpu, mmu, args, Src::A, Src::H)
    }

    /// SBC A,L
    /// 1 4
    /// Z 1 H C
    fn op_009d(&mut self, cpu: &mut Cpu, mmu: &mut Mmu, args: &[u8]) -> (r: i16)
        requires
            old(self).cycles <= i16::MAX - 12,
            op_ok(Op::Sbc8(Src::A, Src::L), *old(cpu), old(mmu)@, args@),
        ensures
            cycles_reported(*old(self), *final(self), r),
            (r, *final(cpu), final(mmu)@) == op_spec(Op::Sbc8(Src::A, Src::L), old(self).cycles, *old(cpu), old(mmu)@, args@),
    {
        proof {
            reveal(op_ok);
            reveal(op_spec);
        }
        self.sbc_8(cpu, mmu, args, Src::A, Src::L)
    }

    /// SBC A,(HL)
    /// 1 8
    /// Z 1 H C
    fn op_009e(&mut self, cpu: &mut Cpu, mmu: &mut Mmu, args: &[u8]) -> (r: i16)
        requires
            old(self).cycles <= i16::MAX - 12,
            op_ok(Op::Sbc8(Src::A, Src::HLa), *old(cpu), old(mmu)@, args@),
        ensures
            cycles_reported(*old(self), *final(self), r),
            (r, *final(cpu), final(mmu)@) == op_spec(Op::Sbc8(Src::A, Src::HLa), old(self).cycles, *old(cpu), old(mmu)@, args@),
    {
        proof {
            reveal(op_ok);
            reveal(op_spec);
        }
        self.sbc_8(cpu, mmu, args, Src::A, Src::HLa)
    }

    /// SBC A,A
    /// 1 4
    /// Z 1 H C
    fn op_009f(&mut self, cpu: &mut Cpu, mmu: &mut Mmu, args: &[u8]) -> (r: i16)
        requires
            old(self).cycles <= i16::MAX - 12,
            op_ok(Op::Sbc8(Src::A, Src::A), *old(cpu), old(mmu)@, args@),
        ensures
            cycles_reported(*old(self), *final(self), r),
            (r, *final(cpu), final(mmu)@) == op_spec(Op::Sbc8(Src::A, Src::A), old(self).cycles, *old(cpu), old(mmu)@, args@),
    {
        proof {
            reveal(op_ok);
            reveal(op_spec);
        }
        self.sbc_8(cpu, mmu, args, Src::A, Src::A)
    }

    /// AND B
    /// 1 4
    /// Z 0 1 0
    fn op_00a0(&mut self, cpu: &mut Cpu, mmu: &mut Mmu, args: &[u8]) -> (r: i16)
        requires
            old(self).cycles <= i16::MAX - 12,
            op_ok(Op::And(Src::B), *old(cpu), old(mmu)@, args@),
        ensures
            cycles_reported(*old(self), *final(self), r),
            (r, *final(cpu), final(mmu)@) == op_spec(Op::And(Src::B), old(self).cycles, *old(cpu), old(mmu)@, args@),
    {
        proof {
            reveal(op_ok);
            reveal(op_spec);
        }
        self.and(cpu, mmu, args, Src::B)
    }

    /// AND C
    /// 1 4
    /// Z 0 1 0
    fn op_00a1(&mut self, cpu: &mut Cpu, mmu: &mut Mmu, args: &[u8]) -> (r: i16)
        requires
            old(self).cycles <= i16::MAX - 12,
            op_ok(Op::And(Src::C), *old(cpu), old(mmu)@, args@),
        ensures
            cycles_reported(*old(self), *final(self), r),
            (r, *final(cpu), final(mmu)@) == op_spec(Op::And(Src::C), old(self).cycles, *old(cpu), old(mmu)@, args@),
    {
        proof {
            reveal(op_ok);
            reveal(op_spec);
        }
        self.and(cpu, mmu, args, Src::C)
    }

    /// AND D
    /// 1 4
    /// Z 0 1 0
    fn op_00a2(&mut self, cpu: &mut Cpu, mmu: &mut Mmu, args: &[u8]) -> (r: i16)
        requires
            old(self).cycles <= i16::MAX - 12,
            op_ok(Op::And(Src::D), *old(cpu), old(mmu)@, args@),
        ensures
            cycles_reported(*old(self), *final(self), r),
            (r, *final(cpu), final(mmu)@) == op_spec(Op::And(Src::D), old(self).cycles, *old(cpu), old(mmu)@, args@),
    {
        proof {
            reveal(op_ok);
            reveal(op_spec);
        }
        self.and(cpu, mmu, args, Src::D)
    }

    /// AND E
    /// 1 4
    /// Z 0 1 0
    fn op_00a3(&mut self, cpu: &mut Cpu, mmu: &mut Mmu, args: &[u8]) -> (r: i16)
        requires
            old(self).cycles <= i16::MAX - 12,
            op_ok(Op::And(Src::E), *old(cpu), old(mmu)@, args@),
        ensures
            cycles_reported(*old(self), *final(self), r),
            (r, *final(cpu), final(mmu)@) == op_spec(Op::And(Src::E), old(self).cycles, *old(cpu), old(mmu)@, args@),
    {
        proof {
            reveal(op_ok);
            reveal(op_spec);
        }
        self.and(cpu, mmu, args, Src::E)
    }

    /// AND H
    /// 1 4
    /// Z 0 1 0
    fn op_00a4(&mut self, cpu: &mut Cpu, mmu: &mut Mmu, args: &[u8]) -> (r: i16)
        requires
            old(self).cycles <= i16::MAX - 12,
            op_ok(Op::And(Src::H), *old(cpu), old(mmu)@, args@),
        ensures
            cycles_reported(*old(self), *final(self), r),
            (r, *final(cpu), final(mmu)@) == op_spec(Op::And(Src::H), old(self).cycles, *old(cpu), old(mmu)@, args@),
    {
        proof {
            reveal(op_ok);
            reveal(op_spec);
        }
        self.and(cpu, mmu, args, Src::H)
    }

    /// AND L
    /// 1 4
    /// Z 0 1 0
    fn op_00a5(&mut self, cpu: &mut Cpu, mmu: &mut Mmu, args: &[u8]) -> (r: i16)
        requires
            old(self).cycles <= i16::MAX - 12,
            op_ok(Op::And(Src::L), *old(cpu), old(mmu)@, args@),
        ensures
            cycles_reported(*old(self), *final(self), r),
            (r, *final(cpu), final(mmu)@) == op_spec(Op::And(Src::L), old(self).cycles, *old(cpu), old(mmu)@, args@),
    {
        proof {
            reveal(op_ok);
            reveal(op_spec);
        }
        self.and(cpu, mmu, args, Src::L)
    }

    /// AND (HL)
    /// 1 8
    /// Z 0 1 0
    fn op_00a6(&mut self, cpu: &mut Cpu, mmu: &mut Mmu, args: &[u8]) -> (r: i16)
        requires
            old(self).cycles <= i16::MAX - 12,
            op_ok(Op::And(Src::HLa), *old(cpu), old(mmu)@, args@),
        ensures
            cycles_reported(*old(self), *final(self), r),
            (r, *final(cpu), final(mmu)@) == op_spec(Op::And(Src::HLa), old(self).cycles, *old(cpu), old(mmu)@, args@),
    {
        proof {
            reveal(op_ok);
            reveal(op_spec);
        }
        self.and(cpu, mmu, args, Src::HLa)
    }

    /// AND A
    /// 1 4
    /// Z 0 1 0
    fn op_00a7(&mut self, cpu: &mut Cpu, mmu: &mut Mmu, args: &[u8]) -> (r: i16)
        requires
            old(self).cycles <= i16::MAX - 12,
            op_ok(Op::And(Src::A), *old(cpu), old(mmu)@, args@),
        ensures
            cycles_reported(*old(self), *final(self), r),
            (r, *final(cpu), final(mmu)@) == op_spec(Op::And(Src::A), old(self).cycles, *old(cpu), old(mmu)@, args@),
    {
        proof {
            reveal(op_ok);
            reveal(op_spec);
        }
        self.and(cpu, mmu, args, Src::A)
    }

    /// XOR B
    /// 1 4
    /// Z 0 0 0
    fn op_00a8(&mut self, cpu: &mut Cpu, mmu: &mut Mmu, args: &[u8]) -> (r: i16)
        requires
            old(self).cycles <= i16::MAX - 12,
            op_ok(Op::Xor(Src::B), *old(cpu), old(mmu)@, args@),
        ensures
            cycles_reported(*old(self), *final(self), r),
            (r, *final(cpu), final(mmu)@) == op_spec(Op::Xor(Src::B), old(self).cycles, *old(cpu), old(mmu)@, args@),
    {
        proof {
            reveal(op_ok);
            reveal(op_spec);
        }
        self.xor(cpu, mmu, args, Src::B)
    }

    /// XOR C
    /// 1 4
    /// Z 0 0 0
    fn op_00a9(&mut self, cpu: &mut Cpu, mmu: &mut Mmu, args: &[u8]) -> (r: i16)
        requires
            old(self).cycles <= i16::MAX - 12,
            op_ok(Op::Xor(Src::C), *old(cpu), old(mmu)@, args@),
        ensures
            cycles_reported(*old(self), *final(self), r),
            (r, *final(cpu), final(mmu)@) == op_spec(Op::Xor(Src::C), old(self).cycles, *old(cpu), old(mmu)@, args@),
    {
        proof {
            reveal(op_ok);
            reveal(op_spec);
        }
        self.xor(cpu, mmu, args, Src::C)
    }

    /// XOR D
    /// 1 4
    /// Z 0 0 0
    fn op_00aa(&mut self, cpu: &mut Cpu, mmu: &mut Mmu, args: &[u8]) -> (r: i16)
        requires
            old(self).cycles <= i16::MAX - 12,
            op_ok(Op::Xor(Src::D), *old(cpu), old(mmu)@, args@),
        ensures
            cycles_reported(*old(self), *final(self), r),
            (r, *final(cpu), final(mmu)@) == op_spec(Op::Xor(Src::D), old(self).cycles, *old(cpu), old(mmu)@, args@),
    {
        proof {
            reveal(op_ok);
            reveal(op_spec);
        }
        self.xor(cpu, mmu, args, Src::D)
    }

    /// XOR E
    /// 1 4
    /// Z 0 0 0
    fn op_00ab(&mut self, cpu: &mut Cpu, mmu: &mut Mmu, args: &[u8]) -> (r: i16)
        requires
            old(self).cycles <= i16::MAX - 12,
            op_ok(Op::Xor(Src::E), *old(cpu), old(mmu)@, args@),
        ensures
            cycles_reported(*old(self), *final(self), r),
            (r, *final(cpu), final(mmu)@) == op_spec(Op::Xor(Src::E), old(self).cycles, *old(cpu), old(mmu)@, args@),
    {
        proof {
            reveal(op_ok);
            reveal(op_spec);
        }
        self.xor(cpu, mmu, args, Src::E)
    }

    /// XOR H
    /// 1 4
    /// Z 0 0 0
    fn op_00ac(&mut self, cpu: &mut Cpu, mmu: &mut Mmu, args: &[u8]) -> (r: i16)
        requires
            old(self).cycles <= i16::MAX - 12,
            op_ok(Op::Xor(Src::H), *old(cpu), old(mmu)@, args@),
        ensures
            cycles_reported(*old(self), *final(self), r),
            (r, *final(cpu), final(mmu)@) == op_spec(Op::Xor(Src::H), old(self).cycles, *old(cpu), old(mmu)@, args@),
    {
        proof {
            reveal(op_ok);
            reveal(op_spec);
        }
        self.xor(cpu, mmu, args, Src::H)
    }

    /// XOR L
    /// 1 4
    /// Z 0 0 0
    fn op_00ad(&mut self, cpu: &mut Cpu, mmu: &mut Mmu, args: &[u8]) -> (r: i16)
        requires
            old(self).cycles <= i16::MAX - 12,
            op_ok(Op::Xor(Src::L), *old(cpu), old(mmu)@, args@),
        ensures
            cycles_reported(*old(self), *final(self), r),
            (r, *final(cpu), final(mmu)@) == op_spec(Op::Xor(Src::L), old(self).cycles, *old(cpu), old(mmu)@, args@),
    {
        proof {
            reveal(op_ok);
            reveal(op_spec);
        }
        self.xor(cpu, mmu, args, Src::L)
    }

    /// XOR (HL)
    /// 1 4
    /// Z 0 0 0
    fn op_00ae(&mut self, cpu: &mut Cpu, mmu: &mut Mmu, args: &[u8]) -> (r: i16)
        requires
            old(self).cycles <= i16::MAX - 12,
            op_ok(Op::Xor(Src::HLa), *old(cpu), old(mmu)@, args@),
        ensures
            cycles_reported(*old(self), *final(self), r),
            (r, *final(cpu), final(mmu)@) == op_spec(Op::Xor(Src::HLa), old(self).cycles, *old(cpu), old(mmu)@, args@),
    {
        proof {
            reveal(op_ok);
            reveal(op_spec);
        }
        self.xor(cpu, mmu, args, Src::HLa)
    }

    /// XOR A
    /// 1 4
    /// Z 0 0 0
    fn op_00af(&mut self, cpu: &mut Cpu, mmu: &mut Mmu, args: &[u8]) -> (r: i16)
        requires
            old(self).cycles <= i16::MAX - 12,
            op_ok(Op::Xor(Src::A), *old(cpu), old(mmu)@, args@),
        ensures
            cycles_reported(*old(self), *final(self), r),
            (r, *final(cpu), final(mmu)@) == op_spec(Op::Xor(Src::A), old(self).cycles, *old(cpu), old(mmu)@, args@),
    {
        proof {
            reveal(op_ok);
            reveal(op_spec);
        }
        self.xor(cpu, mmu, args, Src::A)
    }

    /// OR B
    /// 1 4
    /// Z 0 0 0
    fn op_00b0(&mut self, cpu: &mut Cpu, mmu: &mut Mmu, args: &[u8]) -> (r: i16)
        requires
            old(self).cycles <= i16::MAX - 12,
            op_ok(Op::Or(Src::B), *old(cpu), old(mmu)@, args@),
        ensures
            cycles_reported(*old(self), *final(self), r),
            (r, *final(cpu), final(mmu)@) == op_spec(Op::Or(Src::B), old(self).cycles, *old(cpu), old(mmu)@, args@),
    {
        proof {
            reveal(op_ok);
            reveal(op_spec);
        }
        self.or(cpu, mmu, args, Src::B)
    }

    /// OR C
    /// 1 4
    /// Z 0 0 0
    fn op_00b1(&mut self, cpu: &mut Cpu, mmu: &mut Mmu, args: &[u8]) -> (r: i16)
        requires
            old(self).cycles <= i16::MAX - 12,
            op_ok(Op::Or(Src::C), *old(cpu), old(mmu)@, args@),
        ensures
            cycles_reported(*old(self), *final(self), r),
            (r, *final(cpu), final(mmu)@) == op_spec(Op::Or(Src::C), old(self).cycles, *old(cpu), old(mmu)@, args@),
    {
        proof {
            reveal(op_ok);
            reveal(op_spec);
        }
        self.or(cpu, mmu, args, Src::C)
    }

    /// OR D
    /// 1 4
    /// Z 0 0 0
    fn op_00b2(&mut self, cpu: &mut Cpu, mmu: &mut Mmu, args: &[u8]) -> (r: i16)
        requires
            old(self).cycles <= i16::MAX - 12,
            op_ok(Op::Or(Src::D), *old(cpu), old(mmu)@, args@),
        ensures
            cycles_reported(*old(self), *final(self), r),
            (r, *final(cpu), final(mmu)@) == op_spec(Op::Or(Src::D), old(self).cycles, *old(cpu), old(mmu)@, args@),
    {
        proof {
            reveal(op_ok);
            reveal(op_spec);
        }
        self.or(cpu, mmu, args, Src::D)
    }

    /// OR E
    /// 1 4
    /// Z 0 0 0
    fn op_00b3(&mut self, cpu: &mut Cpu, mmu: &mut Mmu, args: &[u8]) -> (r: i16)
        requires
            old(self).cycles <= i16::MAX - 12,
            op_ok(Op::Or(Src::E), *old(cpu), old(mmu)@, args@),
        ensures
            cycles_reported(*old(self), *final(self), r),
            (r, *final(cpu), final(mmu)@) == op_spec(Op::Or(Src::E), old(self).cycles, *old(cpu), old(mmu)@, args@),
    {
        proof {
            reveal(op_ok);
            reveal(op_spec);
        }
        self.or(cpu, mmu, args, Src::E)
    }

    /// OR H
    /// 1 4
    /// Z 0 0 0
    fn op_00b4(&mut self, cpu: &mut Cpu, mmu: &mut Mmu, args: &[u8]) -> (r: i16)
        requires
            old(self).cycles <= i16::MAX - 12,
            op_ok(Op::Or(Src::H), *old(cpu), old(mmu)@, args@),
        ensures
            cycles_reported(*old(self), *final(self), r),
            (r, *final(cpu), final(mmu)@) == op_spec(Op::Or(Src::H), old(self).cycles, *old(cpu), old(mmu)@, args@),
    {
        proof {
            reveal(op_ok);
            reveal(op_spec);
        }
        self.or(cpu, mmu, args, Src::H)
    }

    /// OR L
    /// 1 4
    /// Z 0 0 0
    fn op_00b5(&mut self, cpu: &mut Cpu, mmu: &mut Mmu, args: &[u8]) -> (r: i16)
        requires
            old(self).cycles <= i16::MAX - 12,
            op_ok(Op::Or(Src::L), *old(cpu), old(mmu)@, args@),
        ensures
            cycles_reported(*old(self), *final(self), r),
            (r, *final(cpu), final(mmu)@) == op_spec(Op::Or(Src::L), old(self).cycles, *old(cpu), old(mmu)@, args@),
    {
        proof {
            reveal(op_ok);
            reveal(op_spec);
        }
        self.or(cpu, mmu, args, Src::L)
    }

    /// OR (HL)
    /// 1 4
    /// Z 0 0 0
    fn op_00b6(&mut self, cpu: &mut Cpu, mmu: &mut Mmu, args: &[u8]) -> (r: i16)
        requires
            old(self).cycles <= i16::MAX - 12,
            op_ok(Op::Or(Src::HLa), *old(cpu), old(mmu)@, args@),
        ensures
            cycles_reported(*old(self), *final(self), r),
            (r, *final(cpu), final(mmu)@) == op_spec(Op::Or(Src::HLa), old(self).cycles, *old(cpu), old(mmu)@, args@),
    {
        proof {
            reveal(op_ok);
            reveal(op_spec);
        }
        self.or(cpu, mmu, args, Src::HLa)
    }

    /// OR A
    /// 1 4
    /// Z 0 0 0
    fn op_00b7(&mut self, cpu: &mut Cpu, mmu: &mut Mmu, args: &[u8]) -> (r: i16)
        requires
            old(self).cycles <= i16::MAX - 12,
            op_ok(Op::Or(Src::A), *old(cpu), old(mmu)@, args@),
        ensures
            cycles_reported(*old(self), *final(self), r),
            (r, *final(cpu), final(mmu)@) == op_spec(Op::Or(Src::A), old(self).cycles, *old(cpu), old(mmu)@, args@),
    {
        proof {
            reveal(op_ok);
            reveal(op_spec);
        }
        self.or(cpu, mmu, args, Src::A)
    }

    /// CP B
    /// 1 4
    /// Z 1 H C
    fn op_00b8(&mut self, cpu: &mut Cpu, mmu: &mut Mmu, args: &[u8]) -> (r: i16)
        requires
            old(self).cycles <= i16::MAX - 12,
            op_ok(Op::Cp(Src::B), *old(cpu), old(mmu)@, args@),
        ensures
            cycles_reported(*old(self), *final(self), r),
            (r, *final(cpu), final(mmu)@) == op_spec(Op::Cp(Src::B), old(self).cycles, *old(cpu), old(mmu)@, args@),
    {
        proof {
            reveal(op_ok);
            reveal(op_spec);
        }
        self.cp(cpu, mmu, args, Src::B)
    }

    /// CP C
    /// 1 4
    /// Z 1 H C
    fn op_00b9(&mut self, cpu: &mut Cpu, mmu: &mut Mmu, args: &[u8]) -> (r: i16)
        requires
            old(self).cycles <= i16::MAX - 12,
            op_ok(Op::Cp(Src::C), *old(cpu), old(mmu)@, args@),
        ensures
            cycles_reported(*old(self), *final(self), r),
            (r, *final(cpu), final(mmu)@) == op_spec(Op::Cp(Src::C), old(self).cycles, *old(cpu), old(mmu)@, args@),
    {
        proof {
            reveal(op_ok);
            reveal(op_spec);
        }
        self.cp(cpu, mmu, args, Src::C)
    }

    /// CP D
    /// 1 4
    /// Z 1 H C
    fn op_00ba(&mut self, cpu: &mut Cpu, mmu: &mut Mmu, args: &[u8]) -> (r: i16)
        requires
            old(self).cycles <= i16::MAX - 12,
            op_ok(Op::Cp(Src::D), *old(cpu), old(mmu)@, args@),
        ensures
            cycles_reported(*old(self), *final(self), r),
            (r, *final(cpu), final(mmu)@) == op_spec(Op::Cp(Src::D), old(self).cycles, *old(cpu), old(mmu)@, args@),
    {
        proof {
            reveal(op_ok);
            reveal(op_spec);
        }
        self.cp(cpu, mmu, args, Src::D)
    }

    /// CP E
    /// 1 4
    /// Z 1 H C
    fn op_00bb(&mut self, cpu: &mut Cpu, mmu: &mut Mmu, args: &[u8]) -> (r: i16)
        requires
            old(self).cycles <= i16::MAX - 12,
            op_ok(Op::Cp(Src::E), *old(cpu), old(mmu)@, args@),
        ensures
            cycles_reported(*old(self), *final(self), r),
            (r, *final(cpu), final(mmu)@) == op_spec(Op::Cp(Src::E), old(self).cycles, *old(cpu), old(mmu)@, args@),
    {
        proof {
            reveal(op_ok);
            reveal(op_spec);
        }
        self.cp(cpu, mmu, args, Src::E)
    }

    /// CP H
    /// 1 4
    /// Z 1 H C
    fn op_00bc(&mut self, cpu: &mut Cpu, mmu: &mut Mmu, args: &[u8]) -> (r: i16)
        requires
            old(self).cycles <= i16::MAX - 12,
            op_ok(Op::Cp(Src::H), *old(cpu), old(mmu)@, args@),
        ensures
            cycles_reported(*old(self), *final(self), r),
            (r, *final(cpu), final(mmu)@) == op_spec(Op::Cp(Src::H), old(self).cycles, *old(cpu), old(mmu)@, args@),
    {
        proof {
            reveal(op_ok);
            reveal(op_spec);
        }
        self.cp(cpu, mmu, args, Src::H)
    }

    /// CP L
    /// 1 4
    /// Z 1 H C
    fn op_00bd(&mut self, cpu: &mut Cpu, mmu: &mut Mmu, args: &[u8]) -> (r: i16)
        requires
            old(self).cycles <= i16::MAX - 12,
            op_ok(Op::Cp(Src::L), *old(cpu), old(mmu)@, args@),
        ensures
            cycles_reported(*old(self), *final(self), r),
            (r, *final(cpu), final(mmu)@) == op_spec(Op::Cp(Src::L), old(self).cycles, *old(cpu), old(mmu)@, args@),
    {
        proof {
            reveal(op_ok);
            reveal(op_spec);
        }
        self.cp(cpu, mmu, args, Src::L)
    }

    /// CP (HL)
    /// 1 8
    /// Z 1 H C
    fn op_00be(&mut self, cpu: &mut Cpu, mmu: &mut Mmu, args: &[u8]) -> (r: i16)
        requires
            old(self).cycles <= i16::MAX - 12,
            op_ok(Op::Cp(Src::HLa), *old(cpu), old(mmu)@, args@),
        ensures
            cycles_reported(*old(self), *final(self), r),
            (r, *final(cpu), final(mmu)@) == op_spec(Op::Cp(Src::HLa), old(self).cycles, *old(cpu), old(mmu)@, args@),
    {
        proof {
            reveal(op_ok);
            reveal(op_spec);
        }
        self.cp(cpu, mmu, args, Src::HLa)
    }

    /// CP A
    /// 1 4
    /// Z 1 H C
    fn op_00bf(&mut self, cpu: &mut Cpu, mmu: &mut Mmu, args: &[u8]) -> (r: i16)
        requires
            old(self).cycles <= i16::MAX - 12,
            op_ok(Op::Cp(Src::A), *old(cpu), old(mmu)@, args@),
        ensures
            cycles_reported(*old(self), *final(self), r),
            (r, *final(cpu), final(mmu)@) == op_spec(Op::Cp(Src::A), old(self).cycles, *old(cpu), old(mmu)@, args@),
    {
        proof {
            reveal(op_ok);
            reveal(op_spec);
        }
        self.cp(cpu, mmu, args, Src::A)
    }

    /// RET NZ
    /// 1 8/20
    /// - - - -
    fn op_00c0(&mut self, cpu: &mut Cpu, mmu: &mut Mmu, args: &[u8]) -> (r: i16)
        requires
            old(self).cycles <= i16::MAX - 12,
            op_ok(Op::Ret(Cond::NZ), *old(cpu), old(mmu)@, args@),
        ensures
            cycles_reported(*old(self), *final(self), r),
            (r, *final(cpu), final(mmu)@) == op_spec(Op::Ret(Cond::NZ), old(self).cycles, *old(cpu), old(mmu)@, args@),
    {
        proof {
            reveal(op_ok);
            reveal(op_spec);
        }
        if !cpu.registers.get_flags().zero {
            self.pop(cpu, mmu, CpuRegIndex::PC);
            self.cycles += 12;
        }
        self.cycles
    }

    /// POP BC
    /// 1 12
    /// - - - -
    fn op_00c1(&mut self, cpu: &mut Cpu, mmu: &mut Mmu, args: &[u8]) -> (r: i16)
        requires
            old(self).cycles <= i16::MAX - 12,
            op_ok(Op::Pop(CpuRegIndex::BC), *old(cpu), old(mmu)@, args@),
        ensures
            cycles_reported(*old(self), *final(self), r),
            (r, *final(cpu), final(mmu)@) == op_spec(Op::Pop(CpuRegIndex::BC), old(self).cycles, *old(cpu), old(mmu)@, args@),
    {
        proof {
            reveal(op_ok);
            reveal(op_spec);
        }
        self.pop(cpu, mmu, CpuRegIndex::BC)
    }

    /// JP NZ,a16
    /// 3 12/16
    /// - - - -
    fn op_00c2(&mut self, cpu: &mut Cpu, mmu: &mut Mmu, args: &[u8]) -> (r: i16)
        requires
            old(self).cycles <= i16::MAX - 12,
            op_ok(Op::Jp(Cond::NZ), *old(cpu), old(mmu)@, args@),
        ensures
            cycles_reported(*old(self), *final(self), r),
            (r, *final(cpu), final(mmu)@) == op_spec(Op::Jp(Cond::NZ), old(self).cycles, *old(cpu), old(mmu)@, args@),
    {
        proof {
            reveal(op_ok);
            reveal(op_spec);
        }
        if !cpu.registers.get_flags().zero {
            proof { lemma_d16(args@[0], args@[1]); }
            let address = ((args[1] as u16) << 8) | (args[0] as u16);
            Instruction::jump(cpu, address);
            self.cycles += 4;
        }
        self.cycles
    }

    /// JP a16
    /// 3 16
    /// - - - -
    fn op_00c3(&mut self, cpu: &mut Cpu, mmu: &mut Mmu, args: &[u8]) -> (r: i16)
        requires
            old(self).cycles <= i16::MAX - 12,
            op_ok(Op::Jp(Cond::Always), *old(cpu), old(mmu)@, args@),
        ensures
            cycles_reported(*old(self), *final(self), r),
            (r, *final(cpu), final(mmu)@) == op_spec(Op::Jp(Cond::Always), old(self).cycles, *old(cpu), old(mmu)@, args@),
    {
        proof {
            reveal(op_ok);
            reveal(op_spec);
        }
        proof { lemma_d16(args@[0], args@[1]); }
        let address = ((args[1] as u16) << 8) | (args[0] as u16);
        Instruction::jump(cpu, address);
        self.cycles
    }

    /// CALL NZ,a16
    /// 3 12/24
    /// - - - -
    fn op_00c4(&mut self, cpu: &mut Cpu, mmu: &mut Mmu, args: &[u8]) -> (r: i16)
        requires
            old(self).cycles <= i16::MAX - 12,
            op_ok(Op::Call(Cond::NZ), *old(cpu), old(mmu)@, args@),
        ensures
            cycles_reported(*old(self), *final(self), r),
            (r, *final(cpu), final(mmu)@) == op_spec(Op::Call(Cond::NZ), old(self).cycles, *old(cpu), old(mmu)@, args@),
    {
        proof {
            reveal(op_ok);
            reveal(op_spec);
        }
        if !cpu.registers.get_flags().zero {
            proof { lemma_d16(args@[0], args@[1]); }
            let address = ((args[1] as u16) << 8) | (args[0] as u16);
            Instruction::call(cpu, mmu, address);
            self.cycles += 12;
        }
        self.cycles
    }

    /// PUSH BC
    /// 1 16
    /// - - - -
    fn op_00c5(&mut self, cpu: &mut Cpu, mmu: &mut Mmu, args: &[u8]) -> (r: i16)
        requires
            old(self).cycles <= i16::MAX - 12,
            op_ok(Op::Push(CpuRegIndex::BC), *old(cpu), old(mmu)@, args@),
        ensures
            cycles_reported(*old(self), *final(self), r),
            (r, *final(cpu), final(mmu)@) == op_spec(Op::Push(CpuRegIndex::BC), old(self).cycles, *old(cpu), old(mmu)@, args@),
    {
        proof {
            reveal(op_ok);
            reveal(op_spec);
        }
        Instruction::push(cpu, mmu, CpuRegIndex::BC);
        self.cycles
    }

    /// ADD A,d8
    /// 2 8
    /// Z 0 H C
    fn op_00c6(&mut self, cpu: &mut Cpu, mmu: &mut Mmu, args: &[u8]) -> (r: i16)
        requires
            old(self).cycles <= i16::MAX - 12,
            op_ok(Op::Add8(Src::A, Src::D8), *old(cpu), old(mmu)@, args@),
        ensures
            cycles_reported(*old(self), *final(self), r),
            (r, *final(cpu), final(mmu)@) == op_spec(Op::Add8(Src::A, Src::D8), old(self).cycles, *old(cpu), old(mmu)@, args@),
    {
        proof {
            reveal(op_ok);
            reveal(op_spec);
        }
        self.add_8(cpu, mmu, args, Src::A, Src::D8)
    }

    /// RST 00H
    /// 1 16
    /// - - - -
    fn op_00c7(&mut self, cpu: &mut Cpu, mmu: &mut Mmu, args: &[u8]) -> (r: i16)
        requires
            old(self).cycles <= i16::MAX - 12,
            op_ok(Op::Rst(0x00), *old(cpu), old(mmu)@, args@),
        ensures
            cycles_reported(*old(self), *final(self), r),
            (r, *final(cpu), final(mmu)@) == op_spec(Op::Rst(0x00), old(self).cycles, *old(cpu), old(mmu)@, args@),
    {
        proof {
            reveal(op_ok);
            reveal(op_spec);
        }
        Instruction::call(cpu, mmu, 0x00);
        self.cycles
    }

    /// RET Z
    /// 1 8/20
    /// - - - -
    fn op_00c8(&mut self, cpu: &mut Cpu, mmu: &mut Mmu, args: &[u8]) -> (r: i16)
        requires
            old(self).cycles <= i16::MAX - 12,
            op_ok(Op::Ret(Cond::Z), *old(cpu), old(mmu)@, args@),
        ensures
            cycles_reported(*old(self), *final(self), r),
            (r, *final(cpu), final(mmu)@) == op_spec(Op::Ret(Cond::Z), old(self).cycles, *old(cpu), old(mmu)@, args@),
    {
        proof {
            reveal(op_ok);
            reveal(op_spec);
        }
        if cpu.registers.get_flags().zero {
            self.pop(cpu, mmu, CpuRegIndex::PC);
            self.cycles += 12;
        }
        self.cycles
    }

    /// RET
    /// 1 16
    /// - - - -
    fn op_00c9(&mut self, cpu: &mut Cpu, mmu: &mut Mmu, args: &[u8]) -> (r: i16)
        requires
            old(self).cycles <= i16::MAX - 12,
            op_ok(Op::Ret(Cond::Always), *old(cpu), old(mmu)@, args@),
        ensures
            cycles_reported(*old(self), *final(self), r),
            (r, *final(cpu), final(mmu)@) == op_spec(Op::Ret(Cond::Always), old(self).cycles, *old(cpu), old(mmu)@, args@),
    {
        proof {
            reveal(op_ok);
            reveal(op_spec);
        }
        self.pop(cpu, mmu, CpuRegIndex::PC)
    }

    /// JP Z,a16
    /// 3 12/16
    /// - - - -
    fn op_00ca(&mut self, cpu: &mut Cpu, mmu: &mut Mmu, args: &[u8]) -> (r: i16)
        requires
            old(self).cycles <= i16::MAX - 12,
            op_ok(Op::Jp(Cond::Z), *old(cpu), old(mmu)@, args@),
        ensures
            cycles_reported(*old(self), *final(self), r),
            (r, *final(cpu), final(mmu)@) == op_spec(Op::Jp(Cond::Z), old(self).cycles, *old(cpu), old(mmu)@, args@),
    {
        proof {
            reveal(op_ok);
            reveal(op_spec);
        }
        if cpu.registers.get_flags().zero {
            proof { lemma_d16(args@[0], args@[1]); }
            let address = ((args[1] as u16) << 8) | (args[0] as u16);
            Instruction::jump(cpu, address);
            self.cycles += 4;
        }
        self.cycles
    }

    /// CALL Z,a16
    /// 3 12/24
    /// - - - -
    fn op_00cc(&mut self, cpu: &mut Cpu, mmu: &mut Mmu, args: &[u8]) -> (r: i16)
        requires
            old(self).cycles <= i16::MAX - 12,
            op_ok(Op::Call(Cond::Z), *old(cpu), old(mmu)@, args@),
        ensures
            cycles_reported(*old(self), *final(self), r),
            (r, *final(cpu), final(mmu)@) == op_spec(Op::Call(Cond::Z), old(self).cycles, *old(cpu), old(mmu)@, args@),
    {
        proof {
            reveal(op_ok);
            reveal(op_spec);
        }
        if cpu.registers.get_flags().zero {
            proof { lemma_d16(args@[0], args@[1]); }
            let address = ((args[1] as u16) << 8) | (args[0] as u16);
            Instruction::call(cpu, mmu, address);
            self.cycles += 12;
        }
        self.cycles
    }

    /// CALL a16
    /// 3 24
    /// - - - -
    fn op_00cd(&mut self, cpu: &mut Cpu, mmu: &mut Mmu, args: &[u8]) -> (r: i16)
        requires
            old(self).cycles <= i16::MAX - 12,
            op_ok(Op::Call(Cond::Always), *old(cpu), old(mmu)@, args@),
        ensures
            cycles_reported(*old(self), *final(self), r),
            (r, *final(cpu), final(mmu)@) == op_spec(Op::Call(Cond::Always), old(self).cycles, *old(cpu), old(mmu)@, args@),
    {
        proof {
            reveal(op_ok);
            reveal(op_spec);
        }
        proof { lemma_d16(args@[0], args@[1]); }
        let address = ((args[1] as u16) << 8) | (args[0] as u16);
        Instruction::call(cpu, mmu, address);
        self.cycles
    }

    /// ADC A,d8
    /// 2 8
    /// Z 0 H C
    fn op_00ce(&mut self, cpu: &mut Cpu, mmu: &mut Mmu, args: &[u8]) -> (r: i16)
        requires
            old(self).cycles <= i16::MAX - 12,
            op_ok(Op::Adc8(Src::A, Src::D8), *old(cpu), old(mmu)@, args@),
        ensures
            cycles_reported(*old(self), *final(self), r),
            (r, *final(cpu), final(mmu)@) == op_spec(Op::Adc8(Src::A, Src::D8), old(self).cycles, *old(cpu), old(mmu)@, args@),
    {
        proof {
            reveal(op_ok);
            reveal(op_spec);
        }
        self.adc_8(cpu, mmu, args, Src::A, Src::D8)
    }

    /// RST 08H
    /// 1 16
    /// - - - -
    fn op_00cf(&mut self, cpu: &mut Cpu, mmu: &mut Mmu, args: &[u8]) -> (r: i16)
        requires
            old(self).cycles <= i16::MAX - 12,
            op_ok(Op::Rst(0x08), *old(cpu), old(mmu)@, args@),
        ensures
            cycles_reported(*old(self), *final(self), r),
            (r, *final(cpu), final(mmu)@) == op_spec(Op::Rst(0x08), old(self).cycles, *old(cpu), old(mmu)@, args@),
    {
        proof {
            reveal(op_ok);
            reveal(op_spec);
        }
        Instruction::call(cpu, mmu, 0x08);
        self.cycles
    }

    /// RET NC
    /// 1 8/20
    /// - - - -
    fn op_00d0(&mut self, cpu: &mut Cpu, mmu: &mut Mmu, args: &[u8]) -> (r: i16)
        requires
            old(self).cycles <= i16::MAX - 12,
            op_ok(Op::Ret(Cond::NC), *old(cpu), old(mmu)@, args@),
        ensures
            cycles_reported(*old(self), *final(self), r),
            (r, *final(cpu), final(mmu)@) == op_spec(Op::Ret(Cond::NC), old(self).cycles, *old(cpu), old(mmu)@, args@),
    {
        proof {
            reveal(op_ok);
            reveal(op_spec);
        }
        if !cpu.registers.get_flags().carry {
            self.pop(cpu, mmu, CpuRegIndex::PC);
            self.cycles += 12;
        }
        self.cycles
    }

    /// POP DE
    /// 1 12
    /// - - - -
    fn op_00d1(&mut self, cpu: &mut Cpu, mmu: &mut Mmu, args: &[u8]) -> (r: i16)
        requires
            old(self).cycles <= i16::MAX - 12,
            op_ok(Op::Pop(CpuRegIndex::DE), *old(cpu), old(mmu)@, args@),
        ensures
            cycles_reported(*old(self), *final(self), r),
            (r, *final(cpu), final(mmu)@) == op_spec(Op::Pop(CpuRegIndex::DE), old(self).cycles, *old(cpu), old(mmu)@, args@),
    {
        proof {
            reveal(op_ok);
            reveal(op_spec);
        }
        self.pop(cpu, mmu, CpuRegIndex::DE)
    }

    /// JP NC,a16
    /// 3 12/16
    /// - - - -
    fn op_00d2(&mut self, cpu: &mut Cpu, mmu: &mut Mmu, args: &[u8]) -> (r: i16)
        requires
            old(self).cycles <= i16::MAX - 12,
            op_ok(Op::Jp(Cond::NC), *old(cpu), old(mmu)@, args@),
        ensures
            cycles_reported(*old(self), *final(self), r),
            (r, *final(cpu), final(mmu)@) == op_spec(Op::Jp(Cond::NC), old(self).cycles, *old(cpu), old(mmu)@, args@),
    {
        proof {
            reveal(op_ok);
            reveal(op_spec);
        }
        if !cpu.registers.get_flags().carry {
            proof { lemma_d16(args@[0], args@[1]); }
            let address = ((args[1] as u16) << 8) | (args[0] as u16);
            Instruction::jump(cpu, address);
            self.cycles += 4;
        }
        self.cycles
    }

    /// CALL NC,a16
    /// 3 12/24
    /// - - - -
    fn op_00d4(&mut self, cpu: &mut Cpu, mmu: &mut Mmu, args: &[u8]) -> (r: i16)
        requires
            old(self).cycles <= i16::MAX - 12,
            op_ok(Op::Call(Cond::NC), *old(cpu), old(mmu)@, args@),
        ensures
            cycles_reported(*old(self), *final(self), r),
            (r, *final(cpu), final(mmu)@) == op_spec(Op::Call(Cond::NC), old(self).cycles, *old(cpu), old(mmu)@, args@),
    {
        proof {
            reveal(op_ok);
            reveal(op_spec);
        }
        if !cpu.registers.get_flags().carry {
            proof { lemma_d16(args@[0], args@[1]); }
            let address = ((args[1] as u16) << 8) | (args[0] as u16);
            Instruction::call(cpu, mmu, address);
            self.cycles += 12;
        }
        self.cycles
    }

    /// PUSH DE
    /// 1 16
    /// - - - -
    fn op_00d5(&mut self, cpu: &mut Cpu, mmu: &mut Mmu, args: &[u8]) -> (r: i16)
        requires
            old(self).cycles <= i16::MAX - 12,
            op_ok(Op::Push(CpuRegIndex::DE), *old(cpu), old(mmu)@, args@),
        ensures
            cycles_reported(*old(self), *final(self), r),
            (r, *final(cpu), final(mmu)@) == op_spec(Op::Push(CpuRegIndex::DE), old(self).cycles, *old(cpu), old(mmu)@, args@),
    {
        proof {
            reveal(op_ok);
            reveal(op_spec);
        }
        Instruction::push(cpu, mmu, CpuRegIndex::DE);
        self.cycles
    }

    /// SUB d8
    /// 2 8
    /// Z 1 H C
    fn op_00d6(&mut self, cpu: &mut Cpu, mmu: &mut Mmu, args: &[u8]) -> (r: i16)
        requires
            old(self).cycles <= i16::MAX - 12,
            op_ok(Op::Sub8(Src::A, Src::D8), *old(cpu), old(mmu)@, args@),
        ensures
            cycles_reported(*old(self), *final(self), r),
            (r, *final(cpu), final(mmu)@) == op_spec(Op::Sub8(Src::A, Src::D8), old(self).cycles, *old(cpu), old(mmu)@, args@),
    {
        proof {
            reveal(op_ok);
            reveal(op_spec);
        }
        self.sub_8(cpu, mmu, args, Src::A, Src::D8)
    }

    /// RST 10H
    /// 1 16
    /// - - - -
    fn op_00d7(&mut self, cpu: &mut Cpu, mmu: &mut Mmu, args: &[u8]) -> (r: i16)
        requires
            old(self).cycles <= i16::MAX - 12,
            op_ok(Op::Rst(0x10), *old(cpu), old(mmu)@, args@),
        ensures
            cycles_reported(*old(self), *final(self), r),
            (r, *final(cpu), final(mmu)@) == op_spec(Op::Rst(0x10), old(self).cycles, *old(cpu), old(mmu)@, args@),
    {
        proof {
            reveal(op_ok);
            reveal(op_spec);
        }
        Instruction::call(cpu, mmu, 0x10);
        self.cycles
    }

    /// RET C
    /// 1 8/20
    /// - - - -
    fn op_00d8(&mut self, cpu: &mut Cpu, mmu: &mut Mmu, args: &[u8]) -> (r: i16)
        requires
            old(self).cycles <= i16::MAX - 12,
            op_ok(Op::Ret(Cond::C), *old(cpu), old(mmu)@, args@),
        ensures
            cycles_reported(*old(self), *final(self), r),
            (r, *final(cpu), final(mmu)@) == op_spec(Op::Ret(Cond::C), old(self).cycles, *old(cpu), old(mmu)@, args@),
    {
        proof {
            reveal(op_ok);
            reveal(op_spec);
        }
        if cpu.registers.get_flags().carry {
            self.pop(cpu, mmu, CpuRegIndex::PC);
            self.cycles += 12;
        }
        self.cycles
    }

    /// RET I
    /// 1 16
    /// - - - -
    fn op_00d9(&mut self, cpu: &mut Cpu, mmu: &mut Mmu, args: &[u8]) -> (r: i16)
        requires
            old(self).cycles <= i16::MAX - 12,
            op_ok(Op::Reti, *old(cpu), old(mmu)@, args@),
        ensures
            cycles_reported(*old(self), *final(self), r),
            (r, *final(cpu), final(mmu)@) == op_spec(Op::Reti, old(self).cycles, *old(cpu), old(mmu)@, args@),
    {
        proof {
            reveal(op_ok);
            reveal(op_spec);
        }
        cpu.interrupts.set_ime(true);
        self.pop(cpu, mmu, CpuRegIndex::PC)
    }

    /// JP C,a16
    /// 3 12/16
    /// - - - -
    fn op_00da(&mut self, cpu: &mut Cpu, mmu: &mut Mmu, args: &[u8]) -> (r: i16)
        requires
            old(self).cycles <= i16::MAX - 12,
            op_ok(Op::Jp(Cond::C), *old(cpu), old(mmu)@, args@),
        ensures
            cycles_reported(*old(self), *final(self), r),
            (r, *final(cpu), final(mmu)@) == op_spec(Op::Jp(Cond::C), old(self).cycles, *old(cpu), old(mmu)@, args@),
    {
        proof {
            reveal(op_ok);
            reveal(op_spec);
        }
        if cpu.registers.get_flags().carry {
            proof { lemma_d16(args@[0], args@[1]); }
            let address = ((args[1] as u16) << 8) | (args[0] as u16);
            Instruction::jump(cpu, address);
            self.cycles += 4;
        }
        self.cycles
    }

    /// CALL C,a16
    /// 3 12/24
    /// - - - -
    fn op_00dc(&mut self, cpu: &mut Cpu, mmu: &mut Mmu, args: &[u8]) -> (r: i16)
        requires
            old(self).cycles <= i16::MAX - 12,
            op_ok(Op::Call(Cond::C), *old(cpu), old(mmu)@, args@),
        ensures
            cycles_reported(*old(self), *final(self), r),
            (r, *final(cpu), final(mmu)@) == op_spec(Op::Call(Cond::C), old(self).cycles, *old(cpu), old(mmu)@, args@),
    {
        proof {
            reveal(op_ok);
            reveal(op_spec);
        }
        if cpu.registers.get_flags().carry {
            proof { lemma_d16(args@[0], args@[1]); }
            let address = ((args[1] as u16) << 8) | (args[0] as u16);
            Instruction::call(cpu, mmu, address);
            self.cycles += 12;
        }
        self.cycles
    }

    /// SBC A,d8
    /// 2 8
    /// Z 1 H C
    fn op_00de(&mut self, cpu: &mut Cpu, mmu: &mut Mmu, args: &[u8]) -> (r: i16)
        requires
            old(self).cycles <= i16::MAX - 12,
            op_ok(Op::Sbc8(Src::A, Src::D8), *old(cpu), old(mmu)@, args@),
        ensures
            cycles_reported(*old(self), *final(self), r),
            (r, *final(cpu), final(mmu)@) == op_spec(Op::Sbc8(Src::A, Src::D8), old(self).cycles, *old(cpu), old(mmu)@, args@),
    {
        proof {
            reveal(op_ok);
            reveal(op_spec);
        }
        self.sbc_8(cpu, mmu, args, Src::A, Src::D8)
    }

    /// RST 18H
    /// 1 16
    /// - - - -
    fn op_00df(&mut self, cpu: &mut Cpu, mmu: &mut Mmu, args: &[u8]) -> (r: i16)
        requires
            old(self).cycles <= i16::MAX - 12,
            op_ok(Op::Rst(0x18), *old(cpu), old(mmu)@, args@),
        ensures
            cycles_reported(*old(self), *final(self), r),
            (r, *final(cpu), final(mmu)@) == op_spec(Op::Rst(0x18), old(self).cycles, *old(cpu), old(mmu)@, args@),
    {
        proof {
            reveal(op_ok);
            reveal(op_spec);
        }
        Instruction::call(cpu, mmu, 0x18);
        self.cycles
    }

    /// LDH (a8),A
    /// aka LD ($FF00+a8),A
    /// 2 12
    /// - - - -
    fn op_00e0(&mut self, cpu: &mut Cpu, mmu: &mut Mmu, args: &[u8]) -> (r: i16)
        requires
            old(self).cycles <= i16::MAX - 12,
            op_ok(Op::Ld8(Src::A8, Src::A), *old(cpu), old(mmu)@, args@),
        ensures
            cycles_reported(*old(self), *final(self), r),
            (r, *final(cpu), final(mmu)@) == op_spec(Op::Ld8(Src::A8, Src::A), old(self).cycles, *old(cpu), old(mmu)@, args@),
    {
        proof {
            reveal(op_ok);
            reveal(op_spec);
        }
        self.ld_8(cpu, mmu, args, Src::A8, Src::A)
    }

    /// POP HL
    /// 1 12
    /// - - - -
    fn op_00e1(&mut self, cpu: &mut Cpu, mmu: &mut Mmu, args: &[u8]) -> (r: i16)
        requires
            old(self).cycles <= i16::MAX - 12,
            op_ok(Op::Pop(CpuRegIndex::HL), *old(cpu), old(mmu)@, args@),
        ensures
            cycles_reported(*old(self), *final(self), r),
            (r, *final(cpu), final(mmu)@) == op_spec(Op::Pop(CpuRegIndex::HL), old(self).cycles, *old(cpu), old(mmu)@, args@),
    {
        proof {
            reveal(op_ok);
            reveal(op_spec);
        }
        self.pop(cpu, mmu, CpuRegIndex::HL)
    }

    /// LDH (C),A
    /// aka LD ($FF00+C),A
    /// 1 8
    /// - - - -
    fn op_00e2(&mut self, cpu: &mut Cpu, mmu: &mut Mmu, args: &[u8]) -> (r: i16)
        requires
            old(self).cycles <= i16::MAX - 12,
            op_ok(Op::Ld8(Src::Ca, Src::A), *old(cpu), old(mmu)@, args@),
        ensures
            cycles_reported(*old(self), *final(self), r),
            (r, *final(cpu), final(mmu)@) == op_spec(Op::Ld8(Src::Ca, Src::A), old(self).cycles, *old(cpu), old(mmu)@, args@),
    {
        proof {
            reveal(op_ok);
            reveal(op_spec);
        }
        self.ld_8(cpu, mmu, args, Src::Ca, Src::A)
    }

    /// PUSH HL
    /// 1 16
    /// - - - -
    fn op_00e5(&mut self, cpu: &mut Cpu, mmu: &mut Mmu, args: &[u8]) -> (r: i16)
        requires
            old(self).cycles <= i16::MAX - 12,
            op_ok(Op::Push(CpuRegIndex::HL), *old(cpu), old(mmu)@, args@),
        ensures
            cycles_reported(*old(self), *final(self), r),
            (r, *final(cpu), final(mmu)@) == op_spec(Op::Push(CpuRegIndex::HL), old(self).cycles, *old(cpu), old(mmu)@, args@),
    {
        proof {
            reveal(op_ok);
            reveal(op_spec);
        }
        Instruction::push(cpu, mmu, CpuRegIndex::HL);
        self.cycles
    }

    /// AND d8
    /// 2 8
    /// Z 0 1 0
    fn op_00e6(&mut self, cpu: &mut Cpu, mmu: &mut Mmu, args: &[u8]) -> (r: i16)
        requires
            old(self).cycles <= i16::MAX - 12,
            op_ok(Op::And(Src::D8), *old(cpu), old(mmu)@, args@),
        ensures
            cycles_reported(*old(self), *final(self), r),
            (r, *final(cpu), final(mmu)@) == op_spec(Op::And(Src::D8), old(self).cycles, *old(cpu), old(mmu)@, args@),
    {
        proof {
            reveal(op_ok);
            reveal(op_spec);
        }
        self.and(cpu, mmu, args, Src::D8)
    }

    /// RST 20H
    /// 1 16
    /// - - - -
    fn op_00e7(&mut self, cpu: &mut Cpu, mmu: &mut Mmu, args: &[u8]) -> (r: i16)
        requires
            old(self).cycles <= i16::MAX - 12,
            op_ok(Op::Rst(0x20), *old(cpu), old(mmu)@, args@),
        ensures
            cycles_reported(*old(self), *final(self), r),
            (r, *final(cpu), final(mmu)@) == op_spec(Op::Rst(0x20), old(self).cycles, *old(cpu), old(mmu)@, args@),
    {
        proof {
            reveal(op_ok);
            reveal(op_spec);
        }
        Instruction::call(cpu, mmu, 0x20);
        self.cycles
    }

    /// ADD SP,r8
    /// 2 16
    /// 0 0 H C
    fn op_00e8(&mut self, cpu: &mut Cpu, mmu: &mut Mmu, args: &[u8]) -> (r: i16)
        requires
            old(self).cycles <= i16::MAX - 12,
            op_ok(Op::AddSpR8, *old(cpu), old(mmu)@, args@),
        ensures
            cycles_reported(*old(self), *final(self), r),
            (r, *final(cpu), final(mmu)@) == op_spec(Op::AddSpR8, old(self).cycles, *old(cpu), old(mmu)@, args@),
    {
        proof {
            reveal(op_ok);
            reveal(op_spec);
        }
        // SP = SP +/- dd ; dd is 8-bit signed number
        let sp = Instruction::get_source_value_16(cpu, args, Src::SP);
        let d8 = Instruction::get_source_value_8(cpu, mmu, args, Src::D8);
        let signed = alu::signed_8(d8);

        let (result, flags) = if signed < 0 {
            let a = sp as i32;
            let b = -signed as i32;
            assert((a & 0x0F) == a % 16 && (b & 0x0F) == b % 16) by (bit_vector)
                requires 0 <= a < 65536, 0 < b <= 128;
            let half_carry = (a & 0x0F) < (b & 0x0F);
            let carry = (a - b) < 0;
            let d = a - b;
            assert(d as u16 == (d + 65536) % 65536) by (bit_vector) requires -128 <= d < 65536;
            let result = (a - b) as u16;
            (result, Flags {
                zero: false,
                subtract: false,
                half_carry,
                carry,
            })
        } else {
            let a = sp as i32;
            let b = signed as i32;
            assert((a & 0x0F) == a % 16 && (b & 0x0F) == b % 16) by (bit_vector)
                requires 0 <= a < 65536, 0 <= b < 128;
            let half_carry = ((a & 0x0F) + (b & 0x0F)) > 0x0F;
            let carry = (a + b) > 0xFF;
            let d = a + b;
            assert(d as u16 == d % 65536) by (bit_vector) requires 0 <= d < 65536 + 128;
            let result = (a + b) as u16;
            (result, Flags {
                zero: false,
                subtract: false,
                half_carry,
                carry,
            })
        };

        Instruction::set_target_value_16(cpu, mmu, args, Src::SP, result);
        cpu.registers.set_flags(flags);
        self.cycles
    }

    /// JP HL
    /// 1 4
    /// - - - -
    fn op_00e9(&mut self, cpu: &mut Cpu, mmu: &mut Mmu, args: &[u8]) -> (r: i16)
        requires
            old(self).cycles <= i16::MAX - 12,
            op_ok(Op::JpHl, *old(cpu), old(mmu)@, args@),
        ensures
            cycles_reported(*old(self), *final(self), r),
            (r, *final(cpu), final(mmu)@) == op_spec(Op::JpHl, old(self).cycles, *old(cpu), old(mmu)@, args@),
    {
        proof {
            reveal(op_ok);
            reveal(op_spec);
        }
        let address = cpu.registers.get_word(CpuRegIndex::HL);
        Instruction::jump(cpu, address);
        self.cycles
    }

    /// LD (a16),A 
    /// 3 16 
    /// - - - -
    fn op_00ea(&mut self, cpu: &mut Cpu, mmu: &mut Mmu, args: &[u8]) -> (r: i16)
        requires
            old(self).cycles <= i16::MAX - 12,
            op_ok(Op::Ld8(Src::A16, Src::A), *old(cpu), old(mmu)@, args@),
        ensures
            cycles_reported(*old(self), *final(self), r),
            (r, *final(cpu), final(mmu)@) == op_spec(Op::Ld8(Src::A16, Src::A), old(self).cycles, *old(cpu), old(mmu)@, args@),
    {
        proof {
            reveal(op_ok);
            reveal(op_spec);
        }
        self.ld_8(cpu, mmu, args, Src::A16, Src::A)
    }

    /// XOR d8
    /// 2 8
    /// Z 0 0 0
    fn op_00ee(&mut self, cpu: &mut Cpu, mmu: &mut Mmu, args: &[u8]) -> (r: i16)
        requires
            old(self).cycles <= i16::MAX - 12,
            op_ok(Op::Xor(Src::D8), *old(cpu), old(mmu)@, args@),
        ensures
            cycles_reported(*old(self), *final(self), r),
            (r, *final(cpu), final(mmu)@) == op_spec(Op::Xor(Src::D8), old(self).cycles, *old(cpu), old(mmu)@, args@),
    {
        proof {
            reveal(op_ok);
            reveal(op_spec);
        }
        self.xor(cpu, mmu, args, Src::D8)
    }

    /// RST 28H
    /// 1 16
    /// - - - -
    fn op_00ef(&mut self, cpu: &mut Cpu, mmu: &mut Mmu, args: &[u8]) -> (r: i16)
        requires
            old(self).cycles <= i16::MAX - 12,
            op_ok(Op::Rst(0x28), *old(cpu), old(mmu)@, args@),
        ensures
            cycles_reported(*old(self), *final(self), r),
            (r, *final(cpu), final(mmu)@) == op_spec(Op::Rst(0x28), old(self).cycles, *old(cpu), old(mmu)@, args@),
    {
        proof {
            reveal(op_ok);
            reveal(op_spec);
        }
        Instruction::call(cpu, mmu, 0x28);
        self.cycles
    }

    /// LDH A,(a8)
    /// aka LD A,($FF00+a8)
    /// 2 12
    /// - - - -
    fn op_00f0(&mut self, cpu: &mut Cpu, mmu: &mut Mmu, args: &[u8]) -> (r: i16)
        requires
            old(self).cycles <= i16::MAX - 12,
            op_ok(Op::Ld8(Src::A, Src::A8), *old(cpu), old(mmu)@, args@),
        ensures
            cycles_reported(*old(self), *final(self), r),
            (r, *final(cpu), final(mmu)@) == op_spec(Op::Ld8(Src::A, Src::A8), old(self).cycles, *old(cpu), old(mmu)@, args@),
    {
        proof {
            reveal(op_ok);
            reveal(op_spec);
        }
        self.ld_8(cpu, mmu, args, Src::A, Src::A8)
    }

    /// POP AF
    /// 1 12
    /// Z N H C
    fn op_00f1(&mut self, cpu: &mut Cpu, mmu: &mut Mmu, args: &[u8]) -> (r: i16)
        requires
            old(self).cycles <= i16::MAX - 12,
            op_ok(Op::PopAf, *old(cpu), old(mmu)@, args@),
        ensures
            cycles_reported(*old(self), *final(self), r),
            (r, *final(cpu), final(mmu)@) == op_spec(Op::PopAf, old(self).cycles, *old(cpu), old(mmu)@, args@),
    {
        proof {
            reveal(op_ok);
            reveal(op_spec);
        }
        self.pop(cpu, mmu, CpuRegIndex::AF);
        let f = cpu.registers.get_byte(CpuRegIndex::F) & 0xF0;
        cpu.registers.set_byte(CpuRegIndex::F, f);
        self.cycles
    }

    /// LDH A,(C)
    /// aka LD A,($FF00+C)
    /// 1 8
    /// - - - -
    fn op_00f2(&mut self, cpu: &mut Cpu, mmu: &mut Mmu, args: &[u8]) -> (r: i16)
        requires
            old(self).cycles <= i16::MAX - 12,
            op_ok(Op::Ld8(Src::A, Src::Ca), *old(cpu), old(mmu)@, args@),
        ensures
            cycles_reported(*old(self), *final(self), r),
            (r, *final(cpu), final(mmu)@) == op_spec(Op::Ld8(Src::A, Src::Ca), old(self).cycles, *old(cpu), old(mmu)@, args@),
    {
        proof {
            reveal(op_ok);
            reveal(op_spec);
        }
        self.ld_8(cpu, mmu, args, Src::A, Src::Ca)
    }

    /// DI
    /// 1 4
    /// - - - -
    fn op_00f3(&mut self, cpu: &mut Cpu, mmu: &mut Mmu, args: &[u8]) -> (r: i16)
        requires
            old(self).cycles <= i16::MAX - 12,
            op_ok(Op::Di, *old(cpu), old(mmu)@, args@),
        ensures
            cycles_reported(*old(self), *final(self), r),
            (r, *final(cpu), final(mmu)@) == op_spec(Op::Di, old(self).cycles, *old(cpu), old(mmu)@, args@),
    {
        proof {
            reveal(op_ok);
            reveal(op_spec);
        }
        cpu.interrupts.set_ime(false);
        self.cycles
    }

    /// PUSH AF
    /// 1 16
    /// - - - -
    fn op_00f5(&mut self, cpu: &mut Cpu, mmu: &mut Mmu, args: &[u8]) -> (r: i16)
        requires
            old(self).cycles <= i16::MAX - 12,
            op_ok(Op::Push(CpuRegIndex::AF), *old(cpu), old(mmu)@, args@),
        ensures
            cycles_reported(*old(self), *final(self), r),
            (r, *final(cpu), final(mmu)@) == op_spec(Op::Push(CpuRegIndex::AF), old(self).cycles, *old(cpu), old(mmu)@, args@),
    {
        proof {
            reveal(op_ok);
            reveal(op_spec);
        }
        Instruction::push(cpu, mmu, CpuRegIndex::AF);
        self.cycles
    }

    /// OR d8
    /// 2 8
    /// Z 0 0 0
    fn op_00f6(&mut self, cpu: &mut Cpu, mmu: &mut Mmu, args: &[u8]) -> (r: i16)
        requires
            old(self).cycles <= i16::MAX - 12,
            op_ok(Op::Or(Src::D8), *old(cpu), old(mmu)@, args@),
        ensures
            cycles_reported(*old(self), *final(self), r),
            (r, *final(cpu), final(mmu)@) == op_spec(Op::Or(Src::D8), old(self).cycles, *old(cpu), old(mmu)@, args@),
    {
        proof {
            reveal(op_ok);
            reveal(op_spec);
        }
        self.or(cpu, mmu, args, Src::D8)
    }

    /// RST 30H
    /// 1 16
    /// - - - -
    fn op_00f7(&mut self, cpu: &mut Cpu, mmu: &mut Mmu, args: &[u8]) -> (r: i16)
        requires
            old(self).cycles <= i16::MAX - 12,
            op_ok(Op::Rst(0x30), *old(cpu), old(mmu)@, args@),
        ensures
            cycles_reported(*old(self), *final(self), r),
            (r, *final(cpu), final(mmu)@) == op_spec(Op::Rst(0x30), old(self).cycles, *old(cpu), old(mmu)@, args@),
    {
        proof {
            reveal(op_ok);
            reveal(op_spec);
        }
        Instruction::call(cpu, mmu, 0x30);
        self.cycles
    }

    /// LD HL,SP+r8
    /// 2 12
    /// 0 0 H C
    /// HL = SP +/- dd ; dd is 8-bit signed number
    fn op_00f8(&mut self, cpu: &mut Cpu, mmu: &mut Mmu, args: &[u8]) -> (r: i16)
        requires
            old(self).cycles <= i16::MAX - 12,
            op_ok(Op::LdHlSpR8, *old(cpu), old(mmu)@, args@),
        ensures
            cycles_reported(*old(self), *final(self), r),
            (r, *final(cpu), final(mmu)@) == op_spec(Op::LdHlSpR8, old(self).cycles, *old(cpu), old(mmu)@, args@),
    {
        proof {
            reveal(op_ok);
            reveal(op_spec);
        }
        let a = cpu.registers.get_word(CpuRegIndex::SP);
        let b = alu::signed_8(args[0]);
        let (result, mut flags) = if b < 0 {
            alu::subtract_16(a, (-b) as u16)
        } else {
            alu::add_16(a, b as u16)
        };
        flags.zero = false;
        flags.subtract = false;
        cpu.registers.set_word(CpuRegIndex::HL, result);
        cpu.registers.set_flags(flags);
        self.cycles
    }

    /// LD SP,HL
    /// 1 8
    /// - - - -
    fn op_00f9(&mut self, cpu: &mut Cpu, mmu: &mut Mmu, args: &[u8]) -> (r: i16)
        requires
            old(self).cycles <= i16::MAX - 12,
            op_ok(Op::Ld16(Src::SP, Src::HL), *old(cpu), old(mmu)@, args@),
        ensures
            cycles_reported(*old(self), *final(self), r),
            (r, *final(cpu), final(mmu)@) == op_spec(Op::Ld16(Src::SP, Src::HL), old(self).cycles, *old(cpu), old(mmu)@, args@),
    {
        proof {
            reveal(op_ok);
            reveal(op_spec);
        }
        self.ld_16(cpu, mmu, args, Src::SP, Src::HL)
    }

    /// LD A,(a16)
    /// 3 16
    /// - - - -
    fn op_00fa(&mut self, cpu: &mut Cpu, mmu: &mut Mmu, args: &[u8]) -> (r: i16)
        requires
            old(self).cycles <= i16::MAX - 12,
            op_ok(Op::Ld8(Src::A, Src::A16), *old(cpu), old(mmu)@, args@),
        ensures
            cycles_reported(*old(self), *final(self), r),
            (r, *final(cpu), final(mmu)@) == op_spec(Op::Ld8(Src::A, Src::A16), old(self).cycles, *old(cpu), old(mmu)@, args@),
    {
        proof {
            reveal(op_ok);
            reveal(op_spec);
        }
        self.ld_8(cpu, mmu, args, Src::A, Src::A16)
    }

    /// EI
    /// 1 4
    /// - - - -
    fn op_00fb(&mut self, cpu: &mut Cpu, mmu: &mut Mmu, args: &[u8]) -> (r: i16)
        requires
            old(self).cycles <= i16::MAX - 12,
            op_ok(Op::Ei, *old(cpu), old(mmu)@, args@),
        ensures
            cycles_reported(*old(self), *final(self), r),
            (r, *final(cpu), final(mmu)@) == op_spec(Op::Ei, old(self).cycles, *old(cpu), old(mmu)@, args@),
    {
        proof {
            reveal(op_ok);
            reveal(op_spec);
        }
        cpu.interrupts.set_ime(true);
        self.cycles
    }

    /// CP d8
    /// 2 8
    /// Z 1 H C
    fn op_00fe(&mut self, cpu: &mut Cpu, mmu: &mut Mmu, args: &[u8]) -> (r: i16)
        requires
            old(self).cycles <= i16::MAX - 12,
            op_ok(Op::Cp(Src::D8), *old(cpu), old(mmu)@, args@),
        ensures
            cycles_reported(*old(self), *final(self), r),
            (r, *final(cpu), final(mmu)@) == op_spec(Op::Cp(Src::D8), old(self).cycles, *old(cpu), old(mmu)@, args@),
    {
        proof {
            reveal(op_ok);
            reveal(op_spec);
        }
        self.cp(cpu, mmu, args, Src::D8)
    }

    /// RST 38H
    /// 1 16
    /// - - - -
    fn op_00ff(&mut self, cpu: &mut Cpu, mmu: &mut Mmu, args: &[u8]) -> (r: i16)
        requires
            old(self).cycles <= i16::MAX - 12,
            op_ok(Op::Rst(0x38), *old(cpu), old(mmu)@, args@),
        ensures
            cycles_reported(*old(self), *final(self), r),
            (r, *final(cpu), final(mmu)@) == op_spec(Op::Rst(0x38), old(self).cycles, *old(cpu), old(mmu)@, args@),
    {
        proof {
            reveal(op_ok);
            reveal(op_spec);
        }
        Instruction::call(cpu, mmu, 0x38);
        self.cycles
    }

    /// RLC B
    /// 2 8
    /// Z 0 0 C
    fn op_cb00(&mut self, cpu: &mut Cpu, mmu: &mut Mmu, args: &[u8]) -> (r: i16)
        requires
            old(self).cycles <= i16::MAX - 12,
            op_ok(Op::RotateCircular(Src::B, true, false), *old(cpu), old(mmu)@, args@),
        ensures
            cycles_reported(*old(self), *final(self), r),
            (r, *final(cpu), final(mmu)@) == op_spec(Op::RotateCircular(Src::B, true, false), old(self).cycles, *old(cpu), old(mmu)@, args@),
    {
        proof {
            reveal(op_ok);
            reveal(op_spec);
        }
        self.rotate_circular(cpu, mmu, args, Src::B, true, false)
    }

    /// RLC C
    /// 2 8
    /// Z 0 0 C
    fn op_cb01(&mut self, cpu: &mut Cpu, mmu: &mut Mmu, args: &[u8]) -> (r: i16)
        requires
            old(self).cycles <= i16::MAX - 12,
            op_ok(Op::RotateCircular(Src::C, true, false), *old(cpu), old(mmu)@, args@),
        ensures
            cycles_reported(*old(self), *final(self), r),
            (r, *final(cpu), final(mmu)@) == op_spec(Op::RotateCircular(Src::C, true, false), old(self).cycles, *old(cpu), old(mmu)@, args@),
    {
        proof {
            reveal(op_ok);
            reveal(op_spec);
        }
        self.rotate_circular(cpu, mmu, args, Src::C, true, false)
    }

    /// RLC D
    /// 2 8
    /// Z 0 0 C
    fn op_cb02(&mut self, cpu: &mut Cpu, mmu: &mut Mmu, args: &[u8]) -> (r: i16)
        requires
            old(self).cycles <= i16::MAX - 12,
            op_ok(Op::RotateCircular(Src::D, true, false), *old(cpu), old(mmu)@, args@),
        ensures
            cycles_reported(*old(self), *final(self), r),
            (r, *final(cpu), final(mmu)@) == op_spec(Op::RotateCircular(Src::D, true, false), old(self).cycles, *old(cpu), old(mmu)@, args@),
    {
        proof {
            reveal(op_ok);
            reveal(op_spec);
        }
        self.rotate_circular(cpu, mmu, args, Src::D, true, false)
    }

    /// RLC E
    /// 2 8
    /// Z 0 0 C
    fn op_cb03(&mut self, cpu: &mut Cpu, mmu: &mut Mmu, args: &[u8]) -> (r: i16)
        requires
            old(self).cycles <= i16::MAX - 12,
            op_ok(Op::RotateCircular(Src::E, true, false), *old(cpu), old(mmu)@, args@),
        ensures
            cycles_reported(*old(self), *final(self), r),
            (r, *final(cpu), final(mmu)@) == op_spec(Op::RotateCircular(Src::E, true, false), old(self).cycles, *old(cpu), old(mmu)@, args@),
    {
        proof {
            reveal(op_ok);
            reveal(op_spec);
        }
        self.rotate_circular(cpu, mmu, args, Src::E, true, false)
    }

    /// RLC H
    /// 2 8
    /// Z 0 0 C
    fn op_cb04(&mut self, cpu: &mut Cpu, mmu: &mut Mmu, args: &[u8]) -> (r: i16)
        requires
            old(self).cycles <= i16::MAX - 12,
            op_ok(Op::RotateCircular(Src::H, true, false), *old(cpu), old(mmu)@, args@),
        ensures
            cycles_reported(*old(self), *final(self), r),
            (r, *final(cpu), final(mmu)@) == op_spec(Op::RotateCircular(Src::H, true, false), old(self).cycles, *old(cpu), old(mmu)@, args@),
    {
        proof {
            reveal(op_ok);
            reveal(op_spec);
        }
        self.rotate_circular(cpu, mmu, args, Src::H, true, false)
    }

    /// RLC L
    /// 2 8
    /// Z 0 0 C
    fn op_cb05(&mut self, cpu: &mut Cpu, mmu: &mut Mmu, args: &[u8]) -> (r: i16)
        requires
            old(self).cycles <= i16::MAX - 12,
            op_ok(Op::RotateCircular(Src::L, true, false), *old(cpu), old(mmu)@, args@),
        ensures
            cycles_reported(*old(self), *final(self), r),
            (r, *final(cpu), final(mmu)@) == op_spec(Op::RotateCircular(Src::L, true, false), old(self).cycles, *old(cpu), old(mmu)@, args@),
    {
        proof {
            reveal(op_ok);
            reveal(op_spec);
        }
        self.rotate_circular(cpu, mmu, args, Src::L, true, false)
    }

    /// RLC (HL)
    /// 2 16
    /// Z 0 0 C
    fn op_cb06(&mut self, cpu: &mut Cpu, mmu: &mut Mmu, args: &[u8]) -> (r: i16)
        requires
            old(self).cycles <= i16::MAX - 12,
            op_ok(Op::RotateCircular(Src::HLa, true, false), *old(cpu), old(mmu)@, args@),
        ensures
            cycles_reported(*old(self), *final(self), r),
            (r, *final(cpu), final(mmu)@) == op_spec(Op::RotateCircular(Src::HLa, true, false), old(self).cycles, *old(cpu), old(mmu)@, args@),
    {
        proof {
            reveal(op_ok);
            reveal(op_spec);
        }
        self.rotate_circular(cpu, mmu, args, Src::HLa, true, false)
    }

    /// RLC A
    /// 2 8
    /// Z 0 0 C
    fn op_cb07(&mut self, cpu: &mut Cpu, mmu: &mut Mmu, args: &[u8]) -> (r: i16)
        requires
            old(self).cycles <= i16::MAX - 12,
            op_ok(Op::RotateCircular(Src::A, true, false), *old(cpu), old(mmu)@, args@),
        ensures
            cycles_reported(*old(self), *final(self), r),
            (r, *final(cpu), final(mmu)@) == op_spec(Op::RotateCircular(Src::A, true, false), old(self).cycles, *old(cpu), old(mmu)@, args@),
    {
        proof {
            reveal(op_ok);
            reveal(op_spec);
        }
        self.rotate_circular(cpu, mmu, args, Src::A, true, false)
    }

    /// RRC B
    /// 2 8
    /// Z 0 0 C
    fn op_cb08(&mut self, cpu: &mut Cpu, mmu: &mut Mmu, args: &[u8]) -> (r: i16)
        requires
            old(self).cycles <= i16::MAX - 12,
            op_ok(Op::RotateCircular(Src::B, false, false), *old(cpu), old(mmu)@, args@),
        ensures
            cycles_reported(*old(self), *final(self), r),
            (r, *final(cpu), final(mmu)@) == op_spec(Op::RotateCircular(Src::B, false, false), old(self).cycles, *old(cpu), old(mmu)@, args@),
    {
        proof {
            reveal(op_ok);
            reveal(op_spec);
        }
        self.rotate_circular(cpu, mmu, args, Src::B, false, false)
    }

    /// RRC C
    /// 2 8
    /// Z 0 0 C
    fn op_cb09(&mut self, cpu: &mut Cpu, mmu: &mut Mmu, args: &[u8]) -> (r: i16)
        requires
            old(self).cycles <= i16::MAX - 12,
            op_ok(Op::RotateCircular(Src::C, false, false), *old(cpu), old(mmu)@, args@),
        ensures
            cycles_reported(*old(self), *final(self), r),
            (r, *final(cpu), final(mmu)@) == op_spec(Op::RotateCircular(Src::C, false, false), old(self).cycles, *old(cpu), old(mmu)@, args@),
    {
        proof {
            reveal(op_ok);
            reveal(op_spec);
        }
        self.rotate_circular(cpu, mmu, args, Src::C, false, false)
    }

    /// RRC D
    /// 2 8
    /// Z 0 0 C
    fn op_cb0a(&mut self, cpu: &mut Cpu, mmu: &mut Mmu, args: &[u8]) -> (r: i16)
        requires
            old(self).cycles <= i16::MAX - 12,
            op_ok(Op::RotateCircular(Src::D, false, false), *old(cpu), old(mmu)@, args@),
        ensures
            cycles_reported(*old(self), *final(self), r),
            (r, *final(cpu), final(mmu)@) == op_spec(Op::RotateCircular(Src::D, false, false), old(self).cycles, *old(cpu), old(mmu)@, args@),
    {
        proof {
            reveal(op_ok);
            reveal(op_spec);
        }
        self.rotate_circular(cpu, mmu, args, Src::D, false, false)
    }

    /// RRC E
    /// 2 8
    /// Z 0 0 C
    fn op_cb0b(&mut self, cpu: &mut Cpu, mmu: &mut Mmu, args: &[u8]) -> (r: i16)
        requires
            old(self).cycles <= i16::MAX - 12,
            op_ok(Op::RotateCircular(Src::E, false, false), *old(cpu), old(mmu)@, args@),
        ensures
            cycles_reported(*old(self), *final(self), r),
            (r, *final(cpu), final(mmu)@) == op_spec(Op::RotateCircular(Src::E, false, false), old(self).cycles, *old(cpu), old(mmu)@, args@),
    {
        proof {
            reveal(op_ok);
            reveal(op_spec);
        }
        self.rotate_circular(cpu, mmu, args, Src::E, false, false)
    }

    /// RRC H
    /// 2 8
    /// Z 0 0 C
    fn op_cb0c(&mut self, cpu: &mut Cpu, mmu: &mut Mmu, args: &[u8]) -> (r: i16)
        requires
            old(self).cycles <= i16::MAX - 12,
            op_ok(Op::RotateCircular(Src::H, false, false), *old(cpu), old(mmu)@, args@),
        ensures
            cycles_reported(*old(self), *final(self), r),
            (r, *final(cpu), final(mmu)@) == op_spec(Op::RotateCircular(Src::H, false, false), old(self).cycles, *old(cpu), old(mmu)@, args@),
    {
        proof {
            reveal(op_ok);
            reveal(op_spec);
        }
        self.rotate_circular(cpu, mmu, args, Src::H, false, false)
    }

    /// RRC L
    /// 2 8
    /// Z 0 0 C
    fn op_cb0d(&mut self, cpu: &mut Cpu, mmu: &mut Mmu, args: &[u8]) -> (r: i16)
        requires
            old(self).cycles <= i16::MAX - 12,
            op_ok(Op::RotateCircular(Src::L, false, false), *old(cpu), old(mmu)@, args@),
        ensures
            cycles_reported(*old(self), *final(self), r),
            (r, *final(cpu), final(mmu)@) == op_spec(Op::RotateCircular(Src::L, false, false), old(self).cycles, *old(cpu), old(mmu)@, args@),
    {
        proof {
            reveal(op_ok);
            reveal(op_spec);
        }
        self.rotate_circular(cpu, mmu, args, Src::L, false, false)
    }

    /// RRC (HL)
    /// 2 16
    /// Z 0 0 C
    fn op_cb0e(&mut self, cpu: &mut Cpu, mmu: &mut Mmu, args: &[u8]) -> (r: i16)
        requires
            old(self).cycles <= i16::MAX - 12,
            op_ok(Op::RotateCircular(Src::HLa, false, false), *old(cpu), old(mmu)@, args@),
        ensures
            cycles_reported(*old(self), *final(self), r),
            (r, *final(cpu), final(mmu)@) == op_spec(Op::RotateCircular(Src::HLa, false, false), old(self).cycles, *old(cpu), old(mmu)@, args@),
    {
        proof {
            reveal(op_ok);
            reveal(op_spec);
        }
        self.rotate_circular(cpu, mmu, args, Src::HLa, false, false)
    }

    /// RRC A
    /// 2 8
    /// Z 0 0 C
    fn op_cb0f(&mut self, cpu: &mut Cpu, mmu: &mut Mmu, args: &[u8]) -> (r: i16)
        requires
            old(self).cycles <= i16::MAX - 12,
            op_ok(Op::RotateCircular(Src::A, false, false), *old(cpu), old(mmu)@, args@),
        ensures
            cycles_reported(*old(self), *final(self), r),
            (r, *final(cpu), final(mmu)@) == op_spec(Op::RotateCircular(Src::A, false, false), old(self).cycles, *old(cpu), old(mmu)@, args@),
    {
        proof {
            reveal(op_ok);
            reveal(op_spec);
        }
        self.rotate_circular(cpu, mmu, args, Src::A, false, false)
    }

    /// RL B
    /// 2 8
    /// Z 0 0 C
    fn op_cb10(&mut self, cpu: &mut Cpu, mmu: &mut Mmu, args: &[u8]) -> (r: i16)
        requires
            old(self).cycles <= i16::MAX - 12,
            op_ok(Op::Rotate(Src::B, true, false), *old(cpu), old(mmu)@, args@),
        ensures
            cycles_reported(*old(self), *final(self), r),
            (r, *final(cpu), final(mmu)@) == op_spec(Op::Rotate(Src::B, true, false), old(self).cycles, *old(cpu), old(mmu)@, args@),
    {
        proof {
            reveal(op_ok);
            reveal(op_spec);
        }
        self.rotate(cpu, mmu, args, Src::B, true, false)
    }

    /// RL C
    /// 2 8
    /// Z 0 0 C
    fn op_cb11(&mut self, cpu: &mut Cpu, mmu: &mut Mmu, args: &[u8]) -> (r: i16)
        requires
            old(self).cycles <= i16::MAX - 12,
            op_ok(Op::Rotate(Src::C, true, false), *old(cpu), old(mmu)@, args@),
        ensures
            cycles_reported(*old(self), *final(self), r),
            (r, *final(cpu), final(mmu)@) == op_spec(Op::Rotate(Src::C, true, false), old(self).cycles, *old(cpu), old(mmu)@, args@),
    {
        proof {
            reveal(op_ok);
            reveal(op_spec);
        }
        self.rotate(cpu, mmu, args, Src::C, true, false)
    }

    /// RL D
    /// 2 8
    /// Z 0 0 C
    fn op_cb12(&mut self, cpu: &mut Cpu, mmu: &mut Mmu, args: &[u8]) -> (r: i16)
        requires
            old(self).cycles <= i16::MAX - 12,
            op_ok(Op::Rotate(Src::D, true, false), *old(cpu), old(mmu)@, args@),
        ensures
            cycles_reported(*old(self), *final(self), r),
            (r, *final(cpu), final(mmu)@) == op_spec(Op::Rotate(Src::D, true, false), old(self).cycles, *old(cpu), old(mmu)@, args@),
    {
        proof {
            reveal(op_ok);
            reveal(op_spec);
        }
        self.rotate(cpu, mmu, args, Src::D, true, false)
    }

    /// RL E
    /// 2 8
    /// Z 0 0 C
    fn op_cb13(&mut self, cpu: &mut Cpu, mmu: &mut Mmu, args: &[u8]) -> (r: i16)
        requires
            old(self).cycles <= i16::MAX - 12,
            op_ok(Op::Rotate(Src::E, true, false), *old(cpu), old(mmu)@, args@),
        ensures
            cycles_reported(*old(self), *final(self), r),
            (r, *final(cpu), final(mmu)@) == op_spec(Op::Rotate(Src::E, true, false), old(self).cycles, *old(cpu), old(mmu)@, args@),
    {
        proof {
            reveal(op_ok);
            reveal(op_spec);
        }
        self.rotate(cpu, mmu, args, Src::E, true, false)
    }

    /// RL H
    /// 2 8
    /// Z 0 0 C
    fn op_cb14(&mut self, cpu: &mut Cpu, mmu: &mut Mmu, args: &[u8]) -> (r: i16)
        requires
            old(self).cycles <= i16::MAX - 12,
            op_ok(Op::Rotate(Src::H, true, false), *old(cpu), old(mmu)@, args@),
        ensures
            cycles_reported(*old(self), *final(self), r),
            (r, *final(cpu), final(mmu)@) == op_spec(Op::Rotate(Src::H, true, false), old(self).cycles, *old(cpu), old(mmu)@, args@),
    {
        proof {
            reveal(op_ok);
            reveal(op_spec);
        }
        self.rotate(cpu, mmu, args, Src::H, true, false)
    }

    /// RL L
    /// 2 8
    /// Z 0 0 C
    fn op_cb15(&mut self, cpu: &mut Cpu, mmu: &mut Mmu, args: &[u8]) -> (r: i16)
        requires
            old(self).cycles <= i16::MAX - 12,
            op_ok(Op::Rotate(Src::L, true, false), *old(cpu), old(mmu)@, args@),
        ensures
            cycles_reported(*old(self), *final(self), r),
            (r, *final(cpu), final(mmu)@) == op_spec(Op::Rotate(Src::L, true, false), old(self).cycles, *old(cpu), old(mmu)@, args@),
    {
        proof {
            reveal(op_ok);
            reveal(op_spec);
        }
        self.rotate(cpu, mmu, args, Src::L, true, false)
    }

    /// RL (HL)
    /// 2 16
    /// Z 0 0 C
    fn op_cb16(&mut self, cpu: &mut Cpu, mmu: &mut Mmu, args: &[u8]) -> (r: i16)
        requires
            old(self).cycles <= i16::MAX - 12,
            op_ok(Op::Rotate(Src::HLa, true, false), *old(cpu), old(mmu)@, args@),
        ensures
            cycles_reported(*old(self), *final(self), r),
            (r, *final(cpu), final(mmu)@) == op_spec(Op::Rotate(Src::HLa, true, false), old(self).cycles, *old(cpu), old(mmu)@, args@),
    {
        proof {
            reveal(op_ok);
            reveal(op_spec);
        }
        self.rotate(cpu, mmu, args, Src::HLa, true, false)
    }

    /// RL A
    /// 2 8
    /// Z 0 0 C
    fn op_cb17(&mut self, cpu: &mut Cpu, mmu: &mut Mmu, args: &[u8]) -> (r: i16)
        requires
            old(self).cycles <= i16::MAX - 12,
            op_ok(Op::Rotate(Src::A, true, false), *old(cpu), old(mmu)@, args@),
        ensures
            cycles_reported(*old(self), *final(self), r),
            (r, *final(cpu), final(mmu)@) == op_spec(Op::Rotate(Src::A, true, false), old(self).cycles, *old(cpu), old(mmu)@, args@),
    {
        proof {
            reveal(op_ok);
            reveal(op_spec);
        }
        self.rotate(cpu, mmu, args, Src::A, true, false)
    }

    /// RR B
    /// 2 8
    /// Z 0 0 C
    fn op_cb18(&mut self, cpu: &mut Cpu, mmu: &mut Mmu, args: &[u8]) -> (r: i16)
        requires
            old(self).cycles <= i16::MAX - 12,
            op_ok(Op::Rotate(Src::B, false, false), *old(cpu), old(mmu)@, args@),
        ensures
            cycles_reported(*old(self), *final(self), r),
            (r, *final(cpu), final(mmu)@) == op_spec(Op::Rotate(Src::B, false, false), old(self).cycles, *old(cpu), old(mmu)@, args@),
    {
        proof {
            reveal(op_ok);
            reveal(op_spec);
        }
        self.rotate(cpu, mmu, args, Src::B, false, false)
    }

    /// RR C
    /// 2 8
    /// Z 0 0 C
    fn op_cb19(&mut self, cpu: &mut Cpu, mmu: &mut Mmu, args: &[u8]) -> (r: i16)
        requires
            old(self).cycles <= i16::MAX - 12,
            op_ok(Op::Rotate(Src::C, false, false), *old(cpu), old(mmu)@, args@),
        ensures
            cycles_reported(*old(self), *final(self), r),
            (r, *final(cpu), final(mmu)@) == op_spec(Op::Rotate(Src::C, false, false), old(self).cycles, *old(cpu), old(mmu)@, args@),
    {
        proof {
            reveal(op_ok);
            reveal(op_spec);
        }
        self.rotate(cpu, mmu, args, Src::C, false, false)
    }

    /// RR D
    /// 2 8
    /// Z 0 0 C
    fn op_cb1a(&mut self, cpu: &mut Cpu, mmu: &mut Mmu, args: &[u8]) -> (r: i16)
        requires
            old(self).cycles <= i16::MAX - 12,
            op_ok(Op::Rotate(Src::D, false, false), *old(cpu), old(mmu)@, args@),
        ensures
            cycles_reported(*old(self), *final(self), r),
            (r, *final(cpu), final(mmu)@) == op_spec(Op::Rotate(Src::D, false, false), old(self).cycles, *old(cpu), old(mmu)@, args@),
    {
        proof {
            reveal(op_ok);
            reveal(op_spec);
        }
        self.rotate(cpu, mmu, args, Src::D, false, false)
    }

    /// RR E
    /// 2 8
    /// Z 0 0 C
    fn op_cb1b(&mut self, cpu: &mut Cpu, mmu: &mut Mmu, args: &[u8]) -> (r: i16)
        requires
            old(self).cycles <= i16::MAX - 12,
            op_ok(Op::Rotate(Src::E, false, false), *old(cpu), old(mmu)@, args@),
        ensures
            cycles_reported(*old(self), *final(self), r),
            (r, *final(cpu), final(mmu)@) == op_spec(Op::Rotate(Src::E, false, false), old(self).cycles, *old(cpu), old(mmu)@, args@),
    {
        proof {
            reveal(op_ok);
            reveal(op_spec);
        }
        self.rotate(cpu, mmu, args, Src::E, false, false)
    }

    /// RR H
    /// 2 8
    /// Z 0 0 C
    fn op_cb1c(&mut self, cpu: &mut Cpu, mmu: &mut Mmu, args: &[u8]) -> (r: i16)
        requires
            old(self).cycles <= i16::MAX - 12,
            op_ok(Op::Rotate(Src::H, false, false), *old(cpu), old(mmu)@, args@),
        ensures
            cycles_reported(*old(self), *final(self), r),
            (r, *final(cpu), final(mmu)@) == op_spec(Op::Rotate(Src::H, false, false), old(self).cycles, *old(cpu), old(mmu)@, args@),
    {
        proof {
            reveal(op_ok);
            reveal(op_spec);
        }
        self.rotate(cpu, mmu, args, Src::H, false, false)
    }

    /// RR L
    /// 2 8
    /// Z 0 0 C
    fn op_cb1d(&mut self, cpu: &mut Cpu, mmu: &mut Mmu, args: &[u8]) -> (r: i16)
        requires
            old(self).cycles <= i16::MAX - 12,
            op_ok(Op::Rotate(Src::L, false, false), *old(cpu), old(mmu)@, args@),
        ensures
            cycles_reported(*old(self), *final(self), r),
            (r, *final(cpu), final(mmu)@) == op_spec(Op::Rotate(Src::L, false, false), old(self).cycles, *old(cpu), old(mmu)@, args@),
    {
        proof {
            reveal(op_ok);
            reveal(op_spec);
        }
        self.rotate(cpu, mmu, args, Src::L, false, false)
    }

    /// RR (HL)
    /// 2 16
    /// Z 0 0 C
    fn op_cb1e(&mut self, cpu: &mut Cpu, mmu: &mut Mmu, args: &[u8]) -> (r: i16)
        requires
            old(self).cycles <= i16::MAX - 12,
            op_ok(Op::Rotate(Src::HLa, false, false), *old(cpu), old(mmu)@, args@),
        ensures
            cycles_reported(*old(self), *final(self), r),
            (r, *final(cpu), final(mmu)@) == op_spec(Op::Rotate(Src::HLa, false, false), old(self).cycles, *old(cpu), old(mmu)@, args@),
    {
        proof {
            reveal(op_ok);
            reveal(op_spec);
        }
        self.rotate(cpu, mmu, args, Src::HLa, false, false)
    }

    /// RR A
    /// 2 8
    /// Z 0 0 C
    fn op_cb1f(&mut self, cpu: &mut Cpu, mmu: &mut Mmu, args: &[u8]) -> (r: i16)
        requires
            old(self).cycles <= i16::MAX - 12,
            op_ok(Op::Rotate(Src::A, false, false), *old(cpu), old(mmu)@, args@),
        ensures
            cycles_reported(*old(self), *final(self), r),
            (r, *final(cpu), final(mmu)@) == op_spec(Op::Rotate(Src::A, false, false), old(self).cycles, *old(cpu), old(mmu)@, args@),
    {
        proof {
            reveal(op_ok);
            reveal(op_spec);
        }
        self.rotate(cpu, mmu, args, Src::A, false, false)
    }

    /// SLA B
    /// 2 8
    /// Z 0 0 C
    fn op_cb20(&mut self, cpu: &mut Cpu, mmu: &mut Mmu, args: &[u8]) -> (r: i16)
        requires
            old(self).cycles <= i16::MAX - 12,
            op_ok(Op::Shift(Src::B, true, true), *old(cpu), old(mmu)@, args@),
        ensures
            cycles_reported(*old(self), *final(self), r),
            (r, *final(cpu), final(mmu)@) == op_spec(Op::Shift(Src::B, true, true), old(self).cycles, *old(cpu), old(mmu)@, args@),
    {
        proof {
            reveal(op_ok);
            reveal(op_spec);
        }
        self.shift(cpu, mmu, args, Src::B, true, true)
    }

    /// SLA C
    /// 2 8
    /// Z 0 0 C
    fn op_cb21(&mut self, cpu: &mut Cpu, mmu: &mut Mmu, args: &[u8]) -> (r: i16)
        requires
            old(self).cycles <= i16::MAX - 12,
            op_ok(Op::Shift(Src::C, true, true), *old(cpu), old(mmu)@, args@),
        ensures
            cycles_reported(*old(self), *final(self), r),
            (r, *final(cpu), final(mmu)@) == op_spec(Op::Shift(Src::C, true, true), old(self).cycles, *old(cpu), old(mmu)@, args@),
    {
        proof {
            reveal(op_ok);
            reveal(op_spec);
        }
        self.shift(cpu, mmu, args, Src::C, true, true)
    }

    /// SLA D
    /// 2 8
    /// Z 0 0 C
    fn op_cb22(&mut self, cpu: &mut Cpu, mmu: &mut Mmu, args: &[u8]) -> (r: i16)
        requires
            old(self).cycles <= i16::MAX - 12,
            op_ok(Op::Shift(Src::D, true, true), *old(cpu), old(mmu)@, args@),
        ensures
            cycles_reported(*old(self), *final(self), r),
            (r, *final(cpu), final(mmu)@) == op_spec(Op::Shift(Src::D, true, true), old(self).cycles, *old(cpu), old(mmu)@, args@),
    {
        proof {
            reveal(op_ok);
            reveal(op_spec);
        }
        self.shift(cpu, mmu, args, Src::D, true, true)
    }

    /// SLA E
    /// 2 8
    /// Z 0 0 C
    fn op_cb23(&mut self, cpu: &mut Cpu, mmu: &mut Mmu, args: &[u8]) -> (r: i16)
        requires
            old(self).cycles <= i16::MAX - 12,
            op_ok(Op::Shift(Src::E, true, true), *old(cpu), old(mmu)@, args@),
        ensures
            cycles_reported(*old(self), *final(self), r),
            (r, *final(cpu), final(mmu)@) == op_spec(Op::Shift(Src::E, true, true), old(self).cycles, *old(cpu), old(mmu)@, args@),
    {
        proof {
            reveal(op_ok);
            reveal(op_spec);
        }
        self.shift(cpu, mmu, args, Src::E, true, true)
    }

    /// SLA H
    /// 2 8
    /// Z 0 0 C
    fn op_cb24(&mut self, cpu: &mut Cpu, mmu: &mut Mmu, args: &[u8]) -> (r: i16)
        requires
            old(self).cycles <= i16::MAX - 12,
            op_ok(Op::Shift(Src::H, true, true), *old(cpu), old(mmu)@, args@),
        ensures
            cycles_reported(*old(self), *final(self), r),
            (r, *final(cpu), final(mmu)@) == op_spec(Op::Shift(Src::H, true, true), old(self).cycles, *old(cpu), old(mmu)@, args@),
    {
        proof {
            reveal(op_ok);
            reveal(op_spec);
        }
        self.shift(cpu, mmu, args, Src::H, true, true)
    }

    /// SLA L
    /// 2 8
    /// Z 0 0 C
    fn op_cb25(&mut self, cpu: &mut Cpu, mmu: &mut Mmu, args: &[u8]) -> (r: i16)
        requires
            old(self).cycles <= i16::MAX - 12,
            op_ok(Op::Shift(Src::L, true, true), *old(cpu), old(mmu)@, args@),
        ensures
            cycles_reported(*old(self), *final(self), r),
            (r, *final(cpu), final(mmu)@) == op_spec(Op::Shift(Src::L, true, true), old(self).cycles, *old(cpu), old(mmu)@, args@),
    {
        proof {
            reveal(op_ok);
            reveal(op_spec);
        }
        self.shift(cpu, mmu, args, Src::L, true, true)
    }

    /// SLA (HL)
    /// 2 16
    /// Z 0 0 C
    fn op_cb26(&mut self, cpu: &mut Cpu, mmu: &mut Mmu, args: &[u8]) -> (r: i16)
        requires
            old(self).cycles <= i16::MAX - 12,
            op_ok(Op::Shift(Src::HLa, true, true), *old(cpu), old(mmu)@, args@),
        ensures
            cycles_reported(*old(self), *final(self), r),
            (r, *final(cpu), final(mmu)@) == op_spec(Op::Shift(Src::HLa, true, true), old(self).cycles, *old(cpu), old(mmu)@, args@),
    {
        proof {
            reveal(op_ok);
            reveal(op_spec);
        }
        self.shift(cpu, mmu, args, Src::HLa, true, true)
    }

    /// SLA A
    /// 2 8
    /// Z 0 0 C
    fn op_cb27(&mut self, cpu: &mut Cpu, mmu: &mut Mmu, args: &[u8]) -> (r: i16)
        requires
            old(self).cycles <= i16::MAX - 12,
            op_ok(Op::Shift(Src::A, true, true), *old(cpu), old(mmu)@, args@),
        ensures
            cycles_reported(*old(self), *final(self), r),
            (r, *final(cpu), final(mmu)@) == op_spec(Op::Shift(Src::A, true, true), old(self).cycles, *old(cpu), old(mmu)@, args@),
    {
        proof {
            reveal(op_ok);
            reveal(op_spec);
        }
        self.shift(cpu, mmu, args, Src::A, true, true)
    }

    /// SRA B
    /// 2 8
    /// Z 0 0 C
    fn op_cb28(&mut self, cpu: &mut Cpu, mmu: &mut Mmu, args: &[u8]) -> (r: i16)
        requires
            old(self).cycles <= i16::MAX - 12,
            op_ok(Op::Shift(Src::B, false, true), *old(cpu), old(mmu)@, args@),
        ensures
            cycles_reported(*old(self), *final(self), r),
            (r, *final(cpu), final(mmu)@) == op_spec(Op::Shift(Src::B, false, true), old(self).cycles, *old(cpu), old(mmu)@, args@),
    {
        proof {
            reveal(op_ok);
            reveal(op_spec);
        }
        self.shift(cpu, mmu, args, Src::B, false, true)
    }

    /// SRA C
    /// 2 8
    /// Z 0 0 C
    fn op_cb29(&mut self, cpu: &mut Cpu, mmu: &mut Mmu, args: &[u8]) -> (r: i16)
        requires
            old(self).cycles <= i16::MAX - 12,
            op_ok(Op::Shift(Src::C, false, true), *old(cpu), old(mmu)@, args@),
        ensures
            cycles_reported(*old(self), *final(self), r),
            (r, *final(cpu), final(mmu)@) == op_spec(Op::Shift(Src::C, false, true), old(self).cycles, *old(cpu), old(mmu)@, args@),
    {
        proof {
            reveal(op_ok);
            reveal(op_spec);
        }
        self.shift(cpu, mmu, args, Src::C, false, true)
    }

    /// SRA D
    /// 2 8
    /// Z 0 0 C
    fn op_cb2a(&mut self, cpu: &mut Cpu, mmu: &mut Mmu, args: &[u8]) -> (r: i16)
        requires
            old(self).cycles <= i16::MAX - 12,
            op_ok(Op::Shift(Src::D, false, true), *old(cpu), old(mmu)@, args@),
        ensures
            cycles_reported(*old(self), *final(self), r),
            (r, *final(cpu), final(mmu)@) == op_spec(Op::Shift(Src::D, false, true), old(self).cycles, *old(cpu), old(mmu)@, args@),
    {
        proof {
            reveal(op_ok);
            reveal(op_spec);
        }
        self.shift(cpu, mmu, args, Src::D, false, true)
    }

    /// SRA E
    /// 2 8
    /// Z 0 0 C
    fn op_cb2b(&mut self, cpu: &mut Cpu, mmu: &mut Mmu, args: &[u8]) -> (r: i16)
        requires
            old(self).cycles <= i16::MAX - 12,
            op_ok(Op::Shift(Src::E, false, true), *old(cpu), old(mmu)@, args@),
        ensures
            cycles_reported(*old(self), *final(self), r),
            (r, *final(cpu), final(mmu)@) == op_spec(Op::Shift(Src::E, false, true), old(self).cycles, *old(cpu), old(mmu)@, args@),
    {
        proof {
            reveal(op_ok);
            reveal(op_spec);
        }
        self.shift(cpu, mmu, args, Src::E, false, true)
    }

    /// SRA H
    /// 2 8
    /// Z 0 0 C
    fn op_cb2c(&mut self, cpu: &mut Cpu, mmu: &mut Mmu, args: &[u8]) -> (r: i16)
        requires
            old(self).cycles <= i16::MAX - 12,
            op_ok(Op::Shift(Src::H, false, true), *old(cpu), old(mmu)@, args@),
        ensures
            cycles_reported(*old(self), *final(self), r),
            (r, *final(cpu), final(mmu)@) == op_spec(Op::Shift(Src::H, false, true), old(self).cycles, *old(cpu), old(mmu)@, args@),
    {
        proof {
            reveal(op_ok);
            reveal(op_spec);
        }
        self.shift(cpu, mmu, args, Src::H, false, true)
    }

    /// SRA L
    /// 2 8
    /// Z 0 0 C
    fn op_cb2d(&mut self, cpu: &mut Cpu, mmu: &mut Mmu, args: &[u8]) -> (r: i16)
        requires
            old(self).cycles <= i16::MAX - 12,
            op_ok(Op::Shift(Src::L, false, true), *old(cpu), old(mmu)@, args@),
        ensures
            cycles_reported(*old(self), *final(self), r),
            (r, *final(cpu), final(mmu)@) == op_spec(Op::Shift(Src::L, false, true), old(self).cycles, *old(cpu), old(mmu)@, args@),
    {
        proof {
            reveal(op_ok);
            reveal(op_spec);
        }
        self.shift(cpu, mmu, args, Src::L, false, true)
    }

    /// SRA (HL)
    /// 2 16
    /// Z 0 0 C
    fn op_cb2e(&mut self, cpu: &mut Cpu, mmu: &mut Mmu, args: &[u8]) -> (r: i16)
        requires
            old(self).cycles <= i16::MAX - 12,
            op_ok(Op::Shift(Src::HLa, false, true), *old(cpu), old(mmu)@, args@),
        ensures
            cycles_reported(*old(self), *final(self), r),
            (r, *final(cpu), final(mmu)@) == op_spec(Op::Shift(Src::HLa, false, true), old(self).cycles, *old(cpu), old(mmu)@, args@),
    {
        proof {
            reveal(op_ok);
            reveal(op_spec);
        }
        self.shift(cpu, mmu, args, Src::HLa, false, true)
    }

    /// SRA A
    /// 2 8
    /// Z 0 0 C
    fn op_cb2f(&mut self, cpu: &mut Cpu, mmu: &mut Mmu, args: &[u8]) -> (r: i16)
        requires
            old(self).cycles <= i16::MAX - 12,
            op_ok(Op::Shift(Src::A, false, true), *old(cpu), old(mmu)@, args@),
        ensures
            cycles_reported(*old(self), *final(self), r),
            (r, *final(cpu), final(mmu)@) == op_spec(Op::Shift(Src::A, false, true), old(self).cycles, *old(cpu), old(mmu)@, args@),
    {
        proof {
            reveal(op_ok);
            reveal(op_spec);
        }
        self.shift(cpu, mmu, args, Src::A, false, true)
    }

    /// SWAP B
    /// 2 8
    /// Z 0 0 0
    fn op_cb30(&mut self, cpu: &mut Cpu, mmu: &mut Mmu, args: &[u8]) -> (r: i16)
        requires
            old(self).cycles <= i16::MAX - 12,
            op_ok(Op::Swap(Src::B), *old(cpu), old(mmu)@, args@),
        ensures
            cycles_reported(*old(self), *final(self), r),
            (r, *final(cpu), final(mmu)@) == op_spec(Op::Swap(Src::B), old(self).cycles, *old(cpu), old(mmu)@, args@),
    {
        proof {
            reveal(op_ok);
            reveal(op_spec);
        }
        self.swap(cpu, mmu, args, Src::B)
    }

    /// SWAP C
    /// 2 8
    /// Z 0 0 0
    fn op_cb31(&mut self, cpu: &mut Cpu, mmu: &mut Mmu, args: &[u8]) -> (r: i16)
        requires
            old(self).cycles <= i16::MAX - 12,
            op_ok(Op::Swap(Src::C), *old(cpu), old(mmu)@, args@),
        ensures
            cycles_reported(*old(self), *final(self), r),
            (r, *final(cpu), final(mmu)@) == op_spec(Op::Swap(Src::C), old(self).cycles, *old(cpu), old(mmu)@, args@),
    {
        proof {
            reveal(op_ok);
            reveal(op_spec);
        }
        self.swap(cpu, mmu, args, Src::C)
    }

    /// SWAP D
    /// 2 8
    /// Z 0 0 0
    fn op_cb32(&mut self, cpu: &mut Cpu, mmu: &mut Mmu, args: &[u8]) -> (r: i16)
        requires
            old(self).cycles <= i16::MAX - 12,
            op_ok(Op::Swap(Src::D), *old(cpu), old(mmu)@, args@),
        ensures
            cycles_reported(*old(self), *final(self), r),
            (r, *final(cpu), final(mmu)@) == op_spec(Op::Swap(Src::D), old(self).cycles, *old(cpu), old(mmu)@, args@),
    {
        proof {
            reveal(op_ok);
            reveal(op_spec);
        }
        self.swap(cpu, mmu, args, Src::D)
    }

    /// SWAP E
    /// 2 8
    /// Z 0 0 0
    fn op_cb33(&mut self, cpu: &mut Cpu, mmu: &mut Mmu, args: &[u8]) -> (r: i16)
        requires
            old(self).cycles <= i16::MAX - 12,
            op_ok(Op::Swap(Src::E), *old(cpu), old(mmu)@, args@),
        ensures
            cycles_reported(*old(self), *final(self), r),
            (r, *final(cpu), final(mmu)@) == op_spec(Op::Swap(Src::E), old(self).cycles, *old(cpu), old(mmu)@, args@),
    {
        proof {
            reveal(op_ok);
            reveal(op_spec);
        }
        self.swap(cpu, mmu, args, Src::E)
    }

    /// SWAP H
    /// 2 8
    /// Z 0 0 0
    fn op_cb34(&mut self, cpu: &mut Cpu, mmu: &mut Mmu, args: &[u8]) -> (r: i16)
        requires
            old(self).cycles <= i16::MAX - 12,
            op_ok(Op::Swap(Src::H), *old(cpu), old(mmu)@, args@),
        ensures
            cycles_reported(*old(self), *final(self), r),
            (r, *final(cpu), final(mmu)@) == op_spec(Op::Swap(Src::H), old(self).cycles, *old(cpu), old(mmu)@, args@),
    {
        proof {
            reveal(op_ok);
            reveal(op_spec);
        }
        self.swap(cpu, mmu, args, Src::H)
    }

    /// SWAP L
    /// 2 8
    /// Z 0 0 0
    fn op_cb35(&mut self, cpu: &mut Cpu, mmu: &mut Mmu, args: &[u8]) -> (r: i16)
        requires
            old(self).cycles <= i16::MAX - 12,
            op_ok(Op::Swap(Src::L), *old(cpu), old(mmu)@, args@),
        ensures
            cycles_reported(*old(self), *final(self), r),
            (r, *final(cpu), final(mmu)@) == op_spec(Op::Swap(Src::L), old(self).cycles, *old(cpu), old(mmu)@, args@),
    {
        proof {
            reveal(op_ok);
            reveal(op_spec);
        }
        self.swap(cpu, mmu, args, Src::L)
    }

    /// SWAP (HL)
    /// 2 16
    /// Z 0 0 0
    fn op_cb36(&mut self, cpu: &mut Cpu, mmu: &mut Mmu, args: &[u8]) -> (r: i16)
        requires
            old(self).cycles <= i16::MAX - 12,
            op_ok(Op::Swap(Src::HLa), *old(cpu), old(mmu)@, args@),
        ensures
            cycles_reported(*old(self), *final(self), r),
            (r, *final(cpu), final(mmu)@) == op_spec(Op::Swap(Src::HLa), old(self).cycles, *old(cpu), old(mmu)@, args@),
    {
        proof {
            reveal(op_ok);
            reveal(op_spec);
        }
        self.swap(cpu, mmu, args, Src::HLa)
    }

    /// SWAP A
    /// 2 8
    /// Z 0 0 0
    fn op_cb37(&mut self, cpu: &mut Cpu, mmu: &mut Mmu, args: &[u8]) -> (r: i16)
        requires
            old(self).cycles <= i16::MAX - 12,
            op_ok(Op::Swap(Src::A), *old(cpu), old(mmu)@, args@),
        ensures
            cycles_reported(*old(self), *final(self), r),
            (r, *final(cpu), final(mmu)@) == op_spec(Op::Swap(Src::A), old(self).cycles, *old(cpu), old(mmu)@, args@),
    {
        proof {
            reveal(op_ok);
            reveal(op_spec);
        }
        self.swap(cpu, mmu, args, Src::A)
    }

    /// SRL B
    /// 2 8
    /// Z 0 0 C
    fn op_cb38(&mut self, cpu: &mut Cpu, mmu: &mut Mmu, args: &[u8]) -> (r: i16)
        requires
            old(self).cycles <= i16::MAX - 12,
            op_ok(Op::Shift(Src::B, false, false), *old(cpu), old(mmu)@, args@),
        ensures
            cycles_reported(*old(self), *final(self), r),
            (r, *final(cpu), final(mmu)@) == op_spec(Op::Shift(Src::B, false, false), old(self).cycles, *old(cpu), old(mmu)@, args@),
    {
        proof {
            reveal(op_ok);
            reveal(op_spec);
        }
        self.shift(cpu, mmu, args, Src::B, false, false)
    }

    /// SRL C
    /// 2 8
    /// Z 0 0 C
    fn op_cb39(&mut self, cpu: &mut Cpu, mmu: &mut Mmu, args: &[u8]) -> (r: i16)
        requires
            old(self).cycles <= i16::MAX - 12,
            op_ok(Op::Shift(Src::C, false, false), *old(cpu), old(mmu)@, args@),
        ensures
            cycles_reported(*old(self), *final(self), r),
            (r, *final(cpu), final(mmu)@) == op_spec(Op::Shift(Src::C, false, false), old(self).cycles, *old(cpu), old(mmu)@, args@),
    {
        proof {
            reveal(op_ok);
            reveal(op_spec);
        }
        self.shift(cpu, mmu, args, Src::C, false, false)
    }

    /// SRL D
    /// 2 8
    /// Z 0 0 C
    fn op_cb3a(&mut self, cpu: &mut Cpu, mmu: &mut Mmu, args: &[u8]) -> (r: i16)
        requires
            old(self).cycles <= i16::MAX - 12,
            op_ok(Op::Shift(Src::D, false, false), *old(cpu), old(mmu)@, args@),
        ensures
            cycles_reported(*old(self), *final(self), r),
            (r, *final(cpu), final(mmu)@) == op_spec(Op::Shift(Src::D, false, false), old(self).cycles, *old(cpu), old(mmu)@, args@),
    {
        proof {
            reveal(op_ok);
            reveal(op_spec);
        }
        self.shift(cpu, mmu, args, Src::D, false, false)
    }

    /// SRL E
    /// 2 8
    /// Z 0 0 C
    fn op_cb3b(&mut self, cpu: &mut Cpu, mmu: &mut Mmu, args: &[u8]) -> (r: i16)
        requires
            old(self).cycles <= i16::MAX - 12,
            op_ok(Op::Shift(Src::E, false, false), *old(cpu), old(mmu)@, args@),
        ensures
            cycles_reported(*old(self), *final(self), r),
            (r, *final(cpu), final(mmu)@) == op_spec(Op::Shift(Src::E, false, false), old(self).cycles, *old(cpu), old(mmu)@, args@),
    {
        proof {
            reveal(op_ok);
            reveal(op_spec);
        }
        self.shift(cpu, mmu, args, Src::E, false, false)
    }

    /// SRL H
    /// 2 8
    /// Z 0 0 C
    fn op_cb3c(&mut self, cpu: &mut Cpu, mmu: &mut Mmu, args: &[u8]) -> (r: i16)
        requires
            old(self).cycles <= i16::MAX - 12,
            op_ok(Op::Shift(Src::H, false, false), *old(cpu), old(mmu)@, args@),
        ensures
            cycles_reported(*old(self), *final(self), r),
            (r, *final(cpu), final(mmu)@) == op_spec(Op::Shift(Src::H, false, false), old(self).cycles, *old(cpu), old(mmu)@, args@),
    {
        proof {
            reveal(op_ok);
            reveal(op_spec);
        }
        self.shift(cpu, mmu, args, Src::H, false, false)
    }

    /// SRL L
    /// 2 8
    /// Z 0 0 C
    fn op_cb3d(&mut self, cpu: &mut Cpu, mmu: &mut Mmu, args: &[u8]) -> (r: i16)
        requires
            old(self).cycles <= i16::MAX - 12,
            op_ok(Op::Shift(Src::L, false, false), *old(cpu), old(mmu)@, args@),
        ensures
            cycles_reported(*old(self), *final(self), r),
            (r, *final(cpu), final(mmu)@) == op_spec(Op::Shift(Src::L, false, false), old(self).cycles, *old(cpu), old(mmu)@, args@),
    {
        proof {
            reveal(op_ok);
            reveal(op_spec);
        }
        self.shift(cpu, mmu, args, Src::L, false, false)
    }

    /// SRL (HL)
    /// 2 16
    /// Z 0 0 C
    fn op_cb3e(&mut self, cpu: &mut Cpu, mmu: &mut Mmu, args: &[u8]) -> (r: i16)
        requires
            old(self).cycles <= i16::MAX - 12,
            op_ok(Op::Shift(Src::HLa, false, false), *old(cpu), old(mmu)@, args@),
        ensures
            cycles_reported(*old(self), *final(self), r),
            (r, *final(cpu), final(mmu)@) == op_spec(Op::Shift(Src::HLa, false, false), old(self).cycles, *old(cpu), old(mmu)@, args@),
    {
        proof {
            reveal(op_ok);
            reveal(op_spec);
        }
        self.shift(cpu, mmu, args, Src::HLa, false, false)
    }

    /// SRL A
    /// 2 8
    /// Z 0 0 C
    fn op_cb3f(&mut self, cpu: &mut Cpu, mmu: &mut Mmu, args: &[u8]) -> (r: i16)
        requires
            old(self).cycles <= i16::MAX - 12,
            op_ok(Op::Shift(Src::A, false, false), *old(cpu), old(mmu)@, args@),
        ensures
            cycles_reported(*old(self), *final(self), r),
            (r, *final(cpu), final(mmu)@) == op_spec(Op::Shift(Src::A, false, false), old(self).cycles, *old(cpu), old(mmu)@, args@),
    {
        proof {
            reveal(op_ok);
            reveal(op_spec);
        }
        self.shift(cpu, mmu, args, Src::A, false, false)
    }

    /// BIT 0,B
    /// 2 8
    /// Z 0 1 -
    fn op_cb40(&mut self, cpu: &mut Cpu, mmu: &mut Mmu, args: &[u8]) -> (r: i16)
        requires
            old(self).cycles <= i16::MAX - 12,
            op_ok(Op::Bit(Src::B, 0), *old(cpu), old(mmu)@, args@),
        ensures
            cycles_reported(*old(self), *final(self), r),
            (r, *final(cpu), final(mmu)@) == op_spec(Op::Bit(Src::B, 0), old(self).cycles, *old(cpu), old(mmu)@, args@),
    {
        proof {
            reveal(op_ok);
            reveal(op_spec);
        }
        self.bit(cpu, mmu, args, Src::B, 0)
    }

    /// BIT 0,C
    /// 2 8
    /// Z 0 1 -
    fn op_cb41(&mut self, cpu: &mut Cpu, mmu: &mut Mmu, args: &[u8]) -> (r: i16)
        requires
            old(self).cycles <= i16::MAX - 12,
            op_ok(Op::Bit(Src::C, 0), *old(cpu), old(mmu)@, args@),
        ensures
            cycles_reported(*old(self), *final(self), r),
            (r, *final(cpu), final(mmu)@) == op_spec(Op::Bit(Src::C, 0), old(self).cycles, *old(cpu), old(mmu)@, args@),
    {
        proof {
            reveal(op_ok);
            reveal(op_spec);
        }
        self.bit(cpu, mmu, args, Src::C, 0)
    }

    /// BIT 0,D
    /// 2 8
    /// Z 0 1 -
    fn op_cb42(&mut self, cpu: &mut Cpu, mmu: &mut Mmu, args: &[u8]) -> (r: i16)
        requires
            old(self).cycles <= i16::MAX - 12,
            op_ok(Op::Bit(Src::D, 0), *old(cpu), old(mmu)@, args@),
        ensures
            cycles_reported(*old(self), *final(self), r),
            (r, *final(cpu), final(mmu)@) == op_spec(Op::Bit(Src::D, 0), old(self).cycles, *old(cpu), old(mmu)@, args@),
    {
        proof {
            reveal(op_ok);
            reveal(op_spec);
        }
        self.bit(cpu, mmu, args, Src::D, 0)
    }

    /// BIT 0,E
    /// 2 8
    /// Z 0 1 -
    fn op_cb43(&mut self, cpu: &mut Cpu, mmu: &mut Mmu, args: &[u8]) -> (r: i16)
        requires
            old(self).cycles <= i16::MAX - 12,
            op_ok(Op::Bit(Src::E, 0), *old(cpu), old(mmu)@, args@),
        ensures
            cycles_reported(*old(self), *final(self), r),
            (r, *final(cpu), final(mmu)@) == op_spec(Op::Bit(Src::E, 0), old(self).cycles, *old(cpu), old(mmu)@, args@),
    {
        proof {
            reveal(op_ok);
            reveal(op_spec);
        }
        self.bit(cpu, mmu, args, Src::E, 0)
    }

    /// BIT 0,H
    /// 2 8
    /// Z 0 1 -
    fn op_cb44(&mut self, cpu: &mut Cpu, mmu: &mut Mmu, args: &[u8]) -> (r: i16)
        requires
            old(self).cycles <= i16::MAX - 12,
            op_ok(Op::Bit(Src::H, 0), *old(cpu), old(mmu)@, args@),
        ensures
            cycles_reported(*old(self), *final(self), r),
            (r, *final(cpu), final(mmu)@) == op_spec(Op::Bit(Src::H, 0), old(self).cycles, *old(cpu), old(mmu)@, args@),
    {
        proof {
            reveal(op_ok);
            reveal(op_spec);
        }
        self.bit(cpu, mmu, args, Src::H, 0)
    }

    /// BIT 0,L
    /// 2 8
    /// Z 0 1 -
    fn op_cb45(&mut self, cpu: &mut Cpu, mmu: &mut Mmu, args: &[u8]) -> (r: i16)
        requires
            old(self).cycles <= i16::MAX - 12,
            op_ok(Op::Bit(Src::L, 0), *old(cpu), old(mmu)@, args@),
        ensures
            cycles_reported(*old(self), *final(self), r),
            (r, *final(cpu), final(mmu)@) == op_spec(Op::Bit(Src::L, 0), old(self).cycles, *old(cpu), old(mmu)@, args@),
    {
        proof {
            reveal(op_ok);
            reveal(op_spec);
        }
        self.bit(cpu, mmu, args, Src::L, 0)
    }

    /// BIT 0,(HL)
    /// 2 16
    /// Z 0 1 -
    fn op_cb46(&mut self, cpu: &mut Cpu, mmu: &mut Mmu, args: &[u8]) -> (r: i16)
        requires
            old(self).cycles <= i16::MAX - 12,
            op_ok(Op::Bit(Src::HLa, 0), *old(cpu), old(mmu)@, args@),
        ensures
            cycles_reported(*old(self), *final(self), r),
            (r, *final(cpu), final(mmu)@) == op_spec(Op::Bit(Src::HLa, 0), old(self).cycles, *old(cpu), old(mmu)@, args@),
    {
        proof {
            reveal(op_ok);
            reveal(op_spec);
        }
        self.bit(cpu, mmu, args, Src::HLa, 0)
    }

    /// BIT 0,A
    /// 2 8
    /// Z 0 1 -
    fn op_cb47(&mut self, cpu: &mut Cpu, mmu: &mut Mmu, args: &[u8]) -> (r: i16)
        requires
            old(self).cycles <= i16::MAX - 12,
            op_ok(Op::Bit(Src::A, 0), *old(cpu), old(mmu)@, args@),
        ensures
            cycles_reported(*old(self), *final(self), r),
            (r, *final(cpu), final(mmu)@) == op_spec(Op::Bit(Src::A, 0), old(self).cycles, *old(cpu), old(mmu)@, args@),
    {
        proof {
            reveal(op_ok);
            reveal(op_spec);
        }
        self.bit(cpu, mmu, args, Src::A, 0)
    }

    /// BIT 1,B
    /// 2 8
    /// Z 0 1 -
    fn op_cb48(&mut self, cpu: &mut Cpu, mmu: &mut Mmu, args: &[u8]) -> (r: i16)
        requires
            old(self).cycles <= i16::MAX - 12,
            op_ok(Op::Bit(Src::B, 1), *old(cpu), old(mmu)@, args@),
        ensures
            cycles_reported(*old(self), *final(self), r),
            (r, *final(cpu), final(mmu)@) == op_spec(Op::Bit(Src::B, 1), old(self).cycles, *old(cpu), old(mmu)@, args@),
    {
        proof {
            reveal(op_ok);
            reveal(op_spec);
        }
        self.bit(cpu, mmu, args, Src::B, 1)
    }

    /// BIT 1,C
    /// 2 8
    /// Z 0 1 -
    fn op_cb49(&mut self, cpu: &mut Cpu, mmu: &mut Mmu, args: &[u8]) -> (r: i16)
        requires
            old(self).cycles <= i16::MAX - 12,
            op_ok(Op::Bit(Src::C, 1), *old(cpu), old(mmu)@, args@),
        ensures
            cycles_reported(*old(self), *final(self), r),
            (r, *final(cpu), final(mmu)@) == op_spec(Op::Bit(Src::C, 1), old(self).cycles, *old(cpu), old(mmu)@, args@),
    {
        proof {
            reveal(op_ok);
            reveal(op_spec);
        }
        self.bit(cpu, mmu, args, Src::C, 1)
    }

    /// BIT 1,D
    /// 2 8
    /// Z 0 1 -
    fn op_cb4a(&mut self, cpu: &mut Cpu, mmu: &mut Mmu, args: &[u8]) -> (r: i16)
        requires
            old(self).cycles <= i16::MAX - 12,
            op_ok(Op::Bit(Src::D, 1), *old(cpu), old(mmu)@, args@),
        ensures
            cycles_reported(*old(self), *final(self), r),
            (r, *final(cpu), final(mmu)@) == op_spec(Op::Bit(Src::D, 1), old(self).cycles, *old(cpu), old(mmu)@, args@),
    {
        proof {
            reveal(op_ok);
            reveal(op_spec);
        }
        self.bit(cpu, mmu, args, Src::D, 1)
    }

    /// BIT 1,E
    /// 2 8
    /// Z 0 1 -
    fn op_cb4b(&mut self, cpu: &mut Cpu, mmu: &mut Mmu, args: &[u8]) -> (r: i16)
        requires
            old(self).cycles <= i16::MAX - 12,
            op_ok(Op::Bit(Src::E, 1), *old(cpu), old(mmu)@, args@),
        ensures
            cycles_reported(*old(self), *final(self), r),
            (r, *final(cpu), final(mmu)@) == op_spec(Op::Bit(Src::E, 1), old(self).cycles, *old(cpu), old(mmu)@, args@),
    {
        proof {
            reveal(op_ok);
            reveal(op_spec);
        }
        self.bit(cpu, mmu, args, Src::E, 1)
    }

    /// BIT 1,H
    /// 2 8
    /// Z 0 1 -
    fn op_cb4c(&mut self, cpu: &mut Cpu, mmu: &mut Mmu, args: &[u8]) -> (r: i16)
        requires
            old(self).cycles <= i16::MAX - 12,
            op_ok(Op::Bit(Src::H, 1), *old(cpu), old(mmu)@, args@),
        ensures
            cycles_reported(*old(self), *final(self), r),
            (r, *final(cpu), final(mmu)@) == op_spec(Op::Bit(Src::H, 1), old(self).cycles, *old(cpu), old(mmu)@, args@),
    {
        proof {
            reveal(op_ok);
            reveal(op_spec);
        }
        self.bit(cpu, mmu, args, Src::H, 1)
    }

    /// BIT 1,L
    /// 2 8
    /// Z 0 1 -
    fn op_cb4d(&mut self, cpu: &mut Cpu, mmu: &mut Mmu, args: &[u8]) -> (r: i16)
        requires
            old(self).cycles <= i16::MAX - 12,
            op_ok(Op::Bit(Src::L, 1), *old(cpu), old(mmu)@, args@),
        ensures
            cycles_reported(*old(self), *final(self), r),
            (r, *final(cpu), final(mmu)@) == op_spec(Op::Bit(Src::L, 1), old(self).cycles, *old(cpu), old(mmu)@, args@),
    {
        proof {
            reveal(op_ok);
            reveal(op_spec);
        }
        self.bit(cpu, mmu, args, Src::L, 1)
    }

    /// BIT 1,(HL)
    /// 2 16
    /// Z 0 1 -
    fn op_cb4e(&mut self, cpu: &mut Cpu, mmu: &mut Mmu, args: &[u8]) -> (r: i16)
        requires
            old(self).cycles <= i16::MAX - 12,
            op_ok(Op::Bit(Src::HLa, 1), *old(cpu), old(mmu)@, args@),
        ensures
            cycles_reported(*old(self), *final(self), r),
            (r, *final(cpu), final(mmu)@) == op_spec(Op::Bit(Src::HLa, 1), old(self).cycles, *old(cpu), old(mmu)@, args@),
    {
        proof {
            reveal(op_ok);
            reveal(op_spec);
        }
        self.bit(cpu, mmu, args, Src::HLa, 1)
    }

    /// BIT 1,A
    /// 2 8
    /// Z 0 1 -
    fn op_cb4f(&mut self, cpu: &mut Cpu, mmu: &mut Mmu, args: &[u8]) -> (r: i16)
        requires
            old(self).cycles <= i16::MAX - 12,
            op_ok(Op::Bit(Src::A, 1), *old(cpu), old(mmu)@, args@),
        ensures
            cycles_reported(*old(self), *final(self), r),
            (r, *final(cpu), final(mmu)@) == op_spec(Op::Bit(Src::A, 1), old(self).cycles, *old(cpu), old(mmu)@, args@),
    {
        proof {
            reveal(op_ok);
            reveal(op_spec);
        }
        self.bit(cpu, mmu, args, Src::A, 1)
    }

    /// BIT 2,B
    /// 2 8
    /// Z 0 1 -
    fn op_cb50(&mut self, cpu: &mut Cpu, mmu: &mut Mmu, args: &[u8]) -> (r: i16)
        requires
            old(self).cycles <= i16::MAX - 12,
            op_ok(Op::Bit(Src::B, 2), *old(cpu), old(mmu)@, args@),
        ensures
            cycles_reported(*old(self), *final(self), r),
            (r, *final(cpu), final(mmu)@) == op_spec(Op::Bit(Src::B, 2), old(self).cycles, *old(cpu), old(mmu)@, args@),
    {
        proof {
            reveal(op_ok);
            reveal(op_spec);
        }
        self.bit(cpu, mmu, args, Src::B, 2)
    }

    /// BIT 2,C
    /// 2 8
    /// Z 0 1 -
    fn op_cb51(&mut self, cpu: &mut Cpu, mmu: &mut Mmu, args: &[u8]) -> (r: i16)
        requires
            old(self).cycles <= i16::MAX - 12,
            op_ok(Op::Bit(Src::C, 2), *old(cpu), old(mmu)@, args@),
        ensures
            cycles_reported(*old(self), *final(self), r),
            (r, *final(cpu), final(mmu)@) == op_spec(Op::Bit(Src::C, 2), old(self).cycles, *old(cpu), old(mmu)@, args@),
    {
        proof {
            reveal(op_ok);
            reveal(op_spec);
        }
        self.bit(cpu, mmu, args, Src::C, 2)
    }

    /// BIT 2,D
    /// 2 8
    /// Z 0 1 -
    fn op_cb52(&mut self, cpu: &mut Cpu, mmu: &mut Mmu, args: &[u8]) -> (r: i16)
        requires
            old(self).cycles <= i16::MAX - 12,
            op_ok(Op::Bit(Src::D, 2), *old(cpu), old(mmu)@, args@),
        ensures
            cycles_reported(*old(self), *final(self), r),
            (r, *final(cpu), final(mmu)@) == op_spec(Op::Bit(Src::D, 2), old(self).cycles, *old(cpu), old(mmu)@, args@),
    {
        proof {
            reveal(op_ok);
            reveal(op_spec);
        }
        self.bit(cpu, mmu, args, Src::D, 2)
    }

    /// BIT 2,E
    /// 2 8
    /// Z 0 1 -
    fn op_cb53(&mut self, cpu: &mut Cpu, mmu: &mut Mmu, args: &[u8]) -> (r: i16)
        requires
            old(self).cycles <= i16::MAX - 12,
            op_ok(Op::Bit(Src::E, 2), *old(cpu), old(mmu)@, args@),
        ensures
            cycles_reported(*old(self), *final(self), r),
            (r, *final(cpu), final(mmu)@) == op_spec(Op::Bit(Src::E, 2), old(self).cycles, *old(cpu), old(mmu)@, args@),
    {
        proof {
            reveal(op_ok);
            reveal(op_spec);
        }
        self.bit(cpu, mmu, args, Src::E, 2)
    }

    /// BIT 2,H
    /// 2 8
    /// Z 0 1 -
    fn op_cb54(&mut self, cpu: &mut Cpu, mmu: &mut Mmu, args: &[u8]) -> (r: i16)
        requires
            old(self).cycles <= i16::MAX - 12,
            op_ok(Op::Bit(Src::H, 2), *old(cpu), old(mmu)@, args@),
        ensures
            cycles_reported(*old(self), *final(self), r),
            (r, *final(cpu), final(mmu)@) == op_spec(Op::Bit(Src::H, 2), old(self).cycles, *old(cpu), old(mmu)@, args@),
    {
        proof {
            reveal(op_ok);
            reveal(op_spec);
        }
        self.bit(cpu, mmu, args, Src::H, 2)
    }

    /// BIT 2,L
    /// 2 8
    /// Z 0 1 -
    fn op_cb55(&mut self, cpu: &mut Cpu, mmu: &mut Mmu, args: &[u8]) -> (r: i16)
        requires
            old(self).cycles <= i16::MAX - 12,
            op_ok(Op::Bit(Src::L, 2), *old(cpu), old(mmu)@, args@),
        ensures
            cycles_reported(*old(self), *final(self), r),
            (r, *final(cpu), final(mmu)@) == op_spec(Op::Bit(Src::L, 2), old(self).cycles, *old(cpu), old(mmu)@, args@),
    {
        proof {
            reveal(op_ok);
            reveal(op_spec);
        }
        self.bit(cpu, mmu, args, Src::L, 2)
    }

    /// BIT 2,(HL)
    /// 2 16
    /// Z 0 1 -
    fn op_cb56(&mut self, cpu: &mut Cpu, mmu: &mut Mmu, args: &[u8]) -> (r: i16)
        requires
            old(self).cycles <= i16::MAX - 12,
            op_ok(Op::Bit(Src::HLa, 2), *old(cpu), old(mmu)@, args@),
        ensures
            cycles_reported(*old(self), *final(self), r),
            (r, *final(cpu), final(mmu)@) == op_spec(Op::Bit(Src::HLa, 2), old(self).cycles, *old(cpu), old(mmu)@, args@),
    {
        proof {
            reveal(op_ok);
            reveal(op_spec);
        }
        self.bit(cpu, mmu, args, Src::HLa, 2)
    }

    /// BIT 2,A
    /// 2 8
    /// Z 0 1 -
    fn op_cb57(&mut self, cpu: &mut Cpu, mmu: &mut Mmu, args: &[u8]) -> (r: i16)
        requires
            old(self).cycles <= i16::MAX - 12,
            op_ok(Op::Bit(Src::A, 2), *old(cpu), old(mmu)@, args@),
        ensures
            cycles_reported(*old(self), *final(self), r),
            (r, *final(cpu), final(mmu)@) == op_spec(Op::Bit(Src::A, 2), old(self).cycles, *old(cpu), old(mmu)@, args@),
    {
        proof {
            reveal(op_ok);
            reveal(op_spec);
        }
        self.bit(cpu, mmu, args, Src::A, 2)
    }

    /// BIT 3,B
    /// 2 8
    /// Z 0 1 -
    fn op_cb58(&mut self, cpu: &mut Cpu, mmu: &mut Mmu, args: &[u8]) -> (r: i16)
        requires
            old(self).cycles <= i16::MAX - 12,
            op_ok(Op::Bit(Src::B, 3), *old(cpu), old(mmu)@, args@),
        ensures
            cycles_reported(*old(self), *final(self), r),
            (r, *final(cpu), final(mmu)@) == op_spec(Op::Bit(Src::B, 3), old(self).cycles, *old(cpu), old(mmu)@, args@),
    {
        proof {
            reveal(op_ok);
            reveal(op_spec);
        }
        self.bit(cpu, mmu, args, Src::B, 3)
    }

    /// BIT 3,C
    /// 2 8
    /// Z 0 1 -
    fn op_cb59(&mut self, cpu: &mut Cpu, mmu: &mut Mmu, args: &[u8]) -> (r: i16)
        requires
            old(self).cycles <= i16::MAX - 12,
            op_ok(Op::Bit(Src::C, 3), *old(cpu), old(mmu)@, args@),
        ensures
            cycles_reported(*old(self), *final(self), r),
            (r, *final(cpu), final(mmu)@) == op_spec(Op::Bit(Src::C, 3), old(self).cycles, *old(cpu), old(mmu)@, args@),
    {
        proof {
            reveal(op_ok);
            reveal(op_spec);
        }
        self.bit(cpu, mmu, args, Src::C, 3)
    }

    /// BIT 3,D
    /// 2 8
    /// Z 0 1 -
    fn op_cb5a(&mut self, cpu: &mut Cpu, mmu: &mut Mmu, args: &[u8]) -> (r: i16)
        requires
            old(self).cycles <= i16::MAX - 12,
            op_ok(Op::Bit(Src::D, 3), *old(cpu), old(mmu)@, args@),
        ensures
            cycles_reported(*old(self), *final(self), r),
            (r, *final(cpu), final(mmu)@) == op_spec(Op::Bit(Src::D, 3), old(self).cycles, *old(cpu), old(mmu)@, args@),
    {
        proof {
            reveal(op_ok);
            reveal(op_spec);
        }
        self.bit(cpu, mmu, args, Src::D, 3)
    }

    /// BIT 3,E
    /// 2 8
    /// Z 0 1 -
    fn op_cb5b(&mut self, cpu: &mut Cpu, mmu: &mut Mmu, args: &[u8]) -> (r: i16)
        requires
            old(self).cycles <= i16::MAX - 12,
            op_ok(Op::Bit(Src::E, 3), *old(cpu), old(mmu)@, args@),
        ensures
            cycles_reported(*old(self), *final(self), r),
            (r, *final(cpu), final(mmu)@) == op_spec(Op::Bit(Src::E, 3), old(self).cycles, *old(cpu), old(mmu)@, args@),
    {
        proof {
            reveal(op_ok);
            reveal(op_spec);
        }
        self.bit(cpu, mmu, args, Src::E, 3)
    }

    /// BIT 3,H
    /// 2 8
    /// Z 0 1 -
    fn op_cb5c(&mut self, cpu: &mut Cpu, mmu: &mut Mmu, args: &[u8]) -> (r: i16)
        requires
            old(self).cycles <= i16::MAX - 12,
            op_ok(Op::Bit(Src::H, 3), *old(cpu), old(mmu)@, args@),
        ensures
            cycles_reported(*old(self), *final(self), r),
            (r, *final(cpu), final(mmu)@) == op_spec(Op::Bit(Src::H, 3), old(self).cycles, *old(cpu), old(mmu)@, args@),
    {
        proof {
            reveal(op_ok);
            reveal(op_spec);
        }
        self.bit(cpu, mmu, args, Src::H, 3)
    }

    /// BIT 3,L
    /// 2 8
    /// Z 0 1 -
    fn op_cb5d(&mut self, cpu: &mut Cpu, mmu: &mut Mmu, args: &[u8]) -> (r: i16)
        requires
            old(self).cycles <= i16::MAX - 12,
            op_ok(Op::Bit(Src::L, 3), *old(cpu), old(mmu)@, args@),
        ensures
            cycles_reported(*old(self), *final(self), r),
            (r, *final(cpu), final(mmu)@) == op_spec(Op::Bit(Src::L, 3), old(self).cycles, *old(cpu), old(mmu)@, args@),
    {
        proof {
            reveal(op_ok);
            reveal(op_spec);
        }
        self.bit(cpu, mmu, args, Src::L, 3)
    }

    /// BIT 3,(HL)
    /// 2 16
    /// Z 0 1 -
    fn op_cb5e(&mut self, cpu: &mut Cpu, mmu: &mut Mmu, args: &[u8]) -> (r: i16)
        requires
            old(self).cycles <= i16::MAX - 12,
            op_ok(Op::Bit(Src::HLa, 3), *old(cpu), old(mmu)@, args@),
        ensures
            cycles_reported(*old(self), *final(self), r),
            (r, *final(cpu), final(mmu)@) == op_spec(Op::Bit(Src::HLa, 3), old(self).cycles, *old(cpu), old(mmu)@, args@),
    {
        proof {
            reveal(op_ok);
            reveal(op_spec);
        }
        self.bit(cpu, mmu, args, Src::HLa, 3)
    }

    /// BIT 3,A
    /// 2 8
    /// Z 0 1 -
    fn op_cb5f(&mut self, cpu: &mut Cpu, mmu: &mut Mmu, args: &[u8]) -> (r: i16)
        requires
            old(self).cycles <= i16::MAX - 12,
            op_ok(Op::Bit(Src::A, 3), *old(cpu), old(mmu)@, args@),
        ensures
            cycles_reported(*old(self), *final(self), r),
            (r, *final(cpu), final(mmu)@) == op_spec(Op::Bit(Src::A, 3), old(self).cycles, *old(cpu), old(mmu)@, args@),
    {
        proof {
            reveal(op_ok);
            reveal(op_spec);
        }
        self.bit(cpu, mmu, args, Src::A, 3)
    }

    /// BIT 4,B
    /// 2 8
    /// Z 0 1 -
    fn op_cb60(&mut self, cpu: &mut Cpu, mmu: &mut Mmu, args: &[u8]) -> (r: i16)
        requires
            old(self).cycles <= i16::MAX - 12,
            op_ok(Op::Bit(Src::B, 4), *old(cpu), old(mmu)@, args@),
        ensures
            cycles_reported(*old(self), *final(self), r),
            (r, *final(cpu), final(mmu)@) == op_spec(Op::Bit(Src::B, 4), old(self).cycles, *old(cpu), old(mmu)@, args@),
    {
        proof {
            reveal(op_ok);
            reveal(op_spec);
        }
        self.bit(cpu, mmu, args, Src::B, 4)
    }

    /// BIT 4,C
    /// 2 8
    /// Z 0 1 -
    fn op_cb61(&mut self, cpu: &mut Cpu, mmu: &mut Mmu, args: &[u8]) -> (r: i16)
        requires
            old(self).cycles <= i16::MAX - 12,
            op_ok(Op::Bit(Src::C, 4), *old(cpu), old(mmu)@, args@),
        ensures
            cycles_reported(*old(self), *final(self), r),
            (r, *final(cpu), final(mmu)@) == op_spec(Op::Bit(Src::C, 4), old(self).cycles, *old(cpu), old(mmu)@, args@),
    {
        proof {
            reveal(op_ok);
            reveal(op_spec);
        }
        self.bit(cpu, mmu, args, Src::C, 4)
    }

    /// BIT 4,D
    /// 2 8
    /// Z 0 1 -
    fn op_cb62(&mut self, cpu: &mut Cpu, mmu: &mut Mmu, args: &[u8]) -> (r: i16)
        requires
            old(self).cycles <= i16::MAX - 12,
            op_ok(Op::Bit(Src::D, 4), *old(cpu), old(mmu)@, args@),
        ensures
            cycles_reported(*old(self), *final(self), r),
            (r, *final(cpu), final(mmu)@) == op_spec(Op::Bit(Src::D, 4), old(self).cycles, *old(cpu), old(mmu)@, args@),
    {
        proof {
            reveal(op_ok);
            reveal(op_spec);
        }
        self.bit(cpu, mmu, args, Src::D, 4)
    }

    /// BIT 4,E
    /// 2 8
    /// Z 0 1 -
    fn op_cb63(&mut self, cpu: &mut Cpu, mmu: &mut Mmu, args: &[u8]) -> (r: i16)
        requires
            old(self).cycles <= i16::MAX - 12,
            op_ok(Op::Bit(Src::E, 4), *old(cpu), old(mmu)@, args@),
        ensures
            cycles_reported(*old(self), *final(self), r),
            (r, *final(cpu), final(mmu)@) == op_spec(Op::Bit(Src::E, 4), old(self).cycles, *old(cpu), old(mmu)@, args@),
    {
        proof {
            reveal(op_ok);
            reveal(op_spec);
        }
        self.bit(cpu, mmu, args, Src::E, 4)
    }

    /// BIT 4,H
    /// 2 8
    /// Z 0 1 -
    fn op_cb64(&mut self, cpu: &mut Cpu, mmu: &mut Mmu, args: &[u8]) -> (r: i16)
        requires
            old(self).cycles <= i16::MAX - 12,
            op_ok(Op::Bit(Src::H, 4), *old(cpu), old(mmu)@, args@),
        ensures
            cycles_reported(*old(self), *final(self), r),
            (r, *final(cpu), final(mmu)@) == op_spec(Op::Bit(Src::H, 4), old(self).cycles, *old(cpu), old(mmu)@, args@),
    {
        proof {
            reveal(op_ok);
            reveal(op_spec);
        }
        self.bit(cpu, mmu, args, Src::H, 4)
    }

    /// BIT 4,L
    /// 2 8
    /// Z 0 1 -
    fn op_cb65(&mut self, cpu: &mut Cpu, mmu: &mut Mmu, args: &[u8]) -> (r: i16)
        requires
            old(self).cycles <= i16::MAX - 12,
            op_ok(Op::Bit(Src::L, 4), *old(cpu), old(mmu)@, args@),
        ensures
            cycles_reported(*old(self), *final(self), r),
            (r, *final(cpu), final(mmu)@) == op_spec(Op::Bit(Src::L, 4), old(self).cycles, *old(cpu), old(mmu)@, args@),
    {
        proof {
            reveal(op_ok);
            reveal(op_spec);
        }
        self.bit(cpu, mmu, args, Src::L, 4)
    }

    /// BIT 4,(HL)
    /// 2 16
    /// Z 0 1 -
    fn op_cb66(&mut self, cpu: &mut Cpu, mmu: &mut Mmu, args: &[u8]) -> (r: i16)
        requires
            old(self).cycles <= i16::MAX - 12,
            op_ok(Op::Bit(Src::HLa, 4), *old(cpu), old(mmu)@, args@),
        ensures
            cycles_reported(*old(self), *final(self), r),
            (r, *final(cpu), final(mmu)@) == op_spec(Op::Bit(Src::HLa, 4), old(self).cycles, *old(cpu), old(mmu)@, args@),
    {
        proof {
            reveal(op_ok);
            reveal(op_spec);
        }
        self.bit(cpu, mmu, args, Src::HLa, 4)
    }

    /// BIT 4,A
    /// 2 8
    /// Z 0 1 -
    fn op_cb67(&mut self, cpu: &mut Cpu, mmu: &mut Mmu, args: &[u8]) -> (r: i16)
        requires
            old(self).cycles <= i16::MAX - 12,
            op_ok(Op::Bit(Src::A, 4), *old(cpu), old(mmu)@, args@),
        ensures
            cycles_reported(*old(self), *final(self), r),
            (r, *final(cpu), final(mmu)@) == op_spec(Op::Bit(Src::A, 4), old(self).cycles, *old(cpu), old(mmu)@, args@),
    {
        proof {
            reveal(op_ok);
            reveal(op_spec);
        }
        self.bit(cpu, mmu, args, Src::A, 4)
    }

    /// BIT 5,B
    /// 2 8
    /// Z 0 1 -
    fn op_cb68(&mut self, cpu: &mut Cpu, mmu: &mut Mmu, args: &[u8]) -> (r: i16)
        requires
            old(self).cycles <= i16::MAX - 12,
            op_ok(Op::Bit(Src::B, 5), *old(cpu), old(mmu)@, args@),
        ensures
            cycles_reported(*old(self), *final(self), r),
            (r, *final(cpu), final(mmu)@) == op_spec(Op::Bit(Src::B, 5), old(self).cycles, *old(cpu), old(mmu)@, args@),
    {
        proof {
            reveal(op_ok);
            reveal(op_spec);
        }
        self.bit(cpu, mmu, args, Src::B, 5)
    }

    /// BIT 5,C
    /// 2 8
    /// Z 0 1 -
    fn op_cb69(&mut self, cpu: &mut Cpu, mmu: &mut Mmu, args: &[u8]) -> (r: i16)
        requires
            old(self).cycles <= i16::MAX - 12,
            op_ok(Op::Bit(Src::C, 5), *old(cpu), old(mmu)@, args@),
        ensures
            cycles_reported(*old(self), *final(self), r),
            (r, *final(cpu), final(mmu)@) == op_spec(Op::Bit(Src::C, 5), old(self).cycles, *old(cpu), old(mmu)@, args@),
    {
        proof {
            reveal(op_ok);
            reveal(op_spec);
        }
        self.bit(cpu, mmu, args, Src::C, 5)
    }

    /// BIT 5,D
    /// 2 8
    /// Z 0 1 -
    fn op_cb6a(&mut self, cpu: &mut Cpu, mmu: &mut Mmu, args: &[u8]) -> (r: i16)
        requires
            old(self).cycles <= i16::MAX - 12,
            op_ok(Op::Bit(Src::D, 5), *old(cpu), old(mmu)@, args@),
        ensures
            cycles_reported(*old(self), *final(self), r),
            (r, *final(cpu), final(mmu)@) == op_spec(Op::Bit(Src::D, 5), old(self).cycles, *old(cpu), old(mmu)@, args@),
    {
        proof {
            reveal(op_ok);
            reveal(op_spec);
        }
        self.bit(cpu, mmu, args, Src::D, 5)
    }

    /// BIT 5,E
    /// 2 8
    /// Z 0 1 -
    fn op_cb6b(&mut self, cpu: &mut Cpu, mmu: &mut Mmu, args: &[u8]) -> (r: i16)
        requires
            old(self).cycles <= i16::MAX - 12,
            op_ok(Op::Bit(Src::E, 5), *old(cpu), old(mmu)@, args@),
        ensures
            cycles_reported(*old(self), *final(self), r),
            (r, *final(cpu), final(mmu)@) == op_spec(Op::Bit(Src::E, 5), old(self).cycles, *old(cpu), old(mmu)@, args@),
    {
        proof {
            reveal(op_ok);
            reveal(op_spec);
        }
        self.bit(cpu, mmu, args, Src::E, 5)
    }

    /// BIT 5,H
    /// 2 8
    /// Z 0 1 -
    fn op_cb6c(&mut self, cpu: &mut Cpu, mmu: &mut Mmu, args: &[u8]) -> (r: i16)
        requires
            old(self).cycles <= i16::MAX - 12,
            op_ok(Op::Bit(Src::H, 5), *old(cpu), old(mmu)@, args@),
        ensures
            cycles_reported(*old(self), *final(self), r),
            (r, *final(cpu), final(mmu)@) == op_spec(Op::Bit(Src::H, 5), old(self).cycles, *old(cpu), old(mmu)@, args@),
    {
        proof {
            reveal(op_ok);
            reveal(op_spec);
        }
        self.bit(cpu, mmu, args, Src::H, 5)
    }

    /// BIT 5,L
    /// 2 8
    /// Z 0 1 -
    fn op_cb6d(&mut self, cpu: &mut Cpu, mmu: &mut Mmu, args: &[u8]) -> (r: i16)
        requires
            old(self).cycles <= i16::MAX - 12,
            op_ok(Op::Bit(Src::L, 5), *old(cpu), old(mmu)@, args@),
        ensures
            cycles_reported(*old(self), *final(self), r),
            (r, *final(cpu), final(mmu)@) == op_spec(Op::Bit(Src::L, 5), old(self).cycles, *old(cpu), old(mmu)@, args@),
    {
        proof {
            reveal(op_ok);
            reveal(op_spec);
        }
        self.bit(cpu, mmu, args, Src::L, 5)
    }

    /// BIT 5,(HL)
    /// 2 16
    /// Z 0 1 -
    fn op_cb6e(&mut self, cpu: &mut Cpu, mmu: &mut Mmu, args: &[u8]) -> (r: i16)
        requires
            old(self).cycles <= i16::MAX - 12,
            op_ok(Op::Bit(Src::HLa, 5), *old(cpu), old(mmu)@, args@),
        ensures
            cycles_reported(*old(self), *final(self), r),
            (r, *final(cpu), final(mmu)@) == op_spec(Op::Bit(Src::HLa, 5), old(self).cycles, *old(cpu), old(mmu)@, args@),
    {
        proof {
            reveal(op_ok);
            reveal(op_spec);
        }
        self.bit(cpu, mmu, args, Src::HLa, 5)
    }

    /// BIT 5,A
    /// 2 8
    /// Z 0 1 -
    fn op_cb6f(&mut self, cpu: &mut Cpu, mmu: &mut Mmu, args: &[u8]) -> (r: i16)
        requires
            old(self).cycles <= i16::MAX - 12,
            op_ok(Op::Bit(Src::A, 5), *old(cpu), old(mmu)@, args@),
        ensures
            cycles_reported(*old(self), *final(self), r),
            (r, *final(cpu), final(mmu)@) == op_spec(Op::Bit(Src::A, 5), old(self).cycles, *old(cpu), old(mmu)@, args@),
    {
        proof {
            reveal(op_ok);
            reveal(op_spec);
        }
        self.bit(cpu, mmu, args, Src::A, 5)
    }

    /// BIT 6,B
    /// 2 8
    /// Z 0 1 -
    fn op_cb70(&mut self, cpu: &mut Cpu, mmu: &mut Mmu, args: &[u8]) -> (r: i16)
        requires
            old(self).cycles <= i16::MAX - 12,
            op_ok(Op::Bit(Src::B, 6), *old(cpu), old(mmu)@, args@),
        ensures
            cycles_reported(*old(self), *final(self), r),
            (r, *final(cpu), final(mmu)@) == op_spec(Op::Bit(Src::B, 6), old(self).cycles, *old(cpu), old(mmu)@, args@),
    {
        proof {
            reveal(op_ok);
            reveal(op_spec);
        }
        self.bit(cpu, mmu, args, Src::B, 6)
    }

    /// BIT 6,C
    /// 2 8
    /// Z 0 1 -
    fn op_cb71(&mut self, cpu: &mut Cpu, mmu: &mut Mmu, args: &[u8]) -> (r: i16)
        requires
            old(self).cycles <= i16::MAX - 12,
            op_ok(Op::Bit(Src::C, 6), *old(cpu), old(mmu)@, args@),
        ensures
            cycles_reported(*old(self), *final(self), r),
            (r, *final(cpu), final(mmu)@) == op_spec(Op::Bit(Src::C, 6), old(self).cycles, *old(cpu), old(mmu)@, args@),
    {
        proof {
            reveal(op_ok);
            reveal(op_spec);
        }
        self.bit(cpu, mmu, args, Src::C, 6)
    }

    /// BIT 6,D
    /// 2 8
    /// Z 0 1 -
    fn op_cb72(&mut self, cpu: &mut Cpu, mmu: &mut Mmu, args: &[u8]) -> (r: i16)
        requires
            old(self).cycles <= i16::MAX - 12,
            op_ok(Op::Bit(Src::D, 6), *old(cpu), old(mmu)@, args@),
        ensures
            cycles_reported(*old(self), *final(self), r),
            (r, *final(cpu), final(mmu)@) == op_spec(Op::Bit(Src::D, 6), old(self).cycles, *old(cpu), old(mmu)@, args@),
    {
        proof {
            reveal(op_ok);
            reveal(op_spec);
        }
        self.bit(cpu, mmu, args, Src::D, 6)
    }

    /// BIT 6,E
    /// 2 8
    /// Z 0 1 -
    fn op_cb73(&mut self, cpu: &mut Cpu, mmu: &mut Mmu, args: &[u8]) -> (r: i16)
        requires
            old(self).cycles <= i16::MAX - 12,
            op_ok(Op::Bit(Src::E, 6), *old(cpu), old(mmu)@, args@),
        ensures
            cycles_reported(*old(self), *final(self), r),
            (r, *final(cpu), final(mmu)@) == op_spec(Op::Bit(Src::E, 6), old(self).cycles, *old(cpu), old(mmu)@, args@),
    {
        proof {
            reveal(op_ok);
            reveal(op_spec);
        }
        self.bit(cpu, mmu, args, Src::E, 6)
    }

    /// BIT 6,H
    /// 2 8
    /// Z 0 1 -
    fn op_cb74(&mut self, cpu: &mut Cpu, mmu: &mut Mmu, args: &[u8]) -> (r: i16)
        requires
            old(self).cycles <= i16::MAX - 12,
            op_ok(Op::Bit(Src::H, 6), *old(cpu), old(mmu)@, args@),
        ensures
            cycles_reported(*old(self), *final(self), r),
            (r, *final(cpu), final(mmu)@) == op_spec(Op::Bit(Src::H, 6), old(self).cycles, *old(cpu), old(mmu)@, args@),
    {
        proof {
            reveal(op_ok);
            reveal(op_spec);
        }
        self.bit(cpu, mmu, args, Src::H, 6)
    }

    /// BIT 6,L
    /// 2 8
    /// Z 0 1 -
    fn op_cb75(&mut self, cpu: &mut Cpu, mmu: &mut Mmu, args: &[u8]) -> (r: i16)
        requires
            old(self).cycles <= i16::MAX - 12,
            op_ok(Op::Bit(Src::L, 6), *old(cpu), old(mmu)@, args@),
        ensures
            cycles_reported(*old(self), *final(self), r),
            (r, *final(cpu), final(mmu)@) == op_spec(Op::Bit(Src::L, 6), old(self).cycles, *old(cpu), old(mmu)@, args@),
    {
        proof {
            reveal(op_ok);
            reveal(op_spec);
        }
        self.bit(cpu, mmu, args, Src::L, 6)
    }

    /// BIT 6,(HL)
    /// 2 16
    /// Z 0 1 -
    fn op_cb76(&mut self, cpu: &mut Cpu, mmu: &mut Mmu, args: &[u8]) -> (r: i16)
        requires
            old(self).cycles <= i16::MAX - 12,
            op_ok(Op::Bit(Src::HLa, 6), *old(cpu), old(mmu)@, args@),
        ensures
            cycles_reported(*old(self), *final(self), r),
            (r, *final(cpu), final(mmu)@) == op_spec(Op::Bit(Src::HLa, 6), old(self).cycles, *old(cpu), old(mmu)@, args@),
    {
        proof {
            reveal(op_ok);
            reveal(op_spec);
        }
        self.bit(cpu, mmu, args, Src::HLa, 6)
    }

    /// BIT 6,A
    /// 2 8
    /// Z 0 1 -
    fn op_cb77(&mut self, cpu: &mut Cpu, mmu: &mut Mmu, args: &[u8]) -> (r: i16)
        requires
            old(self).cycles <= i16::MAX - 12,
            op_ok(Op::Bit(Src::A, 6), *old(cpu), old(mmu)@, args@),
        ensures
            cycles_reported(*old(self), *final(self), r),
            (r, *final(cpu), final(mmu)@) == op_spec(Op::Bit(Src::A, 6), old(self).cycles, *old(cpu), old(mmu)@, args@),
    {
        proof {
            reveal(op_ok);
            reveal(op_spec);
        }
        self.bit(cpu, mmu, args, Src::A, 6)
    }

    /// BIT 7,B
    /// 2 8
    /// Z 0 1 -
    fn op_cb78(&mut self, cpu: &mut Cpu, mmu: &mut Mmu, args: &[u8]) -> (r: i16)
        requires
            old(self).cycles <= i16::MAX - 12,
            op_ok(Op::Bit(Src::B, 7), *old(cpu), old(mmu)@, args@),
        ensures
            cycles_reported(*old(self), *final(self), r),
            (r, *final(cpu), final(mmu)@) == op_spec(Op::Bit(Src::B, 7), old(self).cycles, *old(cpu), old(mmu)@, args@),
    {
        proof {
            reveal(op_ok);
            reveal(op_spec);
        }
        self.bit(cpu, mmu, args, Src::B, 7)
    }

    /// BIT 7,C
    /// 2 8
    /// Z 0 1 -
    fn op_cb79(&mut self, cpu: &mut Cpu, mmu: &mut Mmu, args: &[u8]) -> (r: i16)
        requires
            old(self).cycles <= i16::MAX - 12,
            op_ok(Op::Bit(Src::C, 7), *old(cpu), old(mmu)@, args@),
        ensures
            cycles_reported(*old(self), *final(self), r),
            (r, *final(cpu), final(mmu)@) == op_spec(Op::Bit(Src::C, 7), old(self).cycles, *old(cpu), old(mmu)@, args@),
    {
        proof {
            reveal(op_ok);
            reveal(op_spec);
        }
        self.bit(cpu, mmu, args, Src::C, 7)
    }

    /// BIT 7,D
    /// 2 8
    /// Z 0 1 -
    fn op_cb7a(&mut self, cpu: &mut Cpu, mmu: &mut Mmu, args: &[u8]) -> (r: i16)
        requires
            old(self).cycles <= i16::MAX - 12,
            op_ok(Op::Bit(Src::D, 7), *old(cpu), old(mmu)@, args@),
        ensures
            cycles_reported(*old(self), *final(self), r),
            (r, *final(cpu), final(mmu)@) == op_spec(Op::Bit(Src::D, 7), old(self).cycles, *old(cpu), old(mmu)@, args@),
    {
        proof {
            reveal(op_ok);
            reveal(op_spec);
        }
        self.bit(cpu, mmu, args, Src::D, 7)
    }

    /// BIT 7,E
    /// 2 8
    /// Z 0 1 -
    fn op_cb7b(&mut self, cpu: &mut Cpu, mmu: &mut Mmu, args: &[u8]) -> (r: i16)
        requires
            old(self).cycles <= i16::MAX - 12,
            op_ok(Op::Bit(Src::E, 7), *old(cpu), old(mmu)@, args@),
        ensures
            cycles_reported(*old(self), *final(self), r),
            (r, *final(cpu), final(mmu)@) == op_spec(Op::Bit(Src::E, 7), old(self).cycles, *old(cpu), old(mmu)@, args@),
    {
        proof {
            reveal(op_ok);
            reveal(op_spec);
        }
        self.bit(cpu, mmu, args, Src::E, 7)
    }

    /// BIT 7,H
    /// 2 8
    /// Z 0 1 -
    fn op_cb7c(&mut self, cpu: &mut Cpu, mmu: &mut Mmu, args: &[u8]) -> (r: i16)
        requires
            old(self).cycles <= i16::MAX - 12,
            op_ok(Op::Bit(Src::H, 7), *old(cpu), old(mmu)@, args@),
        ensures
            cycles_reported(*old(self), *final(self), r),
            (r, *final(cpu), final(mmu)@) == op_spec(Op::Bit(Src::H, 7), old(self).cycles, *old(cpu), old(mmu)@, args@),
    {
        proof {
            reveal(op_ok);
            reveal(op_spec);
        }
        self.bit(cpu, mmu, args, Src::H, 7)
    }

    /// BIT 7,L
    /// 2 8
    /// Z 0 1 -
    fn op_cb7d(&mut self, cpu: &mut Cpu, mmu: &mut Mmu, args: &[u8]) -> (r: i16)
        requires
            old(self).cycles <= i16::MAX - 12,
            op_ok(Op::Bit(Src::L, 7), *old(cpu), old(mmu)@, args@),
        ensures
            cycles_reported(*old(self), *final(self), r),
            (r, *final(cpu), final(mmu)@) == op_spec(Op::Bit(Src::L, 7), old(self).cycles, *old(cpu), old(mmu)@, args@),
    {
        proof {
            reveal(op_ok);
            reveal(op_spec);
        }
        self.bit(cpu, mmu, args, Src::L, 7)
    }

    /// BIT 7,(HL)
    /// 2 16
    /// Z 0 1 -
    fn op_cb7e(&mut self, cpu: &mut Cpu, mmu: &mut Mmu, args: &[u8]) -> (r: i16)
        requires
            old(self).cycles <= i16::MAX - 12,
            op_ok(Op::Bit(Src::HLa, 7), *old(cpu), old(mmu)@, args@),
        ensures
            cycles_reported(*old(self), *final(self), r),
            (r, *final(cpu), final(mmu)@) == op_spec(Op::Bit(Src::HLa, 7), old(self).cycles, *old(cpu), old(mmu)@, args@),
    {
        proof {
            reveal(op_ok);
            reveal(op_spec);
        }
        self.bit(cpu, mmu, args, Src::HLa, 7)
    }

    /// BIT 7,A
    /// 2 8
    /// Z 0 1 -
    fn op_cb7f(&mut self, cpu: &mut Cpu, mmu: &mut Mmu, args: &[u8]) -> (r: i16)
        requires
            old(self).cycles <= i16::MAX - 12,
            op_ok(Op::Bit(Src::A, 7), *old(cpu), old(mmu)@, args@),
        ensures
            cycles_reported(*old(self), *final(self), r),
            (r, *final(cpu), final(mmu)@) == op_spec(Op::Bit(Src::A, 7), old(self).cycles, *old(cpu), old(mmu)@, args@),
    {
        proof {
            reveal(op_ok);
            reveal(op_spec);
        }
        self.bit(cpu, mmu, args, Src::A, 7)
    }

    /// RES 0,B
    /// 2 8
    /// - - - -
    fn op_cb80(&mut self, cpu: &mut Cpu, mmu: &mut Mmu, args: &[u8]) -> (r: i16)
        requires
            old(self).cycles <= i16::MAX - 12,
            op_ok(Op::SetBit(Src::B, 0, false), *old(cpu), old(mmu)@, args@),
        ensures
            cycles_reported(*old(self), *final(self), r),
            (r, *final(cpu), final(mmu)@) == op_spec(Op::SetBit(Src::B, 0, false), old(self).cycles, *old(cpu), old(mmu)@, args@),
    {
        proof {
            reveal(op_ok);
            reveal(op_spec);
        }
        self.set(cpu, mmu, args, Src::B, 0, false)
    }

    /// RES 0,C
    /// 2 8
    /// - - - -
    fn op_cb81(&mut self, cpu: &mut Cpu, mmu: &mut Mmu, args: &[u8]) -> (r: i16)
        requires
            old(self).cycles <= i16::MAX - 12,
            op_ok(Op::SetBit(Src::C, 0, false), *old(cpu), old(mmu)@, args@),
        ensures
            cycles_reported(*old(self), *final(self), r),
            (r, *final(cpu), final(mmu)@) == op_spec(Op::SetBit(Src::C, 0, false), old(self).cycles, *old(cpu), old(mmu)@, args@),
    {
        proof {
            reveal(op_ok);
            reveal(op_spec);
        }
        self.set(cpu, mmu, args, Src::C, 0, false)
    }

    /// RES 0,D
    /// 2 8
    /// - - - -
    fn op_cb82(&mut self, cpu: &mut Cpu, mmu: &mut Mmu, args: &[u8]) -> (r: i16)
        requires
            old(self).cycles <= i16::MAX - 12,
            op_ok(Op::SetBit(Src::D, 0, false), *old(cpu), old(mmu)@, args@),
        ensures
            cycles_reported(*old(self), *final(self), r),
            (r, *final(cpu), final(mmu)@) == op_spec(Op::SetBit(Src::D, 0, false), old(self).cycles, *old(cpu), old(mmu)@, args@),
    {
        proof {
            reveal(op_ok);
            reveal(op_spec);
        }
        self.set(cpu, mmu, args, Src::D, 0, false)
    }

    /// RES 0,E
    /// 2 8
    /// - - - -
    fn op_cb83(&mut self, cpu: &mut Cpu, mmu: &mut Mmu, args: &[u8]) -> (r: i16)
        requires
            old(self).cycles <= i16::MAX - 12,
            op_ok(Op::SetBit(Src::E, 0, false), *old(cpu), old(mmu)@, args@),
        ensures
            cycles_reported(*old(self), *final(self), r),
            (r, *final(cpu), final(mmu)@) == op_spec(Op::SetBit(Src::E, 0, false), old(self).cycles, *old(cpu), old(mmu)@, args@),
    {
        proof {
            reveal(op_ok);
            reveal(op_spec);
        }
        self.set(cpu, mmu, args, Src::E, 0, false)
    }

    /// RES 0,H
    /// 2 8
    /// - - - -
    fn op_cb84(&mut self, cpu: &mut Cpu, mmu: &mut Mmu, args: &[u8]) -> (r: i16)
        requires
            old(self).cycles <= i16::MAX - 12,
            op_ok(Op::SetBit(Src::H, 0, false), *old(cpu), old(mmu)@, args@),
        ensures
            cycles_reported(*old(self), *final(self), r),
            (r, *final(cpu), final(mmu)@) == op_spec(Op::SetBit(Src::H, 0, false), old(self).cycles, *old(cpu), old(mmu)@, args@),
    {
        proof {
            reveal(op_ok);
            reveal(op_spec);
        }
        self.set(cpu, mmu, args, Src::H, 0, false)
    }

    /// RES 0,L
    /// 2 8
    /// - - - -
    fn op_cb85(&mut self, cpu: &mut Cpu, mmu: &mut Mmu, args: &[u8]) -> (r: i16)
        requires
            old(self).cycles <= i16::MAX - 12,
            op_ok(Op::SetBit(Src::L, 0, false), *old(cpu), old(mmu)@, args@),
        ensures
            cycles_reported(*old(self), *final(self), r),
            (r, *final(cpu), final(mmu)@) == op_spec(Op::SetBit(Src::L, 0, false), old(self).cycles, *old(cpu), old(mmu)@, args@),
    {
        proof {
            reveal(op_ok);
            reveal(op_spec);
        }
        self.set(cpu, mmu, args, Src::L, 0, false)
    }

    /// RES 0,(HL)
    /// 2 16
    /// - - - -
    fn op_cb86(&mut self, cpu: &mut Cpu, mmu: &mut Mmu, args: &[u8]) -> (r: i16)
        requires
            old(self).cycles <= i16::MAX - 12,
            op_ok(Op::SetBit(Src::HLa, 0, false), *old(cpu), old(mmu)@, args@),
        ensures
            cycles_reported(*old(self), *final(self), r),
            (r, *final(cpu), final(mmu)@) == op_spec(Op::SetBit(Src::HLa, 0, false), old(self).cycles, *old(cpu), old(mmu)@, args@),
    {
        proof {
            reveal(op_ok);
            reveal(op_spec);
        }
        self.set(cpu, mmu, args, Src::HLa, 0, false)
    }

    /// RES 0,A
    /// 2 8
    /// - - - -
    fn op_cb87(&mut self, cpu: &mut Cpu, mmu: &mut Mmu, args: &[u8]) -> (r: i16)
        requires
            old(self).cycles <= i16::MAX - 12,
            op_ok(Op::SetBit(Src::A, 0, false), *old(cpu), old(mmu)@, args@),
        ensures
            cycles_reported(*old(self), *final(self), r),
            (r, *final(cpu), final(mmu)@) == op_spec(Op::SetBit(Src::A, 0, false), old(self).cycles, *old(cpu), old(mmu)@, args@),
    {
        proof {
            reveal(op_ok);
            reveal(op_spec);
        }
        self.set(cpu, mmu, args, Src::A, 0, false)
    }

    /// RES 1,B
    /// 2 8
    /// - - - -
    fn op_cb88(&mut self, cpu: &mut Cpu, mmu: &mut Mmu, args: &[u8]) -> (r: i16)
        requires
            old(self).cycles <= i16::MAX - 12,
            op_ok(Op::SetBit(Src::B, 1, false), *old(cpu), old(mmu)@, args@),
        ensures
            cycles_reported(*old(self), *final(self), r),
            (r, *final(cpu), final(mmu)@) == op_spec(Op::SetBit(Src::B, 1, false), old(self).cycles, *old(cpu), old(mmu)@, args@),
    {
        proof {
            reveal(op_ok);
            reveal(op_spec);
        }
        self.set(cpu, mmu, args, Src::B, 1, false)
    }

    /// RES 1,C
    /// 2 8
    /// - - - -
    fn op_cb89(&mut self, cpu: &mut Cpu, mmu: &mut Mmu, args: &[u8]) -> (r: i16)
        requires
            old(self).cycles <= i16::MAX - 12,
            op_ok(Op::SetBit(Src::C, 1, false), *old(cpu), old(mmu)@, args@),
        ensures
            cycles_reported(*old(self), *final(self), r),
            (r, *final(cpu), final(mmu)@) == op_spec(Op::SetBit(Src::C, 1, false), old(self).cycles, *old(cpu), old(mmu)@, args@),
    {
        proof {
            reveal(op_ok);
            reveal(op_spec);
        }
        self.set(cpu, mmu, args, Src::C, 1, false)
    }

    /// RES 1,D
    /// 2 8
    /// - - - -
    fn op_cb8a(&mut self, cpu: &mut Cpu, mmu: &mut Mmu, args: &[u8]) -> (r: i16)
        requires
            old(self).cycles <= i16::MAX - 12,
            op_ok(Op::SetBit(Src::D, 1, false), *old(cpu), old(mmu)@, args@),
        ensures
            cycles_reported(*old(self), *final(self), r),
            (r, *final(cpu), final(mmu)@) == op_spec(Op::SetBit(Src::D, 1, false), old(self).cycles, *old(cpu), old(mmu)@, args@),
    {
        proof {
            reveal(op_ok);
            reveal(op_spec);
        }
        self.set(cpu, mmu, args, Src::D, 1, false)
    }

    /// RES 1,E
    /// 2 8
    /// - - - -
    fn op_cb8b(&mut self, cpu: &mut Cpu, mmu: &mut Mmu, args: &[u8]) -> (r: i16)
        requires
            old(self).cycles <= i16::MAX - 12,
            op_ok(Op::SetBit(Src::E, 1, false), *old(cpu), old(mmu)@, args@),
        ensures
            cycles_reported(*old(self), *final(self), r),
            (r, *final(cpu), final(mmu)@) == op_spec(Op::SetBit(Src::E, 1, false), old(self).cycles, *old(cpu), old(mmu)@, args@),
    {
        proof {
            reveal(op_ok);
            reveal(op_spec);
        }
        self.set(cpu, mmu, args, Src::E, 1, false)
    }

    /// RES 1,H
    /// 2 8
    /// - - - -
    fn op_cb8c(&mut self, cpu: &mut Cpu, mmu: &mut Mmu, args: &[u8]) -> (r: i16)
        requires
            old(self).cycles <= i16::MAX - 12,
            op_ok(Op::SetBit(Src::H, 1, false), *old(cpu), old(mmu)@, args@),
        ensures
            cycles_reported(*old(self), *final(self), r),
            (r, *final(cpu), final(mmu)@) == op_spec(Op::SetBit(Src::H, 1, false), old(self).cycles, *old(cpu), old(mmu)@, args@),
    {
        proof {
            reveal(op_ok);
            reveal(op_spec);
        }
        self.set(cpu, mmu, args, Src::H, 1, false)
    }

    /// RES 1,L
    /// 2 8
    /// - - - -
    fn op_cb8d(&mut self, cpu: &mut Cpu, mmu: &mut Mmu, args: &[u8]) -> (r: i16)
        requires
            old(self).cycles <= i16::MAX - 12,
            op_ok(Op::SetBit(Src::L, 1, false), *old(cpu), old(mmu)@, args@),
        ensures
            cycles_reported(*old(self), *final(self), r),
            (r, *final(cpu), final(mmu)@) == op_spec(Op::SetBit(Src::L, 1, false), old(self).cycles, *old(cpu), old(mmu)@, args@),
    {
        proof {
            reveal(op_ok);
            reveal(op_spec);
        }
        self.set(cpu, mmu, args, Src::L, 1, false)
    }

    /// RES 1,(HL)
    /// 2 16
    /// - - - -
    fn op_cb8e(&mut self, cpu: &mut Cpu, mmu: &mut Mmu, args: &[u8]) -> (r: i16)
        requires
            old(self).cycles <= i16::MAX - 12,
            op_ok(Op::SetBit(Src::HLa, 1, false), *old(cpu), old(mmu)@, args@),
        ensures
            cycles_reported(*old(self), *final(self), r),
            (r, *final(cpu), final(mmu)@) == op_spec(Op::SetBit(Src::HLa, 1, false), old(self).cycles, *old(cpu), old(mmu)@, args@),
    {
        proof {
            reveal(op_ok);
            reveal(op_spec);
        }
        self.set(cpu, mmu, args, Src::HLa, 1, false)
    }

    /// RES 1,A
    /// 2 8
    /// - - - -
    fn op_cb8f(&mut self, cpu: &mut Cpu, mmu: &mut Mmu, args: &[u8]) -> (r: i16)
        requires
            old(self).cycles <= i16::MAX - 12,
            op_ok(Op::SetBit(Src::A, 1, false), *old(cpu), old(mmu)@, args@),
        ensures
            cycles_reported(*old(self), *final(self), r),
            (r, *final(cpu), final(mmu)@) == op_spec(Op::SetBit(Src::A, 1, false), old(self).cycles, *old(cpu), old(mmu)@, args@),
    {
        proof {
            reveal(op_ok);
            reveal(op_spec);
        }
        self.set(cpu, mmu, args, Src::A, 1, false)
    }

    /// RES 2,B
    /// 2 8
    /// - - - -
    fn op_cb90(&mut self, cpu: &mut Cpu, mmu: &mut Mmu, args: &[u8]) -> (r: i16)
        requires
            old(self).cycles <= i16::MAX - 12,
            op_ok(Op::SetBit(Src::B, 2, false), *old(cpu), old(mmu)@, args@),
        ensures
            cycles_reported(*old(self), *final(self), r),
            (r, *final(cpu), final(mmu)@) == op_spec(Op::SetBit(Src::B, 2, false), old(self).cycles, *old(cpu), old(mmu)@, args@),
    {
        proof {
            reveal(op_ok);
            reveal(op_spec);
        }
        self.set(cpu, mmu, args, Src::B, 2, false)
    }

    /// RES 2,C
    /// 2 8
    /// - - - -
    fn op_cb91(&mut self, cpu: &mut Cpu, mmu: &mut Mmu, args: &[u8]) -> (r: i16)
        requires
            old(self).cycles <= i16::MAX - 12,
            op_ok(Op::SetBit(Src::C, 2, false), *old(cpu), old(mmu)@, args@),
        ensures
            cycles_reported(*old(self), *final(self), r),
            (r, *final(cpu), final(mmu)@) == op_spec(Op::SetBit(Src::C, 2, false), old(self).cycles, *old(cpu), old(mmu)@, args@),
    {
        proof {
            reveal(op_ok);
            reveal(op_spec);
        }
        self.set(cpu, mmu, args, Src::C, 2, false)
    }

    /// RES 2,D
    /// 2 8
    /// - - - -
    fn op_cb92(&mut self, cpu: &mut Cpu, mmu: &mut Mmu, args: &[u8]) -> (r: i16)
        requires
            old(self).cycles <= i16::MAX - 12,
            op_ok(Op::SetBit(Src::D, 2, false), *old(cpu), old(mmu)@, args@),
        ensures
            cycles_reported(*old(self), *final(self), r),
            (r, *final(cpu), final(mmu)@) == op_spec(Op::SetBit(Src::D, 2, false), old(self).cycles, *old(cpu), old(mmu)@, args@),
    {
        proof {
            reveal(op_ok);
            reveal(op_spec);
        }
        self.set(cpu, mmu, args, Src::D, 2, false)
    }

    /// RES 2,E
    /// 2 8
    /// - - - -
    fn op_cb93(&mut self, cpu: &mut Cpu, mmu: &mut Mmu, args: &[u8]) -> (r: i16)
        requires
            old(self).cycles <= i16::MAX - 12,
            op_ok(Op::SetBit(Src::E, 2, false), *old(cpu), old(mmu)@, args@),
        ensures
            cycles_reported(*old(self), *final(self), r),
            (r, *final(cpu), final(mmu)@) == op_spec(Op::SetBit(Src::E, 2, false), old(self).cycles, *old(cpu), old(mmu)@, args@),
    {
        proof {
            reveal(op_ok);
            reveal(op_spec);
        }
        self.set(cpu, mmu, args, Src::E, 2, false)
    }

    /// RES 2,H
    /// 2 8
    /// - - - -
    fn op_cb94(&mut self, cpu: &mut Cpu, mmu: &mut Mmu, args: &[u8]) -> (r: i16)
        requires
            old(self).cycles <= i16::MAX - 12,
            op_ok(Op::SetBit(Src::H, 2, false), *old(cpu), old(mmu)@, args@),
        ensures
            cycles_reported(*old(self), *final(self), r),
            (r, *final(cpu), final(mmu)@) == op_spec(Op::SetBit(Src::H, 2, false), old(self).cycles, *old(cpu), old(mmu)@, args@),
    {
        proof {
            reveal(op_ok);
            reveal(op_spec);
        }
        self.set(cpu, mmu, args, Src::H, 2, false)
    }

    /// RES 2,L
    /// 2 8
    /// - - - -
    fn op_cb95(&mut self, cpu: &mut Cpu, mmu: &mut Mmu, args: &[u8]) -> (r: i16)
        requires
            old(self).cycles <= i16::MAX - 12,
            op_ok(Op::SetBit(Src::L, 2, false), *old(cpu), old(mmu)@, args@),
        ensures
            cycles_reported(*old(self), *final(self), r),
            (r, *final(cpu), final(mmu)@) == op_spec(Op::SetBit(Src::L, 2, false), old(self).cycles, *old(cpu), old(mmu)@, args@),
    {
        proof {
            reveal(op_ok);
            reveal(op_spec);
        }
        self.set(cpu, mmu, args, Src::L, 2, false)
    }

    /// RES 2,(HL)
    /// 2 16
    /// - - - -
    fn op_cb96(&mut self, cpu: &mut Cpu, mmu: &mut Mmu, args: &[u8]) -> (r: i16)
        requires
            old(self).cycles <= i16::MAX - 12,
            op_ok(Op::SetBit(Src::HLa, 2, false), *old(cpu), old(mmu)@, args@),
        ensures
            cycles_reported(*old(self), *final(self), r),
            (r, *final(cpu), final(mmu)@) == op_spec(Op::SetBit(Src::HLa, 2, false), old(self).cycles, *old(cpu), old(mmu)@, args@),
    {
        proof {
            reveal(op_ok);
            reveal(op_spec);
        }
        self.set(cpu, mmu, args, Src::HLa, 2, false)
    }

    /// RES 2,A
    /// 2 8
    /// - - - -
    fn op_cb97(&mut self, cpu: &mut Cpu, mmu: &mut Mmu, args: &[u8]) -> (r: i16)
        requires
            old(self).cycles <= i16::MAX - 12,
            op_ok(Op::SetBit(Src::A, 2, false), *old(cpu), old(mmu)@, args@),
        ensures
            cycles_reported(*old(self), *final(self), r),
            (r, *final(cpu), final(mmu)@) == op_spec(Op::SetBit(Src::A, 2, false), old(self).cycles, *old(cpu), old(mmu)@, args@),
    {
        proof {
            reveal(op_ok);
            reveal(op_spec);
        }
        self.set(cpu, mmu, args, Src::A, 2, false)
    }

    /// RES 3,B
    /// 2 8
    /// - - - -
    fn op_cb98(&mut self, cpu: &mut Cpu, mmu: &mut Mmu, args: &[u8]) -> (r: i16)
        requires
            old(self).cycles <= i16::MAX - 12,
            op_ok(Op::SetBit(Src::B, 3, false), *old(cpu), old(mmu)@, args@),
        ensures
            cycles_reported(*old(self), *final(self), r),
            (r, *final(cpu), final(mmu)@) == op_spec(Op::SetBit(Src::B, 3, false), old(self).cycles, *old(cpu), old(mmu)@, args@),
    {
        proof {
            reveal(op_ok);
            reveal(op_spec);
        }
        self.set(cpu, mmu, args, Src::B, 3, false)
    }

    /// RES 3,C
    /// 2 8
    /// - - - -
    fn op_cb99(&mut self, cpu: &mut Cpu, mmu: &mut Mmu, args: &[u8]) -> (r: i16)
        requires
            old(self).cycles <= i16::MAX - 12,
            op_ok(Op::SetBit(Src::C, 3, false), *old(cpu), old(mmu)@, args@),
        ensures
            cycles_reported(*old(self), *final(self), r),
            (r, *final(cpu), final(mmu)@) == op_spec(Op::SetBit(Src::C, 3, false), old(self).cycles, *old(cpu), old(mmu)@, args@),
    {
        proof {
            reveal(op_ok);
            reveal(op_spec);
        }
        self.set(cpu, mmu, args, Src::C, 3, false)
    }

    /// RES 3,D
    /// 2 8
    /// - - - -
    fn op_cb9a(&mut self, cpu: &mut Cpu, mmu: &mut Mmu, args: &[u8]) -> (r: i16)
        requires
            old(self).cycles <= i16::MAX - 12,
            op_ok(Op::SetBit(Src::D, 3, false), *old(cpu), old(mmu)@, args@),
        ensures
            cycles_reported(*old(self), *final(self), r),
            (r, *final(cpu), final(mmu)@) == op_spec(Op::SetBit(Src::D, 3, false), old(self).cycles, *old(cpu), old(mmu)@, args@),
    {
        proof {
            reveal(op_ok);
            reveal(op_spec);
        }
        self.set(cpu, mmu, args, Src::D, 3, false)
    }

    /// RES 3,E
    /// 2 8
    /// - - - -
    fn op_cb9b(&mut self, cpu: &mut Cpu, mmu: &mut Mmu, args: &[u8]) -> (r: i16)
        requires
            old(self).cycles <= i16::MAX - 12,
            op_ok(Op::SetBit(Src::E, 3, false), *old(cpu), old(mmu)@, args@),
        ensures
            cycles_reported(*old(self), *final(self), r),
            (r, *final(cpu), final(mmu)@) == op_spec(Op::SetBit(Src::E, 3, false), old(self).cycles, *old(cpu), old(mmu)@, args@),
    {
        proof {
            reveal(op_ok);
            reveal(op_spec);
        }
        self.set(cpu, mmu, args, Src::E, 3, false)
    }

    /// RES 3,H
    /// 2 8
    /// - - - -
    fn op_cb9c(&mut self, cpu: &mut Cpu, mmu: &mut Mmu, args: &[u8]) -> (r: i16)
        requires
            old(self).cycles <= i16::MAX - 12,
            op_ok(Op::SetBit(Src::H, 3, false), *old(cpu), old(mmu)@, args@),
        ensures
            cycles_reported(*old(self), *final(self), r),
            (r, *final(cpu), final(mmu)@) == op_spec(Op::SetBit(Src::H, 3, false), old(self).cycles, *old(cpu), old(mmu)@, args@),
    {
        proof {
            reveal(op_ok);
            reveal(op_spec);
        }
        self.set(cpu, mmu, args, Src::H, 3, false)
    }

    /// RES 3,L
    /// 2 8
    /// - - - -
    fn op_cb9d(&mut self, cpu: &mut Cpu, mmu: &mut Mmu, args: &[u8]) -> (r: i16)
        requires
            old(self).cycles <= i16::MAX - 12,
            op_ok(Op::SetBit(Src::L, 3, false), *old(cpu), old(mmu)@, args@),
        ensures
            cycles_reported(*old(self), *final(self), r),
            (r, *final(cpu), final(mmu)@) == op_spec(Op::SetBit(Src::L, 3, false), old(self).cycles, *old(cpu), old(mmu)@, args@),
    {
        proof {
            reveal(op_ok);
            reveal(op_spec);
        }
        self.set(cpu, mmu, args, Src::L, 3, false)
    }

    /// RES 3,(HL)
    /// 2 16
    /// - - - -
    fn op_cb9e(&mut self, cpu: &mut Cpu, mmu: &mut Mmu, args: &[u8]) -> (r: i16)
        requires
            old(self).cycles <= i16::MAX - 12,
            op_ok(Op::SetBit(Src::HLa, 3, false), *old(cpu), old(mmu)@, args@),
        ensures
            cycles_reported(*old(self), *final(self), r),
            (r, *final(cpu), final(mmu)@) == op_spec(Op::SetBit(Src::HLa, 3, false), old(self).cycles, *old(cpu), old(mmu)@, args@),
    {
        proof {
            reveal(op_ok);
            reveal(op_spec);
        }
        self.set(cpu, mmu, args, Src::HLa, 3, false)
    }

    /// RES 3,A
    /// 2 8
    /// - - - -
    fn op_cb9f(&mut self, cpu: &mut Cpu, mmu: &mut Mmu, args: &[u8]) -> (r: i16)
        requires
            old(self).cycles <= i16::MAX - 12,
            op_ok(Op::SetBit(Src::A, 3, false), *old(cpu), old(mmu)@, args@),
        ensures
            cycles_reported(*old(self), *final(self), r),
            (r, *final(cpu), final(mmu)@) == op_spec(Op::SetBit(Src::A, 3, false), old(self).cycles, *old(cpu), old(mmu)@, args@),
    {
        proof {
            reveal(op_ok);
            reveal(op_spec);
        }
        self.set(cpu, mmu, args, Src::A, 3, false)
    }

    /// RES 4,B
    /// 2 8
    /// - - - -
    fn op_cba0(&mut self, cpu: &mut Cpu, mmu: &mut Mmu, args: &[u8]) -> (r: i16)
        requires
            old(self).cycles <= i16::MAX - 12,
            op_ok(Op::SetBit(Src::B, 4, false), *old(cpu), old(mmu)@, args@),
        ensures
            cycles_reported(*old(self), *final(self), r),
            (r, *final(cpu), final(mmu)@) == op_spec(Op::SetBit(Src::B, 4, false), old(self).cycles, *old(cpu), old(mmu)@, args@),
    {
        proof {
            reveal(op_ok);
            reveal(op_spec);
        }
        self.set(cpu, mmu, args, Src::B, 4, false)
    }

    /// RES 4,C
    /// 2 8
    /// - - - -
    fn op_cba1(&mut self, cpu: &mut Cpu, mmu: &mut Mmu, args: &[u8]) -> (r: i16)
        requires
            old(self).cycles <= i16::MAX - 12,
            op_ok(Op::SetBit(Src::C, 4, false), *old(cpu), old(mmu)@, args@),
        ensures
            cycles_reported(*old(self), *final(self), r),
            (r, *final(cpu), final(mmu)@) == op_spec(Op::SetBit(Src::C, 4, false), old(self).cycles, *old(cpu), old(mmu)@, args@),
    {
        proof {
            reveal(op_ok);
            reveal(op_spec);
        }
        self.set(cpu, mmu, args, Src::C, 4, false)
    }

    /// RES 4,D
    /// 2 8
    /// - - - -
    fn op_cba2(&mut self, cpu: &mut Cpu, mmu: &mut Mmu, args: &[u8]) -> (r: i16)
        requires
            old(self).cycles <= i16::MAX - 12,
            op_ok(Op::SetBit(Src::D, 4, false), *old(cpu), old(mmu)@, args@),
        ensures
            cycles_reported(*old(self), *final(self), r),
            (r, *final(cpu), final(mmu)@) == op_spec(Op::SetBit(Src::D, 4, false), old(self).cycles, *old(cpu), old(mmu)@, args@),
    {
        proof {
            reveal(op_ok);
            reveal(op_spec);
        }
        self.set(cpu, mmu, args, Src::D, 4, false)
    }

    /// RES 4,E
    /// 2 8
    /// - - - -
    fn op_cba3(&mut self, cpu: &mut Cpu, mmu: &mut Mmu, args: &[u8]) -> (r: i16)
        requires
            old(self).cycles <= i16::MAX - 12,
            op_ok(Op::SetBit(Src::E, 4, false), *old(cpu), old(mmu)@, args@),
        ensures
            cycles_reported(*old(self), *final(self), r),
            (r, *final(cpu), final(mmu)@) == op_spec(Op::SetBit(Src::E, 4, false), old(self).cycles, *old(cpu), old(mmu)@, args@),
    {
        proof {
            reveal(op_ok);
            reveal(op_spec);
        }
        self.set(cpu, mmu, args, Src::E, 4, false)
    }

    /// RES 4,H
    /// 2 8
    /// - - - -
    fn op_cba4(&mut self, cpu: &mut Cpu, mmu: &mut Mmu, args: &[u8]) -> (r: i16)
        requires
            old(self).cycles <= i16::MAX - 12,
            op_ok(Op::SetBit(Src::H, 4, false), *old(cpu), old(mmu)@, args@),
        ensures
            cycles_reported(*old(self), *final(self), r),
            (r, *final(cpu), final(mmu)@) == op_spec(Op::SetBit(Src::H, 4, false), old(self).cycles, *old(cpu), old(mmu)@, args@),
    {
        proof {
            reveal(op_ok);
            reveal(op_spec);
        }
        self.set(cpu, mmu, args, Src::H, 4, false)
    }

    /// RES 4,L
    /// 2 8
    /// - - - -
    fn op_cba5(&mut self, cpu: &mut Cpu, mmu: &mut Mmu, args: &[u8]) -> (r: i16)
        requires
            old(self).cycles <= i16::MAX - 12,
            op_ok(Op::SetBit(Src::L, 4, false), *old(cpu), old(mmu)@, args@),
        ensures
            cycles_reported(*old(self), *final(self), r),
            (r, *final(cpu), final(mmu)@) == op_spec(Op::SetBit(Src::L, 4, false), old(self).cycles, *old(cpu), old(mmu)@, args@),
    {
        proof {
            reveal(op_ok);
            reveal(op_spec);
        }
        self.set(cpu, mmu, args, Src::L, 4, false)
    }

    /// RES 4,(HL)
    /// 2 16
    /// - - - -
    fn op_cba6(&mut self, cpu: &mut Cpu, mmu: &mut Mmu, args: &[u8]) -> (r: i16)
        requires
            old(self).cycles <= i16::MAX - 12,
            op_ok(Op::SetBit(Src::HLa, 4, false), *old(cpu), old(mmu)@, args@),
        ensures
            cycles_reported(*old(self), *final(self), r),
            (r, *final(cpu), final(mmu)@) == op_spec(Op::SetBit(Src::HLa, 4, false), old(self).cycles, *old(cpu), old(mmu)@, args@),
    {
        proof {
            reveal(op_ok);
            reveal(op_spec);
        }
        self.set(cpu, mmu, args, Src::HLa, 4, false)
    }

    /// RES 4,A
    /// 2 8
    /// - - - -
    fn op_cba7(&mut self, cpu: &mut Cpu, mmu: &mut Mmu, args: &[u8]) -> (r: i16)
        requires
            old(self).cycles <= i16::MAX - 12,
            op_ok(Op::SetBit(Src::A, 4, false), *old(cpu), old(mmu)@, args@),
        ensures
            cycles_reported(*old(self), *final(self), r),
            (r, *final(cpu), final(mmu)@) == op_spec(Op::SetBit(Src::A, 4, false), old(self).cycles, *old(cpu), old(mmu)@, args@),
    {
        proof {
            reveal(op_ok);
            reveal(op_spec);
        }
        self.set(cpu, mmu, args, Src::A, 4, false)
    }

    /// RES 5,B
    /// 2 8
    /// - - - -
    fn op_cba8(&mut self, cpu: &mut Cpu, mmu: &mut Mmu, args: &[u8]) -> (r: i16)
        requires
            old(self).cycles <= i16::MAX - 12,
            op_ok(Op::SetBit(Src::B, 5, false), *old(cpu), old(mmu)@, args@),
        ensures
            cycles_reported(*old(self), *final(self), r),
            (r, *final(cpu), final(mmu)@) == op_spec(Op::SetBit(Src::B, 5, false), old(self).cycles, *old(cpu), old(mmu)@, args@),
    {
        proof {
            reveal(op_ok);
            reveal(op_spec);
        }
        self.set(cpu, mmu, args, Src::B, 5, false)
    }

    /// RES 5,C
    /// 2 8
    /// - - - -
    fn op_cba9(&mut self, cpu: &mut Cpu, mmu: &mut Mmu, args: &[u8]) -> (r: i16)
        requires
            old(self).cycles <= i16::MAX - 12,
            op_ok(Op::SetBit(Src::C, 5, false), *old(cpu), old(mmu)@, args@),
        ensures
            cycles_reported(*old(self), *final(self), r),
            (r, *final(cpu), final(mmu)@) == op_spec(Op::SetBit(Src::C, 5, false), old(self).cycles, *old(cpu), old(mmu)@, args@),
    {
        proof {
            reveal(op_ok);
            reveal(op_spec);
        }
        self.set(cpu, mmu, args, Src::C, 5, false)
    }

    /// RES 5,D
    /// 2 8
    /// - - - -
    fn op_cbaa(&mut self, cpu: &mut Cpu, mmu: &mut Mmu, args: &[u8]) -> (r: i16)
        requires
            old(self).cycles <= i16::MAX - 12,
            op_ok(Op::SetBit(Src::D, 5, false), *old(cpu), old(mmu)@, args@),
        ensures
            cycles_reported(*old(self), *final(self), r),
            (r, *final(cpu), final(mmu)@) == op_spec(Op::SetBit(Src::D, 5, false), old(self).cycles, *old(cpu), old(mmu)@, args@),
    {
        proof {
            reveal(op_ok);
            reveal(op_spec);
        }
        self.set(cpu, mmu, args, Src::D, 5, false)
    }

    /// RES 5,E
    /// 2 8
    /// - - - -
    fn op_cbab(&mut self, cpu: &mut Cpu, mmu: &mut Mmu, args: &[u8]) -> (r: i16)
        requires
            old(self).cycles <= i16::MAX - 12,
            op_ok(Op::SetBit(Src::E, 5, false), *old(cpu), old(mmu)@, args@),
        ensures
            cycles_reported(*old(self), *final(self), r),
            (r, *final(cpu), final(mmu)@) == op_spec(Op::SetBit(Src::E, 5, false), old(self).cycles, *old(cpu), old(mmu)@, args@),
    {
        proof {
            reveal(op_ok);
            reveal(op_spec);
        }
        self.set(cpu, mmu, args, Src::E, 5, false)
    }

    /// RES 5,H
    /// 2 8
    /// - - - -
    fn op_cbac(&mut self, cpu: &mut Cpu, mmu: &mut Mmu, args: &[u8]) -> (r: i16)
        requires
            old(self).cycles <= i16::MAX - 12,
            op_ok(Op::SetBit(Src::H, 5, false), *old(cpu), old(mmu)@, args@),
        ensures
            cycles_reported(*old(self), *final(self), r),
            (r, *final(cpu), final(mmu)@) == op_spec(Op::SetBit(Src::H, 5, false), old(self).cycles, *old(cpu), old(mmu)@, args@),
    {
        proof {
            reveal(op_ok);
            reveal(op_spec);
        }
        self.set(cpu, mmu, args, Src::H, 5, false)
    }

    /// RES 5,L
    /// 2 8
    /// - - - -
    fn op_cbad(&mut self, cpu: &mut Cpu, mmu: &mut Mmu, args: &[u8]) -> (r: i16)
        requires
            old(self).cycles <= i16::MAX - 12,
            op_ok(Op::SetBit(Src::L, 5, false), *old(cpu), old(mmu)@, args@),
        ensures
            cycles_reported(*old(self), *final(self), r),
            (r, *final(cpu), final(mmu)@) == op_spec(Op::SetBit(Src::L, 5, false), old(self).cycles, *old(cpu), old(mmu)@, args@),
    {
        proof {
            reveal(op_ok);
            reveal(op_spec);
        }
        self.set(cpu, mmu, args, Src::L, 5, false)
    }

    /// RES 5,(HL)
    /// 2 16
    /// - - - -
    fn op_cbae(&mut self, cpu: &mut Cpu, mmu: &mut Mmu, args: &[u8]) -> (r: i16)
        requires
            old(self).cycles <= i16::MAX - 12,
            op_ok(Op::SetBit(Src::HLa, 5, false), *old(cpu), old(mmu)@, args@),
        ensures
            cycles_reported(*old(self), *final(self), r),
            (r, *final(cpu), final(mmu)@) == op_spec(Op::SetBit(Src::HLa, 5, false), old(self).cycles, *old(cpu), old(mmu)@, args@),
    {
        proof {
            reveal(op_ok);
            reveal(op_spec);
        }
        self.set(cpu, mmu, args, Src::HLa, 5, false)
    }

    /// RES 5,A
    /// 2 8
    /// - - - -
    fn op_cbaf(&mut self, cpu: &mut Cpu, mmu: &mut Mmu, args: &[u8]) -> (r: i16)
        requires
            old(self).cycles <= i16::MAX - 12,
            op_ok(Op::SetBit(Src::A, 5, false), *old(cpu), old(mmu)@, args@),
        ensures
            cycles_reported(*old(self), *final(self), r),
            (r, *final(cpu), final(mmu)@) == op_spec(Op::SetBit(Src::A, 5, false), old(self).cycles, *old(cpu), old(mmu)@, args@),
    {
        proof {
            reveal(op_ok);
            reveal(op_spec);
        }
        self.set(cpu, mmu, args, Src::A, 5, false)
    }

    /// RES 6,B
    /// 2 8
    /// - - - -
    fn op_cbb0(&mut self, cpu: &mut Cpu, mmu: &mut Mmu, args: &[u8]) -> (r: i16)
        requires
            old(self).cycles <= i16::MAX - 12,
            op_ok(Op::SetBit(Src::B, 6, false), *old(cpu), old(mmu)@, args@),
        ensures
            cycles_reported(*old(self), *final(self), r),
            (r, *final(cpu), final(mmu)@) == op_spec(Op::SetBit(Src::B, 6, false), old(self).cycles, *old(cpu), old(mmu)@, args@),
    {
        proof {
            reveal(op_ok);
            reveal(op_spec);
        }
        self.set(cpu, mmu, args, Src::B, 6, false)
    }

    /// RES 6,C
    /// 2 8
    /// - - - -
    fn op_cbb1(&mut self, cpu: &mut Cpu, mmu: &mut Mmu, args: &[u8]) -> (r: i16)
        requires
            old(self).cycles <= i16::MAX - 12,
            op_ok(Op::SetBit(Src::C, 6, false), *old(cpu), old(mmu)@, args@),
        ensures
            cycles_reported(*old(self), *final(self), r),
            (r, *final(cpu), final(mmu)@) == op_spec(Op::SetBit(Src::C, 6, false), old(self).cycles, *old(cpu), old(mmu)@, args@),
    {
        proof {
            reveal(op_ok);
            reveal(op_spec);
        }
        self.set(cpu, mmu, args, Src::C, 6, false)
    }

    /// RES 6,D
    /// 2 8
    /// - - - -
    fn op_cbb2(&mut self, cpu: &mut Cpu, mmu: &mut Mmu, args: &[u8]) -> (r: i16)
        requires
            old(self).cycles <= i16::MAX - 12,
            op_ok(Op::SetBit(Src::D, 6, false), *old(cpu), old(mmu)@, args@),
        ensures
            cycles_reported(*old(self), *final(self), r),
            (r, *final(cpu), final(mmu)@) == op_spec(Op::SetBit(Src::D, 6, false), old(self).cycles, *old(cpu), old(mmu)@, args@),
    {
        proof {
            reveal(op_ok);
            reveal(op_spec);
        }
        self.set(cpu, mmu, args, Src::D, 6, false)
    }

    /// RES 6,E
    /// 2 8
    /// - - - -
    fn op_cbb3(&mut self, cpu: &mut Cpu, mmu: &mut Mmu, args: &[u8]) -> (r: i16)
        requires
            old(self).cycles <= i16::MAX - 12,
            op_ok(Op::SetBit(Src::E, 6, false), *old(cpu), old(mmu)@, args@),
        ensures
            cycles_reported(*old(self), *final(self), r),
            (r, *final(cpu), final(mmu)@) == op_spec(Op::SetBit(Src::E, 6, false), old(self).cycles, *old(cpu), old(mmu)@, args@),
    {
        proof {
            reveal(op_ok);
            reveal(op_spec);
        }
        self.set(cpu, mmu, args, Src::E, 6, false)
    }

    /// RES 6,H
    /// 2 8
    /// - - - -
    fn op_cbb4(&mut self, cpu: &mut Cpu, mmu: &mut Mmu, args: &[u8]) -> (r: i16)
        requires
            old(self).cycles <= i16::MAX - 12,
            op_ok(Op::SetBit(Src::H, 6, false), *old(cpu), old(mmu)@, args@),
        ensures
            cycles_reported(*old(self), *final(self), r),
            (r, *final(cpu), final(mmu)@) == op_spec(Op::SetBit(Src::H, 6, false), old(self).cycles, *old(cpu), old(mmu)@, args@),
    {
        proof {
            reveal(op_ok);
            reveal(op_spec);
        }
        self.set(cpu, mmu, args, Src::H, 6, false)
    }

    /// RES 6,L
    /// 2 8
    /// - - - -
    fn op_cbb5(&mut self, cpu: &mut Cpu, mmu: &mut Mmu, args: &[u8]) -> (r: i16)
        requires
            old(self).cycles <= i16::MAX - 12,
            op_ok(Op::SetBit(Src::L, 6, false), *old(cpu), old(mmu)@, args@),
        ensures
            cycles_reported(*old(self), *final(self), r),
            (r, *final(cpu), final(mmu)@) == op_spec(Op::SetBit(Src::L, 6, false), old(self).cycles, *old(cpu), old(mmu)@, args@),
    {
        proof {
            reveal(op_ok);
            reveal(op_spec);
        }
        self.set(cpu, mmu, args, Src::L, 6, false)
    }

    /// RES 6,(HL)
    /// 2 16
    /// - - - -
    fn op_cbb6(&mut self, cpu: &mut Cpu, mmu: &mut Mmu, args: &[u8]) -> (r: i16)
        requires
            old(self).cycles <= i16::MAX - 12,
            op_ok(Op::SetBit(Src::HLa, 6, false), *old(cpu), old(mmu)@, args@),
        ensures
            cycles_reported(*old(self), *final(self), r),
            (r, *final(cpu), final(mmu)@) == op_spec(Op::SetBit(Src::HLa, 6, false), old(self).cycles, *old(cpu), old(mmu)@, args@),
    {
        proof {
            reveal(op_ok);
            reveal(op_spec);
        }
        self.set(cpu, mmu, args, Src::HLa, 6, false)
    }

    /// RES 6,A
    /// 2 8
    /// - - - -
    fn op_cbb7(&mut self, cpu: &mut Cpu, mmu: &mut Mmu, args: &[u8]) -> (r: i16)
        requires
            old(self).cycles <= i16::MAX - 12,
            op_ok(Op::SetBit(Src::A, 6, false), *old(cpu), old(mmu)@, args@),
        ensures
            cycles_reported(*old(self), *final(self), r),
            (r, *final(cpu), final(mmu)@) == op_spec(Op::SetBit(Src::A, 6, false), old(self).cycles, *old(cpu), old(mmu)@, args@),
    {
        proof {
            reveal(op_ok);
            reveal(op_spec);
        }
        self.set(cpu, mmu, args, Src::A, 6, false)
    }

    /// RES 7,B
    /// 2 8
    /// - - - -
    fn op_cbb8(&mut self, cpu: &mut Cpu, mmu: &mut Mmu, args: &[u8]) -> (r: i16)
        requires
            old(self).cycles <= i16::MAX - 12,
            op_ok(Op::SetBit(Src::B, 7, false), *old(cpu), old(mmu)@, args@),
        ensures
            cycles_reported(*old(self), *final(self), r),
            (r, *final(cpu), final(mmu)@) == op_spec(Op::SetBit(Src::B, 7, false), old(self).cycles, *old(cpu), old(mmu)@, args@),
    {
        proof {
            reveal(op_ok);
            reveal(op_spec);
        }
        self.set(cpu, mmu, args, Src::B, 7, false)
    }

    /// RES 7,C
    /// 2 8
    /// - - - -
    fn op_cbb9(&mut self, cpu: &mut Cpu, mmu: &mut Mmu, args: &[u8]) -> (r: i16)
        requires
            old(self).cycles <= i16::MAX - 12,
            op_ok(Op::SetBit(Src::C, 7, false), *old(cpu), old(mmu)@, args@),
        ensures
            cycles_reported(*old(self), *final(self), r),
            (r, *final(cpu), final(mmu)@) == op_spec(Op::SetBit(Src::C, 7, false), old(self).cycles, *old(cpu), old(mmu)@, args@),
    {
        proof {
            reveal(op_ok);
            reveal(op_spec);
        }
        self.set(cpu, mmu, args, Src::C, 7, false)
    }

    /// RES 7,D
    /// 2 8
    /// - - - -
    fn op_cbba(&mut self, cpu: &mut Cpu, mmu: &mut Mmu, args: &[u8]) -> (r: i16)
        requires
            old(self).cycles <= i16::MAX - 12,
            op_ok(Op::SetBit(Src::D, 7, false), *old(cpu), old(mmu)@, args@),
        ensures
            cycles_reported(*old(self), *final(self), r),
            (r, *final(cpu), final(mmu)@) == op_spec(Op::SetBit(Src::D, 7, false), old(self).cycles, *old(cpu), old(mmu)@, args@),
    {
        proof {
            reveal(op_ok);
            reveal(op_spec);
        }
        self.set(cpu, mmu, args, Src::D, 7, false)
    }

    /// RES 7,E
    /// 2 8
    /// - - - -
    fn op_cbbb(&mut self, cpu: &mut Cpu, mmu: &mut Mmu, args: &[u8]) -> (r: i16)
        requires
            old(self).cycles <= i16::MAX - 12,
            op_ok(Op::SetBit(Src::E, 7, false), *old(cpu), old(mmu)@, args@),
        ensures
            cycles_reported(*old(self), *final(self), r),
            (r, *final(cpu), final(mmu)@) == op_spec(Op::SetBit(Src::E, 7, false), old(self).cycles, *old(cpu), old(mmu)@, args@),
    {
        proof {
            reveal(op_ok);
            reveal(op_spec);
        }
        self.set(cpu, mmu, args, Src::E, 7, false)
    }

    /// RES 7,H
    /// 2 8
    /// - - - -
    fn op_cbbc(&mut self, cpu: &mut Cpu, mmu: &mut Mmu, args: &[u8]) -> (r: i16)
        requires
            old(self).cycles <= i16::MAX - 12,
            op_ok(Op::SetBit(Src::H, 7, false), *old(cpu), old(mmu)@, args@),
        ensures
            cycles_reported(*old(self), *final(self), r),
            (r, *final(cpu), final(mmu)@) == op_spec(Op::SetBit(Src::H, 7, false), old(self).cycles, *old(cpu), old(mmu)@, args@),
    {
        proof {
            reveal(op_ok);
            reveal(op_spec);
        }
        self.set(cpu, mmu, args, Src::H, 7, false)
    }

    /// RES 7,L
    /// 2 8
    /// - - - -
    fn op_cbbd(&mut self, cpu: &mut Cpu, mmu: &mut Mmu, args: &[u8]) -> (r: i16)
        requires
            old(self).cycles <= i16::MAX - 12,
            op_ok(Op::SetBit(Src::L, 7, false), *old(cpu), old(mmu)@, args@),
        ensures
            cycles_reported(*old(self), *final(self), r),
            (r, *final(cpu), final(mmu)@) == op_spec(Op::SetBit(Src::L, 7, false), old(self).cycles, *old(cpu), old(mmu)@, args@),
    {
        proof {
            reveal(op_ok);
            reveal(op_spec);
        }
        self.set(cpu, mmu, args, Src::L, 7, false)
    }

    /// RES 7,(HL)
    /// 2 16
    /// - - - -
    fn op_cbbe(&mut self, cpu: &mut Cpu, mmu: &mut Mmu, args: &[u8]) -> (r: i16)
        requires
            old(self).cycles <= i16::MAX - 12,
            op_ok(Op::SetBit(Src::HLa, 7, false), *old(cpu), old(mmu)@, args@),
        ensures
            cycles_reported(*old(self), *final(self), r),
            (r, *final(cpu), final(mmu)@) == op_spec(Op::SetBit(Src::HLa, 7, false), old(self).cycles, *old(cpu), old(mmu)@, args@),
    {
        proof {
            reveal(op_ok);
            reveal(op_spec);
        }
        self.set(cpu, mmu, args, Src::HLa, 7, false)
    }

    /// RES 7,A
    /// 2 8
    /// - - - -
    fn op_cbbf(&mut self, cpu: &mut Cpu, mmu: &mut Mmu, args: &[u8]) -> (r: i16)
        requires
            old(self).cycles <= i16::MAX - 12,
            op_ok(Op::SetBit(Src::A, 7, false), *old(cpu), old(mmu)@, args@),
        ensures
            cycles_reported(*old(self), *final(self), r),
            (r, *final(cpu), final(mmu)@) == op_spec(Op::SetBit(Src::A, 7, false), old(self).cycles, *old(cpu), old(mmu)@, args@),
    {
        proof {
            reveal(op_ok);
            reveal(op_spec);
        }
        self.set(cpu, mmu, args, Src::A, 7, false)
    }

    /// SET 0,B
    /// 2 8
    /// - - - -
    fn op_cbc0(&mut self, cpu: &mut Cpu, mmu: &mut Mmu, args: &[u8]) -> (r: i16)
        requires
            old(self).cycles <= i16::MAX - 12,
            op_ok(Op::SetBit(Src::B, 0, true), *old(cpu), old(mmu)@, args@),
        ensures
            cycles_reported(*old(self), *final(self), r),
            (r, *final(cpu), final(mmu)@) == op_spec(Op::SetBit(Src::B, 0, true), old(self).cycles, *old(cpu), old(mmu)@, args@),
    {
        proof {
            reveal(op_ok);
            reveal(op_spec);
        }
        self.set(cpu, mmu, args, Src::B, 0, true)
    }

    /// SET 0,C
    /// 2 8
    /// - - - -
    fn op_cbc1(&mut self, cpu: &mut Cpu, mmu: &mut Mmu, args: &[u8]) -> (r: i16)
        requires
            old(self).cycles <= i16::MAX - 12,
            op_ok(Op::SetBit(Src::C, 0, true), *old(cpu), old(mmu)@, args@),
        ensures
            cycles_reported(*old(self), *final(self), r),
            (r, *final(cpu), final(mmu)@) == op_spec(Op::SetBit(Src::C, 0, true), old(self).cycles, *old(cpu), old(mmu)@, args@),
    {
        proof {
            reveal(op_ok);
            reveal(op_spec);
        }
        self.set(cpu, mmu, args, Src::C, 0, true)
    }

    /// SET 0,D
    /// 2 8
    /// - - - -
    fn op_cbc2(&mut self, cpu: &mut Cpu, mmu: &mut Mmu, args: &[u8]) -> (r: i16)
        requires
            old(self).cycles <= i16::MAX - 12,
            op_ok(Op::SetBit(Src::D, 0, true), *old(cpu), old(mmu)@, args@),
        ensures
            cycles_reported(*old(self), *final(self), r),
            (r, *final(cpu), final(mmu)@) == op_spec(Op::SetBit(Src::D, 0, true), old(self).cycles, *old(cpu), old(mmu)@, args@),
    {
        proof {
            reveal(op_ok);
            reveal(op_spec);
        }
        self.set(cpu, mmu, args, Src::D, 0, true)
    }

    /// SET 0,E
    /// 2 8
    /// - - - -
    fn op_cbc3(&mut self, cpu: &mut Cpu, mmu: &mut Mmu, args: &[u8]) -> (r: i16)
        requires
            old(self).cycles <= i16::MAX - 12,
            op_ok(Op::SetBit(Src::E, 0, true), *old(cpu), old(mmu)@, args@),
        ensures
            cycles_reported(*old(self), *final(self), r),
            (r, *final(cpu), final(mmu)@) == op_spec(Op::SetBit(Src::E, 0, true), old(self).cycles, *old(cpu), old(mmu)@, args@),
    {
        proof {
            reveal(op_ok);
            reveal(op_spec);
        }
        self.set(cpu, mmu, args, Src::E, 0, true)
    }

    /// SET 0,H
    /// 2 8
    /// - - - -
    fn op_cbc4(&mut self, cpu: &mut Cpu, mmu: &mut Mmu, args: &[u8]) -> (r: i16)
        requires
            old(self).cycles <= i16::MAX - 12,
            op_ok(Op::SetBit(Src::H, 0, true), *old(cpu), old(mmu)@, args@),
        ensures
            cycles_reported(*old(self), *final(self), r),
            (r, *final(cpu), final(mmu)@) == op_spec(Op::SetBit(Src::H, 0, true), old(self).cycles, *old(cpu), old(mmu)@, args@),
    {
        proof {
            reveal(op_ok);
            reveal(op_spec);
        }
        self.set(cpu, mmu, args, Src::H, 0, true)
    }

    /// SET 0,L
    /// 2 8
    /// - - - -
    fn op_cbc5(&mut self, cpu: &mut Cpu, mmu: &mut Mmu, args: &[u8]) -> (r: i16)
        requires
            old(self).cycles <= i16::MAX - 12,
            op_ok(Op::SetBit(Src::L, 0, true), *old(cpu), old(mmu)@, args@),
        ensures
            cycles_reported(*old(self), *final(self), r),
            (r, *final(cpu), final(mmu)@) == op_spec(Op::SetBit(Src::L, 0, true), old(self).cycles, *old(cpu), old(mmu)@, args@),
    {
        proof {
            reveal(op_ok);
            reveal(op_spec);
        }
        self.set(cpu, mmu, args, Src::L, 0, true)
    }

    /// SET 0,(HL)
    /// 2 16
    /// - - - -
    fn op_cbc6(&mut self, cpu: &mut Cpu, mmu: &mut Mmu, args: &[u8]) -> (r: i16)
        requires
            old(self).cycles <= i16::MAX - 12,
            op_ok(Op::SetBit(Src::HLa, 0, true), *old(cpu), old(mmu)@, args@),
        ensures
            cycles_reported(*old(self), *final(self), r),
            (r, *final(cpu), final(mmu)@) == op_spec(Op::SetBit(Src::HLa, 0, true), old(self).cycles, *old(cpu), old(mmu)@, args@),
    {
        proof {
            reveal(op_ok);
            reveal(op_spec);
        }
        self.set(cpu, mmu, args, Src::HLa, 0, true)
    }

    /// SET 0,A
    /// 2 8
    /// - - - -
    fn op_cbc7(&mut self, cpu: &mut Cpu, mmu: &mut Mmu, args: &[u8]) -> (r: i16)
        requires
            old(self).cycles <= i16::MAX - 12,
            op_ok(Op::SetBit(Src::A, 0, true), *old(cpu), old(mmu)@, args@),
        ensures
            cycles_reported(*old(self), *final(self), r),
            (r, *final(cpu), final(mmu)@) == op_spec(Op::SetBit(Src::A, 0, true), old(self).cycles, *old(cpu), old(mmu)@, args@),
    {
        proof {
            reveal(op_ok);
            reveal(op_spec);
        }
        self.set(cpu, mmu, args, Src::A, 0, true)
    }

    /// SET 1,B
    /// 2 8
    /// - - - -
    fn op_cbc8(&mut self, cpu: &mut Cpu, mmu: &mut Mmu, args: &[u8]) -> (r: i16)
        requires
            old(self).cycles <= i16::MAX - 12,
            op_ok(Op::SetBit(Src::B, 1, true), *old(cpu), old(mmu)@, args@),
        ensures
            cycles_reported(*old(self), *final(self), r),
            (r, *final(cpu), final(mmu)@) == op_spec(Op::SetBit(Src::B, 1, true), old(self).cycles, *old(cpu), old(mmu)@, args@),
    {
        proof {
            reveal(op_ok);
            reveal(op_spec);
        }
        self.set(cpu, mmu, args, Src::B, 1, true)
    }

    /// SET 1,C
    /// 2 8
    /// - - - -
    fn op_cbc9(&mut self, cpu: &mut Cpu, mmu: &mut Mmu, args: &[u8]) -> (r: i16)
        requires
            old(self).cycles <= i16::MAX - 12,
            op_ok(Op::SetBit(Src::C, 1, true), *old(cpu), old(mmu)@, args@),
        ensures
            cycles_reported(*old(self), *final(self), r),
            (r, *final(cpu), final(mmu)@) == op_spec(Op::SetBit(Src::C, 1, true), old(self).cycles, *old(cpu), old(mmu)@, args@),
    {
        proof {
            reveal(op_ok);
            reveal(op_spec);
        }
        self.set(cpu, mmu, args, Src::C, 1, true)
    }

    /// SET 1,D
    /// 2 8
    /// - - - -
    fn op_cbca(&mut self, cpu: &mut Cpu, mmu: &mut Mmu, args: &[u8]) -> (r: i16)
        requires
            old(self).cycles <= i16::MAX - 12,
            op_ok(Op::SetBit(Src::D, 1, true), *old(cpu), old(mmu)@, args@),
        ensures
            cycles_reported(*old(self), *final(self), r),
            (r, *final(cpu), final(mmu)@) == op_spec(Op::SetBit(Src::D, 1, true), old(self).cycles, *old(cpu), old(mmu)@, args@),
    {
        proof {
            reveal(op_ok);
            reveal(op_spec);
        }
        self.set(cpu, mmu, args, Src::D, 1, true)
    }

    /// SET 1,E
    /// 2 8
    /// - - - -
    fn op_cbcb(&mut self, cpu: &mut Cpu, mmu: &mut Mmu, args: &[u8]) -> (r: i16)
        requires
            old(self).cycles <= i16::MAX - 12,
            op_ok(Op::SetBit(Src::E, 1, true), *old(cpu), old(mmu)@, args@),
        ensures
            cycles_reported(*old(self), *final(self), r),
            (r, *final(cpu), final(mmu)@) == op_spec(Op::SetBit(Src::E, 1, true), old(self).cycles, *old(cpu), old(mmu)@, args@),
    {
        proof {
            reveal(op_ok);
            reveal(op_spec);
        }
        self.set(cpu, mmu, args, Src::E, 1, true)
    }

    /// SET 1,H
    /// 2 8
    /// - - - -
    fn op_cbcc(&mut self, cpu: &mut Cpu, mmu: &mut Mmu, args: &[u8]) -> (r: i16)
        requires
            old(self).cycles <= i16::MAX - 12,
            op_ok(Op::SetBit(Src::H, 1, true), *old(cpu), old(mmu)@, args@),
        ensures
            cycles_reported(*old(self), *final(self), r),
            (r, *final(cpu), final(mmu)@) == op_spec(Op::SetBit(Src::H, 1, true), old(self).cycles, *old(cpu), old(mmu)@, args@),
    {
        proof {
            reveal(op_ok);
            reveal(op_spec);
        }
        self.set(cpu, mmu, args, Src::H, 1, true)
    }

    /// SET 1,L
    /// 2 8
    /// - - - -
    fn op_cbcd(&mut self, cpu: &mut Cpu, mmu: &mut Mmu, args: &[u8]) -> (r: i16)
        requires
            old(self).cycles <= i16::MAX - 12,
            op_ok(Op::SetBit(Src::L, 1, true), *old(cpu), old(mmu)@, args@),
        ensures
            cycles_reported(*old(self), *final(self), r),
            (r, *final(cpu), final(mmu)@) == op_spec(Op::SetBit(Src::L, 1, true), old(self).cycles, *old(cpu), old(mmu)@, args@),
    {
        proof {
            reveal(op_ok);
            reveal(op_spec);
        }
        self.set(cpu, mmu, args, Src::L, 1, true)
    }

    /// SET 1,(HL)
    /// 2 16
    /// - - - -
    fn op_cbce(&mut self, cpu: &mut Cpu, mmu: &mut Mmu, args: &[u8]) -> (r: i16)
        requires
            old(self).cycles <= i16::MAX - 12,
            op_ok(Op::SetBit(Src::HLa, 1, true), *old(cpu), old(mmu)@, args@),
        ensures
            cycles_reported(*old(self), *final(self), r),
            (r, *final(cpu), final(mmu)@) == op_spec(Op::SetBit(Src::HLa, 1, true), old(self).cycles, *old(cpu), old(mmu)@, args@),
    {
        proof {
            reveal(op_ok);
            reveal(op_spec);
        }
        self.set(cpu, mmu, args, Src::HLa, 1, true)
    }

    /// SET 1,A
    /// 2 8
    /// - - - -
    fn op_cbcf(&mut self, cpu: &mut Cpu, mmu: &mut Mmu, args: &[u8]) -> (r: i16)
        requires
            old(self).cycles <= i16::MAX - 12,
            op_ok(Op::SetBit(Src::A, 1, true), *old(cpu), old(mmu)@, args@),
        ensures
            cycles_reported(*old(self), *final(self), r),
            (r, *final(cpu), final(mmu)@) == op_spec(Op::SetBit(Src::A, 1, true), old(self).cycles, *old(cpu), old(mmu)@, args@),
    {
        proof {
            reveal(op_ok);
            reveal(op_spec);
        }
        self.set(cpu, mmu, args, Src::A, 1, true)
    }

    /// SET 2,B
    /// 2 8
    /// - - - -
    fn op_cbd0(&mut self, cpu: &mut Cpu, mmu: &mut Mmu, args: &[u8]) -> (r: i16)
        requires
            old(self).cycles <= i16::MAX - 12,
            op_ok(Op::SetBit(Src::B, 2, true), *old(cpu), old(mmu)@, args@),
        ensures
            cycles_reported(*old(self), *final(self), r),
            (r, *final(cpu), final(mmu)@) == op_spec(Op::SetBit(Src::B, 2, true), old(self).cycles, *old(cpu), old(mmu)@, args@),
    {
        proof {
            reveal(op_ok);
            reveal(op_spec);
        }
        self.set(cpu, mmu, args, Src::B, 2, true)
    }

    /// SET 2,C
    /// 2 8
    /// - - - -
    fn op_cbd1(&mut self, cpu: &mut Cpu, mmu: &mut Mmu, args: &[u8]) -> (r: i16)
        requires
            old(self).cycles <= i16::MAX - 12,
            op_ok(Op::SetBit(Src::C, 2, true), *old(cpu), old(mmu)@, args@),
        ensures
            cycles_reported(*old(self), *final(self), r),
            (r, *final(cpu), final(mmu)@) == op_spec(Op::SetBit(Src::C, 2, true), old(self).cycles, *old(cpu), old(mmu)@, args@),
    {
        proof {
            reveal(op_ok);
            reveal(op_spec);
        }
        self.set(cpu, mmu, args, Src::C, 2, true)
    }

    /// SET 2,D
    /// 2 8
    /// - - - -
    fn op_cbd2(&mut self, cpu: &mut Cpu, mmu: &mut Mmu, args: &[u8]) -> (r: i16)
        requires
            old(self).cycles <= i16::MAX - 12,
            op_ok(Op::SetBit(Src::D, 2, true), *old(cpu), old(mmu)@, args@),
        ensures
            cycles_reported(*old(self), *final(self), r),
            (r, *final(cpu), final(mmu)@) == op_spec(Op::SetBit(Src::D, 2, true), old(self).cycles, *old(cpu), old(mmu)@, args@),
    {
        proof {
            reveal(op_ok);
            reveal(op_spec);
        }
        self.set(cpu, mmu, args, Src::D, 2, true)
    }

    /// SET 2,E
    /// 2 8
    /// - - - -
    fn op_cbd3(&mut self, cpu: &mut Cpu, mmu: &mut Mmu, args: &[u8]) -> (r: i16)
        requires
            old(self).cycles <= i16::MAX - 12,
            op_ok(Op::SetBit(Src::E, 2, true), *old(cpu), old(mmu)@, args@),
        ensures
            cycles_reported(*old(self), *final(self), r),
            (r, *final(cpu), final(mmu)@) == op_spec(Op::SetBit(Src::E, 2, true), old(self).cycles, *old(cpu), old(mmu)@, args@),
    {
        proof {
            reveal(op_ok);
            reveal(op_spec);
        }
        self.set(cpu, mmu, args, Src::E, 2, true)
    }

    /// SET 2,H
    /// 2 8
    /// - - - -
    fn op_cbd4(&mut self, cpu: &mut Cpu, mmu: &mut Mmu, args: &[u8]) -> (r: i16)
        requires
            old(self).cycles <= i16::MAX - 12,
            op_ok(Op::SetBit(Src::H, 2, true), *old(cpu), old(mmu)@, args@),
        ensures
            cycles_reported(*old(self), *final(self), r),
            (r, *final(cpu), final(mmu)@) == op_spec(Op::SetBit(Src::H, 2, true), old(self).cycles, *old(cpu), old(mmu)@, args@),
    {
        proof {
            reveal(op_ok);
            reveal(op_spec);
        }
        self.set(cpu, mmu, args, Src::H, 2, true)
    }

    /// SET 2,L
    /// 2 8
    /// - - - -
    fn op_cbd5(&mut self, cpu: &mut Cpu, mmu: &mut Mmu, args: &[u8]) -> (r: i16)
        requires
            old(self).cycles <= i16::MAX - 12,
            op_ok(Op::SetBit(Src::L, 2, true), *old(cpu), old(mmu)@, args@),
        ensures
            cycles_reported(*old(self), *final(self), r),
            (r, *final(cpu), final(mmu)@) == op_spec(Op::SetBit(Src::L, 2, true), old(self).cycles, *old(cpu), old(mmu)@, args@),
    {
        proof {
            reveal(op_ok);
            reveal(op_spec);
        }
        self.set(cpu, mmu, args, Src::L, 2, true)
    }

    /// SET 2,(HL)
    /// 2 16
    /// - - - -
    fn op_cbd6(&mut self, cpu: &mut Cpu, mmu: &mut Mmu, args: &[u8]) -> (r: i16)
        requires
            old(self).cycles <= i16::MAX - 12,
            op_ok(Op::SetBit(Src::HLa, 2, true), *old(cpu), old(mmu)@, args@),
        ensures
            cycles_reported(*old(self), *final(self), r),
            (r, *final(cpu), final(mmu)@) == op_spec(Op::SetBit(Src::HLa, 2, true), old(self).cycles, *old(cpu), old(mmu)@, args@),
    {
        proof {
            reveal(op_ok);
            reveal(op_spec);
        }
        self.set(cpu, mmu, args, Src::HLa, 2, true)
    }

    /// SET 2,A
    /// 2 8
    /// - - - -
    fn op_cbd7(&mut self, cpu: &mut Cpu, mmu: &mut Mmu, args: &[u8]) -> (r: i16)
        requires
            old(self).cycles <= i16::MAX - 12,
            op_ok(Op::SetBit(Src::A, 2, true), *old(cpu), old(mmu)@, args@),
        ensures
            cycles_reported(*old(self), *final(self), r),
            (r, *final(cpu), final(mmu)@) == op_spec(Op::SetBit(Src::A, 2, true), old(self).cycles, *old(cpu), old(mmu)@, args@),
    {
        proof {
            reveal(op_ok);
            reveal(op_spec);
        }
        self.set(cpu, mmu, args, Src::A, 2, true)
    }

    /// SET 3,B
    /// 2 8
    /// - - - -
    fn op_cbd8(&mut self, cpu: &mut Cpu, mmu: &mut Mmu, args: &[u8]) -> (r: i16)
        requires
            old(self).cycles <= i16::MAX - 12,
            op_ok(Op::SetBit(Src::B, 3, true), *old(cpu), old(mmu)@, args@),
        ensures
            cycles_reported(*old(self), *final(self), r),
            (r, *final(cpu), final(mmu)@) == op_spec(Op::SetBit(Src::B, 3, true), old(self).cycles, *old(cpu), old(mmu)@, args@),
    {
        proof {
            reveal(op_ok);
            reveal(op_spec);
        }
        self.set(cpu, mmu, args, Src::B, 3, true)
    }

    /// SET 3,C
    /// 2 8
    /// - - - -
    fn op_cbd9(&mut self, cpu: &mut Cpu, mmu: &mut Mmu, args: &[u8]) -> (r: i16)
        requires
            old(self).cycles <= i16::MAX - 12,
            op_ok(Op::SetBit(Src::C, 3, true), *old(cpu), old(mmu)@, args@),
        ensures
            cycles_reported(*old(self), *final(self), r),
            (r, *final(cpu), final(mmu)@) == op_spec(Op::SetBit(Src::C, 3, true), old(self).cycles, *old(cpu), old(mmu)@, args@),
    {
        proof {
            reveal(op_ok);
            reveal(op_spec);
        }
        self.set(cpu, mmu, args, Src::C, 3, true)
    }

    /// SET 3,D
    /// 2 8
    /// - - - -
    fn op_cbda(&mut self, cpu: &mut Cpu, mmu: &mut Mmu, args: &[u8]) -> (r: i16)
        requires
            old(self).cycles <= i16::MAX - 12,
            op_ok(Op::SetBit(Src::D, 3, true), *old(cpu), old(mmu)@, args@),
        ensures
            cycles_reported(*old(self), *final(self), r),
            (r, *final(cpu), final(mmu)@) == op_spec(Op::SetBit(Src::D, 3, true), old(self).cycles, *old(cpu), old(mmu)@, args@),
    {
        proof {
            reveal(op_ok);
            reveal(op_spec);
        }
        self.set(cpu, mmu, args, Src::D, 3, true)
    }

    /// SET 3,E
    /// 2 8
    /// - - - -
    fn op_cbdb(&mut self, cpu: &mut Cpu, mmu: &mut Mmu, args: &[u8]) -> (r: i16)
        requires
            old(self).cycles <= i16::MAX - 12,
            op_ok(Op::SetBit(Src::E, 3, true), *old(cpu), old(mmu)@, args@),
        ensures
            cycles_reported(*old(self), *final(self), r),
            (r, *final(cpu), final(mmu)@) == op_spec(Op::SetBit(Src::E, 3, true), old(self).cycles, *old(cpu), old(mmu)@, args@),
    {
        proof {
            reveal(op_ok);
            reveal(op_spec);
        }
        self.set(cpu, mmu, args, Src::E, 3, true)
    }

    /// SET 3,H
    /// 2 8
    /// - - - -
    fn op_cbdc(&mut self, cpu: &mut Cpu, mmu: &mut Mmu, args: &[u8]) -> (r: i16)
        requires
            old(self).cycles <= i16::MAX - 12,
            op_ok(Op::SetBit(Src::H, 3, true), *old(cpu), old(mmu)@, args@),
        ensures
            cycles_reported(*old(self), *final(self), r),
            (r, *final(cpu), final(mmu)@) == op_spec(Op::SetBit(Src::H, 3, true), old(self).cycles, *old(cpu), old(mmu)@, args@),
    {
        proof {
            reveal(op_ok);
            reveal(op_spec);
        }
        self.set(cpu, mmu, args, Src::H, 3, true)
    }

    /// SET 3,L
    /// 2 8
    /// - - - -
    fn op_cbdd(&mut self, cpu: &mut Cpu, mmu: &mut Mmu, args: &[u8]) -> (r: i16)
        requires
            old(self).cycles <= i16::MAX - 12,
            op_ok(Op::SetBit(Src::L, 3, true), *old(cpu), old(mmu)@, args@),
        ensures
            cycles_reported(*old(self), *final(self), r),
            (r, *final(cpu), final(mmu)@) == op_spec(Op::SetBit(Src::L, 3, true), old(self).cycles, *old(cpu), old(mmu)@, args@),
    {
        proof {
            reveal(op_ok);
            reveal(op_spec);
        }
        self.set(cpu, mmu, args, Src::L, 3, true)
    }

    /// SET 3,(HL)
    /// 2 16
    /// - - - -
    fn op_cbde(&mut self, cpu: &mut Cpu, mmu: &mut Mmu, args: &[u8]) -> (r: i16)
        requires
            old(self).cycles <= i16::MAX - 12,
            op_ok(Op::SetBit(Src::HLa, 3, true), *old(cpu), old(mmu)@, args@),
        ensures
            cycles_reported(*old(self), *final(self), r),
            (r, *final(cpu), final(mmu)@) == op_spec(Op::SetBit(Src::HLa, 3, true), old(self).cycles, *old(cpu), old(mmu)@, args@),
    {
        proof {
            reveal(op_ok);
            reveal(op_spec);
        }
        self.set(cpu, mmu, args, Src::HLa, 3, true)
    }

    /// SET 3,A
    /// 2 8
    /// - - - -
    fn op_cbdf(&mut self, cpu: &mut Cpu, mmu: &mut Mmu, args: &[u8]) -> (r: i16)
        requires
            old(self).cycles <= i16::MAX - 12,
            op_ok(Op::SetBit(Src::A, 3, true), *old(cpu), old(mmu)@, args@),
        ensures
            cycles_reported(*old(self), *final(self), r),
            (r, *final(cpu), final(mmu)@) == op_spec(Op::SetBit(Src::A, 3, true), old(self).cycles, *old(cpu), old(mmu)@, args@),
    {
        proof {
            reveal(op_ok);
            reveal(op_spec);
        }
        self.set(cpu, mmu, args, Src::A, 3, true)
    }

    /// SET 4,B
    /// 2 8
    /// - - - -
    fn op_cbe0(&mut self, cpu: &mut Cpu, mmu: &mut Mmu, args: &[u8]) -> (r: i16)
        requires
            old(self).cycles <= i16::MAX - 12,
            op_ok(Op::SetBit(Src::B, 4, true), *old(cpu), old(mmu)@, args@),
        ensures
            cycles_reported(*old(self), *final(self), r),
            (r, *final(cpu), final(mmu)@) == op_spec(Op::SetBit(Src::B, 4, true), old(self).cycles, *old(cpu), old(mmu)@, args@),
    {
        proof {
            reveal(op_ok);
            reveal(op_spec);
        }
        self.set(cpu, mmu, args, Src::B, 4, true)
    }

    /// SET 4,C
    /// 2 8
    /// - - - -
    fn op_cbe1(&mut self, cpu: &mut Cpu, mmu: &mut Mmu, args: &[u8]) -> (r: i16)
        requires
            old(self).cycles <= i16::MAX - 12,
            op_ok(Op::SetBit(Src::C, 4, true), *old(cpu), old(mmu)@, args@),
        ensures
            cycles_reported(*old(self), *final(self), r),
            (r, *final(cpu), final(mmu)@) == op_spec(Op::SetBit(Src::C, 4, true), old(self).cycles, *old(cpu), old(mmu)@, args@),
    {
        proof {
            reveal(op_ok);
            reveal(op_spec);
        }
        self.set(cpu, mmu, args, Src::C, 4, true)
    }

    /// SET 4,D
    /// 2 8
    /// - - - -
    fn op_cbe2(&mut self, cpu: &mut Cpu, mmu: &mut Mmu, args: &[u8]) -> (r: i16)
        requires
            old(self).cycles <= i16::MAX - 12,
            op_ok(Op::SetBit(Src::D, 4, true), *old(cpu), old(mmu)@, args@),
        ensures
            cycles_reported(*old(self), *final(self), r),
            (r, *final(cpu), final(mmu)@) == op_spec(Op::SetBit(Src::D, 4, true), old(self).cycles, *old(cpu), old(mmu)@, args@),
    {
        proof {
            reveal(op_ok);
            reveal(op_spec);
        }
        self.set(cpu, mmu, args, Src::D, 4, true)
    }

    /// SET 4,E
    /// 2 8
    /// - - - -
    fn op_cbe3(&mut self, cpu: &mut Cpu, mmu: &mut Mmu, args: &[u8]) -> (r: i16)
        requires
            old(self).cycles <= i16::MAX - 12,
            op_ok(Op::SetBit(Src::E, 4, true), *old(cpu), old(mmu)@, args@),
        ensures
            cycles_reported(*old(self), *final(self), r),
            (r, *final(cpu), final(mmu)@) == op_spec(Op::SetBit(Src::E, 4, true), old(self).cycles, *old(cpu), old(mmu)@, args@),
    {
        proof {
            reveal(op_ok);
            reveal(op_spec);
        }
        self.set(cpu, mmu, args, Src::E, 4, true)
    }

    /// SET 4,H
    /// 2 8
    /// - - - -
    fn op_cbe4(&mut self, cpu: &mut Cpu, mmu: &mut Mmu, args: &[u8]) -> (r: i16)
        requires
            old(self).cycles <= i16::MAX - 12,
            op_ok(Op::SetBit(Src::H, 4, true), *old(cpu), old(mmu)@, args@),
        ensures
            cycles_reported(*old(self), *final(self), r),
            (r, *final(cpu), final(mmu)@) == op_spec(Op::SetBit(Src::H, 4, true), old(self).cycles, *old(cpu), old(mmu)@, args@),
    {
        proof {
            reveal(op_ok);
            reveal(op_spec);
        }
        self.set(cpu, mmu, args, Src::H, 4, true)
    }

    /// SET 4,L
    /// 2 8
    /// - - - -
    fn op_cbe5(&mut self, cpu: &mut Cpu, mmu: &mut Mmu, args: &[u8]) -> (r: i16)
        requires
            old(self).cycles <= i16::MAX - 12,
            op_ok(Op::SetBit(Src::L, 4, true), *old(cpu), old(mmu)@, args@),
        ensures
            cycles_reported(*old(self), *final(self), r),
            (r, *final(cpu), final(mmu)@) == op_spec(Op::SetBit(Src::L, 4, true), old(self).cycles, *old(cpu), old(mmu)@, args@),
    {
        proof {
            reveal(op_ok);
            reveal(op_spec);
        }
        self.set(cpu, mmu, args, Src::L, 4, true)
    }

    /// SET 4,(HL)
    /// 2 16
    /// - - - -
    fn op_cbe6(&mut self, cpu: &mut Cpu, mmu: &mut Mmu, args: &[u8]) -> (r: i16)
        requires
            old(self).cycles <= i16::MAX - 12,
            op_ok(Op::SetBit(Src::HLa, 4, true), *old(cpu), old(mmu)@, args@),
        ensures
            cycles_reported(*old(self), *final(self), r),
            (r, *final(cpu), final(mmu)@) == op_spec(Op::SetBit(Src::HLa, 4, true), old(self).cycles, *old(cpu), old(mmu)@, args@),
    {
        proof {
            reveal(op_ok);
            reveal(op_spec);
        }
        self.set(cpu, mmu, args, Src::HLa, 4, true)
    }

    /// SET 4,A
    /// 2 8
    /// - - - -
    fn op_cbe7(&mut self, cpu: &mut Cpu, mmu: &mut Mmu, args: &[u8]) -> (r: i16)
        requires
            old(self).cycles <= i16::MAX - 12,
            op_ok(Op::SetBit(Src::A, 4, true), *old(cpu), old(mmu)@, args@),
        ensures
            cycles_reported(*old(self), *final(self), r),
            (r, *final(cpu), final(mmu)@) == op_spec(Op::SetBit(Src::A, 4, true), old(self).cycles, *old(cpu), old(mmu)@, args@),
    {
        proof {
            reveal(op_ok);
            reveal(op_spec);
        }
        self.set(cpu, mmu, args, Src::A, 4, true)
    }

    /// SET 5,B
    /// 2 8
    /// - - - -
    fn op_cbe8(&mut self, cpu: &mut Cpu, mmu: &mut Mmu, args: &[u8]) -> (r: i16)
        requires
            old(self).cycles <= i16::MAX - 12,
            op_ok(Op::SetBit(Src::B, 5, true), *old(cpu), old(mmu)@, args@),
        ensures
            cycles_reported(*old(self), *final(self), r),
            (r, *final(cpu), final(mmu)@) == op_spec(Op::SetBit(Src::B, 5, true), old(self).cycles, *old(cpu), old(mmu)@, args@),
    {
        proof {
            reveal(op_ok);
            reveal(op_spec);
        }
        self.set(cpu, mmu, args, Src::B, 5, true)
    }

    /// SET 5,C
    /// 2 8
    /// - - - -
    fn op_cbe9(&mut self, cpu: &mut Cpu, mmu: &mut Mmu, args: &[u8]) -> (r: i16)
        requires
            old(self).cycles <= i16::MAX - 12,
            op_ok(Op::SetBit(Src::C, 5, true), *old(cpu), old(mmu)@, args@),
        ensures
            cycles_reported(*old(self), *final(self), r),
            (r, *final(cpu), final(mmu)@) == op_spec(Op::SetBit(Src::C, 5, true), old(self).cycles, *old(cpu), old(mmu)@, args@),
    {
        proof {
            reveal(op_ok);
            reveal(op_spec);
        }
        self.set(cpu, mmu, args, Src::C, 5, true)
    }

    /// SET 5,D
    /// 2 8
    /// - - - -
    fn op_cbea(&mut self, cpu: &mut Cpu, mmu: &mut Mmu, args: &[u8]) -> (r: i16)
        requires
            old(self).cycles <= i16::MAX - 12,
            op_ok(Op::SetBit(Src::D, 5, true), *old(cpu), old(mmu)@, args@),
        ensures
            cycles_reported(*old(self), *final(self), r),
            (r, *final(cpu), final(mmu)@) == op_spec(Op::SetBit(Src::D, 5, true), old(self).cycles, *old(cpu), old(mmu)@, args@),
    {
        proof {
            reveal(op_ok);
            reveal(op_spec);
        }
        self.set(cpu, mmu, args, Src::D, 5, true)
    }

    /// SET 5,E
    /// 2 8
    /// - - - -
    fn op_cbeb(&mut self, cpu: &mut Cpu, mmu: &mut Mmu, args: &[u8]) -> (r: i16)
        requires
            old(self).cycles <= i16::MAX - 12,
            op_ok(Op::SetBit(Src::E, 5, true), *old(cpu), old(mmu)@, args@),
        ensures
            cycles_reported(*old(self), *final(self), r),
            (r, *final(cpu), final(mmu)@) == op_spec(Op::SetBit(Src::E, 5, true), old(self).cycles, *old(cpu), old(mmu)@, args@),
    {
        proof {
            reveal(op_ok);
            reveal(op_spec);
        }
        self.set(cpu, mmu, args, Src::E, 5, true)
    }

    /// SET 5,H
    /// 2 8
    /// - - - -
    fn op_cbec(&mut self, cpu: &mut Cpu, mmu: &mut Mmu, args: &[u8]) -> (r: i16)
        requires
            old(self).cycles <= i16::MAX - 12,
            op_ok(Op::SetBit(Src::H, 5, true), *old(cpu), old(mmu)@, args@),
        ensures
            cycles_reported(*old(self), *final(self), r),
            (r, *final(cpu), final(mmu)@) == op_spec(Op::SetBit(Src::H, 5, true), old(self).cycles, *old(cpu), old(mmu)@, args@),
    {
        proof {
            reveal(op_ok);
            reveal(op_spec);
        }
        self.set(cpu, mmu, args, Src::H, 5, true)
    }

    /// SET 5,L
    /// 2 8
    /// - - - -
    fn op_cbed(&mut self, cpu: &mut Cpu, mmu: &mut Mmu, args: &[u8]) -> (r: i16)
        requires
            old(self).cycles <= i16::MAX - 12,
            op_ok(Op::SetBit(Src::L, 5, true), *old(cpu), old(mmu)@, args@),
        ensures
            cycles_reported(*old(self), *final(self), r),
            (r, *final(cpu), final(mmu)@) == op_spec(Op::SetBit(Src::L, 5, true), old(self).cycles, *old(cpu), old(mmu)@, args@),
    {
        proof {
            reveal(op_ok);
            reveal(op_spec);
        }
        self.set(cpu, mmu, args, Src::L, 5, true)
    }

    /// SET 5,(HL)
    /// 2 16
    /// - - - -
    fn op_cbee(&mut self, cpu: &mut Cpu, mmu: &mut Mmu, args: &[u8]) -> (r: i16)
        requires
            old(self).cycles <= i16::MAX - 12,
            op_ok(Op::SetBit(Src::HLa, 5, true), *old(cpu), old(mmu)@, args@),
        ensures
            cycles_reported(*old(self), *final(self), r),
            (r, *final(cpu), final(mmu)@) == op_spec(Op::SetBit(Src::HLa, 5, true), old(self).cycles, *old(cpu), old(mmu)@, args@),
    {
        proof {
            reveal(op_ok);
            reveal(op_spec);
        }
        self.set(cpu, mmu, args, Src::HLa, 5, true)
    }

    /// SET 5,A
    /// 2 8
    /// - - - -
    fn op_cbef(&mut self, cpu: &mut Cpu, mmu: &mut Mmu, args: &[u8]) -> (r: i16)
        requires
            old(self).cycles <= i16::MAX - 12,
            op_ok(Op::SetBit(Src::A, 5, true), *old(cpu), old(mmu)@, args@),
        ensures
            cycles_reported(*old(self), *final(self), r),
            (r, *final(cpu), final(mmu)@) == op_spec(Op::SetBit(Src::A, 5, true), old(self).cycles, *old(cpu), old(mmu)@, args@),
    {
        proof {
            reveal(op_ok);
            reveal(op_spec);
        }
        self.set(cpu, mmu, args, Src::A, 5, true)
    }

    /// SET 6,B
    /// 2 8
    /// - - - -
    fn op_cbf0(&mut self, cpu: &mut Cpu, mmu: &mut Mmu, args: &[u8]) -> (r: i16)
        requires
            old(self).cycles <= i16::MAX - 12,
            op_ok(Op::SetBit(Src::B, 6, true), *old(cpu), old(mmu)@, args@),
        ensures
            cycles_reported(*old(self), *final(self), r),
            (r, *final(cpu), final(mmu)@) == op_spec(Op::SetBit(Src::B, 6, true), old(self).cycles, *old(cpu), old(mmu)@, args@),
    {
        proof {
            reveal(op_ok);
            reveal(op_spec);
        }
        self.set(cpu, mmu, args, Src::B, 6, true)
    }

    /// SET 6,C
    /// 2 8
    /// - - - -
    fn op_cbf1(&mut self, cpu: &mut Cpu, mmu: &mut Mmu, args: &[u8]) -> (r: i16)
        requires
            old(self).cycles <= i16::MAX - 12,
            op_ok(Op::SetBit(Src::C, 6, true), *old(cpu), old(mmu)@, args@),
        ensures
            cycles_reported(*old(self), *final(self), r),
            (r, *final(cpu), final(mmu)@) == op_spec(Op::SetBit(Src::C, 6, true), old(self).cycles, *old(cpu), old(mmu)@, args@),
    {
        proof {
            reveal(op_ok);
            reveal(op_spec);
        }
        self.set(cpu, mmu, args, Src::C, 6, true)
    }

    /// SET 6,D
    /// 2 8
    /// - - - -
    fn op_cbf2(&mut self, cpu: &mut Cpu, mmu: &mut Mmu, args: &[u8]) -> (r: i16)
        requires
            old(self).cycles <= i16::MAX - 12,
            op_ok(Op::SetBit(Src::D, 6, true), *old(cpu), old(mmu)@, args@),
        ensures
            cycles_reported(*old(self), *final(self), r),
            (r, *final(cpu), final(mmu)@) == op_spec(Op::SetBit(Src::D, 6, true), old(self).cycles, *old(cpu), old(mmu)@, args@),
    {
        proof {
            reveal(op_ok);
            reveal(op_spec);
        }
        self.set(cpu, mmu, args, Src::D, 6, true)
    }

    /// SET 6,E
    /// 2 8
    /// - - - -
    fn op_cbf3(&mut self, cpu: &mut Cpu, mmu: &mut Mmu, args: &[u8]) -> (r: i16)
        requires
            old(self).cycles <= i16::MAX - 12,
            op_ok(Op::SetBit(Src::E, 6, true), *old(cpu), old(mmu)@, args@),
        ensures
            cycles_reported(*old(self), *final(self), r),
            (r, *final(cpu), final(mmu)@) == op_spec(Op::SetBit(Src::E, 6, true), old(self).cycles, *old(cpu), old(mmu)@, args@),
    {
        proof {
            reveal(op_ok);
            reveal(op_spec);
        }
        self.set(cpu, mmu, args, Src::E, 6, true)
    }

    /// SET 6,H
    /// 2 8
    /// - - - -
    fn op_cbf4(&mut self, cpu: &mut Cpu, mmu: &mut Mmu, args: &[u8]) -> (r: i16)
        requires
            old(self).cycles <= i16::MAX - 12,
            op_ok(Op::SetBit(Src::H, 6, true), *old(cpu), old(mmu)@, args@),
        ensures
            cycles_reported(*old(self), *final(self), r),
            (r, *final(cpu), final(mmu)@) == op_spec(Op::SetBit(Src::H, 6, true), old(self).cycles, *old(cpu), old(mmu)@, args@),
    {
        proof {
            reveal(op_ok);
            reveal(op_spec);
        }
        self.set(cpu, mmu, args, Src::H, 6, true)
    }

    /// SET 6,L
    /// 2 8
    /// - - - -
    fn op_cbf5(&mut self, cpu: &mut Cpu, mmu: &mut Mmu, args: &[u8]) -> (r: i16)
        requires
            old(self).cycles <= i16::MAX - 12,
            op_ok(Op::SetBit(Src::L, 6, true), *old(cpu), old(mmu)@, args@),
        ensures
            cycles_reported(*old(self), *final(self), r),
            (r, *final(cpu), final(mmu)@) == op_spec(Op::SetBit(Src::L, 6, true), old(self).cycles, *old(cpu), old(mmu)@, args@),
    {
        proof {
            reveal(op_ok);
            reveal(op_spec);
        }
        self.set(cpu, mmu, args, Src::L, 6, true)
    }

    /// SET 6,(HL)
    /// 2 16
    /// - - - -
    fn op_cbf6(&mut self, cpu: &mut Cpu, mmu: &mut Mmu, args: &[u8]) -> (r: i16)
        requires
            old(self).cycles <= i16::MAX - 12,
            op_ok(Op::SetBit(Src::HLa, 6, true), *old(cpu), old(mmu)@, args@),
        ensures
            cycles_reported(*old(self), *final(self), r),
            (r, *final(cpu), final(mmu)@) == op_spec(Op::SetBit(Src::HLa, 6, true), old(self).cycles, *old(cpu), old(mmu)@, args@),
    {
        proof {
            reveal(op_ok);
            reveal(op_spec);
        }
        self.set(cpu, mmu, args, Src::HLa, 6, true)
    }

    /// SET 6,A
    /// 2 8
    /// - - - -
    fn op_cbf7(&mut self, cpu: &mut Cpu, mmu: &mut Mmu, args: &[u8]) -> (r: i16)
        requires
            old(self).cycles <= i16::MAX - 12,
            op_ok(Op::SetBit(Src::A, 6, true), *old(cpu), old(mmu)@, args@),
        ensures
            cycles_reported(*old(self), *final(self), r),
            (r, *final(cpu), final(mmu)@) == op_spec(Op::SetBit(Src::A, 6, true), old(self).cycles, *old(cpu), old(mmu)@, args@),
    {
        proof {
            reveal(op_ok);
            reveal(op_spec);
        }
        self.set(cpu, mmu, args, Src::A, 6, true)
    }

    /// SET 7,B
    /// 2 8
    /// - - - -
    fn op_cbf8(&mut self, cpu: &mut Cpu, mmu: &mut Mmu, args: &[u8]) -> (r: i16)
        requires
            old(self).cycles <= i16::MAX - 12,
            op_ok(Op::SetBit(Src::B, 7, true), *old(cpu), old(mmu)@, args@),
        ensures
            cycles_reported(*old(self), *final(self), r),
            (r, *final(cpu), final(mmu)@) == op_spec(Op::SetBit(Src::B, 7, true), old(self).cycles, *old(cpu), old(mmu)@, args@),
    {
        proof {
            reveal(op_ok);
            reveal(op_spec);
        }
        self.set(cpu, mmu, args, Src::B, 7, true)
    }

    /// SET 7,C
    /// 2 8
    /// - - - -
    fn op_cbf9(&mut self, cpu: &mut Cpu, mmu: &mut Mmu, args: &[u8]) -> (r: i16)
        requires
            old(self).cycles <= i16::MAX - 12,
            op_ok(Op::SetBit(Src::C, 7, true), *old(cpu), old(mmu)@, args@),
        ensures
            cycles_reported(*old(self), *final(self), r),
            (r, *final(cpu), final(mmu)@) == op_spec(Op::SetBit(Src::C, 7, true), old(self).cycles, *old(cpu), old(mmu)@, args@),
    {
        proof {
            reveal(op_ok);
            reveal(op_spec);
        }
        self.set(cpu, mmu, args, Src::C, 7, true)
    }

    /// SET 7,D
    /// 2 8
    /// - - - -
    fn op_cbfa(&mut self, cpu: &mut Cpu, mmu: &mut Mmu, args: &[u8]) -> (r: i16)
        requires
            old(self).cycles <= i16::MAX - 12,
            op_ok(Op::SetBit(Src::D, 7, true), *old(cpu), old(mmu)@, args@),
        ensures
            cycles_reported(*old(self), *final(self), r),
            (r, *final(cpu), final(mmu)@) == op_spec(Op::SetBit(Src::D, 7, true), old(self).cycles, *old(cpu), old(mmu)@, args@),
    {
        proof {
            reveal(op_ok);
            reveal(op_spec);
        }
        self.set(cpu, mmu, args, Src::D, 7, true)
    }

    /// SET 7,E
    /// 2 8
    /// - - - -
    fn op_cbfb(&mut self, cpu: &mut Cpu, mmu: &mut Mmu, args: &[u8]) -> (r: i16)
        requires
            old(self).cycles <= i16::MAX - 12,
            op_ok(Op::SetBit(Src::E, 7, true), *old(cpu), old(mmu)@, args@),
        ensures
            cycles_reported(*old(self), *final(self), r),
            (r, *final(cpu), final(mmu)@) == op_spec(Op::SetBit(Src::E, 7, true), old(self).cycles, *old(cpu), old(mmu)@, args@),
    {
        proof {
            reveal(op_ok);
            reveal(op_spec);
        }
        self.set(cpu, mmu, args, Src::E, 7, true)
    }

    /// SET 7,H
    /// 2 8
    /// - - - -
    fn op_cbfc(&mut self, cpu: &mut Cpu, mmu: &mut Mmu, args: &[u8]) -> (r: i16)
        requires
            old(self).cycles <= i16::MAX - 12,
            op_ok(Op::SetBit(Src::H, 7, true), *old(cpu), old(mmu)@, args@),
        ensures
            cycles_reported(*old(self), *final(self), r),
            (r, *final(cpu), final(mmu)@) == op_spec(Op::SetBit(Src::H, 7, true), old(self).cycles, *old(cpu), old(mmu)@, args@),
    {
        proof {
            reveal(op_ok);
            reveal(op_spec);
        }
        self.set(cpu, mmu, args, Src::H, 7, true)
    }

    /// SET 7,L
    /// 2 8
    /// - - - -
    fn op_cbfd(&mut self, cpu: &mut Cpu, mmu: &mut Mmu, args: &[u8]) -> (r: i16)
        requires
            old(self).cycles <= i16::MAX - 12,
            op_ok(Op::SetBit(Src::L, 7, true), *old(cpu), old(mmu)@, args@),
        ensures
            cycles_reported(*old(self), *final(self), r),
            (r, *final(cpu), final(mmu)@) == op_spec(Op::SetBit(Src::L, 7, true), old(self).cycles, *old(cpu), old(mmu)@, args@),
    {
        proof {
            reveal(op_ok);
            reveal(op_spec);
        }
        self.set(cpu, mmu, args, Src::L, 7, true)
    }

    /// SET 7,(HL)
    /// 2 16
    /// - - - -
    fn op_cbfe(&mut self, cpu: &mut Cpu, mmu: &mut Mmu, args: &[u8]) -> (r: i16)
        requires
            old(self).cycles <= i16::MAX - 12,
            op_ok(Op::SetBit(Src::HLa, 7, true), *old(cpu), old(mmu)@, args@),
        ensures
            cycles_reported(*old(self), *final(self), r),
            (r, *final(cpu), final(mmu)@) == op_spec(Op::SetBit(Src::HLa, 7, true), old(self).cycles, *old(cpu), old(mmu)@, args@),
    {
        proof {
            reveal(op_ok);
            reveal(op_spec);
        }
        self.set(cpu, mmu, args, Src::HLa, 7, true)
    }

    /// SET 7,A
    /// 2 8
    /// - - - -
    fn op_cbff(&mut self, cpu: &mut Cpu, mmu: &mut Mmu, args: &[u8]) -> (r: i16)
        requires
            old(self).cycles <= i16::MAX - 12,
            op_ok(Op::SetBit(Src::A, 7, true), *old(cpu), old(mmu)@, args@),
        ensures
            cycles_reported(*old(self), *final(self), r),
            (r, *final(cpu), final(mmu)@) == op_spec(Op::SetBit(Src::A, 7, true), old(self).cycles, *old(cpu), old(mmu)@, args@),
    {
        proof {
            reveal(op_ok);
            reveal(op_spec);
        }
        self.set(cpu, mmu, args, Src::A, 7, true)
    }

    /// Runs the instruction on the machine and returns the cycles it took
    /// (negative for an invalid or unimplemented opcode).
    pub fn execute(&mut self, cpu: &mut Cpu, mmu: &mut Mmu, args: &[u8]) -> (r: i16)
        requires
            old(self).cycles <= i16::MAX - 12,
            op_ok(operation(old(self).opcode), *old(cpu), old(mmu)@, args@),
        ensures
            cycles_reported(*old(self), *final(self), r),
            (r, *final(cpu), final(mmu)@) == op_spec(operation(old(self).opcode), old(self).cycles, *old(cpu), old(mmu)@, args@),
    {
        if 0x0000 <= self.opcode && self.opcode < 0x0040 {
            self.execute_0000_003f(cpu, mmu, args)
        } else if 0x0040 <= self.opcode && self.opcode < 0x0080 {
            self.execute_0040_007f(cpu, mmu, args)
        } else if 0x0080 <= self.opcode && self.opcode < 0x00C0 {
            self.execute_0080_00bf(cpu, mmu, args)
        } else if 0x00C0 <= self.opcode && self.opcode < 0x0100 {
            self.execute_00c0_00ff(cpu, mmu, args)
        } else if 0xCB00 <= self.opcode && self.opcode < 0xCB40 {
            self.execute_cb00_cb3f(cpu, mmu, args)
        } else if 0xCB40 <= self.opcode && self.opcode < 0xCB80 {
            self.execute_cb40_cb7f(cpu, mmu, args)
        } else if 0xCB80 <= self.opcode && self.opcode < 0xCBC0 {
            self.execute_cb80_cbbf(cpu, mmu, args)
        } else if 0xCBC0 <= self.opcode && self.opcode < 0xCC00 {
            self.execute_cbc0_cbff(cpu, mmu, args)
        } else {
            self.unimplemented(cpu, mmu, args)
        }
    }

    fn execute_0000_003f(&mut self, cpu: &mut Cpu, mmu: &mut Mmu, args: &[u8]) -> (r: i16)
        requires
            old(self).cycles <= i16::MAX - 12,
            0x0000 <= old(self).opcode < 0x0040,
            op_ok(operation(old(self).opcode), *old(cpu), old(mmu)@, args@),
        ensures
            cycles_reported(*old(self), *final(self), r),
            (r, *final(cpu), final(mmu)@) == op_spec(operation(old(self).opcode), old(self).cycles, *old(cpu), old(mmu)@, args@),
    {
        match self.opcode {
            0x0000 => self.op_0000(cpu, mmu, args),
            0x0001 => self.op_0001(cpu, mmu, args),
            0x0002 => self.op_0002(cpu, mmu, args),
            0x0003 => self.op_0003(cpu, mmu, args),
            0x0004 => self.op_0004(cpu, mmu, args),
            0x0005 => self.op_0005(cpu, mmu, args),
            0x0006 => self.op_0006(cpu, mmu, args),
            0x0007 => self.op_0007(cpu, mmu, args),
            0x0008 => self.op_0008(cpu, mmu, args),
            0x0009 => self.op_0009(cpu, mmu, args),
            0x000A => self.op_000a(cpu, mmu, args),
            0x000B => self.op_000b(cpu, mmu, args),
            0x000C => self.op_000c(cpu, mmu, args),
            0x000D => self.op_000d(cpu, mmu, args),
            0x000E => self.op_000e(cpu, mmu, args),
            0x000F => self.op_000f(cpu, mmu, args),
            0x0010 => self.op_0010(cpu, mmu, args),
            0x0011 => self.op_0011(cpu, mmu, args),
            0x0012 => self.op_0012(cpu, mmu, args),
            0x0013 => self.op_0013(cpu, mmu, args),
            0x0014 => self.op_0014(cpu, mmu, args),
            0x0015 => self.op_0015(cpu, mmu, args),
            0x0016 => self.op_0016(cpu, mmu, args),
            0x0017 => self.op_0017(cpu, mmu, args),
            0x0018 => self.op_0018(cpu, mmu, args),
            0x0019 => self.op_0019(cpu, mmu, args),
            0x001A => self.op_001a(cpu, mmu, args),
            0x001B => self.op_001b(cpu, mmu, args),
            0x001C => self.op_001c(cpu, mmu, args),
            0x001D => self.op_001d(cpu, mmu, args),
            0x001E => self.op_001e(cpu, mmu, args),
            0x001F => self.op_001f(cpu, mmu, args),
            0x0020 => self.op_0020(cpu, mmu, args),
            0x0021 => self.op_0021(cpu, mmu, args),
            0x0022 => self.op_0022(cpu, mmu, args),
            0x0023 => self.op_0023(cpu, mmu, args),
            0x0024 => self.op_0024(cpu, mmu, args),
            0x0025 => self.op_0025(cpu, mmu, args),
            0x0026 => self.op_0026(cpu, mmu, args),
            0x0027 => self.op_0027(cpu, mmu, args),
            0x0028 => self.op_0028(cpu, mmu, args),
            0x0029 => self.op_0029(cpu, mmu, args),
            0x002A => self.op_002a(cpu, mmu, args),
            0x002B => self.op_002b(cpu, mmu, args),
            0x002C => self.op_002c(cpu, mmu, args),
            0x002D => self.op_002d(cpu, mmu, args),
            0x002E => self.op_002e(cpu, mmu, args),
            0x002F => self.op_002f(cpu, mmu, args),
            0x0030 => self.op_0030(cpu, mmu, args),
            0x0031 => self.op_0031(cpu, mmu, args),
            0x0032 => self.op_0032(cpu, mmu, args),
            0x0033 => self.op_0033(cpu, mmu, args),
            0x0034 => self.op_0034(cpu, mmu, args),
            0x0035 => self.op_0035(cpu, mmu, args),
            0x0036 => self.op_0036(cpu, mmu, args),
            0x0037 => self.op_0037(cpu, mmu, args),
            0x0038 => self.op_0038(cpu, mmu, args),
            0x0039 => self.op_0039(cpu, mmu, args),
            0x003A => self.op_003a(cpu, mmu, args),
            0x003B => self.op_003b(cpu, mmu, args),
            0x003C => self.op_003c(cpu, mmu, args),
            0x003D => self.op_003d(cpu, mmu, args),
            0x003E => self.op_003e(cpu, mmu, args),
            0x003F => self.op_003f(cpu, mmu, args),
            _ => self.unimplemented(cpu, mmu, args),
        }
    }

    fn execute_0040_007f(&mut self, cpu: &mut Cpu, mmu: &mut Mmu, args: &[u8]) -> (r: i16)
        requires
            old(self).cycles <= i16::MAX - 12,
            0x0040 <= old(self).opcode < 0x0080,
            op_ok(operation(old(self).opcode), *old(cpu), old(mmu)@, args@),
        ensures
            cycles_reported(*old(self), *final(self), r),
            (r, *final(cpu), final(mmu)@) == op_spec(operation(old(self).opcode), old(self).cycles, *old(cpu), old(mmu)@, args@),
    {
        match self.opcode {
            0x0040 => self.op_0040(cpu, mmu, args),
            0x0041 => self.op_0041(cpu, mmu, args),
            0x0042 => self.op_0042(cpu, mmu, args),
            0x0043 => self.op_0043(cpu, mmu, args),
            0x0044 => self.op_0044(cpu, mmu, args),
            0x0045 => self.op_0045(cpu, mmu, args),
            0x0046 => self.op_0046(cpu, mmu, args),
            0x0047 => self.op_0047(cpu, mmu, args),
            0x0048 => self.op_0048(cpu, mmu, args),
            0x0049 => self.op_0049(cpu, mmu, args),
            0x004A => self.op_004a(cpu, mmu, args),
            0x004B => self.op_004b(cpu, mmu, args),
            0x004C => self.op_004c(cpu, mmu, args),
            0x004D => self.op_004d(cpu, mmu, args),
            0x004E => self.op_004e(cpu, mmu, args),
            0x004F => self.op_004f(cpu, mmu, args),
            0x0050 => self.op_0050(cpu, mmu, args),
            0x0051 => self.op_0051(cpu, mmu, args),
            0x0052 => self.op_0052(cpu, mmu, args),
            0x0053 => self.op_0053(cpu, mmu, args),
            0x0054 => self.op_0054(cpu, mmu, args),
            0x0055 => self.op_0055(cpu, mmu, args),
            0x0056 => self.op_0056(cpu, mmu, args),
            0x0057 => self.op_0057(cpu, mmu, args),
            0x0058 => self.op_0058(cpu, mmu, args),
            0x0059 => self.op_0059(cpu, mmu, args),
            0x005A => self.op_005a(cpu, mmu, args),
            0x005B => self.op_005b(cpu, mmu, args),
            0x005C => self.op_005c(cpu, mmu, args),
            0x005D => self.op_005d(cpu, mmu, args),
            0x005E => self.op_005e(cpu, mmu, args),
            0x005F => self.op_005f(cpu, mmu, args),
            0x0060 => self.op_0060(cpu, mmu, args),
            0x0061 => self.op_0061(cpu, mmu, args),
            0x0062 => self.op_0062(cpu, mmu, args),
            0x0063 => self.op_0063(cpu, mmu, args),
            0x0064 => self.op_0064(cpu, mmu, args),
            0x0065 => self.op_0065(cpu, mmu, args),
            0x0066 => self.op_0066(cpu, mmu, args),
            0x0067 => self.op_0067(cpu, mmu, args),
            0x0068 => self.op_0068(cpu, mmu, args),
            0x0069 => self.op_0069(cpu, mmu, args),
            0x006A => self.op_006a(cpu, mmu, args),
            0x006B => self.op_006b(cpu, mmu, args),
            0x006C => self.op_006c(cpu, mmu, args),
            0x006D => self.op_006d(cpu, mmu, args),
            0x006E => self.op_006e(cpu, mmu, args),
            0x006F => self.op_006f(cpu, mmu, args),
            0x0070 => self.op_0070(cpu, mmu, args),
            0x0071 => self.op_0071(cpu, mmu, args),
            0x0072 => self.op_0072(cpu, mmu, args),
            0x0073 => self.op_0073(cpu, mmu, args),
            0x0074 => self.op_0074(cpu, mmu, args),
            0x0075 => self.op_0075(cpu, mmu, args),
            0x0076 => self.op_0076(cpu, mmu, args),
            0x0077 => self.op_0077(cpu, mmu, args),
            0x0078 => self.op_0078(cpu, mmu, args),
            0x0079 => self.op_0079(cpu, mmu, args),
            0x007A => self.op_007a(cpu, mmu, args),
            0x007B => self.op_007b(cpu, mmu, args),
            0x007C => self.op_007c(cpu, mmu, args),
            0x007D => self.op_007d(cpu, mmu, args),
            0x007E => self.op_007e(cpu, mmu, args),
            0x007F => self.op_007f(cpu, mmu, args),
            _ => self.unimplemented(cpu, mmu, args),
        }
    }

    fn execute_0080_00bf(&mut self, cpu: &mut Cpu, mmu: &mut Mmu, args: &[u8]) -> (r: i16)
        requires
            old(self).cycles <= i16::MAX - 12,
            0x0080 <= old(self).opcode < 0x00C0,
            op_ok(operation(old(self).opcode), *old(cpu), old(mmu)@, args@),
        ensures
            cycles_reported(*old(self), *final(self), r),
            (r, *final(cpu), final(mmu)@) == op_spec(operation(old(self).opcode), old(self).cycles, *old(cpu), old(mmu)@, args@),
    {
        match self.opcode {
            0x0080 => self.op_0080(cpu, mmu, args),
            0x0081 => self.op_0081(cpu, mmu, args),
            0x0082 => self.op_0082(cpu, mmu, args),
            0x0083 => self.op_0083(cpu, mmu, args),
            0x0084 => self.op_0084(cpu, mmu, args),
            0x0085 => self.op_0085(cpu, mmu, args),
            0x0086 => self.op_0086(cpu, mmu, args),
            0x0087 => self.op_0087(cpu, mmu, args),
            0x0088 => self.op_0088(cpu, mmu, args),
            0x0089 => self.op_0089(cpu, mmu, args),
            0x008A => self.op_008a(cpu, mmu, args),
            0x008B => self.op_008b(cpu, mmu, args),
            0x008C => self.op_008c(cpu, mmu, args),
            0x008D => self.op_008d(cpu, mmu, args),
            0x008E => self.op_008e(cpu, mmu, args),
            0x008F => self.op_008f(cpu, mmu, args),
            0x0090 => self.op_0090(cpu, mmu, args),
            0x0091 => self.op_0091(cpu, mmu, args),
            0x0092 => self.op_0092(cpu, mmu, args),
            0x0093 => self.op_0093(cpu, mmu, args),
            0x0094 => self.op_0094(cpu, mmu, args),
            0x0095 => self.op_0095(cpu, mmu, args),
            0x0096 => self.op_0096(cpu, mmu, args),
            0x0097 => self.op_0097(cpu, mmu, args),
            0x0098 => self.op_0098(cpu, mmu, args),
            0x0099 => self.op_0099(cpu, mmu, args),
            0x009A => self.op_009a(cpu, mmu, args),
            0x009B => self.op_009b(cpu, mmu, args),
            0x009C => self.op_009c(cpu, mmu, args),
            0x009D => self.op_009d(cpu, mmu, args),
            0x009E => self.op_009e(cpu, mmu, args),
            0x009F => self.op_009f(cpu, mmu, args),
            0x00A0 => self.op_00a0(cpu, mmu, args),
            0x00A1 => self.op_00a1(cpu, mmu, args),
            0x00A2 => self.op_00a2(cpu, mmu, args),
            0x00A3 => self.op_00a3(cpu, mmu, args),
            0x00A4 => self.op_00a4(cpu, mmu, args),
            0x00A5 => self.op_00a5(cpu, mmu, args),
            0x00A6 => self.op_00a6(cpu, mmu, args),
            0x00A7 => self.op_00a7(cpu, mmu, args),
            0x00A8 => self.op_00a8(cpu, mmu, args),
            0x00A9 => self.op_00a9(cpu, mmu, args),
            0x00AA => self.op_00aa(cpu, mmu, args),
            0x00AB => self.op_00ab(cpu, mmu, args),
            0x00AC => self.op_00ac(cpu, mmu, args),
            0x00AD => self.op_00ad(cpu, mmu, args),
            0x00AE => self.op_00ae(cpu, mmu, args),
            0x00AF => self.op_00af(cpu, mmu, args),
            0x00B0 => self.op_00b0(cpu, mmu, args),
            0x00B1 => self.op_00b1(cpu, mmu, args),
            0x00B2 => self.op_00b2(cpu, mmu, args),
            0x00B3 => self.op_00b3(cpu, mmu, args),
            0x00B4 => self.op_00b4(cpu, mmu, args),
            0x00B5 => self.op_00b5(cpu, mmu, args),
            0x00B6 => self.op_00b6(cpu, mmu, args),
            0x00B7 => self.op_00b7(cpu, mmu, args),
            0x00B8 => self.op_00b8(cpu, mmu, args),
            0x00B9 => self.op_00b9(cpu, mmu, args),
            0x00BA => self.op_00ba(cpu, mmu, args),
            0x00BB => self.op_00bb(cpu, mmu, args),
            0x00BC => self.op_00bc(cpu, mmu, args),
            0x00BD => self.op_00bd(cpu, mmu, args),
            0x00BE => self.op_00be(cpu, mmu, args),
            0x00BF => self.op_00bf(cpu, mmu, args),
            _ => self.unimplemented(cpu, mmu, args),
        }
    }

    fn execute_00c0_00ff(&mut self, cpu: &mut Cpu, mmu: &mut Mmu, args: &[u8]) -> (r: i16)
        requires
            old(self).cycles <= i16::MAX - 12,
            0x00C0 <= old(self).opcode < 0x0100,
            op_ok(operation(old(self).opcode), *old(cpu), old(mmu)@, args@),
        ensures
            cycles_reported(*old(self), *final(self), r),
            (r, *final(cpu), final(mmu)@) == op_spec(operation(old(self).opcode), old(self).cycles, *old(cpu), old(mmu)@, args@),
    {
        match self.opcode {
            0x00C0 => self.op_00c0(cpu, mmu, args),
            0x00C1 => self.op_00c1(cpu, mmu, args),
            0x00C2 => self.op_00c2(cpu, mmu, args),
            0x00C3 => self.op_00c3(cpu, mmu, args),
            0x00C4 => self.op_00c4(cpu, mmu, args),
            0x00C5 => self.op_00c5(cpu, mmu, args),
            0x00C6 => self.op_00c6(cpu, mmu, args),
            0x00C7 => self.op_00c7(cpu, mmu, args),
            0x00C8 => self.op_00c8(cpu, mmu, args),
            0x00C9 => self.op_00c9(cpu, mmu, args),
            0x00CA => self.op_00ca(cpu, mmu, args),
            0x00CC => self.op_00cc(cpu, mmu, args),
            0x00CD => self.op_00cd(cpu, mmu, args),
            0x00CE => self.op_00ce(cpu, mmu, args),
            0x00CF => self.op_00cf(cpu, mmu, args),
            0x00D0 => self.op_00d0(cpu, mmu, args),
            0x00D1 => self.op_00d1(cpu, mmu, args),
            0x00D2 => self.op_00d2(cpu, mmu, args),
            0x00D3 => self.invalid(cpu, mmu, args),
            0x00D4 => self.op_00d4(cpu, mmu, args),
            0x00D5 => self.op_00d5(cpu, mmu, args),
            0x00D6 => self.op_00d6(cpu, mmu, args),
            0x00D7 => self.op_00d7(cpu, mmu, args),
            0x00D8 => self.op_00d8(cpu, mmu, args),
            0x00D9 => self.op_00d9(cpu, mmu, args),
            0x00DA => self.op_00da(cpu, mmu, args),
            0x00DB => self.invalid(cpu, mmu, args),
            0x00DC => self.op_00dc(cpu, mmu, args),
            0x00DD => self.invalid(cpu, mmu, args),
            0x00DE => self.op_00de(cpu, mmu, args),
            0x00DF => self.op_00df(cpu, mmu, args),
            0x00E0 => self.op_00e0(cpu, mmu, args),
            0x00E1 => self.op_00e1(cpu, mmu, args),
            0x00E2 => self.op_00e2(cpu, mmu, args),
            0x00E3 => self.invalid(cpu, mmu, args),
            0x00E4 => self.invalid(cpu, mmu, args),
            0x00E5 => self.op_00e5(cpu, mmu, args),
            0x00E6 => self.op_00e6(cpu, mmu, args),
            0x00E7 => self.op_00e7(cpu, mmu, args),
            0x00E8 => self.op_00e8(cpu, mmu, args),
            0x00E9 => self.op_00e9(cpu, mmu, args),
            0x00EA => self.op_00ea(cpu, mmu, args),
            0x00EB => self.invalid(cpu, mmu, args),
            0x00EC => self.invalid(cpu, mmu, args),
            0x00ED => self.invalid(cpu, mmu, args),
            0x00EE => self.op_00ee(cpu, mmu, args),
            0x00EF => self.op_00ef(cpu, mmu, args),
            0x00F0 => self.op_00f0(cpu, mmu, args),
            0x00F1 => self.op_00f1(cpu, mmu, args),
            0x00F2 => self.op_00f2(cpu, mmu, args),
            0x00F3 => self.op_00f3(cpu, mmu, args),
            0x00F4 => self.invalid(cpu, mmu, args),
            0x00F5 => self.op_00f5(cpu, mmu, args),
            0x00F6 => self.op_00f6(cpu, mmu, args),
            0x00F7 => self.op_00f7(cpu, mmu, args),
            0x00F8 => self.op_00f8(cpu, mmu, args),
            0x00F9 => self.op_00f9(cpu, mmu, args),
            0x00FA => self.op_00fa(cpu, mmu, args),
            0x00FB => self.op_00fb(cpu, mmu, args),
            0x00FC => self.invalid(cpu, mmu, args),
            0x00FD => self.invalid(cpu, mmu, args),
            0x00FE => self.op_00fe(cpu, mmu, args),
            0x00FF => self.op_00ff(cpu, mmu, args),
            _ => self.unimplemented(cpu, mmu, args),
        }
    }

    fn execute_cb00_cb3f(&mut self, cpu: &mut Cpu, mmu: &mut Mmu, args: &[u8]) -> (r: i16)
        requires
            old(self).cycles <= i16::MAX - 12,
            0xCB00 <= old(self).opcode < 0xCB40,
            op_ok(operation(old(self).opcode), *old(cpu), old(mmu)@, args@),
        ensures
            cycles_reported(*old(self), *final(self), r),
            (r, *final(cpu), final(mmu)@) == op_spec(operation(old(self).opcode), old(self).cycles, *old(cpu), old(mmu)@, args@),
    {
        match self.opcode {
            0xCB00 => self.op_cb00(cpu, mmu, args),
            0xCB01 => self.op_cb01(cpu, mmu, args),
            0xCB02 => self.op_cb02(cpu, mmu, args),
            0xCB03 => self.op_cb03(cpu, mmu, args),
            0xCB04 => self.op_cb04(cpu, mmu, args),
            0xCB05 => self.op_cb05(cpu, mmu, args),
            0xCB06 => self.op_cb06(cpu, mmu, args),
            0xCB07 => self.op_cb07(cpu, mmu, args),
            0xCB08 => self.op_cb08(cpu, mmu, args),
            0xCB09 => self.op_cb09(cpu, mmu, args),
            0xCB0A => self.op_cb0a(cpu, mmu, args),
            0xCB0B => self.op_cb0b(cpu, mmu, args),
            0xCB0C => self.op_cb0c(cpu, mmu, args),
            0xCB0D => self.op_cb0d(cpu, mmu, args),
            0xCB0E => self.op_cb0e(cpu, mmu, args),
            0xCB0F => self.op_cb0f(cpu, mmu, args),
            0xCB10 => self.op_cb10(cpu, mmu, args),
            0xCB11 => self.op_cb11(cpu, mmu, args),
            0xCB12 => self.op_cb12(cpu, mmu, args),
            0xCB13 => self.op_cb13(cpu, mmu, args),
            0xCB14 => self.op_cb14(cpu, mmu, args),
            0xCB15 => self.op_cb15(cpu, mmu, args),
            0xCB16 => self.op_cb16(cpu, mmu, args),
            0xCB17 => self.op_cb17(cpu, mmu, args),
            0xCB18 => self.op_cb18(cpu, mmu, args),
            0xCB19 => self.op_cb19(cpu, mmu, args),
            0xCB1A => self.op_cb1a(cpu, mmu, args),
            0xCB1B => self.op_cb1b(cpu, mmu, args),
            0xCB1C => self.op_cb1c(cpu, mmu, args),
            0xCB1D => self.op_cb1d(cpu, mmu, args),
            0xCB1E => self.op_cb1e(cpu, mmu, args),
            0xCB1F => self.op_cb1f(cpu, mmu, args),
            0xCB20 => self.op_cb20(cpu, mmu, args),
            0xCB21 => self.op_cb21(cpu, mmu, args),
            0xCB22 => self.op_cb22(cpu, mmu, args),
            0xCB23 => self.op_cb23(cpu, mmu, args),
            0xCB24 => self.op_cb24(cpu, mmu, args),
            0xCB25 => self.op_cb25(cpu, mmu, args),
            0xCB26 => self.op_cb26(cpu, mmu, args),
            0xCB27 => self.op_cb27(cpu, mmu, args),
            0xCB28 => self.op_cb28(cpu, mmu, args),
            0xCB29 => self.op_cb29(cpu, mmu, args),
            0xCB2A => self.op_cb2a(cpu, mmu, args),
            0xCB2B => self.op_cb2b(cpu, mmu, args),
            0xCB2C => self.op_cb2c(cpu, mmu, args),
            0xCB2D => self.op_cb2d(cpu, mmu, args),
            0xCB2E => self.op_cb2e(cpu, mmu, args),
            0xCB2F => self.op_cb2f(cpu, mmu, args),
            0xCB30 => self.op_cb30(cpu, mmu, args),
            0xCB31 => self.op_cb31(cpu, mmu, args),
            0xCB32 => self.op_cb32(cpu, mmu, args),
            0xCB33 => self.op_cb33(cpu, mmu, args),
            0xCB34 => self.op_cb34(cpu, mmu, args),
            0xCB35 => self.op_cb35(cpu, mmu, args),
            0xCB36 => self.op_cb36(cpu, mmu, args),
            0xCB37 => self.op_cb37(cpu, mmu, args),
            0xCB38 => self.op_cb38(cpu, mmu, args),
            0xCB39 => self.op_cb39(cpu, mmu, args),
            0xCB3A => self.op_cb3a(cpu, mmu, args),
            0xCB3B => self.op_cb3b(cpu, mmu, args),
            0xCB3C => self.op_cb3c(cpu, mmu, args),
            0xCB3D => self.op_cb3d(cpu, mmu, args),
            0xCB3E => self.op_cb3e(cpu, mmu, args),
            0xCB3F => self.op_cb3f(cpu, mmu, args),
            _ => self.unimplemented(cpu, mmu, args),
        }
    }

    fn execute_cb40_cb7f(&mut self, cpu: &mut Cpu, mmu: &mut Mmu, args: &[u8]) -> (r: i16)
        requires
            old(self).cycles <= i16::MAX - 12,
            0xCB40 <= old(self).opcode < 0xCB80,
            op_ok(operation(old(self).opcode), *old(cpu), old(mmu)@, args@),
        ensures
            cycles_reported(*old(self), *final(self), r),
            (r, *final(cpu), final(mmu)@) == op_spec(operation(old(self).opcode), old(self).cycles, *old(cpu), old(mmu)@, args@),
    {
        match self.opcode {
            0xCB40 => self.op_cb40(cpu, mmu, args),
            0xCB41 => self.op_cb41(cpu, mmu, args),
            0xCB42 => self.op_cb42(cpu, mmu, args),
            0xCB43 => self.op_cb43(cpu, mmu, args),
            0xCB44 => self.op_cb44(cpu, mmu, args),
            0xCB45 => self.op_cb45(cpu, mmu, args),
            0xCB46 => self.op_cb46(cpu, mmu, args),
            0xCB47 => self.op_cb47(cpu, mmu, args),
            0xCB48 => self.op_cb48(cpu, mmu, args),
            0xCB49 => self.op_cb49(cpu, mmu, args),
            0xCB4A => self.op_cb4a(cpu, mmu, args),
            0xCB4B => self.op_cb4b(cpu, mmu, args),
            0xCB4C => self.op_cb4c(cpu, mmu, args),
            0xCB4D => self.op_cb4d(cpu, mmu, args),
            0xCB4E => self.op_cb4e(cpu, mmu, args),
            0xCB4F => self.op_cb4f(cpu, mmu, args),
            0xCB50 => self.op_cb50(cpu, mmu, args),
            0xCB51 => self.op_cb51(cpu, mmu, args),
            0xCB52 => self.op_cb52(cpu, mmu, args),
            0xCB53 => self.op_cb53(cpu, mmu, args),
            0xCB54 => self.op_cb54(cpu, mmu, args),
            0xCB55 => self.op_cb55(cpu, mmu, args),
            0xCB56 => self.op_cb56(cpu, mmu, args),
            0xCB57 => self.op_cb57(cpu, mmu, args),
            0xCB58 => self.op_cb58(cpu, mmu, args),
            0xCB59 => self.op_cb59(cpu, mmu, args),
            0xCB5A => self.op_cb5a(cpu, mmu, args),
            0xCB5B => self.op_cb5b(cpu, mmu, args),
            0xCB5C => self.op_cb5c(cpu, mmu, args),
            0xCB5D => self.op_cb5d(cpu, mmu, args),
            0xCB5E => self.op_cb5e(cpu, mmu, args),
            0xCB5F => self.op_cb5f(cpu, mmu, args),
            0xCB60 => self.op_cb60(cpu, mmu, args),
            0xCB61 => self.op_cb61(cpu, mmu, args),
            0xCB62 => self.op_cb62(cpu, mmu, args),
            0xCB63 => self.op_cb63(cpu, mmu, args),
            0xCB64 => self.op_cb64(cpu, mmu, args),
            0xCB65 => self.op_cb65(cpu, mmu, args),
            0xCB66 => self.op_cb66(cpu, mmu, args),
            0xCB67 => self.op_cb67(cpu, mmu, args),
            0xCB68 => self.op_cb68(cpu, mmu, args),
            0xCB69 => self.op_cb69(cpu, mmu, args),
            0xCB6A => self.op_cb6a(cpu, mmu, args),
            0xCB6B => self.op_cb6b(cpu, mmu, args),
            0xCB6C => self.op_cb6c(cpu, mmu, args),
            0xCB6D => self.op_cb6d(cpu, mmu, args),
            0xCB6E => self.op_cb6e(cpu, mmu, args),
            0xCB6F => self.op_cb6f(cpu, mmu, args),
            0xCB70 => self.op_cb70(cpu, mmu, args),
            0xCB71 => self.op_cb71(cpu, mmu, args),
            0xCB72 => self.op_cb72(cpu, mmu, args),
            0xCB73 => self.op_cb73(cpu, mmu, args),
            0xCB74 => self.op_cb74(cpu, mmu, args),
            0xCB75 => self.op_cb75(cpu, mmu, args),
            0xCB76 => self.op_cb76(cpu, mmu, args),
            0xCB77 => self.op_cb77(cpu, mmu, args),
            0xCB78 => self.op_cb78(cpu, mmu, args),
            0xCB79 => self.op_cb79(cpu, mmu, args),
            0xCB7A => self.op_cb7a(cpu, mmu, args),
            0xCB7B => self.op_cb7b(cpu, mmu, args),
            0xCB7C => self.op_cb7c(cpu, mmu, args),
            0xCB7D => self.op_cb7d(cpu, mmu, args),
            0xCB7E => self.op_cb7e(cpu, mmu, args),
            0xCB7F => self.op_cb7f(cpu, mmu, args),
            _ => self.unimplemented(cpu, mmu, args),
        }
    }

    fn execute_cb80_cbbf(&mut self, cpu: &mut Cpu, mmu: &mut Mmu, args: &[u8]) -> (r: i16)
        requires
            old(self).cycles <= i16::MAX - 12,
            0xCB80 <= old(self).opcode < 0xCBC0,
            op_ok(operation(old(self).opcode), *old(cpu), old(mmu)@, args@),
        ensures
            cycles_reported(*old(self), *final(self), r),
            (r, *final(cpu), final(mmu)@) == op_spec(operation(old(self).opcode), old(self).cycles, *old(cpu), old(mmu)@, args@),
    {
        match self.opcode {
            0xCB80 => self.op_cb80(cpu, mmu, args),
            0xCB81 => self.op_cb81(cpu, mmu, args),
            0xCB82 => self.op_cb82(cpu, mmu, args),
            0xCB83 => self.op_cb83(cpu, mmu, args),
            0xCB84 => self.op_cb84(cpu, mmu, args),
            0xCB85 => self.op_cb85(cpu, mmu, args),
            0xCB86 => self.op_cb86(cpu, mmu, args),
            0xCB87 => self.op_cb87(cpu, mmu, args),
            0xCB88 => self.op_cb88(cpu, mmu, args),
            0xCB89 => self.op_cb89(cpu, mmu, args),
            0xCB8A => self.op_cb8a(cpu, mmu, args),
            0xCB8B => self.op_cb8b(cpu, mmu, args),
            0xCB8C => self.op_cb8c(cpu, mmu, args),
            0xCB8D => self.op_cb8d(cpu, mmu, args),
            0xCB8E => self.op_cb8e(cpu, mmu, args),
            0xCB8F => self.op_cb8f(cpu, mmu, args),
            0xCB90 => self.op_cb90(cpu, mmu, args),
            0xCB91 => self.op_cb91(cpu, mmu, args),
            0xCB92 => self.op_cb92(cpu, mmu, args),
            0xCB93 => self.op_cb93(cpu, mmu, args),
            0xCB94 => self.op_cb94(cpu, mmu, args),
            0xCB95 => self.op_cb95(cpu, mmu, args),
            0xCB96 => self.op_cb96(cpu, mmu, args),
            0xCB97 => self.op_cb97(cpu, mmu, args),
            0xCB98 => self.op_cb98(cpu, mmu, args),
            0xCB99 => self.op_cb99(cpu, mmu, args),
            0xCB9A => self.op_cb9a(cpu, mmu, args),
            0xCB9B => self.op_cb9b(cpu, mmu, args),
            0xCB9C => self.op_cb9c(cpu, mmu, args),
            0xCB9D => self.op_cb9d(cpu, mmu, args),
            0xCB9E => self.op_cb9e(cpu, mmu, args),
            0xCB9F => self.op_cb9f(cpu, mmu, args),
            0xCBA0 => self.op_cba0(cpu, mmu, args),
            0xCBA1 => self.op_cba1(cpu, mmu, args),
            0xCBA2 => self.op_cba2(cpu, mmu, args),
            0xCBA3 => self.op_cba3(cpu, mmu, args),
            0xCBA4 => self.op_cba4(cpu, mmu, args),
            0xCBA5 => self.op_cba5(cpu, mmu, args),
            0xCBA6 => self.op_cba6(cpu, mmu, args),
            0xCBA7 => self.op_cba7(cpu, mmu, args),
            0xCBA8 => self.op_cba8(cpu, mmu, args),
            0xCBA9 => self.op_cba9(cpu, mmu, args),
            0xCBAA => self.op_cbaa(cpu, mmu, args),
            0xCBAB => self.op_cbab(cpu, mmu, args),
            0xCBAC => self.op_cbac(cpu, mmu, args),
            0xCBAD => self.op_cbad(cpu, mmu, args),
            0xCBAE => self.op_cbae(cpu, mmu, args),
            0xCBAF => self.op_cbaf(cpu, mmu, args),
            0xCBB0 => self.op_cbb0(cpu, mmu, args),
            0xCBB1 => self.op_cbb1(cpu, mmu, args),
            0xCBB2 => self.op_cbb2(cpu, mmu, args),
            0xCBB3 => self.op_cbb3(cpu, mmu, args),
            0xCBB4 => self.op_cbb4(cpu, mmu, args),
            0xCBB5 => self.op_cbb5(cpu, mmu, args),
            0xCBB6 => self.op_cbb6(cpu, mmu, args),
            0xCBB7 => self.op_cbb7(cpu, mmu, args),
            0xCBB8 => self.op_cbb8(cpu, mmu, args),
            0xCBB9 => self.op_cbb9(cpu, mmu, args),
            0xCBBA => self.op_cbba(cpu, mmu, args),
            0xCBBB => self.op_cbbb(cpu, mmu, args),
            0xCBBC => self.op_cbbc(cpu, mmu, args),
            0xCBBD => self.op_cbbd(cpu, mmu, args),
            0xCBBE => self.op_cbbe(cpu, mmu, args),
            0xCBBF => self.op_cbbf(cpu, mmu, args),
            _ => self.unimplemented(cpu, mmu, args),
        }
    }

    fn execute_cbc0_cbff(&mut self, cpu: &mut Cpu, mmu: &mut Mmu, args: &[u8]) -> (r: i16)
        requires
            old(self).cycles <= i16::MAX - 12,
            0xCBC0 <= old(self).opcode < 0xCC00,
            op_ok(operation(old(self).opcode), *old(cpu), old(mmu)@, args@),
        ensures
            cycles_reported(*old(self), *final(self), r),
            (r, *final(cpu), final(mmu)@) == op_spec(operation(old(self).opcode), old(self).cycles, *old(cpu), old(mmu)@, args@),
    {
        match self.opcode {
            0xCBC0 => self.op_cbc0(cpu, mmu, args),
            0xCBC1 => self.op_cbc1(cpu, mmu, args),
            0xCBC2 => self.op_cbc2(cpu, mmu, args),
            0xCBC3 => self.op_cbc3(cpu, mmu, args),
            0xCBC4 => self.op_cbc4(cpu, mmu, args),
            0xCBC5 => self.op_cbc5(cpu, mmu, args),
            0xCBC6 => self.op_cbc6(cpu, mmu, args),
            0xCBC7 => self.op_cbc7(cpu, mmu, args),
            0xCBC8 => self.op_cbc8(cpu, mmu, args),
            0xCBC9 => self.op_cbc9(cpu, mmu, args),
            0xCBCA => self.op_cbca(cpu, mmu, args),
            0xCBCB => self.op_cbcb(cpu, mmu, args),
            0xCBCC => self.op_cbcc(cpu, mmu, args),
            0xCBCD => self.op_cbcd(cpu, mmu, args),
            0xCBCE => self.op_cbce(cpu, mmu, args),
            0xCBCF => self.op_cbcf(cpu, mmu, args),
            0xCBD0 => self.op_cbd0(cpu, mmu, args),
            0xCBD1 => self.op_cbd1(cpu, mmu, args),
            0xCBD2 => self.op_cbd2(cpu, mmu, args),
            0xCBD3 => self.op_cbd3(cpu, mmu, args),
            0xCBD4 => self.op_cbd4(cpu, mmu, args),
            0xCBD5 => self.op_cbd5(cpu, mmu, args),
            0xCBD6 => self.op_cbd6(cpu, mmu, args),
            0xCBD7 => self.op_cbd7(cpu, mmu, args),
            0xCBD8 => self.op_cbd8(cpu, mmu, args),
            0xCBD9 => self.op_cbd9(cpu, mmu, args),
            0xCBDA => self.op_cbda(cpu, mmu, args),
            0xCBDB => self.op_cbdb(cpu, mmu, args),
            0xCBDC => self.op_cbdc(cpu, mmu, args),
            0xCBDD => self.op_cbdd(cpu, mmu, args),
            0xCBDE => self.op_cbde(cpu, mmu, args),
            0xCBDF => self.op_cbdf(cpu, mmu, args),
            0xCBE0 => self.op_cbe0(cpu, mmu, args),
            0xCBE1 => self.op_cbe1(cpu, mmu, args),
            0xCBE2 => self.op_cbe2(cpu, mmu, args),
            0xCBE3 => self.op_cbe3(cpu, mmu, args),
            0xCBE4 => self.op_cbe4(cpu, mmu, args),
            0xCBE5 => self.op_cbe5(cpu, mmu, args),
            0xCBE6 => self.op_cbe6(cpu, mmu, args),
            0xCBE7 => self.op_cbe7(cpu, mmu, args),
            0xCBE8 => self.op_cbe8(cpu, mmu, args),
            0xCBE9 => self.op_cbe9(cpu, mmu, args),
            0xCBEA => self.op_cbea(cpu, mmu, args),
            0xCBEB => self.op_cbeb(cpu, mmu, args),
            0xCBEC => self.op_cbec(cpu, mmu, args),
            0xCBED => self.op_cbed(cpu, mmu, args),
            0xCBEE => self.op_cbee(cpu, mmu, args),
            0xCBEF => self.op_cbef(cpu, mmu, args),
            0xCBF0 => self.op_cbf0(cpu, mmu, args),
            0xCBF1 => self.op_cbf1(cpu, mmu, args),
            0xCBF2 => self.op_cbf2(cpu, mmu, args),
            0xCBF3 => self.op_cbf3(cpu, mmu, args),
            0xCBF4 => self.op_cbf4(cpu, mmu, args),
            0xCBF5 => self.op_cbf5(cpu, mmu, args),
            0xCBF6 => self.op_cbf6(cpu, mmu, args),
            0xCBF7 => self.op_cbf7(cpu, mmu, args),
            0xCBF8 => self.op_cbf8(cpu, mmu, args),
            0xCBF9 => self.op_cbf9(cpu, mmu, args),
            0xCBFA => self.op_cbfa(cpu, mmu, args),
            0xCBFB => self.op_cbfb(cpu, mmu, args),
            0xCBFC => self.op_cbfc(cpu, mmu, args),
            0xCBFD => self.op_cbfd(cpu, mmu, args),
            0xCBFE => self.op_cbfe(cpu, mmu, args),
            0xCBFF => self.op_cbff(cpu, mmu, args),
            _ => self.unimplemented(cpu, mmu, args),
        }
    }
}

} // verus!
