use vstd::prelude::*;
use crate::mmu::{Caller, Mmu, MmuView};

verus! {

/// Whether bit `n` of a byte is set.
pub open spec fn bit_set(value: u8, n: u8) -> bool {
    value & (1u8 << n) != 0
}

/// The byte with bit `n` set (`set`) or cleared.
pub open spec fn with_bit(value: u8, n: u8, set: bool) -> u8 {
    if set { value | (1u8 << n) } else { value & !(1u8 << n) }
}

/// A memory-mapped register, named by its address.
#[derive(Clone, Copy, PartialEq, Eq, Structural, Debug)]
pub struct Register {
    pub address: u16,
    pub value: u8,
}

impl Register {
    pub fn new(address: u16) -> (r: Register)
        ensures
            r == (Register { address, value: 0 }),
    {
        Register::_new(address, 0)
    }

    pub fn _new(address: u16, value: u8) -> (r: Register)
        ensures
            r == (Register { address, value }),
    {
        Register { address, value }
    }

    pub fn read(&self, mmu: &Mmu, caller: Caller) -> (r: u8)
        requires
            mmu@.read_8_ok(self.address),
        ensures
            r == mmu@.read_8(self.address, caller),
    {
        mmu.read_8(self.address, caller)
    }

    pub fn write(&self, mmu: &mut Mmu, value: u8, caller: Caller)
        requires
            old(mmu)@.write_8_ok(self.address),
        ensures
            final(mmu)@ == old(mmu)@.write_8(self.address, value, caller),
    {
        mmu.write_8(self.address, value, caller);
    }

    pub fn check_bit(&self, mmu: &Mmu, bit: u8, caller: Caller) -> (r: bool)
        requires
            bit < 8,
            mmu@.read_8_ok(self.address),
        ensures
            r == bit_set(mmu@.read_8(self.address, caller), bit),
    {
        let value = self.read(mmu, caller);
        proof { crate::bits::lemma_bit_ops(value, bit); }
        (value & (1u8 << bit)) >> bit == 1
    }

    pub fn set_bit(&self, mmu: &mut Mmu, bit: u8, set: bool, caller: Caller)
        requires
            bit < 8,
            old(mmu)@.read_8_ok(self.address),
            old(mmu)@.write_8_ok(self.address),
        ensures
            final(mmu)@ == old(mmu)@.write_8(self.address,
                with_bit(old(mmu)@.read_8(self.address, caller), bit, set), caller),
    {
        let mut value = self.read(mmu, caller);
        let v0 = value;
        value ^= value & (1u8 << bit);
        value |= if set { 1u8 << bit } else { 0 };
        proof { crate::bits::lemma_bit_ops(v0, bit); }
        self.write(mmu, value, caller);
    }
}

} // verus!
