use vstd::prelude::*;
use crate::mmu::{Caller, Mmu, MmuView, IE_REG, IF_REG};
use crate::register::{Register, bit_set, with_bit};

verus! {

/// The five interrupt sources, by their bit in IE and IF.
#[derive(Clone, Copy, PartialEq, Eq, Structural, Debug)]
pub enum InterruptRegBit {
    VBlank,
    LcdStat,
    Timer,
    Serial,
    Joypad,
}

impl InterruptRegBit {
    pub open spec fn bit_spec(self) -> u8 {
        match self {
            InterruptRegBit::VBlank => 0,
            InterruptRegBit::LcdStat => 1,
            InterruptRegBit::Timer => 2,
            InterruptRegBit::Serial => 3,
            InterruptRegBit::Joypad => 4,
        }
    }

    /// The bit position (`bit as u8`).
    pub fn bit(self) -> (r: u8)
        ensures
            r == self.bit_spec(),
    {
        match self {
            InterruptRegBit::VBlank => 0,
            InterruptRegBit::LcdStat => 1,
            InterruptRegBit::Timer => 2,
            InterruptRegBit::Serial => 3,
            InterruptRegBit::Joypad => 4,
        }
    }
}

/// The interrupt enable (IE) and request (IF) registers and the master enable.
#[derive(Clone, Copy, PartialEq, Eq, Structural, Debug)]
pub struct Interrupts {
    pub enabled: Register,
    pub requested: Register,
    pub ime: bool,
}

/// The memory after setting (`set`) or clearing bit `n` of IF.
pub open spec fn with_request_bit(mmu: MmuView, n: u8, set: bool) -> MmuView {
    mmu.with_ram(IF_REG, with_bit(mmu.ram_at(IF_REG), n, set))
}

impl Interrupts {
    /// The registers name IE and IF.
    pub open spec fn wf(self) -> bool {
        self.enabled.address == IE_REG && self.requested.address == IF_REG
    }

    /// The interrupts both enabled and requested, when the master enable is set.
    pub open spec fn pending_spec(self, mmu: MmuView) -> u8 {
        if self.ime { mmu.ram_at(IE_REG) & mmu.ram_at(IF_REG) } else { 0 }
    }

    /// What a poll answers and leaves: the handler address of the pending
    /// interrupt of highest priority (lowest bit), with its request cleared;
    /// 0 and nothing changed when none is pending.
    pub open spec fn poll_spec(self, mmu: MmuView) -> (u8, MmuView) {
        let p = self.pending_spec(mmu);
        if bit_set(p, 0) {
            (0x40, with_request_bit(mmu, 0, false))
        } else if bit_set(p, 1) {
            (0x48, with_request_bit(mmu, 1, false))
        } else if bit_set(p, 2) {
            (0x50, with_request_bit(mmu, 2, false))
        } else if bit_set(p, 3) {
            (0x58, with_request_bit(mmu, 3, false))
        } else if bit_set(p, 4) {
            (0x60, with_request_bit(mmu, 4, false))
        } else {
            (0, mmu)
        }
    }

    pub fn new() -> (r: Interrupts)
        ensures
            r.wf(),
            !r.ime,
            r.enabled.value == 0,
            r.requested.value == 0,
    {
        Interrupts {
            ime: false,
            enabled: Register::new(IE_REG),
            requested: Register::new(IF_REG),
        }
    }

    pub fn set_ime(&mut self, ime: bool)
        ensures
            *final(self) == (Interrupts { ime, ..*old(self) }),
    {
        self.ime = ime;
    }

    /// Requests an interrupt: sets its bit in IF.
    pub fn request(&self, requesting: InterruptRegBit, mmu: &mut Mmu)
        requires
            self.wf(),
        ensures
            final(mmu)@ == with_request_bit(old(mmu)@, requesting.bit_spec(), true),
    {
        self.requested.set_bit(mmu, requesting.bit(), true, Caller::CPU);
    }

    /// Whether any interrupt is requested.
    pub fn peek_requested(&self, mmu: &Mmu) -> (r: bool)
        requires
            self.wf(),
        ensures
            r == (mmu@.ram_at(IF_REG) != 0),
    {
        self.requested.read(mmu, Caller::CPU) != 0
    }

    pub fn peek_interrupts(&self, mmu: &Mmu) -> (r: u8)
        requires
            self.wf(),
        ensures
            r == self.pending_spec(mmu@),
    {
        if self.ime {
            self.enabled.read(mmu, Caller::CPU) & self.requested.read(mmu, Caller::CPU)
        } else {
            0
        }
    }

    pub fn poll(&self, mmu: &mut Mmu) -> (r: u8)
        requires
            self.wf(),
        ensures
            (r, final(mmu)@) == self.poll_spec(old(mmu)@),
    {
        let interrupt = self.peek_interrupts(mmu);
        proof {
            crate::bits::lemma_bit_ops(interrupt, 0);
            crate::bits::lemma_bit_ops(interrupt, 1);
            crate::bits::lemma_bit_ops(interrupt, 2);
            crate::bits::lemma_bit_ops(interrupt, 3);
            crate::bits::lemma_bit_ops(interrupt, 4);
        }
        if interrupt & (1u8 << 0u8) == (1u8 << 0u8) {
            self.requested.set_bit(mmu, 0, false, Caller::CPU);
            0x40
        } else if interrupt & (1u8 << 1u8) == (1u8 << 1u8) {
            self.requested.set_bit(mmu, 1, false, Caller::CPU);
            0x48
        } else if interrupt & (1u8 << 2u8) == (1u8 << 2u8) {
            self.requested.set_bit(mmu, 2, false, Caller::CPU);
            0x50
        } else if interrupt & (1u8 << 3u8) == (1u8 << 3u8) {
            self.requested.set_bit(mmu, 3, false, Caller::CPU);
            0x58
        } else if interrupt & (1u8 << 4u8) == (1u8 << 4u8) {
            self.requested.set_bit(mmu, 4, false, Caller::CPU);
            0x60
        } else {
            0
        }
    }
}

/// The handler address of interrupt bit `n`: 0x40 + 8n.
pub open spec fn handler_address(n: u8) -> u8 {
    (0x40 + 8 * n) as u8
}

/// A poll serves the pending interrupt of highest priority: when bit `n` is
/// the lowest bit set among the five of IE & IF (with the master enable set),
/// the poll answers its handler address and clears that request bit only; with
/// none pending it answers 0 and changes nothing.
pub proof fn lemma_poll_priority(i: Interrupts, m: MmuView, n: u8)
    requires
        m.wf(),
        n < 5,
        bit_set(i.pending_spec(m), n),
        forall|k: u8| k < n ==> !bit_set(i.pending_spec(m), k),
    ensures
        i.poll_spec(m).0 == handler_address(n),
        i.poll_spec(m).1 == with_request_bit(m, n, false),
{
    assert(!bit_set(i.pending_spec(m), 0) || n == 0);
    if n >= 2 {
        assert(!bit_set(i.pending_spec(m), 1));
    }
    if n >= 3 {
        assert(!bit_set(i.pending_spec(m), 2));
    }
    if n >= 4 {
        assert(!bit_set(i.pending_spec(m), 3));
    }
}

/// With nothing pending, a poll answers 0 and changes nothing.
pub proof fn lemma_poll_none(i: Interrupts, m: MmuView)
    requires
        forall|k: u8| k < 5 ==> !bit_set(i.pending_spec(m), k),
    ensures
        i.poll_spec(m) == (0u8, m),
{
    assert(!bit_set(i.pending_spec(m), 0));
    assert(!bit_set(i.pending_spec(m), 1));
    assert(!bit_set(i.pending_spec(m), 2));
    assert(!bit_set(i.pending_spec(m), 3));
    assert(!bit_set(i.pending_spec(m), 4));
}

} // verus!
