use vstd::prelude::*;
use crate::mmu::{Caller, Mmu, MmuView, DIV_REG, TIMA_REG, TMA_REG, TAC_REG};
use crate::register::Register;

verus! {

/// The divider and timer registers, and whether TIMA overflowed on the last tick.
#[derive(Clone, Copy, PartialEq, Eq, Structural, Debug)]
pub struct Timer {
    pub is_in_stop_mode: bool,
    pub tima_overflow: bool,
    /// FF04 — DIV: the top byte of the 16-bit system counter.
    pub div: Register,
    /// FF05 — TIMA: timer counter.
    pub tima: Register,
    /// FF06 — TMA: timer modulo.
    pub tma: Register,
    /// FF07 — TAC: timer control.
    pub tac: Register,
}

/// Whether TAC enables counting (bit 2).
pub open spec fn tac_enabled_spec(tac: u8) -> bool {
    (tac / 4) % 2 == 1
}

/// The bit of the system counter that drives TIMA at the frequency TAC selects.
pub open spec fn counter_bit_spec(tac: u8) -> u16 {
    let f = tac % 4;
    if f == 0 { 0x200 } else if f == 3 { 0x80 } else if f == 2 { 0x20 } else { 0x08 }
}

pub open spec fn counter_bit_flipped_spec(counter: u16, tac: u8) -> bool {
    counter & counter_bit_spec(tac) == counter_bit_spec(tac)
}

/// A timer step: the internal counter advances by the cycles and DIV shows its
/// top byte; a TIMA that overflowed on the previous step is reloaded from TMA
/// and the interrupt requested; otherwise, when TAC enables counting, TIMA is
/// incremented whenever the counter bit that TAC selects changed across the
/// step, and an increment from 255 marks an overflow. In stop mode nothing
/// happens. The result is the timer, the memory and whether to request the
/// timer interrupt.
pub open spec fn timer_step_spec(t: Timer, m: MmuView, cycles: u16) -> (Timer, MmuView, bool) {
    let tac = m.ram_at(TAC_REG);
    let clock = ((m.sysclock + cycles) % 65536) as u16;
    let ticked = MmuView { sysclock: clock, ..m.with_ram(DIV_REG, (clock / 256) as u8) };
    let tima = m.ram_at(TIMA_REG);
    let increments = tac_enabled_spec(tac)
        && counter_bit_flipped_spec(m.sysclock, tac) != counter_bit_flipped_spec(clock, tac);
    if t.is_in_stop_mode {
        (t, m, false)
    } else if t.tima_overflow {
        (Timer { tima_overflow: false, ..t }, ticked.with_ram(TIMA_REG, m.ram_at(TMA_REG)), true)
    } else if increments {
        (Timer { tima_overflow: tima == 255, ..t }, ticked.with_ram(TIMA_REG, ((tima + 1) % 256) as u8), false)
    } else {
        (t, ticked, false)
    }
}

impl Timer {
    /// The registers name DIV, TIMA, TMA and TAC.
    pub open spec fn wf(self) -> bool {
        &&& self.div.address == DIV_REG
        &&& self.tima.address == TIMA_REG
        &&& self.tma.address == TMA_REG
        &&& self.tac.address == TAC_REG
    }

    pub fn new() -> (r: Timer)
        ensures
            r.wf(),
            !r.is_in_stop_mode,
            !r.tima_overflow,
            r == (Timer {
                is_in_stop_mode: false,
                tima_overflow: false,
                div: Register { address: DIV_REG, value: 0 },
                tima: Register { address: TIMA_REG, value: 0 },
                tma: Register { address: TMA_REG, value: 0 },
                tac: Register { address: TAC_REG, value: 0 },
            }),
    {
        Timer {
            is_in_stop_mode: false,
            tima_overflow: false,
            div: Register::new(DIV_REG),
            tima: Register::new(TIMA_REG),
            tma: Register::new(TMA_REG),
            tac: Register::new(TAC_REG),
        }
    }

    pub fn is_tac_enabled(tac: u8) -> (r: bool)
        ensures
            r == tac_enabled_spec(tac),
    {
        proof { crate::bits::lemma_byte_bits(tac); }
        (tac & 0b0100) == 0b0100
    }

    pub fn is_counter_bit_flipped(internal_counter: u16, tac: u8) -> (r: bool)
        ensures
            r == counter_bit_flipped_spec(internal_counter, tac),
    {
        let bit_mask = Timer::counter_bit(tac);
        (internal_counter & bit_mask) == bit_mask
    }

    /// Used to mask bits of the sysclock.
    fn counter_bit(tac: u8) -> (r: u16)
        ensures
            r == counter_bit_spec(tac),
    {
        proof { crate::bits::lemma_byte_bits(tac); }
        assert(1u16 << 9u16 == 0x200 && 1u16 << 7u16 == 0x80 && 1u16 << 5u16 == 0x20
            && 1u16 << 3u16 == 0x08) by (bit_vector);
        match tac & 0b11 {
            0b00 => 1u16 << 9u16,
            0b11 => 1u16 << 7u16,
            0b10 => 1u16 << 5u16,
            _ => 1u16 << 3u16,
        }
    }

    /// Advances the system counter by `cycles`, keeps DIV its top byte, and
    /// steps TIMA; returns whether the timer interrupt is to be requested.
    ///
    /// A TIMA that overflowed on the previous tick is reloaded from TMA now (and
    /// the interrupt requested); otherwise, when TAC enables counting, TIMA is
    /// incremented whenever the selected counter bit changed across the tick.
    pub fn step(&mut self, mmu: &mut Mmu, cycles: u16) -> (request_interrupt: bool)
        requires
            old(self).wf(),
            old(mmu)@.wf(),
        ensures
            final(self).wf(),
            (*final(self), final(mmu)@, request_interrupt) == timer_step_spec(*old(self), old(mmu)@, cycles),
    {
        let mut request_interrupt = false;

        if self.is_in_stop_mode {
            return false;
        }

        // Check TAC
        let tac = self.tac.read(mmu, Caller::TIMER);
        let tima_incr_is_enabled = Timer::is_tac_enabled(tac);

        // Using TAC, check sysclock counter bit (before clock is incremented)
        let prev_counter_bit = Timer::is_counter_bit_flipped(mmu.sysclock, tac);

        // Increment internal/system clock by cycles, which in turn increments DIV.
        mmu.sysclock = mmu.sysclock.wrapping_add(cycles);

        // DIV = top 8 bits of the sysclock
        let curr_div = self.div.read(mmu, Caller::TIMER);
        let clock = mmu.sysclock;
        assert((clock >> 8) as u8 == (clock / 256) as u8) by (bit_vector);
        let new_div = (mmu.sysclock >> 8) as u8;
        if new_div != curr_div {
            self.div.write(mmu, new_div, Caller::TIMER);
        } else {
            assert(mmu@.with_ram(DIV_REG, new_div).ram =~= mmu@.ram);
        }

        // If TIMA overflowed (on last tick), set TIMA to TMA and request interrupt.
        // Else increment TIMA according to TAC and DIV/sysclock.
        if self.tima_overflow {
            let tma = self.tma.read(mmu, Caller::TIMER);
            self.tima.write(mmu, tma, Caller::TIMER);
            self.tima_overflow = false;
            request_interrupt = true;
        } else if tima_incr_is_enabled {
            let new_counter_bit = Timer::is_counter_bit_flipped(mmu.sysclock, tac);
            let increment_tima = prev_counter_bit != new_counter_bit;
            if increment_tima {
                let tima = self.tima.read(mmu, Caller::TIMER);
                let new_tima = tima.wrapping_add(1);
                self.tima_overflow = tima == 255;
                self.tima.write(mmu, new_tima, Caller::TIMER);
            }
        }

        request_interrupt
    }
}

/// TIMA overflow: a step that increments TIMA from 255 leaves it at 0 and marks
/// the overflow; the next step reloads TIMA from TMA and requests the timer
/// interrupt.
pub proof fn lemma_tima_overflow_reload(t: Timer, m: MmuView, c1: u16, c2: u16)
    requires
        t.wf(),
        m.wf(),
        !t.is_in_stop_mode,
        !t.tima_overflow,
        m.ram_at(TIMA_REG) == 255,
        tac_enabled_spec(m.ram_at(TAC_REG)),
        counter_bit_flipped_spec(m.sysclock, m.ram_at(TAC_REG))
            != counter_bit_flipped_spec(((m.sysclock + c1) % 65536) as u16, m.ram_at(TAC_REG)),
    ensures
        ({
            let (t1, m1, req1) = timer_step_spec(t, m, c1);
            let (t2, m2, req2) = timer_step_spec(t1, m1, c2);
            &&& m1.ram_at(TIMA_REG) == 0
            &&& t1.tima_overflow
            &&& !req1
            &&& m2.ram_at(TIMA_REG) == m.ram_at(TMA_REG)
            &&& !t2.tima_overflow
            &&& req2
        }),
{
}

/// The number of cycles between two changes of the system-counter bit that TAC
/// selects by its low two bits: bit 9, 3, 5 or 7 for 0, 1, 2 or 3.
pub open spec fn counter_half_period(tac: u8) -> int {
    if tac % 4 == 0 { 512 } else if tac % 4 == 1 { 8 } else if tac % 4 == 2 { 32 } else { 128 }
}

/// The counter bit that TAC selects is bit 9, 3, 5 or 7 of the system counter
/// for a frequency field of 0, 1, 2 or 3: it reads as set exactly when that
/// bit of the counter is one.
pub proof fn lemma_counter_bit_selects(counter: u16, tac: u8)
    ensures
        counter_bit_flipped_spec(counter, tac) == ((counter as int / counter_half_period(tac)) % 2 == 1),
{
    assert((counter & 0x200 == 0x200) == ((counter / 512) % 2 == 1)) by (bit_vector);
    assert((counter & 0x08 == 0x08) == ((counter / 8) % 2 == 1)) by (bit_vector);
    assert((counter & 0x20 == 0x20) == ((counter / 32) % 2 == 1)) by (bit_vector);
    assert((counter & 0x80 == 0x80) == ((counter / 128) % 2 == 1)) by (bit_vector);
}

/// While counting is enabled and no overflow is pending, a step that does not
/// wrap the system counter increments TIMA (wrapping at 8 bits) exactly when
/// the selected counter bit changed across it, that is when the counter
/// crossed a multiple of the half period; otherwise TIMA is unchanged.
pub proof fn lemma_tima_follows_counter_bit(t: Timer, m: MmuView, cycles: u16)
    requires
        t.wf(),
        m.wf(),
        !t.is_in_stop_mode,
        !t.tima_overflow,
        tac_enabled_spec(m.ram_at(TAC_REG)),
        m.sysclock + cycles < 65536,
    ensures
        ({
            let d = counter_half_period(m.ram_at(TAC_REG));
            let tima = m.ram_at(TIMA_REG);
            let after = timer_step_spec(t, m, cycles).1.ram_at(TIMA_REG);
            &&& (m.sysclock as int / d) % 2 != ((m.sysclock + cycles) / d) % 2 ==> after == (tima + 1) % 256
            &&& (m.sysclock as int / d) % 2 == ((m.sysclock + cycles) / d) % 2 ==> after == tima
        }),
{
    let tac = m.ram_at(TAC_REG);
    let clock = ((m.sysclock + cycles) % 65536) as u16;
    lemma_counter_bit_selects(m.sysclock, tac);
    lemma_counter_bit_selects(clock, tac);
}

} // verus!
