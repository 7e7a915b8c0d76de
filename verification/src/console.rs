use vstd::prelude::*;
use crate::cartridge::Cartridge;
use crate::cpu::{Cpu, interrupts_ok, interrupts_spec, step_ok, step_spec};
use crate::cpu_registers::{CpuRegIndex, CpuRegisters};
use crate::debugger::Debugger;
use crate::input::Callback;
use crate::interrupts::{InterruptRegBit, Interrupts, with_request_bit};
use crate::register::Register;
use crate::sprite_attribute::sprite_attribute_spec;
use crate::mmu::{Caller, Mmu, MmuView, DIV_REG, IE_REG, IF_REG, JOYPAD_REG, LCD_CONTROL_REG, LCD_STATUS_REG,
    LY_REG, TAC_REG, TIMA_REG, TMA_REG};
use crate::ppu::{Ppu, PpuView, StatMode, LCD_HEIGHT, LCD_WIDTH, ly_in_range, oam_dma_ok, oam_dma_spec, ppu_step_ok, ppu_step_spec};
use crate::timer::{Timer, timer_step_spec};

verus! {

pub const CYCLES_PER_FRAME: u64 = 69905;
pub const FRAMES_PER_SECOND: u64 = 60;

/// The machine: timer, CPU, memory and PPU, the cycles of the last tick, the
/// debugger, and run statistics.
pub struct Console {
    pub cycles: i16,
    pub skip_boot: bool,
    pub timer: Timer,
    pub cpu: Cpu,
    pub mmu: Mmu,
    pub ppu: Ppu,
    pub debugger: Option<Debugger>,
    pub total_cycles: u128,
    pub total_frames: u128,
    pub total_runtime: u128,
}

/// What the console asks of its host after a callback.
#[derive(Clone, Copy, PartialEq, Eq, Structural, Debug)]
pub enum CallbackOutcome {
    Continue,
    Exit,
    /// Print the machine state.
    Dump,
    /// Print the screen.
    PrintScreen,
}

/// Why a tick could not be carried out.
#[derive(Clone, Copy, PartialEq, Eq, Structural, Debug)]
pub enum TickError {
    /// The negative cycle count the CPU reported for its step.
    Status(i16),
    /// A part of the tick is not defined on the machine's state.
    Fault,
}

/// The memory after the timer's part of a tick: its step, and the timer
/// interrupt requested when the step asks for it.
pub open spec fn tick_timer(cycles: i16, timer: Timer, m: MmuView) -> (Timer, MmuView) {
    let (t1, m1, request) = timer_step_spec(timer, m, cycles as u16);
    (t1, if request { with_request_bit(m1, 2, true) } else { m1 })
}

/// The state before the CPU's part of a tick: after the timer, one OAM DMA
/// step and a PPU step, each with the cycles of the previous tick.
pub open spec fn tick_before_cpu(cycles: i16, timer: Timer, m: MmuView, p: PpuView) -> (Timer, MmuView, PpuView) {
    let (t1, m1) = tick_timer(cycles, timer, m);
    let m2 = oam_dma_spec(m1);
    let (p3, m3) = ppu_step_spec(p, m2, cycles as u16);
    (t1, m3, p3)
}

/// Whether a tick cannot fault.
pub open spec fn tick_ok(cycles: i16, timer: Timer, cpu: Cpu, m: MmuView, p: PpuView) -> bool {
    let (t1, m1) = tick_timer(cycles, timer, m);
    let (t3, m3, p3) = tick_before_cpu(cycles, timer, m, p);
    let (r, c4, m4) = step_spec(cpu, m3);
    let (ri, c5, m5) = interrupts_spec(c4, m4);
    &&& cycles >= 0
    &&& oam_dma_ok(m1)
    &&& ppu_step_ok(p, oam_dma_spec(m1), cycles as u16)
    &&& step_ok(cpu, m3)
    &&& r >= 0 ==> interrupts_ok(c4, m4) && r + ri <= i16::MAX
}

/// One tick of the machine: the timer, OAM DMA and the PPU advance by the
/// cycles of the previous tick, then the CPU runs a step; a negative cycle
/// count from the CPU is an error and ends the tick, else interrupts are
/// serviced and the tick's cycles are those of the step and of the servicing.
pub open spec fn tick_spec(cycles: i16, timer: Timer, cpu: Cpu, m: MmuView, p: PpuView)
    -> (i16, Timer, Cpu, MmuView, PpuView) {
    let (t3, m3, p3) = tick_before_cpu(cycles, timer, m, p);
    let (r, c4, m4) = step_spec(cpu, m3);
    if r < 0 {
        (r, t3, c4, m4, p3)
    } else {
        let (ri, c5, m5) = interrupts_spec(c4, m4);
        ((r + ri) as i16, t3, c5, m5, p3)
    }
}

proof fn lemma_tick_timer_keeps_ly_in_range(cycles: i16, timer: Timer, m: MmuView)
    requires
        m.wf(),
        ly_in_range(m),
    ensures
        tick_timer(cycles, timer, m).1.wf(),
        ly_in_range(tick_timer(cycles, timer, m).1),
{
}

/// A tick keeps LY in range (below 154, and below 144 while the PPU searches
/// OAM or transfers pixels), and so the tick's PPU step can only fault by
/// overflowing its cycle count.
pub proof fn lemma_tick_keeps_ly_in_range(cycles: i16, timer: Timer, cpu: Cpu, m: MmuView, p: PpuView)
    requires
        m.wf(),
        ly_in_range(m),
    ensures
        tick_spec(cycles, timer, cpu, m, p).3.wf(),
        ly_in_range(tick_spec(cycles, timer, cpu, m, p).3),
        p.mode_cycle_count + (cycles as u16) <= usize::MAX
            ==> ppu_step_ok(p, oam_dma_spec(tick_timer(cycles, timer, m).1), cycles as u16),
{
    let (t1, m1) = tick_timer(cycles, timer, m);
    lemma_tick_timer_keeps_ly_in_range(cycles, timer, m);
    crate::ppu::lemma_oam_dma_keeps_ly_in_range(m1);
    let m2 = oam_dma_spec(m1);
    if p.mode_cycle_count + (cycles as u16) <= usize::MAX {
        crate::ppu::lemma_ly_in_range_step_ok(p, m2, cycles as u16);
    }
    crate::ppu::lemma_ppu_step_keeps_ly_in_range(p, m2, cycles as u16);
    let (p3, m3) = ppu_step_spec(p, m2, cycles as u16);
    crate::cpu::lemma_step_keeps_ly_in_range(cpu, m3);
    let (r, c4, m4) = step_spec(cpu, m3);
    crate::cpu::lemma_interrupts_keep_ly_in_range(c4, m4);
}

/// What a host callback does to the debugger and the memory, and what it asks
/// of the host.
pub open spec fn callback_effect(d: Option<Debugger>, m: MmuView, callback: Callback)
    -> (Option<Debugger>, MmuView, CallbackOutcome) {
    match callback {
        Callback::DebugBreak => match d {
            Some(dbg) => (Some(if dbg.enabled { Debugger { active: !dbg.active, ..dbg } } else { dbg }), m,
                if dbg.enabled && !dbg.active { CallbackOutcome::Dump } else { CallbackOutcome::Continue }),
            None => (d, m, CallbackOutcome::Continue),
        },
        Callback::DebugPeek => (d, m, if d matches Some(dbg) && dbg.enabled { CallbackOutcome::Dump } else {
            CallbackOutcome::Continue }),
        Callback::DebugPrintScreen => (d, m, if d is Some { CallbackOutcome::PrintScreen } else {
            CallbackOutcome::Continue }),
        Callback::Exit => (d, m, CallbackOutcome::Exit),
        _ => (d, with_request_bit(m, 4, true), CallbackOutcome::Continue),
    }
}

/// What a batch of callbacks does, one after the other, up to and including the
/// first Exit: the callbacks after it are dropped.
pub open spec fn callbacks_effect(d: Option<Debugger>, m: MmuView, callbacks: Seq<Callback>)
    -> (Option<Debugger>, MmuView, Seq<CallbackOutcome>)
    decreases callbacks.len(),
{
    if callbacks.len() == 0 {
        (d, m, Seq::empty())
    } else {
        let (d1, m1, o) = callback_effect(d, m, callbacks[0]);
        if o == CallbackOutcome::Exit {
            (d1, m1, seq![o])
        } else {
            let (d2, m2, os) = callbacks_effect(d1, m1, callbacks.drop_first());
            (d2, m2, seq![o] + os)
        }
    }
}

impl Console {
    pub open spec fn wf(&self) -> bool {
        &&& self.timer.wf()
        &&& self.cpu.wf()
        &&& self.ppu.wf()
    }

    /// Whether the debugger holds the machine paused.
    pub open spec fn paused(&self) -> bool {
        self.debugger matches Some(d) && d.active
    }

    pub fn new(debug: bool, cpu_debug_print: bool, skip_boot: bool, cartridge: Option<Cartridge>, bootrom: &[u8])
        -> (r: Console)
        ensures
            r.wf(),
            r.cycles == 0,
            r.skip_boot == skip_boot,
            r.cpu.debug_print_on == cpu_debug_print,
            r.debugger == (if debug { Some(Debugger { enabled: true, active: false }) } else { None }),
            r.total_cycles == 0,
            r.total_frames == 0,
            r.total_runtime == 0,
            ly_in_range(r.mmu@),
            // The memory map as `Mmu::new` builds it.
            r.mmu@.wf(),
            r.mmu@.sysclock == 0,
            r.mmu@.is_booting,
            r.mmu@.oam_dma_src_addr is None,
            r.mmu@.cartridge == (match cartridge { Some(c) => Some(c@), None => None }),
            r.mmu@.ppu_mode == StatMode::HBlank,
            forall|k| !r.mmu@.active_input.holds(k),
            forall|i: int| 0 <= i < 0x8000 ==> r.mmu@.rom[i] == if !skip_boot && i < bootrom@.len()
                && i < 0x100 { bootrom@[i] } else { 0 },
            forall|i: int| 0 <= i < 0x8000 ==> r.mmu@.ram[i] == if i == JOYPAD_REG - 0x8000 { 0x1Fu8 } else { 0 },
            // The CPU as `Cpu::new` builds it.
            r.cpu == (Cpu {
                is_halted: false,
                registers: CpuRegisters { a: 0, b: 0, c: 0, d: 0, e: 0, f: 0, h: 0, l: 0, pc: 0, sp: 0 },
                interrupts: Interrupts {
                    enabled: Register { address: IE_REG, value: 0 },
                    requested: Register { address: IF_REG, value: 0 },
                    ime: false,
                },
                debug_print_on: cpu_debug_print,
                trace: None,
            }),
            // The timer as `Timer::new` builds it.
            r.timer == (Timer {
                is_in_stop_mode: false,
                tima_overflow: false,
                div: Register { address: DIV_REG, value: 0 },
                tima: Register { address: TIMA_REG, value: 0 },
                tma: Register { address: TMA_REG, value: 0 },
                tac: Register { address: TAC_REG, value: 0 },
            }),
            // A blank PPU.
            r.ppu@.mode_cycle_count == 0,
            r.ppu@.sprites.len() == 40,
            forall|i: int| 0 <= i < 40 ==> r.ppu@.sprites[i] == sprite_attribute_spec(0, 0, 0, 0),
            r.ppu@.lcd.len() == LCD_WIDTH * LCD_HEIGHT,
            forall|i: int| 0 <= i < r.ppu@.lcd.len() ==> r.ppu@.lcd[i] == 0,
    {
        let timer = Timer::new();
        let mmu = Mmu::new(cartridge, skip_boot, bootrom);
        assert(mmu@.ram[LY_REG - 0x8000] == 0 && mmu@.ram[LCD_STATUS_REG - 0x8000] == 0);
        let cpu = Cpu::new(cpu_debug_print);
        let ppu = Ppu::new();
        let debugger = if debug { Some(Debugger::new()) } else { None };
        Console {
            cycles: 0,
            skip_boot,
            timer,
            cpu,
            mmu,
            ppu,
            debugger,
            total_cycles: 0,
            total_frames: 0,
            total_runtime: 0,
        }
    }

    /// The state the boot ROM leaves, set up directly when the boot is skipped:
    /// registers as after the boot, the LCD enabled and the boot ROM unmapped.
    pub fn skip_boot_setup(&mut self)
        requires
            old(self).wf(),
        ensures
            final(self).wf(),
            final(self).cpu == (Cpu { registers: final(self).cpu.registers, ..old(self).cpu }),
            final(self).cpu.registers.word(CpuRegIndex::AF) == 0x01B0,
            final(self).cpu.registers.word(CpuRegIndex::BC) == 0x0013,
            final(self).cpu.registers.word(CpuRegIndex::DE) == 0x00D8,
            final(self).cpu.registers.word(CpuRegIndex::HL) == 0x014D,
            final(self).cpu.registers.sp == 0xFFFE,
            final(self).cpu.registers.pc == 0x0100,
            final(self).mmu@ == (MmuView { is_booting: false,
                ..old(self).mmu@.write_8(LCD_CONTROL_REG, 0x91, Caller::CPU) }),
            final(self).ppu@ == old(self).ppu@,
            final(self).timer == old(self).timer,
            ly_in_range(old(self).mmu@) ==> ly_in_range(final(self).mmu@),
    {
        proof {
            if ly_in_range(self.mmu@) {
                crate::ppu::lemma_cpu_write_keeps_ly_in_range(self.mmu@, LCD_CONTROL_REG, 0x91);
            }
        }
        self.cpu.registers.set_word(CpuRegIndex::AF, 0x01B0);
        self.cpu.registers.set_word(CpuRegIndex::BC, 0x0013);
        self.cpu.registers.set_word(CpuRegIndex::DE, 0x00D8);
        self.cpu.registers.set_word(CpuRegIndex::HL, 0x014D);
        self.cpu.registers.set_word(CpuRegIndex::SP, 0xFFFE);
        self.cpu.registers.set_word(CpuRegIndex::PC, 0x0100);
        self.mmu.write_8(LCD_CONTROL_REG, 0x91, Caller::CPU);
        self.mmu.is_booting = false;
    }

    /// One tick; returns the cycles it took. It fails with the status the CPU
    /// reports when that is negative, and with a fault, leaving the machine part
    /// way through the tick, when a part of the tick is not defined (a memory
    /// access the memory map does not define, or a cycle count that overflows).
    /// While the debugger holds the machine paused, nothing runs and a tick counts
    /// 4 cycles.
    pub fn main_tick(&mut self) -> (r: Result<u16, TickError>)
        requires
            old(self).wf(),
        ensures
            final(self).wf(),
            old(self).paused() ==> r == Ok::<u16, TickError>(4) && final(self).cycles == old(self).cycles
                && final(self).timer == old(self).timer && final(self).cpu == old(self).cpu
                && final(self).mmu@ == old(self).mmu@ && final(self).ppu@ == old(self).ppu@,
            !old(self).paused() ==> (r == Err::<u16, TickError>(TickError::Fault) <==> !tick_ok(old(self).cycles,
                old(self).timer, old(self).cpu, old(self).mmu@, old(self).ppu@)),
            !old(self).paused() && tick_ok(old(self).cycles, old(self).timer, old(self).cpu, old(self).mmu@,
                old(self).ppu@) ==> {
                let (c, t, cpu, m, p) = tick_spec(old(self).cycles, old(self).timer, old(self).cpu,
                    old(self).mmu@, old(self).ppu@);
                &&& final(self).cycles == c
                &&& final(self).timer == t
                &&& final(self).cpu == cpu
                &&& final(self).mmu@ == m
                &&& final(self).ppu@ == p
                &&& r == if c < 0 { Err::<u16, TickError>(TickError::Status(c)) } else { Ok::<u16, TickError>(c as u16) }
            },
            ly_in_range(old(self).mmu@) ==> ly_in_range(final(self).mmu@),
            final(self).debugger == old(self).debugger,
            final(self).skip_boot == old(self).skip_boot,
            final(self).total_cycles == old(self).total_cycles,
            final(self).total_frames == old(self).total_frames,
            final(self).total_runtime == old(self).total_runtime,
    {
        let ghost in_range = ly_in_range(self.mmu@);
        if let Some(d) = &self.debugger {
            if d.active {
                return Ok(4);
            }
        }
        if self.cycles < 0 {
            return Err(TickError::Fault);
        }

        // Timer, with the cycles of the previous tick
        if self.timer.step(&mut self.mmu, self.cycles as u16) {
            self.cpu.interrupts.request(InterruptRegBit::Timer, &mut self.mmu);
        }

        proof {
            assert(in_range ==> self.mmu@.wf() && ly_in_range(self.mmu@));
        }

        // PPU: OAM DMA transfer, then a step
        if !self.ppu.can_oam_dma(&self.mmu) {
            return Err(TickError::Fault);
        }
        proof {
            if in_range {
                crate::ppu::lemma_oam_dma_keeps_ly_in_range(self.mmu@);
            }
        }
        self.ppu.oam_dma(&mut self.mmu);
        if !self.ppu.can_step(self.cycles as u16, &self.mmu) {
            return Err(TickError::Fault);
        }
        proof {
            if in_range {
                crate::ppu::lemma_ppu_step_keeps_ly_in_range(self.ppu@, self.mmu@, self.cycles as u16);
            }
        }
        self.ppu.step(self.cycles as u16, &self.cpu.interrupts, &mut self.mmu);

        // CPU: one step
        proof {
            crate::cpu::lemma_step_keeps_wf(self.cpu, self.mmu@);
        }
        if !self.cpu.can_step(&self.mmu) {
            return Err(TickError::Fault);
        }
        proof {
            if in_range {
                crate::cpu::lemma_step_keeps_ly_in_range(self.cpu, self.mmu@);
            }
        }
        let steps = self.cpu.step(&mut self.mmu);
        self.cycles = steps;
        if steps < 0 {
            return Err(TickError::Status(steps));
        }

        // CPU: interrupts
        proof {
            crate::cpu::lemma_interrupts_keep_wf(self.cpu, self.mmu@);
        }
        if !self.cpu.can_handle_interrupts(&self.mmu) {
            return Err(TickError::Fault);
        }
        proof {
            if in_range {
                crate::cpu::lemma_interrupts_keep_ly_in_range(self.cpu, self.mmu@);
            }
        }
        let extra = self.cpu.handle_interrupts(&mut self.mmu);
        if extra > i16::MAX - steps {
            return Err(TickError::Fault);
        }
        self.cycles = steps + extra;

        Ok(self.cycles as u16)
    }

    /// Counts a finished frame and its cycles.
    pub fn end_frame(&mut self, cycles_this_frame: u64)
        requires
            old(self).total_frames < u128::MAX,
            old(self).total_cycles + cycles_this_frame <= u128::MAX,
        ensures
            final(self).total_frames == old(self).total_frames + 1,
            final(self).total_cycles == old(self).total_cycles + cycles_this_frame,
            final(self).cycles == old(self).cycles,
            final(self).timer == old(self).timer,
            final(self).cpu == old(self).cpu,
            final(self).mmu@ == old(self).mmu@,
            final(self).ppu@ == old(self).ppu@,
            final(self).debugger == old(self).debugger,
            final(self).total_runtime == old(self).total_runtime,
            final(self).wf() == old(self).wf(),
    {
        self.total_frames = self.total_frames + 1;
        self.total_cycles = self.total_cycles + cycles_this_frame as u128;
    }

    /// The average cycles per frame so far.
    pub fn average_cycles_per_frame(&self) -> (r: u128)
        requires
            self.total_frames > 0,
        ensures
            r == self.total_cycles / self.total_frames,
    {
        self.total_cycles / self.total_frames
    }

    /// The average frames per second so far (over at least one second).
    pub fn average_frames_per_second(&self) -> (r: u128)
        ensures
            r == self.total_frames / (if self.total_runtime > 0 { self.total_runtime } else { 1 }),
    {
        self.total_frames / if self.total_runtime > 0 { self.total_runtime } else { 1 }
    }

    /// Acts on a batch of host callbacks in order, stopping after the first
    /// Exit; returns what each handled callback asks of the host.
    pub fn handle_callbacks(&mut self, callbacks: &Vec<Callback>) -> (r: Vec<CallbackOutcome>)
        requires
            old(self).wf(),
        ensures
            final(self).wf(),
            (final(self).debugger, final(self).mmu@, r@)
                == callbacks_effect(old(self).debugger, old(self).mmu@, callbacks@),
            final(self).cycles == old(self).cycles,
            final(self).timer == old(self).timer,
            final(self).cpu == old(self).cpu,
            final(self).ppu@ == old(self).ppu@,
            ly_in_range(old(self).mmu@) ==> ly_in_range(final(self).mmu@),
    {
        let mut outcomes: Vec<CallbackOutcome> = Vec::new();
        let mut i: usize = 0;
        let ghost d0 = self.debugger;
        let ghost m0 = self.mmu@;
        let ghost in_range = ly_in_range(self.mmu@);
        proof {
            assert(callbacks@.skip(0) =~= callbacks@);
            let (df, mf, os) = callbacks_effect(self.debugger, self.mmu@, callbacks@);
            assert(outcomes@ + os =~= os);
        }
        while i < callbacks.len()
            invariant
                i <= callbacks@.len(),
                self.wf(),
                self.cycles == old(self).cycles,
                self.timer == old(self).timer,
                self.cpu == old(self).cpu,
                self.ppu@ == old(self).ppu@,
                in_range == ly_in_range(m0),
                in_range ==> ly_in_range(self.mmu@),
                d0 == old(self).debugger,
                m0 == old(self).mmu@,
                ({
                    let (df, mf, os) = callbacks_effect(self.debugger, self.mmu@, callbacks@.skip(i as int));
                    callbacks_effect(d0, m0, callbacks@) == (df, mf, outcomes@ + os)
                }),
            decreases callbacks@.len() - i,
        {
            let ghost rest = callbacks@.skip(i as int);
            let ghost before = (self.debugger, self.mmu@);
            let outcome = self.handle_callback(callbacks[i]);
            outcomes.push(outcome);
            proof {
                assert(rest[0] == callbacks@[i as int]);
                assert(rest.drop_first() =~= callbacks@.skip(i + 1));
            }
            i += 1;
            if outcome == CallbackOutcome::Exit {
                proof {
                    assert(outcomes@ =~= outcomes@.drop_last() + seq![outcome]);
                }
                return outcomes;
            }
            proof {
                let (df, mf, os) = callbacks_effect(self.debugger, self.mmu@, callbacks@.skip(i as int));
                assert(outcomes@.drop_last() + (seq![outcome] + os) =~= outcomes@ + os);
            }
        }
        proof {
            assert(callbacks@.skip(i as int) =~= Seq::<Callback>::empty());
            assert(outcomes@ + Seq::<CallbackOutcome>::empty() =~= outcomes@);
        }
        outcomes
    }

    /// Acts on a host callback: the debugger's break, peek and screen dump, exit,
    /// and a joypad button press, which requests the joypad interrupt.
    pub fn handle_callback(&mut self, callback: Callback) -> (r: CallbackOutcome)
        requires
            old(self).wf(),
        ensures
            final(self).wf(),
            final(self).cycles == old(self).cycles,
            final(self).timer == old(self).timer,
            final(self).cpu == old(self).cpu,
            final(self).ppu@ == old(self).ppu@,
            final(self).total_cycles == old(self).total_cycles,
            final(self).total_frames == old(self).total_frames,
            ly_in_range(old(self).mmu@) ==> ly_in_range(final(self).mmu@),
            (final(self).debugger, final(self).mmu@, r) == callback_effect(old(self).debugger, old(self).mmu@, callback),
            final(self).skip_boot == old(self).skip_boot,
            final(self).total_runtime == old(self).total_runtime,
            match callback {
                Callback::DebugBreak => match old(self).debugger {
                    Some(d) => {
                        &&& final(self).debugger == Some(if d.enabled { Debugger { active: !d.active, ..d } } else { d })
                        &&& r == if d.enabled && !d.active { CallbackOutcome::Dump } else { CallbackOutcome::Continue }
                        &&& final(self).mmu@ == old(self).mmu@
                    },
                    None => r == CallbackOutcome::Continue && final(self).debugger == old(self).debugger
                        && final(self).mmu@ == old(self).mmu@,
                },
                Callback::DebugPeek => {
                    &&& r == (if old(self).debugger matches Some(d) && d.enabled { CallbackOutcome::Dump } else {
                        CallbackOutcome::Continue })
                    &&& final(self).debugger == old(self).debugger
                    &&& final(self).mmu@ == old(self).mmu@
                },
                Callback::DebugPrintScreen => {
                    &&& r == (if old(self).debugger is Some { CallbackOutcome::PrintScreen } else {
                        CallbackOutcome::Continue })
                    &&& final(self).debugger == old(self).debugger
                    &&& final(self).mmu@ == old(self).mmu@
                },
                Callback::Exit => {
                    &&& r == CallbackOutcome::Exit
                    &&& final(self).debugger == old(self).debugger
                    &&& final(self).mmu@ == old(self).mmu@
                },
                _ => {
                    &&& r == CallbackOutcome::Continue
                    &&& final(self).debugger == old(self).debugger
                    &&& final(self).mmu@ == with_request_bit(old(self).mmu@, 4, true)
                },
            },
    {
        match callback {
            Callback::DebugBreak => {
                match &mut self.debugger {
                    Some(debugger) => {
                        if debugger.break_or_cont() {
                            CallbackOutcome::Dump
                        } else {
                            CallbackOutcome::Continue
                        }
                    },
                    None => CallbackOutcome::Continue,
                }
            },
            Callback::DebugPeek => {
                match &self.debugger {
                    Some(debugger) => {
                        if debugger.peek() {
                            CallbackOutcome::Dump
                        } else {
                            CallbackOutcome::Continue
                        }
                    },
                    None => CallbackOutcome::Continue,
                }
            },
            Callback::DebugPrintScreen => {
                match &self.debugger {
                    Some(_) => CallbackOutcome::PrintScreen,
                    None => CallbackOutcome::Continue,
                }
            },
            Callback::Exit => CallbackOutcome::Exit,
            _ => {
                self.cpu.interrupts.request(InterruptRegBit::Joypad, &mut self.mmu);
                CallbackOutcome::Continue
            },
        }
    }
}

} // verus!
