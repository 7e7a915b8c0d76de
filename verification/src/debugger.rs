use vstd::prelude::*;
use std::collections::HashSet;
use crate::cpu::InstructionTrace;
use crate::disassembler::{DisassembledLine, line_text};
use crate::instruction::Instruction;
use crate::instruction_table::instruction_spec;
use crate::mmu::{Caller, Mmu, MmuView};
use crate::ppu::{Lcd, LCD_HEIGHT, LCD_WIDTH};
use crate::text::{hex_text, push_hex, push_str};

verus! {

/// What a debugger request asks for.
#[derive(Clone, Copy, PartialEq, Eq, Structural, Debug)]
pub enum DebugAction {
    BREAK,
    PEEK,
    STEP,
}

/// The debugger: whether it may be used, and whether it holds the machine paused.
#[derive(Clone, Copy, PartialEq, Eq, Structural, Debug)]
pub struct Debugger {
    pub enabled: bool,
    pub active: bool,
}

/// The character a colour value is shown as: '@', '+', '.' or ' ' for 3, 2, 1, 0 (mod 4).
pub open spec fn screen_char(color: u8) -> u8 {
    let c = color % 4;
    if c == 3 { 64 } else if c == 2 { 43 } else if c == 1 { 46 } else { 32 }
}

/// How many characters a line of the screen dump takes: the pixels, two side
/// bars and the newline.
pub open spec fn dump_line_len() -> int {
    LCD_WIDTH + 3
}

/// Character `i` of the screen dump: a line of underscores, a line per screen
/// row framed by bars, and a closing line of underscores, each line ending
/// with a newline.
pub open spec fn screen_dump_char(lcd: Seq<u8>, i: int) -> u8 {
    let line = i / dump_line_len();
    let col = i % dump_line_len();
    if col == LCD_WIDTH + 2 {
        10
    } else if line == 0 || line == LCD_HEIGHT + 1 {
        95
    } else if col == 0 || col == LCD_WIDTH + 1 {
        124
    } else {
        screen_char(lcd[(line - 1) * LCD_WIDTH + (col - 1)])
    }
}

pub open spec fn screen_dump_spec(lcd: Seq<u8>) -> Seq<u8> {
    Seq::new(((LCD_HEIGHT + 2) * dump_line_len()) as nat, |i: int| screen_dump_char(lcd, i))
}

/// How many rows of 16 bytes of video RAM the memory dump shows.
pub const VRAM_DUMP_ROWS: usize = 2;

/// The bytes the memory dump shows: the start of video RAM, as the CPU reads it.
pub open spec fn vram_dump_bytes(m: MmuView) -> Seq<u8> {
    Seq::new((VRAM_DUMP_ROWS * 16) as nat, |i: int| m.read_8((0x8000 + i) as u16, Caller::CPU))
}

/// A byte of the dump: a tab, then the byte in hexadecimal, or "____" for 0.
pub open spec fn dump_cell_text(b: u8) -> Seq<char> {
    if b > 0 { "\t"@ + hex_text(b as nat, 2) } else { "\t____"@ }
}

/// The first `n` cells of the row of bytes starting at `start`.
pub open spec fn dump_cells_text(bytes: Seq<u8>, start: int, n: nat) -> Seq<char>
    decreases n,
{
    if n == 0 {
        Seq::empty()
    } else {
        dump_cells_text(bytes, start, (n - 1) as nat) + dump_cell_text(bytes[start + n - 1])
    }
}

/// The rows of the dump from `row` on: each its address, then its 16 cells.
pub open spec fn dump_rows_text(bytes: Seq<u8>, row: nat) -> Seq<char>
    decreases VRAM_DUMP_ROWS - row,
{
    if row >= VRAM_DUMP_ROWS {
        Seq::empty()
    } else {
        "\n"@ + hex_text((0x8000 + 16 * row) as nat, 4) + " :"@ + dump_cells_text(bytes, (16 * row) as int, 16) + "\n"@
            + dump_rows_text(bytes, row + 1)
    }
}

/// The memory dump: a heading naming the range shown, then the table.
pub open spec fn mmu_dump_text(m: MmuView) -> Seq<char> {
    "VRAM[0x0000.."@ + hex_text((VRAM_DUMP_ROWS * 16) as nat, 4) + "]:\t\n"@
        + dump_rows_text(vram_dump_bytes(m), 0) + "\n\n"@
}

/// The line of an executed instruction, in the disassembly's format.
pub open spec fn trace_line(t: InstructionTrace) -> DisassembledLine {
    DisassembledLine {
        pc: t.start_pc as usize,
        opcode: t.opcode,
        mnemonic: instruction_spec(t.opcode).mnemonic,
        num_args: t.num_args,
        arg0: t.arg0,
        arg1: t.arg1,
    }
}

impl Debugger {
    pub fn new() -> (r: Debugger)
        ensures
            r == (Debugger { enabled: true, active: false }),
    {
        Debugger { enabled: true, active: false }
    }

    /// Whether the machine is paused.
    pub fn is_active(&self) -> (r: bool)
        ensures
            r == (self.enabled && self.active),
    {
        self.enabled && self.active
    }

    /// Pauses or resumes the machine; returns whether the state is to be dumped
    /// (on pausing).
    pub fn break_or_cont(&mut self) -> (dump: bool)
        ensures
            old(self).enabled ==> *final(self) == (Debugger { active: !old(self).active, ..*old(self) }),
            !old(self).enabled ==> *final(self) == *old(self),
            dump == (old(self).enabled && !old(self).active),
    {
        if self.enabled {
            self.active = !self.active;
            if self.active {
                return true;
            }
        }
        false
    }

    /// Whether a peek dumps the state: when the debugger is enabled.
    pub fn peek(&self) -> (dump: bool)
        ensures
            dump == self.enabled,
    {
        self.enabled
    }

    /// The screen drawn as text, for printing.
    pub fn screen_dump(lcd: &Lcd) -> (r: Vec<u8>)
        requires
            lcd.wf(),
        ensures
            r@ == screen_dump_spec(lcd.data@),
    {
        let mut out: Vec<u8> = Vec::new();
        let width = lcd.width;
        let height = lcd.height;
        let ghost n = dump_line_len();
        let mut line: usize = 0;
        while line < height + 2
            invariant
                width == LCD_WIDTH,
                height == LCD_HEIGHT,
                line <= height + 2,
                lcd.wf(),
                n == dump_line_len(),
                out@.len() == line * n,
                forall|j: int| 0 <= j < out@.len() ==> #[trigger] out@[j] == screen_dump_char(lcd.data@, j),
            decreases height + 2 - line,
        {
            let mut col: usize = 0;
            while col < width + 3
                invariant
                    width == LCD_WIDTH,
                    height == LCD_HEIGHT,
                    line < height + 2,
                    col <= width + 3,
                    lcd.wf(),
                    n == dump_line_len(),
                    out@.len() == line * n + col,
                    forall|j: int| 0 <= j < out@.len() ==> #[trigger] out@[j] == screen_dump_char(lcd.data@, j),
                decreases width + 3 - col,
            {
                let c: u8 = if col == width + 2 {
                    10
                } else if line == 0 || line == height + 1 {
                    95
                } else if col == 0 || col == width + 1 {
                    124
                } else {
                    let color = lcd.pixel(col - 1, line - 1);
                    match color % 4 {
                        3 => 64,
                        2 => 43,
                        1 => 46,
                        _ => 32,
                    }
                };
                proof {
                    let i = line * n + col;
                    vstd::arithmetic::div_mod::lemma_fundamental_div_mod_converse(
                        i as int, n, line as int, col as int);
                }
                out.push(c);
                col += 1;
            }
            assert(out@.len() == (line + 1) * n) by (nonlinear_arith)
                requires
                    out@.len() == line * n + n,
            ;
            line += 1;
        }
        proof {
            assert(out@ =~= screen_dump_spec(lcd.data@));
        }
        out
    }
    /// The memory dump, as text: the first rows of video RAM.
    pub fn dump_mmu_state(mmu: &Mmu) -> (r: String)
        ensures
            r@ == mmu_dump_text(mmu@),
    {
        let ghost bytes = vram_dump_bytes(mmu@);
        let mut s = String::new();
        push_str(&mut s, "VRAM[0x0000..");
        push_hex(&mut s, VRAM_DUMP_ROWS * 16, 4);
        push_str(&mut s, "]:\t\n");
        let ghost heading = s@;
        let mut row: usize = 0;
        while row < VRAM_DUMP_ROWS
            invariant
                row <= VRAM_DUMP_ROWS,
                bytes == vram_dump_bytes(mmu@),
                s@ + dump_rows_text(bytes, row as nat) == heading + dump_rows_text(bytes, 0),
            decreases VRAM_DUMP_ROWS - row,
        {
            let ghost before_row = s@;
            push_str(&mut s, "\n");
            push_hex(&mut s, 0x8000 + 16 * row, 4);
            push_str(&mut s, " :");
            let ghost before_cells = s@;
            let mut col: usize = 0;
            while col < 16
                invariant
                    row < VRAM_DUMP_ROWS,
                    col <= 16,
                    bytes == vram_dump_bytes(mmu@),
                    s@ == before_cells + dump_cells_text(bytes, 16 * row as int, col as nat),
                decreases 16 - col,
            {
                let address: u16 = (0x8000 + 16 * row + col) as u16;
                let b = mmu.read_8(address, Caller::CPU);
                assert(b == bytes[16 * row + col]);
                if b > 0 {
                    push_str(&mut s, "\t");
                    push_hex(&mut s, b as usize, 2);
                } else {
                    push_str(&mut s, "\t____");
                }
                col += 1;
                assert(s@ =~= before_cells + dump_cells_text(bytes, 16 * row as int, col as nat));
            }
            push_str(&mut s, "\n");
            proof {
                let this_row = "\n"@ + hex_text((0x8000 + 16 * row) as nat, 4) + " :"@
                    + dump_cells_text(bytes, 16 * row as int, 16) + "\n"@;
                assert(s@ =~= before_row + this_row);
                assert(dump_rows_text(bytes, row as nat) == this_row + dump_rows_text(bytes, (row + 1) as nat));
                assert(s@ + dump_rows_text(bytes, (row + 1) as nat) =~= before_row + dump_rows_text(bytes, row as nat));
            }
            row += 1;
        }
        push_str(&mut s, "\n\n");
        proof {
            assert(dump_rows_text(bytes, row as nat) =~= Seq::<char>::empty());
            assert(s@ =~= mmu_dump_text(mmu@));
        }
        s
    }
    /// The text of an executed instruction: address, opcode, mnemonic and
    /// argument bytes, as a disassembly line.
    pub fn cpu_exec_text(trace: &InstructionTrace) -> (r: String)
        ensures
            r@ == line_text(trace_line(*trace)),
    {
        let instruction = Instruction::get_instruction(trace.opcode);
        let line = DisassembledLine {
            pc: trace.start_pc as usize,
            opcode: trace.opcode,
            mnemonic: instruction.mnemonic,
            num_args: trace.num_args,
            arg0: trace.arg0,
            arg1: trace.arg1,
        };
        line.text()
    }
}

/// The addresses whose instructions were already traced: each is traced once.
pub struct TraceLog {
    pub visited: HashSet<u16>,
}

impl TraceLog {
    pub fn new() -> (r: TraceLog)
        ensures
            r.visited@ == Set::<u16>::empty(),
    {
        TraceLog { visited: HashSet::new() }
    }

    /// The text of an executed instruction the first time an instruction at its
    /// address is traced, and nothing after that; the address is recorded.
    pub fn trace_once(&mut self, trace: &InstructionTrace) -> (r: Option<String>)
        ensures
            final(self).visited@ == old(self).visited@.insert(trace.start_pc),
            old(self).visited@.contains(trace.start_pc) ==> r is None,
            !old(self).visited@.contains(trace.start_pc) ==> (r matches Some(t) && t@ == line_text(trace_line(*trace))),
    {
        broadcast use vstd::std_specs::hash::group_hash_axioms;
        if self.visited.insert(trace.start_pc) {
            Some(Debugger::cpu_exec_text(trace))
        } else {
            None
        }
    }
}

} // verus!
