use vstd::prelude::*;
use vstd::string::StrSliceExecFns;
use crate::text::{hex_text, push_hex, push_str};
use crate::cpu::PREFIX_BYTE;
use crate::instruction::Instruction;
use crate::instruction_table::instruction_spec;

verus! {

/// One line of a disassembly: where the instruction starts, its opcode and
/// mnemonic, and its argument bytes (at most two).
#[derive(Clone, Copy, Debug)]
pub struct DisassembledLine {
    pub pc: usize,
    pub opcode: u16,
    pub mnemonic: &'static str,
    pub num_args: u16,
    pub arg0: u8,
    pub arg1: u8,
}

/// The opcode at `pc`: a 0xCB byte prefixes a second byte.
pub open spec fn rom_opcode(rom: Seq<u8>, pc: int) -> u16 {
    if rom[pc] == PREFIX_BYTE { (0xCB00 + rom[pc + 1]) as u16 } else { rom[pc] as u16 }
}

pub open spec fn rom_opcode_len(rom: Seq<u8>, pc: int) -> int {
    if rom[pc] == PREFIX_BYTE { 2 } else { 1 }
}

/// How many argument bytes the disassembler reads for a table entry: its size
/// less the opcode bytes, and none for a size too small for that.
pub open spec fn listed_args(instr: Instruction) -> int {
    if instr.is_cbprefixed_spec() {
        if instr.size > 1 { instr.size - 2 } else { 0 }
    } else {
        if instr.size > 0 { instr.size - 1 } else { 0 }
    }
}

/// How many bytes the line at `pc` takes.
pub open spec fn line_size(rom: Seq<u8>, pc: int) -> int {
    let n = listed_args(instruction_spec(rom_opcode(rom, pc)));
    rom_opcode_len(rom, pc) + (if n > 2 { 2 } else { n })
}

/// Whether the whole line at `pc` lies within the bytes.
pub open spec fn line_fits(rom: Seq<u8>, pc: int) -> bool {
    &&& 0 <= pc < rom.len()
    &&& rom[pc] == PREFIX_BYTE ==> pc + 1 < rom.len()
    &&& pc + line_size(rom, pc) <= rom.len()
}

/// The line at `pc`.
pub open spec fn line_at(rom: Seq<u8>, pc: int) -> DisassembledLine {
    let opcode = rom_opcode(rom, pc);
    let start = pc + rom_opcode_len(rom, pc);
    let n = listed_args(instruction_spec(opcode));
    DisassembledLine {
        pc: pc as usize,
        opcode,
        mnemonic: instruction_spec(opcode).mnemonic,
        num_args: (if n > 2 { 2 } else { n }) as u16,
        arg0: if n > 0 { rom[start] } else { 0 },
        arg1: if n > 1 { rom[start + 1] } else { 0 },
    }
}

/// Whether every line from `pc` on lies within the bytes.
pub open spec fn fits_from(rom: Seq<u8>, pc: int) -> bool
    decreases rom.len() - pc,
{
    if pc < 0 || pc >= rom.len() {
        true
    } else {
        line_fits(rom, pc) && (line_size(rom, pc) >= 1 ==> fits_from(rom, pc + line_size(rom, pc)))
    }
}

/// The lines from `pc` to the end, one instruction after the other.
pub open spec fn listing_from(rom: Seq<u8>, pc: int) -> Seq<DisassembledLine>
    decreases rom.len() - pc,
{
    if !line_fits(rom, pc) || line_size(rom, pc) < 1 {
        seq![]
    } else {
        seq![line_at(rom, pc)] + listing_from(rom, pc + line_size(rom, pc))
    }
}

/// A mnemonic padded with spaces to 14 characters.
pub open spec fn padded_mnemonic(m: Seq<char>) -> Seq<char> {
    m + Seq::new(if m.len() < 14 { (14 - m.len()) as nat } else { 0 }, |i: int| ' ')
}

/// The text of a line: address and opcode in hexadecimal, the mnemonic padded
/// to 14 characters, each argument byte in hexadecimal, separated by tabs.
pub open spec fn line_text(line: DisassembledLine) -> Seq<char> {
    hex_text(line.pc as nat, 4) + seq!['\t'] + hex_text(line.opcode as nat, 4) + seq!['\t']
        + padded_mnemonic(line.mnemonic@)
        + (if line.num_args > 0 { seq!['\t'] + hex_text(line.arg0 as nat, 2) } else { Seq::empty() })
        + (if line.num_args > 1 { seq!['\t'] + hex_text(line.arg1 as nat, 2) } else { Seq::empty() })
        + seq!['\n']
}

/// The text of lines, one after the other.
pub open spec fn lines_text(lines: Seq<DisassembledLine>) -> Seq<char>
    decreases lines.len(),
{
    if lines.len() == 0 {
        Seq::empty()
    } else {
        line_text(lines[0]) + lines_text(lines.drop_first())
    }
}

impl DisassembledLine {
    /// The line as text.
    pub fn text(&self) -> (r: String)
        ensures
            r@ == line_text(*self),
    {
        proof {
            reveal_strlit("\t");
            reveal_strlit("\n");
        }
        let mut s = String::new();
        push_hex(&mut s, self.pc, 4);
        push_str(&mut s, "\t");
        push_hex(&mut s, self.opcode as usize, 4);
        push_str(&mut s, "\t");
        let ghost before_mnemonic = s@;
        push_str(&mut s, self.mnemonic);
        let len = self.mnemonic.unicode_len();
        let mut k: usize = len;
        while k < 14
            invariant
                len == self.mnemonic@.len(),
                len <= k <= 14 || (k == len && len >= 14),
                s@ == before_mnemonic + self.mnemonic@ + Seq::new((k - len) as nat, |i: int| ' '),
            decreases 14 - k,
        {
            proof { reveal_strlit(" "); }
            push_str(&mut s, " ");
            k += 1;
            assert(s@ =~= before_mnemonic + self.mnemonic@ + Seq::new((k - len) as nat, |i: int| ' '));
        }
        assert(self.mnemonic@ + Seq::new((k - len) as nat, |i: int| ' ') =~= padded_mnemonic(self.mnemonic@));
        let ghost before_args = s@;
        if self.num_args > 0 {
            push_str(&mut s, "\t");
            push_hex(&mut s, self.arg0 as usize, 2);
        }
        let ghost after_first = s@;
        if self.num_args > 1 {
            push_str(&mut s, "\t");
            push_hex(&mut s, self.arg1 as usize, 2);
        }
        let ghost after_second = s@;
        push_str(&mut s, "\n");
        proof {
            let first = if self.num_args > 0 { seq!['\t'] + hex_text(self.arg0 as nat, 2) } else { Seq::empty() };
            let second = if self.num_args > 1 { seq!['\t'] + hex_text(self.arg1 as nat, 2) } else { Seq::empty() };
            assert(after_first =~= before_args + first);
            assert(after_second =~= after_first + second);
            assert(s@ =~= line_text(*self));
        }
        s
    }
}

/// Reads the opcode at `pc`; returns it and where the arguments start.
pub fn disassemble_opcode(pc: usize, rom: &Vec<u8>) -> (r: (u16, usize))
    requires
        pc < rom.len(),
        rom@[pc as int] == PREFIX_BYTE ==> pc + 1 < rom.len(),
    ensures
        r.0 == rom_opcode(rom@, pc as int),
        r.1 == pc + rom_opcode_len(rom@, pc as int),
{
    let mut pc = pc;
    let mut opcode: u16;

    let mut byte = rom[pc];
    pc += 1;

    if byte == PREFIX_BYTE {
        opcode = (byte as u16) << 8;
        byte = rom[pc];
        pc += 1;
        proof { crate::bits::lemma_byte_in_word(byte); }
        opcode |= byte as u16;
    } else {
        opcode = byte as u16;
    }

    (opcode, pc)
}

/// The line at `pc` and where the next one starts.
pub fn decode_line(pc: usize, rom: &Vec<u8>) -> (r: (DisassembledLine, usize))
    requires
        line_fits(rom@, pc as int),
    ensures
        r.0 == line_at(rom@, pc as int),
        r.1 == pc + line_size(rom@, pc as int),
{
    let (opcode, mut new_pc) = disassemble_opcode(pc, rom);

    let instruction = Instruction::get_instruction(opcode);

    let num_args = if instruction.is_cbprefixed() {
        if instruction.size > 1 { instruction.size - 2 } else { 0 }
    } else {
        if instruction.size > 0 { instruction.size - 1 } else { 0 }
    };

    // The length is a usize: this bounds the positions computed below.
    let _len = rom.len();
    assert(num_args as int == listed_args(instruction_spec(opcode)));
    let mut line = DisassembledLine {
        pc,
        opcode,
        mnemonic: instruction.mnemonic,
        num_args: 0,
        arg0: 0,
        arg1: 0,
    };

    if num_args > 0 {
        line.arg0 = rom[new_pc];
        line.num_args = 1;
        new_pc += 1;
    }
    if num_args > 1 {
        line.arg1 = rom[new_pc];
        line.num_args = 2;
        new_pc += 1;
    }

    (line, new_pc)
}

/// The lines of the disassembly of the bytes, from offset 0, one per instruction.
pub fn decode_listing(rom: &Vec<u8>) -> (r: Vec<DisassembledLine>)
    requires
        fits_from(rom@, 0),
    ensures
        r@ == listing_from(rom@, 0),
{
    let mut output: Vec<DisassembledLine> = Vec::new();
    let mut pc: usize = 0;
    let n = rom.len();

    while pc < n
        invariant
            n == rom.len(),
            pc <= n,
            fits_from(rom@, pc as int),
            output@ + listing_from(rom@, pc as int) == listing_from(rom@, 0),
        decreases n - pc,
    {
        let ghost before = output@;
        let (line, new_pc) = decode_line(pc, rom);
        output.push(line);
        proof {
            assert(listing_from(rom@, pc as int) == seq![line] + listing_from(rom@, new_pc as int));
            assert(output@ + listing_from(rom@, new_pc as int) =~= before + listing_from(rom@, pc as int));
        }
        pc = new_pc;
    }
    proof {
        assert(listing_from(rom@, pc as int) =~= seq![]);
        assert(output@ + seq![] =~= output@);
    }
    output
}

/// The text of the line at `pc` and where the next one starts.
pub fn disassemble_line(pc: usize, rom: &Vec<u8>) -> (r: (String, usize))
    requires
        line_fits(rom@, pc as int),
    ensures
        r.0@ == line_text(line_at(rom@, pc as int)),
        r.1 == pc + line_size(rom@, pc as int),
{
    let (line, new_pc) = decode_line(pc, rom);
    (line.text(), new_pc)
}

/// The disassembly of the bytes, from offset 0: the text of each line, one
/// instruction after the other.
pub fn disassemble(rom: &Vec<u8>) -> (r: String)
    requires
        fits_from(rom@, 0),
    ensures
        r@ == lines_text(listing_from(rom@, 0)),
{
    let mut output = String::new();
    let mut pc: usize = 0;
    let n = rom.len();

    while pc < n
        invariant
            n == rom.len(),
            pc <= n,
            fits_from(rom@, pc as int),
            output@ + lines_text(listing_from(rom@, pc as int)) == lines_text(listing_from(rom@, 0)),
        decreases n - pc,
    {
        let ghost before = output@;
        let ghost line = line_at(rom@, pc as int);
        let (s, new_pc) = disassemble_line(pc, rom);
        output.append(s.as_str());
        proof {
            let rest = listing_from(rom@, new_pc as int);
            assert(listing_from(rom@, pc as int) == seq![line] + rest);
            assert((seq![line] + rest).drop_first() =~= rest);
            assert(lines_text(seq![line] + rest) == line_text(line) + lines_text(rest));
            assert(output@ + lines_text(rest) =~= before + lines_text(listing_from(rom@, pc as int)));
        }
        pc = new_pc;
    }
    proof {
        assert(listing_from(rom@, pc as int) =~= seq![]);
        assert(output@ + Seq::<char>::empty() =~= output@);
    }
    output
}

/// Whether every instruction of the bytes lies within them, so that they can be
/// disassembled to the end.
pub fn fits_from_bytes(rom: &Vec<u8>) -> (r: bool)
    ensures
        r == fits_from(rom@, 0),
{
    let n = rom.len();
    let mut pc: usize = 0;
    while pc < n
        invariant
            pc <= n,
            n == rom.len(),
            fits_from(rom@, 0) == fits_from(rom@, pc as int),
        decreases n - pc,
    {
        if rom[pc] == PREFIX_BYTE && pc + 1 >= n {
            return false;
        }
        let (opcode, start) = disassemble_opcode(pc, rom);
        let instruction = Instruction::get_instruction(opcode);
        let listed = if instruction.is_cbprefixed() {
            if instruction.size > 1 { instruction.size - 2 } else { 0 }
        } else {
            if instruction.size > 0 { instruction.size - 1 } else { 0 }
        };
        let num_args: usize = if listed > 2 { 2 } else { listed as usize };
        assert(start + num_args == pc + line_size(rom@, pc as int));
        if num_args > n - start {
            return false;
        }
        pc = start + num_args;
    }
    true
}

} // verus!
