use vstd::prelude::*;
use vstd::string::StringExecFns;

verus! {

// Text in the shape of Rust's `{:#0wX}` formatting: "0x", then uppercase
// hexadecimal digits padded with zeros.

/// An uppercase hexadecimal digit.
pub open spec fn hex_char(d: int) -> char {
    if d < 10 { (48 + d) as char } else { (55 + d) as char }
}

/// The uppercase hexadecimal digits of `n`, most significant first, padded with
/// zeros to at least `width` digits.
pub open spec fn hex_digits(n: nat, width: nat) -> Seq<char>
    decreases n, width,
{
    if n < 16 && width <= 1 {
        seq![hex_char(n as int)]
    } else {
        hex_digits(n / 16, if width > 0 { (width - 1) as nat } else { 0 }).push(hex_char((n % 16) as int))
    }
}

/// A number as "0x" and at least `width` uppercase hexadecimal digits.
pub open spec fn hex_text(n: nat, width: nat) -> Seq<char> {
    seq!['0', 'x'] + hex_digits(n, width)
}

fn push_hex_digit(s: &mut String, d: usize)
    requires
        d < 16,
    ensures
        final(s)@ == old(s)@.push(hex_char(d as int)),
{
    let digit: &str = match d {
        0 => { proof { reveal_strlit("0"); } "0" },
        1 => { proof { reveal_strlit("1"); } "1" },
        2 => { proof { reveal_strlit("2"); } "2" },
        3 => { proof { reveal_strlit("3"); } "3" },
        4 => { proof { reveal_strlit("4"); } "4" },
        5 => { proof { reveal_strlit("5"); } "5" },
        6 => { proof { reveal_strlit("6"); } "6" },
        7 => { proof { reveal_strlit("7"); } "7" },
        8 => { proof { reveal_strlit("8"); } "8" },
        9 => { proof { reveal_strlit("9"); } "9" },
        10 => { proof { reveal_strlit("A"); } "A" },
        11 => { proof { reveal_strlit("B"); } "B" },
        12 => { proof { reveal_strlit("C"); } "C" },
        13 => { proof { reveal_strlit("D"); } "D" },
        14 => { proof { reveal_strlit("E"); } "E" },
        _ => { proof { reveal_strlit("F"); } "F" },
    };
    assert(digit@ =~= seq![hex_char(d as int)]);
    s.append(digit);
}

fn push_hex_digits(s: &mut String, n: usize, width: usize)
    ensures
        final(s)@ == old(s)@ + hex_digits(n as nat, width as nat),
    decreases n, width,
{
    if n < 16 && width <= 1 {
        push_hex_digit(s, n);
        assert(old(s)@.push(hex_char(n as int)) =~= old(s)@ + hex_digits(n as nat, width as nat));
    } else {
        let ghost before = s@;
        push_hex_digits(s, n / 16, if width > 0 { width - 1 } else { 0 });
        push_hex_digit(s, n % 16);
        assert(s@ =~= before + hex_digits(n as nat, width as nat));
    }
}

pub(crate) fn push_hex(s: &mut String, n: usize, width: usize)
    ensures
        final(s)@ == old(s)@ + hex_text(n as nat, width as nat),
{
    proof { reveal_strlit("0x"); }
    s.append("0x");
    push_hex_digits(s, n, width);
    assert(s@ =~= old(s)@ + hex_text(n as nat, width as nat));
}

pub(crate) fn push_str(s: &mut String, t: &str)
    ensures
        final(s)@ == old(s)@ + t@,
{
    s.append(t);
}

} // verus!
