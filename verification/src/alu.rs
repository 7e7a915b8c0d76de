use vstd::prelude::*;
use crate::cpu_registers::Flags;

verus! {

/// The value of a byte read as an 8-bit two's complement number.
pub open spec fn signed_value(value: u8) -> int {
    if value < 0x80 { value as int } else { value as int - 256 }
}

/// Flags that only report whether the result is zero.
pub open spec fn logic_flags(result: int, half_carry: bool) -> Flags {
    Flags { zero: result == 0, subtract: false, half_carry, carry: false }
}

/// Flags of a shift or rotate: zero from the result, the carry given.
pub open spec fn shift_flags(result: int, carry: bool) -> Flags {
    Flags { zero: result == 0, subtract: false, half_carry: false, carry }
}

pub open spec fn bit_of(b: bool) -> int {
    if b { 1 } else { 0 }
}

/// RL: the byte moved one place left, the old carry entering bit 0.
pub open spec fn rotate_left_spec(value: u8, original_carry: bool) -> (u8, Flags) {
    let r = (value as int * 2) % 256 + bit_of(original_carry);
    (r as u8, shift_flags(r, value >= 0x80))
}

/// RLC: the byte moved one place left, bit 7 entering bit 0.
pub open spec fn rotate_left_circular_spec(value: u8) -> (u8, Flags) {
    let r = (value as int * 2) % 256 + value as int / 128;
    (r as u8, shift_flags(r, value >= 0x80))
}

/// RR: the byte moved one place right, the old carry entering bit 7.
pub open spec fn rotate_right_spec(value: u8, original_carry: bool) -> (u8, Flags) {
    let r = value as int / 2 + 128 * bit_of(original_carry);
    (r as u8, shift_flags(r, value % 2 == 1))
}

/// RRC: the byte moved one place right, bit 0 entering bit 7.
pub open spec fn rotate_right_circular_spec(value: u8) -> (u8, Flags) {
    let r = value as int / 2 + 128 * (value as int % 2);
    (r as u8, shift_flags(r, value % 2 == 1))
}

pub open spec fn add_8_spec(a: u8, b: u8) -> (u8, Flags) {
    let r = (a + b) % 256;
    (r as u8, Flags {
        zero: r == 0,
        subtract: false,
        half_carry: a % 16 + b % 16 > 15,
        carry: a + b > 255,
    })
}

pub open spec fn adc_8_spec(a: u8, b: u8, carry_in: bool) -> (u8, Flags) {
    let c = bit_of(carry_in);
    let r = (a + b + c) % 256;
    (r as u8, Flags {
        zero: r == 0,
        subtract: false,
        half_carry: a % 16 + b % 16 + c >= 16,
        carry: a + b + c >= 256,
    })
}

pub open spec fn add_16_spec(a: u16, b: u16) -> (u16, Flags) {
    let r = (a + b) % 65536;
    (r as u16, Flags {
        zero: r == 0,
        subtract: false,
        half_carry: a % 256 + b % 256 > 255,
        carry: a + b > 65535,
    })
}

pub open spec fn subtract_8_spec(a: u8, b: u8) -> (u8, Flags) {
    let r = if a >= b { a - b } else { a - b + 256 };
    (r as u8, Flags {
        zero: r == 0,
        subtract: true,
        half_carry: a % 16 < b % 16,
        carry: a < b,
    })
}

pub open spec fn subtract_16_spec(a: u16, b: u16) -> (u16, Flags) {
    let r = if a >= b { a - b } else { a - b + 65536 };
    (r as u16, Flags {
        zero: false,
        subtract: true,
        half_carry: a % 256 < b % 256,
        carry: a < b,
    })
}

pub open spec fn sbc_8_spec(a: u8, b: u8, carry_in: bool) -> (u8, Flags) {
    let c = bit_of(carry_in);
    let d = a - b - c;
    let r = if d >= 0 { d } else { d + 256 };
    (r as u8, Flags {
        zero: r == 0,
        subtract: true,
        half_carry: a % 16 - b % 16 - c < 0,
        carry: d < 0,
    })
}

pub open spec fn increment_8_spec(a: u8, original_carry: bool) -> (u8, Flags) {
    let r = (a + 1) % 256;
    (r as u8, Flags { zero: r == 0, subtract: false, half_carry: a % 16 == 15, carry: original_carry })
}

pub open spec fn decrement_8_spec(a: u8, original_carry: bool) -> (u8, Flags) {
    let r = if a >= 1 { a - 1 } else { 255 };
    (r as u8, Flags { zero: r == 0, subtract: true, half_carry: a % 16 == 0, carry: original_carry })
}

pub open spec fn shift_right_spec(a: u8, is_arithmetic: bool) -> (u8, Flags) {
    let r = a as int / 2 + if is_arithmetic && a >= 0x80 { 0x80int } else { 0 };
    (r as u8, shift_flags(r, a % 2 == 1))
}

/// The adjustment DAA makes to the low digit, and the byte it leaves.
pub open spec fn daa_low(a: u8, f: Flags) -> u8 {
    if a % 16 > 9 || f.half_carry {
        if f.subtract { ((a as int - 6 + 256) % 256) as u8 } else { ((a as int + 6) % 256) as u8 }
    } else {
        a
    }
}

pub open spec fn daa_spec(a: u8, f: Flags) -> (u8, Flags) {
    let low = daa_low(a, f);
    let adjust_high = low / 16 > 9 || f.carry;
    let r: u8 = if adjust_high {
        if f.subtract { ((low as int - 0x60 + 256) % 256) as u8 } else { ((low as int + 0x60) % 256) as u8 }
    } else {
        low
    };
    (r, Flags { zero: r == 0, subtract: f.subtract, half_carry: false, carry: adjust_high })
}

/// Two's complement, converted to i16.
pub fn signed_8(value: u8) -> (r: i16)
    ensures
        r == signed_value(value),
{
    proof { crate::bits::lemma_byte_bits(value); }
    if value & 0x80 == 0 {
        value as i16
    } else {
        -(0u8.wrapping_sub(value) as i16)
    }
}

/// RL
/// Rotates register one bit to the left.
/// Previous carry flag becomes the least significant bit,
/// and previous most significant bit becomes the new carry flag.
pub fn rotate_left(value: u8, original_carry: bool) -> (r: (u8, Flags))
    ensures
        r == rotate_left_spec(value, original_carry),
{
    let c: u8 = if original_carry { 1 } else { 0 };
    let result = (value << 1) | c;
    assert(((value << 1) | c) as int == (value as int * 2) % 256 + c) by (bit_vector)
        requires c <= 1;
    proof { crate::bits::lemma_byte_bits(value); }
    (result, Flags { zero: result == 0, subtract: false, half_carry: false, carry: (value >> 7) == 1 })
}

/// RLC
/// Rotates register one bit to the left.
/// Previous most significant bit becomes the new least significant bit,
/// as well as the new carry flag.
pub fn rotate_left_circular(value: u8) -> (r: (u8, Flags))
    ensures
        r == rotate_left_circular_spec(value),
{
    let result = (value << 1) | (value >> 7);
    assert(((value << 1) | (value >> 7)) as int == (value as int * 2) % 256 + value as int / 128)
        by (bit_vector);
    proof { crate::bits::lemma_byte_bits(value); }
    (result, Flags { zero: result == 0, subtract: false, half_carry: false, carry: (value >> 7) == 1 })
}

/// RR
pub fn rotate_right(value: u8, original_carry: bool) -> (r: (u8, Flags))
    ensures
        r == rotate_right_spec(value, original_carry),
{
    let c: u8 = if original_carry { 1 } else { 0 };
    let result = (value >> 1) | (c << 7);
    assert(((value >> 1) | (c << 7)) as int == value as int / 2 + 128 * c) by (bit_vector)
        requires c <= 1;
    proof { crate::bits::lemma_byte_bits(value); }
    (result, Flags { zero: result == 0, subtract: false, half_carry: false, carry: (value & 1) == 1 })
}

/// RRC
pub fn rotate_right_circular(value: u8) -> (r: (u8, Flags))
    ensures
        r == rotate_right_circular_spec(value),
{
    let result = (value >> 1) | (value << 7);
    assert(((value >> 1) | (value << 7)) as int == value as int / 2 + 128 * (value as int % 2))
        by (bit_vector);
    proof { crate::bits::lemma_byte_bits(value); }
    (result, Flags { zero: result == 0, subtract: false, half_carry: false, carry: (value & 1) == 1 })
}

/// ADD
pub fn add_8(a: u8, b: u8) -> (r: (u8, Flags))
    ensures
        r == add_8_spec(a, b),
{
    assert(a & 0x0F == a % 16 && b & 0x0F == b % 16) by {
        crate::bits::lemma_byte_bits(a);
        crate::bits::lemma_byte_bits(b);
    }
    let half_carry = (a & 0x0F) + (b & 0x0F) > 0x0F;
    let result = a.wrapping_add(b);
    let carry = a as u16 + b as u16 > 0xFF;
    (result, Flags { zero: result == 0, subtract: false, half_carry, carry })
}

pub fn adc_8(a: u8, b: u8, original_flags: Flags) -> (r: (u8, Flags))
    ensures
        r == adc_8_spec(a, b, original_flags.carry),
{
    let a = a as i16;
    let b = b as i16;
    let c: i16 = if original_flags.carry { 1 } else { 0 };
    let result = a + b + c;
    assert(a & 0x0F == a % 16 && b & 0x0F == b % 16 && c & 0x0F == c)
        by (bit_vector) requires 0 <= a < 256, 0 <= b < 256, 0 <= c <= 1;
    let half_carry = ((a & 0x0F) + (b & 0x0F) + (c & 0x0F)) >= 0x10;
    let carry = result >= 0x100;
    assert(result as u8 == result % 256) by (bit_vector) requires 0 <= result < 512;
    let result = result as u8;
    (result, Flags { zero: result == 0, subtract: false, half_carry, carry })
}

pub fn add_16(a: u16, b: u16) -> (r: (u16, Flags))
    ensures
        r == add_16_spec(a, b),
{
    proof { crate::bits::lemma_word_low_mask(a); crate::bits::lemma_word_low_mask(b); }
    let half_carry = (a & 0x00FF) + (b & 0x00FF) > 0x00FF;
    let result = a.wrapping_add(b);
    let carry = a as u32 + b as u32 > 0xFFFF;
    (result, Flags { zero: result == 0, subtract: false, half_carry, carry })
}

/// SUB
pub fn subtract_8(a: u8, b: u8) -> (r: (u8, Flags))
    ensures
        r == subtract_8_spec(a, b),
{
    assert(a & 0x0F == a % 16 && b & 0x0F == b % 16) by {
        crate::bits::lemma_byte_bits(a);
        crate::bits::lemma_byte_bits(b);
    }
    let half_carry = (a & 0x0F) < (b & 0x0F);
    let result = a.wrapping_sub(b);
    let carry = a < b;
    (result, Flags { zero: result == 0, subtract: true, half_carry, carry })
}

pub fn subtract_16(a: u16, b: u16) -> (r: (u16, Flags))
    ensures
        r == subtract_16_spec(a, b),
{
    proof { crate::bits::lemma_word_low_mask(a); crate::bits::lemma_word_low_mask(b); }
    let half_carry = (a & 0x00FF) < (b & 0x00FF);
    let result = a.wrapping_sub(b);
    let carry = a < b;
    (result, Flags { zero: false, subtract: true, half_carry, carry })
}

pub fn sbc_8(a: u8, b: u8, original_flags: Flags) -> (r: (u8, Flags))
    ensures
        r == sbc_8_spec(a, b, original_flags.carry),
{
    let a = a as i16;
    let b = b as i16;
    let c: i16 = if original_flags.carry { 1 } else { 0 };
    let result = a - b - c;
    assert(a & 0x0F == a % 16 && b & 0x0F == b % 16 && c & 0x0F == c)
        by (bit_vector) requires 0 <= a < 256, 0 <= b < 256, 0 <= c <= 1;
    let half_carry = ((a & 0x0F) - (b & 0x0F) - (c & 0x0F)) < 0;
    let carry = result < 0;
    assert(result as u8 == (if result >= 0 { result as int } else { result as int + 256 }))
        by (bit_vector) requires -256 <= result < 256;
    let result = result as u8;
    (result, Flags { zero: result == 0, subtract: true, half_carry, carry })
}

/// INC
/// Original carry flag is preserved
pub fn increment_8(a: u8, original_carry: bool) -> (r: (u8, Flags))
    ensures
        r == increment_8_spec(a, original_carry),
{
    let (result, add_flags) = add_8(a, 1);
    (result, Flags {
        zero: add_flags.zero,
        subtract: add_flags.subtract,
        half_carry: add_flags.half_carry,
        carry: original_carry,
    })
}

/// All original flags are preserved
pub fn increment_16(a: u16) -> (r: u16)
    ensures
        r == (a + 1) % 65536,
{
    a.wrapping_add(1)
}

/// DEC
/// Original carry flag is preserved
pub fn decrement_8(a: u8, original_carry: bool) -> (r: (u8, Flags))
    ensures
        r == decrement_8_spec(a, original_carry),
{
    let (result, sub_flags) = subtract_8(a, 1);
    (result, Flags {
        zero: sub_flags.zero,
        subtract: sub_flags.subtract,
        half_carry: sub_flags.half_carry,
        carry: original_carry,
    })
}

/// All original flags are preserved
pub fn decrement_16(a: u16) -> (r: u16)
    ensures
        r == (if a >= 1 { a - 1 } else { 65535 }),
{
    let (result, _) = subtract_16(a, 1);
    result
}

/// OR
pub fn or_8(a: u8, b: u8) -> (r: (u8, Flags))
    ensures
        r == ((a | b), logic_flags((a | b) as int, false)),
{
    let result = a | b;
    (result, Flags { zero: result == 0, subtract: false, half_carry: false, carry: false })
}

/// XOR
pub fn xor_8(a: u8, b: u8) -> (r: (u8, Flags))
    ensures
        r == ((a ^ b), logic_flags((a ^ b) as int, false)),
{
    let result = a ^ b;
    (result, Flags { zero: result == 0, subtract: false, half_carry: false, carry: false })
}

/// AND
pub fn and_8(a: u8, b: u8) -> (r: (u8, Flags))
    ensures
        r == ((a & b), logic_flags((a & b) as int, true)),
{
    let result = a & b;
    (result, Flags { zero: result == 0, subtract: false, half_carry: true, carry: false })
}

/// SLA
pub fn shift_left(a: u8) -> (r: (u8, Flags))
    ensures
        r == (((a as int * 2) % 256) as u8, shift_flags((a as int * 2) % 256, a >= 0x80)),
{
    let result = a << 1;
    assert((a << 1) as int == (a as int * 2) % 256) by (bit_vector);
    proof { crate::bits::lemma_byte_bits(a); }
    (result, Flags { zero: result == 0, subtract: false, half_carry: false, carry: (a >> 7) == 1 })
}

/// SRA, SRL
pub fn shift_right(a: u8, is_arithmetic: bool) -> (r: (u8, Flags))
    ensures
        r == shift_right_spec(a, is_arithmetic),
{
    let mut result = a >> 1;
    assert((a >> 1) as int == a as int / 2) by (bit_vector);
    if is_arithmetic {
        assert(((a >> 1) | (a & 0x80)) as int == a as int / 2 + if a >= 0x80 { 0x80int } else { 0 })
            by (bit_vector);
        result |= a & 0x80;
    }
    proof { crate::bits::lemma_byte_bits(a); }
    (result, Flags { zero: result == 0, subtract: false, half_carry: false, carry: (a & 1) == 1 })
}

/// DAA -- decimal adjust accumulator, BCD adjust
///
/// if the least significant four bits of A contain a non-BCD digit
/// (i. e. it is greater than 9) or the H flag is set,
/// then $06 is added to the register.
///
/// Then the four most significant bits are checked.
/// If this more significant digit also happens to be greater than 9
/// or the C flag is set, then $60 is added.
///
/// If this second addition was needed, the C flag is set after execution,
/// otherwise it is reset.
pub fn daa(a: u8, original_flags: Flags) -> (r: (u8, Flags))
    ensures
        r == daa_spec(a, original_flags),
{
    let mut result = a;
    let mut carry = false;

    assert(a & 0x0F == a % 16) by {
        crate::bits::lemma_byte_bits(a);
    }
    if ((result & 0x0F) > 9) || original_flags.half_carry {
        if original_flags.subtract {
            result = result.wrapping_sub(0x06);
        } else {
            result = result.wrapping_add(0x06);
        }
    }
    assert(result == daa_low(a, original_flags));
    assert((result & 0xF0) >> 4 == result / 16) by {
        crate::bits::lemma_byte_bits(result);
    }
    if (((result & 0xF0) >> 4) > 9) || original_flags.carry {
        if original_flags.subtract {
            result = result.wrapping_sub(0x60);
        } else {
            result = result.wrapping_add(0x60);
        }
        carry = true;
    }

    (result, Flags { zero: result == 0, subtract: original_flags.subtract, half_carry: false, carry })
}

/// RLC then RRC gives back the byte, and so does RRC then RLC.
pub proof fn lemma_rotate_circular_inverse(value: u8)
    ensures
        rotate_right_circular_spec(rotate_left_circular_spec(value).0).0 == value,
        rotate_left_circular_spec(rotate_right_circular_spec(value).0).0 == value,
{
}

/// RL then RR through the carry gives back the byte and the carry, and so does
/// RR then RL.
pub proof fn lemma_rotate_through_carry_inverse(value: u8, carry: bool)
    ensures
        rotate_right_spec(rotate_left_spec(value, carry).0, rotate_left_spec(value, carry).1.carry).0 == value,
        rotate_right_spec(rotate_left_spec(value, carry).0, rotate_left_spec(value, carry).1.carry).1.carry == carry,
        rotate_left_spec(rotate_right_spec(value, carry).0, rotate_right_spec(value, carry).1.carry).0 == value,
        rotate_left_spec(rotate_right_spec(value, carry).0, rotate_right_spec(value, carry).1.carry).1.carry == carry,
{
}

/// Subtracting what was added gives back the byte, and the other way round.
pub proof fn lemma_add_subtract_inverse(a: u8, b: u8)
    ensures
        subtract_8_spec(add_8_spec(a, b).0, b).0 == a,
        add_8_spec(subtract_8_spec(a, b).0, b).0 == a,
{
}

/// A decrement undoes an increment, and the other way round, whatever the carry.
pub proof fn lemma_increment_decrement_inverse(a: u8, c1: bool, c2: bool)
    ensures
        decrement_8_spec(increment_8_spec(a, c1).0, c2).0 == a,
        increment_8_spec(decrement_8_spec(a, c1).0, c2).0 == a,
{
}

/// The carry of an addition is set exactly when the sum does not fit in a byte,
/// and that of a subtraction exactly when it borrows.
pub proof fn lemma_carry_flags(a: u8, b: u8)
    ensures
        add_8_spec(a, b).1.carry == (a + b > 255),
        subtract_8_spec(a, b).1.carry == (a < b),
        add_8_spec(a, b).1.zero == (add_8_spec(a, b).0 == 0),
        subtract_8_spec(a, b).1.zero == (a == b),
{
}

/// ADC and SBC with the carry clear are ADD and SUB; with the carry set they
/// give the result of adding or subtracting one more.
pub proof fn lemma_carry_in_variants(a: u8, b: u8)
    ensures
        adc_8_spec(a, b, false) == add_8_spec(a, b),
        sbc_8_spec(a, b, false) == subtract_8_spec(a, b),
        adc_8_spec(a, b, true).0 as int == (a + b + 1) % 256,
        sbc_8_spec(a, b, true).0 as int == (a - b - 1 + 512) % 256,
        adc_8_spec(a, b, true).1.carry == (a + b + 1 > 255),
        sbc_8_spec(a, b, true).1.carry == (a < b + 1),
{
}

/// INC is an ADD of 1, and DEC a SUB of 1, that keep the carry flag as it was.
pub proof fn lemma_inc_dec_are_add_sub_one(a: u8, carry: bool)
    ensures
        increment_8_spec(a, carry) == (add_8_spec(a, 1).0, Flags { carry, ..add_8_spec(a, 1).1 }),
        decrement_8_spec(a, carry) == (subtract_8_spec(a, 1).0, Flags { carry, ..subtract_8_spec(a, 1).1 }),
{
}

} // verus!
