use gamboy::alu;
use gamboy::cpu_registers::Flags;

fn flags(zero: bool, subtract: bool, half_carry: bool, carry: bool) -> Flags {
    Flags { zero, subtract, half_carry, carry }
}

#[test]
fn rotate_left_through_carry() {
    assert_eq!(alu::rotate_left(0x85, false), (0x0A, flags(false, false, false, true)));
    assert_eq!(alu::rotate_left(0x00, true), (0x01, flags(false, false, false, false)));
}

#[test]
fn rotate_left_circular_moves_bit_7_to_bit_0() {
    assert_eq!(alu::rotate_left_circular(0x85), (0x0B, flags(false, false, false, true)));
    assert_eq!(alu::rotate_left_circular(0x00), (0x00, flags(true, false, false, false)));
}

#[test]
fn rotate_right_circular_moves_bit_0_to_bit_7() {
    assert_eq!(alu::rotate_right_circular(0x01), (0x80, flags(false, false, false, true)));
}

#[test]
fn rotate_right_through_carry() {
    assert_eq!(alu::rotate_right(0x01, false), (0x00, flags(true, false, false, true)));
    assert_eq!(alu::rotate_right(0x8A, true), (0xC5, flags(false, false, false, false)));
}

#[test]
fn rotations_undo_each_other_on_every_byte() {
    for v in 0..=255u8 {
        assert_eq!(alu::rotate_right_circular(alu::rotate_left_circular(v).0).0, v);
        assert_eq!(alu::rotate_left_circular(alu::rotate_right_circular(v).0).0, v);
        for c in [false, true] {
            let (r, f) = alu::rotate_left(v, c);
            let (back, f2) = alu::rotate_right(r, f.carry);
            assert_eq!(back, v);
            assert_eq!(f2.carry, c);
        }
    }
}

#[test]
fn add_8_sets_half_carry_and_carry() {
    assert_eq!(alu::add_8(0x3A, 0xC6), (0x00, flags(true, false, true, true)));
    assert_eq!(alu::add_8(0x12, 0x34), (0x46, flags(false, false, false, false)));
}

#[test]
fn subtract_8_flags() {
    assert_eq!(alu::subtract_8(0x3E, 0x3E), (0x00, flags(true, true, false, false)));
    assert_eq!(alu::subtract_8(0x3E, 0x40), (0xFE, flags(false, true, false, true)));
    assert_eq!(alu::subtract_8(0x10, 0x01), (0x0F, flags(false, true, true, false)));
}

#[test]
fn add_then_subtract_gives_back_the_byte() {
    for a in (0..=255u8).step_by(7) {
        for b in (0..=255u8).step_by(11) {
            assert_eq!(alu::subtract_8(alu::add_8(a, b).0, b).0, a);
            assert_eq!(alu::add_8(alu::subtract_8(a, b).0, b).0, a);
        }
    }
}

#[test]
fn adc_and_sbc_use_the_carry() {
    let c = flags(false, false, false, true);
    assert_eq!(alu::adc_8(0xE1, 0x0F, c), (0xF1, flags(false, false, true, false)));
    assert_eq!(alu::adc_8(0xE1, 0x1E, c), (0x00, flags(true, false, true, true)));
    assert_eq!(alu::sbc_8(0x3B, 0x2A, c), (0x10, flags(false, true, false, false)));
    assert_eq!(alu::sbc_8(0x3B, 0x4F, c), (0xEB, flags(false, true, true, true)));
}

#[test]
fn increment_and_decrement_keep_the_carry() {
    assert_eq!(alu::increment_8(0xFF, true), (0x00, flags(true, false, true, true)));
    assert_eq!(alu::increment_8(0x50, false), (0x51, flags(false, false, false, false)));
    assert_eq!(alu::decrement_8(0x01, false), (0x00, flags(true, true, false, false)));
    assert_eq!(alu::decrement_8(0x10, true), (0x0F, flags(false, true, true, true)));
    assert_eq!(alu::decrement_8(0x00, false), (0xFF, flags(false, true, true, false)));
    for v in 0..=255u8 {
        assert_eq!(alu::decrement_8(alu::increment_8(v, false).0, true).0, v);
    }
}

#[test]
fn sixteen_bit_arithmetic() {
    assert_eq!(alu::add_16(0x8A23, 0x0605), (0x9028, flags(false, false, false, false)));
    assert_eq!(alu::add_16(0xFFFF, 0x0001), (0x0000, flags(true, false, true, true)));
    assert_eq!(alu::increment_16(0xFFFF), 0x0000);
    assert_eq!(alu::decrement_16(0x0000), 0xFFFF);
    assert_eq!(alu::decrement_16(0x1234), 0x1233);
    assert_eq!(alu::subtract_16(0x0000, 0x0001), (0xFFFF, flags(false, true, true, true)));
}

#[test]
fn logic_operations() {
    assert_eq!(alu::and_8(0x5A, 0x3F), (0x1A, flags(false, false, true, false)));
    assert_eq!(alu::or_8(0x00, 0x00), (0x00, flags(true, false, false, false)));
    assert_eq!(alu::xor_8(0xFF, 0x0F), (0xF0, flags(false, false, false, false)));
}

#[test]
fn shifts() {
    assert_eq!(alu::shift_left(0x80), (0x00, flags(true, false, false, true)));
    assert_eq!(alu::shift_right(0x8A, true), (0xC5, flags(false, false, false, false)));
    assert_eq!(alu::shift_right(0x8B, false), (0x45, flags(false, false, false, true)));
}

#[test]
fn daa_adjusts_to_bcd() {
    // 0x45 + 0x38 = 0x7D, which reads as 83 in BCD.
    assert_eq!(alu::daa(0x7D, flags(false, false, false, false)), (0x83, flags(false, false, false, false)));
    // 0x99 + 0x01 = 0x9A: both digits adjusted, carry out.
    assert_eq!(alu::daa(0x9A, flags(false, false, false, false)), (0x00, flags(true, false, false, true)));
    // 0x83 - 0x38 = 0x4B after a subtraction with half borrow: 45.
    assert_eq!(alu::daa(0x4B, flags(false, true, true, false)), (0x45, flags(false, true, false, false)));
}

#[test]
fn signed_offsets() {
    assert_eq!(alu::signed_8(0xFF), -1);
    assert_eq!(alu::signed_8(0x80), -128);
    assert_eq!(alu::signed_8(0x7F), 127);
}
