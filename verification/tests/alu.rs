use rustyboi::alu::{
    add16, add8, add_sp, alu, bit, complement, daa, dec8, inc8, reset_bit, rotate, set_bit, shift,
    srl, sub8, swap,
};
use rustyboi::aluops::Operation;
use rustyboi::direction::Direction;
use rustyboi::flags::RegFlags;

fn flags(z: bool, n: bool, h: bool, c: bool) -> RegFlags {
    RegFlags { z, n, h, c }
}

#[test]
fn add_carries_out_of_bit_three_into_half_carry() {
    assert_eq!(add8(0x0F, 0x01, false), (0x10, flags(false, false, true, false)));
    assert_eq!(add8(0x08, 0x07, false), (0x0F, flags(false, false, false, false)));
}

#[test]
fn add_carries_out_of_bit_seven_into_carry() {
    assert_eq!(add8(0x3A, 0xC6, false), (0x00, flags(true, false, true, true)));
    assert_eq!(add8(0x80, 0x80, false), (0x00, flags(true, false, false, true)));
    assert_eq!(add8(0xF0, 0x20, false), (0x10, flags(false, false, false, true)));
}

#[test]
fn add_with_carry_counts_the_carry_in_both_carries() {
    assert_eq!(add8(0xE1, 0x0F, true), (0xF1, flags(false, false, true, false)));
    assert_eq!(add8(0xFF, 0x00, true), (0x00, flags(true, false, true, true)));
    assert_eq!(add8(0xFF, 0xFF, true), (0xFF, flags(false, false, true, true)));
}

#[test]
fn subtract_borrows_into_half_carry_and_carry() {
    assert_eq!(sub8(0x3E, 0x3E, false), (0x00, flags(true, true, false, false)));
    assert_eq!(sub8(0x3E, 0x0F, false), (0x2F, flags(false, true, true, false)));
    assert_eq!(sub8(0x3E, 0x40, false), (0xFE, flags(false, true, false, true)));
    assert_eq!(sub8(0x00, 0x01, false), (0xFF, flags(false, true, true, true)));
}

#[test]
fn subtract_with_borrow_counts_the_borrow() {
    assert_eq!(sub8(0x3B, 0x2A, true), (0x10, flags(false, true, false, false)));
    assert_eq!(sub8(0x3B, 0x3A, true), (0x00, flags(true, true, false, false)));
    assert_eq!(sub8(0x3B, 0x4F, true), (0xEB, flags(false, true, true, true)));
    assert_eq!(sub8(0x00, 0x00, true), (0xFF, flags(false, true, true, true)));
}

#[test]
fn the_accumulator_operations_follow_their_selector() {
    let set = flags(false, false, false, true);
    let clear = flags(false, false, false, false);
    assert_eq!(alu(Operation::ADD, 0x0F, 0x01, set), Some((0x10, flags(false, false, true, false))));
    assert_eq!(alu(Operation::ADC, 0x0F, 0x01, set), Some((0x11, flags(false, false, true, false))));
    assert_eq!(alu(Operation::ADC, 0x0F, 0x01, clear), Some((0x10, flags(false, false, true, false))));
    assert_eq!(alu(Operation::SUB, 0x10, 0x01, set), Some((0x0F, flags(false, true, true, false))));
    assert_eq!(alu(Operation::SBC, 0x10, 0x01, set), Some((0x0E, flags(false, true, true, false))));
    assert_eq!(alu(Operation::SBC, 0x10, 0x01, clear), Some((0x0F, flags(false, true, true, false))));
    assert_eq!(alu(Operation::Invalid, 0x10, 0x01, clear), None);
}

#[test]
fn the_logic_operations_clear_half_carry_and_carry() {
    let before = flags(true, true, true, true);
    assert_eq!(alu(Operation::AND, 0x5A, 0x3F, before), Some((0x1A, flags(false, false, false, false))));
    assert_eq!(alu(Operation::AND, 0x5A, 0x00, before), Some((0x00, flags(true, false, false, false))));
    assert_eq!(alu(Operation::XOR, 0xFF, 0xFF, before), Some((0x00, flags(true, false, false, false))));
    assert_eq!(alu(Operation::XOR, 0xFF, 0x0F, before), Some((0xF0, flags(false, false, false, false))));
    assert_eq!(alu(Operation::OR, 0x5A, 0x0F, before), Some((0x5F, flags(false, false, false, false))));
    assert_eq!(alu(Operation::OR, 0x00, 0x00, before), Some((0x00, flags(true, false, false, false))));
}

#[test]
fn compare_subtracts_and_keeps_the_accumulator() {
    let before = flags(false, false, false, false);
    assert_eq!(alu(Operation::CP, 0x3C, 0x2F, before), Some((0x3C, flags(false, true, true, false))));
    assert_eq!(alu(Operation::CP, 0x3C, 0x3C, before), Some((0x3C, flags(true, true, false, false))));
    assert_eq!(alu(Operation::CP, 0x3C, 0x40, before), Some((0x3C, flags(false, true, false, true))));
}

#[test]
fn increment_and_decrement_keep_the_carry() {
    let carry = flags(false, false, false, true);
    let none = flags(false, false, false, false);
    assert_eq!(inc8(0xFF, carry), (0x00, flags(true, false, true, true)));
    assert_eq!(inc8(0x50, none), (0x51, flags(false, false, false, false)));
    assert_eq!(inc8(0x0F, none), (0x10, flags(false, false, true, false)));
    assert_eq!(dec8(0x01, carry), (0x00, flags(true, true, false, true)));
    assert_eq!(dec8(0x00, none), (0xFF, flags(false, true, true, false)));
    assert_eq!(dec8(0x10, none), (0x0F, flags(false, true, true, false)));
}

#[test]
fn wide_add_carries_out_of_bits_eleven_and_fifteen() {
    let zero = flags(true, true, false, false);
    assert_eq!(add16(0x8A23, 0x0605, zero), (0x9028, flags(true, false, true, false)));
    assert_eq!(add16(0x8A23, 0x8A23, zero), (0x1446, flags(true, false, true, true)));
    let none = flags(false, false, true, true);
    assert_eq!(add16(0x0001, 0x0001, none), (0x0002, flags(false, false, false, false)));
    assert_eq!(add16(0xFFFF, 0x0001, none), (0x0000, flags(false, false, true, true)));
}

#[test]
fn stack_pointer_offset_is_signed_and_its_flags_come_from_the_low_byte() {
    assert_eq!(add_sp(0xFFF8, 0x02), (0xFFFA, flags(false, false, false, false)));
    assert_eq!(add_sp(0x00FF, 0x01), (0x0100, flags(false, false, true, true)));
    assert_eq!(add_sp(0x0000, 0xFF), (0xFFFF, flags(false, false, false, false)));
    assert_eq!(add_sp(0x0001, 0xFF), (0x0000, flags(false, false, true, true)));
    assert_eq!(add_sp(0x1000, 0x80), (0x0F80, flags(false, false, false, false)));
    assert_eq!(add_sp(0xFFFF, 0x7F), (0x007E, flags(false, false, true, true)));
}

#[test]
fn rotates_move_one_bit_through_or_past_the_carry() {
    assert_eq!(rotate(Direction::Left, true, 0x85, false), Some((0x0B, true)));
    assert_eq!(rotate(Direction::Left, false, 0x95, true), Some((0x2B, true)));
    assert_eq!(rotate(Direction::Left, false, 0x80, false), Some((0x00, true)));
    assert_eq!(rotate(Direction::Right, true, 0x3B, false), Some((0x9D, true)));
    assert_eq!(rotate(Direction::Right, false, 0x81, false), Some((0x40, true)));
    assert_eq!(rotate(Direction::Right, false, 0x8A, true), Some((0xC5, false)));
    assert_eq!(rotate(Direction::Left, true, 0x00, true), Some((0x00, false)));
    assert_eq!(rotate(Direction::Unknown, true, 0x85, false), None);
}

#[test]
fn shifts_drop_one_bit_into_the_carry() {
    assert_eq!(shift(Direction::Left, 0x80), Some((0x00, true)));
    assert_eq!(shift(Direction::Left, 0xFF), Some((0xFE, true)));
    assert_eq!(shift(Direction::Left, 0x01), Some((0x02, false)));
    assert_eq!(shift(Direction::Right, 0x8A), Some((0xC5, false)));
    assert_eq!(shift(Direction::Right, 0x01), Some((0x00, true)));
    assert_eq!(shift(Direction::Right, 0x7F), Some((0x3F, true)));
    assert_eq!(shift(Direction::Unknown, 0x01), None);
    assert_eq!(srl(0x01), (0x00, true));
    assert_eq!(srl(0xFF), (0x7F, true));
    assert_eq!(srl(0x80), (0x40, false));
}

#[test]
fn swap_exchanges_the_nibbles() {
    assert_eq!(swap(0xF0), 0x0F);
    assert_eq!(swap(0x12), 0x21);
    assert_eq!(swap(0x00), 0x00);
    for v in 0..=255u8 {
        assert_eq!(swap(swap(v)), v);
    }
}

#[test]
fn single_bits_are_tested_set_and_cleared() {
    assert!(bit(0x80, 7));
    assert!(!bit(0xEF, 4));
    assert!(bit(0x01, 0));
    assert_eq!(set_bit(0x80, 3), 0x88);
    assert_eq!(set_bit(0x3B, 7), 0xBB);
    assert_eq!(reset_bit(0x80, 7), 0x00);
    assert_eq!(reset_bit(0x3B, 1), 0x39);
    for v in 0..=255u8 {
        for index in 0..8u8 {
            assert!(bit(set_bit(v, index), index));
            assert!(!bit(reset_bit(v, index), index));
        }
    }
}

#[test]
fn decimal_adjust_corrects_an_addition() {
    let (sum, f) = add8(0x45, 0x38, false);
    assert_eq!(sum, 0x7D);
    assert_eq!(daa(sum, f), (0x83, flags(false, false, false, false)));
    let (sum, f) = add8(0x99, 0x01, false);
    assert_eq!(daa(sum, f), (0x00, flags(true, false, false, true)));
    let (sum, f) = add8(0x19, 0x28, false);
    assert_eq!(daa(sum, f), (0x47, flags(false, false, false, false)));
}

#[test]
fn decimal_adjust_corrects_a_subtraction() {
    let (difference, f) = sub8(0x83, 0x38, false);
    assert_eq!(difference, 0x4B);
    assert_eq!(daa(difference, f), (0x45, flags(false, true, false, false)));
    let (difference, f) = sub8(0x00, 0x01, false);
    assert_eq!(daa(difference, f), (0x99, flags(false, true, false, true)));
}

#[test]
fn decimal_adjust_gives_the_decimal_sum_of_any_two_decimals() {
    for x in 0..100u32 {
        for y in 0..100u32 {
            let a: u8 = ((x / 10) * 16 + x % 10) as u8;
            let b: u8 = ((y / 10) * 16 + y % 10) as u8;
            let (sum, f) = add8(a, b, false);
            let (adjusted, g) = daa(sum, f);
            let total: u32 = x + y;
            let expected: u8 = (((total % 100) / 10) * 16 + total % 10) as u8;
            assert_eq!(adjusted, expected);
            assert_eq!(g.c, total >= 100);
            let (difference, f) = sub8(a, b, false);
            let (adjusted, g) = daa(difference, f);
            let rest: u32 = (100 + x - y) % 100;
            let expected: u8 = ((rest / 10) * 16 + rest % 10) as u8;
            assert_eq!(adjusted, expected);
            assert_eq!(g.c, x < y);
        }
    }
}

#[test]
fn complement_flips_every_bit() {
    assert_eq!(complement(0x35), 0xCA);
    assert_eq!(complement(0x00), 0xFF);
    assert_eq!(complement(0xFF), 0x00);
}

#[test]
fn add_and_subtract_agree_with_wide_arithmetic_everywhere() {
    for a in 0..=255u16 {
        for v in 0..=255u16 {
            for carry in 0..2u16 {
                let (sum, f) = add8(a as u8, v as u8, carry == 1);
                assert_eq!(sum as u16, (a + v + carry) & 0xFF);
                assert_eq!(f.c, a + v + carry > 0xFF);
                assert_eq!(f.h, (a & 0xF) + (v & 0xF) + carry > 0xF);
                assert_eq!(f.z, sum == 0);
                assert!(!f.n);
                let (difference, f) = sub8(a as u8, v as u8, carry == 1);
                assert_eq!(difference as u16, (0x100 + a - v - carry) & 0xFF);
                assert_eq!(f.c, a < v + carry);
                assert_eq!(f.h, (a & 0xF) < (v & 0xF) + carry);
                assert_eq!(f.z, difference == 0);
                assert!(f.n);
            }
        }
    }
}
