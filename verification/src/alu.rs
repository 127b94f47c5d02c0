//! The arithmetic and logic unit: each operation as a function from operands
//! and flags to a result and new flags.
//!
//! What an operation computes is stated over the integers: sums, differences,
//! quotients and remainders. The functions themselves work as the hardware
//! does, with wrapping arithmetic, masks and shifts, and are proved to give
//! those values. Half-carry is the carry out of bit 3 (out of bit 11 for the
//! 16-bit addition); subtraction reports borrows in the carry flags. The
//! logic operations clear half-carry and carry.

use vstd::prelude::*;
use crate::aluops::Operation;
use crate::common::signed_of;
use crate::direction::Direction;
use crate::flags::RegFlags;

verus! {

/// One for a set carry, zero for a clear one.
pub open spec fn carry_value(carry: bool) -> int {
    if carry {
        1
    } else {
        0
    }
}

/// `a + v + carry_in`, its low eight bits and its flags.
pub open spec fn add8_spec(a: u8, v: u8, carry_in: bool) -> (u8, RegFlags) {
    let sum = a + v + carry_value(carry_in);
    (
        (sum % 256) as u8,
        RegFlags {
            z: sum % 256 == 0,
            n: false,
            h: a % 16 + v % 16 + carry_value(carry_in) >= 16,
            c: sum >= 256,
        },
    )
}

/// `a - v - borrow_in`, its low eight bits and its flags.
pub open spec fn sub8_spec(a: u8, v: u8, borrow_in: bool) -> (u8, RegFlags) {
    let difference = a - v - carry_value(borrow_in);
    (
        (difference % 256) as u8,
        RegFlags {
            z: difference % 256 == 0,
            n: true,
            h: a % 16 < v % 16 + carry_value(borrow_in),
            c: a < v + carry_value(borrow_in),
        },
    )
}

/// The flags after a logic operation gave `value`: only zero can be set.
pub open spec fn logic_flags(value: u8) -> RegFlags {
    RegFlags { z: value == 0, n: false, h: false, c: false }
}

/// The accumulator and flags after `operation` on accumulator `a` and operand
/// `v`; `None` for the reserved operation. A comparison keeps the accumulator
/// and takes the flags of the subtraction.
pub open spec fn alu_spec(operation: Operation, a: u8, v: u8, flags: RegFlags) -> Option<
    (u8, RegFlags),
> {
    match operation {
        Operation::ADD => Some(add8_spec(a, v, false)),
        Operation::ADC => Some(add8_spec(a, v, flags.c)),
        Operation::SUB => Some(sub8_spec(a, v, false)),
        Operation::SBC => Some(sub8_spec(a, v, flags.c)),
        Operation::AND => Some((a & v, logic_flags(a & v))),
        Operation::XOR => Some((a ^ v, logic_flags(a ^ v))),
        Operation::OR => Some((a | v, logic_flags(a | v))),
        Operation::CP => Some((a, sub8_spec(a, v, false).1)),
        Operation::Invalid => None,
    }
}

/// `v + 1` modulo 256; the carry flag is kept.
pub open spec fn inc8_spec(v: u8, flags: RegFlags) -> (u8, RegFlags) {
    (((v + 1) % 256) as u8, RegFlags { z: v == 255, n: false, h: v % 16 == 15, c: flags.c })
}

/// `v - 1` modulo 256; the carry flag is kept.
pub open spec fn dec8_spec(v: u8, flags: RegFlags) -> (u8, RegFlags) {
    (((v - 1) % 256) as u8, RegFlags { z: v == 1, n: true, h: v % 16 == 0, c: flags.c })
}

/// `hl + v` modulo 65536; half-carry is the carry out of bit 11, and the zero
/// flag is kept.
pub open spec fn add16_spec(hl: u16, v: u16, flags: RegFlags) -> (u16, RegFlags) {
    (
        ((hl + v) % 0x1_0000) as u16,
        RegFlags {
            z: flags.z,
            n: false,
            h: hl % 0x1000 + v % 0x1000 >= 0x1000,
            c: hl + v >= 0x1_0000,
        },
    )
}

/// `sp` plus the signed offset `offset`, modulo 65536. The flags are those of
/// adding the offset as an unsigned byte to the low byte of `sp`.
pub open spec fn add_sp_spec(sp: u16, offset: u8) -> (u16, RegFlags) {
    (
        ((sp + signed_of(offset)) % 0x1_0000) as u16,
        RegFlags {
            z: false,
            n: false,
            h: sp % 16 + offset % 16 >= 16,
            c: sp % 256 + offset >= 256,
        },
    )
}

/// `v` rotated by one bit and the bit that left it. A circular rotate feeds
/// that bit back in at the other end; otherwise `carry_in` enters there.
/// `None` for the reserved direction.
pub open spec fn rotate_spec(direction: Direction, circular: bool, v: u8, carry_in: bool)
    -> Option<(u8, bool)> {
    match direction {
        Direction::Left => {
            let out = v >= 128;
            let enters = if circular {
                out
            } else {
                carry_in
            };
            Some((((v * 2) % 256 + carry_value(enters)) as u8, out))
        },
        Direction::Right => {
            let out = v % 2 == 1;
            let enters = if circular {
                out
            } else {
                carry_in
            };
            Some(((v / 2 + 128 * carry_value(enters)) as u8, out))
        },
        Direction::Unknown => None,
    }
}

/// `v` shifted arithmetically by one bit and the bit that left it: to the
/// left a zero enters, to the right the sign bit stays. `None` for the
/// reserved direction.
pub open spec fn shift_spec(direction: Direction, v: u8) -> Option<(u8, bool)> {
    match direction {
        Direction::Left => Some((((v * 2) % 256) as u8, v >= 128)),
        Direction::Right => Some(((v / 2 + 128 * (v / 128)) as u8, v % 2 == 1)),
        Direction::Unknown => None,
    }
}

/// `v` shifted right by one bit with a zero entering, and the bit that left.
pub open spec fn srl_spec(v: u8) -> (u8, bool) {
    ((v / 2) as u8, v % 2 == 1)
}

/// `v` with its two nibbles exchanged.
pub open spec fn swap_spec(v: u8) -> u8 {
    ((v % 16) * 16 + v / 16) as u8
}

/// The flags after a rotate, shift or swap of a register gave `value` and
/// moved `carry` out.
pub open spec fn shifted_flags(value: u8, carry: bool) -> RegFlags {
    RegFlags { z: value == 0, n: false, h: false, c: carry }
}

/// Whether bit `index` of `v` is set.
pub open spec fn bit_spec(v: u8, index: u8) -> bool {
    (v >> index) & 1 == 1
}

/// `v` with bit `index` set.
pub open spec fn set_bit_spec(v: u8, index: u8) -> u8 {
    v | (1u8 << index)
}

/// `v` with bit `index` cleared.
pub open spec fn reset_bit_spec(v: u8, index: u8) -> u8 {
    v & !(1u8 << index)
}

/// The accumulator turned back into two decimal digits after an addition or
/// subtraction of packed decimals. The low digit is corrected by 6 when it
/// overflowed, the high digit by `0x60`; after a subtraction only the flags
/// say whether it did.
pub open spec fn daa_spec(a: u8, flags: RegFlags) -> (u8, RegFlags) {
    let low = if flags.n {
        flags.h
    } else {
        flags.h || a % 16 > 9
    };
    let high = if flags.n {
        flags.c
    } else {
        flags.c || a > 0x99
    };
    let adjust = (if low {
        0x06int
    } else {
        0
    }) + (if high {
        0x60int
    } else {
        0
    });
    let value = if flags.n {
        (a - adjust) % 256
    } else {
        (a + adjust) % 256
    };
    (value as u8, RegFlags { z: value == 0, n: flags.n, h: false, c: high })
}

/// The bitwise complement as a difference.
pub open spec fn complement_spec(a: u8) -> u8 {
    (255 - a) as u8
}

/// Whether both nibbles of a byte are decimal digits.
pub open spec fn is_decimal(v: u8) -> bool {
    v / 16 <= 9 && v % 16 <= 9
}

/// The number from 0 to 99 that a byte of two decimal digits writes.
pub open spec fn decimal_value(v: u8) -> int {
    10 * (v as int / 16) + v as int % 16
}

/// The decimal sum, digit by digit: `v` is the low byte of `x + y + c`, and
/// `d` the low byte of `v` plus the adjustment.
proof fn lemma_decimal_sum(x: u8, y: u8, c: u8, v: u8, d: u8)
    by (bit_vector)
    ensures
        ({
            &&& x / 16 <= 9 && x % 16 <= 9
            &&& y / 16 <= 9 && y % 16 <= 9
            &&& c <= 1
            &&& v == (x + y + c) % 256
            &&& d == (v + (if x % 16 + y % 16 + c >= 16 || v % 16 > 9 {
                0x06int
            } else {
                0
            }) + (if x + y + c >= 256 || v > 0x99 {
                0x60int
            } else {
                0
            })) % 256
        }) ==> ({
            &&& d / 16 <= 9
            &&& d % 16 <= 9
            &&& 10 * (d / 16) + d % 16 + (if x + y + c >= 256 || v > 0x99 {
                100int
            } else {
                0
            }) == 10 * (x / 16) + x % 16 + 10 * (y / 16) + y % 16 + c
        }),
{
}

/// Adding two packed decimals and adjusting gives their decimal sum: its two
/// low digits in the accumulator, its hundreds in the carry flag.
pub proof fn lemma_daa_after_add(x: u8, y: u8, carry_in: bool)
    requires
        is_decimal(x),
        is_decimal(y),
    ensures
        ({
            let (sum, f) = add8_spec(x, y, carry_in);
            let (adjusted, g) = daa_spec(sum, f);
            &&& is_decimal(adjusted)
            &&& decimal_value(adjusted) + 100 * carry_value(g.c) == decimal_value(x)
                + decimal_value(y) + carry_value(carry_in)
        }),
{
    let c: u8 = if carry_in {
        1
    } else {
        0
    };
    let (sum, f) = add8_spec(x, y, carry_in);
    let (adjusted, g) = daa_spec(sum, f);
    lemma_decimal_sum(x, y, c, sum, adjusted);
}

/// The decimal difference, digit by digit: `v` is the byte that `y + c` must
/// be added to for `x`, and `d` the byte that the adjustment must be added to
/// for `v`.
proof fn lemma_decimal_difference(x: u8, y: u8, c: u8, v: u8, d: u8)
    by (bit_vector)
    ensures
        ({
            &&& x / 16 <= 9 && x % 16 <= 9
            &&& y / 16 <= 9 && y % 16 <= 9
            &&& c <= 1
            &&& (v + y + c) % 256 == x
            &&& (d + (if y % 16 + c > x % 16 {
                0x06int
            } else {
                0
            }) + (if y + c > x {
                0x60int
            } else {
                0
            })) % 256 == v
        }) ==> ({
            &&& d / 16 <= 9
            &&& d % 16 <= 9
            &&& 10 * (d / 16) + d % 16 + 10 * (y / 16) + y % 16 + c == 10 * (x / 16) + x % 16 + (
            if y + c > x {
                100int
            } else {
                0
            })
        }),
{
}

/// A number within one turn of the byte range, brought into it.
proof fn lemma_wrap_byte(n: int)
    requires
        -256 <= n < 512,
    ensures
        n % 256 == if n < 0 {
            n + 256
        } else if n < 256 {
            n
        } else {
            n - 256
        },
{
}

/// Subtracting two packed decimals and adjusting gives their decimal
/// difference: its two low digits in the accumulator, and in the carry flag
/// whether a hundred was borrowed.
pub proof fn lemma_daa_after_sub(x: u8, y: u8, borrow_in: bool)
    requires
        is_decimal(x),
        is_decimal(y),
    ensures
        ({
            let (difference, f) = sub8_spec(x, y, borrow_in);
            let (adjusted, g) = daa_spec(difference, f);
            &&& is_decimal(adjusted)
            &&& decimal_value(adjusted) - 100 * carry_value(g.c) == decimal_value(x)
                - decimal_value(y) - carry_value(borrow_in)
        }),
{
    let c: u8 = if borrow_in {
        1
    } else {
        0
    };
    let low = y % 16 + c > x % 16;
    let high = y + c > x;
    let adjust = (if low {
        0x06int
    } else {
        0
    }) + (if high {
        0x60int
    } else {
        0
    });
    let difference = ((x - y - c) % 256) as u8;
    let adjusted = ((difference - adjust) % 256) as u8;
    assert(sub8_spec(x, y, borrow_in) == (
        difference,
        RegFlags { z: difference == 0, n: true, h: low, c: high },
    ));
    assert(daa_spec(difference, sub8_spec(x, y, borrow_in).1).0 == adjusted);
    assert(daa_spec(difference, sub8_spec(x, y, borrow_in).1).1.c == high);
    assert((difference + y + c) % 256 == x) by {
        lemma_wrap_byte(x - y - c);
        lemma_wrap_byte(difference + y + c);
    }
    assert((adjusted + adjust) % 256 == difference) by {
        lemma_wrap_byte(difference - adjust);
        lemma_wrap_byte(adjusted + adjust);
    }
    lemma_decimal_difference(x, y, c, difference, adjusted);
}

/// How masks read remainders.
proof fn lemma_masks8(v: u8)
    by (bit_vector)
    ensures
        v & 0x0f == v % 16,
        (v & 0x80 != 0) == (v >= 128),
        (v & 0x01 != 0) == (v % 2 == 1),
        !v == 255 - v,
{
}

/// How masks read remainders of a word.
proof fn lemma_masks16(w: u16)
    by (bit_vector)
    ensures
        w & 0x000f == w % 16,
        w & 0x00ff == w % 256,
        w & 0x0fff == w % 0x1000,
{
}

/// A left rotate doubles, drops the bit that leaves and adds the bit that enters.
proof fn lemma_rotate_left(v: u8, c: u8)
    by (bit_vector)
    requires
        c <= 1,
    ensures
        (v << 1) | c == (v * 2) % 256 + c,
{
}

/// A right rotate halves and puts the bit that enters on top.
proof fn lemma_rotate_right(v: u8, c: u8)
    by (bit_vector)
    requires
        c <= 1,
    ensures
        (v >> 1) | (c << 7) == v / 2 + 128 * c,
{
}

/// A left shift doubles and drops the bit that leaves.
proof fn lemma_shift_left(v: u8)
    by (bit_vector)
    ensures
        v << 1 == (v * 2) % 256,
{
}

/// An arithmetic right shift halves and keeps the top bit.
proof fn lemma_shift_right_signed(v: u8)
    by (bit_vector)
    ensures
        (v >> 1) | (v & 0x80) == v / 2 + 128 * (v / 128),
{
}

/// A logical right shift halves.
proof fn lemma_shift_right(v: u8)
    by (bit_vector)
    ensures
        v >> 1 == v / 2,
{
}

/// Shifting both ways by four exchanges the nibbles.
proof fn lemma_swap(v: u8)
    by (bit_vector)
    ensures
        (v << 4) | (v >> 4) == (v % 16) * 16 + v / 16,
{
}

/// Adds with carry.
pub fn add8(a: u8, v: u8, carry_in: bool) -> (r: (u8, RegFlags))
    ensures
        r == add8_spec(a, v, carry_in),
{
    proof {
        lemma_masks8(a);
        lemma_masks8(v);
    }
    let cin: u8 = if carry_in {
        1
    } else {
        0
    };
    let value: u8 = a.wrapping_add(v).wrapping_add(cin);
    let half = (a & 0x0f) + (v & 0x0f) + cin > 0x0f;
    let carry = (a as u16) + (v as u16) + (cin as u16) > 0xff;
    (value, RegFlags { z: value == 0, n: false, h: half, c: carry })
}

/// Subtracts with borrow.
pub fn sub8(a: u8, v: u8, borrow_in: bool) -> (r: (u8, RegFlags))
    ensures
        r == sub8_spec(a, v, borrow_in),
{
    proof {
        lemma_masks8(a);
        lemma_masks8(v);
    }
    let bin: u8 = if borrow_in {
        1
    } else {
        0
    };
    let value: u8 = a.wrapping_sub(v).wrapping_sub(bin);
    let half = (a & 0x0f) < (v & 0x0f) + bin;
    let carry = (a as u16) < (v as u16) + (bin as u16);
    (value, RegFlags { z: value == 0, n: true, h: half, c: carry })
}

/// Applies `operation` to accumulator `a` and operand `v`. The reserved
/// operation gives `None`.
pub fn alu(operation: Operation, a: u8, v: u8, flags: RegFlags) -> (r: Option<(u8, RegFlags)>)
    ensures
        r == alu_spec(operation, a, v, flags),
{
    match operation {
        Operation::ADD => Some(add8(a, v, false)),
        Operation::ADC => Some(add8(a, v, flags.c)),
        Operation::SUB => Some(sub8(a, v, false)),
        Operation::SBC => Some(sub8(a, v, flags.c)),
        Operation::AND => {
            let value: u8 = a & v;
            Some((value, RegFlags { z: value == 0, n: false, h: false, c: false }))
        },
        Operation::XOR => {
            let value: u8 = a ^ v;
            Some((value, RegFlags { z: value == 0, n: false, h: false, c: false }))
        },
        Operation::OR => {
            let value: u8 = a | v;
            Some((value, RegFlags { z: value == 0, n: false, h: false, c: false }))
        },
        Operation::CP => Some((a, sub8(a, v, false).1)),
        Operation::Invalid => None,
    }
}

/// Increments a byte.
pub fn inc8(v: u8, flags: RegFlags) -> (r: (u8, RegFlags))
    ensures
        r == inc8_spec(v, flags),
{
    proof {
        lemma_masks8(v);
    }
    let value: u8 = v.wrapping_add(1);
    (value, RegFlags { z: value == 0, n: false, h: (v & 0x0f) == 0x0f, c: flags.c })
}

/// Decrements a byte.
pub fn dec8(v: u8, flags: RegFlags) -> (r: (u8, RegFlags))
    ensures
        r == dec8_spec(v, flags),
{
    proof {
        lemma_masks8(v);
    }
    let value: u8 = v.wrapping_sub(1);
    (value, RegFlags { z: value == 0, n: true, h: (v & 0x0f) == 0, c: flags.c })
}

/// Adds a word to HL.
pub fn add16(hl: u16, v: u16, flags: RegFlags) -> (r: (u16, RegFlags))
    ensures
        r == add16_spec(hl, v, flags),
{
    proof {
        lemma_masks16(hl);
        lemma_masks16(v);
    }
    let value: u16 = hl.wrapping_add(v);
    let half = (hl & 0x0fff) + (v & 0x0fff) > 0x0fff;
    let carry = (hl as u32) + (v as u32) > 0xffff;
    (value, RegFlags { z: flags.z, n: false, h: half, c: carry })
}

/// Adds a signed offset to the stack pointer.
pub fn add_sp(sp: u16, offset: u8) -> (r: (u16, RegFlags))
    ensures
        r == add_sp_spec(sp, offset),
{
    proof {
        lemma_masks16(sp);
        lemma_masks8(offset);
    }
    let value: u16 = if offset < 128 {
        sp.wrapping_add(offset as u16)
    } else {
        sp.wrapping_sub(256 - offset as u16)
    };
    let half = (sp & 0x000f) + ((offset & 0x0f) as u16) > 0x000f;
    let carry = (sp & 0x00ff) + (offset as u16) > 0x00ff;
    (value, RegFlags { z: false, n: false, h: half, c: carry })
}

/// Rotates a byte by one bit, through the carry or around itself. The
/// reserved direction gives `None`.
pub fn rotate(direction: Direction, circular: bool, v: u8, carry_in: bool) -> (r: Option<
    (u8, bool),
>)
    ensures
        r == rotate_spec(direction, circular, v, carry_in),
{
    proof {
        lemma_masks8(v);
    }
    match direction {
        Direction::Left => {
            let out = v & 0x80 != 0;
            let enters: u8 = if (circular && out) || (!circular && carry_in) {
                1
            } else {
                0
            };
            proof {
                lemma_rotate_left(v, enters);
            }
            Some(((v << 1) | enters, out))
        },
        Direction::Right => {
            let out = v & 0x01 != 0;
            let enters: u8 = if (circular && out) || (!circular && carry_in) {
                1
            } else {
                0
            };
            proof {
                lemma_rotate_right(v, enters);
            }
            Some(((v >> 1) | (enters << 7), out))
        },
        Direction::Unknown => None,
    }
}

/// Shifts a byte arithmetically by one bit. The reserved direction gives
/// `None`.
pub fn shift(direction: Direction, v: u8) -> (r: Option<(u8, bool)>)
    ensures
        r == shift_spec(direction, v),
{
    proof {
        lemma_masks8(v);
        lemma_shift_left(v);
        lemma_shift_right_signed(v);
    }
    match direction {
        Direction::Left => Some((v << 1, v & 0x80 != 0)),
        Direction::Right => Some(((v >> 1) | (v & 0x80), v & 0x01 != 0)),
        Direction::Unknown => None,
    }
}

/// Shifts a byte right by one bit, a zero entering.
pub fn srl(v: u8) -> (r: (u8, bool))
    ensures
        r == srl_spec(v),
{
    proof {
        lemma_masks8(v);
        lemma_shift_right(v);
    }
    (v >> 1, v & 0x01 != 0)
}

/// Exchanges the nibbles of a byte.
pub fn swap(v: u8) -> (r: u8)
    ensures
        r == swap_spec(v),
{
    proof {
        lemma_swap(v);
    }
    (v << 4) | (v >> 4)
}

/// Tests a bit.
pub fn bit(v: u8, index: u8) -> (r: bool)
    requires
        index < 8,
    ensures
        r == bit_spec(v, index),
{
    (v >> index) & 1 == 1
}

/// Sets a bit.
pub fn set_bit(v: u8, index: u8) -> (r: u8)
    requires
        index < 8,
    ensures
        r == set_bit_spec(v, index),
{
    v | (1u8 << index)
}

/// Clears a bit.
pub fn reset_bit(v: u8, index: u8) -> (r: u8)
    requires
        index < 8,
    ensures
        r == reset_bit_spec(v, index),
{
    v & !(1u8 << index)
}

/// Adjusts the accumulator to packed decimal.
pub fn daa(a: u8, flags: RegFlags) -> (r: (u8, RegFlags))
    ensures
        r == daa_spec(a, flags),
{
    proof {
        lemma_masks8(a);
    }
    let mut adjust: u8 = 0;
    let mut carry = flags.c;
    let value: u8;
    if flags.n {
        if flags.h {
            adjust += 0x06;
        }
        if flags.c {
            adjust += 0x60;
        }
        value = a.wrapping_sub(adjust);
    } else {
        if flags.h || (a & 0x0f) > 0x09 {
            adjust += 0x06;
        }
        if flags.c || a > 0x99 {
            adjust += 0x60;
            carry = true;
        }
        value = a.wrapping_add(adjust);
    }
    (value, RegFlags { z: value == 0, n: flags.n, h: false, c: carry })
}

/// Complements a byte.
pub fn complement(a: u8) -> (r: u8)
    ensures
        r == complement_spec(a),
{
    proof {
        lemma_masks8(a);
    }
    !a
}

} // verus!
