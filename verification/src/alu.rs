//! The arithmetic and flag unit: pure computations, each giving a result and
//! the four flags to latch.

use vstd::prelude::*;
use crate::register::flag_byte;

verus! {

/// The four condition flags as one value.
#[derive(Clone, Copy, Debug, PartialEq, Eq, Structural)]
pub struct FlagBits {
    /// Zero.
    pub z: bool,
    /// Subtract.
    pub n: bool,
    /// Half-carry.
    pub h: bool,
    /// Carry.
    pub c: bool,
}

impl FlagBits {
    /// The flag byte that holds exactly these flags.
    pub open spec fn byte(self) -> u8 {
        flag_byte(self.z, self.n, self.h, self.c)
    }
}

/// One for a set carry, zero for a clear one.
pub open spec fn carry_in(carry: bool) -> int {
    if carry {
        1
    } else {
        0
    }
}

/// Sum of two bytes and a carry, modulo 256. Half-carry is the carry out of
/// bit 3, carry the carry out of bit 7.
pub open spec fn add8_spec(a: u8, b: u8, carry: bool) -> (u8, FlagBits) {
    let sum = a + b + carry_in(carry);
    (
        (sum % 256) as u8,
        FlagBits {
            z: sum % 256 == 0,
            n: false,
            h: a % 16 + b % 16 + carry_in(carry) > 0xF,
            c: sum > 0xFF,
        },
    )
}

/// Difference of two bytes less a borrow, modulo 256. Half-carry is the
/// borrow out of bit 4, carry the borrow out of bit 8.
pub open spec fn sub8_spec(a: u8, b: u8, carry: bool) -> (u8, FlagBits) {
    let diff = a - b - carry_in(carry);
    (
        (diff % 256) as u8,
        FlagBits {
            z: diff % 256 == 0,
            n: true,
            h: a % 16 < b % 16 + carry_in(carry),
            c: a < b + carry_in(carry),
        },
    )
}

/// Sum of two words, modulo 65536. Half-carry looks at the low eleven bits,
/// carry is the carry out of bit 15, and Zero is handed through.
pub open spec fn add16_spec(a: u16, b: u16, zero: bool) -> (u16, FlagBits) {
    (
        ((a + b) % 0x10000) as u16,
        FlagBits { z: zero, n: false, h: a % 0x800 + b % 0x800 > 0x7FF, c: a + b > 0xFFFF },
    )
}

/// A byte plus one, modulo 256. Half-carry is set when the low nibble
/// overflows past 0xF, that is when it was 0xF before; Carry is handed
/// through.
pub open spec fn inc8_spec(v: u8, carry: bool) -> (u8, FlagBits) {
    let r = (v + 1) % 256;
    ((r as u8), FlagBits { z: r == 0, n: false, h: v % 16 + 1 > 0xF, c: carry })
}

/// A byte less one, modulo 256. Half-carry is set when the low nibble of the
/// result is zero; Carry is handed through.
pub open spec fn dec8_spec(v: u8, carry: bool) -> (u8, FlagBits) {
    let r = (v - 1) % 256;
    ((r as u8), FlagBits { z: r == 0, n: true, h: r % 16 == 0, c: carry })
}

/// The decimal correction for an accumulator and the flags an addition or a
/// subtraction left: 0x06 for the low digit, where it is above 9 or
/// Half-carry is set, and 0x60 for the high digit, where the accumulator is
/// above 0x99 or Carry is set.
pub open spec fn daa_correction(a: u8, flags: FlagBits) -> (int, int) {
    (
        if flags.h || a % 16 > 9 {
            0x06
        } else {
            0
        },
        if flags.c || a > 0x99 {
            0x60
        } else {
            0
        },
    )
}

/// Decimal adjust: the correction is added where Subtract is clear, and the
/// same correction is subtracted where it is set, modulo 256. Carry tells
/// whether the high digit was corrected, Half-carry is cleared, Subtract is
/// kept.
pub open spec fn daa_spec(a: u8, flags: FlagBits) -> (u8, FlagBits) {
    let (low, high) = daa_correction(a, flags);
    let r = if flags.n {
        (a - (low + high)) % 256
    } else {
        (a + (low + high)) % 256
    };
    ((r as u8), FlagBits { z: r == 0, n: flags.n, h: false, c: high != 0 })
}

/// The flags of a bitwise operation: Zero from the result, the others clear.
pub open spec fn logic_flags(r: u8) -> FlagBits {
    FlagBits { z: r == 0, n: false, h: false, c: false }
}

/// The flags of a rotate or shift: Zero from the result, Carry the bit that
/// left the byte, the others clear.
pub open spec fn shift_flags(r: int, out: bool) -> FlagBits {
    FlagBits { z: r == 0, n: false, h: false, c: out }
}

/// Bit 7 of `v`.
pub open spec fn top_bit(v: u8) -> bool {
    v >= 0x80
}

/// Bit 0 of `v`.
pub open spec fn low_bit(v: u8) -> bool {
    v % 2 == 1
}

/// Rotate left: bit 7 moves to bit 0 and to Carry.
pub open spec fn rotate_left_spec(v: u8) -> (u8, FlagBits) {
    let r = (v * 2) % 256 + carry_in(top_bit(v));
    ((r as u8), shift_flags(r, top_bit(v)))
}

/// Rotate left through carry: the old Carry moves to bit 0, bit 7 to Carry.
pub open spec fn rotate_left_carry_spec(v: u8, carry: bool) -> (u8, FlagBits) {
    let r = (v * 2) % 256 + carry_in(carry);
    ((r as u8), shift_flags(r, top_bit(v)))
}

/// Rotate right: bit 0 moves to bit 7 and to Carry.
pub open spec fn rotate_right_spec(v: u8) -> (u8, FlagBits) {
    let r = v / 2 + 0x80 * carry_in(low_bit(v));
    ((r as u8), shift_flags(r, low_bit(v)))
}

/// Rotate right through carry: the old Carry moves to bit 7, bit 0 to Carry.
pub open spec fn rotate_right_carry_spec(v: u8, carry: bool) -> (u8, FlagBits) {
    let r = v / 2 + 0x80 * carry_in(carry);
    ((r as u8), shift_flags(r, low_bit(v)))
}

/// Shift left: bit 0 becomes zero, bit 7 moves to Carry.
pub open spec fn shift_left_spec(v: u8) -> (u8, FlagBits) {
    let r = (v * 2) % 256;
    ((r as u8), shift_flags(r, top_bit(v)))
}

/// Arithmetic shift right: bit 7 stays, bit 0 moves to Carry.
pub open spec fn shift_right_arithmetic_spec(v: u8) -> (u8, FlagBits) {
    let r = v / 2 + 0x80 * carry_in(top_bit(v));
    ((r as u8), shift_flags(r, low_bit(v)))
}

/// Logical shift right: bit 7 becomes zero, bit 0 moves to Carry.
pub open spec fn shift_right_logical_spec(v: u8) -> (u8, FlagBits) {
    let r = v / 2;
    ((r as u8), shift_flags(r as int, low_bit(v)))
}

/// The two nibbles of a byte exchanged; all flags but Zero are cleared.
pub open spec fn swap_spec(v: u8) -> (u8, FlagBits) {
    let r = (v % 16) * 16 + v / 16;
    ((r as u8), shift_flags(r, false))
}

/// The byte in which only bit `bit` is set, for `bit` from 0 to 7.
pub open spec fn bit_mask(bit: u8) -> u8 {
    if bit == 0 {
        0x01
    } else if bit == 1 {
        0x02
    } else if bit == 2 {
        0x04
    } else if bit == 3 {
        0x08
    } else if bit == 4 {
        0x10
    } else if bit == 5 {
        0x20
    } else if bit == 6 {
        0x40
    } else {
        0x80
    }
}

/// Whether bit `bit` of `v` is set.
pub open spec fn bit_is_set(v: u8, bit: u8) -> bool {
    v & bit_mask(bit) != 0
}

/// The flags of a bit test: Zero is set when the bit is clear, Half-carry is
/// set, Subtract is cleared, Carry is handed through.
pub open spec fn bit_test_spec(v: u8, bit: u8, carry: bool) -> FlagBits {
    FlagBits { z: !bit_is_set(v, bit), n: false, h: true, c: carry }
}

/// `v` with bit `bit` set.
pub open spec fn bit_set_spec(v: u8, bit: u8) -> u8 {
    v | bit_mask(bit)
}

/// `v` with bit `bit` cleared.
pub open spec fn bit_reset_spec(v: u8, bit: u8) -> u8 {
    v & !bit_mask(bit)
}

/// Adds two bytes and a carry.
pub fn add8(a: u8, b: u8, carry: bool) -> (r: (u8, FlagBits))
    ensures
        r == add8_spec(a, b, carry),
{
    let c: u8 = if carry { 1 } else { 0 };
    assert((a & 0xF) == a % 16 && (b & 0xF) == b % 16) by (bit_vector);
    let result = a.wrapping_add(b).wrapping_add(c);
    let flags = FlagBits {
        z: result == 0,
        n: false,
        h: (a & 0xF) + (b & 0xF) + c > 0xF,
        c: (a as u16) + (b as u16) + (c as u16) > 0xFF,
    };
    (result, flags)
}

/// Subtracts a byte and a borrow from a byte.
pub fn sub8(a: u8, b: u8, carry: bool) -> (r: (u8, FlagBits))
    ensures
        r == sub8_spec(a, b, carry),
{
    let c: u8 = if carry { 1 } else { 0 };
    assert((a & 0x0F) == a % 16 && (b & 0x0F) == b % 16) by (bit_vector);
    let result = a.wrapping_sub(b).wrapping_sub(c);
    let flags = FlagBits {
        z: result == 0,
        n: true,
        h: (a & 0x0F) < (b & 0x0F) + c,
        c: (a as u16) < (b as u16) + (c as u16),
    };
    (result, flags)
}

/// Adds two words; `zero` is the Zero flag to hand through.
pub fn add16(a: u16, b: u16, zero: bool) -> (r: (u16, FlagBits))
    ensures
        r == add16_spec(a, b, zero),
{
    assert((a & 0x07FF) == a % 0x800 && (b & 0x07FF) == b % 0x800) by (bit_vector);
    let result = a.wrapping_add(b);
    let flags = FlagBits {
        z: zero,
        n: false,
        h: (a & 0x07FF) + (b & 0x07FF) > 0x07FF,
        c: a > 0xFFFF - b,
    };
    (result, flags)
}

/// Adds one to a byte; `carry` is the Carry flag to hand through.
pub fn inc8(v: u8, carry: bool) -> (r: (u8, FlagBits))
    ensures
        r == inc8_spec(v, carry),
{
    let result = v.wrapping_add(1);
    assert((v & 0x0F) == v % 16) by (bit_vector);
    let flags = FlagBits { z: result == 0, n: false, h: (v & 0x0F) + 1 > 0x0F, c: carry };
    (result, flags)
}

/// Takes one from a byte; `carry` is the Carry flag to hand through.
pub fn dec8(v: u8, carry: bool) -> (r: (u8, FlagBits))
    ensures
        r == dec8_spec(v, carry),
{
    let result = v.wrapping_sub(1);
    assert((result & 0x0F) == result % 16) by (bit_vector);
    let flags = FlagBits { z: result == 0, n: true, h: (result & 0x0F) == 0, c: carry };
    (result, flags)
}

/// Decimal-adjusts an accumulator that an addition or a subtraction left
/// with the given flags.
pub fn daa(a: u8, flags: FlagBits) -> (r: (u8, FlagBits))
    ensures
        r == daa_spec(a, flags),
{
    assert((a & 0x0F) == a % 16) by (bit_vector);
    assert(0x00u8 | 0x06 == 0x06 && 0x60u8 | 0x06 == 0x66) by (bit_vector);
    let mut adjust: u8 = if flags.c || a > 0x99 { 0x60 } else { 0x00 };
    if flags.h || a & 0x0F > 0x09 {
        adjust |= 0x06;
    }
    let result = if flags.n { a.wrapping_sub(adjust) } else { a.wrapping_add(adjust) };
    (result, FlagBits { z: result == 0, n: flags.n, h: false, c: adjust >= 0x60 })
}

/// Bitwise AND of two bytes.
pub fn and8(a: u8, b: u8) -> (r: (u8, FlagBits))
    ensures
        r == (a & b, logic_flags(a & b)),
{
    let result = a & b;
    (result, FlagBits { z: result == 0, n: false, h: false, c: false })
}

/// Bitwise OR of two bytes.
pub fn or8(a: u8, b: u8) -> (r: (u8, FlagBits))
    ensures
        r == (a | b, logic_flags(a | b)),
{
    let result = a | b;
    (result, FlagBits { z: result == 0, n: false, h: false, c: false })
}

/// Bitwise exclusive OR of two bytes.
pub fn xor8(a: u8, b: u8) -> (r: (u8, FlagBits))
    ensures
        r == (a ^ b, logic_flags(a ^ b)),
{
    let result = a ^ b;
    (result, FlagBits { z: result == 0, n: false, h: false, c: false })
}

/// Rotates a byte left by one bit.
pub fn rotate_left(v: u8) -> (r: (u8, FlagBits))
    ensures
        r == rotate_left_spec(v),
{
    let out = v & 0x80 == 0x80;
    let result = (v << 1) | (v >> 7);
    assert((v & 0x80 == 0x80) == (v >= 0x80) && ((v << 1) | (v >> 7)) == (v * 2) % 256 + (if v
        >= 0x80 { 1int } else { 0 })) by (bit_vector);
    (result, FlagBits { z: result == 0, n: false, h: false, c: out })
}

/// Rotates a byte left by one bit through the Carry flag.
pub fn rotate_left_carry(v: u8, carry: bool) -> (r: (u8, FlagBits))
    ensures
        r == rotate_left_carry_spec(v, carry),
{
    let out = v & 0x80 == 0x80;
    let c: u8 = if carry { 1 } else { 0 };
    let result = (v << 1) | c;
    assert((v & 0x80 == 0x80) == (v >= 0x80) && ((v << 1) | c) == (v * 2) % 256 + c) by (bit_vector)
        requires
            c <= 1,
    ;
    (result, FlagBits { z: result == 0, n: false, h: false, c: out })
}

/// Rotates a byte right by one bit.
pub fn rotate_right(v: u8) -> (r: (u8, FlagBits))
    ensures
        r == rotate_right_spec(v),
{
    let out = v & 0x01 == 0x01;
    let result = (v >> 1) | (v << 7);
    assert((v & 0x01 == 0x01) == (v % 2 == 1) && ((v >> 1) | (v << 7)) == v / 2 + (if v % 2 == 1 {
        0x80int
    } else {
        0
    })) by (bit_vector);
    (result, FlagBits { z: result == 0, n: false, h: false, c: out })
}

/// Rotates a byte right by one bit through the Carry flag.
pub fn rotate_right_carry(v: u8, carry: bool) -> (r: (u8, FlagBits))
    ensures
        r == rotate_right_carry_spec(v, carry),
{
    let out = v & 0x01 == 0x01;
    let c: u8 = if carry { 0x80 } else { 0 };
    let result = (v >> 1) | c;
    assert((v & 0x01 == 0x01) == (v % 2 == 1) && ((v >> 1) | c) == v / 2 + c) by (bit_vector)
        requires
            c == 0 || c == 0x80,
    ;
    (result, FlagBits { z: result == 0, n: false, h: false, c: out })
}

/// Shifts a byte left by one bit.
pub fn shift_left(v: u8) -> (r: (u8, FlagBits))
    ensures
        r == shift_left_spec(v),
{
    let out = v & 0x80 == 0x80;
    let result = v << 1;
    assert((v & 0x80 == 0x80) == (v >= 0x80) && (v << 1) == (v * 2) % 256) by (bit_vector);
    (result, FlagBits { z: result == 0, n: false, h: false, c: out })
}

/// Shifts a byte right by one bit and keeps its sign bit.
pub fn shift_right_arithmetic(v: u8) -> (r: (u8, FlagBits))
    ensures
        r == shift_right_arithmetic_spec(v),
{
    let out = v & 0x01 == 0x01;
    let result = (v >> 1) | (v & 0x80);
    assert((v & 0x01 == 0x01) == (v % 2 == 1) && ((v >> 1) | (v & 0x80)) == v / 2 + (if v >= 0x80 {
        0x80int
    } else {
        0
    })) by (bit_vector);
    (result, FlagBits { z: result == 0, n: false, h: false, c: out })
}

/// Shifts a byte right by one bit.
pub fn shift_right_logical(v: u8) -> (r: (u8, FlagBits))
    ensures
        r == shift_right_logical_spec(v),
{
    let out = v & 0x01 == 0x01;
    let result = v >> 1;
    assert((v & 0x01 == 0x01) == (v % 2 == 1) && (v >> 1) == v / 2) by (bit_vector);
    (result, FlagBits { z: result == 0, n: false, h: false, c: out })
}

/// Exchanges the two nibbles of a byte.
pub fn swap(v: u8) -> (r: (u8, FlagBits))
    ensures
        r == swap_spec(v),
{
    let result = (v >> 4) | (v << 4);
    assert(((v >> 4) | (v << 4)) == (v % 16) * 16 + v / 16) by (bit_vector);
    (result, FlagBits { z: result == 0, n: false, h: false, c: false })
}

/// The byte in which only bit `bit` is set.
fn mask_of(bit: u8) -> (m: u8)
    requires
        bit < 8,
    ensures
        m == bit_mask(bit),
{
    assert(1u8 << 0u8 == 0x01 && 1u8 << 1u8 == 0x02 && 1u8 << 2u8 == 0x04 && 1u8 << 3u8 == 0x08
        && 1u8 << 4u8 == 0x10 && 1u8 << 5u8 == 0x20 && 1u8 << 6u8 == 0x40 && 1u8 << 7u8 == 0x80)
        by (bit_vector);
    1u8 << bit
}

/// Tests bit `bit` of a byte; `carry` is the Carry flag to hand through.
pub fn bit_test(v: u8, bit: u8, carry: bool) -> (flags: FlagBits)
    requires
        bit < 8,
    ensures
        flags == bit_test_spec(v, bit, carry),
{
    let clear = v & mask_of(bit) == 0;
    FlagBits { z: clear, n: false, h: true, c: carry }
}

/// Sets bit `bit` of a byte.
pub fn bit_set(v: u8, bit: u8) -> (r: u8)
    requires
        bit < 8,
    ensures
        r == bit_set_spec(v, bit),
{
    v | mask_of(bit)
}

/// Clears bit `bit` of a byte and leaves the others.
pub fn bit_reset(v: u8, bit: u8) -> (r: u8)
    requires
        bit < 8,
    ensures
        r == bit_reset_spec(v, bit),
{
    v & !mask_of(bit)
}

/// Setting a bit sets it, clearing a bit clears it, and either leaves every
/// other bit as it was.
pub proof fn lemma_bit_set_reset(v: u8, bit: u8, other: u8)
    requires
        bit < 8,
        other < 8,
    ensures
        bit_is_set(bit_set_spec(v, bit), bit),
        !bit_is_set(bit_reset_spec(v, bit), bit),
        other != bit ==> bit_is_set(bit_set_spec(v, bit), other) == bit_is_set(v, other),
        other != bit ==> bit_is_set(bit_reset_spec(v, bit), other) == bit_is_set(v, other),
{
    let m = bit_mask(bit);
    let o = bit_mask(other);
    assert(other != bit ==> m & o == 0) by {
        assert(0x01u8 & 0x02 == 0 && 0x01u8 & 0x04 == 0 && 0x01u8 & 0x08 == 0 && 0x01u8 & 0x10 == 0
            && 0x01u8 & 0x20 == 0 && 0x01u8 & 0x40 == 0 && 0x01u8 & 0x80 == 0 && 0x02u8 & 0x04 == 0
            && 0x02u8 & 0x08 == 0 && 0x02u8 & 0x10 == 0 && 0x02u8 & 0x20 == 0 && 0x02u8 & 0x40 == 0
            && 0x02u8 & 0x80 == 0 && 0x04u8 & 0x08 == 0 && 0x04u8 & 0x10 == 0 && 0x04u8 & 0x20 == 0
            && 0x04u8 & 0x40 == 0 && 0x04u8 & 0x80 == 0 && 0x08u8 & 0x10 == 0 && 0x08u8 & 0x20 == 0
            && 0x08u8 & 0x40 == 0 && 0x08u8 & 0x80 == 0 && 0x10u8 & 0x20 == 0 && 0x10u8 & 0x40 == 0
            && 0x10u8 & 0x80 == 0 && 0x20u8 & 0x40 == 0 && 0x20u8 & 0x80 == 0 && 0x40u8 & 0x80
            == 0) by (bit_vector);
        assert(forall|x: u8, y: u8| #[trigger] (x & y) == y & x) by (bit_vector);
    }
    assert(m != 0);
    assert((v | m) & m != 0 && (v & !m) & m == 0 && (m & o == 0 ==> ((v | m) & o == v & o && (v
        & !m) & o == v & o))) by (bit_vector)
        requires
            m != 0,
    ;
}

} // verus!
