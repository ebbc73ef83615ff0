//! What the arithmetic and logic unit computes: for each operation the
//! result and the four flags, as functions of the operands alone.

use vstd::prelude::*;
use crate::bits::{sign_extend, wrap16, wrap8};
use crate::cpu::registers::flags_byte;

verus! {

/// What an 8-bit operation hands back: a value and a flag register.
pub struct AluResult {
    pub value: u8,
    pub flags: u8,
}

/// What a 16-bit operation hands back.
pub struct WideResult {
    pub value: u16,
    pub flags: u8,
}

/// The shifts and rotations of the prefixed instructions, in the order of
/// their opcodes.
#[derive(Debug, Clone, Copy, PartialEq, Eq, Structural)]
pub enum Shift {
    /// Rotate left; bit 7 goes to bit 0 and to the carry.
    Rlc,
    /// Rotate right; bit 0 goes to bit 7 and to the carry.
    Rrc,
    /// Rotate left through the carry.
    Rl,
    /// Rotate right through the carry.
    Rr,
    /// Shift left; bit 0 becomes zero.
    Sla,
    /// Shift right; bit 7 stays.
    Sra,
    /// Exchange the two nibbles.
    Swap,
    /// Shift right; bit 7 becomes zero.
    Srl,
}

/// A flag as the number it adds: 1 if set, 0 if clear.
pub open spec fn bit_of(flag: bool) -> int {
    if flag {
        1
    } else {
        0
    }
}

/// `a + x + carry`: the sum modulo 256; zero flag from the result, subtract
/// flag clear, half-carry on a carry out of bit 3, carry on a carry out of
/// bit 7.
pub open spec fn add8(a: u8, x: u8, carry: bool) -> AluResult {
    let sum = a + x + bit_of(carry);
    AluResult {
        value: wrap8(sum),
        flags: flags_byte(
            wrap8(sum) == 0,
            false,
            a % 16 + x % 16 + bit_of(carry) > 0xF,
            sum > 0xFF,
        ),
    }
}

/// `a - x - carry`: the difference modulo 256; zero flag from the result,
/// subtract flag set, half-carry on a borrow into bit 3, carry on a borrow
/// into bit 7.
pub open spec fn sub8(a: u8, x: u8, carry: bool) -> AluResult {
    let difference = a - x - bit_of(carry);
    AluResult {
        value: wrap8(difference),
        flags: flags_byte(
            wrap8(difference) == 0,
            true,
            a % 16 < x % 16 + bit_of(carry),
            difference < 0,
        ),
    }
}

/// `a & x`: zero flag from the result, half-carry set, subtract and carry
/// clear.
pub open spec fn and8(a: u8, x: u8) -> AluResult {
    AluResult { value: a & x, flags: flags_byte(a & x == 0, false, true, false) }
}

/// `a ^ x`: zero flag from the result, the other flags clear.
pub open spec fn xor8(a: u8, x: u8) -> AluResult {
    AluResult { value: a ^ x, flags: flags_byte(a ^ x == 0, false, false, false) }
}

/// `a | x`: zero flag from the result, the other flags clear.
pub open spec fn or8(a: u8, x: u8) -> AluResult {
    AluResult { value: a | x, flags: flags_byte(a | x == 0, false, false, false) }
}

/// `x + 1` modulo 256. The carry flag stays as it is.
pub open spec fn inc8(x: u8, carry: bool) -> AluResult {
    AluResult {
        value: wrap8(x + 1),
        flags: flags_byte(wrap8(x + 1) == 0, false, x % 16 == 0xF, carry),
    }
}

/// `x - 1` modulo 256. The carry flag stays as it is.
pub open spec fn dec8(x: u8, carry: bool) -> AluResult {
    AluResult {
        value: wrap8(x - 1),
        flags: flags_byte(wrap8(x - 1) == 0, true, x % 16 == 0, carry),
    }
}

/// The value of a shift or rotation of `x`, with `carry` as the bit that
/// the rotations through the carry take in.
pub open spec fn shift_value(kind: Shift, x: u8, carry: bool) -> u8 {
    match kind {
        Shift::Rlc => ((x * 2) % 256 + x / 128) as u8,
        Shift::Rrc => (x / 2 + (x % 2) * 128) as u8,
        Shift::Rl => ((x * 2) % 256 + bit_of(carry)) as u8,
        Shift::Rr => (x / 2 + bit_of(carry) * 128) as u8,
        Shift::Sla => ((x * 2) % 256) as u8,
        Shift::Sra => (x / 2 + (x / 128) * 128) as u8,
        Shift::Swap => ((x % 16) * 16 + x / 16) as u8,
        Shift::Srl => (x / 2) as u8,
    }
}

/// The bit that a shift or rotation of `x` moves out.
pub open spec fn shift_carry(kind: Shift, x: u8) -> bool {
    match kind {
        Shift::Rlc => x >= 128,
        Shift::Rrc => x % 2 == 1,
        Shift::Rl => x >= 128,
        Shift::Rr => x % 2 == 1,
        Shift::Sla => x >= 128,
        Shift::Sra => x % 2 == 1,
        Shift::Swap => false,
        Shift::Srl => x % 2 == 1,
    }
}

/// A prefixed shift or rotation: the zero flag comes from the result, the
/// carry is the bit moved out.
pub open spec fn shift8(kind: Shift, x: u8, carry: bool) -> AluResult {
    AluResult {
        value: shift_value(kind, x, carry),
        flags: flags_byte(shift_value(kind, x, carry) == 0, false, false, shift_carry(kind, x)),
    }
}

/// A rotation of the accumulator by one of the four one-byte instructions:
/// the zero flag is cleared even where the result is zero.
pub open spec fn rotate_a(kind: Shift, a: u8, carry: bool) -> AluResult {
    AluResult {
        value: shift_value(kind, a, carry),
        flags: flags_byte(false, false, false, shift_carry(kind, a)),
    }
}

/// Whether decimal adjustment sets the carry: after an addition if the carry
/// was set or the accumulator is above 0x99; after a subtraction it stays.
pub open spec fn daa_carry(a: u8, sub: bool, half_carry: bool, carry: bool) -> bool {
    if sub {
        carry
    } else {
        carry || a > 0x99
    }
}

/// The accumulator after decimal adjustment. After an addition 0x60 is
/// added if the carry was set or the accumulator is above 0x99, then 0x06
/// if the half-carry was set or the low nibble is above 9. After a
/// subtraction 0x60 is taken off if the carry was set, and 0x06 if the
/// half-carry was set.
pub open spec fn daa_value(a: u8, sub: bool, half_carry: bool, carry: bool) -> u8 {
    if sub {
        let high = if carry {
            wrap8(a - 0x60)
        } else {
            a
        };
        if half_carry {
            wrap8(high - 0x06)
        } else {
            high
        }
    } else {
        let high = if carry || a > 0x99 {
            wrap8(a + 0x60)
        } else {
            a
        };
        if half_carry || high % 16 > 0x09 {
            wrap8(high + 0x06)
        } else {
            high
        }
    }
}

/// Adjusts an accumulator to two decimal digits and says whether the carry
/// is set afterwards.
pub fn adjust_decimal(a: u8, sub: bool, half_carry: bool, carry: bool) -> (adjusted: (u8, bool))
    ensures
        adjusted.0 == daa_value(a, sub, half_carry, carry),
        adjusted.1 == daa_carry(a, sub, half_carry, carry),
{
    let mut value = a;
    let mut carry_out = carry;
    if !sub {
        if carry || value > 0x99 {
            value = value.wrapping_add(0x60);
            carry_out = true;
        }
        if half_carry || value % 16 > 0x09 {
            value = value.wrapping_add(0x06);
        }
    } else {
        if carry {
            value = value.wrapping_sub(0x60);
        }
        if half_carry {
            value = value.wrapping_sub(0x06);
        }
    }
    (value, carry_out)
}

/// Decimal adjustment: the zero flag comes from the result, the subtract
/// flag stays, the half-carry is cleared.
pub open spec fn daa8(a: u8, sub: bool, half_carry: bool, carry: bool) -> AluResult {
    AluResult {
        value: daa_value(a, sub, half_carry, carry),
        flags: flags_byte(
            daa_value(a, sub, half_carry, carry) == 0,
            sub,
            false,
            daa_carry(a, sub, half_carry, carry),
        ),
    }
}

/// `hl + x` modulo 65536. The zero flag stays as it is; half-carry on a
/// carry out of bit 11, carry on a carry out of bit 15.
pub open spec fn add16(hl: u16, x: u16, zero: bool) -> WideResult {
    WideResult {
        value: wrap16(hl + x),
        flags: flags_byte(zero, false, hl % 0x1000 + x % 0x1000 > 0x0FFF, hl + x > 0xFFFF),
    }
}

/// `sp + e` modulo 65536 for a signed 8-bit `e`. Zero and subtract flag are
/// cleared; half-carry and carry come from the unsigned addition of the low
/// bytes, out of bit 3 and out of bit 7.
pub open spec fn add_offset(sp: u16, e: u8) -> WideResult {
    WideResult {
        value: wrap16(sp + sign_extend(e)),
        flags: flags_byte(false, false, sp % 16 + e % 16 > 0xF, sp % 256 + e > 0xFF),
    }
}

/// Whether a byte holds two decimal digits.
pub open spec fn is_bcd(x: u8) -> bool {
    x % 16 <= 9 && x / 16 <= 9
}

/// The number that two decimal digits stand for.
pub open spec fn bcd_value(x: u8) -> int {
    (x / 16) * 10 + x % 16
}

proof fn lemma_daa_add_digits(a: u8, b: u8, carry_in: bool)
    by (bit_vector)
    requires
        is_bcd(a),
        is_bcd(b),
    ensures
        ({
            let sum = a + b + bit_of(carry_in);
            let h = a % 16 + b % 16 + bit_of(carry_in) > 0xF;
            let c = sum > 0xFF;
            let adjusted = daa_value(wrap8(sum), false, h, c);
            &&& is_bcd(adjusted)
            &&& bcd_value(adjusted) == (bcd_value(a) + bcd_value(b) + bit_of(carry_in)) % 100
            &&& daa_carry(wrap8(sum), false, h, c) == (bcd_value(a) + bcd_value(b) + bit_of(
                carry_in,
            ) >= 100)
        }),
{
}

proof fn lemma_daa_sub_digits(a: u8, b: u8, carry_in: bool)
    by (bit_vector)
    requires
        is_bcd(a),
        is_bcd(b),
    ensures
        ({
            let difference = a - b - bit_of(carry_in);
            let h = a % 16 < b % 16 + bit_of(carry_in);
            let c = difference < 0;
            let adjusted = daa_value(wrap8(difference), true, h, c);
            &&& is_bcd(adjusted)
            &&& bcd_value(adjusted) == (bcd_value(a) - bcd_value(b) - bit_of(carry_in)) % 100
            &&& daa_carry(wrap8(difference), true, h, c) == (bcd_value(a) - bcd_value(b) - bit_of(
                carry_in,
            ) < 0)
        }),
{
}

/// Decimal adjustment after the addition of two bytes of decimal digits
/// gives a byte of decimal digits: those of the sum of the two numbers,
/// modulo 100, with the carry set exactly when the sum is 100 or more.
pub proof fn lemma_daa_after_add(a: u8, b: u8, carry_in: bool)
    requires
        is_bcd(a),
        is_bcd(b),
    ensures
        ({
            let sum = add8(a, b, carry_in);
            let z = sum.value == 0;
            let h = a % 16 + b % 16 + bit_of(carry_in) > 0xF;
            let c = a + b + bit_of(carry_in) > 0xFF;
            let adjusted = daa_value(sum.value, false, h, c);
            &&& is_bcd(adjusted)
            &&& bcd_value(adjusted) == (bcd_value(a) + bcd_value(b) + bit_of(carry_in)) % 100
            &&& daa_carry(sum.value, false, h, c) == (bcd_value(a) + bcd_value(b) + bit_of(
                carry_in,
            ) >= 100)
        }),
{
    lemma_daa_add_digits(a, b, carry_in);
}

/// Decimal adjustment after the subtraction of two bytes of decimal digits
/// gives a byte of decimal digits: those of the difference of the two
/// numbers, modulo 100, with the carry set exactly when the difference is
/// below zero.
pub proof fn lemma_daa_after_sub(a: u8, b: u8, carry_in: bool)
    requires
        is_bcd(a),
        is_bcd(b),
    ensures
        ({
            let h = a % 16 < b % 16 + bit_of(carry_in);
            let c = a - b - bit_of(carry_in) < 0;
            let difference = sub8(a, b, carry_in);
            let adjusted = daa_value(difference.value, true, h, c);
            &&& is_bcd(adjusted)
            &&& bcd_value(adjusted) == (bcd_value(a) - bcd_value(b) - bit_of(carry_in)) % 100
            &&& daa_carry(difference.value, true, h, c) == (bcd_value(a) - bcd_value(b) - bit_of(
                carry_in,
            ) < 0)
        }),
{
    lemma_daa_sub_digits(a, b, carry_in);
}

/// Adding 0xFF and a set carry to any accumulator sets the carry, and
/// leaves the accumulator as it was.
pub proof fn lemma_adc_ff_sets_carry(a: u8)
    ensures
        add8(a, 0xFF, true).value == a,
        add8(a, 0xFF, true).flags & 0x10 != 0,
{
    crate::cpu::registers::lemma_flags_unpack(
        wrap8(a + 0xFF + 1) == 0,
        false,
        a % 16 + 0xFFu8 % 16 + 1 > 0xF,
        true,
    );
}

/// Subtracting the accumulator from itself gives zero with the zero and
/// subtract flag set and the half-carry and carry flag clear.
pub proof fn lemma_sub_self(a: u8)
    ensures
        sub8(a, a, false).value == 0,
        sub8(a, a, false).flags == 0xC0,
{
    assert(flags_byte(true, true, false, false) == 0xC0) by (bit_vector);
}

/// Incrementing 0xFF gives zero with the zero and half-carry flag set, and
/// decrementing zero gives 0xFF with the half-carry flag set.
pub proof fn lemma_inc_wraps(carry: bool)
    ensures
        inc8(0xFF, carry).value == 0,
        inc8(0xFF, carry).flags == flags_byte(true, false, true, carry),
        dec8(0, carry).value == 0xFF,
        dec8(0, carry).flags == flags_byte(false, true, true, carry),
{
}

/// Rotating a zero accumulator gives zero and clears the zero flag all the
/// same.
pub proof fn lemma_rlca_of_zero()
    ensures
        rotate_a(Shift::Rlc, 0, false).value == 0,
        rotate_a(Shift::Rlc, 0, false).flags == 0,
        rotate_a(Shift::Rlc, 0, true).flags & 0x80 == 0,
{
    assert(flags_byte(false, false, false, false) == 0 && flags_byte(false, false, false, false)
        & 0x80 == 0) by (bit_vector);
}

} // verus!
