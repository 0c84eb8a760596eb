//! The barrel shifter and the arithmetic of the data-processing
//! instructions, as functions on plain words.

use crate::cpu::opcodes::ShiftType;
use vstd::prelude::*;

verus! {

/// Bit `index` of `value`.
pub open spec fn bit(value: u32, index: u32) -> bool {
    (value >> index) & 1 != 0
}

/// The two's-complement reading of a word.
pub open spec fn signed(value: u32) -> int {
    if value >= 0x8000_0000 {
        value - 0x1_0000_0000
    } else {
        value as int
    }
}

/// `value` is representable as a signed 32-bit number.
pub open spec fn fits_signed(value: int) -> bool {
    -0x8000_0000 <= value < 0x8000_0000
}

/// The low 32 bits of `value`.
pub open spec fn low_word(value: int) -> u32 {
    (value % 0x1_0000_0000) as u32
}

/// The carry flag as a number.
pub open spec fn carry_value(carry: bool) -> int {
    if carry {
        1
    } else {
        0
    }
}

/// Logical shift left; everything leaves the word from 32 places on.
pub open spec fn spec_lsl(value: u32, amount: u32) -> u32 {
    if amount >= 32 {
        0
    } else {
        value << amount
    }
}

/// Logical shift right; everything leaves the word from 32 places on.
pub open spec fn spec_lsr(value: u32, amount: u32) -> u32 {
    if amount >= 32 {
        0
    } else {
        value >> amount
    }
}

/// The word whose top `amount` bits are set, for `amount` up to 31.
pub open spec fn sign_fill(amount: u32) -> u32 {
    !(0xFFFF_FFFFu32 >> amount)
}

/// Arithmetic shift right: the vacated places take the sign bit; from 32
/// places on only copies of the sign bit are left.
pub open spec fn spec_asr(value: u32, amount: u32) -> u32 {
    if value & 0x8000_0000 == 0 {
        spec_lsr(value, amount)
    } else if amount >= 32 {
        0xFFFF_FFFF
    } else {
        (value >> amount) | sign_fill(amount)
    }
}

/// Rotation right by `amount` places; only `amount` modulo 32 matters.
pub open spec fn spec_ror(value: u32, amount: u32) -> u32 {
    let places = amount % 32;
    if places == 0 {
        value
    } else {
        (value >> places) | (value << ((32 - places) as u32))
    }
}

/// Rotation right by one place through the carry: the carry enters at the
/// top.
pub open spec fn spec_rrx(value: u32, carry: bool) -> u32 {
    if carry {
        (value >> 1) | 0x8000_0000
    } else {
        value >> 1
    }
}

/// The shifter's result and carry-out for an amount taken from a register
/// or a non-zero amount of the instruction. With amount zero nothing
/// happens and the carry stays. Otherwise the carry-out is the last bit
/// that left the word, or zero where the word was shifted out by more than
/// its width; an arithmetic shift by 32 or more gives the sign bit.
pub open spec fn spec_shift(shift_type: ShiftType, value: u32, amount: u32, carry: bool) -> (
    u32,
    bool,
) {
    if amount == 0 {
        (value, carry)
    } else {
        match shift_type {
            ShiftType::Lsl => (
                spec_lsl(value, amount),
                amount <= 32 && bit(value, (32 - amount) as u32),
            ),
            ShiftType::Lsr => (
                spec_lsr(value, amount),
                amount <= 32 && bit(value, (amount - 1) as u32),
            ),
            ShiftType::Asr => (
                spec_asr(value, amount),
                if amount <= 32 {
                    bit(value, (amount - 1) as u32)
                } else {
                    bit(value, 31)
                },
            ),
            ShiftType::Ror => (spec_ror(value, amount), bit(value, ((amount - 1) % 32) as u32)),
        }
    }
}

/// The shifter's result for an amount encoded in the instruction, where
/// amount zero has a meaning of its own for each shift type: the operand
/// unchanged and no carry-out for a left shift, a shift by 32 for the right
/// shifts, a rotation through the carry for the rotation.
pub open spec fn spec_shift_by_immediate(
    shift_type: ShiftType,
    value: u32,
    amount: u32,
    carry: bool,
) -> (u32, Option<bool>) {
    if amount == 0 {
        match shift_type {
            ShiftType::Lsl => (value, None),
            ShiftType::Lsr => (0, Some(bit(value, 31))),
            ShiftType::Asr => (spec_asr(value, 32), Some(bit(value, 31))),
            ShiftType::Ror => (spec_rrx(value, carry), Some(bit(value, 0))),
        }
    } else {
        let (result, carry_out) = spec_shift(shift_type, value, amount, carry);
        (result, Some(carry_out))
    }
}

/// Sum of two words and a carry: the low word of the sum, the carry out of
/// bit 31, and whether the signed sum left the signed range.
pub open spec fn spec_add(a: u32, b: u32, carry: bool) -> (u32, bool, bool) {
    let sum = a + b + carry_value(carry);
    (low_word(sum), sum > 0xFFFF_FFFF, !fits_signed(signed(a) + signed(b) + carry_value(carry)))
}

/// Difference of two words less a borrow, the borrow being the inverse of
/// `carry`: the low word of the difference, whether no borrow left bit 31,
/// and whether the signed difference left the signed range.
pub open spec fn spec_sub(a: u32, b: u32, carry: bool) -> (u32, bool, bool) {
    let borrow = 1 - carry_value(carry);
    let difference = a - b - borrow;
    (low_word(difference), difference >= 0, !fits_signed(signed(a) - signed(b) - borrow))
}

/// Bit 31 and bit 0 of a word, by mask and by shift, and the rotation
/// through the carry as a rotation with bit 31 replaced.
pub(crate) proof fn lemma_shift_bits(value: u32)
    by (bit_vector)
    ensures
        (value & 0x8000_0000 != 0) == ((value >> 31) & 1 != 0),
        (value & 1 != 0) == ((value >> 0) & 1 != 0),
        (value & 0x8000_0000 != 0) == (value >= 0x8000_0000),
        value >> 1 == (((value >> 1) | (value << 31)) & !0x8000_0000u32),
        (value >> 1) | 0x8000_0000 == (((value >> 1) | (value << 31)) | 0x8000_0000u32),
{
}

/// Filling the vacated places with the sign bit is shifting the word as a
/// signed number.
proof fn lemma_sign_fill(value: u32, amount: u32)
    by (bit_vector)
    requires
        amount < 32,
    ensures
        (if value & 0x8000_0000 == 0 {
            value >> amount
        } else {
            (value >> amount) | !(0xFFFF_FFFFu32 >> amount)
        }) == ((value as i32) >> amount) as u32,
{
}

/// An arithmetic shift right by less than 32 places is the shift right of
/// the word read as a signed number.
pub proof fn lemma_asr_is_signed_shift(value: u32, amount: u32)
    requires
        amount < 32,
    ensures
        spec_asr(value, amount) == ((value as i32) >> amount) as u32,
{
    lemma_sign_fill(value, amount);
}

/// The sign bits of the operands and of the result tell a signed overflow:
/// for a sum where the operands agree in sign and the result differs, for
/// a difference where the operands differ in sign and the result differs
/// from the first.
proof fn lemma_overflow_bits(a: u32, b: u32, r: u32)
    by (bit_vector)
    ensures
        (((!(a ^ b) & (a ^ r)) >> 31) != 0) == ((a >= 0x8000_0000) == (b >= 0x8000_0000) && (a
            >= 0x8000_0000) != (r >= 0x8000_0000)),
        ((((a ^ b) & (a ^ r)) >> 31) != 0) == ((a >= 0x8000_0000) != (b >= 0x8000_0000) && (a
            >= 0x8000_0000) != (r >= 0x8000_0000)),
{
}

/// Logical shift left.
pub fn lsl(value: u32, amount: u32) -> (result: u32)
    ensures
        result == spec_lsl(value, amount),
{
    if amount >= 32 {
        0
    } else {
        value << amount
    }
}

/// Logical shift right.
pub fn lsr(value: u32, amount: u32) -> (result: u32)
    ensures
        result == spec_lsr(value, amount),
{
    if amount >= 32 {
        0
    } else {
        value >> amount
    }
}

/// Arithmetic shift right.
pub fn asr(value: u32, amount: u32) -> (result: u32)
    ensures
        result == spec_asr(value, amount),
{
    if value & 0x8000_0000 == 0 {
        lsr(value, amount)
    } else if amount >= 32 {
        0xFFFF_FFFF
    } else {
        (value >> amount) | !(0xFFFF_FFFFu32 >> amount)
    }
}

/// Rotation right.
pub fn ror(value: u32, amount: u32) -> (result: u32)
    ensures
        result == spec_ror(value, amount),
{
    let places = amount % 32;
    if places == 0 {
        value
    } else {
        (value >> places) | (value << (32 - places))
    }
}

/// Bit `index` of `value`.
pub fn test_bit(value: u32, index: u32) -> (set: bool)
    requires
        index < 32,
    ensures
        set == bit(value, index),
{
    (value >> index) & 1 != 0
}

/// Shifts `value` by `amount` places and returns the shifted value with the
/// carry that left the shifter.
pub fn shift(shift_type: ShiftType, value: u32, amount: u32, carry: bool) -> (result: (u32, bool))
    ensures
        result == spec_shift(shift_type, value, amount, carry),
{
    if amount == 0 {
        return (value, carry);
    }
    match shift_type {
        ShiftType::Lsl => (lsl(value, amount), amount <= 32 && test_bit(value, 32 - amount)),
        ShiftType::Lsr => (lsr(value, amount), amount <= 32 && test_bit(value, amount - 1)),
        ShiftType::Asr => (
            asr(value, amount),
            if amount <= 32 {
                test_bit(value, amount - 1)
            } else {
                test_bit(value, 31)
            },
        ),
        ShiftType::Ror => (ror(value, amount), test_bit(value, (amount - 1) % 32)),
    }
}

/// The shifter for an amount encoded in the instruction.
pub fn shift_by_immediate(shift_type: ShiftType, value: u32, amount: u32, carry: bool) -> (result:
    (u32, Option<bool>))
    ensures
        result == spec_shift_by_immediate(shift_type, value, amount, carry),
{
    if amount == 0 {
        proof {
            lemma_shift_bits(value);
        }
        match shift_type {
            ShiftType::Lsl => (value, None),
            ShiftType::Lsr => (0, Some(value & 0x8000_0000 != 0)),
            ShiftType::Asr => (asr(value, 32), Some(value & 0x8000_0000 != 0)),
            ShiftType::Ror => {
                let rotated = ror(value, 1);
                let mask: u32 = 0x8000_0000;
                let result = if carry {
                    rotated | mask
                } else {
                    rotated & !mask
                };
                (result, Some(value & 1 != 0))
            },
        }
    } else {
        let (result, carry_out) = shift(shift_type, value, amount, carry);
        (result, Some(carry_out))
    }
}

/// Difference of two words with its carry and overflow.
pub fn do_sub(operand_a: u32, operand_b: u32) -> (result: (u32, bool, bool))
    ensures
        result == spec_sub(operand_a, operand_b, true),
{
    let result = operand_a.wrapping_sub(operand_b);
    let overflow = (((operand_a ^ operand_b) & (operand_a ^ result)) >> 31) != 0;
    proof {
        lemma_overflow_bits(operand_a, operand_b, result);
    }
    (result, operand_a >= operand_b, overflow)
}

/// Sum of two words with its carry and overflow.
pub fn do_add(operand_a: u32, operand_b: u32) -> (result: (u32, bool, bool))
    ensures
        result == spec_add(operand_a, operand_b, false),
{
    let result = operand_a.wrapping_add(operand_b);
    let carry = result < operand_a;
    let overflow = ((!(operand_a ^ operand_b) & (operand_a ^ result)) >> 31) != 0;
    proof {
        lemma_overflow_bits(operand_a, operand_b, result);
    }
    (result, carry, overflow)
}

/// Sum of two words and the carry.
pub fn do_adc(operand_a: u32, operand_b: u32, carry: bool) -> (result: (u32, bool, bool))
    ensures
        result == spec_add(operand_a, operand_b, carry),
{
    let operand_c: u32 = if carry {
        1
    } else {
        0
    };
    let partial = operand_a.wrapping_add(operand_b);
    let result = partial.wrapping_add(operand_c);
    let carry_out = partial < operand_a || result < partial;
    let overflow = ((!(operand_a ^ operand_b) & (operand_a ^ result)) >> 31) != 0;
    proof {
        lemma_overflow_bits(operand_a, operand_b, result);
    }
    (result, carry_out, overflow)
}

/// Difference of two words less the inverted carry.
pub fn do_sbc(operand_a: u32, operand_b: u32, carry: bool) -> (result: (u32, bool, bool))
    ensures
        result == spec_sub(operand_a, operand_b, carry),
{
    let operand_c: u32 = if carry {
        0
    } else {
        1
    };
    let result = operand_a.wrapping_sub(operand_b).wrapping_sub(operand_c);
    let carry_out = operand_a > operand_b || (operand_a == operand_b && carry);
    let overflow = (((operand_a ^ operand_b) & (operand_a ^ result)) >> 31) != 0;
    proof {
        lemma_overflow_bits(operand_a, operand_b, result);
    }
    (result, carry_out, overflow)
}

} // verus!
