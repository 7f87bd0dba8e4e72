// Arithmetic on 32-bit words, stated over the mathematical integers.

use vstd::prelude::*;
use vstd::arithmetic::div_mod::{
    lemma_div_nonincreasing, lemma_div_pos_is_pos, lemma_fundamental_div_mod,
    lemma_fundamental_div_mod_converse, lemma_mod_multiples_basic, lemma_mod_multiples_vanish,
    lemma_small_mod,
};
use vstd::arithmetic::mul::lemma_mul_upper_bound;
use vstd::arithmetic::power2::{
    lemma2_to64, lemma_pow2_pos, lemma_pow2_strictly_increases, lemma_pow2_unfold, pow2,
};
use vstd::bits::{lemma_u32_shr_is_div, lemma_u64_shl_is_mul};

verus! {

/// The 32-bit pattern that is congruent to `value` modulo 2^32.
pub open spec fn wrap(value: int) -> u32 {
    (value % 0x1_0000_0000) as u32
}

/// The integer that a 32-bit pattern stands for when read as two's complement.
pub open spec fn as_signed(pattern: u32) -> int {
    if pattern < 0x8000_0000 {
        pattern as int
    } else {
        pattern - 0x1_0000_0000
    }
}

/// The integer that the low `bits` bits of `value` stand for when read as
/// two's complement: the residue of `value` modulo 2^bits that lies in
/// `[-2^(bits-1), 2^(bits-1))`.
pub open spec fn twos_complement(value: int, bits: nat) -> int {
    let low = value % (pow2(bits) as int);
    if low < pow2((bits - 1) as nat) {
        low
    } else {
        low - pow2(bits)
    }
}

/// The number of positions a shift moves by: the low five bits of its operand.
pub open spec fn shift_amount(operand: int) -> nat {
    (operand % 32) as nat
}

/// A word shifted left with zeros filled in: the product with a power of two,
/// modulo 2^32.
pub open spec fn shifted_left(value: u32, operand: int) -> u32 {
    wrap(value * pow2(shift_amount(operand)))
}

/// A word shifted right with zeros filled in: the quotient by a power of two.
pub open spec fn shifted_right(value: u32, operand: int) -> u32 {
    (value as int / (pow2(shift_amount(operand)) as int)) as u32
}

/// A word shifted right with copies of its sign bit filled in: the quotient
/// of its signed reading by a power of two, rounded down.
pub open spec fn shifted_right_signed(value: u32, operand: int) -> u32 {
    wrap(as_signed(value) / (pow2(shift_amount(operand)) as int))
}

/// Reading a pattern as signed and wrapping the result gives the pattern
/// back, and the signed reading lies in the signed 32-bit range.
pub proof fn lemma_wrap_as_signed(pattern: u32)
    ensures
        wrap(as_signed(pattern)) == pattern,
        wrap(pattern as int) == pattern,
        -0x8000_0000 <= as_signed(pattern) < 0x8000_0000,
{
}

/// Reading all 32 bits as two's complement is the signed reading of the
/// pattern.
pub proof fn lemma_twos_complement_full(pattern: u32)
    ensures
        twos_complement(pattern as int, 32) == as_signed(pattern),
{
    lemma2_to64();
}

/// A value that fits in `bits` bits reads as itself when its top bit is clear
/// and as itself less 2^bits when its top bit is set.
pub proof fn lemma_twos_complement_small(value: int, bits: nat)
    requires
        1 <= bits,
        0 <= value < pow2(bits),
    ensures
        twos_complement(value, bits) == if value < pow2((bits - 1) as nat) {
            value
        } else {
            value - pow2(bits)
        },
{
    lemma_small_mod(value as nat, pow2(bits));
}

/// A reading of `bits` bits lies in `[-2^(bits-1), 2^(bits-1))` and is
/// congruent to the value modulo 2^bits.
pub proof fn lemma_twos_complement_range(value: int, bits: nat)
    requires
        1 <= bits,
    ensures
        -pow2((bits - 1) as nat) <= twos_complement(value, bits) < pow2((bits - 1) as nat),
        (twos_complement(value, bits) - value) % (pow2(bits) as int) == 0,
{
    let modulus = pow2(bits) as int;
    lemma_pow2_unfold(bits);
    lemma_pow2_pos(bits);
    lemma_fundamental_div_mod(value, modulus);
    let low = value % modulus;
    let q = value / modulus;
    if low < pow2((bits - 1) as nat) {
        lemma_mod_multiples_basic(-q, modulus);
        assert(low - value == (-q) * modulus) by (nonlinear_arith)
            requires
                value == modulus * q + low,
        ;
    } else {
        lemma_mod_multiples_basic(-q - 1, modulus);
        assert(low - modulus - value == (-q - 1) * modulus) by (nonlinear_arith)
            requires
                value == modulus * q + low,
        ;
    }
}

/// Reading an even value as two's complement gives an even number.
pub proof fn lemma_twos_complement_even(value: int, bits: nat)
    requires
        1 <= bits,
        value % 2 == 0,
    ensures
        twos_complement(value, bits) % 2 == 0,
{
    let modulus = pow2(bits) as int;
    let half = pow2((bits - 1) as nat) as int;
    let q = value / modulus;
    lemma_pow2_unfold(bits);
    lemma_pow2_pos((bits - 1) as nat);
    lemma_fundamental_div_mod(value, modulus);
    assert(modulus * q == 2 * (half * q)) by (nonlinear_arith)
        requires
            modulus == 2 * half,
    ;
}

/// Wrapping a shift operand to a word keeps its low five bits.
pub proof fn lemma_shift_amount_wrap(operand: int)
    ensures
        shift_amount(wrap(operand) as int) == shift_amount(operand),
{
    let q = operand / 0x1_0000_0000;
    lemma_fundamental_div_mod(operand, 0x1_0000_0000);
    assert(operand == 32 * (0x800_0000 * q) + wrap(operand));
    lemma_mod_multiples_vanish(0x800_0000 * q, wrap(operand) as int, 32);
}

/// What a cast between the signed and the unsigned word does to the number.
proof fn lemma_cast_bits(pattern: u32, value: i32)
    by (bit_vector)
    ensures
        pattern < 0x8000_0000u32 ==> (pattern as i32) == pattern,
        pattern >= 0x8000_0000u32 ==> (pattern as i32) == pattern - 0x1_0000_0000,
        value >= 0 ==> (value as u32) == value,
        value < 0 ==> (value as u32) == value + 0x1_0000_0000,
{
}

/// Reads a 32-bit pattern as a two's-complement integer.
pub fn to_signed(pattern: u32) -> (value: i32)
    ensures
        value == as_signed(pattern),
{
    proof {
        lemma_cast_bits(pattern, 0);
    }
    pattern as i32
}

/// Gives the 32-bit pattern of a two's-complement integer.
pub fn to_unsigned(value: i32) -> (pattern: u32)
    ensures
        pattern == wrap(value as int),
        as_signed(pattern) == value,
        shift_amount(pattern as int) == shift_amount(value as int),
{
    proof {
        lemma_cast_bits(0, value);
        lemma_shift_amount_wrap(value as int);
    }
    value as u32
}

/// Adds two words, modulo 2^32.
pub fn sum(a: u32, b: u32) -> (result: u32)
    ensures
        result == wrap(a + b),
{
    a.wrapping_add(b)
}

/// Subtracts one word from another, modulo 2^32.
pub fn difference(a: u32, b: u32) -> (result: u32)
    ensures
        result == wrap(a - b),
{
    a.wrapping_sub(b)
}

/// Adds a signed displacement to a word, modulo 2^32.
pub fn offset(base: u32, displacement: i32) -> (result: u32)
    ensures
        result == wrap(base + displacement),
{
    base.wrapping_add(to_unsigned(displacement))
}

/// Clears the lowest bit of a word.
pub fn clear_low_bit(value: u32) -> (result: u32)
    ensures
        result == value - value % 2,
{
    assert((value & 0xffff_fffe) == value - value % 2) by (bit_vector);
    value & 0xffff_fffe
}

/// The low five bits of a word, as a remainder.
proof fn lemma_low_five_bits(operand: u32)
    by (bit_vector)
    ensures
        (operand & 0x1f) == operand % 32,
{
}

/// A left shift of a word is that of the wider word, cut to 32 bits; an
/// arithmetic right shift is the logical one, taken of the complement and
/// complemented again where the sign bit is set.
proof fn lemma_shift_bits(value: u32, amount: u32)
    by (bit_vector)
    requires
        amount < 32,
    ensures
        (value << amount) == (((value as u64) << (amount as u64)) % 0x1_0000_0000),
        value < 0x8000_0000u32 ==> (((value as i32) >> amount) as u32) == value >> amount,
        value >= 0x8000_0000u32 ==> (((value as i32) >> amount) as u32)
            == 0xffff_ffff - (((0xffff_ffffu32 - value) as u32) >> amount),
{
}

/// Shifts a word left by the low five bits of `operand`, filling with zeros.
pub fn shift_left(value: u32, operand: u32) -> (result: u32)
    ensures
        result == shifted_left(value, operand as int),
{
    let amount: u32 = operand & 0x1f;
    proof {
        lemma_low_five_bits(operand);
        lemma_shift_bits(value, amount);
        lemma2_to64();
        if amount < 31 {
            lemma_pow2_strictly_increases(amount as nat, 31);
        }
        lemma_mul_upper_bound(value as int, 0xffff_ffff, pow2(amount as nat) as int, 0x8000_0000);
        lemma_u64_shl_is_mul(value as u64, amount as u64);
    }
    value << amount
}

/// Shifts a word right by the low five bits of `operand`, filling with zeros.
pub fn shift_right_logical(value: u32, operand: u32) -> (result: u32)
    ensures
        result == shifted_right(value, operand as int),
{
    let amount: u32 = operand & 0x1f;
    proof {
        lemma_low_five_bits(operand);
        lemma_u32_shr_is_div(value, amount);
    }
    value >> amount
}

/// The quotient of a negative integer, rounded down, from the quotient of its
/// complement.
proof fn lemma_floor_div_negative(x: int, d: int)
    requires
        x < 0,
        d > 0,
    ensures
        x / d == -1 - (-1 - x) / d,
{
    let y = -1 - x;
    let q = y / d;
    let r = y % d;
    lemma_fundamental_div_mod(y, d);
    assert(x == (-1 - q) * d + (d - 1 - r)) by (nonlinear_arith)
        requires
            y == d * q + r,
            y == -1 - x,
    ;
    lemma_fundamental_div_mod_converse(x, d, -1 - q, d - 1 - r);
}

/// Shifts a word right by the low five bits of `operand`, filling with copies
/// of its sign bit.
pub fn shift_right_arithmetic(value: u32, operand: u32) -> (result: u32)
    ensures
        result == shifted_right_signed(value, operand as int),
{
    let amount: u32 = operand & 0x1f;
    proof {
        let d = pow2(amount as nat) as int;
        lemma_low_five_bits(operand);
        lemma_shift_bits(value, amount);
        lemma_pow2_pos(amount as nat);
        if value < 0x8000_0000u32 {
            lemma_u32_shr_is_div(value, amount);
            lemma_div_pos_is_pos(value as int, d);
            lemma_div_nonincreasing(value as int, d);
        } else {
            let flipped: u32 = (0xffff_ffffu32 - value) as u32;
            lemma_u32_shr_is_div(flipped, amount);
            lemma_floor_div_negative(as_signed(value), d);
            lemma_div_pos_is_pos(flipped as int, d);
            lemma_div_nonincreasing(flipped as int, d);
        }
    }
    ((value as i32) >> amount) as u32
}

} // verus!
