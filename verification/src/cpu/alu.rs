//! Arithmetic and logic operations of the processor. Each takes the flags byte by mutable
//! reference and changes exactly the flags that the instruction affects.

use vstd::prelude::*;
use crate::bits::{get_bit, modify_bit, spec_get_bit, spec_modify_bit};
use crate::cpu::registers::{Flag, Flags, lemma_flag_updates, lemma_flags_znh, lemma_flags_znhc};

verus! {

/// The sum of three bytes, wrapped to eight bits.
pub open spec fn wrap8_sum(x: u8, y: u8, c: u8) -> u8 {
    ((x + y + c) % 256) as u8
}

/// The difference of a byte and two others, wrapped to eight bits.
pub open spec fn wrap8_diff(x: u8, y: u8, c: u8) -> u8 {
    ((x - y - c) % 256) as u8
}

/// A carry out of bit 3 when adding.
pub open spec fn half_carry_add(x: u8, y: u8, c: u8) -> bool {
    (x & 0xF) + (y & 0xF) + c > 0xF
}

/// A borrow from bit 4 when subtracting.
pub open spec fn half_carry_sub(x: u8, y: u8, c: u8) -> bool {
    (x & 0xF) < (y & 0xF) + c
}

/// One or zero for a flag.
pub open spec fn bit_of(b: bool) -> u8 {
    if b {
        1
    } else {
        0
    }
}

/// A byte taken as a signed offset, extended to sixteen bits.
pub open spec fn sign_extend(y: u8) -> u16 {
    if y < 128 {
        y as u16
    } else {
        (0xFF00 + y) as u16
    }
}

pub open spec fn spec_inc8(flags: Flags, x: u8) -> (Flags, u8) {
    let r = wrap8_sum(x, 1, 0);
    (flags.with_znh(r == 0, false, half_carry_add(x, 1, 0)), r)
}

pub open spec fn spec_dec8(flags: Flags, x: u8) -> (Flags, u8) {
    let r = wrap8_diff(x, 1, 0);
    (flags.with_znh(r == 0, true, half_carry_sub(x, 1, 0)), r)
}

pub open spec fn spec_inc16(x: u16) -> u16 {
    ((x + 1) % 0x10000) as u16
}

pub open spec fn spec_dec16(x: u16) -> u16 {
    ((x - 1) % 0x10000) as u16
}

pub open spec fn spec_add_carry8(flags: Flags, x: u8, y: u8, c: u8) -> (Flags, u8) {
    let r = wrap8_sum(x, y, c);
    (flags.with_znhc(r == 0, false, half_carry_add(x, y, c), x + y + c > 0xFF), r)
}

pub open spec fn spec_sub_carry8(flags: Flags, x: u8, y: u8, c: u8) -> (Flags, u8) {
    let r = wrap8_diff(x, y, c);
    (flags.with_znhc(r == 0, true, half_carry_sub(x, y, c), x < y + c), r)
}

pub open spec fn spec_add8(flags: Flags, x: u8, y: u8) -> (Flags, u8) {
    spec_add_carry8(flags, x, y, 0)
}

pub open spec fn spec_adc8(flags: Flags, x: u8, y: u8) -> (Flags, u8) {
    spec_add_carry8(flags, x, y, bit_of(flags.spec_carry()))
}

pub open spec fn spec_sub8(flags: Flags, x: u8, y: u8) -> (Flags, u8) {
    spec_sub_carry8(flags, x, y, 0)
}

pub open spec fn spec_sbc8(flags: Flags, x: u8, y: u8) -> (Flags, u8) {
    spec_sub_carry8(flags, x, y, bit_of(flags.spec_carry()))
}

/// Sixteen-bit addition: zero is kept, half carry comes out of bit 11, carry out of bit 15.
pub open spec fn spec_add16(flags: Flags, x: u16, y: u16) -> (Flags, u16) {
    (
        flags.with(Flag::Subtraction, false).with(
            Flag::HalfCarry,
            (x & 0xFFF) + (y & 0xFFF) > 0xFFF,
        ).with(Flag::Carry, x + y > 0xFFFF),
        ((x + y) % 0x10000) as u16,
    )
}

/// Sixteen-bit addition of a signed byte: half carry and carry come out of bits 3 and 7 of the
/// low byte.
pub open spec fn spec_add16_signed(flags: Flags, x: u16, y: u8) -> (Flags, u16) {
    (
        flags.with_znhc(false, false, (x & 0xF) + (y & 0xF) > 0xF, (x & 0xFF) + y > 0xFF),
        ((x + sign_extend(y)) % 0x10000) as u16,
    )
}

pub open spec fn spec_bitwise(flags: Flags, result: u8, half_carry: bool) -> (Flags, u8) {
    (flags.with_znhc(result == 0, false, half_carry, false), result)
}

pub open spec fn spec_bitwise_and(flags: Flags, x: u8, y: u8) -> (Flags, u8) {
    spec_bitwise(flags, x & y, true)
}

pub open spec fn spec_bitwise_or(flags: Flags, x: u8, y: u8) -> (Flags, u8) {
    spec_bitwise(flags, x | y, false)
}

pub open spec fn spec_bitwise_xor(flags: Flags, x: u8, y: u8) -> (Flags, u8) {
    spec_bitwise(flags, x ^ y, false)
}

pub open spec fn spec_bitwise_not(flags: Flags, x: u8) -> (Flags, u8) {
    (flags.with(Flag::Subtraction, true).with(Flag::HalfCarry, true), !x)
}

pub open spec fn spec_rotation(flags: Flags, result: u8, carry: bool) -> (Flags, u8) {
    (flags.with_znhc(result == 0, false, false, carry), result)
}

/// Bit 7 leaves into carry and returns at bit 0.
pub open spec fn spec_rotate_left(flags: Flags, x: u8) -> (Flags, u8) {
    spec_rotation(flags, spec_modify_bit(x << 1, 0, spec_get_bit(x, 7)), spec_get_bit(x, 7))
}

/// Bit 7 leaves into carry; the old carry enters at bit 0.
pub open spec fn spec_rotate_left_through_carry_flag(flags: Flags, x: u8) -> (Flags, u8) {
    spec_rotation(flags, spec_modify_bit(x << 1, 0, flags.spec_carry()), spec_get_bit(x, 7))
}

/// Bit 7 leaves into carry; bit 0 becomes zero.
pub open spec fn spec_shift_left(flags: Flags, x: u8) -> (Flags, u8) {
    spec_rotation(flags, x << 1, spec_get_bit(x, 7))
}

/// Bit 0 leaves into carry and returns at bit 7.
pub open spec fn spec_rotate_right(flags: Flags, x: u8) -> (Flags, u8) {
    spec_rotation(flags, spec_modify_bit(x >> 1, 7, spec_get_bit(x, 0)), spec_get_bit(x, 0))
}

/// Bit 0 leaves into carry; the old carry enters at bit 7.
pub open spec fn spec_rotate_right_through_carry_flag(flags: Flags, x: u8) -> (Flags, u8) {
    spec_rotation(flags, spec_modify_bit(x >> 1, 7, flags.spec_carry()), spec_get_bit(x, 0))
}

/// Bit 0 leaves into carry; bit 7 keeps its value.
pub open spec fn spec_shift_right_leave_msb(flags: Flags, x: u8) -> (Flags, u8) {
    spec_rotation(flags, spec_modify_bit(x >> 1, 7, spec_get_bit(x, 7)), spec_get_bit(x, 0))
}

/// Bit 0 leaves into carry; bit 7 becomes zero.
pub open spec fn spec_shift_right_clear_msb(flags: Flags, x: u8) -> (Flags, u8) {
    spec_rotation(flags, x >> 1, spec_get_bit(x, 0))
}

pub open spec fn spec_test_bit(flags: Flags, value: u8, bit: u8) -> Flags {
    flags.with_znh(!spec_get_bit(value, bit), false, true)
}

/// The byte with its two nibbles exchanged.
pub open spec fn swapped(value: u8) -> u8 {
    ((value & 0x0F) << 4) | (value >> 4)
}

pub open spec fn spec_swap_nibbles(flags: Flags, value: u8) -> (Flags, u8) {
    (flags.with_znhc(value == 0, false, false, false), swapped(value))
}

/// The correction that the decimal adjustment applies: 0x06 for the low digit, 0x60 for the
/// high digit.
pub open spec fn daa_correction(flags: Flags, value: u8) -> u8 {
    let low: u8 = if flags.spec_half_carry() || (!flags.spec_subtraction() && (value & 0xF) > 9) {
        0x06
    } else {
        0
    };
    let high: u8 = if daa_carry(flags, value) {
        0x60
    } else {
        0
    };
    (low + high) as u8
}

/// The carry that the decimal adjustment leaves.
pub open spec fn daa_carry(flags: Flags, value: u8) -> bool {
    flags.spec_carry() || (!flags.spec_subtraction() && value > 0x99)
}

pub open spec fn spec_daa(flags: Flags, value: u8) -> (Flags, u8) {
    let r = if flags.spec_subtraction() {
        wrap8_diff(value, daa_correction(flags, value), 0)
    } else {
        wrap8_sum(value, daa_correction(flags, value), 0)
    };
    (
        flags.with(Flag::Zero, r == 0).with(Flag::HalfCarry, false).with(
            Flag::Carry,
            daa_carry(flags, value),
        ),
        r,
    )
}

fn add_wrapping(x: u8, y: u8, c: u8) -> (r: u8)
    requires
        c <= 1,
    ensures
        r == wrap8_sum(x, y, c),
{
    let wide: u16 = (x as u16) + (y as u16) + (c as u16);
    (wide % 256) as u8
}

fn sub_wrapping(x: u8, y: u8, c: u8) -> (r: u8)
    requires
        c <= 1,
    ensures
        r == wrap8_diff(x, y, c),
{
    let wide: u16 = 512 + (x as u16) - (y as u16) - (c as u16);
    (wide % 256) as u8
}

/// 8-bit increment: sets zero, subtraction and half carry; keeps carry.
pub fn inc8(flags: &mut Flags, x: u8) -> (r: u8)
    ensures
        (*final(flags), r) == spec_inc8(*old(flags), x),
        final(flags).spec_carry() == old(flags).spec_carry(),
{
    let result = add_wrapping(x, 1, 0);
    set_zero_subtraction_half_carry_add(flags, result, x, 1, 0);
    proof {
        lemma_flags_znh(*old(flags), result == 0, false, half_carry_add(x, 1, 0));
    }
    result
}

/// 16-bit increment: no flag changes.
pub fn inc16(x: u16) -> (r: u16)
    ensures
        r == spec_inc16(x),
{
    if x == 0xFFFF {
        0
    } else {
        x + 1
    }
}

/// 8-bit decrement: sets zero, subtraction and half carry; keeps carry.
pub fn dec8(flags: &mut Flags, x: u8) -> (r: u8)
    ensures
        (*final(flags), r) == spec_dec8(*old(flags), x),
        final(flags).spec_carry() == old(flags).spec_carry(),
{
    let result = sub_wrapping(x, 1, 0);
    set_zero_subtraction_half_carry_sub(flags, result, x, 1, 0);
    proof {
        lemma_flags_znh(*old(flags), result == 0, true, half_carry_sub(x, 1, 0));
    }
    result
}

/// 16-bit decrement: no flag changes.
pub fn dec16(x: u16) -> (r: u16)
    ensures
        r == spec_dec16(x),
{
    if x == 0 {
        0xFFFF
    } else {
        x - 1
    }
}

/// 8-bit addition: sets all four flags.
pub fn add8(flags: &mut Flags, x: u8, y: u8) -> (r: u8)
    ensures
        (*final(flags), r) == spec_add8(*old(flags), x, y),
        r == wrap8_sum(x, y, 0),
        final(flags).spec_zero() <==> r == 0,
        !final(flags).spec_subtraction(),
        final(flags).spec_half_carry() <==> (x & 0xF) + (y & 0xF) > 0xF,
        final(flags).spec_carry() <==> x + y > 0xFF,
        final(flags).0 & 0x0F == old(flags).0 & 0x0F,
{
    let result = add_wrapping(x, y, 0);
    set_zero_subtraction_half_carry_add(flags, result, x, y, 0);
    flags.set_carry((x as u16) + (y as u16) > 0xFF);
    proof {
        lemma_flags_znhc(*old(flags), result == 0, false, half_carry_add(x, y, 0), x + y > 0xFF);
    }
    result
}

/// 8-bit addition with the carry flag as a third operand: sets all four flags.
pub fn adc8(flags: &mut Flags, x: u8, y: u8) -> (r: u8)
    ensures
        (*final(flags), r) == spec_adc8(*old(flags), x, y),
{
    let c: u8 = if flags.carry() {
        1
    } else {
        0
    };
    let result = add_wrapping(x, y, c);
    set_zero_subtraction_half_carry_add(flags, result, x, y, c);
    flags.set_carry((x as u16) + (y as u16) + (c as u16) > 0xFF);
    result
}

/// 8-bit subtraction: sets all four flags.
pub fn sub8(flags: &mut Flags, x: u8, y: u8) -> (r: u8)
    ensures
        (*final(flags), r) == spec_sub8(*old(flags), x, y),
        r == wrap8_diff(x, y, 0),
        final(flags).spec_zero() <==> x == y,
        final(flags).spec_subtraction(),
        final(flags).spec_carry() <==> x < y,
{
    let result = sub_wrapping(x, y, 0);
    set_zero_subtraction_half_carry_sub(flags, result, x, y, 0);
    flags.set_carry(x < y);
    proof {
        lemma_flags_znhc(*old(flags), result == 0, true, half_carry_sub(x, y, 0), x < y);
    }
    result
}

/// 8-bit subtraction with the carry flag as a third operand: sets all four flags.
pub fn sbc8(flags: &mut Flags, x: u8, y: u8) -> (r: u8)
    ensures
        (*final(flags), r) == spec_sbc8(*old(flags), x, y),
{
    let c: u8 = if flags.carry() {
        1
    } else {
        0
    };
    let result = sub_wrapping(x, y, c);
    set_zero_subtraction_half_carry_sub(flags, result, x, y, c);
    flags.set_carry((x as u16) < (y as u16) + (c as u16));
    result
}

/// 16-bit addition: sets subtraction, half carry and carry; keeps zero.
pub fn add16(flags: &mut Flags, x: u16, y: u16) -> (r: u16)
    ensures
        (*final(flags), r) == spec_add16(*old(flags), x, y),
        final(flags).spec_zero() == old(flags).spec_zero(),
{
    let wide: u32 = (x as u32) + (y as u32);
    let low: u32 = ((x & 0xFFF) as u32) + ((y & 0xFFF) as u32);
    flags.set_subtraction(false);
    flags.set_half_carry(low > 0xFFF);
    flags.set_carry(wide > 0xFFFF);
    proof {
        let f1 = old(flags).with(Flag::Subtraction, false);
        let f2 = f1.with(Flag::HalfCarry, (x & 0xFFF) + (y & 0xFFF) > 0xFFF);
        lemma_flag_updates(*old(flags), Flag::Subtraction, false);
        lemma_flag_updates(f1, Flag::HalfCarry, (x & 0xFFF) + (y & 0xFFF) > 0xFFF);
        lemma_flag_updates(f2, Flag::Carry, x + y > 0xFFFF);
    }
    (wide % 0x10000) as u16
}

/// 16-bit addition of a signed byte: clears zero and subtraction, takes half carry and carry
/// from the low byte.
pub fn add16_with_signed_byte_operand(flags: &mut Flags, x: u16, y: u8) -> (r: u16)
    ensures
        (*final(flags), r) == spec_add16_signed(*old(flags), x, y),
{
    let extended: u32 = if y < 128 {
        y as u32
    } else {
        0xFF00 + (y as u32)
    };
    flags.set_zero(false);
    flags.set_subtraction(false);
    flags.set_half_carry(((x & 0xF) as u32) + ((y & 0xF) as u32) > 0xF);
    flags.set_carry(((x & 0xFF) as u32) + (y as u32) > 0xFF);
    (((x as u32) + extended) % 0x10000) as u16
}

/// Bitwise and: sets zero, clears subtraction and carry, sets half carry.
pub fn bitwise_and(flags: &mut Flags, x: u8, y: u8) -> (r: u8)
    ensures
        (*final(flags), r) == spec_bitwise_and(*old(flags), x, y),
{
    let result = x & y;
    set_bitwise_flags(flags, result, true);
    result
}

/// Bitwise or: sets zero, clears the other three flags.
pub fn bitwise_or(flags: &mut Flags, x: u8, y: u8) -> (r: u8)
    ensures
        (*final(flags), r) == spec_bitwise_or(*old(flags), x, y),
{
    let result = x | y;
    set_bitwise_flags(flags, result, false);
    result
}

/// Bitwise exclusive or: sets zero, clears the other three flags.
pub fn bitwise_xor(flags: &mut Flags, x: u8, y: u8) -> (r: u8)
    ensures
        (*final(flags), r) == spec_bitwise_xor(*old(flags), x, y),
{
    let result = x ^ y;
    set_bitwise_flags(flags, result, false);
    result
}

/// Complement: sets subtraction and half carry, keeps zero and carry.
pub fn bitwise_not(flags: &mut Flags, x: u8) -> (r: u8)
    ensures
        (*final(flags), r) == spec_bitwise_not(*old(flags), x),
        final(flags).spec_zero() == old(flags).spec_zero(),
        final(flags).spec_carry() == old(flags).spec_carry(),
{
    flags.set_subtraction(true);
    flags.set_half_carry(true);
    proof {
        lemma_flag_updates(*old(flags), Flag::Subtraction, true);
        lemma_flag_updates(old(flags).with(Flag::Subtraction, true), Flag::HalfCarry, true);
    }
    !x
}

pub fn rotate_left(flags: &mut Flags, x: u8) -> (r: u8)
    ensures
        (*final(flags), r) == spec_rotate_left(*old(flags), x),
{
    let carry_bit = get_bit(x, 7);
    let shifted = modify_bit(x << 1, 0, carry_bit);
    set_rotation_flags(flags, shifted, carry_bit);
    shifted
}

pub fn rotate_left_through_carry_flag(flags: &mut Flags, x: u8) -> (r: u8)
    ensures
        (*final(flags), r) == spec_rotate_left_through_carry_flag(*old(flags), x),
{
    let carry_bit = get_bit(x, 7);
    let shifted = modify_bit(x << 1, 0, flags.carry());
    set_rotation_flags(flags, shifted, carry_bit);
    shifted
}

pub fn shift_left(flags: &mut Flags, x: u8) -> (r: u8)
    ensures
        (*final(flags), r) == spec_shift_left(*old(flags), x),
{
    let carry_bit = get_bit(x, 7);
    let shifted = x << 1;
    set_rotation_flags(flags, shifted, carry_bit);
    shifted
}

pub fn rotate_right(flags: &mut Flags, x: u8) -> (r: u8)
    ensures
        (*final(flags), r) == spec_rotate_right(*old(flags), x),
{
    let carry_bit = get_bit(x, 0);
    let shifted = modify_bit(x >> 1, 7, carry_bit);
    set_rotation_flags(flags, shifted, carry_bit);
    shifted
}

pub fn rotate_right_through_carry_flag(flags: &mut Flags, x: u8) -> (r: u8)
    ensures
        (*final(flags), r) == spec_rotate_right_through_carry_flag(*old(flags), x),
{
    let carry_bit = get_bit(x, 0);
    let shifted = modify_bit(x >> 1, 7, flags.carry());
    set_rotation_flags(flags, shifted, carry_bit);
    shifted
}

pub fn shift_right_leave_msb(flags: &mut Flags, x: u8) -> (r: u8)
    ensures
        (*final(flags), r) == spec_shift_right_leave_msb(*old(flags), x),
{
    let carry_bit = get_bit(x, 0);
    let most_sig_bit = get_bit(x, 7);
    let shifted = modify_bit(x >> 1, 7, most_sig_bit);
    set_rotation_flags(flags, shifted, carry_bit);
    shifted
}

pub fn shift_right_clear_msb(flags: &mut Flags, x: u8) -> (r: u8)
    ensures
        (*final(flags), r) == spec_shift_right_clear_msb(*old(flags), x),
{
    let carry_bit = get_bit(x, 0);
    let shifted = x >> 1;
    set_rotation_flags(flags, shifted, carry_bit);
    shifted
}

/// Tests one bit: zero is set when the bit is clear, subtraction is cleared, half carry is
/// set, carry is kept.
pub fn test_bit(flags: &mut Flags, value: u8, bit: u8)
    requires
        bit < 8,
    ensures
        *final(flags) == spec_test_bit(*old(flags), value, bit),
        final(flags).spec_zero() == !spec_get_bit(value, bit),
        final(flags).spec_carry() == old(flags).spec_carry(),
{
    let set = get_bit(value, bit);
    flags.set_zero(!set);
    flags.set_subtraction(false);
    flags.set_half_carry(true);
    proof {
        lemma_flags_znh(*old(flags), !set, false, true);
    }
}

/// Exchanges the two nibbles: sets zero, clears the other three flags.
pub fn swap_nibbles(flags: &mut Flags, value: u8) -> (r: u8)
    ensures
        (*final(flags), r) == spec_swap_nibbles(*old(flags), value),
        r == swapped(value),
        swapped(r) == value,
        final(flags).spec_zero() <==> value == 0,
        !final(flags).spec_subtraction(),
        !final(flags).spec_half_carry(),
        !final(flags).spec_carry(),
{
    set_bitwise_flags(flags, value, false);
    let upper = value >> 4;
    let lower = value & 0x0F;
    proof {
        lemma_flags_znhc(*old(flags), value == 0, false, false, false);
        lemma_swap_twice(value);
    }
    (lower << 4) | upper
}

/// Decimal adjustment of the accumulator after an addition or subtraction of packed decimal
/// digits.
pub fn daa(flags: &mut Flags, value: u8) -> (r: u8)
    ensures
        (*final(flags), r) == spec_daa(*old(flags), value),
{
    let mut correction: u8 = 0;
    let mut carry = false;
    if flags.half_carry() || (!flags.subtraction() && (value & 0xF) > 9) {
        correction = 0x06;
    }
    if flags.carry() || (!flags.subtraction() && value > 0x99) {
        correction = correction + 0x60;
        carry = true;
    }
    let result = if flags.subtraction() {
        sub_wrapping(value, correction, 0)
    } else {
        add_wrapping(value, correction, 0)
    };
    flags.set_zero(result == 0);
    flags.set_half_carry(false);
    flags.set_carry(carry);
    result
}

pub fn set_rotation_flags(flags: &mut Flags, result: u8, carry: bool)
    ensures
        *final(flags) == old(flags).with_znhc(result == 0, false, false, carry),
{
    flags.set_zero(result == 0);
    flags.set_subtraction(false);
    flags.set_half_carry(false);
    flags.set_carry(carry);
}

pub fn set_bitwise_flags(flags: &mut Flags, result: u8, half_carry: bool)
    ensures
        *final(flags) == old(flags).with_znhc(result == 0, false, half_carry, false),
{
    flags.set_zero(result == 0);
    flags.set_subtraction(false);
    flags.set_half_carry(half_carry);
    flags.set_carry(false);
}

pub fn set_zero_subtraction_half_carry_add(flags: &mut Flags, result: u8, x: u8, y: u8, c: u8)
    ensures
        *final(flags) == old(flags).with_znh(result == 0, false, half_carry_add(x, y, c)),
{
    flags.set_zero(result == 0);
    flags.set_subtraction(false);
    flags.set_half_carry(((x & 0xF) as u16) + ((y & 0xF) as u16) + (c as u16) > 0xF);
}

pub fn set_zero_subtraction_half_carry_sub(flags: &mut Flags, result: u8, x: u8, y: u8, c: u8)
    ensures
        *final(flags) == old(flags).with_znh(result == 0, true, half_carry_sub(x, y, c)),
{
    flags.set_zero(result == 0);
    flags.set_subtraction(true);
    flags.set_half_carry(((x & 0xF) as u16) < ((y & 0xF) as u16) + (c as u16));
}

/// Exchanging the nibbles twice gives the byte back.
pub proof fn lemma_swap_twice(value: u8)
    ensures
        swapped(swapped(value)) == value,
{
    assert((((((value & 0x0F) << 4) | (value >> 4)) & 0x0F) << 4) | ((((value & 0x0F) << 4) | (
    value >> 4)) >> 4) == value) by (bit_vector);
}

/// Exchanging the nibbles is its own inverse, and the operation leaves subtraction, half carry
/// and carry clear whatever the flags were.
pub proof fn swap_nibbles_involution(flags: Flags, value: u8)
    ensures
        spec_swap_nibbles(spec_swap_nibbles(flags, value).0, spec_swap_nibbles(flags, value).1).1
            == value,
        !spec_swap_nibbles(flags, value).0.spec_subtraction(),
        !spec_swap_nibbles(flags, value).0.spec_half_carry(),
        !spec_swap_nibbles(flags, value).0.spec_carry(),
{
    lemma_swap_twice(value);
    lemma_flags_znhc(flags, value == 0, false, false, false);
}

/// What 8-bit addition leaves in the flags: zero exactly when the wrapped sum is zero,
/// subtraction clear, half carry exactly on a carry out of the low nibbles, carry exactly when
/// the sum does not fit in eight bits.
pub proof fn add8_flags(flags: Flags, x: u8, y: u8)
    ensures
        spec_add8(flags, x, y).1 == ((x + y) % 256) as u8,
        spec_add8(flags, x, y).0.spec_zero() <==> (x + y) % 256 == 0,
        !spec_add8(flags, x, y).0.spec_subtraction(),
        spec_add8(flags, x, y).0.spec_half_carry() <==> (x & 0xF) + (y & 0xF) > 0xF,
        spec_add8(flags, x, y).0.spec_carry() <==> x + y > 0xFF,
{
    lemma_flags_znhc(flags, wrap8_sum(x, y, 0) == 0, false, half_carry_add(x, y, 0), x + y > 0xFF);
}

} // verus!
