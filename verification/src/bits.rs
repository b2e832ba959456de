//! Single-bit and bit-field helpers over bytes.

use vstd::prelude::*;

verus! {

/// The byte `value` with bit `bit` forced to `set_to`.
pub open spec fn spec_modify_bit(value: u8, bit: u8, set_to: bool) -> u8 {
    if set_to {
        value | (1u8 << bit)
    } else {
        value & !(1u8 << bit)
    }
}

/// The byte `value` with bit `bit` inverted.
pub open spec fn spec_toggle_bit(value: u8, bit: u8) -> u8 {
    value ^ (1u8 << bit)
}

/// Whether bit `bit` of `value` is set.
pub open spec fn spec_get_bit(value: u8, bit: u8) -> bool {
    value & (1u8 << bit) != 0
}

/// A byte whose `width` lowest bits are set (all eight when `width >= 8`).
pub open spec fn low_mask(width: u8) -> u8 {
    if width >= 8 {
        0xFFu8
    } else {
        ((1u16 << width) - 1) as u8
    }
}

/// The field of `value` that starts at bit `from_inclusive` and ends before bit `to_exclusive`,
/// moved down to bit 0.
pub open spec fn spec_get_bits(value: u8, from_inclusive: u8, to_exclusive: u8) -> u8 {
    if from_inclusive >= 8 {
        0u8
    } else {
        (value >> from_inclusive) & low_mask((to_exclusive - from_inclusive) as u8)
    }
}

/// The byte `value` with the field between `from_inclusive` and `to_exclusive` replaced by the low
/// bits of `field`.
pub open spec fn spec_modify_bits(value: u8, from_inclusive: u8, to_exclusive: u8, field: u8) -> u8 {
    if from_inclusive >= 8 {
        value
    } else {
        let mask = low_mask((to_exclusive - from_inclusive) as u8);
        (value & !(mask << from_inclusive)) | ((field & mask) << from_inclusive)
    }
}

#[verifier::when_used_as_spec(spec_modify_bit)]
pub fn modify_bit(value: u8, bit: u8, set_to: bool) -> (r: u8)
    requires
        bit < 8,
    ensures
        r == spec_modify_bit(value, bit, set_to),
{
    let mask: u8 = 1u8 << bit;
    if set_to {
        value | mask
    } else {
        value & !mask
    }
}

#[verifier::when_used_as_spec(spec_toggle_bit)]
pub fn toggle_bit(value: u8, bit: u8) -> (r: u8)
    requires
        bit < 8,
    ensures
        r == spec_toggle_bit(value, bit),
{
    let mask: u8 = 1u8 << bit;
    value ^ mask
}

#[verifier::when_used_as_spec(spec_get_bit)]
pub fn get_bit(value: u8, bit: u8) -> (r: bool)
    requires
        bit < 8,
    ensures
        r == spec_get_bit(value, bit),
{
    let mask: u8 = 1u8 << bit;
    (value & mask) != 0
}

fn make_low_mask(width: u8) -> (r: u8)
    ensures
        r == low_mask(width),
{
    if width >= 8 {
        0xFFu8
    } else {
        let wide: u16 = 1u16 << width;
        assert(1u16 <= (1u16 << width) <= 128u16) by (bit_vector)
            requires
                width < 8,
        ;
        (wide - 1) as u8
    }
}

#[verifier::when_used_as_spec(spec_get_bits)]
pub fn get_bits(value: u8, from_inclusive: u8, to_exclusive: u8) -> (r: u8)
    requires
        from_inclusive <= to_exclusive,
    ensures
        r == spec_get_bits(value, from_inclusive, to_exclusive),
{
    if from_inclusive >= 8 {
        0u8
    } else {
        let mask: u8 = make_low_mask(to_exclusive - from_inclusive);
        (value >> from_inclusive) & mask
    }
}

#[verifier::when_used_as_spec(spec_modify_bits)]
pub fn modify_bits(value: u8, from_inclusive: u8, to_exclusive: u8, field: u8) -> (r: u8)
    requires
        from_inclusive <= to_exclusive,
    ensures
        r == spec_modify_bits(value, from_inclusive, to_exclusive, field),
{
    if from_inclusive >= 8 {
        value
    } else {
        let mask: u8 = make_low_mask(to_exclusive - from_inclusive);
        (value & !(mask << from_inclusive)) | ((field & mask) << from_inclusive)
    }
}

/// Sets bit `bit` of `value`.
pub fn set_bit(bit: u8, value: u8) -> (r: u8)
    requires
        bit < 8,
    ensures
        r == spec_modify_bit(value, bit, true),
{
    modify_bit(value, bit, true)
}

/// Clears bit `bit` of `value`.
pub fn reset_bit(bit: u8, value: u8) -> (r: u8)
    requires
        bit < 8,
    ensures
        r == spec_modify_bit(value, bit, false),
{
    modify_bit(value, bit, false)
}

/// Reading a bit after forcing a bit gives the forced value at that position and the old value
/// everywhere else.
pub proof fn lemma_get_after_modify(value: u8, bit: u8, set_to: bool, other: u8)
    requires
        bit < 8,
        other < 8,
    ensures
        spec_get_bit(spec_modify_bit(value, bit, set_to), other) == (if other == bit {
            set_to
        } else {
            spec_get_bit(value, other)
        }),
{
    assert(((value | (1u8 << bit)) & (1u8 << other) != 0) == (if other == bit {
        true
    } else {
        value & (1u8 << other) != 0
    })) by (bit_vector)
        requires
            bit < 8,
            other < 8,
    ;
    assert(((value & !(1u8 << bit)) & (1u8 << other) != 0) == (if other == bit {
        false
    } else {
        value & (1u8 << other) != 0
    })) by (bit_vector)
        requires
            bit < 8,
            other < 8,
    ;
}

/// Forcing a bit never changes the bits of a mask that does not hold it.
pub proof fn lemma_modify_keeps_mask(value: u8, bit: u8, set_to: bool, mask: u8)
    requires
        bit < 8,
        mask & (1u8 << bit) == 0,
    ensures
        spec_modify_bit(value, bit, set_to) & mask == value & mask,
{
    assert((value | (1u8 << bit)) & mask == value & mask) by (bit_vector)
        requires
            mask & (1u8 << bit) == 0,
    ;
    assert((value & !(1u8 << bit)) & mask == value & mask) by (bit_vector)
        requires
            mask & (1u8 << bit) == 0,
    ;
}

} // verus!
