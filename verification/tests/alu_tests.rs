use rustyboy_core::cpu::alu::{
    adc8, add16, add16_with_signed_byte_operand, add8, bitwise_and, bitwise_not, bitwise_or,
    bitwise_xor, daa, dec16, dec8, inc16, inc8, rotate_left, rotate_left_through_carry_flag,
    rotate_right, rotate_right_through_carry_flag, sbc8, shift_left, shift_right_clear_msb,
    shift_right_leave_msb, sub8, swap_nibbles, test_bit,
};
use rustyboy_core::cpu::registers::{Flag, Flags};

fn check8(
    f: fn(&mut Flags, u8, u8) -> u8,
    flags: &mut Flags,
    x: u8,
    y: u8,
    expected: u8,
    c: bool,
    h: bool,
    n: bool,
    z: bool,
) {
    let result = f(flags, x, y);
    assert_eq!(result, expected, "({}, {}) gave {} but expected {}", x, y, result, expected);
    assert_eq!(*flags, Flags::new(c, h, n, z), "({}, {}) did not set flags correctly", x, y);
}

fn check16(flags: &mut Flags, x: u16, y: u16, expected: u16, c: bool, h: bool, n: bool, z: bool) {
    let result = add16(flags, x, y);
    assert_eq!(result, expected);
    assert_eq!(*flags, Flags::new(c, h, n, z));
}

fn check_bitwise(f: fn(&mut Flags, u8, u8) -> u8, x: u8, y: u8, expected: u8, h: bool) {
    let mut flags = Flags::new(true, true, true, false);
    let result = f(&mut flags, x, y);
    assert_eq!(result, expected);
    assert_eq!(flags, Flags::new(false, h, false, result == 0));
}

fn check_flag_by_flag(
    f: fn(&mut Flags, u8, u8) -> u8,
    flags: &mut Flags,
    x: u8,
    y: u8,
    expected: u8,
    z: bool,
    n: bool,
    h: bool,
    c: bool,
) {
    let result = f(flags, x, y);
    assert_eq!(result, expected);
    assert_eq!(flags.get(Flag::Zero), z);
    assert_eq!(flags.get(Flag::Subtraction), n);
    assert_eq!(flags.get(Flag::HalfCarry), h);
    assert_eq!(flags.get(Flag::Carry), c);
}

#[test]
fn alu_addition_8_bit() {
    let mut flags = Flags::default();

    check8(add8, &mut flags, 0, 0, 0, false, false, false, true);
    check8(add8, &mut flags, 15, 1, 16, false, true, false, false);
    check8(add8, &mut flags, 255, 1, 0, true, true, false, true);
    check8(add8, &mut flags, 200, 200, 144, true, true, false, false);

    flags.set_carry(false);
    check8(adc8, &mut flags, 15, 1, 16, false, true, false, false);
    check8(adc8, &mut flags, 200, 200, 144, true, true, false, false);
}

#[test]
fn alu_addition_8_bit_carry() {
    let mut flags = Flags::default();

    flags.set_carry(true);
    check8(adc8, &mut flags, 0, 0, 1, false, false, false, false);
    flags.set_carry(true);
    check8(adc8, &mut flags, 14, 1, 16, false, true, false, false);
    flags.set_carry(true);
    check8(adc8, &mut flags, 200, 55, 0, true, true, false, true);
}

#[test]
fn alu_subtraction() {
    let mut flags = Flags::default();

    check8(sub8, &mut flags, 0, 0, 0, false, false, true, true);
    check8(sub8, &mut flags, 100, 10, 90, false, true, true, false);
    check8(sub8, &mut flags, 50, 100, 206, true, true, true, false);

    flags.set_carry(false);
    check8(sbc8, &mut flags, 0, 0, 0, false, false, true, true);
    check8(sbc8, &mut flags, 50, 100, 206, true, true, true, false);
}

#[test]
fn alu_subtraction_carry() {
    let mut flags = Flags::default();
    flags.set_carry(true);
    check8(sbc8, &mut flags, 1, 0, 0, false, false, true, true);
}

#[test]
fn alu_addition_16_bit() {
    let mut flags = Flags::default();

    // the zero flag is set beforehand and must stay set
    flags.set_zero(true);

    check16(&mut flags, 0, 0, 0, false, false, false, true);
    check16(&mut flags, 200, 300, 500, false, false, false, true);
    check16(&mut flags, 4095, 5, 4100, false, true, false, true);
    check16(&mut flags, 30500, 60500, 25464, true, true, false, true);
}

#[test]
fn alu_bitwise_operations() {
    check_bitwise(bitwise_and, 0, 0, 0, true);
    check_bitwise(bitwise_and, 0b1001010, 0b1000101, 0b1000000, true);
    check_bitwise(bitwise_or, 0b1010, 0b100110, 0b101110, false);
    check_bitwise(bitwise_xor, 0b11111, 0b10100, 0b01011, false);
}

#[test]
fn alu_complement() {
    let mut flags = Flags::new(true, false, false, true);
    assert_eq!(bitwise_not(&mut flags, 0b101010), 0b11010101);
    assert_eq!(flags, Flags::new(true, true, true, true));
}

#[test]
fn alu_nibble_swapping() {
    let mut flags = Flags::new(true, true, true, false);

    assert_eq!(swap_nibbles(&mut flags, 0xAB), 0xBA);
    assert_eq!(flags, Flags::default());
    assert!(!flags.get(Flag::Zero));
    assert!(!flags.get(Flag::Subtraction));
    assert!(!flags.get(Flag::HalfCarry));
    assert!(!flags.get(Flag::Carry));

    assert_eq!(swap_nibbles(&mut flags, 0), 0);
    assert!(flags.zero());
    assert!(flags.get(Flag::Zero));
}

#[test]
fn alu_rotation() {
    let mut flags = Flags::default();

    assert_eq!(rotate_left(&mut flags, 0b11001100), 0b10011001);
    assert_eq!(flags, Flags::new(true, false, false, false));
}

#[test]
fn alu_bit_testing() {
    let tests = vec![(0u8, 0u8, true), (0, 0xFF, false), (3, 0b1110111, true), (7, 0b10001000, false)];

    let mut flags = Flags::default();

    for (bit, value, expected) in tests {
        test_bit(&mut flags, value, bit);

        assert_eq!(
            expected,
            flags.get(Flag::Zero),
            "bit {} of value {} tested, expected {} zero flag",
            bit,
            value,
            expected
        );
        assert!(!flags.get(Flag::Subtraction));
        assert!(flags.get(Flag::HalfCarry));
    }
}

#[test]
fn tests_addition_8_bit() {
    let tests = [(0u8, 0u8, 0u8, false, false), (15, 1, 16, true, false), (255, 1, 0, true, true), (
        200,
        200,
        144,
        true,
        true,
    )];
    let mut flags = Flags::default();
    for (x, y, expected, h, c) in tests {
        let z = expected == 0;
        check_flag_by_flag(add8, &mut flags, x, y, expected, z, false, h, c);
        flags.set(Flag::Carry, false);
        check_flag_by_flag(adc8, &mut flags, x, y, expected, z, false, h, c);
    }
}

#[test]
fn tests_addition_8_bit_carry() {
    let tests = [(0u8, 0u8, 1u8, false, false), (14, 1, 16, true, false), (200, 55, 0, true, true)];
    let mut flags = Flags::default();
    for (x, y, expected, h, c) in tests {
        let z = expected == 0;
        flags.set(Flag::Carry, true);
        check_flag_by_flag(adc8, &mut flags, x, y, expected, z, false, h, c);
    }
}

#[test]
fn tests_subtraction() {
    let tests =
        [(0u8, 0u8, 0u8, false, false), (100, 10, 90, true, false), (50, 100, 206, true, true)];
    let mut flags = Flags::default();
    for (x, y, expected, h, c) in tests {
        let z = expected == 0;
        check_flag_by_flag(sub8, &mut flags, x, y, expected, z, true, h, c);
        flags.set(Flag::Carry, false);
        check_flag_by_flag(sbc8, &mut flags, x, y, expected, z, true, h, c);
    }
}

#[test]
fn tests_subtraction_carry() {
    let mut flags = Flags::default();
    flags.set(Flag::Carry, true);
    check_flag_by_flag(sbc8, &mut flags, 1, 0, 0, true, true, false, false);
}

#[test]
fn tests_addition_16_bit() {
    let tests = [(0u16, 0u16, 0u16, false, false), (200, 300, 500, false, false), (
        4095,
        5,
        4100,
        true,
        false,
    ), (30500, 60500, 25464, true, true)];

    let mut flags = Flags::default();
    flags.set(Flag::Zero, true);

    for (x, y, expected, h, c) in tests {
        let result = add16(&mut flags, x, y);
        assert_eq!(result, expected);
        assert_eq!(flags.get(Flag::Zero), true);
        assert_eq!(flags.get(Flag::Subtraction), false);
        assert_eq!(flags.get(Flag::HalfCarry), h);
        assert_eq!(flags.get(Flag::Carry), c);
    }
}

fn check_bitwise_from_clear(f: fn(&mut Flags, u8, u8) -> u8, x: u8, y: u8, expected: u8, h: bool) {
    let mut flags = Flags::default();
    flags.set(Flag::Subtraction, false).set(Flag::HalfCarry, false).set(Flag::Carry, false);

    let result = f(&mut flags, x, y);
    assert_eq!(result, expected);

    let mut expected_flags = Flags::default();
    expected_flags.set(Flag::Zero, result == 0);
    expected_flags.set(Flag::HalfCarry, h);
    assert_eq!(flags, expected_flags);
}

#[test]
fn tests_bitwise_operations() {
    check_bitwise_from_clear(bitwise_and, 0, 0, 0, true);
    check_bitwise_from_clear(bitwise_and, 0b1001010, 0b1000101, 0b1000000, true);
    check_bitwise_from_clear(bitwise_or, 0b1010, 0b100110, 0b101110, false);
    check_bitwise_from_clear(bitwise_xor, 0b11111, 0b10100, 0b01011, false);
}

#[test]
fn tests_complement() {
    let mut flags = Flags::default();
    flags.set(Flag::Zero, true).set(Flag::Carry, true);

    assert_eq!(bitwise_not(&mut flags, 0b101010), 0b11010101);

    let mut expected_flags = Flags::default();
    expected_flags
        .set(Flag::Zero, true)
        .set(Flag::Subtraction, true)
        .set(Flag::HalfCarry, true)
        .set(Flag::Carry, true);

    assert_eq!(flags, expected_flags);
}

#[test]
fn tests_rotation() {
    let mut flags = Flags::default();

    assert_eq!(rotate_left(&mut flags, 0b11001100), 0b10011001);
    assert_eq!(flags, Flags::new(true, false, false, false));
}

#[test]
fn tests_bit_testing() {
    let tests = [(0u8, 0u8, true), (0, 0xFF, false), (3, 0b1110111, true), (7, 0b10001000, false)];

    let mut flags = Flags::default();

    for (bit, value, expected) in tests {
        test_bit(&mut flags, value, bit);
        assert_eq!(expected, flags.get(Flag::Zero));
        assert!(!flags.get(Flag::Subtraction));
        assert!(flags.get(Flag::HalfCarry));
    }
}

#[test]
fn tests_nibble_swapping() {
    let mut flags = Flags::default();
    flags.set(Flag::Subtraction, true).set(Flag::HalfCarry, true).set(Flag::Carry, true);

    assert_eq!(swap_nibbles(&mut flags, 0xAB), 0xBA);
    assert!(!flags.get(Flag::Zero));
    assert!(!flags.get(Flag::Subtraction));
    assert!(!flags.get(Flag::HalfCarry));
    assert!(!flags.get(Flag::Carry));

    assert_eq!(swap_nibbles(&mut flags, 0), 0);
    assert!(flags.get(Flag::Zero));
}

#[test]
fn add8_flags_for_every_pair() {
    for x in 0..=255u8 {
        for y in 0..=255u8 {
            let mut flags = Flags::new(true, true, true, true);
            let r = add8(&mut flags, x, y);
            assert_eq!(r, x.wrapping_add(y));
            assert_eq!(flags.zero(), r == 0);
            assert!(!flags.subtraction());
            assert_eq!(flags.half_carry(), (x & 0xF) + (y & 0xF) > 0xF);
            assert_eq!(flags.carry(), (x as u16) + (y as u16) > 0xFF);
            assert_eq!(flags.0 & 0x0F, 0);
        }
    }
}

#[test]
fn swap_nibbles_twice_is_identity() {
    for v in 0..=255u8 {
        let mut flags = Flags::new(true, true, true, false);
        let once = swap_nibbles(&mut flags, v);
        assert!(!flags.subtraction() && !flags.half_carry() && !flags.carry());
        assert_eq!(swap_nibbles(&mut flags, once), v);
    }
}

#[test]
fn increments_and_decrements() {
    let mut flags = Flags::new(true, false, true, false);
    assert_eq!(inc8(&mut flags, 0xFF), 0);
    assert_eq!(flags, Flags::new(true, true, false, true));
    assert_eq!(inc8(&mut flags, 0x0F), 0x10);
    assert_eq!(flags, Flags::new(true, true, false, false));
    assert_eq!(dec8(&mut flags, 0x10), 0x0F);
    assert_eq!(flags, Flags::new(true, true, true, false));
    assert_eq!(dec8(&mut flags, 1), 0);
    assert_eq!(flags, Flags::new(true, false, true, true));
    assert_eq!(dec8(&mut flags, 0), 0xFF);
    assert_eq!(inc16(0xFFFF), 0);
    assert_eq!(inc16(0x00FF), 0x0100);
    assert_eq!(dec16(0), 0xFFFF);
    assert_eq!(dec16(0x0100), 0x00FF);
}

#[test]
fn signed_byte_addition() {
    let mut flags = Flags::new(false, false, true, true);
    assert_eq!(add16_with_signed_byte_operand(&mut flags, 0xFFF8, 0x08), 0x0000);
    assert_eq!(flags, Flags::new(true, true, false, false));
    assert_eq!(add16_with_signed_byte_operand(&mut flags, 0x0005, 0xFF), 0x0004);
    assert_eq!(flags, Flags::new(true, true, false, false));
    assert_eq!(add16_with_signed_byte_operand(&mut flags, 0x0100, 0xFE), 0x00FE);
    assert_eq!(flags, Flags::new(false, false, false, false));
}

#[test]
fn rotations_and_shifts() {
    let mut flags = Flags::default();
    assert_eq!(rotate_left_through_carry_flag(&mut flags, 0x80), 0x00);
    assert_eq!(flags, Flags::new(true, false, false, true));
    assert_eq!(rotate_left_through_carry_flag(&mut flags, 0x01), 0x03);
    assert_eq!(flags, Flags::new(false, false, false, false));
    assert_eq!(rotate_right(&mut flags, 0x01), 0x80);
    assert_eq!(flags, Flags::new(true, false, false, false));
    assert_eq!(rotate_right_through_carry_flag(&mut flags, 0x02), 0x81);
    assert_eq!(flags, Flags::new(false, false, false, false));
    assert_eq!(shift_left(&mut flags, 0xC1), 0x82);
    assert_eq!(flags, Flags::new(true, false, false, false));
    assert_eq!(shift_right_leave_msb(&mut flags, 0x81), 0xC0);
    assert_eq!(flags, Flags::new(true, false, false, false));
    assert_eq!(shift_right_clear_msb(&mut flags, 0x81), 0x40);
    assert_eq!(flags, Flags::new(true, false, false, false));
    assert_eq!(shift_right_clear_msb(&mut flags, 0x01), 0x00);
    assert_eq!(flags, Flags::new(true, false, false, true));
}

#[test]
fn decimal_adjust() {
    // 0x15 + 0x27 = 0x3C, adjusted to 0x42
    let mut flags = Flags::default();
    let sum = add8(&mut flags, 0x15, 0x27);
    assert_eq!(daa(&mut flags, sum), 0x42);
    assert_eq!(flags, Flags::new(false, false, false, false));
    // 0x99 + 0x01 = 0x9A, adjusted to 0x00 with carry
    let sum = add8(&mut flags, 0x99, 0x01);
    assert_eq!(daa(&mut flags, sum), 0x00);
    assert_eq!(flags, Flags::new(true, false, false, true));
    // 0x42 - 0x15 = 0x2D, adjusted to 0x27
    let difference = sub8(&mut flags, 0x42, 0x15);
    assert_eq!(daa(&mut flags, difference), 0x27);
    assert_eq!(flags, Flags::new(false, false, true, false));
}
