use rustyboy_core::bits::{get_bit, modify_bit, modify_bits, reset_bit, set_bit, toggle_bit};

#[test]
fn get_bits() {
    assert_eq!(rustyboy_core::bits::get_bits(0b11100, 1, 4), 0b110);
    assert_eq!(rustyboy_core::bits::get_bits(1, 0, 0), 0);
}

#[test]
fn get_bits_full_width_and_top() {
    assert_eq!(rustyboy_core::bits::get_bits(0xA5, 0, 8), 0xA5);
    assert_eq!(rustyboy_core::bits::get_bits(0xA5, 4, 8), 0x0A);
    assert_eq!(rustyboy_core::bits::get_bits(0xA5, 8, 8), 0);
    assert_eq!(rustyboy_core::bits::get_bits(0xFF, 3, 6), 7);
}

#[test]
fn modify_toggle_get_single_bits() {
    assert_eq!(modify_bit(0, 3, true), 0b1000);
    assert_eq!(modify_bit(0xFF, 3, false), 0b1111_0111);
    assert_eq!(modify_bit(0b1000, 3, true), 0b1000);
    assert_eq!(toggle_bit(0b1000, 3), 0);
    assert_eq!(toggle_bit(0, 7), 0x80);
    assert!(get_bit(0x80, 7));
    assert!(!get_bit(0x80, 6));
}

#[test]
fn modify_bits_replaces_a_field() {
    assert_eq!(modify_bits(0b0001_1111, 5, 7, 0b11), 0b0111_1111);
    assert_eq!(modify_bits(0xFF, 0, 2, 0b01), 0b1111_1101);
    assert_eq!(modify_bits(0x85, 0, 2, 2), 0x86);
}

#[test]
fn alu_bit_setting() {
    assert_eq!(set_bit(0, 0), 1);
    assert_eq!(set_bit(0, 1), 1);
    assert_eq!(set_bit(2, 0b10011), 0b10111);
    assert_eq!(set_bit(7, 0b01111111), 0xFF);
}

#[test]
fn alu_bit_resetting() {
    assert_eq!(reset_bit(0, 0), 0);
    assert_eq!(reset_bit(0, 1), 0);
    assert_eq!(reset_bit(3, 0b1010), 0b10);
    assert_eq!(reset_bit(7, 0b10000000), 0);
}

#[test]
fn tests_bit_setting() {
    assert_eq!(set_bit(0, 0), 1);
    assert_eq!(set_bit(0, 1), 1);
    assert_eq!(set_bit(2, 0b10011), 0b10111);
    assert_eq!(set_bit(7, 0b01111111), 0xFF);
}

#[test]
fn tests_bit_resetting() {
    assert_eq!(reset_bit(0, 0), 0);
    assert_eq!(reset_bit(0, 1), 0);
    assert_eq!(reset_bit(3, 0b1010), 0b10);
    assert_eq!(reset_bit(7, 0b10000000), 0);
}
