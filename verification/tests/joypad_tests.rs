use rustyboy_core::interrupts::{Interrupt, Interrupts};
use rustyboy_core::joypad::{Button, Joypad, SelectedButtons};
use rustyboy_core::serial::SerialTransfer;
use rustyboy_core::timer::Timer;
use rustyboy_core::bits::modify_bit;

#[test]
fn get() {
    let mut j = Joypad::new();

    j.selected = SelectedButtons::ActionButtons;
    j.set_button(Button::A, true);
    j.set_button(Button::Select, true);
    assert_eq!(j.get_byte(), 0b11010);

    j.selected = SelectedButtons::DirectionButtons;
    assert_eq!(j.get_byte(), 0b101111);
    j.set_button(Button::Up, true);
    j.set_button(Button::Down, true);
    assert_eq!(j.get_byte(), 0b100011);
}

#[test]
fn set() {
    let mut j = Joypad::new();
    j.set_byte(0b100000);
    assert_eq!(j.selected, SelectedButtons::DirectionButtons);
    j.set_byte(0b010000);
    assert_eq!(j.selected, SelectedButtons::ActionButtons);
}

#[test]
fn nothing_selected_reads_all_ones() {
    let mut j = Joypad::new();
    assert_eq!(j.get_byte(), 0xFF);
    j.set_button(Button::A, true);
    j.set_byte(0b110000);
    assert_eq!(j.selected, SelectedButtons::Neither);
    assert_eq!(j.get_byte(), 0xFF);
}

#[test]
fn action_group_shows_a_and_direction_group_hides_it() {
    let mut j = Joypad::new();
    j.set_byte(0b010000);
    j.set_button(Button::A, true);
    assert_eq!(j.get_byte(), 0b11110);
    j.set_byte(0b100000);
    assert_eq!(j.get_byte(), 0b101111);
    j.set_button(Button::B, true);
    j.set_button(Button::Start, true);
    assert_eq!(j.get_byte(), 0b101111);
    j.set_button(Button::Right, true);
    assert_eq!(j.get_byte(), 0b101110);
    j.set_button(Button::Left, true);
    assert_eq!(j.get_byte(), 0b101100);
    j.set_byte(0);
    assert_eq!(j.get_byte(), 0b10100);
    j.set_button(Button::A, false);
    assert_eq!(j.get_byte(), 0b10101);
}

#[test]
fn divider() {
    let mut t = Timer::new();
    t.divider = 0;

    let mut ints = Interrupts::new();

    t.update(&mut ints, 256);
    assert_eq!(t.divider, 1);
    t.update(&mut ints, 300);
    assert_eq!(t.divider, 2);
    t.update(&mut ints, 240);
    assert_eq!(t.divider, 3);

    t.control = 0xFF; // the divider goes on whatever the control byte holds

    t.divider = 255;
    t.update(&mut ints, 320);
    assert_eq!(t.divider, 0);
}

#[test]
fn counter() {
    let mut t = Timer::new();
    t.control = 0b101; // enabled, every 16 cycles

    let mut ints = Interrupts::new();
    ints.enable = 0xFF;

    t.update(&mut ints, 4000);
    assert!(!ints.is_flagged(Interrupt::Timer));

    t.modulo = 50;

    t.update(&mut ints, 100);
    assert!(ints.is_flagged(Interrupt::Timer));
    assert_eq!(t.counter, t.modulo);

    ints.flag(Interrupt::Timer, false);

    t.control = modify_bit(t.control, 2, false);
    assert!(!t.enabled());

    t.update(&mut ints, 8000);
    assert_eq!(t.counter, t.modulo);
    assert!(!ints.is_flagged(Interrupt::Timer));
}

#[test]
fn counter_periods() {
    let periods = [(0u8, 1024u32), (1, 16), (2, 64), (3, 256)];
    for (selector, period) in periods {
        let mut t = Timer::new();
        let mut ints = Interrupts::new();
        t.control = 0b100 | selector;
        assert_eq!(t.required_cycles(), period);
        t.update(&mut ints, period - 1);
        assert_eq!(t.counter, 0);
        t.update(&mut ints, 1);
        assert_eq!(t.counter, 1);
        t.update(&mut ints, 3 * period + 1);
        assert_eq!(t.counter, 4);
        assert_eq!(t.timer_cycles, 1);
    }
}

#[test]
fn counter_reloads_more_than_once() {
    let mut t = Timer::new();
    let mut ints = Interrupts::new();
    ints.flag = 0;
    t.control = 0b101;
    t.counter = 0xFE;
    t.modulo = 0xFE;
    t.update(&mut ints, 16 * 5);
    // FE FF -> FE (overflow) FF -> FE (overflow) FF
    assert_eq!(t.counter, 0xFF);
    assert!(ints.is_flagged(Interrupt::Timer));
    assert_eq!(ints.flag, 0b100);
}

#[test]
fn interrupt_priorities_and_handlers() {
    let mut ints = Interrupts::new();
    assert_eq!(ints.flag, 0xE1);
    assert_eq!(ints.enable, 0);
    assert!(ints.next_triggered_interrupt().is_none());
    ints.enable = 0xFF;
    assert_eq!(ints.next_triggered_interrupt(), Some(Interrupt::VBlank));
    ints.flag(Interrupt::VBlank, false);
    // only bits 5 to 7 are left in the flag byte
    assert!(ints.next_triggered_interrupt().is_none());
    ints.flag(Interrupt::Joypad, true);
    ints.flag(Interrupt::Serial, true);
    assert_eq!(ints.next_triggered_interrupt(), Some(Interrupt::Serial));
    ints.flag(Interrupt::Timer, true);
    assert_eq!(ints.next_triggered_interrupt(), Some(Interrupt::Timer));
    ints.enable = 0b10000;
    assert_eq!(ints.next_triggered_interrupt(), Some(Interrupt::Joypad));
    ints.flag(Interrupt::LcdStat, true);
    assert!(ints.is_flagged(Interrupt::LcdStat));
    assert!(!ints.is_flagged(Interrupt::VBlank));

    assert_eq!(Interrupt::VBlank.handler_address(), 0x40);
    assert_eq!(Interrupt::LcdStat.handler_address(), 0x48);
    assert_eq!(Interrupt::Timer.handler_address(), 0x50);
    assert_eq!(Interrupt::Serial.handler_address(), 0x58);
    assert_eq!(Interrupt::Joypad.handler_address(), 0x60);
    assert_eq!(Interrupt::Joypad.bit(), 4);
    assert_eq!(Interrupt::Timer.mask(), 0b100);
    assert_eq!(Interrupt::from_index(3), Some(Interrupt::Serial));
    assert_eq!(Interrupt::from_index(5), None);
}

#[test]
fn serial_transfer_completes_at_once() {
    let mut serial = SerialTransfer::new();
    assert_eq!(serial.control, 0x7E);
    serial.data = 0x42;
    serial.update();
    assert_eq!(serial.take_byte(), None);
    serial.control = 0x81;
    serial.update();
    assert_eq!(serial.control, 0x01);
    assert_eq!(serial.take_byte(), Some(0x42));
    assert_eq!(serial.take_byte(), None);
    serial.control = 0x80;
    serial.update();
    assert_eq!(serial.take_byte(), None);
    assert_eq!(serial.control, 0x80);
}
