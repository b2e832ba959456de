//! The joypad: eight buttons read through one active-low status byte.

use vstd::prelude::*;
use crate::bits::{get_bit, modify_bit, spec_get_bit, spec_modify_bit, lemma_get_after_modify};

verus! {

broadcast use vstd::array::group_array_axioms;

#[derive(Clone, Copy, Debug, PartialEq, Eq, Structural)]
pub enum Button {
    Start,
    Select,
    Down,
    Up,
    Left,
    Right,
    A,
    B,
}

impl Button {
    /// The button's place in the state table.
    pub open spec fn spec_index(&self) -> int {
        match self {
            Button::Start => 0,
            Button::Select => 1,
            Button::Down => 2,
            Button::Up => 3,
            Button::Left => 4,
            Button::Right => 5,
            Button::A => 6,
            Button::B => 7,
        }
    }

    fn index(&self) -> (r: usize)
        ensures
            r == self.spec_index(),
            r < 8,
    {
        match self {
            Button::Start => 0,
            Button::Select => 1,
            Button::Down => 2,
            Button::Up => 3,
            Button::Left => 4,
            Button::Right => 5,
            Button::A => 6,
            Button::B => 7,
        }
    }
}

/// Which group of four buttons the status byte exposes.
#[derive(Clone, Copy, Debug, PartialEq, Eq, Structural)]
pub enum SelectedButtons {
    ActionButtons,
    DirectionButtons,
    Neither,
}

pub struct Joypad {
    pub buttons: [bool; 8],
    pub selected: SelectedButtons,
}

/// A status byte: bit `group_bit` set, and bits 0 to 3 set for each of four buttons that is
/// not pressed.
pub open spec fn status_byte(group_bit: u8, p0: bool, p1: bool, p2: bool, p3: bool) -> u8 {
    spec_modify_bit(
        spec_modify_bit(
            spec_modify_bit(spec_modify_bit(spec_modify_bit(0, group_bit, true), 0, !p0), 1, !p1),
            2,
            !p2,
        ),
        3,
        !p3,
    )
}

impl Joypad {
    pub open spec fn pressed(&self, button: Button) -> bool {
        self.buttons[button.spec_index()]
    }

    /// The status byte. With the action group selected, bit 4 is set and bits 0 to 3 stand for
    /// A, B, Select, Start; with the direction group selected, bit 5 is set and bits 0 to 3
    /// stand for Right, Left, Up, Down; a pressed button reads as 0. With no group selected
    /// every bit reads as 1.
    pub open spec fn spec_get_byte(&self) -> u8 {
        match self.selected {
            SelectedButtons::ActionButtons => status_byte(
                4,
                self.pressed(Button::A),
                self.pressed(Button::B),
                self.pressed(Button::Select),
                self.pressed(Button::Start),
            ),
            SelectedButtons::DirectionButtons => status_byte(
                5,
                self.pressed(Button::Right),
                self.pressed(Button::Left),
                self.pressed(Button::Up),
                self.pressed(Button::Down),
            ),
            SelectedButtons::Neither => 0xFF,
        }
    }

    /// The group that a written byte selects: action when bit 5 is clear, else direction when
    /// bit 4 is clear, else none.
    pub open spec fn spec_selection(b: u8) -> SelectedButtons {
        if !spec_get_bit(b, 5) {
            SelectedButtons::ActionButtons
        } else if !spec_get_bit(b, 4) {
            SelectedButtons::DirectionButtons
        } else {
            SelectedButtons::Neither
        }
    }

    pub open spec fn spec_set_byte(self, b: u8) -> Joypad {
        Joypad { selected: Joypad::spec_selection(b), ..self }
    }

    pub open spec fn spec_set_button(self, button: Button, value: bool) -> Joypad {
        Joypad {
            buttons: vstd::array::spec_array_update(self.buttons, button.spec_index(), value),
            ..self
        }
    }

    /// No group is selected and no button is pressed.
    pub open spec fn initial(&self) -> bool {
        self.selected == SelectedButtons::Neither && forall|i: int|
            0 <= i < 8 ==> !(#[trigger] self.buttons[i])
    }

    pub fn new() -> (r: Joypad)
        ensures
            r.initial(),
            forall|b: Button| !r.pressed(b),
    {
        Joypad { buttons: [false;8], selected: SelectedButtons::Neither }
    }

    fn get_button(&self, button: Button) -> (r: bool)
        ensures
            r == self.pressed(button),
    {
        self.buttons[button.index()]
    }

    fn make_status(group_bit: u8, p0: bool, p1: bool, p2: bool, p3: bool) -> (r: u8)
        requires
            4 <= group_bit < 8,
        ensures
            r == status_byte(group_bit, p0, p1, p2, p3),
    {
        let mut b = modify_bit(0, group_bit, true);
        b = modify_bit(b, 0, !p0);
        b = modify_bit(b, 1, !p1);
        b = modify_bit(b, 2, !p2);
        b = modify_bit(b, 3, !p3);
        b
    }

    #[verifier::when_used_as_spec(spec_get_byte)]
    pub fn get_byte(&self) -> (r: u8)
        ensures
            r == self.spec_get_byte(),
    {
        match self.selected {
            SelectedButtons::ActionButtons => Joypad::make_status(
                4,
                self.get_button(Button::A),
                self.get_button(Button::B),
                self.get_button(Button::Select),
                self.get_button(Button::Start),
            ),
            SelectedButtons::DirectionButtons => Joypad::make_status(
                5,
                self.get_button(Button::Right),
                self.get_button(Button::Left),
                self.get_button(Button::Up),
                self.get_button(Button::Down),
            ),
            SelectedButtons::Neither => 0xFF,
        }
    }

    pub fn set_byte(&mut self, b: u8)
        ensures
            *final(self) == old(self).spec_set_byte(b),
    {
        self.selected = if !get_bit(b, 5) {
            SelectedButtons::ActionButtons
        } else if !get_bit(b, 4) {
            SelectedButtons::DirectionButtons
        } else {
            SelectedButtons::Neither
        };
    }

    pub fn set_button(&mut self, button: Button, value: bool)
        ensures
            *final(self) == old(self).spec_set_button(button, value),
            final(self).pressed(button) == value,
            forall|other: Button| other != button ==> final(self).pressed(other) == old(
                self,
            ).pressed(other),
    {
        let i = button.index();
        self.buttons[i] = value;
        assert(self.buttons =~= vstd::array::spec_array_update(
            old(self).buttons,
            button.spec_index(),
            value,
        ));
    }
}

/// The bits of a status byte: each of the low four is the negation of its button, the group
/// bit is set, and the other high bits are clear.
pub proof fn lemma_status_bits(group_bit: u8, p0: bool, p1: bool, p2: bool, p3: bool)
    requires
        4 <= group_bit < 8,
    ensures
        spec_get_bit(status_byte(group_bit, p0, p1, p2, p3), 0) == !p0,
        spec_get_bit(status_byte(group_bit, p0, p1, p2, p3), 1) == !p1,
        spec_get_bit(status_byte(group_bit, p0, p1, p2, p3), 2) == !p2,
        spec_get_bit(status_byte(group_bit, p0, p1, p2, p3), 3) == !p3,
        forall|bit: u8|
            4 <= bit < 8 ==> #[trigger] spec_get_bit(status_byte(group_bit, p0, p1, p2, p3), bit)
                == (bit == group_bit),
{
    let b0 = spec_modify_bit(0, group_bit, true);
    let b1 = spec_modify_bit(b0, 0, !p0);
    let b2 = spec_modify_bit(b1, 1, !p1);
    let b3 = spec_modify_bit(b2, 2, !p2);
    assert forall|bit: u8| bit < 8 implies #[trigger] spec_get_bit(
        status_byte(group_bit, p0, p1, p2, p3),
        bit,
    ) == (if bit == 0 {
        !p0
    } else if bit == 1 {
        !p1
    } else if bit == 2 {
        !p2
    } else if bit == 3 {
        !p3
    } else {
        bit == group_bit
    }) by {
        assert(0u8 & (1u8 << bit) == 0) by (bit_vector);
        lemma_get_after_modify(0, group_bit, true, bit);
        lemma_get_after_modify(b0, 0, !p0, bit);
        lemma_get_after_modify(b1, 1, !p1, bit);
        lemma_get_after_modify(b2, 2, !p2, bit);
        lemma_get_after_modify(b3, 3, !p3, bit);
    }
}

/// With the action group selected, the status byte shows A, B, Select and Start in bits 0 to
/// 3, a pressed button as 0 and an unpressed one as 1; with the direction group selected the
/// byte is the same whatever the action buttons are.
pub proof fn status_byte_groups(j: Joypad, k: Joypad, b: u8)
    ensures
        !spec_get_bit(b, 5) ==> {
            let s = j.spec_set_byte(b).spec_get_byte();
            &&& spec_get_bit(s, 0) == !j.pressed(Button::A)
            &&& spec_get_bit(s, 1) == !j.pressed(Button::B)
            &&& spec_get_bit(s, 2) == !j.pressed(Button::Select)
            &&& spec_get_bit(s, 3) == !j.pressed(Button::Start)
        },
        spec_get_bit(b, 5) && !spec_get_bit(b, 4) && j.pressed(Button::Right) == k.pressed(
            Button::Right,
        ) && j.pressed(Button::Left) == k.pressed(Button::Left) && j.pressed(Button::Up)
            == k.pressed(Button::Up) && j.pressed(Button::Down) == k.pressed(Button::Down)
            ==> j.spec_set_byte(b).spec_get_byte() == k.spec_set_byte(b).spec_get_byte(),
{
    lemma_status_bits(
        4,
        j.pressed(Button::A),
        j.pressed(Button::B),
        j.pressed(Button::Select),
        j.pressed(Button::Start),
    );
}

/// Pressing A with the action group selected clears bit 0 of the status byte and leaves bits 1
/// to 3 set for each of B, Select and Start that is not pressed; pressing or releasing any
/// action button with the direction group selected does not change the status byte.
pub proof fn pressing_a(j: Joypad, b: u8, button: Button, value: bool)
    ensures
        !spec_get_bit(b, 5) ==> {
            let s = j.spec_set_button(Button::A, true).spec_set_byte(b).spec_get_byte();
            &&& !spec_get_bit(s, 0)
            &&& spec_get_bit(s, 1) == !j.pressed(Button::B)
            &&& spec_get_bit(s, 2) == !j.pressed(Button::Select)
            &&& spec_get_bit(s, 3) == !j.pressed(Button::Start)
        },
        spec_get_bit(b, 5) && !spec_get_bit(b, 4) && (button == Button::A || button == Button::B
            || button == Button::Select || button == Button::Start) ==> j.spec_set_button(
            button,
            value,
        ).spec_set_byte(b).spec_get_byte() == j.spec_set_byte(b).spec_get_byte(),
{
    let pressed = j.spec_set_button(Button::A, true);
    assert(pressed.pressed(Button::A));
    assert(pressed.pressed(Button::B) == j.pressed(Button::B));
    assert(pressed.pressed(Button::Select) == j.pressed(Button::Select));
    assert(pressed.pressed(Button::Start) == j.pressed(Button::Start));
    status_byte_groups(pressed, pressed, b);
    let changed = j.spec_set_button(button, value);
    if button == Button::A || button == Button::B || button == Button::Select || button
        == Button::Start {
        assert(changed.pressed(Button::Right) == j.pressed(Button::Right));
        assert(changed.pressed(Button::Left) == j.pressed(Button::Left));
        assert(changed.pressed(Button::Up) == j.pressed(Button::Up));
        assert(changed.pressed(Button::Down) == j.pressed(Button::Down));
        status_byte_groups(changed, j, b);
    }
}

} // verus!
