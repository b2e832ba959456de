//! The frame buffer that the pixel unit draws into.

use vstd::prelude::*;

verus! {

broadcast use vstd::array::group_array_axioms;

pub const SCREEN_WIDTH: usize = 160;

pub const SCREEN_HEIGHT: usize = 144;

/// The four shades of the display.
#[derive(Clone, Copy, Debug, PartialEq, Eq, Structural)]
pub enum Colour {
    White,
    LightGrey,
    DarkGrey,
    Black,
}

/// A grid of 160 by 144 pixels, stored row by row.
pub struct Screen {
    pub pixels: [Colour; 23040],
}

pub open spec fn spec_within_bounds(x: u8, y: u8) -> bool {
    x < 160 && y < 144
}

pub open spec fn spec_index(x: u8, y: u8) -> int {
    y as int * 160 + x as int
}

impl Screen {
    /// The colour at the given coordinates; black outside the grid.
    pub open spec fn spec_get(&self, x: u8, y: u8) -> Colour {
        if spec_within_bounds(x, y) {
            self.pixels[spec_index(x, y)]
        } else {
            Colour::Black
        }
    }

    /// The screen with one pixel replaced; unchanged for coordinates outside the grid.
    pub open spec fn spec_set(self, x: u8, y: u8, colour: Colour) -> Screen {
        if spec_within_bounds(x, y) {
            Screen { pixels: vstd::array::spec_array_update(self.pixels, spec_index(x, y), colour) }
        } else {
            self
        }
    }

    pub fn new() -> (r: Screen)
        ensures
            forall|i: int| 0 <= i < 23040 ==> r.pixels[i] == Colour::DarkGrey,
    {
        Screen { pixels: [Colour::DarkGrey;23040] }
    }

    #[verifier::when_used_as_spec(spec_get)]
    pub fn get(&self, x: u8, y: u8) -> (r: Colour)
        ensures
            r == self.spec_get(x, y),
    {
        if within_bounds(x, y) {
            self.pixels[index(x, y)]
        } else {
            Colour::Black
        }
    }

    pub fn set(&mut self, x: u8, y: u8, colour: Colour)
        ensures
            *final(self) == old(self).spec_set(x, y, colour),
            spec_within_bounds(x, y) ==> final(self).spec_get(x, y) == colour,
    {
        if within_bounds(x, y) {
            let i = index(x, y);
            self.pixels[i] = colour;
            assert(self.pixels =~= vstd::array::spec_array_update(
                old(self).pixels,
                spec_index(x, y),
                colour,
            ));
        }
    }
}

fn within_bounds(x: u8, y: u8) -> (r: bool)
    ensures
        r == spec_within_bounds(x, y),
{
    x < 160 && y < 144
}

fn index(x: u8, y: u8) -> (r: usize)
    requires
        spec_within_bounds(x, y),
    ensures
        r == spec_index(x, y),
        r < 23040,
{
    (y as usize) * 160 + (x as usize)
}

/// A pixel that was set shows its new colour, and every other pixel is as it was.
pub proof fn lemma_set_then_get(screen: Screen, at_x: u8, at_y: u8, colour: Colour, x: u8, y: u8)
    ensures
        screen.spec_set(at_x, at_y, colour).spec_get(x, y) == (if x == at_x && y == at_y
            && spec_within_bounds(x, y) {
            colour
        } else {
            screen.spec_get(x, y)
        }),
{
}

} // verus!
