//! Palettes: four colour ids mapped to shades by one byte.

use vstd::prelude::*;
use crate::bits::{get_bits, spec_get_bits};
use crate::screen::Colour;

verus! {

/// The shade with the given number: 0 is white, 3 and above black.
pub open spec fn colour_of(shade: u8) -> Colour {
    if shade == 0 {
        Colour::White
    } else if shade == 1 {
        Colour::LightGrey
    } else if shade == 2 {
        Colour::DarkGrey
    } else {
        Colour::Black
    }
}

/// A palette byte: bits `2 * id` and `2 * id + 1` hold the shade of colour id `id`.
#[derive(Clone, Copy, Debug, PartialEq, Eq, Structural)]
pub struct Palette(pub u8);

impl Palette {
    pub open spec fn spec_colour_for_id(&self, id: u8) -> Colour {
        colour_of(spec_get_bits(self.0, (id * 2) as u8, (id * 2 + 2) as u8))
    }

    #[verifier::when_used_as_spec(spec_colour_for_id)]
    pub fn colour_for_id(&self, id: u8) -> (r: Colour)
        requires
            id < 4,
        ensures
            r == self.spec_colour_for_id(id),
    {
        let shade = get_bits(self.0, id * 2, (id + 1) * 2);
        if shade == 0 {
            Colour::White
        } else if shade == 1 {
            Colour::LightGrey
        } else if shade == 2 {
            Colour::DarkGrey
        } else {
            Colour::Black
        }
    }
}

} // verus!
