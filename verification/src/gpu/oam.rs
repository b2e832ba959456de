//! Object attribute memory: forty sprite entries of four bytes.

use vstd::prelude::*;
use crate::bits::{get_bit, spec_get_bit};

verus! {

broadcast use vstd::array::group_array_axioms;

pub const OAM_START: u16 = 0xFE00;

pub const OAM_END: u16 = 0xFE9F;

pub const OAM_SIZE: usize = 160;

pub const SPRITE_COUNT: u16 = 40;

/// One sprite entry, decoded.
#[derive(Clone, Copy, Debug, PartialEq, Eq, Structural)]
pub struct Sprite {
    pub y: u8,
    pub x: u8,
    pub tile_index: u8,
    pub bg_and_window_over_sprite: bool,
    pub y_flip: bool,
    pub x_flip: bool,
    pub use_palette_1: bool,
}

pub struct SpriteAttributeTable {
    pub data: [u8; 160],
}

impl SpriteAttributeTable {
    pub open spec fn spec_read8(&self, addr: u16) -> u8 {
        self.data[addr - 0xFE00]
    }

    pub open spec fn spec_write8(self, addr: u16, value: u8) -> SpriteAttributeTable {
        SpriteAttributeTable {
            data: vstd::array::spec_array_update(self.data, addr - 0xFE00, value),
        }
    }

    /// The sprite entry at `index`: Y, X, tile index, then the attribute byte, whose bits 7 to
    /// 4 are priority, vertical flip, horizontal flip and palette.
    pub open spec fn spec_read_sprite(&self, index: u16) -> Sprite {
        let attributes = self.data[index * 4 + 3];
        Sprite {
            y: self.data[index * 4],
            x: self.data[index * 4 + 1],
            tile_index: self.data[index * 4 + 2],
            bg_and_window_over_sprite: spec_get_bit(attributes, 7),
            y_flip: spec_get_bit(attributes, 6),
            x_flip: spec_get_bit(attributes, 5),
            use_palette_1: spec_get_bit(attributes, 4),
        }
    }

    pub fn new() -> (r: SpriteAttributeTable)
        ensures
            forall|i: int| 0 <= i < 160 ==> r.data[i] == 0,
    {
        SpriteAttributeTable { data: [0u8;160] }
    }

    #[verifier::when_used_as_spec(spec_read8)]
    pub fn read8(&self, addr: u16) -> (r: u8)
        requires
            0xFE00 <= addr <= 0xFE9F,
        ensures
            r == self.spec_read8(addr),
    {
        self.data[(addr - OAM_START) as usize]
    }

    pub fn write8(&mut self, addr: u16, value: u8)
        requires
            0xFE00 <= addr <= 0xFE9F,
        ensures
            *final(self) == old(self).spec_write8(addr, value),
            final(self).spec_read8(addr) == value,
    {
        self.data[(addr - OAM_START) as usize] = value;
        assert(self.data =~= vstd::array::spec_array_update(
            old(self).data,
            addr - 0xFE00,
            value,
        ));
    }

    #[verifier::when_used_as_spec(spec_read_sprite)]
    pub fn read_sprite(&self, index: u16) -> (r: Sprite)
        requires
            index < 40,
        ensures
            r == self.spec_read_sprite(index),
    {
        let addr: u16 = OAM_START + (index * 4);
        let attributes = self.read8(addr + 3);
        Sprite {
            y: self.read8(addr),
            x: self.read8(addr + 1),
            tile_index: self.read8(addr + 2),
            bg_and_window_over_sprite: get_bit(attributes, 7),
            y_flip: get_bit(attributes, 6),
            x_flip: get_bit(attributes, 5),
            use_palette_1: get_bit(attributes, 4),
        }
    }
}

} // verus!
