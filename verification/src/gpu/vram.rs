//! Video RAM: tile data and the two tile maps.

use vstd::prelude::*;
use crate::bits::{get_bit, spec_get_bit};

verus! {

broadcast use vstd::array::group_array_axioms;

pub const VRAM_START: u16 = 0x8000;

pub const VRAM_END: u16 = 0x9FFF;

pub const VRAM_SIZE: usize = 0x2000;

pub const TILE_WIDTH: usize = 8;

pub const TILE_SIZE_BYTES: usize = 16;

pub const TILE_MAP_WIDTH: usize = 32;

/// The colour id of column `col` (0 is leftmost) in a tile line stored as the byte pair
/// `top`, `bottom`: bit `7 - col` of `bottom` is its high bit, that of `top` its low bit.
pub open spec fn colour_id(top: u8, bottom: u8, col: int) -> u8 {
    let bit = (7 - col) as u8;
    let high: u8 = if spec_get_bit(bottom, bit) {
        2
    } else {
        0
    };
    let low: u8 = if spec_get_bit(top, bit) {
        1
    } else {
        0
    };
    (high + low) as u8
}

/// The address of line `line` of the tile that `index` selects, counted from 0x8000.
pub open spec fn unsigned_line_address(index: u8, line: u8) -> int {
    0x8000 + index * 16 + line * 2
}

/// The address of line `line` of the tile that `index` selects, counted as a signed offset from
/// 0x9000.
pub open spec fn signed_line_address(index: i8, line: u8) -> int {
    0x9000 + index * 16 + line * 2
}

pub fn colour_id_at(top: u8, bottom: u8, col: u8) -> (r: u8)
    requires
        col < 8,
    ensures
        r == colour_id(top, bottom, col as int),
        r < 4,
{
    let bit: u8 = 7 - col;
    let high: u8 = if get_bit(bottom, bit) {
        2
    } else {
        0
    };
    let low: u8 = if get_bit(top, bit) {
        1
    } else {
        0
    };
    high + low
}

/// The eight colour ids of a tile line, leftmost first.
pub fn parse_tile_line_from_byte_pair(top: u8, bottom: u8) -> (r: [u8; 8])
    ensures
        forall|col: int| 0 <= col < 8 ==> r[col] == colour_id(top, bottom, col),
{
    [
        colour_id_at(top, bottom, 0),
        colour_id_at(top, bottom, 1),
        colour_id_at(top, bottom, 2),
        colour_id_at(top, bottom, 3),
        colour_id_at(top, bottom, 4),
        colour_id_at(top, bottom, 5),
        colour_id_at(top, bottom, 6),
        colour_id_at(top, bottom, 7),
    ]
}

pub struct VideoRam {
    pub data: [u8; 0x2000],
}

impl VideoRam {
    pub open spec fn spec_read8(&self, addr: u16) -> u8 {
        self.data[addr - 0x8000]
    }

    pub open spec fn spec_write8(self, addr: u16, value: u8) -> VideoRam {
        VideoRam { data: vstd::array::spec_array_update(self.data, addr - 0x8000, value) }
    }

    /// The colour id of column `col` in the tile line whose two bytes start at `addr`.
    pub open spec fn line_colour_id(&self, addr: int, col: int) -> u8 {
        colour_id(self.data[addr - 0x8000], self.data[addr + 1 - 0x8000], col)
    }

    /// The tile index at column `x`, row `y` of the tile map that starts at `base`.
    pub open spec fn tile_index(&self, base: u16, x: u8, y: u8) -> u8 {
        self.data[base + y * 32 + x - 0x8000]
    }

    pub fn new() -> (r: VideoRam)
        ensures
            forall|i: int| 0 <= i < 0x2000 ==> r.data[i] == 0,
    {
        VideoRam { data: [0u8;0x2000] }
    }

    #[verifier::when_used_as_spec(spec_read8)]
    pub fn read8(&self, addr: u16) -> (r: u8)
        requires
            0x8000 <= addr <= 0x9FFF,
        ensures
            r == self.spec_read8(addr),
    {
        self.data[(addr - VRAM_START) as usize]
    }

    pub fn write8(&mut self, addr: u16, value: u8)
        requires
            0x8000 <= addr <= 0x9FFF,
        ensures
            *final(self) == old(self).spec_write8(addr, value),
            final(self).spec_read8(addr) == value,
    {
        self.data[(addr - VRAM_START) as usize] = value;
        assert(self.data =~= vstd::array::spec_array_update(
            old(self).data,
            addr - 0x8000,
            value,
        ));
    }

    /// The colour ids of one line of a tile addressed from 0x8000. Lines 8 to 15 belong to the
    /// tile that follows, as for the lower half of a tall sprite.
    pub fn read_tile_line_unsigned_index(&self, offset: u8, line: u8) -> (r: [u8; 8])
        requires
            line < 16,
        ensures
            forall|col: int|
                0 <= col < 8 ==> r[col] == self.line_colour_id(
                    unsigned_line_address(offset, line),
                    col,
                ),
    {
        let addr: u16 = 0x8000 + (offset as u16) * 16 + (line as u16) * 2;
        self.read_tile_line(addr)
    }

    /// The colour ids of one line of a tile addressed as a signed offset from 0x9000.
    pub fn read_tile_line_signed_index(&self, offset: i8, line: u8) -> (r: [u8; 8])
        requires
            line < 8,
        ensures
            forall|col: int|
                0 <= col < 8 ==> r[col] == self.line_colour_id(
                    signed_line_address(offset, line),
                    col,
                ),
    {
        let addr: i32 = 0x9000 + (offset as i32) * 16 + (line as i32) * 2;
        self.read_tile_line(addr as u16)
    }

    pub fn read_tile_index_from_map_9800(&self, x: u8, y: u8) -> (r: u8)
        requires
            x < 32,
            y < 32,
        ensures
            r == self.tile_index(0x9800, x, y),
    {
        self.read_tile_index(0x9800, x, y)
    }

    #[allow(non_snake_case)]
    pub fn read_tile_index_from_map_9C00(&self, x: u8, y: u8) -> (r: u8)
        requires
            x < 32,
            y < 32,
        ensures
            r == self.tile_index(0x9C00, x, y),
    {
        self.read_tile_index(0x9C00, x, y)
    }

    fn read_tile_line(&self, addr: u16) -> (r: [u8; 8])
        requires
            0x8000 <= addr < 0x9FFF,
        ensures
            forall|col: int| 0 <= col < 8 ==> r[col] == self.line_colour_id(addr as int, col),
    {
        let top = self.read8(addr);
        let bottom = self.read8(addr + 1);
        parse_tile_line_from_byte_pair(top, bottom)
    }

    fn read_tile_index(&self, offset: u16, x: u8, y: u8) -> (r: u8)
        requires
            offset == 0x9800 || offset == 0x9C00,
            x < 32,
            y < 32,
        ensures
            r == self.tile_index(offset, x, y),
    {
        self.read8(offset + (y as u16) * 32 + (x as u16))
    }
}

} // verus!
