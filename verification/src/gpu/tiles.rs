//! A whole tile of eight by eight colour ids.

use vstd::prelude::*;
use crate::gpu::vram::{colour_id, colour_id_at};

verus! {

broadcast use vstd::array::group_array_axioms;

pub const TILE_SIZE_BYTES: usize = 16;

/// The colour id at place `i` of a tile, counted row by row: row `i / 8` is the byte pair at
/// `2 * (i / 8)`, and the column is `i % 8`.
pub open spec fn tile_colour_id(bytes: Seq<u8>, i: int) -> u8 {
    colour_id(bytes[2 * (i / 8)], bytes[2 * (i / 8) + 1], i % 8)
}

/// The colour ids of a tile, row by row.
pub struct Tile {
    pub colour_ids: [u8; 64],
}

impl Tile {
    /// Decodes the sixteen bytes of a tile: each row is a byte pair.
    pub fn from_vram_data(bytes: [u8; 16]) -> (r: Tile)
        ensures
            forall|i: int| 0 <= i < 64 ==> r.colour_ids[i] == tile_colour_id(bytes@, i),
    {
        let mut colour_ids = [0u8;64];
        let mut i: usize = 0;
        while i < 64
            invariant
                i <= 64,
                forall|k: int| 0 <= k < i ==> colour_ids[k] == tile_colour_id(bytes@, k),
            decreases 64 - i,
        {
            let row = i / 8;
            let id = colour_id_at(bytes[2 * row], bytes[2 * row + 1], (i % 8) as u8);
            colour_ids[i] = id;
            i = i + 1;
        }
        Tile { colour_ids }
    }
}

} // verus!
