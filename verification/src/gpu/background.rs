//! What a drawn line of background or of a sprite shows, pixel by pixel.

use vstd::prelude::*;
use crate::gpu::{Gpu, signed_index};
use crate::gpu::oam::Sprite;
use crate::gpu::vram::{signed_line_address, unsigned_line_address};
use crate::screen::{Colour, Screen, lemma_set_then_get};

verus! {

impl Gpu {
    /// The colour that the background shows at column `x` of the current scanline: that of the
    /// background pixel `x + SCX` columns and `LY + SCY` lines into the 256 by 256 background,
    /// both wrapped.
    pub open spec fn bg_colour_at(&self, x: int) -> Colour {
        let column = (x + self.viewport_x) % 256;
        let index = self.vram.tile_index(
            self.bg_map_base(),
            (column / 8) as u8,
            (self.bg_line() / 8) as u8,
        );
        let address = if self.lcd_control.spec_bit(4) {
            unsigned_line_address(index, (self.bg_line() % 8) as u8)
        } else {
            signed_line_address(signed_index(index), (self.bg_line() % 8) as u8)
        };
        self.bg_palette_data.spec_colour_for_id(self.vram.line_colour_id(address, column % 8))
    }
}

/// The `k`-th pixel written, with the line scrolled by `scx`, lies in the tile column and at
/// the place within the tile that the background column `k - scx % 8 + scx` has.
proof fn lemma_scroll(k: int, scx: int)
    requires
        0 <= k < 168,
        0 <= scx < 256,
    ensures
        (k / 8) * 8 + k % 8 == k,
        ((k - scx % 8 + scx) % 256) / 8 == (((k / 8) * 8 + scx) % 256) / 8,
        ((k - scx % 8 + scx) % 256) % 8 == k % 8,
{
    let tile = k / 8;
    let px = k % 8;
    let coarse = scx / 8;
    let shift = scx % 8;
    assert(scx == coarse * 8 + shift);
    let cell = (tile + coarse) % 32;
    let turns = (tile + coarse) / 32;
    assert(tile + coarse == turns * 32 + cell);
    assert(k - shift + scx == turns * 256 + cell * 8 + px);
    assert(tile * 8 + scx == turns * 256 + cell * 8 + shift);
    assert(0 <= cell * 8 + px < 256);
    assert(0 <= cell * 8 + shift < 256);
    assert((k - shift + scx) % 256 == cell * 8 + px);
    assert((tile * 8 + scx) % 256 == cell * 8 + shift);
}

/// The `k`-th background pixel that is written lands `k` columns behind the scroll offset
/// within a tile, and it shows the background at that column.
proof fn lemma_bg_pixel(gpu: Gpu, k: int)
    requires
        0 <= k < 168,
    ensures
        gpu.bg_pixel_x(k / 8, k % 8) == ((k - gpu.viewport_x % 8) % 256) as u8,
        gpu.bg_palette_data.spec_colour_for_id(
            gpu.vram.line_colour_id(gpu.bg_line_address(k / 8), k % 8),
        ) == gpu.bg_colour_at(k - gpu.viewport_x % 8),
{
    lemma_scroll(k, gpu.viewport_x as int);
}

/// What writing the `k`-th background pixel of the current scanline does to the screen: the
/// column `k` less the scroll offset within a tile, if it is on the screen, shows the
/// background; every other pixel is as it was.
proof fn lemma_bg_step(gpu: Gpu, before: Screen, k: int, x: u8, y: u8)
    requires
        0 <= k < 168,
    ensures
        before.spec_set(
            gpu.bg_pixel_x(k / 8, k % 8),
            gpu.lcd_y,
            gpu.bg_palette_data.spec_colour_for_id(
                gpu.vram.line_colour_id(gpu.bg_line_address(k / 8), k % 8),
            ),
        ).spec_get(x, y) == (if y == gpu.lcd_y && y < 144 && x < 160 && x + gpu.viewport_x % 8
            == k {
            gpu.bg_colour_at(x as int)
        } else {
            before.spec_get(x, y)
        }),
{
    lemma_bg_pixel(gpu, k);
    let at = gpu.bg_pixel_x(k / 8, k % 8);
    let colour = gpu.bg_palette_data.spec_colour_for_id(
        gpu.vram.line_colour_id(gpu.bg_line_address(k / 8), k % 8),
    );
    lemma_set_then_get(before, at, gpu.lcd_y, colour, x, y);
    let shift = gpu.viewport_x % 8;
    assert(at == ((k - shift) % 256) as u8);
    if x < 160 && x + shift == k {
        assert(at == x);
    }
    if x == at && x < 160 {
        assert(x + shift == k);
    }
}

/// What the screen shows after the first `n` background pixels of the current scanline were
/// written: the columns that were reached show the background, every other pixel is as it
/// was.
proof fn lemma_bg_after(gpu: Gpu, screen: Screen, n: nat, x: u8, y: u8)
    requires
        n <= 168,
    ensures
        gpu.bg_after(screen, n).spec_get(x, y) == (if y == gpu.lcd_y && y < 144 && x < 160 && x
            + gpu.viewport_x % 8 < n {
            gpu.bg_colour_at(x as int)
        } else {
            screen.spec_get(x, y)
        }),
    decreases n,
{
    if n > 0 {
        let k = (n - 1) as int;
        lemma_bg_after(gpu, screen, (n - 1) as nat, x, y);
        lemma_bg_step(gpu, gpu.bg_after(screen, (n - 1) as nat), k, x, y);
    }
}

/// With the background enabled, drawing the background of the current scanline gives each of
/// the 160 columns of that line the colour of the background at that column, scrolled by SCX
/// and SCY, and changes no other line.
pub proof fn background_scanline_pixels(gpu: Gpu, screen: Screen, x: u8, y: u8)
    requires
        gpu.lcd_control.spec_bit(0),
    ensures
        y == gpu.lcd_y && y < 144 && x < 160 ==> gpu.spec_draw_background(screen).spec_get(x, y)
            == gpu.bg_colour_at(x as int),
        y != gpu.lcd_y ==> gpu.spec_draw_background(screen).spec_get(x, y) == screen.spec_get(
            x,
            y,
        ),
{
    lemma_bg_after(gpu, screen, 168, x, y);
}

impl Gpu {
    /// Whether the sprite puts a pixel at column `x` of the current scanline: the column lies
    /// within the sprite's eight, and the colour id there is not the transparent 0. A sprite
    /// whose X is below 8 puts none.
    pub open spec fn sprite_shows_at(&self, sprite: Sprite, x: int) -> bool {
        sprite.x >= 8 && sprite.x - 8 <= x < sprite.x && self.sprite_pixel_id(
            sprite,
            x + 8 - sprite.x,
        ) != 0
    }

    /// The colour of the sprite's pixel at column `x` of the current scanline.
    pub open spec fn sprite_colour_at(&self, sprite: Sprite, x: int) -> Colour {
        self.sprite_palette(sprite).spec_colour_for_id(
            self.sprite_pixel_id(sprite, x + 8 - sprite.x),
        )
    }
}

/// What the screen shows after the first `n` pixels of a sprite's current line were written.
proof fn lemma_sprite_after(gpu: Gpu, screen: Screen, sprite: Sprite, n: nat, x: u8, y: u8)
    requires
        n <= 8,
    ensures
        gpu.sprite_after(screen, sprite, n).spec_get(x, y) == (if y == gpu.lcd_y && y < 144 && x
            < 160 && x + 8 - sprite.x < n && gpu.sprite_shows_at(sprite, x as int) {
            gpu.sprite_colour_at(sprite, x as int)
        } else {
            screen.spec_get(x, y)
        }),
    decreases n,
{
    if n > 0 {
        let offset = (n - 1) as int;
        lemma_sprite_after(gpu, screen, sprite, (n - 1) as nat, x, y);
        let before = gpu.sprite_after(screen, sprite, (n - 1) as nat);
        let id = gpu.sprite_pixel_id(sprite, offset);
        if sprite.x >= 8 && id != 0 {
            let at = Gpu::sprite_pixel_x(sprite, offset);
            let colour = gpu.sprite_palette(sprite).spec_colour_for_id(id);
            assert(gpu.sprite_after(screen, sprite, n) == before.spec_set(at, gpu.lcd_y, colour));
            lemma_set_then_get(before, at, gpu.lcd_y, colour, x, y);
        } else {
            assert(gpu.sprite_after(screen, sprite, n) == before);
        }
    }
}

/// Drawing the current line of a sprite gives each column of the scanline where the sprite
/// shows a pixel the colour of that pixel, and changes nothing else.
pub proof fn sprite_scanline_pixels(gpu: Gpu, screen: Screen, sprite: Sprite, x: u8, y: u8)
    ensures
        gpu.sprite_after(screen, sprite, 8).spec_get(x, y) == (if y == gpu.lcd_y && y < 144 && x
            < 160 && gpu.sprite_shows_at(sprite, x as int) {
            gpu.sprite_colour_at(sprite, x as int)
        } else {
            screen.spec_get(x, y)
        }),
{
    lemma_sprite_after(gpu, screen, sprite, 8, x, y);
}

} // verus!
