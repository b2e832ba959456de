//! The pixel-processing unit: its registers, the scanline state machine and the compositing of
//! background and sprites into the frame buffer.

pub mod background;
pub mod oam;
pub mod palettes;
pub mod tiles;
pub mod vram;

use vstd::prelude::*;
use crate::bits::{
    get_bit,
    get_bits,
    modify_bit,
    modify_bits,
    spec_get_bit,
    spec_get_bits,
    spec_modify_bit,
    spec_modify_bits,
};
use crate::gpu::oam::{Sprite, SpriteAttributeTable};
use crate::gpu::palettes::Palette;
use crate::gpu::vram::{VideoRam, signed_line_address, unsigned_line_address};
use crate::interrupts::{Interrupt, Interrupts};
use crate::screen::Screen;

verus! {

broadcast use vstd::array::group_array_axioms;

/// Clock cycles of one horizontal blank.
pub const HBLANK_PERIOD: u32 = 204;

/// Clock cycles of one line of the vertical blank.
pub const VBLANK_PERIOD: u32 = 456;

/// Clock cycles of one search of the sprite table.
pub const SEARCHING_OAM_PERIOD: u32 = 80;

/// Clock cycles of one transfer of a line to the display.
pub const TRANSFERRING_DATA_PERIOD: u32 = 172;

/// The line at which the vertical blank begins.
pub const VBLANK_LINE: u8 = 143;

/// The last line of the vertical blank.
pub const LAST_LINE: u8 = 153;

/// How many sprites one line can show.
pub const SPRITES_PER_LINE: u8 = 10;

/// How many tiles are drawn for one line of background: the screen's twenty and one more for
/// the scroll offset.
pub const TILES_PER_LINE: u8 = 21;

/// The four modes of the scanline state machine, numbered as in the status register.
#[derive(Clone, Copy, Debug, PartialEq, Eq, Structural)]
pub enum LcdStatus {
    HBlank,
    VBlank,
    SearchingOAM,
    TransferringData,
}

impl LcdStatus {
    pub open spec fn spec_number(&self) -> u8 {
        match self {
            LcdStatus::HBlank => 0,
            LcdStatus::VBlank => 1,
            LcdStatus::SearchingOAM => 2,
            LcdStatus::TransferringData => 3,
        }
    }

    pub open spec fn of_number(n: u8) -> LcdStatus {
        if n == 0 {
            LcdStatus::HBlank
        } else if n == 1 {
            LcdStatus::VBlank
        } else if n == 2 {
            LcdStatus::SearchingOAM
        } else {
            LcdStatus::TransferringData
        }
    }

    /// How long the state machine stays in the mode.
    pub open spec fn spec_period(&self) -> u32 {
        match self {
            LcdStatus::HBlank => 204,
            LcdStatus::VBlank => 456,
            LcdStatus::SearchingOAM => 80,
            LcdStatus::TransferringData => 172,
        }
    }

    #[verifier::when_used_as_spec(spec_number)]
    pub fn number(&self) -> (r: u8)
        ensures
            r == self.spec_number(),
            r < 4,
    {
        match self {
            LcdStatus::HBlank => 0,
            LcdStatus::VBlank => 1,
            LcdStatus::SearchingOAM => 2,
            LcdStatus::TransferringData => 3,
        }
    }

    #[verifier::when_used_as_spec(spec_period)]
    pub fn period(&self) -> (r: u32)
        ensures
            r == self.spec_period(),
            80 <= r <= 456,
    {
        match self {
            LcdStatus::HBlank => HBLANK_PERIOD,
            LcdStatus::VBlank => VBLANK_PERIOD,
            LcdStatus::SearchingOAM => SEARCHING_OAM_PERIOD,
            LcdStatus::TransferringData => TRANSFERRING_DATA_PERIOD,
        }
    }
}

/// The control register: one feature per bit.
#[derive(Clone, Copy, Debug, PartialEq, Eq, Structural)]
pub struct LcdControlRegister(pub u8);

impl LcdControlRegister {
    pub open spec fn spec_bit(&self, bit: u8) -> bool {
        spec_get_bit(self.0, bit)
    }

    pub fn bg_and_window_enable(&self) -> (r: bool)
        ensures
            r == self.spec_bit(0),
    {
        get_bit(self.0, 0)
    }

    pub fn obj_enable(&self) -> (r: bool)
        ensures
            r == self.spec_bit(1),
    {
        get_bit(self.0, 1)
    }

    pub fn obj_size(&self) -> (r: bool)
        ensures
            r == self.spec_bit(2),
    {
        get_bit(self.0, 2)
    }

    pub fn bg_tile_map_area(&self) -> (r: bool)
        ensures
            r == self.spec_bit(3),
    {
        get_bit(self.0, 3)
    }

    pub fn bg_and_window_tile_data_area(&self) -> (r: bool)
        ensures
            r == self.spec_bit(4),
    {
        get_bit(self.0, 4)
    }

    pub fn window_enable(&self) -> (r: bool)
        ensures
            r == self.spec_bit(5),
    {
        get_bit(self.0, 5)
    }

    pub fn window_tile_map_area(&self) -> (r: bool)
        ensures
            r == self.spec_bit(6),
    {
        get_bit(self.0, 6)
    }

    pub fn lcd_enable(&self) -> (r: bool)
        ensures
            r == self.spec_bit(7),
    {
        get_bit(self.0, 7)
    }
}

/// The status register: the mode in bits 0 and 1, the line-compare result in bit 2.
#[derive(Clone, Copy, Debug, PartialEq, Eq, Structural)]
pub struct LcdStatusRegister(pub u8);

impl LcdStatusRegister {
    pub open spec fn spec_status(&self) -> LcdStatus {
        LcdStatus::of_number(spec_get_bits(self.0, 0, 2))
    }

    pub open spec fn with_status(self, status: LcdStatus) -> LcdStatusRegister {
        LcdStatusRegister(spec_modify_bits(self.0, 0, 2, status.spec_number()))
    }

    pub open spec fn spec_ly_lyc_equal(&self) -> bool {
        spec_get_bit(self.0, 2)
    }

    pub open spec fn with_ly_lyc_equal(self, value: bool) -> LcdStatusRegister {
        LcdStatusRegister(spec_modify_bit(self.0, 2, value))
    }

    #[verifier::when_used_as_spec(spec_status)]
    pub fn status(&self) -> (r: LcdStatus)
        ensures
            r == self.spec_status(),
    {
        let n = get_bits(self.0, 0, 2);
        if n == 0 {
            LcdStatus::HBlank
        } else if n == 1 {
            LcdStatus::VBlank
        } else if n == 2 {
            LcdStatus::SearchingOAM
        } else {
            LcdStatus::TransferringData
        }
    }

    pub fn set_status(&mut self, status: LcdStatus)
        ensures
            *final(self) == old(self).with_status(status),
    {
        self.0 = modify_bits(self.0, 0, 2, status.number());
    }

    #[verifier::when_used_as_spec(spec_ly_lyc_equal)]
    pub fn ly_lyc_equal(&self) -> (r: bool)
        ensures
            r == self.spec_ly_lyc_equal(),
    {
        get_bit(self.0, 2)
    }

    pub fn set_ly_lyc_equal(&mut self, value: bool)
        ensures
            *final(self) == old(self).with_ly_lyc_equal(value),
    {
        self.0 = modify_bit(self.0, 2, value);
    }
}

/// The mode that was stored is the mode that is read, and storing the line-compare result
/// does not change the mode.
pub proof fn lemma_status_register(reg: LcdStatusRegister, status: LcdStatus, value: bool)
    ensures
        reg.with_status(status).spec_status() == status,
        reg.with_ly_lyc_equal(value).spec_status() == reg.spec_status(),
        reg.with_ly_lyc_equal(value).spec_ly_lyc_equal() == value,
{
    let v = reg.0;
    let n = status.spec_number();
    assert(((1u16 << 2u8) - 1) as u8 == 3u8) by (bit_vector);
    assert((((v & !(3u8 << 0u8)) | ((n & 3u8) << 0u8)) >> 0u8) & 3u8 == n) by (bit_vector)
        requires
            n < 4,
    ;
    assert(((v | (1u8 << 2u8)) >> 0u8) & 3u8 == (v >> 0u8) & 3u8) by (bit_vector);
    assert(((v & !(1u8 << 2u8)) >> 0u8) & 3u8 == (v >> 0u8) & 3u8) by (bit_vector);
    crate::bits::lemma_get_after_modify(v, 2, value, 2);
}

/// A tile index taken as a signed number.
pub open spec fn signed_index(index: u8) -> i8 {
    if index < 128 {
        index as i8
    } else {
        (index - 256) as i8
    }
}

fn to_signed(index: u8) -> (r: i8)
    ensures
        r == signed_index(index),
{
    if index < 128 {
        index as i8
    } else {
        ((index as i16) - 256) as i8
    }
}

pub struct Gpu {
    /// The frame buffer.
    pub screen: Screen,
    pub vram: VideoRam,
    pub oam: SpriteAttributeTable,
    /// 0xFF40.
    pub lcd_control: LcdControlRegister,
    /// 0xFF41.
    pub lcd_status: LcdStatusRegister,
    /// 0xFF42: vertical scroll of the background.
    pub viewport_y: u8,
    /// 0xFF43: horizontal scroll of the background.
    pub viewport_x: u8,
    /// 0xFF44: the line being drawn.
    pub lcd_y: u8,
    /// 0xFF45: the line to compare with.
    pub ly_compare: u8,
    /// 0xFF47.
    pub bg_palette_data: Palette,
    /// 0xFF48.
    pub obj_palette_0_data: Palette,
    /// 0xFF49.
    pub obj_palette_1_data: Palette,
    /// 0xFF4A.
    pub window_y: u8,
    /// 0xFF4B.
    pub window_x: u8,
    /// Cycles counted towards the end of the current mode.
    pub clock: u32,
}

impl Gpu {
    /// Height of a sprite in lines: 16 when bit 2 of the control register is set, else 8.
    pub open spec fn spec_sprite_height(&self) -> u8 {
        if self.lcd_control.spec_bit(2) {
            16
        } else {
            8
        }
    }

    /// The start of the tile map that the background uses.
    pub open spec fn bg_map_base(&self) -> u16 {
        if self.lcd_control.spec_bit(3) {
            0x9C00
        } else {
            0x9800
        }
    }

    /// The line of the background that the current scanline shows.
    pub open spec fn bg_line(&self) -> int {
        (self.lcd_y + self.viewport_y) % 256
    }

    /// The tile index of the `tile`-th tile drawn on the current scanline.
    pub open spec fn bg_tile_index(&self, tile: int) -> u8 {
        self.vram.tile_index(
            self.bg_map_base(),
            (((tile * 8 + self.viewport_x) % 256) / 8) as u8,
            (self.bg_line() / 8) as u8,
        )
    }

    /// The address of the byte pair that holds the current line of the `tile`-th tile.
    pub open spec fn bg_line_address(&self, tile: int) -> int {
        if self.lcd_control.spec_bit(4) {
            unsigned_line_address(self.bg_tile_index(tile), (self.bg_line() % 8) as u8)
        } else {
            signed_line_address(
                signed_index(self.bg_tile_index(tile)),
                (self.bg_line() % 8) as u8,
            )
        }
    }

    /// The screen column of pixel `px` of the `tile`-th tile, wrapped to a byte.
    pub open spec fn bg_pixel_x(&self, tile: int, px: int) -> u8 {
        ((tile * 8 - self.viewport_x % 8 + px) % 256) as u8
    }

    /// The screen after the first `n` background pixels of the current scanline were written,
    /// tile by tile and from left to right within a tile.
    pub open spec fn bg_after(&self, screen: Screen, n: nat) -> Screen
        decreases n,
    {
        if n == 0 {
            screen
        } else {
            let k = (n - 1) as int;
            self.bg_after(screen, (n - 1) as nat).spec_set(
                self.bg_pixel_x(k / 8, k % 8),
                self.lcd_y,
                self.bg_palette_data.spec_colour_for_id(
                    self.vram.line_colour_id(self.bg_line_address(k / 8), k % 8),
                ),
            )
        }
    }

    /// The screen after the background of the current scanline was drawn: nothing changes when
    /// bit 0 of the control register is clear.
    pub open spec fn spec_draw_background(&self, screen: Screen) -> Screen {
        if self.lcd_control.spec_bit(0) {
            self.bg_after(screen, 168)
        } else {
            screen
        }
    }

    /// Whether the sprite's lines include the current scanline.
    pub open spec fn sprite_covers(&self, sprite: Sprite) -> bool {
        let low = if sprite.y >= 16 {
            sprite.y - 16
        } else {
            0
        };
        let high = if sprite.y >= 16 - self.spec_sprite_height() {
            sprite.y - (16 - self.spec_sprite_height())
        } else {
            0
        };
        low <= self.lcd_y < high
    }

    /// The line of the sprite that the current scanline shows; a vertical flip counts from the
    /// bottom.
    pub open spec fn sprite_line(&self, sprite: Sprite) -> int {
        let line = self.lcd_y + 16 - sprite.y;
        if sprite.y_flip {
            self.spec_sprite_height() - 1 - line
        } else {
            line
        }
    }

    /// The colour id of the sprite's pixel at `offset` on the current scanline; a horizontal
    /// flip counts from the right.
    pub open spec fn sprite_pixel_id(&self, sprite: Sprite, offset: int) -> u8 {
        self.vram.line_colour_id(
            unsigned_line_address(sprite.tile_index, self.sprite_line(sprite) as u8),
            if sprite.x_flip {
                7 - offset
            } else {
                offset
            },
        )
    }

    pub open spec fn sprite_palette(&self, sprite: Sprite) -> Palette {
        if sprite.use_palette_1 {
            self.obj_palette_1_data
        } else {
            self.obj_palette_0_data
        }
    }

    /// The screen column of the sprite's pixel at `offset`.
    pub open spec fn sprite_pixel_x(sprite: Sprite, offset: int) -> u8 {
        if sprite.x + offset > 255 {
            247
        } else {
            (sprite.x + offset - 8) as u8
        }
    }

    /// The screen after the first `n` pixels of the sprite's current line were written. Colour
    /// id 0 is transparent, and a sprite whose X is below 8 is not drawn.
    pub open spec fn sprite_after(&self, screen: Screen, sprite: Sprite, n: nat) -> Screen
        decreases n,
    {
        if n == 0 {
            screen
        } else {
            let offset = (n - 1) as int;
            let before = self.sprite_after(screen, sprite, (n - 1) as nat);
            let id = self.sprite_pixel_id(sprite, offset);
            if sprite.x >= 8 && id != 0 {
                before.spec_set(
                    Gpu::sprite_pixel_x(sprite, offset),
                    self.lcd_y,
                    self.sprite_palette(sprite).spec_colour_for_id(id),
                )
            } else {
                before
            }
        }
    }

    /// The screen after the first `n` entries of the sprite table were looked at, and how many
    /// of them were drawn: an entry is drawn when it covers the current scanline and fewer
    /// than ten were drawn before it.
    pub open spec fn sprites_after(&self, screen: Screen, n: nat) -> (Screen, nat)
        decreases n,
    {
        if n == 0 {
            (screen, 0)
        } else {
            let (before, drawn) = self.sprites_after(screen, (n - 1) as nat);
            let sprite = self.oam.spec_read_sprite((n - 1) as u16);
            if drawn < 10 && self.sprite_covers(sprite) {
                (self.sprite_after(before, sprite, 8), drawn + 1)
            } else {
                (before, drawn)
            }
        }
    }

    /// The unit after the current scanline was drawn: background first, then sprites.
    pub open spec fn spec_draw_scanline(self) -> Gpu {
        Gpu { screen: self.sprites_after(self.spec_draw_background(self.screen), 40).0, ..self }
    }

    /// The unit and the interrupt controller after the line compare: bit 2 of the status
    /// register says whether LY equals LYC, and equality raises the status interrupt.
    pub open spec fn spec_compare(self, interrupts: Interrupts) -> (Gpu, Interrupts) {
        (
            Gpu {
                lcd_status: self.lcd_status.with_ly_lyc_equal(self.lcd_y == self.ly_compare),
                ..self
            },
            if self.lcd_y == self.ly_compare {
                interrupts.spec_flag(Interrupt::LcdStat, true)
            } else {
                interrupts
            },
        )
    }

    /// The unit and the interrupt controller after the current mode has ended.
    pub open spec fn spec_transition(self, interrupts: Interrupts) -> (Gpu, Interrupts) {
        let next_line = ((self.lcd_y + 1) % 256) as u8;
        match self.lcd_status.spec_status() {
            LcdStatus::HBlank => if next_line == 143 {
                (
                    Gpu {
                        lcd_y: next_line,
                        lcd_status: self.lcd_status.with_status(LcdStatus::VBlank),
                        ..self
                    },
                    interrupts.spec_flag(Interrupt::VBlank, true),
                )
            } else {
                (
                    Gpu {
                        lcd_y: next_line,
                        lcd_status: self.lcd_status.with_status(LcdStatus::SearchingOAM),
                        ..self
                    },
                    interrupts,
                )
            },
            LcdStatus::VBlank => if next_line > 153 {
                (
                    Gpu {
                        lcd_y: 0,
                        lcd_status: self.lcd_status.with_status(LcdStatus::SearchingOAM),
                        ..self
                    },
                    interrupts,
                )
            } else {
                (
                    Gpu {
                        lcd_y: next_line,
                        lcd_status: self.lcd_status.with_status(LcdStatus::VBlank),
                        ..self
                    },
                    interrupts,
                )
            },
            LcdStatus::SearchingOAM => (
                Gpu {
                    lcd_status: self.lcd_status.with_status(LcdStatus::TransferringData),
                    ..self
                },
                interrupts,
            ),
            LcdStatus::TransferringData => {
                let drawn = self.spec_draw_scanline();
                (
                    Gpu { lcd_status: drawn.lcd_status.with_status(LcdStatus::HBlank), ..drawn },
                    interrupts,
                )
            },
        }
    }

    /// The unit and the interrupt controller after `cycles` clock cycles: the cycles are
    /// counted, the lines are compared, and when the count has reached the period of the
    /// current mode, the period is taken off and the mode ends.
    pub open spec fn spec_update(self, interrupts: Interrupts, cycles: u32) -> (Gpu, Interrupts) {
        let (compared, flagged) = Gpu {
            clock: (self.clock + cycles) as u32,
            ..self
        }.spec_compare(interrupts);
        let period = compared.lcd_status.spec_status().spec_period();
        if compared.clock >= period {
            Gpu { clock: (compared.clock - period) as u32, ..compared }.spec_transition(flagged)
        } else {
            (compared, flagged)
        }
    }

    /// The unit is as the boot program leaves it: the registers hold their documented values,
    /// video RAM and the sprite table hold zeros, and the screen is dark grey all over.
    pub open spec fn initial(&self) -> bool {
        &&& self.lcd_control == LcdControlRegister(0x91)
        &&& self.lcd_status == LcdStatusRegister(0x81)
        &&& self.viewport_y == 0
        &&& self.viewport_x == 0
        &&& self.lcd_y == 0x91
        &&& self.ly_compare == 0
        &&& self.bg_palette_data == Palette(0xFC)
        &&& self.obj_palette_0_data == Palette(0)
        &&& self.obj_palette_1_data == Palette(0)
        &&& self.window_y == 0
        &&& self.window_x == 0
        &&& self.clock == 0
        &&& forall|i: int| 0 <= i < 0x2000 ==> #[trigger] self.vram.data[i] == 0
        &&& forall|i: int| 0 <= i < 160 ==> #[trigger] self.oam.data[i] == 0
        &&& forall|i: int|
            0 <= i < 23040 ==> #[trigger] self.screen.pixels[i] == crate::screen::Colour::DarkGrey
    }

    /// The unit as it is after the boot program has run.
    pub fn new() -> (r: Gpu)
        ensures
            r.initial(),
    {
        Gpu {
            screen: Screen::new(),
            vram: VideoRam::new(),
            oam: SpriteAttributeTable::new(),
            lcd_control: LcdControlRegister(0x91),
            lcd_status: LcdStatusRegister(0x81),
            viewport_y: 0,
            viewport_x: 0,
            lcd_y: 0x91,
            ly_compare: 0,
            bg_palette_data: Palette(0xFC),
            obj_palette_0_data: Palette(0),
            obj_palette_1_data: Palette(0),
            window_y: 0,
            window_x: 0,
            clock: 0,
        }
    }

    /// Advances the state machine by `cycles` clock cycles, drawing the current scanline when
    /// its transfer ends.
    pub fn update(&mut self, interrupts: &mut Interrupts, cycles: u32)
        requires
            old(self).clock + cycles <= u32::MAX,
        ensures
            (*final(self), *final(interrupts)) == old(self).spec_update(*old(interrupts), cycles),
            old(self).clock < 480 && cycles <= 24 ==> final(self).clock < 480,
    {
        self.clock = self.clock + cycles;
        self.compare_ly_lyc(interrupts);
        let status = self.lcd_status.status();
        let period = status.period();
        if self.clock >= period {
            self.clock = self.clock - period;
            match status {
                LcdStatus::HBlank => {
                    let next = self.hblank(interrupts);
                    self.lcd_status.set_status(next);
                },
                LcdStatus::VBlank => {
                    let next = self.vblank();
                    self.lcd_status.set_status(next);
                },
                LcdStatus::SearchingOAM => {
                    let next = self.searching_oam();
                    self.lcd_status.set_status(next);
                },
                LcdStatus::TransferringData => {
                    let next = self.transferring_data();
                    self.lcd_status.set_status(next);
                },
            }
        }
    }

    fn next_line(&self) -> (r: u8)
        ensures
            r == ((self.lcd_y + 1) % 256) as u8,
    {
        if self.lcd_y == 255 {
            0
        } else {
            self.lcd_y + 1
        }
    }

    /// Ends a horizontal blank: the next line begins, and at line 143 the vertical blank.
    fn hblank(&mut self, interrupts: &mut Interrupts) -> (r: LcdStatus)
        ensures
            *final(self) == (Gpu { lcd_y: ((old(self).lcd_y + 1) % 256) as u8, ..*old(self) }),
            final(self).lcd_y == 143 ==> r == LcdStatus::VBlank && *final(interrupts) == old(
                interrupts,
            ).spec_flag(Interrupt::VBlank, true),
            final(self).lcd_y != 143 ==> r == LcdStatus::SearchingOAM && *final(interrupts)
                == *old(interrupts),
    {
        self.lcd_y = self.next_line();
        if self.lcd_y == VBLANK_LINE {
            interrupts.flag(Interrupt::VBlank, true);
            LcdStatus::VBlank
        } else {
            LcdStatus::SearchingOAM
        }
    }

    /// Ends one line of the vertical blank: behind line 153 the frame starts over.
    fn vblank(&mut self) -> (r: LcdStatus)
        ensures
            (old(self).lcd_y + 1) % 256 > 153 ==> r == LcdStatus::SearchingOAM && *final(self) == (
            Gpu { lcd_y: 0, ..*old(self) }),
            (old(self).lcd_y + 1) % 256 <= 153 ==> r == LcdStatus::VBlank && *final(self) == (Gpu {
                lcd_y: ((old(self).lcd_y + 1) % 256) as u8,
                ..*old(self)
            }),
    {
        self.lcd_y = self.next_line();
        if self.lcd_y > LAST_LINE {
            self.lcd_y = 0;
            return LcdStatus::SearchingOAM;
        }
        LcdStatus::VBlank
    }

    fn searching_oam(&mut self) -> (r: LcdStatus)
        ensures
            r == LcdStatus::TransferringData,
            *final(self) == *old(self),
    {
        LcdStatus::TransferringData
    }

    fn transferring_data(&mut self) -> (r: LcdStatus)
        ensures
            r == LcdStatus::HBlank,
            *final(self) == old(self).spec_draw_scanline(),
    {
        self.draw_scanline();
        LcdStatus::HBlank
    }

    fn compare_ly_lyc(&mut self, interrupts: &mut Interrupts)
        ensures
            (*final(self), *final(interrupts)) == old(self).spec_compare(*old(interrupts)),
    {
        self.lcd_status.set_ly_lyc_equal(self.lcd_y == self.ly_compare);
        if self.lcd_y == self.ly_compare {
            interrupts.flag(Interrupt::LcdStat, true);
        }
    }

    /// Draws the current scanline: background first, then sprites.
    pub fn draw_scanline(&mut self)
        ensures
            *final(self) == old(self).spec_draw_scanline(),
    {
        self.draw_background_scanline();
        self.draw_sprites_as(Ghost(*old(self)));
    }

    /// Draws the background of the current scanline.
    pub fn draw_background_scanline(&mut self)
        ensures
            *final(self) == (Gpu {
                screen: old(self).spec_draw_background(old(self).screen),
                ..*old(self)
            }),
    {
        if !self.lcd_control.bg_and_window_enable() {
            return ;
        }
        let line: u8 = (((self.lcd_y as u16) + (self.viewport_y as u16)) % 256) as u8;
        let map_y: u8 = line / 8;
        let line_number: u8 = line % 8;
        let shift: u16 = (self.viewport_x % 8) as u16;
        let mut tile: u8 = 0;
        while tile < TILES_PER_LINE
            invariant
                tile <= 21,
                line == old(self).bg_line(),
                map_y == line / 8,
                line_number == line % 8,
                shift == old(self).viewport_x % 8,
                *self == (Gpu { screen: self.screen, ..*old(self) }),
                self.screen == old(self).bg_after(old(self).screen, (tile * 8) as nat),
            decreases 21 - tile,
        {
            let x: u16 = (tile as u16) * 8;
            let map_x: u8 = (((x + (self.viewport_x as u16)) % 256) / 8) as u8;
            let tile_index = if self.lcd_control.bg_tile_map_area() {
                self.vram.read_tile_index_from_map_9C00(map_x, map_y)
            } else {
                self.vram.read_tile_index_from_map_9800(map_x, map_y)
            };
            let colour_ids = if self.lcd_control.bg_and_window_tile_data_area() {
                self.vram.read_tile_line_unsigned_index(tile_index, line_number)
            } else {
                self.vram.read_tile_line_signed_index(to_signed(tile_index), line_number)
            };
            draw_tile_line(
                &mut self.screen,
                &colour_ids,
                self.bg_palette_data,
                tile,
                shift,
                self.lcd_y,
                Ghost(*old(self)),
                Ghost(old(self).screen),
            );
            tile = tile + 1;
        }
    }

    /// Draws the sprites of the current scanline, in table order, ten at most.
    pub fn draw_sprites_scanline(&mut self)
        ensures
            *final(self) == (Gpu {
                screen: old(self).sprites_after(old(self).screen, 40).0,
                ..*old(self)
            }),
    {
        self.draw_sprites_as(Ghost(*self));
    }

    /// Draws the sprites that `unit` describes onto this unit's screen.
    fn draw_sprites_as(&mut self, Ghost(unit): Ghost<Gpu>)
        requires
            *old(self) == (Gpu { screen: old(self).screen, ..unit }),
        ensures
            *final(self) == (Gpu {
                screen: unit.sprites_after(old(self).screen, 40).0,
                ..*old(self)
            }),
    {
        let mut sprites_drawn: u8 = 0;
        let mut index: u16 = 0;
        while index < 40
            invariant
                index <= 40,
                sprites_drawn <= 10,
                *self == (Gpu { screen: self.screen, ..unit }),
                (self.screen, sprites_drawn as nat) == unit.sprites_after(
                    old(self).screen,
                    index as nat,
                ),
            decreases 40 - index,
        {
            let sprite = self.oam.read_sprite(index);
            if sprites_drawn < SPRITES_PER_LINE && self.covers(&sprite) {
                self.draw_sprite_as(&sprite, Ghost(unit));
                sprites_drawn = sprites_drawn + 1;
            }
            index = index + 1;
        }
    }

    fn covers(&self, sprite: &Sprite) -> (r: bool)
        ensures
            r == self.sprite_covers(*sprite),
    {
        let height = self.sprite_height();
        let low: u8 = if sprite.y >= 16 {
            sprite.y - 16
        } else {
            0
        };
        let high: u8 = if sprite.y >= 16 - height {
            sprite.y - (16 - height)
        } else {
            0
        };
        low <= self.lcd_y && self.lcd_y < high
    }

    /// Draws the current line of one sprite that covers the current scanline.
    pub fn draw_sprite_scanline(&mut self, sprite: &Sprite)
        requires
            old(self).sprite_covers(*sprite),
        ensures
            *final(self) == (Gpu {
                screen: old(self).sprite_after(old(self).screen, *sprite, 8),
                ..*old(self)
            }),
    {
        self.draw_sprite_as(sprite, Ghost(*self));
    }

    /// Draws the current line of one sprite as `unit` describes it onto this unit's screen.
    fn draw_sprite_as(&mut self, sprite: &Sprite, Ghost(unit): Ghost<Gpu>)
        requires
            *old(self) == (Gpu { screen: old(self).screen, ..unit }),
            unit.sprite_covers(*sprite),
        ensures
            *final(self) == (Gpu {
                screen: unit.sprite_after(old(self).screen, *sprite, 8),
                ..*old(self)
            }),
    {
        let height = self.sprite_height();
        let line: u8 = ((self.lcd_y as u16) + 16 - (sprite.y as u16)) as u8;
        let sprite_line: u8 = if sprite.y_flip {
            height - 1 - line
        } else {
            line
        };
        let colour_ids = self.vram.read_tile_line_unsigned_index(sprite.tile_index, sprite_line);
        let palette = if sprite.use_palette_1 {
            self.obj_palette_1_data
        } else {
            self.obj_palette_0_data
        };
        draw_sprite_line(
            &mut self.screen,
            &colour_ids,
            palette,
            sprite,
            self.lcd_y,
            Ghost(unit),
        );
    }

    /// Height of a sprite in lines.
    #[verifier::when_used_as_spec(spec_sprite_height)]
    pub fn sprite_height(&self) -> (r: u8)
        ensures
            r == self.spec_sprite_height(),
            r == 8 || r == 16,
    {
        if self.lcd_control.obj_size() {
            16
        } else {
            8
        }
    }
}

/// The screen column of pixel `px` of the `tile`-th tile of a line that is shifted left by
/// `shift` pixels, wrapped to a byte.
fn tile_pixel_x(tile: u8, shift: u16, px: u8) -> (r: u8)
    requires
        tile < 21,
        shift < 8,
        px < 8,
    ensures
        r == ((tile * 8 - shift + px) % 256) as u8,
{
    ((256 + (tile as u16) * 8 - shift + (px as u16)) % 256) as u8
}

/// The `px`-th pixel of the `tile`-th tile is pixel `tile * 8 + px` of the line.
proof fn lemma_pixel_place(tile: int, px: int)
    requires
        0 <= tile,
        0 <= px < 8,
    ensures
        (tile * 8 + px) / 8 == tile,
        (tile * 8 + px) % 8 == px,
{
}

/// Writes the eight pixels of the `tile`-th background tile of the scanline that `unit` is at.
fn draw_tile_line(
    screen: &mut Screen,
    colour_ids: &[u8; 8],
    palette: Palette,
    tile: u8,
    shift: u16,
    y: u8,
    Ghost(unit): Ghost<Gpu>,
    Ghost(start): Ghost<Screen>,
)
    requires
        tile < 21,
        shift == unit.viewport_x % 8,
        y == unit.lcd_y,
        palette == unit.bg_palette_data,
        forall|c: int|
            0 <= c < 8 ==> colour_ids[c] == unit.vram.line_colour_id(
                unit.bg_line_address(tile as int),
                c,
            ),
        *old(screen) == unit.bg_after(start, (tile * 8) as nat),
    ensures
        *final(screen) == unit.bg_after(start, (tile * 8 + 8) as nat),
{
    let mut px: u8 = 0;
    while px < 8
        invariant
            tile < 21,
            px <= 8,
            shift == unit.viewport_x % 8,
            y == unit.lcd_y,
            palette == unit.bg_palette_data,
            forall|c: int|
                0 <= c < 8 ==> colour_ids[c] == unit.vram.line_colour_id(
                    unit.bg_line_address(tile as int),
                    c,
                ),
            *screen == unit.bg_after(start, (tile * 8 + px) as nat),
        decreases 8 - px,
    {
        let id = colour_ids[px as usize];
        let colour = palette.colour_for_id(id);
        let draw_x = tile_pixel_x(tile, shift, px);
        proof {
            let k = (tile * 8 + px) as int;
            lemma_pixel_place(tile as int, px as int);
            assert(unit.bg_after(start, (k + 1) as nat) == unit.bg_after(start, k as nat).spec_set(
                unit.bg_pixel_x(k / 8, k % 8),
                unit.lcd_y,
                unit.bg_palette_data.spec_colour_for_id(
                    unit.vram.line_colour_id(unit.bg_line_address(k / 8), k % 8),
                ),
            ));
        }
        screen.set(draw_x, y, colour);
        px = px + 1;
    }
}

/// Writes the eight pixels of the current line of a sprite as `unit` describes it.
fn draw_sprite_line(
    screen: &mut Screen,
    colour_ids: &[u8; 8],
    palette: Palette,
    sprite: &Sprite,
    y: u8,
    Ghost(unit): Ghost<Gpu>,
)
    requires
        y == unit.lcd_y,
        palette == unit.sprite_palette(*sprite),
        forall|c: int|
            0 <= c < 8 ==> colour_ids[c] == unit.vram.line_colour_id(
                unsigned_line_address(sprite.tile_index, unit.sprite_line(*sprite) as u8),
                c,
            ),
    ensures
        *final(screen) == unit.sprite_after(*old(screen), *sprite, 8),
{
    let mut offset: u8 = 0;
    while offset < 8
        invariant
            offset <= 8,
            y == unit.lcd_y,
            palette == unit.sprite_palette(*sprite),
            forall|c: int|
                0 <= c < 8 ==> colour_ids[c] == unit.vram.line_colour_id(
                    unsigned_line_address(sprite.tile_index, unit.sprite_line(*sprite) as u8),
                    c,
                ),
            *screen == unit.sprite_after(*old(screen), *sprite, offset as nat),
        decreases 8 - offset,
    {
        let id = if sprite.x_flip {
            colour_ids[(7 - offset) as usize]
        } else {
            colour_ids[offset as usize]
        };
        if sprite.x >= 8 && id != 0 {
            let colour = palette.colour_for_id(id);
            let reach: u16 = (sprite.x as u16) + (offset as u16);
            let draw_x: u8 = if reach > 255 {
                247
            } else {
                (reach - 8) as u8
            };
            screen.set(draw_x, y, colour);
        }
        offset = offset + 1;
    }
}

impl Gpu {
    /// The unit and the interrupt controller after `n` whole scanlines: for each, 80 cycles of
    /// searching, 172 of transfer and 204 of horizontal blank.
    pub open spec fn after_scanlines(self, interrupts: Interrupts, n: nat) -> (Gpu, Interrupts)
        decreases n,
    {
        if n == 0 {
            (self, interrupts)
        } else {
            let (before, flagged) = self.after_scanlines(interrupts, (n - 1) as nat);
            let (searched, after_search) = before.spec_update(flagged, 80);
            let (transferred, after_transfer) = searched.spec_update(after_search, 172);
            transferred.spec_update(after_transfer, 204)
        }
    }

    /// The unit and the interrupt controller after `n` line periods of 456 cycles.
    pub open spec fn after_blank_lines(self, interrupts: Interrupts, n: nat) -> (Gpu, Interrupts)
        decreases n,
    {
        if n == 0 {
            (self, interrupts)
        } else {
            let (before, flagged) = self.after_blank_lines(interrupts, (n - 1) as nat);
            before.spec_update(flagged, 456)
        }
    }
}

/// One update that brings the cycle count exactly to the period of the current mode ends the
/// mode with the count back at zero. Searching leads to transfer and transfer to horizontal
/// blank, on the same line. A horizontal blank leads to the next line: to the vertical blank,
/// with its interrupt raised, when that line is 143, else to searching. A line of the vertical
/// blank leads to the next, and behind line 153 to searching on line 0.
pub proof fn lemma_mode_ends(gpu: Gpu, interrupts: Interrupts, cycles: u32)
    requires
        gpu.clock + cycles == gpu.lcd_status.spec_status().spec_period(),
    ensures
        ({
            let (after, flagged) = gpu.spec_update(interrupts, cycles);
            let status = gpu.lcd_status.spec_status();
            let next = after.lcd_status.spec_status();
            let next_line = (gpu.lcd_y + 1) % 256;
            &&& after.clock == 0
            &&& status == LcdStatus::SearchingOAM ==> next == LcdStatus::TransferringData
                && after.lcd_y == gpu.lcd_y
            &&& status == LcdStatus::TransferringData ==> next == LcdStatus::HBlank && after.lcd_y
                == gpu.lcd_y
            &&& status == LcdStatus::HBlank ==> after.lcd_y == next_line && (next_line == 143
                ==> next == LcdStatus::VBlank && flagged.spec_is_flagged(Interrupt::VBlank)) && (
            next_line != 143 ==> next == LcdStatus::SearchingOAM)
            &&& status == LcdStatus::VBlank ==> (next_line > 153 ==> next
                == LcdStatus::SearchingOAM && after.lcd_y == 0) && (next_line <= 153 ==> next
                == LcdStatus::VBlank && after.lcd_y == next_line)
        }),
{
    let equal = gpu.lcd_y == gpu.ly_compare;
    let counted = Gpu { clock: (gpu.clock + cycles) as u32, ..gpu };
    let (compared, flagged) = counted.spec_compare(interrupts);
    lemma_status_register(gpu.lcd_status, LcdStatus::HBlank, equal);
    let reg = compared.lcd_status;
    assert(reg.spec_status() == gpu.lcd_status.spec_status());
    lemma_status_register(reg, LcdStatus::HBlank, equal);
    lemma_status_register(reg, LcdStatus::VBlank, equal);
    lemma_status_register(reg, LcdStatus::SearchingOAM, equal);
    lemma_status_register(reg, LcdStatus::TransferringData, equal);
    crate::bits::lemma_get_after_modify(flagged.flag, 0, true, 0);
}

/// From the start of a frame (searching on line 0, cycle count 0) every scanline ends in
/// searching on the next line until the line counter reaches 143: the horizontal blank that
/// ends the 143rd scanline enters the vertical blank and raises its interrupt.
pub proof fn frame_scanlines(gpu: Gpu, interrupts: Interrupts, n: nat)
    requires
        gpu.lcd_status.spec_status() == LcdStatus::SearchingOAM,
        gpu.lcd_y == 0,
        gpu.clock == 0,
        n <= 143,
    ensures
        ({
            let (after, flagged) = gpu.after_scanlines(interrupts, n);
            &&& after.clock == 0
            &&& after.lcd_y == n
            &&& n < 143 ==> after.lcd_status.spec_status() == LcdStatus::SearchingOAM
            &&& n == 143 ==> after.lcd_status.spec_status() == LcdStatus::VBlank
                && flagged.spec_is_flagged(Interrupt::VBlank)
        }),
    decreases n,
{
    if n > 0 {
        frame_scanlines(gpu, interrupts, (n - 1) as nat);
        let (before, flagged) = gpu.after_scanlines(interrupts, (n - 1) as nat);
        let (searched, after_search) = before.spec_update(flagged, 80);
        let (transferred, after_transfer) = searched.spec_update(after_search, 172);
        lemma_mode_ends(before, flagged, 80);
        lemma_mode_ends(searched, after_search, 172);
        lemma_mode_ends(transferred, after_transfer, 204);
    }
}

/// From the start of the vertical blank (line 143, cycle count 0) each of the next ten line
/// periods leaves the unit in the vertical blank, on lines 144 to 153; the eleventh starts the
/// next frame, searching on line 0.
pub proof fn frame_blank_lines(gpu: Gpu, interrupts: Interrupts, n: nat)
    requires
        gpu.lcd_status.spec_status() == LcdStatus::VBlank,
        gpu.lcd_y == 143,
        gpu.clock == 0,
        n <= 11,
    ensures
        ({
            let (after, flagged) = gpu.after_blank_lines(interrupts, n);
            &&& after.clock == 0
            &&& n <= 10 ==> after.lcd_status.spec_status() == LcdStatus::VBlank && after.lcd_y
                == 143 + n
            &&& n == 11 ==> after.lcd_status.spec_status() == LcdStatus::SearchingOAM
                && after.lcd_y == 0
        }),
    decreases n,
{
    if n > 0 {
        frame_blank_lines(gpu, interrupts, (n - 1) as nat);
        let (before, flagged) = gpu.after_blank_lines(interrupts, (n - 1) as nat);
        lemma_mode_ends(before, flagged, 456);
    }
}

} // verus!
