//! Drawing one scanline into the framebuffer.
//!
//! A line is drawn in three passes: the sprites that hide behind the
//! background, the background, and the sprites once more on top. What a
//! pass draws depends on the scene only: the video memory, the sprite
//! table, the palettes and the LCD registers.

use vstd::prelude::*;
use crate::ppu::control::PpuControl;
use crate::ppu::{
    decode_color, ramp, Color, Ppu, PpuView, FRAMEBUFFER_SIZE, ROW_BYTES, SCREEN_HEIGHT, SCREEN_WIDTH,
};

verus! {

/// Sprites in the sprite table.
pub const SPRITE_COUNT: usize = 40;

/// Sprites that one line shows at most.
pub const SPRITES_PER_LINE: usize = 10;

/// What a line is drawn from.
pub struct Scene {
    pub control: PpuControl,
    pub vram: Seq<u8>,
    pub oam: Seq<u8>,
    pub palette: Seq<Color>,
    pub obj_palette0: Seq<Color>,
    pub obj_palette1: Seq<Color>,
    pub line: u8,
    pub scroll_y: u8,
    pub scroll_x: u8,
}

/// The colour number of one pixel of a tile row. The row is stored as two
/// bytes; the pixel at bit `shift` takes its low bit from the second byte
/// and its high bit from the first.
pub open spec fn color_number(byte1: u8, byte2: u8, shift: u8) -> u8 {
    ((byte2 >> shift) & 1) | (((byte1 >> shift) & 1) << 1)
}

/// One of the three bytes of a colour.
pub open spec fn channel(color: Color, c: int) -> u8 {
    if c == 0 {
        color.0
    } else if c == 1 {
        color.1
    } else {
        color.2
    }
}

/// The 160 colours of row `line` of an image.
pub open spec fn row_of(image: Seq<u8>, line: int) -> Seq<Color> {
    Seq::new(
        SCREEN_WIDTH as nat,
        |x: int|
            (
                image[line * ROW_BYTES + 3 * x],
                image[line * ROW_BYTES + 3 * x + 1],
                image[line * ROW_BYTES + 3 * x + 2],
            ),
    )
}

/// The image with row `line` replaced by `row`.
pub open spec fn with_row(image: Seq<u8>, line: int, row: Seq<Color>) -> Seq<u8> {
    Seq::new(
        image.len(),
        |k: int|
            if line * ROW_BYTES <= k < line * ROW_BYTES + ROW_BYTES {
                channel(row[(k - line * ROW_BYTES) / 3], (k - line * ROW_BYTES) % 3)
            } else {
                image[k]
            },
    )
}

impl Scene {
    /// Where in video memory the background map starts.
    pub open spec fn bg_map_base(self) -> int {
        if self.control.bg_use_upper_map {
            0x1C00
        } else {
            0x1800
        }
    }

    /// Where in video memory the sixteen bytes of background tile `tile_id`
    /// start. In unsigned mode the tiles are counted from the start of video
    /// memory; otherwise the number is a signed one, counted from 0x1000.
    pub open spec fn tile_address(self, tile_id: u8) -> int {
        if self.control.tile_ram_unsigned_mode {
            tile_id * 16
        } else if tile_id < 128 {
            0x1000 + tile_id * 16
        } else {
            0x1000 + (tile_id - 256) * 16
        }
    }

    /// The row of the background that this line shows.
    pub open spec fn bg_y(self) -> int {
        (self.line + self.scroll_y) % 256
    }

    /// The number of the background tile under screen column `x`.
    pub open spec fn bg_tile_id(self, x: int) -> u8 {
        let tile_col = (((x / 8) * 8 + self.scroll_x) % 256) / 8;
        self.vram[self.bg_map_base() + (self.bg_y() / 8) * 32 + tile_col]
    }

    /// The colour number of the background at screen column `x`.
    pub open spec fn bg_color_number(self, x: int) -> u8 {
        let data = self.tile_address(self.bg_tile_id(x)) + (self.bg_y() % 8) * 2;
        color_number(self.vram[data], self.vram[data + 1], (7 - x % 8) as u8)
    }

    /// The background of this line.
    pub open spec fn bg_row(self) -> Seq<Color> {
        Seq::new(SCREEN_WIDTH as nat, |x: int| self.palette[self.bg_color_number(x) as int])
    }

    /// The height of every sprite, in lines.
    pub open spec fn sprite_height(self) -> int {
        if self.control.obj_long_blocks {
            16
        } else {
            8
        }
    }

    /// The screen line of the top row of sprite `s`. The table stores it
    /// sixteen lines further down; what would lie above the screen wraps
    /// around to 240 and more and is never seen.
    pub open spec fn sprite_top(self, s: int) -> int {
        (self.oam[4 * s] - 16) % 256
    }

    /// The screen column of the left edge of sprite `s`. The table stores
    /// it eight columns further right; what would lie left of the screen
    /// wraps around to 248 and more and is never seen.
    pub open spec fn sprite_left(self, s: int) -> int {
        (self.oam[4 * s + 1] - 8) % 256
    }

    /// The tile number of sprite `s`.
    pub open spec fn sprite_tile(self, s: int) -> u8 {
        self.oam[4 * s + 2]
    }

    /// The attribute byte of sprite `s`: bit 7 hides it behind the
    /// background, bit 6 mirrors it top to bottom, bit 5 left to right,
    /// bit 4 chooses the second sprite palette.
    pub open spec fn sprite_attributes(self, s: int) -> u8 {
        self.oam[4 * s + 3]
    }

    /// Whether sprite `s` is marked to hide behind the background.
    pub open spec fn sprite_behind(self, s: int) -> bool {
        self.sprite_attributes(s) & 0x80 != 0
    }

    /// Whether a row of sprite `s` lies on this line.
    pub open spec fn sprite_on_line(self, s: int) -> bool {
        self.sprite_top(s) <= self.line < self.sprite_top(s) + self.sprite_height()
    }

    /// How many of the sprites `from`, `from + 1`, ... lie on this line.
    pub open spec fn sprites_on_line(self, from: int) -> nat
        decreases SPRITE_COUNT - from,
    {
        if from >= SPRITE_COUNT || from < 0 {
            0
        } else if self.sprite_on_line(from) {
            1 + self.sprites_on_line(from + 1)
        } else {
            self.sprites_on_line(from + 1)
        }
    }

    /// Whether this line shows sprite `s`. The table is scanned from its end,
    /// and a line shows the first ten sprites that the scan finds on it.
    pub open spec fn sprite_shown(self, s: int) -> bool {
        &&& 0 <= s < SPRITE_COUNT
        &&& self.sprite_on_line(s)
        &&& self.sprites_on_line(s + 1) < SPRITES_PER_LINE
    }

    /// The palette of sprite `s`.
    pub open spec fn sprite_palette(self, s: int) -> Seq<Color> {
        if self.sprite_attributes(s) & 0x10 != 0 {
            self.obj_palette1
        } else {
            self.obj_palette0
        }
    }

    /// The colour number of column `i` (0 to 7, from the left as shown) of
    /// the row of sprite `s` that lies on this line.
    pub open spec fn sprite_color_number(self, s: int, i: int) -> u8 {
        let height = self.sprite_height();
        let row = self.line - self.sprite_top(s);
        let tile_row = if self.sprite_attributes(s) & 0x40 != 0 {
            height - 1 - row
        } else {
            row
        };
        let data = self.sprite_tile(s) * 16 + tile_row * 2;
        let shift = if self.sprite_attributes(s) & 0x20 != 0 {
            i
        } else {
            7 - i
        };
        color_number(self.vram[data], self.vram[data + 1], shift as u8)
    }

    /// The colour of screen column `x` after sprite `s` was drawn over the
    /// colour `under`. Outside the eight columns of the sprite, and where
    /// the sprite has colour number 0, the colour stays. Before the
    /// background is drawn, a sprite that hides behind it also leaves every
    /// pixel alone that is not of the lightest shade.
    pub open spec fn sprite_pixel(self, over_bg: bool, s: int, x: int, under: Color) -> Color {
        let i = x - self.sprite_left(s);
        if 0 <= i < 8 {
            let number = self.sprite_color_number(s, i);
            if number == 0 {
                under
            } else if self.sprite_behind(s) && !over_bg && under != ramp(0) {
                under
            } else {
                self.sprite_palette(s)[number as int]
            }
        } else {
            under
        }
    }

    /// The row after sprite `s` was drawn over it.
    pub open spec fn sprite_drawn(self, over_bg: bool, s: int, row: Seq<Color>) -> Seq<Color> {
        Seq::new(SCREEN_WIDTH as nat, |x: int| self.sprite_pixel(over_bg, s, x, row[x]))
    }

    /// Whether a pass draws sprite `s`: the line shows it, and before the
    /// background is drawn only the sprites that hide behind it are drawn.
    pub open spec fn sprite_in_pass(self, over_bg: bool, s: int) -> bool {
        self.sprite_shown(s) && (over_bg || self.sprite_behind(s))
    }

    /// The row after one pass drew the sprites `from`, `from + 1`, ... over
    /// it, the last of the table first: a sprite with a lower number is
    /// drawn later and so lies on top.
    pub open spec fn sprites_drawn(self, over_bg: bool, row: Seq<Color>, from: int) -> Seq<Color>
        decreases SPRITE_COUNT - from,
    {
        if from >= SPRITE_COUNT || from < 0 {
            row
        } else {
            let below = self.sprites_drawn(over_bg, row, from + 1);
            if self.sprite_in_pass(over_bg, from) {
                self.sprite_drawn(over_bg, from, below)
            } else {
                below
            }
        }
    }

    /// The row after the first sprite pass, if sprites are switched on.
    pub open spec fn behind_pass(self, row: Seq<Color>) -> Seq<Color> {
        if self.control.obj_on {
            self.sprites_drawn(false, row, 0)
        } else {
            row
        }
    }

    /// The row after the background pass, if the background is switched on.
    pub open spec fn bg_pass(self, row: Seq<Color>) -> Seq<Color> {
        if self.control.bg_on {
            self.bg_row()
        } else {
            row
        }
    }

    /// The row after the second sprite pass, if sprites are switched on.
    pub open spec fn front_pass(self, row: Seq<Color>) -> Seq<Color> {
        if self.control.obj_on {
            self.sprites_drawn(true, row, 0)
        } else {
            row
        }
    }

    /// What this line looks like when it is drawn over `row`.
    pub open spec fn rendered_row(self, row: Seq<Color>) -> Seq<Color> {
        self.front_pass(self.bg_pass(self.behind_pass(row)))
    }
}

impl PpuView {
    /// What the current line is drawn from.
    pub open spec fn scene(self) -> Scene {
        Scene {
            control: PpuControl::decoded(self.control),
            vram: self.vram,
            oam: self.oam,
            palette: self.palette,
            obj_palette0: self.obj_palette0,
            obj_palette1: self.obj_palette1,
            line: self.current_line,
            scroll_y: self.scroll_y,
            scroll_x: self.scroll_x,
        }
    }

    /// The PPU with row `current_line` of the framebuffer replaced.
    pub open spec fn with_line(self, row: Seq<Color>) -> PpuView {
        PpuView {
            framebuffer: with_row(self.framebuffer, self.current_line as int, row),
            ..self
        }
    }

    /// The current line of the framebuffer.
    pub open spec fn line(self) -> Seq<Color> {
        row_of(self.framebuffer, self.current_line as int)
    }

    /// The framebuffer after the current line was drawn.
    pub open spec fn rendered(self) -> Seq<u8> {
        with_row(
            self.framebuffer,
            self.current_line as int,
            self.scene().rendered_row(self.line()),
        )
    }
}

impl Ppu {
    /// The colour of column `x` of the current line.
    fn pixel(&self, x: usize) -> (color: Color)
        requires
            self.current_line < SCREEN_HEIGHT,
            x < SCREEN_WIDTH,
        ensures
            color == self@.line()[x as int],
    {
        let base: usize = (self.current_line as usize * SCREEN_WIDTH + x) * 3;
        (self.framebuffer[base], self.framebuffer[base + 1], self.framebuffer[base + 2])
    }

    /// Gives column `x` of the current line the colour `color`.
    fn put_pixel(&mut self, x: usize, color: Color)
        requires
            old(self).current_line < SCREEN_HEIGHT,
            x < SCREEN_WIDTH,
        ensures
            final(self)@ == old(self)@.with_line(old(self)@.line().update(x as int, color)),
    {
        let base: usize = (self.current_line as usize * SCREEN_WIDTH + x) * 3;
        self.framebuffer[base] = color.0;
        self.framebuffer[base + 1] = color.1;
        self.framebuffer[base + 2] = color.2;
        proof {
            let line = self.current_line as int;
            let row = old(self)@.line().update(x as int, color);
            let target = with_row(old(self).framebuffer@, line, row);
            assert forall|k: int| 0 <= k < FRAMEBUFFER_SIZE implies self.framebuffer@[k]
                == target[k] by {
                if line * ROW_BYTES <= k < line * ROW_BYTES + ROW_BYTES {
                    let j = k - line * ROW_BYTES;
                    assert(k == line * ROW_BYTES + 3 * (j / 3) + j % 3);
                    if j / 3 == x {
                    } else {
                        assert(row[j / 3] == old(self)@.line()[j / 3]);
                    }
                }
            }
            assert(self.framebuffer@ =~= target);
        }
    }

    /// Draws the background of the current line.
    pub fn render_bg(&mut self)
        requires
            old(self).current_line < SCREEN_HEIGHT,
        ensures
            final(self)@ == old(self)@.with_line(old(self)@.scene().bg_row()),
    {
        let control = self.control();
        let y_pos: usize = (self.current_line as usize + self.scroll_y as usize) % 256;
        let bg_base: usize = if control.bg_use_upper_map {
            0x1C00
        } else {
            0x1800
        };
        let tile_row: usize = y_pos / 8;
        let ghost start = self@;
        let ghost scene = self@.scene();
        let ghost mut row = self@.line();
        proof {
            lemma_rows(self.framebuffer@, self.current_line as int, row, row);
        }
        let mut tile_x: usize = 0;
        while tile_x < 20
            invariant
                tile_x <= 20,
                start.current_line < SCREEN_HEIGHT,
                start.framebuffer.len() == FRAMEBUFFER_SIZE,
                scene == start.scene(),
                self@ == start.with_line(row),
                row.len() == SCREEN_WIDTH,
                forall|x: int| 0 <= x < tile_x * 8 ==> row[x] == scene.bg_row()[x],
                y_pos == scene.bg_y(),
                bg_base == scene.bg_map_base(),
                tile_row == y_pos / 8,
                control == scene.control,
            decreases 20 - tile_x,
        {
            let tile_col: usize = (tile_x * 8 + self.scroll_x as usize) % 256 / 8;
            let tile_id = self.vram[bg_base + tile_row * 32 + tile_col];
            let tile_address: usize = if control.tile_ram_unsigned_mode {
                tile_id as usize * 16
            } else if tile_id < 128 {
                0x1000 + tile_id as usize * 16
            } else {
                0x800 + (tile_id - 128) as usize * 16
            };
            let tile_byte1 = self.vram[tile_address + (y_pos % 8) * 2];
            let tile_byte2 = self.vram[tile_address + (y_pos % 8) * 2 + 1];
            let mut i: usize = 0;
            while i < 8
                invariant
                    i <= 8,
                    tile_x < 20,
                    start.current_line < SCREEN_HEIGHT,
                    start.framebuffer.len() == FRAMEBUFFER_SIZE,
                    scene == start.scene(),
                    self@ == start.with_line(row),
                    row.len() == SCREEN_WIDTH,
                    forall|x: int| 0 <= x < tile_x * 8 + i ==> row[x] == scene.bg_row()[x],
                    tile_id == scene.bg_tile_id(tile_x * 8),
                    tile_address == scene.tile_address(tile_id),
                    tile_byte1 == scene.vram[tile_address + (scene.bg_y() % 8) * 2],
                    tile_byte2 == scene.vram[tile_address + (scene.bg_y() % 8) * 2 + 1],
                decreases 8 - i,
            {
                let shift: u8 = (7 - i) as u8;
                let color_id: u8 = ((tile_byte2 >> shift) & 1) | (((tile_byte1 >> shift) & 1) << 1);
                proof {
                    lemma_color_number_range(tile_byte1, tile_byte2, shift);
                }
                let color = self.palette[color_id as usize];
                let x: usize = tile_x * 8 + i;
                self.put_pixel(x, color);
                proof {
                    let line = start.current_line as int;
                    let next = row.update(x as int, color);
                    lemma_rows(start.framebuffer, line, row, row);
                    lemma_rows(start.framebuffer, line, next, row);
                    assert(x / 8 == tile_x && x % 8 == i);
                    assert(scene.bg_tile_id(x as int) == tile_id);
                    assert(color == scene.bg_row()[x as int]);
                    row = next;
                }
                i += 1;
            }
            tile_x += 1;
        }
        proof {
            assert(row =~= scene.bg_row());
        }
    }

    /// Draws the row of sprite `s` that lies on the current line.
    fn draw_sprite(&mut self, s: usize, drawing_over_bg: bool)
        requires
            old(self).current_line < SCREEN_HEIGHT,
            s < SPRITE_COUNT,
            old(self)@.scene().sprite_on_line(s as int),
        ensures
            final(self)@ == old(self)@.with_line(
                old(self)@.scene().sprite_drawn(drawing_over_bg, s as int, old(self)@.line()),
            ),
    {
        let control = self.control();
        let line: usize = self.current_line as usize;
        let height: usize = if control.obj_long_blocks {
            16
        } else {
            8
        };
        let top: usize = self.oam[s * 4].wrapping_sub(16) as usize;
        let left: usize = self.oam[s * 4 + 1].wrapping_sub(8) as usize;
        let tile_id = self.oam[s * 4 + 2];
        let attributes = self.oam[s * 4 + 3];
        let behind_bg = (attributes & 0x80) != 0;
        let flip_vertically = (attributes & 0x40) != 0;
        let flip_horizontally = (attributes & 0x20) != 0;
        let second_palette = (attributes & 0x10) != 0;
        let tile_row: usize = if flip_vertically {
            height - 1 - (line - top)
        } else {
            line - top
        };
        let data: usize = tile_id as usize * 16 + tile_row * 2;
        let tile_byte1 = self.vram[data];
        let tile_byte2 = self.vram[data + 1];
        let lightest = decode_color(0);
        let ghost start = self@;
        let ghost scene = self@.scene();
        let ghost under_row = self@.line();
        let ghost mut row = self@.line();
        proof {
            lemma_rows(self.framebuffer@, self.current_line as int, row, row);
        }
        let mut i: usize = 0;
        while i < 8
            invariant
                i <= 8,
                s < SPRITE_COUNT,
                left < 256,
                left == scene.sprite_left(s as int),
                start.current_line < SCREEN_HEIGHT,
                start.framebuffer.len() == FRAMEBUFFER_SIZE,
                scene == start.scene(),
                scene.sprite_on_line(s as int),
                under_row == start.line(),
                self@ == start.with_line(row),
                row.len() == SCREEN_WIDTH,
                forall|x: int|
                    0 <= x < SCREEN_WIDTH ==> row[x] == if x < left + i {
                        scene.sprite_pixel(drawing_over_bg, s as int, x, under_row[x])
                    } else {
                        under_row[x]
                    },
                behind_bg == scene.sprite_behind(s as int),
                flip_horizontally == (scene.sprite_attributes(s as int) & 0x20 != 0),
                second_palette == (scene.sprite_attributes(s as int) & 0x10 != 0),
                forall|j: int|
                    0 <= j < 8 ==> #[trigger] scene.sprite_color_number(s as int, j)
                        == color_number(
                        tile_byte1,
                        tile_byte2,
                        (if flip_horizontally {
                            j
                        } else {
                            7 - j
                        }) as u8,
                    ),
                lightest == ramp(0),
            decreases 8 - i,
        {
            let x: usize = left + i;
            let shift: u8 = if flip_horizontally {
                i as u8
            } else {
                (7 - i) as u8
            };
            let color_id: u8 = ((tile_byte2 >> shift) & 1) | (((tile_byte1 >> shift) & 1) << 1);
            proof {
                lemma_color_number_range(tile_byte1, tile_byte2, shift);
                assert(color_id == scene.sprite_color_number(s as int, i as int));
            }
            if x < SCREEN_WIDTH && color_id != 0 {
                let under = self.pixel(x);
                proof {
                    lemma_rows(start.framebuffer, start.current_line as int, row, row);
                    assert(under == under_row[x as int]);
                }
                let kept = behind_bg && !drawing_over_bg && (under.0 != lightest.0 || under.1
                    != lightest.1 || under.2 != lightest.2);
                if !kept {
                    let color = if second_palette {
                        self.obj_palette1[color_id as usize]
                    } else {
                        self.obj_palette0[color_id as usize]
                    };
                    self.put_pixel(x, color);
                    proof {
                        let next = row.update(x as int, color);
                        lemma_rows(start.framebuffer, start.current_line as int, next, row);
                        row = next;
                    }
                }
            }
            i += 1;
        }
        proof {
            assert(row =~= scene.sprite_drawn(drawing_over_bg, s as int, under_row));
        }
    }

    /// Draws the sprites of the current line: before the background is
    /// drawn those that hide behind it, afterwards all of them.
    pub fn render_sprites(&mut self, drawing_over_bg: bool)
        requires
            old(self).current_line < SCREEN_HEIGHT,
        ensures
            final(self)@ == old(self)@.with_line(
                old(self)@.scene().sprites_drawn(drawing_over_bg, old(self)@.line(), 0),
            ),
    {
        let control = self.control();
        let line: usize = self.current_line as usize;
        let height: usize = if control.obj_long_blocks {
            16
        } else {
            8
        };
        let ghost start = self@;
        let ghost scene = self@.scene();
        let ghost mut row = self@.line();
        proof {
            lemma_rows(self.framebuffer@, self.current_line as int, row, row);
        }
        let mut seen: usize = 0;
        let mut s: usize = SPRITE_COUNT;
        while s > 0
            invariant
                s <= SPRITE_COUNT,
                seen == scene.sprites_on_line(s as int),
                seen <= SPRITE_COUNT - s,
                line == start.current_line,
                height == scene.sprite_height(),
                start.current_line < SCREEN_HEIGHT,
                start.framebuffer.len() == FRAMEBUFFER_SIZE,
                scene == start.scene(),
                self@ == start.with_line(row),
                row.len() == SCREEN_WIDTH,
                row == scene.sprites_drawn(drawing_over_bg, start.line(), s as int),
            decreases s,
        {
            s -= 1;
            let top: usize = self.oam[s * 4].wrapping_sub(16) as usize;
            if top <= line && line < top + height {
                let behind_bg = (self.oam[s * 4 + 3] & 0x80) != 0;
                if seen < SPRITES_PER_LINE && (drawing_over_bg || behind_bg) {
                    proof {
                        lemma_rows(start.framebuffer, start.current_line as int, row, row);
                    }
                    self.draw_sprite(s, drawing_over_bg);
                    proof {
                        let next = scene.sprite_drawn(drawing_over_bg, s as int, row);
                        lemma_rows(start.framebuffer, start.current_line as int, next, row);
                        row = next;
                    }
                }
                seen += 1;
            }
        }
    }

    /// Draws the current line into the framebuffer.
    pub fn render_scanline(&mut self)
        requires
            old(self).current_line < SCREEN_HEIGHT,
        ensures
            final(self)@ == (PpuView { framebuffer: old(self)@.rendered(), ..old(self)@ }),
    {
        let ghost start = self@;
        let ghost scene = self@.scene();
        let ghost line = self.current_line as int;
        let ghost row0 = self@.line();
        proof {
            lemma_rows(start.framebuffer, line, row0, row0);
        }
        let control = self.control();
        if control.obj_on {
            self.render_sprites(false);
        }
        let ghost row1 = scene.behind_pass(row0);
        proof {
            lemma_pass_keeps_width(scene, false, row0, 0);
            lemma_rows(start.framebuffer, line, row1, row1);
            assert(self@ == start.with_line(row1));
        }
        if control.bg_on {
            self.render_bg();
        }
        let ghost row2 = scene.bg_pass(row1);
        proof {
            lemma_rows(start.framebuffer, line, row2, row1);
            assert(self@ == start.with_line(row2));
        }
        if control.obj_on {
            self.render_sprites(true);
        }
        proof {
            let row3 = scene.front_pass(row2);
            lemma_pass_keeps_width(scene, true, row2, 0);
            lemma_rows(start.framebuffer, line, row3, row2);
        }
    }
}


/// Taking a row out of an image and putting a row in undo each other, and
/// of two rows put in the same place the second one stays.
pub proof fn lemma_rows(image: Seq<u8>, line: int, row: Seq<Color>, other: Seq<Color>)
    requires
        0 <= line < SCREEN_HEIGHT,
        image.len() == SCREEN_HEIGHT * ROW_BYTES,
        row.len() == SCREEN_WIDTH,
    ensures
        row_of(with_row(image, line, row), line) == row,
        with_row(image, line, row_of(image, line)) == image,
        with_row(with_row(image, line, other), line, row) == with_row(image, line, row),
        with_row(image, line, row).len() == image.len(),
{
    let put = with_row(image, line, row);
    assert forall|x: int| 0 <= x < SCREEN_WIDTH implies #[trigger] row_of(put, line)[x] == row[x] by {
        let k = line * ROW_BYTES + 3 * x;
        assert(0 <= k && k + 2 < image.len());
        assert(put[k] == channel(row[x], 0));
        assert(put[k + 1] == channel(row[x], 1));
        assert(put[k + 2] == channel(row[x], 2));
    }
    assert(row_of(put, line) =~= row);
    assert(with_row(image, line, row_of(image, line)) =~= image);
    assert(with_row(with_row(image, line, other), line, row) =~= put);
}

/// A sprite pass gives back a row of the width it was given.
pub proof fn lemma_pass_keeps_width(scene: Scene, over_bg: bool, row: Seq<Color>, from: int)
    requires
        row.len() == SCREEN_WIDTH,
    ensures
        scene.sprites_drawn(over_bg, row, from).len() == SCREEN_WIDTH,
    decreases SPRITE_COUNT - from,
{
    if 0 <= from < SPRITE_COUNT {
        lemma_pass_keeps_width(scene, over_bg, row, from + 1);
    }
}

/// The colour number of a pixel is a number from 0 to 3.
pub proof fn lemma_color_number_range(byte1: u8, byte2: u8, shift: u8)
    by (bit_vector)
    requires
        shift <= 7,
    ensures
        color_number(byte1, byte2, shift) <= 3,
{
}

impl Scene {
    /// How many of the sprites `from`, `from + 1`, ... this line shows.
    pub open spec fn sprites_shown(self, from: int) -> nat
        decreases SPRITE_COUNT - from,
    {
        if from >= SPRITE_COUNT || from < 0 {
            0
        } else if self.sprite_shown(from) {
            1 + self.sprites_shown(from + 1)
        } else {
            self.sprites_shown(from + 1)
        }
    }

    /// Whether sprite `s` has a pixel of its own at screen column `x` of
    /// this line: the column lies within the sprite, and the colour number
    /// there is not 0.
    pub open spec fn sprite_covers(self, s: int, x: int) -> bool {
        &&& 0 <= x - self.sprite_left(s) < 8
        &&& self.sprite_color_number(s, x - self.sprite_left(s)) != 0
    }
}

/// A line shows ten sprites at most: as many as lie on it, up to ten.
pub proof fn lemma_ten_sprites_per_line(scene: Scene, from: int)
    requires
        0 <= from <= SPRITE_COUNT,
    ensures
        scene.sprites_shown(from) <= SPRITES_PER_LINE,
        scene.sprites_shown(from) == if scene.sprites_on_line(from) < SPRITES_PER_LINE {
            scene.sprites_on_line(from)
        } else {
            SPRITES_PER_LINE as nat
        },
    decreases SPRITE_COUNT - from,
{
    if from < SPRITE_COUNT {
        lemma_ten_sprites_per_line(scene, from + 1);
    }
}

/// A sprite that the line does not show, or that a pass leaves out, draws
/// nothing in that pass.
pub proof fn lemma_hidden_sprite_draws_nothing(
    scene: Scene,
    over_bg: bool,
    row: Seq<Color>,
    s: int,
)
    requires
        0 <= s < SPRITE_COUNT,
        !scene.sprite_in_pass(over_bg, s),
    ensures
        scene.sprites_drawn(over_bg, row, s) == scene.sprites_drawn(over_bg, row, s + 1),
{
}

/// Colour number 0 of a sprite is transparent: where a sprite has colour
/// number 0, and outside its eight columns, the pixel under it stays.
pub proof fn lemma_sprite_colour_zero_is_transparent(
    scene: Scene,
    over_bg: bool,
    s: int,
    x: int,
    under: Color,
)
    requires
        !scene.sprite_covers(s, x),
    ensures
        scene.sprite_pixel(over_bg, s, x, under) == under,
{
}

/// A sprite pass leaves a pixel as it was unless some sprite of the pass
/// has a pixel of its own there; and what it draws is the colour that the
/// palette of such a sprite gives to a colour number other than 0.
pub proof fn lemma_pass_draws_only_sprite_pixels(
    scene: Scene,
    over_bg: bool,
    row: Seq<Color>,
    from: int,
    x: int,
)
    requires
        row.len() == SCREEN_WIDTH,
        0 <= x < SCREEN_WIDTH,
        0 <= from <= SPRITE_COUNT,
    ensures
        scene.sprites_drawn(over_bg, row, from)[x] == row[x] || exists|s: int|
            from <= s < SPRITE_COUNT && scene.sprite_in_pass(over_bg, s) && scene.sprite_covers(
                s,
                x,
            ) && scene.sprites_drawn(over_bg, row, from)[x] == scene.sprite_palette(
                s,
            )[scene.sprite_color_number(s, x - scene.sprite_left(s)) as int],
    decreases SPRITE_COUNT - from,
{
    if from < SPRITE_COUNT {
        lemma_pass_draws_only_sprite_pixels(scene, over_bg, row, from + 1, x);
        lemma_pass_keeps_width(scene, over_bg, row, from + 1);
        let below = scene.sprites_drawn(over_bg, row, from + 1);
        let after = scene.sprites_drawn(over_bg, row, from);
        if scene.sprite_in_pass(over_bg, from) && after[x] != below[x] {
            assert(scene.sprite_covers(from, x));
        } else {
            assert(after[x] == below[x]);
            if below[x] != row[x] {
                let s = choose|s: int|
                    from + 1 <= s < SPRITE_COUNT && scene.sprite_in_pass(over_bg, s)
                        && scene.sprite_covers(s, x) && below[x] == scene.sprite_palette(
                        s,
                    )[scene.sprite_color_number(s, x - scene.sprite_left(s)) as int];
                assert(from <= s < SPRITE_COUNT);
            }
        }
    }
}

/// Of the sprites that overlap, the one with the lowest number wins: in the
/// pass over the background, a pixel that sprite `s` has, and no sprite of
/// the pass with a lower number, takes the colour of sprite `s`.
pub proof fn lemma_lowest_sprite_wins(scene: Scene, row: Seq<Color>, s: int, x: int, from: int)
    requires
        row.len() == SCREEN_WIDTH,
        0 <= x < SCREEN_WIDTH,
        0 <= from <= s < SPRITE_COUNT,
        scene.sprite_in_pass(true, s),
        scene.sprite_covers(s, x),
        forall|t: int| 0 <= t < s ==> !(scene.sprite_in_pass(true, t) && scene.sprite_covers(t, x)),
    ensures
        scene.sprites_drawn(true, row, from)[x] == scene.sprite_palette(
            s,
        )[scene.sprite_color_number(s, x - scene.sprite_left(s)) as int],
    decreases s - from,
{
    lemma_pass_keeps_width(scene, true, row, from + 1);
    if from < s {
        lemma_lowest_sprite_wins(scene, row, s, x, from + 1);
    }
}

} // verus!
