//! The scanline renderer: background and window tiles, then sprites.

use super::gpu::{
    color_index, mix, rgb, shade, spec_color_index, spec_mix, spec_rgb, spec_shade, Attributes,
    Sprite, TilePixel, GPU, SCREEN_LINES,
};
use vstd::prelude::*;

verus! {

impl GPU {
    /// Whether column `x` of the current scanline shows the window: the
    /// window is on, has begun at or above this scanline, and begins at or
    /// left of this column.
    pub open spec fn spec_in_window(self, x: int) -> bool {
        self.lcdc.spec_bit(5) && self.window_y <= self.current_line && x + 7 >= self.window_x
    }

    /// The row of the tile map that column `x` of the current scanline
    /// shows, in pixels.
    pub open spec fn spec_map_y(self, x: int) -> int {
        if self.spec_in_window(x) {
            self.current_line - self.window_y
        } else {
            (self.scroll_y + self.current_line) % 256
        }
    }

    /// The column of the tile map that column `x` of the current scanline
    /// shows, in pixels.
    pub open spec fn spec_map_x(self, x: int) -> int {
        if self.spec_in_window(x) {
            x + 7 - self.window_x
        } else {
            (self.scroll_x + x) % 256
        }
    }

    /// The address of the tile map entry for column `x`.
    pub open spec fn spec_map_address(self, x: int) -> int {
        let high = if self.spec_in_window(x) {
            self.lcdc.spec_bit(6)
        } else {
            self.lcdc.spec_bit(3)
        };
        (if high {
            0x9C00int
        } else {
            0x9800
        }) + self.spec_map_y(x) / 8 * 32 + self.spec_map_x(x) / 8
    }

    /// The attributes of the tile at column `x`: on the colour machine the
    /// byte of bank 1 that goes with the tile map entry, else all clear.
    pub open spec fn spec_tile_attributes(self, x: int) -> Attributes {
        if self.spec_is_cgb() {
            Attributes::spec_from_u8(self.spec_vram_at(self.spec_map_address(x) - 0x6000))
        } else {
            Attributes::spec_from_u8(0)
        }
    }

    /// Where the sixteen bytes of a background tile begin: counted from
    /// 0x8000 by the unsigned tile number, or from 0x9000 by the signed one.
    pub open spec fn spec_tile_data(self, tile: u8) -> int {
        if self.lcdc.spec_bit(4) {
            0x8000 + tile * 16
        } else {
            0x8800 + (tile + 128) % 256 * 16
        }
    }

    /// The background or window pixel at column `x` of the current scanline.
    pub open spec fn spec_bg_pixel(self, x: int) -> TilePixel {
        let y = self.spec_map_y(x);
        let mx = self.spec_map_x(x);
        let tile = self.spec_vram_at(self.spec_map_address(x) - 0x8000);
        let attr = self.spec_tile_attributes(x);
        let row = if attr.yflip {
            7 - y % 8
        } else {
            y % 8
        };
        let col = if attr.xflip {
            7 - mx % 8
        } else {
            mx % 8
        };
        let bank = if self.spec_is_cgb() && attr.vram_bank {
            0x2000int
        } else {
            0
        };
        let at = self.spec_tile_data(tile) + row * 2 - 0x8000 + bank;
        let color = spec_color_index(self.spec_vram_at(at), self.spec_vram_at(at + 1), col);
        TilePixel {
            priority: attr.priority,
            color: color,
            rgb: if self.spec_is_cgb() {
                let entry = self.bgpd[attr.palette_number_cgb as int][color as int];
                spec_mix(entry[0], entry[1], entry[2])
            } else {
                let grey = spec_shade(self.bg_palette, color);
                spec_rgb(grey, grey, grey)
            },
        }
    }

    /// The pipeline with the background pixel of column `x` drawn and
    /// recorded in the priority buffer.
    pub open spec fn spec_put_tile(self, x: int) -> GPU {
        let p = self.spec_bg_pixel(x);
        self.spec_set_priority(x, (p.priority, p.color)).spec_set_pixel(
            self.current_line as int,
            x,
            p.rgb,
        )
    }

    /// The pipeline with the background drawn in the first `n` columns.
    pub open spec fn spec_render_tiles_upto(self, n: nat) -> GPU
        decreases n,
    {
        if n == 0 {
            self
        } else {
            self.spec_render_tiles_upto((n - 1) as nat).spec_put_tile(n - 1)
        }
    }

    /// The pipeline with the background drawn across the current scanline.
    pub open spec fn spec_render_tiles(self) -> GPU {
        self.spec_render_tiles_upto(160)
    }

    /// Lines in a sprite.
    pub open spec fn spec_sprite_height(self) -> int {
        if self.lcdc.spec_bit(2) {
            16
        } else {
            8
        }
    }

    /// Entry `n` of the sprite table, with the screen coordinates of the
    /// sprite's top left corner.
    pub open spec fn spec_sprite(self, n: int) -> Sprite {
        Sprite {
            sprite_num: n as u16,
            x: (self.oam[4 * n + 1] - 8) as i16,
            y: (self.oam[4 * n] - 16) as i16,
        }
    }

    /// Whether the lines of sprite `n` include the current scanline.
    pub open spec fn spec_sprite_visible(self, n: int) -> bool {
        let top = self.oam[4 * n] - 16;
        0 <= n < 40 && top <= self.current_line < top + self.spec_sprite_height()
    }

    /// The sprites among the first `upto` of the table that are on the
    /// current scanline, in the table's order, and no more than ten.
    pub open spec fn spec_selected(self, upto: int) -> Seq<Sprite>
        decreases upto,
    {
        if upto <= 0 {
            Seq::empty()
        } else {
            let before = self.spec_selected(upto - 1);
            if self.spec_sprite_visible(upto - 1) && before.len() < 10 {
                before.push(self.spec_sprite(upto - 1))
            } else {
                before
            }
        }
    }

    /// The colour that sprite `n` gives to its column `pixel` on the current
    /// scanline, if it gives one. It gives none off the screen, where its
    /// colour index is zero, and where the background pixel has a colour
    /// index other than zero and either the sprite's or the background's
    /// priority bit is set.
    pub open spec fn spec_sprite_pixel(self, n: int, pixel: int) -> Option<[u8; 3]> {
        let height = self.spec_sprite_height();
        let row = self.current_line + 16 - self.oam[4 * n];
        let x = self.oam[4 * n + 1] - 8 + pixel;
        let tile = if height == 16 {
            self.oam[4 * n + 2] - self.oam[4 * n + 2] % 2
        } else {
            self.oam[4 * n + 2] as int
        };
        let attr = Attributes::spec_from_u8(self.oam[4 * n + 3]);
        let tile_row = if attr.yflip {
            height - 1 - row
        } else {
            row
        };
        let tile_col = if attr.xflip {
            7 - pixel
        } else {
            pixel
        };
        let bank = if self.spec_is_cgb() && attr.vram_bank {
            0x2000int
        } else {
            0
        };
        let at = tile * 16 + tile_row * 2 + bank;
        let color = spec_color_index(self.spec_vram_at(at), self.spec_vram_at(at + 1), tile_col);
        if !(0 <= n < 40 && 0 <= pixel < 8 && 0 <= row < height && 0 <= x < 160) {
            None
        } else if color == 0 {
            None
        } else if self.priority[x].1 != 0 && (attr.priority || self.priority[x].0) {
            None
        } else if self.spec_is_cgb() {
            let entry = self.obpd[attr.palette_number_cgb as int][color as int];
            Some(spec_mix(entry[0], entry[1], entry[2]))
        } else {
            let grey = spec_shade(
                if attr.palette_number_dmg {
                    self.obp1_palette
                } else {
                    self.obp0_palette
                },
                color,
            );
            Some(spec_rgb(grey, grey, grey))
        }
    }

    /// The pipeline with column `pixel` of sprite `n` drawn.
    pub open spec fn spec_put_sprite(self, n: int, pixel: int) -> GPU {
        match self.spec_sprite_pixel(n, pixel) {
            Some(color) => self.spec_set_pixel(
                self.current_line as int,
                self.oam[4 * n + 1] - 8 + pixel,
                color,
            ),
            None => self,
        }
    }

    /// The pipeline with the first `count` columns of sprite `n` drawn.
    pub open spec fn spec_draw_sprite_upto(self, n: int, count: nat) -> GPU
        decreases count,
    {
        if count == 0 {
            self
        } else {
            self.spec_draw_sprite_upto(n, (count - 1) as nat).spec_put_sprite(n, count - 1)
        }
    }

    /// The pipeline with sprite `n` drawn on the current scanline.
    pub open spec fn spec_draw_sprite(self, n: int) -> GPU {
        self.spec_draw_sprite_upto(n, 8)
    }

    /// The pipeline with the sprites of `list` from place `from` on drawn,
    /// the last first, so that of two sprites on one column the one that
    /// stands earlier in the list is seen.
    pub open spec fn spec_render_from(self, list: Seq<Sprite>, from: int) -> GPU
        decreases list.len() - from,
    {
        if from < 0 || from >= list.len() {
            self
        } else {
            self.spec_render_from(list, from + 1).spec_draw_sprite(list[from].sprite_num as int)
        }
    }

    /// The pipeline with the sprites of the current scanline drawn.
    pub open spec fn spec_render_sprites(self) -> GPU {
        self.spec_render_from(self.spec_selected(40), 0)
    }

    /// The pipeline with the current scanline drawn: the background if bit 0
    /// of LCDC is set, then the sprites if bit 1 is.
    pub open spec fn spec_draw_scanline(self) -> GPU {
        let tiles = if self.lcdc.spec_bit(0) {
            self.spec_render_tiles()
        } else {
            self
        };
        if self.lcdc.spec_bit(1) {
            tiles.spec_render_sprites()
        } else {
            tiles
        }
    }

    /// The colour that sprite `n` gives to column `x` of the screen on the
    /// current scanline, if it gives one.
    pub open spec fn spec_sprite_at(self, n: int, x: int) -> Option<[u8; 3]> {
        self.spec_sprite_pixel(n, x + 8 - self.oam[4 * n + 1])
    }

    /// The colour that the sprites of `list` from place `from` on give to
    /// column `x`: that of the first of them that gives one.
    pub open spec fn spec_topmost(self, list: Seq<Sprite>, from: int, x: int) -> Option<[u8; 3]>
        decreases list.len() - from,
    {
        if from < 0 || from >= list.len() {
            None
        } else {
            match self.spec_sprite_at(list[from].sprite_num as int, x) {
                Some(color) => Some(color),
                None => self.spec_topmost(list, from + 1, x),
            }
        }
    }

    /// Whether two states of the pipeline differ in nothing but the picture
    /// and the priority buffer.
    pub open spec fn spec_same_but_picture(self, other: GPU) -> bool {
        &&& self.vram == other.vram
        &&& self.oam == other.oam
        &&& self.lyc == other.lyc
        &&& self.lcdc == other.lcdc
        &&& self.stat == other.stat
        &&& self.current_line == other.current_line
        &&& self.window_x == other.window_x
        &&& self.window_y == other.window_y
        &&& self.bg_palette == other.bg_palette
        &&& self.obp0_palette == other.obp0_palette
        &&& self.obp1_palette == other.obp1_palette
        &&& self.scroll_x == other.scroll_x
        &&& self.scroll_y == other.scroll_y
        &&& self.scanline_counter == other.scanline_counter
        &&& self.vblank == other.vblank
        &&& self.hblank == other.hblank
        &&& self.hardware == other.hardware
        &&& self.bgpi == other.bgpi
        &&& self.bgpd == other.bgpd
        &&& self.obpi == other.obpi
        &&& self.obpd == other.obpd
        &&& self.vram_bank == other.vram_bank
    }

    /// Resolves the background or window pixel at column `x`.
    pub fn bg_pixel(&self, x: u8) -> (r: TilePixel)
        requires
            x < 160,
        ensures
            r == self.spec_bg_pixel(x as int),
            r.color < 4,
    {
        let line: u8 = self.current_line;
        let in_window: bool = self.lcdc.bit5() && self.window_y <= line && x as u16 + 7
            >= self.window_x as u16;
        let y: usize = if in_window {
            (line - self.window_y) as usize
        } else {
            (self.scroll_y as usize + line as usize) % 256
        };
        let mx: usize = if in_window {
            x as usize + 7 - self.window_x as usize
        } else {
            (self.scroll_x as usize + x as usize) % 256
        };
        let high: bool = if in_window {
            self.lcdc.bit6()
        } else {
            self.lcdc.bit3()
        };
        let base: usize = if high {
            0x9C00
        } else {
            0x9800
        };
        let map: usize = base + y / 8 * 32 + mx / 8;
        let tile: u8 = self.vram_at(map - 0x8000);
        let cgb: bool = self.is_cgb();
        let attr: Attributes = if cgb {
            Attributes::from(self.vram_at(map - 0x6000))
        } else {
            Attributes::from(0)
        };
        let data: usize = if self.lcdc.bit4() {
            0x8000 + tile as usize * 16
        } else {
            0x8800 + (tile as usize + 128) % 256 * 16
        };
        let row: usize = if attr.yflip {
            7 - y % 8
        } else {
            y % 8
        };
        let col: u8 = if attr.xflip {
            (7 - mx % 8) as u8
        } else {
            (mx % 8) as u8
        };
        let bank: usize = if cgb && attr.vram_bank {
            0x2000
        } else {
            0
        };
        let at: usize = data + row * 2 - 0x8000 + bank;
        let color: u8 = color_index(self.vram_at(at), self.vram_at(at + 1), col);
        let colour: [u8; 3] = if cgb {
            let entry: [u8; 3] = self.bgpd[attr.palette_number_cgb][color as usize];
            mix(entry[0], entry[1], entry[2])
        } else {
            let grey: u8 = shade(self.bg_palette, color);
            rgb(grey, grey, grey)
        };
        TilePixel { priority: attr.priority, color, rgb: colour }
    }

    /// Draws the background and window across the current scanline and
    /// records each pixel's priority and colour index.
    pub fn render_tiles(&mut self)
        requires
            old(self).current_line < SCREEN_LINES,
        ensures
            *final(self) == old(self).spec_render_tiles(),
            final(self).spec_same_but_picture(*old(self)),
            old(self).inv() ==> final(self).inv(),
    {
        let mut x: u8 = 0;
        while x < 160
            invariant
                x <= 160,
                self.current_line < SCREEN_LINES,
                *self == old(self).spec_render_tiles_upto(x as nat),
                self.spec_same_but_picture(*old(self)),
            decreases 160 - x,
        {
            let p: TilePixel = self.bg_pixel(x);
            self.set_priority(x as usize, (p.priority, p.color));
            self.set_pixel(self.current_line as usize, x as usize, p.rgb);
            x = x + 1;
        }
    }

    /// The colour that sprite `n` gives to its column `pixel`, if any.
    pub fn sprite_pixel(&self, n: usize, pixel: u8) -> (r: Option<[u8; 3]>)
        requires
            n < 40,
            pixel < 8,
        ensures
            r == self.spec_sprite_pixel(n as int, pixel as int),
            r is Some ==> 8 <= self.oam[4 * n + 1] + pixel < 168,
    {
        let height: usize = if self.lcdc.bit2() {
            16
        } else {
            8
        };
        let top: usize = self.oam[4 * n] as usize;
        let line: usize = self.current_line as usize + 16;
        let left: usize = self.oam[4 * n + 1] as usize + pixel as usize;
        if line < top || line - top >= height || left < 8 || left - 8 >= 160 {
            return None;
        }
        let row: usize = line - top;
        let x: usize = left - 8;
        let number: u8 = self.oam[4 * n + 2];
        let tile: usize = if height == 16 {
            (number - number % 2) as usize
        } else {
            number as usize
        };
        let attr: Attributes = Attributes::from(self.oam[4 * n + 3]);
        let tile_row: usize = if attr.yflip {
            height - 1 - row
        } else {
            row
        };
        let tile_col: u8 = if attr.xflip {
            7 - pixel
        } else {
            pixel
        };
        let cgb: bool = self.is_cgb();
        let bank: usize = if cgb && attr.vram_bank {
            0x2000
        } else {
            0
        };
        let at: usize = tile * 16 + tile_row * 2 + bank;
        let color: u8 = color_index(self.vram_at(at), self.vram_at(at + 1), tile_col);
        if color == 0 {
            return None;
        }
        let behind: (bool, u8) = self.priority[x];
        if behind.1 != 0 && (attr.priority || behind.0) {
            return None;
        }
        if cgb {
            let entry: [u8; 3] = self.obpd[attr.palette_number_cgb][color as usize];
            Some(mix(entry[0], entry[1], entry[2]))
        } else {
            let palette: u8 = if attr.palette_number_dmg {
                self.obp1_palette
            } else {
                self.obp0_palette
            };
            let grey: u8 = shade(palette, color);
            Some(rgb(grey, grey, grey))
        }
    }

    /// Draws sprite `n` on the current scanline.
    pub fn draw_sprite(&mut self, n: usize)
        requires
            n < 40,
            old(self).current_line < SCREEN_LINES,
        ensures
            *final(self) == old(self).spec_draw_sprite(n as int),
            final(self).spec_same_but_picture(*old(self)),
            final(self).priority == old(self).priority,
    {
        let mut pixel: u8 = 0;
        while pixel < 8
            invariant
                pixel <= 8,
                n < 40,
                self.current_line < SCREEN_LINES,
                *self == old(self).spec_draw_sprite_upto(n as int, pixel as nat),
                self.spec_same_but_picture(*old(self)),
                self.priority == old(self).priority,
            decreases 8 - pixel,
        {
            match self.sprite_pixel(n, pixel) {
                Some(color) => {
                    let x: usize = self.oam[4 * n + 1] as usize + pixel as usize - 8;
                    self.set_pixel(self.current_line as usize, x, color);
                },
                None => {},
            }
            pixel = pixel + 1;
        }
    }

    /// Finds the sprites on the current scanline, ten at most, in the order
    /// of the sprite table.
    pub fn select_sprites(&self) -> (r: Vec<Sprite>)
        ensures
            r@ == self.spec_selected(40),
            r.len() <= 10,
            forall|k: int| 0 <= k < r.len() ==> r[k].sprite_num < 40,
    {
        let height: usize = if self.lcdc.bit2() {
            16
        } else {
            8
        };
        let line: usize = self.current_line as usize + 16;
        let mut sprites: Vec<Sprite> = Vec::new();
        let mut n: usize = 0;
        while n < 40
            invariant
                n <= 40,
                height == self.spec_sprite_height(),
                line == self.current_line + 16,
                sprites@ == self.spec_selected(n as int),
                sprites.len() <= 10,
                forall|k: int| 0 <= k < sprites.len() ==> sprites[k].sprite_num < 40,
            decreases 40 - n,
        {
            let top: usize = self.oam[4 * n] as usize;
            if top <= line && line - top < height && sprites.len() < 10 {
                sprites.push(
                    Sprite {
                        sprite_num: n as u16,
                        x: self.oam[4 * n + 1] as i16 - 8,
                        y: self.oam[4 * n] as i16 - 16,
                    },
                );
            }
            n = n + 1;
        }
        sprites
    }

    /// Draws the sprites of the current scanline over what is there.
    pub fn render_sprites(&mut self)
        requires
            old(self).current_line < SCREEN_LINES,
        ensures
            *final(self) == old(self).spec_render_sprites(),
            final(self).spec_same_but_picture(*old(self)),
            old(self).inv() ==> final(self).inv(),
    {
        let sprites: Vec<Sprite> = self.select_sprites();
        let mut j: usize = sprites.len();
        while j > 0
            invariant
                j <= sprites.len(),
                self.current_line < SCREEN_LINES,
                forall|k: int| 0 <= k < sprites.len() ==> sprites[k].sprite_num < 40,
                *self == old(self).spec_render_from(sprites@, j as int),
                self.spec_same_but_picture(*old(self)),
            decreases j,
        {
            j = j - 1;
            self.draw_sprite(sprites[j].sprite_num as usize);
        }
    }

    /// Draws the current scanline.
    pub fn draw_scanline(&mut self)
        requires
            old(self).current_line < SCREEN_LINES,
        ensures
            *final(self) == old(self).spec_draw_scanline(),
            final(self).spec_same_but_picture(*old(self)),
            old(self).inv() ==> final(self).inv(),
    {
        if self.lcdc.bit0() {
            self.render_tiles();
        }
        if self.lcdc.bit1() {
            self.render_sprites();
        }
    }
}

/// Drawing the background changes nothing but the picture and the priority
/// buffer.
pub proof fn lemma_render_tiles_keeps_registers(gpu: GPU, n: nat)
    ensures
        gpu.spec_render_tiles_upto(n).spec_same_but_picture(gpu),
    decreases n,
{
    if n > 0 {
        lemma_render_tiles_keeps_registers(gpu, (n - 1) as nat);
    }
}

/// Drawing a sprite changes nothing but the picture.
pub proof fn lemma_draw_sprite_keeps_registers(gpu: GPU, n: int, count: nat)
    ensures
        gpu.spec_draw_sprite_upto(n, count).spec_same_but_picture(gpu),
        gpu.spec_draw_sprite_upto(n, count).priority == gpu.priority,
    decreases count,
{
    if count > 0 {
        lemma_draw_sprite_keeps_registers(gpu, n, (count - 1) as nat);
    }
}

/// Drawing a list of sprites changes nothing but the picture.
pub proof fn lemma_render_from_keeps_registers(gpu: GPU, list: Seq<Sprite>, from: int)
    ensures
        gpu.spec_render_from(list, from).spec_same_but_picture(gpu),
        gpu.spec_render_from(list, from).priority == gpu.priority,
    decreases list.len() - from,
{
    if 0 <= from < list.len() {
        lemma_render_from_keeps_registers(gpu, list, from + 1);
        lemma_draw_sprite_keeps_registers(
            gpu.spec_render_from(list, from + 1),
            list[from].sprite_num as int,
            8,
        );
    }
}

/// Drawing a scanline changes nothing but the picture and the priority
/// buffer: no register, no memory, no mode.
pub proof fn lemma_draw_scanline_keeps_registers(gpu: GPU)
    ensures
        gpu.spec_draw_scanline().spec_same_but_picture(gpu),
{
    lemma_render_tiles_keeps_registers(gpu, 160);
    let tiles = if gpu.lcdc.spec_bit(0) {
        gpu.spec_render_tiles()
    } else {
        gpu
    };
    lemma_render_from_keeps_registers(tiles, tiles.spec_selected(40), 0);
}

/// The background pixel of a column is the same in two states of the
/// pipeline that differ in nothing but the picture and the priority buffer.
pub proof fn lemma_bg_pixel_reads_no_picture(gpu: GPU, other: GPU, x: int)
    requires
        gpu.spec_same_but_picture(other),
    ensures
        gpu.spec_bg_pixel(x) == other.spec_bg_pixel(x),
{
}

/// After the background has been drawn in the first `n` columns, each of
/// them shows the background pixel of its column and has it recorded in the
/// priority buffer; the columns further right and the other scanlines are as
/// they were.
pub proof fn lemma_render_tiles_pixels(gpu: GPU, n: nat, x: int)
    requires
        gpu.current_line < SCREEN_LINES,
        n <= 160,
        0 <= x < 160,
    ensures
        ({
            let drawn = gpu.spec_render_tiles_upto(n);
            let line = gpu.current_line as int;
            &&& x < n ==> drawn.screen_data[line][x] == gpu.spec_bg_pixel(x).rgb
            &&& x < n ==> drawn.priority[x] == (
                gpu.spec_bg_pixel(x).priority,
                gpu.spec_bg_pixel(x).color,
            )
            &&& x >= n ==> drawn.screen_data[line][x] == gpu.screen_data[line][x]
            &&& x >= n ==> drawn.priority[x] == gpu.priority[x]
            &&& forall|other: int|
                0 <= other < 144 && other != line ==> drawn.screen_data[other]
                    == gpu.screen_data[other]
        }),
    decreases n,
{
    broadcast use vstd::array::group_array_axioms;

    if n > 0 {
        let before = gpu.spec_render_tiles_upto((n - 1) as nat);
        lemma_render_tiles_pixels(gpu, (n - 1) as nat, x);
        lemma_render_tiles_keeps_registers(gpu, (n - 1) as nat);
        lemma_bg_pixel_reads_no_picture(before, gpu, n - 1);
        assert forall|other: int| 0 <= other < 144 && other != gpu.current_line implies before.screen_data[other]
            == gpu.screen_data[other] by {
            lemma_render_tiles_pixels(gpu, (n - 1) as nat, x);
        }
    }
}

/// After the background has been drawn, every column of the current
/// scanline shows the background pixel of that column.
pub proof fn lemma_render_tiles_draws_the_line(gpu: GPU, x: int)
    requires
        gpu.current_line < SCREEN_LINES,
        0 <= x < 160,
    ensures
        gpu.spec_render_tiles().screen_data[gpu.current_line as int][x] == gpu.spec_bg_pixel(
            x,
        ).rgb,
        gpu.spec_render_tiles().priority[x] == (
            gpu.spec_bg_pixel(x).priority,
            gpu.spec_bg_pixel(x).color,
        ),
{
    lemma_render_tiles_pixels(gpu, 160, x);
}

/// What a sprite gives to a column is the same in two states of the
/// pipeline that differ in nothing but the picture.
pub proof fn lemma_sprite_pixel_reads_no_picture(gpu: GPU, other: GPU, n: int, pixel: int)
    requires
        gpu.spec_same_but_picture(other),
        gpu.priority == other.priority,
    ensures
        gpu.spec_sprite_pixel(n, pixel) == other.spec_sprite_pixel(n, pixel),
{
}

/// After the first `count` columns of a sprite have been drawn, a column of
/// the screen shows the sprite's colour where the sprite gives it one among
/// those columns, and is as it was elsewhere; the other scanlines are as they
/// were.
pub proof fn lemma_draw_sprite_columns(gpu: GPU, n: int, count: nat, x: int)
    requires
        gpu.current_line < SCREEN_LINES,
        count <= 8,
        0 <= x < 160,
    ensures
        ({
            let drawn = gpu.spec_draw_sprite_upto(n, count);
            let line = gpu.current_line as int;
            let pixel = x + 8 - gpu.oam[4 * n + 1];
            &&& drawn.screen_data[line][x] == (if 0 <= pixel < count && gpu.spec_sprite_pixel(
                n,
                pixel,
            ) is Some {
                gpu.spec_sprite_pixel(n, pixel)->0
            } else {
                gpu.screen_data[line][x]
            })
            &&& forall|other: int|
                0 <= other < 144 && other != line ==> drawn.screen_data[other]
                    == gpu.screen_data[other]
        }),
    decreases count,
{
    broadcast use vstd::array::group_array_axioms;

    if count > 0 {
        let before = gpu.spec_draw_sprite_upto(n, (count - 1) as nat);
        lemma_draw_sprite_columns(gpu, n, (count - 1) as nat, x);
        lemma_draw_sprite_keeps_registers(gpu, n, (count - 1) as nat);
        lemma_sprite_pixel_reads_no_picture(before, gpu, n, count - 1);
    }
}

/// After the sprites of a list have been drawn, a column of the screen shows
/// the colour of the first sprite in the list that gives it one, and is as it
/// was where none does: of two sprites on one column the earlier one is
/// seen.
pub proof fn lemma_earlier_sprite_wins(gpu: GPU, list: Seq<Sprite>, from: int, x: int)
    requires
        gpu.current_line < SCREEN_LINES,
        0 <= x < 160,
    ensures
        ({
            let drawn = gpu.spec_render_from(list, from);
            let line = gpu.current_line as int;
            &&& drawn.screen_data[line][x] == (match gpu.spec_topmost(list, from, x) {
                Some(color) => color,
                None => gpu.screen_data[line][x],
            })
            &&& forall|other: int|
                0 <= other < 144 && other != line ==> drawn.screen_data[other]
                    == gpu.screen_data[other]
        }),
    decreases list.len() - from,
{
    if 0 <= from < list.len() {
        let below = gpu.spec_render_from(list, from + 1);
        let n = list[from].sprite_num as int;
        lemma_earlier_sprite_wins(gpu, list, from + 1, x);
        lemma_render_from_keeps_registers(gpu, list, from + 1);
        lemma_draw_sprite_columns(below, n, 8, x);
        lemma_sprite_pixel_reads_no_picture(below, gpu, n, x + 8 - gpu.oam[4 * n + 1]);
    }
}

} // verus!
