//! The pixel pipeline: video RAM, sprite table, registers, palettes, the
//! mode state machine and the scanline renderer.

use super::bits::{bit, spec_bit};
use vstd::array::spec_array_fill_for_copy_type;
use vstd::array::spec_array_update;
use vstd::prelude::*;
use vstd::std_specs::convert::FromSpecImpl;

verus! {

pub const VRAM_BEGIN: usize = 0x8000;

pub const VRAM_END: usize = 0x9FFF;

pub const VRAM_SIZE: usize = 0x4000;

pub const GPU_REGS_BEGIN: usize = 0xFF40;

pub const GPU_REGS_END: usize = 0xFF4B;

pub const OAM_BEGIN: usize = 0xFE00;

pub const OAM_END: usize = 0xFE9F;

/// Dots in one scanline.
pub const LINE_DOTS: u32 = 456;

/// Dots of a scanline spent scanning the sprite table.
pub const SCAN_DOTS: u32 = 80;

/// Dots of a scanline spent transferring pixels.
pub const TRANSFER_DOTS: u32 = 172;

/// Scanlines in one frame, the ten of the vertical blank included.
pub const FRAME_LINES: u8 = 154;

/// Scanlines that are drawn.
pub const SCREEN_LINES: u8 = 144;

/// The LCD control register.
#[derive(Clone, Copy, Debug, PartialEq, Eq)]
pub struct Lcdc {
    pub data: u8,
}

/// The attribute byte of a sprite, or of a background tile on the colour
/// machine.
#[derive(Clone, Copy, Debug, PartialEq, Eq)]
pub struct Attributes {
    pub priority: bool,
    pub yflip: bool,
    pub xflip: bool,
    pub palette_number_dmg: bool,
    pub vram_bank: bool,
    pub palette_number_cgb: usize,
}

/// A colour palette index register: six bits of index and the
/// auto-increment bit.
#[derive(Clone, Copy, Debug, PartialEq, Eq)]
pub struct Gpi {
    pub index: u8,
    pub auto_increment: bool,
}

/// The interrupt enables of STAT and the current mode.
#[derive(Clone, Copy, Debug, PartialEq, Eq)]
pub struct Stat {
    pub enable_ly_interrupt: bool,
    pub enable_m2_interrupt: bool,
    pub enable_m1_interrupt: bool,
    pub enable_m0_interrupt: bool,
    pub mode: u8,
}

#[derive(Clone, Copy, Debug, PartialEq, Eq)]
pub enum Hardware {
    DMG,
    CGB,
}

/// A sprite found on the current scanline: its place in the sprite table
/// and the screen coordinates of its top left corner, which may lie off the
/// screen.
#[derive(Clone, Copy, Debug, PartialEq, Eq)]
pub struct Sprite {
    pub sprite_num: u16,
    pub x: i16,
    pub y: i16,
}

/// One background or window pixel as the renderer resolves it.
#[derive(Clone, Copy, Debug, PartialEq, Eq)]
pub struct TilePixel {
    pub priority: bool,
    pub color: u8,
    pub rgb: [u8; 3],
}

pub type Screen = [[[u8; 3]; 160]; 144];

pub type Palettes = [[[u8; 3]; 4]; 8];

pub struct GPU {
    pub vram: Box<[u8; 0x4000]>,
    /// The picture, row by row, three bytes to a pixel.
    pub screen_data: Box<Screen>,
    pub oam: [u8; 0xA0],
    pub lyc: u8,
    /// For each column of the scanline being drawn, the priority bit and the
    /// colour index of the background pixel there.
    pub priority: [(bool, u8); 160],
    pub lcdc: Lcdc,
    pub stat: Stat,
    pub current_line: u8,
    pub window_x: u8,
    pub window_y: u8,
    pub bg_palette: u8,
    pub obp0_palette: u8,
    pub obp1_palette: u8,
    pub scroll_x: u8,
    pub scroll_y: u8,
    pub scanline_counter: u32,
    /// Set whenever a new picture is ready; the host clears it.
    pub vblank: bool,
    /// Whether the last update entered a horizontal blank.
    pub hblank: bool,
    pub hardware: Hardware,
    pub bgpi: Gpi,
    pub bgpd: Palettes,
    pub obpi: Gpi,
    pub obpd: Palettes,
    pub vram_bank: u8,
}

/// The colour index of a pixel of a tile row: bit `7 - column` of the row's
/// first byte, and the same bit of its second byte above it.
pub open spec fn spec_color_index(low: u8, high: u8, column: int) -> u8 {
    ((if spec_bit(low, 7 - column) {
        1int
    } else {
        0
    }) + (if spec_bit(high, 7 - column) {
        2int
    } else {
        0
    })) as u8
}

pub fn color_index(low: u8, high: u8, column: u8) -> (r: u8)
    requires
        column < 8,
    ensures
        r == spec_color_index(low, high, column as int),
        r < 4,
{
    let l: u8 = if bit(low, 7 - column) {
        1
    } else {
        0
    };
    let h: u8 = if bit(high, 7 - column) {
        2
    } else {
        0
    };
    l + h
}

/// The grey that a monochrome palette gives a colour index: the palette
/// holds one shade in two bits for each index, and the shades run from
/// white to black.
pub open spec fn spec_shade(palette: u8, color: u8) -> u8 {
    let code = if color == 0 {
        palette % 4
    } else if color == 1 {
        palette / 4 % 4
    } else if color == 2 {
        palette / 16 % 4
    } else {
        palette / 64 % 4
    };
    if code == 0 {
        255
    } else if code == 1 {
        192
    } else if code == 2 {
        96
    } else {
        0
    }
}

pub fn shade(palette: u8, color: u8) -> (r: u8)
    ensures
        r == spec_shade(palette, color),
{
    let code: u8 = match color {
        0 => palette % 4,
        1 => palette / 4 % 4,
        2 => palette / 16 % 4,
        _ => palette / 64 % 4,
    };
    match code {
        0 => 255,
        1 => 192,
        2 => 96,
        _ => 0,
    }
}

/// The three bytes of a pixel.
pub open spec fn spec_rgb(r: u8, g: u8, b: u8) -> [u8; 3] {
    spec_array_update(
        spec_array_update(spec_array_update(spec_array_fill_for_copy_type(0u8), 0, r), 1, g),
        2,
        b,
    )
}

pub fn rgb(r: u8, g: u8, b: u8) -> (out: [u8; 3])
    ensures
        out == spec_rgb(r, g, b),
        out[0] == r,
        out[1] == g,
        out[2] == b,
{
    let out: [u8; 3] = [r, g, b];
    assert(out =~= spec_rgb(r, g, b));
    out
}

/// The screen colour of a colour-machine palette entry of three five-bit
/// components: each channel is a weighted mix of the three, cut to eight
/// bits.
pub open spec fn spec_mix(r: u8, g: u8, b: u8) -> [u8; 3] {
    spec_rgb(
        ((r * 13 + g * 2 + b) / 2 % 256) as u8,
        ((g * 3 + b) * 2 % 256) as u8,
        ((r * 3 + g * 2 + b * 11) / 2 % 256) as u8,
    )
}

pub fn mix(r: u8, g: u8, b: u8) -> (out: [u8; 3])
    ensures
        out == spec_mix(r, g, b),
{
    let red: u32 = r as u32;
    let green: u32 = g as u32;
    let blue: u32 = b as u32;
    let new_red: u8 = ((red * 13 + green * 2 + blue) / 2 % 256) as u8;
    let new_green: u8 = ((green * 3 + blue) * 2 % 256) as u8;
    let new_blue: u8 = ((red * 3 + green * 2 + blue * 11) / 2 % 256) as u8;
    rgb(new_red, new_green, new_blue)
}

impl Attributes {
    /// The fields of an attribute byte: priority in bit 7, the two flips in
    /// bits 6 and 5, the monochrome palette in bit 4, the tile's bank in bit
    /// 3 and the colour palette in the low three bits.
    pub open spec fn spec_from_u8(byte: u8) -> Attributes {
        Attributes {
            priority: byte / 0x80 % 2 == 1,
            yflip: byte / 0x40 % 2 == 1,
            xflip: byte / 0x20 % 2 == 1,
            palette_number_dmg: byte / 0x10 % 2 == 1,
            vram_bank: byte / 0x08 % 2 == 1,
            palette_number_cgb: (byte % 8) as usize,
        }
    }
}

impl From<u8> for Attributes {
    fn from(byte: u8) -> (r: Attributes) {
        Attributes {
            priority: byte / 0x80 % 2 == 1,
            yflip: byte / 0x40 % 2 == 1,
            xflip: byte / 0x20 % 2 == 1,
            palette_number_dmg: byte / 0x10 % 2 == 1,
            vram_bank: byte / 0x08 % 2 == 1,
            palette_number_cgb: (byte % 8) as usize,
        }
    }
}

impl FromSpecImpl<u8> for Attributes {
    open spec fn obeys_from_spec() -> bool {
        true
    }

    open spec fn from_spec(byte: u8) -> Attributes {
        Attributes::spec_from_u8(byte)
    }
}

impl Gpi {
    pub open spec fn wf(self) -> bool {
        self.index < 0x40
    }

    pub open spec fn spec_read(self) -> u8 {
        (self.index % 0x40 + if self.auto_increment {
            0x80int
        } else {
            0
        }) as u8
    }

    pub open spec fn spec_write(self, value: u8) -> Gpi {
        Gpi { auto_increment: value >= 0x80, index: value % 0x40 }
    }

    /// The register after a palette data write: the index moves on by one,
    /// round the 64 bytes, if auto-increment is set.
    pub open spec fn spec_step(self) -> Gpi {
        if self.auto_increment {
            Gpi { index: ((self.index + 1) % 0x40) as u8, ..self }
        } else {
            self
        }
    }

    pub fn new() -> (r: Gpi)
        ensures
            r == (Gpi { index: 0, auto_increment: false }),
    {
        Gpi { index: 0x00, auto_increment: false }
    }

    pub fn read(&self) -> (r: u8)
        ensures
            r == self.spec_read(),
    {
        let a: u8 = if self.auto_increment {
            0x80
        } else {
            0x00
        };
        a + self.index % 0x40
    }

    pub fn write(&mut self, value: u8)
        ensures
            *final(self) == old(self).spec_write(value),
            final(self).wf(),
    {
        self.auto_increment = value >= 0x80;
        self.index = value % 0x40;
    }

    pub fn step(&mut self)
        requires
            old(self).wf(),
        ensures
            *final(self) == old(self).spec_step(),
            final(self).wf(),
    {
        if self.auto_increment {
            self.index = (self.index + 1) % 0x40;
        }
    }
}

impl Lcdc {
    /// Bit `k` of the register.
    pub open spec fn spec_bit(self, k: int) -> bool {
        spec_bit(self.data, k)
    }

    /// Display on.
    pub fn bit7(&self) -> (r: bool)
        ensures
            r == self.spec_bit(7),
    {
        self.data / 0x80 % 2 == 1
    }

    /// The window takes its tile map from 0x9C00.
    pub fn bit6(&self) -> (r: bool)
        ensures
            r == self.spec_bit(6),
    {
        self.data / 0x40 % 2 == 1
    }

    /// Window shown.
    pub fn bit5(&self) -> (r: bool)
        ensures
            r == self.spec_bit(5),
    {
        self.data / 0x20 % 2 == 1
    }

    /// Tile data is taken from 0x8000, the tile number unsigned.
    pub fn bit4(&self) -> (r: bool)
        ensures
            r == self.spec_bit(4),
    {
        self.data / 0x10 % 2 == 1
    }

    /// The background takes its tile map from 0x9C00.
    pub fn bit3(&self) -> (r: bool)
        ensures
            r == self.spec_bit(3),
    {
        self.data / 0x08 % 2 == 1
    }

    /// Sprites are sixteen lines high.
    pub fn bit2(&self) -> (r: bool)
        ensures
            r == self.spec_bit(2),
    {
        self.data / 0x04 % 2 == 1
    }

    /// Sprites shown.
    pub fn bit1(&self) -> (r: bool)
        ensures
            r == self.spec_bit(1),
    {
        self.data / 0x02 % 2 == 1
    }

    /// Background and window shown.
    pub fn bit0(&self) -> (r: bool)
        ensures
            r == self.spec_bit(0),
    {
        self.data % 2 == 1
    }
}

/// A palette entry's three components as the two data bytes hold them: the
/// even byte has red in its low five bits and the low three bits of green
/// above, the odd byte the high two bits of green and blue above them.
pub open spec fn spec_palette_byte(entry: [u8; 3], odd: bool) -> u8 {
    if odd {
        (entry[1] >> 3) | (entry[2] << 2)
    } else {
        entry[0] | (entry[1] << 5)
    }
}

/// A palette entry after one of its two data bytes is written.
pub open spec fn spec_palette_store(entry: [u8; 3], odd: bool, value: u8) -> [u8; 3] {
    if odd {
        spec_rgb(entry[0], (entry[1] & 0x07) | ((value & 0x03) << 3), (value >> 2) & 0x1F)
    } else {
        spec_rgb(value & 0x1F, (entry[1] & 0x18) | (value >> 5), entry[2])
    }
}

/// The palette memory read through an index register.
pub open spec fn spec_palette_read(data: Palettes, index: Gpi) -> u8 {
    spec_palette_byte(
        data[index.index as int / 8][index.index as int / 2 % 4],
        index.index % 2 == 1,
    )
}

/// The palette memory after a data write through an index register.
pub open spec fn spec_palette_write(data: Palettes, index: Gpi, value: u8) -> Palettes {
    let p = index.index as int / 8;
    let c = index.index as int / 2 % 4;
    spec_array_update(
        data,
        p,
        spec_array_update(data[p], c, spec_palette_store(data[p][c], index.index % 2 == 1, value)),
    )
}

pub fn palette_read(data: &Palettes, index: &Gpi) -> (r: u8)
    requires
        index.wf(),
    ensures
        r == spec_palette_read(*data, *index),
{
    let p: usize = (index.index / 8) as usize;
    let c: usize = (index.index / 2 % 4) as usize;
    let entry: [u8; 3] = data[p][c];
    if index.index % 2 == 1 {
        (entry[1] >> 3) | (entry[2] << 2)
    } else {
        entry[0] | (entry[1] << 5)
    }
}

pub fn palette_write(data: &mut Palettes, index: &Gpi, value: u8)
    requires
        index.wf(),
    ensures
        *final(data) == spec_palette_write(*old(data), *index, value),
{
    let p: usize = (index.index / 8) as usize;
    let c: usize = (index.index / 2 % 4) as usize;
    let entry: [u8; 3] = data[p][c];
    let stored: [u8; 3] = if index.index % 2 == 1 {
        rgb(entry[0], (entry[1] & 0x07) | ((value & 0x03) << 3), (value >> 2) & 0x1F)
    } else {
        rgb(value & 0x1F, (entry[1] & 0x18) | (value >> 5), entry[2])
    };
    let mut row: [[u8; 3]; 4] = data[p];
    row[c] = stored;
    assert(row =~= spec_array_update(old(data)[p as int], c as int, stored));
    data[p] = row;
    assert(*data =~= spec_palette_write(*old(data), *index, value));
}

impl GPU {
    pub open spec fn spec_lcd_on(self) -> bool {
        self.lcdc.spec_bit(7)
    }

    pub open spec fn spec_is_cgb(self) -> bool {
        self.hardware == Hardware::CGB
    }

    /// What holds of the pipeline at all times: the scanline is one of the
    /// 154 of a frame, the mode one of four, the dot counter within a line;
    /// in the lines of the vertical blank the mode is 1, and elsewhere it is 1
    /// only on scanline 0, where a write to LY can leave it; with the display
    /// off, scanline and mode are zero; and the bank and index registers are
    /// within their ranges.
    pub open spec fn inv(self) -> bool {
        &&& self.current_line < FRAME_LINES
        &&& self.stat.mode <= 3
        &&& self.scanline_counter < LINE_DOTS
        &&& (self.current_line >= SCREEN_LINES ==> self.stat.mode == 1)
        &&& (self.stat.mode == 1 ==> self.current_line >= SCREEN_LINES || self.current_line == 0)
        &&& (!self.spec_lcd_on() ==> self.current_line == 0 && self.stat.mode == 0)
        &&& self.vram_bank <= 1
        &&& self.bgpi.wf()
        &&& self.obpi.wf()
    }

    /// The byte at `index` of the 16 KiB of video RAM, both banks in a row.
    pub open spec fn spec_vram_at(self, index: int) -> u8 {
        if 0 <= index < VRAM_SIZE {
            self.vram[index]
        } else {
            0
        }
    }

    /// What a read of video RAM at `address` returns, through the bank
    /// selected; zero outside the video RAM window.
    pub open spec fn spec_read_vram(self, address: usize) -> u8 {
        if VRAM_BEGIN <= address <= VRAM_END {
            self.spec_vram_at(self.vram_bank % 2 * 0x2000 + address - VRAM_BEGIN)
        } else {
            0
        }
    }

    /// The pipeline after a write to video RAM; outside the window nothing
    /// changes.
    pub open spec fn spec_write_vram(self, address: usize, value: u8) -> GPU {
        if VRAM_BEGIN <= address <= VRAM_END {
            GPU {
                vram: Box::new(
                    spec_array_update(
                        *self.vram,
                        self.vram_bank % 2 * 0x2000 + address - VRAM_BEGIN,
                        value,
                    ),
                ),
                ..self
            }
        } else {
            self
        }
    }

    /// The pipeline with one byte of the sprite table replaced.
    pub open spec fn spec_write_oam(self, index: int, value: u8) -> GPU {
        if 0 <= index < 0xA0 {
            GPU { oam: spec_array_update(self.oam, index, value), ..self }
        } else {
            self
        }
    }

    /// The pipeline with the pixel at row `line`, column `x` replaced.
    pub open spec fn spec_set_pixel(self, line: int, x: int, color: [u8; 3]) -> GPU {
        GPU {
            screen_data: Box::new(
                spec_array_update(
                    *self.screen_data,
                    line,
                    spec_array_update(self.screen_data[line], x, color),
                ),
            ),
            ..self
        }
    }

    /// The pipeline with the priority buffer's entry for column `x` replaced.
    pub open spec fn spec_set_priority(self, x: int, entry: (bool, u8)) -> GPU {
        GPU { priority: spec_array_update(self.priority, x, entry), ..self }
    }

    /// STAT as it reads: the four enables in bits 6 to 3, the comparison of
    /// the scanline with LYC in bit 2, the mode below.
    pub open spec fn spec_stat(self) -> u8 {
        ((if self.stat.enable_ly_interrupt { 0x40int } else { 0 })
            + (if self.stat.enable_m2_interrupt { 0x20int } else { 0 })
            + (if self.stat.enable_m1_interrupt { 0x10int } else { 0 })
            + (if self.stat.enable_m0_interrupt { 0x08int } else { 0 })
            + (if self.current_line == self.lyc { 0x04int } else { 0 })
            + self.stat.mode % 4) as u8
    }

    /// What a read of a register returns; zero where there is no register.
    pub open spec fn spec_read_registers(self, address: usize) -> u8 {
        if address == 0xFF40 {
            self.lcdc.data
        } else if address == 0xFF41 {
            self.spec_stat()
        } else if address == 0xFF42 {
            self.scroll_y
        } else if address == 0xFF43 {
            self.scroll_x
        } else if address == 0xFF44 {
            self.current_line
        } else if address == 0xFF45 {
            self.lyc
        } else if address == 0xFF47 {
            self.bg_palette
        } else if address == 0xFF48 {
            self.obp0_palette
        } else if address == 0xFF49 {
            self.obp1_palette
        } else if address == 0xFF4A {
            self.window_y
        } else if address == 0xFF4B {
            self.window_x
        } else if address == 0xFF4F {
            (0xFE + self.vram_bank % 2) as u8
        } else if address == 0xFF68 {
            self.bgpi.spec_read()
        } else if address == 0xFF69 {
            spec_palette_read(self.bgpd, self.bgpi)
        } else if address == 0xFF6A {
            self.obpi.spec_read()
        } else if address == 0xFF6B {
            spec_palette_read(self.obpd, self.obpi)
        } else {
            0
        }
    }

    /// A picture that is white all over.
    pub open spec fn spec_blank_screen() -> Screen {
        spec_array_fill_for_copy_type(spec_array_fill_for_copy_type(spec_array_fill_for_copy_type(0xFFu8)))
    }

    /// The pipeline after a write to LCDC. Clearing bit 7 turns the display
    /// off: scanline, dot counter and mode go to zero, the picture to white,
    /// and the host is told to draw it.
    pub open spec fn spec_write_lcdc(self, value: u8) -> GPU {
        if value >= 0x80 {
            GPU { lcdc: Lcdc { data: value }, ..self }
        } else {
            GPU {
                lcdc: Lcdc { data: value },
                scanline_counter: 0,
                current_line: 0,
                stat: Stat { mode: 0, ..self.stat },
                screen_data: Box::new(Self::spec_blank_screen()),
                vblank: true,
                ..self
            }
        }
    }

    /// The pipeline after a write to a register; a write where there is no
    /// register changes nothing. A write to LY sets it to zero; a write to
    /// STAT sets the four enables only.
    pub open spec fn spec_write_registers(self, address: usize, value: u8) -> GPU {
        if address == 0xFF40 {
            self.spec_write_lcdc(value)
        } else if address == 0xFF41 {
            GPU {
                stat: Stat {
                    enable_ly_interrupt: spec_bit(value, 6),
                    enable_m2_interrupt: spec_bit(value, 5),
                    enable_m1_interrupt: spec_bit(value, 4),
                    enable_m0_interrupt: spec_bit(value, 3),
                    mode: self.stat.mode,
                },
                ..self
            }
        } else if address == 0xFF42 {
            GPU { scroll_y: value, ..self }
        } else if address == 0xFF43 {
            GPU { scroll_x: value, ..self }
        } else if address == 0xFF44 {
            GPU { current_line: 0, ..self }
        } else if address == 0xFF45 {
            GPU { lyc: value, ..self }
        } else if address == 0xFF47 {
            GPU { bg_palette: value, ..self }
        } else if address == 0xFF48 {
            GPU { obp0_palette: value, ..self }
        } else if address == 0xFF49 {
            GPU { obp1_palette: value, ..self }
        } else if address == 0xFF4A {
            GPU { window_y: value, ..self }
        } else if address == 0xFF4B {
            GPU { window_x: value, ..self }
        } else if address == 0xFF4F {
            GPU { vram_bank: value % 2, ..self }
        } else if address == 0xFF68 {
            GPU { bgpi: self.bgpi.spec_write(value), ..self }
        } else if address == 0xFF69 {
            GPU {
                bgpd: spec_palette_write(self.bgpd, self.bgpi, value),
                bgpi: self.bgpi.spec_step(),
                ..self
            }
        } else if address == 0xFF6A {
            GPU { obpi: self.obpi.spec_write(value), ..self }
        } else if address == 0xFF6B {
            GPU {
                obpd: spec_palette_write(self.obpd, self.obpi, value),
                obpi: self.obpi.spec_step(),
                ..self
            }
        } else {
            self
        }
    }

    /// Tells whether the pipeline is in order.
    pub fn is_valid(&self) -> (r: bool)
        ensures
            r == self.inv(),
    {
        self.current_line < FRAME_LINES && self.stat.mode <= 3 && self.scanline_counter
            < LINE_DOTS && (self.current_line < SCREEN_LINES || self.stat.mode == 1) && (
        self.stat.mode != 1 || self.current_line >= SCREEN_LINES || self.current_line == 0) && (
        self.lcdc.bit7() || (self.current_line == 0 && self.stat.mode == 0)) && self.vram_bank
            <= 1 && self.bgpi.index < 0x40 && self.obpi.index < 0x40
    }

    /// Whether the pipeline is as at power-on: display off, everything zero,
    /// the picture white, and every column's background entry marked as
    /// having priority.
    pub open spec fn spec_power_on(self) -> bool {
        &&& self.lcdc.data == 0
        &&& self.stat == (Stat {
            enable_ly_interrupt: false,
            enable_m2_interrupt: false,
            enable_m1_interrupt: false,
            enable_m0_interrupt: false,
            mode: 0,
        })
        &&& self.current_line == 0
        &&& self.scanline_counter == 0
        &&& self.lyc == 0 && self.window_x == 0 && self.window_y == 0
        &&& self.scroll_x == 0 && self.scroll_y == 0
        &&& self.bg_palette == 0 && self.obp0_palette == 0 && self.obp1_palette == 0
        &&& !self.vblank && !self.hblank
        &&& self.hardware == Hardware::DMG
        &&& self.bgpi == (Gpi { index: 0, auto_increment: false })
        &&& self.obpi == (Gpi { index: 0, auto_increment: false })
        &&& self.vram_bank == 0
        &&& forall|i: int| 0 <= i < VRAM_SIZE ==> self.vram[i] == 0
        &&& forall|i: int| 0 <= i < 0xA0 ==> self.oam[i] == 0
        &&& forall|i: int| 0 <= i < 160 ==> self.priority[i] == (true, 0u8)
        &&& *self.screen_data == Self::spec_blank_screen()
        &&& forall|p: int, c: int, k: int|
            0 <= p < 8 && 0 <= c < 4 && 0 <= k < 3 ==> self.bgpd[p][c][k] == 0
                && self.obpd[p][c][k] == 0
    }

    /// The pipeline at power-on.
    pub fn new() -> (r: GPU)
        ensures
            r.spec_power_on(),
            r.inv(),
            !r.spec_lcd_on(),
    {
        GPU {
            screen_data: Box::new([[[0xFFu8; 3]; 160]; 144]),
            vram: Box::new([0u8; 0x4000]),
            oam: [0u8; 0xA0],
            stat: Stat {
                enable_ly_interrupt: false,
                enable_m2_interrupt: false,
                enable_m1_interrupt: false,
                enable_m0_interrupt: false,
                mode: 0,
            },
            priority: [(true, 0u8); 160],
            bg_palette: 0,
            obp0_palette: 0,
            obp1_palette: 0,
            lcdc: Lcdc { data: 0 },
            scroll_x: 0,
            scroll_y: 0,
            lyc: 0,
            window_x: 0,
            window_y: 0,
            current_line: 0,
            scanline_counter: 0,
            vblank: false,
            hblank: false,
            hardware: Hardware::DMG,
            bgpi: Gpi::new(),
            bgpd: [[[0u8; 3]; 4]; 8],
            obpi: Gpi::new(),
            obpd: [[[0u8; 3]; 4]; 8],
            vram_bank: 0,
        }
    }

    pub fn is_cgb(&self) -> (r: bool)
        ensures
            r == self.spec_is_cgb(),
    {
        match self.hardware {
            Hardware::CGB => true,
            Hardware::DMG => false,
        }
    }

    /// The byte at `index` of video RAM, both banks in a row.
    pub fn vram_at(&self, index: usize) -> (r: u8)
        ensures
            r == self.spec_vram_at(index as int),
    {
        if index < VRAM_SIZE {
            self.vram[index]
        } else {
            0x00
        }
    }

    pub fn read_vram(&self, address: usize) -> (r: u8)
        ensures
            r == self.spec_read_vram(address),
    {
        if VRAM_BEGIN <= address && address <= VRAM_END {
            self.vram_at((self.vram_bank % 2) as usize * 0x2000 + address - VRAM_BEGIN)
        } else {
            0x00
        }
    }

    pub fn write_vram(&mut self, address: usize, value: u8)
        ensures
            *final(self) == old(self).spec_write_vram(address, value),
            old(self).inv() ==> final(self).inv(),
    {
        if VRAM_BEGIN <= address && address <= VRAM_END {
            let index: usize = (self.vram_bank % 2) as usize * 0x2000 + address - VRAM_BEGIN;
            self.vram[index] = value;
            assert(*self.vram =~= spec_array_update(*old(self).vram, index as int, value));
        }
    }

    /// Replaces one byte of the sprite table.
    pub fn write_oam(&mut self, index: usize, value: u8)
        ensures
            *final(self) == old(self).spec_write_oam(index as int, value),
            old(self).inv() ==> final(self).inv(),
    {
        if index < 0xA0 {
            self.oam[index] = value;
            assert(self.oam =~= spec_array_update(old(self).oam, index as int, value));
        }
    }

    /// Replaces one pixel of the picture.
    pub fn set_pixel(&mut self, line: usize, x: usize, color: [u8; 3])
        requires
            line < 144,
            x < 160,
        ensures
            *final(self) == old(self).spec_set_pixel(line as int, x as int, color),
    {
        self.screen_data[line][x] = color;
        assert(self.screen_data[line as int] =~= spec_array_update(
            old(self).screen_data[line as int],
            x as int,
            color,
        ));
        assert(*self.screen_data =~= spec_array_update(
            *old(self).screen_data,
            line as int,
            spec_array_update(old(self).screen_data[line as int], x as int, color),
        ));
    }

    /// Replaces one entry of the priority buffer.
    pub fn set_priority(&mut self, x: usize, entry: (bool, u8))
        requires
            x < 160,
        ensures
            *final(self) == old(self).spec_set_priority(x as int, entry),
    {
        self.priority[x] = entry;
        assert(self.priority =~= spec_array_update(old(self).priority, x as int, entry));
    }

    /// Stores the screen colour of a colour-machine palette entry at column
    /// `pixel` of the current scanline.
    pub fn set_color_cgb(&mut self, pixel: usize, r: u8, g: u8, b: u8)
        requires
            old(self).current_line < SCREEN_LINES,
            pixel < 160,
        ensures
            *final(self) == old(self).spec_set_pixel(
                old(self).current_line as int,
                pixel as int,
                spec_mix(r, g, b),
            ),
    {
        let color: [u8; 3] = mix(r, g, b);
        self.set_pixel(self.current_line as usize, pixel, color);
    }

    pub fn read_registers(&self, address: usize) -> (r: u8)
        requires
            self.inv(),
        ensures
            r == self.spec_read_registers(address),
    {
        match address {
            0xFF40 => self.lcdc.data,
            0xFF41 => {
                let bit6: u8 = if self.stat.enable_ly_interrupt { 0x40 } else { 0x00 };
                let bit5: u8 = if self.stat.enable_m2_interrupt { 0x20 } else { 0x00 };
                let bit4: u8 = if self.stat.enable_m1_interrupt { 0x10 } else { 0x00 };
                let bit3: u8 = if self.stat.enable_m0_interrupt { 0x08 } else { 0x00 };
                let bit2: u8 = if self.current_line == self.lyc { 0x04 } else { 0x00 };
                bit6 + bit5 + bit4 + bit3 + bit2 + self.stat.mode % 4
            },
            0xFF42 => self.scroll_y,
            0xFF43 => self.scroll_x,
            0xFF44 => self.current_line,
            0xFF45 => self.lyc,
            0xFF47 => self.bg_palette,
            0xFF48 => self.obp0_palette,
            0xFF49 => self.obp1_palette,
            0xFF4A => self.window_y,
            0xFF4B => self.window_x,
            0xFF4F => 0xFE + self.vram_bank % 2,
            0xFF68 => self.bgpi.read(),
            0xFF69 => palette_read(&self.bgpd, &self.bgpi),
            0xFF6A => self.obpi.read(),
            0xFF6B => palette_read(&self.obpd, &self.obpi),
            _ => 0x00,
        }
    }

    pub fn write_registers(&mut self, address: usize, value: u8)
        requires
            old(self).inv(),
        ensures
            *final(self) == old(self).spec_write_registers(address, value),
            final(self).inv(),
    {
        match address {
            0xFF40 => {
                self.lcdc.data = value;
                if !self.lcdc.bit7() {
                    self.scanline_counter = 0;
                    self.current_line = 0;
                    self.stat.mode = 0;
                    self.screen_data = Box::new([[[0xFFu8; 3]; 160]; 144]);
                    self.vblank = true;
                }
            },
            0xFF41 => {
                self.stat.enable_ly_interrupt = bit(value, 6);
                self.stat.enable_m2_interrupt = bit(value, 5);
                self.stat.enable_m1_interrupt = bit(value, 4);
                self.stat.enable_m0_interrupt = bit(value, 3);
            },
            0xFF42 => self.scroll_y = value,
            0xFF43 => self.scroll_x = value,
            0xFF44 => self.current_line = 0,
            0xFF45 => self.lyc = value,
            0xFF47 => self.bg_palette = value,
            0xFF48 => self.obp0_palette = value,
            0xFF49 => self.obp1_palette = value,
            0xFF4A => self.window_y = value,
            0xFF4B => self.window_x = value,
            0xFF4F => self.vram_bank = value % 2,
            0xFF68 => self.bgpi.write(value),
            0xFF69 => {
                palette_write(&mut self.bgpd, &self.bgpi, value);
                self.bgpi.step();
            },
            0xFF6A => self.obpi.write(value),
            0xFF6B => {
                palette_write(&mut self.obpd, &self.obpi, value);
                self.obpi.step();
            },
            _ => {},
        }
    }
}

} // verus!
