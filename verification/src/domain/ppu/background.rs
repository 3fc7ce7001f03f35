//! Background and window pixels of one scanline.
use vstd::prelude::*;
use crate::bits::{lemma_byte, lemma_join_word};
use crate::domain::bus::{Bus, BusView};
use crate::domain::bus::constants::{REG_LCDC, REG_SCY, REG_SCX, REG_BGP, REG_OBP0, REG_OBP1, REG_WY, REG_WX};
use crate::domain::framebuffer::FRAME_WIDTH;
use crate::domain::ppu::{Ppu, Rgb, LINE_BYTES, TILE_BYTES};

verus! {

/// The plain LCD registers read through the bus (they have no side effects and do not
/// depend on the cartridge).
pub open spec fn is_lcd_reg(addr: u16) -> bool {
    addr == REG_LCDC || addr == REG_SCY || addr == REG_SCX || addr == REG_BGP || addr == REG_OBP0
        || addr == REG_OBP1 || addr == REG_WY || addr == REG_WX
}

pub fn lcd_reg(bus: &Bus, addr: u16) -> (r: u8)
    requires
        bus@.wf(),
        is_lcd_reg(addr),
    ensures
        r == bus@.io[addr - 0xFF00],
{
    bus.read8(addr)
}

/// A CGB color (BGR555, little-endian bytes) as RGB888 with 3-bit shifts.
pub open spec fn cgb_rgb(lo: u8, hi: u8) -> Rgb {
    let color = hi as int * 256 + lo as int;
    (((color % 32) * 8) as u8, (((color / 32) % 32) * 8) as u8, (((color / 1024) % 32) * 8) as u8)
}

pub fn cgb_color_to_rgb(color_low: u8, color_high: u8) -> (r: Rgb)
    ensures r == cgb_rgb(color_low, color_high),
{
    let color = ((color_high as u16) << 8) | (color_low as u16);
    proof { lemma_join_word(color_high as u16, color_low as u16); }
    assert((((color & 0x001F) as u8) << 3u8) as int == (color % 32) * 8
        && ((((color & 0x03E0) >> 5u16) as u8) << 3u8) as int == ((color / 32) % 32) * 8
        && ((((color & 0x7C00) >> 10u16) as u8) << 3u8) as int == ((color / 1024) % 32) * 8) by (bit_vector);
    let r = ((color & 0x001F) as u8) << 3;
    let g = (((color & 0x03E0) >> 5) as u8) << 3;
    let b = (((color & 0x7C00) >> 10) as u8) << 3;
    (r, g, b)
}

/// The 2-bit color number of bit `bit` (7 = leftmost pixel) of the tile row `lo`/`hi`.
pub open spec fn color_id(lo: u8, hi: u8, bit: u8) -> u8 {
    (((hi >> bit) & 1) << 1u8) | ((lo >> bit) & 1)
}

pub fn tile_color_id(lo: u8, hi: u8, bit: u8) -> (r: u8)
    requires bit < 8,
    ensures r == color_id(lo, hi, bit), r < 4,
{
    assert((((hi >> bit) & 1) << 1u8) | ((lo >> bit) & 1) < 4) by (bit_vector);
    ((hi >> bit) & 1) << 1 | ((lo >> bit) & 1)
}

/// The DMG shade (0-3) that palette register `pal` gives color number `cid`.
pub open spec fn dmg_shade(pal: u8, cid: u8) -> u8 {
    (pal >> (cid * 2)) & 0x03
}

/// Everything the background/window of a line depends on.
pub struct BgParams {
    pub lcdc: u8,
    pub scx: u8,
    pub scy: u8,
    pub bgp: u8,
    pub wy: u8,
    pub wx: u8,
}

pub open spec fn bg_params(b: BusView) -> BgParams {
    BgParams { lcdc: b.io[0x40], scx: b.io[0x43], scy: b.io[0x42], bgp: b.io[0x47], wy: b.io[0x4A], wx: b.io[0x4B] }
}

/// Where pixel `x` of `line` comes from: (tile map base, tile x, tile y, pixel x in tile,
/// pixel y in tile). The window covers x + 7 >= WX on lines at or below WY when enabled
/// and WX <= 166; elsewhere the background scrolls by SCX/SCY and wraps at 256.
pub open spec fn bg_source(p: BgParams, line: u8, x: int) -> (int, int, int, int, int) {
    let window_active = p.lcdc & 0x20 != 0 && line >= p.wy && p.wx <= 166;
    if window_active && x + 7 >= p.wx {
        let wxp = x + 7 - p.wx;
        let wyp = line - p.wy;
        (if p.lcdc & 0x40 != 0 { 0x1C00int } else { 0x1800int }, (wxp / 8) % 32, (wyp / 8) % 32, wxp % 8, wyp % 8)
    } else {
        let mx = (x + p.scx) % 256;
        let my = (line + p.scy) % 256;
        (if p.lcdc & 0x08 != 0 { 0x1C00int } else { 0x1800int }, mx / 8, my / 8, mx % 8, my % 8)
    }
}

/// VRAM offset of tile `id` under LCDC bit 4 (unsigned from 0x0000, signed around 0x1000).
pub open spec fn tile_base(lcdc: u8, id: u8) -> int {
    if lcdc & 0x10 != 0 { id as int * 16 } else if id < 128 { 0x1000 + id as int * 16 } else { 0x1000 + (id as int - 256) * 16 }
}

/// Tile data addressing. With LCDC bit 4 set, tile `id` lies at `16 * id` (0x8000-0x8FFF);
/// with it clear the ids are signed around 0x9000, so tiles 0x80-0xFF lie at the very same
/// place in both modes (0x8800-0x8FFF) and tiles 0x00-0x7F lie 0x1000 further on in the
/// signed mode (0x9000-0x97FF). In either mode the 16 bytes of a tile stay inside the tile
/// data area, and two different tiles never overlap.
pub proof fn lemma_tile_addressing(signed: u8, unsigned: u8, id: u8, other: u8)
    requires
        signed & 0x10 == 0,
        unsigned & 0x10 != 0,
    ensures
        id >= 128 ==> tile_base(signed, id) == tile_base(unsigned, id),
        id < 128 ==> tile_base(signed, id) == tile_base(unsigned, id) + 0x1000,
        0 <= tile_base(unsigned, id) && tile_base(unsigned, id) + 16 <= 0x1000,
        0x0800 <= tile_base(signed, id) && tile_base(signed, id) + 16 <= 0x1800,
        id != other ==> tile_base(signed, id) + 16 <= tile_base(signed, other)
            || tile_base(signed, other) + 16 <= tile_base(signed, id),
        id != other ==> tile_base(unsigned, id) + 16 <= tile_base(unsigned, other)
            || tile_base(unsigned, other) + 16 <= tile_base(unsigned, id),
{
}

/// The color and the priority byte (color number, plus 0x80 for the CGB BG-over-OBJ bit)
/// of background/window pixel `x` on `line`.
pub open spec fn bg_pixel(b: BusView, pal: [[u8; 3]; 4], line: u8, x: int) -> (Rgb, u8) {
    let p = bg_params(b);
    let (base, tx, ty, lx, ly) = bg_source(p, line, x);
    let map_index = ty * 32 + tx;
    let tile_id = b.vram0[base + map_index];
    let attr: u8 = if b.cgb_mode { b.vram1[base + map_index] } else { 0 };
    let bank1 = (attr >> 3u8) & 1 == 1;
    let x_flip = (attr >> 5u8) & 1 != 0;
    let y_flip = (attr >> 6u8) & 1 != 0;
    let fy = if y_flip { 7 - ly } else { ly };
    let row = tile_base(p.lcdc, tile_id) + fy * 2;
    let vram = if bank1 { b.vram1 } else { b.vram0 };
    let bit = if x_flip { lx } else { 7 - lx };
    let cid = color_id(vram[row], vram[row + 1], bit as u8);
    (bg_color(b, pal, attr, cid), if (attr >> 7u8) & 1 != 0 { 0x80 | cid } else { cid })
}

/// Byte `k` (0 R, 1 G, 2 B) of a color.
pub open spec fn channel(c: Rgb, k: int) -> u8 {
    if k == 0 { c.0 } else if k == 1 { c.1 } else { c.2 }
}

/// The line buffer after background/window rendering of `line`.
pub open spec fn bg_line(b: BusView, pal: [[u8; 3]; 4], line: u8) -> Seq<u8> {
    Seq::new(LINE_BYTES as nat, |i: int| channel(bg_pixel(b, pal, line, i / 3).0, i % 3))
}

/// `bg_source` computed.
fn bg_source_exec(p: &BgParams, line: u8, x: usize) -> (r: (usize, usize, usize, usize, usize))
    requires
        x < FRAME_WIDTH,
    ensures
        (r.0 as int, r.1 as int, r.2 as int, r.3 as int, r.4 as int) == bg_source(*p, line, x as int),
        r.0 == 0x1800 || r.0 == 0x1C00,
        r.1 < 32 && r.2 < 32 && r.3 < 8 && r.4 < 8,
{
    let window_active = p.lcdc & 0x20 != 0 && line >= p.wy && p.wx <= 166;
    if window_active && x + 7 >= p.wx as usize {
        let win_x = x + 7 - p.wx as usize;
        let win_y = (line - p.wy) as usize;
        (if p.lcdc & 0x40 != 0 { 0x1C00 } else { 0x1800 }, (win_x / 8) % 32, (win_y / 8) % 32, win_x % 8, win_y % 8)
    } else {
        let map_x = (x as u8).wrapping_add(p.scx) as usize;
        let map_y = line.wrapping_add(p.scy) as usize;
        (if p.lcdc & 0x08 != 0 { 0x1C00 } else { 0x1800 }, map_x / 8, map_y / 8, map_x % 8, map_y % 8)
    }
}

/// `tile_base` computed.
fn tile_base_exec(lcdc: u8, id: u8) -> (r: usize)
    ensures
        r as int == tile_base(lcdc, id),
        r + 16 <= 0x1800,
{
    if lcdc & 0x10 != 0 {
        (id as usize) * TILE_BYTES
    } else if id < 128 {
        0x1000 + (id as usize) * TILE_BYTES
    } else {
        0x1000 - (256 - id as usize) * TILE_BYTES
    }
}

/// The color a background color number `cid` gets: from CGB palette `pal_num` in
/// `bg_palette_data`, or through BGP and the DMG shades.
pub open spec fn bg_color(b: BusView, pal: [[u8; 3]; 4], attr: u8, cid: u8) -> Rgb {
    if b.cgb_mode {
        let off = (attr & 7) as int * 8 + cid as int * 2;
        cgb_rgb(b.bg_palette_data[off], b.bg_palette_data[off + 1])
    } else {
        let shade = dmg_shade(bg_params(b).bgp, cid);
        (pal[shade as int][0], pal[shade as int][1], pal[shade as int][2])
    }
}

impl Ppu {
    fn bg_color(&self, bus: &Bus, bgp: u8, attr: u8, cid: u8) -> (r: Rgb)
        requires
            bus@.wf(),
            bgp == bg_params(bus@).bgp,
            cid < 4,
        ensures
            r == bg_color(bus@, self.palette, attr, cid),
    {
        if bus.cgb_mode {
            proof { lemma_byte(attr); }
            let palette_offset = ((attr & 0x07) as usize) * 8 + (cid as usize) * 2;
            cgb_color_to_rgb(bus.bg_palette_data[palette_offset], bus.bg_palette_data[palette_offset + 1])
        } else {
            let sh: u8 = cid * 2;
            let shifted = bgp >> sh;
            proof { lemma_byte(shifted); }
            let shade = shifted & 0x03;
            let c = self.palette[shade as usize];
            (c[0], c[1], c[2])
        }
    }

    /// Background/window pixel `x` of `line`, read through the bus.
    pub(crate) fn bg_pixel(&self, bus: &Bus, p: &BgParams, line: u8, x: usize) -> (r: (Rgb, u8))
        requires
            bus@.wf(),
            *p == bg_params(bus@),
            x < FRAME_WIDTH,
        ensures
            r == bg_pixel(bus@, self.palette, line, x as int),
    {
        let (base, tile_x, tile_y, line_x, line_y) = bg_source_exec(p, line, x);
        let map_index = tile_y * 32 + tile_x;
        let tile_id = bus.vram0[base + map_index];
        let tile_attr: u8 = if bus.cgb_mode { bus.vram1[base + map_index] } else { 0 };
        let vram_bank = (tile_attr >> 3) & 0x01;
        let x_flip = (tile_attr >> 5) & 0x01 != 0;
        let y_flip = (tile_attr >> 6) & 0x01 != 0;
        let bg_to_oam_priority = (tile_attr >> 7) & 0x01 != 0;
        let tile_offset = tile_base_exec(p.lcdc, tile_id);
        let flipped_line_y = if y_flip { 7 - line_y } else { line_y };
        let row = tile_offset + flipped_line_y * 2;
        let (lo, hi) = if vram_bank == 1 {
            (bus.vram1[row], bus.vram1[row + 1])
        } else {
            (bus.vram0[row], bus.vram0[row + 1])
        };
        let bit = if x_flip { line_x } else { 7 - line_x };
        let color_id = tile_color_id(lo, hi, bit as u8);
        let color = self.bg_color(bus, p.bgp, tile_attr, color_id);
        let priority_value = if bg_to_oam_priority { 0x80 | color_id } else { color_id };
        (color, priority_value)
    }
}

} // verus!
