//! Sprites of one scanline: selection from OAM (at most ten, in OAM order), drawing order by
//! X then OAM index, and per-pixel priority against the background.
use vstd::prelude::*;
use crate::bits::lemma_byte;
use crate::domain::bus::{Bus, BusView};
use crate::domain::framebuffer::FRAME_WIDTH;
use crate::domain::ppu::{Ppu, PpuView, Rgb, SpriteData, LINE_BYTES, PRIORITY_SIZE, MAX_SPRITES_PER_LINE, TILE_BYTES};
use crate::domain::ppu::background::{cgb_rgb, cgb_color_to_rgb, color_id, tile_color_id, dmg_shade, channel};

verus! {

/// OAM entry `i` as the PPU reads it through the bus (Y and X stored with offsets 16 and 8).
pub open spec fn sprite_entry(b: BusView, i: int) -> SpriteData {
    let base = 0xFE00 + i * 4;
    SpriteData {
        x: (b.read_spec((base + 1) as u16, 0) as int - 8) as i16,
        y: (b.read_spec(base as u16, 0) as int - 16) as i16,
        tile: b.read_spec((base + 2) as u16, 0),
        attr: b.read_spec((base + 3) as u16, 0),
        oam_index: i as usize,
    }
}

pub open spec fn on_line(s: SpriteData, line: u8, height: int) -> bool {
    s.y <= line < s.y + height
}

/// Drawing order: lower X first, then lower OAM index.
pub open spec fn sprite_before(a: SpriteData, b: SpriteData) -> bool {
    a.x < b.x || (a.x == b.x && a.oam_index < b.oam_index)
}

/// `s` (in drawing order) with `e` inserted after every entry that comes before it.
pub open spec fn insert_sorted(s: Seq<SpriteData>, e: SpriteData) -> Seq<SpriteData>
    decreases s.len(),
{
    if s.len() == 0 {
        seq![e]
    } else if sprite_before(e, s.last()) {
        insert_sorted(s.drop_last(), e).push(s.last())
    } else {
        s.push(e)
    }
}

/// The sprites of `line` among the first `n` OAM entries, at most ten (the first in OAM
/// order), in drawing order.
pub open spec fn line_sprites(b: BusView, line: u8, height: int, n: int) -> Seq<SpriteData>
    decreases n,
{
    if n <= 0 {
        Seq::empty()
    } else {
        let prev = line_sprites(b, line, height, n - 1);
        let e = sprite_entry(b, n - 1);
        if prev.len() >= MAX_SPRITES_PER_LINE { prev } else if on_line(e, line, height) { insert_sorted(prev, e) } else { prev }
    }
}

pub proof fn lemma_insert_sorted_len(s: Seq<SpriteData>, e: SpriteData)
    ensures insert_sorted(s, e).len() == s.len() + 1,
    decreases s.len(),
{
    if s.len() > 0 && sprite_before(e, s.last()) {
        lemma_insert_sorted_len(s.drop_last(), e);
    }
}

pub proof fn lemma_line_sprites_len(b: BusView, line: u8, height: int, n: int)
    ensures line_sprites(b, line, height, n).len() <= MAX_SPRITES_PER_LINE,
    decreases n,
{
    if n > 0 {
        lemma_line_sprites_len(b, line, height, n - 1);
        lemma_insert_sorted_len(line_sprites(b, line, height, n - 1), sprite_entry(b, n - 1));
    }
}

/// Inserting at a position `p` after which every entry comes after `e`, and before which
/// the last entry does not, is `insert_sorted`.
pub proof fn lemma_insert_at(s: Seq<SpriteData>, e: SpriteData, p: int)
    requires
        0 <= p <= s.len(),
        forall|j: int| p <= j < s.len() ==> sprite_before(e, #[trigger] s[j]),
        p > 0 ==> !sprite_before(e, s[p - 1]),
    ensures
        insert_sorted(s, e) == s.insert(p, e),
    decreases s.len(),
{
    if s.len() == 0 {
        assert(s.insert(p, e) =~= seq![e]);
    } else if p == s.len() {
        assert(s.insert(p, e) =~= s.push(e));
    } else {
        let t = s.drop_last();
        assert forall|j: int| p <= j < t.len() implies sprite_before(e, #[trigger] t[j]) by {
            assert(t[j] == s[j]);
        }
        lemma_insert_at(t, e, p);
        assert(s.insert(p, e) =~= t.insert(p, e).push(s.last()));
    }
}

/// Color of pixel column `col` (0-7, left to right) of sprite `s` on `line`, or `None` where
/// the sprite is transparent, off-screen, or hidden behind a non-zero background pixel.
pub open spec fn sprite_pixel(b: BusView, pal: [[u8; 3]; 4], prio: Seq<u8>, line: u8, height: int, s: SpriteData, col: int) -> Option<Rgb> {
    let sl = line - s.y;
    let sx = s.x + col;
    if sl < 0 || sl >= height || sx < 0 || sx >= FRAME_WIDTH {
        None
    } else {
        let y_flip = s.attr & 0x40 != 0;
        let x_flip = s.attr & 0x20 != 0;
        let row0 = if y_flip { height - 1 - sl } else { sl };
        let tile0 = s.tile as int;
        let (tile, row) = if height == 16 {
            let t = (s.tile & 0xFE) as int;
            if row0 >= 8 { (t + 1, row0 - 8) } else { (t, row0) }
        } else {
            (tile0, row0)
        };
        let addr = tile * 16 + row * 2;
        let vram = if b.cgb_mode && (s.attr >> 3u8) & 1 == 1 { b.vram1 } else { b.vram0 };
        let bit = if x_flip { col } else { 7 - col };
        let cid = color_id(vram[addr], vram[addr + 1], bit as u8);
        let info = prio[line as int * FRAME_WIDTH + sx];
        let bg_cid = info & 0x03;
        let bg_over = info & 0x80 != 0;
        let above = s.attr & 0x80 != 0;
        let behind = if b.cgb_mode { (above || bg_over) && bg_cid != 0 } else { above && bg_cid != 0 };
        if cid == 0 || behind {
            None
        } else if b.cgb_mode {
            let off = (s.attr & 7) as int * 8 + cid as int * 2;
            Some(cgb_rgb(b.ob_palette_data[off], b.ob_palette_data[off + 1]))
        } else {
            let obp = if s.attr & 0x10 != 0 { b.io[0x49] } else { b.io[0x48] };
            let shade = dmg_shade(obp, cid);
            Some((pal[shade as int][0], pal[shade as int][1], pal[shade as int][2]))
        }
    }
}

/// The line buffer after drawing columns `0..cols` of sprite `s` over `lb`.
pub open spec fn draw_sprite_cols(b: BusView, pal: [[u8; 3]; 4], prio: Seq<u8>, line: u8, height: int, s: SpriteData, lb: Seq<u8>, cols: int) -> Seq<u8> {
    Seq::new(lb.len(), |i: int| {
        let col = i / 3 - s.x;
        if 0 <= col < cols && sprite_pixel(b, pal, prio, line, height, s, col) is Some {
            channel(sprite_pixel(b, pal, prio, line, height, s, col)->Some_0, i % 3)
        } else {
            lb[i]
        }
    })
}

/// The line buffer after drawing the last `k` sprites of `ss`, last first (so that earlier
/// sprites end up on top).
pub open spec fn draw_sprites(b: BusView, pal: [[u8; 3]; 4], prio: Seq<u8>, line: u8, height: int, ss: Seq<SpriteData>, lb: Seq<u8>, k: int) -> Seq<u8>
    decreases k,
{
    if k <= 0 || k > ss.len() {
        lb
    } else {
        let before = draw_sprites(b, pal, prio, line, height, ss, lb, k - 1);
        draw_sprite_cols(b, pal, prio, line, height, ss[ss.len() - k], before, 8)
    }
}

impl Ppu {

    /// `sprite_pixel` computed.
    fn sprite_pixel(&self, bus: &Bus, obp0: u8, obp1: u8, line: u8, sprite_height: usize, s: SpriteData, col: usize) -> (r: Option<Rgb>)
        requires
            bus@.wf(),
            self@.wf(),
            line < 144,
            sprite_height == 8 || sprite_height == 16,
            col < 8,
            obp0 == bus@.io[0x48],
            obp1 == bus@.io[0x49],
        ensures
            r == sprite_pixel(bus@, self.palette, self.bg_priority@, line, sprite_height as int, s, col as int),
    {
        let h: i32 = if sprite_height == 16 { 16 } else { 8 };
        let sprite_line: i32 = line as i32 - s.y as i32;
        if sprite_line < 0 || sprite_line >= h {
            return None;
        }
        let screen_x: i32 = s.x as i32 + col as i32;
        if screen_x < 0 || screen_x >= 160 {
            return None;
        }
        let y_flip = s.attr & 0x40 != 0;
        let x_flip = s.attr & 0x20 != 0;
        let mut tile_row: usize = if y_flip { sprite_height - 1 - sprite_line as usize } else { sprite_line as usize };
        let mut tile_index: usize = s.tile as usize;
        if sprite_height == 16 {
            tile_index = (s.tile & 0xFE) as usize;
            if tile_row >= 8 {
                tile_index += 1;
                tile_row -= 8;
            }
        }
        let row_addr = tile_index * TILE_BYTES + tile_row * 2;
        let (lo, hi) = if bus.cgb_mode && (s.attr >> 3) & 0x01 == 1 {
            (bus.vram1[row_addr], bus.vram1[row_addr + 1])
        } else {
            (bus.vram0[row_addr], bus.vram0[row_addr + 1])
        };
        let bit: u8 = if x_flip { col as u8 } else { 7 - col as u8 };
        let color_id = tile_color_id(lo, hi, bit);
        let info = self.bg_priority[(line as usize) * FRAME_WIDTH + screen_x as usize];
        let bg_color_id = info & 0x03;
        let bg_to_oam_priority = (info & 0x80) != 0;
        let priority = s.attr & 0x80 != 0;
        let behind = if bus.cgb_mode {
            (priority || bg_to_oam_priority) && bg_color_id != 0
        } else {
            priority && bg_color_id != 0
        };
        if color_id == 0 || behind {
            return None;
        }
        if bus.cgb_mode {
            let a = s.attr;
            proof { lemma_byte(a); }
            let palette_offset = ((s.attr & 0x07) as usize) * 8 + (color_id as usize) * 2;
            Some(cgb_color_to_rgb(bus.ob_palette_data[palette_offset], bus.ob_palette_data[palette_offset + 1]))
        } else {
            let obp = if s.attr & 0x10 != 0 { obp1 } else { obp0 };
            let sh: u8 = color_id * 2;
            let shifted = obp >> sh;
            proof { lemma_byte(shifted); }
            let shade = shifted & 0x03;
            let c = self.palette[shade as usize];
            Some((c[0], c[1], c[2]))
        }
    }

    /// Draws the eight columns of sprite `s` into the line buffer.
    fn draw_sprite(&mut self, bus: &Bus, obp0: u8, obp1: u8, line: u8, sprite_height: usize, s: SpriteData)
        requires
            bus@.wf(),
            old(self)@.wf(),
            line < 144,
            sprite_height == 8 || sprite_height == 16,
            obp0 == bus@.io[0x48],
            obp1 == bus@.io[0x49],
        ensures
            final(self)@ == (PpuView {
                line_buffer: draw_sprite_cols(bus@, old(self).palette, old(self).bg_priority@, line,
                    sprite_height as int, s, old(self).line_buffer@, 8),
                ..old(self)@
            }),
            final(self)@.wf(),
    {
        let ghost lb0 = self.line_buffer@;
        assert(lb0 =~= draw_sprite_cols(bus@, old(self).palette, old(self).bg_priority@, line,
            sprite_height as int, s, lb0, 0));
        let mut col: usize = 0;
        while col < 8
            invariant
                col <= 8,
                bus@.wf(),
                self@.wf(),
                line < 144,
                sprite_height == 8 || sprite_height == 16,
                obp0 == bus@.io[0x48],
                obp1 == bus@.io[0x49],
                self@ == (PpuView {
                    line_buffer: draw_sprite_cols(bus@, old(self).palette, old(self).bg_priority@, line,
                        sprite_height as int, s, lb0, col as int),
                    ..old(self)@
                }),
            decreases 8 - col,
        {
            let px = self.sprite_pixel(bus, obp0, obp1, line, sprite_height, s, col);
            let ghost before = self.line_buffer@;
            if let Some(c) = px {
                let idx = ((s.x as i32 + col as i32) as usize) * 3;
                self.line_buffer.set(idx, c.0);
                self.line_buffer.set(idx + 1, c.1);
                self.line_buffer.set(idx + 2, c.2);
            }
            assert(self.line_buffer@ =~= draw_sprite_cols(bus@, old(self).palette, old(self).bg_priority@, line,
                sprite_height as int, s, lb0, col + 1));
            col = col + 1;
        }
    }

    /// Draws the line's sprites, the last in drawing order first.
    pub fn render_line_sprites(&mut self, bus: &Bus, line: u8, sprite_height: usize)
        requires
            bus@.wf(),
            old(self)@.wf(),
            line < 144,
            sprite_height == 8 || sprite_height == 16,
        ensures
            final(self)@ == (PpuView {
                line_buffer: draw_sprites(bus@, old(self).palette, old(self).bg_priority@, line, sprite_height as int,
                    old(self).line_sprites@, old(self).line_buffer@, old(self).line_sprites@.len() as int),
                ..old(self)@
            }),
            final(self)@.wf(),
    {
        let obp0 = crate::domain::ppu::background::lcd_reg(bus, 0xFF48);
        let obp1 = crate::domain::ppu::background::lcd_reg(bus, 0xFF49);
        let n = self.line_sprites.len();
        let mut k: usize = 0;
        while k < n
            invariant
                k <= n,
                n == old(self).line_sprites@.len(),
                bus@.wf(),
                self@.wf(),
                line < 144,
                sprite_height == 8 || sprite_height == 16,
                obp0 == bus@.io[0x48],
                obp1 == bus@.io[0x49],
                self@ == (PpuView {
                    line_buffer: draw_sprites(bus@, old(self).palette, old(self).bg_priority@, line, sprite_height as int,
                        old(self).line_sprites@, old(self).line_buffer@, k as int),
                    ..old(self)@
                }),
            decreases n - k,
        {
            let sprite = self.line_sprites[n - 1 - k];
            self.draw_sprite(bus, obp0, obp1, line, sprite_height, sprite);
            k = k + 1;
        }
    }
    /// Collects the sprites of `line` (at most ten, scanning OAM in order) in drawing order.
    pub fn find_line_sprites(&mut self, bus: &Bus, line: u8, sprite_height: usize)
        requires
            bus@.wf(),
            sprite_height == 8 || sprite_height == 16,
        ensures
            final(self)@ == (PpuView { line_sprites: line_sprites(bus@, line, sprite_height as int, 40), ..old(self)@ }),
    {
        self.line_sprites.clear();
        let line_i16 = line as i16;
        let h: i16 = if sprite_height == 16 { 16 } else { 8 };
        let mut i: usize = 0;
        while i < 40
            invariant
                i <= 40,
                sprite_height == 8 || sprite_height == 16,
                h == sprite_height,
                line_i16 == line,
                bus@.wf(),
                self@ == (PpuView { line_sprites: line_sprites(bus@, line, sprite_height as int, i as int), ..old(self)@ }),
            decreases 40 - i,
        {
            proof { lemma_line_sprites_len(bus@, line, sprite_height as int, i as int); }
            if self.line_sprites.len() >= MAX_SPRITES_PER_LINE {
                i = i + 1;
                continue;
            }
            let base = 0xFE00u16 + (i * 4) as u16;
            let y = bus.read8(base) as i16 - 16;
            let x = bus.read8(base + 1) as i16 - 8;
            let tile = bus.read8(base + 2);
            let attr = bus.read8(base + 3);
            let e = SpriteData { x, y, tile, attr, oam_index: i };
            assert(e == sprite_entry(bus@, i as int));
            if line_i16 >= y && line_i16 < y + h {
                let ghost s0 = self.line_sprites@;
                assert(on_line(e, line, sprite_height as int));
                let mut p = self.line_sprites.len();
                while p > 0 && (e.x < self.line_sprites[p - 1].x
                    || (e.x == self.line_sprites[p - 1].x && e.oam_index < self.line_sprites[p - 1].oam_index))
                    invariant
                        p <= s0.len(),
                        self.line_sprites@ == s0,
                        forall|j: int| p <= j < s0.len() ==> sprite_before(e, #[trigger] s0[j]),
                        on_line(e, line, sprite_height as int),
                        e == sprite_entry(bus@, i as int),
                        s0 == line_sprites(bus@, line, sprite_height as int, i as int),
                        s0.len() < MAX_SPRITES_PER_LINE,
                        self@ == (PpuView { line_sprites: s0, ..old(self)@ }),
                    decreases p,
                {
                    p = p - 1;
                }
                proof { lemma_insert_at(s0, e, p as int); }
                self.line_sprites.insert(p, e);
            } else {
                assert(!on_line(e, line, sprite_height as int));
            }
            assert(self.line_sprites@ == line_sprites(bus@, line, sprite_height as int, i + 1));
            i = i + 1;
        }
    }
}

} // verus!
