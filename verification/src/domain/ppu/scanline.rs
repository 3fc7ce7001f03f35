//! Rendering one scanline: background or blank, then sprites, then the copy into the frame.
use vstd::prelude::*;
use crate::domain::bus::{Bus, BusView};
use crate::domain::framebuffer::{Framebuffer, FRAME_WIDTH};
use crate::domain::ppu::{Ppu, PpuView, LINE_BYTES};
use crate::domain::ppu::background::{BgParams, bg_params, bg_pixel, bg_line, channel, lcd_reg};
use crate::domain::ppu::sprites::{line_sprites, draw_sprites};

verus! {

/// `prio` with the 160 entries of `line` replaced by `row`.
pub open spec fn with_row(prio: Seq<u8>, line: u8, row: Seq<u8>) -> Seq<u8> {
    let start = line as int * FRAME_WIDTH;
    Seq::new(prio.len(), |i: int| if start <= i < start + FRAME_WIDTH { row[i - start] } else { prio[i] })
}

/// The priority bytes of the background/window pixels of `line`.
pub open spec fn bg_priority_row(b: BusView, pal: [[u8; 3]; 4], line: u8) -> Seq<u8> {
    Seq::new(FRAME_WIDTH as nat, |x: int| bg_pixel(b, pal, line, x).1)
}

/// A line filled with shade 0 of the palette (background disabled).
pub open spec fn blank_line(pal: [[u8; 3]; 4]) -> Seq<u8> {
    Seq::new(LINE_BYTES as nat, |i: int| pal[0][i % 3])
}

/// The frame `fb` with row `line` replaced by the line buffer `lb`.
pub open spec fn with_frame_row(fb: Seq<u8>, line: u8, lb: Seq<u8>) -> Seq<u8> {
    let start = line as int * LINE_BYTES;
    Seq::new(fb.len(), |i: int| if start <= i < start + LINE_BYTES { lb[i - start] } else { fb[i] })
}

/// The PPU state and frame after rendering `line`: background and window (or shade 0 when
/// LCDC bit 0 is clear), then, with LCDC bit 1 set, the line's sprites (8x16 with LCDC
/// bit 2), and the line buffer copied into the frame.
pub open spec fn scanline_spec(p: PpuView, b: BusView, fb: Seq<u8>, line: u8) -> (PpuView, Seq<u8>) {
    let lcdc = b.io[0x40];
    let height: int = if lcdc & 0x04 != 0 { 16 } else { 8 };
    let p1 = if lcdc & 0x01 != 0 {
        PpuView {
            line_buffer: bg_line(b, p.palette, line),
            bg_priority: with_row(p.bg_priority, line, bg_priority_row(b, p.palette, line)),
            ..p
        }
    } else {
        PpuView {
            line_buffer: blank_line(p.palette),
            bg_priority: with_row(p.bg_priority, line, Seq::new(FRAME_WIDTH as nat, |x: int| 0u8)),
            ..p
        }
    };
    let p2 = if lcdc & 0x02 != 0 {
        let ss = line_sprites(b, line, height, 40);
        PpuView {
            line_sprites: ss,
            line_buffer: draw_sprites(b, p1.palette, p1.bg_priority, line, height, ss, p1.line_buffer, ss.len() as int),
            ..p1
        }
    } else {
        p1
    };
    (p2, with_frame_row(fb, line, p2.line_buffer))
}

impl Ppu {
    /// Renders the background and window of `line` into the line buffer and records each
    /// pixel's priority byte.
    pub fn render_bg_window_line(&mut self, bus: &Bus, line: u8)
        requires
            bus@.wf(),
            old(self)@.wf(),
            line < 144,
        ensures
            final(self)@ == (PpuView {
                line_buffer: bg_line(bus@, old(self).palette, line),
                bg_priority: with_row(old(self).bg_priority@, line, bg_priority_row(bus@, old(self).palette, line)),
                ..old(self)@
            }),
            final(self)@.wf(),
    {
        let p = BgParams {
            lcdc: lcd_reg(bus, 0xFF40),
            scx: lcd_reg(bus, 0xFF43),
            scy: lcd_reg(bus, 0xFF42),
            bgp: lcd_reg(bus, 0xFF47),
            wy: lcd_reg(bus, 0xFF4A),
            wx: lcd_reg(bus, 0xFF4B),
        };
        let y = line as usize;
        let ghost lb_spec = bg_line(bus@, old(self).palette, line);
        let ghost row_spec = bg_priority_row(bus@, old(self).palette, line);
        let ghost prio0 = self.bg_priority@;
        let mut x: usize = 0;
        while x < FRAME_WIDTH
            invariant
                x <= FRAME_WIDTH,
                bus@.wf(),
                self@.wf(),
                p == bg_params(bus@),
                y == line,
                line < 144,
                lb_spec == bg_line(bus@, old(self).palette, line),
                row_spec == bg_priority_row(bus@, old(self).palette, line),
                prio0 == old(self).bg_priority@,
                self@ == (PpuView { line_buffer: self.line_buffer@, bg_priority: self.bg_priority@, ..old(self)@ }),
                forall|i: int| 0 <= i < x * 3 ==> self.line_buffer@[i] == lb_spec[i],
                forall|i: int| 0 <= i < self.bg_priority@.len() ==> self.bg_priority@[i] == (
                    if y * 160 <= i < y * 160 + x { row_spec[i - y * 160] } else { prio0[i] }),
            decreases FRAME_WIDTH - x,
        {
            let (color, priority_value) = self.bg_pixel(bus, &p, line, x);
            let idx = x * 3;
            self.line_buffer.set(idx, color.0);
            self.line_buffer.set(idx + 1, color.1);
            self.line_buffer.set(idx + 2, color.2);
            self.bg_priority.set(y * FRAME_WIDTH + x, priority_value);
            proof {
                assert forall|i: int| 0 <= i < (x + 1) * 3 implies self.line_buffer@[i] == lb_spec[i] by {
                    if i >= x * 3 {
                        assert(i / 3 == x);
                    }
                }
            }
            x = x + 1;
        }
        assert(self.line_buffer@ =~= lb_spec);
        assert(self.bg_priority@ =~= with_row(prio0, line, row_spec));
    }

    /// Fills the line buffer with shade 0 and clears the line's priority bytes.
    fn render_blank_line(&mut self, line: u8)
        requires
            old(self)@.wf(),
            line < 144,
        ensures
            final(self)@ == (PpuView {
                line_buffer: blank_line(old(self).palette),
                bg_priority: with_row(old(self).bg_priority@, line, Seq::new(FRAME_WIDTH as nat, |x: int| 0u8)),
                ..old(self)@
            }),
            final(self)@.wf(),
    {
        let color = self.palette[0];
        let y = line as usize;
        let ghost prio0 = self.bg_priority@;
        let mut x: usize = 0;
        while x < FRAME_WIDTH
            invariant
                x <= FRAME_WIDTH,
                self@.wf(),
                y == line,
                line < 144,
                color == old(self).palette[0],
                prio0 == old(self).bg_priority@,
                self@ == (PpuView { line_buffer: self.line_buffer@, bg_priority: self.bg_priority@, ..old(self)@ }),
                forall|i: int| 0 <= i < x * 3 ==> self.line_buffer@[i] == blank_line(old(self).palette)[i],
                forall|i: int| 0 <= i < self.bg_priority@.len() ==> self.bg_priority@[i] == (
                    if y * 160 <= i < y * 160 + x { 0u8 } else { prio0[i] }),
            decreases FRAME_WIDTH - x,
        {
            let idx = x * 3;
            self.line_buffer.set(idx, color[0]);
            self.line_buffer.set(idx + 1, color[1]);
            self.line_buffer.set(idx + 2, color[2]);
            self.bg_priority.set(y * FRAME_WIDTH + x, 0);
            x = x + 1;
        }
        assert(self.line_buffer@ =~= blank_line(old(self).palette));
        assert(self.bg_priority@ =~= with_row(prio0, line, Seq::new(FRAME_WIDTH as nat, |x: int| 0u8)));
    }

    /// Renders `line` and copies it into row `line` of the frame.
    pub fn render_scanline(&mut self, bus: &Bus, framebuffer: &mut Framebuffer, line: u8)
        requires
            bus@.wf(),
            old(self)@.wf(),
            old(framebuffer).wf(),
            line < 144,
        ensures
            (final(self)@, final(framebuffer).pixels@) == scanline_spec(old(self)@, bus@, old(framebuffer).pixels@, line),
            final(self)@.wf(),
            final(framebuffer).wf(),
    {
        let lcdc = lcd_reg(bus, 0xFF40);
        let bg_enabled = lcdc & 0x01 != 0;
        let sprites_enabled = lcdc & 0x02 != 0;
        let sprite_height: usize = if lcdc & 0x04 != 0 { 16 } else { 8 };
        if !bg_enabled {
            self.render_blank_line(line);
        } else {
            self.render_bg_window_line(bus, line);
        }
        if sprites_enabled {
            self.find_line_sprites(bus, line, sprite_height);
            self.render_line_sprites(bus, line, sprite_height);
        }
        let ghost fb0 = framebuffer.pixels@;
        let start = (line as usize) * LINE_BYTES;
        let mut i: usize = 0;
        while i < LINE_BYTES
            invariant
                i <= LINE_BYTES,
                start == line * 480,
                line < 144,
                self@.wf(),
                framebuffer.pixels@.len() == fb0.len(),
                fb0.len() == 69120,
                forall|j: int| 0 <= j < fb0.len() ==> framebuffer.pixels@[j] == (
                    if start <= j < start + i { self.line_buffer@[j - start] } else { fb0[j] }),
            decreases LINE_BYTES - i,
        {
            let v = self.line_buffer[i];
            framebuffer.pixels.set(start + i, v);
            i = i + 1;
        }
        assert(framebuffer.pixels@ =~= with_frame_row(fb0, line, self.line_buffer@));
    }
}

} // verus!
