//! Frame pacing: lines are rendered as whole lines' worth of cycles accumulate, and a frame
//! completes after line 153.
use vstd::prelude::*;
use crate::domain::bus::{Bus, BusView};
use crate::domain::framebuffer::{Framebuffer, FRAME_SIZE};
use crate::domain::ppu::{Ppu, PpuView, LINE_BYTES, PRIORITY_SIZE};
use crate::domain::ppu::background::{channel, lcd_reg};
use crate::domain::ppu::scanline::scanline_spec;

verus! {

pub const SCANLINE_CYCLES: u32 = 456;
pub const VBLANK_LINE: u8 = 144;
pub const TOTAL_LINES: u8 = 154;
pub const FRAME_CYCLES: u32 = 70224;
pub const FRAME_RATE_HZ: u32 = 59;
/// The length of one frame, 70 224 cycles at 4 194 304 Hz, in whole nanoseconds.
pub const FRAME_INTERVAL_NS: u64 = 16_742_706;

/// The DMG shades from lightest to darkest.
pub open spec fn dmg_palette_spec() -> [[u8; 3]; 4] {
    [[0xE0, 0xF8, 0xD0], [0x88, 0xC0, 0x70], [0x34, 0x68, 0x56], [0x08, 0x18, 0x20]]
}

pub fn dmg_palette() -> (r: [[u8; 3]; 4])
    ensures r == dmg_palette_spec(),
{
    [[0xE0, 0xF8, 0xD0], [0x88, 0xC0, 0x70], [0x34, 0x68, 0x56], [0x08, 0x18, 0x20]]
}

/// Every pixel of the frame set to `color`.
pub open spec fn cleared(len: nat, color: [u8; 3]) -> Seq<u8> {
    Seq::new(len, |i: int| color[i % 3])
}

/// Completes lines while a whole line's worth of cycles is pending, rendering visible
/// lines; after line 153 the frame is done (`true`) and the position returns to line 0.
pub open spec fn run_lines_spec(p: PpuView, b: BusView, fb: Seq<u8>) -> (PpuView, Seq<u8>, bool)
    decreases p.line_cycle_counter,
{
    if p.line_cycle_counter >= SCANLINE_CYCLES {
        let p1 = PpuView { line_cycle_counter: (p.line_cycle_counter - SCANLINE_CYCLES) as u32, ..p };
        let (p2, fb2) = if p1.current_line < VBLANK_LINE {
            let (q, f) = scanline_spec(p1, b, fb, p1.current_line);
            (PpuView { line_cycle_counter: p1.line_cycle_counter, current_line: p1.current_line, cycle_counter: p1.cycle_counter, ..q }, f)
        } else {
            (p1, fb)
        };
        let next = p2.current_line + 1;
        if next >= TOTAL_LINES {
            (PpuView { current_line: 0, cycle_counter: 0, ..p2 }, fb2, true)
        } else {
            run_lines_spec(PpuView { current_line: next as u8, ..p2 }, b, fb2)
        }
    } else {
        (p, fb, false)
    }
}

/// One PPU step of `cycles`: with the LCD off the frame is cleared to shade 0 and nothing
/// advances; otherwise lines are completed as cycles allow.
pub open spec fn ppu_step_spec(p: PpuView, b: BusView, fb: Seq<u8>, cycles: u32) -> (PpuView, Seq<u8>, bool) {
    if b.io[0x40] & 0x80 == 0 {
        (p, cleared(fb.len(), p.palette[0]), false)
    } else {
        let lcc = if p.line_cycle_counter as int + cycles as int > u32::MAX { u32::MAX } else { (p.line_cycle_counter + cycles) as u32 };
        run_lines_spec(PpuView { line_cycle_counter: lcc, ..p }, b, fb)
    }
}

impl Ppu {
    pub open spec fn initial_view() -> PpuView {
        PpuView {
            cycle_counter: 0,
            line_cycle_counter: 0,
            current_line: 0,
            bg_priority: Seq::new(PRIORITY_SIZE as nat, |i: int| 0u8),
            palette: dmg_palette_spec(),
            line_buffer: Seq::new(LINE_BYTES as nat, |i: int| 0u8),
            line_sprites: Seq::empty(),
        }
    }

    pub fn new() -> (p: Self)
        ensures
            p@ == Ppu::initial_view(),
            p@.wf(),
    {
        let mut bg_priority: Vec<u8> = Vec::new();
        let mut i: usize = 0;
        while i < PRIORITY_SIZE
            invariant
                i <= PRIORITY_SIZE,
                bg_priority@ == Seq::new(i as nat, |k: int| 0u8),
            decreases PRIORITY_SIZE - i,
        {
            bg_priority.push(0);
            i = i + 1;
            assert(bg_priority@ =~= Seq::new(i as nat, |k: int| 0u8));
        }
        let mut line_buffer: Vec<u8> = Vec::new();
        let mut j: usize = 0;
        while j < LINE_BYTES
            invariant
                j <= LINE_BYTES,
                line_buffer@ == Seq::new(j as nat, |k: int| 0u8),
            decreases LINE_BYTES - j,
        {
            line_buffer.push(0);
            j = j + 1;
            assert(line_buffer@ =~= Seq::new(j as nat, |k: int| 0u8));
        }
        let p = Ppu {
            cycle_counter: 0,
            line_cycle_counter: 0,
            current_line: 0,
            bg_priority,
            palette: dmg_palette(),
            line_buffer,
            line_sprites: Vec::new(),
        };
        assert(p@.line_sprites =~= Seq::<crate::domain::ppu::SpriteData>::empty());
        p
    }

    /// Replaces the four DMG shades.
    pub fn set_palette(&mut self, palette: [[u8; 3]; 4])
        ensures final(self)@ == (PpuView { palette, ..old(self)@ }),
    {
        self.palette = palette;
    }

    fn clear_frame(&self, framebuffer: &mut Framebuffer, color: [u8; 3])
        requires
            old(framebuffer).wf(),
        ensures
            final(framebuffer).pixels@ == cleared(FRAME_SIZE as nat, color),
            final(framebuffer).wf(),
    {
        let mut idx: usize = 0;
        while idx < FRAME_SIZE
            invariant
                idx <= FRAME_SIZE,
                idx % 3 == 0,
                framebuffer.pixels@.len() == FRAME_SIZE,
                forall|j: int| 0 <= j < idx ==> framebuffer.pixels@[j] == color[j % 3],
            decreases FRAME_SIZE - idx,
        {
            framebuffer.pixels.set(idx, color[0]);
            framebuffer.pixels.set(idx + 1, color[1]);
            framebuffer.pixels.set(idx + 2, color[2]);
            idx = idx + 3;
        }
        assert(framebuffer.pixels@ =~= cleared(FRAME_SIZE as nat, color));
    }

    /// Advances by `cycles`, rendering each visible line as it completes; returns whether a
    /// frame was completed.
    pub fn step(&mut self, cycles: u32, bus: &Bus, framebuffer: &mut Framebuffer) -> (frame_done: bool)
        requires
            bus@.wf(),
            old(self)@.wf(),
            old(framebuffer).wf(),
        ensures
            (final(self)@, final(framebuffer).pixels@, frame_done) == ppu_step_spec(old(self)@, bus@, old(framebuffer).pixels@, cycles),
            final(self)@.wf(),
            final(framebuffer).wf(),
    {
        let lcdc = lcd_reg(bus, 0xFF40);
        if lcdc & 0x80 == 0 {
            let color = self.palette[0];
            self.clear_frame(framebuffer, color);
            return false;
        }
        self.line_cycle_counter = self.line_cycle_counter.saturating_add(cycles);
        let ghost target = ppu_step_spec(old(self)@, bus@, old(framebuffer).pixels@, cycles);
        while self.line_cycle_counter >= SCANLINE_CYCLES
            invariant
                bus@.wf(),
                self@.wf(),
                framebuffer.wf(),
                run_lines_spec(self@, bus@, framebuffer.pixels@) == target,
                target == ppu_step_spec(old(self)@, bus@, old(framebuffer).pixels@, cycles),
            decreases self.line_cycle_counter,
        {
            self.line_cycle_counter -= SCANLINE_CYCLES;
            if self.current_line < VBLANK_LINE {
                let line = self.current_line;
                self.render_scanline(bus, framebuffer, line);
            }
            self.current_line += 1;
            if self.current_line >= TOTAL_LINES {
                self.current_line = 0;
                self.cycle_counter = 0;
                return true;
            }
        }
        false
    }

    /// Renders every visible line now (or clears the frame when the LCD is off).
    pub fn render_frame(&mut self, bus: &Bus, framebuffer: &mut Framebuffer)
        requires
            bus@.wf(),
            old(self)@.wf(),
            old(framebuffer).wf(),
        ensures
            final(self)@.wf(),
            final(framebuffer).wf(),
            bus@.io[0x40] & 0x80 == 0 ==> final(self)@ == old(self)@
                && final(framebuffer).pixels@ == cleared(FRAME_SIZE as nat, old(self).palette[0]),
    {
        let lcdc = lcd_reg(bus, 0xFF40);
        if lcdc & 0x80 == 0 {
            let color = self.palette[0];
            self.clear_frame(framebuffer, color);
            return;
        }
        let mut line: u8 = 0;
        while line < VBLANK_LINE
            invariant
                line <= VBLANK_LINE,
                bus@.wf(),
                self@.wf(),
                framebuffer.wf(),
            decreases VBLANK_LINE - line,
        {
            self.render_scanline(bus, framebuffer, line);
            line = line + 1;
        }
    }
}

} // verus!

verus! {

/// Cycles into the current frame: whole lines done plus the cycles of the current line.
pub open spec fn frame_position(p: PpuView) -> int {
    p.current_line as int * SCANLINE_CYCLES as int + p.line_cycle_counter as int
}

proof fn lemma_run_lines_position(p: PpuView, b: BusView, fb: Seq<u8>)
    requires
        p.current_line < TOTAL_LINES,
    ensures
        ({
            let (q, _, done) = run_lines_spec(p, b, fb);
            &&& done == (frame_position(p) >= FRAME_CYCLES)
            &&& done ==> q.current_line == 0 && frame_position(q) == frame_position(p) - FRAME_CYCLES
            &&& !done ==> frame_position(q) == frame_position(p) && q.line_cycle_counter < SCANLINE_CYCLES
        }),
    decreases p.line_cycle_counter,
{
    if p.line_cycle_counter >= SCANLINE_CYCLES {
        let p1 = PpuView { line_cycle_counter: (p.line_cycle_counter - SCANLINE_CYCLES) as u32, ..p };
        let (p2, fb2) = if p1.current_line < VBLANK_LINE {
            let (q, f) = scanline_spec(p1, b, fb, p1.current_line);
            (PpuView { line_cycle_counter: p1.line_cycle_counter, current_line: p1.current_line, cycle_counter: p1.cycle_counter, ..q }, f)
        } else {
            (p1, fb)
        };
        let next = p2.current_line + 1;
        if next < TOTAL_LINES {
            lemma_run_lines_position(PpuView { current_line: next as u8, ..p2 }, b, fb2);
        }
    }
}

/// Frame timing: from any position inside a frame, with the LCD on, a step completes the
/// frame exactly when it reaches 70 224 cycles into the frame; the cycles past that point
/// carry into the next frame, and a step that stops short just moves the position on.
pub proof fn lemma_ppu_frame_timing(p: PpuView, b: BusView, fb: Seq<u8>, cycles: u32)
    requires
        p.current_line < TOTAL_LINES,
        p.line_cycle_counter < SCANLINE_CYCLES,
        p.line_cycle_counter as int + cycles as int <= u32::MAX,
        b.io[0x40] & 0x80 != 0,
    ensures
        ({
            let (q, _, done) = ppu_step_spec(p, b, fb, cycles);
            let reached = frame_position(p) + cycles;
            &&& done == (reached >= FRAME_CYCLES)
            &&& done ==> q.current_line == 0 && frame_position(q) == reached - FRAME_CYCLES
            &&& !done ==> frame_position(q) == reached && q.line_cycle_counter < SCANLINE_CYCLES
        }),
{
    let lcc = (p.line_cycle_counter + cycles) as u32;
    lemma_run_lines_position(PpuView { line_cycle_counter: lcc, ..p }, b, fb);
}

/// With the LCD off a step fills the whole frame with shade 0, never completes a frame and
/// leaves the PPU where it was.
pub proof fn lemma_lcd_off_clears_frame(p: PpuView, b: BusView, fb: Seq<u8>, cycles: u32)
    requires
        b.io[0x40] & 0x80 == 0,
    ensures
        ({
            let (q, f, done) = ppu_step_spec(p, b, fb, cycles);
            &&& q == p
            &&& !done
            &&& f.len() == fb.len()
            &&& forall|i: int| 0 <= i < f.len() ==> f[i] == p.palette[0][i % 3]
        }),
{
}

/// The PPU after the steps `steps` in turn, with the bus held still, and whether any of them
/// completed a frame.
pub open spec fn ppu_run_spec(p: PpuView, b: BusView, fb: Seq<u8>, steps: Seq<u32>) -> (PpuView, Seq<u8>, bool)
    decreases steps.len(),
{
    if steps.len() == 0 {
        (p, fb, false)
    } else {
        let (q, f, done) = ppu_run_spec(p, b, fb, steps.drop_last());
        let (q2, f2, done2) = ppu_step_spec(q, b, f, steps.last());
        (q2, f2, done || done2)
    }
}

/// The sum of the step sizes.
pub open spec fn total_cycles(steps: Seq<u32>) -> int
    decreases steps.len(),
{
    if steps.len() == 0 { 0 } else { total_cycles(steps.drop_last()) + steps.last() }
}

/// Steps of any sizes add up: with the LCD on, no frame completes while the total stays short
/// of the frame, and the position moves on by exactly the total.
pub proof fn lemma_ppu_steps_accumulate(p: PpuView, b: BusView, fb: Seq<u8>, steps: Seq<u32>)
    requires
        p.current_line < TOTAL_LINES,
        p.line_cycle_counter < SCANLINE_CYCLES,
        b.io[0x40] & 0x80 != 0,
        frame_position(p) + total_cycles(steps) < FRAME_CYCLES,
    ensures
        ({
            let (q, _, done) = ppu_run_spec(p, b, fb, steps);
            &&& !done
            &&& frame_position(q) == frame_position(p) + total_cycles(steps)
            &&& q.current_line < TOTAL_LINES
            &&& q.line_cycle_counter < SCANLINE_CYCLES
        }),
    decreases steps.len(),
{
    if steps.len() > 0 {
        let init = steps.drop_last();
        lemma_total_cycles_nonneg(init);
        lemma_ppu_steps_accumulate(p, b, fb, init);
        let (q, f, _) = ppu_run_spec(p, b, fb, init);
        lemma_ppu_frame_timing(q, b, f, steps.last());
        let (q2, _, _) = ppu_step_spec(q, b, f, steps.last());
        lemma_line_split(q2);
    }
}

proof fn lemma_total_cycles_nonneg(steps: Seq<u32>)
    ensures
        total_cycles(steps) >= 0,
    decreases steps.len(),
{
    if steps.len() > 0 {
        lemma_total_cycles_nonneg(steps.drop_last());
    }
}

/// A position inside the frame that a PPU state reaches without completing it lies on a
/// visible or blanking line with less than a line's cycles pending.
proof fn lemma_line_split(q: PpuView)
    requires
        q.line_cycle_counter < SCANLINE_CYCLES,
        frame_position(q) < FRAME_CYCLES,
    ensures
        q.current_line < TOTAL_LINES,
{
}

} // verus!
