//! LCD timing as the bus sees it: LY, the STAT mode bits, the LY=LYC flag, and the V-Blank and
//! STAT interrupt requests.
use vstd::prelude::*;
use crate::bits::lemma_nibble_idem;
use crate::domain::bus::{Bus, BusView};
use crate::domain::bus::constants::{CYCLES_PER_LINE, VBLANK_START, TOTAL_LINES, IF_VBLANK, IF_STAT};
use crate::util::wrap16;

verus! {

/// The STAT mode for a position on the screen: 1 in V-Blank, then 2 (OAM scan), 3 (drawing)
/// and 0 (H-Blank) along a line.
pub open spec fn mode_for(ly: u8, line_cycles: u16) -> u8 {
    if ly >= VBLANK_START { 1 } else if line_cycles < 80 { 2 } else if line_cycles < 252 { 3 } else { 0 }
}

/// Whether entering `mode` raises a STAT interrupt under the enable bits of `stat`.
pub open spec fn mode_irq(stat: u8, mode: u8) -> bool {
    (mode == 0 && stat & 0x08 != 0) || (mode == 1 && stat & 0x10 != 0) || (mode == 2 && stat & 0x20 != 0)
}

impl BusView {
    /// Recomputes the STAT mode and coincidence bits and requests STAT interrupts for a
    /// coincidence (when enabled) and for entering an enabled mode.
    pub open spec fn update_stat_spec(self) -> BusView {
        let mode = mode_for(self.ly, self.ppu_line_cycles);
        let coincide = self.ly == self.lyc;
        let irq = (coincide && self.stat & 0x40 != 0) || (mode != self.ppu_mode && mode_irq(self.stat, mode));
        BusView {
            stat: (self.stat & 0xF8) | (if coincide { 0x04u8 } else { 0 }) | mode,
            interrupt_flag: if irq { self.interrupt_flag | IF_STAT } else { self.interrupt_flag },
            ppu_mode: mode,
            ..self
        }
    }

    /// One completed line: LY advances (wrapping after line 153), V-Blank is requested on
    /// entering line 144, and STAT is recomputed.
    pub open spec fn next_line_spec(self) -> BusView {
        let ly = ((self.ly as int + 1) % 256) as u8;
        BusView {
            ppu_line_cycles: (self.ppu_line_cycles - CYCLES_PER_LINE) as u16,
            ly: if ly >= TOTAL_LINES { 0 } else { ly },
            interrupt_flag: if ly == VBLANK_START { self.interrupt_flag | IF_VBLANK } else { self.interrupt_flag },
            ..self
        }.update_stat_spec()
    }

    /// Completes lines while a whole line's worth of cycles is pending.
    pub open spec fn finish_lines_spec(self) -> BusView
        decreases self.ppu_line_cycles,
    {
        if self.ppu_line_cycles >= CYCLES_PER_LINE {
            self.next_line_spec().finish_lines_spec()
        } else {
            self
        }
    }

    /// Adds `remaining` cycles in chunks of at most 0xFFFF (the line counter is 16-bit and
    /// wraps), completing lines after each chunk, then recomputes STAT.
    pub open spec fn advance_lcd_spec(self, remaining: u32) -> BusView
        decreases remaining,
    {
        if remaining == 0 {
            self.update_stat_spec()
        } else {
            let step: u32 = if remaining < 0xFFFF { remaining } else { 0xFFFF };
            BusView { ppu_line_cycles: wrap16(self.ppu_line_cycles, step as u16), ..self }
                .finish_lines_spec()
                .advance_lcd_spec((remaining - step) as u32)
        }
    }

    /// With the LCD off the position resets to line 0; otherwise the position advances.
    pub open spec fn step_lcd_spec(self, cycles: u32) -> BusView {
        if !self.lcd_on() {
            BusView { ly: 0, ppu_line_cycles: 0, ppu_mode: 0, ..self }.update_stat_spec()
        } else {
            self.advance_lcd_spec(cycles)
        }
    }
}

impl Bus {
    pub fn update_stat(&mut self)
        ensures
            final(self)@ == old(self)@.update_stat_spec(),
    {
        let mode: u8 = if self.ly >= VBLANK_START {
            1
        } else if self.ppu_line_cycles < 80 {
            2
        } else if self.ppu_line_cycles < 252 {
            3
        } else {
            0
        };
        let mut stat = self.stat & 0xF8;
        let mut irq = false;
        if self.ly == self.lyc {
            stat |= 0x04;
            if self.stat & 0x40 != 0 {
                irq = true;
            }
        }
        if mode != self.ppu_mode {
            if (mode == 0 && self.stat & 0x08 != 0) || (mode == 1 && self.stat & 0x10 != 0)
                || (mode == 2 && self.stat & 0x20 != 0) {
                irq = true;
            }
            self.ppu_mode = mode;
        }
        if irq {
            self.interrupt_flag |= IF_STAT;
        }
        let s0 = self.stat & 0xF8;
        proof { lemma_nibble_idem(s0); }
        stat |= mode;
        self.stat = stat;
    }

    fn next_line(&mut self)
        requires
            old(self).ppu_line_cycles >= CYCLES_PER_LINE,
        ensures
            final(self)@ == old(self)@.next_line_spec(),
    {
        self.ppu_line_cycles -= CYCLES_PER_LINE;
        self.ly = self.ly.wrapping_add(1);
        if self.ly == VBLANK_START {
            self.interrupt_flag |= IF_VBLANK;
        }
        if self.ly >= TOTAL_LINES {
            self.ly = 0;
        }
        self.update_stat();
    }

    /// Advances LY and the STAT mode by `cycles` (already scaled for double speed).
    pub fn step_ppu(&mut self, cycles: u32)
        requires
            old(self)@.wf(),
        ensures
            final(self)@ == old(self)@.step_lcd_spec(cycles),
            final(self)@.wf(),
            final(self)@.mbc == old(self)@.mbc,
    {
        let lcdc = self.io[0x40];
        if lcdc & 0x80 == 0 {
            self.ly = 0;
            self.ppu_line_cycles = 0;
            self.ppu_mode = 0;
            self.update_stat();
            return;
        }
        let ghost target = old(self)@.step_lcd_spec(cycles);
        let mut remaining = cycles;
        while remaining > 0
            invariant
                self@.advance_lcd_spec(remaining) == target,
                self@.wf(),
                self@.mbc == old(self)@.mbc,
            decreases remaining,
        {
            let step: u32 = if remaining < 0xFFFF { remaining } else { 0xFFFF };
            self.ppu_line_cycles = self.ppu_line_cycles.wrapping_add(step as u16);
            remaining -= step;
            while self.ppu_line_cycles >= CYCLES_PER_LINE
                invariant
                    self@.finish_lines_spec().advance_lcd_spec(remaining) == target,
                    self@.wf(),
                    self@.mbc == old(self)@.mbc,
                decreases self.ppu_line_cycles,
            {
                self.next_line();
            }
        }
        self.update_stat();
    }
}

} // verus!
