//! Scanline renderer: background, window and sprites of each visible line into the
//! framebuffer, driven by LCD cycles.
pub mod background;
pub mod sprites;
pub mod scanline;
pub mod timing;

pub use crate::domain::ppu::timing::FRAME_INTERVAL_NS;

use vstd::prelude::*;

verus! {

/// An RGB888 color.
pub type Rgb = (u8, u8, u8);

pub const TILE_BYTES: usize = 16;
pub const LINE_BYTES: usize = 480;
pub const MAX_SPRITES_PER_LINE: usize = 10;

#[derive(Debug, Clone, Copy, PartialEq, Eq, Structural)]
pub struct SpriteData {
    pub x: i16,
    pub y: i16,
    pub tile: u8,
    pub attr: u8,
    pub oam_index: usize,
}

pub struct Ppu {
    pub cycle_counter: u32,
    pub line_cycle_counter: u32,
    pub current_line: u8,
    /// Per pixel of the frame: the background color number, plus 0x80 when the CGB
    /// BG-over-OBJ attribute was set.
    pub bg_priority: Vec<u8>,
    pub palette: [[u8; 3]; 4],
    pub line_buffer: Vec<u8>,
    pub line_sprites: Vec<SpriteData>,
}

pub struct PpuView {
    pub cycle_counter: u32,
    pub line_cycle_counter: u32,
    pub current_line: u8,
    pub bg_priority: Seq<u8>,
    pub palette: [[u8; 3]; 4],
    pub line_buffer: Seq<u8>,
    pub line_sprites: Seq<SpriteData>,
}

impl View for Ppu {
    type V = PpuView;

    open spec fn view(&self) -> PpuView {
        PpuView {
            cycle_counter: self.cycle_counter,
            line_cycle_counter: self.line_cycle_counter,
            current_line: self.current_line,
            bg_priority: self.bg_priority@,
            palette: self.palette,
            line_buffer: self.line_buffer@,
            line_sprites: self.line_sprites@,
        }
    }
}

impl PpuView {
    pub open spec fn wf(&self) -> bool {
        &&& self.bg_priority.len() == PRIORITY_SIZE
        &&& self.line_buffer.len() == LINE_BYTES
        &&& self.current_line < 154
    }
}

pub const PRIORITY_SIZE: usize = 23040;

} // verus!
