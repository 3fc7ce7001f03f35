//! The palettes a player can pick, and the tile sheet drawn from raw ROM bytes while no game
//! is running.
use vstd::prelude::*;
use crate::domain::framebuffer::{FRAME_SIZE, FRAME_WIDTH};
use crate::domain::ppu::background::{color_id, tile_color_id};

verus! {

pub const PALETTE_COUNT: usize = 4;
pub const TILE_SIZE: usize = 8;
pub const TILE_BYTES: usize = 16;
pub const TILES_PER_ROW: usize = 20;
pub const PREVIEW_TILES: usize = 360;

/// The four selectable shade sets: DMG, Pocket, Ocean and Amber.
pub open spec fn palette_spec(index: int) -> [[u8; 3]; 4] {
    if index == 0 {
        [[0xE0, 0xF8, 0xD0], [0x88, 0xC0, 0x70], [0x34, 0x68, 0x56], [0x08, 0x18, 0x20]]
    } else if index == 1 {
        [[0xF8, 0xF8, 0xF8], [0xA8, 0xA8, 0xA8], [0x50, 0x50, 0x50], [0x10, 0x10, 0x10]]
    } else if index == 2 {
        [[0xE0, 0xF4, 0xFF], [0x8A, 0xC6, 0xD8], [0x3E, 0x6F, 0x89], [0x16, 0x2A, 0x3B]]
    } else {
        [[0xFF, 0xF4, 0xCF], [0xE6, 0xC8, 0x73], [0xA6, 0x6E, 0x2B], [0x4A, 0x2B, 0x1A]]
    }
}

pub fn palette(index: usize) -> (r: [[u8; 3]; 4])
    requires
        index < PALETTE_COUNT,
    ensures
        r == palette_spec(index as int),
{
    match index {
        0 => [[0xE0, 0xF8, 0xD0], [0x88, 0xC0, 0x70], [0x34, 0x68, 0x56], [0x08, 0x18, 0x20]],
        1 => [[0xF8, 0xF8, 0xF8], [0xA8, 0xA8, 0xA8], [0x50, 0x50, 0x50], [0x10, 0x10, 0x10]],
        2 => [[0xE0, 0xF4, 0xFF], [0x8A, 0xC6, 0xD8], [0x3E, 0x6F, 0x89], [0x16, 0x2A, 0x3B]],
        _ => [[0xFF, 0xF4, 0xCF], [0xE6, 0xC8, 0x73], [0xA6, 0x6E, 0x2B], [0x4A, 0x2B, 0x1A]],
    }
}

pub fn palette_name(index: usize) -> (r: &'static str)
    requires
        index < PALETTE_COUNT,
    ensures
        r@ == (if index == 0 { "DMG"@ } else if index == 1 { "Pocket"@ } else if index == 2 { "Ocean"@ }
            else { "Amber"@ }),
{
    match index {
        0 => "DMG",
        1 => "Pocket",
        2 => "Ocean",
        _ => "Amber",
    }
}

/// The palette `delta` steps on from `index`, wrapping around the four.
pub fn cycle_palette_index(index: usize, delta: isize) -> (r: usize)
    requires
        index < PALETTE_COUNT,
        -4 <= delta <= 4,
    ensures
        r as int == (index as int + delta as int + 4) % 4,
        r < PALETTE_COUNT,
{
    let next: isize = (index as isize + delta + 4) % 4;
    next as usize
}

/// The shade of pixel (`x`, `y`) of the tile sheet: the ROM's first 360 tiles laid out 20 to
/// a row, each drawn only if the ROM holds all of its 16 bytes, on a background of shade 0.
pub open spec fn preview_pixel(rom: Seq<u8>, pal: [[u8; 3]; 4], x: int, y: int) -> [u8; 3] {
    let tile = (y / 8) * 20 + x / 8;
    let base = tile * 16 + (y % 8) * 2;
    if tile * 16 + 16 <= rom.len() {
        pal[color_id(rom[base], rom[base + 1], (7 - x % 8) as u8) as int]
    } else {
        pal[0]
    }
}

fn preview_color(rom: &[u8], pal: [[u8; 3]; 4], x: usize, y: usize) -> (r: [u8; 3])
    requires
        x < 160,
        y < 144,
    ensures
        r == preview_pixel(rom@, pal, x as int, y as int),
{
    let tile = (y / 8) * 20 + x / 8;
    if tile * 16 + 16 <= rom.len() {
        let base = tile * 16 + (y % 8) * 2;
        let bit = (7 - x % 8) as u8;
        let cid = tile_color_id(rom[base], rom[base + 1], bit);
        pal[cid as usize]
    } else {
        pal[0]
    }
}

/// Draws the tile sheet of `rom` with `pal` over the whole RGB frame.
pub fn render_rom_tiles(framebuffer: &mut [u8], rom: &[u8], pal: [[u8; 3]; 4])
    requires
        old(framebuffer)@.len() == FRAME_SIZE,
    ensures
        final(framebuffer)@.len() == FRAME_SIZE,
        forall|i: int| 0 <= i < FRAME_SIZE ==> #[trigger] final(framebuffer)@[i]
            == preview_pixel(rom@, pal, (i / 3) % 160, (i / 3) / 160)[i % 3],
{
    let mut p: usize = 0;
    while p < 23040
        invariant
            p <= 23040,
            framebuffer@.len() == FRAME_SIZE,
            forall|i: int| 0 <= i < 3 * p ==> #[trigger] framebuffer@[i]
                == preview_pixel(rom@, pal, (i / 3) % 160, (i / 3) / 160)[i % 3],
        decreases 23040 - p,
    {
        let x = p % FRAME_WIDTH;
        let y = p / FRAME_WIDTH;
        let color = preview_color(rom, pal, x, y);
        let idx = p * 3;
        framebuffer[idx] = color[0];
        framebuffer[idx + 1] = color[1];
        framebuffer[idx + 2] = color[2];
        proof {
            assert forall|i: int| 0 <= i < 3 * (p + 1) implies #[trigger] framebuffer@[i]
                == preview_pixel(rom@, pal, (i / 3) % 160, (i / 3) / 160)[i % 3] by {
                if i >= 3 * p {
                    assert(i / 3 == p as int);
                    assert(i % 3 == i - 3 * p);
                }
            }
        }
        p = p + 1;
    }
}

} // verus!
