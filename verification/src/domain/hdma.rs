//! CGB VRAM DMA: general-purpose (all blocks at once) or one 16-byte block per H-Blank.
use vstd::prelude::*;
use crate::bits::{lemma_byte, lemma_byte_word, lemma_join_word, lemma_or_low_byte, lemma_word_bytes};

verus! {

pub const HDMA_BLOCK_SIZE: usize = 0x10;
pub const VBLANK_START: u8 = 144;

#[derive(Debug, Clone, Copy, PartialEq, Eq, Structural)]
pub enum HdmaMode {
    Inactive,
    HBlank,
    General,
}

#[derive(Debug)]
pub struct Hdma {
    pub source: u16,
    pub dest: u16,
    pub blocks_remaining: u8,
    pub active: bool,
    pub mode: HdmaMode,
}

impl Hdma {
    /// Blocks never exceed the 128 that HDMA5 can request.
    pub open spec fn wf(&self) -> bool {
        self.blocks_remaining <= 0x80
    }

    pub open spec fn write_hdma5_spec(self, value: u8) -> (Hdma, (bool, u8)) {
        let is_gdma = value & 0x80 != 0;
        let blocks = value & 0x7F;
        if self.active && is_gdma {
            (self, (false, 0u8))
        } else if self.active && blocks >= self.blocks_remaining {
            (Hdma { active: false, blocks_remaining: 0, ..self }, (false, 0u8))
        } else {
            let n = (blocks + 1) as u8;
            let next = Hdma {
                blocks_remaining: n,
                mode: if is_gdma { HdmaMode::General } else { HdmaMode::HBlank },
                active: true,
                ..self
            };
            (next, if is_gdma { (true, n) } else { (false, 0u8) })
        }
    }

    pub open spec fn transfer_blocks_spec(self, count: u8) -> (Hdma, Seq<(u16, u16, u8)>) {
        if count == 0 || self.blocks_remaining == 0 {
            (self, Seq::empty())
        } else {
            let n = if count < self.blocks_remaining { count } else { self.blocks_remaining };
            let bytes = n as int * 16;
            let dest_addr = (0x8000u16 | (self.dest & 0x1FF0u16)) as u16;
            let left = (self.blocks_remaining - n) as u8;
            (
                Hdma {
                    source: ((self.source as int + bytes) % 65536) as u16,
                    dest: ((self.dest as int + bytes) % 65536) as u16,
                    blocks_remaining: left,
                    active: if left == 0 { false } else { self.active },
                    mode: if left == 0 { HdmaMode::Inactive } else { self.mode },
                },
                seq![(self.source, dest_addr, n)],
            )
        }
    }

    pub open spec fn should_transfer_spec(self, ly: u8, ppu_mode: u8, ppu_line_cycles: u16) -> bool {
        &&& self.active
        &&& self.mode == HdmaMode::HBlank
        &&& ly < VBLANK_START
        &&& ppu_mode == 0
        &&& ppu_line_cycles >= 252
        &&& self.blocks_remaining > 0
    }

    /// HDMA5 as read back: bit 7 set while active or after a general-purpose transfer, the low
    /// bits holding the remaining block count.
    pub open spec fn read_hdma5_spec(&self) -> u8 {
        if self.active || self.mode == HdmaMode::General {
            self.blocks_remaining | 0x80
        } else {
            self.blocks_remaining
        }
    }

    pub fn new() -> (h: Self)
        ensures
            h.source == 0 && h.dest == 0 && h.blocks_remaining == 0 && !h.active
                && h.mode == HdmaMode::Inactive,
    {
        Hdma { source: 0, dest: 0, blocks_remaining: 0, active: false, mode: HdmaMode::Inactive }
    }

    pub fn source(&self) -> (r: u16)
        ensures r == self.source,
    {
        self.source
    }

    pub fn dest(&self) -> (r: u16)
        ensures r == self.dest,
    {
        self.dest
    }

    pub fn blocks_remaining(&self) -> (r: u8)
        ensures r == self.blocks_remaining,
    {
        self.blocks_remaining
    }

    pub fn is_active(&self) -> (r: bool)
        ensures r == self.active,
    {
        self.active
    }

    pub fn is_hblank_mode(&self) -> (r: bool)
        ensures r == (self.mode == HdmaMode::HBlank),
    {
        self.mode == HdmaMode::HBlank
    }

    /// Source high byte; ignored while a transfer is active.
    pub fn write_hdma1(&mut self, value: u8)
        ensures
            *final(self) == (if old(self).active { *old(self) } else {
                Hdma { source: (value as u16 * 256 + old(self).source % 256) as u16, ..*old(self) }
            }),
    {
        if !self.active {
            let s = self.source;
            proof {
                lemma_word_bytes(s);
                lemma_byte_word(value);
                lemma_join_word(value as u16, s & 0x00FFu16);
            }
            self.source = ((value as u16) << 8) | (self.source & 0x00FF);
        }
    }

    /// Source low byte (low nibble forced to 0); ignored while a transfer is active.
    pub fn write_hdma2(&mut self, value: u8)
        ensures
            *final(self) == (if old(self).active { *old(self) } else {
                Hdma { source: ((old(self).source / 256) * 256 + (value & 0xF0)) as u16, ..*old(self) }
            }),
    {
        if !self.active {
            let s = self.source;
            proof {
                lemma_word_bytes(s);
                lemma_byte_word(value);
                lemma_or_low_byte(s & 0xFF00u16, (value as u16) & 0x00F0u16);
            }
            self.source = (self.source & 0xFF00) | ((value as u16) & 0x00F0);
        }
    }

    /// Destination high byte; ignored while a transfer is active.
    pub fn write_hdma3(&mut self, value: u8)
        ensures
            *final(self) == (if old(self).active { *old(self) } else {
                Hdma { dest: (value as u16 * 256 + old(self).dest % 256) as u16, ..*old(self) }
            }),
    {
        if !self.active {
            let s = self.dest;
            proof {
                lemma_word_bytes(s);
                lemma_byte_word(value);
                lemma_join_word(value as u16, s & 0x00FFu16);
            }
            self.dest = ((value as u16) << 8) | (self.dest & 0x00FF);
        }
    }

    /// Destination low byte (low nibble forced to 0); ignored while a transfer is active.
    pub fn write_hdma4(&mut self, value: u8)
        ensures
            *final(self) == (if old(self).active { *old(self) } else {
                Hdma { dest: ((old(self).dest / 256) * 256 + (value & 0xF0)) as u16, ..*old(self) }
            }),
    {
        if !self.active {
            let s = self.dest;
            proof {
                lemma_word_bytes(s);
                lemma_byte_word(value);
                lemma_or_low_byte(s & 0xFF00u16, (value as u16) & 0x00F0u16);
            }
            self.dest = (self.dest & 0xFF00) | ((value as u16) & 0x00F0);
        }
    }

    /// Starts (or, during an H-Blank transfer with bit 7 clear, cancels) a transfer of
    /// `(value & 0x7F) + 1` blocks. Returns whether to copy now and how many blocks.
    pub fn write_hdma5(&mut self, value: u8) -> (r: (bool, u8))
        ensures
            (*final(self), r) == old(self).write_hdma5_spec(value),
            old(self).wf() ==> final(self).wf(),
    {
        let is_gdma = value & 0x80 != 0;
        let blocks = value & 0x7F;
        proof { lemma_byte(value); }
        if self.active {
            if is_gdma {
                return (false, 0);
            }
            if blocks >= self.blocks_remaining {
                self.active = false;
                self.blocks_remaining = 0;
                return (false, 0);
            }
        }
        self.blocks_remaining = blocks + 1;
        self.mode = if is_gdma { HdmaMode::General } else { HdmaMode::HBlank };
        if is_gdma {
            self.active = true;
            let blocks_to_transfer = self.blocks_remaining;
            (true, blocks_to_transfer)
        } else {
            self.active = true;
            (false, 0)
        }
    }

    /// Bit 7 reads as 1 while active or after a general-purpose transfer; the low bits hold the
    /// remaining block count.
    pub fn read_hdma5(&self) -> (r: u8)
        ensures
            r == self.read_hdma5_spec(),
    {
        let mut value = self.blocks_remaining;
        if self.active {
            value = value | 0x80;
        }
        let b = self.blocks_remaining;
        proof { lemma_byte(b); }
        match self.mode {
            HdmaMode::HBlank => value,
            HdmaMode::General => value | 0x80,
            HdmaMode::Inactive => value,
        }
    }

    /// A block is due only in H-Blank mode, on a visible line, in PPU mode 0 after cycle 252.
    pub fn should_transfer_hblank(&self, ly: u8, ppu_mode: u8, ppu_line_cycles: u16) -> (r: bool)
        ensures r == self.should_transfer_spec(ly, ppu_mode, ppu_line_cycles),
    {
        if !self.active || self.mode != HdmaMode::HBlank {
            return false;
        }
        if ly >= VBLANK_START {
            return false;
        }
        if ppu_mode != 0 {
            return false;
        }
        if ppu_line_cycles < 252 {
            return false;
        }
        self.blocks_remaining > 0
    }

    /// Consumes up to `count` blocks and returns the single run to copy as
    /// (source, VRAM destination, block count).
    pub fn transfer_blocks(&mut self, count: u8) -> (transfers: Vec<(u16, u16, u8)>)
        requires
            old(self).wf(),
        ensures
            (*final(self), transfers@) == old(self).transfer_blocks_spec(count),
            final(self).wf(),
    {
        if count == 0 || self.blocks_remaining == 0 {
            return Vec::new();
        }
        let actual_count = if count < self.blocks_remaining { count } else { self.blocks_remaining };
        let dest_addr = 0x8000 | (self.dest & 0x1FF0);
        let mut transfers: Vec<(u16, u16, u8)> = Vec::new();
        transfers.push((self.source, dest_addr, actual_count));
        let bytes_transferred: u16 = (actual_count as u16) * 16;
        self.source = self.source.wrapping_add(bytes_transferred);
        self.dest = self.dest.wrapping_add(bytes_transferred);
        self.blocks_remaining = self.blocks_remaining - actual_count;
        if self.blocks_remaining == 0 {
            self.active = false;
            self.mode = HdmaMode::Inactive;
        }
        assert(transfers@ =~= seq![(old(self).source, dest_addr, actual_count)]);
        transfers
    }

    pub fn apply_post_boot_state(&mut self)
        ensures
            final(self).source == 0 && final(self).dest == 0 && final(self).blocks_remaining == 0
                && !final(self).active && final(self).mode == HdmaMode::Inactive,
    {
        self.source = 0;
        self.dest = 0;
        self.blocks_remaining = 0;
        self.active = false;
        self.mode = HdmaMode::Inactive;
    }
}

} // verus!
