//! Memory map sizes, I/O register addresses and interrupt bits used by the bus.
use vstd::prelude::*;

verus! {

pub const VRAM_SIZE: usize = 0x2000;
pub const WRAM_BANK_SIZE: usize = 0x1000;
pub const WRAM_BANKS: usize = 8;
pub const WRAM_SIZE: usize = 0x8000;
pub const OAM_SIZE: usize = 0xA0;
pub const IO_SIZE: usize = 0x80;
pub const HRAM_SIZE: usize = 0x7F;
pub const PALETTE_SIZE: usize = 64;
pub const DMG_BOOT_ROM_SIZE: usize = 0x100;
pub const CGB_BOOT_ROM_SIZE: usize = 0x900;
pub const OPEN_BUS: u8 = 0xFF;

pub const CYCLES_PER_LINE: u16 = 456;
pub const VBLANK_START: u8 = 144;
pub const TOTAL_LINES: u8 = 154;

pub const IF_VBLANK: u8 = 0x01;
pub const IF_STAT: u8 = 0x02;

pub const REG_JOYP: u16 = 0xFF00;
pub const REG_SB: u16 = 0xFF01;
pub const REG_SC: u16 = 0xFF02;
pub const REG_DIV: u16 = 0xFF04;
pub const REG_TIMA: u16 = 0xFF05;
pub const REG_TMA: u16 = 0xFF06;
pub const REG_TAC: u16 = 0xFF07;
pub const REG_IF: u16 = 0xFF0F;
pub const REG_NR10: u16 = 0xFF10;
pub const REG_NR11: u16 = 0xFF11;
pub const REG_NR12: u16 = 0xFF12;
pub const REG_NR14: u16 = 0xFF14;
pub const REG_NR21: u16 = 0xFF16;
pub const REG_NR22: u16 = 0xFF17;
pub const REG_NR24: u16 = 0xFF19;
pub const REG_NR30: u16 = 0xFF1A;
pub const REG_NR31: u16 = 0xFF1B;
pub const REG_NR32: u16 = 0xFF1C;
pub const REG_NR34: u16 = 0xFF1E;
pub const REG_NR41: u16 = 0xFF20;
pub const REG_NR42: u16 = 0xFF21;
pub const REG_NR43: u16 = 0xFF22;
pub const REG_NR44: u16 = 0xFF23;
pub const REG_NR50: u16 = 0xFF24;
pub const REG_NR51: u16 = 0xFF25;
pub const REG_NR52: u16 = 0xFF26;
pub const REG_LCDC: u16 = 0xFF40;
pub const REG_STAT: u16 = 0xFF41;
pub const REG_SCY: u16 = 0xFF42;
pub const REG_SCX: u16 = 0xFF43;
pub const REG_LY: u16 = 0xFF44;
pub const REG_LYC: u16 = 0xFF45;
pub const REG_DMA: u16 = 0xFF46;
pub const REG_BGP: u16 = 0xFF47;
pub const REG_OBP0: u16 = 0xFF48;
pub const REG_OBP1: u16 = 0xFF49;
pub const REG_WY: u16 = 0xFF4A;
pub const REG_WX: u16 = 0xFF4B;
pub const REG_KEY0: u16 = 0xFF4C;
pub const REG_KEY1: u16 = 0xFF4D;
pub const REG_VBK: u16 = 0xFF4F;
pub const REG_BOOT: u16 = 0xFF50;
pub const REG_HDMA1: u16 = 0xFF51;
pub const REG_HDMA2: u16 = 0xFF52;
pub const REG_HDMA3: u16 = 0xFF53;
pub const REG_HDMA4: u16 = 0xFF54;
pub const REG_HDMA5: u16 = 0xFF55;
pub const REG_BGPI: u16 = 0xFF68;
pub const REG_BGPD: u16 = 0xFF69;
pub const REG_OBPI: u16 = 0xFF6A;
pub const REG_OBPD: u16 = 0xFF6B;
pub const REG_SVBK: u16 = 0xFF70;

} // verus!
