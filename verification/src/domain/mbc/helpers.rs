//! Bank arithmetic and external-RAM access shared by the bank controllers.
use vstd::prelude::*;
use crate::bits::lemma_vram_mask;
use crate::domain::cartridge::{Cartridge, CartView, banks_for_len, byte_or_open_bus};

verus! {

pub const ROM_BANK_SIZE: usize = 0x4000;
pub const EXT_RAM_START: u16 = 0xA000;
pub const EXT_RAM_END: u16 = 0xBFFF;
pub const EXT_RAM_BANK_SIZE: usize = 0x2000;
pub const MBC2_RAM_SIZE: usize = 512;
pub const MBC2_RAM_END: u16 = 0xA1FF;
pub const OPEN_BUS: u8 = 0xFF;

/// Number of 16 KiB ROM banks covering `bytes` (a partial last bank counts).
pub fn bank_count(bytes: &[u8]) -> (r: usize)
    ensures
        r as int == banks_for_len(bytes@.len() as int),
{
    if bytes.len() == 0 {
        0
    } else {
        (bytes.len() - 1) / ROM_BANK_SIZE + 1
    }
}

pub open spec fn normalize_bank_spec(bank: usize, count: usize) -> usize {
    if count == 0 { 0 } else { (bank % count) as usize }
}

/// `bank` wrapped into `0..count` (0 when there are no banks).
pub fn normalize_bank(bank: usize, bank_count: usize) -> (r: usize)
    ensures
        r == normalize_bank_spec(bank, bank_count),
{
    if bank_count == 0 {
        0
    } else {
        bank % bank_count
    }
}

pub open spec fn normalize_switchable_spec(bank: usize, count: usize) -> usize {
    if count == 0 {
        0
    } else if bank % count == 0 && count > 1 {
        1
    } else {
        (bank % count) as usize
    }
}

/// Like `normalize_bank`, but bank 0 maps to bank 1 when there is more than one bank.
pub fn normalize_switchable_bank(bank: usize, bank_count: usize) -> (r: usize)
    ensures
        r == normalize_switchable_spec(bank, bank_count),
        bank_count > 0 ==> r < bank_count,
{
    if bank_count == 0 {
        0
    } else {
        let mut normalized = bank % bank_count;
        if normalized == 0 && bank_count > 1 {
            normalized = 1;
        }
        normalized
    }
}

pub open spec fn ram_banks_spec(len: int, max_banks: usize) -> usize {
    if len == 0 {
        0
    } else {
        let banks = (len + EXT_RAM_BANK_SIZE - 1) / EXT_RAM_BANK_SIZE as int;
        if banks < max_banks { banks as usize } else { max_banks }
    }
}

/// 8 KiB RAM banks present on the cartridge, capped at `max_banks`.
pub fn ram_bank_count_for(cartridge: &Cartridge, max_banks: usize) -> (r: usize)
    ensures
        r == ram_banks_spec(cartridge.ext_ram@.len() as int, max_banks),
{
    if cartridge.ext_ram.len() == 0 {
        return 0;
    }
    let banks = (cartridge.ext_ram.len() - 1) / EXT_RAM_BANK_SIZE + 1;
    if banks < max_banks { banks } else { max_banks }
}

pub open spec fn normalize_ram_bank_spec(bank: usize, count: usize) -> Option<usize> {
    if count == 0 { None } else { Some((bank % count) as usize) }
}

/// `bank` wrapped into `0..count`, or `None` when the cartridge has no RAM.
pub fn normalize_ram_bank(bank: usize, bank_count: usize) -> (r: Option<usize>)
    ensures
        r == normalize_ram_bank_spec(bank, bank_count),
{
    if bank_count == 0 {
        None
    } else {
        Some(bank % bank_count)
    }
}

/// The offset inside external RAM that `addr` selects in `bank`.
pub open spec fn ext_ram_index(bank: usize, addr: u16) -> int {
    bank as int * EXT_RAM_BANK_SIZE + (addr as int - EXT_RAM_START as int)
}

/// Banks whose every offset fits a `usize` index.
pub open spec fn bank_in_range(bank: Option<usize>) -> bool {
    bank is Some ==> bank->Some_0 as int * EXT_RAM_BANK_SIZE + EXT_RAM_BANK_SIZE <= usize::MAX
}

/// Whether the RAM offset of `addr` in `bank` fits a `usize`, where an access computes it
/// (the cartridge has RAM and a bank is selected).
pub open spec fn ext_index_fits(len: int, bank: Option<usize>, addr: u16) -> bool {
    len == 0 || bank is None || ext_ram_index(bank->Some_0, addr) <= usize::MAX
}

pub open spec fn read_ext_ram_spec(c: CartView, bank: Option<usize>, addr: u16) -> u8 {
    if c.ext_ram.len() == 0 || bank is None {
        OPEN_BUS
    } else {
        byte_or_open_bus(c.ext_ram, ext_ram_index(bank->Some_0, addr))
    }
}

/// Reads external RAM; no RAM, no bank or an index past the end reads 0xFF.
pub fn read_ext_ram(cartridge: &Cartridge, bank: Option<usize>, addr: u16) -> (r: u8)
    requires
        EXT_RAM_START <= addr <= EXT_RAM_END,
        ext_index_fits(cartridge@.ext_ram.len() as int, bank, addr),
    ensures
        r == read_ext_ram_spec(cartridge@, bank, addr),
{
    if cartridge.ext_ram.len() == 0 {
        return OPEN_BUS;
    }
    let bank = match bank {
        Some(b) => b,
        None => return OPEN_BUS,
    };
    let offset = addr as usize - EXT_RAM_START as usize;
    let index = bank * EXT_RAM_BANK_SIZE + offset;
    if index < cartridge.ext_ram.len() { cartridge.ext_ram[index] } else { OPEN_BUS }
}

pub open spec fn write_ext_ram_spec(c: CartView, bank: Option<usize>, addr: u16, value: u8) -> CartView {
    if c.ext_ram.len() == 0 || bank is None {
        c
    } else {
        let index = ext_ram_index(bank->Some_0, addr);
        if 0 <= index < c.ext_ram.len() && c.ext_ram[index] != value {
            CartView { ext_ram: c.ext_ram.update(index, value), ..c }.marked_dirty()
        } else {
            c
        }
    }
}

/// Writes external RAM; a write that changes a byte marks the RAM dirty.
pub fn write_ext_ram(cartridge: &mut Cartridge, bank: Option<usize>, addr: u16, value: u8)
    requires
        EXT_RAM_START <= addr <= EXT_RAM_END,
        ext_index_fits(old(cartridge)@.ext_ram.len() as int, bank, addr),
    ensures
        final(cartridge)@ == write_ext_ram_spec(old(cartridge)@, bank, addr, value),
        final(cartridge).header == old(cartridge).header,
{
    if cartridge.ext_ram.len() == 0 {
        return;
    }
    let bank = match bank {
        Some(b) => b,
        None => return,
    };
    let offset = addr as usize - EXT_RAM_START as usize;
    let index = bank * EXT_RAM_BANK_SIZE + offset;
    if index < cartridge.ext_ram.len() && cartridge.ext_ram[index] != value {
        cartridge.ext_ram.set(index, value);
        cartridge.mark_ram_dirty();
    }
}

pub open spec fn mbc2_offset(addr: u16) -> int {
    (addr as int - EXT_RAM_START as int) % 512
}

pub open spec fn read_mbc2_ram_spec(c: CartView, addr: u16) -> u8 {
    if addr > MBC2_RAM_END || c.ext_ram.len() < MBC2_RAM_SIZE {
        OPEN_BUS
    } else {
        0xF0 | (c.ext_ram[mbc2_offset(addr)] & 0x0F)
    }
}

/// Reads MBC2's built-in half-byte RAM: the upper nibble reads as 1s.
pub fn read_mbc2_ram(cartridge: &Cartridge, addr: u16) -> (r: u8)
    requires
        EXT_RAM_START <= addr,
    ensures
        r == read_mbc2_ram_spec(cartridge@, addr),
{
    if addr > MBC2_RAM_END {
        return OPEN_BUS;
    }
    if cartridge.ext_ram.len() < MBC2_RAM_SIZE {
        return OPEN_BUS;
    }
    let d = addr - EXT_RAM_START;
    proof { lemma_vram_mask(d); }
    let offset = ((addr - EXT_RAM_START) & 0x01FF) as usize;
    let value = cartridge.ext_ram[offset] & 0x0F;
    0xF0 | value
}

pub open spec fn write_mbc2_ram_spec(c: CartView, addr: u16, value: u8) -> CartView {
    if addr > MBC2_RAM_END || c.ext_ram.len() < MBC2_RAM_SIZE {
        c
    } else {
        let offset = mbc2_offset(addr);
        let v = value & 0x0F;
        if c.ext_ram[offset] != v {
            CartView { ext_ram: c.ext_ram.update(offset, v), ..c }.marked_dirty()
        } else {
            c
        }
    }
}

/// Writes the low nibble of `value` into MBC2's built-in RAM.
pub fn write_mbc2_ram(cartridge: &mut Cartridge, addr: u16, value: u8)
    requires
        EXT_RAM_START <= addr,
    ensures
        final(cartridge)@ == write_mbc2_ram_spec(old(cartridge)@, addr, value),
        final(cartridge).header == old(cartridge).header,
{
    if addr > MBC2_RAM_END {
        return;
    }
    if cartridge.ext_ram.len() < MBC2_RAM_SIZE {
        return;
    }
    let d = addr - EXT_RAM_START;
    proof { lemma_vram_mask(d); }
    let offset = ((addr - EXT_RAM_START) & 0x01FF) as usize;
    let value = value & 0x0F;
    if cartridge.ext_ram[offset] != value {
        cartridge.ext_ram.set(offset, value);
        cartridge.mark_ram_dirty();
    }
}

} // verus!
