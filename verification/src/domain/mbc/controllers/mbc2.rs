//! MBC2: 4-bit ROM bank selected by address bit 8, and 512 half-bytes of built-in RAM.
use vstd::prelude::*;
use crate::domain::cartridge::{Cartridge, CartView, RomBankMapping, rom_read, banks_for_len};
use crate::domain::mbc::helpers::{EXT_RAM_START, EXT_RAM_END, OPEN_BUS, bank_count, normalize_switchable_spec, normalize_switchable_bank, read_mbc2_ram_spec, read_mbc2_ram, write_mbc2_ram_spec, write_mbc2_ram};

verus! {

#[derive(Debug, Clone, Copy, PartialEq, Eq, Structural)]
pub struct Mbc2 {
    pub rom_bank: u8,
    pub ram_enabled: bool,
}

impl Mbc2 {
    pub open spec fn read_spec(&self, c: CartView, addr: u16) -> u8 {
        if addr <= 0x7FFF {
            rom_read(c.bytes, 0, normalize_switchable_spec(self.rom_bank as usize, banks_for_len(c.bytes.len() as int) as usize), addr)
        } else if EXT_RAM_START <= addr <= EXT_RAM_END {
            if !self.ram_enabled { OPEN_BUS } else { read_mbc2_ram_spec(c, addr) }
        } else {
            OPEN_BUS
        }
    }

    pub open spec fn write_spec(self, c: CartView, addr: u16, value: u8) -> (Mbc2, CartView) {
        if addr <= 0x1FFF {
            if addr & 0x0100 == 0 { (Mbc2 { ram_enabled: value & 0x0F == 0x0A, ..self }, c) } else { (self, c) }
        } else if addr <= 0x3FFF {
            if addr & 0x0100 != 0 {
                (Mbc2 { rom_bank: if value & 0x0F == 0 { 1 } else { value & 0x0F }, ..self }, c)
            } else {
                (self, c)
            }
        } else if EXT_RAM_START <= addr <= EXT_RAM_END && self.ram_enabled {
            (self, write_mbc2_ram_spec(c, addr, value))
        } else {
            (self, c)
        }
    }

    pub fn new() -> (m: Self)
        ensures m == (Mbc2 { rom_bank: 1, ram_enabled: false }),
    {
        Mbc2 { rom_bank: 1, ram_enabled: false }
    }

    pub fn read8(&self, cartridge: &Cartridge, addr: u16) -> (r: u8)
        ensures r == self.read_spec(cartridge@, addr),
    {
        match addr {
            0x0000..=0x7FFF => {
                let bank_count = bank_count(cartridge.bytes.as_slice());
                let bank = normalize_switchable_bank(self.rom_bank as usize, bank_count);
                RomBankMapping::with_banks(cartridge.bytes.as_slice(), 0, bank).read(addr)
            },
            0xA000..=0xBFFF => {
                if !self.ram_enabled {
                    return OPEN_BUS;
                }
                read_mbc2_ram(cartridge, addr)
            },
            _ => OPEN_BUS,
        }
    }

    pub fn write8(&mut self, cartridge: &mut Cartridge, addr: u16, value: u8)
        ensures
            (*final(self), final(cartridge)@) == old(self).write_spec(old(cartridge)@, addr, value),
            final(cartridge).header == old(cartridge).header,
    {
        match addr {
            0x0000..=0x1FFF => {
                if addr & 0x0100 == 0 {
                    self.ram_enabled = (value & 0x0F) == 0x0A;
                }
            },
            0x2000..=0x3FFF => {
                if addr & 0x0100 != 0 {
                    let bank = value & 0x0F;
                    self.rom_bank = if bank == 0 { 1 } else { bank };
                }
            },
            0xA000..=0xBFFF => {
                if !self.ram_enabled {
                    return;
                }
                write_mbc2_ram(cartridge, addr, value);
            },
            _ => {},
        }
    }
}

} // verus!
