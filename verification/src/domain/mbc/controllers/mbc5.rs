//! MBC5: 9-bit ROM bank (low byte + bit 8) and a 4-bit RAM bank.
use vstd::prelude::*;
use crate::bits::lemma_join_index;
use crate::domain::cartridge::{Cartridge, CartView, RomBankMapping, rom_read, banks_for_len};
use crate::domain::mbc::helpers::{EXT_RAM_START, EXT_RAM_END, OPEN_BUS, bank_count, normalize_bank_spec, normalize_bank, ram_banks_spec, ram_bank_count_for, normalize_ram_bank_spec, normalize_ram_bank, bank_in_range, read_ext_ram_spec, read_ext_ram, write_ext_ram_spec, write_ext_ram};

verus! {

#[derive(Debug, Clone, Copy, PartialEq, Eq, Structural)]
pub struct Mbc5 {
    pub rom_bank_low: u8,
    pub rom_bank_high: u8,
    pub ram_bank: u8,
    pub ram_enabled: bool,
}

impl Mbc5 {
    pub open spec fn rom_bank_spec(&self, c: CartView) -> usize {
        normalize_bank_spec((self.rom_bank_high as int * 256 + self.rom_bank_low as int) as usize,
            banks_for_len(c.bytes.len() as int) as usize)
    }

    pub open spec fn ram_bank_spec(&self, c: CartView) -> Option<usize> {
        normalize_ram_bank_spec(self.ram_bank as usize, ram_banks_spec(c.ext_ram.len() as int, 16))
    }

    pub open spec fn read_spec(&self, c: CartView, addr: u16) -> u8 {
        if addr <= 0x7FFF {
            rom_read(c.bytes, 0, self.rom_bank_spec(c), addr)
        } else if EXT_RAM_START <= addr <= EXT_RAM_END {
            if !self.ram_enabled { OPEN_BUS } else { read_ext_ram_spec(c, self.ram_bank_spec(c), addr) }
        } else {
            OPEN_BUS
        }
    }

    pub open spec fn write_spec(self, c: CartView, addr: u16, value: u8) -> (Mbc5, CartView) {
        if addr <= 0x1FFF {
            (Mbc5 { ram_enabled: value & 0x0F == 0x0A, ..self }, c)
        } else if addr <= 0x2FFF {
            (Mbc5 { rom_bank_low: value, ..self }, c)
        } else if addr <= 0x3FFF {
            (Mbc5 { rom_bank_high: value & 0x01, ..self }, c)
        } else if addr <= 0x5FFF {
            (Mbc5 { ram_bank: value & 0x0F, ..self }, c)
        } else if EXT_RAM_START <= addr <= EXT_RAM_END && self.ram_enabled {
            (self, write_ext_ram_spec(c, self.ram_bank_spec(c), addr, value))
        } else {
            (self, c)
        }
    }

    pub fn new() -> (m: Self)
        ensures m == (Mbc5 { rom_bank_low: 1, rom_bank_high: 0, ram_bank: 0, ram_enabled: false }),
    {
        Mbc5 { rom_bank_low: 1, rom_bank_high: 0, ram_bank: 0, ram_enabled: false }
    }

    fn ram_bank_for(&self, cartridge: &Cartridge) -> (r: Option<usize>)
        ensures
            r == self.ram_bank_spec(cartridge@),
            bank_in_range(r),
    {
        normalize_ram_bank(self.ram_bank as usize, ram_bank_count_for(cartridge, 16))
    }

    pub fn read8(&self, cartridge: &Cartridge, addr: u16) -> (r: u8)
        ensures r == self.read_spec(cartridge@, addr),
    {
        match addr {
            0x0000..=0x7FFF => {
                let bank_count = bank_count(cartridge.bytes.as_slice());
                let hi = self.rom_bank_high as usize;
                let lo = self.rom_bank_low as usize;
                proof { lemma_join_index(hi, lo, 8); }
                let bank = (hi << 8) | lo;
                let bank = normalize_bank(bank, bank_count);
                RomBankMapping::with_banks(cartridge.bytes.as_slice(), 0, bank).read(addr)
            },
            0xA000..=0xBFFF => {
                if !self.ram_enabled {
                    return OPEN_BUS;
                }
                let ram_bank = self.ram_bank_for(cartridge);
                read_ext_ram(cartridge, ram_bank, addr)
            },
            _ => OPEN_BUS,
        }
    }

    pub fn write8(&mut self, cartridge: &mut Cartridge, addr: u16, value: u8)
        ensures
            (*final(self), final(cartridge)@) == old(self).write_spec(old(cartridge)@, addr, value),
            final(cartridge).header == old(cartridge).header,
    {
        match addr {
            0x0000..=0x1FFF => {
                self.ram_enabled = (value & 0x0F) == 0x0A;
            },
            0x2000..=0x2FFF => {
                self.rom_bank_low = value;
            },
            0x3000..=0x3FFF => {
                self.rom_bank_high = value & 0x01;
            },
            0x4000..=0x5FFF => {
                self.ram_bank = value & 0x0F;
            },
            0xA000..=0xBFFF => {
                if !self.ram_enabled {
                    return;
                }
                let ram_bank = self.ram_bank_for(cartridge);
                write_ext_ram(cartridge, ram_bank, addr, value);
            },
            _ => {},
        }
    }
}

} // verus!
