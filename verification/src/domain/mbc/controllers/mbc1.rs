//! MBC1: 5+2-bit ROM bank, 2-bit RAM bank, and a mode bit that routes the upper bits.
use vstd::prelude::*;
use crate::bits::{lemma_byte, lemma_join_index};
use crate::domain::cartridge::{Cartridge, CartView, RomBankMapping, rom_read, banks_for_len};
use crate::domain::mbc::helpers::{EXT_RAM_START, EXT_RAM_END, OPEN_BUS, bank_count, normalize_bank_spec, normalize_bank, normalize_switchable_spec, normalize_switchable_bank, ram_banks_spec, ram_bank_count_for, normalize_ram_bank_spec, normalize_ram_bank, bank_in_range, read_ext_ram_spec, read_ext_ram, write_ext_ram_spec, write_ext_ram};

verus! {

#[derive(Debug, Clone, Copy, PartialEq, Eq, Structural)]
pub enum Mbc1Mode {
    RomBanking,
    RamBanking,
}

#[derive(Debug, Clone, Copy, PartialEq, Eq, Structural)]
pub struct Mbc1 {
    pub rom_bank_low5: u8,
    pub bank_high2: u8,
    pub ram_bank: u8,
    pub mode: Mbc1Mode,
    pub ram_enabled: bool,
}

impl Mbc1 {
    pub open spec fn rom_banks_spec(&self, count: usize) -> (usize, usize) {
        let low5 = if self.rom_bank_low5 & 0x1F == 0 { 1usize } else { (self.rom_bank_low5 & 0x1F) as usize };
        let upper = (self.bank_high2 & 0x03) as usize;
        match self.mode {
            Mbc1Mode::RomBanking => (
                normalize_bank_spec(0, count),
                normalize_switchable_spec((upper * 32 + low5) as usize, count),
            ),
            Mbc1Mode::RamBanking => (
                normalize_bank_spec((upper * 32) as usize, count),
                normalize_switchable_spec(low5, count),
            ),
        }
    }

    pub open spec fn ram_bank_spec(&self, c: CartView) -> Option<usize> {
        let bank: usize = match self.mode {
            Mbc1Mode::RomBanking => 0,
            Mbc1Mode::RamBanking => self.ram_bank as usize,
        };
        normalize_ram_bank_spec(bank, ram_banks_spec(c.ext_ram.len() as int, 4))
    }

    pub open spec fn read_spec(&self, c: CartView, addr: u16) -> u8 {
        if addr <= 0x7FFF {
            let (fixed, switchable) = self.rom_banks_spec(banks_for_len(c.bytes.len() as int) as usize);
            rom_read(c.bytes, fixed, switchable, addr)
        } else if EXT_RAM_START <= addr <= EXT_RAM_END {
            if !self.ram_enabled { OPEN_BUS } else { read_ext_ram_spec(c, self.ram_bank_spec(c), addr) }
        } else {
            OPEN_BUS
        }
    }

    pub open spec fn write_spec(self, c: CartView, addr: u16, value: u8) -> (Mbc1, CartView) {
        if addr <= 0x1FFF {
            (Mbc1 { ram_enabled: value & 0x0F == 0x0A, ..self }, c)
        } else if addr <= 0x3FFF {
            (Mbc1 { rom_bank_low5: value & 0x1F, ..self }, c)
        } else if addr <= 0x5FFF {
            (Mbc1 { bank_high2: value & 0x03, ram_bank: value & 0x03, ..self }, c)
        } else if addr <= 0x7FFF {
            (Mbc1 { mode: if value & 0x01 == 0 { Mbc1Mode::RomBanking } else { Mbc1Mode::RamBanking }, ..self }, c)
        } else if EXT_RAM_START <= addr <= EXT_RAM_END && self.ram_enabled {
            (self, write_ext_ram_spec(c, self.ram_bank_spec(c), addr, value))
        } else {
            (self, c)
        }
    }

    pub fn new() -> (m: Self)
        ensures
            m == (Mbc1 { rom_bank_low5: 1, bank_high2: 0, ram_bank: 0, mode: Mbc1Mode::RomBanking, ram_enabled: false }),
    {
        Mbc1 { rom_bank_low5: 1, bank_high2: 0, ram_bank: 0, mode: Mbc1Mode::RomBanking, ram_enabled: false }
    }

    /// (fixed bank, switchable bank) for a ROM of `bank_count` banks.
    pub fn rom_banks(&self, bank_count: usize) -> (r: (usize, usize))
        ensures r == self.rom_banks_spec(bank_count),
    {
        let mut low5 = (self.rom_bank_low5 & 0x1F) as usize;
        if low5 == 0 {
            low5 = 1;
        }
        let upper = (self.bank_high2 & 0x03) as usize;
        let h = self.bank_high2;
        proof { lemma_byte(h); }
        let l = self.rom_bank_low5;
        proof { lemma_byte(l); }
        proof { lemma_join_index(upper, low5, 5); }
        match self.mode {
            Mbc1Mode::RomBanking => {
                let switchable = normalize_switchable_bank((upper << 5) | low5, bank_count);
                (normalize_bank(0, bank_count), switchable)
            },
            Mbc1Mode::RamBanking => {
                let fixed = normalize_bank(upper << 5, bank_count);
                let switchable = normalize_switchable_bank(low5, bank_count);
                (fixed, switchable)
            },
        }
    }

    fn ram_bank_for(&self, cartridge: &Cartridge) -> (r: Option<usize>)
        ensures
            r == self.ram_bank_spec(cartridge@),
            bank_in_range(r),
    {
        let ram_bank: usize = match self.mode {
            Mbc1Mode::RomBanking => 0,
            Mbc1Mode::RamBanking => self.ram_bank as usize,
        };
        normalize_ram_bank(ram_bank, ram_bank_count_for(cartridge, 4))
    }

    pub fn read8(&self, cartridge: &Cartridge, addr: u16) -> (r: u8)
        ensures r == self.read_spec(cartridge@, addr),
    {
        match addr {
            0x0000..=0x7FFF => {
                let bank_count = bank_count(cartridge.bytes.as_slice());
                let (fixed_bank, switchable_bank) = self.rom_banks(bank_count);
                RomBankMapping::with_banks(cartridge.bytes.as_slice(), fixed_bank, switchable_bank).read(addr)
            },
            0xA000..=0xBFFF => {
                if !self.ram_enabled {
                    return OPEN_BUS;
                }
                let ram_bank = self.ram_bank_for(cartridge);
                read_ext_ram(cartridge, ram_bank, addr)
            },
            _ => OPEN_BUS,
        }
    }

    pub fn write8(&mut self, cartridge: &mut Cartridge, addr: u16, value: u8)
        ensures
            (*final(self), final(cartridge)@) == old(self).write_spec(old(cartridge)@, addr, value),
            final(cartridge).header == old(cartridge).header,
    {
        match addr {
            0x0000..=0x1FFF => {
                self.ram_enabled = (value & 0x0F) == 0x0A;
            },
            0x2000..=0x3FFF => {
                self.rom_bank_low5 = value & 0x1F;
            },
            0x4000..=0x5FFF => {
                let bank = value & 0x03;
                self.bank_high2 = bank;
                self.ram_bank = bank;
            },
            0x6000..=0x7FFF => {
                if value & 0x01 == 0 {
                    self.mode = Mbc1Mode::RomBanking;
                } else {
                    self.mode = Mbc1Mode::RamBanking;
                }
            },
            0xA000..=0xBFFF => {
                if !self.ram_enabled {
                    return;
                }
                let ram_bank = self.ram_bank_for(cartridge);
                write_ext_ram(cartridge, ram_bank, addr, value);
            },
            _ => {},
        }
    }
}

} // verus!
