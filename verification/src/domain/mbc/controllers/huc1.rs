//! HuC1: 6-bit ROM bank, 2-bit RAM bank, and an infrared port mapped over RAM.
use vstd::prelude::*;
use crate::domain::cartridge::{Cartridge, CartView, RomBankMapping, rom_read, banks_for_len};
use crate::domain::mbc::helpers::{EXT_RAM_START, EXT_RAM_END, OPEN_BUS, bank_count, normalize_switchable_spec, normalize_switchable_bank, ram_banks_spec, ram_bank_count_for, normalize_ram_bank_spec, normalize_ram_bank, bank_in_range, read_ext_ram_spec, read_ext_ram, write_ext_ram_spec, write_ext_ram};

verus! {

#[derive(Debug, Clone, Copy, PartialEq, Eq, Structural)]
pub struct HuC1 {
    pub rom_bank: u8,
    pub ram_bank: u8,
    pub ir_mode: bool,
    pub ir_signal: bool,
}

impl HuC1 {
    pub open spec fn ram_bank_spec(&self, c: CartView) -> Option<usize> {
        normalize_ram_bank_spec(self.ram_bank as usize, ram_banks_spec(c.ext_ram.len() as int, 4))
    }

    pub open spec fn read_spec(&self, c: CartView, addr: u16) -> u8 {
        if addr <= 0x7FFF {
            rom_read(c.bytes, 0, normalize_switchable_spec(self.rom_bank as usize, banks_for_len(c.bytes.len() as int) as usize), addr)
        } else if EXT_RAM_START <= addr <= EXT_RAM_END {
            if self.ir_mode {
                if self.ir_signal { 0xC1 } else { 0xC0 }
            } else {
                read_ext_ram_spec(c, self.ram_bank_spec(c), addr)
            }
        } else {
            OPEN_BUS
        }
    }

    pub open spec fn write_spec(self, c: CartView, addr: u16, value: u8) -> (HuC1, CartView) {
        if addr <= 0x1FFF {
            (HuC1 { ir_mode: value == 0x0E, ..self }, c)
        } else if addr <= 0x3FFF {
            (HuC1 { rom_bank: if value & 0x3F == 0 { 1 } else { value & 0x3F }, ..self }, c)
        } else if addr <= 0x5FFF {
            (HuC1 { ram_bank: value & 0x03, ..self }, c)
        } else if addr <= 0x7FFF {
            (self, c)
        } else if EXT_RAM_START <= addr <= EXT_RAM_END {
            if self.ir_mode {
                (HuC1 { ir_signal: value & 0x01 != 0, ..self }, c)
            } else {
                (self, write_ext_ram_spec(c, self.ram_bank_spec(c), addr, value))
            }
        } else {
            (self, c)
        }
    }

    pub fn new() -> (m: Self)
        ensures m == (HuC1 { rom_bank: 1, ram_bank: 0, ir_mode: false, ir_signal: false }),
    {
        HuC1 { rom_bank: 1, ram_bank: 0, ir_mode: false, ir_signal: false }
    }

    fn ram_bank_for(&self, cartridge: &Cartridge) -> (r: Option<usize>)
        ensures
            r == self.ram_bank_spec(cartridge@),
            bank_in_range(r),
    {
        normalize_ram_bank(self.ram_bank as usize, ram_bank_count_for(cartridge, 4))
    }

    /// In IR mode RAM reads return 0xC1 while light is seen and 0xC0 otherwise.
    pub fn read8(&self, cartridge: &Cartridge, addr: u16) -> (r: u8)
        ensures r == self.read_spec(cartridge@, addr),
    {
        match addr {
            0x0000..=0x7FFF => {
                let bank_count = bank_count(cartridge.bytes.as_slice());
                let bank = normalize_switchable_bank(self.rom_bank as usize, bank_count);
                RomBankMapping::with_banks(cartridge.bytes.as_slice(), 0, bank).read(addr)
            },
            0xA000..=0xBFFF => {
                if self.ir_mode {
                    if self.ir_signal { 0xC1 } else { 0xC0 }
                } else {
                    let ram_bank = self.ram_bank_for(cartridge);
                    read_ext_ram(cartridge, ram_bank, addr)
                }
            },
            _ => OPEN_BUS,
        }
    }

    /// Writing 0x0E to 0x0000-0x1FFF selects IR mode; any other value selects RAM.
    pub fn write8(&mut self, cartridge: &mut Cartridge, addr: u16, value: u8)
        ensures
            (*final(self), final(cartridge)@) == old(self).write_spec(old(cartridge)@, addr, value),
            final(cartridge).header == old(cartridge).header,
    {
        match addr {
            0x0000..=0x1FFF => {
                self.ir_mode = value == 0x0E;
            },
            0x2000..=0x3FFF => {
                let bank = value & 0x3F;
                self.rom_bank = if bank == 0 { 1 } else { bank };
            },
            0x4000..=0x5FFF => {
                self.ram_bank = value & 0x03;
            },
            0x6000..=0x7FFF => {},
            0xA000..=0xBFFF => {
                if self.ir_mode {
                    self.ir_signal = value & 0x01 != 0;
                } else {
                    let ram_bank = self.ram_bank_for(cartridge);
                    write_ext_ram(cartridge, ram_bank, addr, value);
                }
            },
            _ => {},
        }
    }
}

} // verus!
