//! Cartridges without a bank controller: two fixed ROM banks and optional RAM.
use vstd::prelude::*;
use crate::domain::cartridge::{Cartridge, CartView, RomBankMapping, rom_read, banks_for_len};
use crate::domain::mbc::helpers::{EXT_RAM_START, EXT_RAM_END, OPEN_BUS, bank_count, normalize_switchable_spec, normalize_switchable_bank, ram_banks_spec, ram_bank_count_for, normalize_ram_bank_spec, normalize_ram_bank, read_ext_ram_spec, read_ext_ram, write_ext_ram_spec, write_ext_ram};

verus! {

pub open spec fn read_rom_only_spec(c: CartView, addr: u16) -> u8 {
    if addr <= 0x7FFF {
        rom_read(c.bytes, 0, normalize_switchable_spec(1, banks_for_len(c.bytes.len() as int) as usize), addr)
    } else if EXT_RAM_START <= addr <= EXT_RAM_END {
        read_ext_ram_spec(c, normalize_ram_bank_spec(0, ram_banks_spec(c.ext_ram.len() as int, 1)), addr)
    } else {
        OPEN_BUS
    }
}

pub open spec fn write_rom_only_spec(c: CartView, addr: u16, value: u8) -> CartView {
    if EXT_RAM_START <= addr <= EXT_RAM_END {
        write_ext_ram_spec(c, normalize_ram_bank_spec(0, ram_banks_spec(c.ext_ram.len() as int, 1)), addr, value)
    } else {
        c
    }
}

pub fn read_rom_only(cartridge: &Cartridge, addr: u16) -> (r: u8)
    ensures
        r == read_rom_only_spec(cartridge@, addr),
{
    match addr {
        0x0000..=0x7FFF => {
            let bank_count = bank_count(cartridge.bytes.as_slice());
            let bank = normalize_switchable_bank(1, bank_count);
            RomBankMapping::with_banks(cartridge.bytes.as_slice(), 0, bank).read(addr)
        },
        0xA000..=0xBFFF => {
            let ram_bank = normalize_ram_bank(0, ram_bank_count_for(cartridge, 1));
            read_ext_ram(cartridge, ram_bank, addr)
        },
        _ => OPEN_BUS,
    }
}

pub fn write_rom_only(cartridge: &mut Cartridge, addr: u16, value: u8)
    ensures
        final(cartridge)@ == write_rom_only_spec(old(cartridge)@, addr, value),
        final(cartridge).header == old(cartridge).header,
{
    if EXT_RAM_START <= addr && addr <= EXT_RAM_END {
        let ram_bank = normalize_ram_bank(0, ram_bank_count_for(cartridge, 1));
        write_ext_ram(cartridge, ram_bank, addr, value);
    }
}

} // verus!
