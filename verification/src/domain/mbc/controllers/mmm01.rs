//! MMM01 multi-game mapper: boots from the last ROM banks, then software configures a
//! ROM/RAM window and switches to MBC1-style banking inside it.
use vstd::prelude::*;
use crate::bits::{lemma_and_le, lemma_and_le_byte, lemma_byte, lemma_join_index};
use crate::domain::cartridge::{Cartridge, CartView, byte_or_open_bus, banks_for_len};
use crate::domain::mbc::helpers::{ROM_BANK_SIZE, EXT_RAM_START, EXT_RAM_END, OPEN_BUS, bank_count, normalize_bank_spec, normalize_bank, normalize_switchable_spec, normalize_switchable_bank, read_ext_ram_spec, read_ext_ram, write_ext_ram_spec, write_ext_ram};

verus! {

#[derive(Debug, Clone, Copy, PartialEq, Eq, Structural)]
pub struct Mmm01 {
    pub mapped: bool,
    pub rom_bank_low: u8,
    pub rom_bank_high: u8,
    pub ram_bank: u8,
    pub ram_enabled: bool,
    /// false: ROM banking, true: RAM banking.
    pub mode: bool,
    pub rom_base: u8,
    pub rom_mask: u8,
    pub ram_base: u8,
    pub ram_mask: u8,
}

impl Mmm01 {
    pub open spec fn wf(&self) -> bool {
        &&& self.rom_bank_low <= 31
        &&& self.rom_bank_high <= 3
        &&& self.ram_bank <= 3
        &&& self.ram_base <= 3
        &&& self.rom_base <= 0x3F
    }

    pub open spec fn effective_banks_spec(&self, count: usize) -> (usize, usize) {
        let low5 = self.rom_bank_low as int;
        let upper = self.rom_bank_high as int;
        let switchable = normalize_switchable_spec((upper * 32 + low5) as usize, count);
        if self.mode {
            (normalize_bank_spec((upper * 32) as usize, count), switchable)
        } else {
            (0usize, switchable)
        }
    }

    pub open spec fn window_bank(&self, bank: usize, count: usize) -> int {
        (self.rom_base as int + (bank & (self.rom_mask as usize)) as int) % (if count == 0 { 1int } else { count as int })
    }

    pub open spec fn ram_bank_index(&self) -> usize {
        ((self.ram_base + (self.ram_bank & self.ram_mask)) as u8 & 0x03) as usize
    }

    pub open spec fn read_spec(&self, c: CartView, addr: u16) -> u8 {
        let count = banks_for_len(c.bytes.len() as int) as usize;
        if addr <= 0x3FFF {
            if !self.mapped {
                let last = if count >= 2 { count - 2 } else { 0 };
                byte_or_open_bus(c.bytes, last * ROM_BANK_SIZE + addr as int)
            } else {
                let bank = self.window_bank(self.effective_banks_spec(count).0, count);
                byte_or_open_bus(c.bytes, bank * ROM_BANK_SIZE + addr as int)
            }
        } else if addr <= 0x7FFF {
            if !self.mapped {
                let last = if count >= 1 { count - 1 } else { 0 };
                byte_or_open_bus(c.bytes, last * ROM_BANK_SIZE + addr as int - 0x4000)
            } else {
                let bank = self.window_bank(self.effective_banks_spec(count).1, count);
                byte_or_open_bus(c.bytes, bank * ROM_BANK_SIZE + addr as int - 0x4000)
            }
        } else if EXT_RAM_START <= addr <= EXT_RAM_END {
            if !self.ram_enabled { OPEN_BUS } else { read_ext_ram_spec(c, Some(self.ram_bank_index()), addr) }
        } else {
            OPEN_BUS
        }
    }

    pub open spec fn write_spec(self, c: CartView, addr: u16, value: u8) -> (Mmm01, CartView) {
        if !self.mapped {
            if addr <= 0x1FFF {
                (Mmm01 { rom_base: value & 0x3F, ..self }, c)
            } else if addr <= 0x3FFF {
                (Mmm01 { rom_mask: value & 0x3F, mapped: value & 0x40 != 0, ..self }, c)
            } else if addr <= 0x5FFF {
                (Mmm01 { ram_base: (value >> 2u8) & 0x03, ram_mask: value & 0x03, ..self }, c)
            } else {
                (self, c)
            }
        } else {
            if addr <= 0x1FFF {
                (Mmm01 { ram_enabled: value & 0x0F == 0x0A, ..self }, c)
            } else if addr <= 0x3FFF {
                (Mmm01 { rom_bank_low: if value & 0x1F == 0 { 1 } else { value & 0x1F }, ..self }, c)
            } else if addr <= 0x5FFF {
                (Mmm01 { rom_bank_high: value & 0x03, ram_bank: value & 0x03, ..self }, c)
            } else if addr <= 0x7FFF {
                (Mmm01 { mode: value & 0x01 != 0, ..self }, c)
            } else if EXT_RAM_START <= addr <= EXT_RAM_END && self.ram_enabled {
                (self, write_ext_ram_spec(c, Some(self.ram_bank_index()), addr, value))
            } else {
                (self, c)
            }
        }
    }

    pub fn new() -> (m: Self)
        ensures
            m == (Mmm01 {
                mapped: false,
                rom_bank_low: 1,
                rom_bank_high: 0,
                ram_bank: 0,
                ram_enabled: false,
                mode: false,
                rom_base: 0,
                rom_mask: 0xFF,
                ram_base: 0,
                ram_mask: 0xFF,
            }),
            m.wf(),
    {
        Mmm01 {
            mapped: false,
            rom_bank_low: 1,
            rom_bank_high: 0,
            ram_bank: 0,
            ram_enabled: false,
            mode: false,
            rom_base: 0,
            rom_mask: 0xFF,
            ram_base: 0,
            ram_mask: 0xFF,
        }
    }

    fn rom_byte(cartridge: &Cartridge, bank: usize, off: usize) -> (r: u8)
        requires
            off < ROM_BANK_SIZE,
            bank as int * ROM_BANK_SIZE <= cartridge.bytes@.len(),
        ensures
            r == byte_or_open_bus(cartridge@.bytes, bank as int * ROM_BANK_SIZE + off as int),
    {
        let len = cartridge.bytes.len();
        let offset = match (bank * ROM_BANK_SIZE).checked_add(off) {
            Some(o) => o,
            None => return OPEN_BUS,
        };
        if offset < len { cartridge.bytes[offset] } else { OPEN_BUS }
    }

    /// Reads before mapping come from the last two banks; afterwards from the window.
    pub fn read8(&self, cartridge: &Cartridge, addr: u16) -> (r: u8)
        requires
            self.wf(),
        ensures
            r == self.read_spec(cartridge@, addr),
    {
        match addr {
            0x0000..=0x3FFF => {
                let len = cartridge.bytes.len();
                let bank_count = bank_count(cartridge.bytes.as_slice());
                assert(bank_count <= usize::MAX / 0x4000 + 1);
                if !self.mapped {
                    let last_bank = bank_count.saturating_sub(2);
                    return Self::rom_byte(cartridge, last_bank, addr as usize);
                }
                let (fixed, _) = self.effective_banks(bank_count);
                let m = if bank_count > 1 { bank_count } else { 1 };
                let mask = self.rom_mask as usize;
                proof { lemma_and_le(fixed, mask); }
                let mapped_bank = (self.rom_base as usize + (fixed & mask)) % m;
                Self::rom_byte(cartridge, mapped_bank, addr as usize)
            },
            0x4000..=0x7FFF => {
                let len = cartridge.bytes.len();
                let bank_count = bank_count(cartridge.bytes.as_slice());
                assert(bank_count <= usize::MAX / 0x4000 + 1);
                if !self.mapped {
                    let last_bank = bank_count.saturating_sub(1);
                    return Self::rom_byte(cartridge, last_bank, (addr - 0x4000) as usize);
                }
                let (_, switchable) = self.effective_banks(bank_count);
                let m = if bank_count > 1 { bank_count } else { 1 };
                let mask = self.rom_mask as usize;
                proof { lemma_and_le(switchable, mask); }
                let mapped_bank = (self.rom_base as usize + (switchable & mask)) % m;
                Self::rom_byte(cartridge, mapped_bank, (addr - 0x4000) as usize)
            },
            0xA000..=0xBFFF => {
                if !self.ram_enabled {
                    return OPEN_BUS;
                }
                let (rb, rm) = (self.ram_bank, self.ram_mask);
                proof { lemma_and_le_byte(rb, rm); }
                let ram_bank = (self.ram_base + (self.ram_bank & self.ram_mask)) & 0x03;
                read_ext_ram(cartridge, Some(ram_bank as usize), addr)
            },
            _ => OPEN_BUS,
        }
    }

    /// Before mapping, writes set the window registers (0x2000 bit 6 maps the window);
    /// afterwards the cartridge behaves like an MBC1 inside it.
    pub fn write8(&mut self, cartridge: &mut Cartridge, addr: u16, value: u8)
        requires
            old(self).wf(),
        ensures
            (*final(self), final(cartridge)@) == old(self).write_spec(old(cartridge)@, addr, value),
            final(self).wf(),
            final(cartridge).header == old(cartridge).header,
    {
        proof { lemma_byte(value); }
        if !self.mapped {
            match addr {
                0x0000..=0x1FFF => {
                    self.rom_base = value & 0x3F;
                },
                0x2000..=0x3FFF => {
                    self.rom_mask = value & 0x3F;
                    if value & 0x40 != 0 {
                        self.mapped = true;
                    }
                },
                0x4000..=0x5FFF => {
                    self.ram_base = (value >> 2) & 0x03;
                    self.ram_mask = value & 0x03;
                },
                _ => {},
            }
        } else {
            match addr {
                0x0000..=0x1FFF => {
                    self.ram_enabled = (value & 0x0F) == 0x0A;
                },
                0x2000..=0x3FFF => {
                    let mut bank = value & 0x1F;
                    if bank == 0 {
                        bank = 1;
                    }
                    self.rom_bank_low = bank;
                },
                0x4000..=0x5FFF => {
                    self.rom_bank_high = value & 0x03;
                    self.ram_bank = value & 0x03;
                },
                0x6000..=0x7FFF => {
                    self.mode = (value & 0x01) != 0;
                },
                0xA000..=0xBFFF => {
                    if !self.ram_enabled {
                        return;
                    }
                    let (rb, rm) = (self.ram_bank, self.ram_mask);
                    proof { lemma_and_le_byte(rb, rm); }
                    let ram_bank = (self.ram_base + (self.ram_bank & self.ram_mask)) & 0x03;
                    write_ext_ram(cartridge, Some(ram_bank as usize), addr, value);
                },
                _ => {},
            }
        }
    }

    /// (fixed bank, switchable bank) computed as on an MBC1.
    pub fn effective_banks(&self, bank_count: usize) -> (r: (usize, usize))
        requires
            self.wf(),
        ensures
            r == self.effective_banks_spec(bank_count),
            bank_count > 0 ==> r.0 < bank_count && r.1 < bank_count,
            bank_count == 0 ==> r.0 == 0 && r.1 == 0,
    {
        let low5 = self.rom_bank_low as usize;
        let upper = self.rom_bank_high as usize;
        proof { lemma_join_index(upper, low5, 5); }
        if self.mode {
            let fixed = normalize_bank(upper << 5, bank_count);
            let switchable = normalize_switchable_bank(low5 | (upper << 5), bank_count);
            (fixed, switchable)
        } else {
            let fixed: usize = 0;
            let switchable = normalize_switchable_bank(low5 | (upper << 5), bank_count);
            (fixed, switchable)
        }
    }
}

} // verus!
