//! MBC6: two independently switched 8 KiB ROM windows, 128 KiB of flash seen through two
//! 4 KiB windows, and 8 KiB of SRAM that can replace the upper flash window.
use vstd::prelude::*;
use crate::domain::cartridge::{Cartridge, CartView, RomBankMapping, rom_read, banks_for_len, byte_or_open_bus};
use crate::domain::mbc::helpers::{OPEN_BUS, ROM_BANK_SIZE, bank_count, normalize_switchable_spec, normalize_switchable_bank};

verus! {

pub const MBC6_FLASH_SIZE: usize = 0x20000;
pub const MBC6_SRAM_SIZE: usize = 0x2000;
pub const FLASH_SECTOR_SIZE: usize = 0x1000;

pub struct Mbc6 {
    pub rom_bank_a: u8,
    pub rom_bank_b: u8,
    pub flash_bank_a: u8,
    pub flash_bank_b: u8,
    pub ram_enable: bool,
    pub flash_enable: bool,
    pub flash: Vec<u8>,
    pub sram: Vec<u8>,
    pub flash_command: u8,
}

/// The state of an MBC6 with its memories as sequences.
pub struct Mbc6View {
    pub rom_bank_a: u8,
    pub rom_bank_b: u8,
    pub flash_bank_a: u8,
    pub flash_bank_b: u8,
    pub ram_enable: bool,
    pub flash_enable: bool,
    pub flash: Seq<u8>,
    pub sram: Seq<u8>,
    pub flash_command: u8,
}

impl View for Mbc6 {
    type V = Mbc6View;

    open spec fn view(&self) -> Mbc6View {
        Mbc6View {
            rom_bank_a: self.rom_bank_a,
            rom_bank_b: self.rom_bank_b,
            flash_bank_a: self.flash_bank_a,
            flash_bank_b: self.flash_bank_b,
            ram_enable: self.ram_enable,
            flash_enable: self.flash_enable,
            flash: self.flash@,
            sram: self.sram@,
            flash_command: self.flash_command,
        }
    }
}

/// Offset of `addr` in flash through a 4 KiB window at `bank`.
pub open spec fn flash_offset(bank: u8, addr: u16, window: u16) -> int {
    bank as int * FLASH_SECTOR_SIZE + (addr as int - window as int)
}

pub open spec fn flash_read_spec(flash: Seq<u8>, bank: u8, addr: u16, window: u16) -> u8 {
    let off = flash_offset(bank, addr, window);
    if off < MBC6_FLASH_SIZE { flash[off] } else { OPEN_BUS }
}

/// `flash` with the 4 KiB sector starting at `start` erased to 0xFF.
pub open spec fn erased(flash: Seq<u8>, start: int) -> Seq<u8> {
    Seq::new(flash.len(), |i: int| if start <= i < start + FLASH_SECTOR_SIZE { 0xFFu8 } else { flash[i] })
}

/// A write through a flash window under `command`: 0x01 programs (clears bits), 0x10 erases
/// the window's sector; the bool says whether flash changed (and RAM is marked dirty).
pub open spec fn flash_write_spec(flash: Seq<u8>, command: u8, bank: u8, addr: u16, window: u16, value: u8) -> (Seq<u8>, bool) {
    if command == 0x01 {
        let off = flash_offset(bank, addr, window);
        if off < MBC6_FLASH_SIZE { (flash.update(off, flash[off] & value), true) } else { (flash, false) }
    } else if command == 0x10 {
        let start = bank as int * FLASH_SECTOR_SIZE;
        if start + FLASH_SECTOR_SIZE <= MBC6_FLASH_SIZE { (erased(flash, start), true) } else { (flash, false) }
    } else {
        (flash, false)
    }
}

/// Byte `addr - window` of the switchable ROM bank `bank` (8 KiB windows over 16 KiB banks).
pub open spec fn rom_window_read(bytes: Seq<u8>, bank: u8, addr: u16, window: u16) -> u8 {
    let b = normalize_switchable_spec(bank as usize, banks_for_len(bytes.len() as int) as usize);
    byte_or_open_bus(bytes, b as int * ROM_BANK_SIZE + (addr as int - window as int))
}

impl Mbc6View {
    pub open spec fn wf(&self) -> bool {
        self.flash.len() == MBC6_FLASH_SIZE && self.sram.len() == MBC6_SRAM_SIZE
    }

    pub open spec fn read_spec(&self, c: CartView, addr: u16) -> u8 {
        if addr <= 0x3FFF {
            rom_read(c.bytes, 0, 0, addr)
        } else if addr <= 0x5FFF {
            rom_window_read(c.bytes, self.rom_bank_a, addr, 0x4000)
        } else if addr <= 0x7FFF {
            rom_window_read(c.bytes, self.rom_bank_b, addr, 0x6000)
        } else if 0xA000 <= addr <= 0xAFFF {
            if self.flash_enable { flash_read_spec(self.flash, self.flash_bank_a, addr, 0xA000) } else { OPEN_BUS }
        } else if 0xB000 <= addr <= 0xBFFF {
            if self.ram_enable {
                self.sram[(addr as int - 0xB000) % MBC6_SRAM_SIZE as int]
            } else if self.flash_enable {
                flash_read_spec(self.flash, self.flash_bank_b, addr, 0xB000)
            } else {
                OPEN_BUS
            }
        } else {
            OPEN_BUS
        }
    }

    pub open spec fn write_spec(self, c: CartView, addr: u16, value: u8) -> (Mbc6View, CartView) {
        if addr <= 0x0FFF {
            (Mbc6View { flash_enable: value == 0x0A, ..self }, c)
        } else if addr <= 0x1FFF {
            (Mbc6View { ram_enable: value == 0x0A, ..self }, c)
        } else if addr <= 0x27FF {
            (Mbc6View { flash_command: value, ..self }, c)
        } else if addr <= 0x28FF {
            (Mbc6View { flash_bank_a: value & 0x7F, ..self }, c)
        } else if addr <= 0x2FFF {
            (self, c)
        } else if addr <= 0x37FF {
            (Mbc6View { flash_command: value, ..self }, c)
        } else if addr <= 0x38FF {
            (Mbc6View { flash_bank_b: value & 0x7F, ..self }, c)
        } else if addr <= 0x3FFF {
            (self, c)
        } else if addr <= 0x4FFF {
            (Mbc6View { rom_bank_a: value & 0x7F, ..self }, c)
        } else if addr <= 0x5FFF {
            (Mbc6View { rom_bank_b: value & 0x7F, ..self }, c)
        } else if 0xA000 <= addr <= 0xAFFF && self.flash_enable {
            let (flash, changed) = flash_write_spec(self.flash, self.flash_command, self.flash_bank_a, addr, 0xA000, value);
            (Mbc6View { flash, ..self }, if changed { c.marked_dirty() } else { c })
        } else if 0xB000 <= addr <= 0xBFFF && self.ram_enable {
            (Mbc6View { sram: self.sram.update((addr as int - 0xB000) % MBC6_SRAM_SIZE as int, value), ..self }, c.marked_dirty())
        } else if 0xB000 <= addr <= 0xBFFF && self.flash_enable {
            let (flash, changed) = flash_write_spec(self.flash, self.flash_command, self.flash_bank_b, addr, 0xB000, value);
            (Mbc6View { flash, ..self }, if changed { c.marked_dirty() } else { c })
        } else {
            (self, c)
        }
    }
}

/// A vector of `len` copies of `value`.
fn filled(len: usize, value: u8) -> (v: Vec<u8>)
    ensures
        v@.len() == len,
        forall|i: int| 0 <= i < len ==> v@[i] == value,
{
    let mut v: Vec<u8> = Vec::new();
    let mut i: usize = 0;
    while i < len
        invariant
            i <= len,
            v@.len() == i,
            forall|j: int| 0 <= j < i ==> v@[j] == value,
        decreases len - i,
    {
        v.push(value);
        i = i + 1;
    }
    v
}

impl Mbc6 {
    /// ROM windows on banks 2 and 3, flash erased (all 0xFF), SRAM zeroed.
    pub fn new() -> (m: Self)
        ensures
            m@.wf(),
            m.rom_bank_a == 2 && m.rom_bank_b == 3 && m.flash_bank_a == 0 && m.flash_bank_b == 0,
            !m.ram_enable && !m.flash_enable && m.flash_command == 0,
            forall|i: int| 0 <= i < MBC6_FLASH_SIZE ==> m.flash@[i] == 0xFF,
            forall|i: int| 0 <= i < MBC6_SRAM_SIZE ==> m.sram@[i] == 0,
    {
        Mbc6 {
            rom_bank_a: 2,
            rom_bank_b: 3,
            flash_bank_a: 0,
            flash_bank_b: 0,
            ram_enable: false,
            flash_enable: false,
            flash: filled(MBC6_FLASH_SIZE, 0xFF),
            sram: filled(MBC6_SRAM_SIZE, 0),
            flash_command: 0,
        }
    }

    fn read_rom_window(cartridge: &Cartridge, bank: u8, addr: u16, window: u16) -> (r: u8)
        requires
            window <= addr <= window + 0x1FFF,
        ensures
            r == rom_window_read(cartridge.bytes@, bank, addr, window),
    {
        let len = cartridge.bytes.len();
        let bank_count = bank_count(cartridge.bytes.as_slice());
        let b = normalize_switchable_bank(bank as usize, bank_count);
        let base = match b.checked_mul(ROM_BANK_SIZE) {
            Some(b) => b,
            None => return OPEN_BUS,
        };
        let offset = match base.checked_add((addr - window) as usize) {
            Some(o) => o,
            None => return OPEN_BUS,
        };
        if offset < len { cartridge.bytes[offset] } else { OPEN_BUS }
    }

    fn read_flash(&self, bank: u8, addr: u16, window: u16) -> (r: u8)
        requires
            self@.wf(),
            window <= addr <= window + 0x0FFF,
        ensures
            r == flash_read_spec(self.flash@, bank, addr, window),
    {
        let offset = (bank as usize * FLASH_SECTOR_SIZE) + (addr - window) as usize;
        if offset < MBC6_FLASH_SIZE { self.flash[offset] } else { OPEN_BUS }
    }

    /// Reads ROM through the fixed bank and the two 8 KiB windows, or flash/SRAM when enabled.
    pub fn read8(&self, cartridge: &Cartridge, addr: u16) -> (r: u8)
        requires
            self@.wf(),
        ensures
            r == self@.read_spec(cartridge@, addr),
    {
        match addr {
            0x0000..=0x3FFF => RomBankMapping::with_banks(cartridge.bytes.as_slice(), 0, 0).read(addr),
            0x4000..=0x5FFF => Self::read_rom_window(cartridge, self.rom_bank_a, addr, 0x4000),
            0x6000..=0x7FFF => Self::read_rom_window(cartridge, self.rom_bank_b, addr, 0x6000),
            0xA000..=0xAFFF => {
                if !self.flash_enable {
                    return OPEN_BUS;
                }
                self.read_flash(self.flash_bank_a, addr, 0xA000)
            },
            0xB000..=0xBFFF => {
                if self.ram_enable {
                    let sram_offset = (addr as usize - 0xB000) % MBC6_SRAM_SIZE;
                    self.sram[sram_offset]
                } else if self.flash_enable {
                    self.read_flash(self.flash_bank_b, addr, 0xB000)
                } else {
                    OPEN_BUS
                }
            },
            _ => OPEN_BUS,
        }
    }

    /// Programs or erases flash through a window according to the current command.
    fn write_flash(&mut self, cartridge: &mut Cartridge, bank: u8, addr: u16, window: u16, value: u8)
        requires
            old(self)@.wf(),
            window <= addr <= window + 0x0FFF,
        ensures
            final(self)@ == (Mbc6View { flash: flash_write_spec(old(self).flash@, old(self).flash_command, bank, addr, window, value).0, ..old(self)@ }),
            final(cartridge)@ == (if flash_write_spec(old(self).flash@, old(self).flash_command, bank, addr, window, value).1 { old(cartridge)@.marked_dirty() } else { old(cartridge)@ }),
            final(cartridge).header == old(cartridge).header,
    {
        match self.flash_command {
            0x01 => {
                let offset = (bank as usize * FLASH_SECTOR_SIZE) + (addr - window) as usize;
                if offset < MBC6_FLASH_SIZE {
                    let b = self.flash[offset] & value;
                    self.flash.set(offset, b);
                    cartridge.mark_ram_dirty();
                    assert(self@ == (Mbc6View { flash: old(self).flash@.update(offset as int, b), ..old(self)@ }));
                }
            },
            0x10 => {
                let start = bank as usize * FLASH_SECTOR_SIZE;
                if start + FLASH_SECTOR_SIZE <= MBC6_FLASH_SIZE {
                    let ghost f0 = self.flash@;
                    let mut i: usize = start;
                    while i < start + FLASH_SECTOR_SIZE
                        invariant
                            start <= i <= start + FLASH_SECTOR_SIZE,
                            start + FLASH_SECTOR_SIZE <= MBC6_FLASH_SIZE,
                            f0.len() == MBC6_FLASH_SIZE,
                            self@ == (Mbc6View { flash: self.flash@, ..old(self)@ }),
                            self.flash@.len() == MBC6_FLASH_SIZE,
                            forall|j: int| 0 <= j < MBC6_FLASH_SIZE ==> self.flash@[j] == (
                                if start <= j < i { 0xFFu8 } else { f0[j] }),
                        decreases start + FLASH_SECTOR_SIZE - i,
                    {
                        self.flash.set(i, 0xFF);
                        i = i + 1;
                    }
                    assert(self.flash@ =~= erased(f0, start as int));
                    cartridge.mark_ram_dirty();
                }
            },
            _ => {},
        }
    }

    /// Register writes (enables, flash command, flash and ROM bank selects), flash
    /// program/erase and SRAM writes.
    pub fn write8(&mut self, cartridge: &mut Cartridge, addr: u16, value: u8)
        requires
            old(self)@.wf(),
        ensures
            (final(self)@, final(cartridge)@) == old(self)@.write_spec(old(cartridge)@, addr, value),
            final(self)@.wf(),
            final(cartridge).header == old(cartridge).header,
    {
        match addr {
            0x0000..=0x0FFF => {
                self.flash_enable = value == 0x0A;
            },
            0x1000..=0x1FFF => {
                self.ram_enable = value == 0x0A;
            },
            0x2000..=0x27FF => {
                self.flash_command = value;
            },
            0x2800..=0x28FF => {
                self.flash_bank_a = value & 0x7F;
            },
            0x3000..=0x37FF => {
                self.flash_command = value;
            },
            0x3800..=0x38FF => {
                self.flash_bank_b = value & 0x7F;
            },
            0x4000..=0x4FFF => {
                self.rom_bank_a = value & 0x7F;
            },
            0x5000..=0x5FFF => {
                self.rom_bank_b = value & 0x7F;
            },
            0xA000..=0xAFFF => {
                if !self.flash_enable {
                    return;
                }
                let bank = self.flash_bank_a;
                self.write_flash(cartridge, bank, addr, 0xA000, value);
            },
            0xB000..=0xBFFF => {
                if self.ram_enable {
                    let sram_offset = (addr as usize - 0xB000) % MBC6_SRAM_SIZE;
                    self.sram.set(sram_offset, value);
                    cartridge.mark_ram_dirty();
                } else if self.flash_enable {
                    let bank = self.flash_bank_b;
                    self.write_flash(cartridge, bank, addr, 0xB000, value);
                }
            },
            _ => {},
        }
    }
}

} // verus!
