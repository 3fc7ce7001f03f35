//! Address decoding for CPU-visible reads and writes.
use vstd::prelude::*;
use crate::domain::bus::{Bus, BusView, HostTimes, components_wf, fixed_times};
use crate::domain::bus::constants::{REG_BOOT, REG_HDMA5, WRAM_BANK_SIZE, WRAM_SIZE, DMG_BOOT_ROM_SIZE, CGB_BOOT_ROM_SIZE, OPEN_BUS};

verus! {

impl BusView {
    pub open spec fn lcd_on(&self) -> bool {
        self.io[0x40] & 0x80 != 0
    }

    /// VRAM is locked while the PPU draws (mode 3) with the LCD on.
    pub open spec fn vram_accessible(&self) -> bool {
        !self.lcd_on() || self.ppu_mode != 3
    }

    /// OAM is locked while OAM DMA is copying and, with the LCD on, in modes 2 and 3.
    pub open spec fn oam_accessible(&self) -> bool {
        &&& !(self.dma.active && self.dma.bytes_transferred > 0)
        &&& (!self.lcd_on() || (self.ppu_mode != 2 && self.ppu_mode != 3))
    }

    /// The boot ROM byte overlaying `addr`, if any: a CGB image (0x900 bytes or more) maps
    /// 0x0000-0x00FF and 0x0200-0x08FF, a DMG image its first 0x100 bytes.
    pub open spec fn boot_rom_byte(&self, addr: u16) -> Option<u8> {
        if !self.boot_rom_enabled || self.boot_rom is None {
            None
        } else {
            let br = self.boot_rom->Some_0;
            if br.len() >= CGB_BOOT_ROM_SIZE {
                if addr <= 0x00FF {
                    Some(br[addr as int])
                } else if 0x0200 <= addr <= 0x08FF {
                    Some(br[addr - 0x0200 + 0x100])
                } else {
                    None
                }
            } else if br.len() >= DMG_BOOT_ROM_SIZE && addr < DMG_BOOT_ROM_SIZE {
                Some(br[addr as int])
            } else {
                None
            }
        }
    }

    /// Offset into WRAM of an address in 0xC000-0xFDFF (echo RAM mirrors 0xC000-0xDDFF).
    pub open spec fn wram_index(&self, addr: u16) -> int {
        let a = if addr >= 0xE000 { addr - 0x2000 } else { addr as int };
        if a < 0xD000 { a - 0xC000 } else { self.wram_bank as int * WRAM_BANK_SIZE + (a - 0xD000) }
    }

    /// Writing a non-zero value to 0xFF50 switches the boot ROM off (once).
    pub open spec fn boot_off_spec(self, addr: u16, value: u8) -> BusView {
        if addr == REG_BOOT && self.boot_rom_enabled && value != 0 {
            BusView { boot_rom_enabled: false, boot_rom_just_disabled: true, ..self }
        } else {
            self
        }
    }

    /// A cartridge write through the bank controller at host time `now`.
    #[verifier::opaque]
    pub open spec fn write_cart_spec(self, addr: u16, value: u8, now: u128) -> BusView {
        let (mbc, cart) = self.mbc.write_spec(self.cart, addr, value, now);
        BusView { mbc, cart, ..self }
    }

    /// A VRAM write, dropped while VRAM is locked.
    #[verifier::opaque]
    pub open spec fn write_vram_spec(self, addr: u16, value: u8) -> BusView {
        if self.vram_accessible() {
            self.with_vram_selected(self.vram_selected().update(addr - 0x8000, value))
        } else {
            self
        }
    }

    #[verifier::opaque]
    pub open spec fn write_wram_spec(self, addr: u16, value: u8) -> BusView {
        BusView { wram: self.wram.update(self.wram_index(addr), value), ..self }
    }

    /// An OAM write, dropped while OAM is locked.
    #[verifier::opaque]
    pub open spec fn write_oam_spec(self, addr: u16, value: u8) -> BusView {
        if self.oam_accessible() { BusView { oam: self.oam.update(addr - 0xFE00, value), ..self } } else { self }
    }

    #[verifier::opaque]
    pub open spec fn write_high_spec(self, addr: u16, value: u8) -> BusView {
        if addr == 0xFFFF {
            BusView { interrupt_enable: value, ..self }
        } else {
            BusView { hram: self.hram.update(addr - 0xFF80, value), ..self }
        }
    }

    /// The bus after a CPU write of `value` to `addr`, at host time `now`.
    pub open spec fn write_spec(self, addr: u16, value: u8, now: u128) -> BusView {
        let b = self.boot_off_spec(addr, value);
        if addr <= 0x7FFF || (0xA000 <= addr <= 0xBFFF) {
            b.write_cart_spec(addr, value, now)
        } else if addr <= 0x9FFF {
            b.write_vram_spec(addr, value)
        } else if addr <= 0xFDFF {
            b.write_wram_spec(addr, value)
        } else if addr <= 0xFE9F {
            b.write_oam_spec(addr, value)
        } else if addr <= 0xFEFF {
            b
        } else if addr <= 0xFF7F {
            b.write_io_spec(addr, value)
        } else {
            b.write_high_spec(addr, value)
        }
    }

    /// A CPU write whose host-clock readings see the times `t`: a cartridge write reads the
    /// clock once, a general-purpose HDMA start once per byte it copies.
    pub open spec fn write_at(self, addr: u16, value: u8, t: HostTimes) -> BusView {
        if addr == REG_HDMA5 {
            self.write_io_at(addr, value, t)
        } else {
            self.write_spec(addr, value, t(0))
        }
    }

    /// The byte a CPU read of `addr` returns, with host time `now` for a host-synced clock.
    pub open spec fn read_spec(&self, addr: u16, now: u128) -> u8 {
        match self.boot_rom_byte(addr) {
            Some(b) => b,
            None => {
                if addr <= 0x7FFF || (0xA000 <= addr <= 0xBFFF) {
                    self.mbc.read_spec(self.cart, addr, now)
                } else if addr <= 0x9FFF {
                    if self.vram_accessible() { self.vram_selected()[addr - 0x8000] } else { OPEN_BUS }
                } else if addr <= 0xFDFF {
                    self.wram[self.wram_index(addr)]
                } else if addr <= 0xFE9F {
                    if self.oam_accessible() { self.oam[addr - 0xFE00] } else { OPEN_BUS }
                } else if addr <= 0xFEFF {
                    OPEN_BUS
                } else if addr <= 0xFF7F {
                    self.read_io_spec(addr)
                } else if addr <= 0xFFFE {
                    self.hram[addr - 0xFF80]
                } else {
                    self.interrupt_enable
                }
            },
        }
    }
}

/// A write whose clock readings all see host time 0 is `write_spec` at time 0.
pub broadcast proof fn lemma_write_at_time_zero(b: BusView, addr: u16, value: u8)
    ensures
        #[trigger] b.write_at(addr, value, fixed_times(0)) == b.write_spec(addr, value, 0),
{
}

impl Bus {
    pub fn is_vram_accessible(&self) -> (r: bool)
        requires self@.wf(),
        ensures r == self@.vram_accessible(),
    {
        let lcdc = self.io[0x40];
        lcdc & 0x80 == 0 || self.ppu_mode != 3
    }

    pub fn is_oam_accessible(&self) -> (r: bool)
        requires self@.wf(),
        ensures r == self@.oam_accessible(),
    {
        proof { reveal(components_wf); }
        if self.dma.is_active() && self.dma.bytes_transferred() > 0 {
            return false;
        }
        let lcdc = self.io[0x40];
        if lcdc & 0x80 == 0 {
            return true;
        }
        self.ppu_mode != 2 && self.ppu_mode != 3
    }

    fn boot_rom_byte(&self, addr: u16) -> (r: Option<u8>)
        ensures r == self@.boot_rom_byte(addr),
    {
        if !self.boot_rom_enabled {
            return None;
        }
        match &self.boot_rom {
            None => None,
            Some(boot_rom) => {
                if boot_rom.len() >= CGB_BOOT_ROM_SIZE {
                    if addr <= 0x00FF {
                        Some(boot_rom[addr as usize])
                    } else if 0x0200 <= addr && addr <= 0x08FF {
                        let offset = addr - 0x0200 + 0x100;
                        Some(boot_rom[offset as usize])
                    } else {
                        None
                    }
                } else if boot_rom.len() >= DMG_BOOT_ROM_SIZE && addr < DMG_BOOT_ROM_SIZE as u16 {
                    Some(boot_rom[addr as usize])
                } else {
                    None
                }
            },
        }
    }

    fn wram_index(&self, addr: u16) -> (r: usize)
        requires
            self@.wf(),
            0xC000 <= addr <= 0xFDFF,
        ensures
            r == self@.wram_index(addr),
            r < WRAM_SIZE,
    {
        let a = if addr >= 0xE000 { addr - 0x2000 } else { addr };
        if a < 0xD000 {
            (a - 0xC000) as usize
        } else {
            self.wram_bank as usize * WRAM_BANK_SIZE + (a - 0xD000) as usize
        }
    }

    fn write_cart(&mut self, addr: u16, value: u8)
        requires
            old(self)@.wf(),
            addr <= 0x7FFF || (0xA000 <= addr <= 0xBFFF),
        ensures
            final(self)@.wf(),
            final(self)@.clock_free() == old(self)@.clock_free(),
            exists|now: u128| final(self)@ == old(self)@.write_cart_spec(addr, value, now),
            old(self)@.clock_free() ==> final(self)@ == old(self)@.write_cart_spec(addr, value, 0),
    {
        proof { reveal(BusView::write_cart_spec); reveal(components_wf); }
        let ghost b0 = self@;
        self.mbc.write8(&mut self.cartridge, addr, value);
        proof {
            let now = choose|now: u128| (self@.mbc, self@.cart) == b0.mbc.write_spec(b0.cart, addr, value, now);
            assert(self@ == b0.write_cart_spec(addr, value, now));
        }
    }

    fn write_vram(&mut self, addr: u16, value: u8)
        requires
            old(self)@.wf(),
            0x8000 <= addr <= 0x9FFF,
        ensures
            final(self)@ == old(self)@.write_vram_spec(addr, value),
            final(self)@.wf(),
            final(self)@.mbc == old(self)@.mbc,
    {
        proof { reveal(BusView::write_vram_spec); }
        if self.is_vram_accessible() {
            let off = (addr - 0x8000) as usize;
            if self.vram_bank == 0 {
                self.vram0.set(off, value);
            } else {
                self.vram1.set(off, value);
            }
        }
    }

    fn write_wram(&mut self, addr: u16, value: u8)
        requires
            old(self)@.wf(),
            0xC000 <= addr <= 0xFDFF,
        ensures
            final(self)@ == old(self)@.write_wram_spec(addr, value),
            final(self)@.wf(),
            final(self)@.mbc == old(self)@.mbc,
    {
        proof { reveal(BusView::write_wram_spec); }
        let i = self.wram_index(addr);
        self.wram.set(i, value);
    }

    fn write_oam(&mut self, addr: u16, value: u8)
        requires
            old(self)@.wf(),
            0xFE00 <= addr <= 0xFE9F,
        ensures
            final(self)@ == old(self)@.write_oam_spec(addr, value),
            final(self)@.wf(),
            final(self)@.mbc == old(self)@.mbc,
    {
        proof { reveal(BusView::write_oam_spec); }
        if self.is_oam_accessible() {
            self.oam.set((addr - 0xFE00) as usize, value);
        }
    }

    fn write_high(&mut self, addr: u16, value: u8)
        requires
            old(self)@.wf(),
            0xFF80 <= addr,
        ensures
            final(self)@ == old(self)@.write_high_spec(addr, value),
            final(self)@.wf(),
            final(self)@.mbc == old(self)@.mbc,
    {
        proof { reveal(BusView::write_high_spec); }
        if addr == 0xFFFF {
            self.interrupt_enable = value;
        } else {
            self.hram.set((addr - 0xFF80) as usize, value);
        }
    }

    /// A CPU write. Only a cartridge clock write of a host-synced clock, and a general-purpose
    /// HDMA start that reads such a clock, consult the host time; with a clock-free cartridge
    /// the result is `write_spec` at any time.
    pub fn write8(&mut self, addr: u16, value: u8)
        requires
            old(self)@.wf(),
        ensures
            final(self)@.wf(),
            final(self)@.clock_free() == old(self)@.clock_free(),
            old(self)@.clock_free() ==> final(self)@ == old(self)@.write_spec(addr, value, 0),
            addr != REG_HDMA5 ==> exists|now: u128| final(self)@ == old(self)@.write_spec(addr, value, now),
            exists|t: HostTimes| final(self)@ == #[trigger] old(self)@.write_at(addr, value, t),
    {
        if addr == REG_BOOT && self.boot_rom_enabled && value != 0 {
            self.boot_rom_enabled = false;
            self.boot_rom_just_disabled = true;
        }
        let ghost b1 = self@;
        assert(b1 == old(self)@.boot_off_spec(addr, value));
        if addr <= 0x7FFF || (0xA000 <= addr && addr <= 0xBFFF) {
            self.write_cart(addr, value);
            proof {
                let now = choose|now: u128| self@ == b1.write_cart_spec(addr, value, now);
                assert(self@ == old(self)@.write_spec(addr, value, now));
                assert(self@ == old(self)@.write_at(addr, value, fixed_times(now)));
            }
        } else {
            if addr <= 0x9FFF {
                self.write_vram(addr, value);
            } else if addr <= 0xFDFF {
                self.write_wram(addr, value);
            } else if addr <= 0xFE9F {
                self.write_oam(addr, value);
            } else if addr <= 0xFEFF {
            } else if addr <= 0xFF7F {
                self.write_io(addr, value);
            } else {
                self.write_high(addr, value);
            }
            proof {
                if old(self)@.clock_free() || addr != REG_HDMA5 {
                    assert(self@ == old(self)@.write_spec(addr, value, 0));
                }
                if addr == REG_HDMA5 {
                    let t = choose|t: HostTimes| self@ == #[trigger] b1.write_io_at(addr, value, t);
                    assert(self@ == old(self)@.write_at(addr, value, t));
                } else {
                    assert(self@ == old(self)@.write_at(addr, value, fixed_times(0)));
                }
            }
        }
    }

    /// A CPU read. Only a cartridge read of a host-synced clock register consults the host
    /// time; otherwise the result is `read_spec` at any time.
    pub fn read8(&self, addr: u16) -> (r: u8)
        requires
            self@.wf(),
        ensures
            exists|now: u128| r == self@.read_spec(addr, now),
            self@.clock_free() ==> r == self@.read_spec(addr, 0),
    {
        proof { reveal(components_wf); }
        if let Some(b) = self.boot_rom_byte(addr) {
            assert(b == self@.read_spec(addr, 0));
            return b;
        }
        let r = match addr {
            0x0000..=0x7FFF | 0xA000..=0xBFFF => {
                let r = self.mbc.read8(&self.cartridge, addr);
                proof {
                    let now = choose|now: u128| r == self@.mbc.read_spec(self@.cart, addr, now);
                    assert(r == self@.read_spec(addr, now));
                }
                r
            },
            0x8000..=0x9FFF => {
                if self.is_vram_accessible() {
                    let off = (addr - 0x8000) as usize;
                    if self.vram_bank == 0 { self.vram0[off] } else { self.vram1[off] }
                } else {
                    OPEN_BUS
                }
            },
            0xC000..=0xFDFF => {
                let i = self.wram_index(addr);
                self.wram[i]
            },
            0xFE00..=0xFE9F => {
                if self.is_oam_accessible() { self.oam[(addr - 0xFE00) as usize] } else { OPEN_BUS }
            },
            0xFEA0..=0xFEFF => OPEN_BUS,
            0xFF00..=0xFF7F => self.read_io(addr),
            0xFF80..=0xFFFE => self.hram[(addr - 0xFF80) as usize],
            0xFFFF => self.interrupt_enable,
        };
        proof {
            if !(addr <= 0x7FFF || (0xA000 <= addr <= 0xBFFF)) {
                assert(r == self@.read_spec(addr, 0));
            }
        }
        r
    }
}

} // verus!
