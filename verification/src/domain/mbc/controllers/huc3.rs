//! HuC3: 7-bit ROM bank, 4-bit RAM bank, a mode register that maps RAM, clock or infrared
//! into 0xA000-0xBFFF, and a simple clock that advances one second per frame-sized tick.
use vstd::prelude::*;
use crate::bits::{lemma_byte, lemma_low_byte32};
use crate::domain::cartridge::{Cartridge, CartView, RomBankMapping, rom_read, banks_for_len};
use crate::domain::mbc::helpers::{EXT_RAM_START, EXT_RAM_END, OPEN_BUS, bank_count, normalize_switchable_spec, normalize_switchable_bank, ram_banks_spec, ram_bank_count_for, normalize_ram_bank_spec, normalize_ram_bank, bank_in_range, read_ext_ram_spec, read_ext_ram, write_ext_ram_spec, write_ext_ram};
use crate::domain::mbc::rtc::CYCLES_PER_SECOND;

verus! {

#[derive(Debug, Clone, Copy, PartialEq, Eq, Structural)]
pub struct HuC3 {
    pub rom_bank: u8,
    pub ram_bank: u8,
    pub ram_enable: bool,
    pub mode: u8,
    pub rtc_latched: bool,
    pub rtc_latch_value: u8,
    pub rtc_seconds: u32,
    pub rtc_minutes: u32,
    pub rtc_hours: u32,
    pub rtc_days: u32,
    pub ir_signal: u8,
}

impl HuC3 {
    /// The clock fields hold a time of day.
    pub open spec fn wf(&self) -> bool {
        self.rtc_seconds < 60 && self.rtc_minutes < 60 && self.rtc_hours < 24
    }

    pub open spec fn ram_bank_spec(&self, c: CartView) -> Option<usize> {
        normalize_ram_bank_spec(self.ram_bank as usize, ram_banks_spec(c.ext_ram.len() as int, 4))
    }

    /// The clock register selected by the last latch command, or 0x01 when none is latched.
    pub open spec fn rtc_read_spec(&self) -> u8 {
        if !self.rtc_latched {
            0x01
        } else if self.rtc_latch_value == 0x10 {
            (self.rtc_seconds % 256) as u8
        } else if self.rtc_latch_value == 0x30 {
            (self.rtc_minutes % 256) as u8
        } else if self.rtc_latch_value == 0x50 {
            (self.rtc_hours % 256) as u8
        } else if self.rtc_latch_value == 0x70 {
            (self.rtc_days % 256) as u8
        } else {
            0x01
        }
    }

    pub open spec fn read_spec(&self, c: CartView, addr: u16) -> u8 {
        if addr <= 0x7FFF {
            rom_read(c.bytes, 0, normalize_switchable_spec(self.rom_bank as usize, banks_for_len(c.bytes.len() as int) as usize), addr)
        } else if EXT_RAM_START <= addr <= EXT_RAM_END {
            if !self.ram_enable {
                OPEN_BUS
            } else if self.mode <= 0x0B {
                read_ext_ram_spec(c, self.ram_bank_spec(c), addr)
            } else if self.mode == 0x0C {
                self.rtc_read_spec()
            } else if self.mode == 0x0D {
                self.ir_signal
            } else {
                OPEN_BUS
            }
        } else {
            OPEN_BUS
        }
    }

    /// A clock command: 0x11/0x31/0x51/0x71 latch seconds/minutes/hours/days, 0x10 unlatches.
    pub open spec fn rtc_command_spec(self, value: u8) -> HuC3 {
        if value == 0x11 || value == 0x31 || value == 0x51 || value == 0x71 {
            HuC3 { rtc_latched: true, rtc_latch_value: (value - 1) as u8, ..self }
        } else if value == 0x10 {
            HuC3 { rtc_latched: false, ..self }
        } else {
            self
        }
    }

    pub open spec fn write_spec(self, c: CartView, addr: u16, value: u8) -> (HuC3, CartView) {
        if addr <= 0x1FFF {
            (HuC3 { ram_enable: value == 0x0A, ..self }, c)
        } else if addr <= 0x3FFF {
            (HuC3 { rom_bank: if value & 0x7F == 0 { 1 } else { value & 0x7F }, ..self }, c)
        } else if addr <= 0x5FFF {
            (HuC3 { ram_bank: value & 0x0F, ..self }, c)
        } else if addr <= 0x7FFF {
            (HuC3 { mode: value, ..self }, c)
        } else if EXT_RAM_START <= addr <= EXT_RAM_END && self.ram_enable {
            if self.mode <= 0x0B {
                (self, write_ext_ram_spec(c, self.ram_bank_spec(c), addr, value))
            } else if self.mode == 0x0C {
                (self.rtc_command_spec(value), c)
            } else if self.mode == 0x0E {
                (HuC3 { ir_signal: value, ..self }, c)
            } else {
                (self, c)
            }
        } else {
            (self, c)
        }
    }

    /// Whether a tick of `cycles` would roll the clock over into a new day.
    pub open spec fn tick_carries_day(&self, cycles: u32) -> bool {
        cycles >= CYCLES_PER_SECOND / 60 && self.rtc_seconds == 59 && self.rtc_minutes == 59
            && self.rtc_hours == 23
    }

    /// A tick of at least a frame's worth of cycles advances the clock by one second.
    pub open spec fn tick_spec(self, cycles: u32) -> HuC3 {
        if cycles < CYCLES_PER_SECOND / 60 {
            self
        } else if self.rtc_seconds < 59 {
            HuC3 { rtc_seconds: (self.rtc_seconds + 1) as u32, ..self }
        } else if self.rtc_minutes < 59 {
            HuC3 { rtc_seconds: 0, rtc_minutes: (self.rtc_minutes + 1) as u32, ..self }
        } else if self.rtc_hours < 23 {
            HuC3 { rtc_seconds: 0, rtc_minutes: 0, rtc_hours: (self.rtc_hours + 1) as u32, ..self }
        } else {
            HuC3 { rtc_seconds: 0, rtc_minutes: 0, rtc_hours: 0, rtc_days: (self.rtc_days + 1) as u32, ..self }
        }
    }

    pub fn new() -> (m: Self)
        ensures
            m == (HuC3 {
                rom_bank: 1, ram_bank: 0, ram_enable: false, mode: 0, rtc_latched: false,
                rtc_latch_value: 0, rtc_seconds: 0, rtc_minutes: 0, rtc_hours: 0, rtc_days: 0,
                ir_signal: 0,
            }),
            m.wf(),
    {
        HuC3 {
            rom_bank: 1,
            ram_bank: 0,
            ram_enable: false,
            mode: 0,
            rtc_latched: false,
            rtc_latch_value: 0,
            rtc_seconds: 0,
            rtc_minutes: 0,
            rtc_hours: 0,
            rtc_days: 0,
            ir_signal: 0,
        }
    }

    fn ram_bank_for(&self, cartridge: &Cartridge) -> (r: Option<usize>)
        ensures
            r == self.ram_bank_spec(cartridge@),
            bank_in_range(r),
    {
        normalize_ram_bank(self.ram_bank as usize, ram_bank_count_for(cartridge, 4))
    }

    fn rtc_read(&self) -> (r: u8)
        ensures r == self.rtc_read_spec(),
    {
        if !self.rtc_latched {
            return 0x01;
        }
        let (s, m, h, d) = (self.rtc_seconds, self.rtc_minutes, self.rtc_hours, self.rtc_days);
        proof { lemma_low_byte32(s); lemma_low_byte32(m); lemma_low_byte32(h); lemma_low_byte32(d); }
        match self.rtc_latch_value {
            0x10 => (self.rtc_seconds & 0xFF) as u8,
            0x30 => (self.rtc_minutes & 0xFF) as u8,
            0x50 => (self.rtc_hours & 0xFF) as u8,
            0x70 => (self.rtc_days & 0xFF) as u8,
            _ => 0x01,
        }
    }

    /// Modes 0x00-0x0B map RAM, 0x0C the latched clock register, 0x0D the infrared input.
    pub fn read8(&self, cartridge: &Cartridge, addr: u16) -> (r: u8)
        ensures r == self.read_spec(cartridge@, addr),
    {
        match addr {
            0x0000..=0x7FFF => {
                let bank_count = bank_count(cartridge.bytes.as_slice());
                let bank = normalize_switchable_bank(self.rom_bank as usize, bank_count);
                RomBankMapping::with_banks(cartridge.bytes.as_slice(), 0, bank).read(addr)
            },
            0xA000..=0xBFFF => {
                if !self.ram_enable {
                    return OPEN_BUS;
                }
                match self.mode {
                    0x00..=0x0B => {
                        let ram_bank = self.ram_bank_for(cartridge);
                        read_ext_ram(cartridge, ram_bank, addr)
                    },
                    0x0C => self.rtc_read(),
                    0x0D => self.ir_signal,
                    _ => OPEN_BUS,
                }
            },
            _ => OPEN_BUS,
        }
    }

    fn rtc_command(&mut self, value: u8)
        ensures *final(self) == old(self).rtc_command_spec(value),
    {
        match value & 0xF0 {
            0x10 => {
                if value == 0x11 {
                    self.rtc_latched = true;
                    self.rtc_latch_value = 0x10;
                } else if value == 0x10 {
                    self.rtc_latched = false;
                }
            },
            0x30 => {
                if value == 0x31 {
                    self.rtc_latched = true;
                    self.rtc_latch_value = 0x30;
                }
            },
            0x50 => {
                if value == 0x51 {
                    self.rtc_latched = true;
                    self.rtc_latch_value = 0x50;
                }
            },
            0x70 => {
                if value == 0x71 {
                    self.rtc_latched = true;
                    self.rtc_latch_value = 0x70;
                }
            },
            _ => {},
        }
        proof {
            lemma_byte(value);
        }
    }

    /// RAM writes in modes 0x00-0x0B, clock commands in mode 0x0C, infrared output in 0x0E.
    pub fn write8(&mut self, cartridge: &mut Cartridge, addr: u16, value: u8)
        ensures
            (*final(self), final(cartridge)@) == old(self).write_spec(old(cartridge)@, addr, value),
            final(cartridge).header == old(cartridge).header,
            old(self).wf() ==> final(self).wf(),
    {
        match addr {
            0x0000..=0x1FFF => {
                self.ram_enable = value == 0x0A;
            },
            0x2000..=0x3FFF => {
                let bank = value & 0x7F;
                self.rom_bank = if bank == 0 { 1 } else { bank };
            },
            0x4000..=0x5FFF => {
                self.ram_bank = value & 0x0F;
            },
            0x6000..=0x7FFF => {
                self.mode = value;
            },
            0xA000..=0xBFFF => {
                if !self.ram_enable {
                    return;
                }
                match self.mode {
                    0x00..=0x0B => {
                        let ram_bank = self.ram_bank_for(cartridge);
                        write_ext_ram(cartridge, ram_bank, addr, value);
                    },
                    0x0C => self.rtc_command(value),
                    0x0E => {
                        self.ir_signal = value;
                    },
                    _ => {},
                }
            },
            _ => {},
        }
    }

    /// Advances the clock one second when `cycles` covers at least a frame (1/60 s).
    pub fn tick(&mut self, cycles: u32)
        requires
            old(self).wf(),
            old(self).tick_carries_day(cycles) ==> old(self).rtc_days < u32::MAX,
        ensures
            *final(self) == old(self).tick_spec(cycles),
            final(self).wf(),
    {
        if cycles >= CYCLES_PER_SECOND / 60 {
            self.rtc_seconds += 1;
            if self.rtc_seconds >= 60 {
                self.rtc_seconds = 0;
                self.rtc_minutes += 1;
                if self.rtc_minutes >= 60 {
                    self.rtc_minutes = 0;
                    self.rtc_hours += 1;
                    if self.rtc_hours >= 24 {
                        self.rtc_hours = 0;
                        self.rtc_days += 1;
                    }
                }
            }
        }
    }
}

} // verus!
