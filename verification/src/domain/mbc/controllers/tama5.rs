//! Bandai TAMA5: a 5-bit ROM bank and a nibble-wide register interface through which commands
//! read and write 32 half-byte RAM cells and the clock digits.
use vstd::prelude::*;
use crate::bits::{lemma_join_byte, lemma_nibble};
use crate::domain::cartridge::{Cartridge, CartView, RomBankMapping, rom_read, banks_for_len, byte_or_open_bus};
use crate::domain::mbc::helpers::{EXT_RAM_START, EXT_RAM_END, OPEN_BUS, bank_count, normalize_switchable_spec, normalize_switchable_bank};

verus! {

pub const TAMA5_RAM_SIZE: usize = 32;

pub struct Tama5 {
    pub rom_bank: u8,
    pub data_out: u8,
    pub data_in_low: u8,
    pub data_in_high: u8,
    pub addr_low: u8,
    pub addr_high: u8,
    pub rtc_seconds: u8,
    pub rtc_minutes: u8,
    pub rtc_hours_low: u8,
    pub rtc_hours_high: u8,
    pub rtc_days_low: u8,
    pub rtc_days_high: u8,
    pub ram: Vec<u8>,
    pub command_mode: u8,
}

pub struct Tama5View {
    pub rom_bank: u8,
    pub data_out: u8,
    pub data_in_low: u8,
    pub data_in_high: u8,
    pub addr_low: u8,
    pub addr_high: u8,
    pub rtc_seconds: u8,
    pub rtc_minutes: u8,
    pub rtc_hours_low: u8,
    pub rtc_hours_high: u8,
    pub rtc_days_low: u8,
    pub rtc_days_high: u8,
    pub ram: Seq<u8>,
    pub command_mode: u8,
}

impl View for Tama5 {
    type V = Tama5View;

    open spec fn view(&self) -> Tama5View {
        Tama5View {
            rom_bank: self.rom_bank,
            data_out: self.data_out,
            data_in_low: self.data_in_low,
            data_in_high: self.data_in_high,
            addr_low: self.addr_low,
            addr_high: self.addr_high,
            rtc_seconds: self.rtc_seconds,
            rtc_minutes: self.rtc_minutes,
            rtc_hours_low: self.rtc_hours_low,
            rtc_hours_high: self.rtc_hours_high,
            rtc_days_low: self.rtc_days_low,
            rtc_days_high: self.rtc_days_high,
            ram: self.ram@,
            command_mode: self.command_mode,
        }
    }
}

impl Tama5View {
    /// The RAM has its 32 cells and the data/address latches hold nibbles.
    pub open spec fn wf(&self) -> bool {
        &&& self.ram.len() == TAMA5_RAM_SIZE
        &&& self.data_in_low <= 0x0F && self.data_in_high <= 0x0F
        &&& self.addr_low <= 0x0F && self.addr_high <= 0x0F
    }

    pub open spec fn data_spec(&self) -> u8 {
        (self.data_in_low + self.data_in_high * 16) as u8
    }

    pub open spec fn addr_spec(&self) -> u8 {
        (self.addr_low + self.addr_high * 16) as u8
    }

    pub open spec fn read_spec(&self, c: CartView, addr: u16) -> u8 {
        if addr <= 0x3FFF {
            byte_or_open_bus(c.bytes, addr as int)
        } else if addr <= 0x7FFF {
            rom_read(c.bytes, 0, normalize_switchable_spec(self.rom_bank as usize, banks_for_len(c.bytes.len() as int) as usize), addr)
        } else if addr == 0xA000 {
            self.data_out & 0x0F
        } else if addr == 0xA001 {
            (self.data_out >> 4) & 0x0F
        } else {
            OPEN_BUS
        }
    }

    /// The clock digit that register `a` reads.
    pub open spec fn rtc_digit(&self, a: u8) -> u8 {
        if a == 0x00 { self.rtc_seconds & 0x0F }
        else if a == 0x01 { (self.rtc_seconds >> 4) & 0x0F }
        else if a == 0x02 { self.rtc_minutes & 0x0F }
        else if a == 0x03 { (self.rtc_minutes >> 4) & 0x0F }
        else if a == 0x04 { self.rtc_hours_low & 0x0F }
        else if a == 0x05 { self.rtc_hours_high & 0x0F }
        else if a == 0x06 { self.rtc_days_low & 0x0F }
        else if a == 0x07 { self.rtc_days_high & 0x0F }
        else { 0 }
    }

    /// The command in `command_mode` applied to the latched address and data:
    /// 0 writes RAM, 1 reads RAM, 4 reads a clock digit, 5 writes one.
    pub open spec fn process_command_spec(self) -> Tama5View {
        let data = self.data_spec();
        let a = self.addr_spec();
        let d = data & 0x0F;
        if self.command_mode == 0x00 {
            if a < TAMA5_RAM_SIZE { Tama5View { ram: self.ram.update(a as int, d), ..self } } else { self }
        } else if self.command_mode == 0x01 {
            if a < TAMA5_RAM_SIZE { Tama5View { data_out: self.ram[a as int] & 0x0F, ..self } } else { self }
        } else if self.command_mode == 0x04 {
            Tama5View { data_out: self.rtc_digit(a), ..self }
        } else if self.command_mode == 0x05 {
            if a == 0x00 { Tama5View { rtc_seconds: (self.rtc_seconds & 0xF0) | d, ..self } }
            else if a == 0x01 { Tama5View { rtc_seconds: (self.rtc_seconds & 0x0F) | (d << 4u8), ..self } }
            else if a == 0x02 { Tama5View { rtc_minutes: (self.rtc_minutes & 0xF0) | d, ..self } }
            else if a == 0x03 { Tama5View { rtc_minutes: (self.rtc_minutes & 0x0F) | (d << 4u8), ..self } }
            else if a == 0x04 { Tama5View { rtc_hours_low: d, ..self } }
            else if a == 0x05 { Tama5View { rtc_hours_high: d, ..self } }
            else if a == 0x06 { Tama5View { rtc_days_low: d, ..self } }
            else if a == 0x07 { Tama5View { rtc_days_high: d, ..self } }
            else { self }
        } else {
            self
        }
    }

    pub open spec fn write_spec(self, addr: u16, value: u8) -> Tama5View {
        if addr <= 0x1FFF {
            Tama5View { rom_bank: if value & 0x1F == 0 { 1 } else { value & 0x1F }, ..self }
        } else if addr <= 0x3FFF {
            Tama5View { command_mode: value, ..self }
        } else if addr <= 0x5FFF {
            Tama5View { addr_low: value & 0x0F, ..self }
        } else if addr <= 0x7FFF {
            Tama5View { addr_high: value & 0x0F, ..self }
        } else if addr == 0xA000 {
            Tama5View { data_in_low: value & 0x0F, ..self }
        } else if addr == 0xA001 {
            Tama5View { data_in_high: value & 0x0F, ..self }.process_command_spec()
        } else {
            self
        }
    }
}

impl Tama5 {
    pub fn new() -> (m: Self)
        ensures
            m@.wf(),
            m.rom_bank == 1 && m.command_mode == 0 && m.data_out == 0,
            m.data_in_low == 0 && m.data_in_high == 0 && m.addr_low == 0 && m.addr_high == 0,
            m.rtc_seconds == 0 && m.rtc_minutes == 0 && m.rtc_hours_low == 0
                && m.rtc_hours_high == 0 && m.rtc_days_low == 0 && m.rtc_days_high == 0,
            forall|i: int| 0 <= i < TAMA5_RAM_SIZE ==> m.ram@[i] == 0,
    {
        let mut ram: Vec<u8> = Vec::new();
        let mut i: usize = 0;
        while i < TAMA5_RAM_SIZE
            invariant
                i <= TAMA5_RAM_SIZE,
                ram@.len() == i,
                forall|j: int| 0 <= j < i ==> ram@[j] == 0,
            decreases TAMA5_RAM_SIZE - i,
        {
            ram.push(0);
            i = i + 1;
        }
        Tama5 {
            rom_bank: 1,
            data_out: 0,
            data_in_low: 0,
            data_in_high: 0,
            addr_low: 0,
            addr_high: 0,
            rtc_seconds: 0,
            rtc_minutes: 0,
            rtc_hours_low: 0,
            rtc_hours_high: 0,
            rtc_days_low: 0,
            rtc_days_high: 0,
            ram,
            command_mode: 0,
        }
    }

    /// ROM, and the output data register as two nibbles at 0xA000/0xA001.
    pub fn read8(&self, cartridge: &Cartridge, addr: u16) -> (r: u8)
        ensures
            r == self@.read_spec(cartridge@, addr),
    {
        match addr {
            0x0000..=0x3FFF => {
                let offset = addr as usize;
                if offset < cartridge.bytes.len() { cartridge.bytes[offset] } else { OPEN_BUS }
            },
            0x4000..=0x7FFF => {
                let bank_count = bank_count(cartridge.bytes.as_slice());
                let bank = normalize_switchable_bank(self.rom_bank as usize, bank_count);
                RomBankMapping::with_banks(cartridge.bytes.as_slice(), 0, bank).read(addr)
            },
            0xA000..=0xBFFF => {
                if addr == 0xA000 {
                    self.data_out & 0x0F
                } else if addr == 0xA001 {
                    (self.data_out >> 4) & 0x0F
                } else {
                    OPEN_BUS
                }
            },
            _ => OPEN_BUS,
        }
    }

    fn rtc_digit(&self, a: u8) -> (r: u8)
        ensures r == self@.rtc_digit(a),
    {
        match a {
            0x00 => self.rtc_seconds & 0x0F,
            0x01 => (self.rtc_seconds >> 4) & 0x0F,
            0x02 => self.rtc_minutes & 0x0F,
            0x03 => (self.rtc_minutes >> 4) & 0x0F,
            0x04 => self.rtc_hours_low & 0x0F,
            0x05 => self.rtc_hours_high & 0x0F,
            0x06 => self.rtc_days_low & 0x0F,
            0x07 => self.rtc_days_high & 0x0F,
            _ => 0,
        }
    }

    /// Runs the selected command on the latched address and data nibbles.
    fn process_command(&mut self)
        requires
            old(self)@.wf(),
        ensures
            final(self)@ == old(self)@.process_command_spec(),
            final(self)@.wf(),
    {
        let (lo, hi, alo, ahi) = (self.data_in_low, self.data_in_high, self.addr_low, self.addr_high);
        proof { lemma_join_byte(hi, lo); lemma_join_byte(ahi, alo); }
        let data = self.data_in_low | (self.data_in_high << 4);
        let addr = self.addr_low | (self.addr_high << 4);
        match self.command_mode {
            0x00 => {
                if (addr as usize) < self.ram.len() {
                    self.ram.set(addr as usize, data & 0x0F);
                }
            },
            0x01 => {
                if (addr as usize) < self.ram.len() {
                    self.data_out = self.ram[addr as usize] & 0x0F;
                }
            },
            0x04 => {
                self.data_out = self.rtc_digit(addr);
            },
            0x05 => match addr {
                0x00 => self.rtc_seconds = (self.rtc_seconds & 0xF0) | (data & 0x0F),
                0x01 => self.rtc_seconds = (self.rtc_seconds & 0x0F) | ((data & 0x0F) << 4),
                0x02 => self.rtc_minutes = (self.rtc_minutes & 0xF0) | (data & 0x0F),
                0x03 => self.rtc_minutes = (self.rtc_minutes & 0x0F) | ((data & 0x0F) << 4),
                0x04 => self.rtc_hours_low = data & 0x0F,
                0x05 => self.rtc_hours_high = data & 0x0F,
                0x06 => self.rtc_days_low = data & 0x0F,
                0x07 => self.rtc_days_high = data & 0x0F,
                _ => {},
            },
            _ => {},
        }
    }

    /// Bank select, command and address latches, and the data nibbles; writing the high data
    /// nibble runs the command.
    pub fn write8(&mut self, cartridge: &mut Cartridge, addr: u16, value: u8)
        requires
            old(self)@.wf(),
        ensures
            final(self)@ == old(self)@.write_spec(addr, value),
            final(self)@.wf(),
            final(cartridge)@ == old(cartridge)@,
            final(cartridge).header == old(cartridge).header,
    {
        proof { lemma_nibble(value); }
        match addr {
            0x0000..=0x1FFF => {
                let mut bank = value & 0x1F;
                if bank == 0 {
                    bank = 1;
                }
                self.rom_bank = bank;
            },
            0x2000..=0x3FFF => {
                self.command_mode = value;
            },
            0x4000..=0x5FFF => {
                self.addr_low = value & 0x0F;
            },
            0x6000..=0x7FFF => {
                self.addr_high = value & 0x0F;
            },
            0xA000..=0xBFFF => {
                match addr {
                    0xA000 => {
                        self.data_in_low = value & 0x0F;
                    },
                    0xA001 => {
                        self.data_in_high = value & 0x0F;
                        self.process_command();
                    },
                    _ => {},
                }
            },
            _ => {},
        }
    }
}

} // verus!
