//! MBC7: 7-bit ROM bank, an accelerometer (reported centred) and a 93LC56-style serial EEPROM
//! of 128 16-bit words driven bit by bit through a chip-select/clock/data register.
use vstd::prelude::*;
use crate::bits::lemma_command_fields;
use crate::domain::cartridge::{Cartridge, CartView, RomBankMapping, rom_read, banks_for_len};
use crate::domain::mbc::helpers::{OPEN_BUS, bank_count, normalize_switchable_spec, normalize_switchable_bank};

verus! {

pub const MBC7_EEPROM_SIZE: usize = 256;
pub const MBC7_ACCEL_CENTER: u16 = 0x81D0;
pub const MBC7_ACCEL_RESET: u16 = 0x8000;

#[derive(Debug, Clone, Copy, PartialEq, Eq, Structural)]
pub enum Mbc7EepromState {
    Idle,
    ReadCommand,
    ReadData,
    WriteCommand,
    WriteData,
    Busy,
}

pub struct Mbc7 {
    pub rom_bank: u8,
    pub ram_enable_1: bool,
    pub ram_enable_2: bool,
    pub accel_x: u16,
    pub accel_y: u16,
    pub accel_latched: bool,
    pub eeprom: Vec<u8>,
    pub eeprom_cs: bool,
    pub eeprom_clk: bool,
    pub eeprom_di: bool,
    pub eeprom_do: bool,
    pub eeprom_write_enabled: bool,
    pub eeprom_command: u16,
    pub eeprom_bits: u8,
    pub eeprom_state: Mbc7EepromState,
}

/// The state of an MBC7 with the EEPROM as a sequence.
pub struct Mbc7View {
    pub rom_bank: u8,
    pub ram_enable_1: bool,
    pub ram_enable_2: bool,
    pub accel_x: u16,
    pub accel_y: u16,
    pub accel_latched: bool,
    pub eeprom: Seq<u8>,
    pub eeprom_cs: bool,
    pub eeprom_clk: bool,
    pub eeprom_di: bool,
    pub eeprom_do: bool,
    pub eeprom_write_enabled: bool,
    pub eeprom_command: u16,
    pub eeprom_bits: u8,
    pub eeprom_state: Mbc7EepromState,
}

impl View for Mbc7 {
    type V = Mbc7View;

    open spec fn view(&self) -> Mbc7View {
        Mbc7View {
            rom_bank: self.rom_bank,
            ram_enable_1: self.ram_enable_1,
            ram_enable_2: self.ram_enable_2,
            accel_x: self.accel_x,
            accel_y: self.accel_y,
            accel_latched: self.accel_latched,
            eeprom: self.eeprom@,
            eeprom_cs: self.eeprom_cs,
            eeprom_clk: self.eeprom_clk,
            eeprom_di: self.eeprom_di,
            eeprom_do: self.eeprom_do,
            eeprom_write_enabled: self.eeprom_write_enabled,
            eeprom_command: self.eeprom_command,
            eeprom_bits: self.eeprom_bits,
            eeprom_state: self.eeprom_state,
        }
    }
}

/// The EEPROM word address held in the low 7 bits of the shift register.
pub open spec fn word_addr(command: u16) -> int {
    (command & 0x7F) as int
}

/// Bit `bit` (MSB first) of the 16-bit word at `addr`.
pub open spec fn eeprom_bit(eeprom: Seq<u8>, addr: int, bit: int) -> bool {
    let byte = eeprom[addr * 2 + bit / 8];
    (byte >> ((7 - bit % 8) as u8)) & 1 != 0
}

impl Mbc7View {
    /// The EEPROM has its size, and the bit counter stays within the phase it counts.
    pub open spec fn wf(&self) -> bool {
        &&& self.eeprom.len() == MBC7_EEPROM_SIZE
        &&& self.eeprom_state == Mbc7EepromState::ReadCommand ==> self.eeprom_bits < 10
        &&& self.eeprom_state == Mbc7EepromState::WriteData ==> self.eeprom_bits < 16
        &&& self.eeprom_state == Mbc7EepromState::ReadData ==> self.eeprom_bits <= 16
    }

    /// The EEPROM pin register: DO in bit 0, DI in bit 1, CLK in bit 6, CS in bit 7.
    pub open spec fn pins_spec(&self) -> u8 {
        (if self.eeprom_do { 0x01u8 } else { 0 }) | (if self.eeprom_di { 0x02u8 } else { 0 })
            | (if self.eeprom_clk { 0x40u8 } else { 0 }) | (if self.eeprom_cs { 0x80u8 } else { 0 })
    }

    pub open spec fn read_spec(&self, c: CartView, addr: u16) -> u8 {
        if addr <= 0x7FFF {
            rom_read(c.bytes, 0, normalize_switchable_spec(self.rom_bank as usize, banks_for_len(c.bytes.len() as int) as usize), addr)
        } else if 0xA000 <= addr <= 0xAFFF {
            if !self.ram_enable_1 || !self.ram_enable_2 {
                OPEN_BUS
            } else {
                let reg = (addr >> 4) & 0x0F;
                if reg == 0x2 { (self.accel_x & 0xFF) as u8 }
                else if reg == 0x3 { (self.accel_x >> 8) as u8 }
                else if reg == 0x4 { (self.accel_y & 0xFF) as u8 }
                else if reg == 0x5 { (self.accel_y >> 8) as u8 }
                else if reg == 0x6 { 0x00 }
                else if reg == 0x7 { 0xFF }
                else if reg == 0x8 { self.pins_spec() }
                else { OPEN_BUS }
            }
        } else {
            OPEN_BUS
        }
    }

    /// Chip select edges: rising starts a command, falling ends the operation.
    pub open spec fn cs_edges_spec(self, new_cs: bool) -> Mbc7View {
        if new_cs && !self.eeprom_cs {
            Mbc7View { eeprom_command: 0, eeprom_bits: 0, eeprom_state: Mbc7EepromState::ReadCommand, ..self }
        } else if !new_cs && self.eeprom_cs {
            Mbc7View { eeprom_bits: 0, eeprom_state: Mbc7EepromState::Idle, ..self }
        } else {
            self
        }
    }

    /// The state after the 10 command bits (2 start/opcode bits, 8 address or sub-command bits)
    /// have been shifted in.
    pub open spec fn process_command_spec(self) -> Mbc7View {
        let opcode = (self.eeprom_command >> 8) & 0x3;
        let addr = word_addr(self.eeprom_command);
        if opcode == 0b10 {
            Mbc7View {
                eeprom_state: Mbc7EepromState::ReadData,
                eeprom_bits: 0,
                eeprom_do: eeprom_bit(self.eeprom, addr, 0),
                ..self
            }
        } else if opcode == 0b01 {
            if self.eeprom_write_enabled {
                Mbc7View { eeprom_state: Mbc7EepromState::WriteData, eeprom_bits: 0, ..self }
            } else {
                Mbc7View { eeprom_state: Mbc7EepromState::Idle, ..self }
            }
        } else if opcode == 0b11 {
            if self.eeprom_write_enabled {
                Mbc7View {
                    eeprom: self.eeprom.update(addr * 2, 0xFF).update(addr * 2 + 1, 0xFF),
                    eeprom_state: Mbc7EepromState::Busy,
                    ..self
                }
            } else {
                Mbc7View { eeprom_state: Mbc7EepromState::Idle, ..self }
            }
        } else {
            let special = (self.eeprom_command >> 6) & 0x3;
            if special == 0b11 {
                Mbc7View { eeprom_write_enabled: true, eeprom_state: Mbc7EepromState::Idle, ..self }
            } else if special == 0b00 {
                Mbc7View { eeprom_write_enabled: false, eeprom_state: Mbc7EepromState::Idle, ..self }
            } else if special == 0b10 {
                if self.eeprom_write_enabled {
                    Mbc7View {
                        eeprom: Seq::new(self.eeprom.len(), |i: int| 0xFFu8),
                        eeprom_state: Mbc7EepromState::Idle,
                        ..self
                    }
                } else {
                    Mbc7View { eeprom_state: Mbc7EepromState::Idle, ..self }
                }
            } else {
                if self.eeprom_write_enabled {
                    Mbc7View { eeprom_state: Mbc7EepromState::WriteData, eeprom_bits: 0, ..self }
                } else {
                    Mbc7View { eeprom_state: Mbc7EepromState::Idle, ..self }
                }
            }
        }
    }

    /// Stores the 16 data bits at the word address taken from their low 7 bits; each byte that
    /// changes marks RAM dirty.
    pub open spec fn complete_write_spec(self, c: CartView) -> (Mbc7View, CartView) {
        let addr = word_addr(self.eeprom_command);
        let high = (self.eeprom_command >> 8) as u8;
        let low = (self.eeprom_command & 0xFF) as u8;
        let c1 = if self.eeprom[addr * 2] != high { c.marked_dirty() } else { c };
        let c2 = if self.eeprom[addr * 2 + 1] != low { c1.marked_dirty() } else { c1 };
        (Mbc7View {
            eeprom: self.eeprom.update(addr * 2, high).update(addr * 2 + 1, low),
            eeprom_state: Mbc7EepromState::Busy,
            eeprom_bits: 0,
            ..self
        }, c2)
    }

    /// A rising clock edge with chip select high shifts in `di` or finishes a busy cycle.
    pub open spec fn clock_rise_spec(self, c: CartView, di: bool) -> (Mbc7View, CartView) {
        let shifted = Mbc7View {
            eeprom_command: (self.eeprom_command << 1u16) | (if di { 1u16 } else { 0 }),
            eeprom_bits: (self.eeprom_bits + 1) as u8,
            ..self
        };
        match self.eeprom_state {
            Mbc7EepromState::ReadCommand => {
                if shifted.eeprom_bits >= 10 { (shifted.process_command_spec(), c) } else { (shifted, c) }
            },
            Mbc7EepromState::WriteData => {
                if shifted.eeprom_bits >= 16 { shifted.complete_write_spec(c) } else { (shifted, c) }
            },
            Mbc7EepromState::Busy => (Mbc7View { eeprom_do: true, eeprom_state: Mbc7EepromState::Idle, ..self }, c),
            _ => (self, c),
        }
    }

    /// A falling clock edge while reading presents the next data bit on DO.
    pub open spec fn clock_fall_spec(self) -> Mbc7View {
        if self.eeprom_state == Mbc7EepromState::ReadData && self.eeprom_bits < 16 {
            let next_bit = self.eeprom_bits + 1;
            Mbc7View {
                eeprom_do: if next_bit < 16 { eeprom_bit(self.eeprom, word_addr(self.eeprom_command), next_bit) } else { self.eeprom_do },
                eeprom_bits: next_bit as u8,
                ..self
            }
        } else {
            self
        }
    }

    /// A write of the pin register: CS in bit 7, CLK in bit 6, DI in bit 1.
    pub open spec fn eeprom_register_spec(self, c: CartView, value: u8) -> (Mbc7View, CartView) {
        let new_cs = value & 0x80 != 0;
        let new_clk = value & 0x40 != 0;
        let new_di = value & 0x02 != 0;
        let s1 = self.cs_edges_spec(new_cs);
        let (s2, c2) = if new_clk && !self.eeprom_clk && new_cs { s1.clock_rise_spec(c, new_di) } else { (s1, c) };
        let s3 = if !new_clk && self.eeprom_clk && new_cs { s2.clock_fall_spec() } else { s2 };
        (Mbc7View { eeprom_cs: new_cs, eeprom_clk: new_clk, eeprom_di: new_di, ..s3 }, c2)
    }

    pub open spec fn write_spec(self, c: CartView, addr: u16, value: u8) -> (Mbc7View, CartView) {
        if addr <= 0x1FFF {
            (Mbc7View { ram_enable_1: value & 0x0F == 0x0A, ..self }, c)
        } else if addr <= 0x3FFF {
            (Mbc7View { rom_bank: if value & 0x7F == 0 { 1 } else { value & 0x7F }, ..self }, c)
        } else if addr <= 0x5FFF {
            (Mbc7View { ram_enable_2: value == 0x40, ..self }, c)
        } else if 0xA000 <= addr <= 0xAFFF && self.ram_enable_1 && self.ram_enable_2 {
            let reg = (addr >> 4) & 0x0F;
            if reg == 0x0 && value == 0x55 {
                (Mbc7View { accel_x: MBC7_ACCEL_RESET, accel_y: MBC7_ACCEL_RESET, accel_latched: false, ..self }, c)
            } else if reg == 0x1 && value == 0xAA && !self.accel_latched {
                (Mbc7View { accel_x: MBC7_ACCEL_CENTER, accel_y: MBC7_ACCEL_CENTER, accel_latched: true, ..self }, c)
            } else if reg == 0x8 {
                self.eeprom_register_spec(c, value)
            } else {
                (self, c)
            }
        } else {
            (self, c)
        }
    }
}

impl Mbc7 {
    /// ROM bank 1, both RAM enables off, accelerometer at rest, EEPROM erased.
    pub fn new() -> (m: Self)
        ensures
            m@.wf(),
            m.rom_bank == 1 && !m.ram_enable_1 && !m.ram_enable_2,
            m.accel_x == MBC7_ACCEL_RESET && m.accel_y == MBC7_ACCEL_RESET && !m.accel_latched,
            forall|i: int| 0 <= i < MBC7_EEPROM_SIZE ==> m.eeprom@[i] == 0xFF,
            !m.eeprom_cs && !m.eeprom_clk && !m.eeprom_di && !m.eeprom_do && !m.eeprom_write_enabled,
            m.eeprom_command == 0 && m.eeprom_bits == 0 && m.eeprom_state == Mbc7EepromState::Idle,
    {
        let mut eeprom: Vec<u8> = Vec::new();
        let mut i: usize = 0;
        while i < MBC7_EEPROM_SIZE
            invariant
                i <= MBC7_EEPROM_SIZE,
                eeprom@.len() == i,
                forall|j: int| 0 <= j < i ==> eeprom@[j] == 0xFF,
            decreases MBC7_EEPROM_SIZE - i,
        {
            eeprom.push(0xFF);
            i = i + 1;
        }
        Mbc7 {
            rom_bank: 1,
            ram_enable_1: false,
            ram_enable_2: false,
            accel_x: MBC7_ACCEL_RESET,
            accel_y: MBC7_ACCEL_RESET,
            accel_latched: false,
            eeprom,
            eeprom_cs: false,
            eeprom_clk: false,
            eeprom_di: false,
            eeprom_do: false,
            eeprom_write_enabled: false,
            eeprom_command: 0,
            eeprom_bits: 0,
            eeprom_state: Mbc7EepromState::Idle,
        }
    }

    fn pins(&self) -> (r: u8)
        ensures r == self@.pins_spec(),
    {
        let d: u8 = if self.eeprom_do { 0x01 } else { 0 };
        let i: u8 = if self.eeprom_di { 0x02 } else { 0 };
        let k: u8 = if self.eeprom_clk { 0x40 } else { 0 };
        let s: u8 = if self.eeprom_cs { 0x80 } else { 0 };
        d | i | k | s
    }

    /// ROM reads, and with both enables set the accelerometer and EEPROM registers selected by
    /// address bits 4-7.
    pub fn read8(&self, cartridge: &Cartridge, addr: u16) -> (r: u8)
        ensures r == self@.read_spec(cartridge@, addr),
    {
        match addr {
            0x0000..=0x7FFF => {
                let bank_count = bank_count(cartridge.bytes.as_slice());
                let bank = normalize_switchable_bank(self.rom_bank as usize, bank_count);
                RomBankMapping::with_banks(cartridge.bytes.as_slice(), 0, bank).read(addr)
            },
            0xA000..=0xAFFF => {
                if !self.ram_enable_1 || !self.ram_enable_2 {
                    return OPEN_BUS;
                }
                let reg = (addr >> 4) & 0x0F;
                match reg {
                    0x2 => (self.accel_x & 0xFF) as u8,
                    0x3 => (self.accel_x >> 8) as u8,
                    0x4 => (self.accel_y & 0xFF) as u8,
                    0x5 => (self.accel_y >> 8) as u8,
                    0x6 => 0x00,
                    0x7 => 0xFF,
                    0x8 => self.pins(),
                    _ => OPEN_BUS,
                }
            },
            _ => OPEN_BUS,
        }
    }

    /// Bit `bit` of the word at `addr`.
    fn read_bit(&self, addr: usize, bit: u8) -> (r: bool)
        requires
            self@.wf(),
            addr < 128,
            bit < 16,
        ensures
            r == eeprom_bit(self.eeprom@, addr as int, bit as int),
    {
        let byte = self.eeprom[addr * 2 + (bit / 8) as usize];
        let bit_in_byte = 7 - (bit % 8);
        (byte >> bit_in_byte) & 1 != 0
    }

    /// Decodes the shifted-in command: READ, WRITE, ERASE, or EWEN/EWDS/ERAL/WRAL.
    fn process_eeprom_command(&mut self)
        requires
            old(self).eeprom@.len() == MBC7_EEPROM_SIZE,
            old(self).eeprom_state == Mbc7EepromState::ReadCommand,
        ensures
            final(self)@ == old(self)@.process_command_spec(),
            final(self)@.wf(),
    {
        let opcode = (self.eeprom_command >> 8) & 0x3;
        let addr = (self.eeprom_command & 0x7F) as usize;
        let ghost cmd = self.eeprom_command;
        proof { lemma_command_fields(cmd); }
        let ghost s0 = self@;
        match opcode {
            0b10 => {
                self.eeprom_state = Mbc7EepromState::ReadData;
                self.eeprom_bits = 0;
                if addr * 2 < MBC7_EEPROM_SIZE {
                    self.eeprom_do = self.read_bit(addr, 0);
                } else {
                    self.eeprom_do = true;
                }
            },
            0b01 => {
                if self.eeprom_write_enabled {
                    self.eeprom_state = Mbc7EepromState::WriteData;
                    self.eeprom_bits = 0;
                } else {
                    self.eeprom_state = Mbc7EepromState::Idle;
                }
            },
            0b11 => {
                if self.eeprom_write_enabled && addr * 2 + 1 < MBC7_EEPROM_SIZE {
                    self.eeprom.set(addr * 2, 0xFF);
                    self.eeprom.set(addr * 2 + 1, 0xFF);
                    self.eeprom_state = Mbc7EepromState::Busy;
                } else {
                    self.eeprom_state = Mbc7EepromState::Idle;
                }
            },
            _ => {
                let special = (self.eeprom_command >> 6) & 0x3;
                match special {
                    0b11 => {
                        self.eeprom_write_enabled = true;
                    },
                    0b00 => {
                        self.eeprom_write_enabled = false;
                    },
                    0b10 => {
                        if self.eeprom_write_enabled {
                            let mut i: usize = 0;
                            while i < MBC7_EEPROM_SIZE
                                invariant
                                    i <= MBC7_EEPROM_SIZE,
                                    self@ == (Mbc7View { eeprom: self.eeprom@, ..s0 }),
                                    self.eeprom@.len() == MBC7_EEPROM_SIZE,
                                    forall|j: int| 0 <= j < i ==> self.eeprom@[j] == 0xFF,
                                decreases MBC7_EEPROM_SIZE - i,
                            {
                                self.eeprom.set(i, 0xFF);
                                i = i + 1;
                            }
                            assert(self.eeprom@ =~= Seq::new(s0.eeprom.len(), |i: int| 0xFFu8));
                            self.eeprom_state = Mbc7EepromState::Busy;
                        }
                    },
                    _ => {
                        if self.eeprom_write_enabled {
                            self.eeprom_state = Mbc7EepromState::WriteData;
                            self.eeprom_bits = 0;
                        }
                    },
                }
                if self.eeprom_state != Mbc7EepromState::WriteData {
                    self.eeprom_state = Mbc7EepromState::Idle;
                }
            },
        }
    }

    /// Stores the shifted-in word and enters the busy state.
    fn complete_eeprom_write(&mut self, cartridge: &mut Cartridge)
        requires
            old(self).eeprom@.len() == MBC7_EEPROM_SIZE,
        ensures
            (final(self)@, final(cartridge)@) == old(self)@.complete_write_spec(old(cartridge)@),
            final(self)@.wf(),
            final(cartridge).header == old(cartridge).header,
    {
        let addr = (self.eeprom_command & 0x7F) as usize;
        let write_data = self.eeprom_command;
        let ghost cmd = self.eeprom_command;
        proof { lemma_command_fields(cmd); }
        let ghost s0 = self@;
        if addr * 2 + 1 < MBC7_EEPROM_SIZE {
            let high_byte = (write_data >> 8) as u8;
            let low_byte = (write_data & 0xFF) as u8;
            if self.eeprom[addr * 2] != high_byte {
                self.eeprom.set(addr * 2, high_byte);
                cartridge.mark_ram_dirty();
            }
            if self.eeprom[addr * 2 + 1] != low_byte {
                self.eeprom.set(addr * 2 + 1, low_byte);
                cartridge.mark_ram_dirty();
            }
            assert(self.eeprom@ =~= s0.eeprom.update(addr * 2, high_byte).update(addr * 2 + 1, low_byte));
        }
        self.eeprom_state = Mbc7EepromState::Busy;
        self.eeprom_bits = 0;
    }

    fn clock_rise(&mut self, cartridge: &mut Cartridge, new_di: bool)
        requires
            old(self)@.wf(),
        ensures
            (final(self)@, final(cartridge)@) == old(self)@.clock_rise_spec(old(cartridge)@, new_di),
            final(self)@.wf(),
            final(cartridge).header == old(cartridge).header,
    {
        match self.eeprom_state {
            Mbc7EepromState::ReadCommand => {
                self.eeprom_command = (self.eeprom_command << 1) | (new_di as u16);
                self.eeprom_bits += 1;
                if self.eeprom_bits >= 10 {
                    self.process_eeprom_command();
                }
            },
            Mbc7EepromState::WriteData => {
                self.eeprom_command = (self.eeprom_command << 1) | (new_di as u16);
                self.eeprom_bits += 1;
                if self.eeprom_bits >= 16 {
                    self.complete_eeprom_write(cartridge);
                }
            },
            Mbc7EepromState::ReadData => {},
            Mbc7EepromState::Busy => {
                self.eeprom_do = true;
                self.eeprom_state = Mbc7EepromState::Idle;
            },
            _ => {},
        }
    }

    fn clock_fall(&mut self)
        requires
            old(self)@.wf(),
        ensures
            final(self)@ == old(self)@.clock_fall_spec(),
            final(self)@.wf(),
    {
        if self.eeprom_state == Mbc7EepromState::ReadData && self.eeprom_bits < 16 {
            let addr = (self.eeprom_command & 0x7F) as usize;
            let ghost cmd = self.eeprom_command;
            proof { lemma_command_fields(cmd); }
            let next_bit = self.eeprom_bits + 1;
            if next_bit < 16 {
                let byte_offset = addr * 2 + (next_bit / 8) as usize;
                if byte_offset < MBC7_EEPROM_SIZE {
                    self.eeprom_do = self.read_bit(addr, next_bit);
                }
            }
            self.eeprom_bits = next_bit;
        }
    }

    /// Drives the EEPROM from a write of the pin register.
    fn write_eeprom_register(&mut self, cartridge: &mut Cartridge, value: u8)
        requires
            old(self)@.wf(),
        ensures
            (final(self)@, final(cartridge)@) == old(self)@.eeprom_register_spec(old(cartridge)@, value),
            final(self)@.wf(),
            final(cartridge).header == old(cartridge).header,
    {
        let new_cs = (value & 0x80) != 0;
        let new_clk = (value & 0x40) != 0;
        let new_di = (value & 0x02) != 0;
        let old_clk = self.eeprom_clk;
        if new_cs && !self.eeprom_cs {
            self.eeprom_command = 0;
            self.eeprom_bits = 0;
            self.eeprom_state = Mbc7EepromState::ReadCommand;
        }
        if !new_cs && self.eeprom_cs {
            self.eeprom_state = Mbc7EepromState::Idle;
            self.eeprom_bits = 0;
        }
        if new_clk && !old_clk && new_cs {
            self.clock_rise(cartridge, new_di);
        }
        if !new_clk && old_clk && new_cs {
            self.clock_fall();
        }
        self.eeprom_cs = new_cs;
        self.eeprom_clk = new_clk;
        self.eeprom_di = new_di;
    }

    /// Enable registers, ROM bank select, accelerometer latch/reset and the EEPROM pins.
    pub fn write8(&mut self, cartridge: &mut Cartridge, addr: u16, value: u8)
        requires
            old(self)@.wf(),
        ensures
            (final(self)@, final(cartridge)@) == old(self)@.write_spec(old(cartridge)@, addr, value),
            final(self)@.wf(),
            final(cartridge).header == old(cartridge).header,
    {
        match addr {
            0x0000..=0x1FFF => {
                self.ram_enable_1 = (value & 0x0F) == 0x0A;
            },
            0x2000..=0x3FFF => {
                let bank = value & 0x7F;
                self.rom_bank = if bank == 0 { 1 } else { bank };
            },
            0x4000..=0x5FFF => {
                self.ram_enable_2 = value == 0x40;
            },
            0xA000..=0xAFFF => {
                if !self.ram_enable_1 || !self.ram_enable_2 {
                    return;
                }
                let reg = (addr >> 4) & 0x0F;
                match reg {
                    0x0 => {
                        if value == 0x55 {
                            self.accel_x = MBC7_ACCEL_RESET;
                            self.accel_y = MBC7_ACCEL_RESET;
                            self.accel_latched = false;
                        }
                    },
                    0x1 => {
                        if value == 0xAA && !self.accel_latched {
                            self.accel_x = MBC7_ACCEL_CENTER;
                            self.accel_y = MBC7_ACCEL_CENTER;
                            self.accel_latched = true;
                        }
                    },
                    0x8 => {
                        self.write_eeprom_register(cartridge, value);
                    },
                    _ => {},
                }
            },
            _ => {},
        }
    }
}

} // verus!

verus! {

/// Commands that change the EEPROM (WRITE, ERASE, ERAL, WRAL) do nothing while writing is
/// disabled: the EEPROM keeps its contents and the chip returns to idle. Only EWEN turns
/// writing on.
pub proof fn lemma_eeprom_writes_need_enable(v: Mbc7View)
    requires
        !v.eeprom_write_enabled,
        (v.eeprom_command >> 8) & 0x3 != 0b10,
    ensures
        ({
            let r = v.process_command_spec();
            &&& r.eeprom == v.eeprom
            &&& r.eeprom_state == Mbc7EepromState::Idle
            &&& r.eeprom_write_enabled
                == ((v.eeprom_command >> 8) & 0x3 == 0 && (v.eeprom_command >> 6) & 0x3 == 0b11)
        }),
{
    lemma_command_fields(v.eeprom_command);
}

} // verus!
