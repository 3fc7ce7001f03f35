//! Pocket Camera: MBC3-like banking with the camera's 64 control registers mapped at
//! 0xA000-0xA03F; a capture request completes at once.
use vstd::prelude::*;
use crate::bits::lemma_byte;
use crate::domain::cartridge::{Cartridge, CartView, RomBankMapping, rom_read, banks_for_len};
use crate::domain::mbc::helpers::{EXT_RAM_START, EXT_RAM_END, OPEN_BUS, bank_count, normalize_switchable_spec, normalize_switchable_bank, read_ext_ram_spec, read_ext_ram, write_ext_ram_spec, write_ext_ram};

verus! {

pub const CAMERA_REGISTER_COUNT: usize = 0x40;
pub const CAMERA_REGISTERS_END: u16 = 0xA040;

pub struct PocketCamera {
    pub rom_bank: u8,
    pub ram_bank: u8,
    pub ram_enabled: bool,
    pub camera_registers: Vec<u8>,
}

pub struct PocketCameraView {
    pub rom_bank: u8,
    pub ram_bank: u8,
    pub ram_enabled: bool,
    pub camera_registers: Seq<u8>,
}

impl View for PocketCamera {
    type V = PocketCameraView;

    open spec fn view(&self) -> PocketCameraView {
        PocketCameraView {
            rom_bank: self.rom_bank,
            ram_bank: self.ram_bank,
            ram_enabled: self.ram_enabled,
            camera_registers: self.camera_registers@,
        }
    }
}

/// The value a camera register keeps after `value` is written to register `offset`: a capture
/// request (bit 0 of register 0) is reported complete at once.
pub open spec fn camera_register_value(offset: int, value: u8) -> u8 {
    if offset == 0 && value & 0x01 != 0 { value & 0xFE } else { value }
}

impl PocketCameraView {
    pub open spec fn wf(&self) -> bool {
        self.camera_registers.len() == CAMERA_REGISTER_COUNT
    }

    pub open spec fn read_spec(&self, c: CartView, addr: u16) -> u8 {
        if addr <= 0x7FFF {
            rom_read(c.bytes, 0, normalize_switchable_spec(self.rom_bank as usize, banks_for_len(c.bytes.len() as int) as usize), addr)
        } else if EXT_RAM_START <= addr <= EXT_RAM_END {
            if !self.ram_enabled {
                OPEN_BUS
            } else if addr < CAMERA_REGISTERS_END {
                self.camera_registers[addr - EXT_RAM_START]
            } else {
                read_ext_ram_spec(c, Some(self.ram_bank as usize), addr)
            }
        } else {
            OPEN_BUS
        }
    }

    pub open spec fn write_spec(self, c: CartView, addr: u16, value: u8) -> (PocketCameraView, CartView) {
        if addr <= 0x1FFF {
            (PocketCameraView { ram_enabled: value & 0x0F == 0x0A, ..self }, c)
        } else if addr <= 0x3FFF {
            (PocketCameraView { rom_bank: if value & 0x7F == 0 { 1 } else { value & 0x7F }, ..self }, c)
        } else if addr <= 0x5FFF {
            (PocketCameraView { ram_bank: value & 0x0F, ..self }, c)
        } else if EXT_RAM_START <= addr <= EXT_RAM_END && self.ram_enabled {
            if addr < CAMERA_REGISTERS_END {
                let offset = addr - EXT_RAM_START;
                (PocketCameraView {
                    camera_registers: self.camera_registers.update(offset, camera_register_value(offset, value)),
                    ..self
                }, c)
            } else {
                (self, write_ext_ram_spec(c, Some(self.ram_bank as usize), addr, value))
            }
        } else {
            (self, c)
        }
    }
}

impl PocketCamera {
    pub fn new() -> (m: Self)
        ensures
            m@.wf(),
            m.rom_bank == 1 && m.ram_bank == 0 && !m.ram_enabled,
            forall|i: int| 0 <= i < CAMERA_REGISTER_COUNT ==> m.camera_registers@[i] == 0,
    {
        let mut regs: Vec<u8> = Vec::new();
        let mut i: usize = 0;
        while i < CAMERA_REGISTER_COUNT
            invariant
                i <= CAMERA_REGISTER_COUNT,
                regs@.len() == i,
                forall|j: int| 0 <= j < i ==> regs@[j] == 0,
            decreases CAMERA_REGISTER_COUNT - i,
        {
            regs.push(0);
            i = i + 1;
        }
        PocketCamera { rom_bank: 1, ram_bank: 0, ram_enabled: false, camera_registers: regs }
    }

    /// ROM, the camera registers below 0xA040 and RAM above (in the selected bank).
    pub fn read8(&self, cartridge: &Cartridge, addr: u16) -> (r: u8)
        requires
            self@.wf(),
        ensures
            r == self@.read_spec(cartridge@, addr),
    {
        match addr {
            0x0000..=0x7FFF => {
                let bank_count = bank_count(cartridge.bytes.as_slice());
                let bank = normalize_switchable_bank(self.rom_bank as usize, bank_count);
                RomBankMapping::with_banks(cartridge.bytes.as_slice(), 0, bank).read(addr)
            },
            0xA000..=0xBFFF => {
                if !self.ram_enabled {
                    return OPEN_BUS;
                }
                if addr < CAMERA_REGISTERS_END {
                    let offset = (addr - EXT_RAM_START) as usize;
                    return self.camera_registers[offset];
                }
                read_ext_ram(cartridge, Some(self.ram_bank as usize), addr)
            },
            _ => OPEN_BUS,
        }
    }

    /// Register writes, camera register writes (a capture completes at once) and RAM writes.
    pub fn write8(&mut self, cartridge: &mut Cartridge, addr: u16, value: u8)
        requires
            old(self)@.wf(),
        ensures
            (final(self)@, final(cartridge)@) == old(self)@.write_spec(old(cartridge)@, addr, value),
            final(self)@.wf(),
            final(cartridge).header == old(cartridge).header,
    {
        match addr {
            0x0000..=0x1FFF => {
                self.ram_enabled = (value & 0x0F) == 0x0A;
            },
            0x2000..=0x3FFF => {
                let mut bank = value & 0x7F;
                if bank == 0 {
                    bank = 1;
                }
                self.rom_bank = bank;
            },
            0x4000..=0x5FFF => {
                self.ram_bank = value & 0x0F;
            },
            0xA000..=0xBFFF => {
                if !self.ram_enabled {
                    return;
                }
                if addr < CAMERA_REGISTERS_END {
                    let offset = (addr - EXT_RAM_START) as usize;
                    self.camera_registers.set(offset, value);
                    if offset == 0 && (value & 0x01) != 0 {
                        let v = self.camera_registers[0] & !0x01u8;
                        proof { lemma_byte(value); }
                        self.camera_registers.set(0, v);
                    }
                    assert(self.camera_registers@ =~= old(self).camera_registers@.update(
                        offset as int, camera_register_value(offset as int, value)));
                    return;
                }
                write_ext_ram(cartridge, Some(self.ram_bank as usize), addr, value);
            },
            _ => {},
        }
    }
}

} // verus!
