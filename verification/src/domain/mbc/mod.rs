//! Memory bank controllers: the cartridge-side address decoding chosen by the header's
//! cartridge type, dispatched through one `Mbc` value.
pub mod helpers;
pub mod rtc;
pub mod controllers;
pub mod laws;

use vstd::prelude::*;
use crate::domain::cartridge::{Cartridge, CartView, CartridgeType};
pub use crate::domain::mbc::helpers::bank_count;
pub use crate::domain::mbc::rtc::{RtcMode, CYCLES_PER_SECOND};
use crate::domain::mbc::rtc::Rtc;
use crate::domain::mbc::controllers::rom_only::{read_rom_only_spec, write_rom_only_spec, read_rom_only, write_rom_only};
use crate::domain::mbc::controllers::mbc1::{Mbc1, Mbc1Mode};
use crate::domain::mbc::controllers::mmm01::Mmm01;
use crate::domain::mbc::controllers::mbc2::Mbc2;
use crate::domain::mbc::controllers::mbc3::Mbc3;
use crate::domain::mbc::controllers::mbc5::Mbc5;
use crate::domain::mbc::controllers::huc1::HuC1;
use crate::domain::mbc::controllers::huc3::HuC3;
use crate::domain::mbc::controllers::mbc6::{Mbc6, Mbc6View, MBC6_FLASH_SIZE, MBC6_SRAM_SIZE};
use crate::domain::mbc::controllers::mbc7::{Mbc7, Mbc7View, Mbc7EepromState, MBC7_EEPROM_SIZE, MBC7_ACCEL_RESET};
use crate::domain::mbc::controllers::pocket_camera::{PocketCamera, PocketCameraView, CAMERA_REGISTER_COUNT};
use crate::domain::mbc::controllers::tama5::{Tama5, Tama5View, TAMA5_RAM_SIZE};

verus! {

#[derive(Debug, Clone, Copy, PartialEq, Eq, Structural)]
pub enum MbcError {
    UnsupportedCartridgeType(CartridgeType),
}

pub enum MbcKind {
    RomOnly,
    Mbc1(Mbc1),
    Mmm01(Mmm01),
    Mbc2(Mbc2),
    Mbc3(Mbc3),
    Mbc5(Mbc5),
    HuC1(HuC1),
    HuC3(HuC3),
    Mbc6(Mbc6),
    Mbc7(Mbc7),
    PocketCamera(PocketCamera),
    Tama5(Tama5),
}

/// A bank controller of whichever kind the cartridge declares.
pub struct Mbc {
    pub kind: MbcKind,
}

/// The controller state, with the memories of the larger controllers as sequences.
pub enum MbcView {
    RomOnly,
    Mbc1(Mbc1),
    Mmm01(Mmm01),
    Mbc2(Mbc2),
    Mbc3(Mbc3),
    Mbc5(Mbc5),
    HuC1(HuC1),
    HuC3(HuC3),
    Mbc6(Mbc6View),
    Mbc7(Mbc7View),
    PocketCamera(PocketCameraView),
    Tama5(Tama5View),
}

impl View for Mbc {
    type V = MbcView;

    open spec fn view(&self) -> MbcView {
        match &self.kind {
            MbcKind::RomOnly => MbcView::RomOnly,
            MbcKind::Mbc1(m) => MbcView::Mbc1(*m),
            MbcKind::Mmm01(m) => MbcView::Mmm01(*m),
            MbcKind::Mbc2(m) => MbcView::Mbc2(*m),
            MbcKind::Mbc3(m) => MbcView::Mbc3(*m),
            MbcKind::Mbc5(m) => MbcView::Mbc5(*m),
            MbcKind::HuC1(m) => MbcView::HuC1(*m),
            MbcKind::HuC3(m) => MbcView::HuC3(*m),
            MbcKind::Mbc6(m) => MbcView::Mbc6(m@),
            MbcKind::Mbc7(m) => MbcView::Mbc7(m@),
            MbcKind::PocketCamera(m) => MbcView::PocketCamera(m@),
            MbcKind::Tama5(m) => MbcView::Tama5(m@),
        }
    }
}

pub open spec fn zero_rtc() -> Rtc {
    Rtc { seconds: 0, minutes: 0, hours: 0, day_low: 0, day_high: 0 }
}

/// The controller a cartridge type starts with, or `None` for a type without one.
pub open spec fn initial_view(t: CartridgeType) -> Option<MbcView> {
    match t {
        CartridgeType::RomOnly | CartridgeType::RomRam | CartridgeType::RomRamBattery => Some(MbcView::RomOnly),
        CartridgeType::Mbc1 | CartridgeType::Mbc1Ram | CartridgeType::Mbc1RamBattery =>
            Some(MbcView::Mbc1(Mbc1 { rom_bank_low5: 1, bank_high2: 0, ram_bank: 0, mode: Mbc1Mode::RomBanking, ram_enabled: false })),
        CartridgeType::Mmm01 | CartridgeType::Mmm01Ram | CartridgeType::Mmm01RamBattery =>
            Some(MbcView::Mmm01(Mmm01 {
                mapped: false, rom_bank_low: 1, rom_bank_high: 0, ram_bank: 0, ram_enabled: false,
                mode: false, rom_base: 0, rom_mask: 0xFF, ram_base: 0, ram_mask: 0xFF,
            })),
        CartridgeType::Mbc2 | CartridgeType::Mbc2Battery => Some(MbcView::Mbc2(Mbc2 { rom_bank: 1, ram_enabled: false })),
        CartridgeType::Mbc3 | CartridgeType::Mbc3Ram | CartridgeType::Mbc3RamBattery
        | CartridgeType::Mbc3TimerBattery | CartridgeType::Mbc3TimerRamBattery =>
            Some(MbcView::Mbc3(Mbc3 {
                rom_bank: 1, ram_bank: 0, rtc_reg: None, ram_enabled: false, latch_pending: false,
                has_rtc: t == CartridgeType::Mbc3TimerBattery || t == CartridgeType::Mbc3TimerRamBattery,
                rtc_mode: RtcMode::Deterministic, rtc_host_base: None, rtc_counter: 0,
                rtc: zero_rtc(), rtc_latched: zero_rtc(), latched: false,
            })),
        CartridgeType::Mbc5 | CartridgeType::Mbc5Ram | CartridgeType::Mbc5RamBattery
        | CartridgeType::Mbc5Rumble | CartridgeType::Mbc5RumbleRam | CartridgeType::Mbc5RumbleRamBattery =>
            Some(MbcView::Mbc5(Mbc5 { rom_bank_low: 1, rom_bank_high: 0, ram_bank: 0, ram_enabled: false })),
        CartridgeType::HuC1RamBattery => Some(MbcView::HuC1(HuC1 { rom_bank: 1, ram_bank: 0, ir_mode: false, ir_signal: false })),
        CartridgeType::HuC3 => Some(MbcView::HuC3(HuC3 {
            rom_bank: 1, ram_bank: 0, ram_enable: false, mode: 0, rtc_latched: false,
            rtc_latch_value: 0, rtc_seconds: 0, rtc_minutes: 0, rtc_hours: 0, rtc_days: 0, ir_signal: 0,
        })),
        CartridgeType::Mbc6 => Some(MbcView::Mbc6(Mbc6View {
            rom_bank_a: 2, rom_bank_b: 3, flash_bank_a: 0, flash_bank_b: 0, ram_enable: false,
            flash_enable: false, flash: Seq::new(MBC6_FLASH_SIZE as nat, |i: int| 0xFFu8),
            sram: Seq::new(MBC6_SRAM_SIZE as nat, |i: int| 0u8), flash_command: 0,
        })),
        CartridgeType::Mbc7SensorRumbleRamBattery => Some(MbcView::Mbc7(Mbc7View {
            rom_bank: 1, ram_enable_1: false, ram_enable_2: false, accel_x: MBC7_ACCEL_RESET,
            accel_y: MBC7_ACCEL_RESET, accel_latched: false,
            eeprom: Seq::new(MBC7_EEPROM_SIZE as nat, |i: int| 0xFFu8), eeprom_cs: false,
            eeprom_clk: false, eeprom_di: false, eeprom_do: false, eeprom_write_enabled: false,
            eeprom_command: 0, eeprom_bits: 0, eeprom_state: Mbc7EepromState::Idle,
        })),
        CartridgeType::PocketCamera => Some(MbcView::PocketCamera(PocketCameraView {
            rom_bank: 1, ram_bank: 0, ram_enabled: false,
            camera_registers: Seq::new(CAMERA_REGISTER_COUNT as nat, |i: int| 0u8),
        })),
        CartridgeType::BandaiTama5 => Some(MbcView::Tama5(Tama5View {
            rom_bank: 1, data_out: 0, data_in_low: 0, data_in_high: 0, addr_low: 0, addr_high: 0,
            rtc_seconds: 0, rtc_minutes: 0, rtc_hours_low: 0, rtc_hours_high: 0, rtc_days_low: 0,
            rtc_days_high: 0, ram: Seq::new(TAMA5_RAM_SIZE as nat, |i: int| 0u8), command_mode: 0,
        })),
        _ => None,
    }
}

/// Every cartridge type that a header byte names has a controller; only an unknown code has
/// none. So a cartridge is refused for its type exactly when the type is unknown.
pub proof fn lemma_named_types_have_controllers(t: CartridgeType)
    ensures
        initial_view(t) is None <==> t is Unknown,
{
}

impl MbcView {
    pub open spec fn wf(&self) -> bool {
        match self {
            MbcView::Mmm01(m) => m.wf(),
            MbcView::HuC3(m) => m.wf(),
            MbcView::Mbc6(m) => m.wf(),
            MbcView::Mbc7(m) => m.wf(),
            MbcView::PocketCamera(m) => m.wf(),
            MbcView::Tama5(m) => m.wf(),
            _ => true,
        }
    }

    /// Whether nothing the controller does depends on the host clock.
    pub open spec fn clock_free(&self) -> bool {
        match self {
            MbcView::Mbc3(m) => m.rtc_mode == RtcMode::Deterministic,
            _ => true,
        }
    }

    /// A byte read at `addr`, with host time `now` for a host-synced clock.
    pub open spec fn read_spec(&self, c: CartView, addr: u16, now: u128) -> u8 {
        match self {
            MbcView::RomOnly => read_rom_only_spec(c, addr),
            MbcView::Mbc1(m) => m.read_spec(c, addr),
            MbcView::Mmm01(m) => m.read_spec(c, addr),
            MbcView::Mbc2(m) => m.read_spec(c, addr),
            MbcView::Mbc3(m) => m.read_spec(c, addr, now),
            MbcView::Mbc5(m) => m.read_spec(c, addr),
            MbcView::HuC1(m) => m.read_spec(c, addr),
            MbcView::HuC3(m) => m.read_spec(c, addr),
            MbcView::Mbc6(m) => m.read_spec(c, addr),
            MbcView::Mbc7(m) => m.read_spec(c, addr),
            MbcView::PocketCamera(m) => m.read_spec(c, addr),
            MbcView::Tama5(m) => m.read_spec(c, addr),
        }
    }

    /// The controller and cartridge after a write of `value` at `addr`, at host time `now`.
    pub open spec fn write_spec(self, c: CartView, addr: u16, value: u8, now: u128) -> (MbcView, CartView) {
        match self {
            MbcView::RomOnly => (MbcView::RomOnly, write_rom_only_spec(c, addr, value)),
            MbcView::Mbc1(m) => { let (m2, c2) = m.write_spec(c, addr, value); (MbcView::Mbc1(m2), c2) },
            MbcView::Mmm01(m) => { let (m2, c2) = m.write_spec(c, addr, value); (MbcView::Mmm01(m2), c2) },
            MbcView::Mbc2(m) => { let (m2, c2) = m.write_spec(c, addr, value); (MbcView::Mbc2(m2), c2) },
            MbcView::Mbc3(m) => { let (m2, c2) = m.write_spec(c, addr, value, now); (MbcView::Mbc3(m2), c2) },
            MbcView::Mbc5(m) => { let (m2, c2) = m.write_spec(c, addr, value); (MbcView::Mbc5(m2), c2) },
            MbcView::HuC1(m) => { let (m2, c2) = m.write_spec(c, addr, value); (MbcView::HuC1(m2), c2) },
            MbcView::HuC3(m) => { let (m2, c2) = m.write_spec(c, addr, value); (MbcView::HuC3(m2), c2) },
            MbcView::Mbc6(m) => { let (m2, c2) = m.write_spec(c, addr, value); (MbcView::Mbc6(m2), c2) },
            MbcView::Mbc7(m) => { let (m2, c2) = m.write_spec(c, addr, value); (MbcView::Mbc7(m2), c2) },
            MbcView::PocketCamera(m) => { let (m2, c2) = m.write_spec(c, addr, value); (MbcView::PocketCamera(m2), c2) },
            MbcView::Tama5(m) => (MbcView::Tama5(m.write_spec(addr, value)), c),
        }
    }

    /// Whether `tick(cycles)` stays within the clock counters' range.
    pub open spec fn can_tick(&self, cycles: u32) -> bool {
        match self {
            MbcView::HuC3(m) => m.tick_carries_day(cycles) ==> m.rtc_days < u32::MAX,
            _ => true,
        }
    }

    pub open spec fn tick_spec(self, cycles: u32) -> MbcView {
        match self {
            MbcView::Mbc3(m) => MbcView::Mbc3(m.tick_spec(cycles)),
            MbcView::HuC3(m) => MbcView::HuC3(m.tick_spec(cycles)),
            _ => self,
        }
    }

    pub open spec fn set_rtc_mode_spec(self, mode: RtcMode, now: u128) -> MbcView {
        match self {
            MbcView::Mbc3(m) => MbcView::Mbc3(m.set_rtc_mode_spec(mode, now)),
            _ => self,
        }
    }
}

impl Mbc {
    /// The controller for the cartridge's declared type, or an error for a type this emulator
    /// has no controller for.
    pub fn new(cartridge: &Cartridge) -> (r: Result<Self, MbcError>)
        ensures
            ({
                let t = crate::domain::cartridge::cartridge_type_of(cartridge.header.cartridge_type);
                match initial_view(t) {
                    Some(v) => r is Ok && r->Ok_0@ == v && r->Ok_0@.wf(),
                    None => r == Err::<Self, MbcError>(MbcError::UnsupportedCartridgeType(t)),
                }
            }),
    {
        let t = CartridgeType::from_code(cartridge.header.cartridge_type);
        let kind = match t {
            CartridgeType::RomOnly | CartridgeType::RomRam | CartridgeType::RomRamBattery => MbcKind::RomOnly,
            CartridgeType::Mbc1 | CartridgeType::Mbc1Ram | CartridgeType::Mbc1RamBattery => MbcKind::Mbc1(Mbc1::new()),
            CartridgeType::Mmm01 | CartridgeType::Mmm01Ram | CartridgeType::Mmm01RamBattery => MbcKind::Mmm01(Mmm01::new()),
            CartridgeType::Mbc2 | CartridgeType::Mbc2Battery => MbcKind::Mbc2(Mbc2::new()),
            CartridgeType::Mbc3 | CartridgeType::Mbc3Ram | CartridgeType::Mbc3RamBattery
            | CartridgeType::Mbc3TimerBattery | CartridgeType::Mbc3TimerRamBattery => {
                let has_rtc = matches!(t, CartridgeType::Mbc3TimerBattery | CartridgeType::Mbc3TimerRamBattery);
                MbcKind::Mbc3(Mbc3::new(has_rtc))
            },
            CartridgeType::Mbc5 | CartridgeType::Mbc5Ram | CartridgeType::Mbc5RamBattery
            | CartridgeType::Mbc5Rumble | CartridgeType::Mbc5RumbleRam | CartridgeType::Mbc5RumbleRamBattery => MbcKind::Mbc5(Mbc5::new()),
            CartridgeType::HuC1RamBattery => MbcKind::HuC1(HuC1::new()),
            CartridgeType::HuC3 => MbcKind::HuC3(HuC3::new()),
            CartridgeType::Mbc6 => {
                let m = Mbc6::new();
                assert(m.flash@ =~= Seq::new(MBC6_FLASH_SIZE as nat, |i: int| 0xFFu8));
                assert(m.sram@ =~= Seq::new(MBC6_SRAM_SIZE as nat, |i: int| 0u8));
                MbcKind::Mbc6(m)
            },
            CartridgeType::Mbc7SensorRumbleRamBattery => {
                let m = Mbc7::new();
                assert(m.eeprom@ =~= Seq::new(MBC7_EEPROM_SIZE as nat, |i: int| 0xFFu8));
                MbcKind::Mbc7(m)
            },
            CartridgeType::PocketCamera => {
                let m = PocketCamera::new();
                assert(m.camera_registers@ =~= Seq::new(CAMERA_REGISTER_COUNT as nat, |i: int| 0u8));
                MbcKind::PocketCamera(m)
            },
            CartridgeType::BandaiTama5 => {
                let m = Tama5::new();
                assert(m.ram@ =~= Seq::new(TAMA5_RAM_SIZE as nat, |i: int| 0u8));
                MbcKind::Tama5(m)
            },
            other => return Err(MbcError::UnsupportedCartridgeType(other)),
        };
        Ok(Mbc { kind })
    }

    /// Reads `addr` through the controller. Only a host-synced MBC3 clock read consults the
    /// host time; otherwise the result is `read_spec` at any time.
    pub fn read8(&self, cartridge: &Cartridge, addr: u16) -> (r: u8)
        requires
            self@.wf(),
        ensures
            exists|now: u128| r == self@.read_spec(cartridge@, addr, now),
            self@.clock_free() ==> r == self@.read_spec(cartridge@, addr, 0),
    {
        let r = match &self.kind {
            MbcKind::RomOnly => read_rom_only(cartridge, addr),
            MbcKind::Mbc1(m) => m.read8(cartridge, addr),
            MbcKind::Mmm01(m) => m.read8(cartridge, addr),
            MbcKind::Mbc2(m) => m.read8(cartridge, addr),
            MbcKind::Mbc3(m) => {
                let r = m.read8(cartridge, addr);
                proof {
                    let now = choose|now: u128| r == m.read_spec(cartridge@, addr, now);
                    assert(r == self@.read_spec(cartridge@, addr, now));
                }
                r
            },
            MbcKind::Mbc5(m) => m.read8(cartridge, addr),
            MbcKind::HuC1(m) => m.read8(cartridge, addr),
            MbcKind::HuC3(m) => m.read8(cartridge, addr),
            MbcKind::Mbc6(m) => m.read8(cartridge, addr),
            MbcKind::Mbc7(m) => m.read8(cartridge, addr),
            MbcKind::PocketCamera(m) => m.read8(cartridge, addr),
            MbcKind::Tama5(m) => m.read8(cartridge, addr),
        };
        proof {
            if self@.clock_free() {
                assert(r == self@.read_spec(cartridge@, addr, 0));
            }
        }
        r
    }

    /// Writes `value` at `addr` through the controller (bank registers, RAM, clock, flash,
    /// EEPROM). Only clock writes of a host-synced MBC3 consult the host time.
    pub fn write8(&mut self, cartridge: &mut Cartridge, addr: u16, value: u8)
        requires
            old(self)@.wf(),
        ensures
            exists|now: u128| (final(self)@, final(cartridge)@) == old(self)@.write_spec(old(cartridge)@, addr, value, now),
            old(self)@.clock_free() ==>
                (final(self)@, final(cartridge)@) == old(self)@.write_spec(old(cartridge)@, addr, value, 0),
            final(self)@.wf(),
            final(self)@.clock_free() == old(self)@.clock_free(),
            final(cartridge).header == old(cartridge).header,
    {
        let ghost s0 = self@;
        let ghost c0 = cartridge@;
        let ghost mut now: u128 = 0;
        match &mut self.kind {
            MbcKind::RomOnly => write_rom_only(cartridge, addr, value),
            MbcKind::Mbc1(m) => m.write8(cartridge, addr, value),
            MbcKind::Mmm01(m) => m.write8(cartridge, addr, value),
            MbcKind::Mbc2(m) => m.write8(cartridge, addr, value),
            MbcKind::Mbc3(m) => {
                let ghost m0 = *m;
                m.write8(cartridge, addr, value);
                proof {
                    now = choose|t: u128| (*m, cartridge@) == m0.write_spec(c0, addr, value, t);
                }
            },
            MbcKind::Mbc5(m) => m.write8(cartridge, addr, value),
            MbcKind::HuC1(m) => m.write8(cartridge, addr, value),
            MbcKind::HuC3(m) => m.write8(cartridge, addr, value),
            MbcKind::Mbc6(m) => m.write8(cartridge, addr, value),
            MbcKind::Mbc7(m) => m.write8(cartridge, addr, value),
            MbcKind::PocketCamera(m) => m.write8(cartridge, addr, value),
            MbcKind::Tama5(m) => m.write8(cartridge, addr, value),
        }
        assert((self@, cartridge@) == s0.write_spec(c0, addr, value, now));
    }

    /// Whether `tick(cycles)` keeps the clock counters in range (a HuC3 day counter at its
    /// maximum cannot roll over).
    pub fn can_tick(&self, cycles: u32) -> (r: bool)
        ensures
            r == self@.can_tick(cycles),
    {
        match &self.kind {
            MbcKind::HuC3(m) => {
                !(cycles >= CYCLES_PER_SECOND / 60 && m.rtc_seconds == 59 && m.rtc_minutes == 59
                    && m.rtc_hours == 23) || m.rtc_days < u32::MAX
            },
            _ => true,
        }
    }

    /// Advances cycle-driven clocks (MBC3 in deterministic mode, HuC3).
    pub fn tick(&mut self, cycles: u32)
        requires
            old(self)@.wf(),
            old(self)@.can_tick(cycles),
        ensures
            final(self)@ == old(self)@.tick_spec(cycles),
            final(self)@.wf(),
    {
        match &mut self.kind {
            MbcKind::Mbc3(m) => m.tick(cycles),
            MbcKind::HuC3(m) => m.tick(cycles),
            _ => {},
        }
    }

    /// Switches an MBC3 clock between cycle-driven and host-synced; other controllers ignore it.
    pub fn set_rtc_mode(&mut self, mode: RtcMode)
        requires
            old(self)@.wf(),
        ensures
            exists|now: u128| final(self)@ == old(self)@.set_rtc_mode_spec(mode, now),
            final(self)@.wf(),
    {
        let ghost s0 = self@;
        let ghost mut now: u128 = 0;
        if let MbcKind::Mbc3(m) = &mut self.kind {
            let ghost m0 = *m;
            m.set_rtc_mode(mode);
            proof {
                now = choose|t: u128| *m == m0.set_rtc_mode_spec(mode, t);
            }
        }
        assert(self@ == s0.set_rtc_mode_spec(mode, now));
    }
}

} // verus!
