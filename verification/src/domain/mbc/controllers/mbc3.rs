//! MBC3: 7-bit ROM bank, 2-bit RAM bank, and an optional real-time clock that either counts
//! emulated cycles or follows the host clock.
use vstd::prelude::*;
use crate::clock::host_now_nanos;
use crate::domain::cartridge::{Cartridge, CartView, RomBankMapping, rom_read, banks_for_len};
use crate::domain::mbc::helpers::{EXT_RAM_START, EXT_RAM_END, OPEN_BUS, bank_count, normalize_switchable_spec, normalize_switchable_bank, ram_banks_spec, ram_bank_count_for, normalize_ram_bank_spec, normalize_ram_bank, bank_in_range, read_ext_ram_spec, read_ext_ram, write_ext_ram_spec, write_ext_ram};
use crate::domain::mbc::rtc::{next_second, CYCLES_PER_SECOND, MAX_RTC_BASE_SECONDS, Rtc, RtcMode, RtcRegister};
use crate::util::{iterate, ticks_due, ticks_left, wrap32};

verus! {

pub const NANOS_PER_SECOND: u128 = 1_000_000_000;

/// Whole seconds from `base` to `now` (0 if the clock went backwards), capped so that the
/// clock registers can absorb them.
pub open spec fn elapsed_seconds(base: u128, now: u128) -> u64 {
    if now < base {
        0
    } else {
        let secs = (now - base) / NANOS_PER_SECOND as int;
        if secs > u64::MAX - MAX_RTC_BASE_SECONDS { (u64::MAX - MAX_RTC_BASE_SECONDS) as u64 } else { secs as u64 }
    }
}

#[derive(Debug, Clone, Copy, PartialEq, Eq, Structural)]
pub struct Mbc3 {
    pub rom_bank: u8,
    pub ram_bank: u8,
    pub rtc_reg: Option<RtcRegister>,
    pub ram_enabled: bool,
    pub latch_pending: bool,
    pub has_rtc: bool,
    pub rtc_mode: RtcMode,
    /// Host time (ns since the epoch) at which `rtc` was last set, in host-sync mode.
    pub rtc_host_base: Option<u128>,
    pub rtc_counter: u32,
    pub rtc: Rtc,
    pub rtc_latched: Rtc,
    pub latched: bool,
}

impl Mbc3 {
    /// The clock as seen at host time `now` (only host-sync mode looks at `now`).
    pub open spec fn current_rtc_spec(&self, now: u128) -> Rtc {
        match self.rtc_mode {
            RtcMode::Deterministic => self.rtc,
            RtcMode::HostSync => {
                let base = match self.rtc_host_base { Some(b) => b, None => now };
                self.rtc.add_seconds_spec(elapsed_seconds(base, now) as int)
            },
        }
    }

    pub open spec fn ram_bank_spec(&self, c: CartView) -> Option<usize> {
        normalize_ram_bank_spec(self.ram_bank as usize, ram_banks_spec(c.ext_ram.len() as int, 4))
    }

    pub open spec fn read_spec(&self, c: CartView, addr: u16, now: u128) -> u8 {
        if addr <= 0x7FFF {
            rom_read(c.bytes, 0, normalize_switchable_spec(self.rom_bank as usize, banks_for_len(c.bytes.len() as int) as usize), addr)
        } else if EXT_RAM_START <= addr <= EXT_RAM_END {
            if !self.ram_enabled {
                OPEN_BUS
            } else if self.has_rtc && self.rtc_reg is Some {
                if self.latched {
                    self.rtc_latched.read_spec(self.rtc_reg->Some_0)
                } else {
                    self.current_rtc_spec(now).read_spec(self.rtc_reg->Some_0)
                }
            } else {
                read_ext_ram_spec(c, self.ram_bank_spec(c), addr)
            }
        } else {
            OPEN_BUS
        }
    }

    pub open spec fn rtc_select(value: u8) -> Option<RtcRegister> {
        if value == 0x08 { Some(RtcRegister::Seconds) }
        else if value == 0x09 { Some(RtcRegister::Minutes) }
        else if value == 0x0A { Some(RtcRegister::Hours) }
        else if value == 0x0B { Some(RtcRegister::DayLow) }
        else { Some(RtcRegister::DayHigh) }
    }

    pub open spec fn write_spec(self, c: CartView, addr: u16, value: u8, now: u128) -> (Mbc3, CartView) {
        if addr <= 0x1FFF {
            (Mbc3 { ram_enabled: value & 0x0F == 0x0A, ..self }, c)
        } else if addr <= 0x3FFF {
            (Mbc3 { rom_bank: if value & 0x7F == 0 { 1 } else { value & 0x7F }, ..self }, c)
        } else if addr <= 0x5FFF {
            if value <= 0x03 {
                (Mbc3 { ram_bank: value & 0x03, rtc_reg: None, ..self }, c)
            } else if 0x08 <= value <= 0x0C && self.has_rtc {
                (Mbc3 { rtc_reg: Self::rtc_select(value), ..self }, c)
            } else {
                (self, c)
            }
        } else if addr <= 0x7FFF {
            if !self.has_rtc {
                (self, c)
            } else if value == 0x00 {
                (Mbc3 { latch_pending: true, ..self }, c)
            } else if value == 0x01 && self.latch_pending {
                (Mbc3 { rtc_latched: self.current_rtc_spec(now), latched: true, latch_pending: false, ..self }, c)
            } else {
                (Mbc3 { latch_pending: false, ..self }, c)
            }
        } else if EXT_RAM_START <= addr <= EXT_RAM_END && self.ram_enabled {
            if self.has_rtc && self.rtc_reg is Some {
                (Mbc3 {
                    rtc: self.rtc.write_spec(self.rtc_reg->Some_0, value),
                    rtc_host_base: if self.rtc_mode == RtcMode::HostSync { Some(now) } else { self.rtc_host_base },
                    ..self
                }, c)
            } else {
                (self, write_ext_ram_spec(c, self.ram_bank_spec(c), addr, value))
            }
        } else {
            (self, c)
        }
    }

    /// In deterministic mode the clock advances one second per 4194304 cycles.
    pub open spec fn tick_spec(self, cycles: u32) -> Mbc3 {
        if !self.has_rtc || self.rtc_mode != RtcMode::Deterministic {
            self
        } else {
            let counter = wrap32(self.rtc_counter, cycles);
            Mbc3 {
                rtc_counter: ticks_left(counter, CYCLES_PER_SECOND),
                rtc: iterate(|r: Rtc| next_second(r), self.rtc, ticks_due(counter, CYCLES_PER_SECOND)),
                ..self
            }
        }
    }

    pub open spec fn set_rtc_mode_spec(self, mode: RtcMode, now: u128) -> Mbc3 {
        if !self.has_rtc || self.rtc_mode == mode {
            self
        } else {
            let rtc = match mode {
                RtcMode::Deterministic => self.current_rtc_spec(now),
                RtcMode::HostSync => Rtc::from_unix_seconds_spec((now as int / NANOS_PER_SECOND as int) as u64),
            };
            Mbc3 {
                rtc,
                rtc_host_base: match mode { RtcMode::Deterministic => None, RtcMode::HostSync => Some(now) },
                rtc_counter: 0,
                rtc_mode: mode,
                rtc_latched: rtc,
                latched: false,
                ..self
            }
        }
    }

    pub fn new(has_rtc: bool) -> (m: Self)
        ensures
            m.rom_bank == 1 && m.ram_bank == 0 && m.rtc_reg is None && !m.ram_enabled
                && !m.latch_pending && m.has_rtc == has_rtc && m.rtc_mode == RtcMode::Deterministic
                && m.rtc_host_base is None && m.rtc_counter == 0 && !m.latched,
            m.rtc == (Rtc { seconds: 0, minutes: 0, hours: 0, day_low: 0, day_high: 0 }),
            m.rtc_latched == m.rtc,
    {
        let rtc = Rtc { seconds: 0, minutes: 0, hours: 0, day_low: 0, day_high: 0 };
        Mbc3 {
            rom_bank: 1,
            ram_bank: 0,
            rtc_reg: None,
            ram_enabled: false,
            latch_pending: false,
            has_rtc,
            rtc_mode: RtcMode::Deterministic,
            rtc_host_base: None,
            rtc_counter: 0,
            rtc,
            rtc_latched: rtc,
            latched: false,
        }
    }

    fn ram_bank_for(&self, cartridge: &Cartridge) -> (r: Option<usize>)
        ensures
            r == self.ram_bank_spec(cartridge@),
            bank_in_range(r),
    {
        normalize_ram_bank(self.ram_bank as usize, ram_bank_count_for(cartridge, 4))
    }

    /// Reads ROM, RAM or the selected clock register; reading the live host-synced clock
    /// consults the host time.
    pub fn read8(&self, cartridge: &Cartridge, addr: u16) -> (r: u8)
        ensures
            exists|now: u128| r == self.read_spec(cartridge@, addr, now),
            self.rtc_mode == RtcMode::Deterministic ==> r == self.read_spec(cartridge@, addr, 0),
    {
        match addr {
            0x0000..=0x7FFF => {
                let bank_count = bank_count(cartridge.bytes.as_slice());
                let bank = normalize_switchable_bank(self.rom_bank as usize, bank_count);
                let r = RomBankMapping::with_banks(cartridge.bytes.as_slice(), 0, bank).read(addr);
                assert(r == self.read_spec(cartridge@, addr, 0));
                r
            },
            0xA000..=0xBFFF => {
                if !self.ram_enabled {
                    assert(OPEN_BUS == self.read_spec(cartridge@, addr, 0));
                    return OPEN_BUS;
                }
                if self.has_rtc {
                    if let Some(reg) = self.rtc_reg {
                        if self.latched {
                            let r = self.rtc_latched.read(reg);
                            assert(r == self.read_spec(cartridge@, addr, 0));
                            r
                        } else {
                            let (rtc, Ghost(now)) = self.current_rtc();
                            let r = rtc.read(reg);
                            assert(r == self.read_spec(cartridge@, addr, now));
                            r
                        }
                    } else {
                        let ram_bank = self.ram_bank_for(cartridge);
                        let r = read_ext_ram(cartridge, ram_bank, addr);
                        assert(r == self.read_spec(cartridge@, addr, 0));
                        r
                    }
                } else {
                    let ram_bank = self.ram_bank_for(cartridge);
                    let r = read_ext_ram(cartridge, ram_bank, addr);
                    assert(r == self.read_spec(cartridge@, addr, 0));
                    r
                }
            },
            _ => {
                assert(OPEN_BUS == self.read_spec(cartridge@, addr, 0));
                OPEN_BUS
            },
        }
    }

    /// Register writes, clock-register selection (0x08-0x0C), the 0-then-1 latch sequence,
    /// and RAM or clock writes.
    pub fn write8(&mut self, cartridge: &mut Cartridge, addr: u16, value: u8)
        ensures
            exists|now: u128| (*final(self), final(cartridge)@) == old(self).write_spec(old(cartridge)@, addr, value, now),
            old(self).rtc_mode == RtcMode::Deterministic ==>
                (*final(self), final(cartridge)@) == old(self).write_spec(old(cartridge)@, addr, value, 0),
            final(self).rtc_mode == old(self).rtc_mode,
            final(self).has_rtc == old(self).has_rtc,
            final(cartridge).header == old(cartridge).header,
    {
        let ghost mut now: u128 = 0;
        match addr {
            0x0000..=0x1FFF => {
                self.ram_enabled = (value & 0x0F) == 0x0A;
            },
            0x2000..=0x3FFF => {
                let bank = value & 0x7F;
                self.rom_bank = if bank == 0 { 1 } else { bank };
            },
            0x4000..=0x5FFF => match value {
                0x00..=0x03 => {
                    self.ram_bank = value & 0x03;
                    self.rtc_reg = None;
                },
                0x08..=0x0C => {
                    if self.has_rtc {
                        self.rtc_reg = match value {
                            0x08 => Some(RtcRegister::Seconds),
                            0x09 => Some(RtcRegister::Minutes),
                            0x0A => Some(RtcRegister::Hours),
                            0x0B => Some(RtcRegister::DayLow),
                            _ => Some(RtcRegister::DayHigh),
                        };
                    }
                },
                _ => {},
            },
            0x6000..=0x7FFF => {
                if !self.has_rtc {
                    assert((*self, cartridge@) == old(self).write_spec(old(cartridge)@, addr, value, 0));
                    return;
                }
                if value == 0x00 {
                    self.latch_pending = true;
                } else if value == 0x01 && self.latch_pending {
                    let (rtc, Ghost(t)) = self.current_rtc();
                    proof { now = t; }
                    self.rtc_latched = rtc;
                    self.latched = true;
                    self.latch_pending = false;
                } else {
                    self.latch_pending = false;
                }
            },
            0xA000..=0xBFFF => {
                if !self.ram_enabled {
                    assert((*self, cartridge@) == old(self).write_spec(old(cartridge)@, addr, value, 0));
                    return;
                }
                if self.has_rtc && self.rtc_reg.is_some() {
                    let reg = self.rtc_reg.unwrap();
                    self.rtc.write(reg, value);
                    if self.rtc_mode == RtcMode::HostSync {
                        let t = host_now_nanos();
                        proof { now = t; }
                        self.rtc_host_base = Some(t);
                    }
                } else {
                    let ram_bank = self.ram_bank_for(cartridge);
                    write_ext_ram(cartridge, ram_bank, addr, value);
                }
            },
            _ => {},
        }
        assert((*self, cartridge@) == old(self).write_spec(old(cartridge)@, addr, value, now));
    }

    /// Advances a cycle-driven clock by whole seconds.
    pub fn tick(&mut self, cycles: u32)
        ensures
            *final(self) == old(self).tick_spec(cycles),
    {
        if !self.has_rtc {
            return;
        }
        if self.rtc_mode != RtcMode::Deterministic {
            return;
        }
        let mut counter = self.rtc_counter.wrapping_add(cycles);
        let mut rtc = self.rtc;
        let ghost ct = counter;
        let ghost r0 = self.rtc;
        let ghost mut k: nat = 0;
        while counter >= CYCLES_PER_SECOND
            invariant
                rtc == iterate(|r: Rtc| next_second(r), r0, k),
                ticks_due(ct, CYCLES_PER_SECOND) == k + ticks_due(counter, CYCLES_PER_SECOND),
                ticks_left(ct, CYCLES_PER_SECOND) == ticks_left(counter, CYCLES_PER_SECOND),
            decreases counter,
        {
            counter = counter - CYCLES_PER_SECOND;
            rtc.tick_one_second();
            proof { k = k + 1; }
        }
        self.rtc_counter = counter;
        self.rtc = rtc;
    }

    /// Switches the clock source; the clock value carries over (taken from the host clock when
    /// switching to host-sync) and any latch is dropped.
    pub fn set_rtc_mode(&mut self, mode: RtcMode)
        ensures
            exists|now: u128| *final(self) == old(self).set_rtc_mode_spec(mode, now),
    {
        let ghost mut now: u128 = 0;
        if !self.has_rtc || self.rtc_mode == mode {
            assert(*self == old(self).set_rtc_mode_spec(mode, 0));
            return;
        }
        match mode {
            RtcMode::Deterministic => {
                let (rtc, Ghost(t)) = self.current_rtc();
                proof { now = t; }
                self.rtc = rtc;
                self.rtc_host_base = None;
                self.rtc_counter = 0;
                self.rtc_mode = mode;
            },
            RtcMode::HostSync => {
                let t = host_now_nanos();
                proof { now = t; }
                let seconds = #[verifier::truncate] ((t / NANOS_PER_SECOND) as u64);
                self.rtc = Rtc::from_unix_seconds(seconds);
                self.rtc_host_base = Some(t);
                self.rtc_counter = 0;
                self.rtc_mode = mode;
            },
        }
        self.rtc_latched = self.rtc;
        self.latched = false;
        assert(*self == old(self).set_rtc_mode_spec(mode, now));
    }

    /// The clock now, and the host time it was read at.
    fn current_rtc(&self) -> (r: (Rtc, Ghost<u128>))
        ensures
            r.0 == self.current_rtc_spec(r.1@),
            self.rtc_mode == RtcMode::Deterministic ==> r.0 == self.current_rtc_spec(0),
    {
        match self.rtc_mode {
            RtcMode::Deterministic => (self.rtc, Ghost(0)),
            RtcMode::HostSync => {
                let now = host_now_nanos();
                let base = match self.rtc_host_base {
                    Some(b) => b,
                    None => now,
                };
                let elapsed: u64 = if now < base {
                    0
                } else {
                    let secs = (now - base) / NANOS_PER_SECOND;
                    if secs > (u64::MAX - MAX_RTC_BASE_SECONDS) as u128 {
                        u64::MAX - MAX_RTC_BASE_SECONDS
                    } else {
                        secs as u64
                    }
                };
                let mut rtc = self.rtc;
                rtc.add_seconds(elapsed);
                (rtc, Ghost(now))
            },
        }
    }
}

} // verus!
