//! MBC3 real-time clock registers: seconds, minutes, hours and a 9-bit day counter with
//! halt (bit 6) and day-carry (bit 7) flags in the high day register.
use vstd::prelude::*;
use crate::bits::{lemma_byte, lemma_join_word, lemma_word_bytes};

verus! {

pub const CYCLES_PER_SECOND: u32 = 4_194_304;
pub const SECONDS_PER_DAY: u64 = 86_400;
/// Largest second count the registers can already hold (511 days, 255:255:255).
pub const MAX_RTC_BASE_SECONDS: u64 = 45_083_955;

#[derive(Debug, Clone, Copy, PartialEq, Eq, Structural)]
pub enum RtcMode {
    /// The clock advances with emulated cycles.
    Deterministic,
    /// The clock follows the host's wall clock.
    HostSync,
}

#[derive(Debug, Clone, Copy, PartialEq, Eq, Structural)]
pub enum RtcRegister {
    Seconds,
    Minutes,
    Hours,
    DayLow,
    DayHigh,
}

#[derive(Debug, Clone, Copy, PartialEq, Eq, Structural)]
pub struct Rtc {
    pub seconds: u8,
    pub minutes: u8,
    pub hours: u8,
    pub day_low: u8,
    pub day_high: u8,
}

/// Registers holding `days` (mod 512) and the time of day `remainder`, with `flags` kept.
pub open spec fn rtc_from_parts(days: int, remainder: int, halt: u8, carry: u8) -> Rtc {
    let day_mod = days % 512;
    Rtc {
        seconds: (remainder % 60) as u8,
        minutes: ((remainder / 60) % 60) as u8,
        hours: (remainder / 3600) as u8,
        day_low: (day_mod % 256) as u8,
        day_high: (halt | carry | (day_mod / 256) as u8) as u8,
    }
}

/// The clock one second later (kept opaque: it unfolds into day/second arithmetic).
#[verifier::opaque]
pub open spec fn next_second(r: Rtc) -> Rtc {
    r.add_seconds_spec(1)
}

impl Rtc {
    pub open spec fn day_counter_spec(&self) -> int {
        self.day_low as int + (if self.day_high & 0x01 != 0 { 256int } else { 0 })
    }

    pub open spec fn total_seconds(&self) -> int {
        self.day_counter_spec() * 86_400 + self.hours as int * 3600 + self.minutes as int * 60
            + self.seconds as int
    }

    pub open spec fn halted(&self) -> bool {
        self.day_high & 0x40 != 0
    }

    /// The clock after `seconds` more seconds; a halted clock does not move and the carry flag
    /// is set once the day counter passes 511.
    pub open spec fn add_seconds_spec(self, seconds: int) -> Rtc {
        if self.halted() {
            self
        } else {
            let total = self.total_seconds() + seconds;
            let days = total / 86_400;
            let carry: u8 = if self.day_high & 0x80 != 0 || days >= 512 { 0x80 } else { 0 };
            rtc_from_parts(days, total % 86_400, self.day_high & 0x40, carry)
        }
    }

    pub open spec fn read_spec(&self, reg: RtcRegister) -> u8 {
        match reg {
            RtcRegister::Seconds => self.seconds,
            RtcRegister::Minutes => self.minutes,
            RtcRegister::Hours => self.hours,
            RtcRegister::DayLow => self.day_low,
            RtcRegister::DayHigh => self.day_high,
        }
    }

    pub open spec fn write_spec(self, reg: RtcRegister, value: u8) -> Rtc {
        match reg {
            RtcRegister::Seconds => Rtc { seconds: value, ..self },
            RtcRegister::Minutes => Rtc { minutes: value, ..self },
            RtcRegister::Hours => Rtc { hours: value, ..self },
            RtcRegister::DayLow => Rtc { day_low: value, ..self },
            RtcRegister::DayHigh => Rtc { day_high: value & 0xC1, ..self },
        }
    }

    pub fn read(&self, reg: RtcRegister) -> (r: u8)
        ensures r == self.read_spec(reg),
    {
        match reg {
            RtcRegister::Seconds => self.seconds,
            RtcRegister::Minutes => self.minutes,
            RtcRegister::Hours => self.hours,
            RtcRegister::DayLow => self.day_low,
            RtcRegister::DayHigh => self.day_high,
        }
    }

    /// Writes a register; only the halt, carry and day-bit-8 bits of DayHigh are kept.
    pub fn write(&mut self, reg: RtcRegister, value: u8)
        ensures *final(self) == old(self).write_spec(reg, value),
    {
        match reg {
            RtcRegister::Seconds => self.seconds = value,
            RtcRegister::Minutes => self.minutes = value,
            RtcRegister::Hours => self.hours = value,
            RtcRegister::DayLow => self.day_low = value,
            RtcRegister::DayHigh => self.day_high = value & 0xC1,
        }
    }

    /// Advances the clock by one second.
    pub fn tick_one_second(&mut self)
        ensures *final(self) == next_second(*old(self)),
    {
        proof { reveal(next_second); }
        self.add_seconds(1);
    }

    pub fn tick_seconds(&mut self, seconds: u32)
        ensures *final(self) == old(self).add_seconds_spec(seconds as int),
    {
        self.add_seconds(seconds as u64);
    }

    /// The 9-bit day counter.
    pub fn day_counter(&self) -> (r: u16)
        ensures r as int == self.day_counter_spec(),
    {
        let high: u16 = (self.day_high & 0x01) as u16;
        let dh = self.day_high;
        proof { lemma_byte(dh); }
        let low: u16 = self.day_low as u16;
        proof { lemma_join_word(high, low); }
        (self.day_low as u16) | (high << 8)
    }

    /// Advances the clock by `seconds` unless it is halted.
    pub fn add_seconds(&mut self, seconds: u64)
        requires
            seconds <= u64::MAX - MAX_RTC_BASE_SECONDS,
        ensures
            *final(self) == old(self).add_seconds_spec(seconds as int),
    {
        if self.day_high & 0x40 != 0 {
            return;
        }
        let day = self.day_counter() as u64;
        let base_seconds = day * 86_400 + (self.hours as u64) * 3600 + (self.minutes as u64) * 60
            + (self.seconds as u64);
        let total = base_seconds + seconds;
        let days = total / 86_400;
        let remainder = total % 86_400;
        let hours = (remainder / 3600) as u8;
        let minutes = ((remainder / 60) % 60) as u8;
        let secs = (remainder % 60) as u8;
        let mut carry = self.day_high & 0x80;
        if carry == 0 && days >= 512 {
            carry = 0x80;
        }
        let dh = self.day_high;
        proof { lemma_byte(dh); }
        let day_mod = (days % 512) as u16;
        let halt = self.day_high & 0x40;
        self.seconds = secs;
        self.minutes = minutes;
        self.hours = hours;
        proof { lemma_word_bytes(day_mod); lemma_byte((day_mod >> 8u16) as u8); }
        self.day_low = (day_mod & 0xFF) as u8;
        self.day_high = halt | carry | (((day_mod >> 8) as u8) & 0x01);
    }

    pub open spec fn from_unix_seconds_spec(seconds: u64) -> Rtc {
        rtc_from_parts(seconds as int / 86_400, seconds as int % 86_400, 0,
            if seconds as int / 86_400 >= 512 { 0x80u8 } else { 0u8 })
    }

    /// The clock registers for `seconds` since the Unix epoch (days wrap at 512, carry set).
    pub fn from_unix_seconds(seconds: u64) -> (r: Self)
        ensures
            r == Rtc::from_unix_seconds_spec(seconds),
    {
        let days = seconds / 86_400;
        let remainder = seconds % 86_400;
        let hours = (remainder / 3600) as u8;
        let minutes = ((remainder / 60) % 60) as u8;
        let secs = (remainder % 60) as u8;
        let day_mod = (days % 512) as u16;
        let carry: u8 = if days >= 512 { 0x80 } else { 0x00 };
        proof { lemma_word_bytes(day_mod); lemma_byte((day_mod >> 8u16) as u8); }
        let dm = (day_mod / 256) as u8;
        proof { lemma_byte(carry); }
        Rtc {
            seconds: secs,
            minutes,
            hours,
            day_low: (day_mod & 0xFF) as u8,
            day_high: carry | (((day_mod >> 8) as u8) & 0x01),
        }
    }
}

} // verus!

verus! {

/// The flag bits of a high day register built from a halt bit, a carry bit and day bit 8.
proof fn lemma_day_high_bits(h: u8, c: u8, d: u8)
    by (bit_vector)
    requires
        h == 0 || h == 0x40,
        c == 0 || c == 0x80,
        d == 0 || d == 1,
    ensures
        (h | c | d) & 0x40u8 == h,
        (h | c | d) & 0x80u8 == c,
        (h | c | d) & 0x01u8 == d,
{
}

/// Splitting whole days off a second count.
proof fn lemma_split_days(q: int, r: int, b: int)
    requires
        0 <= r < 86_400,
        0 <= q,
        0 <= b,
    ensures
        (q * 86_400 + r + b) / 86_400 == q + (r + b) / 86_400,
        (q * 86_400 + r + b) % 86_400 == (r + b) % 86_400,
{
    assert((q * 86_400 + r + b) / 86_400 == q + (r + b) / 86_400) by (nonlinear_arith)
        requires 0 <= r < 86_400, 0 <= q, 0 <= b;
    assert((q * 86_400 + r + b) % 86_400 == (r + b) % 86_400) by (nonlinear_arith)
        requires 0 <= r < 86_400, 0 <= q, 0 <= b;
}

/// Advancing a running clock by `a` seconds and then by `b` seconds is the same as advancing
/// it by `a + b` seconds at once (days wrap at 512 and the carry flag sticks).
pub proof fn lemma_add_seconds_composes(r: Rtc, a: nat, b: nat)
    requires
        !r.halted(),
    ensures
        r.add_seconds_spec(a as int).add_seconds_spec(b as int) == r.add_seconds_spec((a + b) as int),
{
    let total1 = r.total_seconds() + a;
    let days1 = total1 / 86_400;
    let rem1 = total1 % 86_400;
    let halt = r.day_high & 0x40;
    let carry1: u8 = if r.day_high & 0x80 != 0 || days1 >= 512 { 0x80 } else { 0 };
    let r1 = r.add_seconds_spec(a as int);
    let day_mod1 = days1 % 512;
    let bit1 = (day_mod1 / 256) as u8;
    lemma_byte(r.day_high);
    assert(halt == 0);
    lemma_day_high_bits(halt, carry1, bit1);
    assert(r1.day_counter_spec() == day_mod1);
    assert(r1.total_seconds() == day_mod1 * 86_400 + rem1) by (nonlinear_arith)
        requires
            0 <= rem1 < 86_400,
            r1.seconds == rem1 % 60,
            r1.minutes == (rem1 / 60) % 60,
            r1.hours == rem1 / 3600,
            r1.day_counter_spec() == day_mod1;
    lemma_split_days(day_mod1, rem1, b as int);
    lemma_split_days(days1, rem1, b as int);
    assert(total1 == days1 * 86_400 + rem1);
    let days2 = day_mod1 + (rem1 + b) / 86_400;
    let days_all = days1 + (rem1 + b) / 86_400;
    assert(days2 % 512 == days_all % 512) by (nonlinear_arith)
        requires days2 == days1 % 512 + (rem1 + b) / 86_400, days_all == days1 + (rem1 + b) / 86_400,
            days1 >= 0, (rem1 + b) / 86_400 >= 0;
    assert(days1 < 512 ==> day_mod1 == days1);
}

} // verus!
