//! What external RAM gives back: the enable gate of MBC1 and MBC5 and the plain RAM of a
//! cartridge without a controller.
use vstd::prelude::*;
use crate::bits::lemma_byte;
use crate::domain::cartridge::{CartView, MBC2_RAM_SIZE, ROM_BANK_SIZE, banks_for_len, byte_or_open_bus};
use crate::domain::mbc::MbcView;
use crate::domain::mbc::controllers::mbc1::{Mbc1, Mbc1Mode};
use crate::domain::mbc::controllers::mbc2::Mbc2;
use crate::domain::mbc::controllers::mbc3::Mbc3;
use crate::domain::mbc::controllers::mbc5::Mbc5;
use crate::domain::mbc::rtc::{CYCLES_PER_SECOND, Rtc, RtcMode, RtcRegister, next_second};
use crate::util::{lemma_iterate_add, lemma_ticks_left_below, lemma_ticks_split, ticks_due, ticks_left, wrap32};
use crate::domain::mbc::helpers::{EXT_RAM_START, EXT_RAM_END, MBC2_RAM_END, OPEN_BUS, ext_ram_index, normalize_ram_bank_spec, ram_banks_spec, read_ext_ram_spec, write_ext_ram_spec};

verus! {

/// Whether external RAM is switched on in an MBC1 or MBC5.
pub open spec fn ram_gate_open(v: MbcView) -> bool {
    match v {
        MbcView::Mbc1(m) => m.ram_enabled,
        MbcView::Mbc5(m) => m.ram_enabled,
        _ => false,
    }
}

/// The RAM bank an MBC1, MBC5 or ROM-only cartridge maps at 0xA000-0xBFFF.
pub open spec fn mapped_ram_bank(v: MbcView, c: CartView) -> Option<usize> {
    match v {
        MbcView::Mbc1(m) => m.ram_bank_spec(c),
        MbcView::Mbc5(m) => m.ram_bank_spec(c),
        _ => normalize_ram_bank_spec(0, ram_banks_spec(c.ext_ram.len() as int, 1)),
    }
}

/// On an MBC1 or MBC5, a write to 0x0000-0x1FFF opens the RAM gate exactly when the low
/// nibble of the value is 0xA, and changes nothing else.
pub proof fn lemma_ram_gate(v: MbcView, c: CartView, addr: u16, value: u8, now: u128)
    requires
        v is Mbc1 || v is Mbc5,
        addr <= 0x1FFF,
    ensures
        ({
            let (v2, c2) = v.write_spec(c, addr, value, now);
            &&& c2 == c
            &&& ram_gate_open(v2) == (value & 0x0F == 0x0A)
            &&& mapped_ram_bank(v2, c) == mapped_ram_bank(v, c)
        }),
{
}

/// While RAM is switched off, external RAM reads 0xFF and a store to it changes nothing.
pub proof fn lemma_closed_ram_is_inert(v: MbcView, c: CartView, addr: u16, value: u8, now: u128)
    requires
        v is Mbc1 || v is Mbc5,
        !ram_gate_open(v),
        EXT_RAM_START <= addr <= EXT_RAM_END,
    ensures
        v.read_spec(c, addr, now) == OPEN_BUS,
        v.write_spec(c, addr, value, now) == (v, c),
{
}

/// A byte stored at 0xA000-0xBFFF that lands inside the RAM reads back unchanged: on an MBC1 or
/// MBC5 once RAM is switched on, and always on a cartridge without a controller.
pub proof fn lemma_ram_read_after_write(v: MbcView, c: CartView, addr: u16, value: u8, now: u128, later: u128)
    requires
        v is RomOnly || ((v is Mbc1 || v is Mbc5) && ram_gate_open(v)),
        EXT_RAM_START <= addr <= EXT_RAM_END,
        mapped_ram_bank(v, c) is Some,
        ext_ram_index(mapped_ram_bank(v, c)->Some_0, addr) < c.ext_ram.len(),
    ensures
        ({
            let (v2, c2) = v.write_spec(c, addr, value, now);
            &&& v2 == v
            &&& v2.read_spec(c2, addr, later) == value
        }),
{
}

} // verus!

verus! {

/// The bank count of an image is at most its length, and at least 2 from 32 KiB on.
proof fn lemma_banks_for_len(len: int)
    requires
        0 <= len,
    ensures
        0 <= banks_for_len(len) <= len,
        len >= 0x8000 ==> banks_for_len(len) >= 2,
        len > 0 ==> banks_for_len(len) >= 1,
{
    if len > 0 {
        assert(0 <= (len + 0x3FFF) / 0x4000 <= len) by (nonlinear_arith)
            requires len > 0;
        assert(len >= 0x8000 ==> (len + 0x3FFF) / 0x4000 >= 2) by (nonlinear_arith);
        assert((len + 0x3FFF) / 0x4000 >= 1) by (nonlinear_arith)
            requires len > 0;
    }
}

/// A small bank number wraps to itself.
proof fn lemma_small_mod(x: int, n: int)
    by (nonlinear_arith)
    requires
        0 <= x < n,
    ensures
        x % n == x,
{
}

/// A cartridge without a controller maps its first 32 KiB straight through.
pub proof fn lemma_rom_only_fixed_mapping(c: CartView, addr: u16, now: u128)
    requires
        addr <= 0x7FFF,
        0x8000 <= c.bytes.len() <= usize::MAX,
    ensures
        MbcView::RomOnly.read_spec(c, addr, now) == c.bytes[addr as int],
{
    let banks = banks_for_len(c.bytes.len() as int);
    lemma_banks_for_len(c.bytes.len() as int);
    lemma_small_mod(1, banks);
    assert((1usize % (banks as usize)) as int == 1);
}

/// On an MBC1 in ROM banking mode with the upper bank bits clear, selecting bank 0 selects
/// bank 1: 0x4000-0x7FFF then reads the second 16 KiB of the image.
pub proof fn lemma_mbc1_bank_zero_selects_one(m: Mbc1, c: CartView, sel: u16, value: u8, addr: u16, now: u128)
    requires
        m.mode == Mbc1Mode::RomBanking,
        m.bank_high2 & 0x03 == 0,
        0x2000 <= sel <= 0x3FFF,
        value & 0x1F == 0,
        0x4000 <= addr <= 0x7FFF,
        0x8000 <= c.bytes.len() <= usize::MAX,
    ensures
        ({
            let (v2, c2) = MbcView::Mbc1(m).write_spec(c, sel, value, now);
            v2.read_spec(c2, addr, now) == c.bytes[addr as int]
        }),
{
    let banks = banks_for_len(c.bytes.len() as int);
    lemma_banks_for_len(c.bytes.len() as int);
    lemma_small_mod(1, banks);
    assert((1usize % (banks as usize)) as int == 1);
    let (m2, c2) = m.write_spec(c, sel, value);
    lemma_byte(value);
    assert(m2.rom_bank_low5 & 0x1F == 0) by {
        lemma_byte(m2.rom_bank_low5);
    }
    lemma_byte(m2.bank_high2);
}

/// In ROM banking mode an MBC1 maps at 0x4000-0x7FFF the bank `upper * 32 + low`, where
/// `upper` is the low two bits of the last write to 0x4000-0x5FFF and `low` the low five bits
/// of the last write to 0x2000-0x3FFF (0 counting as 1), taken modulo the number of banks:
/// the upper bits reach banks 32-127.
pub proof fn lemma_mbc1_rom_banking_uses_upper_bits(m: Mbc1, c: CartView, ua: u16, u: u8, la: u16, l: u8, addr: u16, now: u128)
    requires
        m.mode == Mbc1Mode::RomBanking,
        0x4000 <= ua <= 0x5FFF,
        0x2000 <= la <= 0x3FFF,
        0x4000 <= addr <= 0x7FFF,
        c.bytes.len() <= usize::MAX,
    ensures
        ({
            let (v1, c1) = MbcView::Mbc1(m).write_spec(c, ua, u, now);
            let (v2, c2) = v1.write_spec(c1, la, l, now);
            let low = if l % 32 == 0 { 1int } else { (l % 32) as int };
            let sel = (u % 4) as int * 32 + low;
            let banks = banks_for_len(c.bytes.len() as int);
            &&& c2 == c
            &&& banks > 0 && sel % banks != 0 ==> v2.read_spec(c2, addr, now)
                == byte_or_open_bus(c.bytes, (sel % banks) * ROM_BANK_SIZE + (addr - 0x4000))
        }),
{
    lemma_byte(u);
    lemma_byte(l);
    lemma_banks_for_len(c.bytes.len() as int);
    let (m1, c1) = m.write_spec(c, ua, u);
    let (m2, c2) = m1.write_spec(c1, la, l);
    lemma_byte(m2.rom_bank_low5);
    lemma_byte(m2.bank_high2);
}

/// What an MBC1 maps at 0x0000-0x3FFF: bank 0 in ROM banking mode, and in RAM banking mode
/// the bank `upper * 32` (modulo the number of banks), `upper` being the low two bits of the
/// last write to 0x4000-0x5FFF; in RAM banking mode 0x4000-0x7FFF maps the bank of the low five
/// bits alone (0 counting as 1).
pub proof fn lemma_mbc1_fixed_area(m: Mbc1, c: CartView, ua: u16, u: u8, addr: u16, high: u16, now: u128)
    requires
        0x4000 <= ua <= 0x5FFF,
        addr <= 0x3FFF,
        0x4000 <= high <= 0x7FFF,
        c.bytes.len() <= usize::MAX,
    ensures
        ({
            let (v1, c1) = MbcView::Mbc1(m).write_spec(c, ua, u, now);
            let banks = banks_for_len(c.bytes.len() as int);
            let low = if m.rom_bank_low5 % 32 == 0 { 1int } else { (m.rom_bank_low5 % 32) as int };
            &&& c1 == c
            &&& m.mode == Mbc1Mode::RomBanking && banks > 0 ==> v1.read_spec(c1, addr, now) == byte_or_open_bus(c.bytes, addr as int)
            &&& m.mode == Mbc1Mode::RamBanking && banks > 0 ==> v1.read_spec(c1, addr, now)
                == byte_or_open_bus(c.bytes, ((u % 4) as int * 32 % banks) * ROM_BANK_SIZE + addr)
            &&& m.mode == Mbc1Mode::RamBanking && banks > 0 && low % banks != 0 ==> v1.read_spec(c1, high, now)
                == byte_or_open_bus(c.bytes, (low % banks) * ROM_BANK_SIZE + (high - 0x4000))
        }),
{
    lemma_byte(u);
    lemma_byte(m.rom_bank_low5);
    lemma_banks_for_len(c.bytes.len() as int);
    let (m1, c1) = m.write_spec(c, ua, u);
    lemma_byte(m1.bank_high2);
}

/// Switching an MBC1 between ROM and RAM banking mode leaves what external RAM reads
/// unchanged while RAM bank 0 is selected.
pub proof fn lemma_mbc1_mode_switch_keeps_ram(m: Mbc1, c: CartView, sel: u16, value: u8, addr: u16, now: u128)
    requires
        m.ram_bank == 0,
        0x6000 <= sel <= 0x7FFF,
        EXT_RAM_START <= addr <= EXT_RAM_END,
    ensures
        ({
            let (v2, c2) = MbcView::Mbc1(m).write_spec(c, sel, value, now);
            &&& c2 == c
            &&& v2.read_spec(c2, addr, now) == MbcView::Mbc1(m).read_spec(c, addr, now)
        }),
{
}

/// MBC2 RAM holds half-bytes: with RAM on, a stored byte reads back with its low nibble kept
/// and the upper nibble set.
pub proof fn lemma_mbc2_ram_keeps_low_nibble(m: Mbc2, c: CartView, addr: u16, value: u8, now: u128)
    requires
        m.ram_enabled,
        EXT_RAM_START <= addr <= MBC2_RAM_END,
        c.ext_ram.len() >= MBC2_RAM_SIZE,
    ensures
        ({
            let (v2, c2) = MbcView::Mbc2(m).write_spec(c, addr, value, now);
            v2.read_spec(c2, addr, now) == 0xF0 | (value & 0x0F)
        }),
{
    lemma_byte(value);
    lemma_byte(value & 0x0F);
}

/// An MBC5 maps any of 512 banks at 0x4000-0x7FFF, bank 0 included: the low byte written to
/// 0x2000-0x2FFF and bit 0 of the value written to 0x3000-0x3FFF pick the bank, wrapped to
/// the banks present.
pub proof fn lemma_mbc5_bank_select(m: Mbc5, c: CartView, low: u8, high: u8, addr: u16, now: u128)
    requires
        0x4000 <= addr <= 0x7FFF,
        c.bytes.len() <= usize::MAX,
    ensures
        ({
            let (v1, c1) = MbcView::Mbc5(m).write_spec(c, 0x2000, low, now);
            let (v2, c2) = v1.write_spec(c1, 0x3000, high, now);
            let banks = banks_for_len(c.bytes.len() as int);
            let bank = if banks == 0 { 0 } else { ((high % 2) as int * 256 + low as int) % banks };
            &&& c2 == c
            &&& v2.read_spec(c2, addr, now) == byte_or_open_bus(c.bytes, bank * ROM_BANK_SIZE + (addr - 0x4000))
        }),
{
    lemma_byte(high);
    lemma_banks_for_len(c.bytes.len() as int);
}

} // verus!

verus! {

/// An MBC2 write to 0x2000-0x3FFF with address bit 8 set selects the ROM bank in the value's
/// low four bits (0 selecting 1), and reads of 0x4000-0x7FFF then come from that bank; with
/// bit 8 clear the write changes nothing.
pub proof fn lemma_mbc2_bank_select(m: Mbc2, c: CartView, waddr: u16, value: u8, addr: u16, now: u128)
    requires
        0x2000 <= waddr <= 0x3FFF,
        0x4000 <= addr <= 0x7FFF,
        c.bytes.len() <= usize::MAX,
    ensures
        ({
            let (v1, c1) = MbcView::Mbc2(m).write_spec(c, waddr, value, now);
            let sel = if value & 0x0F == 0 { 1int } else { (value & 0x0F) as int };
            let banks = banks_for_len(c.bytes.len() as int);
            let bank = if banks == 0 { 0 } else if sel % banks == 0 && banks > 1 { 1 } else { sel % banks };
            &&& c1 == c
            &&& waddr & 0x0100 != 0 ==> v1.read_spec(c1, addr, now)
                == byte_or_open_bus(c.bytes, bank * ROM_BANK_SIZE + (addr - 0x4000))
            &&& waddr & 0x0100 == 0 ==> v1 == MbcView::Mbc2(m)
        }),
{
    lemma_byte(value);
    lemma_banks_for_len(c.bytes.len() as int);
}

/// Once the MBC3 clock is latched, its registers read the same however much time passes and
/// however many cycles are ticked.
pub proof fn lemma_mbc3_latch_freezes_clock(m: Mbc3, c: CartView, addr: u16, cycles: u32, now: u128, later: u128)
    requires
        m.latched,
    ensures
        MbcView::Mbc3(m).tick_spec(cycles).read_spec(c, addr, later) == MbcView::Mbc3(m).read_spec(c, addr, now),
{
}

/// Writing 0x00 and then 0x01 to 0x6000-0x7FFF latches the MBC3 clock: a selected clock
/// register then reads the value the running clock had at that moment.
pub proof fn lemma_mbc3_latch_captures_clock(m: Mbc3, c: CartView, sel: u16, addr: u16, now: u128, later: u128)
    requires
        m.has_rtc,
        m.ram_enabled,
        m.rtc_reg is Some,
        0x6000 <= sel <= 0x7FFF,
        EXT_RAM_START <= addr <= EXT_RAM_END,
    ensures
        ({
            let (v1, c1) = MbcView::Mbc3(m).write_spec(c, sel, 0x00, now);
            let (v2, c2) = v1.write_spec(c1, sel, 0x01, now);
            &&& c2 == c
            &&& v2.read_spec(c2, addr, later) == m.current_rtc_spec(now).read_spec(m.rtc_reg->Some_0)
        }),
{
}

/// In cycle-driven mode an unlatched MBC3 clock register reads back what was written to it
/// (the day-high register keeps only its halt, carry and day-bit-8 bits).
pub proof fn lemma_mbc3_clock_register_write(m: Mbc3, c: CartView, addr: u16, value: u8, now: u128, later: u128)
    requires
        m.has_rtc,
        m.ram_enabled,
        !m.latched,
        m.rtc_mode == RtcMode::Deterministic,
        m.rtc_reg is Some,
        EXT_RAM_START <= addr <= EXT_RAM_END,
    ensures
        ({
            let (v2, c2) = MbcView::Mbc3(m).write_spec(c, addr, value, now);
            &&& c2 == c
            &&& v2.read_spec(c2, addr, later)
                == (if m.rtc_reg == Some(RtcRegister::DayHigh) { value & 0xC1 } else { value })
        }),
{
}

} // verus!

verus! {

/// Ticking an MBC3 clock `a` cycles and then `b` cycles leaves it as one tick of `a + b`
/// (while the cycle counter does not pass `u32::MAX`); a cartridge without a clock, or one
/// following the host clock, is left alone by ticks.
pub proof fn lemma_mbc3_ticks_compose(m: Mbc3, a: u32, b: u32)
    requires
        m.rtc_counter as int + a as int + b as int <= u32::MAX,
    ensures
        m.tick_spec(a).tick_spec(b) == m.tick_spec((a + b) as u32),
        !m.has_rtc || m.rtc_mode == RtcMode::HostSync ==> m.tick_spec(a) == m,
{
    if m.has_rtc && m.rtc_mode == RtcMode::Deterministic {
        let c1 = (m.rtc_counter + a) as u32;
        assert(wrap32(m.rtc_counter, a) == c1);
        lemma_ticks_split(c1, b, CYCLES_PER_SECOND);
        lemma_ticks_left_below(c1, CYCLES_PER_SECOND);
        let left = ticks_left(c1, CYCLES_PER_SECOND);
        assert(wrap32(left, b) == (left + b) as u32);
        assert(wrap32(m.rtc_counter, (a + b) as u32) == (c1 + b) as u32);
        let f = |r: Rtc| next_second(r);
        lemma_iterate_add(f, m.rtc, ticks_due(c1, CYCLES_PER_SECOND),
            ticks_due((left + b) as u32, CYCLES_PER_SECOND));
    }
}

} // verus!

verus! {

/// A store to external RAM changes exactly the addressed byte, marks the RAM dirty only when
/// that byte changes, and reads back; with no RAM, no bank, or an offset past the end it
/// changes nothing.
pub proof fn lemma_ext_ram_store(c: CartView, bank: Option<usize>, addr: u16, value: u8)
    requires
        EXT_RAM_START <= addr <= EXT_RAM_END,
    ensures
        ({
            let c2 = write_ext_ram_spec(c, bank, addr, value);
            match bank {
                Some(b) => if c.ext_ram.len() > 0 && ext_ram_index(b, addr) < c.ext_ram.len() {
                    let i = ext_ram_index(b, addr);
                    &&& c2.ext_ram == c.ext_ram.update(i, value)
                    &&& c2.ram_dirty == (c.ram_dirty || c.ext_ram[i] != value)
                    &&& c2.bytes == c.bytes
                    &&& read_ext_ram_spec(c2, bank, addr) == value
                } else {
                    c2 == c
                },
                None => c2 == c,
            }
        }),
{
    if let Some(b) = bank {
        let i = ext_ram_index(b, addr);
        if c.ext_ram.len() > 0 && i < c.ext_ram.len() && c.ext_ram[i] == value {
            assert(c.ext_ram.update(i, value) =~= c.ext_ram);
        }
    }
}

} // verus!
