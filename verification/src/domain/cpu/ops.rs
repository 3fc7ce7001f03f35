//! Operand access for instructions: immediate fetches, the 8-bit register field (with (HL) as
//! operand 6), 16-bit register pairs, and the stack.
use vstd::prelude::*;
use crate::domain::bus::{Bus, BusView, HostTimes, fixed_times};
use crate::domain::bus::memory::lemma_write_at_time_zero;
use crate::domain::cpu::Cpu;
use crate::domain::cpu::registers::{Registers, pair, split, join};
use crate::util::{wrap16, wrap_sub16};

verus! {

broadcast use lemma_write_at_time_zero;

/// Register `idx` of the 8-bit register field (0 B, 1 C, 2 D, 3 E, 4 H, 5 L, 7 A).
pub open spec fn reg8_spec(r: Registers, idx: u8) -> u8 {
    if idx == 0 { r.b } else if idx == 1 { r.c } else if idx == 2 { r.d } else if idx == 3 { r.e }
    else if idx == 4 { r.h } else if idx == 5 { r.l } else { r.a }
}

pub open spec fn with_reg8(r: Registers, idx: u8, v: u8) -> Registers {
    if idx == 0 { Registers { b: v, ..r } } else if idx == 1 { Registers { c: v, ..r } }
    else if idx == 2 { Registers { d: v, ..r } } else if idx == 3 { Registers { e: v, ..r } }
    else if idx == 4 { Registers { h: v, ..r } } else if idx == 5 { Registers { l: v, ..r } }
    else { Registers { a: v, ..r } }
}

/// Pair `idx` of the BC/DE/HL/SP field.
pub open spec fn reg16_spec(c: Cpu, idx: u8) -> u16 {
    if idx == 0 { c.regs.bc_spec() } else if idx == 1 { c.regs.de_spec() } else if idx == 2 { c.regs.hl_spec() } else { c.sp }
}

pub open spec fn with_reg16(c: Cpu, idx: u8, v: u16) -> Cpu {
    if idx == 0 { Cpu { regs: c.regs.with_bc(v), ..c } } else if idx == 1 { Cpu { regs: c.regs.with_de(v), ..c } }
    else if idx == 2 { Cpu { regs: c.regs.with_hl(v), ..c } } else { Cpu { sp: v, ..c } }
}

/// Pair `idx` of the BC/DE/HL/AF field used by PUSH and POP.
pub open spec fn stack_reg_spec(r: Registers, idx: u8) -> u16 {
    if idx == 0 { r.bc_spec() } else if idx == 1 { r.de_spec() } else if idx == 2 { r.hl_spec() } else { r.af_spec() }
}

pub open spec fn with_stack_reg(r: Registers, idx: u8, v: u16) -> Registers {
    if idx == 0 { r.with_bc(v) } else if idx == 1 { r.with_de(v) } else if idx == 2 { r.with_hl(v) } else { r.with_af(v) }
}

/// The byte at PC, read at host time `t(0)`, with PC advanced past it.
pub open spec fn fetch8_at(c: Cpu, b: BusView, t: HostTimes) -> (Cpu, u8) {
    (Cpu { pc: wrap16(c.pc, 1), ..c }, b.read_spec(c.pc, t(0)))
}

pub open spec fn fetch8_spec(c: Cpu, b: BusView) -> (Cpu, u8) {
    fetch8_at(c, b, fixed_times(0))
}

/// The little-endian word at PC, its bytes read at host times `t0(0)` and `t1(0)`, with PC
/// advanced past it.
pub open spec fn fetch16_at(c: Cpu, b: BusView, t0: HostTimes, t1: HostTimes) -> (Cpu, u16) {
    let (c1, lo) = fetch8_at(c, b, t0);
    let (c2, hi) = fetch8_at(c1, b, t1);
    (c2, pair(hi, lo))
}

pub open spec fn fetch16_spec(c: Cpu, b: BusView) -> (Cpu, u16) {
    fetch16_at(c, b, fixed_times(0), fixed_times(0))
}

/// Operand `idx` of the 8-bit register field; 6 reads memory at HL (at host time `t(0)`).
pub open spec fn read_r8_at(c: Cpu, b: BusView, idx: u8, t: HostTimes) -> u8 {
    if idx == 6 { b.read_spec(c.regs.hl_spec(), t(0)) } else { reg8_spec(c.regs, idx) }
}

pub open spec fn read_r8_spec(c: Cpu, b: BusView, idx: u8) -> u8 {
    read_r8_at(c, b, idx, fixed_times(0))
}

/// Stores into operand `idx` of the 8-bit register field; 6 writes memory at HL, its clock
/// readings seeing `t`.
pub open spec fn write_r8_at(c: Cpu, b: BusView, idx: u8, v: u8, t: HostTimes) -> (Cpu, BusView) {
    if idx == 6 { (c, b.write_at(c.regs.hl_spec(), v, t)) } else { (Cpu { regs: with_reg8(c.regs, idx, v), ..c }, b) }
}

pub open spec fn write_r8_spec(c: Cpu, b: BusView, idx: u8, v: u8) -> (Cpu, BusView) {
    write_r8_at(c, b, idx, v, fixed_times(0))
}

/// PUSH: the high byte goes to SP-1 (clock readings `t0`), the low byte to SP-2 (`t1`), and
/// SP ends at SP-2.
pub open spec fn push16_at(c: Cpu, b: BusView, v: u16, t0: HostTimes, t1: HostTimes) -> (Cpu, BusView) {
    let sp1 = wrap_sub16(c.sp, 1);
    let sp2 = wrap_sub16(sp1, 1);
    let b1 = b.write_at(sp1, (v / 256) as u8, t0);
    (Cpu { sp: sp2, ..c }, b1.write_at(sp2, (v % 256) as u8, t1))
}

pub open spec fn push16_spec(c: Cpu, b: BusView, v: u16) -> (Cpu, BusView) {
    push16_at(c, b, v, fixed_times(0), fixed_times(0))
}

/// POP: the low byte from SP (read at `t0(0)`), the high byte from SP+1 (at `t1(0)`), and SP
/// ends at SP+2.
pub open spec fn pop16_at(c: Cpu, b: BusView, t0: HostTimes, t1: HostTimes) -> (Cpu, u16) {
    let lo = b.read_spec(c.sp, t0(0));
    let hi = b.read_spec(wrap16(c.sp, 1), t1(0));
    (Cpu { sp: wrap16(c.sp, 2), ..c }, pair(hi, lo))
}

pub open spec fn pop16_spec(c: Cpu, b: BusView) -> (Cpu, u16) {
    pop16_at(c, b, fixed_times(0), fixed_times(0))
}

impl Cpu {
    pub fn fetch8(&mut self, bus: &Bus) -> (r: u8)
        requires
            bus@.wf(),
        ensures
            bus@.clock_free() ==> (*final(self), r) == fetch8_spec(*old(self), bus@),
            exists|t: HostTimes| (*final(self), r) == #[trigger] fetch8_at(*old(self), bus@, t),
            *final(self) == (Cpu { pc: wrap16(old(self).pc, 1), ..*old(self) }),
    {
        let value = bus.read8(self.pc);
        proof {
            let now = choose|now: u128| value == bus@.read_spec(self.pc, now);
            assert(value == bus@.read_spec(self.pc, fixed_times(now)(0)));
        }
        self.pc = self.pc.wrapping_add(1);
        proof {
            let now = choose|now: u128| value == bus@.read_spec(old(self).pc, now);
            assert((*self, value) == fetch8_at(*old(self), bus@, fixed_times(now)));
        }
        value
    }

    pub fn fetch16(&mut self, bus: &Bus) -> (r: u16)
        requires
            bus@.wf(),
        ensures
            bus@.clock_free() ==> (*final(self), r) == fetch16_spec(*old(self), bus@),
            exists|t0: HostTimes, t1: HostTimes| (*final(self), r) == #[trigger] fetch16_at(*old(self), bus@, t0, t1),
            *final(self) == (Cpu { pc: wrap16(wrap16(old(self).pc, 1), 1), ..*old(self) }),
    {
        let ghost c0 = *self;
        let lo = self.fetch8(bus);
        let ghost c1 = *self;
        let hi = self.fetch8(bus);
        let r = join(hi, lo);
        proof {
            let t0 = choose|t: HostTimes| (c1, lo) == #[trigger] fetch8_at(c0, bus@, t);
            let t1 = choose|t: HostTimes| (*self, hi) == #[trigger] fetch8_at(c1, bus@, t);
            assert((*self, r) == fetch16_at(c0, bus@, t0, t1));
        }
        r
    }

    pub fn read_reg8(&self, idx: u8, bus: &Bus) -> (r: u8)
        requires
            bus@.wf(),
        ensures
            bus@.clock_free() ==> r == read_r8_spec(*self, bus@, idx),
            exists|t: HostTimes| r == #[trigger] read_r8_at(*self, bus@, idx, t),
            idx != 6 ==> r == reg8_spec(self.regs, idx),
    {
        let r = match idx {
            0 => self.regs.b,
            1 => self.regs.c,
            2 => self.regs.d,
            3 => self.regs.e,
            4 => self.regs.h,
            5 => self.regs.l,
            6 => bus.read8(self.regs.hl()),
            _ => self.regs.a,
        };
        proof {
            if idx == 6 {
                let now = choose|now: u128| r == bus@.read_spec(self.regs.hl_spec(), now);
                assert(r == read_r8_at(*self, bus@, idx, fixed_times(now)));
            } else {
                assert(r == read_r8_at(*self, bus@, idx, fixed_times(0)));
            }
        }
        r
    }

    pub fn write_reg8(&mut self, idx: u8, value: u8, bus: &mut Bus)
        requires
            old(bus)@.wf(),
        ensures
            final(bus)@.wf(),
            final(bus)@.clock_free() == old(bus)@.clock_free(),
            old(bus)@.clock_free() ==> (*final(self), final(bus)@) == write_r8_spec(*old(self), old(bus)@, idx, value),
            exists|t: HostTimes| (*final(self), final(bus)@) == #[trigger] write_r8_at(*old(self), old(bus)@, idx, value, t),
            idx != 6 ==> final(bus)@ == old(bus)@ && *final(self) == (Cpu { regs: with_reg8(old(self).regs, idx, value), ..*old(self) }),
            idx == 6 ==> *final(self) == *old(self),
    {
        match idx {
            0 => self.regs.b = value,
            1 => self.regs.c = value,
            2 => self.regs.d = value,
            3 => self.regs.e = value,
            4 => self.regs.h = value,
            5 => self.regs.l = value,
            6 => bus.write8(self.regs.hl(), value),
            _ => self.regs.a = value,
        }
        proof {
            if idx == 6 {
                let t = choose|t: HostTimes| bus@ == #[trigger] old(bus)@.write_at(self.regs.hl_spec(), value, t);
                assert((*self, bus@) == write_r8_at(*old(self), old(bus)@, idx, value, t));
            } else {
                assert((*self, bus@) == write_r8_at(*old(self), old(bus)@, idx, value, fixed_times(0)));
            }
        }
    }

    pub fn read_reg16(&self, idx: u8) -> (r: u16)
        ensures r == reg16_spec(*self, idx),
    {
        match idx {
            0 => self.regs.bc(),
            1 => self.regs.de(),
            2 => self.regs.hl(),
            _ => self.sp,
        }
    }

    pub fn write_reg16(&mut self, idx: u8, value: u16)
        ensures *final(self) == with_reg16(*old(self), idx, value),
    {
        match idx {
            0 => self.regs.set_bc(value),
            1 => self.regs.set_de(value),
            2 => self.regs.set_hl(value),
            _ => self.sp = value,
        }
    }

    pub fn read_reg16_stack(&self, idx: u8) -> (r: u16)
        ensures r == stack_reg_spec(self.regs, idx),
    {
        match idx {
            0 => self.regs.bc(),
            1 => self.regs.de(),
            2 => self.regs.hl(),
            _ => self.regs.af(),
        }
    }

    pub fn write_reg16_stack(&mut self, idx: u8, value: u16)
        ensures *final(self) == (Cpu { regs: with_stack_reg(old(self).regs, idx, value), ..*old(self) }),
    {
        match idx {
            0 => self.regs.set_bc(value),
            1 => self.regs.set_de(value),
            2 => self.regs.set_hl(value),
            _ => self.regs.set_af(value),
        }
    }

    pub fn push16(&mut self, bus: &mut Bus, value: u16)
        requires
            old(bus)@.wf(),
        ensures
            final(bus)@.wf(),
            final(bus)@.clock_free() == old(bus)@.clock_free(),
            old(bus)@.clock_free() ==> (*final(self), final(bus)@) == push16_spec(*old(self), old(bus)@, value),
            exists|t0: HostTimes, t1: HostTimes| (*final(self), final(bus)@) == #[trigger] push16_at(*old(self), old(bus)@, value, t0, t1),
            *final(self) == (Cpu { sp: wrap_sub16(wrap_sub16(old(self).sp, 1), 1), ..*old(self) }),
    {
        let (hi, lo) = split(value);
        self.sp = self.sp.wrapping_sub(1);
        let ghost b0 = bus@;
        bus.write8(self.sp, hi);
        let ghost b1 = bus@;
        self.sp = self.sp.wrapping_sub(1);
        bus.write8(self.sp, lo);
        proof {
            let t0 = choose|t: HostTimes| b1 == #[trigger] b0.write_at(wrap_sub16(old(self).sp, 1), hi, t);
            let t1 = choose|t: HostTimes| bus@ == #[trigger] b1.write_at(self.sp, lo, t);
            assert((*self, bus@) == push16_at(*old(self), old(bus)@, value, t0, t1));
        }
    }

    pub fn pop16(&mut self, bus: &Bus) -> (r: u16)
        requires
            bus@.wf(),
        ensures
            bus@.clock_free() ==> (*final(self), r) == pop16_spec(*old(self), bus@),
            exists|t0: HostTimes, t1: HostTimes| (*final(self), r) == #[trigger] pop16_at(*old(self), bus@, t0, t1),
            *final(self) == (Cpu { sp: wrap16(old(self).sp, 2), ..*old(self) }),
    {
        let lo = bus.read8(self.sp);
        let sp_next = self.sp.wrapping_add(1);
        let hi = bus.read8(sp_next);
        self.sp = self.sp.wrapping_add(2);
        let r = join(hi, lo);
        proof {
            let n0 = choose|now: u128| lo == bus@.read_spec(old(self).sp, now);
            let n1 = choose|now: u128| hi == bus@.read_spec(sp_next, now);
            assert((*self, r) == pop16_at(*old(self), bus@, fixed_times(n0), fixed_times(n1)));
        }
        r
    }
}

} // verus!

verus! {

/// A value pushed onto a stack in work RAM (0xC002-0xDFFF) or high RAM (0xFF82-0xFFFF) pops
/// back unchanged, and SP returns to where it was.
pub proof fn lemma_push_pop_round_trip(c: Cpu, b: BusView, v: u16)
    requires
        b.wf(),
        (0xC002 <= c.sp <= 0xDFFF) || (0xFF82 <= c.sp <= 0xFFFF),
    ensures
        ({
            let (c1, b1) = push16_spec(c, b, v);
            let (c2, r) = pop16_spec(c1, b1);
            r == v && c2.sp == c.sp && c2 == (Cpu { sp: c.sp, ..c1 })
        }),
{
    reveal(BusView::write_wram_spec);
    reveal(BusView::write_high_spec);
    let sp1 = wrap_sub16(c.sp, 1);
    let sp2 = wrap_sub16(sp1, 1);
    assert(sp1 == c.sp - 1 && sp2 == c.sp - 2);
    assert(wrap16(sp2, 1) == sp1 && wrap16(sp2, 2) == c.sp);
    let b1 = b.write_spec(sp1, (v / 256) as u8, 0);
    let b2 = b1.write_spec(sp2, (v % 256) as u8, 0);
    assert(b2.read_spec(sp2, 0) == (v % 256) as u8);
    assert(b2.read_spec(sp1, 0) == (v / 256) as u8);
}

} // verus!
