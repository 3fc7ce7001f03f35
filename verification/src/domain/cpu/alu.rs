//! 8-bit and 16-bit arithmetic with the flags the SM83 sets, stated over integers.
use vstd::prelude::*;
use crate::bits::{lemma_nibble, lemma_low12, lemma_or_low_byte};
use crate::domain::cpu::Cpu;
use crate::domain::cpu::registers::{Registers, flags_byte, lemma_set_all_flags, lemma_set_znh_flags, lemma_set_nhc_flags, FLAG_Z, FLAG_C};

verus! {

/// The 16-bit sign extension of a relative offset byte.
pub open spec fn sext16(b: u8) -> u16 {
    if b < 0x80 { b as u16 } else { (b as int + 0xFF00) as u16 }
}

/// INC: Z if the result wraps to 0, N clear, H on a carry out of bit 3, C kept.
pub open spec fn inc8_spec(r: Registers, v: u8) -> (Registers, u8) {
    let next = ((v as int + 1) % 256) as u8;
    (Registers { f: flags_byte(next == 0, false, v % 16 == 15, r.cf()), ..r }, next)
}

/// DEC: Z if the result is 0, N set, H on a borrow from bit 4, C kept.
pub open spec fn dec8_spec(r: Registers, v: u8) -> (Registers, u8) {
    let next = ((v as int - 1 + 256) % 256) as u8;
    (Registers { f: flags_byte(next == 0, true, v % 16 == 0, r.cf()), ..r }, next)
}

/// The eight accumulator operations, selected by bits 3-5 of the opcode:
/// ADD, ADC, SUB, SBC, AND, XOR, OR, CP.
pub open spec fn alu_spec(r: Registers, op: u8, v: u8) -> Registers {
    let a = r.a as int;
    let cin: int = if r.cf() { 1 } else { 0 };
    if op == 0 {
        let s = a + v;
        Registers { a: (s % 256) as u8, f: flags_byte(s % 256 == 0, false, a % 16 + v % 16 > 15, s > 255), ..r }
    } else if op == 1 {
        let s = a + v + cin;
        Registers { a: (s % 256) as u8, f: flags_byte(s % 256 == 0, false, a % 16 + v % 16 + cin > 15, s > 255), ..r }
    } else if op == 2 {
        let d = a - v;
        Registers { a: ((d + 256) % 256) as u8, f: flags_byte(d == 0, true, a % 16 < v % 16, d < 0), ..r }
    } else if op == 3 {
        let d = a - v - cin;
        Registers { a: ((d + 512) % 256) as u8, f: flags_byte((d + 512) % 256 == 0, true, a % 16 < v % 16 + cin, d < 0), ..r }
    } else if op == 4 {
        Registers { a: r.a & v, f: flags_byte(r.a & v == 0, false, true, false), ..r }
    } else if op == 5 {
        Registers { a: r.a ^ v, f: flags_byte(r.a ^ v == 0, false, false, false), ..r }
    } else if op == 6 {
        Registers { a: r.a | v, f: flags_byte(r.a | v == 0, false, false, false), ..r }
    } else {
        let d = a - v;
        Registers { f: flags_byte(d == 0, true, a % 16 < v % 16, d < 0), ..r }
    }
}

/// ADD HL,rr: Z kept, N clear, H on a carry out of bit 11, C on a carry out of bit 15.
pub open spec fn add_hl_spec(r: Registers, v: u16) -> Registers {
    let hl = r.hl_spec() as int;
    let s = hl + v;
    Registers { f: flags_byte(r.zf(), false, hl % 4096 + v % 4096 > 4095, s > 65535), ..r }.with_hl((s % 65536) as u16)
}

/// SP plus a signed offset byte: Z and N clear, H and C from the unsigned low-byte addition.
pub open spec fn add_sp_offset_spec(r: Registers, sp: u16, off: u8) -> (Registers, u16) {
    let result = ((sp as int + sext16(off) as int) % 65536) as u16;
    (Registers { f: flags_byte(false, false, sp % 16 + off % 16 > 15, sp % 256 + off as int > 255), ..r }, result)
}

impl Cpu {
    pub fn inc8(&mut self, value: u8) -> (next: u8)
        ensures
            (final(self).regs, next) == inc8_spec(old(self).regs, value),
            *final(self) == (Cpu { regs: final(self).regs, ..*old(self) }),
    {
        let next = value.wrapping_add(1);
        proof { lemma_nibble(value); }
        proof { lemma_set_znh_flags(self.regs.f, next == 0, false, value % 16 == 15); }
        self.regs.set_flag_z(next == 0);
        self.regs.set_flag_n(false);
        self.regs.set_flag_h((value & 0x0F) + 1 > 0x0F);
        next
    }

    pub fn dec8(&mut self, value: u8) -> (next: u8)
        ensures
            (final(self).regs, next) == dec8_spec(old(self).regs, value),
            *final(self) == (Cpu { regs: final(self).regs, ..*old(self) }),
    {
        let next = value.wrapping_sub(1);
        proof { lemma_set_znh_flags(self.regs.f, next == 0, true, value % 16 == 0); }
        proof { lemma_nibble(value); }
        self.regs.set_flag_z(next == 0);
        self.regs.set_flag_n(true);
        self.regs.set_flag_h((value & 0x0F) == 0);
        next
    }

    pub fn alu_add(&mut self, value: u8)
        ensures
            final(self).regs == alu_spec(old(self).regs, 0, value),
            *final(self) == (Cpu { regs: final(self).regs, ..*old(self) }),
    {
        let a = self.regs.a;
        proof { lemma_nibble(a); lemma_nibble(value); }
        let next = a.wrapping_add(value);
        let carry = a as u16 + value as u16 > 0xFF;
        self.regs.a = next;
        self.regs.set_flags(next == 0, false, ((a & 0x0F) + (value & 0x0F)) > 0x0F, carry);
    }

    pub fn alu_adc(&mut self, value: u8)
        ensures
            final(self).regs == alu_spec(old(self).regs, 1, value),
            *final(self) == (Cpu { regs: final(self).regs, ..*old(self) }),
    {
        let carry_in: u8 = if self.regs.flag_c() { 1 } else { 0 };
        let a = self.regs.a;
        let sum: u16 = a as u16 + value as u16 + carry_in as u16;
        proof { lemma_nibble(a); lemma_nibble(value); }
        let next = (sum % 256) as u8;
        self.regs.a = next;
        self.regs.set_flags(next == 0, false, ((a & 0x0F) + (value & 0x0F) + carry_in) > 0x0F, sum > 0xFF);
    }

    pub fn alu_sub(&mut self, value: u8)
        ensures
            final(self).regs == alu_spec(old(self).regs, 2, value),
            *final(self) == (Cpu { regs: final(self).regs, ..*old(self) }),
    {
        let a = self.regs.a;
        let next = a.wrapping_sub(value);
        proof { lemma_nibble(a); lemma_nibble(value); }
        self.regs.a = next;
        self.regs.set_flags(next == 0, true, (a & 0x0F) < (value & 0x0F), a < value);
    }

    pub fn alu_sbc(&mut self, value: u8)
        ensures
            final(self).regs == alu_spec(old(self).regs, 3, value),
            *final(self) == (Cpu { regs: final(self).regs, ..*old(self) }),
    {
        let carry_in: u8 = if self.regs.flag_c() { 1 } else { 0 };
        let a = self.regs.a;
        let value_with_carry = (value as u16) + (carry_in as u16);
        let next = a.wrapping_sub(value).wrapping_sub(carry_in);
        proof { lemma_nibble(a); lemma_nibble(value); }
        assert(next as int == (a as int - value as int - carry_in as int + 512) % 256) by (nonlinear_arith)
            requires
                next as int == ((a as int - value as int + 256) % 256 - carry_in as int + 256) % 256,
                carry_in <= 1;
        self.regs.a = next;
        self.regs.set_flags(next == 0, true, (a & 0x0F) < ((value & 0x0F) + carry_in), (a as u16) < value_with_carry);
    }

    pub fn alu_and(&mut self, value: u8)
        ensures
            final(self).regs == alu_spec(old(self).regs, 4, value),
            *final(self) == (Cpu { regs: final(self).regs, ..*old(self) }),
    {
        let next = self.regs.a & value;
        self.regs.a = next;
        self.regs.set_flags(next == 0, false, true, false);
    }

    pub fn alu_xor(&mut self, value: u8)
        ensures
            final(self).regs == alu_spec(old(self).regs, 5, value),
            *final(self) == (Cpu { regs: final(self).regs, ..*old(self) }),
    {
        let next = self.regs.a ^ value;
        self.regs.a = next;
        self.regs.set_flags(next == 0, false, false, false);
    }

    pub fn alu_or(&mut self, value: u8)
        ensures
            final(self).regs == alu_spec(old(self).regs, 6, value),
            *final(self) == (Cpu { regs: final(self).regs, ..*old(self) }),
    {
        let next = self.regs.a | value;
        self.regs.a = next;
        self.regs.set_flags(next == 0, false, false, false);
    }

    pub fn alu_cp(&mut self, value: u8)
        ensures
            final(self).regs == alu_spec(old(self).regs, 7, value),
            *final(self) == (Cpu { regs: final(self).regs, ..*old(self) }),
    {
        let a = self.regs.a;
        let next = a.wrapping_sub(value);
        proof { lemma_nibble(a); lemma_nibble(value); }
        self.regs.set_flags(next == 0, true, (a & 0x0F) < (value & 0x0F), a < value);
    }

    /// Applies accumulator operation `op` (0-7).
    pub fn alu(&mut self, op: u8, value: u8)
        requires
            op < 8,
        ensures
            final(self).regs == alu_spec(old(self).regs, op, value),
            *final(self) == (Cpu { regs: final(self).regs, ..*old(self) }),
    {
        match op {
            0 => self.alu_add(value),
            1 => self.alu_adc(value),
            2 => self.alu_sub(value),
            3 => self.alu_sbc(value),
            4 => self.alu_and(value),
            5 => self.alu_xor(value),
            6 => self.alu_or(value),
            _ => self.alu_cp(value),
        }
    }

    pub fn add_hl(&mut self, value: u16)
        ensures
            final(self).regs == add_hl_spec(old(self).regs, value),
            *final(self) == (Cpu { regs: final(self).regs, ..*old(self) }),
    {
        let hl = self.regs.hl();
        let result = hl.wrapping_add(value);
        proof { lemma_low12(hl); lemma_low12(value); }
        proof { lemma_set_nhc_flags(self.regs.f, false, hl % 4096 + value % 4096 > 4095, hl as int + value as int > 65535); }
        self.regs.set_flag_n(false);
        self.regs.set_flag_h(((hl & 0x0FFF) + (value & 0x0FFF)) > 0x0FFF);
        self.regs.set_flag_c((hl as u32 + value as u32) > 0xFFFF);
        self.regs.set_hl(result);
    }

    /// SP plus the signed offset byte `offset`, setting the flags; SP itself is not changed.
    pub fn add_sp_offset(&mut self, offset: u8) -> (result: u16)
        ensures
            (final(self).regs, result) == add_sp_offset_spec(old(self).regs, old(self).sp, offset),
            *final(self) == (Cpu { regs: final(self).regs, ..*old(self) }),
    {
        let sp = self.sp;
        let offset_u16: u16 = if offset < 0x80 { offset as u16 } else { (offset as u16) | 0xFF00 };
        proof { lemma_or_low_byte(0xFF00u16, offset as u16); }
        let result = sp.wrapping_add(offset_u16);
        assert(((((sp ^ offset_u16 ^ result) & 0x0100) != 0) <==> (sp % 256 + offset_u16 % 256 > 255))
            && ((((sp ^ offset_u16 ^ result) & 0x0010) != 0) <==> (sp % 16 + offset_u16 % 16 > 15))) by (bit_vector)
            requires result == ((sp as int + offset_u16 as int) % 65536) as u16;
        let carry = ((sp ^ offset_u16 ^ result) & 0x0100) != 0;
        let half_carry = ((sp ^ offset_u16 ^ result) & 0x0010) != 0;
        self.regs.set_flags(false, false, half_carry, carry);
        result
    }

    /// Condition `cond` (0-3: NZ, Z, NC, C) on the current flags.
    pub open spec fn cond_spec(&self, cond: u8) -> bool {
        if cond == 0 { !self.regs.zf() } else if cond == 1 { self.regs.zf() }
        else if cond == 2 { !self.regs.cf() } else { self.regs.cf() }
    }

    pub fn test_cond(&self, cond: u8) -> (r: bool)
        ensures r == self.cond_spec(cond),
    {
        match cond {
            0 => !self.regs.flag_z(),
            1 => self.regs.flag_z(),
            2 => !self.regs.flag_c(),
            _ => self.regs.flag_c(),
        }
    }
}

} // verus!
