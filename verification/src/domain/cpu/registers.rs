//! The SM83 register file: A, F (flags Z N H C in the high nibble) and the pairs BC, DE, HL.
use vstd::prelude::*;
use crate::bits::{lemma_byte, lemma_join_word, lemma_word};

verus! {

pub const FLAG_Z: u8 = 0x80;
pub const FLAG_N: u8 = 0x40;
pub const FLAG_H: u8 = 0x20;
pub const FLAG_C: u8 = 0x10;

#[derive(Debug, Clone, Copy, PartialEq, Eq, Structural)]
pub struct Registers {
    pub a: u8,
    pub f: u8,
    pub b: u8,
    pub c: u8,
    pub d: u8,
    pub e: u8,
    pub h: u8,
    pub l: u8,
}

/// The big-endian pair `hi:lo`.
pub open spec fn pair(hi: u8, lo: u8) -> u16 {
    (hi as int * 256 + lo as int) as u16
}

/// The flag byte with the four flags given (low nibble clear).
pub open spec fn flags_byte(z: bool, n: bool, h: bool, c: bool) -> u8 {
    (if z { FLAG_Z } else { 0 }) | (if n { FLAG_N } else { 0 }) | (if h { FLAG_H } else { 0 })
        | (if c { FLAG_C } else { 0 })
}

/// `f` with flag `mask` set or cleared, and the low nibble cleared.
pub open spec fn set_flag_spec(f: u8, mask: u8, on: bool) -> u8 {
    (if on { f | mask } else { f & !mask }) & 0xF0
}

/// Setting Z, N, H and C in turn gives the flag byte with exactly those flags.
pub proof fn lemma_set_all_flags(f: u8, z: bool, n: bool, h: bool, c: bool)
    ensures
        set_flag_spec(set_flag_spec(set_flag_spec(set_flag_spec(f, FLAG_Z, z), FLAG_N, n), FLAG_H, h), FLAG_C, c)
            == flags_byte(z, n, h, c),
{
    assert(set_flag_spec(set_flag_spec(set_flag_spec(set_flag_spec(f, 0x80u8, z), 0x40u8, n), 0x20u8, h), 0x10u8, c)
        == (if z { 0x80u8 } else { 0 }) | (if n { 0x40u8 } else { 0 }) | (if h { 0x20u8 } else { 0 })
            | (if c { 0x10u8 } else { 0 })) by (bit_vector);
}

/// Setting Z, N and H keeps C.
pub proof fn lemma_set_znh_flags(f: u8, z: bool, n: bool, h: bool)
    ensures
        set_flag_spec(set_flag_spec(set_flag_spec(f, FLAG_Z, z), FLAG_N, n), FLAG_H, h)
            == flags_byte(z, n, h, f & FLAG_C != 0),
{
    assert(set_flag_spec(set_flag_spec(set_flag_spec(f, 0x80u8, z), 0x40u8, n), 0x20u8, h)
        == (if z { 0x80u8 } else { 0 }) | (if n { 0x40u8 } else { 0 }) | (if h { 0x20u8 } else { 0 })
            | (if f & 0x10u8 != 0 { 0x10u8 } else { 0 })) by (bit_vector);
}

/// Setting N, H and C keeps Z.
pub proof fn lemma_set_nhc_flags(f: u8, n: bool, h: bool, c: bool)
    ensures
        set_flag_spec(set_flag_spec(set_flag_spec(f, FLAG_N, n), FLAG_H, h), FLAG_C, c)
            == flags_byte(f & FLAG_Z != 0, n, h, c),
{
    assert(set_flag_spec(set_flag_spec(set_flag_spec(f, 0x40u8, n), 0x20u8, h), 0x10u8, c)
        == (if f & 0x80u8 != 0 { 0x80u8 } else { 0 }) | (if n { 0x40u8 } else { 0 })
            | (if h { 0x20u8 } else { 0 }) | (if c { 0x10u8 } else { 0 })) by (bit_vector);
}

/// The flags of a flag byte read back as the values it was built from.
pub proof fn lemma_flags_byte_bits(z: bool, n: bool, h: bool, c: bool)
    ensures
        (flags_byte(z, n, h, c) & FLAG_Z != 0) == z,
        (flags_byte(z, n, h, c) & FLAG_N != 0) == n,
        (flags_byte(z, n, h, c) & FLAG_H != 0) == h,
        (flags_byte(z, n, h, c) & FLAG_C != 0) == c,
        flags_byte(z, n, h, c) & 0x0F == 0,
{
    let fb = (if z { 0x80u8 } else { 0 }) | (if n { 0x40u8 } else { 0 }) | (if h { 0x20u8 } else { 0 })
        | (if c { 0x10u8 } else { 0 });
    assert((fb & 0x80 != 0) == z && (fb & 0x40 != 0) == n && (fb & 0x20 != 0) == h
        && (fb & 0x10 != 0) == c && fb & 0x0F == 0) by (bit_vector)
        requires fb == (if z { 0x80u8 } else { 0 }) | (if n { 0x40u8 } else { 0 })
            | (if h { 0x20u8 } else { 0 }) | (if c { 0x10u8 } else { 0 });
}

/// Writing a register pair reads back the same value, except that AF always reads with the
/// low nibble of F cleared.
pub proof fn lemma_register_pair_round_trip(r: Registers, v: u16)
    ensures
        r.with_bc(v).bc_spec() == v,
        r.with_de(v).de_spec() == v,
        r.with_hl(v).hl_spec() == v,
        r.with_af(v).af_spec() == v - v % 16,
        r.with_af(v).f & 0x0F == 0,
{
    let lo = (v % 256) as u8;
    lemma_byte(lo);
    assert((v % 256) % 16 == v % 16) by (nonlinear_arith);
    assert((lo & 0xF0) & 0x0F == 0) by {
        lemma_byte(lo & 0xF0);
    }
}

/// Setting or clearing one flag leaves the low nibble of F at zero.
pub proof fn lemma_set_flag_clears_low_nibble(f: u8, mask: u8, on: bool)
    ensures
        set_flag_spec(f, mask, on) & 0x0F == 0,
{
    let x = if on { f | mask } else { f & !mask };
    lemma_byte(x & 0xF0);
    lemma_byte(x);
}

impl Registers {
    pub open spec fn af_spec(&self) -> u16 { pair(self.a, self.f) }
    pub open spec fn bc_spec(&self) -> u16 { pair(self.b, self.c) }
    pub open spec fn de_spec(&self) -> u16 { pair(self.d, self.e) }
    pub open spec fn hl_spec(&self) -> u16 { pair(self.h, self.l) }

    pub open spec fn zf(&self) -> bool { self.f & FLAG_Z != 0 }
    pub open spec fn nf(&self) -> bool { self.f & FLAG_N != 0 }
    pub open spec fn hf(&self) -> bool { self.f & FLAG_H != 0 }
    pub open spec fn cf(&self) -> bool { self.f & FLAG_C != 0 }

    pub open spec fn with_af(self, v: u16) -> Registers {
        Registers { a: (v / 256) as u8, f: ((v % 256) as u8) & 0xF0, ..self }
    }
    pub open spec fn with_bc(self, v: u16) -> Registers {
        Registers { b: (v / 256) as u8, c: (v % 256) as u8, ..self }
    }
    pub open spec fn with_de(self, v: u16) -> Registers {
        Registers { d: (v / 256) as u8, e: (v % 256) as u8, ..self }
    }
    pub open spec fn with_hl(self, v: u16) -> Registers {
        Registers { h: (v / 256) as u8, l: (v % 256) as u8, ..self }
    }

    pub fn new() -> (r: Self)
        ensures r == (Registers { a: 0, f: 0, b: 0, c: 0, d: 0, e: 0, h: 0, l: 0 }),
    {
        Registers { a: 0, f: 0, b: 0, c: 0, d: 0, e: 0, h: 0, l: 0 }
    }

    pub fn a(&self) -> (r: u8) ensures r == self.a, { self.a }
    pub fn b(&self) -> (r: u8) ensures r == self.b, { self.b }
    pub fn c(&self) -> (r: u8) ensures r == self.c, { self.c }
    pub fn d(&self) -> (r: u8) ensures r == self.d, { self.d }
    pub fn e(&self) -> (r: u8) ensures r == self.e, { self.e }
    pub fn h(&self) -> (r: u8) ensures r == self.h, { self.h }
    pub fn l(&self) -> (r: u8) ensures r == self.l, { self.l }
    pub fn f(&self) -> (r: u8) ensures r == self.f, { self.f }

    pub fn set_a(&mut self, value: u8) ensures *final(self) == (Registers { a: value, ..*old(self) }), { self.a = value; }
    pub fn set_b(&mut self, value: u8) ensures *final(self) == (Registers { b: value, ..*old(self) }), { self.b = value; }
    pub fn set_c(&mut self, value: u8) ensures *final(self) == (Registers { c: value, ..*old(self) }), { self.c = value; }
    pub fn set_d(&mut self, value: u8) ensures *final(self) == (Registers { d: value, ..*old(self) }), { self.d = value; }
    pub fn set_e(&mut self, value: u8) ensures *final(self) == (Registers { e: value, ..*old(self) }), { self.e = value; }
    pub fn set_h(&mut self, value: u8) ensures *final(self) == (Registers { h: value, ..*old(self) }), { self.h = value; }
    pub fn set_l(&mut self, value: u8) ensures *final(self) == (Registers { l: value, ..*old(self) }), { self.l = value; }

    pub fn af(&self) -> (r: u16)
        ensures r == self.af_spec(),
    {
        join(self.a, self.f)
    }

    pub fn bc(&self) -> (r: u16)
        ensures r == self.bc_spec(),
    {
        join(self.b, self.c)
    }

    pub fn de(&self) -> (r: u16)
        ensures r == self.de_spec(),
    {
        join(self.d, self.e)
    }

    pub fn hl(&self) -> (r: u16)
        ensures r == self.hl_spec(),
    {
        join(self.h, self.l)
    }

    /// Sets A and F; the low nibble of F always reads 0.
    pub fn set_af(&mut self, value: u16)
        ensures *final(self) == old(self).with_af(value),
    {
        let (hi, lo) = split(value);
        self.a = hi;
        self.f = lo & 0xF0;
    }

    pub fn set_bc(&mut self, value: u16)
        ensures *final(self) == old(self).with_bc(value),
    {
        let (hi, lo) = split(value);
        self.b = hi;
        self.c = lo;
    }

    pub fn set_de(&mut self, value: u16)
        ensures *final(self) == old(self).with_de(value),
    {
        let (hi, lo) = split(value);
        self.d = hi;
        self.e = lo;
    }

    pub fn set_hl(&mut self, value: u16)
        ensures *final(self) == old(self).with_hl(value),
    {
        let (hi, lo) = split(value);
        self.h = hi;
        self.l = lo;
    }

    pub fn flag_z(&self) -> (r: bool) ensures r == self.zf(), { self.f & FLAG_Z != 0 }
    pub fn flag_n(&self) -> (r: bool) ensures r == self.nf(), { self.f & FLAG_N != 0 }
    pub fn flag_h(&self) -> (r: bool) ensures r == self.hf(), { self.f & FLAG_H != 0 }
    pub fn flag_c(&self) -> (r: bool) ensures r == self.cf(), { self.f & FLAG_C != 0 }

    pub fn set_flag_z(&mut self, on: bool)
        ensures *final(self) == (Registers { f: set_flag_spec(old(self).f, FLAG_Z, on), ..*old(self) }),
    {
        self.set_flag(FLAG_Z, on);
    }

    pub fn set_flag_n(&mut self, on: bool)
        ensures *final(self) == (Registers { f: set_flag_spec(old(self).f, FLAG_N, on), ..*old(self) }),
    {
        self.set_flag(FLAG_N, on);
    }

    pub fn set_flag_h(&mut self, on: bool)
        ensures *final(self) == (Registers { f: set_flag_spec(old(self).f, FLAG_H, on), ..*old(self) }),
    {
        self.set_flag(FLAG_H, on);
    }

    pub fn set_flag_c(&mut self, on: bool)
        ensures *final(self) == (Registers { f: set_flag_spec(old(self).f, FLAG_C, on), ..*old(self) }),
    {
        self.set_flag(FLAG_C, on);
    }

    fn set_flag(&mut self, mask: u8, on: bool)
        ensures *final(self) == (Registers { f: set_flag_spec(old(self).f, mask, on), ..*old(self) }),
    {
        if on {
            self.f |= mask;
        } else {
            self.f &= !mask;
        }
        self.f &= 0xF0;
    }

    /// Sets all four flags.
    pub fn set_flags(&mut self, z: bool, n: bool, h: bool, c: bool)
        ensures *final(self) == (Registers { f: flags_byte(z, n, h, c), ..*old(self) }),
    {
        proof { lemma_set_all_flags(self.f, z, n, h, c); }
        self.set_flag_z(z);
        self.set_flag_n(n);
        self.set_flag_h(h);
        self.set_flag_c(c);
    }
}

/// The 16-bit value `hi:lo`.
pub fn join(hi: u8, lo: u8) -> (r: u16)
    ensures r == pair(hi, lo),
{
    proof { lemma_join_word(hi as u16, lo as u16); }
    ((hi as u16) << 8) | (lo as u16)
}

/// The high and low bytes of `value`.
pub fn split(value: u16) -> (r: (u8, u8))
    ensures
        r.0 == value / 256,
        r.1 == value % 256,
        pair(r.0, r.1) == value,
{
    proof { lemma_word(value); }
    ((value >> 8) as u8, (value & 0xFF) as u8)
}

} // verus!
