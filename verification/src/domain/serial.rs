//! SB/SC serial port; only the internal clock completes transfers (no link partner).
use vstd::prelude::*;

verus! {

/// A transfer takes 8 bits at 512 cycles per bit.
pub const SERIAL_TRANSFER_CYCLES: u32 = 8192;
/// Interrupt flag bit raised at the end of a transfer.
pub const IF_SERIAL: u8 = 0x08;

#[derive(Debug)]
pub struct Serial {
    pub sb: u8,
    pub sc: u8,
    pub cycles_remaining: u32,
}

impl Serial {
    pub open spec fn step_spec(self, cycles: u32) -> (Serial, u8) {
        if self.sc & 0x80 == 0 || self.sc & 0x01 == 0 || self.cycles_remaining == 0 {
            (self, 0u8)
        } else if self.cycles_remaining <= cycles {
            (Serial { cycles_remaining: 0, sb: 0xFF, sc: self.sc & 0x7F }, IF_SERIAL)
        } else {
            (Serial { cycles_remaining: (self.cycles_remaining - cycles) as u32, ..self }, 0u8)
        }
    }

    pub open spec fn write_sc_spec(self, value: u8) -> Serial {
        let starts = value & 0x80 != 0 && value & 0x01 != 0 && self.sc & 0x80 == 0;
        Serial {
            sc: value,
            cycles_remaining: if starts { SERIAL_TRANSFER_CYCLES } else { self.cycles_remaining },
            ..self
        }
    }

    pub fn new() -> (s: Self)
        ensures
            s.sb == 0 && s.sc == 0 && s.cycles_remaining == 0,
    {
        Serial { sb: 0x00, sc: 0x00, cycles_remaining: 0 }
    }

    pub fn sb(&self) -> (r: u8)
        ensures r == self.sb,
    {
        self.sb
    }

    /// Bits 1-6 of SC are unused and read as 1.
    pub fn sc(&self) -> (r: u8)
        ensures r == self.sc | 0x7E,
    {
        self.sc | 0x7E
    }

    pub fn write_sb(&mut self, value: u8)
        ensures
            final(self).sb == value,
            final(self).sc == old(self).sc,
            final(self).cycles_remaining == old(self).cycles_remaining,
    {
        self.sb = value;
    }

    /// Starts an internal-clock transfer when bit 7 and bit 0 are set and none was running.
    /// Never raises an interrupt by itself.
    pub fn write_sc(&mut self, value: u8) -> (irq: u8)
        ensures
            *final(self) == old(self).write_sc_spec(value),
            irq == 0,
    {
        let old_sc = self.sc;
        self.sc = value;
        let start_transfer = (value & 0x80) != 0;
        let internal_clock = (value & 0x01) != 0;
        let was_transferring = (old_sc & 0x80) != 0;
        if start_transfer && internal_clock && !was_transferring {
            self.cycles_remaining = SERIAL_TRANSFER_CYCLES;
        }
        0
    }

    /// Advances a running internal-clock transfer; on completion SB reads 0xFF (no partner),
    /// the start bit clears and IF_SERIAL is returned.
    pub fn step(&mut self, cycles: u32) -> (irq: u8)
        ensures
            (*final(self), irq) == old(self).step_spec(cycles),
    {
        let is_transferring = (self.sc & 0x80) != 0;
        let internal_clock = (self.sc & 0x01) != 0;
        if !is_transferring || !internal_clock {
            return 0;
        }
        if self.cycles_remaining == 0 {
            return 0;
        }
        if self.cycles_remaining <= cycles {
            self.cycles_remaining = 0;
            self.sb = 0xFF;
            self.sc = self.sc & 0x7F;
            IF_SERIAL
        } else {
            self.cycles_remaining = self.cycles_remaining - cycles;
            0
        }
    }

    pub fn apply_post_boot_state(&mut self)
        ensures
            final(self).sb == 0 && final(self).sc == 0 && final(self).cycles_remaining == 0,
    {
        self.sb = 0x00;
        self.sc = 0x00;
        self.cycles_remaining = 0;
    }
}

/// Law: a transfer started with SC = 0x81 completes exactly when the accumulated cycles reach
/// 8192: one step of fewer cycles leaves it running, one step of at least that many ends it.
pub proof fn lemma_serial_transfer_completes(s: Serial, cycles: u32)
    requires
        s.sc & 0x80 == 0,
    ensures
        ({
            let started = s.write_sc_spec(0x81);
            let (after, irq) = started.step_spec(cycles);
            &&& cycles < SERIAL_TRANSFER_CYCLES ==> irq == 0 && after.sc & 0x80 != 0
            &&& cycles >= SERIAL_TRANSFER_CYCLES ==> irq == IF_SERIAL && after.sb == 0xFF
                && after.sc & 0x80 == 0
        }),
{
    assert((0x81u8 & 0x80u8) != 0 && (0x81u8 & 0x01u8) != 0 && (0x81u8 & 0x7Fu8) & 0x80 == 0)
        by (bit_vector);
}

} // verus!
