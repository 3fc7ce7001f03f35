//! The SM83 CPU core: registers, the stack and program counters, and instruction execution
//! against the bus.
pub mod registers;
pub mod alu;
pub mod ops;
pub mod exec;
pub mod step;

use vstd::prelude::*;
pub use crate::domain::cpu::registers::Registers;

verus! {

#[derive(Debug, Clone, Copy, PartialEq, Eq, Structural)]
pub enum CpuError {
    UnimplementedOpcode(u8),
    UnimplementedCbOpcode(u8),
}

#[derive(Debug, Clone, Copy, PartialEq, Eq, Structural)]
pub struct Cpu {
    pub regs: Registers,
    pub pc: u16,
    pub sp: u16,
    pub ime: bool,
    pub halted: bool,
    pub stopped: bool,
}

impl Cpu {
    pub open spec fn initial() -> Cpu {
        Cpu {
            regs: Registers { a: 0, f: 0, b: 0, c: 0, d: 0, e: 0, h: 0, l: 0 },
            pc: 0x0000,
            sp: 0xFFFE,
            ime: false,
            halted: false,
            stopped: false,
        }
    }

    /// The DMG register state right after the boot ROM hands over at 0x0100.
    pub open spec fn post_boot() -> Cpu {
        Cpu {
            regs: Registers { a: 0x01, f: 0xB0, b: 0x00, c: 0x13, d: 0x00, e: 0xD8, h: 0x01, l: 0x4D },
            pc: 0x0100,
            sp: 0xFFFE,
            ime: false,
            halted: false,
            stopped: false,
        }
    }

    pub fn new() -> (c: Self)
        ensures c == Cpu::initial(),
    {
        Cpu { regs: Registers::new(), pc: 0x0000, sp: 0xFFFE, ime: false, halted: false, stopped: false }
    }

    /// Sets the registers as the boot ROM leaves them and continues at 0x0100.
    pub fn apply_post_boot_state(&mut self)
        ensures *final(self) == Cpu::post_boot(),
    {
        self.regs = Registers { a: 0x01, f: 0xB0, b: 0x00, c: 0x13, d: 0x00, e: 0xD8, h: 0x01, l: 0x4D };
        self.pc = 0x0100;
        self.sp = 0xFFFE;
        self.ime = false;
        self.halted = false;
        self.stopped = false;
    }

    pub fn regs(&self) -> (r: &Registers)
        ensures *r == self.regs,
    {
        &self.regs
    }

    pub fn regs_mut(&mut self) -> (r: &mut Registers)
        ensures
            *r == old(self).regs,
            *final(self) == (Cpu { regs: *final(r), ..*old(self) }),
    {
        &mut self.regs
    }

    pub fn pc(&self) -> (r: u16)
        ensures r == self.pc,
    {
        self.pc
    }

    pub fn sp(&self) -> (r: u16)
        ensures r == self.sp,
    {
        self.sp
    }

    pub fn set_pc(&mut self, value: u16)
        ensures *final(self) == (Cpu { pc: value, ..*old(self) }),
    {
        self.pc = value;
    }

    pub fn set_sp(&mut self, value: u16)
        ensures *final(self) == (Cpu { sp: value, ..*old(self) }),
    {
        self.sp = value;
    }

    pub fn ime(&self) -> (r: bool)
        ensures r == self.ime,
    {
        self.ime
    }

    pub fn set_ime(&mut self, value: bool)
        ensures *final(self) == (Cpu { ime: value, ..*old(self) }),
    {
        self.ime = value;
    }
}

} // verus!
