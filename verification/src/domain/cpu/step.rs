//! Executing instructions against the bus, one family at a time.
use vstd::prelude::*;
use crate::bits::{lemma_byte, lemma_or_low_byte};
use crate::domain::bus::{Bus, HostTimes, StepTimes, fixed_times, fixed_step_times};
use crate::domain::cpu::ops::{fetch8_at, fetch16_at, read_r8_at, write_r8_at, push16_at, pop16_at};
use crate::domain::cpu::{Cpu, CpuError};
use crate::domain::cpu::exec::{StepResult, step_spec, exec_op_spec, step_at, exec_op_at, control_at, ld_rr_imm_at, inc_dec_r8_at, ld_indirect_at, inc_dec_rr_at, ld_r8_imm_at, add_hl_rr_at, ld_hl_step_at, jr_at, ld_r8_r8_at, alu_op_at, stack_at, jump_at, ld_high_at, sp_offset_at, control_spec, ld_rr_imm_spec, inc_dec_r8_spec, ld_indirect_spec, inc_dec_rr_spec, ld_r8_imm_spec, add_hl_rr_spec, ld_hl_step_spec, jr_spec, ld_r8_r8_spec, alu_op_spec, stack_spec, jump_spec, ld_high_spec, sp_offset_spec, is_control, is_ld_rr_imm, is_inc_dec_r8, is_ld_indirect, is_inc_dec_rr, is_ld_r8_imm, is_add_hl_rr, is_ld_hl_step, is_jr, is_ld_r8_r8, is_alu_op, is_stack_op, is_jump, is_ld_high, is_sp_offset};

verus! {

/// Host times with `t0` for the opcode fetch and `ts[k]` for the instruction's bus access
/// `k + 1`.
spec fn times_of(t0: HostTimes, ts: Seq<HostTimes>) -> StepTimes {
    |i: nat| if i == 0 { t0 } else if i - 1 < ts.len() { ts[i - 1] } else { fixed_times(0) }
}

impl Cpu {
    fn exec_control(&mut self, bus: &mut Bus, op: u8, Ghost(t0): Ghost<HostTimes>) -> (r: Result<u32, CpuError>)
        requires old(bus)@.wf(), is_control(op),
        ensures
            r is Ok ==> 4 <= r->Ok_0 <= 24,
            final(bus)@ == old(bus)@,
            old(bus)@.clock_free() ==> (*final(self), final(bus)@, r) == control_spec(*old(self), old(bus)@, op),
            exists|t: StepTimes| t(0) == t0 && (*final(self), final(bus)@, r) == #[trigger] control_at(*old(self), old(bus)@, op, t),
    {
        proof { reveal(control_at); }
        let ghost mut ts: Seq<HostTimes> = Seq::empty();
        if op == 0x76 {
            self.halted = true;
        } else if op == 0x10 {
            let skipped = self.fetch8(bus);
            proof {
                let t1 = choose|t: HostTimes| (*self, skipped) == #[trigger] fetch8_at(*old(self), bus@, t);
                ts = seq![t1];
            }
            self.stopped = true;
        }
        let r: Result<u32, CpuError> = Ok(4);
        proof { assert((*self, bus@, r) == control_at(*old(self), old(bus)@, op, times_of(t0, ts))); }
        r
    }

    fn exec_ld_rr_imm(&mut self, bus: &mut Bus, op: u8, Ghost(t0): Ghost<HostTimes>) -> (r: Result<u32, CpuError>)
        requires old(bus)@.wf(), is_ld_rr_imm(op),
        ensures
            r is Ok ==> 4 <= r->Ok_0 <= 24,
            final(bus)@ == old(bus)@,
            old(bus)@.clock_free() ==> (*final(self), final(bus)@, r) == ld_rr_imm_spec(*old(self), old(bus)@, op),
            exists|t: StepTimes| t(0) == t0 && (*final(self), final(bus)@, r) == #[trigger] ld_rr_imm_at(*old(self), old(bus)@, op, t),
    {
        proof { reveal(ld_rr_imm_at); }
        let ghost mut ts: Seq<HostTimes> = Seq::empty();
        let value = self.fetch16(bus);
        proof {
            let (t1, t2) = choose|t1: HostTimes, t2: HostTimes| (*self, value) == #[trigger] fetch16_at(*old(self), bus@, t1, t2);
            ts = seq![t1, t2];
        }
        self.write_reg16((op >> 4) & 3, value);
        let r: Result<u32, CpuError> = Ok(12);
        proof { assert((*self, bus@, r) == ld_rr_imm_at(*old(self), old(bus)@, op, times_of(t0, ts))); }
        r
    }

    fn exec_inc_dec_r8(&mut self, bus: &mut Bus, op: u8, Ghost(t0): Ghost<HostTimes>) -> (r: Result<u32, CpuError>)
        requires old(bus)@.wf(), is_inc_dec_r8(op),
        ensures
            r is Ok ==> 4 <= r->Ok_0 <= 24,
            final(bus)@.wf(),
            final(bus)@.clock_free() == old(bus)@.clock_free(),
            old(bus)@.clock_free() ==> (*final(self), final(bus)@, r) == inc_dec_r8_spec(*old(self), old(bus)@, op),
            exists|t: StepTimes| t(0) == t0 && (*final(self), final(bus)@, r) == #[trigger] inc_dec_r8_at(*old(self), old(bus)@, op, t),
    {
        proof { reveal(inc_dec_r8_at); }
        let ghost mut ts: Seq<HostTimes> = Seq::empty();
        let reg = (op >> 3) & 7;
        let value = self.read_reg8(reg, bus);
        proof {
            let t1 = choose|t: HostTimes| value == #[trigger] read_r8_at(*old(self), bus@, reg, t);
            ts = seq![t1];
        }
        let next = if op & 1 == 0 { self.inc8(value) } else { self.dec8(value) };
        let ghost c1 = *self;
        self.write_reg8(reg, next, bus);
        proof {
            let t2 = choose|t: HostTimes| (*self, bus@) == #[trigger] write_r8_at(c1, old(bus)@, reg, next, t);
            ts = ts.push(t2);
        }
        let r: Result<u32, CpuError> = Ok(if reg == 6 { 12 } else { 4 });
        proof { assert((*self, bus@, r) == inc_dec_r8_at(*old(self), old(bus)@, op, times_of(t0, ts))); }
        r
    }

    fn exec_ld_indirect(&mut self, bus: &mut Bus, op: u8, Ghost(t0): Ghost<HostTimes>) -> (r: Result<u32, CpuError>)
        requires old(bus)@.wf(), is_ld_indirect(op),
        ensures
            r is Ok ==> 4 <= r->Ok_0 <= 24,
            final(bus)@.wf(),
            final(bus)@.clock_free() == old(bus)@.clock_free(),
            old(bus)@.clock_free() ==> (*final(self), final(bus)@, r) == ld_indirect_spec(*old(self), old(bus)@, op),
            exists|t: StepTimes| t(0) == t0 && (*final(self), final(bus)@, r) == #[trigger] ld_indirect_at(*old(self), old(bus)@, op, t),
    {
        proof { reveal(ld_indirect_at); }
        let ghost mut ts: Seq<HostTimes> = Seq::empty();
        let addr = if op & 0x10 == 0 { self.regs.bc() } else { self.regs.de() };
        if op & 0x08 == 0 {
            bus.write8(addr, self.regs.a);
            proof {
                let t1 = choose|t: HostTimes| bus@ == #[trigger] old(bus)@.write_at(addr, self.regs.a, t);
                ts = seq![t1];
            }
        } else {
            self.regs.a = bus.read8(addr);
            proof {
                let now = choose|now: u128| self.regs.a == bus@.read_spec(addr, now);
                ts = seq![fixed_times(now)];
            }
        }
        let r: Result<u32, CpuError> = Ok(8);
        proof { assert((*self, bus@, r) == ld_indirect_at(*old(self), old(bus)@, op, times_of(t0, ts))); }
        r
    }

    fn exec_inc_dec_rr(&mut self, bus: &mut Bus, op: u8, Ghost(t0): Ghost<HostTimes>) -> (r: Result<u32, CpuError>)
        requires old(bus)@.wf(), is_inc_dec_rr(op),
        ensures
            r is Ok ==> 4 <= r->Ok_0 <= 24,
            final(bus)@ == old(bus)@,
            old(bus)@.clock_free() ==> (*final(self), final(bus)@, r) == inc_dec_rr_spec(*old(self), old(bus)@, op),
            exists|t: StepTimes| t(0) == t0 && (*final(self), final(bus)@, r) == #[trigger] inc_dec_rr_at(*old(self), old(bus)@, op, t),
    {
        proof { reveal(inc_dec_rr_at); }
        let ghost ts: Seq<HostTimes> = Seq::empty();
        let idx = (op >> 4) & 3;
        let value = self.read_reg16(idx);
        let next = if op & 0x08 == 0 { value.wrapping_add(1) } else { value.wrapping_sub(1) };
        self.write_reg16(idx, next);
        let r: Result<u32, CpuError> = Ok(8);
        proof { assert((*self, bus@, r) == inc_dec_rr_at(*old(self), old(bus)@, op, times_of(t0, ts))); }
        r
    }

    fn exec_ld_r8_imm(&mut self, bus: &mut Bus, op: u8, Ghost(t0): Ghost<HostTimes>) -> (r: Result<u32, CpuError>)
        requires old(bus)@.wf(), is_ld_r8_imm(op),
        ensures
            r is Ok ==> 4 <= r->Ok_0 <= 24,
            final(bus)@.wf(),
            final(bus)@.clock_free() == old(bus)@.clock_free(),
            old(bus)@.clock_free() ==> (*final(self), final(bus)@, r) == ld_r8_imm_spec(*old(self), old(bus)@, op),
            exists|t: StepTimes| t(0) == t0 && (*final(self), final(bus)@, r) == #[trigger] ld_r8_imm_at(*old(self), old(bus)@, op, t),
    {
        proof { reveal(ld_r8_imm_at); }
        let ghost mut ts: Seq<HostTimes> = Seq::empty();
        let reg = (op >> 3) & 7;
        let value = self.fetch8(bus);
        proof {
            let t1 = choose|t: HostTimes| (*self, value) == #[trigger] fetch8_at(*old(self), bus@, t);
            ts = seq![t1];
        }
        let ghost c1 = *self;
        self.write_reg8(reg, value, bus);
        proof {
            let t2 = choose|t: HostTimes| (*self, bus@) == #[trigger] write_r8_at(c1, old(bus)@, reg, value, t);
            ts = ts.push(t2);
        }
        let r: Result<u32, CpuError> = Ok(if reg == 6 { 12 } else { 8 });
        proof { assert((*self, bus@, r) == ld_r8_imm_at(*old(self), old(bus)@, op, times_of(t0, ts))); }
        r
    }

    fn exec_add_hl_rr(&mut self, bus: &mut Bus, op: u8, Ghost(t0): Ghost<HostTimes>) -> (r: Result<u32, CpuError>)
        requires old(bus)@.wf(), is_add_hl_rr(op),
        ensures
            r is Ok ==> 4 <= r->Ok_0 <= 24,
            final(bus)@ == old(bus)@,
            old(bus)@.clock_free() ==> (*final(self), final(bus)@, r) == add_hl_rr_spec(*old(self), old(bus)@, op),
            exists|t: StepTimes| t(0) == t0 && (*final(self), final(bus)@, r) == #[trigger] add_hl_rr_at(*old(self), old(bus)@, op, t),
    {
        proof { reveal(add_hl_rr_at); }
        let ghost ts: Seq<HostTimes> = Seq::empty();
        let value = self.read_reg16((op >> 4) & 3);
        self.add_hl(value);
        let r: Result<u32, CpuError> = Ok(8);
        proof { assert((*self, bus@, r) == add_hl_rr_at(*old(self), old(bus)@, op, times_of(t0, ts))); }
        r
    }

    fn exec_ld_hl_step(&mut self, bus: &mut Bus, op: u8, Ghost(t0): Ghost<HostTimes>) -> (r: Result<u32, CpuError>)
        requires old(bus)@.wf(), is_ld_hl_step(op),
        ensures
            r is Ok ==> 4 <= r->Ok_0 <= 24,
            final(bus)@.wf(),
            final(bus)@.clock_free() == old(bus)@.clock_free(),
            old(bus)@.clock_free() ==> (*final(self), final(bus)@, r) == ld_hl_step_spec(*old(self), old(bus)@, op),
            exists|t: StepTimes| t(0) == t0 && (*final(self), final(bus)@, r) == #[trigger] ld_hl_step_at(*old(self), old(bus)@, op, t),
    {
        proof { reveal(ld_hl_step_at); }
        let ghost mut ts: Seq<HostTimes> = Seq::empty();
        let addr = self.regs.hl();
        if op & 0x08 == 0 {
            bus.write8(addr, self.regs.a);
            proof {
                let t1 = choose|t: HostTimes| bus@ == #[trigger] old(bus)@.write_at(addr, self.regs.a, t);
                ts = seq![t1];
            }
        } else {
            self.regs.a = bus.read8(addr);
            proof {
                let now = choose|now: u128| self.regs.a == bus@.read_spec(addr, now);
                ts = seq![fixed_times(now)];
            }
        }
        let next = if op & 0x10 == 0 { addr.wrapping_add(1) } else { addr.wrapping_sub(1) };
        self.regs.set_hl(next);
        let r: Result<u32, CpuError> = Ok(8);
        proof { assert((*self, bus@, r) == ld_hl_step_at(*old(self), old(bus)@, op, times_of(t0, ts))); }
        r
    }

    fn exec_jr(&mut self, bus: &mut Bus, op: u8, Ghost(t0): Ghost<HostTimes>) -> (r: Result<u32, CpuError>)
        requires old(bus)@.wf(), is_jr(op),
        ensures
            r is Ok ==> 4 <= r->Ok_0 <= 24,
            final(bus)@ == old(bus)@,
            old(bus)@.clock_free() ==> (*final(self), final(bus)@, r) == jr_spec(*old(self), old(bus)@, op),
            exists|t: StepTimes| t(0) == t0 && (*final(self), final(bus)@, r) == #[trigger] jr_at(*old(self), old(bus)@, op, t),
    {
        proof { reveal(jr_at); }
        let ghost mut ts: Seq<HostTimes> = Seq::empty();
        let offset = self.fetch8(bus);
        proof {
            let t1 = choose|t: HostTimes| (*self, offset) == #[trigger] fetch8_at(*old(self), bus@, t);
            ts = seq![t1];
        }
        let offset_u16: u16 = if offset < 0x80 { offset as u16 } else { (offset as u16) | 0xFF00 };
        proof { lemma_or_low_byte(0xFF00u16, offset as u16); }
        let cycles: u32 = if op == 0x18 || self.test_cond((op >> 3) & 3) {
            self.pc = self.pc.wrapping_add(offset_u16);
            12
        } else {
            8
        };
        let r: Result<u32, CpuError> = Ok(cycles);
        proof { assert((*self, bus@, r) == jr_at(*old(self), old(bus)@, op, times_of(t0, ts))); }
        r
    }

    fn exec_ld_r8_r8(&mut self, bus: &mut Bus, op: u8, Ghost(t0): Ghost<HostTimes>) -> (r: Result<u32, CpuError>)
        requires old(bus)@.wf(), is_ld_r8_r8(op),
        ensures
            r is Ok ==> 4 <= r->Ok_0 <= 24,
            final(bus)@.wf(),
            final(bus)@.clock_free() == old(bus)@.clock_free(),
            old(bus)@.clock_free() ==> (*final(self), final(bus)@, r) == ld_r8_r8_spec(*old(self), old(bus)@, op),
            exists|t: StepTimes| t(0) == t0 && (*final(self), final(bus)@, r) == #[trigger] ld_r8_r8_at(*old(self), old(bus)@, op, t),
    {
        proof { reveal(ld_r8_r8_at); }
        let ghost mut ts: Seq<HostTimes> = Seq::empty();
        let dst = (op >> 3) & 7;
        let src = op & 7;
        let value = self.read_reg8(src, bus);
        proof {
            let t1 = choose|t: HostTimes| value == #[trigger] read_r8_at(*old(self), bus@, src, t);
            ts = seq![t1];
        }
        self.write_reg8(dst, value, bus);
        proof {
            let t2 = choose|t: HostTimes| (*self, bus@) == #[trigger] write_r8_at(*old(self), old(bus)@, dst, value, t);
            ts = ts.push(t2);
        }
        let r: Result<u32, CpuError> = Ok(if dst == 6 || src == 6 { 8 } else { 4 });
        proof { assert((*self, bus@, r) == ld_r8_r8_at(*old(self), old(bus)@, op, times_of(t0, ts))); }
        r
    }

    fn exec_alu_op(&mut self, bus: &mut Bus, op: u8, Ghost(t0): Ghost<HostTimes>) -> (r: Result<u32, CpuError>)
        requires old(bus)@.wf(), is_alu_op(op),
        ensures
            r is Ok ==> 4 <= r->Ok_0 <= 24,
            final(bus)@ == old(bus)@,
            old(bus)@.clock_free() ==> (*final(self), final(bus)@, r) == alu_op_spec(*old(self), old(bus)@, op),
            exists|t: StepTimes| t(0) == t0 && (*final(self), final(bus)@, r) == #[trigger] alu_op_at(*old(self), old(bus)@, op, t),
    {
        proof { reveal(alu_op_at); }
        let ghost mut ts: Seq<HostTimes> = Seq::empty();
        let kind = (op >> 3) & 7;
        proof { lemma_byte(op); }
        let cycles: u32 = if op < 0xC0 {
            let src = op & 7;
            let value = self.read_reg8(src, bus);
            proof {
                let t1 = choose|t: HostTimes| value == #[trigger] read_r8_at(*old(self), bus@, src, t);
                ts = seq![t1];
            }
            self.alu(kind, value);
            if src == 6 { 8 } else { 4 }
        } else {
            let value = self.fetch8(bus);
            proof {
                let t1 = choose|t: HostTimes| (*self, value) == #[trigger] fetch8_at(*old(self), bus@, t);
                ts = seq![t1];
            }
            self.alu(kind, value);
            8
        };
        let r: Result<u32, CpuError> = Ok(cycles);
        proof { assert((*self, bus@, r) == alu_op_at(*old(self), old(bus)@, op, times_of(t0, ts))); }
        r
    }

    fn exec_stack_op(&mut self, bus: &mut Bus, op: u8, Ghost(t0): Ghost<HostTimes>) -> (r: Result<u32, CpuError>)
        requires old(bus)@.wf(), is_stack_op(op),
        ensures
            r is Ok ==> 4 <= r->Ok_0 <= 24,
            final(bus)@.wf(),
            final(bus)@.clock_free() == old(bus)@.clock_free(),
            old(bus)@.clock_free() ==> (*final(self), final(bus)@, r) == stack_spec(*old(self), old(bus)@, op),
            exists|t: StepTimes| t(0) == t0 && (*final(self), final(bus)@, r) == #[trigger] stack_at(*old(self), old(bus)@, op, t),
    {
        proof { reveal(stack_at); }
        let ghost mut ts: Seq<HostTimes> = Seq::empty();
        let idx = (op >> 4) & 3;
        let cycles: u32 = if op & 0x04 == 0 {
            let value = self.pop16(bus);
            proof {
                let (t1, t2) = choose|t1: HostTimes, t2: HostTimes| (*self, value) == #[trigger] pop16_at(*old(self), bus@, t1, t2);
                ts = seq![t1, t2];
            }
            self.write_reg16_stack(idx, value);
            12
        } else {
            let value = self.read_reg16_stack(idx);
            self.push16(bus, value);
            proof {
                let (t1, t2) = choose|t1: HostTimes, t2: HostTimes| (*self, bus@) == #[trigger] push16_at(*old(self), old(bus)@, value, t1, t2);
                ts = seq![t1, t2];
            }
            16
        };
        let r: Result<u32, CpuError> = Ok(cycles);
        proof { assert((*self, bus@, r) == stack_at(*old(self), old(bus)@, op, times_of(t0, ts))); }
        r
    }

    #[verifier::spinoff_prover]
    #[verifier::rlimit(80)]
    fn exec_jump(&mut self, bus: &mut Bus, op: u8, Ghost(t0): Ghost<HostTimes>) -> (r: Result<u32, CpuError>)
        requires old(bus)@.wf(), is_jump(op),
        ensures
            r is Ok ==> 4 <= r->Ok_0 <= 24,
            final(bus)@.wf(),
            final(bus)@.clock_free() == old(bus)@.clock_free(),
            old(bus)@.clock_free() ==> (*final(self), final(bus)@, r) == jump_spec(*old(self), old(bus)@, op),
            exists|t: StepTimes| t(0) == t0 && (*final(self), final(bus)@, r) == #[trigger] jump_at(*old(self), old(bus)@, op, t),
    {
        proof { reveal(jump_at); }
        let ghost mut ts: Seq<HostTimes> = Seq::empty();
        let cond = self.test_cond((op >> 3) & 3);
        let cycles: u32 = if op == 0xC3 || op == 0xC2 || op == 0xCA || op == 0xD2 || op == 0xDA {
            let addr = self.fetch16(bus);
            proof {
                let (t1, t2) = choose|t1: HostTimes, t2: HostTimes| (*self, addr) == #[trigger] fetch16_at(*old(self), bus@, t1, t2);
                ts = seq![t1, t2];
            }
            if op == 0xC3 || cond {
                self.pc = addr;
                16
            } else {
                12
            }
        } else if op == 0xCD || op == 0xC4 || op == 0xCC || op == 0xD4 || op == 0xDC {
            let addr = self.fetch16(bus);
            proof {
                let (t1, t2) = choose|t1: HostTimes, t2: HostTimes| (*self, addr) == #[trigger] fetch16_at(*old(self), bus@, t1, t2);
                ts = seq![t1, t2];
            }
            if op == 0xCD || cond {
                let ret_addr = self.pc;
                let ghost c1 = *self;
                self.push16(bus, ret_addr);
                proof {
                    let (t3, t4) = choose|t3: HostTimes, t4: HostTimes| (*self, bus@) == #[trigger] push16_at(c1, old(bus)@, ret_addr, t3, t4);
                    ts = ts.push(t3).push(t4);
                }
                self.pc = addr;
                24
            } else {
                12
            }
        } else if op == 0xC9 || op == 0xC0 || op == 0xC8 || op == 0xD0 || op == 0xD8 {
            if op == 0xC9 || cond {
                let addr = self.pop16(bus);
                proof {
                    let (t1, t2) = choose|t1: HostTimes, t2: HostTimes| (*self, addr) == #[trigger] pop16_at(*old(self), bus@, t1, t2);
                    ts = seq![t1, t2];
                }
                self.pc = addr;
                if op == 0xC9 { 16 } else { 20 }
            } else {
                8
            }
        } else {
            let ret_addr = self.pc;
            self.push16(bus, ret_addr);
            proof {
                let (t1, t2) = choose|t1: HostTimes, t2: HostTimes| (*self, bus@) == #[trigger] push16_at(*old(self), old(bus)@, ret_addr, t1, t2);
                ts = seq![t1, t2];
            }
            self.pc = (op & 0x38) as u16;
            16
        };
        let r: Result<u32, CpuError> = Ok(cycles);
        proof { assert((*self, bus@, r) == jump_at(*old(self), old(bus)@, op, times_of(t0, ts))); }
        r
    }

    #[verifier::spinoff_prover]
    #[verifier::rlimit(80)]
    fn exec_ld_high(&mut self, bus: &mut Bus, op: u8, Ghost(t0): Ghost<HostTimes>) -> (r: Result<u32, CpuError>)
        requires old(bus)@.wf(), is_ld_high(op),
        ensures
            r is Ok ==> 4 <= r->Ok_0 <= 24,
            final(bus)@.wf(),
            final(bus)@.clock_free() == old(bus)@.clock_free(),
            old(bus)@.clock_free() ==> (*final(self), final(bus)@, r) == ld_high_spec(*old(self), old(bus)@, op),
            exists|t: StepTimes| t(0) == t0 && (*final(self), final(bus)@, r) == #[trigger] ld_high_at(*old(self), old(bus)@, op, t),
    {
        proof { reveal(ld_high_at); }
        let ghost mut ts: Seq<HostTimes> = Seq::empty();
        let (addr, cycles): (u16, u32) = if op == 0xE0 || op == 0xF0 {
            let offset = self.fetch8(bus);
            proof {
                let t1 = choose|t: HostTimes| (*self, offset) == #[trigger] fetch8_at(*old(self), bus@, t);
                ts = seq![t1, fixed_times(0)];
            }
            (0xFF00u16.wrapping_add(offset as u16), 12)
        } else if op == 0xE2 || op == 0xF2 {
            proof { ts = seq![fixed_times(0), fixed_times(0)]; }
            (0xFF00u16.wrapping_add(self.regs.c as u16), 8)
        } else {
            let a = self.fetch16(bus);
            proof {
                let (t1, t2) = choose|t1: HostTimes, t2: HostTimes| (*self, a) == #[trigger] fetch16_at(*old(self), bus@, t1, t2);
                ts = seq![t1, t2];
            }
            (a, 16)
        };
        if op & 0x10 == 0 {
            bus.write8(addr, self.regs.a);
            proof {
                let t3 = choose|t: HostTimes| bus@ == #[trigger] old(bus)@.write_at(addr, self.regs.a, t);
                ts = ts.push(t3);
            }
        } else {
            self.regs.a = bus.read8(addr);
            proof {
                let now = choose|now: u128| self.regs.a == bus@.read_spec(addr, now);
                ts = ts.push(fixed_times(now));
            }
        }
        let r: Result<u32, CpuError> = Ok(cycles);
        proof { assert((*self, bus@, r) == ld_high_at(*old(self), old(bus)@, op, times_of(t0, ts))); }
        r
    }

    fn exec_sp_offset(&mut self, bus: &mut Bus, op: u8, Ghost(t0): Ghost<HostTimes>) -> (r: Result<u32, CpuError>)
        requires old(bus)@.wf(), is_sp_offset(op),
        ensures
            r is Ok ==> 4 <= r->Ok_0 <= 24,
            final(bus)@ == old(bus)@,
            old(bus)@.clock_free() ==> (*final(self), final(bus)@, r) == sp_offset_spec(*old(self), old(bus)@, op),
            exists|t: StepTimes| t(0) == t0 && (*final(self), final(bus)@, r) == #[trigger] sp_offset_at(*old(self), old(bus)@, op, t),
    {
        proof { reveal(sp_offset_at); }
        let ghost mut ts: Seq<HostTimes> = Seq::empty();
        let offset = self.fetch8(bus);
        proof {
            let t1 = choose|t: HostTimes| (*self, offset) == #[trigger] fetch8_at(*old(self), bus@, t);
            ts = seq![t1];
        }
        let result = self.add_sp_offset(offset);
        let cycles: u32 = if op == 0xE8 {
            self.sp = result;
            16
        } else {
            self.regs.set_hl(result);
            12
        };
        let r: Result<u32, CpuError> = Ok(cycles);
        proof { assert((*self, bus@, r) == sp_offset_at(*old(self), old(bus)@, op, times_of(t0, ts))); }
        r
    }

    /// Executes the already-fetched opcode `op`.
    fn exec_op(&mut self, bus: &mut Bus, op: u8, Ghost(t0): Ghost<HostTimes>) -> (r: Result<u32, CpuError>)
        requires old(bus)@.wf(),
        ensures
            r is Ok ==> 4 <= r->Ok_0 <= 24,
            final(bus)@.wf(),
            final(bus)@.clock_free() == old(bus)@.clock_free(),
            old(bus)@.clock_free() ==> (*final(self), final(bus)@, r) == exec_op_spec(*old(self), old(bus)@, op),
            exists|t: StepTimes| t(0) == t0 && (*final(self), final(bus)@, r) == #[trigger] exec_op_at(*old(self), old(bus)@, op, t),
    {
        if op == 0x00 || op == 0x76 || op == 0x10 {
            let r = self.exec_control(bus, op, Ghost(t0));
            proof {
                let t = choose|t: StepTimes| t(0) == t0 && (*self, bus@, r) == #[trigger] control_at(*old(self), old(bus)@, op, t);
                assert((*self, bus@, r) == exec_op_at(*old(self), old(bus)@, op, t));
            }
            r
        } else if op == 0x01 || op == 0x11 || op == 0x21 || op == 0x31 {
            let r = self.exec_ld_rr_imm(bus, op, Ghost(t0));
            proof {
                let t = choose|t: StepTimes| t(0) == t0 && (*self, bus@, r) == #[trigger] ld_rr_imm_at(*old(self), old(bus)@, op, t);
                assert((*self, bus@, r) == exec_op_at(*old(self), old(bus)@, op, t));
            }
            r
        } else if op <= 0x3F && (op & 7 == 4 || op & 7 == 5) {
            let r = self.exec_inc_dec_r8(bus, op, Ghost(t0));
            proof {
                let t = choose|t: StepTimes| t(0) == t0 && (*self, bus@, r) == #[trigger] inc_dec_r8_at(*old(self), old(bus)@, op, t);
                assert((*self, bus@, r) == exec_op_at(*old(self), old(bus)@, op, t));
            }
            r
        } else if op == 0x02 || op == 0x12 || op == 0x0A || op == 0x1A {
            let r = self.exec_ld_indirect(bus, op, Ghost(t0));
            proof {
                let t = choose|t: StepTimes| t(0) == t0 && (*self, bus@, r) == #[trigger] ld_indirect_at(*old(self), old(bus)@, op, t);
                assert((*self, bus@, r) == exec_op_at(*old(self), old(bus)@, op, t));
            }
            r
        } else if op <= 0x3F && (op & 0x0F == 0x03 || op & 0x0F == 0x0B) {
            let r = self.exec_inc_dec_rr(bus, op, Ghost(t0));
            proof {
                let t = choose|t: StepTimes| t(0) == t0 && (*self, bus@, r) == #[trigger] inc_dec_rr_at(*old(self), old(bus)@, op, t);
                assert((*self, bus@, r) == exec_op_at(*old(self), old(bus)@, op, t));
            }
            r
        } else if op <= 0x3F && op & 7 == 6 {
            let r = self.exec_ld_r8_imm(bus, op, Ghost(t0));
            proof {
                let t = choose|t: StepTimes| t(0) == t0 && (*self, bus@, r) == #[trigger] ld_r8_imm_at(*old(self), old(bus)@, op, t);
                assert((*self, bus@, r) == exec_op_at(*old(self), old(bus)@, op, t));
            }
            r
        } else if op <= 0x3F && op & 0x0F == 0x09 {
            let r = self.exec_add_hl_rr(bus, op, Ghost(t0));
            proof {
                let t = choose|t: StepTimes| t(0) == t0 && (*self, bus@, r) == #[trigger] add_hl_rr_at(*old(self), old(bus)@, op, t);
                assert((*self, bus@, r) == exec_op_at(*old(self), old(bus)@, op, t));
            }
            r
        } else if op == 0x22 || op == 0x2A || op == 0x32 || op == 0x3A {
            let r = self.exec_ld_hl_step(bus, op, Ghost(t0));
            proof {
                let t = choose|t: StepTimes| t(0) == t0 && (*self, bus@, r) == #[trigger] ld_hl_step_at(*old(self), old(bus)@, op, t);
                assert((*self, bus@, r) == exec_op_at(*old(self), old(bus)@, op, t));
            }
            r
        } else if op == 0x18 || op == 0x20 || op == 0x28 || op == 0x30 || op == 0x38 {
            let r = self.exec_jr(bus, op, Ghost(t0));
            proof {
                let t = choose|t: StepTimes| t(0) == t0 && (*self, bus@, r) == #[trigger] jr_at(*old(self), old(bus)@, op, t);
                assert((*self, bus@, r) == exec_op_at(*old(self), old(bus)@, op, t));
            }
            r
        } else if 0x40 <= op && op <= 0x7F && op != 0x76 {
            let r = self.exec_ld_r8_r8(bus, op, Ghost(t0));
            proof {
                let t = choose|t: StepTimes| t(0) == t0 && (*self, bus@, r) == #[trigger] ld_r8_r8_at(*old(self), old(bus)@, op, t);
                assert((*self, bus@, r) == exec_op_at(*old(self), old(bus)@, op, t));
            }
            r
        } else if (0x80 <= op && op <= 0xBF) || (op >= 0xC0 && op & 7 == 6) {
            let r = self.exec_alu_op(bus, op, Ghost(t0));
            proof {
                let t = choose|t: StepTimes| t(0) == t0 && (*self, bus@, r) == #[trigger] alu_op_at(*old(self), old(bus)@, op, t);
                assert((*self, bus@, r) == exec_op_at(*old(self), old(bus)@, op, t));
            }
            r
        } else if op >= 0xC0 && (op & 0x0F == 0x01 || op & 0x0F == 0x05) {
            let r = self.exec_stack_op(bus, op, Ghost(t0));
            proof {
                let t = choose|t: StepTimes| t(0) == t0 && (*self, bus@, r) == #[trigger] stack_at(*old(self), old(bus)@, op, t);
                assert((*self, bus@, r) == exec_op_at(*old(self), old(bus)@, op, t));
            }
            r
        } else if op == 0xC3 || op == 0xC2 || op == 0xCA || op == 0xD2 || op == 0xDA
            || op == 0xCD || op == 0xC4 || op == 0xCC || op == 0xD4 || op == 0xDC
            || op == 0xC9 || op == 0xC0 || op == 0xC8 || op == 0xD0 || op == 0xD8
            || (op >= 0xC0 && op & 7 == 7) {
            let r = self.exec_jump(bus, op, Ghost(t0));
            proof {
                let t = choose|t: StepTimes| t(0) == t0 && (*self, bus@, r) == #[trigger] jump_at(*old(self), old(bus)@, op, t);
                assert((*self, bus@, r) == exec_op_at(*old(self), old(bus)@, op, t));
            }
            r
        } else if op == 0xE0 || op == 0xF0 || op == 0xE2 || op == 0xF2 || op == 0xEA || op == 0xFA {
            let r = self.exec_ld_high(bus, op, Ghost(t0));
            proof {
                let t = choose|t: StepTimes| t(0) == t0 && (*self, bus@, r) == #[trigger] ld_high_at(*old(self), old(bus)@, op, t);
                assert((*self, bus@, r) == exec_op_at(*old(self), old(bus)@, op, t));
            }
            r
        } else if op == 0xE8 || op == 0xF8 {
            let r = self.exec_sp_offset(bus, op, Ghost(t0));
            proof {
                let t = choose|t: StepTimes| t(0) == t0 && (*self, bus@, r) == #[trigger] sp_offset_at(*old(self), old(bus)@, op, t);
                assert((*self, bus@, r) == exec_op_at(*old(self), old(bus)@, op, t));
            }
            r
        } else if op == 0xCB {
            let op2 = self.fetch8(bus);
            let r: Result<u32, CpuError> = Err(CpuError::UnimplementedCbOpcode(op2));
            proof {
                let t1 = choose|t: HostTimes| (*self, op2) == #[trigger] fetch8_at(*old(self), bus@, t);
                assert((*self, bus@, r) == exec_op_at(*old(self), old(bus)@, op, times_of(t0, seq![t1])));
            }
            r
        } else {
            let r: Result<u32, CpuError> = Err(CpuError::UnimplementedOpcode(op));
            proof { assert((*self, bus@, r) == exec_op_at(*old(self), old(bus)@, op, times_of(t0, Seq::empty()))); }
            r
        }
    }

    /// Executes one instruction and returns the cycles it took, or the opcode this core does not
    /// implement: `step_at` for the host times its bus accesses saw (all alike to a cartridge
    /// whose clock does not follow the host, where it is `step_spec`).
    pub fn step(&mut self, bus: &mut Bus) -> (r: Result<u32, CpuError>)
        requires
            old(bus)@.wf(),
        ensures
            r is Ok ==> 4 <= r->Ok_0 <= 24,
            final(bus)@.wf(),
            final(bus)@.clock_free() == old(bus)@.clock_free(),
            old(bus)@.clock_free() ==> (*final(self), final(bus)@, r) == step_spec(*old(self), old(bus)@),
            exists|t: StepTimes| (*final(self), final(bus)@, r) == #[trigger] step_at(*old(self), old(bus)@, t),
    {
        if self.halted || self.stopped {
            proof { assert((*self, bus@, Ok::<u32, CpuError>(4)) == step_at(*old(self), old(bus)@, fixed_step_times(0))); }
            return Ok(4);
        }
        let opcode = self.fetch8(bus);
        let ghost c1 = *self;
        let ghost t0 = choose|t: HostTimes| (c1, opcode) == #[trigger] fetch8_at(*old(self), old(bus)@, t);
        let r = self.exec_op(bus, opcode, Ghost(t0));
        proof {
            let t = choose|t: StepTimes| t(0) == t0 && (*self, bus@, r) == #[trigger] exec_op_at(c1, old(bus)@, opcode, t);
            assert((*self, bus@, r) == step_at(*old(self), old(bus)@, t));
        }
        r
    }
}

} // verus!
