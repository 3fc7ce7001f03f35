//! Instruction decoding and execution. Each instruction family has its own specification;
//! `step_spec` fetches an opcode and selects the family.
use vstd::prelude::*;
use crate::domain::bus::{Bus, BusView, StepTimes, fixed_step_times};
use crate::domain::cpu::{Cpu, CpuError};
use crate::domain::cpu::alu::{sext16, inc8_spec, dec8_spec, alu_spec, add_hl_spec, add_sp_offset_spec};
use crate::domain::cpu::registers::{FLAG_C, FLAG_H, FLAG_N, FLAG_Z, lemma_flags_byte_bits};
use crate::domain::cpu::ops::{reg8_spec, fetch8_at, fetch16_at, read_r8_at, write_r8_at, push16_at, pop16_at, reg16_spec, with_reg16, stack_reg_spec, with_stack_reg};
use crate::util::{wrap16, wrap_sub16};

verus! {

/// What one instruction leaves: the CPU, the bus, and the cycles taken (or the error).
pub type StepResult = (Cpu, BusView, Result<u32, CpuError>);

/// NOP, HALT and STOP (which skips its operand byte).
#[verifier::opaque]
pub open spec fn control_at(c: Cpu, b: BusView, op: u8, t: StepTimes) -> StepResult {
    if op == 0x76 {
        (Cpu { halted: true, ..c }, b, Ok(4))
    } else if op == 0x10 {
        (Cpu { stopped: true, ..fetch8_at(c, b, t(1)).0 }, b, Ok(4))
    } else {
        (c, b, Ok(4))
    }
}

/// LD rr,d16.
#[verifier::opaque]
pub open spec fn ld_rr_imm_at(c: Cpu, b: BusView, op: u8, t: StepTimes) -> StepResult {
    let (c1, v) = fetch16_at(c, b, t(1), t(2));
    (with_reg16(c1, (op >> 4) & 3, v), b, Ok(12))
}

/// INC r / DEC r (opcodes 0bxx_rrr_10d); (HL) takes 12 cycles.
#[verifier::opaque]
pub open spec fn inc_dec_r8_at(c: Cpu, b: BusView, op: u8, t: StepTimes) -> StepResult {
    let idx = (op >> 3) & 7;
    let v = read_r8_at(c, b, idx, t(1));
    let (regs, next) = if op & 1 == 0 { inc8_spec(c.regs, v) } else { dec8_spec(c.regs, v) };
    let (c2, b2) = write_r8_at(Cpu { regs, ..c }, b, idx, next, t(2));
    (c2, b2, Ok(if idx == 6 { 12 } else { 4 }))
}

/// LD (BC),A / LD (DE),A / LD A,(BC) / LD A,(DE).
#[verifier::opaque]
pub open spec fn ld_indirect_at(c: Cpu, b: BusView, op: u8, t: StepTimes) -> StepResult {
    let addr = if op & 0x10 == 0 { c.regs.bc_spec() } else { c.regs.de_spec() };
    if op & 0x08 == 0 {
        (c, b.write_at(addr, c.regs.a, t(1)), Ok(8))
    } else {
        (Cpu { regs: crate::domain::cpu::registers::Registers { a: b.read_spec(addr, t(1)(0)), ..c.regs }, ..c }, b, Ok(8))
    }
}

/// INC rr / DEC rr (wrapping).
#[verifier::opaque]
pub open spec fn inc_dec_rr_at(c: Cpu, b: BusView, op: u8, t: StepTimes) -> StepResult {
    let idx = (op >> 4) & 3;
    let v = reg16_spec(c, idx);
    let next = if op & 0x08 == 0 { wrap16(v, 1) } else { wrap_sub16(v, 1) };
    (with_reg16(c, idx, next), b, Ok(8))
}

/// LD r,d8 and LD (HL),d8 (12 cycles).
#[verifier::opaque]
pub open spec fn ld_r8_imm_at(c: Cpu, b: BusView, op: u8, t: StepTimes) -> StepResult {
    let idx = (op >> 3) & 7;
    let (c1, v) = fetch8_at(c, b, t(1));
    let (c2, b2) = write_r8_at(c1, b, idx, v, t(2));
    (c2, b2, Ok(if idx == 6 { 12 } else { 8 }))
}

/// ADD HL,rr.
#[verifier::opaque]
pub open spec fn add_hl_rr_at(c: Cpu, b: BusView, op: u8, t: StepTimes) -> StepResult {
    (Cpu { regs: add_hl_spec(c.regs, reg16_spec(c, (op >> 4) & 3)), ..c }, b, Ok(8))
}

/// LD (HL+),A / LD A,(HL+) / LD (HL-),A / LD A,(HL-).
#[verifier::opaque]
pub open spec fn ld_hl_step_at(c: Cpu, b: BusView, op: u8, t: StepTimes) -> StepResult {
    let addr = c.regs.hl_spec();
    let next = if op & 0x10 == 0 { wrap16(addr, 1) } else { wrap_sub16(addr, 1) };
    if op & 0x08 == 0 {
        (Cpu { regs: c.regs.with_hl(next), ..c }, b.write_at(addr, c.regs.a, t(1)), Ok(8))
    } else {
        let a = b.read_spec(addr, t(1)(0));
        (Cpu { regs: crate::domain::cpu::registers::Registers { a, ..c.regs }.with_hl(next), ..c }, b, Ok(8))
    }
}

/// JR e8 and JR cc,e8: 12 cycles when taken, 8 when not.
#[verifier::opaque]
pub open spec fn jr_at(c: Cpu, b: BusView, op: u8, t: StepTimes) -> StepResult {
    let (c1, off) = fetch8_at(c, b, t(1));
    let taken = op == 0x18 || c1.cond_spec((op >> 3) & 3);
    if taken {
        (Cpu { pc: wrap16(c1.pc, sext16(off)), ..c1 }, b, Ok(12))
    } else {
        (c1, b, Ok(8))
    }
}

/// LD r,r' (operand 6 is (HL); 8 cycles when it is used).
#[verifier::opaque]
pub open spec fn ld_r8_r8_at(c: Cpu, b: BusView, op: u8, t: StepTimes) -> StepResult {
    let dst = (op >> 3) & 7;
    let src = op & 7;
    let (c2, b2) = write_r8_at(c, b, dst, read_r8_at(c, b, src, t(1)), t(2));
    (c2, b2, Ok(if dst == 6 || src == 6 { 8 } else { 4 }))
}

/// The accumulator operation in bits 3-5 with a register, (HL), or an immediate (0xC6...).
#[verifier::opaque]
pub open spec fn alu_op_at(c: Cpu, b: BusView, op: u8, t: StepTimes) -> StepResult {
    let kind = (op >> 3) & 7;
    if op < 0xC0 {
        let src = op & 7;
        (Cpu { regs: alu_spec(c.regs, kind, read_r8_at(c, b, src, t(1))), ..c }, b, Ok(if src == 6 { 8 } else { 4 }))
    } else {
        let (c1, v) = fetch8_at(c, b, t(1));
        (Cpu { regs: alu_spec(c1.regs, kind, v), ..c1 }, b, Ok(8))
    }
}

/// POP rr (12 cycles) and PUSH rr (16 cycles), with AF as the fourth pair.
#[verifier::opaque]
pub open spec fn stack_at(c: Cpu, b: BusView, op: u8, t: StepTimes) -> StepResult {
    let idx = (op >> 4) & 3;
    if op & 0x04 == 0 {
        let (c1, v) = pop16_at(c, b, t(1), t(2));
        (Cpu { regs: with_stack_reg(c1.regs, idx, v), ..c1 }, b, Ok(12))
    } else {
        let (c1, b1) = push16_at(c, b, stack_reg_spec(c.regs, idx), t(1), t(2));
        (c1, b1, Ok(16))
    }
}

/// JP, CALL, RET (plain and conditional) and RST.
#[verifier::opaque]
pub open spec fn jump_at(c: Cpu, b: BusView, op: u8, t: StepTimes) -> StepResult {
    let cond = c.cond_spec((op >> 3) & 3);
    if op == 0xC3 || op == 0xC2 || op == 0xCA || op == 0xD2 || op == 0xDA {
        let (c1, addr) = fetch16_at(c, b, t(1), t(2));
        if op == 0xC3 || cond { (Cpu { pc: addr, ..c1 }, b, Ok(16)) } else { (c1, b, Ok(12)) }
    } else if op == 0xCD || op == 0xC4 || op == 0xCC || op == 0xD4 || op == 0xDC {
        let (c1, addr) = fetch16_at(c, b, t(1), t(2));
        if op == 0xCD || cond {
            let (c2, b2) = push16_at(c1, b, c1.pc, t(3), t(4));
            (Cpu { pc: addr, ..c2 }, b2, Ok(24))
        } else {
            (c1, b, Ok(12))
        }
    } else if op == 0xC9 || op == 0xC0 || op == 0xC8 || op == 0xD0 || op == 0xD8 {
        if op == 0xC9 || cond {
            let (c1, addr) = pop16_at(c, b, t(1), t(2));
            (Cpu { pc: addr, ..c1 }, b, Ok(if op == 0xC9 { 16 } else { 20 }))
        } else {
            (c, b, Ok(8))
        }
    } else {
        let (c1, b1) = push16_at(c, b, c.pc, t(1), t(2));
        (Cpu { pc: (op & 0x38) as u16, ..c1 }, b1, Ok(16))
    }
}

/// LDH (a8),A / LDH A,(a8) / LD (C),A / LD A,(C) / LD (a16),A / LD A,(a16).
#[verifier::opaque]
pub open spec fn ld_high_at(c: Cpu, b: BusView, op: u8, t: StepTimes) -> StepResult {
    let (c1, addr, cycles) = if op == 0xE0 || op == 0xF0 {
        let (c1, off) = fetch8_at(c, b, t(1));
        (c1, (0xFF00 + off) as u16, 12u32)
    } else if op == 0xE2 || op == 0xF2 {
        (c, (0xFF00 + c.regs.c) as u16, 8u32)
    } else {
        let (c1, a) = fetch16_at(c, b, t(1), t(2));
        (c1, a, 16u32)
    };
    if op & 0x10 == 0 {
        (c1, b.write_at(addr, c1.regs.a, t(3)), Ok(cycles))
    } else {
        (Cpu { regs: crate::domain::cpu::registers::Registers { a: b.read_spec(addr, t(3)(0)), ..c1.regs }, ..c1 }, b, Ok(cycles))
    }
}

/// ADD SP,e8 (16 cycles) and LD HL,SP+e8 (12 cycles).
#[verifier::opaque]
pub open spec fn sp_offset_at(c: Cpu, b: BusView, op: u8, t: StepTimes) -> StepResult {
    let (c1, off) = fetch8_at(c, b, t(1));
    let (regs, r) = add_sp_offset_spec(c1.regs, c1.sp, off);
    if op == 0xE8 {
        (Cpu { regs, sp: r, ..c1 }, b, Ok(16))
    } else {
        (Cpu { regs: regs.with_hl(r), ..c1 }, b, Ok(12))
    }
}

/// The instruction families with every clock reading at host time 0.
pub open spec fn control_spec(c: Cpu, b: BusView, op: u8) -> StepResult {
    control_at(c, b, op, fixed_step_times(0))
}

pub open spec fn ld_rr_imm_spec(c: Cpu, b: BusView, op: u8) -> StepResult {
    ld_rr_imm_at(c, b, op, fixed_step_times(0))
}

pub open spec fn inc_dec_r8_spec(c: Cpu, b: BusView, op: u8) -> StepResult {
    inc_dec_r8_at(c, b, op, fixed_step_times(0))
}

pub open spec fn ld_indirect_spec(c: Cpu, b: BusView, op: u8) -> StepResult {
    ld_indirect_at(c, b, op, fixed_step_times(0))
}

pub open spec fn inc_dec_rr_spec(c: Cpu, b: BusView, op: u8) -> StepResult {
    inc_dec_rr_at(c, b, op, fixed_step_times(0))
}

pub open spec fn ld_r8_imm_spec(c: Cpu, b: BusView, op: u8) -> StepResult {
    ld_r8_imm_at(c, b, op, fixed_step_times(0))
}

pub open spec fn add_hl_rr_spec(c: Cpu, b: BusView, op: u8) -> StepResult {
    add_hl_rr_at(c, b, op, fixed_step_times(0))
}

pub open spec fn ld_hl_step_spec(c: Cpu, b: BusView, op: u8) -> StepResult {
    ld_hl_step_at(c, b, op, fixed_step_times(0))
}

pub open spec fn jr_spec(c: Cpu, b: BusView, op: u8) -> StepResult {
    jr_at(c, b, op, fixed_step_times(0))
}

pub open spec fn ld_r8_r8_spec(c: Cpu, b: BusView, op: u8) -> StepResult {
    ld_r8_r8_at(c, b, op, fixed_step_times(0))
}

pub open spec fn alu_op_spec(c: Cpu, b: BusView, op: u8) -> StepResult {
    alu_op_at(c, b, op, fixed_step_times(0))
}

pub open spec fn stack_spec(c: Cpu, b: BusView, op: u8) -> StepResult {
    stack_at(c, b, op, fixed_step_times(0))
}

pub open spec fn jump_spec(c: Cpu, b: BusView, op: u8) -> StepResult {
    jump_at(c, b, op, fixed_step_times(0))
}

pub open spec fn ld_high_spec(c: Cpu, b: BusView, op: u8) -> StepResult {
    ld_high_at(c, b, op, fixed_step_times(0))
}

pub open spec fn sp_offset_spec(c: Cpu, b: BusView, op: u8) -> StepResult {
    sp_offset_at(c, b, op, fixed_step_times(0))
}

pub open spec fn is_control(op: u8) -> bool { op == 0x00 || op == 0x76 || op == 0x10 }
pub open spec fn is_ld_rr_imm(op: u8) -> bool { op == 0x01 || op == 0x11 || op == 0x21 || op == 0x31 }
pub open spec fn is_inc_dec_r8(op: u8) -> bool { op <= 0x3F && (op & 7 == 4 || op & 7 == 5) }
pub open spec fn is_ld_indirect(op: u8) -> bool { op == 0x02 || op == 0x12 || op == 0x0A || op == 0x1A }
pub open spec fn is_inc_dec_rr(op: u8) -> bool { op <= 0x3F && (op & 0x0F == 0x03 || op & 0x0F == 0x0B) }
pub open spec fn is_ld_r8_imm(op: u8) -> bool { op <= 0x3F && op & 7 == 6 }
pub open spec fn is_add_hl_rr(op: u8) -> bool { op <= 0x3F && op & 0x0F == 0x09 }
pub open spec fn is_ld_hl_step(op: u8) -> bool { op == 0x22 || op == 0x2A || op == 0x32 || op == 0x3A }
pub open spec fn is_jr(op: u8) -> bool { op == 0x18 || op == 0x20 || op == 0x28 || op == 0x30 || op == 0x38 }
pub open spec fn is_ld_r8_r8(op: u8) -> bool { 0x40 <= op <= 0x7F && op != 0x76 }
pub open spec fn is_alu_op(op: u8) -> bool {
    (0x80 <= op <= 0xBF) || (op >= 0xC0 && op & 7 == 6)
}
pub open spec fn is_stack_op(op: u8) -> bool { op >= 0xC0 && (op & 0x0F == 0x01 || op & 0x0F == 0x05) }
pub open spec fn is_jump(op: u8) -> bool {
    ||| op == 0xC3 || op == 0xC2 || op == 0xCA || op == 0xD2 || op == 0xDA
    ||| op == 0xCD || op == 0xC4 || op == 0xCC || op == 0xD4 || op == 0xDC
    ||| op == 0xC9 || op == 0xC0 || op == 0xC8 || op == 0xD0 || op == 0xD8
    ||| (op >= 0xC0 && op & 7 == 7)
}
pub open spec fn is_ld_high(op: u8) -> bool {
    op == 0xE0 || op == 0xF0 || op == 0xE2 || op == 0xF2 || op == 0xEA || op == 0xFA
}
pub open spec fn is_sp_offset(op: u8) -> bool { op == 0xE8 || op == 0xF8 }

/// Executes opcode `op` (already fetched; PC is past it); its bus access `i` (counting the
/// opcode fetch as 0) sees the host times `t(i)`.
pub open spec fn exec_op_at(c: Cpu, b: BusView, op: u8, t: StepTimes) -> StepResult {
    if is_control(op) { control_at(c, b, op, t) }
    else if is_ld_rr_imm(op) { ld_rr_imm_at(c, b, op, t) }
    else if is_inc_dec_r8(op) { inc_dec_r8_at(c, b, op, t) }
    else if is_ld_indirect(op) { ld_indirect_at(c, b, op, t) }
    else if is_inc_dec_rr(op) { inc_dec_rr_at(c, b, op, t) }
    else if is_ld_r8_imm(op) { ld_r8_imm_at(c, b, op, t) }
    else if is_add_hl_rr(op) { add_hl_rr_at(c, b, op, t) }
    else if is_ld_hl_step(op) { ld_hl_step_at(c, b, op, t) }
    else if is_jr(op) { jr_at(c, b, op, t) }
    else if is_ld_r8_r8(op) { ld_r8_r8_at(c, b, op, t) }
    else if is_alu_op(op) { alu_op_at(c, b, op, t) }
    else if is_stack_op(op) { stack_at(c, b, op, t) }
    else if is_jump(op) { jump_at(c, b, op, t) }
    else if is_ld_high(op) { ld_high_at(c, b, op, t) }
    else if is_sp_offset(op) { sp_offset_at(c, b, op, t) }
    else if op == 0xCB {
        let (c1, op2) = fetch8_at(c, b, t(1));
        (c1, b, Err(CpuError::UnimplementedCbOpcode(op2)))
    } else {
        (c, b, Err(CpuError::UnimplementedOpcode(op)))
    }
}

pub open spec fn exec_op_spec(c: Cpu, b: BusView, op: u8) -> StepResult {
    exec_op_at(c, b, op, fixed_step_times(0))
}

/// One instruction: a halted or stopped CPU idles for 4 cycles; otherwise the opcode at PC
/// is fetched and executed. Bus access `i` of the instruction (the opcode fetch is 0) sees
/// the host times `t(i)`, which only a cartridge clock that follows the host looks at.
pub open spec fn step_at(c: Cpu, b: BusView, t: StepTimes) -> StepResult {
    if c.halted || c.stopped {
        (c, b, Ok(4))
    } else {
        let (c1, op) = fetch8_at(c, b, t(0));
        exec_op_at(c1, b, op, t)
    }
}

/// One instruction with every clock reading at host time 0.
pub open spec fn step_spec(c: Cpu, b: BusView) -> StepResult {
    step_at(c, b, fixed_step_times(0))
}

} // verus!

verus! {

/// INC r and DEC r (opcodes up to 0x3F whose low three bits are 4 or 5) on a register: the
/// register in bits 3-5 goes up by one (INC) or down by one (DEC), wrapping; N is clear after
/// INC and set after DEC, Z says whether the result is 0 and C is kept; nothing else changes
/// and the instruction takes 4 cycles. On (HL) the byte read at HL is written back one up or
/// one down, in 12 cycles.
pub proof fn lemma_inc_dec_r8(c: Cpu, b: BusView, op: u8, t: StepTimes)
    requires
        op <= 0x3F,
        op % 8 == 4 || op % 8 == 5,
    ensures
        ({
            let (c2, b2, r) = exec_op_at(c, b, op, t);
            let idx = (op / 8) % 8;
            let up = op % 8 == 4;
            &&& idx != 6 ==> ({
                let before = reg8_spec(c.regs, idx);
                let after = reg8_spec(c2.regs, idx);
                &&& r == Ok::<u32, CpuError>(4)
                &&& b2 == b
                &&& c2.pc == c.pc && c2.sp == c.sp && !c2.halted == !c.halted
                &&& up ==> after as int == (before as int + 1) % 256
                &&& !up ==> after as int == (before as int + 255) % 256
                &&& (c2.regs.f & FLAG_N != 0) == !up
                &&& (c2.regs.f & FLAG_Z != 0) == (after == 0)
                &&& (c2.regs.f & FLAG_H != 0) == (if up { before % 16 == 15 } else { before % 16 == 0 })
                &&& (c2.regs.f & FLAG_C != 0) == (c.regs.f & FLAG_C != 0)
                &&& forall|j: u8| j < 8 && j != 6 && j != idx ==> #[trigger] reg8_spec(c2.regs, j) == reg8_spec(c.regs, j)
            })
            &&& idx == 6 ==> ({
                let hl = c.regs.hl_spec();
                let before = b.read_spec(hl, t(1)(0));
                let after = if up { ((before as int + 1) % 256) as u8 } else { ((before as int + 255) % 256) as u8 };
                &&& r == Ok::<u32, CpuError>(12)
                &&& b2 == b.write_at(hl, after, t(2))
                &&& (c2.regs.f & FLAG_N != 0) == !up
                &&& (c2.regs.f & FLAG_Z != 0) == (after == 0)
            })
        }),
{
    reveal(inc_dec_r8_at);
    assert(op & 7 == op % 8 && (op >> 3) & 7 == (op / 8) % 8) by (bit_vector);
    let idx = (op / 8) % 8;
    let v = read_r8_at(c, b, idx, t(1));
    let (regs1, next) = if op & 1 == 0 { inc8_spec(c.regs, v) } else { dec8_spec(c.regs, v) };
    assert((op & 1 == 0) == (op % 8 == 4)) by (bit_vector)
        requires op % 8 == 4 || op % 8 == 5;
    let up = op % 8 == 4;
    lemma_flags_byte_bits(next == 0, !up, if up { v % 16 == 15 } else { v % 16 == 0 }, c.regs.cf());
    assert(c.regs.cf() == (c.regs.f & FLAG_C != 0));
}

} // verus!

