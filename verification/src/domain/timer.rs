//! DIV/TIMA/TMA/TAC timer with falling-edge detection and a delayed TMA reload.
use vstd::prelude::*;
use crate::bits::{lemma_const_bits, lemma_word_bytes};

verus! {

/// Interrupt flag bit raised by the timer.
pub const IF_TIMER: u8 = 0x04;

/// Stages of a TIMA overflow: the reload from TMA happens one cycle after the wrap.
#[derive(Debug, Clone, Copy, PartialEq, Eq, Structural)]
pub enum TimerOverflowState {
    Normal,
    Overflow,
    Interrupt,
}

#[derive(Debug)]
pub struct Timer {
    pub div: u8,
    /// Internal 16-bit system counter; DIV is its upper byte.
    pub system_counter: u16,
    pub tima: u8,
    pub tma: u8,
    pub tac: u8,
    /// Previous value of the selected counter bit (for falling-edge detection).
    pub timer_bit_prev: bool,
    pub timer_overflow_state: TimerOverflowState,
}

/// Index of the system-counter bit that TAC selects.
pub open spec fn timer_bit_index(tac: u8) -> u16 {
    let sel = tac & 0x03;
    if sel == 0 { 9 } else if sel == 1 { 3 } else if sel == 2 { 5 } else { 7 }
}

/// Whether the TAC-selected bit of the system counter is set.
pub open spec fn selected_bit(system_counter: u16, tac: u8) -> bool {
    system_counter & (1u16 << timer_bit_index(tac)) != 0
}

pub open spec fn timer_enabled(tac: u8) -> bool {
    tac & 0x04 != 0
}

impl Timer {
    /// DIV always mirrors the upper byte of the system counter.
    pub open spec fn wf(&self) -> bool {
        self.div as int == self.system_counter as int / 256
    }

    /// TIMA after one increment request (ignored while an overflow is being handled).
    pub open spec fn increment_tima_spec(self) -> Timer {
        if self.timer_overflow_state != TimerOverflowState::Normal {
            self
        } else if self.tima == 0xFF {
            Timer { tima: 0, timer_overflow_state: TimerOverflowState::Overflow, ..self }
        } else {
            Timer { tima: (self.tima + 1) as u8, ..self }
        }
    }

    /// One machine cycle: first the overflow stage advances, then the counter ticks.
    pub open spec fn single_cycle_spec(self) -> (Timer, u8) {
        let prev = self.timer_overflow_state;
        let staged = match prev {
            TimerOverflowState::Normal => self,
            TimerOverflowState::Overflow => Timer {
                tima: self.tma,
                timer_overflow_state: TimerOverflowState::Interrupt,
                ..self
            },
            TimerOverflowState::Interrupt => Timer {
                timer_overflow_state: TimerOverflowState::Normal,
                ..self
            },
        };
        let irq: u8 = if prev == TimerOverflowState::Overflow { IF_TIMER } else { 0 };
        let sc = if self.system_counter == 0xFFFF { 0u16 } else { (self.system_counter + 1) as u16 };
        let ticked = Timer { system_counter: sc, div: (sc / 256) as u8, ..staged };
        let bit = selected_bit(sc, self.tac);
        let edge = timer_enabled(self.tac) && self.timer_bit_prev && !bit;
        let bumped = if edge && prev == TimerOverflowState::Normal {
            ticked.increment_tima_spec()
        } else {
            ticked
        };
        (Timer { timer_bit_prev: bit, ..bumped }, irq)
    }

    /// The timer after `n` cycles, with the OR of the interrupt flags raised on the way.
    pub open spec fn steps_spec(self, n: nat) -> (Timer, u8)
        decreases n,
    {
        if n == 0 {
            (self, 0u8)
        } else {
            let (t, irq) = self.steps_spec((n - 1) as nat);
            let (t2, irq2) = t.single_cycle_spec();
            (t2, irq | irq2)
        }
    }

    pub open spec fn write_div_spec(self) -> (Timer, u8) {
        let old_bit = selected_bit(self.system_counter, self.tac);
        let reset = Timer { system_counter: 0, div: 0, ..self };
        let new_bit = selected_bit(0, self.tac);
        let bumped = if timer_enabled(self.tac) && old_bit && !new_bit {
            reset.increment_tima_spec()
        } else {
            reset
        };
        (Timer { timer_bit_prev: new_bit, ..bumped }, 0u8)
    }

    pub open spec fn write_tac_spec(self, value: u8) -> (Timer, u8) {
        let old_enabled = timer_enabled(self.tac);
        let old_bit = selected_bit(self.system_counter, self.tac);
        let updated = Timer { tac: value, ..self };
        let new_bit = selected_bit(self.system_counter, value);
        let bumped = if old_bit && !new_bit && old_enabled {
            updated.increment_tima_spec()
        } else {
            updated
        };
        (Timer { timer_bit_prev: new_bit, ..bumped }, 0u8)
    }

    pub open spec fn write_tima_spec(self, value: u8) -> Timer {
        match self.timer_overflow_state {
            TimerOverflowState::Overflow => Timer {
                timer_overflow_state: TimerOverflowState::Normal,
                tima: value,
                ..self
            },
            TimerOverflowState::Normal => Timer { tima: value, ..self },
            TimerOverflowState::Interrupt => self,
        }
    }

    pub open spec fn write_tma_spec(self, value: u8) -> Timer {
        if self.timer_overflow_state == TimerOverflowState::Interrupt {
            Timer { tma: value, tima: value, ..self }
        } else {
            Timer { tma: value, ..self }
        }
    }

    pub open spec fn post_boot_spec() -> Timer {
        Timer {
            div: 0xAB,
            system_counter: 0xAB00,
            tima: 0,
            tma: 0,
            tac: 0,
            timer_bit_prev: false,
            timer_overflow_state: TimerOverflowState::Normal,
        }
    }

    pub open spec fn initial() -> Timer {
        Timer {
            div: 0,
            system_counter: 0,
            tima: 0,
            tma: 0,
            tac: 0,
            timer_bit_prev: false,
            timer_overflow_state: TimerOverflowState::Normal,
        }
    }

    pub fn new() -> (t: Self)
        ensures
            t == Timer::initial(),
            t.wf(),
    {
        Timer {
            div: 0,
            system_counter: 0,
            tima: 0,
            tma: 0,
            tac: 0,
            timer_bit_prev: false,
            timer_overflow_state: TimerOverflowState::Normal,
        }
    }

    pub fn div(&self) -> (r: u8)
        ensures r == self.div,
    {
        self.div
    }

    pub fn tima(&self) -> (r: u8)
        ensures r == self.tima,
    {
        self.tima
    }

    pub fn tma(&self) -> (r: u8)
        ensures r == self.tma,
    {
        self.tma
    }

    pub fn tac(&self) -> (r: u8)
        ensures r == self.tac,
    {
        self.tac
    }

    /// Resets the system counter; a falling edge of the selected bit still counts.
    pub fn write_div(&mut self) -> (irq: u8)
        ensures
            (*final(self), irq) == old(self).write_div_spec(),
    {
        let old_bit = self.get_timer_bit();
        self.system_counter = 0;
        self.div = 0;
        let new_bit = self.get_timer_bit();
        let timer_enabled = (self.tac & 0x04) != 0;
        let interrupt = if timer_enabled && old_bit && !new_bit {
            self.increment_tima()
        } else {
            0
        };
        self.timer_bit_prev = new_bit;
        interrupt
    }

    /// A write during the overflow cycle cancels the reload; during the reload cycle it is ignored.
    pub fn write_tima(&mut self, value: u8)
        ensures
            *final(self) == old(self).write_tima_spec(value),
    {
        if self.timer_overflow_state == TimerOverflowState::Overflow {
            self.timer_overflow_state = TimerOverflowState::Normal;
        }
        if self.timer_overflow_state != TimerOverflowState::Interrupt {
            self.tima = value;
        }
    }

    /// A write during the reload cycle is copied into TIMA as well.
    pub fn write_tma(&mut self, value: u8)
        ensures
            *final(self) == old(self).write_tma_spec(value),
    {
        self.tma = value;
        if self.timer_overflow_state == TimerOverflowState::Interrupt {
            self.tima = value;
        }
    }

    /// Changing TAC can produce a falling edge of the selected bit, which counts as a tick
    /// when the timer was enabled before the write.
    pub fn write_tac(&mut self, value: u8) -> (irq: u8)
        ensures
            (*final(self), irq) == old(self).write_tac_spec(value),
    {
        let old_enabled = (self.tac & 0x04) != 0;
        let new_enabled = (value & 0x04) != 0;
        let old_bit = self.get_timer_bit();
        self.tac = value;
        let new_bit = self.get_timer_bit();
        let falling_edge = old_bit && !new_bit;
        let interrupt = if falling_edge {
            if old_enabled && new_enabled {
                self.increment_tima()
            } else if old_enabled && !new_enabled {
                self.increment_tima()
            } else {
                0
            }
        } else {
            0
        };
        self.timer_bit_prev = new_bit;
        interrupt
    }

    /// Runs `cycles` machine cycles and returns the OR of the interrupt flags raised.
    pub fn step(&mut self, cycles: u32) -> (irq: u8)
        ensures
            (*final(self), irq) == old(self).steps_spec(cycles as nat),
    {
        let mut interrupt: u8 = 0;
        let mut i: u32 = 0;
        while i < cycles
            invariant
                i <= cycles,
                (*self, interrupt) == old(self).steps_spec(i as nat),
            decreases cycles - i,
        {
            let irq = self.step_single_cycle();
            interrupt = interrupt | irq;
            i = i + 1;
        }
        interrupt
    }

    pub fn apply_post_boot_state(&mut self)
        ensures
            *final(self) == Timer::post_boot_spec(),
            final(self).wf(),
    {
        self.div = 0xAB;
        self.system_counter = (self.div as u16) << 8;
        proof { lemma_const_bits(); }
        self.tima = 0x00;
        self.tma = 0x00;
        self.tac = 0x00;
        self.timer_bit_prev = false;
        self.timer_overflow_state = TimerOverflowState::Normal;
    }

    fn get_timer_bit(&self) -> (b: bool)
        ensures b == selected_bit(self.system_counter, self.tac),
    {
        let bit_index: u16 = match self.tac & 0x03 {
            0x00 => 9,
            0x01 => 3,
            0x02 => 5,
            _ => 7,
        };
        (self.system_counter & (1u16 << bit_index)) != 0
    }

    fn increment_tima(&mut self) -> (irq: u8)
        ensures
            *final(self) == old(self).increment_tima_spec(),
            irq == 0,
    {
        if self.timer_overflow_state != TimerOverflowState::Normal {
            return 0;
        }
        if self.tima == 0xFF {
            self.tima = 0x00;
            self.timer_overflow_state = TimerOverflowState::Overflow;
        } else {
            self.tima = self.tima + 1;
        }
        0
    }

    fn step_single_cycle(&mut self) -> (irq: u8)
        ensures
            (*final(self), irq) == old(self).single_cycle_spec(),
    {
        let prev_overflow_state = self.timer_overflow_state;
        let mut interrupt: u8 = 0;
        match prev_overflow_state {
            TimerOverflowState::Normal => {},
            TimerOverflowState::Overflow => {
                self.tima = self.tma;
                interrupt = IF_TIMER;
                self.timer_overflow_state = TimerOverflowState::Interrupt;
            },
            TimerOverflowState::Interrupt => {
                self.timer_overflow_state = TimerOverflowState::Normal;
            },
        }
        self.system_counter = self.system_counter.wrapping_add(1);
        let sc = self.system_counter;
        proof { lemma_word_bytes(sc); }
        self.div = (self.system_counter >> 8) as u8;
        let timer_bit = self.get_timer_bit();
        let timer_enabled = (self.tac & 0x04) != 0;
        if timer_enabled && self.timer_bit_prev && !timer_bit {
            if prev_overflow_state == TimerOverflowState::Normal {
                self.increment_tima();
            }
        }
        self.timer_bit_prev = timer_bit;
        interrupt
    }
}


/// Law: running the timer for `n` cycles advances the system counter by `n` (mod 2^16),
/// DIV keeps mirroring its upper byte, and the only interrupt ever raised is the timer's.
pub proof fn lemma_timer_steps_advance_counter(t: Timer, n: nat)
    requires
        t.wf(),
    ensures
        t.steps_spec(n).0.system_counter as int == (t.system_counter as int + n) % 65536,
        t.steps_spec(n).0.wf(),
        t.steps_spec(n).1 == 0 || t.steps_spec(n).1 == IF_TIMER,
    decreases n,
{
    if n > 0 {
        lemma_timer_steps_advance_counter(t, (n - 1) as nat);
        let (p, irq) = t.steps_spec((n - 1) as nat);
        let irq2 = p.single_cycle_spec().1;
        assert(irq2 == 0 || irq2 == IF_TIMER);
        lemma_const_bits();
    }
}

} // verus!

verus! {

/// Writing DIV clears the divider and the whole system counter; afterwards DIV counts up
/// from zero again, one step per 256 cycles.
pub proof fn lemma_write_div_restarts_divider(t: Timer, n: nat)
    ensures
        t.write_div_spec().0.div == 0,
        t.write_div_spec().0.system_counter == 0,
        t.write_div_spec().0.wf(),
        n < 65536 ==> t.write_div_spec().0.steps_spec(n).0.div as int == n / 256,
{
    let t0 = t.write_div_spec().0;
    lemma_timer_steps_advance_counter(t0, n);
}

} // verus!
