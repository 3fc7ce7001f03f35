//! Audio processing unit: a pulse channel with sweep, a wave channel and a noise channel,
//! mixed into one clamped sample per video frame.
use vstd::prelude::*;
use crate::bits::{lemma_word_bytes, lemma_sound_register_fields, lemma_wrap_position, lemma_sample_bits, lemma_byte, lemma_word, lemma_join_word, lemma_or_low_byte, lemma_shr_le};
use crate::util::{lemma_ticks_are_division, iterate, ticks_due, ticks_left, wrap32, lemma_ticks_left_below};

verus! {

pub const FRAME_CYCLES: u32 = 70_224;

pub const REG_NR10: u16 = 0xFF10;
pub const REG_NR11: u16 = 0xFF11;
pub const REG_NR12: u16 = 0xFF12;
pub const REG_NR13: u16 = 0xFF13;
pub const REG_NR14: u16 = 0xFF14;
pub const REG_NR30: u16 = 0xFF1A;
pub const REG_NR31: u16 = 0xFF1B;
pub const REG_NR32: u16 = 0xFF1C;
pub const REG_NR33: u16 = 0xFF1D;
pub const REG_NR34: u16 = 0xFF1E;
pub const WAVE_RAM_START: u16 = 0xFF30;
pub const WAVE_RAM_SIZE: usize = 16;
pub const REG_NR41: u16 = 0xFF20;
pub const REG_NR42: u16 = 0xFF21;
pub const REG_NR43: u16 = 0xFF22;
pub const REG_NR44: u16 = 0xFF23;

pub const FREQ_DIVISOR: u32 = 131072;
pub const NOISE_CLOCK_BASE: u32 = 524288;
pub const ENVELOPE_TICK_CYCLES: u32 = 256;
pub const SWEEP_TICK_CYCLES: u32 = 128;
pub const LENGTH_TICK_CYCLES: u32 = 256;

/// Duty waveforms, one byte per duty setting; position `p` plays bit `7 - p`.
pub open spec fn duty_pattern(duty: u8) -> u8 {
    if duty == 0 { 0x01 } else if duty == 1 { 0x81 } else if duty == 2 { 0x87 } else { 0x78 }
}

pub open spec fn duty_high(duty: u8, position: u8) -> bool {
    (duty_pattern(duty) >> ((7 - position) as u8)) & 1 == 1
}

/// How many of the 8 waveform positions a duty setting plays high.
pub open spec fn duty_high_count(duty: u8) -> int {
    (if duty_high(duty, 0) { 1int } else { 0 }) + (if duty_high(duty, 1) { 1int } else { 0 })
        + (if duty_high(duty, 2) { 1int } else { 0 }) + (if duty_high(duty, 3) { 1int } else { 0 })
        + (if duty_high(duty, 4) { 1int } else { 0 }) + (if duty_high(duty, 5) { 1int } else { 0 })
        + (if duty_high(duty, 6) { 1int } else { 0 }) + (if duty_high(duty, 7) { 1int } else { 0 })
}

/// The pulse waveforms: settings 0, 1 and 2 are high on 1, 2 and 4 of the 8 positions (12.5%,
/// 25% and 50%), each high wherever the narrower one is, and setting 3 is the 50% wave
/// inverted. Every wave ends a period high except setting 3's.
pub proof fn lemma_duty_waveforms(position: u8)
    requires
        position < 8,
    ensures
        duty_high_count(0) == 1,
        duty_high_count(1) == 2,
        duty_high_count(2) == 4,
        duty_high_count(3) == 4,
        duty_high(0, position) ==> duty_high(1, position),
        duty_high(1, position) ==> duty_high(2, position),
        duty_high(3, position) == !duty_high(2, position),
        duty_high(0, 7) && duty_high(1, 0) && duty_high(2, 0) && duty_high(2, 5),
{
    assert(!duty_high(0, 0) && !duty_high(0, 1) && !duty_high(0, 2) && !duty_high(0, 3) && !duty_high(0, 4) && !duty_high(0, 5) && !duty_high(0, 6) && duty_high(0, 7)) by (bit_vector);
    assert(duty_high(1, 0) && !duty_high(1, 1) && !duty_high(1, 2) && !duty_high(1, 3) && !duty_high(1, 4) && !duty_high(1, 5) && !duty_high(1, 6) && duty_high(1, 7)) by (bit_vector);
    assert(duty_high(2, 0) && !duty_high(2, 1) && !duty_high(2, 2) && !duty_high(2, 3) && !duty_high(2, 4) && duty_high(2, 5) && duty_high(2, 6) && duty_high(2, 7)) by (bit_vector);
    assert(!duty_high(3, 0) && duty_high(3, 1) && duty_high(3, 2) && duty_high(3, 3) && duty_high(3, 4) && !duty_high(3, 5) && !duty_high(3, 6) && !duty_high(3, 7)) by (bit_vector);
    assert(forall|p: u8| p < 8 ==> (duty_high(0, p) ==> duty_high(1, p))
        && (duty_high(1, p) ==> duty_high(2, p)) && (duty_high(3, p) == !duty_high(2, p))) by (bit_vector);
}

fn duty_level(duty: u8, position: u8) -> (r: bool)
    requires
        position < 8,
    ensures
        r == duty_high(duty, position),
{
    let pattern: u8 = if duty == 0 { 0x01 } else if duty == 1 { 0x81 } else if duty == 2 { 0x87 } else { 0x78 };
    (pattern >> (7 - position)) & 1 == 1
}

/// Cycles per waveform step of the pulse channel at 11-bit `frequency`.
pub open spec fn pulse_threshold(frequency: u16) -> u32 {
    (((4_194_304int / (FREQ_DIVISOR as int / (2048 - frequency as int))) / 8) as u32)
}

/// Cycles per sample step of the wave channel at 11-bit `frequency`.
pub open spec fn wave_threshold(frequency: u16) -> u32 {
    (((4_194_304int / (FREQ_DIVISOR as int / (2048 - frequency as int))) / 2) as u32)
}

proof fn lemma_thresholds(frequency: u16)
    requires
        frequency <= 2047,
    ensures
        1 <= FREQ_DIVISOR as int / (2048 - frequency as int) <= 131072,
        pulse_threshold(frequency) >= 4,
        wave_threshold(frequency) >= 16,
{
    let d: int = 2048 - frequency as int;
    assert(1 <= d <= 2048);
    assert(131072int / d >= 64) by (nonlinear_arith) requires 1 <= d <= 2048;
    assert(131072int / d <= 131072) by (nonlinear_arith) requires 1 <= d;
    let r: int = 131072int / d;
    assert(4_194_304int / r >= 32) by (nonlinear_arith) requires 1 <= r <= 131072;
    assert(4_194_304int / r <= 4_194_304) by (nonlinear_arith) requires 1 <= r;
}

fn step_rate_thresholds(frequency: u16) -> (r: (u32, u32))
    requires
        frequency <= 2047,
    ensures
        r.0 == pulse_threshold(frequency),
        r.1 == wave_threshold(frequency),
        r.0 >= 4,
        r.1 >= 16,
{
    proof { lemma_thresholds(frequency); }
    let freq = frequency as u32;
    let divisor = 2048 - freq;
    let step_rate = FREQ_DIVISOR / divisor;
    let base = 4_194_304 / step_rate;
    (base / 8, base / 2)
}

#[derive(Debug)]
pub struct PulseChannel {
    pub enabled: bool,
    pub length: u8,
    pub length_counter: u8,
    pub duty_cycle: u8,
    pub volume: u8,
    pub envelope_add: bool,
    pub envelope_period: u8,
    pub length_enable: bool,
    pub frequency: u16,
    pub sweep_enable: bool,
    pub sweep_period: u8,
    pub sweep_add: bool,
    pub sweep_shift: u8,
    pub sweep_counter: u8,
    pub timer: u32,
    pub envelope_timer: u32,
    pub sweep_timer: u32,
    pub length_timer: u32,
    pub position: u8,
    pub envelope_counter: u8,
    pub current_volume: u8,
    pub output_volume: i32,
}

/// Volume after one envelope period elapses (saturating at 0 and 15).
pub open spec fn envelope_volume(add: bool, volume: u8) -> u8 {
    if add {
        if volume < 15 { (volume + 1) as u8 } else { volume }
    } else {
        if volume > 0 { (volume - 1) as u8 } else { volume }
    }
}

impl PulseChannel {
    /// Register fields stay within their bit widths and the frequency is an 11-bit value.
    pub open spec fn wf(&self) -> bool {
        &&& self.frequency <= 2047
        &&& self.duty_cycle <= 3
        &&& self.position < 8
        &&& self.current_volume <= 15
        &&& self.volume <= 15
        &&& self.sweep_shift <= 7
    }

    pub open spec fn update_frequency_spec(self) -> PulseChannel {
        if self.sweep_shift > 0 {
            let delta = self.frequency >> self.sweep_shift;
            let new_freq: int = if self.sweep_add {
                self.frequency + delta
            } else if self.frequency >= delta {
                self.frequency - delta
            } else {
                0
            };
            if new_freq > 2047 {
                PulseChannel { enabled: false, ..self }
            } else {
                PulseChannel { frequency: new_freq as u16, ..self }
            }
        } else {
            self
        }
    }

    pub open spec fn tick_sweep_spec(self) -> PulseChannel {
        if !self.sweep_enable || self.sweep_period == 0 || self.sweep_counter == 0 {
            self
        } else if self.sweep_counter == 1 {
            PulseChannel { sweep_counter: self.sweep_period, ..self }.update_frequency_spec()
        } else {
            PulseChannel { sweep_counter: (self.sweep_counter - 1) as u8, ..self }
        }
    }

    pub open spec fn step_envelope_spec(self) -> PulseChannel {
        if self.envelope_period == 0 {
            self
        } else if self.envelope_counter > 0 {
            PulseChannel { envelope_counter: (self.envelope_counter - 1) as u8, ..self }
        } else {
            PulseChannel {
                envelope_counter: self.envelope_period,
                current_volume: envelope_volume(self.envelope_add, self.current_volume),
                ..self
            }
        }
    }

    pub open spec fn tick_length_spec(self) -> PulseChannel {
        if !self.length_enable || self.length_counter == 0 {
            self
        } else if self.length_counter == 1 {
            PulseChannel { length_counter: 0, enabled: false, ..self }
        } else {
            PulseChannel { length_counter: (self.length_counter - 1) as u8, ..self }
        }
    }

    pub open spec fn trigger_spec(self) -> PulseChannel {
        let t = PulseChannel {
            enabled: true,
            sweep_enable: true,
            timer: 0,
            envelope_timer: 0,
            sweep_timer: 0,
            length_timer: 0,
            position: 0,
            current_volume: self.volume,
            envelope_counter: self.envelope_period,
            length_counter: if self.length == 0 { 64 } else { self.length },
            sweep_counter: if self.sweep_period == 0 { 8 } else { self.sweep_period },
            ..self
        };
        if self.sweep_shift > 0 { t.update_frequency_spec() } else { t }
    }

    pub open spec fn sweep_phase_spec(self, cycles: u32) -> PulseChannel {
        let st = wrap32(self.sweep_timer, cycles);
        PulseChannel {
            sweep_timer: ticks_left(st, SWEEP_TICK_CYCLES),
            ..iterate(|c: PulseChannel| c.tick_sweep_spec(), PulseChannel { sweep_timer: st, ..self }, ticks_due(st, SWEEP_TICK_CYCLES))
        }
    }

    pub open spec fn envelope_phase_spec(self, cycles: u32) -> PulseChannel {
        let et = wrap32(self.envelope_timer, cycles);
        PulseChannel {
            envelope_timer: ticks_left(et, ENVELOPE_TICK_CYCLES),
            ..iterate(|c: PulseChannel| c.step_envelope_spec(), PulseChannel { envelope_timer: et, ..self }, ticks_due(et, ENVELOPE_TICK_CYCLES))
        }
    }

    pub open spec fn length_phase_spec(self, cycles: u32) -> PulseChannel {
        let lt = wrap32(self.length_timer, cycles);
        PulseChannel {
            length_timer: ticks_left(lt, LENGTH_TICK_CYCLES),
            ..iterate(|c: PulseChannel| c.tick_length_spec(), PulseChannel { length_timer: lt, ..self }, ticks_due(lt, LENGTH_TICK_CYCLES))
        }
    }

    pub open spec fn wave_phase_spec(self, cycles: u32) -> (PulseChannel, i32) {
        let th = pulse_threshold(self.frequency);
        let tt = wrap32(self.timer, cycles);
        let pos = ((self.position as int + ticks_due(tt, th)) % 8) as u8;
        let out: i32 = if duty_high(self.duty_cycle, pos) { self.current_volume as i32 } else { 0 };
        (PulseChannel { timer: ticks_left(tt, th), position: pos, output_volume: out, ..self }, out)
    }

    /// The channel after `cycles`: sweep, envelope and length units tick at their periods,
    /// then the duty position advances; the output is the volume while the duty bit is high.
    pub open spec fn step_spec(self, cycles: u32) -> (PulseChannel, i32) {
        if !self.enabled {
            (PulseChannel { output_volume: 0, ..self }, 0i32)
        } else {
            self.sweep_phase_spec(cycles).envelope_phase_spec(cycles).length_phase_spec(cycles)
                .wave_phase_spec(cycles)
        }
    }

    pub open spec fn initial() -> PulseChannel {
        PulseChannel {
            enabled: false,
            length: 0,
            length_counter: 0,
            duty_cycle: 0,
            volume: 0,
            envelope_add: false,
            envelope_period: 0,
            length_enable: false,
            frequency: 0,
            sweep_enable: false,
            sweep_period: 0,
            sweep_add: false,
            sweep_shift: 0,
            sweep_counter: 0,
            timer: 0,
            envelope_timer: 0,
            sweep_timer: 0,
            length_timer: 0,
            position: 0,
            envelope_counter: 0,
            current_volume: 0,
            output_volume: 0,
        }
    }

    pub fn new() -> (c: Self)
        ensures
            c == PulseChannel::initial(),
            c.wf(),
    {
        PulseChannel {
            enabled: false,
            length: 0,
            length_counter: 0,
            duty_cycle: 0,
            volume: 0,
            envelope_add: false,
            envelope_period: 0,
            length_enable: false,
            frequency: 0,
            sweep_enable: false,
            sweep_period: 0,
            sweep_add: false,
            sweep_shift: 0,
            sweep_counter: 0,
            timer: 0,
            envelope_timer: 0,
            sweep_timer: 0,
            length_timer: 0,
            position: 0,
            envelope_counter: 0,
            current_volume: 0,
            output_volume: 0,
        }
    }

    fn tick_sweep(&mut self)
        requires
            old(self).wf(),
        ensures
            *final(self) == old(self).tick_sweep_spec(),
            final(self).wf(),
    {
        if !self.sweep_enable || self.sweep_period == 0 {
            return;
        }
        if self.sweep_counter > 0 {
            self.sweep_counter = self.sweep_counter - 1;
            if self.sweep_counter == 0 {
                self.sweep_counter = self.sweep_period;
                self.update_frequency();
            }
        }
    }

    fn update_frequency(&mut self)
        requires
            old(self).wf(),
        ensures
            *final(self) == old(self).update_frequency_spec(),
            final(self).wf(),
    {
        if self.sweep_shift > 0 {
            let f = self.frequency;
            let sh = self.sweep_shift;
            proof { lemma_shr_le(f, sh as u16); }
            let delta = self.frequency >> self.sweep_shift;
            let new_freq = if self.sweep_add {
                self.frequency + delta
            } else {
                self.frequency.saturating_sub(delta)
            };
            if new_freq > 2047 {
                self.enabled = false;
            } else {
                self.frequency = new_freq;
            }
        }
    }

    fn step_envelope(&mut self)
        requires
            old(self).wf(),
        ensures
            *final(self) == old(self).step_envelope_spec(),
            final(self).wf(),
    {
        if self.envelope_period == 0 {
            return;
        }
        if self.envelope_counter > 0 {
            self.envelope_counter = self.envelope_counter - 1;
            return;
        }
        self.envelope_counter = self.envelope_period;
        if self.envelope_add {
            if self.current_volume < 15 {
                self.current_volume = self.current_volume + 1;
            }
        } else {
            if self.current_volume > 0 {
                self.current_volume = self.current_volume - 1;
            }
        }
    }

    fn tick_length(&mut self)
        ensures
            *final(self) == old(self).tick_length_spec(),
    {
        if !self.length_enable {
            return;
        }
        if self.length_counter > 0 {
            self.length_counter = self.length_counter - 1;
            if self.length_counter == 0 {
                self.enabled = false;
            }
        }
    }

    fn run_sweep(&mut self, cycles: u32)
        requires
            old(self).wf(),
        ensures
            *final(self) == old(self).sweep_phase_spec(cycles),
            final(self).wf(),
    {
        self.sweep_timer = self.sweep_timer.wrapping_add(cycles);
        let ghost s0 = *self;
        let ghost st = self.sweep_timer;
        let ghost mut k: nat = 0;
        while self.sweep_timer >= SWEEP_TICK_CYCLES
            invariant
                self.wf(),
                *self == (PulseChannel { sweep_timer: self.sweep_timer, ..iterate(|c: PulseChannel| c.tick_sweep_spec(), s0, k) }),
                ticks_due(st, SWEEP_TICK_CYCLES) == k + ticks_due(self.sweep_timer, SWEEP_TICK_CYCLES),
                ticks_left(st, SWEEP_TICK_CYCLES) == ticks_left(self.sweep_timer, SWEEP_TICK_CYCLES),
            decreases self.sweep_timer,
        {
            self.sweep_timer = self.sweep_timer - SWEEP_TICK_CYCLES;
            self.tick_sweep();
            proof { k = k + 1; }
        }
    }

    fn run_envelope(&mut self, cycles: u32)
        requires
            old(self).wf(),
        ensures
            *final(self) == old(self).envelope_phase_spec(cycles),
            final(self).wf(),
    {
        self.envelope_timer = self.envelope_timer.wrapping_add(cycles);
        let ghost e0 = *self;
        let ghost et = self.envelope_timer;
        let ghost mut k: nat = 0;
        while self.envelope_timer >= ENVELOPE_TICK_CYCLES
            invariant
                self.wf(),
                *self == (PulseChannel { envelope_timer: self.envelope_timer, ..iterate(|c: PulseChannel| c.step_envelope_spec(), e0, k) }),
                ticks_due(et, ENVELOPE_TICK_CYCLES) == k + ticks_due(self.envelope_timer, ENVELOPE_TICK_CYCLES),
                ticks_left(et, ENVELOPE_TICK_CYCLES) == ticks_left(self.envelope_timer, ENVELOPE_TICK_CYCLES),
            decreases self.envelope_timer,
        {
            self.envelope_timer = self.envelope_timer - ENVELOPE_TICK_CYCLES;
            self.step_envelope();
            proof { k = k + 1; }
        }
    }

    fn run_length(&mut self, cycles: u32)
        requires
            old(self).wf(),
        ensures
            *final(self) == old(self).length_phase_spec(cycles),
            final(self).wf(),
    {
        self.length_timer = self.length_timer.wrapping_add(cycles);
        let ghost l0 = *self;
        let ghost lt = self.length_timer;
        let ghost mut k: nat = 0;
        while self.length_timer >= LENGTH_TICK_CYCLES
            invariant
                self.wf(),
                *self == (PulseChannel { length_timer: self.length_timer, ..iterate(|c: PulseChannel| c.tick_length_spec(), l0, k) }),
                ticks_due(lt, LENGTH_TICK_CYCLES) == k + ticks_due(self.length_timer, LENGTH_TICK_CYCLES),
                ticks_left(lt, LENGTH_TICK_CYCLES) == ticks_left(self.length_timer, LENGTH_TICK_CYCLES),
            decreases self.length_timer,
        {
            self.length_timer = self.length_timer - LENGTH_TICK_CYCLES;
            self.tick_length();
            proof { k = k + 1; }
        }
    }

    fn run_wave(&mut self, cycles: u32) -> (out: i32)
        requires
            old(self).wf(),
        ensures
            (*final(self), out) == old(self).wave_phase_spec(cycles),
            final(self).wf(),
            0 <= out <= 15,
    {
        let (timer_threshold, _) = step_rate_thresholds(self.frequency);
        self.timer = self.timer.wrapping_add(cycles);
        let ghost tt = self.timer;
        let ghost p0 = self.position;
        let ghost s0 = *self;
        let ghost mut k: nat = 0;
        while self.timer >= timer_threshold
            invariant
                timer_threshold >= 4,
                timer_threshold == pulse_threshold(s0.frequency),
                self.position < 8,
                self.position as int == (p0 as int + k) % 8,
                *self == (PulseChannel { timer: self.timer, position: self.position, ..s0 }),
                ticks_due(tt, timer_threshold) == k + ticks_due(self.timer, timer_threshold),
                ticks_left(tt, timer_threshold) == ticks_left(self.timer, timer_threshold),
            decreases self.timer,
        {
            self.timer = self.timer - timer_threshold;
            let p = self.position;
            let q: u8 = p + 1;
            proof { lemma_wrap_position(q); }
            self.position = (self.position + 1) & 0x07;
            proof { k = k + 1; }
        }
        let high = duty_level(self.duty_cycle, self.position);
        let sample: i32 = if high { self.current_volume as i32 } else { 0 };
        self.output_volume = sample;
        self.output_volume
    }

    /// Advances the channel by `cycles` and returns the new output level (0 when disabled).
    pub fn step(&mut self, cycles: u32) -> (out: i32)
        requires
            old(self).wf(),
        ensures
            (*final(self), out) == old(self).step_spec(cycles),
            final(self).wf(),
            0 <= out <= 15,
    {
        if !self.enabled {
            self.output_volume = 0;
            return 0;
        }
        self.run_sweep(cycles);
        self.run_envelope(cycles);
        self.run_length(cycles);
        self.run_wave(cycles)
    }

    pub fn reset(&mut self)
        ensures
            *final(self) == PulseChannel::initial(),
            final(self).wf(),
    {
        *self = PulseChannel::new();
    }

    pub open spec fn read_io_spec(&self, addr: u16) -> u8 {
        if addr == REG_NR10 {
            ((self.sweep_period << 4u8) | (if self.sweep_add { 0x08u8 } else { 0 })
                | (if self.sweep_enable { 0x80u8 } else { 0 })) | (self.sweep_shift & 0x07)
        } else if addr == REG_NR11 {
            (self.duty_cycle << 6u8) | (self.length & 0x3F)
        } else if addr == REG_NR12 {
            (self.volume << 4u8) | (if self.envelope_add { 0x08u8 } else { 0 }) | (self.envelope_period & 0x07)
        } else if addr == REG_NR13 {
            self.frequency as u8
        } else if addr == REG_NR14 {
            (if self.length_enable { 0x40u8 } else { 0 }) | (((self.frequency >> 8u16) as u8) & 0x07)
        } else {
            0u8
        }
    }

    pub fn read_io(&self, addr: u16) -> (r: u8)
        ensures
            r == self.read_io_spec(addr),
    {
        match addr {
            REG_NR10 => {
                let a: u8 = if self.sweep_add { 0x08 } else { 0 };
                let e: u8 = if self.sweep_enable { 0x80 } else { 0 };
                ((self.sweep_period << 4) | a | e) | (self.sweep_shift & 0x07)
            },
            REG_NR11 => (self.duty_cycle << 6) | (self.length & 0x3F),
            REG_NR12 => {
                (self.volume << 4) | (if self.envelope_add { 0x08 } else { 0 }) | (self.envelope_period & 0x07)
            },
            REG_NR13 => self.frequency as u8,
            REG_NR14 => {
                let mut value: u8 = 0;
                if self.length_enable {
                    value = value | 0x40;
                }
                proof { lemma_byte(0x40u8); }
                value | (((self.frequency >> 8) as u8) & 0x07)
            },
            _ => 0,
        }
    }

    pub open spec fn write_io_spec(self, addr: u16, value: u8) -> PulseChannel {
        if addr == REG_NR10 {
            PulseChannel {
                sweep_enable: value & 0x80 != 0,
                sweep_period: (value >> 4u8) & 0x07,
                sweep_add: value & 0x08 != 0,
                sweep_shift: value & 0x07,
                ..self
            }
        } else if addr == REG_NR11 {
            PulseChannel { duty_cycle: (value >> 6u8) & 0x03, length: value & 0x3F, ..self }
        } else if addr == REG_NR12 {
            PulseChannel {
                volume: (value >> 4u8) & 0x0F,
                envelope_add: value & 0x08 != 0,
                envelope_period: value & 0x07,
                current_volume: (value >> 4u8) & 0x0F,
                ..self
            }
        } else if addr == REG_NR13 {
            PulseChannel { frequency: ((self.frequency / 256) * 256 + value) as u16, ..self }
        } else if addr == REG_NR14 {
            let written = PulseChannel {
                length_enable: value & 0x40 != 0,
                frequency: ((value & 0x07u8) as int * 256 + self.frequency % 256) as u16,
                ..self
            };
            if value & 0x80 != 0 { written.trigger_spec() } else { written }
        } else {
            self
        }
    }

    /// Writes NR10-NR14; bit 7 of NR14 retriggers the channel.
    pub fn write_io(&mut self, addr: u16, value: u8)
        requires
            old(self).wf(),
        ensures
            *final(self) == old(self).write_io_spec(addr, value),
            final(self).wf(),
    {
        match addr {
            REG_NR10 => {
                self.sweep_enable = value & 0x80 != 0;
                self.sweep_period = (value >> 4) & 0x07;
                self.sweep_add = value & 0x08 != 0;
                proof { lemma_byte(value); }
                self.sweep_shift = value & 0x07;
            },
            REG_NR11 => {
                proof { lemma_byte(value); }
                self.duty_cycle = (value >> 6) & 0x03;
                self.length = value & 0x3F;
            },
            REG_NR12 => {
                proof { lemma_byte(value); }
                self.volume = (value >> 4) & 0x0F;
                self.envelope_add = value & 0x08 != 0;
                self.envelope_period = value & 0x07;
                self.current_volume = self.volume;
            },
            REG_NR13 => {
                let f = self.frequency;
                proof {
                    lemma_word(f);
                    lemma_or_low_byte(f & 0xFF00u16, value as u16);
                }
                self.frequency = (self.frequency & 0xFF00) | (value as u16);
            },
            REG_NR14 => {
                self.length_enable = value & 0x40 != 0;
                let new_freq_high = (value as u16) & 0x07;
                let f = self.frequency;
                proof {
                    lemma_word(f);
                    lemma_byte(value);
                    lemma_word(value as u16);
                    lemma_join_word((value as u16) & 0x07u16, f & 0x00FFu16);
                }
                self.frequency = (self.frequency & 0x00FF) | (new_freq_high << 8);
                if value & 0x80 != 0 {
                    self.trigger();
                }
            },
            _ => {},
        }
    }

    fn trigger(&mut self)
        requires
            old(self).wf(),
            old(self).volume <= 15,
        ensures
            *final(self) == old(self).trigger_spec(),
            final(self).wf(),
    {
        self.enabled = true;
        self.sweep_enable = true;
        self.timer = 0;
        self.envelope_timer = 0;
        self.sweep_timer = 0;
        self.length_timer = 0;
        self.position = 0;
        self.current_volume = self.volume;
        self.envelope_counter = self.envelope_period;
        self.length_counter = if self.length == 0 { 64 } else { self.length };
        self.sweep_counter = if self.sweep_period == 0 { 8 } else { self.sweep_period };
        if self.sweep_shift > 0 {
            self.update_frequency();
        }
    }

    pub fn output(&self) -> (r: i32)
        ensures r == self.output_volume,
    {
        self.output_volume
    }
}


#[derive(Debug)]
pub struct WaveChannel {
    pub enabled: bool,
    pub length: u8,
    pub length_counter: u16,
    pub volume_code: u8,
    pub frequency: u16,
    pub length_enable: bool,
    pub trigger: bool,
    pub wave_ram: [u8; 16],
    pub position: u8,
    pub timer: u32,
    pub length_timer: u32,
    pub output_volume: i32,
}

/// Output shift of the wave channel's volume code, as a multiplier out of 4.
pub open spec fn wave_volume(code: u8) -> i32 {
    if code == 1 { 1 } else if code == 2 { 2 } else if code == 3 { 4 } else { 0 }
}

/// The 4-bit sample at `position` of the 32-sample wave table.
pub open spec fn wave_sample(ram: Seq<u8>, position: u8) -> u8 {
    let byte = ram[(position / 2) as int % 16];
    if position % 2 == 0 { byte >> 4u8 } else { byte & 0x0F }
}

proof fn lemma_wave_ram_unique(a: WaveChannel, b: WaveChannel)
    requires
        a.wave_ram@ == b.wave_ram@,
        a == (WaveChannel { wave_ram: a.wave_ram, ..b }),
    ensures
        a == b,
{
    assert(a.wave_ram == b.wave_ram);
}

impl WaveChannel {
    pub open spec fn wf(&self) -> bool {
        &&& self.frequency <= 2047
        &&& self.position < 64
        &&& self.volume_code <= 3
    }

    pub open spec fn tick_length_spec(self) -> WaveChannel {
        if !self.length_enable || self.length_counter == 0 {
            self
        } else if self.length_counter == 1 {
            WaveChannel { length_counter: 0, enabled: false, ..self }
        } else {
            WaveChannel { length_counter: (self.length_counter - 1) as u16, ..self }
        }
    }

    pub open spec fn length_phase_spec(self, cycles: u32) -> WaveChannel {
        let lt = wrap32(self.length_timer, cycles);
        WaveChannel {
            length_timer: ticks_left(lt, LENGTH_TICK_CYCLES),
            ..iterate(|c: WaveChannel| c.tick_length_spec(), WaveChannel { length_timer: lt, ..self }, ticks_due(lt, LENGTH_TICK_CYCLES))
        }
    }

    pub open spec fn wave_phase_spec(self, cycles: u32) -> (WaveChannel, i32) {
        let th = wave_threshold(self.frequency);
        let tt = wrap32(self.timer, cycles);
        let pos = ((self.position as int + ticks_due(tt, th)) % 64) as u8;
        let out: i32 = ((wave_sample(self.wave_ram@, pos) as i32 * wave_volume(self.volume_code)) / 4) as i32;
        (WaveChannel { timer: ticks_left(tt, th), position: pos, output_volume: out, ..self }, out)
    }

    /// The length unit always runs; the sample position advances only while enabled with a
    /// non-zero frequency, and the output is the current 4-bit sample scaled by the volume code.
    pub open spec fn step_spec(self, cycles: u32) -> (WaveChannel, i32) {
        let s1 = self.length_phase_spec(cycles);
        if !s1.enabled || s1.frequency == 0 {
            (WaveChannel { output_volume: 0, ..s1 }, 0i32)
        } else {
            s1.wave_phase_spec(cycles)
        }
    }

    /// The power-on state: silent, every register 0 and wave RAM all 0xFF.
    pub open spec fn is_initial(&self) -> bool {
        &&& !self.enabled && self.length == 0 && self.length_counter == 0 && self.volume_code == 0
        &&& self.frequency == 0 && !self.length_enable && !self.trigger && self.position == 0
        &&& self.timer == 0 && self.length_timer == 0 && self.output_volume == 0
        &&& forall|i: int| 0 <= i < 16 ==> self.wave_ram[i] == 0xFF
    }

    pub fn new() -> (c: Self)
        ensures
            c.is_initial(),
            c.wf(),
    {
        WaveChannel {
            enabled: false,
            length: 0,
            length_counter: 0,
            volume_code: 0,
            frequency: 0,
            length_enable: false,
            trigger: false,
            wave_ram: [0xFF; 16],
            position: 0,
            timer: 0,
            length_timer: 0,
            output_volume: 0,
        }
    }

    fn tick_length(&mut self)
        ensures
            *final(self) == old(self).tick_length_spec(),
    {
        if !self.length_enable {
            return;
        }
        if self.length_counter > 0 {
            self.length_counter = self.length_counter - 1;
            if self.length_counter == 0 {
                self.enabled = false;
            }
        }
    }

    fn run_length(&mut self, cycles: u32)
        requires
            old(self).wf(),
        ensures
            *final(self) == old(self).length_phase_spec(cycles),
            final(self).wf(),
    {
        self.length_timer = self.length_timer.wrapping_add(cycles);
        let ghost l0 = *self;
        let ghost lt = self.length_timer;
        let ghost mut k: nat = 0;
        while self.length_timer >= LENGTH_TICK_CYCLES
            invariant
                self.wf(),
                *self == (WaveChannel { length_timer: self.length_timer, ..iterate(|c: WaveChannel| c.tick_length_spec(), l0, k) }),
                ticks_due(lt, LENGTH_TICK_CYCLES) == k + ticks_due(self.length_timer, LENGTH_TICK_CYCLES),
                ticks_left(lt, LENGTH_TICK_CYCLES) == ticks_left(self.length_timer, LENGTH_TICK_CYCLES),
            decreases self.length_timer,
        {
            self.length_timer = self.length_timer - LENGTH_TICK_CYCLES;
            self.tick_length();
            proof { k = k + 1; }
        }
    }

    #[verifier::spinoff_prover]
    #[verifier::rlimit(40)]
    fn run_wave(&mut self, cycles: u32) -> (out: i32)
        requires
            old(self).wf(),
        ensures
            (*final(self), out) == old(self).wave_phase_spec(cycles),
            final(self).wf(),
            0 <= out <= 15,
    {
        let (_, timer_threshold) = step_rate_thresholds(self.frequency);
        self.timer = self.timer.wrapping_add(cycles);
        let ghost tt = self.timer;
        let ghost p0 = self.position;
        let ghost s0 = *self;
        let ghost mut k: nat = 0;
        while self.timer >= timer_threshold
            invariant
                timer_threshold >= 16,
                timer_threshold == wave_threshold(s0.frequency),
                self.position < 64,
                self.position as int == (p0 as int + k) % 64,
                *self == (WaveChannel { timer: self.timer, position: self.position, ..s0 }),
                ticks_due(tt, timer_threshold) == k + ticks_due(self.timer, timer_threshold),
                ticks_left(tt, timer_threshold) == ticks_left(self.timer, timer_threshold),
            decreases self.timer,
        {
            self.timer = self.timer - timer_threshold;
            let q: u8 = self.position + 1;
            proof { lemma_wrap_position(q); }
            self.position = (self.position + 1) & 0x3F;
            proof { k = k + 1; }
        }
        let idx = (self.position as usize / 2) % WAVE_RAM_SIZE;
        let wave_byte = self.wave_ram[idx];
        let sample = if self.position & 1 == 0 { wave_byte >> 4 } else { wave_byte & 0x0F };
        let p = self.position;
        proof { lemma_sample_bits(p, wave_byte); }
        let volume: i32 = match self.volume_code {
            0 => 0,
            1 => 1,
            2 => 2,
            3 => 4,
            _ => 0,
        };
        self.output_volume = ((sample as i32) * volume) / 4;
        self.output_volume
    }

    /// Advances the channel by `cycles` and returns its output level.
    pub fn step(&mut self, cycles: u32) -> (out: i32)
        requires
            old(self).wf(),
        ensures
            (*final(self), out) == old(self).step_spec(cycles),
            final(self).wf(),
            0 <= out <= 15,
    {
        self.run_length(cycles);
        if !self.enabled || self.frequency == 0 {
            self.output_volume = 0;
            return 0;
        }
        self.run_wave(cycles)
    }

    /// Clears every register except the wave table.
    pub fn reset(&mut self)
        ensures
            *final(self) == (WaveChannel {
                enabled: false,
                length: 0,
                length_counter: 0,
                volume_code: 0,
                frequency: 0,
                length_enable: false,
                trigger: false,
                position: 0,
                timer: 0,
                length_timer: 0,
                output_volume: 0,
                ..*old(self)
            }),
            final(self).wf(),
    {
        self.enabled = false;
        self.length = 0;
        self.length_counter = 0;
        self.volume_code = 0;
        self.frequency = 0;
        self.length_enable = false;
        self.trigger = false;
        self.position = 0;
        self.timer = 0;
        self.length_timer = 0;
        self.output_volume = 0;
    }

    pub open spec fn read_io_spec(&self, addr: u16) -> u8 {
        if addr == REG_NR30 {
            if self.enabled { 0x80u8 } else { 0u8 }
        } else if addr == REG_NR31 {
            self.length
        } else if addr == REG_NR32 {
            (self.volume_code & 0x03) << 5u8
        } else if addr == REG_NR33 {
            self.frequency as u8
        } else if addr == REG_NR34 {
            (if self.length_enable { 0x40u8 } else { 0 }) | (((self.frequency >> 8u16) as u8) & 0x07)
        } else {
            0u8
        }
    }

    pub fn read_io(&self, addr: u16) -> (r: u8)
        ensures
            r == self.read_io_spec(addr),
    {
        match addr {
            REG_NR30 => if self.enabled { 0x80 } else { 0 },
            REG_NR31 => self.length,
            REG_NR32 => (self.volume_code & 0x03) << 5,
            REG_NR33 => self.frequency as u8,
            REG_NR34 => {
                let value: u8 = if self.length_enable { 0x40 } else { 0 };
                value | (((self.frequency >> 8) as u8) & 0x07)
            },
            _ => 0,
        }
    }

    pub open spec fn write_io_spec(self, addr: u16, value: u8) -> WaveChannel {
        if addr == REG_NR30 {
            WaveChannel { enabled: value & 0x80 != 0, ..self }
        } else if addr == REG_NR31 {
            WaveChannel { length: value, ..self }
        } else if addr == REG_NR32 {
            WaveChannel { volume_code: (value >> 5u8) & 0x03, ..self }
        } else if addr == REG_NR33 {
            WaveChannel { frequency: ((self.frequency / 256) * 256 + value) as u16, ..self }
        } else if addr == REG_NR34 {
            let written = WaveChannel {
                length_enable: value & 0x40 != 0,
                frequency: ((value & 0x07u8) as int * 256 + self.frequency % 256) as u16,
                ..self
            };
            if value & 0x80 != 0 {
                WaveChannel {
                    trigger: true,
                    enabled: true,
                    position: 0,
                    timer: 0,
                    length_timer: 0,
                    length_counter: if self.length == 0 { 256 } else { self.length as u16 },
                    ..written
                }
            } else {
                written
            }
        } else {
            self
        }
    }

    /// Writes NR30-NR34; bit 7 of NR34 restarts playback from the first sample.
    pub fn write_io(&mut self, addr: u16, value: u8)
        requires
            old(self).wf(),
        ensures
            *final(self) == old(self).write_io_spec(addr, value),
            final(self).wf(),
    {
        match addr {
            REG_NR30 => {
                self.enabled = value & 0x80 != 0;
            },
            REG_NR31 => {
                self.length = value;
            },
            REG_NR32 => {
                proof { lemma_byte(value); }
                self.volume_code = (value >> 5) & 0x03;
            },
            REG_NR33 => {
                let f = self.frequency;
                proof {
                    lemma_word(f);
                    lemma_or_low_byte(f & 0xFF00u16, value as u16);
                }
                self.frequency = (self.frequency & 0xFF00) | (value as u16);
            },
            REG_NR34 => {
                self.length_enable = value & 0x40 != 0;
                let new_freq_high = (value as u16) & 0x07;
                let f = self.frequency;
                proof {
                    lemma_word(f);
                    lemma_byte(value);
                    lemma_word(value as u16);
                    lemma_join_word((value as u16) & 0x07u16, f & 0x00FFu16);
                }
                self.frequency = (self.frequency & 0x00FF) | (new_freq_high << 8);
                if value & 0x80 != 0 {
                    self.trigger = true;
                    self.enabled = true;
                    self.position = 0;
                    self.timer = 0;
                    self.length_timer = 0;
                    self.length_counter = if self.length == 0 { 256 } else { self.length as u16 };
                }
            },
            _ => {},
        }
    }

    /// Reads wave RAM at `addr` (0xFF30-0xFF3F); addresses past the table read 0xFF.
    pub fn read_wave_ram(&self, addr: u16) -> (r: u8)
        requires
            addr >= WAVE_RAM_START,
        ensures
            r == (if addr - WAVE_RAM_START < 16 { self.wave_ram[addr - WAVE_RAM_START] } else { 0xFF }),
    {
        let index = (addr - WAVE_RAM_START) as usize;
        if index < WAVE_RAM_SIZE {
            self.wave_ram[index]
        } else {
            0xFF
        }
    }

    /// The channel with wave RAM byte `addr - 0xFF30` replaced (if inside the table).
    pub open spec fn write_wave_ram_spec(self, addr: u16, value: u8) -> WaveChannel {
        choose|w: WaveChannel| {
            &&& w.wave_ram@ == (if addr - WAVE_RAM_START < 16 {
                self.wave_ram@.update(addr - WAVE_RAM_START, value)
            } else {
                self.wave_ram@
            })
            &&& w == (WaveChannel { wave_ram: w.wave_ram, ..self })
        }
    }

    /// Writes wave RAM at `addr` (0xFF30-0xFF3F); other addresses are ignored.
    pub fn write_wave_ram(&mut self, addr: u16, value: u8)
        requires
            addr >= WAVE_RAM_START,
        ensures
            *final(self) == old(self).write_wave_ram_spec(addr, value),
            final(self).wave_ram@ == (if addr - WAVE_RAM_START < 16 {
                old(self).wave_ram@.update(addr - WAVE_RAM_START, value)
            } else {
                old(self).wave_ram@
            }),
            *final(self) == (WaveChannel { wave_ram: final(self).wave_ram, ..*old(self) }),
    {
        let index = (addr - WAVE_RAM_START) as usize;
        if index < WAVE_RAM_SIZE {
            self.wave_ram[index] = value;
        }
        proof {
            let w = *self;
            assert(w.wave_ram@ =~= (if addr - WAVE_RAM_START < 16 {
                old(self).wave_ram@.update(addr - WAVE_RAM_START, value)
            } else {
                old(self).wave_ram@
            }));
            lemma_wave_ram_unique(w, old(self).write_wave_ram_spec(addr, value));
        }
    }

    pub fn output(&self) -> (r: i32)
        ensures r == self.output_volume,
    {
        self.output_volume
    }
}


#[derive(Debug)]
pub struct NoiseChannel {
    pub enabled: bool,
    pub length: u8,
    pub length_counter: u8,
    pub volume: u8,
    pub envelope_add: bool,
    pub envelope_period: u8,
    pub length_enable: bool,
    pub shift_clock_frequency: u8,
    pub seven_bit_mode: bool,
    pub divisor_code: u8,
    pub lfsr: u16,
    pub timer: u32,
    pub envelope_timer: u32,
    pub envelope_counter: u8,
    pub current_volume: u8,
    pub output_volume: i32,
    pub length_timer: u32,
}

/// Base divisor selected by NR43 bits 0-2.
pub open spec fn noise_divisor(code: u8) -> u32 {
    if code == 0 { 8 } else if code == 1 { 16 } else if code == 2 { 32 } else if code == 3 { 48 }
    else if code == 4 { 64 } else if code == 5 { 80 } else if code == 6 { 96 } else if code == 7 { 112 }
    else { 8 }
}

/// Cycles between LFSR clocks; 0 when the divisor shifted by `shift` exceeds the clock base.
pub open spec fn noise_threshold(code: u8, shift: u8) -> u32 {
    ((NOISE_CLOCK_BASE as int / (noise_divisor(code) as int * vstd::arithmetic::power2::pow2(shift as nat) as int)) / 2) as u32
}

/// One LFSR clock: XOR of the two low bits feeds bit 14 (and bit 6 in 7-bit mode).
pub open spec fn clock_lfsr_spec(lfsr: u16, seven_bit: bool) -> u16 {
    let feedback = (lfsr & 1) ^ ((lfsr >> 1u16) & 1);
    let shifted = lfsr >> 1u16;
    if seven_bit {
        (shifted & 0x7F) | (feedback << 6u16)
    } else {
        (shifted & 0x7FFF) | (feedback << 14u16)
    }
}

impl NoiseChannel {
    pub open spec fn wf(&self) -> bool {
        &&& self.current_volume <= 15
        &&& self.volume <= 15
        &&& self.shift_clock_frequency <= 15
        &&& self.divisor_code <= 7
        &&& self.envelope_period <= 7
    }

    /// Whether stepping can make progress: the LFSR period must be at least one cycle.
    pub open spec fn clock_ok(&self) -> bool {
        !self.enabled || noise_threshold(self.divisor_code, self.shift_clock_frequency) > 0
    }

    pub open spec fn step_envelope_spec(self) -> NoiseChannel {
        if self.envelope_period == 0 {
            self
        } else if self.envelope_counter > 0 {
            NoiseChannel { envelope_counter: (self.envelope_counter - 1) as u8, ..self }
        } else {
            NoiseChannel {
                envelope_counter: self.envelope_period,
                current_volume: envelope_volume(self.envelope_add, self.current_volume),
                ..self
            }
        }
    }

    pub open spec fn tick_length_spec(self) -> NoiseChannel {
        if !self.length_enable || self.length_counter == 0 {
            self
        } else if self.length_counter == 1 {
            NoiseChannel { length_counter: 0, enabled: false, ..self }
        } else {
            NoiseChannel { length_counter: (self.length_counter - 1) as u8, ..self }
        }
    }

    pub open spec fn envelope_phase_spec(self, cycles: u32) -> NoiseChannel {
        let et = wrap32(self.envelope_timer, cycles);
        NoiseChannel {
            envelope_timer: ticks_left(et, ENVELOPE_TICK_CYCLES),
            ..iterate(|c: NoiseChannel| c.step_envelope_spec(), NoiseChannel { envelope_timer: et, ..self }, ticks_due(et, ENVELOPE_TICK_CYCLES))
        }
    }

    pub open spec fn length_phase_spec(self, cycles: u32) -> NoiseChannel {
        let lt = wrap32(self.length_timer, cycles);
        NoiseChannel {
            length_timer: ticks_left(lt, LENGTH_TICK_CYCLES),
            ..iterate(|c: NoiseChannel| c.tick_length_spec(), NoiseChannel { length_timer: lt, ..self }, ticks_due(lt, LENGTH_TICK_CYCLES))
        }
    }

    pub open spec fn lfsr_phase_spec(self, cycles: u32) -> (NoiseChannel, i32) {
        let th = noise_threshold(self.divisor_code, self.shift_clock_frequency);
        let tt = wrap32(self.timer, cycles);
        let lfsr = iterate(|l: u16| clock_lfsr_spec(l, self.seven_bit_mode), self.lfsr, ticks_due(tt, th));
        let out: i32 = if lfsr & 1 == 0 { self.current_volume as i32 } else { (-(self.current_volume as int)) as i32 };
        (NoiseChannel { timer: ticks_left(tt, th), lfsr, output_volume: out, ..self }, out)
    }

    /// Envelope and length units tick, then the LFSR is clocked; the output is +volume when
    /// bit 0 of the LFSR is clear and -volume when it is set.
    pub open spec fn step_spec(self, cycles: u32) -> (NoiseChannel, i32) {
        if !self.enabled {
            (NoiseChannel { output_volume: 0, ..self }, 0i32)
        } else {
            self.envelope_phase_spec(cycles).length_phase_spec(cycles).lfsr_phase_spec(cycles)
        }
    }

    pub open spec fn trigger_spec(self) -> NoiseChannel {
        NoiseChannel {
            enabled: true,
            lfsr: 0x7FFF,
            timer: 0,
            envelope_timer: 0,
            length_timer: 0,
            current_volume: self.volume,
            envelope_counter: self.envelope_period,
            length_counter: if self.length == 0 { 64 } else { self.length },
            ..self
        }
    }

    pub open spec fn initial() -> NoiseChannel {
        NoiseChannel {
            enabled: false,
            length: 0,
            length_counter: 0,
            volume: 0,
            envelope_add: false,
            envelope_period: 0,
            length_enable: false,
            shift_clock_frequency: 0,
            seven_bit_mode: false,
            divisor_code: 0,
            lfsr: 0,
            timer: 0,
            envelope_timer: 0,
            envelope_counter: 0,
            current_volume: 0,
            output_volume: 0,
            length_timer: 0,
        }
    }

    pub fn new() -> (c: Self)
        ensures
            c == NoiseChannel::initial(),
            c.wf(),
    {
        NoiseChannel {
            enabled: false,
            length: 0,
            length_counter: 0,
            volume: 0,
            envelope_add: false,
            envelope_period: 0,
            length_enable: false,
            shift_clock_frequency: 0,
            seven_bit_mode: false,
            divisor_code: 0,
            lfsr: 0,
            timer: 0,
            envelope_timer: 0,
            envelope_counter: 0,
            current_volume: 0,
            output_volume: 0,
            length_timer: 0,
        }
    }

    fn divisor_value(code: u8) -> (r: u32)
        ensures r == noise_divisor(code),
    {
        match code {
            0 => 8,
            1 => 16,
            2 => 32,
            3 => 48,
            4 => 64,
            5 => 80,
            6 => 96,
            7 => 112,
            _ => 8,
        }
    }

    /// Whether `step` can run: a disabled channel always can, an enabled one needs a non-zero
    /// LFSR period.
    pub fn clock_ready(&self) -> (r: bool)
        requires
            self.wf(),
        ensures
            r == self.clock_ok(),
    {
        !self.enabled || self.threshold() > 0
    }

    fn threshold(&self) -> (r: u32)
        requires
            self.wf(),
        ensures
            r == noise_threshold(self.divisor_code, self.shift_clock_frequency),
    {
        let divisor = Self::divisor_value(self.divisor_code);
        let shift = self.shift_clock_frequency;
        proof {
            vstd::arithmetic::power2::lemma_pow2_pos(shift as nat);
            vstd::arithmetic::power2::lemma2_to64();
            if shift < 15 {
                vstd::arithmetic::power2::lemma_pow2_strictly_increases(shift as nat, 15);
            }
            assert(divisor as int * vstd::arithmetic::power2::pow2(shift as nat) <= 112 * 32768) by (nonlinear_arith)
                requires divisor <= 112, vstd::arithmetic::power2::pow2(shift as nat) <= 32768,
                    vstd::arithmetic::power2::pow2(shift as nat) > 0;
            vstd::bits::lemma_u32_shl_is_mul(divisor, shift as u32);
        }
        (NOISE_CLOCK_BASE / (divisor << shift)) / 2
    }

    fn step_envelope(&mut self)
        requires
            old(self).wf(),
        ensures
            *final(self) == old(self).step_envelope_spec(),
            final(self).wf(),
    {
        if self.envelope_period == 0 {
            return;
        }
        if self.envelope_counter > 0 {
            self.envelope_counter = self.envelope_counter - 1;
            return;
        }
        self.envelope_counter = self.envelope_period;
        if self.envelope_add {
            if self.current_volume < 15 {
                self.current_volume = self.current_volume + 1;
            }
        } else {
            if self.current_volume > 0 {
                self.current_volume = self.current_volume - 1;
            }
        }
    }

    fn tick_length(&mut self)
        ensures
            *final(self) == old(self).tick_length_spec(),
    {
        if !self.length_enable {
            return;
        }
        if self.length_counter > 0 {
            self.length_counter = self.length_counter - 1;
            if self.length_counter == 0 {
                self.enabled = false;
            }
        }
    }

    fn clock_lfsr(&mut self)
        ensures
            final(self).lfsr == clock_lfsr_spec(old(self).lfsr, old(self).seven_bit_mode),
            *final(self) == (NoiseChannel { lfsr: final(self).lfsr, ..*old(self) }),
    {
        let feedback = (self.lfsr & 0x01) ^ ((self.lfsr >> 1) & 0x01);
        self.lfsr = self.lfsr >> 1;
        if self.seven_bit_mode {
            self.lfsr = self.lfsr & 0x7F;
            self.lfsr = self.lfsr | (feedback << 6);
        } else {
            self.lfsr = self.lfsr & 0x7FFF;
            self.lfsr = self.lfsr | (feedback << 14);
        }
    }

    fn run_envelope(&mut self, cycles: u32)
        requires
            old(self).wf(),
        ensures
            *final(self) == old(self).envelope_phase_spec(cycles),
            final(self).wf(),
            final(self).divisor_code == old(self).divisor_code,
            final(self).shift_clock_frequency == old(self).shift_clock_frequency,
            final(self).enabled == old(self).enabled,
    {
        self.envelope_timer = self.envelope_timer.wrapping_add(cycles);
        let ghost e0 = *self;
        let ghost et = self.envelope_timer;
        let ghost mut k: nat = 0;
        while self.envelope_timer >= ENVELOPE_TICK_CYCLES
            invariant
                self.wf(),
                self.divisor_code == e0.divisor_code,
                self.shift_clock_frequency == e0.shift_clock_frequency,
                self.enabled == e0.enabled,
                *self == (NoiseChannel { envelope_timer: self.envelope_timer, ..iterate(|c: NoiseChannel| c.step_envelope_spec(), e0, k) }),
                ticks_due(et, ENVELOPE_TICK_CYCLES) == k + ticks_due(self.envelope_timer, ENVELOPE_TICK_CYCLES),
                ticks_left(et, ENVELOPE_TICK_CYCLES) == ticks_left(self.envelope_timer, ENVELOPE_TICK_CYCLES),
            decreases self.envelope_timer,
        {
            self.envelope_timer = self.envelope_timer - ENVELOPE_TICK_CYCLES;
            self.step_envelope();
            proof { k = k + 1; }
        }
    }

    fn run_length(&mut self, cycles: u32)
        requires
            old(self).wf(),
        ensures
            *final(self) == old(self).length_phase_spec(cycles),
            final(self).wf(),
            final(self).divisor_code == old(self).divisor_code,
            final(self).shift_clock_frequency == old(self).shift_clock_frequency,
    {
        self.length_timer = self.length_timer.wrapping_add(cycles);
        let ghost l0 = *self;
        let ghost lt = self.length_timer;
        let ghost mut k: nat = 0;
        while self.length_timer >= LENGTH_TICK_CYCLES
            invariant
                self.wf(),
                self.divisor_code == l0.divisor_code,
                self.shift_clock_frequency == l0.shift_clock_frequency,
                *self == (NoiseChannel { length_timer: self.length_timer, ..iterate(|c: NoiseChannel| c.tick_length_spec(), l0, k) }),
                ticks_due(lt, LENGTH_TICK_CYCLES) == k + ticks_due(self.length_timer, LENGTH_TICK_CYCLES),
                ticks_left(lt, LENGTH_TICK_CYCLES) == ticks_left(self.length_timer, LENGTH_TICK_CYCLES),
            decreases self.length_timer,
        {
            self.length_timer = self.length_timer - LENGTH_TICK_CYCLES;
            self.tick_length();
            proof { k = k + 1; }
        }
    }

    fn run_lfsr(&mut self, cycles: u32) -> (out: i32)
        requires
            old(self).wf(),
            noise_threshold(old(self).divisor_code, old(self).shift_clock_frequency) > 0,
        ensures
            (*final(self), out) == old(self).lfsr_phase_spec(cycles),
            final(self).wf(),
            -15 <= out <= 15,
    {
        let threshold = self.threshold();
        self.timer = self.timer.wrapping_add(cycles);
        let ghost tt = self.timer;
        let ghost s0 = *self;
        let ghost mut k: nat = 0;
        while self.timer >= threshold
            invariant
                threshold > 0,
                threshold == noise_threshold(s0.divisor_code, s0.shift_clock_frequency),
                *self == (NoiseChannel { timer: self.timer, lfsr: self.lfsr, ..s0 }),
                self.lfsr == iterate(|l: u16| clock_lfsr_spec(l, s0.seven_bit_mode), s0.lfsr, k),
                ticks_due(tt, threshold) == k + ticks_due(self.timer, threshold),
                ticks_left(tt, threshold) == ticks_left(self.timer, threshold),
            decreases self.timer,
        {
            self.timer = self.timer - threshold;
            self.clock_lfsr();
            proof { k = k + 1; }
        }
        self.output_volume = if (self.lfsr & 0x01) == 0 {
            self.current_volume as i32
        } else {
            -(self.current_volume as i32)
        };
        self.output_volume
    }

    /// Advances the channel by `cycles` and returns its signed output level.
    pub fn step(&mut self, cycles: u32) -> (out: i32)
        requires
            old(self).wf(),
            old(self).clock_ok(),
        ensures
            (*final(self), out) == old(self).step_spec(cycles),
            final(self).wf(),
            -15 <= out <= 15,
    {
        if !self.enabled {
            self.output_volume = 0;
            return 0;
        }
        self.run_envelope(cycles);
        self.run_length(cycles);
        self.run_lfsr(cycles)
    }

    pub fn reset(&mut self)
        ensures
            *final(self) == NoiseChannel::initial(),
            final(self).wf(),
    {
        *self = NoiseChannel::new();
    }

    pub open spec fn read_io_spec(&self, addr: u16) -> u8 {
        if addr == REG_NR41 {
            self.length & 0x3F
        } else if addr == REG_NR42 {
            (self.volume << 4u8) | (if self.envelope_add { 0x08u8 } else { 0 }) | (self.envelope_period & 0x07)
        } else if addr == REG_NR43 {
            (self.shift_clock_frequency << 4u8) | (if self.seven_bit_mode { 0x08u8 } else { 0 }) | (self.divisor_code & 0x07)
        } else if addr == REG_NR44 {
            if self.length_enable { 0x40u8 } else { 0u8 }
        } else {
            0u8
        }
    }

    pub fn read_io(&self, addr: u16) -> (r: u8)
        ensures
            r == self.read_io_spec(addr),
    {
        match addr {
            REG_NR41 => self.length & 0x3F,
            REG_NR42 => {
                (self.volume << 4) | (if self.envelope_add { 0x08 } else { 0 }) | (self.envelope_period & 0x07)
            },
            REG_NR43 => {
                (self.shift_clock_frequency << 4) | (if self.seven_bit_mode { 0x08 } else { 0 }) | (self.divisor_code & 0x07)
            },
            REG_NR44 => if self.length_enable { 0x40 } else { 0 },
            _ => 0,
        }
    }

    pub open spec fn write_io_spec(self, addr: u16, value: u8) -> NoiseChannel {
        if addr == REG_NR41 {
            NoiseChannel { length: value & 0x3F, ..self }
        } else if addr == REG_NR42 {
            NoiseChannel {
                volume: (value >> 4u8) & 0x0F,
                envelope_add: value & 0x08 != 0,
                envelope_period: value & 0x07,
                current_volume: (value >> 4u8) & 0x0F,
                ..self
            }
        } else if addr == REG_NR43 {
            NoiseChannel {
                shift_clock_frequency: (value >> 4u8) & 0x0F,
                seven_bit_mode: value & 0x08 != 0,
                divisor_code: value & 0x07,
                ..self
            }
        } else if addr == REG_NR44 {
            let written = NoiseChannel { length_enable: value & 0x40 != 0, ..self };
            if value & 0x80 != 0 { written.trigger_spec() } else { written }
        } else {
            self
        }
    }

    /// Writes NR41-NR44; bit 7 of NR44 retriggers the channel with a full LFSR.
    pub fn write_io(&mut self, addr: u16, value: u8)
        requires
            old(self).wf(),
        ensures
            *final(self) == old(self).write_io_spec(addr, value),
            final(self).wf(),
    {
        match addr {
            REG_NR41 => {
                self.length = value & 0x3F;
            },
            REG_NR42 => {
                proof { lemma_byte(value); }
                self.volume = (value >> 4) & 0x0F;
                self.envelope_add = value & 0x08 != 0;
                self.envelope_period = value & 0x07;
                self.current_volume = self.volume;
            },
            REG_NR43 => {
                proof { lemma_byte(value); }
                self.shift_clock_frequency = (value >> 4) & 0x0F;
                self.seven_bit_mode = value & 0x08 != 0;
                self.divisor_code = value & 0x07;
            },
            REG_NR44 => {
                self.length_enable = value & 0x40 != 0;
                if value & 0x80 != 0 {
                    self.trigger();
                }
            },
            _ => {},
        }
    }

    fn trigger(&mut self)
        requires
            old(self).wf(),
        ensures
            *final(self) == old(self).trigger_spec(),
            final(self).wf(),
    {
        self.enabled = true;
        self.lfsr = 0x7FFF;
        self.timer = 0;
        self.envelope_timer = 0;
        self.length_timer = 0;
        self.current_volume = self.volume;
        self.envelope_counter = self.envelope_period;
        self.length_counter = if self.length == 0 { 64 } else { self.length };
    }

    pub fn output(&self) -> (r: i32)
        ensures r == self.output_volume,
    {
        self.output_volume
    }
}


#[derive(Debug)]
pub struct Apu {
    pub frame_cycles: u32,
    pub pulse_channel: PulseChannel,
    pub wave_channel: WaveChannel,
    pub noise_channel: NoiseChannel,
    pub sample_ready: bool,
    pub current_sample: i32,
}

/// `x` clamped to `[-128, 127]`.
pub open spec fn clamp_sample(x: int) -> i32 {
    if x < -128 { -128i32 } else if x > 127 { 127i32 } else { x as i32 }
}

/// Which channel an APU register address belongs to.
pub open spec fn is_pulse_reg(addr: u16) -> bool {
    addr == REG_NR10 || addr == REG_NR11 || addr == REG_NR12 || addr == REG_NR13 || addr == REG_NR14
}

pub open spec fn is_wave_reg(addr: u16) -> bool {
    addr == REG_NR30 || addr == REG_NR31 || addr == REG_NR32 || addr == REG_NR33 || addr == REG_NR34
}

pub open spec fn is_noise_reg(addr: u16) -> bool {
    addr == REG_NR41 || addr == REG_NR42 || addr == REG_NR43 || addr == REG_NR44
}

pub open spec fn is_wave_ram(addr: u16) -> bool {
    WAVE_RAM_START <= addr <= 0xFF3F
}

impl Apu {
    pub open spec fn wf(&self) -> bool {
        &&& self.pulse_channel.wf()
        &&& self.wave_channel.wf()
        &&& self.noise_channel.wf()
        &&& -128 <= self.current_sample <= 127
    }

    /// Stepping terminates only while the noise channel's LFSR period is non-zero.
    pub open spec fn can_step(&self) -> bool {
        self.noise_channel.clock_ok()
    }

    /// Every channel advances by `cycles`; each time a whole frame has elapsed, one sample
    /// (the clamped sum of the channel outputs) becomes ready.
    pub open spec fn step_spec(self, cycles: u32) -> Apu {
        let fc = wrap32(self.frame_cycles, cycles);
        let pulse = self.pulse_channel.step_spec(cycles).0;
        let wave = self.wave_channel.step_spec(cycles).0;
        let noise = self.noise_channel.step_spec(cycles).0;
        let stepped = Apu { frame_cycles: fc, pulse_channel: pulse, wave_channel: wave, noise_channel: noise, ..self };
        if fc >= FRAME_CYCLES {
            Apu {
                frame_cycles: (fc - FRAME_CYCLES) as u32,
                current_sample: clamp_sample(pulse.output_volume as int + wave.output_volume as int + noise.output_volume as int),
                sample_ready: true,
                ..stepped
            }
        } else {
            stepped
        }
    }

    pub open spec fn read_io_spec(&self, addr: u16) -> u8 {
        if is_pulse_reg(addr) {
            self.pulse_channel.read_io_spec(addr)
        } else if is_wave_reg(addr) {
            self.wave_channel.read_io_spec(addr)
        } else if is_noise_reg(addr) {
            self.noise_channel.read_io_spec(addr)
        } else if is_wave_ram(addr) {
            self.wave_channel.wave_ram[addr - WAVE_RAM_START]
        } else {
            0
        }
    }

    pub open spec fn write_io_spec(self, addr: u16, value: u8) -> Apu {
        if is_pulse_reg(addr) {
            Apu { pulse_channel: self.pulse_channel.write_io_spec(addr, value), ..self }
        } else if is_wave_reg(addr) {
            Apu { wave_channel: self.wave_channel.write_io_spec(addr, value), ..self }
        } else if is_noise_reg(addr) {
            Apu { noise_channel: self.noise_channel.write_io_spec(addr, value), ..self }
        } else if is_wave_ram(addr) {
            Apu { wave_channel: self.wave_channel.write_wave_ram_spec(addr, value), ..self }
        } else {
            self
        }
    }

    pub fn new() -> (a: Self)
        ensures
            a.frame_cycles == FRAME_CYCLES,
            a.pulse_channel == PulseChannel::initial(),
            a.noise_channel == NoiseChannel::initial(),
            a.wave_channel.is_initial(),
            !a.sample_ready,
            a.current_sample == 0,
            a.wf(),
            a.can_step(),
    {
        Apu {
            frame_cycles: FRAME_CYCLES,
            pulse_channel: PulseChannel::new(),
            wave_channel: WaveChannel::new(),
            noise_channel: NoiseChannel::new(),
            sample_ready: false,
            current_sample: 0,
        }
    }

    /// Advances every channel; at each frame boundary mixes a new sample. Never fails.
    pub fn step(&mut self, cycles: u32) -> (r: Result<(), ()>)
        requires
            old(self).wf(),
            old(self).can_step(),
        ensures
            *final(self) == old(self).step_spec(cycles),
            final(self).wf(),
            r is Ok,
    {
        self.frame_cycles = self.frame_cycles.wrapping_add(cycles);
        self.pulse_channel.step(cycles);
        self.wave_channel.step(cycles);
        self.noise_channel.step(cycles);
        if self.frame_cycles >= FRAME_CYCLES {
            self.frame_cycles = self.frame_cycles - FRAME_CYCLES;
            self.mix_sample();
            self.sample_ready = true;
        }
        Ok(())
    }

    fn mix_sample(&mut self)
        requires
            0 <= old(self).pulse_channel.output_volume <= 15,
            0 <= old(self).wave_channel.output_volume <= 15,
            -15 <= old(self).noise_channel.output_volume <= 15,
        ensures
            *final(self) == (Apu {
                current_sample: clamp_sample(old(self).pulse_channel.output_volume as int
                    + old(self).wave_channel.output_volume as int
                    + old(self).noise_channel.output_volume as int),
                ..*old(self)
            }),
    {
        let pulse_out = self.pulse_channel.output();
        let wave_out = self.wave_channel.output();
        let noise_out = self.noise_channel.output();
        let mixed = pulse_out + wave_out + noise_out;
        self.current_sample = if mixed < -128 { -128 } else if mixed > 127 { 127 } else { mixed };
    }

    /// Whether `step` can run (see `can_step`).
    pub fn is_steppable(&self) -> (r: bool)
        requires
            self.wf(),
        ensures
            r == self.can_step(),
    {
        self.noise_channel.clock_ready()
    }

    /// Cycles accumulated towards the next frame boundary.
    pub fn samples_per_frame(&self) -> (r: u32)
        ensures r == self.frame_cycles,
    {
        self.frame_cycles
    }

    pub fn reset(&mut self)
        ensures
            final(self).frame_cycles == FRAME_CYCLES,
            final(self).pulse_channel == PulseChannel::initial(),
            final(self).noise_channel == NoiseChannel::initial(),
            final(self).wave_channel.wave_ram == old(self).wave_channel.wave_ram,
            !final(self).wave_channel.enabled && final(self).wave_channel.frequency == 0,
            !final(self).sample_ready,
            final(self).current_sample == 0,
            final(self).wf(),
            final(self).can_step(),
    {
        self.frame_cycles = FRAME_CYCLES;
        self.pulse_channel.reset();
        self.wave_channel.reset();
        self.noise_channel.reset();
        self.sample_ready = false;
        self.current_sample = 0;
    }

    /// Reads a sound register or wave RAM byte; unmapped addresses read 0.
    pub fn read_io(&self, addr: u16) -> (r: u8)
        ensures
            r == self.read_io_spec(addr),
    {
        match addr {
            REG_NR10 | REG_NR11 | REG_NR12 | REG_NR13 | REG_NR14 => self.pulse_channel.read_io(addr),
            REG_NR30 | REG_NR31 | REG_NR32 | REG_NR33 | REG_NR34 => self.wave_channel.read_io(addr),
            REG_NR41 | REG_NR42 | REG_NR43 | REG_NR44 => self.noise_channel.read_io(addr),
            0xFF30..=0xFF3F => self.wave_channel.read_wave_ram(addr),
            _ => 0,
        }
    }

    /// Writes a sound register or wave RAM byte; unmapped addresses are ignored.
    pub fn write_io(&mut self, addr: u16, value: u8)
        requires
            old(self).wf(),
        ensures
            *final(self) == old(self).write_io_spec(addr, value),
            final(self).wf(),
    {
        match addr {
            REG_NR10 | REG_NR11 | REG_NR12 | REG_NR13 | REG_NR14 => {
                self.pulse_channel.write_io(addr, value);
            },
            REG_NR30 | REG_NR31 | REG_NR32 | REG_NR33 | REG_NR34 => {
                self.wave_channel.write_io(addr, value);
            },
            REG_NR41 | REG_NR42 | REG_NR43 | REG_NR44 => {
                self.noise_channel.write_io(addr, value);
            },
            0xFF30..=0xFF3F => {
                self.wave_channel.write_wave_ram(addr, value);
            },
            _ => {},
        }
    }

    pub fn pulse_output(&self) -> (r: i32)
        ensures r == self.pulse_channel.output_volume,
    {
        self.pulse_channel.output()
    }

    pub fn wave_output(&self) -> (r: i32)
        ensures r == self.wave_channel.output_volume,
    {
        self.wave_channel.output()
    }

    pub fn noise_output(&self) -> (r: i32)
        ensures r == self.noise_channel.output_volume,
    {
        self.noise_channel.output()
    }

    pub fn has_sample(&self) -> (r: bool)
        ensures r == self.sample_ready,
    {
        self.sample_ready
    }

    /// Returns the last mixed sample and marks it consumed.
    pub fn take_sample(&mut self) -> (r: i32)
        ensures
            r == old(self).current_sample,
            *final(self) == (Apu { sample_ready: false, ..*old(self) }),
    {
        self.sample_ready = false;
        self.current_sample
    }

    pub fn sample(&self) -> (r: i32)
        ensures r == self.current_sample,
    {
        self.current_sample
    }
}

} // verus!

verus! {

/// The mixed sample always lies in the signed 8-bit range, and a step that crosses a frame
/// boundary always leaves a sample ready.
pub proof fn lemma_apu_step_sample(a: Apu, cycles: u32)
    requires
        -128 <= a.current_sample <= 127,
    ensures
        -128 <= a.step_spec(cycles).current_sample <= 127,
        a.frame_cycles as int + cycles as int >= FRAME_CYCLES as int
            && a.frame_cycles as int + cycles as int <= u32::MAX ==> a.step_spec(cycles).sample_ready,
{
}

/// A pulse register reads back what was written to it: NR10-NR13 in full, NR14 its
/// length-enable and frequency bits (when the write does not trigger); other addresses read 0.
pub proof fn lemma_pulse_register_read_back(ch: PulseChannel, addr: u16, v: u8)
    ensures
        REG_NR10 <= addr <= REG_NR13 ==> ch.write_io_spec(addr, v).read_io_spec(addr) == v,
        v & 0x80 == 0 ==> ch.write_io_spec(REG_NR14, v).read_io_spec(REG_NR14) == v & 0x47,
        !(REG_NR10 <= addr <= REG_NR14) ==> ch.read_io_spec(addr) == 0,
{
    if REG_NR10 <= addr <= REG_NR13 {
        assert(ch.write_io_spec(addr, v).read_io_spec(addr) == v) by {
            lemma_sound_register_fields(v);
            lemma_byte(v);
            let f13 = ((ch.frequency / 256) * 256 + v) as u16;
            lemma_word_bytes(f13);
        }
    }
    if v & 0x80 == 0 {
        assert(ch.write_io_spec(REG_NR14, v).read_io_spec(REG_NR14) == v & 0x47) by {
            lemma_sound_register_fields(v);
            lemma_byte(v);
            let f14 = ((v & 0x07u8) as int * 256 + ch.frequency % 256) as u16;
            lemma_word_bytes(f14);
            assert(f14 / 256 == v & 0x07u8);
        }
    }
}

/// Triggering a pulse channel (NR14 bit 7) restarts it: position 0, the volume reloaded, a
/// length counter of 64 when the length is 0 and the length otherwise, and the length-enable
/// bit taken from the same write. Without a sweep shift the channel is then on.
pub proof fn lemma_pulse_trigger(ch: PulseChannel, v: u8)
    requires
        v & 0x80 != 0,
    ensures
        ({
            let t = ch.write_io_spec(REG_NR14, v);
            &&& t.position == 0
            &&& t.current_volume == ch.volume
            &&& t.length_counter == (if ch.length == 0 { 64 } else { ch.length })
            &&& t.length_enable == (v & 0x40 != 0)
            &&& ch.sweep_shift == 0 ==> t.enabled
        }),
{
}

/// A wave register reads back its meaningful bits: NR30 bit 7, NR32 bits 5-6.
pub proof fn lemma_wave_register_read_back(ch: WaveChannel, v: u8)
    ensures
        ch.write_io_spec(REG_NR30, v).read_io_spec(REG_NR30) == v & 0x80,
        ch.write_io_spec(REG_NR32, v).read_io_spec(REG_NR32) == v & 0x60,
        ch.write_io_spec(REG_NR31, v).read_io_spec(REG_NR31) == v,
{
    lemma_sound_register_fields(v);
}

/// Triggering the wave channel (NR34 bit 7) turns it on at position 0 with a length counter
/// of 256 when the length is 0 and the length otherwise.
pub proof fn lemma_wave_trigger(ch: WaveChannel, v: u8)
    requires
        v & 0x80 != 0,
    ensures
        ({
            let t = ch.write_io_spec(REG_NR34, v);
            &&& t.enabled && t.position == 0
            &&& t.length_counter == (if ch.length == 0 { 256 } else { ch.length as int })
            &&& t.length_enable == (v & 0x40 != 0)
        }),
{
}

/// Length ticks only count down and switch the wave channel off; they never change its
/// frequency or volume code and never switch it on.
proof fn lemma_wave_length_ticks(c: WaveChannel, n: nat)
    ensures
        ({
            let d = iterate(|x: WaveChannel| x.tick_length_spec(), c, n);
            &&& d.frequency == c.frequency
            &&& d.volume_code == c.volume_code
            &&& d.enabled ==> c.enabled
        }),
    decreases n,
{
    if n > 0 {
        lemma_wave_length_ticks(c, (n - 1) as nat);
    }
}

/// A wave step returns the level the channel is left holding, between 0 and 15; it is 0
/// whenever the channel is off, its frequency is 0 or its volume code mutes it. The length
/// unit runs in every state, a disabled channel included.
pub proof fn lemma_wave_step_output(ch: WaveChannel, cycles: u32)
    ensures
        ({
            let (after, out) = ch.step_spec(cycles);
            let l = ch.length_phase_spec(cycles);
            &&& out == after.output_volume
            &&& 0 <= out <= 15
            &&& (!ch.enabled || ch.frequency == 0 || ch.volume_code == 0 || ch.volume_code > 3) ==> out == 0
            &&& after.length_counter == l.length_counter
            &&& after.length_timer == l.length_timer
            &&& after.enabled == l.enabled
        }),
{
    let lt = wrap32(ch.length_timer, cycles);
    lemma_wave_length_ticks(WaveChannel { length_timer: lt, ..ch }, ticks_due(lt, LENGTH_TICK_CYCLES));
    let l = ch.length_phase_spec(cycles);
    let th = wave_threshold(l.frequency);
    let tt = wrap32(l.timer, cycles);
    let pos = ((l.position as int + ticks_due(tt, th)) % 64) as u8;
    let byte = l.wave_ram@[(pos / 2) as int % 16];
    assert(byte >> 4u8 <= 15 && byte & 0x0F <= 15) by (bit_vector);
    let smp = wave_sample(l.wave_ram@, pos);
    let v = wave_volume(l.volume_code);
    assert(0 <= smp as i32 * v <= 60) by (nonlinear_arith)
        requires
            smp <= 15,
            0 <= v <= 4,
    ;
    assert(0 <= (smp as i32 * v) / 4 <= 15);
}

/// The LFSR part of a noise step clocks the register once per whole period in the timer plus
/// the new cycles, keeps the rest of them in the timer, and outputs plus or minus the
/// current volume.
pub proof fn lemma_noise_lfsr_clocks(ch: NoiseChannel, cycles: u32)
    requires
        noise_threshold(ch.divisor_code, ch.shift_clock_frequency) > 0,
        ch.timer as int + cycles as int <= u32::MAX,
        ch.current_volume <= 15,
    ensures
        ({
            let th = noise_threshold(ch.divisor_code, ch.shift_clock_frequency);
            let total = ch.timer as int + cycles as int;
            let (after, out) = ch.lfsr_phase_spec(cycles);
            &&& after.lfsr == iterate(|l: u16| clock_lfsr_spec(l, ch.seven_bit_mode), ch.lfsr, (total / th as int) as nat)
            &&& after.timer == total % th as int
            &&& out == after.output_volume
            &&& -15 <= out <= 15
        }),
{
    let th = noise_threshold(ch.divisor_code, ch.shift_clock_frequency);
    let tt = wrap32(ch.timer, cycles);
    assert(tt == ch.timer + cycles);
    lemma_ticks_are_division(tt, th);
}

} // verus!
