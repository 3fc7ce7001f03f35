//! Small spec-level helpers shared by the hardware models.
use vstd::prelude::*;

verus! {

/// `f` applied `n` times to `x`.
pub open spec fn iterate<T>(f: spec_fn(T) -> T, x: T, n: nat) -> T
    decreases n,
{
    if n == 0 {
        x
    } else {
        f(iterate(f, x, (n - 1) as nat))
    }
}

/// `a + b` wrapped to 32 bits, as `u32::wrapping_add` computes it.
pub open spec fn wrap32(a: u32, b: u32) -> u32 {
    ((a as int + b as int) % 0x1_0000_0000) as u32
}

/// `a + b` wrapped to 16 bits, as `u16::wrapping_add` computes it.
pub open spec fn wrap16(a: u16, b: u16) -> u16 {
    ((a as int + b as int) % 0x1_0000) as u16
}

/// `a - b` wrapped to 16 bits, as `u16::wrapping_sub` computes it.
pub open spec fn wrap_sub16(a: u16, b: u16) -> u16 {
    ((a as int - b as int + 0x1_0000) % 0x1_0000) as u16
}

} // verus!

verus! {

/// How many times `period` can be subtracted from `timer` before it drops below `period`.
pub open spec fn ticks_due(timer: u32, period: u32) -> nat
    decreases timer,
{
    if period > 0 && timer >= period {
        1 + ticks_due((timer - period) as u32, period)
    } else {
        0
    }
}

/// What is left of `timer` after every whole `period` has been subtracted.
pub open spec fn ticks_left(timer: u32, period: u32) -> u32
    decreases timer,
{
    if period > 0 && timer >= period {
        ticks_left((timer - period) as u32, period)
    } else {
        timer
    }
}

pub proof fn lemma_ticks_left_below(timer: u32, period: u32)
    requires
        period > 0,
    ensures
        ticks_left(timer, period) < period,
        ticks_left(timer, period) <= timer,
    decreases timer,
{
    if timer >= period {
        lemma_ticks_left_below((timer - period) as u32, period);
    }
}

} // verus!

verus! {

/// Counting whole periods in `t + u` is the same as counting them in `t`, then in what was
/// left of `t` plus `u`.
pub proof fn lemma_ticks_split(t: u32, u: u32, period: u32)
    requires
        period > 0,
        t as int + u as int <= u32::MAX,
    ensures
        ticks_due((t + u) as u32, period)
            == ticks_due(t, period) + ticks_due((ticks_left(t, period) + u) as u32, period),
        ticks_left((t + u) as u32, period) == ticks_left((ticks_left(t, period) + u) as u32, period),
    decreases t,
{
    lemma_ticks_left_below(t, period);
    if t >= period {
        lemma_ticks_split((t - period) as u32, u, period);
        assert((t + u - period) as u32 == ((t - period) as u32 + u) as u32);
    }
}

/// Applying `f` `a` times and then `b` times is applying it `a + b` times.
pub proof fn lemma_iterate_add<T>(f: spec_fn(T) -> T, x: T, a: nat, b: nat)
    ensures
        iterate(f, iterate(f, x, a), b) == iterate(f, x, a + b),
    decreases b,
{
    if b > 0 {
        lemma_iterate_add(f, x, a, (b - 1) as nat);
    }
}

} // verus!

verus! {

/// Counting whole periods is division: `ticks_due` is the quotient and `ticks_left` the
/// remainder.
pub proof fn lemma_ticks_are_division(timer: u32, period: u32)
    requires
        period > 0,
    ensures
        ticks_due(timer, period) == timer as int / period as int,
        ticks_left(timer, period) == timer as int % period as int,
    decreases timer,
{
    if timer >= period {
        lemma_ticks_are_division((timer - period) as u32, period);
        let t = timer as int - period as int;
        let p = period as int;
        assert((t + p) / p == t / p + 1 && (t + p) % p == t % p) by (nonlinear_arith)
            requires t >= 0, p > 0;
    } else {
        let x = timer as int;
        let p = period as int;
        assert(x / p == 0 && x % p == x) by (nonlinear_arith)
            requires 0 <= x < p;
    }
}

} // verus!
