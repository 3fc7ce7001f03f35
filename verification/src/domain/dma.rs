//! OAM DMA: copies 160 bytes from `value << 8` into OAM at 4 cycles per byte.
use vstd::prelude::*;
use crate::bits::lemma_byte_word;

verus! {

pub const OAM_SIZE: usize = 0xA0;
pub const DMA_CYCLES_PER_BYTE: u32 = 4;
pub const DMA_TOTAL_CYCLES: u32 = 640;

#[derive(Debug)]
pub struct Dma {
    /// Last value written to the DMA register (source address >> 8).
    pub dma: u8,
    pub active: bool,
    pub cycles_remaining: u32,
    pub bytes_transferred: u32,
    pub base: u16,
}

/// The (source address, OAM offset) pairs for OAM bytes `from..to`.
pub open spec fn dma_transfers(base: u16, from: int, to: int) -> Seq<(u16, usize)> {
    Seq::new(
        if to > from { (to - from) as nat } else { 0 },
        |k: int| (((base as int + from + k) % 65536) as u16, (from + k) as usize),
    )
}

impl Dma {
    pub open spec fn wf(&self) -> bool {
        &&& self.cycles_remaining <= DMA_TOTAL_CYCLES
        &&& self.bytes_transferred <= OAM_SIZE
    }

    /// Bytes copied so far, as implied by the elapsed cycles.
    pub open spec fn bytes_done(remaining: u32) -> int {
        (DMA_TOTAL_CYCLES - remaining) / (DMA_CYCLES_PER_BYTE as int)
    }

    pub open spec fn step_spec(self, cycles: u32) -> (Dma, Seq<(u16, usize)>) {
        if !self.active {
            (self, Seq::empty())
        } else {
            let consumed = if cycles < self.cycles_remaining { cycles } else { self.cycles_remaining };
            let remaining = (self.cycles_remaining - consumed) as u32;
            let before = Self::bytes_done(self.cycles_remaining);
            let after = Self::bytes_done(remaining);
            let capped = if after < OAM_SIZE { after } else { OAM_SIZE as int };
            let done = remaining == 0 || capped >= OAM_SIZE;
            (
                Dma {
                    cycles_remaining: if done { 0 } else { remaining },
                    bytes_transferred: capped as u32,
                    active: !done,
                    ..self
                },
                dma_transfers(self.base, before, capped),
            )
        }
    }

    pub fn new() -> (d: Self)
        ensures
            d.dma == 0xFF && !d.active && d.cycles_remaining == 0 && d.bytes_transferred == 0
                && d.base == 0,
            d.wf(),
    {
        Self::new_with_value(0xFF)
    }

    /// An idle DMA unit whose register reads back `value`.
    pub fn new_with_value(value: u8) -> (d: Self)
        ensures
            d.dma == value && !d.active && d.cycles_remaining == 0 && d.bytes_transferred == 0
                && d.base == 0,
            d.wf(),
    {
        Dma { dma: value, active: false, cycles_remaining: 0, bytes_transferred: 0, base: 0 }
    }

    pub fn dma(&self) -> (r: u8)
        ensures r == self.dma,
    {
        self.dma
    }

    pub fn is_active(&self) -> (r: bool)
        ensures r == self.active,
    {
        self.active
    }

    pub fn bytes_transferred(&self) -> (r: u32)
        ensures r == self.bytes_transferred,
    {
        self.bytes_transferred
    }

    /// Starts a transfer from `value << 8`.
    pub fn write_dma(&mut self, value: u8)
        ensures
            final(self).dma == value,
            final(self).active,
            final(self).cycles_remaining == DMA_TOTAL_CYCLES,
            final(self).bytes_transferred == 0,
            final(self).base == value as u16 * 256,
            final(self).wf(),
    {
        self.dma = value;
        self.active = true;
        self.cycles_remaining = DMA_TOTAL_CYCLES;
        self.bytes_transferred = 0;
        proof { lemma_byte_word(value); }
        self.base = (value as u16) << 8;
    }

    /// Advances the transfer and returns the bytes that became due, as
    /// (source address, OAM offset) pairs in increasing order.
    pub fn step(&mut self, cycles: u32) -> (transfers: Vec<(u16, usize)>)
        requires
            old(self).wf(),
        ensures
            (*final(self), transfers@) == old(self).step_spec(cycles),
            final(self).wf(),
    {
        if !self.active {
            return Vec::new();
        }
        let previous_remaining = self.cycles_remaining;
        let consumed = if cycles < previous_remaining { cycles } else { previous_remaining };
        self.cycles_remaining = previous_remaining - consumed;
        let elapsed_before = DMA_TOTAL_CYCLES - previous_remaining;
        let elapsed_after = DMA_TOTAL_CYCLES - self.cycles_remaining;
        let bytes_before = elapsed_before / DMA_CYCLES_PER_BYTE;
        let bytes_after = elapsed_after / DMA_CYCLES_PER_BYTE;
        let end: u32 = if bytes_after < OAM_SIZE as u32 { bytes_after } else { OAM_SIZE as u32 };
        let mut transfers: Vec<(u16, usize)> = Vec::new();
        let mut i = bytes_before;
        while i < end
            invariant
                bytes_before <= end <= OAM_SIZE,
                bytes_before <= i <= end || (end < bytes_before && i == bytes_before),
                transfers@ == dma_transfers(self.base, bytes_before as int, i as int),
            decreases end - i,
        {
            let src_addr = self.base.wrapping_add(i as u16);
            let oam_offset = i as usize;
            transfers.push((src_addr, oam_offset));
            assert(transfers@ =~= dma_transfers(self.base, bytes_before as int, i + 1));
            i = i + 1;
        }
        assert(transfers@ =~= dma_transfers(self.base, bytes_before as int, end as int));
        self.bytes_transferred = end;
        if self.cycles_remaining == 0 || self.bytes_transferred >= OAM_SIZE as u32 {
            self.active = false;
            self.cycles_remaining = 0;
        }
        transfers
    }

    pub fn apply_post_boot_state(&mut self)
        ensures
            final(self).dma == 0xFF && !final(self).active && final(self).cycles_remaining == 0
                && final(self).bytes_transferred == 0 && final(self).base == 0,
    {
        self.dma = 0xFF;
        self.active = false;
        self.cycles_remaining = 0;
        self.bytes_transferred = 0;
        self.base = 0;
    }
}

/// Law: a started transfer delivers every OAM byte exactly once, in order: running it for
/// the full 640 cycles in one step yields the 160 pairs (base + i, i) and ends it.
pub proof fn lemma_dma_full_transfer(d: Dma, value: u8)
    requires
        d.active,
        d.cycles_remaining == DMA_TOTAL_CYCLES,
        d.base == value as u16 * 256,
    ensures
        ({
            let (after, transfers) = d.step_spec(DMA_TOTAL_CYCLES);
            &&& transfers.len() == OAM_SIZE
            &&& forall|i: int| 0 <= i < OAM_SIZE ==> #[trigger] transfers[i]
                == ((value as int * 256 + i) as u16, i as usize)
            &&& !after.active
            &&& after.bytes_transferred == OAM_SIZE
        }),
{
    let (after, transfers) = d.step_spec(DMA_TOTAL_CYCLES);
    assert forall|i: int| 0 <= i < OAM_SIZE implies #[trigger] transfers[i]
        == ((value as int * 256 + i) as u16, i as usize) by {
        assert(value as int * 256 + i < 65536);
    }
}

/// The transfer after the steps `steps` in turn, with every pair they returned, in order.
pub open spec fn dma_run_spec(d: Dma, steps: Seq<u32>) -> (Dma, Seq<(u16, usize)>)
    decreases steps.len(),
{
    if steps.len() == 0 {
        (d, Seq::empty())
    } else {
        let (d1, out1) = dma_run_spec(d, steps.drop_last());
        let (d2, out2) = d1.step_spec(steps.last());
        (d2, out1 + out2)
    }
}

/// The sum of the step sizes.
pub open spec fn cycles_sum(steps: Seq<u32>) -> int
    decreases steps.len(),
{
    if steps.len() == 0 { 0 } else { cycles_sum(steps.drop_last()) + steps.last() }
}

proof fn lemma_transfers_concat(base: u16, a: int, b: int)
    requires
        0 <= a <= b,
    ensures
        dma_transfers(base, 0, a) + dma_transfers(base, a, b) == dma_transfers(base, 0, b),
{
    assert(dma_transfers(base, 0, a) + dma_transfers(base, a, b) =~= dma_transfers(base, 0, b));
}

/// Law: however a started transfer is cut into steps, the pairs the steps return, put
/// together, are the first `min(160, S / 4)` pairs (base + i, i) in order, where `S` is the
/// cycles stepped so far; the transfer is active exactly while `S < 640`.
pub proof fn lemma_dma_steps_in_order(d: Dma, steps: Seq<u32>)
    requires
        d.active,
        d.cycles_remaining == DMA_TOTAL_CYCLES,
        d.bytes_transferred == 0,
    ensures
        ({
            let (after, out) = dma_run_spec(d, steps);
            let s = cycles_sum(steps);
            let n = if s / 4 < OAM_SIZE as int { s / 4 } else { OAM_SIZE as int };
            &&& out == dma_transfers(d.base, 0, n)
            &&& after.bytes_transferred == n
            &&& after.active == (s < DMA_TOTAL_CYCLES)
            &&& after.base == d.base
            &&& after.active ==> after.cycles_remaining == DMA_TOTAL_CYCLES - s
        }),
    decreases steps.len(),
{
    if steps.len() == 0 {
        assert(dma_transfers(d.base, 0, 0) =~= Seq::<(u16, usize)>::empty());
    } else {
        let init = steps.drop_last();
        lemma_dma_steps_in_order(d, init);
        lemma_cycles_sum_nonneg(init);
        let t = cycles_sum(init);
        let c = steps.last();
        let (d1, out1) = dma_run_spec(d, init);
        if d1.active {
            let n1 = t / 4;
            let s2 = t + c;
            let n2 = if s2 / 4 < 160 { s2 / 4 } else { 160int };
            assert(Dma::bytes_done(d1.cycles_remaining) == n1);
            lemma_transfers_concat(d.base, n1, n2);
        } else {
            assert(dma_transfers(d.base, 0, 160) + Seq::<(u16, usize)>::empty() =~= dma_transfers(d.base, 0, 160));
        }
    }
}

proof fn lemma_cycles_sum_nonneg(steps: Seq<u32>)
    ensures
        cycles_sum(steps) >= 0,
    decreases steps.len(),
{
    if steps.len() > 0 {
        lemma_cycles_sum_nonneg(steps.drop_last());
    }
}

} // verus!
