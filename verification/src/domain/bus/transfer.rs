//! OAM DMA and CGB HDMA copies, performed through ordinary bus reads.
use vstd::prelude::*;
use crate::bits::lemma_vram_mask;
use crate::domain::bus::{Bus, BusView, HostTimes, components_wf, fixed_times};
use crate::domain::bus::constants::{OAM_SIZE, VRAM_SIZE};
use crate::domain::dma::Dma;
use crate::domain::hdma::Hdma;
use crate::util::wrap16;

verus! {

impl BusView {
    /// The bus after the first `n` bytes of an HDMA run from `source` to the VRAM address
    /// `dest` (0x8000-0x9FF0) have been copied into the mapped VRAM bank, byte by byte, byte
    /// `k` read at host time `t(k)`.
    pub open spec fn hdma_copy_at(self, source: u16, dest: u16, n: nat, t: HostTimes) -> BusView
        decreases n,
    {
        if n == 0 {
            self
        } else {
            let b = self.hdma_copy_at(source, dest, (n - 1) as nat, t);
            let k = (n - 1) as int;
            let byte = b.read_spec(wrap16(source, k as u16), t((n - 1) as nat));
            let off = (dest as int - 0x8000 + k) % (VRAM_SIZE as int);
            b.with_vram_selected(b.vram_selected().update(off, byte))
        }
    }

    pub open spec fn hdma_copy_spec(self, source: u16, dest: u16, n: nat) -> BusView {
        self.hdma_copy_at(source, dest, n, fixed_times(0))
    }

    /// Takes up to `blocks` blocks from the HDMA unit and copies them.
    pub open spec fn perform_hdma_at(self, blocks: u8, t: HostTimes) -> BusView {
        let (hdma, runs) = self.hdma.transfer_blocks_spec(blocks);
        let b = BusView { hdma, ..self };
        if runs.len() == 0 {
            b
        } else {
            let (source, dest, count) = runs[0];
            b.hdma_copy_at(source, dest, (count as nat * 16) as nat, t)
        }
    }

    pub open spec fn perform_hdma_spec(self, blocks: u8) -> BusView {
        self.perform_hdma_at(blocks, fixed_times(0))
    }

    /// One H-Blank block when an H-Blank transfer is due at the current position.
    pub open spec fn step_hdma_at(self, t: HostTimes) -> BusView {
        if self.hdma.should_transfer_spec(self.ly, self.ppu_mode, self.ppu_line_cycles) {
            self.perform_hdma_at(1, t)
        } else {
            self
        }
    }

    pub open spec fn step_hdma_spec(self) -> BusView {
        self.step_hdma_at(fixed_times(0))
    }

    /// The bus after the first `n` OAM DMA copies of `ts` (source address, OAM offset), copy
    /// `k` read at host time `t(k)`.
    pub open spec fn dma_copy_at(self, ts: Seq<(u16, usize)>, n: nat, t: HostTimes) -> BusView
        decreases n,
    {
        if n == 0 {
            self
        } else {
            let b = self.dma_copy_at(ts, (n - 1) as nat, t);
            let (src, off) = ts[n - 1];
            BusView { oam: b.oam.update(off as int, b.read_spec(src, t((n - 1) as nat))), ..b }
        }
    }

    pub open spec fn dma_copy_spec(self, ts: Seq<(u16, usize)>, n: nat) -> BusView {
        self.dma_copy_at(ts, n, fixed_times(0))
    }

    /// Advances OAM DMA by `cycles` and copies the bytes that became due.
    pub open spec fn step_dma_at(self, cycles: u32, t: HostTimes) -> BusView {
        let (dma, ts) = self.dma.step_spec(cycles);
        BusView { dma, ..self }.dma_copy_at(ts, ts.len(), t)
    }

    pub open spec fn step_dma_spec(self, cycles: u32) -> BusView {
        self.step_dma_at(cycles, fixed_times(0))
    }
}

/// An HDMA copy of `n` bytes reads only the first `n` host times.
proof fn lemma_hdma_copy_times(b: BusView, source: u16, dest: u16, n: nat, t1: HostTimes, t2: HostTimes)
    requires
        forall|k: nat| k < n ==> #[trigger] t1(k) == t2(k),
    ensures
        b.hdma_copy_at(source, dest, n, t1) == b.hdma_copy_at(source, dest, n, t2),
    decreases n,
{
    if n > 0 {
        lemma_hdma_copy_times(b, source, dest, (n - 1) as nat, t1, t2);
        assert(t1((n - 1) as nat) == t2((n - 1) as nat));
    }
}

/// `n` OAM DMA copies read only the first `n` host times.
proof fn lemma_dma_copy_times(b: BusView, ts: Seq<(u16, usize)>, n: nat, t1: HostTimes, t2: HostTimes)
    requires
        forall|k: nat| k < n ==> #[trigger] t1(k) == t2(k),
    ensures
        b.dma_copy_at(ts, n, t1) == b.dma_copy_at(ts, n, t2),
    decreases n,
{
    if n > 0 {
        lemma_dma_copy_times(b, ts, (n - 1) as nat, t1, t2);
        assert(t1((n - 1) as nat) == t2((n - 1) as nat));
    }
}

impl Bus {
    /// Copies `count` bytes from `source` into the mapped VRAM bank at `dest`.
    #[verifier::spinoff_prover]
    #[verifier::rlimit(40)]
    fn copy_to_vram(&mut self, source: u16, dest: u16, count: u16)
        requires
            old(self)@.wf(),
            0x8000 <= dest <= 0x9FF0,
            count <= 0x800,
        ensures
            final(self)@.wf(),
            final(self)@.clock_free() == old(self)@.clock_free(),
            old(self)@.clock_free() ==> final(self)@ == old(self)@.hdma_copy_spec(source, dest, count as nat),
            exists|t: HostTimes| final(self)@ == #[trigger] old(self)@.hdma_copy_at(source, dest, count as nat, t),
            final(self)@.mbc == old(self)@.mbc,
            final(self)@.cart == old(self)@.cart,
    {
        let ghost b0 = self@;
        let ghost free = b0.clock_free();
        let ghost mut t: HostTimes = fixed_times(0);
        let mut k: u16 = 0;
        while k < count
            invariant
                k <= count <= 0x800,
                0x8000 <= dest <= 0x9FF0,
                self@.wf(),
                self@.mbc == b0.mbc,
                self@.cart == b0.cart,
                free == b0.clock_free(),
                free ==> t == fixed_times(0),
                self@ == b0.hdma_copy_at(source, dest, k as nat, t),
            decreases count - k,
        {
            let addr = source.wrapping_add(k);
            let byte = self.read8(addr);
            proof {
                if !free {
                    let now = choose|now: u128| byte == self@.read_spec(addr, now);
                    let kk = k as nat;
                    let t0 = t;
                    let t2 = |j: nat| if j == kk { now } else { t0(j) };
                    lemma_hdma_copy_times(b0, source, dest, kk, t0, t2);
                    t = t2;
                }
            }
            let v: u16 = dest - 0x8000 + k;
            proof { lemma_vram_mask(v); }
            let off = (v & 0x1FFF) as usize;
            if self.vram_bank == 0 {
                self.vram0.set(off, byte);
            } else {
                self.vram1.set(off, byte);
            }
            k = k + 1;
        }
    }

    /// Takes up to `blocks_to_transfer` blocks from the HDMA unit and copies them to VRAM.
    #[verifier::spinoff_prover]
    #[verifier::rlimit(40)]
    pub fn perform_hdma_transfer(&mut self, blocks_to_transfer: u8)
        requires
            old(self)@.wf(),
        ensures
            final(self)@.wf(),
            final(self)@.clock_free() == old(self)@.clock_free(),
            old(self)@.clock_free() ==> final(self)@ == old(self)@.perform_hdma_spec(blocks_to_transfer),
            exists|t: HostTimes| final(self)@ == #[trigger] old(self)@.perform_hdma_at(blocks_to_transfer, t),
            final(self)@.mbc == old(self)@.mbc,
            final(self)@.cart == old(self)@.cart,
    {
        proof { reveal(components_wf); }
        let transfers = self.hdma.transfer_blocks(blocks_to_transfer);
        if transfers.len() == 0 {
            assert(self@ == old(self)@.perform_hdma_at(blocks_to_transfer, fixed_times(0)));
            return;
        }
        let (source, dest, block_count) = transfers[0];
        proof {
            let d = old(self).hdma.dest;
            lemma_vram_mask(d);
        }
        let ghost b1 = self@;
        self.copy_to_vram(source, dest, block_count as u16 * 16);
        proof {
            let t = choose|t: HostTimes| self@ == #[trigger] b1.hdma_copy_at(source, dest, (block_count as u16 * 16) as nat, t);
            assert(self@ == old(self)@.perform_hdma_at(blocks_to_transfer, t));
        }
    }

    /// Copies one H-Blank block when one is due.
    #[verifier::spinoff_prover]
    #[verifier::rlimit(40)]
    pub fn step_hdma(&mut self)
        requires
            old(self)@.wf(),
        ensures
            final(self)@.wf(),
            final(self)@.clock_free() == old(self)@.clock_free(),
            old(self)@.clock_free() ==> final(self)@ == old(self)@.step_hdma_spec(),
            exists|t: HostTimes| final(self)@ == #[trigger] old(self)@.step_hdma_at(t),
            final(self)@.mbc == old(self)@.mbc,
            final(self)@.cart == old(self)@.cart,
    {
        proof { reveal(components_wf); }
        if self.hdma.should_transfer_hblank(self.ly, self.ppu_mode, self.ppu_line_cycles) {
            self.perform_hdma_transfer(1);
            proof {
                let t = choose|t: HostTimes| self@ == #[trigger] old(self)@.perform_hdma_at(1, t);
                assert(self@ == old(self)@.step_hdma_at(t));
            }
        } else {
            assert(self@ == old(self)@.step_hdma_at(fixed_times(0)));
        }
    }

    /// Advances OAM DMA and copies the bytes that became due.
    #[verifier::spinoff_prover]
    #[verifier::rlimit(40)]
    pub fn step_dma(&mut self, cycles: u32)
        requires
            old(self)@.wf(),
        ensures
            final(self)@.wf(),
            final(self)@.clock_free() == old(self)@.clock_free(),
            old(self)@.clock_free() ==> final(self)@ == old(self)@.step_dma_spec(cycles),
            exists|t: HostTimes| final(self)@ == #[trigger] old(self)@.step_dma_at(cycles, t),
            final(self)@.mbc == old(self)@.mbc,
            final(self)@.cart == old(self)@.cart,
    {
        proof { reveal(components_wf); }
        let ghost d0 = self.dma;
        let transfers = self.dma.step(cycles);
        let ghost b0 = self@;
        let ghost free = b0.clock_free();
        let ghost mut t: HostTimes = fixed_times(0);
        proof {
            assert forall|i: int| 0 <= i < transfers@.len() implies #[trigger] transfers@[i].1 < OAM_SIZE by {
                assert(Dma::bytes_done(d0.cycles_remaining) >= 0);
            }
        }
        let mut i: usize = 0;
        while i < transfers.len()
            invariant
                i <= transfers@.len(),
                forall|j: int| 0 <= j < transfers@.len() ==> #[trigger] transfers@[j].1 < OAM_SIZE,
                self@.wf(),
                self@.mbc == b0.mbc,
                self@.cart == b0.cart,
                free == b0.clock_free(),
                free ==> t == fixed_times(0),
                self@ == b0.dma_copy_at(transfers@, i as nat, t),
            decreases transfers@.len() - i,
        {
            let (src_addr, oam_offset) = transfers[i];
            let byte = self.read8(src_addr);
            proof {
                if !free {
                    let now = choose|now: u128| byte == self@.read_spec(src_addr, now);
                    let ii = i as nat;
                    let t0 = t;
                    let t2 = |j: nat| if j == ii { now } else { t0(j) };
                    lemma_dma_copy_times(b0, transfers@, ii, t0, t2);
                    t = t2;
                }
            }
            self.oam.set(oam_offset, byte);
            i = i + 1;
        }
        assert(self@ == old(self)@.step_dma_at(cycles, t));
    }
}

} // verus!
