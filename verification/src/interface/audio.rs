//! The arithmetic of the audio queue: how many frames to buffer for a sample rate, how a batch
//! of new frames is trimmed into the bounded queue, and when playback has to wait or pause.
use vstd::prelude::*;
use std::collections::VecDeque;

verus! {

pub const DEFAULT_SAMPLE_RATE: u32 = 48_000;
pub const TARGET_BUFFER_MS: u32 = 60;
pub const MAX_BUFFER_MS: u32 = 150;
pub const MIN_BUFFER_FRAMES: usize = 256;
pub const AUDIO_READ_BATCH_FRAMES: usize = 256;

/// `sample_rate * ms / 1000`, the frames that `ms` milliseconds hold (0 for a zero rate or time).
pub open spec fn frames_for_ms(sample_rate: u32, ms: u32) -> int {
    if sample_rate == 0 || ms == 0 { 0 } else { (sample_rate as int * ms as int) / 1000 }
}

/// Number of audio frames needed to hold `ms` milliseconds at `sample_rate` Hz.
pub fn buffer_frames_for_ms(sample_rate: u32, ms: u32) -> (r: usize)
    requires
        frames_for_ms(sample_rate, ms) <= usize::MAX,
    ensures
        r == frames_for_ms(sample_rate, ms),
{
    if sample_rate == 0 || ms == 0 {
        return 0;
    }
    assert(sample_rate as int * ms as int <= 0xFFFF_FFFF * 0xFFFF_FFFF) by (nonlinear_arith)
        requires sample_rate <= 0xFFFF_FFFF, ms <= 0xFFFF_FFFF;
    let prod: u64 = sample_rate as u64 * ms as u64;
    (prod / 1000) as usize
}

pub open spec fn max_of(a: int, b: int) -> int {
    if a >= b { a } else { b }
}

/// The frames the queue aims to hold before playback starts: 60 ms, at least 256.
pub open spec fn target_frames_spec(sample_rate: u32) -> int {
    max_of(frames_for_ms(sample_rate, TARGET_BUFFER_MS), MIN_BUFFER_FRAMES as int)
}

/// The most frames the queue keeps: 150 ms, at least twice the target and at least 256.
pub open spec fn max_frames_spec(sample_rate: u32) -> int {
    max_of(max_of(frames_for_ms(sample_rate, MAX_BUFFER_MS), 2 * target_frames_spec(sample_rate)),
        MIN_BUFFER_FRAMES as int)
}

proof fn lemma_frames_bound(sample_rate: u32, ms: u32)
    requires
        ms <= MAX_BUFFER_MS,
    ensures
        0 <= frames_for_ms(sample_rate, ms) <= 700_000_000int,
{
    if sample_rate != 0 && ms != 0 {
        assert(sample_rate as int * ms as int <= 0xFFFF_FFFF * 150) by (nonlinear_arith)
            requires sample_rate <= 0xFFFF_FFFF, ms <= 150;
        assert((sample_rate as int * ms as int) / 1000 <= 700_000_000int) by (nonlinear_arith)
            requires sample_rate as int * ms as int <= 0xFFFF_FFFF * 150;
    }
}

/// The target queue length for `sample_rate`.
pub fn target_buffer_frames(sample_rate: u32) -> (r: usize)
    ensures
        r == target_frames_spec(sample_rate),
{
    proof { lemma_frames_bound(sample_rate, TARGET_BUFFER_MS); }
    let frames = buffer_frames_for_ms(sample_rate, TARGET_BUFFER_MS);
    if frames > MIN_BUFFER_FRAMES { frames } else { MIN_BUFFER_FRAMES }
}

/// The queue bound for `sample_rate`.
pub fn max_buffer_frames(sample_rate: u32) -> (r: usize)
    ensures
        r == max_frames_spec(sample_rate),
        r >= target_frames_spec(sample_rate),
{
    proof {
        lemma_frames_bound(sample_rate, MAX_BUFFER_MS);
        lemma_frames_bound(sample_rate, TARGET_BUFFER_MS);
    }
    let target = target_buffer_frames(sample_rate);
    let frames = buffer_frames_for_ms(sample_rate, MAX_BUFFER_MS);
    let doubled = target * 2;
    let m = if frames > doubled { frames } else { doubled };
    if m > MIN_BUFFER_FRAMES { m } else { MIN_BUFFER_FRAMES }
}

/// How a batch of `incoming` new frames enters a queue of `queued` frames bounded by `max`:
/// the oldest frames of the batch are dropped, then the oldest queued frames, so that at most
/// `max` remain. `ready` says whether the queue plus the frames the player has staged reach
/// `target`, the point at which playback may start.
pub struct EnqueuePlan {
    pub drop_incoming: usize,
    pub drop_queued: usize,
    pub ready: bool,
}

/// Plans the insertion of `incoming` frames into a queue of `queued` frames.
pub fn plan_enqueue(queued: usize, incoming: usize, staged: usize, max: usize, target: usize) -> (p: EnqueuePlan)
    requires
        queued <= max,
        max as int + staged as int <= usize::MAX,
    ensures
        p.drop_incoming == (if incoming > max { incoming - max } else { 0 }),
        ({
            let kept = incoming - p.drop_incoming;
            &&& p.drop_queued == (if queued + kept > max { queued + kept - max } else { 0 })
            &&& p.drop_queued <= queued
            &&& queued - p.drop_queued + kept <= max
            &&& p.ready == (queued - p.drop_queued + kept + staged >= target)
        }),
{
    let drop_incoming = if incoming > max { incoming - max } else { 0 };
    let kept = incoming - drop_incoming;
    let drop_queued = if kept > max - queued { kept - (max - queued) } else { 0 };
    let len = queued - drop_queued + kept;
    EnqueuePlan { drop_incoming, drop_queued, ready: len + staged >= target }
}

/// Frames still to be played before the queue falls below `target`: zero when it already has.
pub fn frames_until_refill(buffered: usize, target: usize) -> (r: usize)
    requires
        buffered as int - target as int + 1 <= usize::MAX,
    ensures
        buffered < target ==> r == 0,
        buffered >= target ==> r == buffered - target + 1,
{
    if buffered < target {
        return 0;
    }
    buffered - target + 1
}

/// Whether fewer than `target` frames are buffered.
pub fn needs_refill(buffered: usize, target: usize) -> (r: bool)
    ensures
        r == (buffered < target),
{
    buffered < target
}

/// Whether new underruns (`underruns` differs from the `handled` count) call for pausing
/// playback until the queue refills; returns the new handled count with the decision.
pub fn underrun_recovery(underruns: u64, handled: u64, buffered: usize, target: usize) -> (r: (u64, bool))
    ensures
        r.0 == underruns,
        r.1 == (underruns != handled && buffered < target),
{
    if underruns == handled {
        return (handled, false);
    }
    (underruns, needs_refill(buffered, target))
}


/// The player side of the audio queue: it takes frames from the shared queue in batches of
/// up to 256, hands out their left and right samples in turn, and when the queue has run dry
/// repeats a fading copy of the last frame, counting each such frame as an underrun.
pub struct RingSource {
    pub staged: VecDeque<[i16; 2]>,
    pub sample_rate: u32,
    pub last_frame: [i16; 2],
    pub pending_frame: Option<[i16; 2]>,
    pub pending_index: u8,
    pub underrun_frames: u64,
}

/// The player state the next sample depends on.
pub struct RingView {
    pub staged: Seq<[i16; 2]>,
    pub last_frame: [i16; 2],
    pub pending_frame: Option<[i16; 2]>,
    pub pending_index: u8,
    pub underrun_frames: u64,
}

impl RingSource {
    pub open spec fn view_of(&self) -> RingView {
        RingView {
            staged: self.staged@,
            last_frame: self.last_frame,
            pending_frame: self.pending_frame,
            pending_index: self.pending_index,
            underrun_frames: self.underrun_frames,
        }
    }
}

/// How many frames the player moves from a queue of `queued` frames when its batch is empty.
pub open spec fn batch_len(staged: Seq<[i16; 2]>, queued: int) -> int {
    if staged.len() == 0 {
        if queued < AUDIO_READ_BATCH_FRAMES { queued } else { AUDIO_READ_BATCH_FRAMES as int }
    } else {
        0
    }
}

/// The player after handing out one sample, the queue after it, and the sample. `faded` is
/// the frame played when nothing is left.
pub open spec fn ring_next_spec(r: RingView, queue: Seq<[i16; 2]>, faded: [i16; 2])
    -> (RingView, Seq<[i16; 2]>, i16)
{
    match r.pending_frame {
        Some(frame) => if r.pending_index == 0 {
            (RingView { pending_index: 1, ..r }, queue, frame[0])
        } else {
            (RingView { pending_index: 0, pending_frame: None, ..r }, queue, frame[1])
        },
        None => {
            let n = batch_len(r.staged, queue.len() as int);
            let staged = r.staged + queue.take(n);
            let rest = queue.skip(n);
            if staged.len() > 0 {
                let frame = staged[0];
                (RingView { staged: staged.drop_first(), last_frame: frame, pending_frame: Some(frame),
                    pending_index: 1, ..r }, rest, frame[0])
            } else {
                (RingView { staged, last_frame: faded, pending_frame: Some(faded), pending_index: 1,
                    underrun_frames: ((r.underrun_frames as int + 1) % 0x1_0000_0000_0000_0000) as u64, ..r },
                    rest, faded[0])
            }
        },
    }
}

impl RingSource {
    pub fn new(sample_rate: u32) -> (s: Self)
        ensures
            s.staged@.len() == 0,
            s.sample_rate == sample_rate,
            s.last_frame == [0i16, 0i16],
            s.pending_frame is None,
            s.pending_index == 0,
            s.underrun_frames == 0,
    {
        RingSource {
            staged: VecDeque::new(),
            sample_rate,
            last_frame: [0, 0],
            pending_frame: None,
            pending_index: 0,
            underrun_frames: 0,
        }
    }

    /// The next sample, taking frames from `queue` as needed; `faded` is the frame to play if
    /// none is left. Always returns a sample.
    pub fn next(&mut self, queue: &mut VecDeque<[i16; 2]>, faded: [i16; 2]) -> (r: Option<i16>)
        ensures
            ({
                let (v, q, sample) = ring_next_spec(old(self).view_of(), old(queue)@, faded);
                &&& final(self).view_of() == v
                &&& final(queue)@ == q
                &&& r == Some(sample)
                &&& final(self).sample_rate == old(self).sample_rate
            }),
    {
        if let Some(frame) = self.pending_frame {
            if self.pending_index == 0 {
                self.pending_index = 1;
                return Some(frame[0]);
            } else {
                self.pending_index = 0;
                self.pending_frame = None;
                return Some(frame[1]);
            }
        }
        let ghost staged0 = self.staged@;
        let ghost queue0 = queue@;
        if self.staged.len() == 0 {
            let count = if queue.len() < AUDIO_READ_BATCH_FRAMES { queue.len() } else { AUDIO_READ_BATCH_FRAMES };
            let mut moved: usize = 0;
            while moved < count
                invariant
                    count <= queue0.len(),
                    moved <= count,
                    self.staged@ == queue0.take(moved as int),
                    queue@ == queue0.skip(moved as int),
                    self.pending_frame == old(self).pending_frame,
                    self.pending_index == old(self).pending_index,
                    self.last_frame == old(self).last_frame,
                    self.underrun_frames == old(self).underrun_frames,
                    self.sample_rate == old(self).sample_rate,
                decreases count - moved,
            {
                let frame = queue.pop_front();
                assert(queue0.skip(moved as int)[0] == queue0[moved as int]);
                if let Some(f) = frame {
                    self.staged.push_back(f);
                }
                moved = moved + 1;
                assert(self.staged@ =~= queue0.take(moved as int));
                assert(queue@ =~= queue0.skip(moved as int));
            }
            assert(staged0 + queue0.take(count as int) =~= self.staged@);
        } else {
            assert(staged0 + queue0.take(0) =~= staged0);
            assert(queue0.skip(0) =~= queue0);
        }
        match self.staged.pop_front() {
            Some(frame) => {
                self.last_frame = frame;
                self.pending_frame = Some(frame);
                self.pending_index = 1;
                Some(frame[0])
            },
            None => {
                self.underrun_frames = self.underrun_frames.wrapping_add(1);
                self.last_frame = faded;
                self.pending_frame = Some(faded);
                self.pending_index = 1;
                Some(faded[0])
            },
        }
    }
}

} // verus!
