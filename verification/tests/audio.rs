use craterboy::domain::FRAME_INTERVAL_NS;
use std::collections::VecDeque;

use craterboy::interface::audio::{
    RingSource, TARGET_BUFFER_MS, buffer_frames_for_ms, frames_until_refill, max_buffer_frames, plan_enqueue,
    target_buffer_frames, underrun_recovery,
};

#[test]
fn ring_source_counts_empty_frames_as_underruns() {
    let mut samples = VecDeque::from([[100, -100]]);
    let mut source = RingSource::new(48_000);

    assert_eq!(source.next(&mut samples, [0, 0]), Some(100));
    assert_eq!(source.staged.len(), 0);
    assert_eq!(source.next(&mut samples, [0, 0]), Some(-100));
    assert_eq!(source.underrun_frames, 0);

    let _ = source.next(&mut samples, [0, 0]);
    assert_eq!(source.underrun_frames, 1);
}

#[test]
fn ring_source_takes_batches_and_fades_on_underrun() {
    let mut samples: VecDeque<[i16; 2]> = (0..300).map(|i| [i as i16, -(i as i16)]).collect();
    let mut source = RingSource::new(48_000);
    assert_eq!(source.next(&mut samples, [0, 0]), Some(0));
    assert_eq!(source.staged.len(), 255);
    assert_eq!(samples.len(), 44);
    assert_eq!(source.next(&mut samples, [0, 0]), Some(0));
    assert_eq!(source.next(&mut samples, [0, 0]), Some(1));
    assert_eq!(source.next(&mut samples, [0, 0]), Some(-1));

    let mut empty = VecDeque::new();
    let mut dry = RingSource::new(48_000);
    assert_eq!(dry.next(&mut empty, [7, -7]), Some(7));
    assert_eq!(dry.next(&mut empty, [9, 9]), Some(-7));
    assert_eq!(dry.last_frame, [7, -7]);
    assert_eq!(dry.underrun_frames, 1);
}

#[test]
fn target_buffer_covers_more_than_one_game_boy_frame() {
    let target = buffer_frames_for_ms(48_000, TARGET_BUFFER_MS);
    let samples_per_frame = 48_000.0 * 70_224.0 / 4_194_304.0;

    assert!(target as f64 > samples_per_frame);
}

#[test]
fn sustained_frame_pacing_does_not_underrun_audio() {
    const CPU_HZ: u128 = 4_194_304;
    const FRAME_CYCLES: u128 = 70_224;
    const SAMPLE_RATE: u128 = 48_000;
    const ONE_SECOND_NS: u128 = 1_000_000_000;

    let target = buffer_frames_for_ms(SAMPLE_RATE as u32, TARGET_BUFFER_MS) as u128;
    let mut queued = 0_u128;
    let mut emulated_sample_phase = 0_u128;
    while queued < target {
        emulated_sample_phase += FRAME_CYCLES * SAMPLE_RATE;
        queued += emulated_sample_phase / CPU_HZ;
        emulated_sample_phase %= CPU_HZ;
    }

    let mut consumed_sample_phase = 0_u128;
    for _ in 0..(60 * 60) {
        consumed_sample_phase += u128::from(FRAME_INTERVAL_NS) * SAMPLE_RATE;
        let consumed = consumed_sample_phase / ONE_SECOND_NS;
        consumed_sample_phase %= ONE_SECOND_NS;
        assert!(queued >= consumed, "audio queue underrun");
        queued -= consumed;

        emulated_sample_phase += FRAME_CYCLES * SAMPLE_RATE;
        queued += emulated_sample_phase / CPU_HZ;
        emulated_sample_phase %= CPU_HZ;
    }
}

#[test]
fn target_and_max_frames_at_48khz() {
    assert_eq!(target_buffer_frames(48_000), 2880);
    assert_eq!(max_buffer_frames(48_000), 7200);
    assert_eq!(target_buffer_frames(1_000), 256);
    assert_eq!(max_buffer_frames(1_000), 512);
    assert_eq!(buffer_frames_for_ms(0, 60), 0);
}

#[test]
fn enqueue_plan_trims_oldest_frames() {
    let plan = plan_enqueue(100, 50, 0, 120, 110);
    assert_eq!(plan.drop_incoming, 0);
    assert_eq!(plan.drop_queued, 30);
    assert!(plan.ready);

    let plan = plan_enqueue(10, 500, 5, 120, 200);
    assert_eq!(plan.drop_incoming, 380);
    assert_eq!(plan.drop_queued, 10);
    assert!(!plan.ready);
}

#[test]
fn refill_wait_starts_at_target() {
    assert_eq!(frames_until_refill(2879, 2880), 0);
    assert_eq!(frames_until_refill(2880, 2880), 1);
    assert_eq!(frames_until_refill(3000, 2880), 121);
}

#[test]
fn underrun_pauses_only_when_new_and_low() {
    assert_eq!(underrun_recovery(3, 3, 0, 10), (3, false));
    assert_eq!(underrun_recovery(4, 3, 0, 10), (4, true));
    assert_eq!(underrun_recovery(4, 3, 20, 10), (4, false));
}
