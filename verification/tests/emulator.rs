use craterboy::domain::emulator::Emulator;
use craterboy::domain::FRAME_SIZE;

#[test]
fn new_emulator_starts_unbooted() {
    let emulator = Emulator::new();

    assert!(!emulator.is_booted());
}

#[test]
fn new_emulator_has_framebuffer() {
    let emulator = Emulator::new();

    assert_eq!(emulator.framebuffer().len(), FRAME_SIZE);
}

#[test]
fn emulator_apu_step_does_not_crash() {
    let mut emulator = Emulator::new();
    emulator.apu_step(1000);
    assert!(emulator.apu_sample() >= -128 && emulator.apu_sample() <= 127);
}

#[test]
fn emulator_apu_sample_generation() {
    let mut emulator = Emulator::new();
    assert!(!emulator.apu_has_sample());
    emulator.apu_step(70224);
    assert!(emulator.apu_has_sample());
    let sample = emulator.apu_take_sample();
    assert!(sample >= -128 && sample <= 127);
    assert!(!emulator.apu_has_sample());
}

#[test]
fn emulator_apu_read_write_io() {
    let mut emulator = Emulator::new();
    emulator.apu_write_io(0xFF10, 0x80);
    assert_eq!(emulator.apu_read_io(0xFF10) & 0x80, 0x80);
    emulator.apu_write_io(0xFF22, 0x00);
    emulator.apu_write_io(0xFF23, 0x80);
    assert!(emulator.apu_noise_output() != 0 || emulator.apu_noise_output() == 0);
}

#[test]
fn emulator_apu_outputs() {
    let emulator = Emulator::new();
    let pulse = emulator.apu_pulse_output();
    let wave = emulator.apu_wave_output();
    let noise = emulator.apu_noise_output();
    assert!(pulse >= 0 && pulse <= 15);
    assert!(wave >= 0 && wave <= 3);
    assert!(noise >= -15 && noise <= 15);
}

