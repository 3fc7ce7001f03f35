use craterboy::domain::Emulator;
use craterboy::interface::input::{InputState, JoypadButton};

#[test]
fn held_buttons_pull_their_lines_low() {
    let mut input = InputState::new();
    assert_eq!(input.joypad_lines(), (0x0F, 0x0F));
    input.handle_button(JoypadButton::Right, true);
    input.handle_button(JoypadButton::A, true);
    assert_eq!(input.joypad_lines(), (0x0E, 0x0E));
    input.handle_button(JoypadButton::Down, true);
    input.handle_button(JoypadButton::Start, true);
    assert_eq!(input.joypad_lines(), (0x06, 0x06));
    input.handle_button(JoypadButton::Right, false);
    input.handle_button(JoypadButton::Left, true);
    input.handle_button(JoypadButton::Up, true);
    input.handle_button(JoypadButton::B, true);
    input.handle_button(JoypadButton::Select, true);
    assert_eq!(input.joypad_lines(), (0x01, 0x00));
}

#[test]
fn applying_input_without_a_cartridge_is_harmless() {
    let mut emulator = Emulator::new();
    let mut input = InputState::default();
    input.handle_button(JoypadButton::A, true);
    input.apply(&mut emulator);
    assert!(!emulator.has_bus());
}
