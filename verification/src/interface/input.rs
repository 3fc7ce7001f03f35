//! Which Game Boy buttons are held, and the active-low joypad lines they drive.
use vstd::prelude::*;
use crate::domain::bus::BusView;
use crate::bits::lemma_byte;
use crate::domain::emulator::Emulator;

verus! {

#[derive(Debug, Clone, Copy, PartialEq, Eq, Structural)]
pub enum JoypadButton {
    Right,
    Left,
    Up,
    Down,
    A,
    B,
    Select,
    Start,
}

#[derive(Debug, Clone, Copy, PartialEq, Eq, Structural, Default)]
pub struct InputState {
    pub right: bool,
    pub left: bool,
    pub up: bool,
    pub down: bool,
    pub a: bool,
    pub b: bool,
    pub select: bool,
    pub start: bool,
}

/// A nibble with bit `i` clear exactly when button `i` of the four is held.
pub open spec fn active_low(b0: bool, b1: bool, b2: bool, b3: bool) -> u8 {
    ((if b0 { 0int } else { 1 }) + (if b1 { 0int } else { 2 }) + (if b2 { 0int } else { 4 })
        + (if b3 { 0int } else { 8 })) as u8
}

impl InputState {
    /// The direction lines: right, left, up, down on bits 0-3.
    pub open spec fn dpad_spec(&self) -> u8 {
        active_low(self.right, self.left, self.up, self.down)
    }

    /// The button lines: A, B, Select, Start on bits 0-3.
    pub open spec fn buttons_spec(&self) -> u8 {
        active_low(self.a, self.b, self.select, self.start)
    }

    pub open spec fn with_button(self, button: JoypadButton, pressed: bool) -> InputState {
        match button {
            JoypadButton::Right => InputState { right: pressed, ..self },
            JoypadButton::Left => InputState { left: pressed, ..self },
            JoypadButton::Up => InputState { up: pressed, ..self },
            JoypadButton::Down => InputState { down: pressed, ..self },
            JoypadButton::A => InputState { a: pressed, ..self },
            JoypadButton::B => InputState { b: pressed, ..self },
            JoypadButton::Select => InputState { select: pressed, ..self },
            JoypadButton::Start => InputState { start: pressed, ..self },
        }
    }

    pub fn new() -> (s: Self)
        ensures
            s == (InputState { right: false, left: false, up: false, down: false, a: false, b: false,
                select: false, start: false }),
    {
        InputState { right: false, left: false, up: false, down: false, a: false, b: false, select: false, start: false }
    }

    /// Records a press or release of `button`.
    pub fn handle_button(&mut self, button: JoypadButton, pressed: bool)
        ensures
            *final(self) == old(self).with_button(button, pressed),
    {
        match button {
            JoypadButton::Right => self.right = pressed,
            JoypadButton::Left => self.left = pressed,
            JoypadButton::Up => self.up = pressed,
            JoypadButton::Down => self.down = pressed,
            JoypadButton::A => self.a = pressed,
            JoypadButton::B => self.b = pressed,
            JoypadButton::Select => self.select = pressed,
            JoypadButton::Start => self.start = pressed,
        }
    }

    /// The (directions, buttons) line nibbles.
    pub fn joypad_lines(&self) -> (r: (u8, u8))
        ensures
            r == (self.dpad_spec(), self.buttons_spec()),
    {
        let mut dpad: u8 = 0x0F;
        if self.right {
            dpad = dpad - 0x01;
        }
        if self.left {
            dpad = dpad - 0x02;
        }
        if self.up {
            dpad = dpad - 0x04;
        }
        if self.down {
            dpad = dpad - 0x08;
        }
        let mut buttons: u8 = 0x0F;
        if self.a {
            buttons = buttons - 0x01;
        }
        if self.b {
            buttons = buttons - 0x02;
        }
        if self.select {
            buttons = buttons - 0x04;
        }
        if self.start {
            buttons = buttons - 0x08;
        }
        (dpad, buttons)
    }

    /// Drives the emulator's joypad lines from the held buttons.
    pub fn apply(&self, emulator: &mut Emulator)
        requires
            old(emulator).wf(),
        ensures
            final(emulator).wf(),
            old(emulator).bus is Some ==> final(emulator).bus is Some
                && final(emulator).bus->Some_0@ == (BusView {
                    joyp_dpad: self.dpad_spec(),
                    joyp_buttons: self.buttons_spec(),
                    ..old(emulator).bus->Some_0@
                }),
            old(emulator).bus is None ==> final(emulator).bus is None,
    {
        let (dpad, buttons) = self.joypad_lines();
        proof {
            lemma_byte(dpad);
            lemma_byte(buttons);
        }
        emulator.set_joyp_dpad(dpad);
        emulator.set_joyp_buttons(buttons);
    }
}

} // verus!
