//! A minimal, library-agnostic model of gamepad input: the buttons and axes
//! that are universally available, and the events an input adapter reports.

use vstd::prelude::*;

verus! {

/// The buttons that are universally available on gamepads.
#[derive(Copy, Clone, Debug, PartialEq, Eq, Structural)]
pub enum InputButton {
    North,
    South,
    East,
    West,
    LeftBumper,
    LeftTrigger,
    RightBumper,
    RightTrigger,
    Start,
    Select,
    LeftStick,
    RightStick,
    DPadUp,
    DPadDown,
    DPadLeft,
    DPadRight,
    Guide,
}

/// The axes that are universally available on gamepads.
#[derive(Copy, Clone, Debug, PartialEq, Eq, Structural)]
pub enum InputAxis {
    LeftX,
    LeftY,
    RightX,
    RightY,
}

/// A button or axis change, tagged with the id of the physical gamepad that
/// produced it. Button values are conventionally 0 (released) or 1 (pressed);
/// axis values span the full signed 16-bit range.
#[derive(Copy, Clone, Debug, PartialEq, Eq, Structural)]
pub enum InputEvent {
    GamepadButton(usize, InputButton, i16),
    GamepadAxis(usize, InputAxis, i16),
}

/// The id of the gamepad an event belongs to, independent of its kind.
pub open spec fn spec_gamepad_id(event: InputEvent) -> usize {
    match event {
        InputEvent::GamepadButton(gamepad_id, _, _) => gamepad_id,
        InputEvent::GamepadAxis(gamepad_id, _, _) => gamepad_id,
    }
}

impl InputEvent {
    /// Returns the id of the gamepad this event originated from.
    pub fn get_gamepad_id(&self) -> (r: &usize)
        ensures
            *r == spec_gamepad_id(*self),
    {
        match self {
            Self::GamepadButton(gamepad_id, _, _) => gamepad_id,
            Self::GamepadAxis(gamepad_id, _, _) => gamepad_id,
        }
    }
}

/// The capability contract an input backend must satisfy: a non-blocking
/// drain of newly available events, and a connectivity check for one gamepad.
/// The core never polls a backend itself; the surrounding application does,
/// and hands the plain events to the library.
pub trait InputAdapter {
    /// Drains the backend's buffer and returns the buffered events.
    fn read(&mut self) -> Vec<InputEvent>;

    /// Reports whether a gamepad with the given id is still connected.
    fn is_connected(&mut self, gamepad_id: &usize) -> bool;
}

} // verus!
