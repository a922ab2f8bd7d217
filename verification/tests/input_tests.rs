use client_rs::input::{InputAxis, InputButton, InputEvent};

#[test]
fn gamepad_id_is_read_from_either_event_kind() {
    let button = InputEvent::GamepadButton(17, InputButton::North, 1);
    let axis = InputEvent::GamepadAxis(23, InputAxis::RightY, -5);
    assert_eq!(*button.get_gamepad_id(), 17);
    assert_eq!(*axis.get_gamepad_id(), 23);
}
