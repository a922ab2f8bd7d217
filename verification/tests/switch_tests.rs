use client_rs::input::{InputAxis, InputButton, InputEvent};
use client_rs::switch::{EmulatedPad, SwitchButton, SwitchPad};

#[test]
fn button_values_are_sequential_bits() {
    assert_eq!(SwitchButton::A.value(), 0x1);
    assert_eq!(SwitchButton::B.value(), 0x2);
    assert_eq!(SwitchButton::X.value(), 0x4);
    assert_eq!(SwitchButton::Y.value(), 0x8);
    assert_eq!(SwitchButton::LST.value(), 0x10);
    assert_eq!(SwitchButton::RST.value(), 0x20);
    assert_eq!(SwitchButton::L.value(), 0x40);
    assert_eq!(SwitchButton::R.value(), 0x80);
    assert_eq!(SwitchButton::ZL.value(), 0x100);
    assert_eq!(SwitchButton::ZR.value(), 0x200);
    assert_eq!(SwitchButton::Plus.value(), 0x400);
    assert_eq!(SwitchButton::Minus.value(), 0x800);
    assert_eq!(SwitchButton::DL.value(), 0x1000);
    assert_eq!(SwitchButton::DU.value(), 0x2000);
    assert_eq!(SwitchButton::DR.value(), 0x4000);
    assert_eq!(SwitchButton::DD.value(), 0x8000);
    assert_eq!(SwitchButton::SRR.value(), 0x8000000);
}

#[test]
fn face_buttons_remap_by_pad_type() {
    assert_eq!(
        SwitchButton::map_button(&InputButton::North, &SwitchPad::ProController),
        Ok(SwitchButton::X)
    );
    assert_eq!(
        SwitchButton::map_button(&InputButton::East, &SwitchPad::ProController),
        Ok(SwitchButton::A)
    );
    assert_eq!(
        SwitchButton::map_button(&InputButton::South, &SwitchPad::ProController),
        Ok(SwitchButton::B)
    );
    assert_eq!(
        SwitchButton::map_button(&InputButton::West, &SwitchPad::ProController),
        Ok(SwitchButton::Y)
    );
    assert_eq!(
        SwitchButton::map_button(&InputButton::North, &SwitchPad::JoyConLSide),
        Ok(SwitchButton::DR)
    );
    assert_eq!(
        SwitchButton::map_button(&InputButton::East, &SwitchPad::JoyConLSide),
        Ok(SwitchButton::DD)
    );
    assert_eq!(
        SwitchButton::map_button(&InputButton::South, &SwitchPad::JoyConLSide),
        Ok(SwitchButton::DL)
    );
    assert_eq!(
        SwitchButton::map_button(&InputButton::West, &SwitchPad::JoyConLSide),
        Ok(SwitchButton::DU)
    );
    assert_eq!(
        SwitchButton::map_button(&InputButton::North, &SwitchPad::JoyConRSide),
        Ok(SwitchButton::Y)
    );
    assert_eq!(
        SwitchButton::map_button(&InputButton::East, &SwitchPad::JoyConRSide),
        Ok(SwitchButton::X)
    );
    assert_eq!(
        SwitchButton::map_button(&InputButton::South, &SwitchPad::JoyConRSide),
        Ok(SwitchButton::A)
    );
    assert_eq!(
        SwitchButton::map_button(&InputButton::West, &SwitchPad::JoyConRSide),
        Ok(SwitchButton::B)
    );
}

#[test]
fn non_face_buttons_map_one_to_one() {
    for pad in [
        SwitchPad::ProController,
        SwitchPad::JoyConLSide,
        SwitchPad::JoyConRSide,
    ] {
        assert_eq!(
            SwitchButton::map_button(&InputButton::DPadUp, &pad),
            Ok(SwitchButton::DU)
        );
        assert_eq!(
            SwitchButton::map_button(&InputButton::LeftBumper, &pad),
            Ok(SwitchButton::L)
        );
        assert_eq!(
            SwitchButton::map_button(&InputButton::RightTrigger, &pad),
            Ok(SwitchButton::ZR)
        );
        assert_eq!(
            SwitchButton::map_button(&InputButton::Start, &pad),
            Ok(SwitchButton::Plus)
        );
        assert_eq!(
            SwitchButton::map_button(&InputButton::Select, &pad),
            Ok(SwitchButton::Minus)
        );
        assert_eq!(
            SwitchButton::map_button(&InputButton::LeftStick, &pad),
            Ok(SwitchButton::LST)
        );
    }
}

#[test]
fn guide_and_disconnected_have_no_mapping() {
    assert!(SwitchButton::map_button(&InputButton::Guide, &SwitchPad::ProController).is_err());
    assert!(SwitchButton::map_button(&InputButton::North, &SwitchPad::Disconnected).is_err());
    assert!(SwitchButton::map_button(&InputButton::West, &SwitchPad::Disconnected).is_err());
}

#[test]
fn new_pad_is_neutral_and_disconnected() {
    let pad = EmulatedPad::new();
    assert_eq!(*pad.get_switch_pad(), SwitchPad::Disconnected);
    assert_eq!(*pad.get_keyout(), 0);
    assert_eq!(*pad.get_left(), (0, 0));
    assert_eq!(*pad.get_right(), (0, 0));
}

#[test]
fn west_on_sideways_left_joycon_toggles_only_dpad_up() {
    let mut pad = EmulatedPad::new();
    pad.connect(SwitchPad::JoyConLSide);
    pad.update(&InputEvent::GamepadButton(3, InputButton::West, 1));
    assert_eq!(*pad.get_keyout(), 0x2000);
    assert!(pad.is_pressed(&SwitchButton::DU));
    assert!(!pad.is_pressed(&SwitchButton::Y));
    assert!(!pad.is_pressed(&SwitchButton::DL));
    pad.update(&InputEvent::GamepadButton(3, InputButton::West, 0));
    assert_eq!(*pad.get_keyout(), 0);
    assert!(!pad.is_pressed(&SwitchButton::DU));
}

#[test]
fn release_clears_only_the_released_bit() {
    let mut pad = EmulatedPad::new();
    pad.connect(SwitchPad::JoyConLSide);
    pad.update(&InputEvent::GamepadButton(0, InputButton::Start, 1));
    pad.update(&InputEvent::GamepadButton(0, InputButton::West, 1));
    assert_eq!(*pad.get_keyout(), 0x2400);
    pad.update(&InputEvent::GamepadButton(0, InputButton::West, 0));
    assert_eq!(*pad.get_keyout(), 0x400);
    assert!(pad.is_pressed(&SwitchButton::Plus));
}

#[test]
fn axis_events_assign_raw_values() {
    let mut pad = EmulatedPad::new();
    pad.connect(SwitchPad::ProController);
    pad.update(&InputEvent::GamepadAxis(0, InputAxis::LeftX, -32768));
    pad.update(&InputEvent::GamepadAxis(0, InputAxis::LeftY, 32767));
    pad.update(&InputEvent::GamepadAxis(0, InputAxis::RightX, 17));
    pad.update(&InputEvent::GamepadAxis(0, InputAxis::RightY, -1));
    assert_eq!(*pad.get_left(), (-32768, 32767));
    assert_eq!(*pad.get_right(), (17, -1));
}

#[test]
fn buttons_on_disconnected_pad_are_dropped() {
    let mut pad = EmulatedPad::new();
    pad.update(&InputEvent::GamepadButton(0, InputButton::South, 1));
    assert_eq!(*pad.get_keyout(), 0);
    pad.update(&InputEvent::GamepadButton(0, InputButton::DPadUp, 1));
    assert_eq!(*pad.get_keyout(), 0);
}

#[test]
fn unmapped_guide_press_is_dropped_silently() {
    let mut pad = EmulatedPad::new();
    pad.connect(SwitchPad::ProController);
    pad.update(&InputEvent::GamepadButton(0, InputButton::Guide, 1));
    assert_eq!(*pad.get_keyout(), 0);
}

#[test]
fn disconnect_clears_mask_and_sticks() {
    let mut pad = EmulatedPad::new();
    pad.connect(SwitchPad::ProController);
    pad.update(&InputEvent::GamepadButton(0, InputButton::East, 1));
    pad.update(&InputEvent::GamepadAxis(0, InputAxis::LeftX, 1234));
    assert_ne!(*pad.get_keyout(), 0);
    pad.disconnect();
    assert_eq!(*pad.get_switch_pad(), SwitchPad::Disconnected);
    assert_eq!(*pad.get_keyout(), 0);
    assert_eq!(*pad.get_left(), (0, 0));
    assert_eq!(*pad.get_right(), (0, 0));
}

#[test]
fn connect_leaves_mask_and_sticks_untouched() {
    let mut pad = EmulatedPad::new();
    pad.connect(SwitchPad::JoyConRSide);
    assert_eq!(*pad.get_switch_pad(), SwitchPad::JoyConRSide);
    assert_eq!(*pad.get_keyout(), 0);
    assert_eq!(*pad.get_left(), (0, 0));
    assert_eq!(*pad.get_right(), (0, 0));
}
