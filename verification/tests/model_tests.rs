use client_rs::input::{InputAxis, InputButton, InputEvent};
use client_rs::model::ClientModel;
use client_rs::protocol::PackedData;
use client_rs::switch::SwitchPad;

#[test]
fn new_model_has_eight_disconnected_pads_and_blank_ip() {
    let model = ClientModel::new();
    assert_eq!(model.num_pads(), 8);
    assert_eq!(model.get_server_ip(), "");
    for pad in model.get_pads() {
        assert_eq!(*pad.get_switch_pad(), SwitchPad::Disconnected);
        assert_eq!(*pad.get_keyout(), 0);
    }
}

#[test]
fn server_ip_round_trips_through_the_setter() {
    let mut model = ClientModel::new();
    model.set_server_ip(&"192.168.1.199".to_string());
    assert_eq!(model.get_server_ip(), "192.168.1.199");
}

#[test]
fn pads_connect_update_and_disconnect_by_index() {
    let mut model = ClientModel::new();
    model.connect_pad(&2, &SwitchPad::ProController);
    model.update_pad(&2, &InputEvent::GamepadButton(9, InputButton::South, 1));
    model.update_pad(&2, &InputEvent::GamepadAxis(9, InputAxis::RightX, -7));
    let pads = model.get_pads();
    assert_eq!(*pads[2].get_switch_pad(), SwitchPad::ProController);
    assert_eq!(*pads[2].get_keyout(), 0x2);
    assert_eq!(*pads[2].get_right(), (-7, 0));
    model.disconnect_pad(&2);
    let pads = model.get_pads();
    assert_eq!(*pads[2].get_switch_pad(), SwitchPad::Disconnected);
    assert_eq!(*pads[2].get_keyout(), 0);
    assert_eq!(*pads[2].get_right(), (0, 0));
}

#[test]
fn datagram_matches_the_packed_encoding_of_the_pads() {
    let mut model = ClientModel::new();
    model.connect_pad(&0, &SwitchPad::JoyConLSide);
    model.update_pad(&0, &InputEvent::GamepadButton(1, InputButton::West, 1));
    let expected = PackedData::new(model.get_pads(), 8).to_bytes();
    assert_eq!(model.datagram(), expected);
}

#[test]
fn cleanup_disconnects_everything_and_returns_the_all_clear_datagram() {
    let mut model = ClientModel::new();
    model.connect_pad(&0, &SwitchPad::ProController);
    model.connect_pad(&5, &SwitchPad::JoyConRSide);
    model.update_pad(&0, &InputEvent::GamepadButton(1, InputButton::East, 1));
    let bytes = model.cleanup();
    for pad in model.get_pads() {
        assert_eq!(*pad.get_switch_pad(), SwitchPad::Disconnected);
        assert_eq!(*pad.get_keyout(), 0);
    }
    let mut expected = vec![0u8; 212];
    expected[0] = 0x76;
    expected[1] = 0x32;
    expected[2] = 0x08;
    assert_eq!(bytes, expected);
}
