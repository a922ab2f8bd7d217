use client_rs::config::Config;
use client_rs::controller::ClientController;
use client_rs::input::{InputAxis, InputButton, InputEvent};
use client_rs::model::ClientModel;
use client_rs::switch::SwitchPad;

fn config(server_ip: &str, switch_pads: Vec<SwitchPad>, input_delays: Vec<u8>) -> Config {
    Config::new(
        server_ip.to_string(),
        switch_pads,
        input_delays,
        vec![0; 8],
        vec![0; 8],
        true,
        false,
    )
}

fn pro_controller(server_ip: &str) -> ClientController {
    ClientController::new(
        ClientModel::new(),
        config(server_ip, vec![SwitchPad::ProController; 8], vec![0; 8]),
    )
}

fn connect_press(device: usize) -> InputEvent {
    InputEvent::GamepadButton(device, InputButton::RightBumper, 1)
}

#[test]
fn start_requires_a_server_ip() {
    let mut controller = pro_controller("");
    assert_eq!(
        controller.start(),
        Err("The server IP is blank! Please set it to the IP of the input server before starting the client.".to_string())
    );
}

#[test]
fn start_stop_lifecycle() {
    let mut controller = pro_controller("192.168.1.199");
    assert_eq!(
        controller.start(),
        Ok("The client is ready to receive inputs.".to_string())
    );
    assert_eq!(
        controller.start(),
        Err("The client is already running.".to_string())
    );
    assert_eq!(controller.stop(), Ok(None));
    assert_eq!(controller.stop(), Err("The client isn't running.".to_string()));
}

#[test]
fn connect_claims_the_lowest_eligible_slot() {
    let mut controller = ClientController::new(
        ClientModel::new(),
        config(
            "10.0.0.1",
            vec![
                SwitchPad::Disconnected,
                SwitchPad::Disconnected,
                SwitchPad::JoyConLSide,
                SwitchPad::ProController,
                SwitchPad::ProController,
                SwitchPad::ProController,
                SwitchPad::ProController,
                SwitchPad::ProController,
            ],
            vec![0; 8],
        ),
    );
    assert_eq!(
        controller.connect(&42),
        Ok("Gamepad connected to a slot.".to_string())
    );
    // Slots 0 and 1 are configured Disconnected, so slot 2 is claimed.
    assert_eq!(controller.mapped_gamepads(), vec![42]);
    assert_eq!(
        *controller.get_pads()[2].get_switch_pad(),
        SwitchPad::JoyConLSide
    );
    // The next gamepad gets the next eligible slot.
    assert_eq!(
        controller.connect(&7),
        Ok("Gamepad connected to a slot.".to_string())
    );
    assert_eq!(controller.mapped_gamepads(), vec![42, 7]);
    assert_eq!(
        *controller.get_pads()[3].get_switch_pad(),
        SwitchPad::ProController
    );
}

#[test]
fn connect_fails_with_all_slots_configured_disconnected() {
    let mut controller = ClientController::new(
        ClientModel::new(),
        config("10.0.0.1", vec![SwitchPad::Disconnected; 8], vec![0; 8]),
    );
    assert_eq!(
        controller.connect(&1),
        Err("Couldn't connect the gamepad since no slots are available.".to_string())
    );
    assert_eq!(controller.mapped_gamepads(), Vec::<usize>::new());
    for pad in controller.get_pads() {
        assert_eq!(*pad.get_switch_pad(), SwitchPad::Disconnected);
    }
}

#[test]
fn connect_fails_once_every_slot_is_occupied() {
    let mut controller = pro_controller("10.0.0.1");
    for device in 0..8 {
        assert!(controller.connect(&device).is_ok());
    }
    assert_eq!(
        controller.connect(&99),
        Err("Couldn't connect the gamepad since no slots are available.".to_string())
    );
    assert_eq!(controller.mapped_gamepads().len(), 8);
}

#[test]
fn update_connects_on_right_bumper_press_only() {
    let mut controller = pro_controller("10.0.0.1");
    assert!(controller.start().is_ok());
    // A press of another button from an unmapped gamepad is dropped.
    let results = controller.update(
        &vec![],
        vec![InputEvent::GamepadButton(5, InputButton::South, 1)],
    );
    assert_eq!(results, vec![]);
    assert_eq!(controller.mapped_gamepads(), Vec::<usize>::new());
    // The designated connect press claims slot 0.
    let results = controller.update(&vec![], vec![connect_press(5)]);
    assert_eq!(results, vec![Ok("Gamepad connected to a slot.".to_string())]);
    assert_eq!(controller.mapped_gamepads(), vec![5]);
    assert_eq!(
        *controller.get_pads()[0].get_switch_pad(),
        SwitchPad::ProController
    );
}

#[test]
fn update_applies_mapped_events_with_configured_delay() {
    let mut controller = ClientController::new(
        ClientModel::new(),
        config("10.0.0.1", vec![SwitchPad::ProController; 8], vec![2; 8]),
    );
    assert!(controller.start().is_ok());
    // Connect presses are never delayed: the gamepad maps immediately.
    controller.update(&vec![], vec![connect_press(3)]);
    assert_eq!(controller.mapped_gamepads(), vec![3]);
    // A mapped gamepad's press waits its slot's two ticks of delay.
    controller.update(
        &vec![],
        vec![InputEvent::GamepadButton(3, InputButton::East, 1)],
    );
    assert_eq!(*controller.get_pads()[0].get_keyout(), 0);
    controller.update(&vec![], vec![]);
    assert_eq!(*controller.get_pads()[0].get_keyout(), 0);
    controller.update(&vec![], vec![]);
    // East maps to A on a Pro Controller: bit 0.
    assert_eq!(*controller.get_pads()[0].get_keyout(), 0x1);
}

#[test]
fn update_disconnect_pass_clears_and_frees_the_slot() {
    let mut controller = pro_controller("10.0.0.1");
    assert!(controller.start().is_ok());
    controller.update(&vec![], vec![connect_press(11)]);
    controller.update(
        &vec![],
        vec![
            InputEvent::GamepadButton(11, InputButton::East, 1),
            InputEvent::GamepadAxis(11, InputAxis::LeftY, 555),
        ],
    );
    assert_eq!(*controller.get_pads()[0].get_keyout(), 0x1);
    // The backend reports gamepad 11 gone: the pass clears slot 0.
    let results = controller.update(&vec![11], vec![]);
    assert_eq!(
        results,
        vec![Ok("Disconnected the gamepad from its slot.".to_string())]
    );
    assert_eq!(controller.mapped_gamepads(), Vec::<usize>::new());
    let pad = &controller.get_pads()[0];
    assert_eq!(*pad.get_switch_pad(), SwitchPad::Disconnected);
    assert_eq!(*pad.get_keyout(), 0);
    assert_eq!(*pad.get_left(), (0, 0));
    // The freed slot can be claimed again.
    controller.update(&vec![], vec![connect_press(12)]);
    assert_eq!(controller.mapped_gamepads(), vec![12]);
}

#[test]
fn disconnecting_an_unmapped_gamepad_fails() {
    let mut controller = pro_controller("10.0.0.1");
    assert!(controller.start().is_ok());
    let results = controller.update(&vec![99], vec![]);
    assert_eq!(
        results,
        vec![Err("No gamepad with that id is connected.".to_string())]
    );
    assert_eq!(
        controller.disconnect(&99),
        Err("No gamepad with that id is connected.".to_string())
    );
}

#[test]
fn update_does_nothing_while_stopped() {
    let mut controller = pro_controller("10.0.0.1");
    let results = controller.update(&vec![], vec![connect_press(1)]);
    assert_eq!(results, vec![]);
    assert_eq!(controller.mapped_gamepads(), Vec::<usize>::new());
}

#[test]
fn stop_with_occupied_slots_returns_the_all_disconnected_broadcast() {
    let mut controller = pro_controller("10.0.0.1");
    assert!(controller.start().is_ok());
    controller.update(&vec![], vec![connect_press(1), connect_press(2)]);
    controller.update(
        &vec![],
        vec![InputEvent::GamepadButton(1, InputButton::East, 1)],
    );
    assert_eq!(controller.mapped_gamepads(), vec![1, 2]);
    let stopped = controller.stop();
    let mut expected = vec![0u8; 212];
    expected[0] = 0x76;
    expected[1] = 0x32;
    expected[2] = 0x08;
    assert_eq!(stopped, Ok(Some(expected)));
    // Afterwards the registry is empty and every pad is cleared.
    assert_eq!(controller.mapped_gamepads(), Vec::<usize>::new());
    for pad in controller.get_pads() {
        assert_eq!(*pad.get_switch_pad(), SwitchPad::Disconnected);
        assert_eq!(*pad.get_keyout(), 0);
    }
}

#[test]
fn restart_only_works_while_running() {
    let mut controller = pro_controller("10.0.0.1");
    assert_eq!(
        controller.restart(),
        (
            None,
            Err("The client needs to be running in order to restart it.".to_string())
        )
    );
    assert!(controller.start().is_ok());
    controller.connect(&4).unwrap();
    let (broadcast, outcome) = controller.restart();
    assert_eq!(
        outcome,
        Ok("The client is ready to receive inputs.".to_string())
    );
    // The restart's stop cleaned up the mapped gamepad and broadcast bytes
    // were produced for it.
    assert!(broadcast.is_some());
    assert_eq!(controller.mapped_gamepads(), Vec::<usize>::new());
    assert_eq!(
        controller.start(),
        Err("The client is already running.".to_string())
    );
}

#[test]
fn restart_keeps_the_cleanup_broadcast_even_when_start_fails() {
    let mut controller = pro_controller("10.0.0.1");
    assert!(controller.start().is_ok());
    controller.connect(&4).unwrap();
    // Blank the server IP while running: the stop half succeeds, the start
    // half fails, and the cleanup bytes are still handed back.
    controller.set_server_ip(&"".to_string());
    let (broadcast, outcome) = controller.restart();
    assert!(broadcast.is_some());
    assert!(outcome.is_err());
    assert_eq!(controller.mapped_gamepads(), Vec::<usize>::new());
}

#[test]
fn exit_prep_stops_a_running_client() {
    let mut controller = pro_controller("10.0.0.1");
    assert_eq!(controller.exit_prep(), None);
    assert!(controller.start().is_ok());
    controller.connect(&4).unwrap();
    let broadcast = controller.exit_prep();
    assert!(broadcast.is_some());
    assert_eq!(controller.stop(), Err("The client isn't running.".to_string()));
}

#[test]
fn setters_update_the_configuration() {
    let mut controller = pro_controller("10.0.0.1");
    controller.set_switch_pad(&1, &SwitchPad::JoyConRSide);
    controller.set_input_delay(&2, &9);
    controller.set_left_deadzone(&3, &1000);
    controller.set_right_deadzone(&4, &2000);
    controller.set_server_ip(&"10.0.0.2".to_string());
    let config = controller.current_config();
    assert_eq!(config.get_server_ip(), "10.0.0.2");
    assert_eq!(config.get_switch_pads()[1], SwitchPad::JoyConRSide);
    assert_eq!(config.get_input_delays()[2], 9);
    assert_eq!(config.get_left_deadzones()[3], 1000);
    assert_eq!(config.get_right_deadzones()[4], 2000);
}

#[test]
fn default_config_is_eight_pro_controllers() {
    let config = Config::default();
    assert_eq!(config.get_server_ip(), "");
    assert_eq!(config.get_switch_pads().len(), 8);
    for pad in config.get_switch_pads() {
        assert_eq!(*pad, SwitchPad::ProController);
    }
    assert_eq!(config.get_input_delays(), &vec![0; 8]);
    assert_eq!(*config.get_manual_assign(), true);
    assert_eq!(*config.get_anarchy_mode(), false);
}
