use client_rs::buffer::DelayBuffer;
use client_rs::input::{InputAxis, InputButton, InputEvent};

fn press(device: usize, button: InputButton) -> InputEvent {
    InputEvent::GamepadButton(device, button, 1)
}

#[test]
fn zero_delay_events_come_out_immediately_in_order() {
    let mut buffer = DelayBuffer::new();
    buffer.enqueue(press(0, InputButton::North), 0);
    buffer.enqueue(press(0, InputButton::South), 0);
    buffer.enqueue(press(0, InputButton::East), 0);
    let ready = buffer.drain_ready();
    assert_eq!(
        ready,
        vec![
            press(0, InputButton::North),
            press(0, InputButton::South),
            press(0, InputButton::East),
        ]
    );
    assert_eq!(buffer.len(), 0);
}

#[test]
fn delayed_events_arrive_exactly_after_their_delay() {
    let mut buffer = DelayBuffer::new();
    let events = vec![
        press(4, InputButton::North),
        InputEvent::GamepadAxis(4, InputAxis::LeftX, -100),
        press(4, InputButton::Select),
    ];
    for event in &events {
        buffer.enqueue(*event, 2);
    }
    assert_eq!(buffer.drain_ready(), vec![]);
    assert_eq!(buffer.drain_ready(), vec![]);
    assert_eq!(buffer.drain_ready(), events);
    assert_eq!(buffer.len(), 0);
    assert_eq!(buffer.drain_ready(), vec![]);
}

#[test]
fn draining_decrements_and_keeps_arrival_order() {
    let mut buffer = DelayBuffer::new();
    buffer.enqueue(press(1, InputButton::North), 2);
    buffer.enqueue(press(2, InputButton::South), 0);
    buffer.enqueue(press(1, InputButton::East), 1);
    // Only the zero-delay event is ready; the others wait, in order.
    assert_eq!(buffer.drain_ready(), vec![press(2, InputButton::South)]);
    assert_eq!(buffer.len(), 2);
    // One tick later the second event's delay has elapsed.
    assert_eq!(buffer.drain_ready(), vec![press(1, InputButton::East)]);
    // And one more tick later the first.
    assert_eq!(buffer.drain_ready(), vec![press(1, InputButton::North)]);
    assert_eq!(buffer.len(), 0);
}

#[test]
fn same_device_fifo_order_is_preserved_among_ready_events() {
    let mut buffer = DelayBuffer::new();
    buffer.enqueue(press(7, InputButton::North), 1);
    buffer.enqueue(press(7, InputButton::South), 1);
    buffer.enqueue(press(7, InputButton::East), 1);
    assert_eq!(buffer.drain_ready(), vec![]);
    assert_eq!(
        buffer.drain_ready(),
        vec![
            press(7, InputButton::North),
            press(7, InputButton::South),
            press(7, InputButton::East),
        ]
    );
}
