//! The orchestrator of the input client: it owns the model, the slot
//! assignment registry and the delay buffer, applies configuration, drives
//! the per-tick data plane, and exposes the lifecycle operations. Everything
//! here is a function from plain state and plain events to plain state and
//! plain values; the surrounding application polls the input backend, runs
//! the 60 Hz timer, and owns the socket.

use vstd::prelude::*;

use crate::buffer::{spec_delayed_entries, spec_ready_events, DelayBuffer, DelayedEvent};
use crate::config::Config;
use crate::input::{spec_gamepad_id, InputButton, InputEvent};
use crate::model::ClientModel;
use crate::protocol::spec_datagram;
use crate::registry::{spec_seq_contains, spec_seq_maps, spec_seq_slot_of, SlotRegistry};
use crate::switch::{spec_pad_update, EmulatedPad, SwitchPad};
use crate::NUM_SLOTS;

verus! {

/// The data-plane state one tick acts on: the emulated pads and the slot
/// assignments, abstracted from their containers.
#[verifier::ext_equal]
pub ghost struct TickState {
    pub pads: Seq<EmulatedPad>,
    pub slots: Seq<Option<usize>>,
}

/// The state of a pad in an empty slot: disconnected, zero mask, centered
/// sticks.
pub open spec fn spec_neutral_pad() -> EmulatedPad {
    EmulatedPad { switch_pad: SwitchPad::Disconnected, keyout: 0, left: (0i16, 0i16), right: (0i16, 0i16) }
}

/// The delay an incoming event is buffered with: a mapped gamepad's event
/// waits its slot's configured input delay, an unmapped gamepad's event none.
pub open spec fn spec_delay_for(
    slots: Seq<Option<usize>>,
    input_delays: Seq<u8>,
    device_id: usize,
) -> u8 {
    match spec_seq_slot_of(slots, device_id) {
        Some(i) => input_delays[i],
        None => 0,
    }
}

/// A batch of events as the delay buffer receives it: each event paired
/// with the delay its gamepad's slot is configured with (zero if unmapped).
pub open spec fn spec_delayed_batch(
    slots: Seq<Option<usize>>,
    input_delays: Seq<u8>,
    events: Seq<InputEvent>,
) -> Seq<DelayedEvent> {
    events.map_values(
        (|event: InputEvent|
            (event, spec_delay_for(slots, input_delays, spec_gamepad_id(event)))),
    )
}

/// Whether a slot can accept a new connection: it is not occupied by another
/// device, and its *configured* pad type — independent of the current
/// connection state — is not `Disconnected`.
pub open spec fn spec_slot_eligible(st: TickState, switch_pads: Seq<SwitchPad>, i: int) -> bool {
    &&& st.slots[i] is None
    &&& switch_pads[i] != SwitchPad::Disconnected
}

/// The lowest-indexed eligible slot at or after `k`, if any.
pub open spec fn spec_first_eligible_from(
    st: TickState,
    switch_pads: Seq<SwitchPad>,
    k: int,
) -> Option<int>
    decreases NUM_SLOTS - k,
{
    if k >= NUM_SLOTS {
        None
    } else if spec_slot_eligible(st, switch_pads, k) {
        Some(k)
    } else {
        spec_first_eligible_from(st, switch_pads, k + 1)
    }
}

/// A connection attempt: the device claims the lowest-indexed eligible slot —
/// the slot maps to it and its pad connects as the configured type — or, with
/// no eligible slot, nothing changes and the attempt reports failure.
pub open spec fn spec_connect_outcome(
    st: TickState,
    switch_pads: Seq<SwitchPad>,
    device_id: usize,
) -> (TickState, bool) {
    match spec_first_eligible_from(st, switch_pads, 0) {
        Some(i) => (
            TickState {
                pads: st.pads.update(
                    i,
                    EmulatedPad { switch_pad: switch_pads[i], ..st.pads[i] },
                ),
                slots: st.slots.update(i, Some(device_id)),
            },
            true,
        ),
        None => (st, false),
    }
}

/// One ready event hitting the data plane. An event of a mapped gamepad
/// updates that slot's pad. An event of an unmapped gamepad is dropped —
/// unless it is the designated connect trigger, a Right Bumper press with
/// value 1, which attempts a connection; the second component reports that
/// attempt's outcome, or `None` when no connection was attempted.
pub open spec fn spec_apply_event(
    st: TickState,
    switch_pads: Seq<SwitchPad>,
    event: InputEvent,
) -> (TickState, Option<bool>) {
    match spec_seq_slot_of(st.slots, spec_gamepad_id(event)) {
        Some(i) => (
            TickState { pads: st.pads.update(i, spec_pad_update(st.pads[i], event)), ..st },
            None,
        ),
        None => match event {
            InputEvent::GamepadButton(device_id, button, value) => {
                if button == InputButton::RightBumper && value == 1 {
                    let (next, connected) = spec_connect_outcome(st, switch_pads, device_id);
                    (next, Some(connected))
                } else {
                    (st, None)
                }
            },
            InputEvent::GamepadAxis(_, _, _) => (st, None),
        },
    }
}

/// A whole batch of ready events hitting the data plane in order, together
/// with the outcome of every connection attempt the batch triggered.
pub open spec fn spec_apply_events(
    st: TickState,
    switch_pads: Seq<SwitchPad>,
    events: Seq<InputEvent>,
) -> (TickState, Seq<bool>)
    decreases events.len(),
{
    if events.len() == 0 {
        (st, Seq::empty())
    } else {
        let (mid, outcomes) = spec_apply_events(st, switch_pads, events.drop_last());
        let (next, attempt) = spec_apply_event(mid, switch_pads, events.last());
        (
            next,
            match attempt {
                Some(connected) => outcomes.push(connected),
                None => outcomes,
            },
        )
    }
}

/// One device reported gone by the input backend: if it is mapped, its slot's
/// pad is cleared to the neutral disconnected state and the slot is freed;
/// an unmapped device changes nothing.
pub open spec fn spec_disconnect_device(st: TickState, device_id: usize) -> TickState {
    match spec_seq_slot_of(st.slots, device_id) {
        Some(i) => TickState {
            pads: st.pads.update(i, spec_neutral_pad()),
            slots: st.slots.update(i, None),
        },
        None => st,
    }
}

/// The disconnect pass over a list of devices, in order, together with
/// whether each of them was mapped when its turn came.
pub open spec fn spec_disconnect_pass(st: TickState, device_ids: Seq<usize>) -> (
    TickState,
    Seq<bool>,
)
    decreases device_ids.len(),
{
    if device_ids.len() == 0 {
        (st, Seq::empty())
    } else {
        let (mid, outcomes) = spec_disconnect_pass(st, device_ids.drop_last());
        let was_mapped = spec_seq_contains(mid.slots, device_ids.last());
        (spec_disconnect_device(mid, device_ids.last()), outcomes.push(was_mapped))
    }
}

/// A controller for an input client.
///
/// The controller accepts user input (especially from gamepads) and updates
/// the model accordingly, honouring per-slot configuration such as input
/// delays. Application structs use it to perform operations with the client,
/// such as starting it, stopping it, or changing configurations.
pub struct ClientController {
    pub switch_pads: Vec<SwitchPad>,
    pub input_delays: Vec<u8>,
    pub left_deadzones: Vec<u16>,
    pub right_deadzones: Vec<u16>,
    pub model: ClientModel,
    pub running: bool,
    pub input_map: SlotRegistry,
    pub input_buffer: DelayBuffer,
}

impl ClientController {
    /// The data-plane state of this controller.
    pub open spec fn tick_state(&self) -> TickState {
        TickState { pads: self.model.pads@, slots: self.input_map.slots@ }
    }

    /// The per-slot configuration and the delay buffer, unchanged between two
    /// controller states.
    pub open spec fn same_config(&self, other: &Self) -> bool {
        &&& self.switch_pads == other.switch_pads
        &&& self.input_delays == other.input_delays
        &&& self.left_deadzones == other.left_deadzones
        &&& self.right_deadzones == other.right_deadzones
    }

    /// Well-formedness: per-slot lists have one entry per slot, the model and
    /// registry are well-formed, every mapped slot drives a connected pad,
    /// and every disconnected pad is neutral.
    pub open spec fn wf(&self) -> bool {
        &&& self.switch_pads@.len() == NUM_SLOTS
        &&& self.input_delays@.len() == NUM_SLOTS
        &&& self.left_deadzones@.len() == NUM_SLOTS
        &&& self.right_deadzones@.len() == NUM_SLOTS
        &&& self.model.wf()
        &&& self.input_map.wf()
        &&& forall|i: int|
            0 <= i < NUM_SLOTS && (#[trigger] self.input_map.slots@[i]) is Some
                ==> self.model.pads@[i].switch_pad != SwitchPad::Disconnected
        &&& forall|i: int|
            0 <= i < NUM_SLOTS && (#[trigger] self.model.pads@[i]).switch_pad
                == SwitchPad::Disconnected ==> self.model.pads@[i].is_neutral()
    }

    /// Constructs a controller from a model and a configuration: the per-slot
    /// settings and the server IP come from the configuration, no gamepad is
    /// mapped, the delay buffer is empty, and the client is not running.
    pub fn new(model: ClientModel, config: Config) -> (r: ClientController)
        requires
            model.wf(),
            config.wf(),
            forall|i: int|
                0 <= i < NUM_SLOTS && (#[trigger] model.pads@[i]).switch_pad
                    == SwitchPad::Disconnected ==> model.pads@[i].is_neutral(),
        ensures
            r.wf(),
            r.switch_pads == config.switch_pads,
            r.input_delays == config.input_delays,
            r.left_deadzones == config.left_deadzones,
            r.right_deadzones == config.right_deadzones,
            r.model.pads == model.pads,
            r.model.server_ip@ == config.server_ip@,
            r.running == false,
            forall|i: int| 0 <= i < NUM_SLOTS ==> (#[trigger] r.input_map.slots@[i]) is None,
            r.input_buffer.entries@ == Seq::<DelayedEvent>::empty(),
    {
        let Config {
            server_ip,
            switch_pads,
            input_delays,
            left_deadzones,
            right_deadzones,
            manual_assign: _,
            anarchy_mode: _,
        } = config;
        let mut model = model;
        model.set_server_ip(&server_ip);
        ClientController {
            switch_pads,
            input_delays,
            left_deadzones,
            right_deadzones,
            model,
            running: false,
            input_map: SlotRegistry::new(),
            input_buffer: DelayBuffer::new(),
        }
    }

    /// A getter for the gamepads; application structs use it for display.
    pub fn get_pads(&self) -> (r: &Vec<EmulatedPad>)
        ensures
            r@ == self.model.pads@,
    {
        self.model.get_pads()
    }

    /// Sets the server IP. The caller persists the configuration.
    pub fn set_server_ip(&mut self, server_ip: &String)
        requires
            old(self).wf(),
        ensures
            final(self).wf(),
            final(self).model.server_ip@ == server_ip@,
            final(self).model.pads == old(self).model.pads,
            final(self).same_config(old(self)),
            final(self).running == old(self).running,
            final(self).input_map == old(self).input_map,
            final(self).input_buffer == old(self).input_buffer,
    {
        self.model.set_server_ip(server_ip);
    }

    /// Sets the Switch pad type a slot is configured to emulate. The change
    /// affects future connections, not a pad already driving the slot.
    pub fn set_switch_pad(&mut self, i: &usize, switch_pad: &SwitchPad)
        requires
            old(self).wf(),
            *i < NUM_SLOTS,
        ensures
            final(self).wf(),
            final(self).switch_pads@ == old(self).switch_pads@.update(*i as int, *switch_pad),
            final(self).input_delays == old(self).input_delays,
            final(self).left_deadzones == old(self).left_deadzones,
            final(self).right_deadzones == old(self).right_deadzones,
            final(self).model == old(self).model,
            final(self).running == old(self).running,
            final(self).input_map == old(self).input_map,
            final(self).input_buffer == old(self).input_buffer,
    {
        self.switch_pads.set(*i, *switch_pad);
    }

    /// Sets the input delay, in ticks, of a slot.
    pub fn set_input_delay(&mut self, i: &usize, input_delay: &u8)
        requires
            old(self).wf(),
            *i < NUM_SLOTS,
        ensures
            final(self).wf(),
            final(self).input_delays@ == old(self).input_delays@.update(*i as int, *input_delay),
            final(self).switch_pads == old(self).switch_pads,
            final(self).left_deadzones == old(self).left_deadzones,
            final(self).right_deadzones == old(self).right_deadzones,
            final(self).model == old(self).model,
            final(self).running == old(self).running,
            final(self).input_map == old(self).input_map,
            final(self).input_buffer == old(self).input_buffer,
    {
        self.input_delays.set(*i, *input_delay);
    }

    /// Sets the left-stick deadzone radius of a slot, in raw axis units.
    pub fn set_left_deadzone(&mut self, i: &usize, deadzone: &u16)
        requires
            old(self).wf(),
            *i < NUM_SLOTS,
        ensures
            final(self).wf(),
            final(self).left_deadzones@ == old(self).left_deadzones@.update(*i as int, *deadzone),
            final(self).switch_pads == old(self).switch_pads,
            final(self).input_delays == old(self).input_delays,
            final(self).right_deadzones == old(self).right_deadzones,
            final(self).model == old(self).model,
            final(self).running == old(self).running,
            final(self).input_map == old(self).input_map,
            final(self).input_buffer == old(self).input_buffer,
    {
        self.left_deadzones.set(*i, *deadzone);
    }

    /// Sets the right-stick deadzone radius of a slot, in raw axis units.
    pub fn set_right_deadzone(&mut self, i: &usize, deadzone: &u16)
        requires
            old(self).wf(),
            *i < NUM_SLOTS,
        ensures
            final(self).wf(),
            final(self).right_deadzones@ == old(self).right_deadzones@.update(*i as int, *deadzone),
            final(self).switch_pads == old(self).switch_pads,
            final(self).input_delays == old(self).input_delays,
            final(self).left_deadzones == old(self).left_deadzones,
            final(self).model == old(self).model,
            final(self).running == old(self).running,
            final(self).input_map == old(self).input_map,
            final(self).input_buffer == old(self).input_buffer,
    {
        self.right_deadzones.set(*i, *deadzone);
    }

    /// Returns the current configuration as an effective clone, for the
    /// caller to persist.
    pub fn current_config(&self) -> (r: Config)
        ensures
            r.server_ip@ == self.model.server_ip@,
            r.switch_pads@ == self.switch_pads@,
            r.input_delays@ == self.input_delays@,
            r.left_deadzones@ == self.left_deadzones@,
            r.right_deadzones@ == self.right_deadzones@,
            r.manual_assign == true,
            r.anarchy_mode == false,
    {
        let switch_pads = self.switch_pads.clone();
        let input_delays = self.input_delays.clone();
        let left_deadzones = self.left_deadzones.clone();
        let right_deadzones = self.right_deadzones.clone();
        proof {
            assert(switch_pads@ =~= self.switch_pads@);
            assert(input_delays@ =~= self.input_delays@);
            assert(left_deadzones@ =~= self.left_deadzones@);
            assert(right_deadzones@ =~= self.right_deadzones@);
        }
        Config::new(
            self.model.get_server_ip().clone(),
            switch_pads,
            input_delays,
            left_deadzones,
            right_deadzones,
            true,
            false,
        )
    }

    /// Starts the client. Starting fails — with no state change — when the
    /// server IP is still blank or the client is already running; otherwise
    /// the client transitions to running.
    pub fn start(&mut self) -> (r: Result<String, String>)
        requires
            old(self).wf(),
        ensures
            final(self).wf(),
            old(self).model.server_ip@.len() == 0 ==> (r matches Err(m) && m@
                == "The server IP is blank! Please set it to the IP of the input server before starting the client."@
                && *final(self) == *old(self)),
            old(self).model.server_ip@.len() != 0 && old(self).running ==> (r matches Err(m) && m@
                == "The client is already running."@ && *final(self) == *old(self)),
            old(self).model.server_ip@.len() != 0 && !old(self).running ==> (r matches Ok(m) && m@
                == "The client is ready to receive inputs."@ && *final(self) == (ClientController {
                running: true,
                ..*old(self)
            })),
    {
        if self.model.get_server_ip().as_str().is_empty() {
            Err(
                "The server IP is blank! Please set it to the IP of the input server before starting the client.".to_owned(),
            )
        } else if self.running {
            Err("The client is already running.".to_owned())
        } else {
            self.running = true;
            Ok("The client is ready to receive inputs.".to_owned())
        }
    }

    /// Disconnects every mapped gamepad, if there is any: the registry is
    /// emptied, every pad is cleared, and the all-disconnected datagram is
    /// returned for the caller to re-send over the cleanup window. With no
    /// gamepad mapped there is nothing to clean up and no state change.
    pub fn cleanup(&mut self) -> (r: Option<Vec<u8>>)
        requires
            old(self).wf(),
        ensures
            final(self).wf(),
            final(self).same_config(old(self)),
            final(self).running == old(self).running,
            final(self).input_buffer == old(self).input_buffer,
            final(self).model.server_ip == old(self).model.server_ip,
            (exists|i: int|
                0 <= i < NUM_SLOTS && (#[trigger] old(self).input_map.slots@[i]) is Some) ==> (
            match r {
                Some(bytes) => {
                    &&& forall|i: int|
                        0 <= i < NUM_SLOTS ==> (#[trigger] final(self).input_map.slots@[i]) is None
                    &&& forall|i: int|
                        0 <= i < NUM_SLOTS ==> (#[trigger] final(self).model.pads@[i]).switch_pad
                            == SwitchPad::Disconnected && final(self).model.pads@[i].is_neutral()
                    &&& bytes@ == spec_datagram(final(self).model.pads@, NUM_SLOTS as u16)
                },
                None => false,
            }),
            !(exists|i: int|
                0 <= i < NUM_SLOTS && (#[trigger] old(self).input_map.slots@[i]) is Some) ==> r
                is None && *final(self) == *old(self),
    {
        if self.input_map.has_mapped() {
            self.input_map.clear();
            Some(self.model.cleanup())
        } else {
            None
        }
    }

    /// Stops the client if it is currently running, cleaning up first: every
    /// mapped gamepad is disconnected, and when any was mapped the returned
    /// bytes are the all-disconnected datagram the caller should broadcast.
    /// Stopping a client that isn't running fails with no state change.
    pub fn stop(&mut self) -> (r: Result<Option<Vec<u8>>, String>)
        requires
            old(self).wf(),
        ensures
            final(self).wf(),
            !old(self).running ==> (r matches Err(m) && m@ == "The client isn't running."@ && *final(self) == *old(self)),
            old(self).running ==> {
                &&& final(self).running == false
                &&& final(self).same_config(old(self))
                &&& final(self).input_buffer == old(self).input_buffer
                &&& final(self).model.server_ip == old(self).model.server_ip
                &&& (exists|i: int|
                    0 <= i < NUM_SLOTS && (#[trigger] old(self).input_map.slots@[i]) is Some) ==> (
                match r {
                    Ok(Some(bytes)) => {
                        &&& forall|i: int|
                            0 <= i < NUM_SLOTS ==> (#[trigger] final(self).input_map.slots@[i]) is None
                        &&& forall|i: int|
                            0 <= i < NUM_SLOTS ==> (#[trigger] final(self).model.pads@[i]).switch_pad == SwitchPad::Disconnected && final(self).model.pads@[i].is_neutral()
                        &&& bytes@ == spec_datagram(final(self).model.pads@, NUM_SLOTS as u16)
                    },
                    _ => false,
                })
                &&& !(exists|i: int|
                    0 <= i < NUM_SLOTS && (#[trigger] old(self).input_map.slots@[i]) is Some)
                    ==> (r matches Ok(b) && b is None && final(self).model == old(self).model
                    && final(self).input_map == old(self).input_map)
            },
    {
        if self.running {
            self.running = false;
            Ok(self.cleanup())
        } else {
            Err("The client isn't running.".to_owned())
        }
    }

    /// Restarts the client: stop, then start. Restarting fails when the
    /// client isn't running, or — after the stop's cleanup — when the server
    /// IP has been blanked in the meantime. The first component carries the
    /// all-disconnected datagram to broadcast whenever the stop cleaned up
    /// mapped gamepads, even if the subsequent start failed.
    pub fn restart(&mut self) -> (r: (Option<Vec<u8>>, Result<String, String>))
        requires
            old(self).wf(),
        ensures
            final(self).wf(),
            !old(self).running ==> r.0 is None && (r.1 matches Err(m) && m@
                == "The client needs to be running in order to restart it."@) && *final(self)
                == *old(self),
            old(self).running ==> {
                &&& final(self).same_config(old(self))
                &&& final(self).input_buffer == old(self).input_buffer
                &&& final(self).model.server_ip == old(self).model.server_ip
                &&& final(self).running == (old(self).model.server_ip@.len() != 0)
                &&& (r.1 is Ok <==> old(self).model.server_ip@.len() != 0)
                &&& (exists|i: int|
                    0 <= i < NUM_SLOTS && (#[trigger] old(self).input_map.slots@[i]) is Some) ==> (
                match r.0 {
                    Some(bytes) => {
                        &&& forall|i: int|
                            0 <= i < NUM_SLOTS ==> (#[trigger] final(self).input_map.slots@[i]) is None
                        &&& forall|i: int|
                            0 <= i < NUM_SLOTS ==> (#[trigger] final(self).model.pads@[i]).switch_pad
                                == SwitchPad::Disconnected && final(self).model.pads@[i].is_neutral()
                        &&& bytes@ == spec_datagram(final(self).model.pads@, NUM_SLOTS as u16)
                    },
                    None => false,
                })
                &&& !(exists|i: int|
                    0 <= i < NUM_SLOTS && (#[trigger] old(self).input_map.slots@[i]) is Some)
                    ==> r.0 is None && final(self).model == old(self).model
                    && final(self).input_map == old(self).input_map
            },
    {
        if self.running {
            let cleanup_bytes = match self.stop() {
                Ok(bytes) => bytes,
                Err(e) => return (None, Err(e)),
            };
            match self.start() {
                Ok(started) => (cleanup_bytes, Ok(started)),
                Err(e) => (cleanup_bytes, Err(e)),
            }
        } else {
            (
                None,
                Err("The client needs to be running in order to restart it.".to_owned()),
            )
        }
    }

    /// Preps the client for an exit by stopping it if it is running. The
    /// returned bytes, if any, are the all-disconnected datagram to broadcast
    /// before the process exits.
    pub fn exit_prep(&mut self) -> (r: Option<Vec<u8>>)
        requires
            old(self).wf(),
        ensures
            final(self).wf(),
            final(self).running == false,
            final(self).same_config(old(self)),
            !old(self).running ==> r is None && *final(self) == *old(self),
            old(self).running && (exists|i: int|
                0 <= i < NUM_SLOTS && (#[trigger] old(self).input_map.slots@[i]) is Some) ==> (
            match r {
                Some(bytes) => {
                    &&& forall|i: int|
                        0 <= i < NUM_SLOTS ==> (#[trigger] final(self).input_map.slots@[i]) is None
                    &&& forall|i: int|
                        0 <= i < NUM_SLOTS ==> (#[trigger] final(self).model.pads@[i]).switch_pad
                            == SwitchPad::Disconnected && final(self).model.pads@[i].is_neutral()
                    &&& bytes@ == spec_datagram(final(self).model.pads@, NUM_SLOTS as u16)
                },
                None => false,
            }),
            old(self).running && !(exists|i: int|
                0 <= i < NUM_SLOTS && (#[trigger] old(self).input_map.slots@[i]) is Some) ==> r
                is None && final(self).model == old(self).model && final(self).input_map == old(
                self,
            ).input_map,
    {
        if self.running {
            match self.stop() {
                Ok(bytes) => bytes,
                Err(_) => None,
            }
        } else {
            None
        }
    }

    /// The device ids of every mapped gamepad, in slot order. The caller asks
    /// the input backend which of them are still connected and feeds the
    /// answers to the disconnect pass.
    pub fn mapped_gamepads(&self) -> (r: Vec<usize>)
        ensures
            r@ == crate::registry::spec_device_ids(self.input_map.slots@),
    {
        self.input_map.device_ids()
    }

    /// Disconnects the gamepad with the given id, if it is mapped: its slot's
    /// pad is cleared to the neutral disconnected state and the slot is freed
    /// for new connections. An unmapped id fails with no state change.
    pub fn disconnect(&mut self, gamepad_id: &usize) -> (r: Result<String, String>)
        requires
            old(self).wf(),
        ensures
            final(self).wf(),
            final(self).same_config(old(self)),
            final(self).running == old(self).running,
            final(self).input_buffer == old(self).input_buffer,
            final(self).model.server_ip == old(self).model.server_ip,
            (match spec_seq_slot_of(old(self).input_map.slots@, *gamepad_id) {
                Some(i) => {
                    &&& r matches Ok(m) && m@ == "Disconnected the gamepad from its slot."@
                    &&& final(self).input_map.slots@ == old(self).input_map.slots@.update(i, None)
                    &&& final(self).model.pads@ == old(self).model.pads@.update(
                        i,
                        spec_neutral_pad(),
                    )
                },
                None => {
                    &&& r matches Err(m) && m@ == "No gamepad with that id is connected."@
                    &&& final(self).input_map == old(self).input_map
                    &&& final(self).model == old(self).model
                },
            }),
    {
        match self.input_map.remove(gamepad_id) {
            Some(i) => {
                self.model.disconnect_pad(&i);
                proof {
                    assert(self.model.pads@ =~= old(self).model.pads@.update(
                        i as int,
                        spec_neutral_pad(),
                    ));
                }
                Ok("Disconnected the gamepad from its slot.".to_owned())
            },
            None => Err("No gamepad with that id is connected.".to_owned()),
        }
    }

    /// Fills the delay buffer with newly read events, in order. An event of a
    /// mapped gamepad waits its slot's configured input delay; an event of an
    /// unmapped gamepad is buffered with no delay, so connect presses are
    /// never held back.
    pub fn fill_input_buffer(&mut self, events: Vec<InputEvent>)
        requires
            old(self).wf(),
        ensures
            final(self).wf(),
            final(self).same_config(old(self)),
            final(self).running == old(self).running,
            final(self).input_map == old(self).input_map,
            final(self).model == old(self).model,
            final(self).input_buffer.entries@ == old(self).input_buffer.entries@
                + spec_delayed_batch(
                old(self).input_map.slots@,
                old(self).input_delays@,
                events@,
            ),
    {
        let n = events.len();
        let mut k: usize = 0;
        while k < n
            invariant
                0 <= k <= n,
                n == events@.len(),
                self.wf(),
                self.same_config(old(self)),
                self.running == old(self).running,
                self.input_map == old(self).input_map,
                self.model == old(self).model,
                self.input_buffer.entries@ == old(self).input_buffer.entries@
                    + spec_delayed_batch(
                    old(self).input_map.slots@,
                    old(self).input_delays@,
                    events@.take(k as int),
                ),
            decreases n - k,
        {
            let event = events[k];
            let device_id = *event.get_gamepad_id();
            let delay: u8 = match self.input_map.resolve(&device_id) {
                Some(i) => self.input_delays[i],
                None => 0,
            };
            self.input_buffer.enqueue(event, delay);
            proof {
                let slots = old(self).input_map.slots@;
                let delays = old(self).input_delays@;
                assert(delay == spec_delay_for(slots, delays, device_id));
                assert(spec_delayed_batch(slots, delays, events@.take(k + 1))
                    =~= spec_delayed_batch(slots, delays, events@.take(k as int)).push(
                    (event, delay),
                ));
                assert(self.input_buffer.entries@ =~= old(self).input_buffer.entries@
                    + spec_delayed_batch(slots, delays, events@.take(k + 1)));
            }
            k = k + 1;
        }
        proof {
            assert(events@.take(n as int) =~= events@);
        }
    }

    /// Attempts to assign the given gamepad id to an open slot: slots are
    /// scanned in index order, and the first one that is unoccupied and
    /// configured with a pad type other than `Disconnected` is claimed — the
    /// slot maps to the gamepad and its pad connects as the configured type.
    /// With no eligible slot the attempt fails and nothing changes.
    pub fn connect(&mut self, gamepad_id: &usize) -> (r: Result<String, String>)
        requires
            old(self).wf(),
            !spec_seq_contains(old(self).input_map.slots@, *gamepad_id),
        ensures
            final(self).wf(),
            final(self).same_config(old(self)),
            final(self).running == old(self).running,
            final(self).input_buffer == old(self).input_buffer,
            final(self).model.server_ip == old(self).model.server_ip,
            ({
                let (st, connected) = spec_connect_outcome(
                    old(self).tick_state(),
                    old(self).switch_pads@,
                    *gamepad_id,
                );
                &&& final(self).tick_state() == st
                &&& connected ==> (r matches Ok(m) && m@ == "Gamepad connected to a slot."@)
                &&& !connected ==> (r matches Err(m) && m@
                    == "Couldn't connect the gamepad since no slots are available."@)
            }),
    {
        let ghost st0 = old(self).tick_state();
        let ghost cfg = old(self).switch_pads@;
        let mut i: usize = 0;
        while i < NUM_SLOTS
            invariant
                0 <= i <= NUM_SLOTS,
                self.wf(),
                *self == *old(self),
                !spec_seq_contains(old(self).input_map.slots@, *gamepad_id),
                st0 == old(self).tick_state(),
                cfg == old(self).switch_pads@,
                spec_first_eligible_from(st0, cfg, 0) == spec_first_eligible_from(
                    st0,
                    cfg,
                    i as int,
                ),
            decreases NUM_SLOTS - i,
        {
            if !self.input_map.is_occupied(i) {
                let switch_pad = self.switch_pads[i];
                if switch_pad != SwitchPad::Disconnected {
                    proof {
                        assert(spec_slot_eligible(st0, cfg, i as int));
                        assert(spec_first_eligible_from(st0, cfg, 0) == Some(i as int));
                    }
                    self.input_map.insert(*gamepad_id, i);
                    self.model.connect_pad(&i, &switch_pad);
                    proof {
                        let (st, connected) = spec_connect_outcome(st0, cfg, *gamepad_id);
                        assert(self.tick_state() =~= st);
                    }
                    return Ok("Gamepad connected to a slot.".to_owned());
                }
            }
            i = i + 1;
        }
        Err("Couldn't connect the gamepad since no slots are available.".to_owned())
    }

    /// Parses the events whose delay has elapsed, in arrival order, and
    /// updates the corresponding gamepads: a mapped gamepad's event mutates
    /// its slot's pad, an unmapped gamepad's Right-Bumper press (value 1)
    /// attempts a connection, and any other unmapped event is dropped. The
    /// remaining buffered events wait one tick less. One result per
    /// connection attempt is returned, in order.
    pub fn parse_input_buffer(&mut self) -> (results: Vec<Result<String, String>>)
        requires
            old(self).wf(),
        ensures
            final(self).wf(),
            final(self).same_config(old(self)),
            final(self).running == old(self).running,
            final(self).model.server_ip == old(self).model.server_ip,
            final(self).input_buffer.entries@ == spec_delayed_entries(
                old(self).input_buffer.entries@,
            ),
            ({
                let ready = spec_ready_events(old(self).input_buffer.entries@);
                let (st, outcomes) = spec_apply_events(
                    old(self).tick_state(),
                    old(self).switch_pads@,
                    ready,
                );
                &&& final(self).tick_state() == st
                &&& results@.len() == outcomes.len()
                &&& forall|j: int|
                    0 <= j < outcomes.len() ==> (if outcomes[j] {
                        (#[trigger] results@[j]) matches Ok(m) && m@
                            == "Gamepad connected to a slot."@
                    } else {
                        results@[j] matches Err(m) && m@
                            == "Couldn't connect the gamepad since no slots are available."@
                    })
            }),
    {
        let ghost st0 = old(self).tick_state();
        let ghost cfg = old(self).switch_pads@;
        let ready = self.input_buffer.drain_ready();
        let mut results: Vec<Result<String, String>> = Vec::new();
        let n = ready.len();
        let mut k: usize = 0;
        while k < n
            invariant
                0 <= k <= n,
                n == ready@.len(),
                self.wf(),
                self.same_config(old(self)),
                self.running == old(self).running,
                self.model.server_ip == old(self).model.server_ip,
                self.input_buffer.entries@ == spec_delayed_entries(
                    old(self).input_buffer.entries@,
                ),
                cfg == old(self).switch_pads@,
                cfg == self.switch_pads@,
                ready@ == spec_ready_events(old(self).input_buffer.entries@),
                ({
                    let (st, outcomes) = spec_apply_events(st0, cfg, ready@.take(k as int));
                    &&& self.tick_state() == st
                    &&& results@.len() == outcomes.len()
                    &&& forall|j: int|
                        0 <= j < outcomes.len() ==> (if outcomes[j] {
                            (#[trigger] results@[j]) matches Ok(m) && m@
                                == "Gamepad connected to a slot."@
                        } else {
                            results@[j] matches Err(m) && m@
                                == "Couldn't connect the gamepad since no slots are available."@
                        })
                }),
                st0 == old(self).tick_state(),
            decreases n - k,
        {
            proof {
                assert(ready@.take(k + 1).drop_last() =~= ready@.take(k as int));
                assert(ready@.take(k + 1).last() == ready@[k as int]);
            }
            let event = ready[k];
            let device_id = *event.get_gamepad_id();
            match self.input_map.resolve(&device_id) {
                Some(i) => {
                    self.model.update_pad(&i, &event);
                    proof {
                        let (st, outcomes) = spec_apply_events(st0, cfg, ready@.take(k + 1));
                        assert(self.tick_state() =~= st);
                    }
                },
                None => {
                    match event {
                        InputEvent::GamepadButton(trigger_id, button, value) => {
                            if button == InputButton::RightBumper && value == 1 {
                                let outcome = self.connect(&trigger_id);
                                results.push(outcome);
                            }
                        },
                        InputEvent::GamepadAxis(_, _, _) => (),
                    }
                    proof {
                        let (st, outcomes) = spec_apply_events(st0, cfg, ready@.take(k + 1));
                        assert(self.tick_state() =~= st);
                    }
                },
            }
            k = k + 1;
        }
        proof {
            assert(ready@.take(n as int) =~= ready@);
        }
        results
    }

    /// One tick of the data plane, to be called at a fixed time interval
    /// while the caller also transmits the datagram. In load-bearing order:
    /// first the disconnect pass over the devices the input backend reported
    /// gone, then ingestion of the newly read events into the delay buffer,
    /// then the drain-and-apply pass over the events whose delay elapsed.
    /// A client that isn't running does nothing. The results report each
    /// disconnection and each connection attempt, in order.
    pub fn update(&mut self, disconnected: &Vec<usize>, events: Vec<InputEvent>) -> (results: Vec<
        Result<String, String>,
    >)
        requires
            old(self).wf(),
        ensures
            final(self).wf(),
            !old(self).running ==> *final(self) == *old(self) && results@.len() == 0,
            old(self).running ==> ({
                let (mid, disconnect_outcomes) = spec_disconnect_pass(
                    old(self).tick_state(),
                    disconnected@,
                );
                let entries = old(self).input_buffer.entries@ + spec_delayed_batch(
                    mid.slots,
                    old(self).input_delays@,
                    events@,
                );
                let ready = spec_ready_events(entries);
                let (st, connect_outcomes) = spec_apply_events(
                    mid,
                    old(self).switch_pads@,
                    ready,
                );
                &&& final(self).tick_state() == st
                &&& final(self).input_buffer.entries@ == spec_delayed_entries(entries)
                &&& final(self).same_config(old(self))
                &&& final(self).running == old(self).running
                &&& final(self).model.server_ip == old(self).model.server_ip
                &&& results@.len() == disconnect_outcomes.len() + connect_outcomes.len()
                &&& forall|j: int|
                    0 <= j < disconnect_outcomes.len() ==> (if disconnect_outcomes[j] {
                        (#[trigger] results@[j]) matches Ok(m) && m@
                            == "Disconnected the gamepad from its slot."@
                    } else {
                        results@[j] matches Err(m) && m@
                            == "No gamepad with that id is connected."@
                    })
                &&& forall|j: int|
                    0 <= j < connect_outcomes.len() ==> (if connect_outcomes[j] {
                        (#[trigger] results@[disconnect_outcomes.len() + j]) matches Ok(m) && m@
                            == "Gamepad connected to a slot."@
                    } else {
                        results@[disconnect_outcomes.len() + j] matches Err(m) && m@
                            == "Couldn't connect the gamepad since no slots are available."@
                    })
            }),
    {
        let ghost st0 = old(self).tick_state();
        let mut results: Vec<Result<String, String>> = Vec::new();
        if !self.running {
            return results;
        }
        let m = disconnected.len();
        let mut j: usize = 0;
        while j < m
            invariant
                0 <= j <= m,
                m == disconnected@.len(),
                self.wf(),
                self.same_config(old(self)),
                self.running == old(self).running,
                self.model.server_ip == old(self).model.server_ip,
                self.input_buffer == old(self).input_buffer,
                self.input_delays == old(self).input_delays,
                st0 == old(self).tick_state(),
                ({
                    let (mid, outcomes) = spec_disconnect_pass(st0, disconnected@.take(j as int));
                    &&& self.tick_state() == mid
                    &&& results@.len() == outcomes.len()
                    &&& forall|i: int|
                        0 <= i < outcomes.len() ==> (if outcomes[i] {
                            (#[trigger] results@[i]) matches Ok(msg) && msg@
                                == "Disconnected the gamepad from its slot."@
                        } else {
                            results@[i] matches Err(msg) && msg@
                                == "No gamepad with that id is connected."@
                        })
                }),
            decreases m - j,
        {
            proof {
                assert(disconnected@.take(j + 1).drop_last() =~= disconnected@.take(j as int));
                assert(disconnected@.take(j + 1).last() == disconnected@[j as int]);
            }
            let outcome = self.disconnect(&disconnected[j]);
            results.push(outcome);
            proof {
                let (mid, outcomes) = spec_disconnect_pass(st0, disconnected@.take(j + 1));
                assert(self.tick_state() =~= mid);
            }
            j = j + 1;
        }
        proof {
            assert(disconnected@.take(m as int) =~= disconnected@);
        }
        self.fill_input_buffer(events);
        let mut connect_results = self.parse_input_buffer();
        results.append(&mut connect_results);
        results
    }

    /// Builds the datagram carrying the current pad states; the caller sends
    /// it to the input server once per tick while running.
    pub fn datagram(&self) -> (r: Vec<u8>)
        requires
            self.wf(),
        ensures
            r@ == spec_datagram(self.model.pads@, NUM_SLOTS as u16),
    {
        self.model.datagram()
    }
}

/// The connect policy selects the lowest-indexed eligible slot: scanning from
/// `k`, a found slot is eligible and every slot before it (from `k` on) is
/// not; when nothing is found, no slot from `k` on is eligible.
pub proof fn lemma_first_eligible_least(st: TickState, switch_pads: Seq<SwitchPad>, k: int)
    requires
        0 <= k,
    ensures
        (match spec_first_eligible_from(st, switch_pads, k) {
            Some(i) => {
                &&& k <= i < NUM_SLOTS
                &&& spec_slot_eligible(st, switch_pads, i)
                &&& forall|j: int| k <= j < i ==> !spec_slot_eligible(st, switch_pads, j)
            },
            None => forall|j: int| k <= j < NUM_SLOTS ==> !spec_slot_eligible(st, switch_pads, j),
        }),
    decreases NUM_SLOTS - k,
{
    if k < NUM_SLOTS && !spec_slot_eligible(st, switch_pads, k) {
        lemma_first_eligible_least(st, switch_pads, k + 1);
    }
}

/// The failing half of the connect policy: with all slots configured
/// `Disconnected`, a connection attempt fails and the state — pads and slot
/// assignments alike — is unchanged.
pub proof fn lemma_connect_all_disconnected(
    st: TickState,
    switch_pads: Seq<SwitchPad>,
    device_id: usize,
)
    requires
        switch_pads.len() == NUM_SLOTS,
        forall|i: int|
            0 <= i < NUM_SLOTS ==> (#[trigger] switch_pads[i]) == SwitchPad::Disconnected,
    ensures
        spec_connect_outcome(st, switch_pads, device_id) == (st, false),
{
    lemma_first_eligible_least(st, switch_pads, 0);
    match spec_first_eligible_from(st, switch_pads, 0) {
        Some(i) => {
            assert(spec_slot_eligible(st, switch_pads, i));
            assert(false);
        },
        None => (),
    }
}

/// Disconnect propagation frees the slot: after a mapped device is
/// disconnected, its former slot is unoccupied, so it is eligible for new
/// connections whenever its configured pad type is not `Disconnected`.
pub proof fn lemma_disconnect_frees_slot(
    st: TickState,
    switch_pads: Seq<SwitchPad>,
    device_id: usize,
)
    requires
        st.pads.len() == st.slots.len(),
        spec_seq_slot_of(st.slots, device_id) is Some,
    ensures
        ({
            let i = spec_seq_slot_of(st.slots, device_id)->0;
            let next = spec_disconnect_device(st, device_id);
            &&& next.slots[i] is None
            &&& next.pads[i] == spec_neutral_pad()
            &&& switch_pads[i] != SwitchPad::Disconnected ==> spec_slot_eligible(
                next,
                switch_pads,
                i,
            )
        }),
{
    let i = spec_seq_slot_of(st.slots, device_id)->0;
    assert(spec_seq_contains(st.slots, device_id));
    assert(spec_seq_maps(st.slots, device_id, i));
}

} // verus!
