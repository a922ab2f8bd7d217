//! The model of the input client: the eight emulated gamepads and the address
//! of the input server they are streamed to. The model mutates pads and
//! produces outbound datagrams; the surrounding application owns the socket
//! and performs the actual sends.

use vstd::prelude::*;

use crate::input::InputEvent;
use crate::protocol::{encode_pads, spec_datagram};
use crate::switch::{spec_pad_update, EmulatedPad, SwitchPad};
use crate::NUM_SLOTS;

verus! {

/// The model for an input client: it keeps track of the emulated gamepads
/// and builds the datagrams that carry their states to the input server.
pub struct ClientModel {
    pub server_ip: String,
    pub pads: Vec<EmulatedPad>,
}

impl ClientModel {
    /// Well-formedness: one pad per slot, each with a well-formed key mask.
    pub open spec fn wf(&self) -> bool {
        &&& self.pads@.len() == NUM_SLOTS
        &&& forall|i: int| 0 <= i < NUM_SLOTS ==> (#[trigger] self.pads@[i]).mask_wf()
    }

    /// Constructs a model where all emulated gamepads are initially set to
    /// `Disconnected` and the server IP is blank; the latter can be updated
    /// through its setter.
    pub fn new() -> (r: ClientModel)
        ensures
            r.wf(),
            r.server_ip@ == Seq::<char>::empty(),
            forall|i: int|
                0 <= i < NUM_SLOTS ==> (#[trigger] r.pads@[i]).switch_pad
                    == SwitchPad::Disconnected && r.pads@[i].is_neutral(),
    {
        let mut pads: Vec<EmulatedPad> = Vec::new();
        let mut i: usize = 0;
        while i < NUM_SLOTS
            invariant
                0 <= i <= NUM_SLOTS,
                pads@.len() == i,
                forall|j: int|
                    0 <= j < i ==> (#[trigger] pads@[j]).switch_pad == SwitchPad::Disconnected
                        && pads@[j].is_neutral() && pads@[j].mask_wf(),
            decreases NUM_SLOTS - i,
        {
            pads.push(EmulatedPad::new());
            i = i + 1;
        }
        ClientModel { server_ip: String::new(), pads }
    }

    /// Returns the server IP.
    pub fn get_server_ip(&self) -> (r: &String)
        ensures
            r@ == self.server_ip@,
    {
        &self.server_ip
    }

    /// Sets the server IP.
    pub fn set_server_ip(&mut self, server_ip: &String)
        ensures
            final(self).server_ip@ == server_ip@,
            final(self).pads == old(self).pads,
    {
        self.server_ip = server_ip.clone();
    }

    /// Returns the number of emulated gamepads in this model.
    pub fn num_pads(&self) -> (r: usize)
        ensures
            r == self.pads@.len(),
    {
        self.pads.len()
    }

    /// Returns a read-only view of the emulated gamepads.
    pub fn get_pads(&self) -> (r: &Vec<EmulatedPad>)
        ensures
            r@ == self.pads@,
    {
        &self.pads
    }

    /// Disconnects a target gamepad: its slot stays, but its type returns to
    /// `Disconnected` and its mask and sticks are cleared.
    pub fn disconnect_pad(&mut self, i: &usize)
        requires
            *i < old(self).pads@.len(),
        ensures
            final(self).pads@.len() == old(self).pads@.len(),
            final(self).pads@[*i as int].switch_pad == SwitchPad::Disconnected,
            final(self).pads@[*i as int].is_neutral(),
            final(self).pads@[*i as int].mask_wf(),
            forall|j: int|
                0 <= j < old(self).pads@.len() && j != *i ==> final(self).pads@[j] == old(
                    self,
                ).pads@[j],
            final(self).server_ip == old(self).server_ip,
    {
        let mut pad = self.pads[*i];
        pad.disconnect();
        self.pads.set(*i, pad);
    }

    /// Updates a target gamepad with one input event.
    pub fn update_pad(&mut self, i: &usize, event: &InputEvent)
        requires
            *i < old(self).pads@.len(),
            old(self).pads@[*i as int].mask_wf(),
        ensures
            final(self).pads@.len() == old(self).pads@.len(),
            final(self).pads@[*i as int] == spec_pad_update(old(self).pads@[*i as int], *event),
            final(self).pads@[*i as int].mask_wf(),
            forall|j: int|
                0 <= j < old(self).pads@.len() && j != *i ==> final(self).pads@[j] == old(
                    self,
                ).pads@[j],
            final(self).server_ip == old(self).server_ip,
    {
        let mut pad = self.pads[*i];
        pad.update(event);
        self.pads.set(*i, pad);
    }

    /// Connects a target gamepad by assigning it the given Switch pad type;
    /// its mask and sticks are untouched.
    pub fn connect_pad(&mut self, i: &usize, switch_pad: &SwitchPad)
        requires
            *i < old(self).pads@.len(),
        ensures
            final(self).pads@.len() == old(self).pads@.len(),
            final(self).pads@[*i as int] == (EmulatedPad {
                switch_pad: *switch_pad,
                ..old(self).pads@[*i as int]
            }),
            forall|j: int|
                0 <= j < old(self).pads@.len() && j != *i ==> final(self).pads@[j] == old(
                    self,
                ).pads@[j],
            final(self).server_ip == old(self).server_ip,
    {
        let mut pad = self.pads[*i];
        pad.connect(*switch_pad);
        self.pads.set(*i, pad);
    }

    /// Builds the datagram that carries the current emulated pad states to
    /// the input server; the caller transmits it.
    pub fn datagram(&self) -> (r: Vec<u8>)
        requires
            self.wf(),
        ensures
            r@ == spec_datagram(self.pads@, NUM_SLOTS as u16),
    {
        encode_pads(&self.pads, NUM_SLOTS as i8)
    }

    /// Disconnects every emulated gamepad and returns the all-disconnected
    /// datagram. Since the wire protocol has no acknowledged disconnect, the
    /// caller should re-send these bytes for a bounded window so the remote
    /// receiver observes at least one disconnect frame despite packet loss.
    pub fn cleanup(&mut self) -> (r: Vec<u8>)
        requires
            old(self).wf(),
        ensures
            final(self).wf(),
            final(self).server_ip == old(self).server_ip,
            forall|i: int|
                0 <= i < NUM_SLOTS ==> (#[trigger] final(self).pads@[i]).switch_pad
                    == SwitchPad::Disconnected && final(self).pads@[i].is_neutral(),
            r@ == spec_datagram(final(self).pads@, NUM_SLOTS as u16),
    {
        let mut i: usize = 0;
        while i < NUM_SLOTS
            invariant
                0 <= i <= NUM_SLOTS,
                self.wf(),
                self.server_ip == old(self).server_ip,
                forall|j: int|
                    0 <= j < i ==> (#[trigger] self.pads@[j]).switch_pad
                        == SwitchPad::Disconnected && self.pads@[j].is_neutral(),
            decreases NUM_SLOTS - i,
        {
            self.disconnect_pad(&i);
            i = i + 1;
        }
        self.datagram()
    }
}

} // verus!
