//! The client configuration: the server IP, and per-slot settings — the
//! Switch pad type each slot emulates, its input delay in ticks, and its
//! analog deadzone radii. Persisting the configuration is the surrounding
//! application's job; the core holds the plain values. The deadzone radii are
//! carried as configuration only: the axis-update path assigns raw stick
//! values and applies no scaling or clipping at this layer.

use vstd::prelude::*;

use crate::switch::SwitchPad;
use crate::NUM_SLOTS;

verus! {

/// A configuration for a client:
/// - `server_ip` is the IP of the target input server.
/// - `switch_pads` are the Switch controller types each slot will emulate.
/// - `input_delays` are the per-slot input delays, in ticks.
/// - `left_deadzones` / `right_deadzones` are the per-slot deadzone radii,
///   in raw axis units (a fraction of 32767).
/// - `manual_assign` is whether gamepads are assigned by the connect button.
/// - `anarchy_mode` is whether all gamepads control a single slot.
pub struct Config {
    pub server_ip: String,
    pub switch_pads: Vec<SwitchPad>,
    pub input_delays: Vec<u8>,
    pub left_deadzones: Vec<u16>,
    pub right_deadzones: Vec<u16>,
    pub manual_assign: bool,
    pub anarchy_mode: bool,
}

impl Config {
    /// Well-formedness: one entry per slot in every per-slot list.
    pub open spec fn wf(&self) -> bool {
        &&& self.switch_pads@.len() == NUM_SLOTS
        &&& self.input_delays@.len() == NUM_SLOTS
        &&& self.left_deadzones@.len() == NUM_SLOTS
        &&& self.right_deadzones@.len() == NUM_SLOTS
    }

    /// Constructs a configuration from its parts.
    pub fn new(
        server_ip: String,
        switch_pads: Vec<SwitchPad>,
        input_delays: Vec<u8>,
        left_deadzones: Vec<u16>,
        right_deadzones: Vec<u16>,
        manual_assign: bool,
        anarchy_mode: bool,
    ) -> (r: Config)
        ensures
            r.server_ip == server_ip,
            r.switch_pads == switch_pads,
            r.input_delays == input_delays,
            r.left_deadzones == left_deadzones,
            r.right_deadzones == right_deadzones,
            r.manual_assign == manual_assign,
            r.anarchy_mode == anarchy_mode,
    {
        Config {
            server_ip,
            switch_pads,
            input_delays,
            left_deadzones,
            right_deadzones,
            manual_assign,
            anarchy_mode,
        }
    }

    /// Returns the server IP.
    pub fn get_server_ip(&self) -> (r: &String)
        ensures
            r == &self.server_ip,
    {
        &self.server_ip
    }

    /// Returns the per-slot Switch pad types.
    pub fn get_switch_pads(&self) -> (r: &Vec<SwitchPad>)
        ensures
            r == &self.switch_pads,
    {
        &self.switch_pads
    }

    /// Returns the per-slot input delays.
    pub fn get_input_delays(&self) -> (r: &Vec<u8>)
        ensures
            r == &self.input_delays,
    {
        &self.input_delays
    }

    /// Returns the per-slot left-stick deadzone radii.
    pub fn get_left_deadzones(&self) -> (r: &Vec<u16>)
        ensures
            r == &self.left_deadzones,
    {
        &self.left_deadzones
    }

    /// Returns the per-slot right-stick deadzone radii.
    pub fn get_right_deadzones(&self) -> (r: &Vec<u16>)
        ensures
            r == &self.right_deadzones,
    {
        &self.right_deadzones
    }

    /// Returns whether gamepads are assigned manually.
    pub fn get_manual_assign(&self) -> (r: &bool)
        ensures
            r == &self.manual_assign,
    {
        &self.manual_assign
    }

    /// Returns whether anarchy mode is enabled.
    pub fn get_anarchy_mode(&self) -> (r: &bool)
        ensures
            r == &self.anarchy_mode,
    {
        &self.anarchy_mode
    }
}

impl Default for Config {
    /// The default configuration: a blank server IP, every slot emulating a
    /// Pro Controller with no input delay and no deadzone, manual assignment
    /// on, anarchy mode off.
    fn default() -> (r: Config)
        ensures
            r.wf(),
            r.server_ip@ == Seq::<char>::empty(),
            forall|i: int|
                0 <= i < NUM_SLOTS ==> (#[trigger] r.switch_pads@[i]) == SwitchPad::ProController,
            forall|i: int| 0 <= i < NUM_SLOTS ==> (#[trigger] r.input_delays@[i]) == 0,
            forall|i: int| 0 <= i < NUM_SLOTS ==> (#[trigger] r.left_deadzones@[i]) == 0,
            forall|i: int| 0 <= i < NUM_SLOTS ==> (#[trigger] r.right_deadzones@[i]) == 0,
            r.manual_assign == true,
            r.anarchy_mode == false,
    {
        let mut switch_pads: Vec<SwitchPad> = Vec::new();
        let mut input_delays: Vec<u8> = Vec::new();
        let mut left_deadzones: Vec<u16> = Vec::new();
        let mut right_deadzones: Vec<u16> = Vec::new();
        let mut i: usize = 0;
        while i < NUM_SLOTS
            invariant
                0 <= i <= NUM_SLOTS,
                switch_pads@.len() == i,
                input_delays@.len() == i,
                left_deadzones@.len() == i,
                right_deadzones@.len() == i,
                forall|j: int|
                    0 <= j < i ==> (#[trigger] switch_pads@[j]) == SwitchPad::ProController,
                forall|j: int| 0 <= j < i ==> (#[trigger] input_delays@[j]) == 0,
                forall|j: int| 0 <= j < i ==> (#[trigger] left_deadzones@[j]) == 0,
                forall|j: int| 0 <= j < i ==> (#[trigger] right_deadzones@[j]) == 0,
            decreases NUM_SLOTS - i,
        {
            switch_pads.push(SwitchPad::ProController);
            input_delays.push(0);
            left_deadzones.push(0);
            right_deadzones.push(0);
            i = i + 1;
        }
        Config {
            server_ip: String::new(),
            switch_pads,
            input_delays,
            left_deadzones,
            right_deadzones,
            manual_assign: true,
            anarchy_mode: false,
        }
    }
}

} // verus!
