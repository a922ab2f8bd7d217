//! A verified core for a controller-virtualization client.
//!
//! Physical gamepads are multiplexed onto eight emulated controller slots;
//! each slot keeps a bit-packed button mask and two analog sticks, input
//! events can be held back for a configurable number of ticks, and every
//! tick the full slot array is serialized into one fixed-layout datagram
//! for an input server to consume.

pub mod buffer;
pub mod config;
pub mod controller;
pub mod input;
pub mod model;
pub mod protocol;
pub mod registry;
pub mod switch;

use vstd::prelude::*;

verus! {

/// The fixed number of emulated controller slots.
pub const NUM_SLOTS: usize = 8;

} // verus!
