//! The emulated Switch controller: the set of emulated pad types, the target
//! buttons with their wire bit positions, the pad-type-dependent remapping of
//! universal inputs, and the bit-packed per-slot controller state.

use vstd::prelude::*;

use crate::input::{InputAxis, InputButton, InputEvent};

verus! {

/// The Switch controller types a slot can emulate. `Disconnected` stands for
/// an empty slot.
#[derive(Copy, Clone, Debug, PartialEq, Eq, Structural)]
pub enum SwitchPad {
    Disconnected,
    ProController,
    JoyConLSide,
    JoyConRSide,
}

/// The buttons of an emulated Switch controller. Their order fixes the wire
/// format: each button owns one bit of the key mask, assigned sequentially
/// from bit 0.
#[derive(Copy, Clone, Debug, PartialEq, Eq, Structural)]
pub enum SwitchButton {
    A,
    B,
    X,
    Y,
    LST,
    RST,
    L,
    R,
    ZL,
    ZR,
    Plus,
    Minus,
    DL,
    DU,
    DR,
    DD,
    LL,
    LU,
    LR,
    LD,
    RL,
    RU,
    RR,
    RD,
    SLL,
    SRL,
    SLR,
    SRR,
}

/// The key-mask bit owned by each Switch button. These exact values are a
/// wire-format contract with the remote receiver.
pub open spec fn spec_button_value(button: SwitchButton) -> i32 {
    match button {
        SwitchButton::A => 0x1,
        SwitchButton::B => 0x2,
        SwitchButton::X => 0x4,
        SwitchButton::Y => 0x8,
        SwitchButton::LST => 0x10,
        SwitchButton::RST => 0x20,
        SwitchButton::L => 0x40,
        SwitchButton::R => 0x80,
        SwitchButton::ZL => 0x100,
        SwitchButton::ZR => 0x200,
        SwitchButton::Plus => 0x400,
        SwitchButton::Minus => 0x800,
        SwitchButton::DL => 0x1000,
        SwitchButton::DU => 0x2000,
        SwitchButton::DR => 0x4000,
        SwitchButton::DD => 0x8000,
        SwitchButton::LL => 0x10000,
        SwitchButton::LU => 0x20000,
        SwitchButton::LR => 0x40000,
        SwitchButton::LD => 0x80000,
        SwitchButton::RL => 0x100000,
        SwitchButton::RU => 0x200000,
        SwitchButton::RR => 0x400000,
        SwitchButton::RD => 0x800000,
        SwitchButton::SLL => 0x1000000,
        SwitchButton::SRL => 0x2000000,
        SwitchButton::SLR => 0x4000000,
        SwitchButton::SRR => 0x8000000,
    }
}

/// The remap from a universal input button to a Switch button, keyed by the
/// emulated pad type. Most buttons map one-to-one; the four face buttons
/// rotate with sideways Joy-Cons, and some inputs have no mapping at all.
pub open spec fn spec_map_button(button: InputButton, switch_pad: SwitchPad) -> Option<
    SwitchButton,
> {
    match button {
        InputButton::DPadUp => Some(SwitchButton::DU),
        InputButton::DPadRight => Some(SwitchButton::DR),
        InputButton::DPadDown => Some(SwitchButton::DD),
        InputButton::DPadLeft => Some(SwitchButton::DL),
        InputButton::LeftStick => Some(SwitchButton::LST),
        InputButton::RightStick => Some(SwitchButton::RST),
        InputButton::LeftBumper => Some(SwitchButton::L),
        InputButton::RightBumper => Some(SwitchButton::R),
        InputButton::LeftTrigger => Some(SwitchButton::ZL),
        InputButton::RightTrigger => Some(SwitchButton::ZR),
        InputButton::Start => Some(SwitchButton::Plus),
        InputButton::Select => Some(SwitchButton::Minus),
        InputButton::North => match switch_pad {
            SwitchPad::Disconnected => None,
            SwitchPad::ProController => Some(SwitchButton::X),
            SwitchPad::JoyConLSide => Some(SwitchButton::DR),
            SwitchPad::JoyConRSide => Some(SwitchButton::Y),
        },
        InputButton::East => match switch_pad {
            SwitchPad::Disconnected => None,
            SwitchPad::ProController => Some(SwitchButton::A),
            SwitchPad::JoyConLSide => Some(SwitchButton::DD),
            SwitchPad::JoyConRSide => Some(SwitchButton::X),
        },
        InputButton::South => match switch_pad {
            SwitchPad::Disconnected => None,
            SwitchPad::ProController => Some(SwitchButton::B),
            SwitchPad::JoyConLSide => Some(SwitchButton::DL),
            SwitchPad::JoyConRSide => Some(SwitchButton::A),
        },
        InputButton::West => match switch_pad {
            SwitchPad::Disconnected => None,
            SwitchPad::ProController => Some(SwitchButton::Y),
            SwitchPad::JoyConLSide => Some(SwitchButton::DU),
            SwitchPad::JoyConRSide => Some(SwitchButton::B),
        },
        InputButton::Guide => None,
    }
}

impl SwitchButton {
    /// Returns the key-mask bit corresponding to this button.
    pub fn value(&self) -> (r: i32)
        ensures
            r == spec_button_value(*self),
            0 < r < 0x10000000,
    {
        match self {
            Self::A => 0x1,
            Self::B => 0x2,
            Self::X => 0x4,
            Self::Y => 0x8,
            Self::LST => 0x10,
            Self::RST => 0x20,
            Self::L => 0x40,
            Self::R => 0x80,
            Self::ZL => 0x100,
            Self::ZR => 0x200,
            Self::Plus => 0x400,
            Self::Minus => 0x800,
            Self::DL => 0x1000,
            Self::DU => 0x2000,
            Self::DR => 0x4000,
            Self::DD => 0x8000,
            Self::LL => 0x10000,
            Self::LU => 0x20000,
            Self::LR => 0x40000,
            Self::LD => 0x80000,
            Self::RL => 0x100000,
            Self::RU => 0x200000,
            Self::RR => 0x400000,
            Self::RD => 0x800000,
            Self::SLL => 0x1000000,
            Self::SRL => 0x2000000,
            Self::SLR => 0x4000000,
            Self::SRR => 0x8000000,
        }
    }

    /// Maps a universal input button to a Switch button for the given pad
    /// type, or reports why no mapping exists.
    pub fn map_button(button: &InputButton, switch_pad: &SwitchPad) -> (r: Result<
        SwitchButton,
        String,
    >)
        ensures
            (match spec_map_button(*button, *switch_pad) {
                Some(mapped) => r matches Ok(b) && b == mapped,
                None => r is Err,
            }),
    {
        match button {
            InputButton::DPadUp => Ok(Self::DU),
            InputButton::DPadRight => Ok(Self::DR),
            InputButton::DPadDown => Ok(Self::DD),
            InputButton::DPadLeft => Ok(Self::DL),
            InputButton::LeftStick => Ok(Self::LST),
            InputButton::RightStick => Ok(Self::RST),
            InputButton::LeftBumper => Ok(Self::L),
            InputButton::RightBumper => Ok(Self::R),
            InputButton::LeftTrigger => Ok(Self::ZL),
            InputButton::RightTrigger => Ok(Self::ZR),
            InputButton::Start => Ok(Self::Plus),
            InputButton::Select => Ok(Self::Minus),
            InputButton::North => match switch_pad {
                SwitchPad::Disconnected => Err("No map for disconnected pad.".to_owned()),
                SwitchPad::ProController => Ok(Self::X),
                SwitchPad::JoyConLSide => Ok(Self::DR),
                SwitchPad::JoyConRSide => Ok(Self::Y),
            },
            InputButton::East => match switch_pad {
                SwitchPad::Disconnected => Err("No map for disconnected pad.".to_owned()),
                SwitchPad::ProController => Ok(Self::A),
                SwitchPad::JoyConLSide => Ok(Self::DD),
                SwitchPad::JoyConRSide => Ok(Self::X),
            },
            InputButton::South => match switch_pad {
                SwitchPad::Disconnected => Err("No map for disconnected pad.".to_owned()),
                SwitchPad::ProController => Ok(Self::B),
                SwitchPad::JoyConLSide => Ok(Self::DL),
                SwitchPad::JoyConRSide => Ok(Self::A),
            },
            InputButton::West => match switch_pad {
                SwitchPad::Disconnected => Err("No map for disconnected pad.".to_owned()),
                SwitchPad::ProController => Ok(Self::Y),
                SwitchPad::JoyConLSide => Ok(Self::DU),
                SwitchPad::JoyConRSide => Ok(Self::B),
            },
            InputButton::Guide => Err("No map for the guide button.".to_owned()),
        }
    }
}

/// One emulated Switch controller: the emulated pad type, the pressed buttons
/// as a bit-packed key mask, and the two analog sticks.
#[derive(Copy, Clone, Debug)]
pub struct EmulatedPad {
    pub switch_pad: SwitchPad,
    pub keyout: i32,
    pub left: (i16, i16),
    pub right: (i16, i16),
}

/// Setting or clearing one mask bit: bitwise OR for a press (any non-zero
/// value), bitwise AND with the complement for a release.
pub open spec fn spec_set_del_bit(keyout: i32, bit: i32, value: i16) -> i32 {
    if value != 0 {
        keyout | bit
    } else {
        keyout & !bit
    }
}

/// The key mask after a button event: the universal button is remapped by the
/// current pad type, and the resulting bit is set or cleared; events with no
/// mapping (including every button on a disconnected pad) are dropped.
pub open spec fn spec_update_keyout(pad: EmulatedPad, button: InputButton, value: i16) -> EmulatedPad {
    if pad.switch_pad != SwitchPad::Disconnected {
        match spec_map_button(button, pad.switch_pad) {
            Some(mapped) => EmulatedPad {
                keyout: spec_set_del_bit(pad.keyout, spec_button_value(mapped), value),
                ..pad
            },
            None => pad,
        }
    } else {
        pad
    }
}

/// The stick state after an axis event: the raw signed value replaces the
/// corresponding half of one stick, with no scaling at this layer.
pub open spec fn spec_update_axis(pad: EmulatedPad, axis: InputAxis, value: i16) -> EmulatedPad {
    match axis {
        InputAxis::LeftX => EmulatedPad { left: (value, pad.left.1), ..pad },
        InputAxis::LeftY => EmulatedPad { left: (pad.left.0, value), ..pad },
        InputAxis::RightX => EmulatedPad { right: (value, pad.right.1), ..pad },
        InputAxis::RightY => EmulatedPad { right: (pad.right.0, value), ..pad },
    }
}

/// The pad state after one input event.
pub open spec fn spec_pad_update(pad: EmulatedPad, event: InputEvent) -> EmulatedPad {
    match event {
        InputEvent::GamepadButton(_, button, value) => spec_update_keyout(pad, button, value),
        InputEvent::GamepadAxis(_, axis, value) => spec_update_axis(pad, axis, value),
    }
}

/// Bit-mask correctness for the rotated face buttons: on a sideways left
/// Joy-Con, a West press sets exactly the D-Up bit of the key mask — every
/// other button's bit keeps its value — and a West release clears exactly
/// that bit. The pad type and both sticks are untouched either way.
pub proof fn lemma_west_sets_dpad_up_bit(pad: EmulatedPad, gamepad_id: usize, value: i16)
    requires
        pad.switch_pad == SwitchPad::JoyConLSide,
    ensures
        ({
            let next = spec_pad_update(
                pad,
                InputEvent::GamepadButton(gamepad_id, InputButton::West, value),
            );
            &&& next.switch_pad == pad.switch_pad
            &&& next.left == pad.left
            &&& next.right == pad.right
            &&& value != 0 ==> next.keyout == (pad.keyout | spec_button_value(SwitchButton::DU))
                && (next.keyout & spec_button_value(SwitchButton::DU)) != 0
            &&& value == 0 ==> next.keyout == (pad.keyout & !spec_button_value(SwitchButton::DU))
                && (next.keyout & spec_button_value(SwitchButton::DU)) == 0
            &&& forall|button: SwitchButton|
                button != SwitchButton::DU ==> (((next.keyout & #[trigger] spec_button_value(
                    button,
                )) != 0) <==> ((pad.keyout & spec_button_value(button)) != 0))
        }),
{
    let k = pad.keyout;
    let next = spec_pad_update(
        pad,
        InputEvent::GamepadButton(gamepad_id, InputButton::West, value),
    );
    assert(((k | 0x2000) & 0x2000i32) != 0 && ((k & !0x2000) & 0x2000i32) == 0) by (bit_vector);
    assert forall|button: SwitchButton| button != SwitchButton::DU implies (spec_button_value(
        button,
    ) & 0x2000i32) == 0 by {
        assert((0x1i32 & 0x2000) == 0 && (0x2i32 & 0x2000) == 0 && (0x4i32 & 0x2000) == 0
            && (0x8i32 & 0x2000) == 0 && (0x10i32 & 0x2000) == 0 && (0x20i32 & 0x2000) == 0
            && (0x40i32 & 0x2000) == 0 && (0x80i32 & 0x2000) == 0 && (0x100i32 & 0x2000) == 0
            && (0x200i32 & 0x2000) == 0 && (0x400i32 & 0x2000) == 0 && (0x800i32 & 0x2000) == 0
            && (0x1000i32 & 0x2000) == 0 && (0x4000i32 & 0x2000) == 0 && (0x8000i32 & 0x2000) == 0
            && (0x10000i32 & 0x2000) == 0 && (0x20000i32 & 0x2000) == 0
            && (0x40000i32 & 0x2000) == 0 && (0x80000i32 & 0x2000) == 0
            && (0x100000i32 & 0x2000) == 0 && (0x200000i32 & 0x2000) == 0
            && (0x400000i32 & 0x2000) == 0 && (0x800000i32 & 0x2000) == 0
            && (0x1000000i32 & 0x2000) == 0 && (0x2000000i32 & 0x2000) == 0
            && (0x4000000i32 & 0x2000) == 0 && (0x8000000i32 & 0x2000) == 0) by (bit_vector);
    }
    assert forall|v: i32| (v & 0x2000i32) == 0 implies (((k | 0x2000) & v) == (k & v) && ((k
        & !0x2000) & v) == (k & v)) by {
        assert((v & 0x2000i32) == 0 ==> (((k | 0x2000) & v) == (k & v) && ((k & !0x2000) & v) == (k
            & v))) by (bit_vector);
    }
    assert forall|button: SwitchButton| button != SwitchButton::DU implies (((next.keyout
        & #[trigger] spec_button_value(button)) != 0) <==> ((pad.keyout & spec_button_value(
        button,
    )) != 0)) by {
        let v = spec_button_value(button);
        assert((v & 0x2000i32) == 0);
        assert(((k | 0x2000) & v) == (k & v) && ((k & !0x2000) & v) == (k & v));
    }
}

impl EmulatedPad {
    /// The key mask only ever holds the 28 button bits, so it is non-negative
    /// and widening it to the 64-bit wire field preserves its value.
    pub open spec fn mask_wf(&self) -> bool {
        0 <= self.keyout < 0x10000000
    }

    /// An empty slot carries no state: a disconnected pad has a zero key mask
    /// and centered sticks.
    pub open spec fn is_neutral(&self) -> bool {
        &&& self.keyout == 0
        &&& self.left == (0i16, 0i16)
        &&& self.right == (0i16, 0i16)
    }

    /// Constructs an emulated pad that is in a neutral state and isn't
    /// connected to anything.
    pub fn new() -> (r: EmulatedPad)
        ensures
            r.switch_pad == SwitchPad::Disconnected,
            r.is_neutral(),
            r.mask_wf(),
    {
        EmulatedPad { switch_pad: SwitchPad::Disconnected, keyout: 0, left: (0, 0), right: (0, 0) }
    }

    /// Returns the emulated pad type.
    pub fn get_switch_pad(&self) -> (r: &SwitchPad)
        ensures
            *r == self.switch_pad,
    {
        &self.switch_pad
    }

    /// Returns the bit-packed key mask.
    pub fn get_keyout(&self) -> (r: &i32)
        ensures
            *r == self.keyout,
    {
        &self.keyout
    }

    /// Returns the left analog stick as (x, y).
    pub fn get_left(&self) -> (r: &(i16, i16))
        ensures
            *r == self.left,
    {
        &self.left
    }

    /// Returns the right analog stick as (x, y).
    pub fn get_right(&self) -> (r: &(i16, i16))
        ensures
            *r == self.right,
    {
        &self.right
    }

    /// Connects this pad by assigning a Switch pad type; the mask and sticks
    /// are untouched, since they are neutral from the prior disconnect.
    pub fn connect(&mut self, switch_pad: SwitchPad)
        ensures
            *final(self) == (EmulatedPad { switch_pad, ..*old(self) }),
    {
        self.switch_pad = switch_pad;
    }

    /// Disconnects this pad: the pad type returns to `Disconnected` and the
    /// mask and sticks are cleared, so an empty slot never carries state.
    pub fn disconnect(&mut self)
        ensures
            final(self).switch_pad == SwitchPad::Disconnected,
            final(self).is_neutral(),
            final(self).mask_wf(),
    {
        self.switch_pad = SwitchPad::Disconnected;
        self.keyout = 0;
        self.left = (0, 0);
        self.right = (0, 0);
    }

    /// Updates this pad with one input event.
    pub fn update(&mut self, event: &InputEvent)
        requires
            old(self).mask_wf(),
        ensures
            *final(self) == spec_pad_update(*old(self), *event),
            final(self).mask_wf(),
    {
        match event {
            InputEvent::GamepadButton(_, button, value) => self.update_keyout(button, value),
            InputEvent::GamepadAxis(_, axis, value) => self.update_axis(axis, value),
        }
    }

    /// Reports whether a Switch button's bit is set in the key mask.
    pub fn is_pressed(&self, button: &SwitchButton) -> (r: bool)
        ensures
            r == ((self.keyout & spec_button_value(*button)) != 0),
    {
        (self.keyout & button.value()) != 0
    }

    /// Updates the key mask with one button event.
    fn update_keyout(&mut self, button: &InputButton, value: &i16)
        requires
            old(self).mask_wf(),
        ensures
            *final(self) == spec_update_keyout(*old(self), *button, *value),
            final(self).mask_wf(),
    {
        if self.switch_pad != SwitchPad::Disconnected {
            match SwitchButton::map_button(button, &self.switch_pad) {
                Ok(switch_button) => {
                    let bit = switch_button.value();
                    self.set_del_bit(&bit, value);
                },
                Err(_) => (),
            }
        }
    }

    /// Updates the stick values for an axis event.
    fn update_axis(&mut self, axis: &InputAxis, value: &i16)
        ensures
            *final(self) == spec_update_axis(*old(self), *axis, *value),
    {
        match axis {
            InputAxis::LeftX => self.left.0 = *value,
            InputAxis::LeftY => self.left.1 = *value,
            InputAxis::RightX => self.right.0 = *value,
            InputAxis::RightY => self.right.1 = *value,
        }
    }

    /// Sets the given mask bit if the input value isn't 0, otherwise clears
    /// it; the mask stays within its 28 significant bits either way.
    fn set_del_bit(&mut self, bit: &i32, value: &i16)
        requires
            old(self).mask_wf(),
            0 <= *bit < 0x10000000,
        ensures
            *final(self) == (EmulatedPad {
                keyout: spec_set_del_bit(old(self).keyout, *bit, *value),
                ..*old(self)
            }),
            final(self).mask_wf(),
    {
        let k = self.keyout;
        let b = *bit;
        if *value != 0 {
            assert(0 <= (k | b) < 0x10000000) by (bit_vector)
                requires
                    0 <= k < 0x10000000,
                    0 <= b < 0x10000000,
            ;
            self.keyout = k | b;
        } else {
            assert(0 <= (k & !b) < 0x10000000) by (bit_vector)
                requires
                    0 <= k < 0x10000000,
            ;
            self.keyout = k & !b;
        }
    }
}

} // verus!
