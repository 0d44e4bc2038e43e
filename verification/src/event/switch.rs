//! Events that come from switch devices: a laptop lid, a tablet-mode switch and
//! other hardware with two states.

use vstd::prelude::*;

use super::sealed::EventSealed;
use super::{AsRawEvent, FromRawEvent};
use crate::sys;
use crate::sys::libinput_event_type;

verus! {

/// A switch event representing a changed state in a switch.
#[derive(Debug)]
#[non_exhaustive]
pub enum SwitchEvent {
    /// The switch was toggled between its states.
    Toggle(SwitchToggleEvent),
}

impl SwitchEvent {
    /// The discriminant under which the native engine reports this kind of
    /// event.
    pub open spec fn discriminant(&self) -> u32 {
        match self {
            SwitchEvent::Toggle(_) => libinput_event_type::LIBINPUT_EVENT_SWITCH_TOGGLE,
        }
    }

    /// The printable name of the event's kind: the category, a space, and the
    /// kind within the category.
    pub open spec fn kind_name(&self) -> Seq<char> {
        match self {
            SwitchEvent::Toggle(_) => "Switch"@ + " "@ + "Toggle"@,
        }
    }

    /// Returns a printable string representing the event type.
    pub fn event_type(&self) -> (name: &'static str)
        ensures
            name@ == self.kind_name(),
    {
        proof {
            reveal_strlit("Switch");
            reveal_strlit(" ");
        }
        match self {
            SwitchEvent::Toggle(_) => {
                proof {
                    reveal_strlit("Toggle");
                    reveal_strlit("Switch Toggle");
                }
                "Switch Toggle"
            },
        }
    }
}

impl EventSealed for SwitchEvent {
}

impl AsRawEvent for SwitchEvent {
    open spec fn raw_event(&self) -> usize {
        match self {
            SwitchEvent::Toggle(e) => e.raw_event(),
        }
    }

    fn as_raw_event(&self) -> (raw: usize) {
        match self {
            SwitchEvent::Toggle(e) => e.as_raw_event(),
        }
    }
}

/// The switch was toggled between its states.
#[derive(Debug)]
pub struct SwitchToggleEvent {
    raw: usize,
}

impl EventSealed for SwitchToggleEvent {
}

impl AsRawEvent for SwitchToggleEvent {
    closed spec fn raw_event(&self) -> usize {
        self.raw
    }

    fn as_raw_event(&self) -> (raw: usize) {
        self.raw
    }
}

impl FromRawEvent for SwitchToggleEvent {
    fn from_raw_event(event: usize) -> (leaf: Self) {
        Self { raw: event }
    }
}

/// The physical state of a switch device.
#[derive(Debug, Clone, Copy, PartialEq, Eq, Structural)]
pub enum SwitchState {
    /// The switch is in the off position.
    Off,
    /// The switch is in the on position.
    On,
}

impl SwitchState {
    /// The number by which the native engine reports this state.
    pub open spec fn raw(self) -> u32 {
        match self {
            SwitchState::Off => sys::LIBINPUT_SWITCH_STATE_OFF,
            SwitchState::On => sys::LIBINPUT_SWITCH_STATE_ON,
        }
    }

    /// The text by which this state is shown.
    pub open spec fn name(self) -> Seq<char> {
        match self {
            SwitchState::Off => "off"@,
            SwitchState::On => "on"@,
        }
    }

    /// Builds a switch state from the number that the native engine
    /// reported. The engine reports no other number than the two named in
    /// [`sys`].
    pub fn from_raw(raw: u32) -> (state: SwitchState)
        requires
            raw == sys::LIBINPUT_SWITCH_STATE_OFF || raw == sys::LIBINPUT_SWITCH_STATE_ON,
        ensures
            state.raw() == raw,
    {
        if raw == sys::LIBINPUT_SWITCH_STATE_OFF {
            SwitchState::Off
        } else {
            SwitchState::On
        }
    }

    /// Shows the state as `off` or `on`.
    pub fn to_string(&self) -> (text: String)
        ensures
            text@ == self.name(),
    {
        match self {
            SwitchState::Off => "off".to_owned(),
            SwitchState::On => "on".to_owned(),
        }
    }
}

} // verus!
