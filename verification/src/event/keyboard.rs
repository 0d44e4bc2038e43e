//! Key events tell that a key changed its logical state, usually by being
//! pressed or released.

use vstd::prelude::*;

use super::sealed::EventSealed;
use super::{AsRawEvent, FromRawEvent};
use crate::sys;
use crate::sys::libinput_event_type;

verus! {

/// A keyboard event representing a key press/release.
#[derive(Debug)]
#[non_exhaustive]
pub enum KeyboardEvent {
    /// A key changed its logical state.
    Key(KeyboardKeyEvent),
}

impl KeyboardEvent {
    /// The discriminant under which the native engine reports this kind of
    /// event.
    pub open spec fn discriminant(&self) -> u32 {
        match self {
            KeyboardEvent::Key(_) => libinput_event_type::LIBINPUT_EVENT_KEYBOARD_KEY,
        }
    }

    /// The printable name of the event's kind: the category, a space, and the
    /// kind within the category.
    pub open spec fn kind_name(&self) -> Seq<char> {
        match self {
            KeyboardEvent::Key(_) => "Keyboard"@ + " "@ + "Key"@,
        }
    }

    /// Returns a printable string representing the event type.
    pub fn event_type(&self) -> (name: &'static str)
        ensures
            name@ == self.kind_name(),
    {
        proof {
            reveal_strlit("Keyboard");
            reveal_strlit(" ");
        }
        match self {
            KeyboardEvent::Key(_) => {
                proof {
                    reveal_strlit("Key");
                    reveal_strlit("Keyboard Key");
                }
                "Keyboard Key"
            },
        }
    }
}

impl EventSealed for KeyboardEvent {
}

impl AsRawEvent for KeyboardEvent {
    open spec fn raw_event(&self) -> usize {
        match self {
            KeyboardEvent::Key(e) => e.raw_event(),
        }
    }

    fn as_raw_event(&self) -> (raw: usize) {
        match self {
            KeyboardEvent::Key(e) => e.as_raw_event(),
        }
    }
}

/// A key changed its logical state.
#[derive(Debug)]
pub struct KeyboardKeyEvent {
    raw: usize,
}

impl EventSealed for KeyboardKeyEvent {
}

impl AsRawEvent for KeyboardKeyEvent {
    closed spec fn raw_event(&self) -> usize {
        self.raw
    }

    fn as_raw_event(&self) -> (raw: usize) {
        self.raw
    }
}

impl FromRawEvent for KeyboardKeyEvent {
    fn from_raw_event(event: usize) -> (leaf: Self) {
        Self { raw: event }
    }
}

/// Logical state of a key. Note that the logical state may not represent the
/// physical state of the key.
#[derive(Debug, Clone, Copy, PartialEq, Eq, Structural)]
pub enum KeyState {
    /// Logical released state
    Released,
    /// Logical pressed state
    Pressed,
}

impl KeyState {
    /// The number by which the native engine reports this state.
    pub open spec fn raw(self) -> u32 {
        match self {
            KeyState::Released => sys::LIBINPUT_KEY_STATE_RELEASED,
            KeyState::Pressed => sys::LIBINPUT_KEY_STATE_PRESSED,
        }
    }

    /// The text by which this state is shown.
    pub open spec fn name(self) -> Seq<char> {
        match self {
            KeyState::Released => "released"@,
            KeyState::Pressed => "pressed"@,
        }
    }

    /// Builds a key state from the number that the native engine reported.
    /// The engine reports no other number than the two named in [`sys`].
    pub fn from_raw(raw: u32) -> (state: KeyState)
        requires
            raw == sys::LIBINPUT_KEY_STATE_RELEASED || raw == sys::LIBINPUT_KEY_STATE_PRESSED,
        ensures
            state.raw() == raw,
    {
        if raw == sys::LIBINPUT_KEY_STATE_RELEASED {
            KeyState::Released
        } else {
            KeyState::Pressed
        }
    }

    /// Shows the state as `released` or `pressed`.
    pub fn to_string(&self) -> (text: String)
        ensures
            text@ == self.name(),
    {
        match self {
            KeyState::Released => "released".to_owned(),
            KeyState::Pressed => "pressed".to_owned(),
        }
    }
}

} // verus!
