//! Events that come from the pad of tablet devices.

use vstd::prelude::*;

use super::sealed::EventSealed;
use super::{AsRawEvent, FromRawEvent};
use crate::sys::libinput_event_type;

verus! {

/// A button press, or a ring, strip or dial update, on the pad of a tablet.
#[derive(Debug)]
#[non_exhaustive]
pub enum TabletPadEvent {
    /// A button on the pad was pressed or released.
    Button(TabletPadButtonEvent),
    /// A ring on the pad changed.
    Ring(TabletPadRingEvent),
    /// A strip on the pad changed.
    Strip(TabletPadStripEvent),
    /// A key on the pad was pressed or released.
    Key(TabletPadKeyEvent),
    /// A dial on the pad changed.
    Dial(TabletPadDialEvent),
}

impl TabletPadEvent {
    /// The discriminant under which the native engine reports this kind of
    /// event.
    pub open spec fn discriminant(&self) -> u32 {
        match self {
            TabletPadEvent::Button(_) => libinput_event_type::LIBINPUT_EVENT_TABLET_PAD_BUTTON,
            TabletPadEvent::Ring(_) => libinput_event_type::LIBINPUT_EVENT_TABLET_PAD_RING,
            TabletPadEvent::Strip(_) => libinput_event_type::LIBINPUT_EVENT_TABLET_PAD_STRIP,
            TabletPadEvent::Key(_) => libinput_event_type::LIBINPUT_EVENT_TABLET_PAD_KEY,
            TabletPadEvent::Dial(_) => libinput_event_type::LIBINPUT_EVENT_TABLET_PAD_DIAL,
        }
    }

    /// The printable name of the event's kind: the category, a space, and the
    /// kind within the category.
    pub open spec fn kind_name(&self) -> Seq<char> {
        match self {
            TabletPadEvent::Button(_) => "TabletPad"@ + " "@ + "Button"@,
            TabletPadEvent::Ring(_) => "TabletPad"@ + " "@ + "Ring"@,
            TabletPadEvent::Strip(_) => "TabletPad"@ + " "@ + "Strip"@,
            TabletPadEvent::Key(_) => "TabletPad"@ + " "@ + "Key"@,
            TabletPadEvent::Dial(_) => "TabletPad"@ + " "@ + "Dial"@,
        }
    }

    /// Returns a printable string representing the event type.
    pub fn event_type(&self) -> (name: &'static str)
        ensures
            name@ == self.kind_name(),
    {
        proof {
            reveal_strlit("TabletPad");
            reveal_strlit(" ");
        }
        match self {
            TabletPadEvent::Button(_) => {
                proof {
                    reveal_strlit("Button");
                    reveal_strlit("TabletPad Button");
                }
                "TabletPad Button"
            },
            TabletPadEvent::Ring(_) => {
                proof {
                    reveal_strlit("Ring");
                    reveal_strlit("TabletPad Ring");
                }
                "TabletPad Ring"
            },
            TabletPadEvent::Strip(_) => {
                proof {
                    reveal_strlit("Strip");
                    reveal_strlit("TabletPad Strip");
                }
                "TabletPad Strip"
            },
            TabletPadEvent::Key(_) => {
                proof {
                    reveal_strlit("Key");
                    reveal_strlit("TabletPad Key");
                }
                "TabletPad Key"
            },
            TabletPadEvent::Dial(_) => {
                proof {
                    reveal_strlit("Dial");
                    reveal_strlit("TabletPad Dial");
                }
                "TabletPad Dial"
            },
        }
    }
}

impl EventSealed for TabletPadEvent {
}

impl AsRawEvent for TabletPadEvent {
    open spec fn raw_event(&self) -> usize {
        match self {
            TabletPadEvent::Button(e) => e.raw_event(),
            TabletPadEvent::Ring(e) => e.raw_event(),
            TabletPadEvent::Strip(e) => e.raw_event(),
            TabletPadEvent::Key(e) => e.raw_event(),
            TabletPadEvent::Dial(e) => e.raw_event(),
        }
    }

    fn as_raw_event(&self) -> (raw: usize) {
        match self {
            TabletPadEvent::Button(e) => e.as_raw_event(),
            TabletPadEvent::Ring(e) => e.as_raw_event(),
            TabletPadEvent::Strip(e) => e.as_raw_event(),
            TabletPadEvent::Key(e) => e.as_raw_event(),
            TabletPadEvent::Dial(e) => e.as_raw_event(),
        }
    }
}

/// A button on the pad was pressed or released.
#[derive(Debug)]
pub struct TabletPadButtonEvent {
    raw: usize,
}

impl EventSealed for TabletPadButtonEvent {
}

impl AsRawEvent for TabletPadButtonEvent {
    closed spec fn raw_event(&self) -> usize {
        self.raw
    }

    fn as_raw_event(&self) -> (raw: usize) {
        self.raw
    }
}

impl FromRawEvent for TabletPadButtonEvent {
    fn from_raw_event(event: usize) -> (leaf: Self) {
        Self { raw: event }
    }
}

/// A ring on the pad changed.
#[derive(Debug)]
pub struct TabletPadRingEvent {
    raw: usize,
}

impl EventSealed for TabletPadRingEvent {
}

impl AsRawEvent for TabletPadRingEvent {
    closed spec fn raw_event(&self) -> usize {
        self.raw
    }

    fn as_raw_event(&self) -> (raw: usize) {
        self.raw
    }
}

impl FromRawEvent for TabletPadRingEvent {
    fn from_raw_event(event: usize) -> (leaf: Self) {
        Self { raw: event }
    }
}

/// A strip on the pad changed.
#[derive(Debug)]
pub struct TabletPadStripEvent {
    raw: usize,
}

impl EventSealed for TabletPadStripEvent {
}

impl AsRawEvent for TabletPadStripEvent {
    closed spec fn raw_event(&self) -> usize {
        self.raw
    }

    fn as_raw_event(&self) -> (raw: usize) {
        self.raw
    }
}

impl FromRawEvent for TabletPadStripEvent {
    fn from_raw_event(event: usize) -> (leaf: Self) {
        Self { raw: event }
    }
}

/// A key on the pad was pressed or released.
#[derive(Debug)]
pub struct TabletPadKeyEvent {
    raw: usize,
}

impl EventSealed for TabletPadKeyEvent {
}

impl AsRawEvent for TabletPadKeyEvent {
    closed spec fn raw_event(&self) -> usize {
        self.raw
    }

    fn as_raw_event(&self) -> (raw: usize) {
        self.raw
    }
}

impl FromRawEvent for TabletPadKeyEvent {
    fn from_raw_event(event: usize) -> (leaf: Self) {
        Self { raw: event }
    }
}

/// A dial on the pad changed.
#[derive(Debug)]
pub struct TabletPadDialEvent {
    raw: usize,
}

impl EventSealed for TabletPadDialEvent {
}

impl AsRawEvent for TabletPadDialEvent {
    closed spec fn raw_event(&self) -> usize {
        self.raw
    }

    fn as_raw_event(&self) -> (raw: usize) {
        self.raw
    }
}

impl FromRawEvent for TabletPadDialEvent {
    fn from_raw_event(event: usize) -> (leaf: Self) {
        Self { raw: event }
    }
}

} // verus!
