//! Events that come from tools on tablet devices.

use vstd::prelude::*;

use super::sealed::EventSealed;
use super::{AsRawEvent, FromRawEvent};
use crate::sys::libinput_event_type;

verus! {

/// An axis update, a button press or a tool update on a tablet.
#[derive(Debug)]
#[non_exhaustive]
pub enum TabletToolEvent {
    /// One or more axes of the tool changed.
    Axis(TabletToolAxisEvent),
    /// The tool came into or went out of proximity.
    Proximity(TabletToolProximityEvent),
    /// The tool's tip touched or left the surface.
    Tip(TabletToolTipEvent),
    /// A button on the tool changed its logical state.
    Button(TabletToolButtonEvent),
}

impl TabletToolEvent {
    /// The discriminant under which the native engine reports this kind of
    /// event.
    pub open spec fn discriminant(&self) -> u32 {
        match self {
            TabletToolEvent::Axis(_) => libinput_event_type::LIBINPUT_EVENT_TABLET_TOOL_AXIS,
            TabletToolEvent::Proximity(_) => libinput_event_type::LIBINPUT_EVENT_TABLET_TOOL_PROXIMITY,
            TabletToolEvent::Tip(_) => libinput_event_type::LIBINPUT_EVENT_TABLET_TOOL_TIP,
            TabletToolEvent::Button(_) => libinput_event_type::LIBINPUT_EVENT_TABLET_TOOL_BUTTON,
        }
    }

    /// The printable name of the event's kind: the category, a space, and the
    /// kind within the category.
    pub open spec fn kind_name(&self) -> Seq<char> {
        match self {
            TabletToolEvent::Axis(_) => "TabletTool"@ + " "@ + "Axis"@,
            TabletToolEvent::Proximity(_) => "TabletTool"@ + " "@ + "Proximity"@,
            TabletToolEvent::Tip(_) => "TabletTool"@ + " "@ + "Tip"@,
            TabletToolEvent::Button(_) => "TabletTool"@ + " "@ + "Button"@,
        }
    }

    /// Returns a printable string representing the event type.
    pub fn event_type(&self) -> (name: &'static str)
        ensures
            name@ == self.kind_name(),
    {
        proof {
            reveal_strlit("TabletTool");
            reveal_strlit(" ");
        }
        match self {
            TabletToolEvent::Axis(_) => {
                proof {
                    reveal_strlit("Axis");
                    reveal_strlit("TabletTool Axis");
                }
                "TabletTool Axis"
            },
            TabletToolEvent::Proximity(_) => {
                proof {
                    reveal_strlit("Proximity");
                    reveal_strlit("TabletTool Proximity");
                }
                "TabletTool Proximity"
            },
            TabletToolEvent::Tip(_) => {
                proof {
                    reveal_strlit("Tip");
                    reveal_strlit("TabletTool Tip");
                }
                "TabletTool Tip"
            },
            TabletToolEvent::Button(_) => {
                proof {
                    reveal_strlit("Button");
                    reveal_strlit("TabletTool Button");
                }
                "TabletTool Button"
            },
        }
    }
}

impl EventSealed for TabletToolEvent {
}

impl AsRawEvent for TabletToolEvent {
    open spec fn raw_event(&self) -> usize {
        match self {
            TabletToolEvent::Axis(e) => e.raw_event(),
            TabletToolEvent::Proximity(e) => e.raw_event(),
            TabletToolEvent::Tip(e) => e.raw_event(),
            TabletToolEvent::Button(e) => e.raw_event(),
        }
    }

    fn as_raw_event(&self) -> (raw: usize) {
        match self {
            TabletToolEvent::Axis(e) => e.as_raw_event(),
            TabletToolEvent::Proximity(e) => e.as_raw_event(),
            TabletToolEvent::Tip(e) => e.as_raw_event(),
            TabletToolEvent::Button(e) => e.as_raw_event(),
        }
    }
}

/// One or more axes of the tool changed.
#[derive(Debug)]
pub struct TabletToolAxisEvent {
    raw: usize,
}

impl EventSealed for TabletToolAxisEvent {
}

impl AsRawEvent for TabletToolAxisEvent {
    closed spec fn raw_event(&self) -> usize {
        self.raw
    }

    fn as_raw_event(&self) -> (raw: usize) {
        self.raw
    }
}

impl FromRawEvent for TabletToolAxisEvent {
    fn from_raw_event(event: usize) -> (leaf: Self) {
        Self { raw: event }
    }
}

/// The tool came into or went out of proximity.
#[derive(Debug)]
pub struct TabletToolProximityEvent {
    raw: usize,
}

impl EventSealed for TabletToolProximityEvent {
}

impl AsRawEvent for TabletToolProximityEvent {
    closed spec fn raw_event(&self) -> usize {
        self.raw
    }

    fn as_raw_event(&self) -> (raw: usize) {
        self.raw
    }
}

impl FromRawEvent for TabletToolProximityEvent {
    fn from_raw_event(event: usize) -> (leaf: Self) {
        Self { raw: event }
    }
}

/// The tool's tip touched or left the surface.
#[derive(Debug)]
pub struct TabletToolTipEvent {
    raw: usize,
}

impl EventSealed for TabletToolTipEvent {
}

impl AsRawEvent for TabletToolTipEvent {
    closed spec fn raw_event(&self) -> usize {
        self.raw
    }

    fn as_raw_event(&self) -> (raw: usize) {
        self.raw
    }
}

impl FromRawEvent for TabletToolTipEvent {
    fn from_raw_event(event: usize) -> (leaf: Self) {
        Self { raw: event }
    }
}

/// A button on the tool changed its logical state.
#[derive(Debug)]
pub struct TabletToolButtonEvent {
    raw: usize,
}

impl EventSealed for TabletToolButtonEvent {
}

impl AsRawEvent for TabletToolButtonEvent {
    closed spec fn raw_event(&self) -> usize {
        self.raw
    }

    fn as_raw_event(&self) -> (raw: usize) {
        self.raw
    }
}

impl FromRawEvent for TabletToolButtonEvent {
    fn from_raw_event(event: usize) -> (leaf: Self) {
        Self { raw: event }
    }
}

} // verus!
