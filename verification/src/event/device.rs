//! Device events tell that a device was added or removed.

use vstd::prelude::*;

use super::sealed::EventSealed;
use super::{AsRawEvent, FromRawEvent};
use crate::sys::libinput_event_type;

verus! {

/// An event notifying the caller of a device being added or removed.
#[derive(Debug)]
#[non_exhaustive]
pub enum DeviceEvent {
    /// A device was added to the context. The engine does not read from it
    /// before the next dispatch.
    Added(DeviceAddedEvent),
    /// A device was removed. No further event of that device follows.
    Removed(DeviceRemovedEvent),
}

impl DeviceEvent {
    /// The discriminant under which the native engine reports this kind of
    /// event.
    pub open spec fn discriminant(&self) -> u32 {
        match self {
            DeviceEvent::Added(_) => libinput_event_type::LIBINPUT_EVENT_DEVICE_ADDED,
            DeviceEvent::Removed(_) => libinput_event_type::LIBINPUT_EVENT_DEVICE_REMOVED,
        }
    }

    /// The printable name of the event's kind: the category, a space, and the
    /// kind within the category.
    pub open spec fn kind_name(&self) -> Seq<char> {
        match self {
            DeviceEvent::Added(_) => "Device"@ + " "@ + "Added"@,
            DeviceEvent::Removed(_) => "Device"@ + " "@ + "Removed"@,
        }
    }

    /// Returns a printable string representing the event type.
    pub fn event_type(&self) -> (name: &'static str)
        ensures
            name@ == self.kind_name(),
    {
        proof {
            reveal_strlit("Device");
            reveal_strlit(" ");
        }
        match self {
            DeviceEvent::Added(_) => {
                proof {
                    reveal_strlit("Added");
                    reveal_strlit("Device Added");
                }
                "Device Added"
            },
            DeviceEvent::Removed(_) => {
                proof {
                    reveal_strlit("Removed");
                    reveal_strlit("Device Removed");
                }
                "Device Removed"
            },
        }
    }
}

impl EventSealed for DeviceEvent {
}

impl AsRawEvent for DeviceEvent {
    open spec fn raw_event(&self) -> usize {
        match self {
            DeviceEvent::Added(e) => e.raw_event(),
            DeviceEvent::Removed(e) => e.raw_event(),
        }
    }

    fn as_raw_event(&self) -> (raw: usize) {
        match self {
            DeviceEvent::Added(e) => e.as_raw_event(),
            DeviceEvent::Removed(e) => e.as_raw_event(),
        }
    }
}

/// A device was added to the context. The engine does not read from it
/// before the next dispatch.
#[derive(Debug)]
pub struct DeviceAddedEvent {
    raw: usize,
}

impl EventSealed for DeviceAddedEvent {
}

impl AsRawEvent for DeviceAddedEvent {
    closed spec fn raw_event(&self) -> usize {
        self.raw
    }

    fn as_raw_event(&self) -> (raw: usize) {
        self.raw
    }
}

impl FromRawEvent for DeviceAddedEvent {
    fn from_raw_event(event: usize) -> (leaf: Self) {
        Self { raw: event }
    }
}

/// A device was removed. No further event of that device follows.
#[derive(Debug)]
pub struct DeviceRemovedEvent {
    raw: usize,
}

impl EventSealed for DeviceRemovedEvent {
}

impl AsRawEvent for DeviceRemovedEvent {
    closed spec fn raw_event(&self) -> usize {
        self.raw
    }

    fn as_raw_event(&self) -> (raw: usize) {
        self.raw
    }
}

impl FromRawEvent for DeviceRemovedEvent {
    fn from_raw_event(event: usize) -> (leaf: Self) {
        Self { raw: event }
    }
}

} // verus!
