//! Gesture events tell of a gesture recognized on a touchpad.

use vstd::prelude::*;

use super::sealed::EventSealed;
use super::{AsRawEvent, FromRawEvent};
use crate::sys::libinput_event_type;

verus! {

/// A gesture recognised on a touchpad.
#[derive(Debug)]
#[non_exhaustive]
pub enum GestureEvent {
    /// A swipe began.
    SwipeBegin(GestureSwipeBeginEvent),
    /// A swipe went on.
    SwipeUpdate(GestureSwipeUpdateEvent),
    /// A swipe ended.
    SwipeEnd(GestureSwipeEndEvent),
    /// A pinch began.
    PinchBegin(GesturePinchBeginEvent),
    /// A pinch went on.
    PinchUpdate(GesturePinchUpdateEvent),
    /// A pinch ended.
    PinchEnd(GesturePinchEndEvent),
    /// A hold began.
    HoldBegin(GestureHoldBeginEvent),
    /// A hold ended.
    HoldEnd(GestureHoldEndEvent),
}

impl GestureEvent {
    /// The discriminant under which the native engine reports this kind of
    /// event.
    pub open spec fn discriminant(&self) -> u32 {
        match self {
            GestureEvent::SwipeBegin(_) => libinput_event_type::LIBINPUT_EVENT_GESTURE_SWIPE_BEGIN,
            GestureEvent::SwipeUpdate(_) => libinput_event_type::LIBINPUT_EVENT_GESTURE_SWIPE_UPDATE,
            GestureEvent::SwipeEnd(_) => libinput_event_type::LIBINPUT_EVENT_GESTURE_SWIPE_END,
            GestureEvent::PinchBegin(_) => libinput_event_type::LIBINPUT_EVENT_GESTURE_PINCH_BEGIN,
            GestureEvent::PinchUpdate(_) => libinput_event_type::LIBINPUT_EVENT_GESTURE_PINCH_UPDATE,
            GestureEvent::PinchEnd(_) => libinput_event_type::LIBINPUT_EVENT_GESTURE_PINCH_END,
            GestureEvent::HoldBegin(_) => libinput_event_type::LIBINPUT_EVENT_GESTURE_HOLD_BEGIN,
            GestureEvent::HoldEnd(_) => libinput_event_type::LIBINPUT_EVENT_GESTURE_HOLD_END,
        }
    }

    /// The printable name of the event's kind: the category, a space, and the
    /// kind within the category.
    pub open spec fn kind_name(&self) -> Seq<char> {
        match self {
            GestureEvent::SwipeBegin(_) => "Gesture"@ + " "@ + "SwipeBegin"@,
            GestureEvent::SwipeUpdate(_) => "Gesture"@ + " "@ + "SwipeUpdate"@,
            GestureEvent::SwipeEnd(_) => "Gesture"@ + " "@ + "SwipeEnd"@,
            GestureEvent::PinchBegin(_) => "Gesture"@ + " "@ + "PinchBegin"@,
            GestureEvent::PinchUpdate(_) => "Gesture"@ + " "@ + "PinchUpdate"@,
            GestureEvent::PinchEnd(_) => "Gesture"@ + " "@ + "PinchEnd"@,
            GestureEvent::HoldBegin(_) => "Gesture"@ + " "@ + "HoldBegin"@,
            GestureEvent::HoldEnd(_) => "Gesture"@ + " "@ + "HoldEnd"@,
        }
    }

    /// Returns a printable string representing the event type.
    pub fn event_type(&self) -> (name: &'static str)
        ensures
            name@ == self.kind_name(),
    {
        proof {
            reveal_strlit("Gesture");
            reveal_strlit(" ");
        }
        match self {
            GestureEvent::SwipeBegin(_) => {
                proof {
                    reveal_strlit("SwipeBegin");
                    reveal_strlit("Gesture SwipeBegin");
                }
                "Gesture SwipeBegin"
            },
            GestureEvent::SwipeUpdate(_) => {
                proof {
                    reveal_strlit("SwipeUpdate");
                    reveal_strlit("Gesture SwipeUpdate");
                }
                "Gesture SwipeUpdate"
            },
            GestureEvent::SwipeEnd(_) => {
                proof {
                    reveal_strlit("SwipeEnd");
                    reveal_strlit("Gesture SwipeEnd");
                }
                "Gesture SwipeEnd"
            },
            GestureEvent::PinchBegin(_) => {
                proof {
                    reveal_strlit("PinchBegin");
                    reveal_strlit("Gesture PinchBegin");
                }
                "Gesture PinchBegin"
            },
            GestureEvent::PinchUpdate(_) => {
                proof {
                    reveal_strlit("PinchUpdate");
                    reveal_strlit("Gesture PinchUpdate");
                }
                "Gesture PinchUpdate"
            },
            GestureEvent::PinchEnd(_) => {
                proof {
                    reveal_strlit("PinchEnd");
                    reveal_strlit("Gesture PinchEnd");
                }
                "Gesture PinchEnd"
            },
            GestureEvent::HoldBegin(_) => {
                proof {
                    reveal_strlit("HoldBegin");
                    reveal_strlit("Gesture HoldBegin");
                }
                "Gesture HoldBegin"
            },
            GestureEvent::HoldEnd(_) => {
                proof {
                    reveal_strlit("HoldEnd");
                    reveal_strlit("Gesture HoldEnd");
                }
                "Gesture HoldEnd"
            },
        }
    }
}

impl EventSealed for GestureEvent {
}

impl AsRawEvent for GestureEvent {
    open spec fn raw_event(&self) -> usize {
        match self {
            GestureEvent::SwipeBegin(e) => e.raw_event(),
            GestureEvent::SwipeUpdate(e) => e.raw_event(),
            GestureEvent::SwipeEnd(e) => e.raw_event(),
            GestureEvent::PinchBegin(e) => e.raw_event(),
            GestureEvent::PinchUpdate(e) => e.raw_event(),
            GestureEvent::PinchEnd(e) => e.raw_event(),
            GestureEvent::HoldBegin(e) => e.raw_event(),
            GestureEvent::HoldEnd(e) => e.raw_event(),
        }
    }

    fn as_raw_event(&self) -> (raw: usize) {
        match self {
            GestureEvent::SwipeBegin(e) => e.as_raw_event(),
            GestureEvent::SwipeUpdate(e) => e.as_raw_event(),
            GestureEvent::SwipeEnd(e) => e.as_raw_event(),
            GestureEvent::PinchBegin(e) => e.as_raw_event(),
            GestureEvent::PinchUpdate(e) => e.as_raw_event(),
            GestureEvent::PinchEnd(e) => e.as_raw_event(),
            GestureEvent::HoldBegin(e) => e.as_raw_event(),
            GestureEvent::HoldEnd(e) => e.as_raw_event(),
        }
    }
}

/// A swipe began.
#[derive(Debug)]
pub struct GestureSwipeBeginEvent {
    raw: usize,
}

impl EventSealed for GestureSwipeBeginEvent {
}

impl AsRawEvent for GestureSwipeBeginEvent {
    closed spec fn raw_event(&self) -> usize {
        self.raw
    }

    fn as_raw_event(&self) -> (raw: usize) {
        self.raw
    }
}

impl FromRawEvent for GestureSwipeBeginEvent {
    fn from_raw_event(event: usize) -> (leaf: Self) {
        Self { raw: event }
    }
}

/// A swipe went on.
#[derive(Debug)]
pub struct GestureSwipeUpdateEvent {
    raw: usize,
}

impl EventSealed for GestureSwipeUpdateEvent {
}

impl AsRawEvent for GestureSwipeUpdateEvent {
    closed spec fn raw_event(&self) -> usize {
        self.raw
    }

    fn as_raw_event(&self) -> (raw: usize) {
        self.raw
    }
}

impl FromRawEvent for GestureSwipeUpdateEvent {
    fn from_raw_event(event: usize) -> (leaf: Self) {
        Self { raw: event }
    }
}

/// A swipe ended.
#[derive(Debug)]
pub struct GestureSwipeEndEvent {
    raw: usize,
}

impl EventSealed for GestureSwipeEndEvent {
}

impl AsRawEvent for GestureSwipeEndEvent {
    closed spec fn raw_event(&self) -> usize {
        self.raw
    }

    fn as_raw_event(&self) -> (raw: usize) {
        self.raw
    }
}

impl FromRawEvent for GestureSwipeEndEvent {
    fn from_raw_event(event: usize) -> (leaf: Self) {
        Self { raw: event }
    }
}

/// A pinch began.
#[derive(Debug)]
pub struct GesturePinchBeginEvent {
    raw: usize,
}

impl EventSealed for GesturePinchBeginEvent {
}

impl AsRawEvent for GesturePinchBeginEvent {
    closed spec fn raw_event(&self) -> usize {
        self.raw
    }

    fn as_raw_event(&self) -> (raw: usize) {
        self.raw
    }
}

impl FromRawEvent for GesturePinchBeginEvent {
    fn from_raw_event(event: usize) -> (leaf: Self) {
        Self { raw: event }
    }
}

/// A pinch went on.
#[derive(Debug)]
pub struct GesturePinchUpdateEvent {
    raw: usize,
}

impl EventSealed for GesturePinchUpdateEvent {
}

impl AsRawEvent for GesturePinchUpdateEvent {
    closed spec fn raw_event(&self) -> usize {
        self.raw
    }

    fn as_raw_event(&self) -> (raw: usize) {
        self.raw
    }
}

impl FromRawEvent for GesturePinchUpdateEvent {
    fn from_raw_event(event: usize) -> (leaf: Self) {
        Self { raw: event }
    }
}

/// A pinch ended.
#[derive(Debug)]
pub struct GesturePinchEndEvent {
    raw: usize,
}

impl EventSealed for GesturePinchEndEvent {
}

impl AsRawEvent for GesturePinchEndEvent {
    closed spec fn raw_event(&self) -> usize {
        self.raw
    }

    fn as_raw_event(&self) -> (raw: usize) {
        self.raw
    }
}

impl FromRawEvent for GesturePinchEndEvent {
    fn from_raw_event(event: usize) -> (leaf: Self) {
        Self { raw: event }
    }
}

/// A hold began.
#[derive(Debug)]
pub struct GestureHoldBeginEvent {
    raw: usize,
}

impl EventSealed for GestureHoldBeginEvent {
}

impl AsRawEvent for GestureHoldBeginEvent {
    closed spec fn raw_event(&self) -> usize {
        self.raw
    }

    fn as_raw_event(&self) -> (raw: usize) {
        self.raw
    }
}

impl FromRawEvent for GestureHoldBeginEvent {
    fn from_raw_event(event: usize) -> (leaf: Self) {
        Self { raw: event }
    }
}

/// A hold ended.
#[derive(Debug)]
pub struct GestureHoldEndEvent {
    raw: usize,
}

impl EventSealed for GestureHoldEndEvent {
}

impl AsRawEvent for GestureHoldEndEvent {
    closed spec fn raw_event(&self) -> usize {
        self.raw
    }

    fn as_raw_event(&self) -> (raw: usize) {
        self.raw
    }
}

impl FromRawEvent for GestureHoldEndEvent {
    fn from_raw_event(event: usize) -> (leaf: Self) {
        Self { raw: event }
    }
}

} // verus!
