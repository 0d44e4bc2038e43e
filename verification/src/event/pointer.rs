//! Pointer events reflect motion, button and scroll events, as well as events
//! from other axes.

use vstd::prelude::*;

use super::sealed::EventSealed;
use super::{AsRawEvent, FromRawEvent};
use crate::sys::libinput_event_type;

verus! {

/// Relative or absolute pointer motion, a button press or release, or
/// scrolling.
#[derive(Debug)]
#[non_exhaustive]
pub enum PointerEvent {
    /// The pointer moved by a relative amount.
    Motion(PointerMotionEvent),
    /// The pointer moved to an absolute position.
    MotionAbsolute(PointerMotionAbsoluteEvent),
    /// A pointer button was pressed or released.
    Button(PointerButtonEvent),
    /// A scroll axis changed, in the older report that covers every source.
    Axis(PointerAxisEvent),
    /// A wheel scrolled.
    ScrollWheel(PointerScrollWheelEvent),
    /// Fingers scrolled on a touchpad.
    ScrollFinger(PointerScrollFingerEvent),
    /// A continuous source scrolled.
    ScrollContinuous(PointerScrollContinuousEvent),
}

impl PointerEvent {
    /// The discriminant under which the native engine reports this kind of
    /// event.
    pub open spec fn discriminant(&self) -> u32 {
        match self {
            PointerEvent::Motion(_) => libinput_event_type::LIBINPUT_EVENT_POINTER_MOTION,
            PointerEvent::MotionAbsolute(_) => libinput_event_type::LIBINPUT_EVENT_POINTER_MOTION_ABSOLUTE,
            PointerEvent::Button(_) => libinput_event_type::LIBINPUT_EVENT_POINTER_BUTTON,
            PointerEvent::Axis(_) => libinput_event_type::LIBINPUT_EVENT_POINTER_AXIS,
            PointerEvent::ScrollWheel(_) => libinput_event_type::LIBINPUT_EVENT_POINTER_SCROLL_WHEEL,
            PointerEvent::ScrollFinger(_) => libinput_event_type::LIBINPUT_EVENT_POINTER_SCROLL_FINGER,
            PointerEvent::ScrollContinuous(_) => libinput_event_type::LIBINPUT_EVENT_POINTER_SCROLL_CONTINUOUS,
        }
    }

    /// The printable name of the event's kind: the category, a space, and the
    /// kind within the category.
    pub open spec fn kind_name(&self) -> Seq<char> {
        match self {
            PointerEvent::Motion(_) => "Pointer"@ + " "@ + "Motion"@,
            PointerEvent::MotionAbsolute(_) => "Pointer"@ + " "@ + "MotionAbsolute"@,
            PointerEvent::Button(_) => "Pointer"@ + " "@ + "Button"@,
            PointerEvent::Axis(_) => "Pointer"@ + " "@ + "Axis"@,
            PointerEvent::ScrollWheel(_) => "Pointer"@ + " "@ + "ScrollWheel"@,
            PointerEvent::ScrollFinger(_) => "Pointer"@ + " "@ + "ScrollFinger"@,
            PointerEvent::ScrollContinuous(_) => "Pointer"@ + " "@ + "ScrollContinuous"@,
        }
    }

    /// Returns a printable string representing the event type.
    pub fn event_type(&self) -> (name: &'static str)
        ensures
            name@ == self.kind_name(),
    {
        proof {
            reveal_strlit("Pointer");
            reveal_strlit(" ");
        }
        match self {
            PointerEvent::Motion(_) => {
                proof {
                    reveal_strlit("Motion");
                    reveal_strlit("Pointer Motion");
                }
                "Pointer Motion"
            },
            PointerEvent::MotionAbsolute(_) => {
                proof {
                    reveal_strlit("MotionAbsolute");
                    reveal_strlit("Pointer MotionAbsolute");
                }
                "Pointer MotionAbsolute"
            },
            PointerEvent::Button(_) => {
                proof {
                    reveal_strlit("Button");
                    reveal_strlit("Pointer Button");
                }
                "Pointer Button"
            },
            PointerEvent::Axis(_) => {
                proof {
                    reveal_strlit("Axis");
                    reveal_strlit("Pointer Axis");
                }
                "Pointer Axis"
            },
            PointerEvent::ScrollWheel(_) => {
                proof {
                    reveal_strlit("ScrollWheel");
                    reveal_strlit("Pointer ScrollWheel");
                }
                "Pointer ScrollWheel"
            },
            PointerEvent::ScrollFinger(_) => {
                proof {
                    reveal_strlit("ScrollFinger");
                    reveal_strlit("Pointer ScrollFinger");
                }
                "Pointer ScrollFinger"
            },
            PointerEvent::ScrollContinuous(_) => {
                proof {
                    reveal_strlit("ScrollContinuous");
                    reveal_strlit("Pointer ScrollContinuous");
                }
                "Pointer ScrollContinuous"
            },
        }
    }
}

impl EventSealed for PointerEvent {
}

impl AsRawEvent for PointerEvent {
    open spec fn raw_event(&self) -> usize {
        match self {
            PointerEvent::Motion(e) => e.raw_event(),
            PointerEvent::MotionAbsolute(e) => e.raw_event(),
            PointerEvent::Button(e) => e.raw_event(),
            PointerEvent::Axis(e) => e.raw_event(),
            PointerEvent::ScrollWheel(e) => e.raw_event(),
            PointerEvent::ScrollFinger(e) => e.raw_event(),
            PointerEvent::ScrollContinuous(e) => e.raw_event(),
        }
    }

    fn as_raw_event(&self) -> (raw: usize) {
        match self {
            PointerEvent::Motion(e) => e.as_raw_event(),
            PointerEvent::MotionAbsolute(e) => e.as_raw_event(),
            PointerEvent::Button(e) => e.as_raw_event(),
            PointerEvent::Axis(e) => e.as_raw_event(),
            PointerEvent::ScrollWheel(e) => e.as_raw_event(),
            PointerEvent::ScrollFinger(e) => e.as_raw_event(),
            PointerEvent::ScrollContinuous(e) => e.as_raw_event(),
        }
    }
}

/// The pointer moved by a relative amount.
#[derive(Debug)]
pub struct PointerMotionEvent {
    raw: usize,
}

impl EventSealed for PointerMotionEvent {
}

impl AsRawEvent for PointerMotionEvent {
    closed spec fn raw_event(&self) -> usize {
        self.raw
    }

    fn as_raw_event(&self) -> (raw: usize) {
        self.raw
    }
}

impl FromRawEvent for PointerMotionEvent {
    fn from_raw_event(event: usize) -> (leaf: Self) {
        Self { raw: event }
    }
}

/// The pointer moved to an absolute position.
#[derive(Debug)]
pub struct PointerMotionAbsoluteEvent {
    raw: usize,
}

impl EventSealed for PointerMotionAbsoluteEvent {
}

impl AsRawEvent for PointerMotionAbsoluteEvent {
    closed spec fn raw_event(&self) -> usize {
        self.raw
    }

    fn as_raw_event(&self) -> (raw: usize) {
        self.raw
    }
}

impl FromRawEvent for PointerMotionAbsoluteEvent {
    fn from_raw_event(event: usize) -> (leaf: Self) {
        Self { raw: event }
    }
}

/// A pointer button was pressed or released.
#[derive(Debug)]
pub struct PointerButtonEvent {
    raw: usize,
}

impl EventSealed for PointerButtonEvent {
}

impl AsRawEvent for PointerButtonEvent {
    closed spec fn raw_event(&self) -> usize {
        self.raw
    }

    fn as_raw_event(&self) -> (raw: usize) {
        self.raw
    }
}

impl FromRawEvent for PointerButtonEvent {
    fn from_raw_event(event: usize) -> (leaf: Self) {
        Self { raw: event }
    }
}

/// A scroll axis changed, in the older report that covers every source.
#[derive(Debug)]
pub struct PointerAxisEvent {
    raw: usize,
}

impl EventSealed for PointerAxisEvent {
}

impl AsRawEvent for PointerAxisEvent {
    closed spec fn raw_event(&self) -> usize {
        self.raw
    }

    fn as_raw_event(&self) -> (raw: usize) {
        self.raw
    }
}

impl FromRawEvent for PointerAxisEvent {
    fn from_raw_event(event: usize) -> (leaf: Self) {
        Self { raw: event }
    }
}

/// A wheel scrolled.
#[derive(Debug)]
pub struct PointerScrollWheelEvent {
    raw: usize,
}

impl EventSealed for PointerScrollWheelEvent {
}

impl AsRawEvent for PointerScrollWheelEvent {
    closed spec fn raw_event(&self) -> usize {
        self.raw
    }

    fn as_raw_event(&self) -> (raw: usize) {
        self.raw
    }
}

impl FromRawEvent for PointerScrollWheelEvent {
    fn from_raw_event(event: usize) -> (leaf: Self) {
        Self { raw: event }
    }
}

/// Fingers scrolled on a touchpad.
#[derive(Debug)]
pub struct PointerScrollFingerEvent {
    raw: usize,
}

impl EventSealed for PointerScrollFingerEvent {
}

impl AsRawEvent for PointerScrollFingerEvent {
    closed spec fn raw_event(&self) -> usize {
        self.raw
    }

    fn as_raw_event(&self) -> (raw: usize) {
        self.raw
    }
}

impl FromRawEvent for PointerScrollFingerEvent {
    fn from_raw_event(event: usize) -> (leaf: Self) {
        Self { raw: event }
    }
}

/// A continuous source scrolled.
#[derive(Debug)]
pub struct PointerScrollContinuousEvent {
    raw: usize,
}

impl EventSealed for PointerScrollContinuousEvent {
}

impl AsRawEvent for PointerScrollContinuousEvent {
    closed spec fn raw_event(&self) -> usize {
        self.raw
    }

    fn as_raw_event(&self) -> (raw: usize) {
        self.raw
    }
}

impl FromRawEvent for PointerScrollContinuousEvent {
    fn from_raw_event(event: usize) -> (leaf: Self) {
        Self { raw: event }
    }
}

} // verus!
