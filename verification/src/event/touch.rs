//! Events from absolute touch devices.

use vstd::prelude::*;

use super::sealed::EventSealed;
use super::{AsRawEvent, FromRawEvent};
use crate::sys::libinput_event_type;

verus! {

/// A touch on a touch device.
#[derive(Debug)]
#[non_exhaustive]
pub enum TouchEvent {
    /// A touch began.
    Down(TouchDownEvent),
    /// A touch ended.
    Up(TouchUpEvent),
    /// A touch moved.
    Motion(TouchMotionEvent),
    /// A touch was cancelled.
    Cancel(TouchCancelEvent),
    /// The end of a set of touch events that belong together.
    Frame(TouchFrameEvent),
}

impl TouchEvent {
    /// The discriminant under which the native engine reports this kind of
    /// event.
    pub open spec fn discriminant(&self) -> u32 {
        match self {
            TouchEvent::Down(_) => libinput_event_type::LIBINPUT_EVENT_TOUCH_DOWN,
            TouchEvent::Up(_) => libinput_event_type::LIBINPUT_EVENT_TOUCH_UP,
            TouchEvent::Motion(_) => libinput_event_type::LIBINPUT_EVENT_TOUCH_MOTION,
            TouchEvent::Cancel(_) => libinput_event_type::LIBINPUT_EVENT_TOUCH_CANCEL,
            TouchEvent::Frame(_) => libinput_event_type::LIBINPUT_EVENT_TOUCH_FRAME,
        }
    }

    /// The printable name of the event's kind: the category, a space, and the
    /// kind within the category.
    pub open spec fn kind_name(&self) -> Seq<char> {
        match self {
            TouchEvent::Down(_) => "Touch"@ + " "@ + "Down"@,
            TouchEvent::Up(_) => "Touch"@ + " "@ + "Up"@,
            TouchEvent::Motion(_) => "Touch"@ + " "@ + "Motion"@,
            TouchEvent::Cancel(_) => "Touch"@ + " "@ + "Cancel"@,
            TouchEvent::Frame(_) => "Touch"@ + " "@ + "Frame"@,
        }
    }

    /// Returns a printable string representing the event type.
    pub fn event_type(&self) -> (name: &'static str)
        ensures
            name@ == self.kind_name(),
    {
        proof {
            reveal_strlit("Touch");
            reveal_strlit(" ");
        }
        match self {
            TouchEvent::Down(_) => {
                proof {
                    reveal_strlit("Down");
                    reveal_strlit("Touch Down");
                }
                "Touch Down"
            },
            TouchEvent::Up(_) => {
                proof {
                    reveal_strlit("Up");
                    reveal_strlit("Touch Up");
                }
                "Touch Up"
            },
            TouchEvent::Motion(_) => {
                proof {
                    reveal_strlit("Motion");
                    reveal_strlit("Touch Motion");
                }
                "Touch Motion"
            },
            TouchEvent::Cancel(_) => {
                proof {
                    reveal_strlit("Cancel");
                    reveal_strlit("Touch Cancel");
                }
                "Touch Cancel"
            },
            TouchEvent::Frame(_) => {
                proof {
                    reveal_strlit("Frame");
                    reveal_strlit("Touch Frame");
                }
                "Touch Frame"
            },
        }
    }
}

impl EventSealed for TouchEvent {
}

impl AsRawEvent for TouchEvent {
    open spec fn raw_event(&self) -> usize {
        match self {
            TouchEvent::Down(e) => e.raw_event(),
            TouchEvent::Up(e) => e.raw_event(),
            TouchEvent::Motion(e) => e.raw_event(),
            TouchEvent::Cancel(e) => e.raw_event(),
            TouchEvent::Frame(e) => e.raw_event(),
        }
    }

    fn as_raw_event(&self) -> (raw: usize) {
        match self {
            TouchEvent::Down(e) => e.as_raw_event(),
            TouchEvent::Up(e) => e.as_raw_event(),
            TouchEvent::Motion(e) => e.as_raw_event(),
            TouchEvent::Cancel(e) => e.as_raw_event(),
            TouchEvent::Frame(e) => e.as_raw_event(),
        }
    }
}

/// A touch began.
#[derive(Debug)]
pub struct TouchDownEvent {
    raw: usize,
}

impl EventSealed for TouchDownEvent {
}

impl AsRawEvent for TouchDownEvent {
    closed spec fn raw_event(&self) -> usize {
        self.raw
    }

    fn as_raw_event(&self) -> (raw: usize) {
        self.raw
    }
}

impl FromRawEvent for TouchDownEvent {
    fn from_raw_event(event: usize) -> (leaf: Self) {
        Self { raw: event }
    }
}

/// A touch ended.
#[derive(Debug)]
pub struct TouchUpEvent {
    raw: usize,
}

impl EventSealed for TouchUpEvent {
}

impl AsRawEvent for TouchUpEvent {
    closed spec fn raw_event(&self) -> usize {
        self.raw
    }

    fn as_raw_event(&self) -> (raw: usize) {
        self.raw
    }
}

impl FromRawEvent for TouchUpEvent {
    fn from_raw_event(event: usize) -> (leaf: Self) {
        Self { raw: event }
    }
}

/// A touch moved.
#[derive(Debug)]
pub struct TouchMotionEvent {
    raw: usize,
}

impl EventSealed for TouchMotionEvent {
}

impl AsRawEvent for TouchMotionEvent {
    closed spec fn raw_event(&self) -> usize {
        self.raw
    }

    fn as_raw_event(&self) -> (raw: usize) {
        self.raw
    }
}

impl FromRawEvent for TouchMotionEvent {
    fn from_raw_event(event: usize) -> (leaf: Self) {
        Self { raw: event }
    }
}

/// A touch was cancelled.
#[derive(Debug)]
pub struct TouchCancelEvent {
    raw: usize,
}

impl EventSealed for TouchCancelEvent {
}

impl AsRawEvent for TouchCancelEvent {
    closed spec fn raw_event(&self) -> usize {
        self.raw
    }

    fn as_raw_event(&self) -> (raw: usize) {
        self.raw
    }
}

impl FromRawEvent for TouchCancelEvent {
    fn from_raw_event(event: usize) -> (leaf: Self) {
        Self { raw: event }
    }
}

/// The end of a set of touch events that belong together.
#[derive(Debug)]
pub struct TouchFrameEvent {
    raw: usize,
}

impl EventSealed for TouchFrameEvent {
}

impl AsRawEvent for TouchFrameEvent {
    closed spec fn raw_event(&self) -> usize {
        self.raw
    }

    fn as_raw_event(&self) -> (raw: usize) {
        self.raw
    }
}

impl FromRawEvent for TouchFrameEvent {
    fn from_raw_event(event: usize) -> (leaf: Self) {
        Self { raw: event }
    }
}

} // verus!
