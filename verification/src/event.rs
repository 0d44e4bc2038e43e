//! Typed events.
//!
//! The native engine hands out one untyped event at a time, together with a
//! discriminant. [`Event::from_raw`] turns the pair into a value of the closed
//! taxonomy below: one enum per category, one leaf type per kind of event, and
//! [`Unknown`] for every discriminant the taxonomy does not name. Each value
//! owns the native event it was made from; [`destroy`] gives it up.

use vstd::prelude::*;

use crate::native::{NativeCall, NativeObject, NativeState, ObjectKind};
use crate::sys::libinput_event_type;
use crate::Device;

pub mod device;
pub mod gesture;
pub mod keyboard;
pub mod pointer;
mod sealed;
pub mod switch;
pub mod table_pad;
pub mod tablet_tool;
pub mod touch;

pub use device::{DeviceAddedEvent, DeviceEvent, DeviceRemovedEvent};
pub use gesture::{
    GestureEvent, GestureHoldBeginEvent, GestureHoldEndEvent, GesturePinchBeginEvent,
    GesturePinchEndEvent, GesturePinchUpdateEvent, GestureSwipeBeginEvent, GestureSwipeEndEvent,
    GestureSwipeUpdateEvent,
};
pub use keyboard::{KeyState, KeyboardEvent, KeyboardKeyEvent};
pub use pointer::{
    PointerAxisEvent, PointerButtonEvent, PointerEvent, PointerMotionAbsoluteEvent,
    PointerMotionEvent, PointerScrollContinuousEvent, PointerScrollFingerEvent,
    PointerScrollWheelEvent,
};
pub use switch::{SwitchEvent, SwitchState, SwitchToggleEvent};
pub use table_pad::{
    TabletPadButtonEvent, TabletPadDialEvent, TabletPadEvent, TabletPadKeyEvent,
    TabletPadRingEvent, TabletPadStripEvent,
};
pub use tablet_tool::{
    TabletToolAxisEvent, TabletToolButtonEvent, TabletToolEvent, TabletToolProximityEvent,
    TabletToolTipEvent,
};
pub use touch::{
    TouchCancelEvent, TouchDownEvent, TouchEvent, TouchFrameEvent, TouchMotionEvent, TouchUpEvent,
};

verus! {

/// Access to the native event underneath a typed one.
pub trait AsRawEvent: sealed::EventSealed {
    /// Address of the native base event that this value owns.
    spec fn raw_event(&self) -> usize;

    /// Returns the address of the native base event.
    fn as_raw_event(&self) -> (raw: usize)
        ensures
            raw == self.raw_event(),
    ;

    /// Builds a handle to the device that the engine named as the origin of
    /// this event, at `device`, together with the call that takes the
    /// handle's reference.
    fn device(&self, device: usize) -> (made: (Device, NativeCall))
        ensures
            made.0@ == (NativeObject { kind: ObjectKind::Device, raw: device }),
            made.1 == NativeCall::Retain(made.0@),
    {
        Device::from_raw(device)
    }
}

/// Construction of a leaf event from the native event it narrows.
pub trait FromRawEvent: AsRawEvent + Sized {
    /// Takes ownership of the native event at `event`. The caller has checked
    /// that the event's discriminant is the one this leaf stands for.
    fn from_raw_event(event: usize) -> (leaf: Self)
        ensures
            leaf.raw_event() == event,
    ;
}

/// Gives a typed event up: returns the call that destroys the native event
/// underneath it. The value is consumed, so no second call can be had from
/// it.
pub fn destroy<E: AsRawEvent>(event: E) -> (call: NativeCall)
    ensures
        call == NativeCall::DestroyEvent(event.raw_event()),
{
    NativeCall::DestroyEvent(event.as_raw_event())
}

/// A generic libinput event.
///
/// For more information see each event module.
#[derive(Debug)]
pub enum Event {
    Device(DeviceEvent),
    Gesture(GestureEvent),
    Keyboard(KeyboardEvent),
    Pointer(PointerEvent),
    Switch(SwitchEvent),
    TabletPad(TabletPadEvent),
    TabletTool(TabletToolEvent),
    Touch(TouchEvent),
    Unknown(Unknown),
}

/// An event of a kind that this library has no type for: what an engine newer
/// than the taxonomy may send.
#[derive(Debug)]
pub struct Unknown {
    raw: usize,
}

impl Unknown {
    /// The printable name of the event's kind.
    pub open spec fn kind_name(&self) -> Seq<char> {
        "unknown"@
    }

    /// Returns a printable string representing the event type.
    pub fn event_type(&self) -> (name: &'static str)
        ensures
            name@ == self.kind_name(),
    {
        "unknown"
    }
}

impl sealed::EventSealed for Unknown {
}

impl AsRawEvent for Unknown {
    closed spec fn raw_event(&self) -> usize {
        self.raw
    }

    fn as_raw_event(&self) -> (raw: usize) {
        self.raw
    }
}

impl sealed::EventSealed for Event {
}

impl AsRawEvent for Event {
    open spec fn raw_event(&self) -> usize {
        match self {
            Event::Device(e) => e.raw_event(),
            Event::Gesture(e) => e.raw_event(),
            Event::Keyboard(e) => e.raw_event(),
            Event::Pointer(e) => e.raw_event(),
            Event::Switch(e) => e.raw_event(),
            Event::TabletPad(e) => e.raw_event(),
            Event::TabletTool(e) => e.raw_event(),
            Event::Touch(e) => e.raw_event(),
            Event::Unknown(e) => e.raw_event(),
        }
    }

    fn as_raw_event(&self) -> (raw: usize) {
        match self {
            Event::Device(e) => e.as_raw_event(),
            Event::Gesture(e) => e.as_raw_event(),
            Event::Keyboard(e) => e.as_raw_event(),
            Event::Pointer(e) => e.as_raw_event(),
            Event::Switch(e) => e.as_raw_event(),
            Event::TabletPad(e) => e.as_raw_event(),
            Event::TabletTool(e) => e.as_raw_event(),
            Event::Touch(e) => e.as_raw_event(),
            Event::Unknown(e) => e.as_raw_event(),
        }
    }
}

impl Event {
    /// The discriminants that the taxonomy names: the two device events, the
    /// key event, and the runs of pointer, touch, tablet tool, tablet pad and
    /// gesture events, and the switch event.
    pub open spec fn is_known(event_type: u32) -> bool {
        ||| libinput_event_type::LIBINPUT_EVENT_DEVICE_ADDED <= event_type
            <= libinput_event_type::LIBINPUT_EVENT_DEVICE_REMOVED
        ||| event_type == libinput_event_type::LIBINPUT_EVENT_KEYBOARD_KEY
        ||| libinput_event_type::LIBINPUT_EVENT_POINTER_MOTION <= event_type
            <= libinput_event_type::LIBINPUT_EVENT_POINTER_SCROLL_CONTINUOUS
        ||| libinput_event_type::LIBINPUT_EVENT_TOUCH_DOWN <= event_type
            <= libinput_event_type::LIBINPUT_EVENT_TOUCH_FRAME
        ||| libinput_event_type::LIBINPUT_EVENT_TABLET_TOOL_AXIS <= event_type
            <= libinput_event_type::LIBINPUT_EVENT_TABLET_TOOL_BUTTON
        ||| libinput_event_type::LIBINPUT_EVENT_TABLET_PAD_BUTTON <= event_type
            <= libinput_event_type::LIBINPUT_EVENT_TABLET_PAD_DIAL
        ||| libinput_event_type::LIBINPUT_EVENT_GESTURE_SWIPE_BEGIN <= event_type
            <= libinput_event_type::LIBINPUT_EVENT_GESTURE_HOLD_END
        ||| event_type == libinput_event_type::LIBINPUT_EVENT_SWITCH_TOGGLE
    }

    /// The discriminant under which the native engine reports this kind of
    /// event; none for [`Unknown`], which stands for all the others.
    pub open spec fn discriminant(&self) -> Option<u32> {
        match self {
            Event::Device(e) => Some(e.discriminant()),
            Event::Gesture(e) => Some(e.discriminant()),
            Event::Keyboard(e) => Some(e.discriminant()),
            Event::Pointer(e) => Some(e.discriminant()),
            Event::Switch(e) => Some(e.discriminant()),
            Event::TabletPad(e) => Some(e.discriminant()),
            Event::TabletTool(e) => Some(e.discriminant()),
            Event::Touch(e) => Some(e.discriminant()),
            Event::Unknown(_) => None,
        }
    }

    /// The printable name of the event's kind.
    pub open spec fn kind_name(&self) -> Seq<char> {
        match self {
            Event::Device(e) => e.kind_name(),
            Event::Gesture(e) => e.kind_name(),
            Event::Keyboard(e) => e.kind_name(),
            Event::Pointer(e) => e.kind_name(),
            Event::Switch(e) => e.kind_name(),
            Event::TabletPad(e) => e.kind_name(),
            Event::TabletTool(e) => e.kind_name(),
            Event::Touch(e) => e.kind_name(),
            Event::Unknown(e) => e.kind_name(),
        }
    }

    /// Returns a printable string representing the event type.
    pub fn event_type(&self) -> (name: &'static str)
        ensures
            name@ == self.kind_name(),
    {
        match self {
            Event::Device(e) => e.event_type(),
            Event::Gesture(e) => e.event_type(),
            Event::Keyboard(e) => e.event_type(),
            Event::Pointer(e) => e.event_type(),
            Event::Switch(e) => e.event_type(),
            Event::TabletPad(e) => e.event_type(),
            Event::TabletTool(e) => e.event_type(),
            Event::Touch(e) => e.event_type(),
            Event::Unknown(e) => e.event_type(),
        }
    }

    /// Builds the typed event for the native event at `event`, whose
    /// discriminant is `event_type`.
    ///
    /// A discriminant that the taxonomy names gives the leaf that stands for
    /// it; every other one gives [`Unknown`]. Either way the result owns the
    /// native event.
    pub fn from_raw(event: usize, event_type: u32) -> (typed: Event)
        ensures
            typed.raw_event() == event,
            Event::is_known(event_type) ==> typed.discriminant() == Some(event_type),
            !Event::is_known(event_type) ==> typed is Unknown,
    {
        match event_type {
            libinput_event_type::LIBINPUT_EVENT_DEVICE_ADDED => Event::Device(
                DeviceEvent::Added(DeviceAddedEvent::from_raw_event(event)),
            ),
            libinput_event_type::LIBINPUT_EVENT_DEVICE_REMOVED => Event::Device(
                DeviceEvent::Removed(DeviceRemovedEvent::from_raw_event(event)),
            ),
            libinput_event_type::LIBINPUT_EVENT_GESTURE_SWIPE_BEGIN => Event::Gesture(
                GestureEvent::SwipeBegin(GestureSwipeBeginEvent::from_raw_event(event)),
            ),
            libinput_event_type::LIBINPUT_EVENT_GESTURE_SWIPE_UPDATE => Event::Gesture(
                GestureEvent::SwipeUpdate(GestureSwipeUpdateEvent::from_raw_event(event)),
            ),
            libinput_event_type::LIBINPUT_EVENT_GESTURE_SWIPE_END => Event::Gesture(
                GestureEvent::SwipeEnd(GestureSwipeEndEvent::from_raw_event(event)),
            ),
            libinput_event_type::LIBINPUT_EVENT_GESTURE_PINCH_BEGIN => Event::Gesture(
                GestureEvent::PinchBegin(GesturePinchBeginEvent::from_raw_event(event)),
            ),
            libinput_event_type::LIBINPUT_EVENT_GESTURE_PINCH_UPDATE => Event::Gesture(
                GestureEvent::PinchUpdate(GesturePinchUpdateEvent::from_raw_event(event)),
            ),
            libinput_event_type::LIBINPUT_EVENT_GESTURE_PINCH_END => Event::Gesture(
                GestureEvent::PinchEnd(GesturePinchEndEvent::from_raw_event(event)),
            ),
            libinput_event_type::LIBINPUT_EVENT_GESTURE_HOLD_BEGIN => Event::Gesture(
                GestureEvent::HoldBegin(GestureHoldBeginEvent::from_raw_event(event)),
            ),
            libinput_event_type::LIBINPUT_EVENT_GESTURE_HOLD_END => Event::Gesture(
                GestureEvent::HoldEnd(GestureHoldEndEvent::from_raw_event(event)),
            ),
            libinput_event_type::LIBINPUT_EVENT_KEYBOARD_KEY => Event::Keyboard(
                KeyboardEvent::Key(KeyboardKeyEvent::from_raw_event(event)),
            ),
            libinput_event_type::LIBINPUT_EVENT_POINTER_MOTION => Event::Pointer(
                PointerEvent::Motion(PointerMotionEvent::from_raw_event(event)),
            ),
            libinput_event_type::LIBINPUT_EVENT_POINTER_MOTION_ABSOLUTE => Event::Pointer(
                PointerEvent::MotionAbsolute(PointerMotionAbsoluteEvent::from_raw_event(event)),
            ),
            libinput_event_type::LIBINPUT_EVENT_POINTER_BUTTON => Event::Pointer(
                PointerEvent::Button(PointerButtonEvent::from_raw_event(event)),
            ),
            libinput_event_type::LIBINPUT_EVENT_POINTER_AXIS => Event::Pointer(
                PointerEvent::Axis(PointerAxisEvent::from_raw_event(event)),
            ),
            libinput_event_type::LIBINPUT_EVENT_POINTER_SCROLL_WHEEL => Event::Pointer(
                PointerEvent::ScrollWheel(PointerScrollWheelEvent::from_raw_event(event)),
            ),
            libinput_event_type::LIBINPUT_EVENT_POINTER_SCROLL_FINGER => Event::Pointer(
                PointerEvent::ScrollFinger(PointerScrollFingerEvent::from_raw_event(event)),
            ),
            libinput_event_type::LIBINPUT_EVENT_POINTER_SCROLL_CONTINUOUS => Event::Pointer(
                PointerEvent::ScrollContinuous(
                    PointerScrollContinuousEvent::from_raw_event(event),
                ),
            ),
            libinput_event_type::LIBINPUT_EVENT_SWITCH_TOGGLE => Event::Switch(
                SwitchEvent::Toggle(SwitchToggleEvent::from_raw_event(event)),
            ),
            libinput_event_type::LIBINPUT_EVENT_TABLET_PAD_BUTTON => Event::TabletPad(
                TabletPadEvent::Button(TabletPadButtonEvent::from_raw_event(event)),
            ),
            libinput_event_type::LIBINPUT_EVENT_TABLET_PAD_RING => Event::TabletPad(
                TabletPadEvent::Ring(TabletPadRingEvent::from_raw_event(event)),
            ),
            libinput_event_type::LIBINPUT_EVENT_TABLET_PAD_STRIP => Event::TabletPad(
                TabletPadEvent::Strip(TabletPadStripEvent::from_raw_event(event)),
            ),
            libinput_event_type::LIBINPUT_EVENT_TABLET_PAD_KEY => Event::TabletPad(
                TabletPadEvent::Key(TabletPadKeyEvent::from_raw_event(event)),
            ),
            libinput_event_type::LIBINPUT_EVENT_TABLET_PAD_DIAL => Event::TabletPad(
                TabletPadEvent::Dial(TabletPadDialEvent::from_raw_event(event)),
            ),
            libinput_event_type::LIBINPUT_EVENT_TABLET_TOOL_AXIS => Event::TabletTool(
                TabletToolEvent::Axis(TabletToolAxisEvent::from_raw_event(event)),
            ),
            libinput_event_type::LIBINPUT_EVENT_TABLET_TOOL_PROXIMITY => Event::TabletTool(
                TabletToolEvent::Proximity(TabletToolProximityEvent::from_raw_event(event)),
            ),
            libinput_event_type::LIBINPUT_EVENT_TABLET_TOOL_TIP => Event::TabletTool(
                TabletToolEvent::Tip(TabletToolTipEvent::from_raw_event(event)),
            ),
            libinput_event_type::LIBINPUT_EVENT_TABLET_TOOL_BUTTON => Event::TabletTool(
                TabletToolEvent::Button(TabletToolButtonEvent::from_raw_event(event)),
            ),
            libinput_event_type::LIBINPUT_EVENT_TOUCH_DOWN => Event::Touch(
                TouchEvent::Down(TouchDownEvent::from_raw_event(event)),
            ),
            libinput_event_type::LIBINPUT_EVENT_TOUCH_UP => Event::Touch(
                TouchEvent::Up(TouchUpEvent::from_raw_event(event)),
            ),
            libinput_event_type::LIBINPUT_EVENT_TOUCH_MOTION => Event::Touch(
                TouchEvent::Motion(TouchMotionEvent::from_raw_event(event)),
            ),
            libinput_event_type::LIBINPUT_EVENT_TOUCH_CANCEL => Event::Touch(
                TouchEvent::Cancel(TouchCancelEvent::from_raw_event(event)),
            ),
            libinput_event_type::LIBINPUT_EVENT_TOUCH_FRAME => Event::Touch(
                TouchEvent::Frame(TouchFrameEvent::from_raw_event(event)),
            ),
            _ => Event::Unknown(Unknown { raw: event }),
        }
    }
}

/// The taxonomy is closed under its own discriminants: every typed event but
/// [`Unknown`] carries a discriminant that [`Event::is_known`] names.
pub proof fn law_typed_events_are_known(event: Event)
    ensures
        event.discriminant() matches Some(event_type) ==> Event::is_known(event_type),
        event.discriminant() is None <==> event is Unknown,
{
}

/// Every typed event, whatever its kind, is given up by exactly the call
/// that destroys the native event it owns: once the engine has handed that
/// event out and the call has been made, the event is gone, and the engine
/// holds what it held before the hand-out, no more and no less.
pub proof fn law_destroyed_exactly_once<E: AsRawEvent>(state: NativeState, event: E)
    requires
        !state.events.contains(event.raw_event()),
    ensures
        state.handed_out(event.raw_event()).events.contains(event.raw_event()),
        !state.handed_out(event.raw_event()).after(
            NativeCall::DestroyEvent(event.raw_event()),
        ).events.contains(event.raw_event()),
        state.handed_out(event.raw_event()).after(
            NativeCall::DestroyEvent(event.raw_event()),
        ).same_as(state),
{
}

} // verus!
