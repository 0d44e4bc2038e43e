//! Discriminants of the native event union.

use vstd::prelude::*;

verus! {

/// Not an event: the queue had nothing to give.
pub const LIBINPUT_EVENT_NONE: u32 = 0;

pub const LIBINPUT_EVENT_DEVICE_ADDED: u32 = 1;

pub const LIBINPUT_EVENT_DEVICE_REMOVED: u32 = 2;

pub const LIBINPUT_EVENT_KEYBOARD_KEY: u32 = 300;

pub const LIBINPUT_EVENT_POINTER_MOTION: u32 = 400;

pub const LIBINPUT_EVENT_POINTER_MOTION_ABSOLUTE: u32 = 401;

pub const LIBINPUT_EVENT_POINTER_BUTTON: u32 = 402;

pub const LIBINPUT_EVENT_POINTER_AXIS: u32 = 403;

pub const LIBINPUT_EVENT_POINTER_SCROLL_WHEEL: u32 = 404;

pub const LIBINPUT_EVENT_POINTER_SCROLL_FINGER: u32 = 405;

pub const LIBINPUT_EVENT_POINTER_SCROLL_CONTINUOUS: u32 = 406;

pub const LIBINPUT_EVENT_TOUCH_DOWN: u32 = 500;

pub const LIBINPUT_EVENT_TOUCH_UP: u32 = 501;

pub const LIBINPUT_EVENT_TOUCH_MOTION: u32 = 502;

pub const LIBINPUT_EVENT_TOUCH_CANCEL: u32 = 503;

pub const LIBINPUT_EVENT_TOUCH_FRAME: u32 = 504;

pub const LIBINPUT_EVENT_TABLET_TOOL_AXIS: u32 = 600;

pub const LIBINPUT_EVENT_TABLET_TOOL_PROXIMITY: u32 = 601;

pub const LIBINPUT_EVENT_TABLET_TOOL_TIP: u32 = 602;

pub const LIBINPUT_EVENT_TABLET_TOOL_BUTTON: u32 = 603;

pub const LIBINPUT_EVENT_TABLET_PAD_BUTTON: u32 = 700;

pub const LIBINPUT_EVENT_TABLET_PAD_RING: u32 = 701;

pub const LIBINPUT_EVENT_TABLET_PAD_STRIP: u32 = 702;

pub const LIBINPUT_EVENT_TABLET_PAD_KEY: u32 = 703;

pub const LIBINPUT_EVENT_TABLET_PAD_DIAL: u32 = 704;

pub const LIBINPUT_EVENT_GESTURE_SWIPE_BEGIN: u32 = 800;

pub const LIBINPUT_EVENT_GESTURE_SWIPE_UPDATE: u32 = 801;

pub const LIBINPUT_EVENT_GESTURE_SWIPE_END: u32 = 802;

pub const LIBINPUT_EVENT_GESTURE_PINCH_BEGIN: u32 = 803;

pub const LIBINPUT_EVENT_GESTURE_PINCH_UPDATE: u32 = 804;

pub const LIBINPUT_EVENT_GESTURE_PINCH_END: u32 = 805;

pub const LIBINPUT_EVENT_GESTURE_HOLD_BEGIN: u32 = 806;

pub const LIBINPUT_EVENT_GESTURE_HOLD_END: u32 = 807;

pub const LIBINPUT_EVENT_SWITCH_TOGGLE: u32 = 900;

} // verus!
