//! Numbers of the native interface that the library's decisions depend on.

use vstd::prelude::*;

pub mod libinput_event_type;

verus! {

/// Key state: the key is logically up.
pub const LIBINPUT_KEY_STATE_RELEASED: u32 = 0;

/// Key state: the key is logically down.
pub const LIBINPUT_KEY_STATE_PRESSED: u32 = 1;

/// Switch state: off.
pub const LIBINPUT_SWITCH_STATE_OFF: u32 = 0;

/// Switch state: on.
pub const LIBINPUT_SWITCH_STATE_ON: u32 = 1;

pub const LIBINPUT_DEVICE_CAP_KEYBOARD: u32 = 0;

pub const LIBINPUT_DEVICE_CAP_POINTER: u32 = 1;

pub const LIBINPUT_DEVICE_CAP_TOUCH: u32 = 2;

pub const LIBINPUT_DEVICE_CAP_TABLET_TOOL: u32 = 3;

pub const LIBINPUT_DEVICE_CAP_TABLET_PAD: u32 = 4;

pub const LIBINPUT_DEVICE_CAP_GESTURE: u32 = 5;

pub const LIBINPUT_DEVICE_CAP_SWITCH: u32 = 6;

/// Log priority at which the engine reports everything.
pub const LIBINPUT_LOG_PRIORITY_DEBUG: u32 = 10;

} // verus!
