//! Handles to native input devices.

use vstd::prelude::*;

use crate::native::{NativeCall, NativeObject, ObjectKind};
use crate::sys;
use crate::{DeviceGroup, Seat};

verus! {

/// A base handle for accessing libinput devices. Each handle owns one
/// reference to its device.
#[derive(Debug)]
pub struct Device {
    raw: usize,
}

/// Capabilities on a device. A device may have one or more capabilities at a
/// time, capabilities remain static for the lifetime of the device.
#[derive(Debug, Clone, Copy, PartialEq, Eq, Structural)]
#[non_exhaustive]
pub enum DeviceCapability {
    Gesture,
    Keyboard,
    Pointer,
    Switch,
    TabletPad,
    TabletTool,
    Touch,
}

impl DeviceCapability {
    /// The number by which the native engine knows this capability.
    pub open spec fn raw(self) -> u32 {
        match self {
            DeviceCapability::Gesture => sys::LIBINPUT_DEVICE_CAP_GESTURE,
            DeviceCapability::Keyboard => sys::LIBINPUT_DEVICE_CAP_KEYBOARD,
            DeviceCapability::Pointer => sys::LIBINPUT_DEVICE_CAP_POINTER,
            DeviceCapability::Switch => sys::LIBINPUT_DEVICE_CAP_SWITCH,
            DeviceCapability::TabletPad => sys::LIBINPUT_DEVICE_CAP_TABLET_PAD,
            DeviceCapability::TabletTool => sys::LIBINPUT_DEVICE_CAP_TABLET_TOOL,
            DeviceCapability::Touch => sys::LIBINPUT_DEVICE_CAP_TOUCH,
        }
    }

    /// Returns the number by which the native engine knows this capability.
    pub fn as_raw(self) -> (raw: u32)
        ensures
            raw == self.raw(),
    {
        match self {
            DeviceCapability::Gesture => sys::LIBINPUT_DEVICE_CAP_GESTURE,
            DeviceCapability::Keyboard => sys::LIBINPUT_DEVICE_CAP_KEYBOARD,
            DeviceCapability::Pointer => sys::LIBINPUT_DEVICE_CAP_POINTER,
            DeviceCapability::Switch => sys::LIBINPUT_DEVICE_CAP_SWITCH,
            DeviceCapability::TabletPad => sys::LIBINPUT_DEVICE_CAP_TABLET_PAD,
            DeviceCapability::TabletTool => sys::LIBINPUT_DEVICE_CAP_TABLET_TOOL,
            DeviceCapability::Touch => sys::LIBINPUT_DEVICE_CAP_TOUCH,
        }
    }
}

impl View for Device {
    type V = NativeObject;

    closed spec fn view(&self) -> NativeObject {
        NativeObject { kind: ObjectKind::Device, raw: self.raw }
    }
}

impl Device {
    /// Builds a handle to the device at `raw`, together with the call that
    /// takes the reference which the handle owns.
    pub fn from_raw(raw: usize) -> (made: (Device, NativeCall))
        ensures
            made.0@ == (NativeObject { kind: ObjectKind::Device, raw }),
            made.1 == NativeCall::Retain(made.0@),
    {
        let device = Device { raw };
        (device, NativeCall::Retain(NativeObject { kind: ObjectKind::Device, raw }))
    }

    /// The address of the device.
    pub fn as_raw(&self) -> (raw: usize)
        ensures
            raw == self@.raw,
            self@.kind == ObjectKind::Device,
    {
        self.raw
    }

    /// Builds a second handle to the same device, together with the call
    /// that takes the reference which the new handle owns.
    pub fn retain(&self) -> (made: (Device, NativeCall))
        ensures
            made.0@ == self@,
            made.1 == NativeCall::Retain(self@),
    {
        let device = Device { raw: self.raw };
        (device, NativeCall::Retain(NativeObject { kind: ObjectKind::Device, raw: self.raw }))
    }

    /// Gives the handle up, and returns the call that gives its reference
    /// back.
    pub fn release(self) -> (call: NativeCall)
        ensures
            call == NativeCall::Release(self@),
    {
        NativeCall::Release(NativeObject { kind: ObjectKind::Device, raw: self.raw })
    }

    /// Builds a handle to the device group that the engine named as this
    /// device's, at `group`, together with the call that takes the handle's
    /// reference. Each call gives a handle of its own to the same group.
    pub fn device_group(&self, group: usize) -> (made: (DeviceGroup, NativeCall))
        ensures
            made.0@ == (NativeObject { kind: ObjectKind::DeviceGroup, raw: group }),
            made.1 == NativeCall::Retain(made.0@),
    {
        DeviceGroup::from_raw(group)
    }

    /// Builds a handle to the seat that the engine named as this device's,
    /// at `seat`, together with the call that takes the handle's reference.
    /// Each call gives a handle of its own to the same seat.
    pub fn seat(&self, seat: usize) -> (made: (Seat, NativeCall))
        ensures
            made.0@ == (NativeObject { kind: ObjectKind::Seat, raw: seat }),
            made.1 == NativeCall::Retain(made.0@),
    {
        Seat::from_raw(seat)
    }

    /// Reads the engine's answer to the question whether the device has a
    /// capability: any number but zero means that it has.
    pub fn has_capability(&self, answer: i32) -> (has: bool)
        ensures
            has == (answer != 0),
    {
        answer != 0
    }
}

} // verus!
