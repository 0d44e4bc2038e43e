//! Handles to native device groups.

use vstd::prelude::*;

use crate::native::{NativeCall, NativeObject, ObjectKind};

verus! {

/// A base handle for accessing libinput device groups. Each handle owns one
/// reference to its group.
#[derive(Debug)]
pub struct DeviceGroup {
    raw: usize,
}

impl View for DeviceGroup {
    type V = NativeObject;

    closed spec fn view(&self) -> NativeObject {
        NativeObject { kind: ObjectKind::DeviceGroup, raw: self.raw }
    }
}

impl DeviceGroup {
    /// Builds a handle to the device group at `raw`, together with the call that
    /// takes the reference which the handle owns.
    pub fn from_raw(raw: usize) -> (made: (DeviceGroup, NativeCall))
        ensures
            made.0@ == (NativeObject { kind: ObjectKind::DeviceGroup, raw }),
            made.1 == NativeCall::Retain(made.0@),
    {
        let group = DeviceGroup { raw };
        (group, NativeCall::Retain(NativeObject { kind: ObjectKind::DeviceGroup, raw }))
    }

    /// The address of the device group.
    pub fn as_raw(&self) -> (raw: usize)
        ensures
            raw == self@.raw,
            self@.kind == ObjectKind::DeviceGroup,
    {
        self.raw
    }

    /// Builds a second handle to the same device group, together with the call that
    /// takes the reference which the new handle owns.
    pub fn retain(&self) -> (made: (DeviceGroup, NativeCall))
        ensures
            made.0@ == self@,
            made.1 == NativeCall::Retain(self@),
    {
        let group = DeviceGroup { raw: self.raw };
        (group, NativeCall::Retain(NativeObject { kind: ObjectKind::DeviceGroup, raw: self.raw }))
    }

    /// Gives the handle up, and returns the call that gives its reference
    /// back.
    pub fn release(self) -> (call: NativeCall)
        ensures
            call == NativeCall::Release(self@),
    {
        NativeCall::Release(NativeObject { kind: ObjectKind::DeviceGroup, raw: self.raw })
    }
}

} // verus!
