//! Handles to native seats.

use vstd::prelude::*;

use crate::native::{NativeCall, NativeObject, ObjectKind};

verus! {

/// The base handle for accessing libinput seats. Each handle owns one
/// reference to its seat.
#[derive(Debug)]
pub struct Seat {
    raw: usize,
}

impl View for Seat {
    type V = NativeObject;

    closed spec fn view(&self) -> NativeObject {
        NativeObject { kind: ObjectKind::Seat, raw: self.raw }
    }
}

impl Seat {
    /// Builds a handle to the seat at `raw`, together with the call that
    /// takes the reference which the handle owns.
    pub fn from_raw(raw: usize) -> (made: (Seat, NativeCall))
        ensures
            made.0@ == (NativeObject { kind: ObjectKind::Seat, raw }),
            made.1 == NativeCall::Retain(made.0@),
    {
        let seat = Seat { raw };
        (seat, NativeCall::Retain(NativeObject { kind: ObjectKind::Seat, raw }))
    }

    /// The address of the seat.
    pub fn as_raw(&self) -> (raw: usize)
        ensures
            raw == self@.raw,
            self@.kind == ObjectKind::Seat,
    {
        self.raw
    }

    /// Builds a second handle to the same seat, together with the call that
    /// takes the reference which the new handle owns.
    pub fn retain(&self) -> (made: (Seat, NativeCall))
        ensures
            made.0@ == self@,
            made.1 == NativeCall::Retain(self@),
    {
        let seat = Seat { raw: self.raw };
        (seat, NativeCall::Retain(NativeObject { kind: ObjectKind::Seat, raw: self.raw }))
    }

    /// Gives the handle up, and returns the call that gives its reference
    /// back.
    pub fn release(self) -> (call: NativeCall)
        ensures
            call == NativeCall::Release(self@),
    {
        NativeCall::Release(NativeObject { kind: ObjectKind::Seat, raw: self.raw })
    }
}

} // verus!
