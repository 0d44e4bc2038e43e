//! Verified core of an asynchronous binding to the libinput engine.
//!
//! The engine itself is reached through foreign calls, descriptor readiness and
//! reference counts kept on the other side of the boundary. None of that can be
//! proved here. What can be proved is everything the binding *decides*: which
//! typed event a raw discriminant stands for, what a status code means, which
//! native call has to follow which reply, and which calls keep the engine's
//! reference counts balanced. This crate holds those decisions as functions
//! from plain values to plain values; native objects appear as their addresses
//! (`usize`, zero for null). An embedder performs the calls and hands the
//! replies back.

use vstd::prelude::*;

mod device;
mod device_group;
pub mod event;
pub mod event_stream;
pub mod guard;
pub mod helper;
pub mod logger;
pub mod native;
mod seat;
pub mod sys;

pub use device::{Device, DeviceCapability};
pub use device_group::DeviceGroup;
pub use event::Event;
pub use event_stream::EventStream;
pub use seat::Seat;

use native::{NativeCall, NativeObject, ObjectKind};
use sys::libinput_event_type;

verus! {

/// What can go wrong between the library and the native engine.
#[derive(Debug, Clone, Copy, PartialEq, Eq, Structural)]
pub enum Error {
    /// The engine could not resume the context.
    Resume,
    /// The engine could not create a context.
    Context,
    /// The engine could not assign the seat.
    Seat,
    /// An operating system error, by its number.
    IoError(i32),
}

/// The operating system error number behind a failed native call's status:
/// the status negated. The one status that has no negation in 32 bits stands
/// for itself.
pub open spec fn os_error(status: i32) -> i32 {
    if status == i32::MIN {
        i32::MIN
    } else {
        (-status) as i32
    }
}

/// The root context of the native engine. Each handle owns one reference to
/// its context and, with it, one share of the context's resource guard.
#[derive(Debug)]
pub struct Libinput {
    raw: usize,
}

impl View for Libinput {
    type V = NativeObject;

    closed spec fn view(&self) -> NativeObject {
        NativeObject { kind: ObjectKind::Context, raw: self.raw }
    }
}

impl Libinput {
    /// Takes over the context that the engine created at `context`, without a
    /// logger. The engine reports a failed creation by a null address.
    pub fn new(context: usize) -> (made: Result<Libinput, Error>)
        ensures
            context == 0 ==> made == Err::<Libinput, Error>(Error::Context),
            context != 0 ==> made is Ok && made->Ok_0@ == (NativeObject {
                kind: ObjectKind::Context,
                raw: context,
            }),
    {
        if context == 0 {
            return Err(Error::Context);
        }
        Ok(Libinput { raw: context })
    }

    /// Takes over the context that the engine created at `context`, and says
    /// which calls set up its logging: those of [`logger::setup_logger`]. The
    /// handle owns the reference that the creation gave; no call takes
    /// another.
    pub fn with_logger(context: usize, logger: bool) -> (made: Result<
        (Libinput, Vec<NativeCall>),
        Error,
    >)
        ensures
            context == 0 ==> made == Err::<(Libinput, Vec<NativeCall>), Error>(Error::Context),
            context != 0 ==> made is Ok && made->Ok_0.0@ == (NativeObject {
                kind: ObjectKind::Context,
                raw: context,
            }) && made->Ok_0.1@ == logger::logger_calls(context, logger),
    {
        if context == 0 {
            return Err(Error::Context);
        }
        let calls = logger::setup_logger(context, logger);
        Ok((Libinput { raw: context }, calls))
    }

    /// The address of the context.
    pub fn as_raw(&self) -> (raw: usize)
        ensures
            raw == self@.raw,
            self@.kind == ObjectKind::Context,
    {
        self.raw
    }

    /// Builds a second handle to the same context, together with the call
    /// that takes the reference, and the share of the resource guard, which
    /// the new handle owns.
    pub fn retain(&self) -> (made: (Libinput, NativeCall))
        ensures
            made.0@ == self@,
            made.1 == NativeCall::Retain(self@),
    {
        let libinput = Libinput { raw: self.raw };
        (libinput, NativeCall::Retain(NativeObject { kind: ObjectKind::Context, raw: self.raw }))
    }

    /// Gives the handle up, and returns the call that gives its reference,
    /// and its share of the resource guard, back.
    pub fn release(self) -> (call: NativeCall)
        ensures
            call == NativeCall::Release(self@),
    {
        NativeCall::Release(NativeObject { kind: ObjectKind::Context, raw: self.raw })
    }

    /// Reads the status with which the engine answered the assignment of a
    /// seat: zero is success, anything else is [`Error::Seat`].
    pub fn assign_seat(&self, status: i32) -> (assigned: Result<(), Error>)
        ensures
            status == 0 ==> assigned == Ok::<(), Error>(()),
            status != 0 ==> assigned == Err::<(), Error>(Error::Seat),
    {
        if status != 0 {
            return Err(Error::Seat);
        }
        Ok(())
    }

    /// Reads the status with which the engine answered a dispatch: zero is
    /// success, anything else is the negated number of an operating system
    /// error.
    pub fn dispatch(&self, status: i32) -> (dispatched: Result<(), Error>)
        ensures
            status == 0 ==> dispatched == Ok::<(), Error>(()),
            status != 0 ==> dispatched == Err::<(), Error>(Error::IoError(os_error(status))),
    {
        if status == 0 {
            Ok(())
        } else if status == i32::MIN {
            Err(Error::IoError(i32::MIN))
        } else {
            Err(Error::IoError(-status))
        }
    }

    /// Reads the status with which the engine answered a resume: zero is
    /// success, anything else is [`Error::Resume`].
    pub fn resume(&self, status: i32) -> (resumed: Result<(), Error>)
        ensures
            status == 0 ==> resumed == Ok::<(), Error>(()),
            status != 0 ==> resumed == Err::<(), Error>(Error::Resume),
    {
        if status == 0 {
            Ok(())
        } else {
            Err(Error::Resume)
        }
    }

    /// Types what the engine's queue gave: nothing for a null address or for
    /// the discriminant that stands for no event, else the event that
    /// [`Event::from_raw`] builds. `event_type` is not looked at where
    /// `event` is null.
    pub fn get_event(&self, event: usize, event_type: u32) -> (next: Option<Event>)
        ensures
            Self::is_event(event, event_type) <==> next is Some,
            next matches Some(typed) ==> {
                &&& event::AsRawEvent::raw_event(&typed) == event
                &&& Event::is_known(event_type) ==> typed.discriminant() == Some(event_type)
                &&& !Event::is_known(event_type) ==> typed is Unknown
            },
    {
        if event == 0 {
            return None;
        }
        if event_type == libinput_event_type::LIBINPUT_EVENT_NONE {
            return None;
        }
        Some(Event::from_raw(event, event_type))
    }

    /// What the queue gave is an event: the address is not null and the
    /// discriminant is not the one that stands for no event.
    pub open spec fn is_event(event: usize, event_type: u32) -> bool {
        event != 0 && event_type != libinput_event_type::LIBINPUT_EVENT_NONE
    }

    /// Makes an event stream over this context and its descriptor `fd`. The
    /// stream owns a handle of its own; the second result is the call that
    /// takes the handle's reference.
    pub fn event_stream(&self, fd: i32) -> (made: (EventStream, NativeCall))
        ensures
            made.0.context() == self@,
            made.0.descriptor() == fd,
            made.0.before_first_wait(),
            made.1 == NativeCall::Retain(self@),
    {
        let (libinput, call) = self.retain();
        (EventStream::new(libinput, fd), call)
    }

    /// Reads the status with which the engine answered the assignment of a
    /// seat, for callers that want no more than success or failure.
    pub fn udev_assign_seat(&self, status: i32) -> (assigned: Result<(), ()>)
        ensures
            status == 0 <==> assigned is Ok,
    {
        match status {
            0 => Ok(()),
            _ => Err(()),
        }
    }
}

} // verus!
