use colpetto::event::{AsRawEvent, DeviceEvent};
use colpetto::logger::setup_logger;
use colpetto::native::{NativeCall, NativeObject, ObjectKind};
use colpetto::{Error, Event, Libinput};

fn context() -> Libinput {
    Libinput::new(0x4000).unwrap()
}

#[test]
fn null_context_is_a_creation_failure() {
    assert_eq!(Libinput::new(0).err(), Some(Error::Context));
    assert_eq!(Libinput::with_logger(0, true).err(), Some(Error::Context));
    assert_eq!(Libinput::with_logger(0, false).err(), Some(Error::Context));
}

#[test]
fn created_context_is_taken_over_without_a_call() {
    let libinput = Libinput::new(0x4000).unwrap();
    assert_eq!(libinput.as_raw(), 0x4000);
    let (libinput, calls) = Libinput::with_logger(0x4040, false).unwrap();
    assert_eq!(libinput.as_raw(), 0x4040);
    assert!(calls.is_empty());
}

#[test]
fn logger_is_set_up_by_three_calls_in_order() {
    let (libinput, calls) = Libinput::with_logger(0x4080, true).unwrap();
    assert_eq!(libinput.as_raw(), 0x4080);
    assert_eq!(
        calls,
        vec![
            NativeCall::SetLogCallback,
            NativeCall::SetLogPriority { context: 0x4080, priority: 10 },
            NativeCall::SetLogHandler { context: 0x4080 },
        ]
    );
    assert_eq!(setup_logger(0x4080, true), calls);
    assert_eq!(setup_logger(0x4080, false), Vec::new());
}

#[test]
fn dispatch_status_zero_is_success() {
    assert_eq!(context().dispatch(0), Ok(()));
}

#[test]
fn dispatch_failure_carries_the_negated_status() {
    assert_eq!(context().dispatch(-5), Err(Error::IoError(5)));
    assert_eq!(context().dispatch(-11), Err(Error::IoError(11)));
    assert_eq!(context().dispatch(9), Err(Error::IoError(-9)));
    assert_eq!(context().dispatch(i32::MAX), Err(Error::IoError(-i32::MAX)));
    assert_eq!(context().dispatch(i32::MIN), Err(Error::IoError(i32::MIN)));
}

#[test]
fn seat_assignment_fails_on_any_status_but_zero() {
    assert_eq!(context().assign_seat(0), Ok(()));
    assert_eq!(context().assign_seat(-1), Err(Error::Seat));
    assert_eq!(context().assign_seat(1), Err(Error::Seat));
    assert_eq!(context().udev_assign_seat(0), Ok(()));
    assert_eq!(context().udev_assign_seat(-1), Err(()));
    assert_eq!(context().udev_assign_seat(7), Err(()));
}

#[test]
fn resume_fails_on_any_status_but_zero() {
    assert_eq!(context().resume(0), Ok(()));
    assert_eq!(context().resume(-1), Err(Error::Resume));
    assert_eq!(context().resume(3), Err(Error::Resume));
}

#[test]
fn empty_queue_gives_no_event() {
    assert!(context().get_event(0, 0).is_none());
    assert!(context().get_event(0, 300).is_none());
    assert!(context().get_event(0x9000, 0).is_none());
}

#[test]
fn queued_event_is_typed() {
    let event = context().get_event(0x9000, 1).unwrap();
    assert!(matches!(event, Event::Device(DeviceEvent::Added(_))));
    assert_eq!(event.as_raw_event(), 0x9000);
    let event = context().get_event(0x9040, 4242).unwrap();
    assert!(matches!(event, Event::Unknown(_)));
    assert_eq!(event.as_raw_event(), 0x9040);
}

#[test]
fn context_handle_is_retained_and_released_on_its_own_address() {
    let libinput = context();
    let object = NativeObject { kind: ObjectKind::Context, raw: 0x4000 };
    let (second, call) = libinput.retain();
    assert_eq!(call, NativeCall::Retain(object));
    assert_eq!(second.as_raw(), 0x4000);
    assert_eq!(second.release(), NativeCall::Release(object));
    assert_eq!(libinput.release(), NativeCall::Release(object));
}

#[test]
fn event_stream_owns_a_handle_of_its_own() {
    let libinput = context();
    let (stream, call) = libinput.event_stream(12);
    let object = NativeObject { kind: ObjectKind::Context, raw: 0x4000 };
    assert_eq!(call, NativeCall::Retain(object));
    assert!(stream.is_first());
    assert_eq!(stream.fd(), 12);
    assert_eq!(stream.libinput().as_raw(), 0x4000);
    assert_eq!(stream.release(), NativeCall::Release(object));
    assert_eq!(libinput.release(), NativeCall::Release(object));
}
