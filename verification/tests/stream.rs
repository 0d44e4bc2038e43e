use std::collections::VecDeque;

use colpetto::event::{AsRawEvent, DeviceEvent, KeyboardEvent};
use colpetto::event_stream::{Action, Input, Readiness};
use colpetto::native::{NativeCall, NativeObject, ObjectKind};
use colpetto::{Error, Event, EventStream, Libinput};

/// A stand-in for the engine and for the descriptor's registration.
struct Engine {
    queue: VecDeque<(usize, u32)>,
    unread: VecDeque<(usize, u32)>,
    ready: bool,
    status: i32,
    readiness_failure: Option<i32>,
    dispatches: usize,
    waits: usize,
    clears: usize,
}

impl Engine {
    fn new() -> Engine {
        Engine {
            queue: VecDeque::new(),
            unread: VecDeque::new(),
            ready: false,
            status: 0,
            readiness_failure: None,
            dispatches: 0,
            waits: 0,
            clears: 0,
        }
    }

    fn arrive(&mut self, events: &[(usize, u32)]) {
        self.unread.extend(events.iter().copied());
        self.ready = true;
    }
}

enum Polled {
    Event(Event),
    Failed(Error),
    Pending,
}

/// One poll of the consumer: the exchange between the stream and the engine.
fn poll(stream: &mut EventStream, engine: &mut Engine) -> Polled {
    let mut input = Input::Poll;
    for _ in 0..16 {
        input = match stream.step(input) {
            Action::Dispatch => {
                engine.dispatches += 1;
                if engine.status == 0 {
                    let unread: Vec<(usize, u32)> = engine.unread.drain(..).collect();
                    engine.queue.extend(unread);
                }
                Input::Dispatched(engine.status)
            }
            Action::GetEvent => {
                let (raw, event_type) = engine.queue.pop_front().unwrap_or((0, 0));
                Input::Event(stream.libinput().get_event(raw, event_type))
            }
            Action::AwaitReadable => {
                engine.waits += 1;
                Input::Readiness(match engine.readiness_failure {
                    Some(errno) => Readiness::Failed(errno),
                    None if engine.ready => Readiness::Ready,
                    None => Readiness::Pending,
                })
            }
            Action::ClearReady => {
                engine.clears += 1;
                engine.ready = false;
                Input::Cleared
            }
            Action::Yield(event) => return Polled::Event(event),
            Action::Fail(error) => return Polled::Failed(error),
            Action::Suspend => return Polled::Pending,
        };
    }
    panic!("the poll did not end");
}

fn fresh() -> EventStream {
    EventStream::new(Libinput::new(0x4000).unwrap(), 7)
}

fn steady(engine: &mut Engine) -> EventStream {
    let mut stream = fresh();
    assert!(matches!(poll(&mut stream, engine), Polled::Pending));
    assert!(!stream.is_first());
    engine.dispatches = 0;
    engine.waits = 0;
    engine.clears = 0;
    stream
}

#[test]
fn new_stream_starts_before_its_first_wait() {
    let stream = fresh();
    assert!(stream.is_first());
    assert_eq!(stream.fd(), 7);
    assert_eq!(stream.libinput().as_raw(), 0x4000);
}

#[test]
fn device_added_before_first_poll_is_yielded_then_stream_suspends() {
    let mut engine = Engine::new();
    engine.queue.push_back((0x9000, 1));
    let mut stream = fresh();
    match poll(&mut stream, &mut engine) {
        Polled::Event(event) => {
            assert!(matches!(event, Event::Device(DeviceEvent::Added(_))));
            assert_eq!(event.as_raw_event(), 0x9000);
        }
        _ => panic!("expected an event"),
    }
    assert_eq!(engine.waits, 0);
    assert!(stream.is_first());
    assert!(matches!(poll(&mut stream, &mut engine), Polled::Pending));
    assert!(!stream.is_first());
    assert_eq!(engine.waits, 1);
}

#[test]
fn first_polls_yield_all_buffered_events_before_any_wait() {
    let mut engine = Engine::new();
    engine.queue.push_back((0x9000, 1));
    engine.queue.push_back((0x9040, 1));
    engine.unread.push_back((0x9080, 300));
    engine.unread.push_back((0x90c0, 2));
    let mut stream = fresh();
    for expected in [0x9000usize, 0x9040, 0x9080, 0x90c0] {
        match poll(&mut stream, &mut engine) {
            Polled::Event(event) => assert_eq!(event.as_raw_event(), expected),
            _ => panic!("expected an event"),
        }
        assert_eq!(engine.waits, 0);
        assert!(stream.is_first());
    }
    assert!(matches!(poll(&mut stream, &mut engine), Polled::Pending));
    assert!(!stream.is_first());
    assert_eq!(engine.waits, 1);
    assert_eq!(engine.clears, 0);
}

#[test]
fn first_poll_over_empty_queue_goes_on_to_wait_in_the_same_poll() {
    let mut engine = Engine::new();
    let mut stream = fresh();
    assert!(matches!(poll(&mut stream, &mut engine), Polled::Pending));
    assert_eq!(engine.dispatches, 1);
    assert_eq!(engine.waits, 1);
    assert!(!stream.is_first());
}

#[test]
fn first_poll_over_empty_queue_serves_an_edge_that_is_already_there() {
    let mut engine = Engine::new();
    engine.ready = true;
    let mut stream = fresh();
    assert!(matches!(poll(&mut stream, &mut engine), Polled::Pending));
    assert_eq!(engine.dispatches, 2);
    assert_eq!(engine.waits, 2);
    assert_eq!(engine.clears, 1);
    assert!(!engine.ready);
}

#[test]
fn spurious_wake_yields_nothing_and_rearms() {
    let mut engine = Engine::new();
    let mut stream = steady(&mut engine);
    engine.ready = true;
    assert!(matches!(poll(&mut stream, &mut engine), Polled::Pending));
    assert_eq!(engine.dispatches, 1);
    assert_eq!(engine.clears, 1);
    assert_eq!(engine.waits, 2);
    assert!(!engine.ready);
    // nothing new: the next poll suspends at once
    assert!(matches!(poll(&mut stream, &mut engine), Polled::Pending));
    assert_eq!(engine.dispatches, 1);
    assert_eq!(engine.waits, 3);
    // the next edge is served
    engine.arrive(&[(0xA000, 300)]);
    match poll(&mut stream, &mut engine) {
        Polled::Event(event) => {
            assert!(matches!(event, Event::Keyboard(KeyboardEvent::Key(_))));
            assert_eq!(event.as_raw_event(), 0xA000);
        }
        _ => panic!("expected an event"),
    }
}

#[test]
fn one_edge_with_three_events_yields_three_in_order_then_suspends() {
    let mut engine = Engine::new();
    let mut stream = steady(&mut engine);
    engine.arrive(&[(0xA000, 300), (0xA040, 400), (0xA080, 300)]);
    for expected in [0xA000usize, 0xA040, 0xA080] {
        match poll(&mut stream, &mut engine) {
            Polled::Event(event) => assert_eq!(event.as_raw_event(), expected),
            _ => panic!("expected an event"),
        }
        assert!(engine.ready);
        assert_eq!(engine.clears, 0);
    }
    assert!(matches!(poll(&mut stream, &mut engine), Polled::Pending));
    assert!(!engine.ready);
    assert_eq!(engine.clears, 1);
}

#[test]
fn one_edge_with_two_events_yields_two_in_order_then_suspends() {
    let mut engine = Engine::new();
    let mut stream = steady(&mut engine);
    engine.arrive(&[(0xB000, 500), (0xB040, 501)]);
    for expected in [(0xB000usize, "Touch Down"), (0xB040, "Touch Up")] {
        match poll(&mut stream, &mut engine) {
            Polled::Event(event) => {
                assert_eq!(event.as_raw_event(), expected.0);
                assert_eq!(event.event_type(), expected.1);
            }
            _ => panic!("expected an event"),
        }
    }
    assert!(matches!(poll(&mut stream, &mut engine), Polled::Pending));
    assert_eq!(engine.clears, 1);
}

#[test]
fn failed_dispatch_is_yielded_as_an_io_error() {
    let mut engine = Engine::new();
    engine.status = -9;
    engine.queue.push_back((0x9000, 1));
    let mut stream = fresh();
    match poll(&mut stream, &mut engine) {
        Polled::Failed(error) => assert_eq!(error, Error::IoError(9)),
        _ => panic!("expected a failure"),
    }
    assert_eq!(engine.queue.len(), 1);
    assert!(stream.is_first());
}

#[test]
fn failed_dispatch_after_a_wake_is_yielded_as_an_io_error() {
    let mut engine = Engine::new();
    let mut stream = steady(&mut engine);
    engine.arrive(&[(0xA000, 300)]);
    engine.status = -5;
    match poll(&mut stream, &mut engine) {
        Polled::Failed(error) => assert_eq!(error, Error::IoError(5)),
        _ => panic!("expected a failure"),
    }
    assert_eq!(engine.clears, 0);
}

#[test]
fn failed_registration_is_yielded_as_an_io_error() {
    let mut engine = Engine::new();
    let mut stream = steady(&mut engine);
    engine.readiness_failure = Some(24);
    match poll(&mut stream, &mut engine) {
        Polled::Failed(error) => assert_eq!(error, Error::IoError(24)),
        _ => panic!("expected a failure"),
    }
    assert_eq!(engine.dispatches, 0);
}

#[test]
fn each_input_has_its_action() {
    let mut stream = fresh();
    assert!(matches!(stream.step(Input::Poll), Action::Dispatch));
    assert!(matches!(stream.step(Input::Dispatched(0)), Action::GetEvent));
    assert!(matches!(
        stream.step(Input::Dispatched(-2)),
        Action::Fail(Error::IoError(2))
    ));
    assert!(matches!(
        stream.step(Input::Event(Some(Event::from_raw(0x10, 900)))),
        Action::Yield(Event::Switch(_))
    ));
    assert!(stream.is_first());
    assert!(matches!(stream.step(Input::Event(None)), Action::AwaitReadable));
    assert!(!stream.is_first());
    assert!(matches!(stream.step(Input::Poll), Action::AwaitReadable));
    assert!(matches!(stream.step(Input::Readiness(Readiness::Ready)), Action::Dispatch));
    assert!(matches!(stream.step(Input::Readiness(Readiness::Pending)), Action::Suspend));
    assert!(matches!(
        stream.step(Input::Readiness(Readiness::Failed(4))),
        Action::Fail(Error::IoError(4))
    ));
    assert!(matches!(stream.step(Input::Event(None)), Action::ClearReady));
    assert!(matches!(stream.step(Input::Cleared), Action::AwaitReadable));
    assert!(!stream.is_first());
}

#[test]
fn dropping_the_stream_releases_its_context_handle() {
    let stream = fresh();
    assert_eq!(
        stream.release(),
        NativeCall::Release(NativeObject { kind: ObjectKind::Context, raw: 0x4000 })
    );
}
