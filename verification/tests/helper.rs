use colpetto::event::KeyState;
use colpetto::helper::event::{asks_device, key_event};
use colpetto::helper::{
    broker_step, signal_result, task_step, BrokerStep, BrokerWake, EventType, KeyReading,
    KeyboardEvent, LibinputSignal, Step, Wake,
};
use colpetto::native::NativeCall;
use colpetto::{Error, Event};

fn reading() -> KeyReading {
    KeyReading { key: 30, state: KeyState::Pressed, time: 1_000_000 }
}

#[test]
fn key_event_with_reading_is_described_by_the_reading() {
    let event = Event::from_raw(0x9000, 300);
    assert_eq!(
        EventType::from_event(&event, Some(reading())),
        EventType::Keyboard(KeyboardEvent::Key {
            key: 30,
            state: KeyState::Pressed,
            time: 1_000_000
        })
    );
}

#[test]
fn other_events_are_carried_by_name_only() {
    assert_eq!(EventType::from_event(&Event::from_raw(0x9000, 400), None), EventType::Unknown);
    assert_eq!(
        EventType::from_event(&Event::from_raw(0x9000, 400), Some(reading())),
        EventType::Unknown
    );
    assert_eq!(EventType::from_event(&Event::from_raw(0x9000, 300), None), EventType::Unknown);
    assert_eq!(EventType::from_event(&Event::from_raw(0x9000, 77), None), EventType::Unknown);
}

#[test]
fn only_key_events_are_read() {
    assert!(key_event(&Event::from_raw(0x9000, 300)).is_some());
    assert!(key_event(&Event::from_raw(0x9000, 1)).is_none());
    assert!(key_event(&Event::from_raw(0x9000, 900)).is_none());
    assert!(key_event(&Event::from_raw(0x9000, 31337)).is_none());
}

#[test]
fn described_event_carries_name_reading_and_device() {
    let event = Event::from_raw(0x9000, 300);
    let (described, call) =
        colpetto::helper::Event::describe(
        event,
        Some(reading()),
        Some(String::from("AT keyboard")),
    );
    assert_eq!(described.name, "Keyboard Key");
    assert_eq!(described.device_name, "AT keyboard");
    assert_eq!(
        described.event_type,
        EventType::Keyboard(KeyboardEvent::Key {
            key: 30,
            state: KeyState::Pressed,
            time: 1_000_000
        })
    );
    assert_eq!(call, NativeCall::DestroyEvent(0x9000));

    let event = Event::from_raw(0x9040, 1);
    let (described, call) = colpetto::helper::Event::describe(event, None, Some(String::from("Mouse")));
    assert_eq!(described.name, "Device Added");
    assert_eq!(described.device_name, "Mouse");
    assert_eq!(described.event_type, EventType::Unknown);
    assert_eq!(call, NativeCall::DestroyEvent(0x9040));
}

#[test]
fn signals_are_answered() {
    assert!(matches!(task_step(Wake::Signal(LibinputSignal::Shutdown)), Step::Stop));
    assert!(matches!(task_step(Wake::Signal(LibinputSignal::Suspend)), Step::Suspend));
    assert!(matches!(task_step(Wake::Signal(LibinputSignal::Resume)), Step::Resume));
}

#[test]
fn failed_resume_is_sent_to_the_consumer() {
    assert!(matches!(task_step(Wake::Resumed(Ok(()))), Step::Continue));
    assert!(matches!(
        task_step(Wake::Resumed(Err(Error::Resume))),
        Step::Send(Err(Error::Resume))
    ));
}

#[test]
fn items_are_sent_on() {
    let event = Event::from_raw(0x9040, 2);
    let (described, _call) =
        colpetto::helper::Event::describe(event, None, Some(String::from("Mouse")));
    match task_step(Wake::Item(Ok(described))) {
        Step::Send(Ok(sent)) => {
            assert_eq!(sent.name, "Device Removed");
            assert_eq!(sent.device_name, "Mouse");
        }
        _ => panic!("expected the item to be sent"),
    }
    assert!(matches!(
        task_step(Wake::Item(Err(Error::IoError(5)))),
        Step::Send(Err(Error::IoError(5)))
    ));
}

#[test]
fn lost_consumer_and_closed_channels_end_the_task() {
    assert!(matches!(task_step(Wake::Sent(true)), Step::Continue));
    assert!(matches!(task_step(Wake::Sent(false)), Step::Stop));
    assert!(matches!(task_step(Wake::Closed), Step::Stop));
}

#[test]
fn only_a_lost_resume_is_an_error_for_the_handle() {
    assert_eq!(signal_result(LibinputSignal::Resume, false), Err(Error::Resume));
    assert_eq!(signal_result(LibinputSignal::Resume, true), Ok(()));
    assert_eq!(signal_result(LibinputSignal::Suspend, false), Ok(()));
    assert_eq!(signal_result(LibinputSignal::Suspend, true), Ok(()));
    assert_eq!(signal_result(LibinputSignal::Shutdown, false), Ok(()));
    assert_eq!(signal_result(LibinputSignal::Shutdown, true), Ok(()));
}

#[test]
fn broker_serves_each_request_as_it_came() {
    match broker_step(BrokerWake::Open(b"/dev/input/event3".to_vec())) {
        BrokerStep::Open(path) => assert_eq!(path, b"/dev/input/event3".to_vec()),
        _ => panic!("expected the file to be opened"),
    }
    assert!(matches!(broker_step(BrokerWake::Close(11)), BrokerStep::Close(11)));
}

#[test]
fn broker_ends_when_nobody_is_left() {
    assert!(matches!(broker_step(BrokerWake::Replied(true)), BrokerStep::Continue));
    assert!(matches!(broker_step(BrokerWake::Replied(false)), BrokerStep::Stop));
    assert!(matches!(broker_step(BrokerWake::Closed), BrokerStep::Stop));
}

#[test]
fn device_is_asked_for_every_event_but_an_unknown_one() {
    for event_type in [1u32, 2, 300, 400, 406, 500, 504, 600, 603, 700, 704, 800, 807, 900] {
        assert!(asks_device(&Event::from_raw(0x9000, event_type)), "discriminant {event_type}");
    }
    for event_type in [0u32, 3, 299, 705, 901, 31337, u32::MAX] {
        assert!(!asks_device(&Event::from_raw(0x9000, event_type)), "discriminant {event_type}");
    }
}

#[test]
fn unknown_event_is_described_without_its_device() {
    let event = Event::from_raw(0x9080, 31337);
    assert!(!asks_device(&event));
    let (described, call) = colpetto::helper::Event::describe(event, None, None);
    assert_eq!(described.name, "unknown");
    assert_eq!(described.event_type, EventType::Unknown);
    assert_eq!(described.device_name, "");
    assert_eq!(call, NativeCall::DestroyEvent(0x9080));
    match task_step(Wake::Item(Ok(described))) {
        Step::Send(Ok(sent)) => assert_eq!(sent.name, "unknown"),
        _ => panic!("expected the item to be sent"),
    }
    assert!(matches!(task_step(Wake::Sent(true)), Step::Continue));

    // a name that is handed in all the same is not taken
    let event = Event::from_raw(0x90c0, 31337);
    let (described, _call) =
        colpetto::helper::Event::describe(event, Some(reading()), Some(String::from("Mouse")));
    assert_eq!(described.device_name, "");
    assert_eq!(described.event_type, EventType::Unknown);
}

#[test]
fn known_event_without_a_learned_name_has_an_empty_one() {
    let event = Event::from_raw(0x9100, 400);
    let (described, call) = colpetto::helper::Event::describe(event, None, None);
    assert_eq!(described.name, "Pointer Motion");
    assert_eq!(described.device_name, "");
    assert_eq!(call, NativeCall::DestroyEvent(0x9100));
}
