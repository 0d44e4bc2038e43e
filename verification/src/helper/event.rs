//! Events as the helper task sends them: plain values that can cross to
//! another thread, with no native object behind them.

use vstd::prelude::*;

use crate::event as libinput_event;
use crate::event::AsRawEvent;
use crate::native::NativeCall;

verus! {

/// An event, described.
#[derive(Debug)]
pub struct Event {
    /// The printable name of the event's kind.
    pub name: &'static str,
    /// What the helper knows of the event.
    pub event_type: EventType,
    /// The name of the device that the event came from.
    pub device_name: String,
}

/// What the helper knows of an event.
#[derive(Debug, Clone, Copy, PartialEq, Eq, Structural)]
#[non_exhaustive]
pub enum EventType {
    /// A keyboard event.
    Keyboard(KeyboardEvent),
    /// An event that the helper carries by name only.
    Unknown,
}

/// A keyboard event, described.
#[derive(Debug, Clone, Copy, PartialEq, Eq, Structural)]
#[non_exhaustive]
pub enum KeyboardEvent {
    /// A key changed its logical state.
    Key {
        /// The key's code.
        key: u32,
        /// The key's new state.
        state: libinput_event::KeyState,
        /// The time of the event, in microseconds.
        time: u64,
    },
}

/// What the engine says of a key event when asked.
#[derive(Debug, Clone, Copy, PartialEq, Eq, Structural)]
pub struct KeyReading {
    /// The key's code.
    pub key: u32,
    /// The key's new state.
    pub state: libinput_event::KeyState,
    /// The time of the event, in microseconds.
    pub time: u64,
}

/// The key event inside `event`, if it is one. The embedder asks the engine
/// for a [`KeyReading`] of it.
pub fn key_event(event: &crate::Event) -> (key: Option<&libinput_event::KeyboardKeyEvent>)
    ensures
        key is Some <==> event is Keyboard,
        key matches Some(leaf) ==> leaf.raw_event() == event.raw_event(),
{
    match event {
        crate::Event::Keyboard(libinput_event::KeyboardEvent::Key(leaf)) => Some(leaf),
        _ => None,
    }
}

impl EventType {
    /// What the helper knows of `event`, given the reading that the embedder
    /// took of it: a key event with its reading is described by the reading;
    /// everything else is carried by name only.
    pub open spec fn of(event: &crate::Event, reading: Option<KeyReading>) -> EventType {
        match (event, reading) {
            (crate::Event::Keyboard(_), Some(read)) => EventType::Keyboard(
                KeyboardEvent::Key { key: read.key, state: read.state, time: read.time },
            ),
            _ => EventType::Unknown,
        }
    }

    /// Says what the helper knows of `event`: see [`EventType::of`].
    pub fn from_event(event: &crate::Event, reading: Option<KeyReading>) -> (known: EventType)
        ensures
            known == EventType::of(event, reading),
    {
        match (event, reading) {
            (crate::Event::Keyboard(libinput_event::KeyboardEvent::Key(_)), Some(read)) => {
                EventType::Keyboard(
                    KeyboardEvent::Key { key: read.key, state: read.state, time: read.time },
                )
            },
            _ => EventType::Unknown,
        }
    }
}

/// Whether the engine is to be asked for the device behind `event`. It is
/// asked for every event of the taxonomy, and never for an unknown one: of
/// such an event the library knows nothing that it could ask about.
pub fn asks_device(event: &crate::Event) -> (asks: bool)
    ensures
        asks == Event::asks_device_of(event),
{
    match event {
        crate::Event::Unknown(_) => false,
        _ => true,
    }
}

impl Event {
    /// Whether the description of `event` names the event's device.
    pub open spec fn asks_device_of(event: &crate::Event) -> bool {
        !(event is Unknown)
    }

    /// The device name in the description of `event`, given the name that
    /// the embedder learned: that name for an event whose device is asked
    /// for, and nothing otherwise.
    pub open spec fn device_name_of(event: &crate::Event, learned: Option<String>) -> Seq<char> {
        match learned {
            Some(name) if Event::asks_device_of(event) => name@,
            _ => Seq::empty(),
        }
    }

    /// Describes a typed event for the consumer, and gives the typed event
    /// up: the second result is the call that destroys the native event
    /// underneath it. `reading` and `device_name` are what the embedder
    /// learned of the event from the engine. The device name is taken for
    /// the events for which [`asks_device`] says so; an unknown event is
    /// described without one, whatever is handed in.
    pub fn describe(
        event: crate::Event,
        reading: Option<KeyReading>,
        device_name: Option<String>,
    ) -> (described: (Event, NativeCall))
        ensures
            described.0.name@ == event.kind_name(),
            described.0.event_type == EventType::of(&event, reading),
            described.0.device_name@ == Event::device_name_of(&event, device_name),
            described.1 == NativeCall::DestroyEvent(event.raw_event()),
    {
        let name = event.event_type();
        let event_type = EventType::from_event(&event, reading);
        let named = match device_name {
            Some(learned) => {
                if asks_device(&event) {
                    learned
                } else {
                    String::new()
                }
            },
            None => String::new(),
        };
        let call = libinput_event::destroy(event);
        (Event { name, event_type, device_name: named }, call)
    }
}

/// An unknown event is described by its name alone: the description says
/// `unknown`, knows no more of the event, and names no device, so that the
/// engine need not be asked for one.
pub proof fn law_unknown_is_described_without_device(
    event: crate::Event,
    reading: Option<KeyReading>,
    learned: Option<String>,
)
    requires
        event is Unknown,
    ensures
        !Event::asks_device_of(&event),
        Event::device_name_of(&event, learned) == Seq::<char>::empty(),
        EventType::of(&event, reading) == EventType::Unknown,
        event.kind_name() == "unknown"@,
{
}

} // verus!
