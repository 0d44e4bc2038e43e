//! The decisions of a task that owns a context on a thread of its own and
//! serves consumers on other threads: it takes signals from a handle, and
//! sends each item of its event stream on, described.
//!
//! The task waits for whichever comes first, a signal or an item, and hands
//! what woke it to [`task_step`]. The answer says what to do before it waits
//! again.
//!
//! The engine's requests to open and close device files leave the task's
//! thread too: a broker beside the consumer serves them with the embedder's
//! functions. [`broker_step`] holds the broker's decisions in the same way.

use vstd::prelude::*;

pub mod event;

pub use event::{Event, EventType, KeyReading, KeyboardEvent};

verus! {

/// What the holder of a handle can ask of the task.
#[derive(Debug, Clone, Copy, PartialEq, Eq, Structural)]
pub enum LibinputSignal {
    /// End the task.
    Shutdown,
    /// Suspend the context.
    Suspend,
    /// Resume the context.
    Resume,
}

/// What woke the task, or what came of the last thing it did.
#[derive(Debug)]
pub enum Wake {
    /// A signal came from a handle.
    Signal(LibinputSignal),
    /// The context was asked to resume, with this result.
    Resumed(Result<(), crate::Error>),
    /// The event stream gave an item; an event in it has been described.
    Item(Result<Event, crate::Error>),
    /// An item was sent to the consumer; `true` if the consumer is still
    /// there to take it.
    Sent(bool),
    /// The handles and the stream are gone: nothing can wake the task any
    /// more.
    Closed,
}

/// What the task does next.
#[derive(Debug)]
pub enum Step {
    /// End the task.
    Stop,
    /// Suspend the context, then wait again.
    Suspend,
    /// Ask the context to resume, and hand back [`Wake::Resumed`].
    Resume,
    /// Send this item to the consumer, and hand back [`Wake::Sent`].
    Send(Result<Event, crate::Error>),
    /// Wait again.
    Continue,
}

/// The task's answer to what woke it.
///
/// A shutdown signal, a consumer that is gone, and the end of everything
/// that could wake the task each end it. A resume that fails is not kept
/// from the consumer: it is sent on as an error item, like a failure of the
/// stream itself.
pub open spec fn answer(wake: Wake) -> Step {
    match wake {
        Wake::Signal(LibinputSignal::Shutdown) => Step::Stop,
        Wake::Signal(LibinputSignal::Suspend) => Step::Suspend,
        Wake::Signal(LibinputSignal::Resume) => Step::Resume,
        Wake::Resumed(Ok(())) => Step::Continue,
        Wake::Resumed(Err(error)) => Step::Send(Err(error)),
        Wake::Item(item) => Step::Send(item),
        Wake::Sent(delivered) => if delivered {
            Step::Continue
        } else {
            Step::Stop
        },
        Wake::Closed => Step::Stop,
    }
}

/// Says what the task does next: see [`answer`].
pub fn task_step(wake: Wake) -> (step: Step)
    ensures
        step == answer(wake),
{
    match wake {
        Wake::Signal(signal) => match signal {
            LibinputSignal::Shutdown => Step::Stop,
            LibinputSignal::Suspend => Step::Suspend,
            LibinputSignal::Resume => Step::Resume,
        },
        Wake::Resumed(resumed) => match resumed {
            Ok(()) => Step::Continue,
            Err(error) => Step::Send(Err(error)),
        },
        Wake::Item(item) => Step::Send(item),
        Wake::Sent(delivered) => {
            if delivered {
                Step::Continue
            } else {
                Step::Stop
            }
        },
        Wake::Closed => Step::Stop,
    }
}

/// What the holder of a handle is told after it tried to send `signal`:
/// only a resume that could not be delivered is an error.
pub fn signal_result(signal: LibinputSignal, delivered: bool) -> (told: Result<(), crate::Error>)
    ensures
        signal == LibinputSignal::Resume && !delivered ==> told == Err::<(), crate::Error>(
            crate::Error::Resume,
        ),
        !(signal == LibinputSignal::Resume && !delivered) ==> told == Ok::<(), crate::Error>(()),
{
    match signal {
        LibinputSignal::Resume => {
            if delivered {
                Ok(())
            } else {
                Err(crate::Error::Resume)
            }
        },
        _ => Ok(()),
    }
}

/// What woke the broker, or what came of the last thing it did.
#[derive(Debug)]
pub enum BrokerWake {
    /// The engine asks for the device file at this path to be opened.
    Open(Vec<u8>),
    /// The descriptor of an opened file was sent back to the engine; `true`
    /// if the task is still there to take it.
    Replied(bool),
    /// The engine asks for this descriptor to be closed.
    Close(i32),
    /// The task is gone: no request can come any more.
    Closed,
}

/// What the broker does next.
#[derive(Debug)]
pub enum BrokerStep {
    /// Open the device file at this path with the embedder's function, send
    /// what it gave back to the engine, and hand back
    /// [`BrokerWake::Replied`].
    Open(Vec<u8>),
    /// Close this descriptor with the embedder's function, then wait again.
    Close(i32),
    /// Wait again.
    Continue,
    /// End the broker.
    Stop,
}

/// The broker's answer to what woke it. Each request is served as it came;
/// the broker ends when nobody is left to ask or to take a reply.
pub open spec fn broker_answer(wake: BrokerWake) -> BrokerStep {
    match wake {
        BrokerWake::Open(path) => BrokerStep::Open(path),
        BrokerWake::Replied(delivered) => if delivered {
            BrokerStep::Continue
        } else {
            BrokerStep::Stop
        },
        BrokerWake::Close(fd) => BrokerStep::Close(fd),
        BrokerWake::Closed => BrokerStep::Stop,
    }
}

/// Says what the broker does next: see [`broker_answer`].
pub fn broker_step(wake: BrokerWake) -> (step: BrokerStep)
    ensures
        step == broker_answer(wake),
{
    match wake {
        BrokerWake::Open(path) => BrokerStep::Open(path),
        BrokerWake::Replied(delivered) => {
            if delivered {
                BrokerStep::Continue
            } else {
                BrokerStep::Stop
            }
        },
        BrokerWake::Close(fd) => BrokerStep::Close(fd),
        BrokerWake::Closed => BrokerStep::Stop,
    }
}

} // verus!
