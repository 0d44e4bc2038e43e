//! The adapter between the engine's dispatch-then-drain loop and a consumer
//! that polls for one event at a time.
//!
//! One poll of the consumer is a short exchange between the adapter and its
//! embedder. The embedder opens it with [`Input::Poll`]; the adapter answers
//! each input with the next [`Action`]; the embedder performs the action and
//! hands the outcome back as the next input, until the action is one that
//! ends the poll: [`Action::Yield`], [`Action::Fail`] or [`Action::Suspend`].
//!
//! [`Source`] is the library's picture of the other side of that exchange,
//! and [`poll`] runs one whole poll against it. Both exist in proofs only;
//! the laws at the end of this file are stated over them.

use vstd::prelude::*;

use crate::native::{NativeCall, NativeObject};
use crate::{os_error, Error, Event, Libinput};

verus! {

/// What the descriptor's registration says of its readiness.
#[derive(Debug, Clone, Copy, PartialEq, Eq, Structural)]
pub enum Readiness {
    /// The descriptor is readable.
    Ready,
    /// The descriptor is not readable; the consumer's task will be woken
    /// when it is.
    Pending,
    /// The registration failed with this operating system error.
    Failed(i32),
}

/// What the embedder hands to the adapter.
#[derive(Debug)]
pub enum Input {
    /// The consumer polls.
    Poll,
    /// The engine answered a dispatch with this status.
    Dispatched(i32),
    /// The engine's queue gave this event, or nothing.
    Event(Option<Event>),
    /// The descriptor's registration answered.
    Readiness(Readiness),
    /// The readiness flag has been cleared.
    Cleared,
}

/// What the adapter asks of the embedder.
#[derive(Debug)]
pub enum Action {
    /// Dispatch the context, and hand back [`Input::Dispatched`].
    Dispatch,
    /// Take the next event out of the engine's queue, type it with
    /// [`Libinput::get_event`], and hand back [`Input::Event`].
    GetEvent,
    /// Ask the descriptor's registration whether the descriptor is readable,
    /// and hand back [`Input::Readiness`].
    AwaitReadable,
    /// Clear the readiness flag, and hand back [`Input::Cleared`].
    ClearReady,
    /// End the poll with this event. The readiness flag stays as it is: the
    /// queue may hold more.
    Yield(Event),
    /// End the poll with this error.
    Fail(Error),
    /// End the poll with nothing: the consumer waits to be woken.
    Suspend,
}

/// An asynchronous stream of libinput events: the state that the adapter
/// keeps between the steps of its polls.
#[derive(Debug)]
pub struct EventStream {
    libinput: Libinput,
    fd: i32,
    is_first: bool,
}

/// The adapter's answer to `input`, and whether it is still before its first
/// wait afterwards.
///
/// Before the first wait a poll starts with a dispatch, so that events which
/// were there before the consumer ever waited come out at once. When the
/// queue is found empty then, the adapter leaves that state for good and
/// goes on to wait, within the same poll. From then on a poll starts with
/// the wait; a wake that finds the queue empty has its readiness flag
/// cleared and is followed by another wait.
pub open spec fn react(is_first: bool, input: Input) -> (bool, Action) {
    match input {
        Input::Poll => if is_first {
            (true, Action::Dispatch)
        } else {
            (false, Action::AwaitReadable)
        },
        Input::Dispatched(status) => if status == 0 {
            (is_first, Action::GetEvent)
        } else {
            (is_first, Action::Fail(Error::IoError(os_error(status))))
        },
        Input::Event(Some(event)) => (is_first, Action::Yield(event)),
        Input::Event(None) => if is_first {
            (false, Action::AwaitReadable)
        } else {
            (false, Action::ClearReady)
        },
        Input::Readiness(Readiness::Ready) => (is_first, Action::Dispatch),
        Input::Readiness(Readiness::Pending) => (is_first, Action::Suspend),
        Input::Readiness(Readiness::Failed(errno)) => (is_first, Action::Fail(Error::IoError(errno))),
        Input::Cleared => (is_first, Action::AwaitReadable),
    }
}

impl EventStream {
    /// The context that the stream polls.
    pub closed spec fn context(&self) -> NativeObject {
        self.libinput@
    }

    /// The descriptor whose readiness the stream waits for.
    pub closed spec fn descriptor(&self) -> i32 {
        self.fd
    }

    /// The stream has not waited for readiness yet.
    pub closed spec fn before_first_wait(&self) -> bool {
        self.is_first
    }

    /// Makes the stream over a context handle and the context's descriptor.
    /// The stream owns the handle.
    pub fn new(libinput: Libinput, fd: i32) -> (stream: EventStream)
        ensures
            stream.context() == libinput@,
            stream.descriptor() == fd,
            stream.before_first_wait(),
    {
        EventStream { libinput, fd, is_first: true }
    }

    /// The context handle that the stream owns.
    pub fn libinput(&self) -> (libinput: &Libinput)
        ensures
            libinput@ == self.context(),
    {
        &self.libinput
    }

    /// The descriptor whose readiness the stream waits for.
    pub fn fd(&self) -> (fd: i32)
        ensures
            fd == self.descriptor(),
    {
        self.fd
    }

    /// Whether the stream has not waited for readiness yet.
    pub fn is_first(&self) -> (first: bool)
        ensures
            first == self.before_first_wait(),
    {
        self.is_first
    }

    /// Answers one input of the embedder with the next action: see [`react`].
    pub fn step(&mut self, input: Input) -> (action: Action)
        ensures
            (final(self).before_first_wait(), action) == react(
                old(self).before_first_wait(),
                input,
            ),
            final(self).context() == old(self).context(),
            final(self).descriptor() == old(self).descriptor(),
    {
        match input {
            Input::Poll => {
                if self.is_first {
                    Action::Dispatch
                } else {
                    Action::AwaitReadable
                }
            },
            Input::Dispatched(status) => {
                match self.libinput.dispatch(status) {
                    Ok(()) => Action::GetEvent,
                    Err(error) => Action::Fail(error),
                }
            },
            Input::Event(Some(event)) => Action::Yield(event),
            Input::Event(None) => {
                if self.is_first {
                    self.is_first = false;
                    Action::AwaitReadable
                } else {
                    Action::ClearReady
                }
            },
            Input::Readiness(Readiness::Ready) => Action::Dispatch,
            Input::Readiness(Readiness::Pending) => Action::Suspend,
            Input::Readiness(Readiness::Failed(errno)) => Action::Fail(Error::IoError(errno)),
            Input::Cleared => Action::AwaitReadable,
        }
    }

    /// Gives the stream up, and returns the call that gives the reference of
    /// its context handle back. The embedder withdraws the descriptor's
    /// registration.
    pub fn release(self) -> (call: NativeCall)
        ensures
            call == NativeCall::Release(self.context()),
    {
        self.libinput.release()
    }
}

/// The other side of the exchange: the engine's queue, the input that waits at
/// the descriptor, and the descriptor's registration.
pub ghost struct Source {
    /// The events in the engine's queue, oldest first.
    pub queue: Seq<Event>,
    /// The events that the next successful dispatch reads from the
    /// descriptor and appends to the queue.
    pub unread: Seq<Event>,
    /// The readiness flag of the descriptor's registration.
    pub ready: bool,
    /// The status with which the engine answers a dispatch.
    pub status: i32,
}

impl Source {
    /// Every event that is there to be had, in the order in which the
    /// engine produced them.
    pub open spec fn pending(self) -> Seq<Event> {
        self.queue + self.unread
    }

    /// The source after new input has arrived at the descriptor: the input
    /// waits to be read, and the readiness flag is set.
    pub open spec fn arrived(self, events: Seq<Event>) -> Source {
        Source { unread: self.unread + events, ready: true, ..self }
    }

    /// What becomes of the source when the embedder performs `action`, and
    /// what the embedder hands back.
    pub open spec fn respond(self, action: Action) -> (Source, Input) {
        match action {
            Action::Dispatch => if self.status == 0 {
                (
                    Source { queue: self.queue + self.unread, unread: Seq::empty(), ..self },
                    Input::Dispatched(0),
                )
            } else {
                (self, Input::Dispatched(self.status))
            },
            Action::GetEvent => if self.queue.len() > 0 {
                (
                    Source { queue: self.queue.drop_first(), ..self },
                    Input::Event(Some(self.queue[0])),
                )
            } else {
                (self, Input::Event(None))
            },
            Action::AwaitReadable => if self.ready {
                (self, Input::Readiness(Readiness::Ready))
            } else {
                (self, Input::Readiness(Readiness::Pending))
            },
            Action::ClearReady => (Source { ready: false, ..self }, Input::Cleared),
            Action::Yield(_) => (self, Input::Poll),
            Action::Fail(_) => (self, Input::Poll),
            Action::Suspend => (self, Input::Poll),
        }
    }
}

/// How a poll ended.
pub ghost enum Outcome {
    /// With an event.
    Event(Event),
    /// With an error.
    Failed(Error),
    /// With nothing: the consumer waits to be woken.
    Pending,
    /// Not at all, within the steps it was given.
    Unsettled,
}

/// A poll, or a run of polls, seen from outside.
pub ghost struct Polled {
    /// Whether the adapter is still before its first wait.
    pub is_first: bool,
    /// What has become of the source.
    pub source: Source,
    /// How each poll ended, first to last.
    pub outcomes: Seq<Outcome>,
    /// How often the adapter asked for the descriptor's readiness.
    pub waits: nat,
}

/// The most actions that the adapter asks for within one poll.
pub open spec fn poll_steps() -> nat {
    7
}

/// The rest of a poll: the adapter answers `input`, the source responds to
/// the adapter's action, and so on, until an action ends the poll or `steps`
/// actions have been performed.
pub open spec fn run(is_first: bool, source: Source, input: Input, steps: nat) -> Polled
    decreases steps,
{
    let (first, action) = react(is_first, input);
    match action {
        Action::Yield(event) => Polled {
            is_first: first,
            source,
            outcomes: seq![Outcome::Event(event)],
            waits: 0,
        },
        Action::Fail(error) => Polled {
            is_first: first,
            source,
            outcomes: seq![Outcome::Failed(error)],
            waits: 0,
        },
        Action::Suspend => Polled {
            is_first: first,
            source,
            outcomes: seq![Outcome::Pending],
            waits: 0,
        },
        _ => if steps == 0 {
            Polled { is_first: first, source, outcomes: seq![Outcome::Unsettled], waits: 0 }
        } else {
            let (next, reply) = source.respond(action);
            let rest = run(first, next, reply, (steps - 1) as nat);
            if action is AwaitReadable {
                Polled { waits: rest.waits + 1, ..rest }
            } else {
                rest
            }
        },
    }
}

/// One poll of the consumer, from [`Input::Poll`] to its end.
pub open spec fn poll(is_first: bool, source: Source) -> Polled {
    run(is_first, source, Input::Poll, poll_steps())
}

/// `count` polls of the consumer, one after the other, with no new input
/// arriving in between.
pub open spec fn polls(is_first: bool, source: Source, count: nat) -> Polled
    decreases count,
{
    if count == 0 {
        Polled { is_first, source, outcomes: Seq::empty(), waits: 0 }
    } else {
        let first = poll(is_first, source);
        let rest = polls(first.is_first, first.source, (count - 1) as nat);
        Polled {
            is_first: rest.is_first,
            source: rest.source,
            outcomes: first.outcomes + rest.outcomes,
            waits: first.waits + rest.waits,
        }
    }
}

/// Every poll ends: with an event, with an error, or with the consumer
/// suspended. The adapter never goes round without end.
pub proof fn law_poll_settles(is_first: bool, source: Source)
    ensures
        poll(is_first, source).outcomes.len() == 1,
        !(poll(is_first, source).outcomes[0] is Unsettled),
{
    reveal_with_fuel(run, 8);
}

/// Before the first wait, a poll that finds an event yields the oldest one
/// without asking for readiness, and the adapter stays before its first
/// wait.
pub proof fn law_first_poll_yields_buffered(source: Source)
    requires
        source.status == 0,
        source.pending().len() > 0,
    ensures
        poll(true, source) == (Polled {
            is_first: true,
            source: Source {
                queue: source.pending().drop_first(),
                unread: Seq::empty(),
                ..source
            },
            outcomes: seq![Outcome::Event(source.pending()[0])],
            waits: 0,
        }),
{
    reveal_with_fuel(run, 8);
}

/// A fresh stream over a source that holds `n` events yields these `n`
/// events, oldest first, in its first `n` polls, and asks for readiness in
/// none of them. The poll after these finds nothing, leaves the state before
/// the first wait for good, and waits.
pub proof fn law_buffered_events_come_first(source: Source)
    requires
        source.status == 0,
    ensures
        ({
            let n = source.pending().len();
            let drained = polls(true, source, n);
            &&& drained.outcomes.len() == n
            &&& forall|i: int|
                0 <= i < n ==> drained.outcomes[i] == Outcome::Event(source.pending()[i])
            &&& drained.waits == 0
            &&& drained.is_first
            &&& drained.source.pending().len() == 0
            &&& !poll(drained.is_first, drained.source).is_first
            &&& poll(drained.is_first, drained.source).waits > 0
            &&& !(poll(drained.is_first, drained.source).outcomes[0] is Event)
        }),
    decreases source.pending().len(),
{
    let n = source.pending().len();
    if n == 0 {
        reveal_with_fuel(run, 8);
        assert(source.queue.len() == 0 && source.unread.len() == 0);
    } else {
        law_first_poll_yields_buffered(source);
        let first = poll(true, source);
        assert(first.source.pending() =~= source.pending().drop_first());
        law_buffered_events_come_first(first.source);
        let rest = polls(true, first.source, (n - 1) as nat);
        let drained = polls(true, source, n);
        assert(drained.outcomes == first.outcomes + rest.outcomes);
        assert forall|i: int| 0 <= i < n implies drained.outcomes[i] == Outcome::Event(
            source.pending()[i],
        ) by {
            if i > 0 {
                assert(drained.outcomes[i] == rest.outcomes[i - 1]);
                assert(first.source.pending()[i - 1] == source.pending()[i]);
            }
        }
    }
}

/// After the first wait, a wake that finds no event yields none: the poll
/// clears the readiness flag and suspends the consumer. The adapter is
/// armed again: when input arrives later, the next poll yields its first
/// event.
pub proof fn law_spurious_wake_rearms(source: Source, later: Seq<Event>)
    requires
        source.status == 0,
        source.ready,
        source.pending().len() == 0,
        later.len() > 0,
    ensures
        poll(false, source).outcomes == seq![Outcome::Pending],
        !poll(false, source).source.ready,
        !poll(false, source).is_first,
        poll(false, poll(false, source).source.arrived(later)).outcomes == seq![
            Outcome::Event(later[0]),
        ],
{
    reveal_with_fuel(run, 8);
    assert(source.queue.len() == 0 && source.unread.len() == 0);
    let woken = poll(false, source).source.arrived(later);
    assert(woken.unread =~= later);
    assert((woken.queue + woken.unread)[0] == later[0]);
}

/// After the first wait, a poll that is woken and finds an event yields the
/// oldest one and leaves the readiness flag set.
pub proof fn law_woken_poll_yields_queued(source: Source)
    requires
        source.status == 0,
        source.ready,
        source.pending().len() > 0,
    ensures
        poll(false, source) == (Polled {
            is_first: false,
            source: Source {
                queue: source.pending().drop_first(),
                unread: Seq::empty(),
                ..source
            },
            outcomes: seq![Outcome::Event(source.pending()[0])],
            waits: 1,
        }),
{
    reveal_with_fuel(run, 8);
}

/// After the first wait, one readiness edge with `k` events behind it gives
/// these `k` events, oldest first, in the next `k` polls; the readiness flag
/// stays set all the while. The poll after these finds nothing, clears the
/// flag and suspends the consumer.
pub proof fn law_one_edge_drains_all(source: Source)
    requires
        source.status == 0,
        source.ready,
    ensures
        ({
            let k = source.pending().len();
            let drained = polls(false, source, k);
            &&& drained.outcomes.len() == k
            &&& forall|i: int|
                0 <= i < k ==> drained.outcomes[i] == Outcome::Event(source.pending()[i])
            &&& drained.waits == k
            &&& drained.source.ready
            &&& !drained.is_first
            &&& drained.source.pending().len() == 0
            &&& poll(false, drained.source).outcomes == seq![Outcome::Pending]
            &&& !poll(false, drained.source).source.ready
        }),
    decreases source.pending().len(),
{
    let k = source.pending().len();
    if k == 0 {
        reveal_with_fuel(run, 8);
        assert(source.queue.len() == 0 && source.unread.len() == 0);
    } else {
        law_woken_poll_yields_queued(source);
        let first = poll(false, source);
        assert(first.source.pending() =~= source.pending().drop_first());
        law_one_edge_drains_all(first.source);
        let rest = polls(false, first.source, (k - 1) as nat);
        let drained = polls(false, source, k);
        assert(drained.outcomes == first.outcomes + rest.outcomes);
        assert forall|i: int| 0 <= i < k implies drained.outcomes[i] == Outcome::Event(
            source.pending()[i],
        ) by {
            if i > 0 {
                assert(drained.outcomes[i] == rest.outcomes[i - 1]);
                assert(first.source.pending()[i - 1] == source.pending()[i]);
            }
        }
    }
}

/// A dispatch that fails ends the poll with the operating system error
/// behind its status, and takes no event out of the queue.
pub proof fn law_failed_dispatch_ends_poll(is_first: bool, source: Source)
    requires
        source.status != 0,
        is_first || source.ready,
    ensures
        poll(is_first, source).outcomes == seq![
            Outcome::Failed(Error::IoError(os_error(source.status))),
        ],
        poll(is_first, source).source == source,
        poll(is_first, source).is_first == is_first,
{
    reveal_with_fuel(run, 8);
}

} // verus!
