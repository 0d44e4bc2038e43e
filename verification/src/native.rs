//! What the library asks of the native engine, and what it assumes of it.
//!
//! The library never calls the engine. Where a native call is due, a verified
//! function returns it as a [`NativeCall`], and the embedder performs it.
//! [`NativeState`] is the library's picture of the bookkeeping that the
//! engine does in response: reference counts, shares of the resource guard,
//! and the events that are out of the queue and not yet destroyed. It exists
//! in proofs only; the laws at the end of this file are stated over it.

use vstd::prelude::*;

verus! {

/// The kinds of native object that are shared by reference counting.
#[derive(Debug, Clone, Copy, PartialEq, Eq, Structural)]
pub enum ObjectKind {
    /// The root context.
    Context,
    /// An input device.
    Device,
    /// A seat.
    Seat,
    /// A device group.
    DeviceGroup,
}

/// A reference-counted native object: its kind and its address. Two handles
/// stand for the same object exactly if they agree in both.
#[derive(Debug, Clone, Copy, PartialEq, Eq, Structural)]
pub struct NativeObject {
    pub kind: ObjectKind,
    pub raw: usize,
}

/// A call on the native engine that the embedder has to make.
#[derive(Debug, Clone, Copy, PartialEq, Eq, Structural)]
#[must_use]
pub enum NativeCall {
    /// Take one more reference to the object. For a context, the embedder
    /// also takes one more share of the resource guard that the context
    /// carries as its user data.
    Retain(NativeObject),
    /// Give one reference to the object back. For a context, the embedder
    /// also gives back one share of the resource guard.
    Release(NativeObject),
    /// Destroy the event at this address.
    DestroyEvent(usize),
    /// Install the process-wide log callback.
    SetLogCallback,
    /// Set the log priority of the context at `context`.
    SetLogPriority { context: usize, priority: u32 },
    /// Route the log output of the context at `context` to the callback.
    SetLogHandler { context: usize },
}

/// The engine's bookkeeping, as far as the library's calls change it.
pub ghost struct NativeState {
    /// The reference count of each object that has one.
    pub refs: Map<NativeObject, int>,
    /// The shares of the resource guard, by the address of its context.
    pub guards: Map<usize, int>,
    /// The events that were handed out and have not been destroyed.
    pub events: Set<usize>,
}

impl NativeState {
    /// The reference count of `object`; zero for an object that is gone.
    pub open spec fn count(self, object: NativeObject) -> int {
        if self.refs.dom().contains(object) {
            self.refs[object]
        } else {
            0
        }
    }

    /// The shares of the resource guard of the context at `context`.
    pub open spec fn guard_shares(self, context: usize) -> int {
        if self.guards.dom().contains(context) {
            self.guards[context]
        } else {
            0
        }
    }

    /// The object is alive: somebody holds a reference to it.
    pub open spec fn is_live(self, object: NativeObject) -> bool {
        self.count(object) > 0
    }

    /// The state with the reference count of `object` changed by `delta`,
    /// and with it, for a context, the shares of its guard.
    pub open spec fn adjusted(self, object: NativeObject, delta: int) -> NativeState {
        NativeState {
            refs: self.refs.insert(object, self.count(object) + delta),
            guards: if object.kind == ObjectKind::Context {
                self.guards.insert(object.raw, self.guard_shares(object.raw) + delta)
            } else {
                self.guards
            },
            events: self.events,
        }
    }

    /// The state after the engine has handed the event at `event` out.
    pub open spec fn handed_out(self, event: usize) -> NativeState {
        NativeState { refs: self.refs, guards: self.guards, events: self.events.insert(event) }
    }

    /// The state after the embedder has made `call`.
    pub open spec fn after(self, call: NativeCall) -> NativeState {
        match call {
            NativeCall::Retain(object) => self.adjusted(object, 1),
            NativeCall::Release(object) => self.adjusted(object, -1),
            NativeCall::DestroyEvent(event) => NativeState {
                refs: self.refs,
                guards: self.guards,
                events: self.events.remove(event),
            },
            NativeCall::SetLogCallback => self,
            NativeCall::SetLogPriority { .. } => self,
            NativeCall::SetLogHandler { .. } => self,
        }
    }

    /// The state after the embedder has made `calls`, first to last.
    pub open spec fn after_all(self, calls: Seq<NativeCall>) -> NativeState
        decreases calls.len(),
    {
        if calls.len() == 0 {
            self
        } else {
            self.after(calls[0]).after_all(calls.drop_first())
        }
    }

    /// Both states give every object the same count, every context the same
    /// guard shares, and hold the same events.
    pub open spec fn same_as(self, other: NativeState) -> bool {
        &&& forall|object: NativeObject| self.count(object) == other.count(object)
        &&& forall|context: usize| self.guard_shares(context) == other.guard_shares(context)
        &&& self.events =~= other.events
    }

    /// The guard of every context has as many shares as the context has
    /// references: it is given up when the context is, and not before.
    pub open spec fn guards_match(self) -> bool {
        forall|context: usize|
            self.guard_shares(context) == self.count(
                NativeObject { kind: ObjectKind::Context, raw: context },
            )
    }
}

/// Taking a reference and giving it back leaves the engine as it was.
pub proof fn law_retain_then_release(state: NativeState, object: NativeObject)
    ensures
        state.after(NativeCall::Retain(object)).after(NativeCall::Release(object)).same_as(state),
        state.after(NativeCall::Retain(object)).count(object) == state.count(object) + 1,
{
}

/// Cloning a handle and dropping both the clone and the handle leaves every
/// reference count where dropping the handle alone leaves it, and the object
/// stays alive until the second of the two is dropped.
pub proof fn law_clone_then_drop_both(state: NativeState, object: NativeObject)
    requires
        state.is_live(object),
    ensures
        state.after(NativeCall::Retain(object)).after(NativeCall::Release(object)).after(
            NativeCall::Release(object),
        ).same_as(state.after(NativeCall::Release(object))),
        state.after(NativeCall::Retain(object)).after(NativeCall::Release(object)).is_live(object),
{
}

/// No call breaks the match between a context's references and the shares
/// of its guard.
pub proof fn law_guard_follows_context(state: NativeState, call: NativeCall)
    requires
        state.guards_match(),
    ensures
        state.after(call).guards_match(),
{
    let next = state.after(call);
    assert forall|context: usize|
        next.guard_shares(context) == next.count(
            NativeObject { kind: ObjectKind::Context, raw: context },
        ) by {
        let object = NativeObject { kind: ObjectKind::Context, raw: context };
        assert(state.guard_shares(context) == state.count(object));
    }
}

} // verus!
