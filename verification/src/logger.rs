//! Routing the engine's log output to a callback of the embedder.

use vstd::prelude::*;

use crate::native::{NativeCall, NativeState};
use crate::sys;

verus! {

/// The calls that set up logging for the context at `libinput`: none where
/// there is no logger; else the callback is installed, the context is told to
/// report everything, and its output is routed to the callback, in this
/// order.
pub open spec fn logger_calls(libinput: usize, logger: bool) -> Seq<NativeCall> {
    if logger {
        seq![
            NativeCall::SetLogCallback,
            NativeCall::SetLogPriority {
                context: libinput,
                priority: sys::LIBINPUT_LOG_PRIORITY_DEBUG,
            },
            NativeCall::SetLogHandler { context: libinput },
        ]
    } else {
        Seq::empty()
    }
}

/// Says which calls set up logging for the context at `libinput`. `logger`
/// tells whether the embedder has a callback to install.
pub fn setup_logger(libinput: usize, logger: bool) -> (calls: Vec<NativeCall>)
    ensures
        calls@ == logger_calls(libinput, logger),
{
    let mut calls: Vec<NativeCall> = Vec::new();
    if !logger {
        return calls;
    }
    calls.push(NativeCall::SetLogCallback);
    calls.push(
        NativeCall::SetLogPriority {
            context: libinput,
            priority: sys::LIBINPUT_LOG_PRIORITY_DEBUG,
        },
    );
    calls.push(NativeCall::SetLogHandler { context: libinput });
    calls
}

/// Setting up logging, with a logger or without, leaves every reference
/// count, every guard share and every event as it was.
pub proof fn law_logging_holds_nothing(state: NativeState, libinput: usize, logger: bool)
    ensures
        state.after_all(logger_calls(libinput, logger)).same_as(state),
{
    reveal_with_fuel(NativeState::after_all, 4);
    let calls = logger_calls(libinput, logger);
    if logger {
        assert(calls.drop_first().len() == 2);
        assert(calls.drop_first().drop_first().len() == 1);
        assert(calls.drop_first().drop_first().drop_first().len() == 0);
    }
}

} // verus!
