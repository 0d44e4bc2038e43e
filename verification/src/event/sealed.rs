//! Keeps the set of event types closed.

use vstd::prelude::*;

verus! {

/// Implemented by the event types of this crate and by nothing else.
pub trait EventSealed {
}

} // verus!
