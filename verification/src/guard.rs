//! The resource guard: the embedder's pair of functions that open and close
//! device files on the engine's behalf.
//!
//! The engine calls the pair through a boundary that knows integers only: a
//! number that is not negative is a descriptor, a negative number is a
//! failure, by convention the negated number of an operating system error.
//! The functions here turn what the embedder's functions gave into that
//! number. Whatever code the embedder reports a failure with, the engine
//! gets a negative one, so that it never takes a failure for a descriptor.

use vstd::prelude::*;

verus! {

/// What the guard reports when it cannot reach the embedder at all, and
/// when the embedder reports a failure without saying which.
pub const GUARD_UNREACHABLE: i32 = -1;

/// The number that tells the engine of a failed attempt to open a device,
/// given the code that the embedder reported: the code with a negative
/// sign, whichever sign it came with, and [`GUARD_UNREACHABLE`] for a code
/// of zero, which names no error.
pub open spec fn failure_code(errno: i32) -> int {
    if errno == 0 {
        GUARD_UNREACHABLE as int
    } else if errno < 0 {
        errno as int
    } else {
        -errno
    }
}

/// The number that tells the engine how an attempt to open a device ended:
/// the descriptor, or the code of the failure.
pub open spec fn restricted_code(outcome: Result<i32, i32>) -> int {
    match outcome {
        Ok(fd) => fd as int,
        Err(errno) => failure_code(errno),
    }
}

/// Turns the outcome of the embedder's open function into the number that
/// the engine expects. Every failure gives a negative number.
pub fn open_restricted(outcome: Result<i32, i32>) -> (code: i32)
    ensures
        code == restricted_code(outcome),
        outcome matches Ok(fd) ==> code == fd,
        outcome is Err ==> code < 0,
        outcome matches Err(errno) ==> (errno < 0 ==> code == errno),
        outcome matches Err(errno) ==> (errno > 0 ==> code == -errno),
        outcome matches Err(errno) ==> (errno == 0 ==> code == GUARD_UNREACHABLE),
{
    match outcome {
        Ok(fd) => fd,
        Err(errno) => {
            if errno < 0 {
                errno
            } else if errno > 0 {
                -errno
            } else {
                GUARD_UNREACHABLE
            }
        },
    }
}

/// The outcome of an open request that went to the embedder over a pair of
/// channels: `sent` tells whether the request could be sent, `reply` holds
/// the descriptor that came back, if one came. A request that could not be
/// sent, or that got no reply, has failed.
pub fn open_over_channel(sent: bool, reply: Option<i32>) -> (outcome: Result<i32, i32>)
    ensures
        sent && reply is Some ==> outcome == Ok::<i32, i32>(reply->Some_0),
        !(sent && reply is Some) ==> outcome == Err::<i32, i32>(GUARD_UNREACHABLE),
{
    if !sent {
        return Err(GUARD_UNREACHABLE);
    }
    match reply {
        Some(fd) => Ok(fd),
        None => Err(GUARD_UNREACHABLE),
    }
}

/// A failure of the embedder's open function, with any code, reaches the
/// engine as a negative code: one that the engine cannot take for a
/// descriptor. A code that names an error keeps its size.
pub proof fn law_failure_is_negative(errno: i32)
    ensures
        restricted_code(Err(errno)) < 0,
        i32::MIN <= restricted_code(Err(errno)),
        errno < 0 ==> restricted_code(Err(errno)) == errno,
        errno > 0 ==> restricted_code(Err(errno)) == -errno,
        errno == 0 ==> restricted_code(Err(errno)) == GUARD_UNREACHABLE,
{
}

/// A guard that cannot reach the embedder reports a failure to the engine:
/// whether the request was lost or the reply, the engine gets
/// [`GUARD_UNREACHABLE`].
pub proof fn law_unreachable_is_failure()
    ensures
        restricted_code(Err(GUARD_UNREACHABLE)) == GUARD_UNREACHABLE,
        restricted_code(Err(GUARD_UNREACHABLE)) < 0,
{
}

} // verus!
