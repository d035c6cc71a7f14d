//! The way of a picture to the window.

use vstd::prelude::*;

verus! {

/// Milliseconds between two attempts to send a picture.
pub const SEND_BACKOFF_MS: u64 = 2;

/// What came of an attempt to send a picture.
#[derive(Debug, Clone, Copy, PartialEq, Eq, Structural)]
pub enum TrySend {
    /// It is on its way.
    Sent,
    /// There was no room.
    Full,
    /// Nobody waits for it any more.
    Closed,
}

/// What follows an attempt to send a picture.
#[derive(Debug, Clone, Copy, PartialEq, Eq, Structural)]
pub enum SendStep {
    /// It is on its way: the loop goes on.
    Done,
    /// Try again a little later. A picture is never given up for want of room.
    Again,
    /// The loop ends.
    Stop,
}

/// What follows an attempt to send a picture. `running` tells whether the loop is still wanted.
pub fn send_blocking(attempt: TrySend, running: bool) -> (r: SendStep)
    ensures
        r == (match attempt {
            TrySend::Sent => SendStep::Done,
            TrySend::Full => if running {
                SendStep::Again
            } else {
                SendStep::Stop
            },
            TrySend::Closed => SendStep::Stop,
        }),
{
    match attempt {
        TrySend::Sent => SendStep::Done,
        TrySend::Full => if running {
            SendStep::Again
        } else {
            SendStep::Stop
        },
        TrySend::Closed => SendStep::Stop,
    }
}

} // verus!
