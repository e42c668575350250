//! How what is sent to the compositor is brought on its way.
use vstd::prelude::*;

verus! {

/// What came of an attempt to send all that is to be sent.
#[derive(Clone, Copy, Debug, PartialEq, Eq, Structural)]
pub enum Flushed {
    Sent,
    WouldBlock,
    Failed,
}

/// What came of waiting until something can be sent.
#[derive(Clone, Copy, Debug, PartialEq, Eq, Structural)]
pub enum Polled {
    TimedOut,
    Ready,
    Failed,
}

/// What is done next.
#[derive(Clone, Copy, Debug, PartialEq, Eq, Structural)]
pub enum FlushStep {
    /// Nothing: all has been sent.
    Finish,
    /// Wait until something can be sent, for at most so long.
    Wait { millis: u32 },
    /// Send what is to be sent, for the second time.
    Retry,
    /// Nothing for now: sending is tried again when events have been handled the next time.
    Postpone,
    /// Give up: the connection is of no use any longer.
    Abort,
}

/// What is done after an attempt to send. `retried` says whether it was the second one, after
/// which there is no waiting any more.
pub fn after_flush(flushed: Flushed, retried: bool) -> (step: FlushStep)
    ensures
        step == (match flushed {
            Flushed::Sent => FlushStep::Finish,
            Flushed::WouldBlock if !retried => FlushStep::Wait { millis: 50 },
            _ => FlushStep::Abort,
        }),
{
    match flushed {
        Flushed::Sent => FlushStep::Finish,
        Flushed::WouldBlock => if retried {
            FlushStep::Abort
        } else {
            FlushStep::Wait { millis: 50 }
        },
        Flushed::Failed => FlushStep::Abort,
    }
}

/// What is done after waiting.
pub fn after_poll(polled: Polled) -> (step: FlushStep)
    ensures
        step == (if polled == Polled::Ready {
            FlushStep::Retry
        } else {
            FlushStep::Postpone
        }),
{
    match polled {
        Polled::Ready => FlushStep::Retry,
        Polled::TimedOut => FlushStep::Postpone,
        Polled::Failed => FlushStep::Postpone,
    }
}

} // verus!
