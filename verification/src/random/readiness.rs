//! Waiting until the kernel's entropy pool is seeded.
//!
//! Readiness is learned by polling the blocking random device for
//! "readable" with no timeout, and is never forgotten once learned.

use super::fatal::Fatal;
use super::platform::Numbers;
use super::probe::{Capabilities, CapabilityState};
use vstd::prelude::*;

verus! {

/// What one poll of the blocking random device reported.
#[derive(Clone, Copy, Debug, PartialEq, Eq)]
pub enum PollOutcome {
    /// The device could not be opened, so nothing was polled.
    OpenFailed,
    /// The device is readable: the pool is seeded.
    Readable,
    /// One descriptor was reported, but not with the "readable" event alone.
    UnexpectedEvents,
    /// The poll was interrupted.
    Interrupted,
    /// The poll failed, or returned what an endless poll of one descriptor
    /// cannot return.
    Failed,
}

/// What a waiting request does after one poll.
#[derive(Clone, Copy, Debug, PartialEq, Eq)]
pub enum Passage {
    /// The pool is seeded: go on to the device.
    Open,
    /// Ask again, unless readiness has become known meanwhile.
    Retry,
    /// Abort the whole request.
    Abort(Fatal),
}

impl PollOutcome {
    /// What the return value of a poll of one descriptor means: `1` with the
    /// "readable" event is readiness, `1` with anything else is unexpected,
    /// `-1` with the interruption error is an interruption, and everything
    /// else a failure.
    pub open spec fn read(ret: i32, revents: i16, errno: i32, numbers: Numbers) -> PollOutcome {
        if ret == 1 {
            if revents == numbers.readable_event {
                PollOutcome::Readable
            } else {
                PollOutcome::UnexpectedEvents
            }
        } else if ret == -1 && errno == numbers.interrupted {
            PollOutcome::Interrupted
        } else {
            PollOutcome::Failed
        }
    }

    /// Reads the return value of a poll of one descriptor, the events it
    /// reported, and the error number that was current right after it.
    pub fn from_raw(ret: i32, revents: i16, errno: i32, numbers: &Numbers) -> (outcome: PollOutcome)
        ensures
            outcome == PollOutcome::read(ret, revents, errno, *numbers),
    {
        if ret == 1 {
            if revents == numbers.readable_event {
                PollOutcome::Readable
            } else {
                PollOutcome::UnexpectedEvents
            }
        } else if ret == -1 && errno == numbers.interrupted {
            PollOutcome::Interrupted
        } else {
            PollOutcome::Failed
        }
    }
}

impl Passage {
    /// What follows from one poll, and the capabilities as they stand
    /// afterwards: readiness is recorded, an interruption retried, and
    /// every other outcome fatal.
    pub open spec fn of(caps: Capabilities, outcome: PollOutcome) -> (Capabilities, Passage) {
        match outcome {
            PollOutcome::Readable => (Capabilities { pool_ready: true, ..caps }, Passage::Open),
            PollOutcome::Interrupted => (caps, Passage::Retry),
            PollOutcome::OpenFailed => (caps, Passage::Abort(Fatal::OpenBlockingDevice)),
            PollOutcome::UnexpectedEvents => (caps, Passage::Abort(Fatal::PollEvents)),
            PollOutcome::Failed => (caps, Passage::Abort(Fatal::Poll)),
        }
    }

    /// Judges one poll and records readiness in `caps`.
    pub fn judge(caps: &mut CapabilityState, outcome: PollOutcome) -> (passage: Passage)
        ensures
            (final(caps)@, passage) == Passage::of(old(caps)@, outcome),
    {
        match outcome {
            PollOutcome::Readable => {
                caps.mark_pool_ready();
                Passage::Open
            },
            PollOutcome::Interrupted => Passage::Retry,
            PollOutcome::OpenFailed => Passage::Abort(Fatal::OpenBlockingDevice),
            PollOutcome::UnexpectedEvents => Passage::Abort(Fatal::PollEvents),
            PollOutcome::Failed => Passage::Abort(Fatal::Poll),
        }
    }
}

/// Whether a secure request has to wait before it reads the device: only
/// while readiness is not yet known.
pub fn must_wait(caps: &CapabilityState) -> (wait: bool)
    ensures
        wait == !caps@.pool_ready,
{
    !caps.pool_ready()
}

} // verus!
