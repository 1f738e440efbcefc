//! Failures that end a request for random bytes.

use vstd::prelude::*;

verus! {

/// An unexpected failure of the operating system, or a misuse of a request.
///
/// Every one of them aborts the request it occurs in: the caller gets no
/// bytes, not even those that were written before the failure.
#[derive(Clone, Copy, Debug, PartialEq, Eq)]
pub enum Fatal {
    /// The kernel call failed with an error that no fallback covers.
    Kernel,
    /// The kernel call reported a length that is negative or exceeds what it
    /// was asked for.
    Overrun,
    /// The blocking random device could not be opened.
    OpenBlockingDevice,
    /// Polling the blocking random device failed.
    Poll,
    /// Polling reported an event other than "readable".
    PollEvents,
    /// The non-blocking random device could not be opened or did not deliver
    /// the full length.
    Device,
    /// The platform's single random-bytes call reported a failure.
    Platform,
    /// An outcome was reported that does not answer what the request had
    /// asked for.
    Protocol,
}

impl Fatal {
    /// The words for this failure.
    pub open spec fn words(self) -> Seq<char> {
        match self {
            Fatal::Kernel | Fatal::Device | Fatal::Platform => "failed to generate random data"@,
            Fatal::Overrun => "random data overran its buffer"@,
            Fatal::OpenBlockingDevice => "failed to open /dev/random"@,
            Fatal::Poll | Fatal::PollEvents => "poll(\"/dev/random\") failed"@,
            Fatal::Protocol => "unexpected report for a request for random data"@,
        }
    }

    /// A short description, fit for the message of a panic.
    pub fn message(self) -> (text: &'static str)
        ensures
            text@ == self.words(),
    {
        match self {
            Fatal::Kernel | Fatal::Device | Fatal::Platform => "failed to generate random data",
            Fatal::Overrun => "random data overran its buffer",
            Fatal::OpenBlockingDevice => "failed to open /dev/random",
            Fatal::Poll | Fatal::PollEvents => "poll(\"/dev/random\") failed",
            Fatal::Protocol => "unexpected report for a request for random data",
        }
    }
}

} // verus!
