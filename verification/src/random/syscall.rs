//! One attempt of the kernel's random-fill call and what follows from it.

use super::fatal::Fatal;
use super::platform::Numbers;
use super::probe::{Capabilities, CapabilityState};
use vstd::prelude::*;

verus! {

/// How the kernel call is asked to behave.
#[derive(Clone, Copy, Debug, PartialEq, Eq)]
pub enum Flags {
    /// No flag: the call waits until the pool is seeded.
    Blocking,
    /// The call fails rather than wait for the pool.
    NonBlocking,
    /// The call answers at once, with whatever quality is available.
    Insecure,
}

/// An error of the kernel call, as far as the fallback logic tells errors
/// apart.
#[derive(Clone, Copy, Debug, PartialEq, Eq)]
pub enum Errno {
    /// The call was interrupted before it wrote anything.
    Interrupted,
    /// The kernel did not understand an argument.
    InvalidArgument,
    /// The call would have had to wait.
    WouldBlock,
    /// The kernel has no such call.
    NotImplemented,
    /// The call is forbidden to this process.
    PermissionDenied,
    /// Any other error, with its number.
    Other(i32),
}

/// What one attempt of the kernel call reported.
#[derive(Clone, Copy, Debug, PartialEq, Eq)]
pub enum KernelOutcome {
    /// The call wrote this many bytes at the start of the buffer.
    Wrote(usize),
    /// The call failed.
    Failed(Errno),
    /// The call returned a negative number other than the failure marker.
    Malformed,
}

/// What the fill loop does after one attempt.
#[derive(Clone, Copy, Debug, PartialEq, Eq)]
pub enum Verdict {
    /// Skip the bytes just written and go round the loop again.
    Advance(usize),
    /// Go round the loop again without advancing.
    Retry,
    /// Leave the loop and hand the unfilled rest to the fallback.
    Fallback,
    /// Abort the whole request.
    Abort(Fatal),
}

impl Flags {
    /// The flags for the next attempt: none for a secure request; for an
    /// insecure one the fast-insecure flag while it is believed to work, and
    /// the non-blocking flag after that.
    pub open spec fn selected(caps: Capabilities, insecure: bool) -> Flags {
        if !insecure {
            Flags::Blocking
        } else if caps.insecure_flag_available {
            Flags::Insecure
        } else {
            Flags::NonBlocking
        }
    }

    /// Selects the flags for the next attempt.
    pub fn select(caps: &CapabilityState, insecure: bool) -> (flags: Flags)
        ensures
            flags == Flags::selected(caps@, insecure),
    {
        if !insecure {
            Flags::Blocking
        } else if caps.insecure_flag_available() {
            Flags::Insecure
        } else {
            Flags::NonBlocking
        }
    }

    /// The argument that stands for these flags under the given numbers.
    pub open spec fn encoded(self, numbers: Numbers) -> u32 {
        match self {
            Flags::Blocking => 0,
            Flags::NonBlocking => numbers.nonblock_flag,
            Flags::Insecure => numbers.insecure_flag,
        }
    }

    /// The argument to pass to the kernel call for these flags.
    pub fn bits(self, numbers: &Numbers) -> (bits: u32)
        ensures
            bits == self.encoded(*numbers),
    {
        match self {
            Flags::Blocking => 0,
            Flags::NonBlocking => numbers.nonblock_flag,
            Flags::Insecure => numbers.insecure_flag,
        }
    }
}

impl Errno {
    /// The kind of error that `code` stands for under the given numbers.
    pub open spec fn classified(code: i32, numbers: Numbers) -> Errno {
        if code == numbers.interrupted {
            Errno::Interrupted
        } else if code == numbers.invalid_argument {
            Errno::InvalidArgument
        } else if code == numbers.would_block {
            Errno::WouldBlock
        } else if code == numbers.not_implemented {
            Errno::NotImplemented
        } else if code == numbers.permission_denied {
            Errno::PermissionDenied
        } else {
            Errno::Other(code)
        }
    }

    /// Tells the errors apart that the fallback logic treats differently.
    pub fn classify(code: i32, numbers: &Numbers) -> (errno: Errno)
        ensures
            errno == Errno::classified(code, *numbers),
    {
        if code == numbers.interrupted {
            Errno::Interrupted
        } else if code == numbers.invalid_argument {
            Errno::InvalidArgument
        } else if code == numbers.would_block {
            Errno::WouldBlock
        } else if code == numbers.not_implemented {
            Errno::NotImplemented
        } else if code == numbers.permission_denied {
            Errno::PermissionDenied
        } else {
            Errno::Other(code)
        }
    }
}

impl KernelOutcome {
    /// What a return value of the kernel call means: `-1` announces an error,
    /// whose number the caller read right after the call; any other negative
    /// number is malformed; the rest is a count of bytes written.
    pub open spec fn read(ret: isize, errno: i32, numbers: Numbers) -> KernelOutcome {
        if ret == -1 {
            KernelOutcome::Failed(Errno::classified(errno, numbers))
        } else if ret < 0 {
            KernelOutcome::Malformed
        } else {
            KernelOutcome::Wrote(ret as usize)
        }
    }

    /// Reads the return value of the kernel call, and the error number that
    /// was current right after it.
    pub fn from_raw(ret: isize, errno: i32, numbers: &Numbers) -> (outcome: KernelOutcome)
        ensures
            outcome == KernelOutcome::read(ret, errno, *numbers),
    {
        if ret == -1 {
            KernelOutcome::Failed(Errno::classify(errno, numbers))
        } else if ret < 0 {
            KernelOutcome::Malformed
        } else {
            KernelOutcome::Wrote(ret as usize)
        }
    }
}

impl Verdict {
    /// What follows from an attempt that was made with `flags` on a buffer
    /// of `remaining` bytes, and the capabilities as they stand afterwards.
    ///
    /// - Bytes written are skipped; more than were asked for is fatal.
    /// - An interruption is retried.
    /// - A rejected fast-insecure flag is recorded and the attempt retried.
    /// - A non-blocking attempt that would have had to wait ends the loop.
    /// - A missing or forbidden call is recorded and ends the loop.
    /// - Everything else is fatal.
    pub open spec fn of(
        caps: Capabilities,
        flags: Flags,
        remaining: nat,
        outcome: KernelOutcome,
    ) -> (Capabilities, Verdict) {
        match outcome {
            KernelOutcome::Wrote(n) => if n <= remaining {
                (caps, Verdict::Advance(n))
            } else {
                (caps, Verdict::Abort(Fatal::Overrun))
            },
            KernelOutcome::Malformed => (caps, Verdict::Abort(Fatal::Overrun)),
            KernelOutcome::Failed(Errno::Interrupted) => (caps, Verdict::Retry),
            KernelOutcome::Failed(Errno::InvalidArgument) => if flags is Insecure {
                (Capabilities { insecure_flag_available: false, ..caps }, Verdict::Retry)
            } else {
                (caps, Verdict::Abort(Fatal::Kernel))
            },
            KernelOutcome::Failed(Errno::WouldBlock) => if flags is NonBlocking {
                (caps, Verdict::Fallback)
            } else {
                (caps, Verdict::Abort(Fatal::Kernel))
            },
            KernelOutcome::Failed(Errno::NotImplemented)
            | KernelOutcome::Failed(Errno::PermissionDenied) => (
                Capabilities { syscall_available: false, ..caps },
                Verdict::Fallback,
            ),
            KernelOutcome::Failed(Errno::Other(_)) => (caps, Verdict::Abort(Fatal::Kernel)),
        }
    }

    /// Judges one attempt of the kernel call and records in `caps` what it
    /// revealed about the kernel.
    pub fn judge(
        caps: &mut CapabilityState,
        flags: Flags,
        remaining: usize,
        outcome: KernelOutcome,
    ) -> (verdict: Verdict)
        ensures
            (final(caps)@, verdict) == Verdict::of(old(caps)@, flags, remaining as nat, outcome),
    {
        match outcome {
            KernelOutcome::Wrote(n) => {
                if n <= remaining {
                    Verdict::Advance(n)
                } else {
                    Verdict::Abort(Fatal::Overrun)
                }
            },
            KernelOutcome::Malformed => Verdict::Abort(Fatal::Overrun),
            KernelOutcome::Failed(errno) => match errno {
                Errno::Interrupted => Verdict::Retry,
                Errno::InvalidArgument => match flags {
                    Flags::Insecure => {
                        caps.mark_insecure_flag_unavailable();
                        Verdict::Retry
                    },
                    _ => Verdict::Abort(Fatal::Kernel),
                },
                Errno::WouldBlock => match flags {
                    Flags::NonBlocking => Verdict::Fallback,
                    _ => Verdict::Abort(Fatal::Kernel),
                },
                Errno::NotImplemented | Errno::PermissionDenied => {
                    caps.mark_syscall_unavailable();
                    Verdict::Fallback
                },
                Errno::Other(_) => Verdict::Abort(Fatal::Kernel),
            },
        }
    }
}

/// Under numbers that tell apart, nothing is taken for something else: each
/// of the five error numbers is read as its own kind, every other number as
/// itself, and the three ways to ask are three different arguments.
pub proof fn lemma_told_apart_is_read_aright(numbers: Numbers)
    requires
        numbers.tells_apart(),
    ensures
        Errno::classified(numbers.interrupted, numbers) == Errno::Interrupted,
        Errno::classified(numbers.invalid_argument, numbers) == Errno::InvalidArgument,
        Errno::classified(numbers.would_block, numbers) == Errno::WouldBlock,
        Errno::classified(numbers.not_implemented, numbers) == Errno::NotImplemented,
        Errno::classified(numbers.permission_denied, numbers) == Errno::PermissionDenied,
        forall|code: i32|
            #![trigger Errno::classified(code, numbers)]
            Errno::classified(code, numbers) is Other ==> Errno::classified(code, numbers)
                == Errno::Other(code),
        forall|a: Flags, b: Flags|
            #![trigger a.encoded(numbers), b.encoded(numbers)]
            a.encoded(numbers) == b.encoded(numbers) ==> a == b,
{
}

} // verus!
