//! Random bytes from the Linux kernel, as a sequence of decisions.
//!
//! A request first tries the kernel's random-fill call for as long as that
//! makes progress. What is left unfilled when the call is missing, forbidden
//! or would have to wait goes to the non-blocking random device; a secure
//! request waits until the pool is seeded before that, an insecure one does
//! not.
//!
//! Secure data                        | Insecure data
//! -----------------------------------|---------------------------------
//! kernel call, no flags              | kernel call, fast-insecure flag
//! poll blocking device, read device  | kernel call, non-blocking flag
//!                                    | read device
//!
//! The request decides and the embedding program acts: each [`Action`] names
//! one thing to ask of the operating system, and the [`Event`] that reports
//! its outcome yields the next action.
//!
//! ```ignore
//! let mut caps = probe.snapshot();
//! let (mut request, mut action) = fill_bytes(buffer.len(), &caps);
//! loop {
//!     let event = match action {
//!         Action::Done => break,
//!         Action::Abort(fatal) => panic!("{}", fatal.message()),
//!         Action::Syscall { offset, count, flags } => Event::Kernel(/* call the kernel */),
//!         Action::Poll => Event::Polled(/* poll the blocking device */),
//!         Action::Read { offset, count } => Event::Read(/* read the device */),
//!     };
//!     caps = probe.snapshot();
//!     action = request.resume(&mut caps, event);
//!     probe.publish(&caps);
//! }
//! ```

use super::fatal::Fatal;
use super::probe::{Capabilities, CapabilityState};
use super::readiness::{must_wait, Passage, PollOutcome};
use super::syscall::{Flags, KernelOutcome, Verdict};
use crate::bytes::{spells, u64_from_ne_bytes};
use vstd::prelude::*;

verus! {

/// Where a request stands.
#[derive(Clone, Copy, Debug, PartialEq, Eq)]
pub enum Stage {
    /// A kernel call with these flags has been asked for.
    Kernel(Flags),
    /// A poll of the blocking device has been asked for.
    Waiting,
    /// A read of the non-blocking device has been asked for.
    Device,
    /// Every byte is filled.
    Done,
    /// The request was aborted.
    Failed(Fatal),
}

/// What a request asks of the embedding program.
#[derive(Clone, Copy, Debug, PartialEq, Eq)]
pub enum Action {
    /// Call the kernel's random-fill call with `flags` on the `count` bytes
    /// of the buffer that start at `offset`, and report what it returned.
    Syscall { offset: usize, count: usize, flags: Flags },
    /// Open the blocking random device for reading, unless this request has
    /// done so before; poll it, and nothing else, for "readable" without a
    /// timeout; and report what the poll returned.
    Poll,
    /// Read exactly `count` bytes into the buffer at `offset` from the one
    /// handle that the process keeps to the non-blocking random device,
    /// opening it for reading if no request has done so before; and report
    /// whether all of them arrived.
    Read { offset: usize, count: usize },
    /// Nothing more: the whole buffer is filled.
    Done,
    /// Nothing more: the request failed and the buffer must not be used.
    Abort(Fatal),
}

/// How a read of the non-blocking random device ended.
#[derive(Clone, Copy, Debug, PartialEq, Eq)]
pub enum ReadOutcome {
    /// Every byte asked for was read.
    Complete,
    /// The device could not be opened, ended early, or failed.
    Failed,
}

/// The outcome of the action that a request asked for last.
#[derive(Clone, Copy, Debug, PartialEq, Eq)]
pub enum Event {
    /// Answers [`Action::Syscall`].
    Kernel(KernelOutcome),
    /// Answers [`Action::Poll`].
    Polled(PollOutcome),
    /// Answers [`Action::Read`].
    Read(ReadOutcome),
}

/// The mathematical content of a [`Request`].
pub struct Progress {
    /// The length of the caller's buffer.
    pub len: nat,
    /// The length of the prefix that is filled.
    pub filled: nat,
    /// Whether the caller accepts output from an unseeded pool.
    pub insecure: bool,
    /// What the request is waiting for.
    pub stage: Stage,
}

/// One decision: the request and the capabilities as they stand after it,
/// and what is asked of the embedding program.
pub struct Step {
    pub request: Progress,
    pub caps: Capabilities,
    pub action: Action,
}

impl Progress {
    /// What holds of every request: the filled prefix lies within the
    /// buffer, covers it exactly when the request is done and not yet while
    /// it is under way, and is void once the request has failed; a secure
    /// request calls the kernel with no flags and an insecure one never
    /// without, and only a secure request waits for readiness.
    pub open spec fn wf(self) -> bool {
        &&& self.len <= usize::MAX
        &&& self.filled <= self.len
        &&& match self.stage {
            Stage::Kernel(flags) => self.filled < self.len && (flags is Blocking <==> !self.insecure),
            Stage::Waiting => self.filled < self.len && !self.insecure,
            Stage::Device => self.filled < self.len,
            Stage::Done => self.filled == self.len,
            Stage::Failed(_) => self.filled == 0,
        }
    }

    /// The number of bytes that are not filled yet.
    pub open spec fn remaining(self) -> nat {
        (self.len - self.filled) as nat
    }

    /// The top of the kernel-call loop, with `filled` of `len` bytes filled:
    /// done when nothing remains, one more attempt while the call is
    /// believed to work, the fallback otherwise.
    pub open spec fn attempt(len: nat, filled: nat, insecure: bool, caps: Capabilities) -> (
        Progress,
        Action,
    ) {
        if filled == len {
            (Progress { len, filled, insecure, stage: Stage::Done }, Action::Done)
        } else if caps.syscall_available {
            let flags = Flags::selected(caps, insecure);
            (
                Progress { len, filled, insecure, stage: Stage::Kernel(flags) },
                Action::Syscall { offset: filled as usize, count: (len - filled) as usize, flags },
            )
        } else {
            Progress::fall_back(len, filled, insecure, caps)
        }
    }

    /// The fallback for what the kernel call left unfilled: a secure request
    /// waits until the pool is known to be seeded; otherwise the device is
    /// read at once.
    pub open spec fn fall_back(len: nat, filled: nat, insecure: bool, caps: Capabilities) -> (
        Progress,
        Action,
    ) {
        if !insecure && !caps.pool_ready {
            (Progress { len, filled, insecure, stage: Stage::Waiting }, Action::Poll)
        } else {
            Progress::read_device(len, filled, insecure)
        }
    }

    /// The last resort: an exact-length read of the non-blocking device.
    pub open spec fn read_device(len: nat, filled: nat, insecure: bool) -> (Progress, Action) {
        (
            Progress { len, filled, insecure, stage: Stage::Device },
            Action::Read { offset: filled as usize, count: (len - filled) as usize },
        )
    }

    /// The end of a request that cannot be served: nothing counts as filled.
    pub open spec fn fail(len: nat, insecure: bool, fatal: Fatal) -> (Progress, Action) {
        (Progress { len, filled: 0, insecure, stage: Stage::Failed(fatal) }, Action::Abort(fatal))
    }

    /// The first decision of a request for `len` bytes: the top of the
    /// kernel-call loop with nothing filled.
    pub open spec fn begin(len: nat, insecure: bool, caps: Capabilities) -> (Progress, Action) {
        Progress::attempt(len, 0, insecure, caps)
    }

    /// The decision that follows the report `event`.
    ///
    /// A finished request repeats its last word whatever is reported. A
    /// request under way judges the outcome it was waiting for, and fails on
    /// any other.
    pub open spec fn step(self, caps: Capabilities, event: Event) -> Step {
        let (len, filled, insecure) = (self.len, self.filled, self.insecure);
        match (self.stage, event) {
            (Stage::Done, _) => Step { request: self, caps, action: Action::Done },
            (Stage::Failed(fatal), _) => Step { request: self, caps, action: Action::Abort(fatal) },
            (Stage::Kernel(flags), Event::Kernel(outcome)) => {
                let (caps, verdict) = Verdict::of(caps, flags, self.remaining(), outcome);
                let (request, action) = match verdict {
                    Verdict::Advance(n) => Progress::attempt(len, filled + n as nat, insecure, caps),
                    Verdict::Retry => Progress::attempt(len, filled, insecure, caps),
                    Verdict::Fallback => Progress::fall_back(len, filled, insecure, caps),
                    Verdict::Abort(fatal) => Progress::fail(len, insecure, fatal),
                };
                Step { request, caps, action }
            },
            (Stage::Waiting, Event::Polled(outcome)) => {
                let (caps, passage) = Passage::of(caps, outcome);
                let (request, action) = match passage {
                    Passage::Open => Progress::read_device(len, filled, insecure),
                    Passage::Retry => Progress::fall_back(len, filled, insecure, caps),
                    Passage::Abort(fatal) => Progress::fail(len, insecure, fatal),
                };
                Step { request, caps, action }
            },
            (Stage::Device, Event::Read(ReadOutcome::Complete)) => Step {
                request: Progress { len, filled: len, insecure, stage: Stage::Done },
                caps,
                action: Action::Done,
            },
            (Stage::Device, Event::Read(ReadOutcome::Failed)) => {
                let (request, action) = Progress::fail(len, insecure, Fatal::Device);
                Step { request, caps, action }
            },
            _ => {
                let (request, action) = Progress::fail(len, insecure, Fatal::Protocol);
                Step { request, caps, action }
            },
        }
    }
}

/// One request for random bytes, from its first decision to its end.
#[derive(Clone, Copy, Debug, PartialEq, Eq)]
pub struct Request {
    len: usize,
    filled: usize,
    insecure: bool,
    stage: Stage,
}

impl View for Request {
    type V = Progress;

    closed spec fn view(&self) -> Progress {
        Progress {
            len: self.len as nat,
            filled: self.filled as nat,
            insecure: self.insecure,
            stage: self.stage,
        }
    }
}

fn attempt(len: usize, filled: usize, insecure: bool, caps: &CapabilityState) -> (next: (
    Request,
    Action,
))
    requires
        filled <= len,
    ensures
        (next.0@, next.1) == Progress::attempt(len as nat, filled as nat, insecure, caps@),
{
    if filled == len {
        (Request { len, filled, insecure, stage: Stage::Done }, Action::Done)
    } else if caps.syscall_available() {
        let flags = Flags::select(caps, insecure);
        (
            Request { len, filled, insecure, stage: Stage::Kernel(flags) },
            Action::Syscall { offset: filled, count: len - filled, flags },
        )
    } else {
        fall_back(len, filled, insecure, caps)
    }
}

fn fall_back(len: usize, filled: usize, insecure: bool, caps: &CapabilityState) -> (next: (
    Request,
    Action,
))
    requires
        filled < len,
    ensures
        (next.0@, next.1) == Progress::fall_back(len as nat, filled as nat, insecure, caps@),
{
    if !insecure && must_wait(caps) {
        (Request { len, filled, insecure, stage: Stage::Waiting }, Action::Poll)
    } else {
        read_device(len, filled, insecure)
    }
}

fn read_device(len: usize, filled: usize, insecure: bool) -> (next: (Request, Action))
    requires
        filled < len,
    ensures
        (next.0@, next.1) == Progress::read_device(len as nat, filled as nat, insecure),
{
    (
        Request { len, filled, insecure, stage: Stage::Device },
        Action::Read { offset: filled, count: len - filled },
    )
}

fn fail(len: usize, insecure: bool, fatal: Fatal) -> (next: (Request, Action))
    ensures
        (next.0@, next.1) == Progress::fail(len as nat, insecure, fatal),
{
    (Request { len, filled: 0, insecure, stage: Stage::Failed(fatal) }, Action::Abort(fatal))
}

impl Request {
    #[verifier::type_invariant]
    spec fn well_formed(&self) -> bool {
        self@.wf()
    }

    /// The length of the caller's buffer.
    pub fn len(&self) -> (len: usize)
        ensures
            len == self@.len,
    {
        self.len
    }

    /// The length of the prefix that is filled.
    pub fn filled(&self) -> (filled: usize)
        ensures
            filled == self@.filled,
    {
        self.filled
    }

    /// Whether the caller accepts output from an unseeded pool.
    pub fn is_insecure(&self) -> (insecure: bool)
        ensures
            insecure == self@.insecure,
    {
        self.insecure
    }

    /// What the request is waiting for.
    pub fn stage(&self) -> (stage: Stage)
        ensures
            stage == self@.stage,
    {
        self.stage
    }

    /// Takes the report of the action that was asked for last, and decides
    /// what is next.
    pub fn resume(&mut self, caps: &mut CapabilityState, event: Event) -> (action: Action)
        ensures
            (Step { request: final(self)@, caps: final(caps)@, action }) == old(self)@.step(
                old(caps)@,
                event,
            ),
            final(self)@.wf(),
            action is Done ==> final(self)@.filled == final(self)@.len,
            action is Abort ==> final(self)@.filled == 0,
    {
        proof {
            use_type_invariant(&*self);
        }
        let (len, filled, insecure) = (self.len, self.filled, self.insecure);
        let (next, action) = match (self.stage, event) {
            (Stage::Done, _) => { return Action::Done; },
            (Stage::Failed(fatal), _) => { return Action::Abort(fatal); },
            (Stage::Kernel(flags), Event::Kernel(outcome)) => {
                match Verdict::judge(caps, flags, len - filled, outcome) {
                    Verdict::Advance(n) => attempt(len, filled + n, insecure, caps),
                    Verdict::Retry => attempt(len, filled, insecure, caps),
                    Verdict::Fallback => fall_back(len, filled, insecure, caps),
                    Verdict::Abort(fatal) => fail(len, insecure, fatal),
                }
            },
            (Stage::Waiting, Event::Polled(outcome)) => {
                match Passage::judge(caps, outcome) {
                    Passage::Open => read_device(len, filled, insecure),
                    Passage::Retry => fall_back(len, filled, insecure, caps),
                    Passage::Abort(fatal) => fail(len, insecure, fatal),
                }
            },
            (Stage::Device, Event::Read(ReadOutcome::Complete)) => (
                Request { len, filled: len, insecure, stage: Stage::Done },
                Action::Done,
            ),
            (Stage::Device, Event::Read(ReadOutcome::Failed)) => fail(len, insecure, Fatal::Device),
            _ => fail(len, insecure, Fatal::Protocol),
        };
        *self = next;
        action
    }
}

/// Begins a request for `len` random bytes and makes its first decision.
///
/// Nothing is asked of the operating system for an empty buffer. Otherwise
/// the kernel call comes first for as long as it is believed to work, and
/// the fallback when it is not.
pub fn getrandom(len: usize, insecure: bool, caps: &CapabilityState) -> (begun: (Request, Action))
    ensures
        (begun.0@, begun.1) == Progress::begin(len as nat, insecure, caps@),
        begun.0@.wf(),
        begun.1 is Done <==> len == 0,
        !(begun.1 is Abort),
{
    attempt(len, 0, insecure, caps)
}

/// Begins a request for `len` bytes of cryptographic strength: bytes that
/// the kernel releases only once its pool is seeded.
pub fn fill_bytes(len: usize, caps: &CapabilityState) -> (begun: (Request, Action))
    ensures
        (begun.0@, begun.1) == Progress::begin(len as nat, false, caps@),
        begun.0@.wf(),
        begun.1 is Done <==> len == 0,
        !(begun.1 is Abort),
{
    getrandom(len, false, caps)
}

/// Begins the request that serves the keys of a hash map: sixteen bytes of
/// the best random data that is to be had without waiting. So the request
/// is insecure, and its first decision is a kernel call with a flag that
/// returns at once, or a read of the device; it never polls.
pub fn hashmap_keys_request(caps: &CapabilityState) -> (begun: (Request, Action))
    ensures
        (begun.0@, begun.1) == Progress::begin(16, true, caps@),
        begun.0@.wf(),
        !(begun.1 is Poll),
        !(begun.1 is Abort),
        !(begun.1 is Done),
{
    getrandom(16, true, caps)
}

/// The two keys that seed a hash map, from sixteen random bytes of any
/// grade: each key is read from its own half of the bytes, in the byte order
/// of the machine.
pub fn hashmap_random_keys(bytes: &[u8; 16]) -> (keys: (u64, u64))
    ensures
        spells(bytes@.subrange(0, 8), keys.0 as nat),
        spells(bytes@.subrange(8, 16), keys.1 as nat),
{
    let first = [bytes[0], bytes[1], bytes[2], bytes[3], bytes[4], bytes[5], bytes[6], bytes[7]];
    let second = [
        bytes[8],
        bytes[9],
        bytes[10],
        bytes[11],
        bytes[12],
        bytes[13],
        bytes[14],
        bytes[15],
    ];
    assert(first@ == bytes@.subrange(0, 8));
    assert(second@ == bytes@.subrange(8, 16));
    (u64_from_ne_bytes(first), u64_from_ne_bytes(second))
}

} // verus!
