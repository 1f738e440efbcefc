//! Cached knowledge about which fast paths of the kernel are known to work.

use std::sync::atomic::{AtomicBool, Ordering};
use vstd::prelude::*;

verus! {

/// The mathematical content of a [`CapabilityState`]: three independent flags.
pub struct Capabilities {
    /// The kernel's random-fill call has not been found missing or forbidden.
    pub syscall_available: bool,
    /// The fast-insecure flag of that call has not been rejected.
    pub insecure_flag_available: bool,
    /// The kernel's entropy pool has been observed to be seeded.
    pub pool_ready: bool,
}

impl Capabilities {
    /// The state in which every process starts: both fast paths are presumed
    /// to work and nothing is known about the pool.
    pub open spec fn initial() -> Capabilities {
        Capabilities { syscall_available: true, insecure_flag_available: true, pool_ready: false }
    }

    /// `later` can be reached from `self` by one-way transitions only: the two
    /// availability flags may fall but never rise, and the readiness flag may
    /// rise but never fall.
    pub open spec fn advances_to(self, later: Capabilities) -> bool {
        &&& later.syscall_available ==> self.syscall_available
        &&& later.insecure_flag_available ==> self.insecure_flag_available
        &&& self.pool_ready ==> later.pool_ready
    }
}

/// Flags describing which fast paths are known to work.
///
/// An owner can only move each flag in one direction, so an observation
/// "unavailable" or "ready" stays true for as long as the value lives.
#[derive(Clone, Copy, Debug, PartialEq, Eq)]
pub struct CapabilityState {
    syscall_available: bool,
    insecure_flag_available: bool,
    pool_ready: bool,
}

impl View for CapabilityState {
    type V = Capabilities;

    closed spec fn view(&self) -> Capabilities {
        Capabilities {
            syscall_available: self.syscall_available,
            insecure_flag_available: self.insecure_flag_available,
            pool_ready: self.pool_ready,
        }
    }
}

impl CapabilityState {
    /// The state of a fresh process.
    pub fn new() -> (state: CapabilityState)
        ensures
            state@ == Capabilities::initial(),
    {
        CapabilityState { syscall_available: true, insecure_flag_available: true, pool_ready: false }
    }

    /// A state seeded with flags that were observed elsewhere.
    pub fn from_flags(
        syscall_available: bool,
        insecure_flag_available: bool,
        pool_ready: bool,
    ) -> (state: CapabilityState)
        ensures
            state@ == (Capabilities { syscall_available, insecure_flag_available, pool_ready }),
    {
        CapabilityState { syscall_available, insecure_flag_available, pool_ready }
    }

    /// Whether the kernel call may still be attempted.
    pub fn syscall_available(&self) -> (available: bool)
        ensures
            available == self@.syscall_available,
    {
        self.syscall_available
    }

    /// Whether the fast-insecure flag may still be requested.
    pub fn insecure_flag_available(&self) -> (available: bool)
        ensures
            available == self@.insecure_flag_available,
    {
        self.insecure_flag_available
    }

    /// Whether the entropy pool is known to be seeded.
    pub fn pool_ready(&self) -> (ready: bool)
        ensures
            ready == self@.pool_ready,
    {
        self.pool_ready
    }

    /// Records that the kernel call is missing or forbidden.
    pub fn mark_syscall_unavailable(&mut self)
        ensures
            final(self)@ == (Capabilities { syscall_available: false, ..old(self)@ }),
    {
        self.syscall_available = false;
    }

    /// Records that the kernel rejected the fast-insecure flag.
    pub fn mark_insecure_flag_unavailable(&mut self)
        ensures
            final(self)@ == (Capabilities { insecure_flag_available: false, ..old(self)@ }),
    {
        self.insecure_flag_available = false;
    }

    /// Records that the entropy pool was seen to be seeded.
    pub fn mark_pool_ready(&mut self)
        ensures
            final(self)@ == (Capabilities { pool_ready: true, ..old(self)@ }),
    {
        self.pool_ready = true;
    }
}

/// The capability flags of a process, shared between its threads.
///
/// Each flag is a cell of its own, read and written with relaxed ordering:
/// nothing depends on when a thread sees another's finding, only on each
/// flag moving one way. A thread that has not yet seen a finding makes one
/// attempt too many, and then finds the same.
///
/// What a thread reads here is what some thread wrote, at some time; so
/// nothing is promised of the values read.
pub struct CapabilityProbe {
    syscall_available: AtomicBool,
    insecure_flag_available: AtomicBool,
    pool_ready: AtomicBool,
}

impl CapabilityProbe {
    /// The cells of a fresh process: both fast paths presumed to work, and
    /// nothing known about the pool.
    pub fn new() -> (probe: CapabilityProbe) {
        CapabilityProbe {
            syscall_available: AtomicBool::new(true),
            insecure_flag_available: AtomicBool::new(true),
            pool_ready: AtomicBool::new(false),
        }
    }

    /// The flags as this thread sees them now.
    pub fn snapshot(&self) -> (state: CapabilityState) {
        CapabilityState::from_flags(
            self.syscall_available.load(Ordering::Relaxed),
            self.insecure_flag_available.load(Ordering::Relaxed),
            self.pool_ready.load(Ordering::Relaxed),
        )
    }

    /// Makes the findings of `state` known to all threads. A flag is only
    /// ever written in its one direction, so that threads cannot undo each
    /// other's findings.
    pub fn publish(&self, state: &CapabilityState) {
        if !state.syscall_available() {
            self.syscall_available.store(false, Ordering::Relaxed);
        }
        if !state.insecure_flag_available() {
            self.insecure_flag_available.store(false, Ordering::Relaxed);
        }
        if state.pool_ready() {
            self.pool_ready.store(true, Ordering::Relaxed);
        }
    }
}

/// Moving one way is a preorder: every state has advanced to itself, and a
/// state that has advanced to a second which has advanced to a third has
/// advanced to the third.
pub proof fn lemma_advancing_is_a_preorder(a: Capabilities, b: Capabilities, c: Capabilities)
    ensures
        a.advances_to(a),
        a.advances_to(b) && b.advances_to(c) ==> a.advances_to(c),
{
}

/// Each of the three marks moves its flag one way.
pub proof fn lemma_marks_advance(caps: Capabilities)
    ensures
        caps.advances_to(Capabilities { syscall_available: false, ..caps }),
        caps.advances_to(Capabilities { insecure_flag_available: false, ..caps }),
        caps.advances_to(Capabilities { pool_ready: true, ..caps }),
{
}

/// Two states that have each advanced to the other are the same state: no
/// flag ever comes back.
pub proof fn lemma_nothing_comes_back(a: Capabilities, b: Capabilities)
    requires
        a.advances_to(b),
        b.advances_to(a),
    ensures
        a == b,
{
}

} // verus!
